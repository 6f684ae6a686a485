# SnowWeatherRouter, verified core

The router behind `libSnowWeatherRouter.so`, the NativeActivity host of the
HyperOS Flutter weather engine, with its logic verified in Verus.

- `src/` is the verified library:
  - `bytes.rs`: byte-string equality, substring search, JSON sniffing and the
    bounded copy into a C log buffer;
  - `codec.rs`: the method-name envelope of Flutter's StandardMethodCodec;
  - `messages.rs`: channel names, outgoing messages, replies and log messages;
  - `routing.rs`: how a platform message is answered, channel by channel;
  - `logline.rs`: the line logged for each platform message;
  - `router.rs`: the state machine that every NativeActivity callback, JNI call
    and engine message goes through, returning the effects to carry out;
  - `abi.rs`: handles, the callback table, engine arguments and entry offsets;
  - `laws.rs`: properties that span these functions.
- `app/` holds the native entry points: it calls the engine and the NDK
  through raw pointers, keeps the global router, and performs the effects.
- `tests/` exercises the library on concrete messages and callback sequences.
