//! The host side of the engine ABI: the handles of NDK objects the router
//! keeps, the callback table and arguments it hands to the engine, and the
//! offsets of the engine's entry points in its interface table.
use vstd::prelude::*;

verus! {

/// A native window, known by its address.
#[derive(Clone, Copy, PartialEq, Eq, Structural, Debug)]
pub struct ANativeWindow {
    pub handle: usize,
}

/// An input queue, known by its address.
#[derive(Clone, Copy, PartialEq, Eq, Structural, Debug)]
pub struct AInputQueue {
    pub handle: usize,
}

/// An input event, known by its address.
#[derive(Clone, Copy, PartialEq, Eq, Structural, Debug)]
pub struct AInputEvent {
    pub handle: usize,
}

/// A looper, known by its address.
#[derive(Clone, Copy, PartialEq, Eq, Structural, Debug)]
pub struct ALooper {
    pub handle: usize,
}

/// An entry of the callback table that the engine's shell holder reads: a
/// plain word, or one of the router's callbacks.
#[derive(Clone, Copy, PartialEq, Eq, Structural, Debug)]
pub enum HyperCallbackSlot {
    Word(usize),
    Noop,
    FirstFrame,
    PlatformMessage,
}

/// Number of entries in the callback table.
pub const HYPER_CALLBACK_COUNT: usize = 16;

/// Index of the launch metadata within the callback table.
pub const LAUNCH_METADATA_SLOT: usize = 13;

/// The callback table: its size word, the first-frame callback at 2, the
/// platform-message callback at 4, the launch metadata word at 13, and no-op
/// callbacks everywhere else.
pub open spec fn hyper_callback_layout() -> Seq<HyperCallbackSlot> {
    seq![
        HyperCallbackSlot::Word(0x68),
        HyperCallbackSlot::Noop,
        HyperCallbackSlot::FirstFrame,
        HyperCallbackSlot::Noop,
        HyperCallbackSlot::PlatformMessage,
        HyperCallbackSlot::Noop,
        HyperCallbackSlot::Noop,
        HyperCallbackSlot::Noop,
        HyperCallbackSlot::Noop,
        HyperCallbackSlot::Noop,
        HyperCallbackSlot::Noop,
        HyperCallbackSlot::Noop,
        HyperCallbackSlot::Noop,
        HyperCallbackSlot::Word(0x18),
        HyperCallbackSlot::Noop,
        HyperCallbackSlot::Noop,
    ]
}

/// Builds the callback table handed to the shell holder.
pub fn hyper_callback_table() -> (table: Vec<HyperCallbackSlot>)
    ensures
        table@ == hyper_callback_layout(),
{
    let mut table: Vec<HyperCallbackSlot> = Vec::new();
    table.push(HyperCallbackSlot::Word(0x68));
    table.push(HyperCallbackSlot::Noop);
    table.push(HyperCallbackSlot::FirstFrame);
    table.push(HyperCallbackSlot::Noop);
    table.push(HyperCallbackSlot::PlatformMessage);
    let mut index: usize = 5;
    while index <= 12
        invariant
            5 <= index <= 13,
            table@.len() == index,
            forall|j: int| 0 <= j < index ==> table@[j] == hyper_callback_layout()[j],
        decreases 13 - index,
    {
        table.push(HyperCallbackSlot::Noop);
        index = index + 1;
    }
    table.push(HyperCallbackSlot::Word(0x18));
    table.push(HyperCallbackSlot::Noop);
    table.push(HyperCallbackSlot::Noop);
    assert(table@ =~= hyper_callback_layout());
    table
}

/// The AOT library the engine loads.
pub const ARG_AOT: &'static str = "--aot-shared-library-name=libapp.so";

/// Where the engine finds the ICU data.
pub const ARG_ICU: &'static str = "--icu-symbol-prefix=_binary_icudtl_dat";

/// The rendering backend.
pub const ARG_IMPELLER: &'static str = "--impeller-backend=vulkan";

/// How many of the engine arguments the runtime is created with.
pub const ENGINE_ARGC: usize = 3;

/// The runtime version the router asks for.
pub const ENGINE_RUNTIME_VERSION: usize = 0x0200_0000;

/// The Dart entry point that the shell holder launches.
pub const ENTRYPOINT: &'static str = "main";

/// The locale the engine is told, as language and country.
pub const ENGINE_LOCALE_LANGUAGE: &'static str = "zh";

/// The country of the locale the engine is told.
pub const ENGINE_LOCALE_COUNTRY: &'static str = "CN";

/// How many strings the locale list has (language, country, three empty).
pub const ENGINE_LOCALE_COUNT: usize = 5;

/// The engine argument table: the AOT library, the ICU prefix and the
/// rendering backend, which also fills the last slot.
pub fn engine_args() -> (args: Vec<&'static str>)
    ensures
        args@ == seq![ARG_AOT, ARG_ICU, ARG_IMPELLER, ARG_IMPELLER],
{
    let mut args: Vec<&'static str> = Vec::new();
    args.push(ARG_AOT);
    args.push(ARG_ICU);
    args.push(ARG_IMPELLER);
    args.push(ARG_IMPELLER);
    assert(args@ =~= seq![ARG_AOT, ARG_ICU, ARG_IMPELLER, ARG_IMPELLER]);
    args
}

/// The entry points of the engine's interface table that the router calls.
#[derive(Clone, Copy, PartialEq, Eq, Structural, Debug)]
pub enum HyperEntry {
    RuntimeCreate,
    RuntimeDestroy,
    CreateShellHolder,
    DestroyShellHolder,
    ShellHolderLaunch,
    DispatchPlatformMessage,
    ReplyPlatformMessage,
    SetViewportMetrics,
    SurfaceCreate,
    SetWindowSize,
    SurfaceDestroy,
    UpdateDisplayAttributes,
    SetLocales,
}

impl HyperEntry {
    /// Byte offset of the entry point in the interface table.
    pub open spec fn spec_offset(self) -> usize {
        match self {
            HyperEntry::RuntimeCreate => 0x08,
            HyperEntry::RuntimeDestroy => 0x10,
            HyperEntry::CreateShellHolder => 0x40,
            HyperEntry::DestroyShellHolder => 0x48,
            HyperEntry::ShellHolderLaunch => 0x58,
            HyperEntry::DispatchPlatformMessage => 0x60,
            HyperEntry::ReplyPlatformMessage => 0x78,
            HyperEntry::SetViewportMetrics => 0xa0,
            HyperEntry::SurfaceCreate => 0xa8,
            HyperEntry::SetWindowSize => 0xb0,
            HyperEntry::SurfaceDestroy => 0xc0,
            HyperEntry::UpdateDisplayAttributes => 0xc8,
            HyperEntry::SetLocales => 0x238,
        }
    }

    /// Byte offset of the entry point in the interface table.
    pub fn offset(&self) -> (offset: usize)
        ensures
            offset == self.spec_offset(),
    {
        match self {
            HyperEntry::RuntimeCreate => 0x08,
            HyperEntry::RuntimeDestroy => 0x10,
            HyperEntry::CreateShellHolder => 0x40,
            HyperEntry::DestroyShellHolder => 0x48,
            HyperEntry::ShellHolderLaunch => 0x58,
            HyperEntry::DispatchPlatformMessage => 0x60,
            HyperEntry::ReplyPlatformMessage => 0x78,
            HyperEntry::SetViewportMetrics => 0xa0,
            HyperEntry::SurfaceCreate => 0xa8,
            HyperEntry::SetWindowSize => 0xb0,
            HyperEntry::SurfaceDestroy => 0xc0,
            HyperEntry::UpdateDisplayAttributes => 0xc8,
            HyperEntry::SetLocales => 0x238,
        }
    }
}

} // verus!
