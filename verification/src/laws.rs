//! Properties of the router that span its functions.
use vstd::prelude::*;
use vstd::string::StringSliceAdditionalSpecFns;
use crate::bytes::{copied, copy_count, seq_contains};
use crate::codec::standard_method_name;
use crate::logline::{log_line, log_text, LOG_BUFFER_SIZE};
use crate::messages::{
    CHANNEL_DEVICE_INFO, CHANNEL_DEVICE_LEVEL, CHANNEL_CONFIGURATION, CHANNEL_HYPER_MATERIAL,
    CHANNEL_NATIVE_READY, CHANNEL_PACKAGE_MANAGER, CHANNEL_ROUNDED_CORNER, CHANNEL_SETTINGS,
    CHANNEL_SHARED_APP_RUN, CHANNEL_SHARED_CHILD, CHANNEL_SHARED_ROOT, CHANNEL_SYSTEM_NAVIGATION,
    CHANNEL_SYSTEM_PROPERTIES, CHANNEL_WEATHER_LOCATION, CHANNEL_WEATHER_METHOD,
    CHANNEL_XMS_LOCATION, LifecycleState, LogMessage, Outbound, PermissionOutcome,
    PIGEON_SHARED_PREFS_PREFIX, ReplyPayload,
};
use crate::bytes::{json_window, opens_json};
use crate::routing::{is_named_channel, mentions, route_of, Route};
use crate::router::{
    dispatched, engine_launch_effects, message_effects, effects_if, window_created_effects, Effect,
    RouterState, FlagCall, location_after, location_after_calls, InputCall, input_call_effects,
    input_run_effects, input_run_state, input_state_after, destroy_effects, looper_released,
    permission_outcome, queue_attached, queue_detached, replied, window_pushed,
};
use crate::abi::{AInputQueue, ALooper, ANativeWindow};

verus! {

broadcast use vstd::string::is_ascii_spec_bytes;

/// The byte lengths of the channel names that the laws below tell apart.
proof fn lemma_channel_lengths()
    ensures
        PIGEON_SHARED_PREFS_PREFIX.spec_bytes().len() == 67,
        CHANNEL_NATIVE_READY.spec_bytes().len() == 31,
        CHANNEL_PACKAGE_MANAGER.spec_bytes().len() == 42,
        CHANNEL_SYSTEM_PROPERTIES.spec_bytes().len() == 47,
        CHANNEL_SHARED_ROOT.spec_bytes().len() == 26,
        CHANNEL_SHARED_APP_RUN.spec_bytes().len() == 17,
        CHANNEL_SHARED_CHILD.spec_bytes().len() == 16,
        CHANNEL_DEVICE_LEVEL.spec_bytes().len() == 52,
        CHANNEL_CONFIGURATION.spec_bytes().len() == 32,
        CHANNEL_ROUNDED_CORNER.spec_bytes().len() == 33,
        CHANNEL_DEVICE_INFO.spec_bytes().len() == 30,
        CHANNEL_HYPER_MATERIAL.spec_bytes().len() == 33,
        CHANNEL_SYSTEM_NAVIGATION.spec_bytes().len() == 36,
        CHANNEL_SETTINGS.spec_bytes().len() == 47,
        CHANNEL_XMS_LOCATION.spec_bytes().len() == 12,
        CHANNEL_WEATHER_LOCATION.spec_bytes().len() == 16,
        CHANNEL_WEATHER_METHOD.spec_bytes().len() == 22,
{
    reveal_strlit("dev.flutter.pigeon.shared_preferences_android.SharedPreferencesApi.");
    reveal_strlit("com.xiaomi.hyperos/native_ready");
    reveal_strlit("com.android.package.manager.method.channel");
    reveal_strlit("com.android.os.system.properties.method.channel");
    reveal_strlit("hyperos/shared_preferences");
    reveal_strlit("SnowWeatherAppRun");
    reveal_strlit("SnowWeatherPrefs");
    reveal_strlit("com.miui.performance.devicelevelutils.method.channel");
    reveal_strlit("com.xiaomi.hyperos/configuration");
    reveal_strlit("com.xiaomi.hyperos/rounded_corner");
    reveal_strlit("com.xiaomi.hyperos/device_info");
    reveal_strlit("com.xiaomi.hyperos/hyper_material");
    reveal_strlit("com.xiaomi.hyperos/system_navigation");
    reveal_strlit("com.android.os.provider.settings.method.channel");
    reveal_strlit("xms_location");
    reveal_strlit("weather_location");
    reveal_strlit("weather_method_channel");
    assert(vstd::string::is_ascii(PIGEON_SHARED_PREFS_PREFIX));
    assert(vstd::string::is_ascii(CHANNEL_NATIVE_READY));
    assert(vstd::string::is_ascii(CHANNEL_PACKAGE_MANAGER));
    assert(vstd::string::is_ascii(CHANNEL_SYSTEM_PROPERTIES));
    assert(vstd::string::is_ascii(CHANNEL_SHARED_ROOT));
    assert(vstd::string::is_ascii(CHANNEL_SHARED_APP_RUN));
    assert(vstd::string::is_ascii(CHANNEL_SHARED_CHILD));
    assert(vstd::string::is_ascii(CHANNEL_DEVICE_LEVEL));
    assert(vstd::string::is_ascii(CHANNEL_CONFIGURATION));
    assert(vstd::string::is_ascii(CHANNEL_ROUNDED_CORNER));
    assert(vstd::string::is_ascii(CHANNEL_DEVICE_INFO));
    assert(vstd::string::is_ascii(CHANNEL_HYPER_MATERIAL));
    assert(vstd::string::is_ascii(CHANNEL_SYSTEM_NAVIGATION));
    assert(vstd::string::is_ascii(CHANNEL_SETTINGS));
    assert(vstd::string::is_ascii(CHANNEL_XMS_LOCATION));
    assert(vstd::string::is_ascii(CHANNEL_WEATHER_LOCATION));
    assert(vstd::string::is_ascii(CHANNEL_WEATHER_METHOD));
}

/// A byte string never contains a longer one.
proof fn lemma_no_longer_needle(haystack: Seq<u8>, needle: Seq<u8>)
    requires
        needle.len() > haystack.len(),
    ensures
        !seq_contains(haystack, needle),
{
}

/// Law: the empty needle is found in every haystack, and a needle longer
/// than the haystack in none.
pub proof fn lemma_contains_bounds(haystack: Seq<u8>, needle: Seq<u8>)
    ensures
        needle.len() == 0 ==> seq_contains(haystack, needle),
        needle.len() > haystack.len() ==> !seq_contains(haystack, needle),
{
    if needle.len() == 0 {
        assert(haystack.subrange(0, 0 + needle.len() as int) =~= needle);
    }
}

/// Law: copying into the log buffer always leaves the last byte free for
/// the terminator.
pub proof fn lemma_copy_leaves_terminator_room(capacity: int, position: int, value_len: int)
    requires
        0 <= position < capacity,
        0 <= value_len,
    ensures
        0 <= copy_count(capacity, position, value_len),
        position + copy_count(capacity, position, value_len) <= capacity - 1,
{
}

/// Law: the logged line fits the log buffer and ends with its terminator;
/// when the text fits, the line is the whole text.
pub proof fn lemma_log_line_fits(channel: Seq<u8>, payload: Seq<u8>)
    ensures
        log_line(channel, payload).len() <= LOG_BUFFER_SIZE,
        log_line(channel, payload).last() == 0u8,
        log_text(channel, payload).len() < LOG_BUFFER_SIZE ==> log_line(channel, payload)
            == log_text(channel, payload).push(0u8),
        log_text(channel, payload).len() >= LOG_BUFFER_SIZE - 1 ==> log_line(channel, payload)
            == log_text(channel, payload).take(LOG_BUFFER_SIZE - 1).push(0u8) && log_line(
            channel,
            payload,
        ).len() == LOG_BUFFER_SIZE,
{
    let text = log_text(channel, payload);
    if text.len() < LOG_BUFFER_SIZE {
        assert(text.take(text.len() as int) =~= text);
    }
}

/// Law: a platform message that expects a reply is answered exactly once
/// when there is an engine, with the payload its route chose.
pub proof fn lemma_answered_exactly_once(holder: usize, reply_id: usize, route: Route)
    requires
        reply_id != 0,
    ensures
        ({
            let effects = message_effects(Some(holder), reply_id, route);
            &&& exists|i: int|
                0 <= i < effects.len() && effects[i] == (Effect::Reply {
                    holder,
                    reply_id,
                    payload: route.reply,
                })
            &&& forall|i: int, j: int|
                0 <= i < effects.len() && 0 <= j < effects.len() && effects[i] is Reply
                    && effects[j] is Reply ==> i == j
        }),
{
    let effects = message_effects(Some(holder), reply_id, route);
    let k: int = if route.location_served { 1 } else { 0 };
    assert(effects[k] == (Effect::Reply { holder, reply_id, payload: route.reply }));
}

/// Law: without an engine, nothing is sent: no reply and no message.
pub proof fn lemma_no_engine_sends_nothing(reply_id: usize, route: Route)
    ensures
        forall|i: int|
            0 <= i < message_effects(None, reply_id, route).len() ==> !(message_effects(
                None,
                reply_id,
                route,
            )[i] is Reply) && !(message_effects(None, reply_id, route)[i] is Dispatch),
{
    assert(message_effects(None, reply_id, route) =~= effects_if(
        route.location_served,
        seq![Effect::Log(LogMessage::LocationServed)],
    ));
}

/// Law: the native-ready channel is answered `[true]`, whatever the payload,
/// and the router then announces that the native side is ready.
pub proof fn lemma_native_ready_announces(payload: Seq<u8>, user_agreed: bool, location_granted: bool)
    ensures
        route_of(CHANNEL_NATIVE_READY.spec_bytes(), payload, user_agreed, location_granted) == (Route {
            reply: ReplyPayload::JsonTrue,
            announce_ready: true,
            location_served: false,
        }),
{
    lemma_channel_lengths();
    lemma_no_longer_needle(CHANNEL_NATIVE_READY.spec_bytes(), PIGEON_SHARED_PREFS_PREFIX.spec_bytes());
}

/// Law: once the user accepted the agreement, the app-run preferences read
/// back `app_run = true`; before that, or after a decline, they read empty.
pub proof fn lemma_agreement_decides_app_run(
    payload: Seq<u8>,
    user_agreed: bool,
    location_granted: bool,
)
    requires
        standard_method_name(payload) == Some("reload".spec_bytes()) || standard_method_name(
            payload,
        ) == Some("getAll".spec_bytes()),
    ensures
        route_of(CHANNEL_SHARED_APP_RUN.spec_bytes(), payload, user_agreed, location_granted).reply
            == if user_agreed {
            ReplyPayload::StandardAppRunTrueMap
        } else {
            ReplyPayload::StandardEmptyMap
        },
{
    lemma_channel_lengths();
    lemma_no_longer_needle(CHANNEL_SHARED_APP_RUN.spec_bytes(), PIGEON_SHARED_PREFS_PREFIX.spec_bytes());
}

/// Law: once a location permission was granted, the weather channel's
/// `check_permission` answers `[0]`; otherwise `[-1]`.
pub proof fn lemma_permission_decides_check(
    payload: Seq<u8>,
    user_agreed: bool,
    location_granted: bool,
)
    requires
        mentions(payload, "check_permission"),
        !mentions(payload, "get_device_com_level"),
        !mentions(payload, "get_device_com_version"),
        !mentions(payload, "get_job_is_working"),
        !mentions(payload, "requestScheduleTask"),
        !mentions(payload, "get_network_country_iso"),
        !mentions(payload, "get_network_info_is_connected"),
    ensures
        route_of(CHANNEL_WEATHER_METHOD.spec_bytes(), payload, user_agreed, location_granted).reply
            == if location_granted {
            ReplyPayload::JsonZero
        } else {
            ReplyPayload::JsonMinusOne
        },
{
    lemma_channel_lengths();
    lemma_no_longer_needle(CHANNEL_WEATHER_METHOD.spec_bytes(), PIGEON_SHARED_PREFS_PREFIX.spec_bytes());
}

/// Law: a channel the router does not know by name, and that is not a
/// pigeon preferences channel, is answered with the null of its codec: JSON
/// `[null]` when the payload opens a JSON document, the standard null
/// otherwise.
pub proof fn lemma_unknown_channel_gets_null(
    channel: Seq<u8>,
    payload: Seq<u8>,
    user_agreed: bool,
    location_granted: bool,
)
    requires
        !is_named_channel(channel),
        !mentions(channel, PIGEON_SHARED_PREFS_PREFIX),
    ensures
        route_of(channel, payload, user_agreed, location_granted) == (Route {
            reply: if opens_json(json_window(payload)) {
                ReplyPayload::JsonNull
            } else {
                ReplyPayload::StandardNull
            },
            announce_ready: false,
            location_served: false,
        }),
{
}

/// Law: while the activity is not resumed, focus changes tell the engine
/// nothing.
pub proof fn lemma_focus_ignored_unless_resumed(state: RouterState, focused: i32)
    requires
        !state.resumed,
    ensures
        effects_if(
            state.resumed,
            dispatched(
                state.holder,
                Outbound::Lifecycle(
                    if focused != 0 {
                        LifecycleState::Resumed
                    } else {
                        LifecycleState::Inactive
                    },
                ),
            ),
        ).len() == 0,
{
}

/// The number of surface bindings among `effects`.
pub open spec fn surface_binds(effects: Seq<Effect>) -> nat
    decreases effects.len(),
{
    if effects.len() == 0 {
        0
    } else {
        surface_binds(effects.drop_last()) + if effects.last() is SurfaceCreate {
            1nat
        } else {
            0nat
        }
    }
}

proof fn lemma_surface_binds_concat(a: Seq<Effect>, b: Seq<Effect>)
    ensures
        surface_binds(a + b) == surface_binds(a) + surface_binds(b),
    decreases b.len(),
{
    if b.len() == 0 {
        assert(a + b =~= a);
    } else {
        assert((a + b).drop_last() =~= a + b.drop_last());
        lemma_surface_binds_concat(a, b.drop_last());
    }
}

proof fn lemma_no_surface_binds(effects: Seq<Effect>)
    requires
        forall|i: int| 0 <= i < effects.len() ==> !(effects[i] is SurfaceCreate),
    ensures
        surface_binds(effects) == 0,
    decreases effects.len(),
{
    if effects.len() > 0 {
        lemma_no_surface_binds(effects.drop_last());
    }
}

/// Law: the first window is bound to the engine exactly once. When the
/// window arrives before the engine (`on_native_window_created` found no
/// holder), the launch of the new holder binds it and the follow-up of the
/// window's arrival does not bind it again.
pub proof fn lemma_first_window_bound_once(state: RouterState, h: usize, window: ANativeWindow)
    requires
        state.holder is None,
        state.activity is Some,
        state.window == Some(window),
    ensures
        surface_binds(
            engine_launch_effects(state, h) + window_created_effects(
                RouterState { holder: Some(h), ..state },
                false,
                Some(window),
            ),
        ) == 1,
{
    let launch_head = seq![
        Effect::SetLocales { holder: h },
        Effect::Log(LogMessage::LocalesSet),
        Effect::Launch { holder: h, activity: state.activity.unwrap() },
        Effect::Log(LogMessage::EngineLaunched),
    ] + effects_if(state.resumed, dispatched(Some(h), Outbound::Lifecycle(LifecycleState::Resumed)))
        + dispatched(Some(h), Outbound::OnReady);
    let bind = seq![Effect::SurfaceCreate { holder: h, window }];
    let push = crate::router::window_pushed(Some(h), Some(window));
    let after = window_created_effects(RouterState { holder: Some(h), ..state }, false, Some(window));
    assert(engine_launch_effects(state, h) =~= launch_head + (bind + push));
    lemma_no_surface_binds(launch_head);
    lemma_no_surface_binds(push);
    lemma_no_surface_binds(after);
    lemma_surface_binds_concat(bind, push);
    lemma_surface_binds_concat(launch_head, bind + push);
    lemma_surface_binds_concat(launch_head + (bind + push), after);
    assert(surface_binds(bind) == 1) by {
        reveal_with_fuel(surface_binds, 2);
        assert(bind.drop_last().len() == 0);
    }
}


/// Law: two copies into the log buffer, the second from where the first
/// stopped, leave the buffer and the position as one copy of the two values
/// joined.
pub proof fn lemma_copy_concat(output: Seq<u8>, position: int, first: Seq<u8>, second: Seq<u8>)
    requires
        0 <= position,
    ensures
        ({
            let middle = position + copy_count(output.len() as int, position, first.len() as int);
            &&& copied(copied(output, position, first), middle, second) == copied(
                output,
                position,
                first + second,
            )
            &&& middle + copy_count(output.len() as int, middle, second.len() as int) == position
                + copy_count(output.len() as int, position, (first + second).len() as int)
        }),
{
    let len = output.len() as int;
    let c1 = copy_count(len, position, first.len() as int);
    let middle = position + c1;
    let c2 = copy_count(len, middle, second.len() as int);
    let c = copy_count(len, position, (first + second).len() as int);
    assert(c == c1 + c2);
    if position < len {
        let o1 = copied(output, position, first);
        assert(o1.len() == len);
        assert(middle < len);
        assert(o1.take(middle) =~= output.take(position) + first.take(c1));
        assert(o1.skip(middle + c2) =~= output.skip(middle + c2));
        assert((first + second).take(c) =~= first.take(c1) + second.take(c2));
        assert(copied(o1, middle, second) =~= copied(output, position, first + second));
    }
}

/// The value that a call sets the location permission flag to, if it sets it.
pub open spec fn sets_location(call: FlagCall) -> bool {
    call is LocationPermission || call is PermissionResult
}

proof fn lemma_flag_kept_after(granted: bool, calls: Seq<FlagCall>, k: int)
    requires
        0 <= k < calls.len(),
        sets_location(calls[k]),
        forall|j: int| k < j < calls.len() ==> !sets_location(#[trigger] calls[j]),
    ensures
        location_after_calls(granted, calls) == location_after(granted, calls[k]),
    decreases calls.len(),
{
    if k < calls.len() - 1 {
        let rest = calls.drop_last();
        assert forall|j: int| k < j < rest.len() implies !sets_location(#[trigger] rest[j]) by {
            assert(rest[j] == calls[j]);
        }
        lemma_flag_kept_after(granted, rest, k);
        assert(!sets_location(calls[calls.len() - 1]));
    }
}

/// Law: whatever other calls the router gets, the weather channel's
/// `check_permission` reports the permission that the last
/// `set_location_permission` or `deliver_permission_result` set: `[0]` when
/// granted, `[-1]` when not.
pub proof fn lemma_last_permission_call_decides_check(
    initial: bool,
    calls: Seq<FlagCall>,
    k: int,
    payload: Seq<u8>,
    user_agreed: bool,
)
    requires
        0 <= k < calls.len(),
        sets_location(calls[k]),
        forall|j: int| k < j < calls.len() ==> !sets_location(#[trigger] calls[j]),
        mentions(payload, "check_permission"),
        !mentions(payload, "get_device_com_level"),
        !mentions(payload, "get_device_com_version"),
        !mentions(payload, "get_job_is_working"),
        !mentions(payload, "requestScheduleTask"),
        !mentions(payload, "get_network_country_iso"),
        !mentions(payload, "get_network_info_is_connected"),
    ensures
        location_after_calls(initial, calls) == location_after(initial, calls[k]),
        route_of(
            CHANNEL_WEATHER_METHOD.spec_bytes(),
            payload,
            user_agreed,
            location_after_calls(initial, calls),
        ).reply == if location_after(initial, calls[k]) {
            ReplyPayload::JsonZero
        } else {
            ReplyPayload::JsonMinusOne
        },
{
    lemma_flag_kept_after(initial, calls, k);
    lemma_permission_decides_check(payload, user_agreed, location_after_calls(initial, calls));
}

/// How an effect changes the number of looper references the router holds.
pub open spec fn looper_delta(effect: Effect) -> int {
    match effect {
        Effect::AcquireLooper { .. } => 1,
        Effect::ReleaseLooper { .. } => -1,
        _ => 0,
    }
}

/// Looper acquisitions minus looper releases among `effects`.
pub open spec fn looper_balance(effects: Seq<Effect>) -> int
    decreases effects.len(),
{
    if effects.len() == 0 {
        0
    } else {
        looper_balance(effects.drop_last()) + looper_delta(effects.last())
    }
}

/// How many loopers the router holds: one or none.
pub open spec fn loopers_held(state: RouterState) -> int {
    if state.input_looper is Some {
        1
    } else {
        0
    }
}

/// Every looper that `effects` release is `held`.
pub open spec fn releases_only(effects: Seq<Effect>, held: Option<ALooper>) -> bool {
    forall|i: int|
        0 <= i < effects.len() ==> (#[trigger] effects[i] matches Effect::ReleaseLooper { looper }
            ==> held == Some(looper))
}

proof fn lemma_looper_balance_concat(a: Seq<Effect>, b: Seq<Effect>)
    ensures
        looper_balance(a + b) == looper_balance(a) + looper_balance(b),
    decreases b.len(),
{
    if b.len() == 0 {
        assert(a + b =~= a);
    } else {
        assert((a + b).drop_last() =~= a + b.drop_last());
        lemma_looper_balance_concat(a, b.drop_last());
    }
}

proof fn lemma_looper_balance_small(effects: Seq<Effect>)
    requires
        effects.len() <= 3,
    ensures
        looper_balance(effects) == (if effects.len() > 0 { looper_delta(effects[0]) } else { 0 })
            + (if effects.len() > 1 { looper_delta(effects[1]) } else { 0 }) + (if effects.len() > 2 {
            looper_delta(effects[2])
        } else {
            0
        }),
{
    reveal_with_fuel(looper_balance, 4);
    if effects.len() == 3 {
        assert(effects.drop_last().drop_last().drop_last().len() == 0);
    } else if effects.len() == 2 {
        assert(effects.drop_last().drop_last().len() == 0);
    } else if effects.len() == 1 {
        assert(effects.drop_last().len() == 0);
    }
}

/// Law: each input call changes the router's looper references by as many
/// as its effects acquire minus release, and releases only the looper the
/// router held. (A queue whose looper could not be found is not among these
/// calls: the router then keeps a looper it has released.)
pub proof fn lemma_input_call_balances(state: RouterState, call: InputCall)
    ensures
        looper_balance(input_call_effects(state, call)) == loopers_held(input_state_after(state, call))
            - loopers_held(state),
        releases_only(input_call_effects(state, call), state.input_looper),
{
    let released = crate::router::looper_released(state.input_looper);
    lemma_looper_balance_small(released);
    match call {
        InputCall::QueueCreated(q, l) => {
            let detached = crate::router::queue_detached(state.input_queue);
            let attached = crate::router::queue_attached(q, l);
            lemma_looper_balance_small(detached);
            lemma_looper_balance_small(attached);
            lemma_looper_balance_concat(detached, released);
            lemma_looper_balance_concat(detached + released, attached);
        },
        InputCall::QueueDestroyed(q) => {
            let detached = crate::router::queue_detached(q);
            let logged = seq![Effect::Log(LogMessage::InputQueueDetached)];
            lemma_looper_balance_small(detached);
            lemma_looper_balance_small(logged);
            lemma_looper_balance_concat(detached, released);
            lemma_looper_balance_concat(detached + released, logged);
        },
        InputCall::ActivityDestroyed => {
            let told = dispatched(state.holder, Outbound::Lifecycle(LifecycleState::Detached));
            let detached = crate::router::queue_detached(state.input_queue);
            let logged = seq![Effect::Log(LogMessage::EngineRetained)];
            lemma_looper_balance_small(told);
            lemma_looper_balance_small(detached);
            lemma_looper_balance_small(logged);
            lemma_looper_balance_concat(told, detached);
            lemma_looper_balance_concat(told + detached, released);
            lemma_looper_balance_concat(told + detached + released, logged);
        },
    }
}

/// Law: over any run of input calls, looper acquisitions minus releases
/// equal the loopers the router holds at the end minus those it held at the
/// start; from a router holding none, acquisitions and releases balance
/// except for the one looper it still holds.
pub proof fn lemma_input_run_balances(state: RouterState, calls: Seq<InputCall>)
    ensures
        looper_balance(input_run_effects(state, calls)) == loopers_held(
            input_run_state(state, calls),
        ) - loopers_held(state),
    decreases calls.len(),
{
    if calls.len() > 0 {
        let rest = calls.drop_last();
        lemma_input_run_balances(state, rest);
        let mid = input_run_state(state, rest);
        lemma_input_call_balances(mid, calls.last());
        lemma_looper_balance_concat(
            input_run_effects(state, rest),
            input_call_effects(mid, calls.last()),
        );
    }
}


/// Law: launching a holder `h` sets the locale before the launch, reports
/// the resumed state right after the launch if the activity is resumed (and
/// no lifecycle state otherwise), always announces readiness next, and
/// binds and sizes the window last if there is one.
pub proof fn lemma_launch_announces_ready(state: RouterState, h: usize)
    ensures
        ({
            let effects = engine_launch_effects(state, h);
            let ready: int = if state.resumed { 5 } else { 4 };
            &&& effects[0] == (Effect::SetLocales { holder: h })
            &&& effects[2] == (Effect::Launch { holder: h, activity: state.activity.unwrap() })
            &&& state.resumed ==> effects[4] == (Effect::Dispatch {
                holder: h,
                message: Outbound::Lifecycle(LifecycleState::Resumed),
            })
            &&& !state.resumed ==> forall|i: int|
                0 <= i < effects.len() ==> !(#[trigger] effects[i] matches Effect::Dispatch {
                    message: Outbound::Lifecycle(_),
                    ..
                })
            &&& effects[ready] == (Effect::Dispatch { holder: h, message: Outbound::OnReady })
            &&& state.window is None ==> effects.len() == ready + 1
            &&& state.window matches Some(w) ==> {
                &&& effects.len() == ready + 4
                &&& effects[ready + 1] == (Effect::SurfaceCreate { holder: h, window: w })
                &&& effects[ready + 2] == (Effect::PushWindowSize { holder: h, window: w })
            }
        }),
{
    let effects = engine_launch_effects(state, h);
    let head = seq![
        Effect::SetLocales { holder: h },
        Effect::Log(LogMessage::LocalesSet),
        Effect::Launch { holder: h, activity: state.activity.unwrap() },
        Effect::Log(LogMessage::EngineLaunched),
    ];
    let resumed = effects_if(
        state.resumed,
        dispatched(Some(h), Outbound::Lifecycle(LifecycleState::Resumed)),
    );
    let ready = dispatched(Some(h), Outbound::OnReady);
    let bind = match state.window {
        Some(w) => seq![Effect::SurfaceCreate { holder: h, window: w }] + window_pushed(
            Some(h),
            Some(w),
        ),
        None => Seq::<Effect>::empty(),
    };
    assert(effects == head + resumed + ready + bind);
    if state.resumed {
        assert(resumed =~= seq![Effect::Dispatch { holder: h, message: Outbound::Lifecycle(LifecycleState::Resumed) }]);
    } else {
        assert(resumed =~= Seq::<Effect>::empty());
    }
    match state.window {
        Some(w) => {
            assert(bind =~= seq![
                Effect::SurfaceCreate { holder: h, window: w },
                Effect::PushWindowSize { holder: h, window: w },
                Effect::Log(LogMessage::ViewportMetricsPushed),
            ]);
        },
        None => {},
    }
}

/// Law: after a window arrives, an engine is always told the native side
/// is ready, last; a resumed activity reports its resumed state just before
/// that, whether the engine was there before the window or not, and an
/// activity that is not resumed reports no lifecycle state. An engine that
/// was there is rebound to the new window first; a new one is not rebound.
pub proof fn lemma_window_arrival_reports_lifecycle(
    state: RouterState,
    holder_was_ready: bool,
    window: Option<ANativeWindow>,
)
    ensures
        ({
            let effects = window_created_effects(state, holder_was_ready, window);
            &&& state.holder matches Some(h) ==> effects.len() >= 1 && effects.last() == (
            Effect::Dispatch { holder: h, message: Outbound::OnReady })
            &&& state.holder matches Some(h) ==> state.resumed ==> effects.len() >= 2
                && effects[effects.len() - 2] == (Effect::Dispatch {
                holder: h,
                message: Outbound::Lifecycle(LifecycleState::Resumed),
            })
            &&& !state.resumed ==> forall|i: int|
                0 <= i < effects.len() ==> !(#[trigger] effects[i] matches Effect::Dispatch {
                    message: Outbound::Lifecycle(_),
                    ..
                })
            &&& (holder_was_ready && state.holder is Some && window is Some) ==> effects[0] == (
            Effect::SurfaceCreate { holder: state.holder.unwrap(), window: window.unwrap() })
            &&& !holder_was_ready ==> effects[0] == Effect::Log(LogMessage::InitialSurfaceBindSkipped)
            &&& !holder_was_ready ==> forall|i: int|
                0 <= i < effects.len() ==> !(#[trigger] effects[i] is SurfaceCreate)
            &&& state.holder is None ==> forall|i: int|
                0 <= i < effects.len() ==> !(#[trigger] effects[i] is Dispatch)
        }),
{
    let effects = window_created_effects(state, holder_was_ready, window);
    let bound = if holder_was_ready {
        match (state.holder, window) {
            (Some(h), Some(w)) => seq![Effect::SurfaceCreate { holder: h, window: w }]
                + window_pushed(state.holder, state.window),
            _ => Seq::<Effect>::empty(),
        }
    } else {
        seq![Effect::Log(LogMessage::InitialSurfaceBindSkipped)]
    };
    let resumed = effects_if(
        state.resumed,
        dispatched(state.holder, Outbound::Lifecycle(LifecycleState::Resumed)),
    );
    let ready = dispatched(state.holder, Outbound::OnReady);
    assert(effects == bound + resumed + ready);
    assert(forall|i: int| 0 <= i < window_pushed(state.holder, state.window).len() ==> !(
    #[trigger] window_pushed(state.holder, state.window)[i] is Dispatch));
    assert(forall|i: int| 0 <= i < bound.len() ==> !(#[trigger] bound[i] is Dispatch));
    if !holder_was_ready {
        assert(bound.len() == 1);
    }
    match state.holder {
        Some(h) => {
            assert(ready =~= seq![Effect::Dispatch { holder: h, message: Outbound::OnReady }]);
            if state.resumed {
                assert(resumed =~= seq![Effect::Dispatch { holder: h, message: Outbound::Lifecycle(LifecycleState::Resumed) }]);
            }
        },
        None => {
            assert(ready =~= Seq::<Effect>::empty());
            assert(resumed =~= Seq::<Effect>::empty());
            assert(effects =~= bound);
        },
    }
    if !state.resumed {
        assert(resumed =~= Seq::<Effect>::empty());
        assert forall|i: int| 0 <= i < effects.len() implies !(#[trigger] effects[i] matches Effect::Dispatch {
            message: Outbound::Lifecycle(_),
            ..
        }) by {
            if i >= bound.len() {
                assert(effects[i] == ready[i - bound.len()]);
            } else {
                assert(effects[i] == bound[i]);
            }
        }
    }
    if !holder_was_ready {
        assert forall|i: int| 0 <= i < effects.len() implies !(#[trigger] effects[i] is SurfaceCreate) by {
            if i >= bound.len() + resumed.len() {
                assert(effects[i] == ready[i - bound.len() - resumed.len()]);
            } else if i >= bound.len() {
                assert(effects[i] == resumed[i - bound.len()]);
            } else {
                assert(effects[i] == bound[i]);
            }
        }
    }
    if state.holder is None {
        assert forall|i: int| 0 <= i < effects.len() implies !(#[trigger] effects[i] is Dispatch) by {
            assert(effects[i] == bound[i]);
        }
    }
}

/// Law: what the small effect builders give. A message or reply reaches an
/// engine that exists and nothing otherwise (no reply without a reply id);
/// the window's size is pushed only with both an engine and a window; a
/// queue or looper is let go only if held; a queue is attached by acquiring
/// its looper first.
pub proof fn lemma_effect_builders(
    h: usize,
    message: Outbound,
    reply_id: usize,
    payload: ReplyPayload,
    window: ANativeWindow,
    queue: AInputQueue,
    looper: ALooper,
)
    ensures
        dispatched(Some(h), message) == seq![Effect::Dispatch { holder: h, message }],
        dispatched(None, message).len() == 0,
        reply_id != 0 ==> replied(Some(h), reply_id, payload) == seq![
            Effect::Reply { holder: h, reply_id, payload },
        ],
        replied(Some(h), 0, payload).len() == 0,
        replied(None, reply_id, payload).len() == 0,
        window_pushed(Some(h), Some(window)) == seq![
            Effect::PushWindowSize { holder: h, window },
            Effect::Log(LogMessage::ViewportMetricsPushed),
        ],
        window_pushed(None, Some(window)).len() == 0,
        window_pushed(Some(h), None).len() == 0,
        queue_detached(Some(queue)) == seq![Effect::DetachLooper { queue }],
        queue_detached(None).len() == 0,
        looper_released(Some(looper)) == seq![Effect::ReleaseLooper { looper }],
        looper_released(None).len() == 0,
        queue_attached(queue, looper) == seq![
            Effect::AcquireLooper { looper },
            Effect::AttachLooper { queue, looper },
            Effect::Log(LogMessage::InputQueueAttached),
        ],
{
}

/// Law: destroying the activity first tells an existing engine it is
/// detached, then detaches the queue and releases the looper the router
/// holds, and last notes that the engine is kept; it sends nothing else.
pub proof fn lemma_destroy_effects(state: RouterState)
    ensures
        ({
            let effects = destroy_effects(state);
            let told: int = if state.holder is Some { 1 } else { 0 };
            let detached: int = if state.input_queue is Some { 1 } else { 0 };
            let released: int = if state.input_looper is Some { 1 } else { 0 };
            &&& effects.len() == told + detached + released + 1
            &&& state.holder matches Some(h) ==> effects[0] == (Effect::Dispatch {
                holder: h,
                message: Outbound::Lifecycle(LifecycleState::Detached),
            })
            &&& state.input_queue matches Some(q) ==> effects[told] == (Effect::DetachLooper {
                queue: q,
            })
            &&& state.input_looper matches Some(l) ==> effects[told + detached] == (
            Effect::ReleaseLooper { looper: l })
            &&& effects.last() == Effect::Log(LogMessage::EngineRetained)
        }),
{
}

/// Law: a permission result is classified by which of the two requests
/// were granted (a result of 0 grants).
pub proof fn lemma_permission_outcome(fine_result: i32, coarse_result: i32)
    ensures
        (permission_outcome(fine_result, coarse_result) == PermissionOutcome::BothGranted) <==> (
        fine_result == 0 && coarse_result == 0),
        (permission_outcome(fine_result, coarse_result) == PermissionOutcome::FineOnly) <==> (
        fine_result == 0 && coarse_result != 0),
        (permission_outcome(fine_result, coarse_result) == PermissionOutcome::CoarseOnly) <==> (
        fine_result != 0 && coarse_result == 0),
        (permission_outcome(fine_result, coarse_result) == PermissionOutcome::Denied) <==> (
        fine_result != 0 && coarse_result != 0),
{
}

/// Law: the location flag is set by the two permission calls and kept by
/// every other call.
pub proof fn lemma_location_after(granted: bool, value: u8, fine_result: i32, coarse_result: i32)
    ensures
        location_after(granted, FlagCall::LocationPermission(value)) == (value != 0),
        location_after(granted, FlagCall::PermissionResult(fine_result, coarse_result)) == (
        fine_result == 0 || coarse_result == 0),
        location_after(granted, FlagCall::Other) == granted,
{
}

/// Law: a platform message that expects a reply, sent to an engine, gets
/// the location note if a location was served, then its reply, then the
/// readiness announcement if its route asks for one; nothing else.
pub proof fn lemma_message_effects(h: usize, reply_id: usize, route: Route)
    requires
        reply_id != 0,
    ensures
        message_effects(Some(h), reply_id, route) == (if route.location_served {
            seq![Effect::Log(LogMessage::LocationServed)]
        } else {
            Seq::empty()
        }) + seq![Effect::Reply { holder: h, reply_id, payload: route.reply }] + (
        if route.announce_ready {
            seq![Effect::Dispatch { holder: h, message: Outbound::OnReady }]
        } else {
            Seq::empty()
        }),
{
}

/// Law: the router before any activity holds nothing and is not resumed.
pub proof fn lemma_empty_state()
    ensures
        RouterState::spec_empty().activity is None,
        RouterState::spec_empty().runtime is None,
        RouterState::spec_empty().holder is None,
        RouterState::spec_empty().window is None,
        RouterState::spec_empty().input_queue is None,
        RouterState::spec_empty().input_looper is None,
        !RouterState::spec_empty().resumed,
        RouterState::spec_empty().wf(),
{
}

} // verus!
