use lib::abi::{
    engine_args, hyper_callback_table, AInputEvent, AInputQueue, ALooper, ANativeWindow,
    HyperCallbackSlot, HyperEntry, ARG_AOT, ARG_ICU, ARG_IMPELLER,
};
use lib::logline::platform_message_log_line;
use lib::messages::{LifecycleState, LogMessage, Outbound, PermissionOutcome, ReplyPayload};
use lib::router::{input_event_fetched, input_event_finishes, Effect, Router, RouterState};

const HOLDER: usize = 0x4000;
const ACTIVITY: usize = 0x1000;

fn dispatch(message: Outbound) -> Effect {
    Effect::Dispatch { holder: HOLDER, message }
}

fn running_router() -> Router {
    let mut router = Router::new();
    router.on_create(ACTIVITY);
    assert!(router.engine_should_start());
    assert_eq!(router.runtime_created(Some(0x2000)), vec![]);
    router.holder_created(Some(HOLDER));
    router
}

#[test]
fn new_router_is_empty() {
    let router = Router::new();
    assert_eq!(router.state, RouterState::empty());
    assert!(!router.user_agreed);
    assert!(!router.location_permission_granted);
    assert!(!router.engine_should_start());
}

#[test]
fn user_agreement_flag_and_log() {
    let mut router = Router::new();
    assert_eq!(router.set_user_agreement(3), vec![Effect::Log(LogMessage::UserAgreementAccepted)]);
    assert!(router.user_agreed);
    assert_eq!(router.set_user_agreement(0), vec![Effect::Log(LogMessage::UserAgreementPending)]);
    assert!(!router.user_agreed);
}

#[test]
fn location_permission_flag_and_log() {
    let mut router = Router::new();
    assert_eq!(router.set_location_permission(1), vec![Effect::Log(LogMessage::LocationPermissionGranted)]);
    assert!(router.location_permission_granted);
    assert_eq!(router.set_location_permission(0), vec![Effect::Log(LogMessage::LocationPermissionDenied)]);
    assert!(!router.location_permission_granted);
}

#[test]
fn activity_result_accepts_and_routes_to_city_search() {
    let mut router = running_router();
    let effects = router.deliver_activity_result(1);
    assert!(router.user_agreed);
    assert_eq!(
        effects,
        vec![
            dispatch(Outbound::CtaAccepted),
            dispatch(Outbound::CtaRouteSearchCity),
            Effect::Log(LogMessage::CtaAcceptanceDelivered),
        ]
    );
    assert_eq!(
        Outbound::CtaAccepted.payload(),
        b"{\"method\":\"onActivityResult\",\"args\":{\"request_code\":1007,\"result_code\":1}}"
    );
    assert_eq!(Outbound::CtaAccepted.channel(), b"com.android.content.intent.method.channel");
    assert_eq!(Outbound::CtaRouteSearchCity.channel(), b"flutter/navigation");
    assert_eq!(Outbound::CtaRouteSearchCity.payload(), b"{\"method\":\"pushRoute\",\"args\":\"/searchCity\"}");
}

#[test]
fn activity_result_declines_otherwise() {
    let mut router = running_router();
    router.user_agreed = true;
    let effects = router.deliver_activity_result(0);
    assert!(!router.user_agreed);
    assert_eq!(effects, vec![dispatch(Outbound::CtaDeclined), Effect::Log(LogMessage::CtaDeclineDelivered)]);
    let mut router = Router::new();
    let effects = router.deliver_activity_result(-1);
    assert_eq!(effects, vec![Effect::Log(LogMessage::CtaDeclineDelivered)]);
}

#[test]
fn permission_results() {
    let mut router = running_router();
    let cases = [
        (0, 0, PermissionOutcome::BothGranted, true),
        (0, -1, PermissionOutcome::FineOnly, true),
        (-1, 0, PermissionOutcome::CoarseOnly, true),
        (-1, -1, PermissionOutcome::Denied, false),
    ];
    for (fine, coarse, outcome, granted) in cases {
        let effects = router.deliver_permission_result(fine, coarse);
        assert_eq!(router.location_permission_granted, granted);
        assert_eq!(
            effects,
            vec![dispatch(Outbound::PermissionResult(outcome)), Effect::Log(LogMessage::PermissionResultDelivered)]
        );
    }
    assert!(Outbound::PermissionResult(PermissionOutcome::FineOnly).payload().ends_with(b"\"grant_results\":[0,-1],\"request_code\":10000}}"));
    assert_eq!(Outbound::PermissionResult(PermissionOutcome::Denied).channel(), b"com.android.permission.method.channel");
}

#[test]
fn platform_message_is_logged_and_answered() {
    let router = running_router();
    let effects = router.on_platform_message(Some(b"com.xiaomi.hyperos/native_ready"), 7, b"{}");
    assert_eq!(
        effects,
        vec![
            Effect::LogLine(platform_message_log_line(b"com.xiaomi.hyperos/native_ready", b"{}")),
            Effect::Reply { holder: HOLDER, reply_id: 7, payload: ReplyPayload::JsonTrue },
            dispatch(Outbound::OnReady),
        ]
    );
    let effects = router.on_platform_message(Some(b"weather_location"), 9, b"{\"method\":\"locationFromWifi\"}");
    assert_eq!(effects[1], Effect::Log(LogMessage::LocationServed));
    assert_eq!(effects[2], Effect::Reply { holder: HOLDER, reply_id: 9, payload: ReplyPayload::JsonLocationTest });
    assert_eq!(effects.len(), 3);
}

#[test]
fn one_way_platform_message_is_logged_only() {
    let router = running_router();
    assert_eq!(
        router.on_platform_message(Some(b"weather_channel"), 0, b"\x07\x0cget_app_path"),
        vec![Effect::LogLine(platform_message_log_line(b"weather_channel", b"\x07\x0cget_app_path"))]
    );
    assert_eq!(router.on_platform_message(None, 3, b""), vec![]);
}

#[test]
fn last_permission_call_decides_check_permission() {
    let mut router = running_router();
    router.set_location_permission(1);
    router.deliver_permission_result(-1, -1);
    router.on_resume();
    router.set_user_agreement(1);
    router.on_pause();
    let effects = router.on_platform_message(Some(b"weather_method_channel"), 4, b"{\"method\":\"check_permission\",\"args\":null}");
    assert_eq!(effects[1], Effect::Reply { holder: HOLDER, reply_id: 4, payload: ReplyPayload::JsonMinusOne });
    router.set_location_permission(1);
    router.on_stop();
    let effects = router.on_platform_message(Some(b"weather_method_channel"), 4, b"{\"method\":\"check_permission\",\"args\":null}");
    assert_eq!(effects[1], Effect::Reply { holder: HOLDER, reply_id: 4, payload: ReplyPayload::JsonZero });
}

#[test]
fn looper_acquires_and_releases_balance() {
    let mut router = running_router();
    let mut effects = Vec::new();
    for i in 0..3usize {
        let queue = AInputQueue { handle: 0x5000 + i };
        effects.extend(router.on_input_queue_created(Some(queue)));
        effects.extend(router.attach_input_queue(queue, Some(ALooper { handle: 0x6000 + i })));
    }
    let balance = |effects: &Vec<Effect>| {
        effects.iter().fold(0i32, |b, e| match e {
            Effect::AcquireLooper { .. } => b + 1,
            Effect::ReleaseLooper { .. } => b - 1,
            _ => b,
        })
    };
    assert_eq!(balance(&effects), 1);
    effects.extend(router.on_input_queue_destroyed(Some(AInputQueue { handle: 0x5002 })));
    assert_eq!(balance(&effects), 0);
    let queue = AInputQueue { handle: 0x5100 };
    effects.extend(router.on_input_queue_created(Some(queue)));
    effects.extend(router.attach_input_queue(queue, Some(ALooper { handle: 0x6100 })));
    effects.extend(router.on_destroy());
    assert_eq!(balance(&effects), 0);
    assert_eq!(router.state.input_looper, None);
}

#[test]
fn platform_message_without_engine_is_only_logged() {
    let router = Router::new();
    let effects = router.on_platform_message(Some(b"com.xiaomi.hyperos/native_ready"), 7, b"{}");
    assert_eq!(effects, vec![Effect::LogLine(platform_message_log_line(b"com.xiaomi.hyperos/native_ready", b"{}"))]);
}

#[test]
fn accepted_agreement_changes_app_run_reply() {
    let mut router = running_router();
    router.deliver_activity_result(1);
    let effects = router.on_platform_message(Some(b"SnowWeatherAppRun"), 5, b"\x07\x06getAll");
    assert_eq!(effects[1], Effect::Reply { holder: HOLDER, reply_id: 5, payload: ReplyPayload::StandardAppRunTrueMap });
    router.deliver_activity_result(0);
    let effects = router.on_platform_message(Some(b"SnowWeatherAppRun"), 5, b"\x07\x06getAll");
    assert_eq!(effects[1], Effect::Reply { holder: HOLDER, reply_id: 5, payload: ReplyPayload::StandardEmptyMap });
}

#[test]
fn granted_permission_changes_check_permission_reply() {
    let mut router = running_router();
    router.deliver_permission_result(-1, 0);
    let effects = router.on_platform_message(Some(b"weather_method_channel"), 2, b"{\"method\":\"check_permission\"}");
    assert_eq!(effects[1], Effect::Reply { holder: HOLDER, reply_id: 2, payload: ReplyPayload::JsonZero });
    router.deliver_permission_result(-1, -1);
    let effects = router.on_platform_message(Some(b"weather_method_channel"), 2, b"{\"method\":\"check_permission\"}");
    assert_eq!(effects[1], Effect::Reply { holder: HOLDER, reply_id: 2, payload: ReplyPayload::JsonMinusOne });
}

#[test]
fn engine_launch_sequence() {
    let mut router = Router::new();
    router.user_agreed = true;
    assert_eq!(router.on_create(ACTIVITY), vec![Effect::Log(LogMessage::Created)]);
    assert!(router.user_agreed);
    assert_eq!(router.state.activity, Some(ACTIVITY));
    router.on_resume();
    let window = ANativeWindow { handle: 0x3000 };
    let was_ready = router.on_native_window_created(Some(window));
    assert!(!was_ready);
    assert!(router.engine_should_start());
    assert_eq!(router.runtime_created(None), vec![Effect::Log(LogMessage::RuntimeCreateFailed)]);
    assert!(router.engine_should_start());
    assert_eq!(router.runtime_created(Some(0x2000)), vec![]);
    assert!(!router.engine_should_start());
    let effects = router.holder_created(Some(HOLDER));
    assert_eq!(
        effects,
        vec![
            Effect::SetLocales { holder: HOLDER },
            Effect::Log(LogMessage::LocalesSet),
            Effect::Launch { holder: HOLDER, activity: ACTIVITY },
            Effect::Log(LogMessage::EngineLaunched),
            dispatch(Outbound::Lifecycle(LifecycleState::Resumed)),
            dispatch(Outbound::OnReady),
            Effect::SurfaceCreate { holder: HOLDER, window },
            Effect::PushWindowSize { holder: HOLDER, window },
            Effect::Log(LogMessage::ViewportMetricsPushed),
        ]
    );
    let effects = router.after_native_window_created(was_ready, Some(window));
    assert_eq!(
        effects,
        vec![
            Effect::Log(LogMessage::InitialSurfaceBindSkipped),
            dispatch(Outbound::Lifecycle(LifecycleState::Resumed)),
            dispatch(Outbound::OnReady),
        ]
    );
}

#[test]
fn holder_creation_failure_is_logged() {
    let mut router = Router::new();
    router.on_create(ACTIVITY);
    router.runtime_created(Some(0x2000));
    assert_eq!(router.holder_created(None), vec![Effect::Log(LogMessage::HolderCreateFailed)]);
    assert_eq!(router.state.holder, None);
    assert!(!router.engine_should_start());
}

#[test]
fn window_recreated_on_running_engine_is_rebound() {
    let mut router = running_router();
    let window = ANativeWindow { handle: 0x3100 };
    let was_ready = router.on_native_window_created(Some(window));
    assert!(was_ready);
    assert!(!router.engine_should_start());
    assert_eq!(
        router.after_native_window_created(was_ready, Some(window)),
        vec![
            Effect::SurfaceCreate { holder: HOLDER, window },
            Effect::PushWindowSize { holder: HOLDER, window },
            Effect::Log(LogMessage::ViewportMetricsPushed),
            dispatch(Outbound::OnReady),
        ]
    );
    assert_eq!(router.after_native_window_created(true, None), vec![dispatch(Outbound::OnReady)]);
}

#[test]
fn resume_pause_stop_and_focus() {
    let mut router = running_router();
    router.on_resume();
    assert!(router.state.resumed);
    assert_eq!(
        router.after_resume(),
        vec![dispatch(Outbound::Lifecycle(LifecycleState::Resumed)), dispatch(Outbound::OnReady)]
    );
    assert_eq!(router.on_window_focus_changed(0), vec![dispatch(Outbound::Lifecycle(LifecycleState::Inactive))]);
    assert_eq!(router.on_window_focus_changed(1), vec![dispatch(Outbound::Lifecycle(LifecycleState::Resumed))]);
    assert_eq!(router.on_pause(), vec![dispatch(Outbound::Lifecycle(LifecycleState::Inactive))]);
    assert!(!router.state.resumed);
    assert_eq!(router.on_window_focus_changed(1), vec![]);
    assert_eq!(router.on_stop(), vec![dispatch(Outbound::Lifecycle(LifecycleState::Paused))]);
    assert_eq!(Outbound::Lifecycle(LifecycleState::Paused).payload(), b"AppLifecycleState.paused");
    assert_eq!(Outbound::Lifecycle(LifecycleState::Paused).channel(), b"flutter/lifecycle");
}

#[test]
fn window_resize_and_destroy() {
    let mut router = running_router();
    let window = ANativeWindow { handle: 0x3200 };
    assert_eq!(
        router.on_native_window_resized(Some(window)),
        vec![Effect::PushWindowSize { holder: HOLDER, window }, Effect::Log(LogMessage::ViewportMetricsPushed)]
    );
    assert_eq!(router.on_native_window_destroyed(), vec![Effect::Log(LogMessage::SurfaceDestroyDeferred)]);
    assert_eq!(router.state.window, None);
    assert_eq!(router.on_native_window_resized(None), vec![]);
}

#[test]
fn input_queue_lifecycle() {
    let mut router = running_router();
    let queue = AInputQueue { handle: 0x5000 };
    let looper = ALooper { handle: 0x6000 };
    assert_eq!(router.on_input_queue_created(Some(queue)), vec![]);
    assert_eq!(router.on_input_queue_created(None), vec![]);
    assert_eq!(
        router.attach_input_queue(queue, Some(looper)),
        vec![
            Effect::AcquireLooper { looper },
            Effect::AttachLooper { queue, looper },
            Effect::Log(LogMessage::InputQueueAttached),
        ]
    );
    assert_eq!(router.state.input_queue, Some(queue));
    let queue2 = AInputQueue { handle: 0x5100 };
    assert_eq!(
        router.on_input_queue_created(Some(queue2)),
        vec![Effect::DetachLooper { queue }, Effect::ReleaseLooper { looper }]
    );
    let before = router;
    assert_eq!(router.attach_input_queue(queue2, None), vec![Effect::Log(LogMessage::InputLooperUnavailable)]);
    assert_eq!(router, before);
    assert_eq!(
        router.on_input_queue_destroyed(Some(queue)),
        vec![Effect::DetachLooper { queue }, Effect::ReleaseLooper { looper }, Effect::Log(LogMessage::InputQueueDetached)]
    );
    assert_eq!(router.state.input_queue, None);
    assert_eq!(router.state.input_looper, None);
}

#[test]
fn destroy_keeps_engine() {
    let mut router = running_router();
    let queue = AInputQueue { handle: 0x5000 };
    let looper = ALooper { handle: 0x6000 };
    router.attach_input_queue(queue, Some(looper));
    router.on_native_window_created(Some(ANativeWindow { handle: 0x3000 }));
    router.on_resume();
    let effects = router.on_destroy();
    assert_eq!(
        effects,
        vec![
            dispatch(Outbound::Lifecycle(LifecycleState::Detached)),
            Effect::DetachLooper { queue },
            Effect::ReleaseLooper { looper },
            Effect::Log(LogMessage::EngineRetained),
        ]
    );
    assert_eq!(router.state.activity, None);
    assert_eq!(router.state.window, None);
    assert_eq!(router.state.input_queue, None);
    assert!(!router.state.resumed);
    assert_eq!(router.state.runtime, Some(0x2000));
    assert_eq!(router.state.holder, Some(HOLDER));
    assert!(!router.engine_should_start());
}

#[test]
fn input_event_decisions() {
    let event = AInputEvent { handle: 0x7000 };
    assert_eq!(input_event_fetched(0, Some(event)), Some(event));
    assert_eq!(input_event_fetched(1, Some(event)), Some(event));
    assert_eq!(input_event_fetched(-1, Some(event)), None);
    assert_eq!(input_event_fetched(0, None), None);
    assert!(input_event_finishes(0));
    assert!(!input_event_finishes(1));
}

#[test]
fn callback_table_and_engine_args() {
    let table = hyper_callback_table();
    assert_eq!(table.len(), 16);
    assert_eq!(table[0], HyperCallbackSlot::Word(0x68));
    assert_eq!(table[2], HyperCallbackSlot::FirstFrame);
    assert_eq!(table[4], HyperCallbackSlot::PlatformMessage);
    assert_eq!(table[13], HyperCallbackSlot::Word(0x18));
    for i in [1usize, 3, 5, 6, 7, 8, 9, 10, 11, 12, 14, 15] {
        assert_eq!(table[i], HyperCallbackSlot::Noop);
    }
    assert_eq!(engine_args(), vec![ARG_AOT, ARG_ICU, ARG_IMPELLER, ARG_IMPELLER]);
    assert_eq!(ARG_AOT, "--aot-shared-library-name=libapp.so");
    assert_eq!(HyperEntry::RuntimeCreate.offset(), 0x08);
    assert_eq!(HyperEntry::ReplyPlatformMessage.offset(), 0x78);
    assert_eq!(HyperEntry::SetLocales.offset(), 0x238);
    assert_eq!(HyperEntry::UpdateDisplayAttributes.offset(), 0xc8);
}

#[test]
fn log_messages_are_c_strings() {
    assert_eq!(LogMessage::Created.text(), "SnowWeatherRouter onCreate\0");
    assert_eq!(LogMessage::RuntimeCreateFailed.priority(), 5);
    assert_eq!(LogMessage::EngineLaunched.priority(), 4);
    assert_eq!(LogMessage::InputLooperUnavailable.priority(), 5);
    assert_eq!(LogMessage::LocationServed.text(), "Snow location channel served v24 result\0");
}
