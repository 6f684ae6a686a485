//! The router's state machine. The host calls in on every NativeActivity
//! callback, JNI call and engine message; the router updates its state and
//! answers with the effects the host must carry out, in order.
use vstd::prelude::*;
use crate::abi::{AInputEvent, AInputQueue, ALooper, ANativeWindow};
use crate::logline::{log_line, platform_message_log_line};
use crate::messages::{LifecycleState, LogMessage, Outbound, PermissionOutcome, ReplyPayload};
use crate::routing::{route_of, route_platform_message, Route};

verus! {

/// What the router remembers between callbacks.
#[derive(Clone, Copy, PartialEq, Eq, Debug)]
pub struct RouterState {
    /// The activity the router was created for.
    pub activity: Option<usize>,
    /// The engine runtime, once created.
    pub runtime: Option<usize>,
    /// The engine's shell holder, once created.
    pub holder: Option<usize>,
    /// The window the engine draws into.
    pub window: Option<ANativeWindow>,
    /// The input queue the router consumes.
    pub input_queue: Option<AInputQueue>,
    /// The looper the input queue is attached to.
    pub input_looper: Option<ALooper>,
    /// Whether the activity is resumed.
    pub resumed: bool,
}

impl RouterState {
    /// A shell holder only ever exists on top of a runtime.
    pub open spec fn wf(self) -> bool {
        self.holder is Some ==> self.runtime is Some
    }

    /// The state before any activity is known.
    pub open spec fn spec_empty() -> RouterState {
        RouterState {
            activity: None,
            runtime: None,
            holder: None,
            window: None,
            input_queue: None,
            input_looper: None,
            resumed: false,
        }
    }

    /// The state before any activity is known.
    pub fn empty() -> (state: RouterState)
        ensures
            state == RouterState::spec_empty(),
    {
        RouterState {
            activity: None,
            runtime: None,
            holder: None,
            window: None,
            input_queue: None,
            input_looper: None,
            resumed: false,
        }
    }
}

/// Something the host must do on the router's behalf.
#[derive(Clone, PartialEq, Eq, Debug)]
pub enum Effect {
    /// Write a fixed message to the Android log.
    Log(LogMessage),
    /// Write this NUL-terminated line to the Android log.
    LogLine(Vec<u8>),
    /// Send a message to the engine.
    Dispatch { holder: usize, message: Outbound },
    /// Answer the platform message `reply_id`.
    Reply { holder: usize, reply_id: usize, payload: ReplyPayload },
    /// Tell the engine its locale.
    SetLocales { holder: usize },
    /// Launch the Dart entry point with the activity's assets.
    Launch { holder: usize, activity: usize },
    /// Bind the engine to a window.
    SurfaceCreate { holder: usize, window: ANativeWindow },
    /// Read the window's size and push display attributes, viewport metrics
    /// and window size to the engine.
    PushWindowSize { holder: usize, window: ANativeWindow },
    /// Detach the input queue from its looper.
    DetachLooper { queue: AInputQueue },
    /// Release a looper.
    ReleaseLooper { looper: ALooper },
    /// Acquire a looper.
    AcquireLooper { looper: ALooper },
    /// Attach the input queue to the looper, with the router's input callback.
    AttachLooper { queue: AInputQueue, looper: ALooper },
}

/// The message, sent to the engine if there is one.
pub open spec fn dispatched(holder: Option<usize>, message: Outbound) -> Seq<Effect> {
    match holder {
        Some(h) => seq![Effect::Dispatch { holder: h, message }],
        None => Seq::empty(),
    }
}

/// The reply to a platform message, sent back if there is an engine to take it.
pub open spec fn replied(holder: Option<usize>, reply_id: usize, payload: ReplyPayload) -> Seq<
    Effect,
> {
    match holder {
        Some(h) => if reply_id != 0 {
            seq![Effect::Reply { holder: h, reply_id, payload }]
        } else {
            Seq::empty()
        },
        None => Seq::empty(),
    }
}

/// Pushing the window's size, when there is both an engine and a window.
pub open spec fn window_pushed(holder: Option<usize>, window: Option<ANativeWindow>) -> Seq<
    Effect,
> {
    match (holder, window) {
        (Some(h), Some(w)) => seq![
            Effect::PushWindowSize { holder: h, window: w },
            Effect::Log(LogMessage::ViewportMetricsPushed),
        ],
        _ => Seq::empty(),
    }
}

/// `effect` when `condition` holds, else nothing.
pub open spec fn effects_if(condition: bool, effects: Seq<Effect>) -> Seq<Effect> {
    if condition {
        effects
    } else {
        Seq::empty()
    }
}

/// Which location permissions a permission result grants.
pub open spec fn permission_outcome(fine_result: i32, coarse_result: i32) -> PermissionOutcome {
    if fine_result == 0 && coarse_result == 0 {
        PermissionOutcome::BothGranted
    } else if fine_result == 0 {
        PermissionOutcome::FineOnly
    } else if coarse_result == 0 {
        PermissionOutcome::CoarseOnly
    } else {
        PermissionOutcome::Denied
    }
}

/// The effects after the log line for a platform message, given the
/// router's flags and engine.
pub open spec fn message_effects(
    holder: Option<usize>,
    reply_id: usize,
    route: Route,
) -> Seq<Effect> {
    effects_if(route.location_served, seq![Effect::Log(LogMessage::LocationServed)]) + replied(
        holder,
        reply_id,
        route.reply,
    ) + effects_if(route.announce_ready, dispatched(holder, Outbound::OnReady))
}

/// What the router asks of a freshly created shell holder `h`: the locale,
/// the launch, the lifecycle state if resumed, the ready message, and the
/// binding of the window if there is one.
pub open spec fn engine_launch_effects(state: RouterState, h: usize) -> Seq<Effect> {
    seq![
        Effect::SetLocales { holder: h },
        Effect::Log(LogMessage::LocalesSet),
        Effect::Launch { holder: h, activity: state.activity.unwrap() },
        Effect::Log(LogMessage::EngineLaunched),
    ] + effects_if(state.resumed, dispatched(Some(h), Outbound::Lifecycle(LifecycleState::Resumed)))
        + dispatched(Some(h), Outbound::OnReady) + match state.window {
        Some(w) => seq![Effect::SurfaceCreate { holder: h, window: w }] + window_pushed(
            Some(h),
            Some(w),
        ),
        None => Seq::empty(),
    }
}

/// What follows the arrival of `window` once the engine was started if it
/// had to be: the rebinding of an engine that was already there, or a note
/// that the new engine bound the window itself; then the lifecycle state if
/// resumed, and the ready message.
pub open spec fn window_created_effects(
    state: RouterState,
    holder_was_ready: bool,
    window: Option<ANativeWindow>,
) -> Seq<Effect> {
    (if holder_was_ready {
        match (state.holder, window) {
            (Some(h), Some(w)) => seq![Effect::SurfaceCreate { holder: h, window: w }]
                + window_pushed(state.holder, state.window),
            _ => Seq::empty(),
        }
    } else {
        seq![Effect::Log(LogMessage::InitialSurfaceBindSkipped)]
    }) + effects_if(state.resumed, dispatched(state.holder, Outbound::Lifecycle(LifecycleState::Resumed)))
        + dispatched(state.holder, Outbound::OnReady)
}

/// A call on the router, as far as the location permission flag goes: the
/// two calls that set it, and every other call, which keeps it.
#[derive(Clone, Copy, PartialEq, Eq, Structural, Debug)]
pub enum FlagCall {
    /// `set_location_permission(granted)`.
    LocationPermission(u8),
    /// `deliver_permission_result(fine_result, coarse_result)`.
    PermissionResult(i32, i32),
    /// Any other method of the router.
    Other,
}

/// The location permission flag after `call`.
pub open spec fn location_after(granted: bool, call: FlagCall) -> bool {
    match call {
        FlagCall::LocationPermission(g) => g != 0,
        FlagCall::PermissionResult(fine, coarse) => fine == 0 || coarse == 0,
        FlagCall::Other => granted,
    }
}

/// The location permission flag after `calls`, in order.
pub open spec fn location_after_calls(granted: bool, calls: Seq<FlagCall>) -> bool
    decreases calls.len(),
{
    if calls.len() == 0 {
        granted
    } else {
        location_after(location_after_calls(granted, calls.drop_last()), calls.last())
    }
}

/// A call of the router on the input queue and its looper: a new queue, for
/// which the host found `looper`; a destroyed queue; a destroyed activity.
#[derive(Clone, Copy, PartialEq, Eq, Structural, Debug)]
pub enum InputCall {
    /// `on_input_queue_created(Some(queue))` then `attach_input_queue(queue, Some(looper))`.
    QueueCreated(AInputQueue, ALooper),
    /// `on_input_queue_destroyed(queue)`.
    QueueDestroyed(Option<AInputQueue>),
    /// `on_destroy()`.
    ActivityDestroyed,
}

/// The router's state after an input call.
pub open spec fn input_state_after(state: RouterState, call: InputCall) -> RouterState {
    match call {
        InputCall::QueueCreated(q, l) => RouterState {
            input_queue: Some(q),
            input_looper: Some(l),
            ..state
        },
        InputCall::QueueDestroyed(_) => RouterState { input_queue: None, input_looper: None, ..state },
        InputCall::ActivityDestroyed => RouterState {
            activity: None,
            window: None,
            input_queue: None,
            input_looper: None,
            resumed: false,
            ..state
        },
    }
}

/// The effects of an input call.
pub open spec fn input_call_effects(state: RouterState, call: InputCall) -> Seq<Effect> {
    match call {
        InputCall::QueueCreated(q, l) => queue_detached(state.input_queue) + looper_released(
            state.input_looper,
        ) + queue_attached(q, l),
        InputCall::QueueDestroyed(q) => queue_detached(q) + looper_released(state.input_looper)
            + seq![Effect::Log(LogMessage::InputQueueDetached)],
        InputCall::ActivityDestroyed => destroy_effects(state),
    }
}

/// The state after a run of input calls.
pub open spec fn input_run_state(state: RouterState, calls: Seq<InputCall>) -> RouterState
    decreases calls.len(),
{
    if calls.len() == 0 {
        state
    } else {
        input_state_after(input_run_state(state, calls.drop_last()), calls.last())
    }
}

/// All effects of a run of input calls, in order.
pub open spec fn input_run_effects(state: RouterState, calls: Seq<InputCall>) -> Seq<Effect>
    decreases calls.len(),
{
    if calls.len() == 0 {
        Seq::empty()
    } else {
        input_run_effects(state, calls.drop_last()) + input_call_effects(
            input_run_state(state, calls.drop_last()),
            calls.last(),
        )
    }
}

/// Detaching the input queue the router holds, if any.
pub open spec fn queue_detached(queue: Option<AInputQueue>) -> Seq<Effect> {
    match queue {
        Some(q) => seq![Effect::DetachLooper { queue: q }],
        None => Seq::empty(),
    }
}

/// Releasing the looper the router holds, if any.
pub open spec fn looper_released(looper: Option<ALooper>) -> Seq<Effect> {
    match looper {
        Some(l) => seq![Effect::ReleaseLooper { looper: l }],
        None => Seq::empty(),
    }
}

/// Acquiring `looper` and attaching `queue` to it.
pub open spec fn queue_attached(queue: AInputQueue, looper: ALooper) -> Seq<Effect> {
    seq![
        Effect::AcquireLooper { looper },
        Effect::AttachLooper { queue, looper },
        Effect::Log(LogMessage::InputQueueAttached),
    ]
}

/// What destroying the activity asks of the host: tell the engine it is
/// detached, let the input queue and looper go, and note the engine is kept.
pub open spec fn destroy_effects(state: RouterState) -> Seq<Effect> {
    dispatched(state.holder, Outbound::Lifecycle(LifecycleState::Detached)) + queue_detached(
        state.input_queue,
    ) + looper_released(state.input_looper) + seq![Effect::Log(LogMessage::EngineRetained)]
}

/// Appends the message for the engine, if there is one.
fn push_dispatch(effects: &mut Vec<Effect>, holder: Option<usize>, message: Outbound)
    ensures
        final(effects)@ == old(effects)@ + dispatched(holder, message),
{
    match holder {
        Some(h) => {
            effects.push(Effect::Dispatch { holder: h, message });
        },
        None => {},
    }
    assert(effects@ =~= old(effects)@ + dispatched(holder, message));
}

/// Appends the push of the window's size, if there is an engine and a window.
fn push_window_size(effects: &mut Vec<Effect>, holder: Option<usize>, window: Option<ANativeWindow>)
    ensures
        final(effects)@ == old(effects)@ + window_pushed(holder, window),
{
    match (holder, window) {
        (Some(h), Some(w)) => {
            effects.push(Effect::PushWindowSize { holder: h, window: w });
            effects.push(Effect::Log(LogMessage::ViewportMetricsPushed));
        },
        _ => {},
    }
    assert(effects@ =~= old(effects)@ + window_pushed(holder, window));
}

/// What the host keeps for the router: its state and the two flags that
/// outlive an activity.
#[derive(Clone, Copy, PartialEq, Eq, Debug)]
pub struct Router {
    pub state: RouterState,
    /// Whether the user accepted the agreement.
    pub user_agreed: bool,
    /// Whether the user granted a location permission.
    pub location_permission_granted: bool,
}

impl Router {
    pub open spec fn wf(self) -> bool {
        self.state.wf()
    }

    /// The router before anything happened.
    pub fn new() -> (router: Router)
        ensures
            router.state == RouterState::spec_empty(),
            !router.user_agreed,
            !router.location_permission_granted,
            router.wf(),
    {
        Router { state: RouterState::empty(), user_agreed: false, location_permission_granted: false }
    }

    /// The Java host reports whether the user accepted the agreement.
    pub fn set_user_agreement(&mut self, agreed: u8) -> (effects: Vec<Effect>)
        ensures
            final(self).user_agreed == (agreed != 0),
            final(self).state == old(self).state,
            final(self).location_permission_granted == old(self).location_permission_granted,
            effects@ == seq![
                Effect::Log(
                    if agreed != 0 {
                        LogMessage::UserAgreementAccepted
                    } else {
                        LogMessage::UserAgreementPending
                    },
                ),
            ],
    {
        self.user_agreed = agreed != 0;
        let mut effects: Vec<Effect> = Vec::new();
        if self.user_agreed {
            effects.push(Effect::Log(LogMessage::UserAgreementAccepted));
        } else {
            effects.push(Effect::Log(LogMessage::UserAgreementPending));
        }
        effects
    }

    /// The Java host reports whether the user granted location.
    pub fn set_location_permission(&mut self, granted: u8) -> (effects: Vec<Effect>)
        ensures
            final(self).location_permission_granted == (granted != 0),
            final(self).location_permission_granted == location_after(
                old(self).location_permission_granted,
                FlagCall::LocationPermission(granted),
            ),
            final(self).state == old(self).state,
            final(self).user_agreed == old(self).user_agreed,
            effects@ == seq![
                Effect::Log(
                    if granted != 0 {
                        LogMessage::LocationPermissionGranted
                    } else {
                        LogMessage::LocationPermissionDenied
                    },
                ),
            ],
    {
        self.location_permission_granted = granted != 0;
        let mut effects: Vec<Effect> = Vec::new();
        if self.location_permission_granted {
            effects.push(Effect::Log(LogMessage::LocationPermissionGranted));
        } else {
            effects.push(Effect::Log(LogMessage::LocationPermissionDenied));
        }
        effects
    }

    /// The Java host delivers the result of the agreement dialog: 1 accepts.
    /// An acceptance is passed to Flutter followed by the route to the city
    /// search; anything else is passed on as a decline.
    pub fn deliver_activity_result(&mut self, result_code: i32) -> (effects: Vec<Effect>)
        ensures
            final(self).user_agreed == (result_code == 1),
            final(self).state == old(self).state,
            final(self).location_permission_granted == old(self).location_permission_granted,
            result_code == 1 ==> effects@ == dispatched(old(self).state.holder, Outbound::CtaAccepted)
                + dispatched(old(self).state.holder, Outbound::CtaRouteSearchCity) + seq![
                Effect::Log(LogMessage::CtaAcceptanceDelivered),
            ],
            result_code != 1 ==> effects@ == dispatched(old(self).state.holder, Outbound::CtaDeclined)
                + seq![Effect::Log(LogMessage::CtaDeclineDelivered)],
    {
        let mut effects: Vec<Effect> = Vec::new();
        if result_code == 1 {
            self.user_agreed = true;
            push_dispatch(&mut effects, self.state.holder, Outbound::CtaAccepted);
            push_dispatch(&mut effects, self.state.holder, Outbound::CtaRouteSearchCity);
            effects.push(Effect::Log(LogMessage::CtaAcceptanceDelivered));
        } else {
            self.user_agreed = false;
            push_dispatch(&mut effects, self.state.holder, Outbound::CtaDeclined);
            effects.push(Effect::Log(LogMessage::CtaDeclineDelivered));
        }
        effects
    }

    /// The Java host delivers the results of the two location permission
    /// requests (0 grants). Location counts as granted when either is.
    pub fn deliver_permission_result(&mut self, fine_result: i32, coarse_result: i32) -> (effects:
        Vec<Effect>)
        ensures
            final(self).location_permission_granted == (fine_result == 0 || coarse_result == 0),
            final(self).location_permission_granted == location_after(
                old(self).location_permission_granted,
                FlagCall::PermissionResult(fine_result, coarse_result),
            ),
            final(self).state == old(self).state,
            final(self).user_agreed == old(self).user_agreed,
            effects@ == dispatched(
                old(self).state.holder,
                Outbound::PermissionResult(permission_outcome(fine_result, coarse_result)),
            ) + seq![Effect::Log(LogMessage::PermissionResultDelivered)],
    {
        self.location_permission_granted = fine_result == 0 || coarse_result == 0;
        let outcome = if fine_result == 0 && coarse_result == 0 {
            PermissionOutcome::BothGranted
        } else if fine_result == 0 {
            PermissionOutcome::FineOnly
        } else if coarse_result == 0 {
            PermissionOutcome::CoarseOnly
        } else {
            PermissionOutcome::Denied
        };
        let mut effects: Vec<Effect> = Vec::new();
        push_dispatch(&mut effects, self.state.holder, Outbound::PermissionResult(outcome));
        effects.push(Effect::Log(LogMessage::PermissionResultDelivered));
        effects
    }

    /// The engine sends a platform message. Every message that names a
    /// channel is logged, channel and payload; one that expects a reply
    /// (a nonzero reply id) is then answered as the channel's route says.
    /// A message without a channel is dropped.
    pub fn on_platform_message(&self, channel: Option<&[u8]>, reply_id: usize, payload: &[u8]) -> (effects: Vec<Effect>)
        ensures
            channel is None ==> effects@.len() == 0,
            channel is Some ==> {
                &&& effects@.len() >= 1
                &&& effects@[0] matches Effect::LogLine(line) && line@ == log_line(
                    channel.unwrap()@,
                    payload@,
                )
                &&& reply_id == 0 ==> effects@.len() == 1
                &&& reply_id != 0 ==> effects@.drop_first() == message_effects(
                    self.state.holder,
                    reply_id,
                    route_of(
                        channel.unwrap()@,
                        payload@,
                        self.user_agreed,
                        self.location_permission_granted,
                    ),
                )
            },
    {
        let mut effects: Vec<Effect> = Vec::new();
        let channel = match channel {
            Some(c) => c,
            None => {
                return effects;
            },
        };
        effects.push(Effect::LogLine(platform_message_log_line(channel, payload)));
        if reply_id == 0 {
            return effects;
        }
        let route = route_platform_message(
            channel,
            payload,
            self.user_agreed,
            self.location_permission_granted,
        );
        if route.location_served {
            effects.push(Effect::Log(LogMessage::LocationServed));
        }
        match self.state.holder {
            Some(h) => {
                effects.push(Effect::Reply { holder: h, reply_id, payload: route.reply });
            },
            None => {},
        }
        if route.announce_ready {
            push_dispatch(&mut effects, self.state.holder, Outbound::OnReady);
        }
        assert(effects@.drop_first() =~= message_effects(self.state.holder, reply_id, route));
        effects
    }

    /// Whether the engine must be started: there is an activity and no runtime.
    pub fn engine_should_start(&self) -> (start: bool)
        ensures
            start == (self.state.runtime is None && self.state.activity is Some),
    {
        self.state.runtime.is_none() && self.state.activity.is_some()
    }

    /// The host created the runtime (None when creation failed).
    pub fn runtime_created(&mut self, runtime: Option<usize>) -> (effects: Vec<Effect>)
        requires
            old(self).wf(),
            old(self).state.runtime is None,
        ensures
            final(self).wf(),
            final(self).state == (RouterState { runtime, ..old(self).state }),
            final(self).user_agreed == old(self).user_agreed,
            final(self).location_permission_granted == old(self).location_permission_granted,
            effects@ == effects_if(runtime is None, seq![Effect::Log(LogMessage::RuntimeCreateFailed)]),
    {
        self.state.runtime = runtime;
        let mut effects: Vec<Effect> = Vec::new();
        if runtime.is_none() {
            effects.push(Effect::Log(LogMessage::RuntimeCreateFailed));
        }
        assert(effects@ =~= effects_if(runtime is None, seq![Effect::Log(LogMessage::RuntimeCreateFailed)]));
        effects
    }

    /// The host created the shell holder on the runtime (None when creation
    /// failed). With a holder, the engine is given its locale and launched,
    /// told the lifecycle state if the activity is resumed, told the native
    /// side is ready, and bound to the window if there is one.
    pub fn holder_created(&mut self, holder: Option<usize>) -> (effects: Vec<Effect>)
        requires
            old(self).wf(),
            old(self).state.runtime is Some,
            old(self).state.activity is Some,
        ensures
            final(self).wf(),
            final(self).state == (RouterState { holder, ..old(self).state }),
            final(self).user_agreed == old(self).user_agreed,
            final(self).location_permission_granted == old(self).location_permission_granted,
            holder is None ==> effects@ == seq![Effect::Log(LogMessage::HolderCreateFailed)],
            holder matches Some(h) ==> effects@ == engine_launch_effects(old(self).state, h),
    {
        self.state.holder = holder;
        let mut effects: Vec<Effect> = Vec::new();
        let h = match holder {
            Some(h) => h,
            None => {
                effects.push(Effect::Log(LogMessage::HolderCreateFailed));
                assert(effects@ =~= seq![Effect::Log(LogMessage::HolderCreateFailed)]);
                return effects;
            },
        };
        let activity = self.state.activity.unwrap();
        effects.push(Effect::SetLocales { holder: h });
        effects.push(Effect::Log(LogMessage::LocalesSet));
        effects.push(Effect::Launch { holder: h, activity });
        effects.push(Effect::Log(LogMessage::EngineLaunched));
        let ghost launched = effects@;
        if self.state.resumed {
            push_dispatch(&mut effects, holder, Outbound::Lifecycle(LifecycleState::Resumed));
        }
        let ghost lifecycle = effects@;
        push_dispatch(&mut effects, holder, Outbound::OnReady);
        let ghost ready = effects@;
        match self.state.window {
            Some(w) => {
                effects.push(Effect::SurfaceCreate { holder: h, window: w });
                push_window_size(&mut effects, holder, Some(w));
            },
            None => {},
        }
        assert(lifecycle =~= launched + effects_if(
            old(self).state.resumed,
            dispatched(holder, Outbound::Lifecycle(LifecycleState::Resumed)),
        ));
        assert(effects@ =~= ready + match old(self).state.window {
            Some(w) => seq![Effect::SurfaceCreate { holder: h, window: w }] + window_pushed(
                holder,
                Some(w),
            ),
            None => Seq::<Effect>::empty(),
        });
        assert(effects@ =~= engine_launch_effects(old(self).state, h));
        effects
    }

    /// The activity was created: the router starts over for it, keeping the
    /// user's answers.
    pub fn on_create(&mut self, activity: usize) -> (effects: Vec<Effect>)
        ensures
            final(self).wf(),
            final(self).state == (RouterState { activity: Some(activity), ..RouterState::spec_empty() }),
            final(self).user_agreed == old(self).user_agreed,
            final(self).location_permission_granted == old(self).location_permission_granted,
            effects@ == seq![Effect::Log(LogMessage::Created)],
    {
        self.state = RouterState::empty();
        self.state.activity = Some(activity);
        let mut effects: Vec<Effect> = Vec::new();
        effects.push(Effect::Log(LogMessage::Created));
        effects
    }

    /// The activity resumed; the engine is started next if it must be.
    pub fn on_resume(&mut self)
        ensures
            *final(self) == (Router { state: RouterState { resumed: true, ..old(self).state }, ..*old(self) }),
    {
        self.state.resumed = true;
    }

    /// After the activity resumed and the engine was started if it had to be:
    /// the engine is told the activity is resumed and the native side ready.
    pub fn after_resume(&self) -> (effects: Vec<Effect>)
        ensures
            effects@ == dispatched(self.state.holder, Outbound::Lifecycle(LifecycleState::Resumed))
                + dispatched(self.state.holder, Outbound::OnReady),
    {
        let mut effects: Vec<Effect> = Vec::new();
        push_dispatch(&mut effects, self.state.holder, Outbound::Lifecycle(LifecycleState::Resumed));
        push_dispatch(&mut effects, self.state.holder, Outbound::OnReady);
        effects
    }

    /// The activity paused: it is no longer resumed, and the engine is told so.
    pub fn on_pause(&mut self) -> (effects: Vec<Effect>)
        ensures
            *final(self) == (Router { state: RouterState { resumed: false, ..old(self).state }, ..*old(self) }),
            effects@ == dispatched(old(self).state.holder, Outbound::Lifecycle(LifecycleState::Inactive)),
    {
        self.state.resumed = false;
        let mut effects: Vec<Effect> = Vec::new();
        push_dispatch(&mut effects, self.state.holder, Outbound::Lifecycle(LifecycleState::Inactive));
        effects
    }

    /// The activity stopped: the engine is told it is paused.
    pub fn on_stop(&self) -> (effects: Vec<Effect>)
        ensures
            effects@ == dispatched(self.state.holder, Outbound::Lifecycle(LifecycleState::Paused)),
    {
        let mut effects: Vec<Effect> = Vec::new();
        push_dispatch(&mut effects, self.state.holder, Outbound::Lifecycle(LifecycleState::Paused));
        effects
    }

    /// The activity is destroyed: the engine is told it is detached, the
    /// input queue and looper are let go, and the router forgets the activity,
    /// its window and its input, but keeps the engine until the process exits.
    pub fn on_destroy(&mut self) -> (effects: Vec<Effect>)
        ensures
            old(self).wf() ==> final(self).wf(),
            final(self).state == (RouterState {
                activity: None,
                window: None,
                input_queue: None,
                input_looper: None,
                resumed: false,
                ..old(self).state
            }),
            final(self).user_agreed == old(self).user_agreed,
            final(self).location_permission_granted == old(self).location_permission_granted,
            effects@ == destroy_effects(old(self).state),
    {
        let mut effects: Vec<Effect> = Vec::new();
        push_dispatch(&mut effects, self.state.holder, Outbound::Lifecycle(LifecycleState::Detached));
        let ghost detached = effects@;
        match self.state.input_queue {
            Some(q) => {
                effects.push(Effect::DetachLooper { queue: q });
            },
            None => {},
        }
        let ghost queue = effects@;
        match self.state.input_looper {
            Some(l) => {
                effects.push(Effect::ReleaseLooper { looper: l });
            },
            None => {},
        }
        let ghost looper = effects@;
        self.state.activity = None;
        self.state.window = None;
        self.state.input_queue = None;
        self.state.input_looper = None;
        self.state.resumed = false;
        effects.push(Effect::Log(LogMessage::EngineRetained));
        assert(queue =~= detached + queue_detached(old(self).state.input_queue));
        assert(looper =~= queue + looper_released(old(self).state.input_looper));
        assert(effects@ =~= destroy_effects(old(self).state));
        effects
    }

    /// The window gained or lost focus: a resumed activity tells the engine
    /// it is resumed or inactive accordingly.
    pub fn on_window_focus_changed(&self, focused: i32) -> (effects: Vec<Effect>)
        ensures
            effects@ == effects_if(
                self.state.resumed,
                dispatched(
                    self.state.holder,
                    Outbound::Lifecycle(
                        if focused != 0 {
                            LifecycleState::Resumed
                        } else {
                            LifecycleState::Inactive
                        },
                    ),
                ),
            ),
    {
        let mut effects: Vec<Effect> = Vec::new();
        if self.state.resumed {
            if focused != 0 {
                push_dispatch(&mut effects, self.state.holder, Outbound::Lifecycle(LifecycleState::Resumed));
            } else {
                push_dispatch(&mut effects, self.state.holder, Outbound::Lifecycle(LifecycleState::Inactive));
            }
        }
        effects
    }

    /// A window was created: the router takes it and reports whether an
    /// engine was already there; the engine is started next if it must be.
    pub fn on_native_window_created(&mut self, window: Option<ANativeWindow>) -> (holder_was_ready: bool)
        ensures
            *final(self) == (Router { state: RouterState { window, ..old(self).state }, ..*old(self) }),
            holder_was_ready == (old(self).state.holder is Some),
    {
        let holder_was_ready = self.state.holder.is_some();
        self.state.window = window;
        holder_was_ready
    }

    /// After a window was created and the engine started if it had to be.
    /// An engine that was already there is rebound to the new window; a new
    /// engine bound the window itself at launch. Then the engine is told the
    /// lifecycle state if the activity is resumed, and that the native side
    /// is ready.
    pub fn after_native_window_created(&self, holder_was_ready: bool, window: Option<ANativeWindow>) -> (effects: Vec<Effect>)
        ensures
            effects@ == window_created_effects(self.state, holder_was_ready, window),
    {
        let mut effects: Vec<Effect> = Vec::new();
        if holder_was_ready {
            match (self.state.holder, window) {
                (Some(h), Some(w)) => {
                    effects.push(Effect::SurfaceCreate { holder: h, window: w });
                    push_window_size(&mut effects, self.state.holder, self.state.window);
                },
                _ => {},
            }
        } else {
            effects.push(Effect::Log(LogMessage::InitialSurfaceBindSkipped));
        }
        let ghost bound = effects@;
        if self.state.resumed {
            push_dispatch(&mut effects, self.state.holder, Outbound::Lifecycle(LifecycleState::Resumed));
        }
        let ghost lifecycle = effects@;
        push_dispatch(&mut effects, self.state.holder, Outbound::OnReady);
        assert(lifecycle =~= bound + effects_if(
            self.state.resumed,
            dispatched(self.state.holder, Outbound::Lifecycle(LifecycleState::Resumed)),
        ));
        assert(bound =~= (if holder_was_ready {
            match (self.state.holder, window) {
                (Some(h), Some(w)) => seq![Effect::SurfaceCreate { holder: h, window: w }]
                    + window_pushed(self.state.holder, self.state.window),
                _ => Seq::<Effect>::empty(),
            }
        } else {
            seq![Effect::Log(LogMessage::InitialSurfaceBindSkipped)]
        }));
        assert(effects@ =~= window_created_effects(self.state, holder_was_ready, window));
        effects
    }

    /// The window was resized (or replaced): the engine gets its new size.
    pub fn on_native_window_resized(&mut self, window: Option<ANativeWindow>) -> (effects: Vec<Effect>)
        ensures
            *final(self) == (Router { state: RouterState { window, ..old(self).state }, ..*old(self) }),
            effects@ == window_pushed(old(self).state.holder, window),
    {
        self.state.window = window;
        let mut effects: Vec<Effect> = Vec::new();
        push_window_size(&mut effects, self.state.holder, self.state.window);
        effects
    }

    /// The window was destroyed: the router forgets it but leaves the engine
    /// alone until the next window arrives.
    pub fn on_native_window_destroyed(&mut self) -> (effects: Vec<Effect>)
        ensures
            *final(self) == (Router { state: RouterState { window: None, ..old(self).state }, ..*old(self) }),
            effects@ == seq![Effect::Log(LogMessage::SurfaceDestroyDeferred)],
    {
        self.state.window = None;
        let mut effects: Vec<Effect> = Vec::new();
        effects.push(Effect::Log(LogMessage::SurfaceDestroyDeferred));
        effects
    }

    /// An input queue was created: the previous queue and looper are let go
    /// first; the host then finds the thread's looper for the new queue.
    pub fn on_input_queue_created(&self, queue: Option<AInputQueue>) -> (effects: Vec<Effect>)
        ensures
            queue is None ==> effects@.len() == 0,
            queue is Some ==> effects@ == queue_detached(self.state.input_queue) + looper_released(
                self.state.input_looper,
            ),
    {
        let mut effects: Vec<Effect> = Vec::new();
        if queue.is_none() {
            return effects;
        }
        match self.state.input_queue {
            Some(q) => {
                effects.push(Effect::DetachLooper { queue: q });
            },
            None => {},
        }
        let ghost detached = effects@;
        match self.state.input_looper {
            Some(l) => {
                effects.push(Effect::ReleaseLooper { looper: l });
            },
            None => {},
        }
        assert(detached =~= queue_detached(self.state.input_queue));
        assert(effects@ =~= queue_detached(self.state.input_queue) + looper_released(
            self.state.input_looper,
        ));
        effects
    }

    /// The host found a looper for the new input queue (None when the thread
    /// has none and none could be prepared). With one, the router acquires
    /// it, keeps queue and looper, and attaches the queue to it.
    pub fn attach_input_queue(&mut self, queue: AInputQueue, looper: Option<ALooper>) -> (effects: Vec<Effect>)
        ensures
            looper is None ==> *final(self) == *old(self) && effects@ == seq![
                Effect::Log(LogMessage::InputLooperUnavailable),
            ],
            looper matches Some(l) ==> *final(self) == (Router {
                state: RouterState { input_queue: Some(queue), input_looper: Some(l), ..old(self).state },
                ..*old(self)
            }) && effects@ == queue_attached(queue, l),
    {
        let mut effects: Vec<Effect> = Vec::new();
        match looper {
            None => {
                effects.push(Effect::Log(LogMessage::InputLooperUnavailable));
            },
            Some(l) => {
                effects.push(Effect::AcquireLooper { looper: l });
                self.state.input_queue = Some(queue);
                self.state.input_looper = Some(l);
                effects.push(Effect::AttachLooper { queue, looper: l });
                effects.push(Effect::Log(LogMessage::InputQueueAttached));
            },
        }
        effects
    }

    /// An input queue was destroyed: it is detached, the looper released, and
    /// the router forgets both.
    pub fn on_input_queue_destroyed(&mut self, queue: Option<AInputQueue>) -> (effects: Vec<Effect>)
        ensures
            *final(self) == (Router {
                state: RouterState { input_queue: None, input_looper: None, ..old(self).state },
                ..*old(self)
            }),
            effects@ == queue_detached(queue) + looper_released(old(self).state.input_looper) + seq![
                Effect::Log(LogMessage::InputQueueDetached),
            ],
    {
        let mut effects: Vec<Effect> = Vec::new();
        match queue {
            Some(q) => {
                effects.push(Effect::DetachLooper { queue: q });
            },
            None => {},
        }
        let ghost detached = effects@;
        match self.state.input_looper {
            Some(l) => {
                effects.push(Effect::ReleaseLooper { looper: l });
            },
            None => {},
        }
        let ghost released = effects@;
        self.state.input_queue = None;
        self.state.input_looper = None;
        effects.push(Effect::Log(LogMessage::InputQueueDetached));
        assert(detached =~= queue_detached(queue));
        assert(released =~= detached + looper_released(old(self).state.input_looper));
        assert(effects@ =~= queue_detached(queue) + looper_released(old(self).state.input_looper)
            + seq![Effect::Log(LogMessage::InputQueueDetached)]);
        effects
    }
}

/// The input callback fetched an event: the status the queue reported and
/// the event it wrote. Consumption goes on with the event when the status is
/// not an error and there is one; otherwise it stops.
pub fn input_event_fetched(status: i32, event: Option<AInputEvent>) -> (next: Option<AInputEvent>)
    ensures
        next == (if status >= 0 { event } else { None }),
{
    if status < 0 {
        None
    } else {
        event
    }
}

/// The queue pre-dispatched the event: a nonzero answer means it took the
/// event over; otherwise the router finishes it as handled.
pub fn input_event_finishes(pre_dispatch: i32) -> (finish: bool)
    ensures
        finish == (pre_dispatch == 0),
{
    pre_dispatch == 0
}

} // verus!
