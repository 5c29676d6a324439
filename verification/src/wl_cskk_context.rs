//! The routing bridge: activation of the input method, negotiation of the
//! keymap, and the first answer to every event of the keyboard grab.
//!
//! The bridge owns no handle. A handler answers with a script of
//! [`Action`]s for the caller to perform in order, or, for a key that has to
//! be looked at more closely, with a request of the `routing` module.

use crate::app_config::{
    dictionary_plan, sources_view, AppConfig, AppConfigView, DictionarySource, DictionarySourceView,
};
use crate::protocol::{
    script_view, Action, ActionView, ImEvent, KeyEvent, KeyState, KeymapFormat,
};
use crate::routing::{
    delegate_key, forwarded_key, resolver_keycode, KeyOutcome, KeyOutcomeView, ResolveRequest,
};
use vstd::prelude::*;

verus! {

/// Whether there is a compiled keymap to resolve keys with.
#[derive(Clone, Copy, Debug, PartialEq, Eq, Structural)]
pub enum ResolverStage {
    /// There is none: no keymap was announced, or the announced one did not
    /// compile.
    Absent,
    /// A keymap was announced and the outcome of compiling it is awaited.
    Awaited,
    /// There is one.
    Ready,
}

/// The four states of the activation, by the request that is pending and by
/// what the compositor has acknowledged.
#[derive(Clone, Copy, Debug, PartialEq, Eq, Structural)]
pub enum ActivationState {
    /// No activation requested, not active.
    Inactive,
    /// Activation requested, not yet active.
    ActivationRequested,
    /// Activation requested and active: the grab is held.
    Active,
    /// Deactivation requested, still active: the grab is held until `Done`.
    DeactivationRequested,
}

/// The state of the bridge as the contracts see it.
pub struct BridgeState {
    /// Whether the last of `Activate` and `Deactivate` was `Activate`.
    pub activating: bool,
    /// Whether the compositor has acknowledged the activation.
    pub active: bool,
    /// Whether a keyboard grab is held.
    pub grab_held: bool,
    /// Whether a keymap announcement was taken.
    pub keymap_announced: bool,
    /// The format of the keymap that was taken.
    pub keymap_format: Option<KeymapFormat>,
    /// Whether there is a compiled keymap.
    pub resolver: ResolverStage,
    /// The dictionaries of the engine, first the one to be asked first.
    pub dictionaries: Seq<DictionarySourceView>,
}

/// The one failure of the input-method object.
#[derive(Clone, Copy, Debug, PartialEq, Eq, Structural)]
pub enum ImError {
    /// The compositor took the capability away. Nothing can be done but to
    /// stop dispatching and tear down.
    Unavailable,
}

impl BridgeState {
    /// The state before any event, with the dictionaries of `config`.
    pub open spec fn initial(config: AppConfigView) -> BridgeState {
        BridgeState {
            activating: false,
            active: false,
            grab_held: false,
            keymap_announced: false,
            keymap_format: None,
            resolver: ResolverStage::Absent,
            dictionaries: dictionary_plan(config),
        }
    }

    /// What holds of every state the bridge reaches: the grab is held
    /// exactly while the input method is active, the format is known exactly
    /// once a keymap was announced, and there is no compiled keymap before
    /// one was announced.
    pub open spec fn wf(self) -> bool {
        &&& self.grab_held == self.active
        &&& self.keymap_announced == self.keymap_format.is_some()
        &&& !self.keymap_announced ==> self.resolver == ResolverStage::Absent
    }

    /// The activation state.
    pub open spec fn activation(self) -> ActivationState {
        if self.activating {
            if self.active {
                ActivationState::Active
            } else {
                ActivationState::ActivationRequested
            }
        } else {
            if self.active {
                ActivationState::DeactivationRequested
            } else {
                ActivationState::Inactive
            }
        }
    }

    /// The state after a notification of the input method. `Activate` and
    /// `Deactivate` only note the request. `Done` makes the active state
    /// follow the request. `Unavailable` and the observed notifications leave
    /// the state as it is.
    pub open spec fn after_im(self, event: ImEvent) -> BridgeState {
        match event {
            ImEvent::Activate => BridgeState { activating: true, ..self },
            ImEvent::Deactivate => BridgeState { activating: false, ..self },
            ImEvent::Done => {
                if self.activating && !self.active {
                    BridgeState { active: true, grab_held: true, ..self }
                } else if !self.activating && self.active {
                    BridgeState { active: false, grab_held: false, ..self }
                } else {
                    self
                }
            },
            _ => self,
        }
    }

    /// The calls a notification of the input method leads to: on `Done`, the
    /// grab is acquired where activation is requested and not yet
    /// acknowledged, and a grab that is held is released where deactivation is
    /// requested and not yet acknowledged. Nothing else is sent.
    pub open spec fn im_script(self, event: ImEvent) -> Seq<ActionView> {
        match event {
            ImEvent::Done => {
                if self.activating && !self.active {
                    seq![ActionView::GrabKeyboard]
                } else if !self.activating && self.active && self.grab_held {
                    seq![ActionView::ReleaseGrab]
                } else {
                    seq![]
                }
            },
            _ => seq![],
        }
    }

    /// The state after a sequence of notifications, taken in order.
    pub open spec fn after_notifications(self, events: Seq<ImEvent>) -> BridgeState
        decreases events.len(),
    {
        if events.len() == 0 {
            self
        } else {
            self.after_notifications(events.drop_last()).after_im(events.last())
        }
    }

    /// Whether a key event can be handled: the resolver's number of a key
    /// that is to be resolved fits its 32 bits.
    pub open spec fn admits(self, event: KeyEvent) -> bool {
        match event {
            KeyEvent::Key { key, .. } => self.resolver == ResolverStage::Ready
                ==> resolver_keycode(self.keymap_format, key) <= u32::MAX,
            _ => true,
        }
    }

    /// The state after an event of the keyboard grab. Only the first keymap
    /// announcement changes it: the format is noted and the outcome of
    /// compiling is awaited.
    pub open spec fn after_key(self, event: KeyEvent) -> BridgeState {
        match event {
            KeyEvent::Keymap { format, .. } if !self.keymap_announced => BridgeState {
                keymap_announced: true,
                keymap_format: Some(format),
                resolver: ResolverStage::Awaited,
                ..self
            },
            _ => self,
        }
    }

    /// The answer to an event of the keyboard grab.
    ///
    /// The first keymap announcement goes to the virtual keyboard and then to
    /// the resolver to compile; later ones are passed over. A key goes to the
    /// virtual keyboard as it came unless there is a compiled keymap, in
    /// which case it is to be resolved under the number [`resolver_keycode`],
    /// which fits where the event is admitted. A modifier update goes to the
    /// resolver where there is a compiled keymap, and then to the virtual
    /// keyboard in any case. Repeat information leads to nothing.
    pub open spec fn key_step(self, event: KeyEvent) -> KeyOutcomeView {
        match event {
            KeyEvent::Keymap { format, fd, size } => {
                if self.keymap_announced {
                    KeyOutcomeView::Emit(seq![])
                } else {
                    KeyOutcomeView::Emit(
                        seq![
                            ActionView::Keymap { format: format.raw(), fd, size },
                            ActionView::CompileKeymap { format: format.raw(), fd, size },
                        ],
                    )
                }
            },
            KeyEvent::Key { serial, time, key, state } => {
                if self.resolver == ResolverStage::Ready {
                    KeyOutcomeView::Resolve(
                        ResolveRequest {
                            time,
                            key,
                            state,
                            keycode: resolver_keycode(self.keymap_format, key) as u32,
                        },
                    )
                } else {
                    KeyOutcomeView::Emit(seq![forwarded_key(time, key, state)])
                }
            },
            KeyEvent::Modifiers { serial, mods_depressed, mods_latched, mods_locked, group } => {
                let forwarded = ActionView::Modifiers {
                    mods_depressed,
                    mods_latched,
                    mods_locked,
                    group,
                };
                if self.resolver == ResolverStage::Ready {
                    KeyOutcomeView::Emit(
                        seq![
                            ActionView::UpdateMask {
                                depressed_mods: mods_depressed,
                                latched_mods: mods_latched,
                                locked_mods: mods_locked,
                                depressed_layout: 0,
                                latched_layout: 0,
                                locked_layout: group,
                            },
                            forwarded,
                        ],
                    )
                } else {
                    KeyOutcomeView::Emit(seq![forwarded])
                }
            },
            KeyEvent::RepeatInfo { .. } => KeyOutcomeView::Emit(seq![]),
        }
    }

    /// The state after the outcome of compiling the keymap came in. It
    /// counts only while it is awaited.
    pub open spec fn after_compile(self, compiled: bool) -> BridgeState {
        if self.resolver == ResolverStage::Awaited {
            BridgeState {
                resolver: if compiled {
                    ResolverStage::Ready
                } else {
                    ResolverStage::Absent
                },
                ..self
            }
        } else {
            self
        }
    }
}

#[derive(Clone, Copy, Debug)]
struct Activation {
    // What the last of `Activate` and `Deactivate` asked for. `Done` makes
    // `is_active` follow it.
    activating: bool,
    is_active: bool,
    grab: bool,
}

#[derive(Clone, Copy, Debug)]
struct Negotiation {
    init_done: bool,
    format: Option<KeymapFormat>,
    resolver: ResolverStage,
}

/// The routing bridge.
#[derive(Debug)]
pub struct WlCskkContext {
    dictionaries: Vec<DictionarySource>,
    activation: Activation,
    keymap: Negotiation,
}

impl View for WlCskkContext {
    type V = BridgeState;

    closed spec fn view(&self) -> BridgeState {
        BridgeState {
            activating: self.activation.activating,
            active: self.activation.is_active,
            grab_held: self.activation.grab,
            keymap_announced: self.keymap.init_done,
            keymap_format: self.keymap.format,
            resolver: self.keymap.resolver,
            dictionaries: sources_view(self.dictionaries@),
        }
    }
}

fn delegate_modifier(
    mods_depressed: u32,
    mods_latched: u32,
    mods_locked: u32,
    group: u32,
) -> (action: Action)
    ensures
        action@ == (ActionView::Modifiers { mods_depressed, mods_latched, mods_locked, group }),
{
    Action::Modifiers { mods_depressed, mods_latched, mods_locked, group }
}

impl WlCskkContext {
    #[verifier::type_invariant]
    spec fn inv(self) -> bool {
        self@.wf()
    }

    /// Sets the bridge up for a configuration: nothing requested, nothing
    /// active, no keymap, and the dictionaries of the configuration in the
    /// order of [`dictionary_plan`]. It does not fail.
    pub fn new(app_config: AppConfig) -> (result: Result<Self, String>)
        ensures
            result is Ok,
            result->Ok_0@ == BridgeState::initial(app_config@),
            result->Ok_0@.wf(),
    {
        let dictionaries = app_config.dictionary_sources();
        Ok(
            WlCskkContext {
                dictionaries,
                activation: Activation { activating: false, is_active: false, grab: false },
                keymap: Negotiation {
                    init_done: false,
                    format: None,
                    resolver: ResolverStage::Absent,
                },
            },
        )
    }

    /// Handles one notification of the input method.
    ///
    /// `Unavailable` is the one error, and it comes for no other
    /// notification: the caller stops dispatching and tears down. Any other
    /// notification answers with [`BridgeState::im_script`] of the state
    /// before. The state after is [`BridgeState::after_im`] of it.
    pub fn handle_im_ev(&mut self, im_event: ImEvent) -> (result: Result<Vec<Action>, ImError>)
        ensures
            final(self)@ == old(self)@.after_im(im_event),
            final(self)@.wf(),
            result is Err <==> im_event == ImEvent::Unavailable,
            result is Err ==> result->Err_0 == ImError::Unavailable,
            result is Ok ==> script_view(result->Ok_0@) == old(self)@.im_script(im_event),
    {
        proof {
            use_type_invariant(&*self);
        }
        let mut script: Vec<Action> = Vec::new();
        match im_event {
            ImEvent::Activate => {
                self.activation = Activation {
                    activating: true,
                    is_active: self.activation.is_active,
                    grab: self.activation.grab,
                };
            },
            ImEvent::Deactivate => {
                self.activation = Activation {
                    activating: false,
                    is_active: self.activation.is_active,
                    grab: self.activation.grab,
                };
            },
            ImEvent::Unavailable => {
                return Err(ImError::Unavailable);
            },
            ImEvent::SurroundingText => {},
            ImEvent::TextChangeCause => {},
            ImEvent::ContentType => {},
            ImEvent::Done => {
                if self.activation.activating && !self.activation.is_active {
                    script.push(Action::GrabKeyboard);
                    self.activation = Activation { activating: true, is_active: true, grab: true };
                } else if !self.activation.activating && self.activation.is_active {
                    if self.activation.grab {
                        script.push(Action::ReleaseGrab);
                    }
                    self.activation = Activation {
                        activating: false,
                        is_active: false,
                        grab: false,
                    };
                }
            },
        }
        assert(script_view(script@) =~= old(self)@.im_script(im_event));
        Ok(script)
    }

    /// Ends the bridge. The answer is [`teardown_script`]: the engine's
    /// state is written out first, then the input method is destroyed and
    /// then the virtual keyboard. The bridge is used up, so each of them is
    /// destroyed once.
    pub fn teardown(self) -> (script: Vec<Action>)
        ensures
            script_view(script@) == teardown_script(),
    {
        let mut script: Vec<Action> = Vec::new();
        script.push(Action::SaveEngineState);
        // Destroying the input method releases a grab that is held.
        script.push(Action::DestroyInputMethod);
        script.push(Action::DestroyVirtualKeyboard);
        assert(script_view(script@) =~= teardown_script());
        script
    }

    /// Handles one event of the keyboard grab. The answer is
    /// [`BridgeState::key_step`] of the state before, the state after is
    /// [`BridgeState::after_key`] of it.
    pub fn handle_key_ev(&mut self, key_event: KeyEvent) -> (outcome: KeyOutcome)
        requires
            old(self)@.admits(key_event),
        ensures
            outcome@ == old(self)@.key_step(key_event),
            final(self)@ == old(self)@.after_key(key_event),
            final(self)@.wf(),
    {
        proof {
            use_type_invariant(&*self);
        }
        match key_event {
            KeyEvent::Keymap { format, fd, size } => {
                let mut script: Vec<Action> = Vec::new();
                if !self.keymap.init_done {
                    script.push(Action::Keymap { format: format.to_raw(), fd, size });
                    script.push(Action::CompileKeymap { format: format.to_raw(), fd, size });
                    self.keymap = Negotiation {
                        init_done: true,
                        format: Some(format),
                        resolver: ResolverStage::Awaited,
                    };
                }
                assert(script_view(script@) =~= old(self)@.key_step(key_event)->Emit_0);
                KeyOutcome::Emit(script)
            },
            KeyEvent::RepeatInfo { .. } => {
                let script: Vec<Action> = Vec::new();
                assert(script_view(script@) =~= Seq::<ActionView>::empty());
                KeyOutcome::Emit(script)
            },
            KeyEvent::Key { serial: _, time, key, state } => {
                match self.keymap.resolver {
                    ResolverStage::Ready => {
                        let keycode: u32 = match self.keymap.format {
                            Some(KeymapFormat::XkbV1) => key + 8,
                            _ => key,
                        };
                        KeyOutcome::Resolve(ResolveRequest { time, key, state, keycode })
                    },
                    _ => {
                        let mut script: Vec<Action> = Vec::new();
                        script.push(delegate_key(time, key, state));
                        assert(script_view(script@) =~= seq![forwarded_key(time, key, state)]);
                        KeyOutcome::Emit(script)
                    },
                }
            },
            KeyEvent::Modifiers { serial: _, mods_depressed, mods_latched, mods_locked, group } => {
                let mut script: Vec<Action> = Vec::new();
                match self.keymap.resolver {
                    ResolverStage::Ready => {
                        script.push(
                            Action::UpdateMask {
                                depressed_mods: mods_depressed,
                                latched_mods: mods_latched,
                                locked_mods: mods_locked,
                                depressed_layout: 0,
                                latched_layout: 0,
                                locked_layout: group,
                            },
                        );
                    },
                    _ => {},
                }
                script.push(delegate_modifier(mods_depressed, mods_latched, mods_locked, group));
                assert(script_view(script@) =~= old(self)@.key_step(key_event)->Emit_0);
                KeyOutcome::Emit(script)
            },
        }
    }

    /// Whether [`WlCskkContext::handle_key_ev`] can take the event.
    pub fn admits(&self, key_event: &KeyEvent) -> (admitted: bool)
        ensures
            admitted == self@.admits(*key_event),
    {
        match key_event {
            KeyEvent::Key { key, .. } => match self.keymap.resolver {
                ResolverStage::Ready => match self.keymap.format {
                    Some(KeymapFormat::XkbV1) => *key <= u32::MAX - 8,
                    _ => true,
                },
                _ => true,
            },
            _ => true,
        }
    }

    /// Handles one event of the keyboard grab if it can be handled, as
    /// [`WlCskkContext::handle_key_ev`] does. An event that cannot be handled
    /// is answered with `None` and changes nothing.
    pub fn try_handle_key_ev(&mut self, key_event: KeyEvent) -> (outcome: Option<KeyOutcome>)
        ensures
            outcome.is_some() == old(self)@.admits(key_event),
            outcome.is_some() ==> outcome.unwrap()@ == old(self)@.key_step(key_event),
            outcome.is_some() ==> final(self)@ == old(self)@.after_key(key_event),
            outcome.is_none() ==> final(self)@ == old(self)@,
            final(self)@.wf(),
    {
        proof {
            use_type_invariant(&*self);
        }
        if self.admits(&key_event) {
            Some(self.handle_key_ev(key_event))
        } else {
            None
        }
    }

    /// Takes the outcome of compiling the announced keymap. It counts once,
    /// while it is awaited.
    pub fn keymap_compiled(&mut self, compiled: bool)
        ensures
            final(self)@ == old(self)@.after_compile(compiled),
            final(self)@.wf(),
    {
        proof {
            use_type_invariant(&*self);
        }
        match self.keymap.resolver {
            ResolverStage::Awaited => {
                self.keymap = Negotiation {
                    init_done: self.keymap.init_done,
                    format: self.keymap.format,
                    resolver: if compiled {
                        ResolverStage::Ready
                    } else {
                        ResolverStage::Absent
                    },
                };
            },
            _ => {},
        }
    }
}

impl WlCskkContext {
    /// Whether the last request was `Activate`.
    pub fn is_activating(&self) -> (activating: bool)
        ensures
            activating == self@.activating,
    {
        self.activation.activating
    }

    /// Whether the compositor has acknowledged the activation.
    pub fn is_active(&self) -> (active: bool)
        ensures
            active == self@.active,
    {
        self.activation.is_active
    }

    /// Whether a keyboard grab is held.
    pub fn holds_grab(&self) -> (held: bool)
        ensures
            held == self@.grab_held,
            held == self@.active,
    {
        proof {
            use_type_invariant(self);
        }
        self.activation.grab
    }

    /// The activation state.
    pub fn activation_state(&self) -> (state: ActivationState)
        ensures
            state == self@.activation(),
    {
        if self.activation.activating {
            if self.activation.is_active {
                ActivationState::Active
            } else {
                ActivationState::ActivationRequested
            }
        } else {
            if self.activation.is_active {
                ActivationState::DeactivationRequested
            } else {
                ActivationState::Inactive
            }
        }
    }

    /// Whether a keymap announcement was taken.
    pub fn keymap_initialized(&self) -> (announced: bool)
        ensures
            announced == self@.keymap_announced,
    {
        self.keymap.init_done
    }

    /// The format of the keymap that was taken.
    pub fn keymap_format(&self) -> (format: Option<KeymapFormat>)
        ensures
            format == self@.keymap_format,
    {
        self.keymap.format
    }

    /// Whether there is a compiled keymap.
    pub fn resolver_stage(&self) -> (stage: ResolverStage)
        ensures
            stage == self@.resolver,
    {
        self.keymap.resolver
    }

    /// The dictionaries of the engine, first the one to be asked first.
    pub fn dictionaries(&self) -> (sources: &Vec<DictionarySource>)
        ensures
            sources_view(sources@) == self@.dictionaries,
    {
        &self.dictionaries
    }
}

/// The script that ends the bridge: the engine writes its state out, then
/// the input method is destroyed, which ends a grab, then the virtual
/// keyboard.
pub open spec fn teardown_script() -> Seq<ActionView> {
    seq![
        ActionView::SaveEngineState,
        ActionView::DestroyInputMethod,
        ActionView::DestroyVirtualKeyboard,
    ]
}

/// Whether every notification of a sequence is a request: `Activate` or
/// `Deactivate`.
pub open spec fn only_requests(events: Seq<ImEvent>) -> bool {
    forall|i: int|
        0 <= i < events.len() ==> events[i] == ImEvent::Activate || events[i]
            == ImEvent::Deactivate
}

/// What a sequence of requests asks for in the end: the last one decides, and
/// without any it is what was asked before.
pub open spec fn last_request(before: bool, requests: Seq<ImEvent>) -> bool {
    if requests.len() == 0 {
        before
    } else {
        requests.last() == ImEvent::Activate
    }
}

/// Requests alone change nothing but the request that is pending, and that
/// is then the last of them.
pub proof fn requests_only_note(state: BridgeState, requests: Seq<ImEvent>)
    requires
        only_requests(requests),
    ensures
        state.after_notifications(requests) == (BridgeState {
            activating: last_request(state.activating, requests),
            ..state
        }),
    decreases requests.len(),
{
    if requests.len() > 0 {
        let earlier = requests.drop_last();
        assert(only_requests(earlier)) by {
            assert forall|i: int| 0 <= i < earlier.len() implies earlier[i] == ImEvent::Activate
                || earlier[i] == ImEvent::Deactivate by {
                assert(earlier[i] == requests[i]);
            }
        }
        requests_only_note(state, earlier);
        assert(requests.last() == requests[requests.len() - 1]);
    }
}

/// After any requests and the `Done` that follows them, a grab is held
/// exactly if the last request was `Activate`, whatever was requested before
/// it; the input method is active exactly then; and the `Done` acquired or
/// released the grab exactly where that changed anything.
pub proof fn done_follows_last_request(state: BridgeState, requests: Seq<ImEvent>)
    requires
        state.wf(),
        only_requests(requests),
    ensures
        ({
            let wanted = last_request(state.activating, requests);
            let before_done = state.after_notifications(requests);
            let end = state.after_notifications(requests.push(ImEvent::Done));
            &&& end.grab_held == wanted
            &&& end.active == wanted
            &&& end.activating == wanted
            &&& end.wf()
            &&& before_done.im_script(ImEvent::Done) == (if wanted && !state.active {
                seq![ActionView::GrabKeyboard]
            } else if !wanted && state.active {
                seq![ActionView::ReleaseGrab]
            } else {
                seq![]
            })
        }),
{
    requests_only_note(state, requests);
    let all = requests.push(ImEvent::Done);
    assert(all.drop_last() =~= requests);
    assert(all.last() == ImEvent::Done);
}

/// Every transition keeps the state well formed.
pub proof fn transitions_keep_wf(state: BridgeState, im: ImEvent, key: KeyEvent, compiled: bool)
    requires
        state.wf(),
    ensures
        state.after_im(im).wf(),
        state.after_key(key).wf(),
        state.after_compile(compiled).wf(),
{
}

/// There is at most one grab: one is acquired only while none is held, and
/// one is released only while one is held.
pub proof fn grab_never_doubled(state: BridgeState, im: ImEvent)
    requires
        state.wf(),
    ensures
        state.im_script(im).contains(ActionView::GrabKeyboard) ==> !state.grab_held
            && state.after_im(im).grab_held,
        state.im_script(im).contains(ActionView::ReleaseGrab) ==> state.grab_held
            && !state.after_im(im).grab_held,
        state.im_script(im).len() <= 1,
{
}

/// Once a keymap announcement was taken, a further one leads to no call and
/// changes nothing.
pub proof fn later_keymap_is_passed_over(state: BridgeState, format: KeymapFormat, fd: i32, size: u32)
    requires
        state.keymap_announced,
    ensures
        state.key_step(KeyEvent::Keymap { format, fd, size }) == KeyOutcomeView::Emit(seq![]),
        state.after_key(KeyEvent::Keymap { format, fd, size }) == state,
{
}

/// Of two keymap announcements only the first goes to the virtual keyboard
/// and to the resolver, and only one outcome of compiling counts: the second
/// announcement leads to no call and changes nothing, whether it comes
/// before or after the outcome, and a second outcome changes nothing.
pub proof fn keymap_taken_once(
    state: BridgeState,
    first: KeyEvent,
    second: KeyEvent,
    compiled: bool,
    again: bool,
)
    requires
        state.wf(),
        !state.keymap_announced,
        first is Keymap,
        second is Keymap,
    ensures
        ({
            let taken = state.after_key(first);
            let settled = taken.after_compile(compiled);
            &&& state.key_step(first) == KeyOutcomeView::Emit(
                seq![
                    ActionView::Keymap {
                        format: first->Keymap_format.raw(),
                        fd: first->Keymap_fd,
                        size: first->Keymap_size,
                    },
                    ActionView::CompileKeymap {
                        format: first->Keymap_format.raw(),
                        fd: first->Keymap_fd,
                        size: first->Keymap_size,
                    },
                ],
            )
            &&& taken.keymap_format == Some(first->Keymap_format)
            &&& taken.key_step(second) == KeyOutcomeView::Emit(seq![])
            &&& taken.after_key(second) == taken
            &&& settled.resolver == (if compiled {
                ResolverStage::Ready
            } else {
                ResolverStage::Absent
            })
            &&& settled.key_step(second) == KeyOutcomeView::Emit(seq![])
            &&& settled.after_key(second) == settled
            &&& settled.after_compile(again) == settled
        }),
{
}

/// While there is no compiled keymap, every key event, pressed or released,
/// goes to the virtual keyboard as it came: the answer is that one call and
/// no request, so neither the resolver nor the engine is asked.
pub proof fn forwarded_until_compiled(
    state: BridgeState,
    serial: u32,
    time: u32,
    key: u32,
    pressed: KeyState,
)
    requires
        state.resolver != ResolverStage::Ready,
    ensures
        state.key_step(KeyEvent::Key { serial, time, key, state: pressed })
            == KeyOutcomeView::Emit(seq![ActionView::Key { time, key, state: pressed.raw() }]),
        state.after_key(KeyEvent::Key { serial, time, key, state: pressed }) == state,
{
}

} // verus!
