//! Routing of one key: from the scancode to the keysym resolver, from there
//! to the conversion engine, and from its answer to what is sent.
//!
//! A key of which more has to be known travels as a request. The caller asks
//! the resolver or the engine what the request names and hands the answer to
//! the request, which answers with a script or with the next request. No key
//! is asked of the engine but through an [`EngineQuery`], and none is fed to
//! it but through an [`EngineFeed`].

use crate::protocol::{
    script_view, Action, ActionView, KeyDirection, KeyEvent, KeyState, KeymapFormat,
};
use crate::wl_cskk_context::{BridgeState, ResolverStage};
use vstd::prelude::*;

verus! {

/// The semantic identity of a key: its keysym and the named modifiers that
/// are active in the effective layer.
#[derive(Clone, Copy, Debug, PartialEq, Eq, Structural)]
pub struct KeyIdentity {
    pub keysym: u32,
    pub control: bool,
    pub shift: bool,
    pub alt: bool,
}

/// A key that the keysym resolver is to resolve. The caller looks up the
/// keysym of `keycode`, then applies the key's direction to the resolver, then
/// reads control, shift and alt from the effective layer, and hands the three
/// to [`ResolveRequest::resolved`].
#[derive(Clone, Copy, Debug, PartialEq, Eq, Structural)]
pub struct ResolveRequest {
    pub time: u32,
    /// The scancode as it came.
    pub key: u32,
    pub state: KeyState,
    /// The resolver's number for the key.
    pub keycode: u32,
}

/// A pressed key of which the engine is to say whether it will consume it.
#[derive(Clone, Copy, Debug, PartialEq, Eq, Structural)]
pub struct EngineQuery {
    pub time: u32,
    pub key: u32,
    pub identity: KeyIdentity,
}

/// A pressed key that the engine is to be fed. The caller feeds `identity`,
/// then reads the preedit, then polls the output, and hands the two texts to
/// [`EngineFeed::emitted`].
#[derive(Clone, Copy, Debug, PartialEq, Eq, Structural)]
pub struct EngineFeed {
    pub identity: KeyIdentity,
}

/// Answer of [`WlCskkContext::handle_key_ev`].
#[derive(Clone, Debug, PartialEq, Eq)]
pub enum KeyOutcome {
    /// The event is dealt with by these calls.
    Emit(Vec<Action>),
    /// The key has to be resolved first.
    Resolve(ResolveRequest),
}

/// Answer of [`ResolveRequest::resolved`].
#[derive(Clone, Debug, PartialEq, Eq)]
pub enum ResolveOutcome {
    /// The event is dealt with by these calls.
    Emit(Vec<Action>),
    /// The engine has to be asked first.
    Ask(EngineQuery),
}

/// Answer of [`EngineQuery::answered`].
#[derive(Clone, Debug, PartialEq, Eq)]
pub enum QueryOutcome {
    /// The event is dealt with by these calls.
    Emit(Vec<Action>),
    /// The engine consumes the key.
    Feed(EngineFeed),
}

/// What a [`KeyOutcome`] says.
pub enum KeyOutcomeView {
    Emit(Seq<ActionView>),
    Resolve(ResolveRequest),
}

/// What a [`ResolveOutcome`] says.
pub enum ResolveOutcomeView {
    Emit(Seq<ActionView>),
    Ask(EngineQuery),
}

/// What a [`QueryOutcome`] says.
pub enum QueryOutcomeView {
    Emit(Seq<ActionView>),
    Feed(EngineFeed),
}

impl View for KeyOutcome {
    type V = KeyOutcomeView;

    open spec fn view(&self) -> KeyOutcomeView {
        match *self {
            KeyOutcome::Emit(script) => KeyOutcomeView::Emit(script_view(script@)),
            KeyOutcome::Resolve(request) => KeyOutcomeView::Resolve(request),
        }
    }
}

impl View for ResolveOutcome {
    type V = ResolveOutcomeView;

    open spec fn view(&self) -> ResolveOutcomeView {
        match *self {
            ResolveOutcome::Emit(script) => ResolveOutcomeView::Emit(script_view(script@)),
            ResolveOutcome::Ask(query) => ResolveOutcomeView::Ask(query),
        }
    }
}

impl View for QueryOutcome {
    type V = QueryOutcomeView;

    open spec fn view(&self) -> QueryOutcomeView {
        match *self {
            QueryOutcome::Emit(script) => QueryOutcomeView::Emit(script_view(script@)),
            QueryOutcome::Feed(feed) => QueryOutcomeView::Feed(feed),
        }
    }
}

/// The resolver's number for a scancode: 8 above it under an xkb keymap, the
/// scancode itself under any other format and where no format is known.
pub open spec fn resolver_keycode(format: Option<KeymapFormat>, key: u32) -> int {
    if format == Some(KeymapFormat::XkbV1) {
        key + 8
    } else {
        key as int
    }
}

/// The direction the resolver is told for a key state.
pub open spec fn direction_of(state: KeyState) -> KeyDirection {
    if state == KeyState::Pressed {
        KeyDirection::Down
    } else {
        KeyDirection::Up
    }
}

/// The call that hands a key event on to the virtual keyboard as it came.
pub open spec fn forwarded_key(time: u32, key: u32, state: KeyState) -> ActionView {
    ActionView::Key { time, key, state: state.raw() }
}

/// The call that shows `preedit`, if there is any text to show.
pub open spec fn preedit_emission(preedit: Option<Seq<char>>) -> Seq<ActionView> {
    match preedit {
        Some(text) if text.len() > 0 => seq![
            ActionView::SetPreeditString { text, cursor_begin: 0, cursor_end: 0 },
        ],
        _ => seq![],
    }
}

/// The call that commits `output`, if the engine has finished any text.
pub open spec fn commit_emission(output: Option<Seq<char>>) -> Seq<ActionView> {
    match output {
        Some(text) => seq![ActionView::CommitString { text }],
        None => seq![],
    }
}

/// What is sent to the input method after the engine took a key: the preedit
/// if there is one, then the finished text if there is one, then one commit
/// that carries the number of the calls before it.
pub open spec fn engine_emissions(
    preedit: Option<Seq<char>>,
    output: Option<Seq<char>>,
) -> Seq<ActionView> {
    let content = preedit_emission(preedit) + commit_emission(output);
    content.push(ActionView::Commit { serial: content.len() as u32 })
}

/// The text of an optional string.
pub open spec fn text_view(text: Option<String>) -> Option<Seq<char>> {
    match text {
        Some(s) => Some(s@),
        None => None,
    }
}

/// Everything that one key event makes the bridge send, given what the
/// resolver stage is and what the engine answers: the event as it came,
/// unless there is a compiled keymap, the key is pressed and the engine takes
/// it.
pub open spec fn key_emissions(
    resolver: ResolverStage,
    time: u32,
    key: u32,
    state: KeyState,
    will_process: bool,
    preedit: Option<Seq<char>>,
    output: Option<Seq<char>>,
) -> Seq<ActionView> {
    if resolver == ResolverStage::Ready && state == KeyState::Pressed && will_process {
        engine_emissions(preedit, output)
    } else {
        seq![forwarded_key(time, key, state)]
    }
}

impl ResolveRequest {
    /// The answer once the key is resolved: a pressed key is put before the
    /// engine, a released one goes to the virtual keyboard as it came.
    pub open spec fn step(self, identity: KeyIdentity) -> ResolveOutcomeView {
        if self.state == KeyState::Pressed {
            ResolveOutcomeView::Ask(EngineQuery { time: self.time, key: self.key, identity })
        } else {
            ResolveOutcomeView::Emit(seq![forwarded_key(self.time, self.key, self.state)])
        }
    }
}

impl EngineQuery {
    /// The answer once the engine has said whether it takes the key: it is
    /// fed the key, or the key goes to the virtual keyboard as it came.
    pub open spec fn step(self, will_process: bool) -> QueryOutcomeView {
        if will_process {
            QueryOutcomeView::Feed(EngineFeed { identity: self.identity })
        } else {
            QueryOutcomeView::Emit(seq![forwarded_key(self.time, self.key, KeyState::Pressed)])
        }
    }
}

pub(crate) fn delegate_key(time: u32, key: u32, state: KeyState) -> (action: Action)
    ensures
        action@ == forwarded_key(time, key, state),
{
    Action::Key { time, key, state: state.to_raw() }
}

impl ResolveRequest {
    /// The direction to tell the resolver.
    pub fn direction(&self) -> (direction: KeyDirection)
        ensures
            direction == direction_of(self.state),
    {
        match self.state {
            KeyState::Pressed => KeyDirection::Down,
            KeyState::Released => KeyDirection::Up,
        }
    }

    /// Takes what the resolver found for the key.
    pub fn resolved(self, identity: KeyIdentity) -> (outcome: ResolveOutcome)
        ensures
            outcome@ == self.step(identity),
    {
        match self.state {
            KeyState::Pressed => ResolveOutcome::Ask(
                EngineQuery { time: self.time, key: self.key, identity },
            ),
            KeyState::Released => {
                let mut script: Vec<Action> = Vec::new();
                script.push(delegate_key(self.time, self.key, self.state));
                assert(script_view(script@) =~= seq![
                    forwarded_key(self.time, self.key, self.state),
                ]);
                ResolveOutcome::Emit(script)
            },
        }
    }
}

impl EngineQuery {
    /// Takes the engine's word on whether it will consume the key.
    pub fn answered(self, will_process: bool) -> (outcome: QueryOutcome)
        ensures
            outcome@ == self.step(will_process),
    {
        if will_process {
            QueryOutcome::Feed(EngineFeed { identity: self.identity })
        } else {
            let mut script: Vec<Action> = Vec::new();
            script.push(delegate_key(self.time, self.key, KeyState::Pressed));
            assert(script_view(script@) =~= seq![
                forwarded_key(self.time, self.key, KeyState::Pressed),
            ]);
            QueryOutcome::Emit(script)
        }
    }
}

impl EngineFeed {
    /// Takes the preedit and the output that the engine holds after it was
    /// fed the key, and answers with [`engine_emissions`] of the two.
    pub fn emitted(self, preedit: Option<String>, output: Option<String>) -> (script: Vec<Action>)
        ensures
            script_view(script@) == engine_emissions(text_view(preedit), text_view(output)),
    {
        let mut script: Vec<Action> = Vec::new();
        let mut count: u32 = 0;
        if let Some(preedit_string) = preedit {
            if !preedit_string.as_str().is_empty() {
                // The cursor stays at the start of the preedit.
                script.push(
                    Action::SetPreeditString { text: preedit_string, cursor_begin: 0, cursor_end: 0 },
                );
                count = count + 1;
            }
        }
        if let Some(output_string) = output {
            script.push(Action::CommitString { text: output_string });
            count = count + 1;
        }
        script.push(Action::Commit { serial: count });
        assert(script_view(script@) =~= engine_emissions(text_view(preedit), text_view(output)));
        script
    }
}

/// Whether a preedit is shown: it is there and not empty.
pub open spec fn shown(preedit: Option<Seq<char>>) -> bool {
    preedit matches Some(text) && text.len() > 0
}

/// The commit that ends what the engine's answer leads to carries the number
/// of the calls before it, each of which shows a preedit or commits text: 0
/// where there is neither, 1 where there is one of them, 2 where there are
/// both, the preedit first.
pub proof fn commit_counts_emissions(preedit: Option<Seq<char>>, output: Option<Seq<char>>)
    ensures
        ({
            let script = engine_emissions(preedit, output);
            let shows: int = if shown(preedit) { 1 } else { 0 };
            let commits: int = if output.is_some() { 1 } else { 0 };
            &&& script.len() == shows + commits + 1
            &&& script.last() == (ActionView::Commit { serial: (shows + commits) as u32 })
            &&& forall|i: int|
                0 <= i < script.len() - 1 ==> script[i] is SetPreeditString || script[i] is CommitString
            &&& shown(preedit) ==> script[0] == (ActionView::SetPreeditString {
                text: preedit.unwrap(),
                cursor_begin: 0,
                cursor_end: 0,
            })
            &&& output.is_some() ==> script[shows] == (ActionView::CommitString {
                text: output.unwrap(),
            })
        }),
{
}

/// What one key event leads to through the requests: the script of the step
/// at which the chain ends.
pub open spec fn chain_emissions(
    state: BridgeState,
    event: KeyEvent,
    identity: KeyIdentity,
    will_process: bool,
    preedit: Option<Seq<char>>,
    output: Option<Seq<char>>,
) -> Seq<ActionView> {
    match state.key_step(event) {
        KeyOutcomeView::Emit(script) => script,
        KeyOutcomeView::Resolve(request) => match request.step(identity) {
            ResolveOutcomeView::Emit(script) => script,
            ResolveOutcomeView::Ask(query) => match query.step(will_process) {
                QueryOutcomeView::Emit(script) => script,
                QueryOutcomeView::Feed(_) => engine_emissions(preedit, output),
            },
        },
    }
}

/// The requests of one key event lead to [`key_emissions`], whatever the
/// resolver finds. The key is resolved exactly where there is a compiled
/// keymap, under the number [`resolver_keycode`] where the event is admitted.
/// The engine is asked only about a pressed key that was resolved, it is
/// asked about the identity that the resolver found, and it is fed that
/// identity only where it said it will take it.
pub proof fn key_chain_emits(
    state: BridgeState,
    serial: u32,
    time: u32,
    key: u32,
    pressed: KeyState,
    identity: KeyIdentity,
    will_process: bool,
    preedit: Option<Seq<char>>,
    output: Option<Seq<char>>,
)
    ensures
        ({
            let event = KeyEvent::Key { serial, time, key, state: pressed };
            let first = state.key_step(event);
            &&& chain_emissions(state, event, identity, will_process, preedit, output)
                == key_emissions(state.resolver, time, key, pressed, will_process, preedit, output)
            &&& state.after_key(event) == state
            &&& first is Resolve <==> state.resolver == ResolverStage::Ready
            &&& first is Resolve ==> {
                let request = first->Resolve_0;
                &&& state.admits(event) ==> request.keycode == resolver_keycode(
                    state.keymap_format,
                    key,
                )
                &&& request.time == time && request.key == key && request.state == pressed
                &&& request.step(identity) is Ask <==> pressed == KeyState::Pressed
                &&& request.step(identity) is Ask ==> {
                    let query = request.step(identity)->Ask_0;
                    &&& query.identity == identity
                    &&& query.time == time && query.key == key
                    &&& query.step(will_process) is Feed <==> will_process
                    &&& query.step(will_process) is Feed ==> query.step(will_process)->Feed_0.identity
                        == identity
                }
            }
        }),
{
}

/// A released key goes to the virtual keyboard as it came, whatever the
/// state of the bridge is and whatever the engine would say, and the engine
/// is not asked.
pub proof fn release_is_forwarded(
    state: BridgeState,
    serial: u32,
    time: u32,
    key: u32,
    identity: KeyIdentity,
    will_process: bool,
    preedit: Option<Seq<char>>,
    output: Option<Seq<char>>,
)
    ensures
        ({
            let event = KeyEvent::Key { serial, time, key, state: KeyState::Released };
            let forwarded = seq![ActionView::Key { time, key, state: 0 }];
            &&& chain_emissions(state, event, identity, will_process, preedit, output) == forwarded
            &&& key_emissions(
                state.resolver,
                time,
                key,
                KeyState::Released,
                will_process,
                preedit,
                output,
            ) == forwarded
            &&& state.key_step(event) is Resolve ==> state.key_step(event)->Resolve_0.step(identity)
                is Emit
        }),
{
}

} // verus!
