//! Whole sessions: what holds of the bridge after any sequence of events, and
//! of everything it sent on the way.

use crate::protocol::{ActionView, ImEvent, KeyEvent};
use crate::routing::{chain_emissions, KeyIdentity};
use crate::wl_cskk_context::{teardown_script, BridgeState};
use vstd::prelude::*;

verus! {

/// One thing that happens to the bridge.
pub enum Stimulus {
    /// A notification of the input method.
    Im(ImEvent),
    /// An event of the keyboard grab, with what the resolver and the engine
    /// answer where the event makes the bridge ask them.
    Key {
        event: KeyEvent,
        identity: KeyIdentity,
        will_process: bool,
        preedit: Option<Seq<char>>,
        output: Option<Seq<char>>,
    },
    /// The outcome of compiling the keymap.
    Compiled(bool),
}

impl Stimulus {
    /// Whether this is a keymap announcement.
    pub open spec fn announces_keymap(self) -> bool {
        self matches Stimulus::Key { event, .. } && event is Keymap
    }
}

impl BridgeState {
    /// The state after one stimulus.
    pub open spec fn after_stimulus(self, stimulus: Stimulus) -> BridgeState {
        match stimulus {
            Stimulus::Im(event) => self.after_im(event),
            Stimulus::Key { event, .. } => self.after_key(event),
            Stimulus::Compiled(compiled) => self.after_compile(compiled),
        }
    }

    /// What one stimulus makes the bridge send.
    pub open spec fn sent_on(self, stimulus: Stimulus) -> Seq<ActionView> {
        match stimulus {
            Stimulus::Im(event) => self.im_script(event),
            Stimulus::Key { event, identity, will_process, preedit, output } => chain_emissions(
                self,
                event,
                identity,
                will_process,
                preedit,
                output,
            ),
            Stimulus::Compiled(_) => seq![],
        }
    }

    /// The state after a sequence of stimuli, taken in order.
    pub open spec fn after_all(self, stimuli: Seq<Stimulus>) -> BridgeState
        decreases stimuli.len(),
    {
        if stimuli.len() == 0 {
            self
        } else {
            self.after_all(stimuli.drop_last()).after_stimulus(stimuli.last())
        }
    }

    /// Everything a sequence of stimuli makes the bridge send, in order.
    pub open spec fn sent_over(self, stimuli: Seq<Stimulus>) -> Seq<ActionView>
        decreases stimuli.len(),
    {
        if stimuli.len() == 0 {
            seq![]
        } else {
            self.sent_over(stimuli.drop_last()) + self.after_all(stimuli.drop_last()).sent_on(
                stimuli.last(),
            )
        }
    }
}

/// How many calls of a script are of a kind.
pub open spec fn count(script: Seq<ActionView>, kind: spec_fn(ActionView) -> bool) -> nat
    decreases script.len(),
{
    if script.len() == 0 {
        0
    } else {
        count(script.drop_last(), kind) + if kind(script.last()) {
            1nat
        } else {
            0nat
        }
    }
}

proof fn count_of_joined(
    head: Seq<ActionView>,
    tail: Seq<ActionView>,
    kind: spec_fn(ActionView) -> bool,
)
    ensures
        count(head + tail, kind) == count(head, kind) + count(tail, kind),
    decreases tail.len(),
{
    if tail.len() == 0 {
        assert(head + tail =~= head);
    } else {
        assert((head + tail).drop_last() =~= head + tail.drop_last());
        assert((head + tail).last() == tail.last());
        count_of_joined(head, tail.drop_last(), kind);
    }
}

proof fn count_of_short(script: Seq<ActionView>, kind: spec_fn(ActionView) -> bool)
    requires
        script.len() <= 3,
    ensures
        count(script, kind) == (if script.len() > 0 && kind(script[0]) {
            1nat
        } else {
            0nat
        }) + (if script.len() > 1 && kind(script[1]) {
            1nat
        } else {
            0nat
        }) + (if script.len() > 2 && kind(script[2]) {
            1nat
        } else {
            0nat
        }),
    decreases script.len(),
{
    if script.len() > 0 {
        count_of_short(script.drop_last(), kind);
        assert(script.last() == script[script.len() - 1]);
        if script.len() > 1 {
            assert(script.drop_last()[0] == script[0]);
        }
        if script.len() > 2 {
            assert(script.drop_last()[1] == script[1]);
        }
    }
}

proof fn count_within(
    script: Seq<ActionView>,
    kind: spec_fn(ActionView) -> bool,
    wider: spec_fn(ActionView) -> bool,
)
    requires
        forall|a: ActionView| #[trigger] kind(a) ==> wider(a),
    ensures
        count(script, kind) <= count(script, wider),
    decreases script.len(),
{
    if script.len() > 0 {
        count_within(script.drop_last(), kind, wider);
    }
}

proof fn sent_on_is_short(state: BridgeState, stimulus: Stimulus)
    ensures
        state.sent_on(stimulus).len() <= 3,
{
}

/// Every state of a session is well formed.
pub proof fn session_keeps_wf(state: BridgeState, stimuli: Seq<Stimulus>)
    requires
        state.wf(),
    ensures
        state.after_all(stimuli).wf(),
    decreases stimuli.len(),
{
    if stimuli.len() > 0 {
        session_keeps_wf(state, stimuli.drop_last());
    }
}

/// Whether a keymap was announced before or in a session.
pub open spec fn keymap_announced_by(state: BridgeState, stimuli: Seq<Stimulus>) -> bool {
    state.keymap_announced || exists|i: int|
        0 <= i < stimuli.len() && (#[trigger] stimuli[i]).announces_keymap()
}

/// Over a whole session, the keymap goes to the virtual keyboard once and to
/// the resolver once if it was not announced before and is announced in the
/// session, however often, and not at all otherwise.
pub proof fn keymap_sent_once(state: BridgeState, stimuli: Seq<Stimulus>)
    ensures
        ({
            let sent = state.sent_over(stimuli);
            let fresh = !state.keymap_announced && keymap_announced_by(state, stimuli);
            let times: nat = if fresh { 1 } else { 0 };
            &&& count(sent, |a: ActionView| a is Keymap) == times
            &&& count(sent, |a: ActionView| a is CompileKeymap) == times
            &&& state.after_all(stimuli).keymap_announced == keymap_announced_by(state, stimuli)
        }),
    decreases stimuli.len(),
{
    let to_keyboard = |a: ActionView| a is Keymap;
    let to_resolver = |a: ActionView| a is CompileKeymap;
    if stimuli.len() > 0 {
        let earlier = stimuli.drop_last();
        let last = stimuli.last();
        let before = state.after_all(earlier);
        keymap_sent_once(state, earlier);
        count_of_joined(state.sent_over(earlier), before.sent_on(last), to_keyboard);
        count_of_joined(state.sent_over(earlier), before.sent_on(last), to_resolver);
        sent_on_is_short(before, last);
        count_of_short(before.sent_on(last), to_keyboard);
        count_of_short(before.sent_on(last), to_resolver);
        assert(keymap_announced_by(state, stimuli) == (keymap_announced_by(state, earlier)
            || last.announces_keymap())) by {
            if keymap_announced_by(state, earlier) && !state.keymap_announced {
                let i = choose|i: int|
                    0 <= i < earlier.len() && (#[trigger] earlier[i]).announces_keymap();
                assert(stimuli[i] == earlier[i]);
            }
            if last.announces_keymap() {
                assert(stimuli[stimuli.len() - 1] == last);
            }
            if keymap_announced_by(state, stimuli) && !state.keymap_announced {
                let i = choose|i: int|
                    0 <= i < stimuli.len() && (#[trigger] stimuli[i]).announces_keymap();
                if i < earlier.len() {
                    assert(earlier[i] == stimuli[i]);
                }
            }
        }
    }
}

/// Over a whole session, the grabs that were acquired and those that were
/// released differ by the grab that is held at the end, less the one that was
/// held at the start. So no more than one grab is ever held.
pub proof fn grabs_balance(state: BridgeState, stimuli: Seq<Stimulus>)
    requires
        state.wf(),
    ensures
        ({
            let sent = state.sent_over(stimuli);
            let end = state.after_all(stimuli);
            let held_before: int = if state.grab_held { 1 } else { 0 };
            let held_after: int = if end.grab_held { 1 } else { 0 };
            count(sent, |a: ActionView| a is GrabKeyboard) - count(
                sent,
                |a: ActionView| a is ReleaseGrab,
            ) == held_after - held_before
        }),
    decreases stimuli.len(),
{
    let acquires = |a: ActionView| a is GrabKeyboard;
    let releases = |a: ActionView| a is ReleaseGrab;
    if stimuli.len() > 0 {
        let earlier = stimuli.drop_last();
        let last = stimuli.last();
        let before = state.after_all(earlier);
        grabs_balance(state, earlier);
        session_keeps_wf(state, earlier);
        count_of_joined(state.sent_over(earlier), before.sent_on(last), acquires);
        count_of_joined(state.sent_over(earlier), before.sent_on(last), releases);
        sent_on_is_short(before, last);
        count_of_short(before.sent_on(last), acquires);
        count_of_short(before.sent_on(last), releases);
    }
}

/// Whether a call destroys a protocol object.
pub open spec fn destroys(action: ActionView) -> bool {
    action is DestroyInputMethod || action is DestroyVirtualKeyboard
}

/// No answer to an event destroys a protocol object.
pub proof fn handlers_never_destroy(state: BridgeState, stimulus: Stimulus)
    ensures
        count(state.sent_on(stimulus), |a: ActionView| destroys(a)) == 0,
{
    sent_on_is_short(state, stimulus);
    count_of_short(state.sent_on(stimulus), |a: ActionView| destroys(a));
}

/// Nothing that a session sends destroys a protocol object: the input method
/// and the virtual keyboard live until the teardown.
pub proof fn session_never_destroys(state: BridgeState, stimuli: Seq<Stimulus>)
    ensures
        count(state.sent_over(stimuli), |a: ActionView| destroys(a)) == 0,
    decreases stimuli.len(),
{
    if stimuli.len() > 0 {
        let earlier = stimuli.drop_last();
        let before = state.after_all(earlier);
        session_never_destroys(state, earlier);
        handlers_never_destroy(before, stimuli.last());
        count_of_joined(
            state.sent_over(earlier),
            before.sent_on(stimuli.last()),
            |a: ActionView| destroys(a),
        );
    }
}

/// From the first event to the end of the teardown, the engine's state is
/// written out once, and the input method and the virtual keyboard are
/// destroyed once each, in this order and after everything else.
pub proof fn destroyed_once_at_the_end(state: BridgeState, stimuli: Seq<Stimulus>)
    ensures
        ({
            let life = state.sent_over(stimuli) + teardown_script();
            let end = life.len() - 3;
            &&& count(life, |a: ActionView| a is DestroyInputMethod) == 1
            &&& count(life, |a: ActionView| a is DestroyVirtualKeyboard) == 1
            &&& life[end] == ActionView::SaveEngineState
            &&& life[end + 1] == ActionView::DestroyInputMethod
            &&& life[end + 2] == ActionView::DestroyVirtualKeyboard
        }),
{
    let sent = state.sent_over(stimuli);
    let input_method = |a: ActionView| a is DestroyInputMethod;
    let keyboard = |a: ActionView| a is DestroyVirtualKeyboard;
    session_never_destroys(state, stimuli);
    count_within(sent, input_method, |a: ActionView| destroys(a));
    count_within(sent, keyboard, |a: ActionView| destroys(a));
    count_of_joined(sent, teardown_script(), input_method);
    count_of_joined(sent, teardown_script(), keyboard);
    count_of_short(teardown_script(), input_method);
    count_of_short(teardown_script(), keyboard);
}

} // verus!
