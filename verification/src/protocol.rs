//! Plain-value models of the protocol events the bridge consumes and of the
//! calls it emits.

use vstd::prelude::*;

verus! {

/// Physical state of a key as the keyboard grab reports it.
#[derive(Clone, Copy, Debug, PartialEq, Eq, Structural)]
pub enum KeyState {
    Released,
    Pressed,
}

impl KeyState {
    /// The wire value of the state.
    pub open spec fn raw(self) -> u32 {
        match self {
            KeyState::Released => 0,
            KeyState::Pressed => 1,
        }
    }

    /// The state a wire value stands for, if any.
    pub open spec fn of_raw(n: u32) -> Option<KeyState> {
        if n == 0 {
            Some(KeyState::Released)
        } else if n == 1 {
            Some(KeyState::Pressed)
        } else {
            None
        }
    }

    pub fn to_raw(self) -> (n: u32)
        ensures
            n == self.raw(),
    {
        match self {
            KeyState::Released => 0,
            KeyState::Pressed => 1,
        }
    }

    pub fn from_raw(n: u32) -> (state: Option<KeyState>)
        ensures
            state == KeyState::of_raw(n),
    {
        if n == 0 {
            Some(KeyState::Released)
        } else if n == 1 {
            Some(KeyState::Pressed)
        } else {
            None
        }
    }
}

/// Format of the keymap the compositor announces.
#[derive(Clone, Copy, Debug, PartialEq, Eq, Structural)]
pub enum KeymapFormat {
    /// No keymap: scancodes are to be taken as they come.
    NoKeymap,
    /// An xkb keymap: keycodes lie 8 above the scancodes.
    XkbV1,
    /// A format that is not known, by its wire value. Scancodes are taken as
    /// they come.
    Unrecognized(u32),
}

impl KeymapFormat {
    /// The wire value of the format.
    pub open spec fn raw(self) -> u32 {
        match self {
            KeymapFormat::NoKeymap => 0,
            KeymapFormat::XkbV1 => 1,
            KeymapFormat::Unrecognized(n) => n,
        }
    }

    /// The format a wire value stands for.
    pub open spec fn of_raw(n: u32) -> KeymapFormat {
        if n == 0 {
            KeymapFormat::NoKeymap
        } else if n == 1 {
            KeymapFormat::XkbV1
        } else {
            KeymapFormat::Unrecognized(n)
        }
    }

    pub fn to_raw(self) -> (n: u32)
        ensures
            n == self.raw(),
    {
        match self {
            KeymapFormat::NoKeymap => 0,
            KeymapFormat::XkbV1 => 1,
            KeymapFormat::Unrecognized(n) => n,
        }
    }

    pub fn from_raw(n: u32) -> (format: KeymapFormat)
        ensures
            format == KeymapFormat::of_raw(n),
            format.raw() == n,
    {
        if n == 0 {
            KeymapFormat::NoKeymap
        } else if n == 1 {
            KeymapFormat::XkbV1
        } else {
            KeymapFormat::Unrecognized(n)
        }
    }
}

/// Direction in which a key moved, as the keysym resolver takes it.
#[derive(Clone, Copy, Debug, PartialEq, Eq, Structural)]
pub enum KeyDirection {
    Up,
    Down,
}

/// Notifications of the input-method object.
#[derive(Clone, Copy, Debug, PartialEq, Eq, Structural)]
pub enum ImEvent {
    /// A text field took focus: activation is requested.
    Activate,
    /// The text field lost focus: deactivation is requested.
    Deactivate,
    /// Text around the cursor changed. Observed only.
    SurroundingText,
    /// The cause of the last text change. Observed only.
    TextChangeCause,
    /// Content hint and purpose of the text field. Observed only.
    ContentType,
    /// The compositor commits the notifications sent since the last `Done`.
    Done,
    /// The compositor took the input-method capability away.
    Unavailable,
}

/// Events of the keyboard grab.
#[derive(Clone, Copy, Debug, PartialEq, Eq, Structural)]
pub enum KeyEvent {
    /// The compositor announces the keymap in a file of `size` bytes.
    Keymap { format: KeymapFormat, fd: i32, size: u32 },
    /// A key was pressed or released.
    Key { serial: u32, time: u32, key: u32, state: KeyState },
    /// The modifier masks changed.
    Modifiers { serial: u32, mods_depressed: u32, mods_latched: u32, mods_locked: u32, group: u32 },
    /// Repeat rate and delay. Observed only.
    RepeatInfo { rate: i32, delay: i32 },
}

/// One outward call. A handler answers with the calls to make, in order.
#[derive(Clone, Debug, PartialEq, Eq)]
pub enum Action {
    /// Virtual keyboard: take over the announced keymap.
    Keymap { format: u32, fd: i32, size: u32 },
    /// Virtual keyboard: a key event.
    Key { time: u32, key: u32, state: u32 },
    /// Virtual keyboard: a modifier mask update.
    Modifiers { mods_depressed: u32, mods_latched: u32, mods_locked: u32, group: u32 },
    /// Virtual keyboard: destroy the object.
    DestroyVirtualKeyboard,
    /// Input method: acquire the keyboard grab and listen to its events.
    GrabKeyboard,
    /// Input method: release the keyboard grab that is held.
    ReleaseGrab,
    /// Input method: show provisional text.
    SetPreeditString { text: String, cursor_begin: i32, cursor_end: i32 },
    /// Input method: hand finished text to the text field.
    CommitString { text: String },
    /// Input method: apply what was sent since the last commit.
    Commit { serial: u32 },
    /// Input method: destroy the object, which also ends a grab.
    DestroyInputMethod,
    /// Keysym resolver: compile the announced keymap and report whether that
    /// worked.
    CompileKeymap { format: u32, fd: i32, size: u32 },
    /// Keysym resolver: take over the modifier masks and layouts.
    UpdateMask {
        depressed_mods: u32,
        latched_mods: u32,
        locked_mods: u32,
        depressed_layout: u32,
        latched_layout: u32,
        locked_layout: u32,
    },
    /// Conversion engine: write its persistent state out.
    SaveEngineState,
}

/// What an [`Action`] says, with text as a sequence of characters.
pub enum ActionView {
    Keymap { format: u32, fd: i32, size: u32 },
    Key { time: u32, key: u32, state: u32 },
    Modifiers { mods_depressed: u32, mods_latched: u32, mods_locked: u32, group: u32 },
    DestroyVirtualKeyboard,
    GrabKeyboard,
    ReleaseGrab,
    SetPreeditString { text: Seq<char>, cursor_begin: i32, cursor_end: i32 },
    CommitString { text: Seq<char> },
    Commit { serial: u32 },
    DestroyInputMethod,
    CompileKeymap { format: u32, fd: i32, size: u32 },
    UpdateMask {
        depressed_mods: u32,
        latched_mods: u32,
        locked_mods: u32,
        depressed_layout: u32,
        latched_layout: u32,
        locked_layout: u32,
    },
    SaveEngineState,
}

impl View for Action {
    type V = ActionView;

    open spec fn view(&self) -> ActionView {
        match *self {
            Action::Keymap { format, fd, size } => ActionView::Keymap { format, fd, size },
            Action::Key { time, key, state } => ActionView::Key { time, key, state },
            Action::Modifiers { mods_depressed, mods_latched, mods_locked, group } => {
                ActionView::Modifiers { mods_depressed, mods_latched, mods_locked, group }
            },
            Action::DestroyVirtualKeyboard => ActionView::DestroyVirtualKeyboard,
            Action::GrabKeyboard => ActionView::GrabKeyboard,
            Action::ReleaseGrab => ActionView::ReleaseGrab,
            Action::SetPreeditString { text, cursor_begin, cursor_end } => {
                ActionView::SetPreeditString { text: text@, cursor_begin, cursor_end }
            },
            Action::CommitString { text } => ActionView::CommitString { text: text@ },
            Action::Commit { serial } => ActionView::Commit { serial },
            Action::DestroyInputMethod => ActionView::DestroyInputMethod,
            Action::CompileKeymap { format, fd, size } => {
                ActionView::CompileKeymap { format, fd, size }
            },
            Action::UpdateMask {
                depressed_mods,
                latched_mods,
                locked_mods,
                depressed_layout,
                latched_layout,
                locked_layout,
            } => ActionView::UpdateMask {
                depressed_mods,
                latched_mods,
                locked_mods,
                depressed_layout,
                latched_layout,
                locked_layout,
            },
            Action::SaveEngineState => ActionView::SaveEngineState,
        }
    }
}

/// The calls of a script, each by its view.
pub open spec fn script_view(script: Seq<Action>) -> Seq<ActionView> {
    script.map_values(|a: Action| a@)
}

} // verus!
