use wlcskk::app_config::AppConfig;
use wlcskk::event_loop::{dispatched, ExitOutcome, Step};
use wlcskk::protocol::{Action, ImEvent, KeyEvent, KeyState, KeymapFormat};
use wlcskk::routing::{KeyIdentity, KeyOutcome, QueryOutcome, ResolveOutcome};
use wlcskk::wl_cskk_context::{ImError, WlCskkContext};

/// Stands in for the compositor, the keymap and the engine: it performs the
/// scripts by recording them and answers the requests as it is told to.
struct World {
    bridge: WlCskkContext,
    sent: Vec<Action>,
    keymap_compiles: bool,
    will_process: bool,
    preedit: Option<String>,
    output: Option<String>,
    resolved: Vec<u32>,
    asked: Vec<KeyIdentity>,
    fed: Vec<KeyIdentity>,
    revocation: Option<ImError>,
}

impl World {
    fn new() -> World {
        World {
            bridge: WlCskkContext::new(AppConfig::default()).unwrap(),
            sent: Vec::new(),
            keymap_compiles: true,
            will_process: false,
            preedit: None,
            output: None,
            resolved: Vec::new(),
            asked: Vec::new(),
            fed: Vec::new(),
            revocation: None,
        }
    }

    fn perform(&mut self, script: Vec<Action>) {
        for action in script {
            if let Action::CompileKeymap { .. } = action {
                self.bridge.keymap_compiled(self.keymap_compiles);
            }
            self.sent.push(action);
        }
    }

    fn im(&mut self, event: ImEvent) {
        match self.bridge.handle_im_ev(event) {
            Ok(script) => self.perform(script),
            Err(error) => self.revocation = Some(error),
        }
    }

    fn key(&mut self, event: KeyEvent) {
        let request = match self.bridge.try_handle_key_ev(event).unwrap() {
            KeyOutcome::Emit(script) => return self.perform(script),
            KeyOutcome::Resolve(request) => request,
        };
        self.resolved.push(request.keycode);
        // Keycode 38 carries "a"; the others resolve to nothing.
        let keysym: u32 = if request.keycode == 38 { 0x61 } else { 0 };
        let identity = KeyIdentity { keysym, control: false, shift: false, alt: false };
        let query = match request.resolved(identity) {
            ResolveOutcome::Emit(script) => return self.perform(script),
            ResolveOutcome::Ask(query) => query,
        };
        self.asked.push(query.identity);
        let feed = match query.answered(self.will_process) {
            QueryOutcome::Emit(script) => return self.perform(script),
            QueryOutcome::Feed(feed) => feed,
        };
        self.fed.push(feed.identity);
        let script = feed.emitted(self.preedit.clone(), self.output.clone());
        self.perform(script);
    }

    fn announce_keymap(&mut self) {
        self.key(KeyEvent::Keymap { format: KeymapFormat::XkbV1, fd: 4, size: 65536 });
    }

    fn press(&mut self, key: u32) {
        self.key(KeyEvent::Key { serial: 1, time: 500, key, state: KeyState::Pressed });
    }

    fn release(&mut self, key: u32) {
        self.key(KeyEvent::Key { serial: 2, time: 501, key, state: KeyState::Released });
    }
}

#[test]
fn plain_a_goes_to_the_application_when_the_engine_declines() {
    let mut world = World::new();
    world.announce_keymap();
    world.sent.clear();
    world.will_process = false;
    world.press(30);
    assert_eq!(world.resolved, vec![38]);
    assert_eq!(world.sent, vec![Action::Key { time: 500, key: 30, state: 1 }]);
    assert!(world.fed.is_empty());
}

#[test]
fn consumed_key_sets_the_preedit_and_commits_once() {
    let mut world = World::new();
    world.announce_keymap();
    world.sent.clear();
    world.will_process = true;
    world.preedit = Some("▽あ".to_string());
    world.output = None;
    world.press(30);
    assert_eq!(
        world.sent,
        vec![
            Action::SetPreeditString {
                text: "▽あ".to_string(),
                cursor_begin: 0,
                cursor_end: 0
            },
            Action::Commit { serial: 1 },
        ]
    );
    assert_eq!(
        world.fed,
        vec![KeyIdentity { keysym: 0x61, control: false, shift: false, alt: false }]
    );
}

#[test]
fn release_is_forwarded_even_if_the_engine_would_take_it() {
    let mut world = World::new();
    world.announce_keymap();
    world.sent.clear();
    world.will_process = true;
    world.preedit = Some("x".to_string());
    world.release(30);
    assert_eq!(world.sent, vec![Action::Key { time: 501, key: 30, state: 0 }]);
    assert_eq!(world.resolved, vec![38]);
    assert!(world.asked.is_empty());
    assert!(world.fed.is_empty());
}

#[test]
fn nothing_reaches_the_engine_before_the_keymap_compiled() {
    let mut world = World::new();
    world.will_process = true;
    world.press(30);
    world.release(30);
    world.keymap_compiles = false;
    world.announce_keymap();
    world.press(30);
    world.release(30);
    assert!(world.resolved.is_empty());
    assert!(world.asked.is_empty());
    assert!(world.fed.is_empty());
    assert_eq!(
        world.sent,
        vec![
            Action::Key { time: 500, key: 30, state: 1 },
            Action::Key { time: 501, key: 30, state: 0 },
            Action::Keymap { format: 1, fd: 4, size: 65536 },
            Action::CompileKeymap { format: 1, fd: 4, size: 65536 },
            Action::Key { time: 500, key: 30, state: 1 },
            Action::Key { time: 501, key: 30, state: 0 },
        ]
    );
}

#[test]
fn keymap_announced_twice_is_taken_once() {
    let mut world = World::new();
    world.announce_keymap();
    world.announce_keymap();
    assert_eq!(
        world.sent,
        vec![
            Action::Keymap { format: 1, fd: 4, size: 65536 },
            Action::CompileKeymap { format: 1, fd: 4, size: 65536 },
        ]
    );
}

#[test]
fn grabs_and_releases_alternate_over_a_session() {
    let mut world = World::new();
    let events = [
        ImEvent::Activate,
        ImEvent::Done,
        ImEvent::Done,
        ImEvent::Deactivate,
        ImEvent::Activate,
        ImEvent::Done,
        ImEvent::Deactivate,
        ImEvent::ContentType,
        ImEvent::Done,
        ImEvent::Done,
        ImEvent::Activate,
        ImEvent::Done,
    ];
    let mut held = false;
    for event in events {
        let before = world.sent.len();
        world.im(event);
        for action in &world.sent[before..] {
            match action {
                Action::GrabKeyboard => {
                    assert!(!held);
                    held = true;
                }
                Action::ReleaseGrab => {
                    assert!(held);
                    held = false;
                }
                other => panic!("unexpected call {:?}", other),
            }
        }
        assert_eq!(world.bridge.holds_grab(), held);
        assert_eq!(world.bridge.is_active(), held);
    }
    assert_eq!(
        world.sent,
        vec![Action::GrabKeyboard, Action::ReleaseGrab, Action::GrabKeyboard]
    );
}

#[test]
fn revocation_stops_the_session_and_tears_down_once() {
    let mut world = World::new();
    world.im(ImEvent::Activate);
    world.im(ImEvent::Done);
    world.im(ImEvent::Unavailable);
    assert_eq!(world.revocation, Some(ImError::Unavailable));
    assert_eq!(dispatched(None, world.revocation), Step::Exit(ExitOutcome::Revoked));
    let World { bridge, mut sent, .. } = world;
    sent.extend(bridge.teardown());
    assert_eq!(
        sent,
        vec![
            Action::GrabKeyboard,
            Action::SaveEngineState,
            Action::DestroyInputMethod,
            Action::DestroyVirtualKeyboard,
        ]
    );
}
