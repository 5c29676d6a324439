use wlcskk::app_config::AppConfig;
use wlcskk::protocol::{Action, KeyDirection, KeyEvent, KeyState, KeymapFormat};
use wlcskk::routing::{
    EngineFeed, EngineQuery, KeyIdentity, KeyOutcome, QueryOutcome, ResolveOutcome, ResolveRequest,
};
use wlcskk::wl_cskk_context::{ResolverStage, WlCskkContext};

const KEY_A: u32 = 30;
const KEYSYM_A: u32 = 0x61;

fn bridge() -> WlCskkContext {
    WlCskkContext::new(AppConfig::default()).unwrap()
}

fn bridge_with_keymap(format: KeymapFormat) -> WlCskkContext {
    let mut bridge = bridge();
    bridge.handle_key_ev(KeyEvent::Keymap { format, fd: 5, size: 4096 });
    bridge.keymap_compiled(true);
    bridge
}

fn plain(keysym: u32) -> KeyIdentity {
    KeyIdentity { keysym, control: false, shift: false, alt: false }
}

fn key(state: KeyState) -> KeyEvent {
    KeyEvent::Key { serial: 7, time: 1000, key: KEY_A, state }
}

#[test]
fn wire_values_of_key_states() {
    assert_eq!(KeyState::Released.to_raw(), 0);
    assert_eq!(KeyState::Pressed.to_raw(), 1);
    assert_eq!(KeyState::from_raw(0), Some(KeyState::Released));
    assert_eq!(KeyState::from_raw(1), Some(KeyState::Pressed));
    assert_eq!(KeyState::from_raw(2), None);
}

#[test]
fn wire_values_of_keymap_formats() {
    assert_eq!(KeymapFormat::NoKeymap.to_raw(), 0);
    assert_eq!(KeymapFormat::XkbV1.to_raw(), 1);
    assert_eq!(KeymapFormat::from_raw(0), KeymapFormat::NoKeymap);
    assert_eq!(KeymapFormat::from_raw(1), KeymapFormat::XkbV1);
    assert_eq!(KeymapFormat::from_raw(7), KeymapFormat::Unrecognized(7));
    assert_eq!(KeymapFormat::Unrecognized(7).to_raw(), 7);
}

#[test]
fn first_keymap_goes_to_keyboard_and_resolver() {
    let mut bridge = bridge();
    assert!(!bridge.keymap_initialized());
    assert_eq!(bridge.keymap_format(), None);
    let outcome = bridge.handle_key_ev(KeyEvent::Keymap {
        format: KeymapFormat::XkbV1,
        fd: 5,
        size: 4096,
    });
    assert_eq!(
        outcome,
        KeyOutcome::Emit(vec![
            Action::Keymap { format: 1, fd: 5, size: 4096 },
            Action::CompileKeymap { format: 1, fd: 5, size: 4096 },
        ])
    );
    assert!(bridge.keymap_initialized());
    assert_eq!(bridge.keymap_format(), Some(KeymapFormat::XkbV1));
    assert_eq!(bridge.resolver_stage(), ResolverStage::Awaited);
}

#[test]
fn second_keymap_is_passed_over() {
    let mut bridge = bridge();
    let mut keymaps: u32 = 0;
    let mut compiles: u32 = 0;
    for fd in [5, 6] {
        let event = KeyEvent::Keymap { format: KeymapFormat::XkbV1, fd, size: 4096 };
        match bridge.handle_key_ev(event) {
            KeyOutcome::Emit(script) => {
                for action in script {
                    match action {
                        Action::Keymap { .. } => keymaps += 1,
                        Action::CompileKeymap { .. } => {
                            compiles += 1;
                            bridge.keymap_compiled(true);
                        }
                        _ => {}
                    }
                }
            }
            KeyOutcome::Resolve(_) => panic!("a keymap is not resolved"),
        }
    }
    assert_eq!(keymaps, 1);
    assert_eq!(compiles, 1);
    assert_eq!(bridge.resolver_stage(), ResolverStage::Ready);
}

#[test]
fn second_keymap_does_not_change_the_format() {
    let mut bridge = bridge_with_keymap(KeymapFormat::XkbV1);
    let outcome = bridge.handle_key_ev(KeyEvent::Keymap {
        format: KeymapFormat::NoKeymap,
        fd: 9,
        size: 1,
    });
    assert_eq!(outcome, KeyOutcome::Emit(vec![]));
    assert_eq!(bridge.keymap_format(), Some(KeymapFormat::XkbV1));
    assert_eq!(bridge.resolver_stage(), ResolverStage::Ready);
}

#[test]
fn compile_outcome_counts_once() {
    let mut bridge = bridge();
    bridge.keymap_compiled(true);
    assert_eq!(bridge.resolver_stage(), ResolverStage::Absent);
    bridge.handle_key_ev(KeyEvent::Keymap { format: KeymapFormat::XkbV1, fd: 5, size: 4096 });
    bridge.keymap_compiled(false);
    assert_eq!(bridge.resolver_stage(), ResolverStage::Absent);
    bridge.keymap_compiled(true);
    assert_eq!(bridge.resolver_stage(), ResolverStage::Absent);
    assert!(bridge.keymap_initialized());
}

#[test]
fn keys_are_forwarded_before_any_keymap() {
    let mut bridge = bridge();
    for state in [KeyState::Pressed, KeyState::Released] {
        assert_eq!(
            bridge.handle_key_ev(key(state)),
            KeyOutcome::Emit(vec![Action::Key { time: 1000, key: KEY_A, state: state.to_raw() }])
        );
    }
}

#[test]
fn keys_are_forwarded_while_the_keymap_compiles() {
    let mut bridge = bridge();
    bridge.handle_key_ev(KeyEvent::Keymap { format: KeymapFormat::XkbV1, fd: 5, size: 4096 });
    assert_eq!(
        bridge.handle_key_ev(key(KeyState::Pressed)),
        KeyOutcome::Emit(vec![Action::Key { time: 1000, key: KEY_A, state: 1 }])
    );
}

#[test]
fn keys_are_forwarded_when_the_keymap_did_not_compile() {
    let mut bridge = bridge();
    bridge.handle_key_ev(KeyEvent::Keymap { format: KeymapFormat::XkbV1, fd: 5, size: 4096 });
    bridge.keymap_compiled(false);
    assert_eq!(
        bridge.handle_key_ev(key(KeyState::Released)),
        KeyOutcome::Emit(vec![Action::Key { time: 1000, key: KEY_A, state: 0 }])
    );
}

#[test]
fn xkb_keymap_offsets_the_keycode_by_eight() {
    let mut bridge = bridge_with_keymap(KeymapFormat::XkbV1);
    assert_eq!(
        bridge.handle_key_ev(key(KeyState::Pressed)),
        KeyOutcome::Resolve(ResolveRequest {
            time: 1000,
            key: KEY_A,
            state: KeyState::Pressed,
            keycode: 38,
        })
    );
}

#[test]
fn other_format_uses_the_scancode() {
    let mut bridge = bridge_with_keymap(KeymapFormat::NoKeymap);
    assert_eq!(
        bridge.handle_key_ev(key(KeyState::Pressed)),
        KeyOutcome::Resolve(ResolveRequest {
            time: 1000,
            key: KEY_A,
            state: KeyState::Pressed,
            keycode: 30,
        })
    );
}

#[test]
fn unrecognized_format_uses_the_scancode() {
    let mut bridge = bridge_with_keymap(KeymapFormat::from_raw(9));
    assert_eq!(bridge.keymap_format(), Some(KeymapFormat::Unrecognized(9)));
    assert_eq!(
        bridge.handle_key_ev(key(KeyState::Released)),
        KeyOutcome::Resolve(ResolveRequest {
            time: 1000,
            key: KEY_A,
            state: KeyState::Released,
            keycode: 30,
        })
    );
}

#[test]
fn unrecognized_format_is_forwarded_by_its_wire_value() {
    let mut bridge = bridge();
    assert_eq!(
        bridge.handle_key_ev(KeyEvent::Keymap {
            format: KeymapFormat::from_raw(9),
            fd: 3,
            size: 10
        }),
        KeyOutcome::Emit(vec![
            Action::Keymap { format: 9, fd: 3, size: 10 },
            Action::CompileKeymap { format: 9, fd: 3, size: 10 },
        ])
    );
}

#[test]
fn direction_follows_the_key_state() {
    let request = ResolveRequest { time: 1, key: 2, state: KeyState::Pressed, keycode: 10 };
    assert_eq!(request.direction(), KeyDirection::Down);
    let request = ResolveRequest { time: 1, key: 2, state: KeyState::Released, keycode: 10 };
    assert_eq!(request.direction(), KeyDirection::Up);
}

#[test]
fn key_the_engine_declines_is_forwarded_as_it_came() {
    let mut bridge = bridge_with_keymap(KeymapFormat::XkbV1);
    let request = match bridge.handle_key_ev(key(KeyState::Pressed)) {
        KeyOutcome::Resolve(request) => request,
        other => panic!("expected a request, got {:?}", other),
    };
    assert_eq!(request.keycode, 38);
    let query = match request.resolved(plain(KEYSYM_A)) {
        ResolveOutcome::Ask(query) => query,
        other => panic!("expected a query, got {:?}", other),
    };
    assert_eq!(query, EngineQuery { time: 1000, key: KEY_A, identity: plain(KEYSYM_A) });
    assert_eq!(
        query.answered(false),
        QueryOutcome::Emit(vec![Action::Key { time: 1000, key: KEY_A, state: 1 }])
    );
}

#[test]
fn key_the_engine_takes_shows_the_preedit() {
    let mut bridge = bridge_with_keymap(KeymapFormat::XkbV1);
    let request = match bridge.handle_key_ev(key(KeyState::Pressed)) {
        KeyOutcome::Resolve(request) => request,
        other => panic!("expected a request, got {:?}", other),
    };
    let query = match request.resolved(plain(KEYSYM_A)) {
        ResolveOutcome::Ask(query) => query,
        other => panic!("expected a query, got {:?}", other),
    };
    let feed = match query.answered(true) {
        QueryOutcome::Feed(feed) => feed,
        other => panic!("expected a feed, got {:?}", other),
    };
    assert_eq!(feed, EngineFeed { identity: plain(KEYSYM_A) });
    let script = feed.emitted(Some("あ".to_string()), None);
    assert_eq!(
        script,
        vec![
            Action::SetPreeditString { text: "あ".to_string(), cursor_begin: 0, cursor_end: 0 },
            Action::Commit { serial: 1 },
        ]
    );
    assert!(!script.iter().any(|a| matches!(a, Action::Key { .. })));
}

#[test]
fn released_key_is_forwarded_without_asking_the_engine() {
    let mut bridge = bridge_with_keymap(KeymapFormat::XkbV1);
    let request = match bridge.handle_key_ev(key(KeyState::Released)) {
        KeyOutcome::Resolve(request) => request,
        other => panic!("expected a request, got {:?}", other),
    };
    assert_eq!(request.keycode, 38);
    assert_eq!(
        request.resolved(KeyIdentity { keysym: KEYSYM_A, control: true, shift: true, alt: false }),
        ResolveOutcome::Emit(vec![Action::Key { time: 1000, key: KEY_A, state: 0 }])
    );
}

#[test]
fn modifiers_reach_the_engine_query() {
    let request = ResolveRequest { time: 3, key: 36, state: KeyState::Pressed, keycode: 44 };
    let identity = KeyIdentity { keysym: 0x6a, control: true, shift: false, alt: false };
    assert_eq!(
        request.resolved(identity),
        ResolveOutcome::Ask(EngineQuery { time: 3, key: 36, identity })
    );
}

#[test]
fn commit_count_is_zero_without_text() {
    let feed = EngineFeed { identity: plain(KEYSYM_A) };
    assert_eq!(feed.emitted(None, None), vec![Action::Commit { serial: 0 }]);
}

#[test]
fn commit_count_is_one_for_preedit_only() {
    let feed = EngineFeed { identity: plain(KEYSYM_A) };
    assert_eq!(
        feed.emitted(Some("k".to_string()), None),
        vec![
            Action::SetPreeditString { text: "k".to_string(), cursor_begin: 0, cursor_end: 0 },
            Action::Commit { serial: 1 },
        ]
    );
}

#[test]
fn commit_count_is_one_for_commit_only() {
    let feed = EngineFeed { identity: plain(KEYSYM_A) };
    assert_eq!(
        feed.emitted(None, Some("a".to_string())),
        vec![Action::CommitString { text: "a".to_string() }, Action::Commit { serial: 1 }]
    );
}

#[test]
fn commit_count_is_two_for_both() {
    let feed = EngineFeed { identity: plain(KEYSYM_A) };
    assert_eq!(
        feed.emitted(Some("▽か".to_string()), Some("漢字".to_string())),
        vec![
            Action::SetPreeditString { text: "▽か".to_string(), cursor_begin: 0, cursor_end: 0 },
            Action::CommitString { text: "漢字".to_string() },
            Action::Commit { serial: 2 },
        ]
    );
}

#[test]
fn empty_preedit_is_not_shown() {
    let feed = EngineFeed { identity: plain(KEYSYM_A) };
    assert_eq!(
        feed.emitted(Some(String::new()), Some("a".to_string())),
        vec![Action::CommitString { text: "a".to_string() }, Action::Commit { serial: 1 }]
    );
    assert_eq!(feed.emitted(Some(String::new()), None), vec![Action::Commit { serial: 0 }]);
}

#[test]
fn modifiers_are_forwarded_before_any_keymap() {
    let mut bridge = bridge();
    let event = KeyEvent::Modifiers {
        serial: 3,
        mods_depressed: 1,
        mods_latched: 2,
        mods_locked: 4,
        group: 1,
    };
    assert_eq!(
        bridge.handle_key_ev(event),
        KeyOutcome::Emit(vec![Action::Modifiers {
            mods_depressed: 1,
            mods_latched: 2,
            mods_locked: 4,
            group: 1
        }])
    );
}

#[test]
fn modifiers_update_the_resolver_first() {
    let mut bridge = bridge_with_keymap(KeymapFormat::XkbV1);
    let event = KeyEvent::Modifiers {
        serial: 3,
        mods_depressed: 1,
        mods_latched: 2,
        mods_locked: 4,
        group: 1,
    };
    assert_eq!(
        bridge.handle_key_ev(event),
        KeyOutcome::Emit(vec![
            Action::UpdateMask {
                depressed_mods: 1,
                latched_mods: 2,
                locked_mods: 4,
                depressed_layout: 0,
                latched_layout: 0,
                locked_layout: 1,
            },
            Action::Modifiers { mods_depressed: 1, mods_latched: 2, mods_locked: 4, group: 1 },
        ])
    );
}

#[test]
fn repeat_info_leads_to_nothing() {
    let mut bridge = bridge_with_keymap(KeymapFormat::XkbV1);
    assert_eq!(
        bridge.handle_key_ev(KeyEvent::RepeatInfo { rate: 25, delay: 600 }),
        KeyOutcome::Emit(vec![])
    );
    assert_eq!(bridge.resolver_stage(), ResolverStage::Ready);
    assert_eq!(bridge.keymap_format(), Some(KeymapFormat::XkbV1));
}

#[test]
fn keycode_that_does_not_fit_is_not_admitted() {
    let mut bridge = bridge_with_keymap(KeymapFormat::XkbV1);
    let top = KeyEvent::Key { serial: 1, time: 2, key: u32::MAX - 7, state: KeyState::Pressed };
    assert!(!bridge.admits(&top));
    assert_eq!(bridge.try_handle_key_ev(top), None);
    let fits = KeyEvent::Key { serial: 1, time: 2, key: u32::MAX - 8, state: KeyState::Pressed };
    assert!(bridge.admits(&fits));
    assert_eq!(
        bridge.try_handle_key_ev(fits),
        Some(KeyOutcome::Resolve(ResolveRequest {
            time: 2,
            key: u32::MAX - 8,
            state: KeyState::Pressed,
            keycode: u32::MAX,
        }))
    );
}

#[test]
fn every_scancode_is_admitted_without_offset() {
    let mut raw = bridge_with_keymap(KeymapFormat::NoKeymap);
    let top = KeyEvent::Key { serial: 1, time: 2, key: u32::MAX, state: KeyState::Released };
    assert!(raw.admits(&top));
    assert_eq!(
        raw.try_handle_key_ev(top),
        Some(KeyOutcome::Resolve(ResolveRequest {
            time: 2,
            key: u32::MAX,
            state: KeyState::Released,
            keycode: u32::MAX,
        }))
    );
    let mut none = bridge();
    assert!(none.admits(&top));
    assert_eq!(
        none.try_handle_key_ev(top),
        Some(KeyOutcome::Emit(vec![Action::Key { time: 2, key: u32::MAX, state: 0 }]))
    );
}
