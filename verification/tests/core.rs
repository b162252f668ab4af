use xrwm::Audio;
use xrwm::AudioVolume;
use xrwm::Config;
use xrwm::DispatchOutcome;
use xrwm::Event;
use xrwm::Functional;
use xrwm::GapsConfig;
use xrwm::GeometryWrite;
use xrwm::KeyCode;
use xrwm::KeyCombination;
use xrwm::KeyPosition;
use xrwm::KeyboardEventHandler;
use xrwm::LayoutHandle;
use xrwm::LayoutStrategy;
use xrwm::Letter;
use xrwm::ManagedWindow;
use xrwm::ModKey;
use xrwm::Numpad;
use xrwm::Rect;
use xrwm::RegistryError;
use xrwm::TagRules;
use xrwm::TilingConfig;
use xrwm::WindowConfig;
use xrwm::WindowManager;
use xrwm::WindowPosition;
use xrwm::WindowRegistry;
use xrwm::WindowSize;
use xrwm::Compositor;
use xrwm::TilingCompositor;
use xrwm::compute;
use xrwm::compute_floating;
use xrwm::compute_monocle;
use xrwm::compute_tiling;
use xrwm::key_from_label;
use xrwm::parce_combination;
use xrwm::u8_decimal;

const SUPER_L: u8 = 133;
const SHIFT_L: u8 = 50;
const RETURN: u8 = 36;
const KEY_A: u8 = 38;
const KEY_B: u8 = 56;
const KEY_C: u8 = 54;

fn super_key() -> KeyCode {
    KeyCode::Modkey(ModKey::Super(KeyPosition::Left))
}

fn shift_key() -> KeyCode {
    KeyCode::Modkey(ModKey::Shift(KeyPosition::Left))
}

fn screen_1920_1080() -> Rect {
    Rect::new(0, 0, 1920, 1080)
}

fn gaps_10_6() -> GapsConfig {
    GapsConfig::new(6, 10)
}

fn handle(window: u32) -> LayoutHandle {
    LayoutHandle { window, geometry: Rect::new(0, 0, 0, 0), placed: false }
}

// Tag resolution

#[test]
fn forbidden_tag_redirects_to_first_allowed() {
    let w = ManagedWindow::new(7, 9, TagRules::Only(vec![2, 5]), Rect::new(0, 0, 100, 100));
    assert_eq!(w.current_tag(), 2);
}

#[test]
fn forbidden_tag_redirects_on_move() {
    let mut w = ManagedWindow::new(7, 2, TagRules::Only(vec![2, 5]), Rect::new(0, 0, 100, 100));
    assert_eq!(w.current_tag(), 2);
    w.move_to(9);
    assert_eq!(w.current_tag(), 2);
    w.move_to(5);
    assert_eq!(w.current_tag(), 5);
}

#[test]
fn empty_allowed_set_accepts_any_tag() {
    let mut w = ManagedWindow::new(7, 9, TagRules::Only(vec![]), Rect::new(0, 0, 100, 100));
    assert_eq!(w.current_tag(), 9);
    w.move_to(123456);
    assert_eq!(w.current_tag(), 123456);
}

#[test]
fn all_tags_allowed_accepts_any_tag() {
    let mut w = ManagedWindow::new(7, 3, TagRules::All, Rect::new(0, 0, 100, 100));
    assert_eq!(w.current_tag(), 3);
    w.move_to(42);
    assert_eq!(w.current_tag(), 42);
}

// Registry

#[test]
fn register_duplicate_is_an_error() {
    let mut r = WindowRegistry::new();
    assert!(r.register(1, 1, TagRules::All, Rect::new(0, 0, 10, 10)).is_ok());
    let second = r.register(1, 2, TagRules::All, Rect::new(0, 0, 10, 10));
    assert_eq!(second, Err(RegistryError::AlreadyRegistered));
    assert_eq!(r.len(), 1);
}

#[test]
fn unregister_absent_window_is_a_no_op() {
    let mut r = WindowRegistry::new();
    r.register(1, 1, TagRules::All, Rect::new(0, 0, 10, 10)).unwrap();
    r.register(2, 1, TagRules::All, Rect::new(0, 0, 10, 10)).unwrap();
    assert_eq!(r.len(), 2);
    r.unregister(99);
    assert_eq!(r.len(), 2);
    r.unregister(1);
    assert_eq!(r.len(), 1);
    r.unregister(1);
    assert_eq!(r.len(), 1);
}

#[test]
fn set_tag_resolves_against_policy() {
    let mut r = WindowRegistry::new();
    r.register(1, 2, TagRules::Only(vec![2, 5]), Rect::new(0, 0, 10, 10)).unwrap();
    r.set_tag(1, 9);
    assert_eq!(r.tag_of(1), Some(2));
    r.set_tag(1, 5);
    assert_eq!(r.tag_of(1), Some(5));
    r.set_tag(99, 5);
    assert_eq!(r.len(), 1);
}

#[test]
fn windows_on_tag_keeps_registration_order() {
    let mut r = WindowRegistry::new();
    r.register(10, 1, TagRules::All, Rect::new(0, 0, 10, 10)).unwrap();
    r.register(20, 2, TagRules::All, Rect::new(0, 0, 10, 10)).unwrap();
    r.register(30, 1, TagRules::All, Rect::new(0, 0, 10, 10)).unwrap();
    let on_one = r.windows_on_tag(1);
    assert_eq!(on_one.len(), 2);
    assert_eq!(on_one[0].window, 10);
    assert_eq!(on_one[1].window, 30);
    let on_two = r.windows_on_tag(2);
    assert_eq!(on_two.len(), 1);
    assert_eq!(on_two[0].window, 20);
}

#[test]
fn configure_updates_geometry_and_marks_placed() {
    let mut r = WindowRegistry::new();
    r.register(1, 1, TagRules::All, Rect::new(0, 0, 10, 10)).unwrap();
    r.configure(1, Rect::new(5, 6, 300, 200), 2);
    let on_one = r.windows_on_tag(1);
    assert_eq!(on_one[0].geometry, Rect::new(5, 6, 300, 200));
    assert!(on_one[0].placed);
}

// Tiling layout

#[test]
fn tiling_three_windows_1920_1080() {
    let windows = vec![handle(1), handle(2), handle(3)];
    let out = compute_tiling(&windows, screen_1920_1080(), gaps_10_6());
    assert_eq!(out.len(), 3);
    // master: full inset height, floor((1920 - 2*10 - 6) / 2) wide
    assert_eq!(out[0], GeometryWrite { window: 1, geometry: Rect::new(10, 10, 947, 1060) });
    // stack: one inner gap right of the master, split in equal shares
    assert_eq!(out[1], GeometryWrite { window: 2, geometry: Rect::new(963, 10, 947, 527) });
    assert_eq!(out[2], GeometryWrite { window: 3, geometry: Rect::new(963, 543, 947, 527) });
    // pairwise non-overlapping, union plus gaps reconstructs the inset rectangle
    assert_eq!(10 + 947 + 6, 963);
    assert_eq!(963 + 947, 1920 - 10);
    assert_eq!(10 + 527 + 6, 543);
    assert_eq!(543 + 527, 1080 - 10);
}

#[test]
fn tiling_remainder_pixels_go_to_first_regions() {
    let windows = vec![handle(1), handle(2), handle(3)];
    let screen = Rect::new(0, 0, 1920, 1081);
    let out = compute_tiling(&windows, screen, gaps_10_6());
    // stack shares 1081 - 20 - 6 = 1055 = 2 * 527 + 1: the first stack
    // window gets the leftover pixel
    assert_eq!(out[1].geometry, Rect::new(963, 10, 947, 528));
    assert_eq!(out[2].geometry, Rect::new(963, 544, 947, 527));
    assert_eq!(544 + 527, 1081 - 10);
}

#[test]
fn tiling_one_window_takes_the_full_inset_area() {
    let windows = vec![handle(1)];
    let out = compute_tiling(&windows, screen_1920_1080(), gaps_10_6());
    assert_eq!(out.len(), 1);
    assert_eq!(out[0].geometry, Rect::new(10, 10, 1900, 1060));
}

#[test]
fn tiling_no_windows_no_writes() {
    let windows: Vec<LayoutHandle> = vec![];
    let out = compute_tiling(&windows, screen_1920_1080(), gaps_10_6());
    assert!(out.is_empty());
}

#[test]
fn tiling_without_gaps_uses_the_whole_screen() {
    let windows = vec![handle(1), handle(2)];
    let out = compute_tiling(&windows, screen_1920_1080(), GapsConfig::new(0, 0));
    assert_eq!(out[0].geometry, Rect::new(0, 0, 960, 1080));
    assert_eq!(out[1].geometry, Rect::new(960, 0, 960, 1080));
}

#[test]
fn monocle_gives_every_window_the_inset_rectangle() {
    let windows = vec![handle(1), handle(2)];
    let out = compute_monocle(&windows, screen_1920_1080(), gaps_10_6());
    assert_eq!(out.len(), 2);
    assert_eq!(out[0], GeometryWrite { window: 1, geometry: Rect::new(10, 10, 1900, 1060) });
    assert_eq!(out[1], GeometryWrite { window: 2, geometry: Rect::new(10, 10, 1900, 1060) });
}

#[test]
fn floating_centers_only_unplaced_windows() {
    let unplaced = LayoutHandle { window: 1, geometry: Rect::new(0, 0, 800, 600), placed: false };
    let placed = LayoutHandle { window: 2, geometry: Rect::new(70, 80, 400, 300), placed: true };
    let windows = vec![unplaced, placed];
    let out = compute_floating(&windows, screen_1920_1080(), true);
    assert_eq!(out.len(), 1);
    assert_eq!(out[0], GeometryWrite { window: 1, geometry: Rect::new(560, 240, 800, 600) });
}

#[test]
fn floating_without_centering_writes_nothing() {
    let unplaced = LayoutHandle { window: 1, geometry: Rect::new(0, 0, 800, 600), placed: false };
    let windows = vec![unplaced];
    let out = compute_floating(&windows, screen_1920_1080(), false);
    assert!(out.is_empty());
}

#[test]
fn compute_dispatches_on_the_strategy() {
    let windows = vec![handle(1)];
    let tiled = compute(LayoutStrategy::Tiling, &windows, screen_1920_1080(), gaps_10_6(), false);
    let monocle = compute(
        LayoutStrategy::Monocle,
        &windows,
        screen_1920_1080(),
        gaps_10_6(),
        false,
    );
    assert_eq!(tiled, monocle);
    assert_eq!(tiled[0].geometry, Rect::new(10, 10, 1900, 1060));
}

// Keyboard chords

fn terminal_binding() -> KeyCombination {
    KeyCombination::new(vec![super_key(), KeyCode::Return], "terminal".to_string())
}

fn terminal_root_binding() -> KeyCombination {
    KeyCombination::new(
        vec![super_key(), shift_key(), KeyCode::Return],
        "terminal-root".to_string(),
    )
}

#[test]
fn chord_fires_exactly_once_per_press_sequence() {
    let mut kb = KeyboardEventHandler::new();
    kb.add_binding(terminal_binding());
    assert_eq!(kb.on_press(SUPER_L), None);
    assert_eq!(kb.on_press(RETURN), Some("terminal".to_string()));
    kb.on_relese(RETURN);
    kb.on_relese(SUPER_L);
    assert!(kb.input_buffer().is_empty());
}

#[test]
fn chord_fires_again_after_release_and_repress() {
    let mut kb = KeyboardEventHandler::new();
    kb.add_binding(terminal_binding());
    assert_eq!(kb.on_press(SUPER_L), None);
    assert_eq!(kb.on_press(RETURN), Some("terminal".to_string()));
    kb.on_relese(RETURN);
    assert_eq!(kb.on_press(RETURN), Some("terminal".to_string()));
}

#[test]
fn most_specific_chord_wins() {
    let mut kb = KeyboardEventHandler::new();
    kb.add_binding(terminal_binding());
    kb.add_binding(terminal_root_binding());
    assert_eq!(kb.on_press(SUPER_L), None);
    assert_eq!(kb.on_press(SHIFT_L), None);
    assert_eq!(kb.on_press(RETURN), Some("terminal-root".to_string()));
}

#[test]
fn equal_size_chords_tie_to_the_first_declared() {
    let mut kb = KeyboardEventHandler::new();
    kb.add_binding(KeyCombination::new(
        vec![KeyCode::Letter(Letter::A), KeyCode::Letter(Letter::B)],
        "one".to_string(),
    ));
    kb.add_binding(KeyCombination::new(
        vec![KeyCode::Letter(Letter::B), KeyCode::Letter(Letter::C)],
        "two".to_string(),
    ));
    assert_eq!(kb.on_press(KEY_B), None);
    assert_eq!(kb.on_press(KEY_C), Some("two".to_string()));
    // both chords are now held and tie on size: the first declared wins
    assert_eq!(kb.on_press(KEY_A), Some("one".to_string()));
}

#[test]
fn held_chord_does_not_repeat_fire() {
    let mut kb = KeyboardEventHandler::new();
    kb.add_binding(terminal_binding());
    assert_eq!(kb.on_press(SUPER_L), None);
    assert_eq!(kb.on_press(RETURN), Some("terminal".to_string()));
    // an unrelated press while the chord stays maximal fires nothing
    assert_eq!(kb.on_press(KEY_A), None);
}

#[test]
fn duplicate_press_reports_are_idempotent() {
    let mut kb = KeyboardEventHandler::new();
    kb.add_binding(terminal_binding());
    assert_eq!(kb.on_press(SUPER_L), None);
    assert_eq!(kb.on_press(SUPER_L), None);
    assert_eq!(kb.input_buffer().len(), 1);
    assert_eq!(kb.on_press(RETURN), Some("terminal".to_string()));
    // a repeated press of a chord key does not fire again
    assert_eq!(kb.on_press(RETURN), None);
}

#[test]
fn releasing_a_key_not_held_is_a_no_op() {
    let mut kb = KeyboardEventHandler::new();
    kb.on_relese(RETURN);
    assert!(kb.input_buffer().is_empty());
    kb.on_press(KEY_A);
    kb.on_relese(RETURN);
    assert_eq!(kb.input_buffer().len(), 1);
}

#[test]
fn unrecognized_keycode_is_recorded_and_matches_no_chord() {
    let mut kb = KeyboardEventHandler::new();
    kb.add_binding(KeyCombination::new(vec![KeyCode::Letter(Letter::A)], "cmd".to_string()));
    // raw code 7 is on no table
    assert_eq!(KeyCode::from(7), KeyCode::Unrecognized(7));
    assert_eq!(kb.on_press(7), None);
    assert_eq!(kb.input_buffer().len(), 1);
    assert_eq!(kb.on_press(KEY_A), Some("cmd".to_string()));
}

// Keycode classification

#[test]
fn classification_tables() {
    assert_eq!(KeyCode::from(RETURN), KeyCode::Return);
    assert_eq!(KeyCode::from(24), KeyCode::Letter(Letter::Q));
    assert_eq!(KeyCode::from(KEY_A), KeyCode::Letter(Letter::A));
    assert_eq!(KeyCode::from(SUPER_L), KeyCode::Modkey(ModKey::Super(KeyPosition::Left)));
    assert_eq!(KeyCode::from(SHIFT_L), KeyCode::Modkey(ModKey::Shift(KeyPosition::Left)));
    assert_eq!(KeyCode::from(9), KeyCode::Escape);
    assert_eq!(KeyCode::from(10), KeyCode::Num(1));
    assert_eq!(KeyCode::from(19), KeyCode::Num(0));
    assert_eq!(KeyCode::from(67), KeyCode::F(1));
    assert_eq!(KeyCode::from(76), KeyCode::F(10));
    assert_eq!(KeyCode::from(95), KeyCode::F(11));
    assert_eq!(KeyCode::from(96), KeyCode::F(12));
    assert_eq!(KeyCode::from(112), KeyCode::PageUp);
    assert_eq!(KeyCode::from(117), KeyCode::PageDown);
    assert_eq!(KeyCode::from(0), KeyCode::Unrecognized(0));
}

#[test]
fn modifier_codes_follow_the_evdev_keymap() {
    assert_eq!(KeyCode::from(64), KeyCode::Modkey(ModKey::Alt(KeyPosition::Left)));
    assert_eq!(KeyCode::from(204), KeyCode::Modkey(ModKey::Alt(KeyPosition::Left)));
    assert_eq!(KeyCode::from(108), KeyCode::Modkey(ModKey::Alt(KeyPosition::Right)));
    assert_eq!(KeyCode::from(205), KeyCode::Modkey(ModKey::Meta(KeyPosition::Left)));
    assert_eq!(KeyCode::from(206), KeyCode::Modkey(ModKey::Super(KeyPosition::Left)));
    assert_eq!(KeyCode::from(134), KeyCode::Modkey(ModKey::Super(KeyPosition::Right)));
    assert_eq!(KeyCode::from(207), KeyCode::Modkey(ModKey::Hyper));
}

#[test]
fn category_priority_on_overlapping_codes() {
    // 63 is both the numpad multiply and, in the direct table, unused:
    // the numpad table is consulted before the direct one
    assert_eq!(KeyCode::from(63), KeyCode::Numpad(Numpad::Multiply));
    // 121-123 are volume keys inside the functional group
    assert_eq!(
        KeyCode::from(123),
        KeyCode::Functional(Functional::Audio(Audio::Volume(AudioVolume::Rise)))
    );
    assert_eq!(KeyCode::from(79), KeyCode::Numpad(Numpad::Num(7)));
    assert_eq!(KeyCode::from(90), KeyCode::Numpad(Numpad::Num(0)));
}

// Labels

#[test]
fn modifier_labels() {
    assert_eq!(ModKey::Shift(KeyPosition::Left).to_string(), "L_Sh");
    assert_eq!(ModKey::Super(KeyPosition::Right).to_string(), "R_Sup");
    assert_eq!(ModKey::Hyper.to_string(), "H");
    assert_eq!(KeyPosition::Left.to_string(), "L");
}

#[test]
fn letter_and_numpad_labels() {
    assert_eq!(Letter::Q.to_string(), "q");
    assert_eq!(Numpad::Num(7).to_string(), "N_7");
    assert_eq!(Numpad::Add.to_string(), "N_+");
    assert_eq!(Numpad::Delete.to_string(), "N_delete");
}

#[test]
fn functional_labels_nest_their_group() {
    assert_eq!(
        Functional::Audio(Audio::Volume(AudioVolume::Rise)).to_string(),
        "Fn_Audio_Vol+"
    );
    assert_eq!(Functional::Audio(Audio::Play).to_string(), "Fn_Audio_Play");
    assert_eq!(Functional::Back.to_string(), "Fn_Back");
}

#[test]
fn u8_decimal_renders_all_widths() {
    assert_eq!(u8_decimal(0), "0");
    assert_eq!(u8_decimal(7), "7");
    assert_eq!(u8_decimal(42), "42");
    assert_eq!(u8_decimal(100), "100");
    assert_eq!(u8_decimal(255), "255");
}

// Combination parsing

#[test]
fn parse_combination_of_labels() {
    let keys = parce_combination("L_Sup + Return".to_string()).unwrap();
    assert_eq!(keys, vec![super_key(), KeyCode::Return]);
}

#[test]
fn parse_three_key_combination() {
    let keys = parce_combination("a + b + c".to_string()).unwrap();
    assert_eq!(
        keys,
        vec![
            KeyCode::Letter(Letter::A),
            KeyCode::Letter(Letter::B),
            KeyCode::Letter(Letter::C)
        ]
    );
}

#[test]
fn parse_rejects_unknown_tokens() {
    assert_eq!(parce_combination("bogus".to_string()), Err(()));
    assert_eq!(parce_combination("a + bogus".to_string()), Err(()));
    assert_eq!(parce_combination("".to_string()), Err(()));
}

#[test]
fn key_labels_round_trip_through_the_parser() {
    assert_eq!(key_from_label("L_Sh"), Some(shift_key()));
    assert_eq!(key_from_label("z"), Some(KeyCode::Letter(Letter::Z)));
    assert_eq!(key_from_label("PageDown"), Some(KeyCode::PageDown));
    assert_eq!(key_from_label("nope"), None);
}

// Dispatcher

fn manager() -> WindowManager {
    WindowManager::new(
        Config::new(TilingConfig::new(Some(gaps_10_6()))),
        WindowConfig::new(1, 0, false),
        screen_1920_1080(),
    )
}

#[test]
fn map_notify_registers_and_lays_out() {
    let mut wm = manager();
    let out = wm.handle_event(&Event::MapNotify { window: 1 });
    assert_eq!(out.command, None);
    assert_eq!(out.writes.len(), 1);
    assert_eq!(out.writes[0], GeometryWrite { window: 1, geometry: Rect::new(10, 10, 1900, 1060) });
}

#[test]
fn duplicate_map_notify_changes_nothing() {
    let mut wm = manager();
    wm.handle_event(&Event::MapNotify { window: 1 });
    let out = wm.handle_event(&Event::MapNotify { window: 1 });
    assert!(out.writes.is_empty());
    assert_eq!(wm.registry.len(), 1);
}

#[test]
fn serialized_map_notifies_match_a_single_pass_over_the_union() {
    let mut wm = manager();
    wm.handle_event(&Event::MapNotify { window: 1 });
    let out: DispatchOutcome = wm.handle_event(&Event::MapNotify { window: 2 });
    let union = vec![handle(1), handle(2)];
    let single_pass = compute_tiling(&union, screen_1920_1080(), gaps_10_6());
    assert_eq!(out.writes, single_pass);
}

#[test]
fn unmap_on_the_active_tag_triggers_a_pass() {
    let mut wm = manager();
    wm.handle_event(&Event::MapNotify { window: 1 });
    wm.handle_event(&Event::MapNotify { window: 2 });
    let out = wm.handle_event(&Event::UnmapNotify { window: 2 });
    assert_eq!(out.writes.len(), 1);
    assert_eq!(out.writes[0], GeometryWrite { window: 1, geometry: Rect::new(10, 10, 1900, 1060) });
    let gone = wm.handle_event(&Event::DestroyNotify { window: 2 });
    assert!(gone.writes.is_empty());
}

#[test]
fn configure_request_updates_without_a_pass() {
    let mut wm = manager();
    wm.handle_event(&Event::MapNotify { window: 1 });
    let out = wm.handle_event(&Event::ConfigureRequest {
        window: 1,
        geometry: Rect::new(3, 4, 640, 480),
        border_width: 2,
    });
    assert!(out.writes.is_empty());
    let view = wm.registry.windows_on_tag(1);
    assert_eq!(view[0].geometry, Rect::new(3, 4, 640, 480));
}

#[test]
fn key_events_flow_through_the_dispatcher() {
    let mut wm = manager();
    wm.keyboard.add_binding(terminal_binding());
    let first = wm.handle_event(&Event::KeyPress { raw_code: SUPER_L });
    assert_eq!(first.command, None);
    let second = wm.handle_event(&Event::KeyPress { raw_code: RETURN });
    assert_eq!(second.command, Some("terminal".to_string()));
    assert!(second.writes.is_empty());
    let released = wm.handle_event(&Event::KeyRelease { raw_code: RETURN });
    assert_eq!(released.command, None);
}

#[test]
fn other_events_are_ignored() {
    let mut wm = manager();
    wm.handle_event(&Event::MapNotify { window: 1 });
    let out = wm.handle_event(&Event::Other);
    assert!(out.writes.is_empty());
    assert_eq!(out.command, None);
    assert_eq!(wm.registry.len(), 1);
}

#[test]
fn floating_strategy_centers_on_map_when_configured() {
    let mut wm = WindowManager::new(
        Config::new(TilingConfig::new(Some(gaps_10_6()))),
        WindowConfig::new(1, 0, true),
        screen_1920_1080(),
    );
    wm.set_strategy(LayoutStrategy::Floating);
    let out = wm.handle_event(&Event::MapNotify { window: 1 });
    // the new window has no prior geometry: centered with its (empty) size
    assert_eq!(out.writes.len(), 1);
    assert_eq!(out.writes[0].geometry, Rect::new(960, 540, 0, 0));
}

// Configuration accessors

#[test]
fn config_accessors_return_the_stored_values() {
    let config = Config::new(TilingConfig::new(Some(gaps_10_6())));
    assert_eq!(config.tiling_config().gaps_config(), Some(gaps_10_6()));
    assert_eq!(TilingConfig::new(None).gaps_config(), None);
    assert_eq!(TilingConfig::new(None).effective_gaps(), GapsConfig::new(0, 0));
    let wc = WindowConfig::new(3, 4, true);
    assert_eq!(wc.border_size, 3);
    assert_eq!(wc.border_radius, 4);
    assert!(wc.open_in_center_on_floating_mode);
}

#[test]
fn window_accessors_return_the_stored_values() {
    let p = WindowPosition::new(-5, 12);
    assert_eq!(p.x(), -5);
    assert_eq!(p.y(), 12);
    let s = WindowSize::new(480, 640);
    assert_eq!(s.height(), 480);
    assert_eq!(s.width(), 640);
    let mut w = ManagedWindow::new(9, 1, TagRules::All, Rect::new(1, 2, 30, 40));
    assert_eq!(w.window(), 9);
    assert_eq!(w.window_size(), WindowSize::new(40, 30));
    assert_eq!(w.window_position(), WindowPosition::new(1, 2));
    w.resize_window(WindowSize::new(100, 200));
    assert_eq!(w.window_size(), WindowSize::new(100, 200));
    w.change_window_position(WindowPosition::new(7, 8));
    assert_eq!(w.window_position(), WindowPosition::new(7, 8));
    assert_eq!(w.border_size(), 0);
    w.change_border_size(3);
    assert_eq!(w.border_size(), 3);
    assert!(matches!(w.allowed_tags(), TagRules::All));
}

// Compositor

#[test]
fn tiling_compositor_tiles_its_windows() {
    let compositor = TilingCompositor::new(TilingConfig::new(Some(gaps_10_6())));
    let windows = vec![handle(1), handle(2), handle(3)];
    let out = compositor.locate_windows(&windows, screen_1920_1080());
    assert_eq!(out, compute_tiling(&windows, screen_1920_1080(), gaps_10_6()));
}
