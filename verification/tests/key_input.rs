use engine::key::KeyManager;
use engine::key::should_suppress_default;
use engine::key_codes;

#[test]
fn it_works() {
    assert_eq!(2 + 2, 4);
}

#[test]
fn fresh_keys_report_nothing() {
    let keys = KeyManager::new();
    for code in [0usize, 1, 32, 87, 299] {
        assert!(!keys.key_down(code));
        assert!(!keys.key_pressed(code));
        assert!(!keys.key_up(code));
    }
}

#[test]
fn out_of_range_codes_are_ignored() {
    let mut keys = KeyManager::new();
    keys.on_key_down(300);
    keys.on_key_down(5000);
    assert!(!keys.key_down(300));
    assert!(!keys.key_pressed(300));
    assert!(!keys.key_up(5000));
}

#[test]
fn key_press_lifecycle() {
    let mut keys = KeyManager::new();
    let c = key_codes::W;

    keys.on_key_down(c);
    assert!(keys.key_down(c));
    assert!(keys.key_pressed(c));
    assert!(!keys.key_up(c));

    keys.post_tick_update_key_states();
    assert!(!keys.key_down(c));
    assert!(keys.key_pressed(c));
    assert!(!keys.key_up(c));

    keys.on_key_up(c);
    assert!(keys.key_up(c));
    assert!(!keys.key_pressed(c));

    keys.post_tick_update_key_states();
    assert!(!keys.key_down(c));
    assert!(!keys.key_pressed(c));
    assert!(!keys.key_up(c));
}

#[test]
fn repeated_key_down_does_not_rearm_edge() {
    let mut keys = KeyManager::new();
    let c = key_codes::SPACE;
    keys.on_key_down(c);
    keys.post_tick_update_key_states();
    assert!(keys.key_pressed(c));
    assert!(!keys.key_down(c));
    keys.on_key_down(c);
    assert!(!keys.key_down(c));
    assert!(keys.key_pressed(c));
}

#[test]
fn focus_lost_releases_every_code() {
    let mut keys = KeyManager::new();
    keys.on_key_down(key_codes::A);
    keys.post_tick_update_key_states();
    keys.on_key_down(key_codes::B);

    keys.on_focus_lost();
    for code in [key_codes::A, key_codes::B, 0, 299] {
        assert!(keys.key_up(code));
        assert!(!keys.key_pressed(code));
    }

    keys.post_tick_update_key_states();
    for code in [key_codes::A, key_codes::B, 0, 299] {
        assert!(!keys.key_down(code));
        assert!(!keys.key_pressed(code));
        assert!(!keys.key_up(code));
    }
}

#[test]
fn function_keys_keep_default_action() {
    assert!(should_suppress_default(0));
    assert!(should_suppress_default(key_codes::W));
    assert!(should_suppress_default(111));
    assert!(!should_suppress_default(key_codes::F1));
    assert!(!should_suppress_default(117));
    assert!(!should_suppress_default(key_codes::F12));
    assert!(should_suppress_default(124));
}
