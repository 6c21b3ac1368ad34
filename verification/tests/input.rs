use chiprust_cli::input::KeyMap;

#[test]
fn keymap_is_a_bijection_over_sixteen_entries() {
    let km = KeyMap::new();
    let mut seen = [false; 16];
    for code in 0..16u8 {
        let key = km.key_for_code(code);
        assert!(key < 16);
        assert!(!seen[key as usize], "two codes share physical key {}", key);
        seen[key as usize] = true;
        assert_eq!(km.code_for_key(key), Some(code));
    }
    assert!(seen.iter().all(|&s| s));
}

#[test]
fn keymap_matches_the_classic_layout() {
    let km = KeyMap::new();
    // Top row 1 2 3 4 carries codes 1, 2, 3, C.
    assert_eq!(km.code_for_key(0), Some(0x1));
    assert_eq!(km.code_for_key(1), Some(0x2));
    assert_eq!(km.code_for_key(2), Some(0x3));
    assert_eq!(km.code_for_key(3), Some(0xC));
    // Q W E R carries 4, 5, 6, D.
    assert_eq!(km.code_for_key(4), Some(0x4));
    assert_eq!(km.code_for_key(7), Some(0xD));
    // Z X C V carries A, 0, B, F.
    assert_eq!(km.code_for_key(12), Some(0xA));
    assert_eq!(km.code_for_key(13), Some(0x0));
    assert_eq!(km.code_for_key(14), Some(0xB));
    assert_eq!(km.code_for_key(15), Some(0xF));
}

#[test]
fn unmapped_keys_have_no_code() {
    let km = KeyMap::new();
    assert_eq!(km.code_for_key(16), None);
    assert_eq!(km.code_for_key(200), None);
}

#[test]
fn is_pressed_tracks_the_held_set() {
    let km = KeyMap::new();
    // Key 4 (Q) is bound to code 4; key 13 (X) to code 0.
    let held = vec![4u8, 13u8];
    assert!(km.is_pressed(4, &held));
    assert!(km.is_pressed(0, &held));
    assert!(!km.is_pressed(5, &held));
    assert!(!km.is_pressed(0xC, &held));
    let none_held: Vec<u8> = Vec::new();
    for code in 0..16u8 {
        assert!(!km.is_pressed(code, &none_held));
    }
}

#[test]
fn key_wait_decision_skips_unmapped_presses() {
    let km = KeyMap::new();
    // Only unmapped identifiers held: keep waiting.
    assert_eq!(km.first_mapped_code(&vec![99u8, 200u8]), None);
    assert_eq!(km.first_mapped_code(&Vec::new()), None);
    // The first mapped key decides, and its code is always below 16.
    assert_eq!(km.first_mapped_code(&vec![99u8, 3u8, 4u8]), Some(0xC));
    for key in 0..=255u8 {
        if let Some(code) = km.first_mapped_code(&vec![key]) {
            assert!(code <= 15);
        }
    }
}
