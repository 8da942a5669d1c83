use autotype::keys::{
    classify, key_down, key_events, key_up, KeyEvent, Modality, KEYEVENTF_KEYUP,
    KEYEVENTF_UNICODE, VK_CONTROL, VK_LWIN, VK_MENU, VK_RWIN, VK_SHIFT, VK_TAB,
};

#[test]
fn allow_listed_codes_are_virtual_keys() {
    for code in [VK_TAB, VK_SHIFT, VK_CONTROL, VK_MENU, VK_LWIN, VK_RWIN] {
        assert_eq!(classify(code), Modality::VirtualKey);
    }
}

#[test]
fn every_other_code_is_a_character() {
    let allow = [VK_TAB, VK_SHIFT, VK_CONTROL, VK_MENU, VK_LWIN, VK_RWIN];
    for code in 0..=u16::MAX {
        if !allow.contains(&code) {
            assert_eq!(classify(code), Modality::Character, "code {code:#x}");
        }
    }
}

#[test]
fn letters_are_typed_as_characters() {
    for code in 0x41u16..=0x5A {
        assert_eq!(classify(code), Modality::Character);
    }
    assert_eq!(classify(0x13), Modality::Character);
    assert_eq!(classify(0x5D), Modality::Character);
}

#[test]
fn virtual_key_events() {
    assert_eq!(
        key_down(VK_TAB),
        KeyEvent { virtual_key: 0x09, character: 0, flags: 0 }
    );
    assert_eq!(
        key_up(VK_TAB),
        KeyEvent { virtual_key: 0x09, character: 0, flags: 0x0002 }
    );
}

#[test]
fn character_events() {
    assert_eq!(
        key_down(0x00E9),
        KeyEvent { virtual_key: 0, character: 0x00E9, flags: 0x0004 }
    );
    assert_eq!(
        key_up(0x00E9),
        KeyEvent { virtual_key: 0, character: 0x00E9, flags: 0x0006 }
    );
    assert_eq!(KEYEVENTF_UNICODE | KEYEVENTF_KEYUP, 0x0006);
}

#[test]
fn events_pair_each_key_in_input_order() {
    let input: Vec<u16> = vec![0x61, VK_TAB, 0x62];
    let events = key_events(&input);
    assert_eq!(
        events,
        vec![
            key_down(0x61),
            key_up(0x61),
            key_down(VK_TAB),
            key_up(VK_TAB),
            key_down(0x62),
            key_up(0x62),
        ]
    );
}

#[test]
fn no_events_for_empty_input() {
    assert!(key_events(&Vec::new()).is_empty());
}
