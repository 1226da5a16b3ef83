use pinnacle::keys::{Key, Keybind, Modifier, ModifierMask};

#[test]
fn mask_of_no_modifier_is_zero() {
    assert_eq!(ModifierMask::from(vec![]), ModifierMask(0));
}

#[test]
fn mask_has_one_bit_per_modifier() {
    assert_eq!(ModifierMask::from(vec![Modifier::Shift]), ModifierMask(1));
    assert_eq!(ModifierMask::from(vec![Modifier::Ctrl]), ModifierMask(2));
    assert_eq!(ModifierMask::from(vec![Modifier::Alt]), ModifierMask(4));
    assert_eq!(ModifierMask::from(vec![Modifier::Super]), ModifierMask(8));
}

#[test]
fn mask_of_several_modifiers_joins_their_bits() {
    assert_eq!(ModifierMask::from(vec![Modifier::Shift, Modifier::Super]), ModifierMask(9));
    assert_eq!(
        ModifierMask::from(vec![Modifier::Ctrl, Modifier::Alt, Modifier::Shift, Modifier::Super]),
        ModifierMask(15)
    );
}

#[test]
fn mask_ignores_order_and_repetition() {
    let one = ModifierMask::from(vec![Modifier::Ctrl, Modifier::Alt]);
    let other = ModifierMask::from(vec![Modifier::Alt, Modifier::Ctrl, Modifier::Alt, Modifier::Ctrl]);
    assert_eq!(one, other);
    assert_eq!(one, ModifierMask(6));
}

#[test]
fn mask_contains_what_it_was_made_of() {
    let mask = ModifierMask::from(vec![Modifier::Ctrl, Modifier::Super]);
    assert!(mask.contains(Modifier::Ctrl));
    assert!(mask.contains(Modifier::Super));
    assert!(!mask.contains(Modifier::Shift));
    assert!(!mask.contains(Modifier::Alt));
}

#[test]
fn modifier_bits_are_distinct_powers_of_two() {
    assert_eq!(Modifier::Shift.bit(), 1);
    assert_eq!(Modifier::Ctrl.bit(), 2);
    assert_eq!(Modifier::Alt.bit(), 4);
    assert_eq!(Modifier::Super.bit(), 8);
}

#[test]
fn letters_have_the_codes_of_lower_case_latin() {
    let letters = [
        Key::A, Key::B, Key::C, Key::D, Key::E, Key::F, Key::G, Key::H, Key::I, Key::J, Key::K,
        Key::L, Key::M, Key::N, Key::O, Key::P, Key::Q, Key::R, Key::S, Key::T, Key::U, Key::V,
        Key::W, Key::X, Key::Y, Key::Z,
    ];
    for (n, key) in letters.iter().enumerate() {
        assert_eq!(key.keysym(), 'a' as u32 + n as u32);
    }
    assert_eq!(Key::A.keysym(), 0x61);
    assert_eq!(Key::Z.keysym(), 0x7a);
}

#[test]
fn digits_have_the_codes_of_the_digits() {
    let digits = [
        Key::Zero, Key::One, Key::Two, Key::Three, Key::Four, Key::Five, Key::Six, Key::Seven,
        Key::Eight, Key::Nine,
    ];
    for (n, key) in digits.iter().enumerate() {
        assert_eq!(key.keysym(), '0' as u32 + n as u32);
    }
    assert_eq!(Key::Zero.keysym(), 0x30);
    assert_eq!(Key::Nine.keysym(), 0x39);
}

#[test]
fn keypad_digits_have_their_own_codes() {
    let digits = [
        Key::NumZero, Key::NumOne, Key::NumTwo, Key::NumThree, Key::NumFour, Key::NumFive,
        Key::NumSix, Key::NumSeven, Key::NumEight, Key::NumNine,
    ];
    for (n, key) in digits.iter().enumerate() {
        assert_eq!(key.keysym(), 0xffb0 + n as u32);
    }
    assert_ne!(Key::NumOne.keysym(), Key::One.keysym());
}

#[test]
fn escape_has_its_code() {
    assert_eq!(Key::Escape.keysym(), 0xff1b);
}

#[test]
fn keybind_becomes_mask_and_code() {
    let keybind = Keybind { modifiers: vec![Modifier::Ctrl, Modifier::Alt], key: Key::R };
    assert_eq!(keybind.binding(), (ModifierMask(6), 0x72));
}

#[test]
fn keybind_without_modifiers_has_the_empty_mask() {
    let keybind = Keybind { modifiers: vec![], key: Key::Escape };
    assert_eq!(keybind.binding(), (ModifierMask(0), 0xff1b));
}

#[test]
fn keys_are_read_from_their_names() {
    assert_eq!(Key::from_name("a"), Some(Key::A));
    assert_eq!(Key::from_name("m"), Some(Key::M));
    assert_eq!(Key::from_name("z"), Some(Key::Z));
    assert_eq!(Key::from_name("zero"), Some(Key::Zero));
    assert_eq!(Key::from_name("nine"), Some(Key::Nine));
    assert_eq!(Key::from_name("num_zero"), Some(Key::NumZero));
    assert_eq!(Key::from_name("num_five"), Some(Key::NumFive));
    assert_eq!(Key::from_name("num_nine"), Some(Key::NumNine));
    assert_eq!(Key::from_name("escape"), Some(Key::Escape));
}

#[test]
fn every_letter_has_its_name() {
    for letter in 'a'..='z' {
        let key = Key::from_name(&letter.to_string()).unwrap();
        assert_eq!(key.keysym(), letter as u32);
    }
}

#[test]
fn keys_are_read_from_their_aliases() {
    for digit in 0..10u32 {
        let key = Key::from_name(&digit.to_string()).unwrap();
        assert_eq!(key.keysym(), 0x30 + digit);
        let key = Key::from_name(&format!("num{digit}")).unwrap();
        assert_eq!(key.keysym(), 0xffb0 + digit);
    }
    assert_eq!(Key::from_name("esc"), Some(Key::Escape));
}

#[test]
fn case_does_not_matter_in_an_alias() {
    assert_eq!(Key::from_name("ESC"), Some(Key::Escape));
    assert_eq!(Key::from_name("Esc"), Some(Key::Escape));
    assert_eq!(Key::from_name("NUM3"), Some(Key::NumThree));
    assert_eq!(Key::from_name("Num7"), Some(Key::NumSeven));
}

#[test]
fn case_matters_in_a_name() {
    assert_eq!(Key::from_name("A"), None);
    assert_eq!(Key::from_name("Zero"), None);
    assert_eq!(Key::from_name("ESCAPE"), None);
    assert_eq!(Key::from_name("Num_Zero"), None);
}

#[test]
fn unknown_names_are_no_keys() {
    for name in ["", "aa", "ten", "num", "num10", "num_0", "escap", "esc ", " a", "f1", "é"] {
        assert_eq!(Key::from_name(name), None);
    }
}
