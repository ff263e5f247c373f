use screenlock::keyboard::{KeyDirection, KeySym, Keymap, Tracker};

fn small_keymap() -> Keymap {
    // code 0: Enter, 1: Shift, 2: Caps Lock, 3: 'a'/'A', 4: no symbol
    let entries = vec![
        KeySym::Enter,
        KeySym::Shift,
        KeySym::CapsLock,
        KeySym::Printable { lower: 'a', upper: 'A' },
        KeySym::NoSymbol,
    ];
    Keymap::build(entries).expect("non-empty layout")
}

#[test]
fn build_rejects_empty_layout() {
    assert!(Keymap::build(vec![]).is_none());
}

#[test]
fn build_accepts_non_empty_layout() {
    assert!(Keymap::build(vec![KeySym::Enter]).is_some());
}

#[test]
fn lookup_beyond_table_is_no_symbol() {
    let km = small_keymap();
    assert_eq!(km.lookup(200), KeySym::NoSymbol);
}

#[test]
fn plain_key_resolves_lowercase() {
    let km = small_keymap();
    let t = Tracker::new(km);
    let (sym, text) = t.resolve(3);
    assert_eq!(sym, KeySym::Printable { lower: 'a', upper: 'A' });
    assert_eq!(text, vec!['a']);
}

#[test]
fn shift_then_key_resolves_uppercase() {
    let km = small_keymap();
    let mut t = Tracker::new(km);
    t.update(1, KeyDirection::Down);
    let (_, text) = t.resolve(3);
    assert_eq!(text, vec!['A']);
}

#[test]
fn shift_released_returns_to_lowercase() {
    let km = small_keymap();
    let mut t = Tracker::new(km);
    t.update(1, KeyDirection::Down);
    t.update(1, KeyDirection::Up);
    let (_, text) = t.resolve(3);
    assert_eq!(text, vec!['a']);
}

#[test]
fn caps_lock_latches_across_release() {
    let km = small_keymap();
    let mut t = Tracker::new(km);
    t.update(2, KeyDirection::Down);
    t.update(2, KeyDirection::Up);
    let (_, text) = t.resolve(3);
    assert_eq!(text, vec!['A']);
    // a second press unlatches
    t.update(2, KeyDirection::Down);
    t.update(2, KeyDirection::Up);
    let (_, text) = t.resolve(3);
    assert_eq!(text, vec!['a']);
}

#[test]
fn shift_and_caps_cancel_out() {
    let km = small_keymap();
    let mut t = Tracker::new(km);
    t.update(2, KeyDirection::Down);
    t.update(2, KeyDirection::Up);
    t.update(1, KeyDirection::Down);
    let (_, text) = t.resolve(3);
    assert_eq!(text, vec!['a']);
}

#[test]
fn control_keys_produce_no_text() {
    let km = small_keymap();
    let t = Tracker::new(km);
    let (sym, text) = t.resolve(0);
    assert_eq!(sym, KeySym::Enter);
    assert!(text.is_empty());
    let (sym, text) = t.resolve(4);
    assert_eq!(sym, KeySym::NoSymbol);
    assert!(text.is_empty());
}
