use screenlock::auth::AuthOutcome;
use screenlock::grab::{GrabController, GrabPhase};
use screenlock::keyboard::{KeySym, Keymap};
use screenlock::machine::{Command, Event, LockMachine, Phase, Termination};

const ENTER: u8 = 0;
const BACKSPACE: u8 = 1;
const ESCAPE: u8 = 2;
const SHIFT: u8 = 3;

fn letter_code(c: char) -> u8 {
    10 + (c as u8 - b'a')
}

fn letters_keymap() -> Keymap {
    let mut entries = vec![
        KeySym::Enter,
        KeySym::Backspace,
        KeySym::Escape,
        KeySym::Shift,
    ];
    while entries.len() < 10 {
        entries.push(KeySym::NoSymbol);
    }
    let mut c = b'a';
    while c <= b'z' {
        entries.push(KeySym::Printable {
            lower: c as char,
            upper: (c as char).to_ascii_uppercase(),
        });
        c += 1;
    }
    Keymap::build(entries).expect("non-empty layout")
}

fn grabbed_machine() -> LockMachine {
    let mut g = GrabController::new();
    g.arm();
    g.keyboard_result(true);
    let _ = g.pointer_result(true);
    LockMachine::new(letters_keymap(), g)
}

fn type_word(m: &mut LockMachine, word: &str) {
    for ch in word.chars() {
        let code = letter_code(ch);
        let _ = m.on_event(Event::KeyDown(code));
        let _ = m.on_event(Event::KeyUp(code));
    }
}

#[test]
fn typed_characters_accumulate() {
    let mut m = grabbed_machine();
    type_word(&mut m, "pw");
    assert_eq!(m.buffer.len(), 2);
    assert_eq!(m.buffer.snapshot(), vec!['p', 'w']);
    assert_eq!(m.phase, Phase::AwaitingInput);
}

#[test]
fn typing_redraws_with_current_length() {
    let mut m = grabbed_machine();
    let cmd = m.on_event(Event::KeyDown(letter_code('x')));
    assert!(matches!(cmd, Command::Redraw(1)));
}

#[test]
fn shift_makes_uppercase_entry() {
    let mut m = grabbed_machine();
    let _ = m.on_event(Event::KeyDown(SHIFT));
    let _ = m.on_event(Event::KeyDown(letter_code('a')));
    let _ = m.on_event(Event::KeyUp(letter_code('a')));
    let _ = m.on_event(Event::KeyUp(SHIFT));
    let _ = m.on_event(Event::KeyDown(letter_code('b')));
    assert_eq!(m.buffer.snapshot(), vec!['A', 'b']);
}

#[test]
fn backspace_removes_last_character() {
    let mut m = grabbed_machine();
    type_word(&mut m, "abc");
    let cmd = m.on_event(Event::KeyDown(BACKSPACE));
    assert!(matches!(cmd, Command::Redraw(2)));
    assert_eq!(m.buffer.snapshot(), vec!['a', 'b']);
}

#[test]
fn backspace_on_empty_buffer_is_harmless() {
    let mut m = grabbed_machine();
    let cmd = m.on_event(Event::KeyDown(BACKSPACE));
    assert!(matches!(cmd, Command::Redraw(0)));
    assert_eq!(m.buffer.len(), 0);
    assert_eq!(m.phase, Phase::AwaitingInput);
}

#[test]
fn escape_resets_mid_entry() {
    let mut m = grabbed_machine();
    type_word(&mut m, "partial");
    let cmd = m.on_event(Event::KeyDown(ESCAPE));
    assert!(matches!(cmd, Command::Redraw(0)));
    assert_eq!(m.buffer.len(), 0);
    assert_eq!(m.phase, Phase::AwaitingInput);
}

#[test]
fn enter_snapshots_buffer_for_validation() {
    let mut m = grabbed_machine();
    type_word(&mut m, "pw");
    let cmd = m.on_event(Event::KeyDown(ENTER));
    match cmd {
        Command::Validate(snapshot) => assert_eq!(snapshot, vec!['p', 'w']),
        _ => panic!("Enter must hand the buffer to the validator"),
    }
    assert_eq!(m.phase, Phase::Authenticating);
}

#[test]
fn auth_reject_clears_buffer() {
    let mut m = grabbed_machine();
    type_word(&mut m, "wrongpw");
    let cmd = m.on_event(Event::KeyDown(ENTER));
    match cmd {
        Command::Validate(snapshot) => {
            assert_eq!(snapshot.iter().collect::<String>(), "wrongpw");
        }
        _ => panic!("Enter must hand the buffer to the validator"),
    }
    let cmd = m.on_auth_result(AuthOutcome::Rejected);
    assert!(matches!(cmd, Command::Redraw(0)));
    assert_eq!(m.buffer.len(), 0);
    assert_eq!(m.phase, Phase::AwaitingInput);
    // still locked
    assert_eq!(m.grab.read_phase(), GrabPhase::Grabbed);
}

#[test]
fn auth_unavailable_behaves_like_reject() {
    let mut m = grabbed_machine();
    type_word(&mut m, "pw");
    let _ = m.on_event(Event::KeyDown(ENTER));
    let cmd = m.on_auth_result(AuthOutcome::Unavailable);
    assert!(matches!(cmd, Command::Redraw(0)));
    assert_eq!(m.buffer.len(), 0);
    assert_eq!(m.phase, Phase::AwaitingInput);
    assert_eq!(m.grab.read_phase(), GrabPhase::Grabbed);
}

#[test]
fn auth_success_releases_grab() {
    let mut m = grabbed_machine();
    type_word(&mut m, "correctpw");
    let _ = m.on_event(Event::KeyDown(ENTER));
    let cmd = m.on_auth_result(AuthOutcome::Accepted);
    assert!(matches!(cmd, Command::Release));
    assert_eq!(m.grab.read_phase(), GrabPhase::Released);
    assert!(!m.grab.holds_keyboard() && !m.grab.holds_pointer());
    assert_eq!(m.phase, Phase::Terminated(Termination::Success));
    // the secret does not linger
    assert_eq!(m.buffer.len(), 0);
}

#[test]
fn expose_redraws_without_touching_buffer() {
    let mut m = grabbed_machine();
    type_word(&mut m, "abc");
    let cmd = m.on_event(Event::Expose);
    assert!(matches!(cmd, Command::Redraw(3)));
    assert_eq!(m.buffer.len(), 3);
}

#[test]
fn unknown_events_are_ignored() {
    let mut m = grabbed_machine();
    type_word(&mut m, "ab");
    let cmd = m.on_event(Event::Other);
    assert!(matches!(cmd, Command::Idle));
    assert_eq!(m.buffer.len(), 2);
    let cmd = m.on_event(Event::KeyDown(5)); // no symbol under this layout
    assert!(matches!(cmd, Command::Idle));
    assert_eq!(m.buffer.len(), 2);
}

#[test]
fn key_release_updates_state_only() {
    let mut m = grabbed_machine();
    type_word(&mut m, "a");
    let cmd = m.on_event(Event::KeyUp(letter_code('z')));
    assert!(matches!(cmd, Command::Idle));
    assert_eq!(m.buffer.len(), 1);
    assert_eq!(m.phase, Phase::AwaitingInput);
}

#[test]
fn abort_releases_grab_and_zeroes_buffer() {
    let mut m = grabbed_machine();
    type_word(&mut m, "half");
    let cmd = m.abort();
    assert!(matches!(cmd, Command::Release));
    assert_eq!(m.grab.read_phase(), GrabPhase::Released);
    assert_eq!(m.phase, Phase::Terminated(Termination::Abort));
    assert_eq!(m.buffer.len(), 0);
}
