//! The keyboard state tracker: an immutable keymap from physical key codes
//! to logical symbols, and a live modifier/lock state that is updated on
//! every key event and consulted when a key press is resolved to text.
//!
//! The layout model has two levels per key: a base character and a shifted
//! character. Holding Shift or latching Caps Lock selects the shifted level;
//! both together cancel out. Symbol resolution therefore depends on the
//! order of events, which is why `update` must be called for every key event
//! observed, key-up included.

use vstd::prelude::*;

verus! {

#[derive(Clone, Copy, PartialEq, Eq, Structural, Debug)]
pub enum KeyDirection {
    Down,
    Up,
}

/// The logical meaning of one physical key under the current layout.
#[derive(Clone, Copy, PartialEq, Eq, Structural, Debug)]
pub enum KeySym {
    Enter,
    Backspace,
    Escape,
    Shift,
    CapsLock,
    /// A key that produces text: its base-level and shifted-level characters.
    Printable { lower: char, upper: char },
    /// A key with no symbol under this layout; its presses are ignored.
    NoSymbol,
}

/// The live modifier/lock state. `shift` follows the Shift key down and up;
/// `caps` toggles on every Caps Lock key-down.
#[derive(Clone, Copy, PartialEq, Eq, Structural, Debug)]
pub struct KeyState {
    pub shift: bool,
    pub caps: bool,
}

/// Immutable table from physical key codes to logical symbols, built once at
/// startup. A code beyond the table resolves to `NoSymbol`.
pub struct Keymap {
    entries: Vec<KeySym>,
}

impl View for Keymap {
    type V = Seq<KeySym>;

    closed spec fn view(&self) -> Seq<KeySym> {
        self.entries@
    }
}

/// The symbol a keymap assigns to a key code.
pub open spec fn sym_of(km: Seq<KeySym>, code: u8) -> KeySym {
    if (code as int) < km.len() {
        km[code as int]
    } else {
        KeySym::NoSymbol
    }
}

/// How one key event changes the modifier/lock state: Shift follows the key,
/// Caps Lock toggles on key-down, every other key leaves the state alone.
pub open spec fn spec_update(st: KeyState, sym: KeySym, dir: KeyDirection) -> KeyState {
    match sym {
        KeySym::Shift => KeyState { shift: dir is Down, ..st },
        KeySym::CapsLock => if dir is Down {
            KeyState { caps: !st.caps, ..st }
        } else {
            st
        },
        _ => st,
    }
}

/// The text a key press produces under the given state: the shifted level
/// when exactly one of Shift and Caps Lock is active, the base level
/// otherwise, and nothing for keys that carry no text.
pub open spec fn spec_text(st: KeyState, sym: KeySym) -> Seq<char> {
    match sym {
        KeySym::Printable { lower, upper } => if st.shift != st.caps {
            seq![upper]
        } else {
            seq![lower]
        },
        _ => Seq::<char>::empty(),
    }
}

impl Keymap {
    /// Builds the table, failing when no usable layout was determined: an
    /// empty table could not translate any key, the unlock phrase included.
    pub fn build(entries: Vec<KeySym>) -> (r: Option<Keymap>)
        ensures
            r is Some <==> entries@.len() > 0,
            r is Some ==> r.unwrap()@ == entries@,
    {
        if entries.len() == 0 {
            None
        } else {
            Some(Keymap { entries })
        }
    }

    pub fn lookup(&self, code: u8) -> (s: KeySym)
        ensures
            s == sym_of(self@, code),
    {
        if (code as usize) < self.entries.len() {
            self.entries[code as usize]
        } else {
            KeySym::NoSymbol
        }
    }
}

/// The keymap together with the live state it is consulted under.
pub struct Tracker {
    pub keymap: Keymap,
    pub state: KeyState,
}

impl Tracker {
    /// A tracker over the given layout, with no modifier active and no lock
    /// latched.
    pub fn new(keymap: Keymap) -> (t: Tracker)
        ensures
            t.keymap@ == keymap@,
            t.state == (KeyState { shift: false, caps: false }),
    {
        Tracker { keymap, state: KeyState { shift: false, caps: false } }
    }

    /// Applies one key event to the modifier/lock state. Must be called for
    /// every key event observed, or later resolutions desynchronize from the
    /// real modifier state.
    pub fn update(&mut self, code: u8, dir: KeyDirection)
        ensures
            final(self).keymap@ == old(self).keymap@,
            final(self).state == spec_update(
                old(self).state,
                sym_of(old(self).keymap@, code),
                dir,
            ),
    {
        match self.keymap.lookup(code) {
            KeySym::Shift => {
                self.state.shift = match dir {
                    KeyDirection::Down => true,
                    KeyDirection::Up => false,
                };
            }
            KeySym::CapsLock => {
                if let KeyDirection::Down = dir {
                    self.state.caps = !self.state.caps;
                }
            }
            _ => {}
        }
    }

    /// Resolves a key press to its logical symbol and the text it produces
    /// under the current state. Resolution reads the state and does not
    /// change it; only `update` does.
    pub fn resolve(&self, code: u8) -> (r: (KeySym, Vec<char>))
        ensures
            r.0 == sym_of(self.keymap@, code),
            r.1@ == spec_text(self.state, r.0),
    {
        let sym = self.keymap.lookup(code);
        let mut text: Vec<char> = Vec::new();
        if let KeySym::Printable { lower, upper } = sym {
            if self.state.shift != self.state.caps {
                text.push(upper);
            } else {
                text.push(lower);
            }
        }
        proof {
            assert(text@ =~= spec_text(self.state, sym));
        }
        (sym, text)
    }
}

/// Modifier order matters: a Shift key-down taken into the state before a
/// printable key press makes that press resolve to its shifted character,
/// while the same press from the neutral state resolves to its base
/// character.
pub proof fn lemma_modifier_order(st: KeyState, lower: char, upper: char)
    requires
        !st.caps,
    ensures
        spec_text(
            spec_update(st, KeySym::Shift, KeyDirection::Down),
            KeySym::Printable { lower, upper },
        ) == seq![upper],
        spec_text(
            KeyState { shift: false, caps: false },
            KeySym::Printable { lower, upper },
        ) == seq![lower],
{
}

} // verus!
