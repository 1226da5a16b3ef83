//! Modifier masks, symbolic keys and keybinds.

use vstd::prelude::*;
use vstd::string::StrSliceExecFns;
use vstd::std_specs::convert::FromSpecImpl;

verus! {

/// A modifier key.
#[derive(Clone, Copy, Debug, PartialEq, Eq, Structural)]
pub enum Modifier {
    Shift,
    Ctrl,
    Alt,
    Super,
}

impl Modifier {
    /// The bit that stands for this modifier in a [`ModifierMask`].
    pub open spec fn bit_spec(self) -> u8 {
        match self {
            Modifier::Shift => 1,
            Modifier::Ctrl => 2,
            Modifier::Alt => 4,
            Modifier::Super => 8,
        }
    }

    /// The bit that stands for this modifier in a [`ModifierMask`].
    #[verifier::when_used_as_spec(bit_spec)]
    pub fn bit(self) -> (r: u8)
        ensures
            r == self.bit_spec(),
    {
        match self {
            Modifier::Shift => 1,
            Modifier::Ctrl => 2,
            Modifier::Alt => 4,
            Modifier::Super => 8,
        }
    }
}

/// The mask of a list of modifiers: the bit of each modifier that occurs in
/// the list, and no other bit. Order and repetition do not matter.
pub open spec fn mask_of(mods: Seq<Modifier>) -> u8 {
    (if mods.contains(Modifier::Shift) { 1u8 } else { 0u8 })
        | (if mods.contains(Modifier::Ctrl) { 2u8 } else { 0u8 })
        | (if mods.contains(Modifier::Alt) { 4u8 } else { 0u8 })
        | (if mods.contains(Modifier::Super) { 8u8 } else { 0u8 })
}

/// A set of modifier keys, one bit each.
#[derive(Clone, Copy, Debug, PartialEq, Eq, Structural)]
pub struct ModifierMask(pub u8);

impl ModifierMask {
    /// Whether the bit of `modifier` is set.
    pub open spec fn has(self, modifier: Modifier) -> bool {
        self.0 & modifier.bit() != 0
    }

    /// Whether the bit of `modifier` is set.
    pub fn contains(self, modifier: Modifier) -> (r: bool)
        ensures
            r == self.has(modifier),
    {
        self.0 & modifier.bit() != 0
    }
}

impl From<Vec<Modifier>> for ModifierMask {
    fn from(mods: Vec<Modifier>) -> (r: Self) {
        let mut mask: u8 = 0;
        let mut i: usize = 0;
        proof {
            assert(mask_of(mods@.take(0)) == 0) by {
                assert(0u8 | 0u8 | 0u8 | 0u8 == 0u8) by (bit_vector);
            }
        }
        while i < mods.len()
            invariant
                i <= mods.len(),
                mask == mask_of(mods@.take(i as int)),
            decreases mods.len() - i,
        {
            let m = mods[i];
            proof {
                let before = mods@.take(i as int);
                let after = mods@.take(i + 1);
                assert(after =~= before.push(m));
                assert forall|x: Modifier| after.contains(x) == (before.contains(x) || x == m) by {
                    if before.contains(x) {
                        let j = choose|j: int| 0 <= j < before.len() && before[j] == x;
                        assert(after[j] == x);
                    }
                    if x == m {
                        assert(after[i as int] == x);
                    }
                    if after.contains(x) {
                        let j = choose|j: int| 0 <= j < after.len() && after[j] == x;
                        if j < i {
                            assert(before[j] == x);
                        }
                    }
                }
                lemma_mask_absorbs(
                    if before.contains(Modifier::Shift) { 1u8 } else { 0u8 },
                    if before.contains(Modifier::Ctrl) { 2u8 } else { 0u8 },
                    if before.contains(Modifier::Alt) { 4u8 } else { 0u8 },
                    if before.contains(Modifier::Super) { 8u8 } else { 0u8 },
                );
            }
            mask = mask | m.bit();
            i = i + 1;
        }
        proof {
            assert(mods@.take(mods.len() as int) =~= mods@);
        }
        ModifierMask(mask)
    }
}

impl FromSpecImpl<Vec<Modifier>> for ModifierMask {
    open spec fn obeys_from_spec() -> bool {
        true
    }

    open spec fn from_spec(mods: Vec<Modifier>) -> Self {
        ModifierMask(mask_of(mods@))
    }
}

/// The code point of a character, with that of an ASCII capital letter taken
/// for that of its lower-case form.
pub open spec fn fold_case(c: char) -> u32 {
    if 'A' <= c && c <= 'Z' {
        (c as u32 + 32) as u32
    } else {
        c as u32
    }
}

/// Whether two strings are the same but for the case of their ASCII letters.
pub open spec fn same_ignoring_case(a: Seq<char>, b: Seq<char>) -> bool {
    &&& a.len() == b.len()
    &&& forall|i: int| 0 <= i < a.len() ==> fold_case(#[trigger] a[i]) == fold_case(b[i])
}

/// The code point of `c`, folded as [`fold_case`] says.
pub fn folded(c: char) -> (r: u32)
    ensures
        r == fold_case(c),
{
    if 'A' <= c && c <= 'Z' {
        c as u32 + 32
    } else {
        c as u32
    }
}

/// Tells whether two strings are the same.
pub fn eq_str(a: &str, b: &str) -> (r: bool)
    ensures
        r == (a@ == b@),
{
    let len = b.unicode_len();
    if a.unicode_len() != len {
        return false;
    }
    let mut i: usize = 0;
    for c in it: a.chars()
        invariant
            it.seq() == a@,
            i == it.index(),
            len == b@.len(),
            len == a@.len(),
            forall|j: int| 0 <= j < i ==> a@[j] == b@[j],
    {
        if c != b.get_char(i) {
            return false;
        }
        i = i + 1;
    }
    proof {
        assert(a@ =~= b@);
    }
    true
}

/// Tells whether two strings are the same but for the case of their ASCII
/// letters.
pub fn eq_ignore_case(a: &str, b: &str) -> (r: bool)
    ensures
        r == same_ignoring_case(a@, b@),
{
    let len = b.unicode_len();
    if a.unicode_len() != len {
        return false;
    }
    let mut i: usize = 0;
    for c in it: a.chars()
        invariant
            it.seq() == a@,
            i == it.index(),
            len == b@.len(),
            len == a@.len(),
            forall|j: int| 0 <= j < i ==> fold_case(#[trigger] a@[j]) == fold_case(b@[j]),
    {
        if folded(c) != folded(b.get_char(i)) {
            return false;
        }
        i = i + 1;
    }
    true
}

/// A key that a keybind of the configuration can name.
#[derive(Clone, Copy, Debug, PartialEq, Eq, Structural)]
pub enum Key {
    A,
    B,
    C,
    D,
    E,
    F,
    G,
    H,
    I,
    J,
    K,
    L,
    M,
    N,
    O,
    P,
    Q,
    R,
    S,
    T,
    U,
    V,
    W,
    X,
    Y,
    Z,
    Zero,
    One,
    Two,
    Three,
    Four,
    Five,
    Six,
    Seven,
    Eight,
    Nine,
    NumZero,
    NumOne,
    NumTwo,
    NumThree,
    NumFour,
    NumFive,
    NumSix,
    NumSeven,
    NumEight,
    NumNine,
    Escape,
}

/// Where a key stands among the keys of its kind.
pub enum KeyPlace {
    /// A letter, counted from `a` = 0.
    Letter(nat),
    /// A digit of the main block: its value.
    Digit(nat),
    /// A digit of the numeric keypad: its value.
    Keypad(nat),
    /// The escape key.
    Escape,
}

impl Key {
    /// The group of keys that this key belongs to, and its place in the group.
    pub open spec fn place(self) -> KeyPlace {
        match self {
            Key::A => KeyPlace::Letter(0),
            Key::B => KeyPlace::Letter(1),
            Key::C => KeyPlace::Letter(2),
            Key::D => KeyPlace::Letter(3),
            Key::E => KeyPlace::Letter(4),
            Key::F => KeyPlace::Letter(5),
            Key::G => KeyPlace::Letter(6),
            Key::H => KeyPlace::Letter(7),
            Key::I => KeyPlace::Letter(8),
            Key::J => KeyPlace::Letter(9),
            Key::K => KeyPlace::Letter(10),
            Key::L => KeyPlace::Letter(11),
            Key::M => KeyPlace::Letter(12),
            Key::N => KeyPlace::Letter(13),
            Key::O => KeyPlace::Letter(14),
            Key::P => KeyPlace::Letter(15),
            Key::Q => KeyPlace::Letter(16),
            Key::R => KeyPlace::Letter(17),
            Key::S => KeyPlace::Letter(18),
            Key::T => KeyPlace::Letter(19),
            Key::U => KeyPlace::Letter(20),
            Key::V => KeyPlace::Letter(21),
            Key::W => KeyPlace::Letter(22),
            Key::X => KeyPlace::Letter(23),
            Key::Y => KeyPlace::Letter(24),
            Key::Z => KeyPlace::Letter(25),
            Key::Zero => KeyPlace::Digit(0),
            Key::One => KeyPlace::Digit(1),
            Key::Two => KeyPlace::Digit(2),
            Key::Three => KeyPlace::Digit(3),
            Key::Four => KeyPlace::Digit(4),
            Key::Five => KeyPlace::Digit(5),
            Key::Six => KeyPlace::Digit(6),
            Key::Seven => KeyPlace::Digit(7),
            Key::Eight => KeyPlace::Digit(8),
            Key::Nine => KeyPlace::Digit(9),
            Key::NumZero => KeyPlace::Keypad(0),
            Key::NumOne => KeyPlace::Keypad(1),
            Key::NumTwo => KeyPlace::Keypad(2),
            Key::NumThree => KeyPlace::Keypad(3),
            Key::NumFour => KeyPlace::Keypad(4),
            Key::NumFive => KeyPlace::Keypad(5),
            Key::NumSix => KeyPlace::Keypad(6),
            Key::NumSeven => KeyPlace::Keypad(7),
            Key::NumEight => KeyPlace::Keypad(8),
            Key::NumNine => KeyPlace::Keypad(9),
            Key::Escape => KeyPlace::Escape,
        }
    }

    /// The key that a name stands for. Each key has a name: the letters `a` to
    /// `z`, the digits `zero` to `nine`, the keypad digits `num_zero` to
    /// `num_nine`, and `escape`; these are written in lower case. The digits
    /// have the aliases `0` to `9`, the keypad digits `num0` to `num9`, and
    /// escape has `esc`; in an alias the case of a letter does not matter.
    pub open spec fn named(name: Seq<char>) -> Option<Key> {
        if name == "a"@ {
            Some(Key::A)
        }         else if name == "b"@ {
            Some(Key::B)
        }         else if name == "c"@ {
            Some(Key::C)
        }         else if name == "d"@ {
            Some(Key::D)
        }         else if name == "e"@ {
            Some(Key::E)
        }         else if name == "f"@ {
            Some(Key::F)
        }         else if name == "g"@ {
            Some(Key::G)
        }         else if name == "h"@ {
            Some(Key::H)
        }         else if name == "i"@ {
            Some(Key::I)
        }         else if name == "j"@ {
            Some(Key::J)
        }         else if name == "k"@ {
            Some(Key::K)
        }         else if name == "l"@ {
            Some(Key::L)
        }         else if name == "m"@ {
            Some(Key::M)
        }         else if name == "n"@ {
            Some(Key::N)
        }         else if name == "o"@ {
            Some(Key::O)
        }         else if name == "p"@ {
            Some(Key::P)
        }         else if name == "q"@ {
            Some(Key::Q)
        }         else if name == "r"@ {
            Some(Key::R)
        }         else if name == "s"@ {
            Some(Key::S)
        }         else if name == "t"@ {
            Some(Key::T)
        }         else if name == "u"@ {
            Some(Key::U)
        }         else if name == "v"@ {
            Some(Key::V)
        }         else if name == "w"@ {
            Some(Key::W)
        }         else if name == "x"@ {
            Some(Key::X)
        }         else if name == "y"@ {
            Some(Key::Y)
        }         else if name == "z"@ {
            Some(Key::Z)
        }         else if name == "zero"@ {
            Some(Key::Zero)
        }         else if name == "one"@ {
            Some(Key::One)
        }         else if name == "two"@ {
            Some(Key::Two)
        }         else if name == "three"@ {
            Some(Key::Three)
        }         else if name == "four"@ {
            Some(Key::Four)
        }         else if name == "five"@ {
            Some(Key::Five)
        }         else if name == "six"@ {
            Some(Key::Six)
        }         else if name == "seven"@ {
            Some(Key::Seven)
        }         else if name == "eight"@ {
            Some(Key::Eight)
        }         else if name == "nine"@ {
            Some(Key::Nine)
        }         else if name == "num_zero"@ {
            Some(Key::NumZero)
        }         else if name == "num_one"@ {
            Some(Key::NumOne)
        }         else if name == "num_two"@ {
            Some(Key::NumTwo)
        }         else if name == "num_three"@ {
            Some(Key::NumThree)
        }         else if name == "num_four"@ {
            Some(Key::NumFour)
        }         else if name == "num_five"@ {
            Some(Key::NumFive)
        }         else if name == "num_six"@ {
            Some(Key::NumSix)
        }         else if name == "num_seven"@ {
            Some(Key::NumSeven)
        }         else if name == "num_eight"@ {
            Some(Key::NumEight)
        }         else if name == "num_nine"@ {
            Some(Key::NumNine)
        }         else if name == "escape"@ {
            Some(Key::Escape)
        } else if same_ignoring_case(name, "0"@) {
            Some(Key::Zero)
        } else if same_ignoring_case(name, "1"@) {
            Some(Key::One)
        } else if same_ignoring_case(name, "2"@) {
            Some(Key::Two)
        } else if same_ignoring_case(name, "3"@) {
            Some(Key::Three)
        } else if same_ignoring_case(name, "4"@) {
            Some(Key::Four)
        } else if same_ignoring_case(name, "5"@) {
            Some(Key::Five)
        } else if same_ignoring_case(name, "6"@) {
            Some(Key::Six)
        } else if same_ignoring_case(name, "7"@) {
            Some(Key::Seven)
        } else if same_ignoring_case(name, "8"@) {
            Some(Key::Eight)
        } else if same_ignoring_case(name, "9"@) {
            Some(Key::Nine)
        } else if same_ignoring_case(name, "num0"@) {
            Some(Key::NumZero)
        } else if same_ignoring_case(name, "num1"@) {
            Some(Key::NumOne)
        } else if same_ignoring_case(name, "num2"@) {
            Some(Key::NumTwo)
        } else if same_ignoring_case(name, "num3"@) {
            Some(Key::NumThree)
        } else if same_ignoring_case(name, "num4"@) {
            Some(Key::NumFour)
        } else if same_ignoring_case(name, "num5"@) {
            Some(Key::NumFive)
        } else if same_ignoring_case(name, "num6"@) {
            Some(Key::NumSix)
        } else if same_ignoring_case(name, "num7"@) {
            Some(Key::NumSeven)
        } else if same_ignoring_case(name, "num8"@) {
            Some(Key::NumEight)
        } else if same_ignoring_case(name, "num9"@) {
            Some(Key::NumNine)
        } else if same_ignoring_case(name, "esc"@) {
            Some(Key::Escape)
        } else {
            None
        }
    }

    /// Reads the name of a key.
    pub fn from_name(name: &str) -> (r: Option<Key>)
        ensures
            r == Key::named(name@),
    {
        if eq_str(name, "a") {
            Some(Key::A)
        }         else if eq_str(name, "b") {
            Some(Key::B)
        }         else if eq_str(name, "c") {
            Some(Key::C)
        }         else if eq_str(name, "d") {
            Some(Key::D)
        }         else if eq_str(name, "e") {
            Some(Key::E)
        }         else if eq_str(name, "f") {
            Some(Key::F)
        }         else if eq_str(name, "g") {
            Some(Key::G)
        }         else if eq_str(name, "h") {
            Some(Key::H)
        }         else if eq_str(name, "i") {
            Some(Key::I)
        }         else if eq_str(name, "j") {
            Some(Key::J)
        }         else if eq_str(name, "k") {
            Some(Key::K)
        }         else if eq_str(name, "l") {
            Some(Key::L)
        }         else if eq_str(name, "m") {
            Some(Key::M)
        }         else if eq_str(name, "n") {
            Some(Key::N)
        }         else if eq_str(name, "o") {
            Some(Key::O)
        }         else if eq_str(name, "p") {
            Some(Key::P)
        }         else if eq_str(name, "q") {
            Some(Key::Q)
        }         else if eq_str(name, "r") {
            Some(Key::R)
        }         else if eq_str(name, "s") {
            Some(Key::S)
        }         else if eq_str(name, "t") {
            Some(Key::T)
        }         else if eq_str(name, "u") {
            Some(Key::U)
        }         else if eq_str(name, "v") {
            Some(Key::V)
        }         else if eq_str(name, "w") {
            Some(Key::W)
        }         else if eq_str(name, "x") {
            Some(Key::X)
        }         else if eq_str(name, "y") {
            Some(Key::Y)
        }         else if eq_str(name, "z") {
            Some(Key::Z)
        }         else if eq_str(name, "zero") {
            Some(Key::Zero)
        }         else if eq_str(name, "one") {
            Some(Key::One)
        }         else if eq_str(name, "two") {
            Some(Key::Two)
        }         else if eq_str(name, "three") {
            Some(Key::Three)
        }         else if eq_str(name, "four") {
            Some(Key::Four)
        }         else if eq_str(name, "five") {
            Some(Key::Five)
        }         else if eq_str(name, "six") {
            Some(Key::Six)
        }         else if eq_str(name, "seven") {
            Some(Key::Seven)
        }         else if eq_str(name, "eight") {
            Some(Key::Eight)
        }         else if eq_str(name, "nine") {
            Some(Key::Nine)
        }         else if eq_str(name, "num_zero") {
            Some(Key::NumZero)
        }         else if eq_str(name, "num_one") {
            Some(Key::NumOne)
        }         else if eq_str(name, "num_two") {
            Some(Key::NumTwo)
        }         else if eq_str(name, "num_three") {
            Some(Key::NumThree)
        }         else if eq_str(name, "num_four") {
            Some(Key::NumFour)
        }         else if eq_str(name, "num_five") {
            Some(Key::NumFive)
        }         else if eq_str(name, "num_six") {
            Some(Key::NumSix)
        }         else if eq_str(name, "num_seven") {
            Some(Key::NumSeven)
        }         else if eq_str(name, "num_eight") {
            Some(Key::NumEight)
        }         else if eq_str(name, "num_nine") {
            Some(Key::NumNine)
        }         else if eq_str(name, "escape") {
            Some(Key::Escape)
        } else if eq_ignore_case(name, "0") {
            Some(Key::Zero)
        } else if eq_ignore_case(name, "1") {
            Some(Key::One)
        } else if eq_ignore_case(name, "2") {
            Some(Key::Two)
        } else if eq_ignore_case(name, "3") {
            Some(Key::Three)
        } else if eq_ignore_case(name, "4") {
            Some(Key::Four)
        } else if eq_ignore_case(name, "5") {
            Some(Key::Five)
        } else if eq_ignore_case(name, "6") {
            Some(Key::Six)
        } else if eq_ignore_case(name, "7") {
            Some(Key::Seven)
        } else if eq_ignore_case(name, "8") {
            Some(Key::Eight)
        } else if eq_ignore_case(name, "9") {
            Some(Key::Nine)
        } else if eq_ignore_case(name, "num0") {
            Some(Key::NumZero)
        } else if eq_ignore_case(name, "num1") {
            Some(Key::NumOne)
        } else if eq_ignore_case(name, "num2") {
            Some(Key::NumTwo)
        } else if eq_ignore_case(name, "num3") {
            Some(Key::NumThree)
        } else if eq_ignore_case(name, "num4") {
            Some(Key::NumFour)
        } else if eq_ignore_case(name, "num5") {
            Some(Key::NumFive)
        } else if eq_ignore_case(name, "num6") {
            Some(Key::NumSix)
        } else if eq_ignore_case(name, "num7") {
            Some(Key::NumSeven)
        } else if eq_ignore_case(name, "num8") {
            Some(Key::NumEight)
        } else if eq_ignore_case(name, "num9") {
            Some(Key::NumNine)
        } else if eq_ignore_case(name, "esc") {
            Some(Key::Escape)
        } else {
            None
        }
    }

    /// The key's symbol code: the lower-case Latin letters from 0x61, the
    /// digits from 0x30, the keypad digits from 0xffb0, escape at 0xff1b.
    pub open spec fn keysym_spec(self) -> u32 {
        match self.place() {
            KeyPlace::Letter(n) => (0x61 + n) as u32,
            KeyPlace::Digit(n) => (0x30 + n) as u32,
            KeyPlace::Keypad(n) => (0xffb0 + n) as u32,
            KeyPlace::Escape => 0xff1b,
        }
    }

    /// The key's symbol code.
    #[verifier::when_used_as_spec(keysym_spec)]
    pub fn keysym(self) -> (r: u32)
        ensures
            r == self.keysym_spec(),
    {
        match self {
            Key::A => 0x0061,
            Key::B => 0x0062,
            Key::C => 0x0063,
            Key::D => 0x0064,
            Key::E => 0x0065,
            Key::F => 0x0066,
            Key::G => 0x0067,
            Key::H => 0x0068,
            Key::I => 0x0069,
            Key::J => 0x006a,
            Key::K => 0x006b,
            Key::L => 0x006c,
            Key::M => 0x006d,
            Key::N => 0x006e,
            Key::O => 0x006f,
            Key::P => 0x0070,
            Key::Q => 0x0071,
            Key::R => 0x0072,
            Key::S => 0x0073,
            Key::T => 0x0074,
            Key::U => 0x0075,
            Key::V => 0x0076,
            Key::W => 0x0077,
            Key::X => 0x0078,
            Key::Y => 0x0079,
            Key::Z => 0x007a,
            Key::Zero => 0x0030,
            Key::One => 0x0031,
            Key::Two => 0x0032,
            Key::Three => 0x0033,
            Key::Four => 0x0034,
            Key::Five => 0x0035,
            Key::Six => 0x0036,
            Key::Seven => 0x0037,
            Key::Eight => 0x0038,
            Key::Nine => 0x0039,
            Key::NumZero => 0xffb0,
            Key::NumOne => 0xffb1,
            Key::NumTwo => 0xffb2,
            Key::NumThree => 0xffb3,
            Key::NumFour => 0xffb4,
            Key::NumFive => 0xffb5,
            Key::NumSix => 0xffb6,
            Key::NumSeven => 0xffb7,
            Key::NumEight => 0xffb8,
            Key::NumNine => 0xffb9,
            Key::Escape => 0xff1b,
        }
    }
}

/// A keybind as the configuration declares it: modifiers by name, and a key.
#[derive(Debug)]
pub struct Keybind {
    pub modifiers: Vec<Modifier>,
    pub key: Key,
}

impl Keybind {
    /// The mask and the symbol code that an input event must carry, both
    /// exactly, to be this keybind.
    pub open spec fn binding_spec(&self) -> (ModifierMask, u32) {
        (ModifierMask(mask_of(self.modifiers@)), self.key.keysym())
    }

    /// The mask and the symbol code that an input event must carry, both
    /// exactly, to be this keybind.
    pub fn binding(self) -> (r: (ModifierMask, u32))
        ensures
            r == self.binding_spec(),
    {
        let key = self.key.keysym();
        (ModifierMask::from(self.modifiers), key)
    }
}

/// Setting a bit in a mask of four independent bits replaces that bit's part
/// and leaves the other three as they were.
proof fn lemma_mask_absorbs(s: u8, c: u8, a: u8, u: u8)
    requires
        s == 0 || s == 1,
        c == 0 || c == 2,
        a == 0 || a == 4,
        u == 0 || u == 8,
    ensures
        (s | c | a | u) | 1 == 1u8 | c | a | u,
        (s | c | a | u) | 2 == s | 2u8 | a | u,
        (s | c | a | u) | 4 == s | c | 4u8 | u,
        (s | c | a | u) | 8 == s | c | a | 8u8,
{
    assert((s == 0 || s == 1) ==> (s | c | a | u) | 1 == 1u8 | c | a | u) by (bit_vector);
    assert((c == 0 || c == 2) ==> (s | c | a | u) | 2 == s | 2u8 | a | u) by (bit_vector);
    assert((a == 0 || a == 4) ==> (s | c | a | u) | 4 == s | c | 4u8 | u) by (bit_vector);
    assert((u == 0 || u == 8) ==> (s | c | a | u) | 8 == s | c | a | 8u8) by (bit_vector);
}

/// The mask of a list has the bit of a modifier exactly when the modifier
/// occurs in the list.
pub proof fn lemma_mask_of_has(mods: Seq<Modifier>, modifier: Modifier)
    ensures
        ModifierMask(mask_of(mods)).has(modifier) <==> mods.contains(modifier),
        mask_of(mods) < 16,
{
    let s = if mods.contains(Modifier::Shift) { 1u8 } else { 0u8 };
    let c = if mods.contains(Modifier::Ctrl) { 2u8 } else { 0u8 };
    let a = if mods.contains(Modifier::Alt) { 4u8 } else { 0u8 };
    let u = if mods.contains(Modifier::Super) { 8u8 } else { 0u8 };
    assert((s == 0 || s == 1) && (c == 0 || c == 2) && (a == 0 || a == 4) && (u == 0 || u == 8)
        ==> ((s | c | a | u) & 1 == s) && ((s | c | a | u) & 2 == c) && ((s | c | a | u) & 4 == a)
        && ((s | c | a | u) & 8 == u) && (s | c | a | u) < 16) by (bit_vector);
}

} // verus!
