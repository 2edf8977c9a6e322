use vstd::prelude::*;

verus! {

/// What a touch point did relative to an on-screen control.
#[derive(Debug, Clone, Copy, PartialEq, Eq, Structural)]
pub enum TouchEvent {
    TouchEnter,
    TouchLeave,
}

/// A key of the keyboard that the shared surface reacts to.
#[derive(Debug, Clone, Copy, PartialEq, Eq, Hash, Structural)]
pub enum Key {
    UpArrow,
    DownArrow,
    LeftArrow,
    RightArrow,
    Space,
    A,
    B,
    C,
    D,
    E,
    F,
    G,
    H,
    I,
    J,
    K,
    L,
    M,
    N,
    O,
    P,
    Q,
    R,
    S,
    T,
    U,
    V,
    W,
    X,
    Y,
    Z,
    CtrlLeft,
    CtrlRight,
}

/// The label shown for a key.
pub open spec fn symbol_of(k: Key) -> Seq<char> {
    match k {
        Key::UpArrow => seq!['\u{2b06}', '\u{fe0f}'],
        Key::DownArrow => seq!['\u{2b07}', '\u{fe0f}'],
        Key::LeftArrow => seq!['\u{2b05}', '\u{fe0f}'],
        Key::RightArrow => seq!['\u{27a1}', '\u{fe0f}'],
        Key::Space => Seq::empty(),
        Key::A => seq!['A'],
        Key::B => seq!['B'],
        Key::C => seq!['C'],
        Key::D => seq!['D'],
        Key::E => seq!['E'],
        Key::F => seq!['F'],
        Key::G => seq!['G'],
        Key::H => seq!['H'],
        Key::I => seq!['I'],
        Key::J => seq!['J'],
        Key::K => seq!['K'],
        Key::L => seq!['L'],
        Key::M => seq!['M'],
        Key::N => seq!['N'],
        Key::O => seq!['O'],
        Key::P => seq!['P'],
        Key::Q => seq!['Q'],
        Key::R => seq!['R'],
        Key::S => seq!['S'],
        Key::T => seq!['T'],
        Key::U => seq!['U'],
        Key::V => seq!['V'],
        Key::W => seq!['W'],
        Key::X => seq!['X'],
        Key::Y => seq!['Y'],
        Key::Z => seq!['Z'],
        Key::CtrlLeft => seq!['C', 't', 'r', 'l'],
        Key::CtrlRight => seq!['C', 't', 'r', 'l'],
    }
}

/// The key named by an upper-case letter.
pub open spec fn letter_key(c: char) -> Option<Key> {
    match c {
        'A' => Some(Key::A),
        'B' => Some(Key::B),
        'C' => Some(Key::C),
        'D' => Some(Key::D),
        'E' => Some(Key::E),
        'F' => Some(Key::F),
        'G' => Some(Key::G),
        'H' => Some(Key::H),
        'I' => Some(Key::I),
        'J' => Some(Key::J),
        'K' => Some(Key::K),
        'L' => Some(Key::L),
        'M' => Some(Key::M),
        'N' => Some(Key::N),
        'O' => Some(Key::O),
        'P' => Some(Key::P),
        'Q' => Some(Key::Q),
        'R' => Some(Key::R),
        'S' => Some(Key::S),
        'T' => Some(Key::T),
        'U' => Some(Key::U),
        'V' => Some(Key::V),
        'W' => Some(Key::W),
        'X' => Some(Key::X),
        'Y' => Some(Key::Y),
        'Z' => Some(Key::Z),
        _ => None,
    }
}

/// The key that a keyboard event's physical key code stands for, if any.
pub open spec fn key_of_code(c: Seq<char>) -> Option<Key> {
    if c.len() == 4 && c[0] == 'K' && c[1] == 'e' && c[2] == 'y' {
        letter_key(c[3])
    } else if c == seq!['C', 'o', 'n', 't', 'r', 'o', 'l', 'L', 'e', 'f', 't'] {
        Some(Key::CtrlLeft)
    } else if c == seq!['C', 'o', 'n', 't', 'r', 'o', 'l', 'R', 'i', 'g', 'h', 't'] {
        Some(Key::CtrlRight)
    } else if c == seq!['S', 'P', 'a', 'c', 'e'] {
        Some(Key::Space)
    } else if c == seq!['A', 'r', 'r', 'o', 'w', 'U', 'p'] {
        Some(Key::UpArrow)
    } else if c == seq!['A', 'r', 'r', 'o', 'w', 'D', 'o', 'w', 'n'] {
        Some(Key::DownArrow)
    } else if c == seq!['A', 'r', 'r', 'o', 'w', 'L', 'e', 'f', 't'] {
        Some(Key::LeftArrow)
    } else if c == seq!['A', 'r', 'r', 'o', 'w', 'R', 'i', 'g', 'h', 't'] {
        Some(Key::RightArrow)
    } else {
        None
    }
}

/// Whether `s` holds exactly the characters of `t`.
fn same_text(s: &str, t: &str) -> (r: bool)
    ensures
        r == (s@ == t@),
{
    let n = s.unicode_len();
    if n != t.unicode_len() {
        return false;
    }
    let mut i: usize = 0;
    while i < n
        invariant
            n == s@.len(),
            n == t@.len(),
            i <= n,
            s@.subrange(0, i as int) == t@.subrange(0, i as int),
        decreases n - i,
    {
        if s.get_char(i) != t.get_char(i) {
            return false;
        }
        assert(s@.subrange(0, i + 1) =~= s@.subrange(0, i as int).push(s@[i as int]));
        assert(t@.subrange(0, i + 1) =~= t@.subrange(0, i as int).push(t@[i as int]));
        i = i + 1;
    }
    assert(s@ =~= s@.subrange(0, n as int));
    assert(t@ =~= t@.subrange(0, n as int));
    true
}

fn letter(c: char) -> (r: Option<Key>)
    ensures
        r == letter_key(c),
{
    match c {
        'A' => Some(Key::A),
        'B' => Some(Key::B),
        'C' => Some(Key::C),
        'D' => Some(Key::D),
        'E' => Some(Key::E),
        'F' => Some(Key::F),
        'G' => Some(Key::G),
        'H' => Some(Key::H),
        'I' => Some(Key::I),
        'J' => Some(Key::J),
        'K' => Some(Key::K),
        'L' => Some(Key::L),
        'M' => Some(Key::M),
        'N' => Some(Key::N),
        'O' => Some(Key::O),
        'P' => Some(Key::P),
        'Q' => Some(Key::Q),
        'R' => Some(Key::R),
        'S' => Some(Key::S),
        'T' => Some(Key::T),
        'U' => Some(Key::U),
        'V' => Some(Key::V),
        'W' => Some(Key::W),
        'X' => Some(Key::X),
        'Y' => Some(Key::Y),
        'Z' => Some(Key::Z),
        _ => None,
    }
}

impl Key {
    /// The key for a keyboard event's physical key code (`"KeyA"`, `"ArrowUp"`,
    /// `"ControlLeft"`, ...); `None` for a code that no key stands for.
    pub fn from_code(code: &str) -> (r: Option<Key>)
        ensures
            r == key_of_code(code@),
    {
        let n = code.unicode_len();
        if n == 4 && code.get_char(0) == 'K' && code.get_char(1) == 'e' && code.get_char(2) == 'y' {
            return letter(code.get_char(3));
        }
        proof {
            reveal_strlit("ControlLeft");
            reveal_strlit("ControlRight");
            reveal_strlit("SPace");
            reveal_strlit("ArrowUp");
            reveal_strlit("ArrowDown");
            reveal_strlit("ArrowLeft");
            reveal_strlit("ArrowRight");
        }
        assert("ControlLeft"@ =~= seq!['C', 'o', 'n', 't', 'r', 'o', 'l', 'L', 'e', 'f', 't']);
        assert("ControlRight"@ =~= seq!['C', 'o', 'n', 't', 'r', 'o', 'l', 'R', 'i', 'g', 'h', 't']);
        assert("SPace"@ =~= seq!['S', 'P', 'a', 'c', 'e']);
        assert("ArrowUp"@ =~= seq!['A', 'r', 'r', 'o', 'w', 'U', 'p']);
        assert("ArrowDown"@ =~= seq!['A', 'r', 'r', 'o', 'w', 'D', 'o', 'w', 'n']);
        assert("ArrowLeft"@ =~= seq!['A', 'r', 'r', 'o', 'w', 'L', 'e', 'f', 't']);
        assert("ArrowRight"@ =~= seq!['A', 'r', 'r', 'o', 'w', 'R', 'i', 'g', 'h', 't']);
        assert(!(code@.len() == 4 && code@[0] == 'K' && code@[1] == 'e' && code@[2] == 'y'));
        if same_text(code, "ControlLeft") {
            Some(Key::CtrlLeft)
        } else if same_text(code, "ControlRight") {
            Some(Key::CtrlRight)
        } else if same_text(code, "SPace") {
            Some(Key::Space)
        } else if same_text(code, "ArrowUp") {
            Some(Key::UpArrow)
        } else if same_text(code, "ArrowDown") {
            Some(Key::DownArrow)
        } else if same_text(code, "ArrowLeft") {
            Some(Key::LeftArrow)
        } else if same_text(code, "ArrowRight") {
            Some(Key::RightArrow)
        } else {
            None
        }
    }

    /// The label shown for this key on an on-screen button.
    pub fn get_symbol(&self) -> (r: String)
        ensures
            r@ == symbol_of(*self),
    {
        match self {
            Key::UpArrow => {
                proof { reveal_strlit("\u{2b06}\u{fe0f}"); }
                String::from_str("\u{2b06}\u{fe0f}")
            },
            Key::DownArrow => {
                proof { reveal_strlit("\u{2b07}\u{fe0f}"); }
                String::from_str("\u{2b07}\u{fe0f}")
            },
            Key::LeftArrow => {
                proof { reveal_strlit("\u{2b05}\u{fe0f}"); }
                String::from_str("\u{2b05}\u{fe0f}")
            },
            Key::RightArrow => {
                proof { reveal_strlit("\u{27a1}\u{fe0f}"); }
                String::from_str("\u{27a1}\u{fe0f}")
            },
            Key::Space => String::new(),
            Key::A => {
                proof { reveal_strlit("A"); }
                String::from_str("A")
            },
            Key::B => {
                proof { reveal_strlit("B"); }
                String::from_str("B")
            },
            Key::C => {
                proof { reveal_strlit("C"); }
                String::from_str("C")
            },
            Key::D => {
                proof { reveal_strlit("D"); }
                String::from_str("D")
            },
            Key::E => {
                proof { reveal_strlit("E"); }
                String::from_str("E")
            },
            Key::F => {
                proof { reveal_strlit("F"); }
                String::from_str("F")
            },
            Key::G => {
                proof { reveal_strlit("G"); }
                String::from_str("G")
            },
            Key::H => {
                proof { reveal_strlit("H"); }
                String::from_str("H")
            },
            Key::I => {
                proof { reveal_strlit("I"); }
                String::from_str("I")
            },
            Key::J => {
                proof { reveal_strlit("J"); }
                String::from_str("J")
            },
            Key::K => {
                proof { reveal_strlit("K"); }
                String::from_str("K")
            },
            Key::L => {
                proof { reveal_strlit("L"); }
                String::from_str("L")
            },
            Key::M => {
                proof { reveal_strlit("M"); }
                String::from_str("M")
            },
            Key::N => {
                proof { reveal_strlit("N"); }
                String::from_str("N")
            },
            Key::O => {
                proof { reveal_strlit("O"); }
                String::from_str("O")
            },
            Key::P => {
                proof { reveal_strlit("P"); }
                String::from_str("P")
            },
            Key::Q => {
                proof { reveal_strlit("Q"); }
                String::from_str("Q")
            },
            Key::R => {
                proof { reveal_strlit("R"); }
                String::from_str("R")
            },
            Key::S => {
                proof { reveal_strlit("S"); }
                String::from_str("S")
            },
            Key::T => {
                proof { reveal_strlit("T"); }
                String::from_str("T")
            },
            Key::U => {
                proof { reveal_strlit("U"); }
                String::from_str("U")
            },
            Key::V => {
                proof { reveal_strlit("V"); }
                String::from_str("V")
            },
            Key::W => {
                proof { reveal_strlit("W"); }
                String::from_str("W")
            },
            Key::X => {
                proof { reveal_strlit("X"); }
                String::from_str("X")
            },
            Key::Y => {
                proof { reveal_strlit("Y"); }
                String::from_str("Y")
            },
            Key::Z => {
                proof { reveal_strlit("Z"); }
                String::from_str("Z")
            },
            Key::CtrlLeft | Key::CtrlRight => {
                proof { reveal_strlit("Ctrl"); }
                String::from_str("Ctrl")
            },
        }
    }
}

} // verus!
