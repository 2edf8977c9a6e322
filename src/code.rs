use vstd::prelude::*;

verus! {

/// How many distinct room codes there are: four symbols out of 36.
pub const CODE_SPACE: u32 = 1679616;

/// What `str::to_lowercase` makes of a text.
pub uninterp spec fn lower_of(s: Seq<char>) -> Seq<char>;

/// Relies on str::to_lowercase: the lower-case form of the text, which depends
/// on the text alone.
#[verifier::external_body]
fn lowercase(s: &str) -> (r: String)
    ensures
        r@ == lower_of(s@),
{
    s.to_lowercase()
}

/// The value of one symbol of a lower-cased room code.
pub open spec fn digit_of(c: char) -> Option<int> {
    match c {
        '0' => Some(0),
        '1' => Some(1),
        '2' => Some(2),
        '3' => Some(3),
        '4' => Some(4),
        '5' => Some(5),
        '6' => Some(6),
        '7' => Some(7),
        '8' => Some(8),
        '9' => Some(9),
        'a' => Some(10),
        'b' => Some(11),
        'c' => Some(12),
        'd' => Some(13),
        'e' => Some(14),
        'f' => Some(15),
        'g' => Some(16),
        'h' => Some(17),
        'i' => Some(18),
        'j' => Some(19),
        'k' => Some(20),
        'l' => Some(21),
        'm' => Some(22),
        'n' => Some(23),
        'o' => Some(24),
        'p' => Some(25),
        'q' => Some(26),
        'r' => Some(27),
        's' => Some(28),
        't' => Some(29),
        'u' => Some(30),
        'v' => Some(31),
        'w' => Some(32),
        'x' => Some(33),
        'y' => Some(34),
        'z' => Some(35),
        _ => None,
    }
}

/// The value of one symbol of a room code as it is written.
spec fn written_digit_of(c: char) -> Option<int> {
    match c {
        '0' => Some(0),
        '1' => Some(1),
        '2' => Some(2),
        '3' => Some(3),
        '4' => Some(4),
        '5' => Some(5),
        '6' => Some(6),
        '7' => Some(7),
        '8' => Some(8),
        '9' => Some(9),
        'A' => Some(10),
        'B' => Some(11),
        'C' => Some(12),
        'D' => Some(13),
        'E' => Some(14),
        'F' => Some(15),
        'G' => Some(16),
        'H' => Some(17),
        'I' => Some(18),
        'J' => Some(19),
        'K' => Some(20),
        'L' => Some(21),
        'M' => Some(22),
        'N' => Some(23),
        'O' => Some(24),
        'P' => Some(25),
        'Q' => Some(26),
        'R' => Some(27),
        'S' => Some(28),
        'T' => Some(29),
        'U' => Some(30),
        'V' => Some(31),
        'W' => Some(32),
        'X' => Some(33),
        'Y' => Some(34),
        'Z' => Some(35),
        _ => None,
    }
}

/// The symbol written for a value below 36.
pub open spec fn code_symbol(d: int) -> char {
    if d == 0 {
        '0'
    } else if d == 1 {
        '1'
    } else if d == 2 {
        '2'
    } else if d == 3 {
        '3'
    } else if d == 4 {
        '4'
    } else if d == 5 {
        '5'
    } else if d == 6 {
        '6'
    } else if d == 7 {
        '7'
    } else if d == 8 {
        '8'
    } else if d == 9 {
        '9'
    } else if d == 10 {
        'A'
    } else if d == 11 {
        'B'
    } else if d == 12 {
        'C'
    } else if d == 13 {
        'D'
    } else if d == 14 {
        'E'
    } else if d == 15 {
        'F'
    } else if d == 16 {
        'G'
    } else if d == 17 {
        'H'
    } else if d == 18 {
        'I'
    } else if d == 19 {
        'J'
    } else if d == 20 {
        'K'
    } else if d == 21 {
        'L'
    } else if d == 22 {
        'M'
    } else if d == 23 {
        'N'
    } else if d == 24 {
        'O'
    } else if d == 25 {
        'P'
    } else if d == 26 {
        'Q'
    } else if d == 27 {
        'R'
    } else if d == 28 {
        'S'
    } else if d == 29 {
        'T'
    } else if d == 30 {
        'U'
    } else if d == 31 {
        'V'
    } else if d == 32 {
        'W'
    } else if d == 33 {
        'X'
    } else if d == 34 {
        'Y'
    } else {
        'Z'
    }
}

/// The room code that a lower-cased text names, if it names one: exactly four
/// symbols, most significant first.
pub open spec fn parse_code(s: Seq<char>) -> Option<u32> {
    if s.len() == 4 && digit_of(s[0]) is Some && digit_of(s[1]) is Some && digit_of(s[2]) is Some
        && digit_of(s[3]) is Some {
        Some(
            (digit_of(s[0])->0 * 46656 + digit_of(s[1])->0 * 1296 + digit_of(s[2])->0 * 36
                + digit_of(s[3])->0) as u32,
        )
    } else {
        None
    }
}

/// The room code that a text names, read without regard to case.
pub open spec fn code_named(s: Seq<char>) -> Option<u32> {
    parse_code(lower_of(s))
}

spec fn read_written(s: Seq<char>) -> Option<u32> {
    if s.len() == 4 && written_digit_of(s[0]) is Some && written_digit_of(s[1]) is Some
        && written_digit_of(s[2]) is Some && written_digit_of(s[3]) is Some {
        Some(
            (written_digit_of(s[0])->0 * 46656 + written_digit_of(s[1])->0 * 1296
                + written_digit_of(s[2])->0 * 36 + written_digit_of(s[3])->0) as u32,
        )
    } else {
        None
    }
}

/// How a room code is written: four upper-case symbols.
pub open spec fn code_text(c: u32) -> Seq<char> {
    seq![
        code_symbol((c / 46656) as int % 36),
        code_symbol((c / 1296) as int % 36),
        code_symbol((c / 36) as int % 36),
        code_symbol(c as int % 36),
    ]
}

proof fn lemma_symbol_digit(d: int)
    requires
        0 <= d < 36,
    ensures
        written_digit_of(code_symbol(d)) == Some(d),
{
}

proof fn lemma_written_round_trip(c: u32)
    requires
        c < CODE_SPACE,
    ensures
        read_written(code_text(c)) == Some(c),
{
    lemma_symbol_digit((c / 46656) as int % 36);
    lemma_symbol_digit((c / 1296) as int % 36);
    lemma_symbol_digit((c / 36) as int % 36);
    lemma_symbol_digit(c as int % 36);
}

/// Distinct room codes are written differently.
pub proof fn lemma_code_text_injective(c1: u32, c2: u32)
    requires
        c1 < CODE_SPACE,
        c2 < CODE_SPACE,
        c1 != c2,
    ensures
        code_text(c1) != code_text(c2),
{
    lemma_written_round_trip(c1);
    lemma_written_round_trip(c2);
}

fn digit_value(c: char) -> (r: Option<u32>)
    ensures
        r matches Some(v) ==> digit_of(c) == Some(v as int),
        r is None ==> digit_of(c) is None,
{
    match c {
        '0' => Some(0),
        '1' => Some(1),
        '2' => Some(2),
        '3' => Some(3),
        '4' => Some(4),
        '5' => Some(5),
        '6' => Some(6),
        '7' => Some(7),
        '8' => Some(8),
        '9' => Some(9),
        'a' => Some(10),
        'b' => Some(11),
        'c' => Some(12),
        'd' => Some(13),
        'e' => Some(14),
        'f' => Some(15),
        'g' => Some(16),
        'h' => Some(17),
        'i' => Some(18),
        'j' => Some(19),
        'k' => Some(20),
        'l' => Some(21),
        'm' => Some(22),
        'n' => Some(23),
        'o' => Some(24),
        'p' => Some(25),
        'q' => Some(26),
        'r' => Some(27),
        's' => Some(28),
        't' => Some(29),
        'u' => Some(30),
        'v' => Some(31),
        'w' => Some(32),
        'x' => Some(33),
        'y' => Some(34),
        'z' => Some(35),
        _ => None,
    }
}

/// Reads a room code from a lower-cased text.
pub fn parse_code_text(s: &str) -> (r: Option<u32>)
    ensures
        r == parse_code(s@),
{
    if s.unicode_len() != 4 {
        return None;
    }
    let d0 = digit_value(s.get_char(0));
    let d1 = digit_value(s.get_char(1));
    let d2 = digit_value(s.get_char(2));
    let d3 = digit_value(s.get_char(3));
    match (d0, d1, d2, d3) {
        (Some(a), Some(b), Some(c), Some(d)) => Some(a * 46656 + b * 1296 + c * 36 + d),
        _ => None,
    }
}

/// Reads a room code from its text, in either case: the text is lower-cased,
/// then read.
pub fn code_from_text(s: &str) -> (r: Option<u32>)
    ensures
        r == code_named(s@),
{
    let lowered = lowercase(s);
    parse_code_text(lowered.as_str())
}

fn symbol_text(d: u32) -> (r: &'static str)
    requires
        d < 36,
    ensures
        r@ == seq![code_symbol(d as int)],
{
    match d {
        0 => {
            proof { reveal_strlit("0"); }
            "0"
        },
        1 => {
            proof { reveal_strlit("1"); }
            "1"
        },
        2 => {
            proof { reveal_strlit("2"); }
            "2"
        },
        3 => {
            proof { reveal_strlit("3"); }
            "3"
        },
        4 => {
            proof { reveal_strlit("4"); }
            "4"
        },
        5 => {
            proof { reveal_strlit("5"); }
            "5"
        },
        6 => {
            proof { reveal_strlit("6"); }
            "6"
        },
        7 => {
            proof { reveal_strlit("7"); }
            "7"
        },
        8 => {
            proof { reveal_strlit("8"); }
            "8"
        },
        9 => {
            proof { reveal_strlit("9"); }
            "9"
        },
        10 => {
            proof { reveal_strlit("A"); }
            "A"
        },
        11 => {
            proof { reveal_strlit("B"); }
            "B"
        },
        12 => {
            proof { reveal_strlit("C"); }
            "C"
        },
        13 => {
            proof { reveal_strlit("D"); }
            "D"
        },
        14 => {
            proof { reveal_strlit("E"); }
            "E"
        },
        15 => {
            proof { reveal_strlit("F"); }
            "F"
        },
        16 => {
            proof { reveal_strlit("G"); }
            "G"
        },
        17 => {
            proof { reveal_strlit("H"); }
            "H"
        },
        18 => {
            proof { reveal_strlit("I"); }
            "I"
        },
        19 => {
            proof { reveal_strlit("J"); }
            "J"
        },
        20 => {
            proof { reveal_strlit("K"); }
            "K"
        },
        21 => {
            proof { reveal_strlit("L"); }
            "L"
        },
        22 => {
            proof { reveal_strlit("M"); }
            "M"
        },
        23 => {
            proof { reveal_strlit("N"); }
            "N"
        },
        24 => {
            proof { reveal_strlit("O"); }
            "O"
        },
        25 => {
            proof { reveal_strlit("P"); }
            "P"
        },
        26 => {
            proof { reveal_strlit("Q"); }
            "Q"
        },
        27 => {
            proof { reveal_strlit("R"); }
            "R"
        },
        28 => {
            proof { reveal_strlit("S"); }
            "S"
        },
        29 => {
            proof { reveal_strlit("T"); }
            "T"
        },
        30 => {
            proof { reveal_strlit("U"); }
            "U"
        },
        31 => {
            proof { reveal_strlit("V"); }
            "V"
        },
        32 => {
            proof { reveal_strlit("W"); }
            "W"
        },
        33 => {
            proof { reveal_strlit("X"); }
            "X"
        },
        34 => {
            proof { reveal_strlit("Y"); }
            "Y"
        },
        _ => {
            proof { reveal_strlit("Z"); }
            "Z"
        },
    }
}

/// Writes a room code as four upper-case symbols.
pub fn code_to_text(c: u32) -> (r: String)
    requires
        c < CODE_SPACE,
    ensures
        r@ == code_text(c),
{
    let mut r = String::new();
    r.append(symbol_text(c / 46656 % 36));
    r.append(symbol_text(c / 1296 % 36));
    r.append(symbol_text(c / 36 % 36));
    r.append(symbol_text(c % 36));
    assert(r@ =~= code_text(c));
    r
}

} // verus!
