use vstd::prelude::*;

verus! {

/// The keyboard character that stands for each of the sixteen keys, indexed
/// by key code: the hex keypad laid over the keys 1-4, Q-R, A-F and Z-V.
pub open spec fn layout() -> Seq<char> {
    seq!['X', '1', '2', '3', 'Q', 'W', 'E', 'A', 'S', 'D', 'Z', 'C', '4', 'R', 'F', 'V']
}

/// The keyboard character for key `key`, or `None` when `key` is not one of
/// the sixteen key codes.
pub fn key_char(key: u8) -> (r: Option<char>)
    ensures
        key < 16 ==> r == Some(layout()[key as int]),
        key >= 16 ==> r is None,
{
    match key {
        0 => Some('X'),
        1 => Some('1'),
        2 => Some('2'),
        3 => Some('3'),
        4 => Some('Q'),
        5 => Some('W'),
        6 => Some('E'),
        7 => Some('A'),
        8 => Some('S'),
        9 => Some('D'),
        0xA => Some('Z'),
        0xB => Some('C'),
        0xC => Some('4'),
        0xD => Some('R'),
        0xE => Some('F'),
        0xF => Some('V'),
        _ => None,
    }
}

/// The key that the keyboard character `c` stands for, if any. Letters are
/// taken in upper case.
pub fn char_key(c: char) -> (r: Option<u8>)
    ensures
        r matches Some(k) ==> k < 16 && layout()[k as int] == c,
        r is None ==> forall|k: int| 0 <= k < 16 ==> layout()[k] != c,
{
    match c {
        '1' => Some(1),
        '2' => Some(2),
        '3' => Some(3),
        '4' => Some(0xC),
        'Q' => Some(4),
        'W' => Some(5),
        'E' => Some(6),
        'R' => Some(0xD),
        'A' => Some(7),
        'S' => Some(8),
        'D' => Some(9),
        'F' => Some(0xE),
        'Z' => Some(0xA),
        'X' => Some(0),
        'C' => Some(0xB),
        'V' => Some(0xF),
        _ => None,
    }
}

} // verus!
