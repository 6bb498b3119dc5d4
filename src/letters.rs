use vstd::prelude::*;

use crate::error::HexError;

verus! {

/// Number of letters in the alphabet: the base of the numeral system.
pub const LETTER_COUNT: usize = 26;

/// One digit of a bijective base-26 numeral, ordered alphabetically.
#[derive(Clone, Copy, Debug, PartialEq, Eq, Structural, PartialOrd, Ord, Hash)]
pub enum Letters {
    A,
    B,
    C,
    D,
    E,
    F,
    G,
    H,
    I,
    J,
    K,
    L,
    M,
    N,
    O,
    P,
    Q,
    R,
    S,
    T,
    U,
    V,
    W,
    X,
    Y,
    Z,
}

impl Letters {
    /// Zero-based alphabetic position: A is 0, Z is 25.
    pub open spec fn spec_position(self) -> nat {
        match self {
            Letters::A => 0,
            Letters::B => 1,
            Letters::C => 2,
            Letters::D => 3,
            Letters::E => 4,
            Letters::F => 5,
            Letters::G => 6,
            Letters::H => 7,
            Letters::I => 8,
            Letters::J => 9,
            Letters::K => 10,
            Letters::L => 11,
            Letters::M => 12,
            Letters::N => 13,
            Letters::O => 14,
            Letters::P => 15,
            Letters::Q => 16,
            Letters::R => 17,
            Letters::S => 18,
            Letters::T => 19,
            Letters::U => 20,
            Letters::V => 21,
            Letters::W => 22,
            Letters::X => 23,
            Letters::Y => 24,
            Letters::Z => 25,
        }
    }

    /// The upper-case character that displays this letter.
    pub open spec fn spec_symbol(self) -> char {
        match self {
            Letters::A => 'A',
            Letters::B => 'B',
            Letters::C => 'C',
            Letters::D => 'D',
            Letters::E => 'E',
            Letters::F => 'F',
            Letters::G => 'G',
            Letters::H => 'H',
            Letters::I => 'I',
            Letters::J => 'J',
            Letters::K => 'K',
            Letters::L => 'L',
            Letters::M => 'M',
            Letters::N => 'N',
            Letters::O => 'O',
            Letters::P => 'P',
            Letters::Q => 'Q',
            Letters::R => 'R',
            Letters::S => 'S',
            Letters::T => 'T',
            Letters::U => 'U',
            Letters::V => 'V',
            Letters::W => 'W',
            Letters::X => 'X',
            Letters::Y => 'Y',
            Letters::Z => 'Z',
        }
    }

    /// Zero-based alphabetic position of this letter.
    pub fn position(&self) -> (r: usize)
        ensures
            r == self.spec_position(),
            r < LETTER_COUNT,
    {
        match self {
            Letters::A => 0,
            Letters::B => 1,
            Letters::C => 2,
            Letters::D => 3,
            Letters::E => 4,
            Letters::F => 5,
            Letters::G => 6,
            Letters::H => 7,
            Letters::I => 8,
            Letters::J => 9,
            Letters::K => 10,
            Letters::L => 11,
            Letters::M => 12,
            Letters::N => 13,
            Letters::O => 14,
            Letters::P => 15,
            Letters::Q => 16,
            Letters::R => 17,
            Letters::S => 18,
            Letters::T => 19,
            Letters::U => 20,
            Letters::V => 21,
            Letters::W => 22,
            Letters::X => 23,
            Letters::Y => 24,
            Letters::Z => 25,
        }
    }

    /// The upper-case character that displays this letter.
    pub fn symbol(&self) -> (r: char)
        ensures
            r == self.spec_symbol(),
    {
        match self {
            Letters::A => 'A',
            Letters::B => 'B',
            Letters::C => 'C',
            Letters::D => 'D',
            Letters::E => 'E',
            Letters::F => 'F',
            Letters::G => 'G',
            Letters::H => 'H',
            Letters::I => 'I',
            Letters::J => 'J',
            Letters::K => 'K',
            Letters::L => 'L',
            Letters::M => 'M',
            Letters::N => 'N',
            Letters::O => 'O',
            Letters::P => 'P',
            Letters::Q => 'Q',
            Letters::R => 'R',
            Letters::S => 'S',
            Letters::T => 'T',
            Letters::U => 'U',
            Letters::V => 'V',
            Letters::W => 'W',
            Letters::X => 'X',
            Letters::Y => 'Y',
            Letters::Z => 'Z',
        }
    }

    /// The letter at a zero-based position below 26.
    pub fn from_position(position: usize) -> (r: Letters)
        requires
            position < LETTER_COUNT,
        ensures
            r == letter_at(position as nat),
            r.spec_position() == position,
    {
        match position {
            0 => Letters::A,
            1 => Letters::B,
            2 => Letters::C,
            3 => Letters::D,
            4 => Letters::E,
            5 => Letters::F,
            6 => Letters::G,
            7 => Letters::H,
            8 => Letters::I,
            9 => Letters::J,
            10 => Letters::K,
            11 => Letters::L,
            12 => Letters::M,
            13 => Letters::N,
            14 => Letters::O,
            15 => Letters::P,
            16 => Letters::Q,
            17 => Letters::R,
            18 => Letters::S,
            19 => Letters::T,
            20 => Letters::U,
            21 => Letters::V,
            22 => Letters::W,
            23 => Letters::X,
            24 => Letters::Y,
            _ => Letters::Z,
        }
    }

    /// The letter at a zero-based position, if the position is below 26.
    pub fn try_from(value: usize) -> (r: Result<Letters, HexError>)
        ensures
            value < LETTER_COUNT ==> r == Ok::<Letters, HexError>(letter_at(value as nat)),
            value >= LETTER_COUNT ==> r == Err::<Letters, HexError>(HexError::InvalidNumeral),
    {
        if value < LETTER_COUNT {
            Ok(Letters::from_position(value))
        } else {
            Err(HexError::InvalidNumeral)
        }
    }
}

impl Default for Letters {
    fn default() -> (r: Letters)
        ensures
            r == Letters::A,
    {
        Letters::A
    }
}

/// The letter at a zero-based position; positions from 25 on give Z.
pub open spec fn letter_at(n: nat) -> Letters {
    if n == 0 {
        Letters::A
    } else if n == 1 {
        Letters::B
    } else if n == 2 {
        Letters::C
    } else if n == 3 {
        Letters::D
    } else if n == 4 {
        Letters::E
    } else if n == 5 {
        Letters::F
    } else if n == 6 {
        Letters::G
    } else if n == 7 {
        Letters::H
    } else if n == 8 {
        Letters::I
    } else if n == 9 {
        Letters::J
    } else if n == 10 {
        Letters::K
    } else if n == 11 {
        Letters::L
    } else if n == 12 {
        Letters::M
    } else if n == 13 {
        Letters::N
    } else if n == 14 {
        Letters::O
    } else if n == 15 {
        Letters::P
    } else if n == 16 {
        Letters::Q
    } else if n == 17 {
        Letters::R
    } else if n == 18 {
        Letters::S
    } else if n == 19 {
        Letters::T
    } else if n == 20 {
        Letters::U
    } else if n == 21 {
        Letters::V
    } else if n == 22 {
        Letters::W
    } else if n == 23 {
        Letters::X
    } else if n == 24 {
        Letters::Y
    } else {
        Letters::Z
    }
}

/// A letter's position leads back to the letter.
pub proof fn lemma_letter_at_position(l: Letters)
    ensures
        letter_at(l.spec_position()) == l,
        l.spec_position() < 26,
{
}

/// The letter at a position below 26 has that position.
pub proof fn lemma_position_of_letter_at(n: nat)
    requires
        n < 26,
    ensures
        letter_at(n).spec_position() == n,
{
}

} // verus!
