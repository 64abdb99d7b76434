//! Letters, accidentals, octaves and notes.

use vstd::prelude::*;
use vstd::string::*;

use crate::pitch::{compare_positions, Pitch, PITCH_COUNT, SEMITONES};

verus! {

/// Error that can occur while building a note or a pitch.
#[derive(Debug, Clone, Copy, PartialEq, Eq, Structural)]
pub enum Error {
    /// Character that names no note letter.
    IncorrectLetter,
    /// Accidental that the letter cannot carry (C♭, F♭, E♯, B♯).
    IncorrectAccidental,
    /// Octave number outside the supported range.
    OctaveNotInRange,
    /// Note whose semitone position lies past the frequency table.
    PitchNotInRange,
    /// Interval between frequencies that are not both positive and finite.
    InvalidInterval,
}

impl Error {
    /// Text describing the error.
    pub open spec fn spec_text(self) -> Seq<char> {
        match self {
            Error::IncorrectLetter => "incorrect letter"@,
            Error::IncorrectAccidental => "incorrect accidental"@,
            Error::OctaveNotInRange => "octave not in range"@,
            Error::PitchNotInRange => "pitch not in range"@,
            Error::InvalidInterval => "invalid interval"@,
        }
    }

    /// Text describing the error.
    pub fn to_string(&self) -> (r: String)
        ensures
            r@ == self.spec_text(),
    {
        let s = match self {
            Error::IncorrectLetter => "incorrect letter",
            Error::IncorrectAccidental => "incorrect accidental",
            Error::OctaveNotInRange => "octave not in range",
            Error::PitchNotInRange => "pitch not in range",
            Error::InvalidInterval => "invalid interval",
        };
        String::from_str(s)
    }
}

/// Musical note letter.
#[derive(Debug, Clone, Copy, PartialEq, Eq, Structural)]
pub enum Letter {
    C,
    D,
    E,
    F,
    G,
    A,
    B,
}

impl Letter {
    /// Semitones from C up to the natural note of this letter.
    pub open spec fn semitone(self) -> int {
        match self {
            Letter::C => 0,
            Letter::D => 2,
            Letter::E => 4,
            Letter::F => 5,
            Letter::G => 7,
            Letter::A => 9,
            Letter::B => 11,
        }
    }

    /// The letter before this one, going round from C to B.
    pub open spec fn spec_previous(self) -> Letter {
        match self {
            Letter::C => Letter::B,
            Letter::D => Letter::C,
            Letter::E => Letter::D,
            Letter::F => Letter::E,
            Letter::G => Letter::F,
            Letter::A => Letter::G,
            Letter::B => Letter::A,
        }
    }

    /// The letter after this one, going round from B to C.
    pub open spec fn spec_next(self) -> Letter {
        match self {
            Letter::C => Letter::D,
            Letter::D => Letter::E,
            Letter::E => Letter::F,
            Letter::F => Letter::G,
            Letter::G => Letter::A,
            Letter::A => Letter::B,
            Letter::B => Letter::C,
        }
    }

    /// Get previous note letter.
    pub fn previous(&self) -> (r: Letter)
        ensures
            r == self.spec_previous(),
    {
        match self {
            Letter::C => Letter::B,
            Letter::D => Letter::C,
            Letter::E => Letter::D,
            Letter::F => Letter::E,
            Letter::G => Letter::F,
            Letter::A => Letter::G,
            Letter::B => Letter::A,
        }
    }

    /// Get next note letter.
    pub fn next(&self) -> (r: Letter)
        ensures
            r == self.spec_next(),
    {
        match self {
            Letter::C => Letter::D,
            Letter::D => Letter::E,
            Letter::E => Letter::F,
            Letter::F => Letter::G,
            Letter::G => Letter::A,
            Letter::A => Letter::B,
            Letter::B => Letter::C,
        }
    }
    /// The upper-case character that names this letter.
    pub open spec fn spec_char(self) -> char {
        match self {
            Letter::C => 'C',
            Letter::D => 'D',
            Letter::E => 'E',
            Letter::F => 'F',
            Letter::G => 'G',
            Letter::A => 'A',
            Letter::B => 'B',
        }
    }

    /// Text of the letter: its upper-case character.
    pub fn to_string(&self) -> (r: String)
        ensures
            r@ == seq![self.spec_char()],
    {
        let s = match self {
            Letter::C => "C",
            Letter::D => "D",
            Letter::E => "E",
            Letter::F => "F",
            Letter::G => "G",
            Letter::A => "A",
            Letter::B => "B",
        };
        proof {
            reveal_strlit("C");
            reveal_strlit("D");
            reveal_strlit("E");
            reveal_strlit("F");
            reveal_strlit("G");
            reveal_strlit("A");
            reveal_strlit("B");
        }
        String::from_str(s)
    }
}

/// The letter that a character names, in either case.
pub open spec fn letter_of_char(c: char) -> Result<Letter, Error> {
    if c == 'c' || c == 'C' {
        Ok(Letter::C)
    } else if c == 'd' || c == 'D' {
        Ok(Letter::D)
    } else if c == 'e' || c == 'E' {
        Ok(Letter::E)
    } else if c == 'f' || c == 'F' {
        Ok(Letter::F)
    } else if c == 'g' || c == 'G' {
        Ok(Letter::G)
    } else if c == 'a' || c == 'A' {
        Ok(Letter::A)
    } else if c == 'b' || c == 'B' {
        Ok(Letter::B)
    } else {
        Err(Error::IncorrectLetter)
    }
}

impl TryFrom<char> for Letter {
    type Error = Error;

    fn try_from(value: char) -> (r: Result<Letter, Error>)
        ensures
            r == letter_of_char(value),
    {
        match value {
            'c' | 'C' => Ok(Letter::C),
            'd' | 'D' => Ok(Letter::D),
            'e' | 'E' => Ok(Letter::E),
            'f' | 'F' => Ok(Letter::F),
            'g' | 'G' => Ok(Letter::G),
            'a' | 'A' => Ok(Letter::A),
            'b' | 'B' => Ok(Letter::B),
            _ => Err(Error::IncorrectLetter),
        }
    }
}

impl vstd::std_specs::convert::TryFromSpecImpl<char> for Letter {
    open spec fn obeys_try_from_spec() -> bool {
        true
    }

    open spec fn try_from_spec(v: char) -> Result<Letter, Error> {
        letter_of_char(v)
    }
}

/// Supported octaves, numbered from zero.
#[derive(Debug, Clone, Copy, PartialEq, Eq, Structural)]
pub enum Octave {
    First,
    Second,
    Third,
    Fourth,
    Fifth,
    Sixth,
    Seventh,
    Eighth,
    Ninth,
    Tenth,
}

/// Number of supported octaves.
pub const OCTAVE_COUNT: u8 = 10;

impl Octave {
    /// Number of the octave, from 0 for `First` to 9 for `Tenth`.
    pub open spec fn number(self) -> nat {
        match self {
            Octave::First => 0,
            Octave::Second => 1,
            Octave::Third => 2,
            Octave::Fourth => 3,
            Octave::Fifth => 4,
            Octave::Sixth => 5,
            Octave::Seventh => 6,
            Octave::Eighth => 7,
            Octave::Ninth => 8,
            Octave::Tenth => 9,
        }
    }

    /// The subscript digit that writes the octave number.
    pub open spec fn spec_char(self) -> char {
        match self {
            Octave::First => '₀',
            Octave::Second => '₁',
            Octave::Third => '₂',
            Octave::Fourth => '₃',
            Octave::Fifth => '₄',
            Octave::Sixth => '₅',
            Octave::Seventh => '₆',
            Octave::Eighth => '₇',
            Octave::Ninth => '₈',
            Octave::Tenth => '₉',
        }
    }

    /// Text of the octave: its number as a subscript digit.
    pub fn to_string(&self) -> (r: String)
        ensures
            r@ == seq![self.spec_char()],
    {
        let s = match self {
            Octave::First => "₀",
            Octave::Second => "₁",
            Octave::Third => "₂",
            Octave::Fourth => "₃",
            Octave::Fifth => "₄",
            Octave::Sixth => "₅",
            Octave::Seventh => "₆",
            Octave::Eighth => "₇",
            Octave::Ninth => "₈",
            Octave::Tenth => "₉",
        };
        proof {
            reveal_strlit("₀");
            reveal_strlit("₁");
            reveal_strlit("₂");
            reveal_strlit("₃");
            reveal_strlit("₄");
            reveal_strlit("₅");
            reveal_strlit("₆");
            reveal_strlit("₇");
            reveal_strlit("₈");
            reveal_strlit("₉");
        }
        String::from_str(s)
    }
}

/// The octave with a given number, if it is supported.
pub open spec fn octave_of_number(n: u8) -> Result<Octave, Error> {
    match n {
        0 => Ok(Octave::First),
        1 => Ok(Octave::Second),
        2 => Ok(Octave::Third),
        3 => Ok(Octave::Fourth),
        4 => Ok(Octave::Fifth),
        5 => Ok(Octave::Sixth),
        6 => Ok(Octave::Seventh),
        7 => Ok(Octave::Eighth),
        8 => Ok(Octave::Ninth),
        9 => Ok(Octave::Tenth),
        _ => Err(Error::OctaveNotInRange),
    }
}

impl TryFrom<u8> for Octave {
    type Error = Error;

    fn try_from(value: u8) -> (r: Result<Octave, Error>)
        ensures
            r == octave_of_number(value),
            r is Ok <==> value < OCTAVE_COUNT,
            r matches Ok(o) ==> o.number() == value,
    {
        match value {
            0 => Ok(Octave::First),
            1 => Ok(Octave::Second),
            2 => Ok(Octave::Third),
            3 => Ok(Octave::Fourth),
            4 => Ok(Octave::Fifth),
            5 => Ok(Octave::Sixth),
            6 => Ok(Octave::Seventh),
            7 => Ok(Octave::Eighth),
            8 => Ok(Octave::Ninth),
            9 => Ok(Octave::Tenth),
            _ => Err(Error::OctaveNotInRange),
        }
    }
}

impl vstd::std_specs::convert::TryFromSpecImpl<u8> for Octave {
    open spec fn obeys_try_from_spec() -> bool {
        true
    }

    open spec fn try_from_spec(v: u8) -> Result<Octave, Error> {
        octave_of_number(v)
    }
}

impl From<Octave> for u8 {
    fn from(octave: Octave) -> (r: u8)
        ensures
            r == octave.number(),
    {
        match octave {
            Octave::First => 0,
            Octave::Second => 1,
            Octave::Third => 2,
            Octave::Fourth => 3,
            Octave::Fifth => 4,
            Octave::Sixth => 5,
            Octave::Seventh => 6,
            Octave::Eighth => 7,
            Octave::Ninth => 8,
            Octave::Tenth => 9,
        }
    }
}

impl vstd::std_specs::convert::FromSpecImpl<Octave> for u8 {
    open spec fn obeys_from_spec() -> bool {
        true
    }

    open spec fn from_spec(v: Octave) -> u8 {
        v.number() as u8
    }
}

/// Musical note accidental.
#[derive(Debug, Clone, Copy, PartialEq, Eq, Structural)]
pub enum Accidental {
    /// No accidental.
    Natural,
    /// Flat - ♭.
    Flat,
    /// Sharp - ♯.
    Sharp,
}

impl Accidental {
    /// Semitones by which the accidental moves the natural note.
    pub open spec fn shift(self) -> int {
        match self {
            Accidental::Natural => 0,
            Accidental::Flat => -1,
            Accidental::Sharp => 1,
        }
    }

    /// Text of the accidental: empty, `♭` or `♯`.
    pub open spec fn spec_text(self) -> Seq<char> {
        match self {
            Accidental::Natural => Seq::empty(),
            Accidental::Flat => seq!['♭'],
            Accidental::Sharp => seq!['♯'],
        }
    }

    /// Text of the accidental: empty, `♭` or `♯`.
    pub fn to_string(&self) -> (r: String)
        ensures
            r@ == self.spec_text(),
    {
        let s = match self {
            Accidental::Natural => "",
            Accidental::Flat => "♭",
            Accidental::Sharp => "♯",
        };
        proof {
            reveal_strlit("");
            reveal_strlit("♭");
            reveal_strlit("♯");
        }
        String::from_str(s)
    }
}

/// Whether a letter can carry an accidental: there is no flat on C or F
/// and no sharp on E or B.
pub open spec fn is_legal(letter: Letter, accidental: Accidental) -> bool {
    match accidental {
        Accidental::Natural => true,
        Accidental::Flat => letter != Letter::C && letter != Letter::F,
        Accidental::Sharp => letter != Letter::E && letter != Letter::B,
    }
}

/// Semitones from C₀ up to a spelled note.
pub open spec fn position_of(letter: Letter, octave: Octave, accidental: Accidental) -> int {
    octave.number() * 12 + letter.semitone() + accidental.shift()
}

/// Letter of the sharp-preferring spelling of a place within the octave.
pub open spec fn canonical_letter(number: nat) -> Letter {
    if number < 2 {
        Letter::C
    } else if number < 4 {
        Letter::D
    } else if number < 5 {
        Letter::E
    } else if number < 7 {
        Letter::F
    } else if number < 9 {
        Letter::G
    } else if number < 11 {
        Letter::A
    } else {
        Letter::B
    }
}

/// Accidental of the sharp-preferring spelling of a place within the
/// octave: a sharp on the black keys, none on the white ones.
pub open spec fn canonical_accidental(number: nat) -> Accidental {
    if number == 1 || number == 3 || number == 6 || number == 8 || number == 10 {
        Accidental::Sharp
    } else {
        Accidental::Natural
    }
}

/// The octave whose number is `n`, for `n` below `OCTAVE_COUNT`.
pub open spec fn octave_at(n: nat) -> Octave {
    match octave_of_number(n as u8) {
        Ok(o) => o,
        Err(_) => Octave::First,
    }
}

/// Struct representing musical note: a letter, an octave and an accidental
/// that the letter can carry.
#[derive(Debug, Clone, Copy, PartialEq, Eq, Structural)]
pub struct Note {
    letter: Letter,
    octave: Octave,
    accidental: Accidental,
}

impl Note {
    #[verifier::type_invariant]
    spec fn inv(self) -> bool {
        is_legal(self.letter, self.accidental)
    }

    /// Letter of the note.
    pub closed spec fn spec_letter(self) -> Letter {
        self.letter
    }

    /// Octave of the note.
    pub closed spec fn spec_octave(self) -> Octave {
        self.octave
    }

    /// Accidental of the note.
    pub closed spec fn spec_accidental(self) -> Accidental {
        self.accidental
    }

    /// Semitones from C₀ up to the note.
    pub open spec fn position(self) -> int {
        position_of(self.spec_letter(), self.spec_octave(), self.spec_accidental())
    }

    /// The note spelled by the three parts.
    pub closed spec fn spelled(letter: Letter, octave: Octave, accidental: Accidental) -> Note {
        Note { letter, octave, accidental }
    }

    /// Whether the note has the three parts.
    pub open spec fn has_parts(self, letter: Letter, octave: Octave, accidental: Accidental) -> bool {
        &&& self.spec_letter() == letter
        &&& self.spec_octave() == octave
        &&& self.spec_accidental() == accidental
    }

    /// The three parts of a spelled note are the ones it was spelled with.
    pub proof fn lemma_spelled(letter: Letter, octave: Octave, accidental: Accidental)
        ensures
            Note::spelled(letter, octave, accidental).has_parts(letter, octave, accidental),
    {
    }

    /// The other spelling of the note's pitch: the sharp of the letter
    /// before for a flat, the flat of the letter after for a sharp, the note
    /// itself without an accidental.
    pub open spec fn spec_enharmonic(self) -> Note {
        match self.spec_accidental() {
            Accidental::Natural => self,
            Accidental::Flat => Note::spelled(
                self.spec_letter().spec_previous(),
                self.spec_octave(),
                Accidental::Sharp,
            ),
            Accidental::Sharp => Note::spelled(
                self.spec_letter().spec_next(),
                self.spec_octave(),
                Accidental::Flat,
            ),
        }
    }

    /// Create new note.
    pub fn new(letter: Letter, octave: Octave, accidental: Accidental) -> (r: Result<Note, Error>)
        ensures
            r is Ok <==> is_legal(letter, accidental),
            r matches Ok(n) ==> n.has_parts(letter, octave, accidental),
            r matches Ok(n) ==> n == Note::spelled(letter, octave, accidental),
            r matches Err(e) ==> e == Error::IncorrectAccidental,
    {
        match accidental {
            Accidental::Natural => Ok(Note { letter, octave, accidental }),
            Accidental::Flat => match letter {
                Letter::C | Letter::F => Err(Error::IncorrectAccidental),
                _ => Ok(Note { letter, octave, accidental }),
            },
            Accidental::Sharp => match letter {
                Letter::E | Letter::B => Err(Error::IncorrectAccidental),
                _ => Ok(Note { letter, octave, accidental }),
            },
        }
    }

    /// Get note letter.
    pub fn letter(&self) -> (r: Letter)
        ensures
            r == self.spec_letter(),
    {
        self.letter
    }

    /// Get note octave.
    pub fn octave(&self) -> (r: Octave)
        ensures
            r == self.spec_octave(),
    {
        self.octave
    }

    /// Get note accidental (sharp - ♯ or flat - ♭).
    pub fn accidental(&self) -> (r: Accidental)
        ensures
            r == self.spec_accidental(),
            is_legal(self.spec_letter(), r),
    {
        proof {
            use_type_invariant(self);
        }
        self.accidental
    }

    /// Get note with the same pitch but different accidental (or exactly the
    /// same note if there isn't one).
    ///
    /// For example: for C♯ - D♭ is returned.
    pub fn enharmonic(self) -> (r: Note)
        ensures
            r == self.spec_enharmonic(),
            self.spec_accidental() == Accidental::Natural ==> r == self,
            self.spec_accidental() == Accidental::Flat ==> r.has_parts(
                self.spec_letter().spec_previous(),
                self.spec_octave(),
                Accidental::Sharp,
            ),
            self.spec_accidental() == Accidental::Sharp ==> r.has_parts(
                self.spec_letter().spec_next(),
                self.spec_octave(),
                Accidental::Flat,
            ),
            r.position() == self.position(),
    {
        proof {
            use_type_invariant(&self);
        }
        match self.accidental {
            Accidental::Natural => self,
            Accidental::Flat => Note {
                letter: self.letter.previous(),
                octave: self.octave,
                accidental: Accidental::Sharp,
            },
            Accidental::Sharp => Note {
                letter: self.letter.next(),
                octave: self.octave,
                accidental: Accidental::Flat,
            },
        }
    }

    /// Semitones from C₀ up to the note.
    pub(crate) fn position_index(&self) -> (r: u8)
        ensures
            r == self.position(),
    {
        proof {
            use_type_invariant(self);
        }
        let natural: u8 = match self.letter {
            Letter::C => 0,
            Letter::D => 2,
            Letter::E => 4,
            Letter::F => 5,
            Letter::G => 7,
            Letter::A => 9,
            Letter::B => 11,
        };
        let octave: u8 = u8::from(self.octave);
        let index: u8 = octave * SEMITONES + natural;
        match self.accidental {
            Accidental::Natural => index,
            Accidental::Flat => index - 1,
            Accidental::Sharp => index + 1,
        }
    }

    /// Text of the note: letter, accidental and subscript octave, as in `C♯₄`.
    pub fn to_string(&self) -> (r: String)
        ensures
            r@ == seq![self.spec_letter().spec_char()] + self.spec_accidental().spec_text() + seq![
                self.spec_octave().spec_char(),
            ],
    {
        let s = self.letter.to_string();
        let a = self.accidental.to_string();
        let o = self.octave.to_string();
        let s = s.concat(a.as_str());
        s.concat(o.as_str())
    }
}

/// Notes compare by the pitch they stand for, so two spellings of one pitch
/// are neither less nor greater than each other.
impl PartialOrd for Note {
    fn partial_cmp(&self, other: &Note) -> (r: Option<core::cmp::Ordering>) {
        let a = self.position_index();
        let b = other.position_index();
        if a < b {
            Some(core::cmp::Ordering::Less)
        } else if a == b {
            Some(core::cmp::Ordering::Equal)
        } else {
            Some(core::cmp::Ordering::Greater)
        }
    }
}

impl vstd::std_specs::cmp::PartialOrdSpecImpl for Note {
    open spec fn obeys_partial_cmp_spec() -> bool {
        true
    }

    open spec fn partial_cmp_spec(&self, other: &Note) -> Option<core::cmp::Ordering> {
        Some(compare_positions(self.position(), other.position()))
    }
}

/// The sharp-preferring spelling of a pitch.
pub open spec fn note_of_pitch(pitch: Pitch) -> Note {
    Note::spelled(
        canonical_letter(pitch@ % 12),
        octave_at(pitch@ / 12),
        canonical_accidental(pitch@ % 12),
    )
}

impl From<Pitch> for Note {
    fn from(pitch: Pitch) -> (r: Note)
        ensures
            r == note_of_pitch(pitch),
            r.has_parts(
                canonical_letter(pitch@ % 12),
                octave_at(pitch@ / 12),
                canonical_accidental(pitch@ % 12),
            ),
            r.spec_octave().number() == pitch@ / 12,
            r.position() == pitch@,
    {
        let number = pitch.number();
        let octave = pitch.octave();
        let (letter, accidental) = if number == 0 {
            (Letter::C, Accidental::Natural)
        } else if number == 1 {
            (Letter::C, Accidental::Sharp)
        } else if number == 2 {
            (Letter::D, Accidental::Natural)
        } else if number == 3 {
            (Letter::D, Accidental::Sharp)
        } else if number == 4 {
            (Letter::E, Accidental::Natural)
        } else if number == 5 {
            (Letter::F, Accidental::Natural)
        } else if number == 6 {
            (Letter::F, Accidental::Sharp)
        } else if number == 7 {
            (Letter::G, Accidental::Natural)
        } else if number == 8 {
            (Letter::G, Accidental::Sharp)
        } else if number == 9 {
            (Letter::A, Accidental::Natural)
        } else if number == 10 {
            (Letter::A, Accidental::Sharp)
        } else {
            (Letter::B, Accidental::Natural)
        };
        Note { letter, octave, accidental }
    }
}

impl vstd::std_specs::convert::FromSpecImpl<Pitch> for Note {
    open spec fn obeys_from_spec() -> bool {
        true
    }

    open spec fn from_spec(v: Pitch) -> Note {
        note_of_pitch(v)
    }
}

} // verus!
