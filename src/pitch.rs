//! Pitches of the equal-tempered scale and their reference frequencies.

use vstd::prelude::*;
use vstd::std_specs::cmp::PartialOrdSpec;

use crate::note::{
    Accidental, canonical_accidental, canonical_letter, is_legal, note_of_pitch, octave_at, Error, Note,
    Octave,
};

verus! {

/// Number of pitches in the frequency table: nine octaves of twelve.
pub const PITCH_COUNT: u8 = 108;

/// Number of semitones in an octave.
pub const SEMITONES: u8 = 12;

/// Reference frequencies of the pitches of the equal-tempered scale,
/// A₄ = 440 Hz, in hundredths of a hertz, from C₀ up to B₈.
pub open spec fn frequency_table() -> Seq<u32> {
    seq![
        1635, 1732, 1835, 1945, 2060, 2183, 2312, 2450, 2596,
        2750, 2914, 3087, 3270, 3465, 3671, 3889, 4120, 4365,
        4625, 4900, 5191, 5500, 5827, 6174, 6541, 6930, 7342,
        7778, 8241, 8731, 9250, 9800, 10383, 11000, 11654, 12347,
        13081, 13859, 14683, 15556, 16481, 17461, 18500, 19600, 20765,
        22000, 23308, 24694, 26163, 27718, 29366, 31113, 32963, 34923,
        36999, 39200, 41530, 44000, 46616, 49388, 52325, 55437, 58733,
        62225, 65925, 69846, 73999, 78399, 83061, 88000, 93233, 98777,
        104650, 110873, 117466, 124451, 131851, 139691, 147998, 156798, 166122,
        176000, 186466, 197553, 209300, 221746, 234932, 248902, 263702, 279383,
        295996, 313596, 332244, 352000, 372931, 395107, 418601, 443492, 469863,
        497803, 527404, 558765, 591991, 627193, 664488, 704000, 745862, 790213,
    ]
}

/// Reference frequencies in hundredths of a hertz, as a vector.
pub fn frequencies() -> (r: Vec<u32>)
    ensures
        r@ == frequency_table(),
{
    let r: Vec<u32> = vec![
        1635, 1732, 1835, 1945, 2060, 2183, 2312, 2450, 2596,
        2750, 2914, 3087, 3270, 3465, 3671, 3889, 4120, 4365,
        4625, 4900, 5191, 5500, 5827, 6174, 6541, 6930, 7342,
        7778, 8241, 8731, 9250, 9800, 10383, 11000, 11654, 12347,
        13081, 13859, 14683, 15556, 16481, 17461, 18500, 19600, 20765,
        22000, 23308, 24694, 26163, 27718, 29366, 31113, 32963, 34923,
        36999, 39200, 41530, 44000, 46616, 49388, 52325, 55437, 58733,
        62225, 65925, 69846, 73999, 78399, 83061, 88000, 93233, 98777,
        104650, 110873, 117466, 124451, 131851, 139691, 147998, 156798, 166122,
        176000, 186466, 197553, 209300, 221746, 234932, 248902, 263702, 279383,
        295996, 313596, 332244, 352000, 372931, 395107, 418601, 443492, 469863,
        497803, 527404, 558765, 591991, 627193, 664488, 704000, 745862, 790213,
    ];
    assert(r@ =~= frequency_table());
    r
}

/// Each frequency of the table is strictly above the one before it.
pub proof fn lemma_frequency_table_increasing()
    ensures
        frequency_table().len() == PITCH_COUNT,
        forall|i: int|
            0 <= i < PITCH_COUNT - 1 ==> #[trigger] frequency_table()[i] < frequency_table()[i + 1],
{
    let t = frequency_table();
    assert(t.len() == 108);
    assert forall|i: int| 0 <= i < PITCH_COUNT - 1 implies #[trigger] t[i] < t[i + 1] by {
        assert(t[i] < t[i + 1]);
    }
}

/// Struct representing pitch: a position in the frequency table.
#[derive(Debug, Clone, Copy, PartialEq, Eq, Structural, Ord)]
pub struct Pitch {
    index: u8,
}

impl View for Pitch {
    type V = nat;

    /// Position of the pitch in the frequency table.
    closed spec fn view(&self) -> nat {
        self.index as nat
    }
}

impl Pitch {
    #[verifier::type_invariant]
    spec fn inv(self) -> bool {
        self.index < PITCH_COUNT
    }

    /// The pitch at a position of the table below `PITCH_COUNT`.
    pub(crate) fn at(index: u8) -> (r: Pitch)
        requires
            index < PITCH_COUNT,
        ensures
            r@ == index,
    {
        Pitch { index }
    }

    /// Frequency of the pitch, in hundredths of a hertz.
    pub fn centihertz(&self) -> (r: u32)
        ensures
            r == frequency_table()[self@ as int],
    {
        proof {
            use_type_invariant(self);
        }
        let table = frequencies();
        table[self.index as usize]
    }

    /// Get index in the frequency table.
    pub fn index(&self) -> (r: u8)
        ensures
            r == self@,
            r < PITCH_COUNT,
    {
        proof {
            use_type_invariant(self);
        }
        self.index
    }

    /// Get 'number' of pitch: its place within the octave.
    ///
    ///| Number | Note  |
    ///|--------|-------|
    ///| 0      | C     |
    ///| 1      | C♯/D♭ |
    ///| 2      | D     |
    ///| 3      | D♯/E♭ |
    ///| 4      | E     |
    ///| 5      | F     |
    ///| 6      | F♯/G♭ |
    ///| 7      | G     |
    ///| 8      | G♯/A♭ |
    ///| 9      | A     |
    ///| 10     | A♯/B♭ |
    ///| 11     | B     |
    pub fn number(&self) -> (r: u8)
        ensures
            r == self@ % 12,
    {
        self.index % SEMITONES
    }

    /// Octave of the pitch.
    pub fn octave(&self) -> (r: Octave)
        ensures
            r.number() == self@ / 12,
    {
        proof {
            use_type_invariant(self);
        }
        let n = self.index / SEMITONES;
        match Octave::try_from(n) {
            Ok(o) => o,
            Err(_) => Octave::First,
        }
    }
}

/// Pitches compare by their position in the table, which is the order of
/// their frequencies.
impl PartialOrd for Pitch {
    fn partial_cmp(&self, other: &Pitch) -> (r: Option<core::cmp::Ordering>) {
        if self.index < other.index {
            Some(core::cmp::Ordering::Less)
        } else if self.index == other.index {
            Some(core::cmp::Ordering::Equal)
        } else {
            Some(core::cmp::Ordering::Greater)
        }
    }
}

impl vstd::std_specs::cmp::PartialOrdSpecImpl for Pitch {
    open spec fn obeys_partial_cmp_spec() -> bool {
        true
    }

    open spec fn partial_cmp_spec(&self, other: &Pitch) -> Option<core::cmp::Ordering> {
        Some(compare_positions(self@ as int, other@ as int))
    }
}

/// Order of two semitone positions.
pub open spec fn compare_positions(a: int, b: int) -> core::cmp::Ordering {
    if a < b {
        core::cmp::Ordering::Less
    } else if a == b {
        core::cmp::Ordering::Equal
    } else {
        core::cmp::Ordering::Greater
    }
}

/// All available pitches, in the order of the frequency table.
pub fn pitches() -> (r: Vec<Pitch>)
    ensures
        r@.len() == PITCH_COUNT,
        forall|i: int| 0 <= i < PITCH_COUNT ==> #[trigger] r@[i]@ == i,
{
    let mut r: Vec<Pitch> = Vec::new();
    let mut i: u8 = 0;
    while i < PITCH_COUNT
        invariant
            i <= PITCH_COUNT,
            r@.len() == i,
            forall|j: int| 0 <= j < i ==> #[trigger] r@[j]@ == j,
        decreases PITCH_COUNT - i,
    {
        r.push(Pitch::at(i));
        i = i + 1;
    }
    r
}

/// The pitch that a note stands for, where the table reaches the note's
/// position.
pub closed spec fn pitch_of_note(note: Note) -> Result<Pitch, Error> {
    if 0 <= note.position() < PITCH_COUNT {
        Ok(Pitch { index: note.position() as u8 })
    } else {
        Err(Error::PitchNotInRange)
    }
}

impl TryFrom<Note> for Pitch {
    type Error = Error;

    fn try_from(note: Note) -> (r: Result<Pitch, Error>)
        ensures
            r == pitch_of_note(note),
            r is Ok <==> note.position() < PITCH_COUNT,
            r matches Ok(p) ==> p@ == note.position(),
            r matches Err(e) ==> e == Error::PitchNotInRange,
    {
        let index = note.position_index();
        if index < PITCH_COUNT {
            Ok(Pitch { index })
        } else {
            Err(Error::PitchNotInRange)
        }
    }
}

impl vstd::std_specs::convert::TryFromSpecImpl<Note> for Pitch {
    open spec fn obeys_try_from_spec() -> bool {
        true
    }

    open spec fn try_from_spec(v: Note) -> Result<Pitch, Error> {
        pitch_of_note(v)
    }
}

/// A pitch higher in the table has a strictly higher frequency.
pub proof fn lemma_frequency_increasing(low: nat, high: nat)
    requires
        low < high < PITCH_COUNT,
    ensures
        frequency_table()[low as int] < frequency_table()[high as int],
    decreases high - low,
{
    lemma_frequency_table_increasing();
    if low + 1 < high {
        lemma_frequency_increasing(low, (high - 1) as nat);
        assert(frequency_table()[high - 1] < frequency_table()[high as int]);
    }
}

/// Spelling a pitch and turning the note back into a pitch gives the same
/// pitch; the spelling is a legal one, sharp where the pitch is a black key.
pub proof fn lemma_note_pitch_round_trip(pitch: Pitch)
    requires
        pitch@ < PITCH_COUNT,
    ensures
        note_of_pitch(pitch).has_parts(
            canonical_letter(pitch@ % 12),
            octave_at(pitch@ / 12),
            canonical_accidental(pitch@ % 12),
        ),
        is_legal(canonical_letter(pitch@ % 12), canonical_accidental(pitch@ % 12)),
        pitch_of_note(note_of_pitch(pitch)) == Ok::<Pitch, Error>(pitch),
{
    let n = pitch@ % 12;
    Note::lemma_spelled(canonical_letter(n), octave_at(pitch@ / 12), canonical_accidental(n));
    assert(octave_at(pitch@ / 12).number() == pitch@ / 12);
    assert(note_of_pitch(pitch).position() == pitch@);
    assert(Pitch { index: pitch@ as u8 } == pitch);
}

/// Respelling a note enharmonically keeps the pitch it stands for.
pub proof fn lemma_enharmonic_same_pitch(note: Note)
    requires
        is_legal(note.spec_letter(), note.spec_accidental()),
    ensures
        pitch_of_note(note.spec_enharmonic()) == pitch_of_note(note),
{
    Note::lemma_spelled(
        note.spec_letter().spec_previous(),
        note.spec_octave(),
        Accidental::Sharp,
    );
    Note::lemma_spelled(note.spec_letter().spec_next(), note.spec_octave(), Accidental::Flat);
    assert(note.spec_enharmonic().position() == note.position());
}

/// Two notes whose pitches are in the table compare as those pitches do.
pub proof fn lemma_note_order_follows_pitch(a: Note, b: Note)
    requires
        0 <= a.position() < PITCH_COUNT,
        0 <= b.position() < PITCH_COUNT,
    ensures
        pitch_of_note(a) is Ok,
        pitch_of_note(b) is Ok,
        a.partial_cmp_spec(&b) == pitch_of_note(a)->Ok_0.partial_cmp_spec(&pitch_of_note(b)->Ok_0),
{
}

} // verus!
