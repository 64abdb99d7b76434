use music_note::pitch::{frequencies, PITCH_COUNT};
use music_note::{pitches, Accidental, Error, Letter, Note, Octave, Pitch};
use std::cmp::Ordering;

const LETTERS: [Letter; 7] = [
    Letter::C,
    Letter::D,
    Letter::E,
    Letter::F,
    Letter::G,
    Letter::A,
    Letter::B,
];

const ACCIDENTALS: [Accidental; 3] = [Accidental::Natural, Accidental::Flat, Accidental::Sharp];

fn octaves() -> Vec<Octave> {
    (0..10u8).map(|n| Octave::try_from(n).unwrap()).collect()
}

fn hertz(pitch: Pitch) -> f64 {
    pitch.centihertz() as f64 / 100.0
}

fn legal_notes() -> Vec<Note> {
    let mut notes = Vec::new();
    for octave in octaves() {
        for letter in LETTERS {
            for accidental in ACCIDENTALS {
                if let Ok(note) = Note::new(letter, octave, accidental) {
                    notes.push(note);
                }
            }
        }
    }
    notes
}

#[test]
fn frequencies_strictly_increase() {
    let all = pitches();
    assert_eq!(all.len(), PITCH_COUNT as usize);
    for i in 0..all.len() - 1 {
        assert!(all[i].centihertz() < all[i + 1].centihertz());
        assert!(hertz(all[i]) < hertz(all[i + 1]));
    }
}

#[test]
fn pitch_number_index_and_octave() {
    for (i, pitch) in pitches().into_iter().enumerate() {
        assert_eq!(pitch.index() as usize, i);
        assert_eq!(pitch.number() as usize, i % 12);
        assert_eq!(u8::from(pitch.octave()) as usize, i / 12);
    }
}

#[test]
fn frequency_table_ends() {
    let table = frequencies();
    assert_eq!(table.len(), 108);
    assert_eq!(table[0], 1635);
    assert_eq!(table[107], 790213);
    assert_eq!(hertz(pitches()[0]), 16.35);
    assert_eq!(hertz(pitches()[107]), 7902.13);
}

#[test]
fn a4_is_440() {
    let a4 = pitches()[57];
    assert_eq!(a4.centihertz(), 44000);
    assert_eq!(hertz(a4), 440.00);
    let note = Note::from(a4);
    assert_eq!(note.letter(), Letter::A);
    assert_eq!(note.accidental(), Accidental::Natural);
    assert_eq!(note.octave(), Octave::Fifth);
    assert_eq!(note.to_string(), "A₄");
}

#[test]
fn canonical_spelling_of_each_number() {
    let expected = [
        (Letter::C, Accidental::Natural),
        (Letter::C, Accidental::Sharp),
        (Letter::D, Accidental::Natural),
        (Letter::D, Accidental::Sharp),
        (Letter::E, Accidental::Natural),
        (Letter::F, Accidental::Natural),
        (Letter::F, Accidental::Sharp),
        (Letter::G, Accidental::Natural),
        (Letter::G, Accidental::Sharp),
        (Letter::A, Accidental::Natural),
        (Letter::A, Accidental::Sharp),
        (Letter::B, Accidental::Natural),
    ];
    for pitch in pitches() {
        let note = Note::from(pitch);
        let (letter, accidental) = expected[pitch.number() as usize];
        assert_eq!(note.letter(), letter);
        assert_eq!(note.accidental(), accidental);
        assert_eq!(u8::from(note.octave()), pitch.index() / 12);
    }
}

#[test]
fn pitch_note_round_trip() {
    for pitch in pitches() {
        assert_eq!(Pitch::try_from(Note::from(pitch)), Ok(pitch));
    }
}

#[test]
fn legal_and_illegal_accidentals() {
    let illegal = [
        (Letter::C, Accidental::Flat),
        (Letter::F, Accidental::Flat),
        (Letter::E, Accidental::Sharp),
        (Letter::B, Accidental::Sharp),
    ];
    for octave in octaves() {
        for letter in LETTERS {
            for accidental in ACCIDENTALS {
                let result = Note::new(letter, octave, accidental);
                if illegal.contains(&(letter, accidental)) {
                    assert_eq!(result, Err(Error::IncorrectAccidental));
                } else {
                    let note = result.unwrap();
                    assert_eq!(note.letter(), letter);
                    assert_eq!(note.octave(), octave);
                    assert_eq!(note.accidental(), accidental);
                }
            }
        }
    }
}

#[test]
fn c_flat_is_rejected() {
    assert_eq!(
        Note::new(Letter::C, Octave::Fourth, Accidental::Flat),
        Err(Error::IncorrectAccidental)
    );
}

#[test]
fn enharmonic_keeps_pitch() {
    for note in legal_notes() {
        let other = note.enharmonic();
        assert_eq!(Pitch::try_from(other), Pitch::try_from(note));
        assert_eq!(other.octave(), note.octave());
        if note.accidental() == Accidental::Natural {
            assert_eq!(other, note);
        } else {
            assert_ne!(other, note);
            assert_ne!(other.accidental(), note.accidental());
            assert_eq!(other.enharmonic(), note);
        }
    }
}

#[test]
fn c_sharp_fourth_octave() {
    let note = Note::new(Letter::C, Octave::Fourth, Accidental::Sharp).unwrap();
    let pitch = Pitch::try_from(note).unwrap();
    assert_eq!(pitch.index(), 37);
    assert_eq!(hertz(pitch), 138.59);
    let other = note.enharmonic();
    assert_eq!(other, Note::new(Letter::D, Octave::Fourth, Accidental::Flat).unwrap());
    assert_eq!(Pitch::try_from(other).unwrap(), pitch);
}

#[test]
fn c_sharp_277_hz() {
    let note = Note::new(Letter::C, Octave::Fifth, Accidental::Sharp).unwrap();
    let pitch = Pitch::try_from(note).unwrap();
    assert_eq!(pitch.centihertz(), 27718);
    assert!((hertz(pitch) - 277.18).abs() < 1e-9);
    let other = note.enharmonic();
    assert_eq!(other, Note::new(Letter::D, Octave::Fifth, Accidental::Flat).unwrap());
    assert_eq!(hertz(Pitch::try_from(other).unwrap()), hertz(pitch));
    assert_eq!(other.to_string(), "D♭₄");
}

#[test]
fn tenth_octave_has_no_pitch() {
    for letter in LETTERS {
        let note = Note::new(letter, Octave::Tenth, Accidental::Natural).unwrap();
        assert_eq!(Pitch::try_from(note), Err(Error::PitchNotInRange));
    }
    let b8 = Note::new(Letter::B, Octave::Ninth, Accidental::Natural).unwrap();
    assert_eq!(Pitch::try_from(b8).unwrap().index(), 107);
    let c0 = Note::new(Letter::C, Octave::First, Accidental::Natural).unwrap();
    assert_eq!(Pitch::try_from(c0).unwrap().index(), 0);
}

#[test]
fn note_order_follows_pitch() {
    let notes: Vec<Note> = legal_notes()
        .into_iter()
        .filter(|n| Pitch::try_from(*n).is_ok())
        .collect();
    for a in &notes {
        for b in &notes {
            let pa = Pitch::try_from(*a).unwrap();
            let pb = Pitch::try_from(*b).unwrap();
            assert_eq!(a < b, pa < pb);
            assert_eq!(a.partial_cmp(b), pa.partial_cmp(&pb));
        }
    }
}

#[test]
fn enharmonic_spellings_compare_equal() {
    let c_sharp = Note::new(Letter::C, Octave::Fifth, Accidental::Sharp).unwrap();
    let d_flat = Note::new(Letter::D, Octave::Fifth, Accidental::Flat).unwrap();
    assert_eq!(c_sharp.partial_cmp(&d_flat), Some(Ordering::Equal));
    assert_ne!(c_sharp, d_flat);
    let b4 = Note::new(Letter::B, Octave::Fourth, Accidental::Natural).unwrap();
    let c5 = Note::new(Letter::C, Octave::Fifth, Accidental::Natural).unwrap();
    assert!(b4 < c5);
    assert!(c5 < c_sharp);
}

#[test]
fn letter_from_char() {
    assert_eq!(Letter::try_from('g'), Ok(Letter::G));
    assert_eq!(Letter::try_from('G'), Ok(Letter::G));
    assert_eq!(Letter::try_from('a'), Ok(Letter::A));
    assert_eq!(Letter::try_from('H'), Err(Error::IncorrectLetter));
    assert_eq!(Letter::try_from('1'), Err(Error::IncorrectLetter));
}

#[test]
fn letter_cycle() {
    for (i, letter) in LETTERS.iter().enumerate() {
        assert_eq!(letter.next(), LETTERS[(i + 1) % 7]);
        assert_eq!(letter.previous(), LETTERS[(i + 6) % 7]);
        assert_eq!(letter.next().previous(), *letter);
    }
    assert_eq!(Letter::C.previous(), Letter::B);
    assert_eq!(Letter::B.next(), Letter::C);
    assert_eq!(Letter::F.previous(), Letter::E);
}

#[test]
fn octave_numbers() {
    for n in 0..10u8 {
        assert_eq!(u8::from(Octave::try_from(n).unwrap()), n);
    }
    assert_eq!(Octave::try_from(10), Err(Error::OctaveNotInRange));
    assert_eq!(Octave::try_from(255), Err(Error::OctaveNotInRange));
}

#[test]
fn display_texts() {
    let note = Note::new(Letter::F, Octave::Fifth, Accidental::Sharp).unwrap();
    assert_eq!(note.to_string(), "F♯₄");
    assert_eq!(Letter::B.to_string(), "B");
    assert_eq!(Accidental::Natural.to_string(), "");
    assert_eq!(Accidental::Flat.to_string(), "♭");
    assert_eq!(Octave::First.to_string(), "₀");
    assert_eq!(Octave::Tenth.to_string(), "₉");
    let e = Note::new(Letter::E, Octave::First, Accidental::Flat).unwrap();
    assert_eq!(e.to_string(), "E♭₀");
}

#[test]
fn error_texts() {
    assert_eq!(Error::IncorrectLetter.to_string(), "incorrect letter");
    assert_eq!(Error::IncorrectAccidental.to_string(), "incorrect accidental");
    assert_eq!(Error::OctaveNotInRange.to_string(), "octave not in range");
    assert_eq!(Error::PitchNotInRange.to_string(), "pitch not in range");
}
