//! Musical pitches and notes of the equal-tempered twelve-tone scale,
//! tuned to A₄ = 440 Hz.
//!
//! A [`Pitch`] is a position in a fixed table of reference frequencies; a
//! [`Note`] is a spelled name (letter, accidental, octave) for such a
//! position. Conversions between the two, enharmonic respelling and the
//! order of notes are proved against the semitone position that each value
//! stands for.

pub mod note;
pub mod pitch;

pub use note::{Accidental, Error, Letter, Note, Octave};
pub use pitch::{pitches, Pitch};
