//! The synthesis voices a speaker can be given.

use vstd::prelude::*;

verus! {

/// A synthesis voice.
#[derive(Clone, Copy, Debug, PartialEq, Eq, Structural)]
pub enum Voice {
    Alloy,
    Ash,
    Coral,
    Echo,
    Fable,
    Onyx,
    Nova,
    Sage,
    Shimmer,
}

/// Number of voices in the catalogue.
pub const VOICE_COUNT: usize = 9;

impl Voice {
    /// The catalogue of voices, by position. Positions run from 0 up to
    /// `VOICE_COUNT`, which is left out.
    pub open spec fn spec_at(position: int) -> Voice {
        if position == 0 {
            Voice::Alloy
        } else if position == 1 {
            Voice::Ash
        } else if position == 2 {
            Voice::Coral
        } else if position == 3 {
            Voice::Echo
        } else if position == 4 {
            Voice::Fable
        } else if position == 5 {
            Voice::Onyx
        } else if position == 6 {
            Voice::Nova
        } else if position == 7 {
            Voice::Sage
        } else {
            Voice::Shimmer
        }
    }

    /// The voice a speaker gets by its index: speakers walk through the
    /// catalogue in order and start over at its end, so two speakers may
    /// share a voice.
    pub open spec fn spec_for_speaker(index: usize) -> Voice {
        Self::spec_at(index as int % VOICE_COUNT as int)
    }

    /// The voice at a position of the catalogue.
    pub fn at(position: usize) -> (voice: Voice)
        requires
            position < VOICE_COUNT,
        ensures
            voice == Self::spec_at(position as int),
    {
        if position == 0 {
            Voice::Alloy
        } else if position == 1 {
            Voice::Ash
        } else if position == 2 {
            Voice::Coral
        } else if position == 3 {
            Voice::Echo
        } else if position == 4 {
            Voice::Fable
        } else if position == 5 {
            Voice::Onyx
        } else if position == 6 {
            Voice::Nova
        } else if position == 7 {
            Voice::Sage
        } else {
            Voice::Shimmer
        }
    }

    /// The voice a speaker gets by its index.
    pub fn for_speaker(index: usize) -> (voice: Voice)
        ensures
            voice == Self::spec_for_speaker(index),
    {
        Self::at(index % VOICE_COUNT)
    }
}

} // verus!
