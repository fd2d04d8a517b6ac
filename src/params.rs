//! Truncation and padding settings, held as plain values.
use vstd::prelude::*;

verus! {

/// Which end of a sequence loses tokens on truncation.
#[derive(Clone, Copy, Debug, PartialEq, Eq, Structural)]
pub enum TruncationDirection {
    Left,
    Right,
}

/// How truncation is shared between the two sequences of a pair.
#[derive(Clone, Copy, Debug, PartialEq, Eq, Structural)]
pub enum TruncationStrategy {
    LongestFirst,
    OnlyFirst,
    OnlySecond,
}

/// Truncation settings: at most `max_length` tokens are kept.
#[derive(Clone, Copy, Debug, PartialEq, Eq, Structural)]
pub struct TruncationParams {
    pub direction: TruncationDirection,
    pub max_length: usize,
    pub strategy: TruncationStrategy,
    pub stride: usize,
}

/// Which end of a sequence receives padding.
#[derive(Clone, Copy, Debug, PartialEq, Eq, Structural)]
pub enum PaddingDirection {
    Left,
    Right,
}

/// To which length a batch is padded.
#[derive(Clone, Copy, Debug, PartialEq, Eq, Structural)]
pub enum PaddingStrategy {
    BatchLongest,
    Fixed(usize),
}

/// Padding settings.
#[derive(Debug)]
pub struct PaddingParams {
    pub strategy: PaddingStrategy,
    pub direction: PaddingDirection,
    pub pad_to_multiple_of: Option<usize>,
    pub pad_id: u32,
    pub pad_type_id: u32,
    pub pad_token: String,
}

impl Clone for PaddingParams {
    fn clone(&self) -> (r: Self)
        ensures
            r == *self,
    {
        PaddingParams {
            strategy: self.strategy,
            direction: self.direction,
            pad_to_multiple_of: self.pad_to_multiple_of,
            pad_id: self.pad_id,
            pad_type_id: self.pad_type_id,
            pad_token: self.pad_token.clone(),
        }
    }
}

impl TruncationParams {
    /// Right-end, longest-first truncation to `max_length` tokens, no stride.
    pub fn new(max_length: usize) -> (r: Self)
        ensures
            r.max_length == max_length,
            r.direction == TruncationDirection::Right,
            r.strategy == TruncationStrategy::LongestFirst,
            r.stride == 0,
    {
        TruncationParams {
            direction: TruncationDirection::Right,
            max_length,
            strategy: TruncationStrategy::LongestFirst,
            stride: 0,
        }
    }
}

} // verus!
