//! The wire format of instructions.
//!
//! One leading discriminator byte selects the operation; the rest is
//! its payload.  Texts travel as a 4-byte little-endian length prefix
//! followed by the raw bytes, the rating as one byte.  A payload with
//! bytes missing or left over does not parse.

use crate::codec::{read_lp, read_u8, spec_read_lp, spec_read_u8};
use crate::error::ReviewError;
use vstd::prelude::*;

verus! {

/// A decoded instruction.
#[derive(Debug)]
pub enum MovieInstruction {
    /// Create a review (discriminator 0).
    AddMovieReview { title: Vec<u8>, rating: u8, description: Vec<u8> },
    /// Update a review's rating and description (discriminator 1).
    /// The title is carried by the wire format but never applied.
    UpdateMovieReview { title: Vec<u8>, rating: u8, description: Vec<u8> },
    /// Add a comment to a review (discriminator 2).
    AddComment { comment: Vec<u8> },
    /// One-time setup of the reward mint (discriminator 3, no payload).
    InitializeMint,
}

/// Mathematical image of a decoded instruction.
pub enum InstructionView {
    AddMovieReview { title: Seq<u8>, rating: u8, description: Seq<u8> },
    UpdateMovieReview { title: Seq<u8>, rating: u8, description: Seq<u8> },
    AddComment { comment: Seq<u8> },
    InitializeMint,
}

impl View for MovieInstruction {
    type V = InstructionView;

    open spec fn view(&self) -> InstructionView {
        match self {
            MovieInstruction::AddMovieReview { title, rating, description } =>
                InstructionView::AddMovieReview {
                title: title@,
                rating: *rating,
                description: description@,
            },
            MovieInstruction::UpdateMovieReview { title, rating, description } =>
                InstructionView::UpdateMovieReview {
                title: title@,
                rating: *rating,
                description: description@,
            },
            MovieInstruction::AddComment { comment } => InstructionView::AddComment {
                comment: comment@,
            },
            MovieInstruction::InitializeMint => InstructionView::InitializeMint,
        }
    }
}

/// The review payload that follows discriminators 0 and 1: title,
/// rating, description, with nothing left over.
pub open spec fn spec_unpack_review_payload(rest: Seq<u8>) -> Option<(Seq<u8>, u8, Seq<u8>)> {
    match spec_read_lp(rest) {
        None => None,
        Some((title, r1)) => match spec_read_u8(r1) {
            None => None,
            Some((rating, r2)) => match spec_read_lp(r2) {
                None => None,
                Some((description, r3)) => if r3.len() == 0 {
                    Some((title, rating, description))
                } else {
                    None
                },
            },
        },
    }
}

/// The instruction a byte buffer holds, if it parses.
pub open spec fn spec_unpack(b: Seq<u8>) -> Option<InstructionView> {
    if b.len() < 1 {
        None
    } else {
        let rest = b.subrange(1, b.len() as int);
        if b[0] == 0 || b[0] == 1 {
            match spec_unpack_review_payload(rest) {
                None => None,
                Some((title, rating, description)) => if b[0] == 0 {
                    Some(InstructionView::AddMovieReview { title, rating, description })
                } else {
                    Some(InstructionView::UpdateMovieReview { title, rating, description })
                },
            }
        } else if b[0] == 2 {
            match spec_read_lp(rest) {
                None => None,
                Some((comment, r1)) => if r1.len() == 0 {
                    Some(InstructionView::AddComment { comment })
                } else {
                    None
                },
            }
        } else if b[0] == 3 {
            Some(InstructionView::InitializeMint)
        } else {
            None
        }
    }
}

impl MovieInstruction {
    /// Parse an instruction buffer; rejects any buffer that no
    /// operation's wire shape matches exactly.
    pub fn unpack(input: &Vec<u8>) -> (r: Result<MovieInstruction, ReviewError>)
        ensures
            match r {
                Ok(i) => spec_unpack(input@) == Some(i@),
                Err(e) => spec_unpack(input@) is None && e == ReviewError::InvalidInstruction,
            },
    {
        if input.len() < 1 {
            return Err(ReviewError::InvalidInstruction);
        }
        let variant = input[0];
        if variant == 0 || variant == 1 {
            let (title, p1) = match read_lp(input, 1) {
                Some(x) => x,
                None => {
                    return Err(ReviewError::InvalidInstruction);
                },
            };
            let (rating, p2) = match read_u8(input, p1) {
                Some(x) => x,
                None => {
                    return Err(ReviewError::InvalidInstruction);
                },
            };
            let (description, p3) = match read_lp(input, p2) {
                Some(x) => x,
                None => {
                    return Err(ReviewError::InvalidInstruction);
                },
            };
            if p3 != input.len() {
                return Err(ReviewError::InvalidInstruction);
            }
            if variant == 0 {
                Ok(MovieInstruction::AddMovieReview { title, rating, description })
            } else {
                Ok(MovieInstruction::UpdateMovieReview { title, rating, description })
            }
        } else if variant == 2 {
            let (comment, p1) = match read_lp(input, 1) {
                Some(x) => x,
                None => {
                    return Err(ReviewError::InvalidInstruction);
                },
            };
            if p1 != input.len() {
                return Err(ReviewError::InvalidInstruction);
            }
            Ok(MovieInstruction::AddComment { comment })
        } else if variant == 3 {
            Ok(MovieInstruction::InitializeMint)
        } else {
            Err(ReviewError::InvalidInstruction)
        }
    }
}

} // verus!
