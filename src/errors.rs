use vstd::prelude::*;
use crate::naming::{decimal, push_zero_padded};

verus! {

/// A rejected configuration or scan set; always raised before any scan is
/// processed.
#[derive(Clone, Copy, Debug, PartialEq, Eq, Structural)]
pub enum ValidationError {
    /// The margin argument is not a non-negative integer.
    BadMargin,
    /// The parts argument is not an integer of at least 1.
    BadParts,
    /// The number of scans is odd.
    OddScanCount { count: usize },
    /// The number of scans is not a multiple of the number of parts.
    NotMultipleOfParts { parts: usize, count: usize },
    /// The margin leaves no pixels in one of the halves of a rotated scan.
    MarginTooLarge { margin: u32, width: u32, height: u32 },
}

/// The text that describes a validation error.
pub open spec fn validation_message(e: ValidationError) -> Seq<char> {
    match e {
        ValidationError::BadMargin => "margin should be an integer >= 0"@,
        ValidationError::BadParts => "parts should be an integer > 0"@,
        ValidationError::OddScanCount { count } => "The number of pictures must be a multiple of 2 (got "@
            + decimal(count as nat) + ")"@,
        ValidationError::NotMultipleOfParts { parts, count } => "The number of pictures must be a multiple of "@
            + decimal(parts as nat) + " (got "@ + decimal(count as nat) + ")"@,
        ValidationError::MarginTooLarge { margin, width, height } => "A margin of "@ + decimal(
            margin as nat,
        ) + " pixels leaves nothing of a "@ + decimal(width as nat) + "x"@ + decimal(height as nat)
            + " picture"@,
    }
}

impl ValidationError {
    /// Human-readable description of the error.
    pub fn message(&self) -> (r: String)
        ensures
            r@ == validation_message(*self),
    {
        let mut out = String::new();
        match *self {
            ValidationError::BadMargin => {
                out.append("margin should be an integer >= 0");
            },
            ValidationError::BadParts => {
                out.append("parts should be an integer > 0");
            },
            ValidationError::OddScanCount { count } => {
                out.append("The number of pictures must be a multiple of 2 (got ");
                push_zero_padded(&mut out, count, 0);
                out.append(")");
            },
            ValidationError::NotMultipleOfParts { parts, count } => {
                out.append("The number of pictures must be a multiple of ");
                push_zero_padded(&mut out, parts, 0);
                out.append(" (got ");
                push_zero_padded(&mut out, count, 0);
                out.append(")");
            },
            ValidationError::MarginTooLarge { margin, width, height } => {
                out.append("A margin of ");
                push_zero_padded(&mut out, margin as usize, 0);
                out.append(" pixels leaves nothing of a ");
                push_zero_padded(&mut out, width as usize, 0);
                out.append("x");
                push_zero_padded(&mut out, height as usize, 0);
                out.append(" picture");
            },
        }
        assert(out@ =~= validation_message(*self));
        out
    }
}

} // verus!
