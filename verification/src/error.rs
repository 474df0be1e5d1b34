//! What can go wrong while a bank is decoded.

use vstd::prelude::*;

verus! {

/// The ways in which decoding a bank, or rebuilding a routing tree, fails.
#[derive(Clone, Copy, Debug, PartialEq, Eq, Structural)]
pub enum ParseError {
    /// One of the two leading chunks is truncated, or the bank header names a
    /// format version other than the supported one.
    InvalidSoundbankHeader,
    /// An object record of the hierarchy is truncated or malformed, or its
    /// declared end lies beyond the largest offset that a cursor holds.
    InvalidObject,
    /// The declared length of a routing table is no multiple of its record size.
    PathLengthNotAligned,
    /// A routing-table record was asked for beyond the end of the table.
    PathIndexOutOfBounds,
}

impl ParseError {
    /// The sentence that describes each failure.
    pub open spec fn text(self) -> Seq<char> {
        match self {
            ParseError::InvalidSoundbankHeader => "Invalid Soundbank Header"@,
            ParseError::InvalidObject => "Invalid hierarchy object"@,
            ParseError::PathLengthNotAligned =>
                "path_selection_length should be exactly multiple of 0xC"@,
            ParseError::PathIndexOutOfBounds => "Index exceeded path size"@,
        }
    }

    /// A sentence that describes the failure.
    pub fn message(&self) -> (text: &'static str)
        ensures
            text@ == self.text(),
    {
        match self {
            ParseError::InvalidSoundbankHeader => {
                proof {
                    reveal_strlit("Invalid Soundbank Header");
                }
                "Invalid Soundbank Header"
            },
            ParseError::InvalidObject => {
                proof {
                    reveal_strlit("Invalid hierarchy object");
                }
                "Invalid hierarchy object"
            },
            ParseError::PathLengthNotAligned => {
                proof {
                    reveal_strlit("path_selection_length should be exactly multiple of 0xC");
                }
                "path_selection_length should be exactly multiple of 0xC"
            },
            ParseError::PathIndexOutOfBounds => {
                proof {
                    reveal_strlit("Index exceeded path size");
                }
                "Index exceeded path size"
            },
        }
    }
}

} // verus!
