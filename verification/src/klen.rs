//! The k-mer length as it arrives on the command line.

use crate::text::{parse_usize, parsed_usize};
use vstd::prelude::*;

verus! {

/// The largest k-mer length that the index supports.
pub const MAX_KLEN: usize = 31;

/// Why a k-mer length was refused.
#[derive(Clone, Copy, Debug, PartialEq, Eq, Structural)]
pub enum KlenError {
    /// The text is not a number that a `usize` holds.
    NotANumber,
    /// The number is above [`MAX_KLEN`].
    TooLarge(usize),
    /// The number is even.
    Even(usize),
}

/// Whether `k` can be used as a k-mer length: odd and at most [`MAX_KLEN`].
pub open spec fn valid_klen(k: usize) -> bool {
    k <= MAX_KLEN && k % 2 == 1
}

/// What is made of the text `s` when it is read as a k-mer length. The size
/// is judged before the parity.
pub open spec fn klen_verdict(s: Seq<char>) -> Result<usize, KlenError> {
    match parsed_usize(s) {
        None => Err(KlenError::NotANumber),
        Some(k) => if k > MAX_KLEN {
            Err(KlenError::TooLarge(k))
        } else if k % 2 == 0 {
            Err(KlenError::Even(k))
        } else {
            Ok(k)
        },
    }
}

/// Reads a k-mer length and accepts it only if it is odd and at most
/// [`MAX_KLEN`].
pub fn klen_is_good(s: &str) -> (r: Result<usize, KlenError>)
    ensures
        r == klen_verdict(s@),
        r matches Ok(k) ==> valid_klen(k) && 1 <= k,
{
    match parse_usize(s) {
        None => Err(KlenError::NotANumber),
        Some(k) => {
            if k > MAX_KLEN {
                Err(KlenError::TooLarge(k))
            } else if k % 2 == 0 {
                Err(KlenError::Even(k))
            } else {
                Ok(k)
            }
        },
    }
}

} // verus!
