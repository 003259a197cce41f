//! The values that the store keeps, and how a value becomes bytes.

pub mod amount;
pub mod codec;
pub mod invoice;

pub use self::amount::Amount;
pub use self::invoice::{BalanceSource, Invoice, PaymentMethod};
use vstd::prelude::*;

verus! {

/// Why a value did not pass between its typed form and its bytes.
#[derive(Debug, Clone, Copy, PartialEq, Eq, Structural)]
pub enum CodecError {
    /// The value has no encoding.
    Unencodable,
    /// The bytes are not the encoding of any value.
    Corrupt,
}

/// A type whose values the typed store can keep.
///
/// An implementation fixes, over the mathematical view of its values, which
/// bytes encode a value and which value bytes decode to, and proves that
/// decoding undoes encoding.
pub trait Serializable: View + Sized {
    /// The bytes that encode `value`; `None` where it has no encoding.
    spec fn encoding(value: Self::V) -> Option<Seq<u8>>;

    /// The value that `bytes` encode; `None` where they encode none.
    spec fn decoding(bytes: Seq<u8>) -> Option<Self::V>;

    /// Decoding the encoding of a value gives the value back.
    proof fn lemma_round_trip(value: Self::V)
        ensures
            Self::encoding(value) matches Some(bytes) ==> Self::decoding(bytes) == Some(value),
    ;

    /// Encodes `self`.
    fn to_bin(&self) -> (out: Result<Vec<u8>, CodecError>)
        ensures
            match out {
                Ok(bytes) => Self::encoding(self@) == Some(bytes@),
                Err(e) => Self::encoding(self@) is None && e == CodecError::Unencodable,
            },
    ;

    /// Decodes `bytes`.
    fn from_bin(bytes: Vec<u8>) -> (out: Result<Self, CodecError>)
        ensures
            match out {
                Ok(value) => Self::decoding(bytes@) == Some(value@),
                Err(e) => Self::decoding(bytes@) is None && e == CodecError::Corrupt,
            },
    ;
}

} // verus!
