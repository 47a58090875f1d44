//! What a stored record is: a value with a mathematical model and a byte
//! form that reads back as the model it was written from.

use vstd::prelude::*;

verus! {

/// The largest byte form a table accepts.
pub const MAX_RECORD_BYTES: usize = 1024;

/// A kind of record that a table can store. Its view is its model.
pub trait Record: View + Sized {
    /// The byte form of the model `m`.
    spec fn wire(m: Self::V) -> Seq<u8>;

    /// The model that `b` is the byte form of, if it is one.
    spec fn parse(b: Seq<u8>) -> Option<Self::V>;

    /// Byte forms of bounded length read back as the model they were
    /// written from.
    proof fn wire_reads_back(m: Self::V)
        requires
            Self::wire(m).len() <= MAX_RECORD_BYTES,
        ensures
            Self::parse(Self::wire(m)) == Some(m),
    ;

    /// The byte form of this record.
    fn to_bytes(&self) -> (b: Vec<u8>)
        ensures
            b@ == Self::wire(self@),
    ;

    /// The record that `b` holds; `None` where `b` is not a byte form.
    fn from_bytes(b: &Vec<u8>) -> (r: Option<Self>)
        ensures
            match r {
                Some(x) => Self::parse(b@) == Some(x@),
                None => Self::parse(b@) is None,
            },
    ;
}

/// Whether the byte form of `m` is short enough to be stored.
pub open spec fn fits<R: Record>(m: R::V) -> bool {
    R::wire(m).len() <= MAX_RECORD_BYTES
}

} // verus!
