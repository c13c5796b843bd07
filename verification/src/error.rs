//! The ways in which decoding can fail.

use vstd::prelude::*;

verus! {

/// The kinds of record whose chunk must hold a whole number of records.
#[derive(Clone, Copy, Debug, PartialEq, Eq)]
pub enum EntityKind {
    Monster,
    Effect,
    Projectile,
    Weapon,
}

/// What is structurally wrong with a container.
#[derive(Clone, Copy, Debug, PartialEq, Eq)]
pub enum ContainerFault {
    /// The input starts with a tag of the flat format, but an archive was
    /// asked for.
    FlatDialect,
    /// The reserved word of an embedded chunk header is not zero. `index` is
    /// the chunk's place in its subfile, `tag` its tag, and `offset` the
    /// place of its header within the subfile.
    ReservedNotZero { index: usize, tag: [u8; 4], offset: u64 },
}

/// Why a decoding step failed. Every failure is final: no decoder returns a
/// partial result.
#[derive(Clone, Copy, Debug, PartialEq, Eq)]
pub enum DecodeError {
    /// The input ended before the bytes that were asked for.
    IoFailure,
    /// The container's framing is broken.
    MalformedContainer(ContainerFault),
    /// No chunk carries the tag.
    ChunkNotFound([u8; 4]),
    /// A chunk's payload is not a whole number of records: the kind of record,
    /// the payload's length and the size of one record.
    RecordSizeMismatch(EntityKind, usize, usize),
}

/// Whether the outcome `r` of a decoder is the one that `model` gives: the
/// same error, or a value whose view is the model's.
pub open spec fn agrees<T: DeepView>(
    r: Result<T, DecodeError>,
    model: Result<T::V, DecodeError>,
) -> bool {
    match r {
        Ok(value) => model == Ok::<T::V, DecodeError>(value.deep_view()),
        Err(e) => model == Err::<T::V, DecodeError>(e),
    }
}

} // verus!
