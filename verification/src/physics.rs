//! The physics model assembler: finds out which dialect an input is written
//! in, and decodes it with the records of the matching generation.

use crate::error::{agrees, DecodeError};
use crate::namedb::NameDbs;
use crate::util::{tag_at, ByteCursor};
use vstd::prelude::*;

pub mod m1;
pub mod m2;

verus! {

/// Whether `tag` is one of the five tags that a flat physics file is made of.
pub open spec fn is_flat_tag(tag: [u8; 4]) -> bool {
    ||| tag == m1::MONSTER_PHYSICS_TAG
    ||| tag == m1::EFFECT_PHYSICS_TAG
    ||| tag == m1::PROJECTILE_PHYSICS_TAG
    ||| tag == m1::PHYSICS_PHYSICS_TAG
    ||| tag == m1::WEAPON_PHYSICS_TAG
}

/// Whether two tags are the same.
pub fn same_tag(a: &[u8; 4], b: &[u8; 4]) -> (same: bool)
    ensures
        same == (*a == *b),
{
    let same = a[0] == b[0] && a[1] == b[1] && a[2] == b[2] && a[3] == b[3];
    assert(same == (*a =~= *b));
    same
}

/// Whether the input is a flat physics file of the older generation: whether
/// the next four bytes are one of its tags. Nothing is consumed.
pub fn is_m1_physics(input: &ByteCursor) -> (r: Result<bool, DecodeError>)
    ensures
        r is Ok <==> input@.has(4),
        r matches Ok(flat) ==> flat == is_flat_tag(tag_at(input@.source, input@.position)),
        r matches Err(e) ==> e == DecodeError::IoFailure,
{
    let mut probe = *input;
    let tag = probe.read_tag()?;
    let monsters = same_tag(&tag, &m1::MONSTER_PHYSICS_TAG);
    let effects = same_tag(&tag, &m1::EFFECT_PHYSICS_TAG);
    let projectiles = same_tag(&tag, &m1::PROJECTILE_PHYSICS_TAG);
    let movement = same_tag(&tag, &m1::PHYSICS_PHYSICS_TAG);
    let weapons = same_tag(&tag, &m1::WEAPON_PHYSICS_TAG);
    Ok(monsters || effects || projectiles || movement || weapons)
}

/// How a physics file frames its chunks.
#[derive(Clone, Copy, Debug, PartialEq, Eq)]
pub enum Dialect {
    /// A bare stream of chunks, which holds records of the older generation.
    Flat,
    /// An archive with a directory of subfiles, which holds records of the
    /// newer generation.
    Archive,
}

/// A physics model of either generation.
#[derive(Clone, Debug, PartialEq, Eq)]
pub enum PhysicsModel {
    M1(m1::Physics),
    M2(m2::Physics),
}

/// A [`PhysicsModel`] as a value.
pub enum PhysicsModelView {
    M1(m1::PhysicsView),
    M2(m2::PhysicsView),
}

impl View for PhysicsModel {
    type V = PhysicsModelView;

    open spec fn view(&self) -> PhysicsModelView {
        match self {
            PhysicsModel::M1(physics) => PhysicsModelView::M1(physics@),
            PhysicsModel::M2(physics) => PhysicsModelView::M2(physics@),
        }
    }
}

impl DeepView for PhysicsModel {
    type V = PhysicsModelView;

    open spec fn deep_view(&self) -> PhysicsModelView {
        self@
    }
}

/// The dialect of the input that starts at `at`: flat where its first four
/// bytes are a tag of the flat format, else an archive.
pub open spec fn dialect_of(bytes: Seq<u8>, at: int) -> Result<Dialect, DecodeError> {
    if at + 4 > bytes.len() {
        Err(DecodeError::IoFailure)
    } else if is_flat_tag(tag_at(bytes, at)) {
        Ok(Dialect::Flat)
    } else {
        Ok(Dialect::Archive)
    }
}

/// The model that the input from `at` on holds, decoded as its dialect asks.
pub open spec fn model_of(bytes: Seq<u8>, at: int, names: &NameDbs) -> Result<
    PhysicsModelView,
    DecodeError,
> {
    match dialect_of(bytes, at) {
        Err(e) => Err(e),
        Ok(Dialect::Flat) => match m1::physics_of(bytes, at, names) {
            Ok(physics) => Ok(PhysicsModelView::M1(physics)),
            Err(e) => Err(e),
        },
        Ok(Dialect::Archive) => match m2::physics_of(bytes, at, names) {
            Ok(physics) => Ok(PhysicsModelView::M2(physics)),
            Err(e) => Err(e),
        },
    }
}

/// Finds out the dialect of the input by its first four bytes. Nothing is
/// consumed.
pub fn detect_dialect(input: &ByteCursor) -> (r: Result<Dialect, DecodeError>)
    ensures
        r == dialect_of(input@.source, input@.position),
{
    if is_m1_physics(input)? {
        Ok(Dialect::Flat)
    } else {
        Ok(Dialect::Archive)
    }
}

/// Decodes a physics file of either dialect. There is no partial result: the
/// first chunk that is missing or broken fails the whole call.
pub fn read_physics(input: ByteCursor, namedbs: &NameDbs) -> (r: Result<PhysicsModel, DecodeError>)
    ensures
        agrees(r, model_of(input@.source, input@.position, namedbs)),
{
    match detect_dialect(&input)? {
        Dialect::Flat => {
            let physics = m1::convert_physics(input, namedbs)?;
            Ok(PhysicsModel::M1(physics))
        },
        Dialect::Archive => {
            let physics = m2::convert_physics(input, namedbs)?;
            Ok(PhysicsModel::M2(physics))
        },
    }
}

} // verus!
