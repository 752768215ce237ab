//! The debris field: tracked bodies, the entities that render them, and the
//! rule that turns one frame's propagation outcomes into world positions.

use crate::fixed::{lemma_trunc_div_monotonic, lemma_trunc_div_multiple, trunc_div, ONE};
use crate::vector::Vec3;
use vstd::prelude::*;

verus! {

/// Equatorial radius of the planet in metres. The rendered planet has radius
/// one, so this many metres make one world unit.
pub const EARTH_RADIUS_M: i64 = 6_378_137;

/// Tag of a rendered debris entity: the index of its body in the field.
#[derive(Clone, Copy, Debug, PartialEq, Eq, Structural)]
pub struct Debris {
    pub sat_index: usize,
}

/// One tracked body. It owns its propagation state, which this library
/// carries and never reads.
pub struct DebrisSat<S> {
    pub satrec: S,
}

/// The tracked bodies, in the order of the element records they were made
/// from. A body's index is its position in `sats`.
pub struct DebrisField<S> {
    pub sats: Vec<DebrisSat<S>>,
}

/// A length in metres as a fixed-point number of world units, rounded toward
/// zero.
pub open spec fn to_world(metres: int) -> int {
    trunc_div(metres * ONE as int, EARTH_RADIUS_M as int)
}

/// The world position of a propagated position `r`, given in metres in the
/// propagator's frame (first two axes in the equatorial plane, third axis
/// through the pole): scaled to world units, and with the second and third
/// axes exchanged, because the world's second axis points up.
pub open spec fn spec_world_position(r: Seq<i64>) -> Vec3 {
    Vec3 { x: to_world(r[0] as int) as i64, y: to_world(r[2] as int) as i64, z: to_world(r[1] as int) as i64 }
}

/// A length in world units is shorter, as a number, than the same length in
/// metres.
pub proof fn lemma_to_world_bounds(metres: int)
    ensures
        metres >= 0 ==> 0 <= to_world(metres) <= metres,
        metres <= 0 ==> metres <= to_world(metres) <= 0,
{
    let one = ONE as int;
    let radius = EARTH_RADIUS_M as int;
    lemma_trunc_div_multiple(metres, radius);
    lemma_trunc_div_multiple(0, radius);
    assert(0 * radius == 0) by (nonlinear_arith);
    if metres >= 0 {
        assert(0 <= metres * one <= metres * radius) by (nonlinear_arith)
            requires
                metres >= 0,
                0 <= one <= radius,
        ;
        lemma_trunc_div_monotonic(metres * one, metres * radius, radius);
        lemma_trunc_div_monotonic(0, metres * one, radius);
    } else {
        assert(metres * radius <= metres * one <= 0) by (nonlinear_arith)
            requires
                metres <= 0,
                0 <= one <= radius,
        ;
        lemma_trunc_div_monotonic(metres * radius, metres * one, radius);
        lemma_trunc_div_monotonic(metres * one, 0, radius);
    }
}

/// A propagated position `(a, b, c)` has the world position
/// `(a, c, b)`, each coordinate divided by the planet's radius; a point on the
/// planet's equator lies one world unit from the centre.
pub proof fn lemma_axis_permutation(a: i64, b: i64, c: i64)
    ensures
        spec_world_position(seq![a, b, c]).x == to_world(a as int),
        spec_world_position(seq![a, b, c]).y == to_world(c as int),
        spec_world_position(seq![a, b, c]).z == to_world(b as int),
        to_world(EARTH_RADIUS_M as int) == ONE,
        to_world(-EARTH_RADIUS_M as int) == -ONE,
        to_world(0) == 0,
{
    lemma_to_world_bounds(a as int);
    lemma_to_world_bounds(b as int);
    lemma_to_world_bounds(c as int);
}

/// Converts a length in metres to world units.
fn metres_to_world(metres: i64) -> (w: i64)
    ensures
        w == to_world(metres as int),
{
    proof {
        lemma_to_world_bounds(metres as int);
    }
    let wide: i128 = metres as i128 * ONE as i128;
    (wide / EARTH_RADIUS_M as i128) as i64
}

/// Maps a propagated position in metres to its world position.
pub fn world_position(r: &[i64; 3]) -> (p: Vec3)
    ensures
        p == spec_world_position(r@),
        p.x == to_world(r[0] as int),
        p.y == to_world(r[2] as int),
        p.z == to_world(r[1] as int),
{
    Vec3 { x: metres_to_world(r[0]), y: metres_to_world(r[2]), z: metres_to_world(r[1]) }
}

/// The position of a body after one propagation attempt: its new world
/// position where the propagator gave one, its previous position where the
/// propagator failed.
pub open spec fn spec_next_position(previous: Vec3, outcome: Option<[i64; 3]>) -> Vec3 {
    match outcome {
        Some(r) => spec_world_position(r@),
        None => previous,
    }
}

/// The position of a rendered entity after a frame in which the body of
/// index `i` had the propagation outcome `outcomes[i]`. An entity whose index
/// names no body keeps its position.
pub open spec fn spec_entity_position(entity: (Debris, Vec3), outcomes: Seq<Option<[i64; 3]>>) -> Vec3 {
    if entity.0.sat_index < outcomes.len() {
        spec_next_position(entity.1, outcomes[entity.0.sat_index as int])
    } else {
        entity.1
    }
}

/// Gives the position of a body after one propagation attempt. `outcome` is
/// the propagated position in metres, or `None` where the propagator failed.
pub fn next_position(previous: Vec3, outcome: &Option<[i64; 3]>) -> (p: Vec3)
    ensures
        p == spec_next_position(previous, *outcome),
{
    match outcome {
        Some(r) => world_position(r),
        None => previous,
    }
}

/// Builds the debris field from the propagation states of the loaded element
/// records, and one entity for each body. The body made from record `i` has
/// index `i`; its entity carries that index and starts at the origin.
pub fn setup_debris_field<S>(sat_recs: Vec<S>) -> (r: (DebrisField<S>, Vec<(Debris, Vec3)>))
    ensures
        r.0.sats.len() == sat_recs.len(),
        r.1.len() == sat_recs.len(),
        forall|i: int| 0 <= i < sat_recs.len() ==> (#[trigger] r.0.sats[i]).satrec == sat_recs[i],
        forall|i: int| 0 <= i < sat_recs.len() ==> #[trigger] r.1[i] == (Debris { sat_index: i as usize }, Vec3::spec_zero()),
{
    let mut sats: Vec<DebrisSat<S>> = Vec::new();
    let mut entities: Vec<(Debris, Vec3)> = Vec::new();
    for sat in it: sat_recs
        invariant
            sats.len() == it.index(),
            entities.len() == it.index(),
            it.seq() == sat_recs@,
            forall|i: int| 0 <= i < sats.len() ==> (#[trigger] sats[i]).satrec == sat_recs[i],
            forall|i: int| 0 <= i < entities.len() ==> #[trigger] entities[i] == (Debris { sat_index: i as usize }, Vec3::spec_zero()),
    {
        let sat_index: usize = sats.len();
        sats.push(DebrisSat { satrec: sat });
        entities.push((Debris { sat_index }, Vec3::zero()));
    }
    (DebrisField { sats }, entities)
}

/// Applies one frame's propagation outcomes to the rendered entities.
/// `outcomes[i]` is what the propagator gave for the body of index `i` at the
/// frame's date: its position in metres, or `None` where it failed. Each
/// entity is treated by itself: it moves to the world position of its body,
/// or keeps its position where its body's propagation failed.
pub fn update_debris_positions(entities: &mut Vec<(Debris, Vec3)>, outcomes: &Vec<Option<[i64; 3]>>)
    ensures
        final(entities).len() == old(entities).len(),
        forall|i: int| 0 <= i < old(entities).len() ==> (#[trigger] final(entities)[i]).0 == old(entities)[i].0,
        forall|i: int| 0 <= i < old(entities).len() ==> (#[trigger] final(entities)[i]).1 == spec_entity_position(old(entities)[i], outcomes@),
{
    let mut i: usize = 0;
    while i < entities.len()
        invariant
            i <= entities.len(),
            entities.len() == old(entities).len(),
            forall|k: int| 0 <= k < entities.len() ==> (#[trigger] entities[k]).0 == old(entities)[k].0,
            forall|k: int| 0 <= k < i ==> (#[trigger] entities[k]).1 == spec_entity_position(old(entities)[k], outcomes@),
            forall|k: int| i <= k < entities.len() ==> (#[trigger] entities[k]).1 == old(entities)[k].1,
        decreases entities.len() - i,
    {
        let debris: Debris = entities[i].0;
        if debris.sat_index < outcomes.len() {
            let position: Vec3 = next_position(entities[i].1, &outcomes[debris.sat_index]);
            entities.set(i, (debris, position));
        }
        i += 1;
    }
}

} // verus!
