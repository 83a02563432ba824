//! Rolling a random event number, seeded from a fresh `RandomState` and the
//! clock, as the cat does each time an animation comes round.
use std::collections::hash_map::{DefaultHasher, RandomState};
use std::hash::{BuildHasher, Hasher};
use std::time::{Duration, Instant};
use vstd::prelude::*;
use vstd::std_specs::hash::DefaultHasherAdditionalSpecFns;

verus! {

/// `std::time::Instant`, carried through without being looked into.
#[verifier::external_type_specification]
#[verifier::external_body]
pub struct ExInstant(Instant);

/// Calls `std::time::Instant::now`. What it returns depends on the clock, so
/// nothing is promised of it.
#[verifier::external_body]
fn instant_now() -> (now: Instant) {
    Instant::now()
}

/// Calls `std::time::Instant::elapsed`. What it returns depends on the clock,
/// so nothing is promised of it.
#[verifier::external_body]
fn elapsed_since(start: &Instant) -> (span: Duration) {
    start.elapsed()
}

/// Calls `std::time::Duration::as_nanos`. A `Duration` is opaque here, so no
/// clause ties the count to it.
#[verifier::external_body]
fn whole_nanos(span: &Duration) -> (nanos: u128) {
    span.as_nanos()
}

/// Calls `std::collections::hash_map::RandomState::new`, whose keys are
/// random; nothing is promised of the result.
#[verifier::external_body]
fn fresh_random_state() -> (state: RandomState) {
    RandomState::new()
}

/// Calls `std::hash::BuildHasher::build_hasher` on a `RandomState`. The
/// hasher carries that state's random keys; nothing is promised of it.
#[verifier::external_body]
fn hasher_from(state: &RandomState) -> (hasher: DefaultHasher) {
    state.build_hasher()
}

/// Calls `std::hash::Hasher::write_u128`, which feeds the integer's bytes to
/// the hasher. The hasher's keys are random, so no clause states its new
/// contents.
#[verifier::external_body]
fn feed_u128(hasher: &mut DefaultHasher, value: u128) {
    hasher.write_u128(value)
}

/// `min + raw % (max - min + 1)`: the number of the range `min..=max` that a
/// raw draw lands on.
pub open spec fn range_pick(raw: u32, min: u32, max: u32) -> int {
    min + raw % ((max - min + 1) as u32)
}

/// Folds a raw draw into `min..=max`, as `(raw % (max - min + 1)) + min`.
pub fn fold_into_range(raw: u32, min: u32, max: u32) -> (n: u32)
    requires
        min <= max,
        max - min < u32::MAX,
    ensures
        n == range_pick(raw, min, max),
        min <= n <= max,
{
    let width: u32 = max - min + 1;
    (raw % width) + min
}

/// A raw draw inside the range's width is kept as the offset from `min`, and
/// draws a whole width apart land on the same number: every number of
/// `min..=max` is the fold of some draw, and the fold follows the draw.
pub proof fn lemma_fold_follows_the_draw(raw: u32, min: u32, max: u32)
    requires
        min <= max,
        max - min < u32::MAX,
    ensures
        raw <= max - min ==> range_pick(raw, min, max) == min + raw,
        raw as int + (max - min + 1) <= u32::MAX ==> range_pick(
            (raw + (max - min + 1)) as u32,
            min,
            max,
        ) == range_pick(raw, min, max),
        min <= range_pick(raw, min, max) <= max,
{
    let w: u32 = (max - min + 1) as u32;
    assert(raw < w ==> raw % w == raw) by (nonlinear_arith)
        requires w > 0;
    assert(raw as int + w <= u32::MAX ==> ((raw + w) as u32) % w == raw % w) by (nonlinear_arith)
        requires w > 0;
}

/// A random number in `min..=max`. The draw hashes the nanoseconds elapsed
/// since a fresh instant with a freshly seeded hasher, keeps the low 32 bits,
/// and folds them into the range.
pub fn rand_range(min: u32, max: u32) -> (n: u32)
    requires
        min <= max,
        max - min < u32::MAX,
    ensures
        min <= n <= max,
        exists|raw: u32| n == range_pick(raw, min, max),
        exists|writes: Seq<Seq<u8>>| n == range_pick(DefaultHasher::spec_finish(writes) as u32, min, max),
{
    let state = fresh_random_state();
    let mut hasher = hasher_from(&state);
    let start = instant_now();
    let span = elapsed_since(&start);
    feed_u128(&mut hasher, whole_nanos(&span));
    let digest: u64 = hasher.finish();
    let raw: u32 = digest as u32;
    let n = fold_into_range(raw, min, max);
    assert(n == range_pick(DefaultHasher::spec_finish(hasher@) as u32, min, max));
    n
}

} // verus!
