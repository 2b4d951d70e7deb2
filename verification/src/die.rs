//! The die model: a die's shape kind, its last-rolled face value, and the
//! time of its last roll. Rolling draws a fresh value uniformly from
//! `1..=faces` through the random number generator.

use rand::Rng;
use vstd::prelude::*;

verus! {

/// The six supported polyhedron kinds, each tagging a face count.
#[derive(Clone, Copy, Debug, PartialEq, Eq, Structural)]
pub enum DieKind {
    Four,
    Six,
    Eight,
    Ten,
    Twelve,
    Twenty,
}

/// The number of faces of a die of the given kind.
pub open spec fn face_count(kind: DieKind) -> nat {
    match kind {
        DieKind::Four => 4,
        DieKind::Six => 6,
        DieKind::Eight => 8,
        DieKind::Ten => 10,
        DieKind::Twelve => 12,
        DieKind::Twenty => 20,
    }
}

impl DieKind {
    /// The number of faces of a die of this kind.
    pub fn faces(self) -> (n: u32)
        ensures
            n == face_count(self),
    {
        match self {
            DieKind::Four => 4,
            DieKind::Six => 6,
            DieKind::Eight => 8,
            DieKind::Ten => 10,
            DieKind::Twelve => 12,
            DieKind::Twenty => 20,
        }
    }
}

/// Declares `std::time::Instant`, an opaque monotonic-clock timestamp, so
/// that a die can carry the time of its last roll.
#[verifier::external_type_specification]
#[verifier::external_body]
pub struct ExInstant(std::time::Instant);

/// Relies on `std::time::Instant::now` for the current time of the
/// monotonic clock. Nothing is promised of the value: it depends on when
/// the call runs.
#[verifier::external_body]
fn instant_now() -> std::time::Instant {
    std::time::Instant::now()
}

/// Relies on `rand::Rng::gen_range` over `lo..=hi` (and `rand::thread_rng`
/// for the generator): it returns a value of the uniform distribution over
/// the given range, and panics only on an empty range.
#[verifier::external_body]
fn sample_between(lo: u32, hi: u32) -> (r: u32)
    requires
        lo <= hi,
    ensures
        lo <= r <= hi,
{
    rand::thread_rng().gen_range(lo..=hi)
}

/// One placed die: its kind, its current face value, and the time of its
/// last roll.
pub struct Die {
    /// The time of the last roll; absent only on a value built by hand.
    pub time: Option<std::time::Instant>,
    /// The shape kind; never changes after creation.
    pub kind: DieKind,
    /// The current face value, always in `1..=face_count(kind)`.
    pub val: u32,
}

impl Die {
    /// A die value is valid when its face value lies in `1..=faces(kind)`.
    pub open spec fn valid(self) -> bool {
        1 <= self.val <= face_count(self.kind)
    }

    /// Creates a die of the given kind with a fresh uniformly rolled value
    /// and the current time.
    pub fn new(kind: DieKind) -> (die: Die)
        ensures
            die.kind == kind,
            die.valid(),
            die.time is Some,
    {
        let val = Self::generate_roll(kind);
        Die { time: Some(instant_now()), kind, val }
    }

    /// Re-rolls the die in place: a fresh uniform value and a fresh
    /// timestamp. The kind never changes.
    pub fn roll(&mut self)
        ensures
            final(self).kind == old(self).kind,
            final(self).valid(),
            final(self).time is Some,
    {
        self.time = Some(instant_now());
        self.val = Self::generate_roll(self.kind);
    }

    /// Draws a uniform value in `1..=face_count(kind)`.
    pub fn generate_roll(kind: DieKind) -> (val: u32)
        ensures
            1 <= val <= face_count(kind),
    {
        match kind {
            DieKind::Four => sample_between(1, 4),
            DieKind::Six => sample_between(1, 6),
            DieKind::Eight => sample_between(1, 8),
            DieKind::Ten => sample_between(1, 10),
            DieKind::Twelve => sample_between(1, 12),
            DieKind::Twenty => sample_between(1, 20),
        }
    }
}

} // verus!
