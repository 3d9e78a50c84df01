//! The selection dwell timer: selects a target by sustained pointing.

use vstd::prelude::*;
use crate::formula::Scalar;
use crate::protocol::Entity;

verus! {

/// A dwell under way: the target pointed at and the time, in nanoseconds,
/// at which the pointing began.
#[derive(Clone, Copy, Debug, PartialEq, Eq, Structural, Hash)]
pub struct Selection {
    pub target: Entity,
    pub since: u128,
}

/// What one observation of the pointer does to the dwell.
#[derive(Clone, Copy, Debug, PartialEq, Eq, Structural, Hash)]
pub struct Dwell {
    /// The dwell that is under way after the observation.
    pub selection: Option<Selection>,
    /// Whether the observation completed a dwell, so that the action of the
    /// target is due.
    pub fired: bool,
}

/// For how many nanoseconds the target has been pointed at. Time that runs
/// backwards counts as no time.
pub open spec fn dwelt(selection: Selection, now: u128) -> int {
    if now >= selection.since {
        now - selection.since
    } else {
        0
    }
}

/// What one observation does to the dwell. `hit` is the entity pointed at,
/// if any, `eligible` tells whether that entity can be selected by dwelling,
/// `now` is the current time and `delay` the length of a full dwell.
///
/// With no dwell under way, an eligible hit starts one. With one under way,
/// a hit on its target completes it once the delay has passed and keeps it
/// running before; anything else ends it without effect.
pub open spec fn observe_of(
    current: Option<Selection>,
    hit: Option<Entity>,
    eligible: bool,
    now: u128,
    delay: u128,
) -> Dwell {
    match current {
        None => if hit.is_some() && eligible {
            Dwell { selection: Some(Selection { target: hit.unwrap(), since: now }), fired: false }
        } else {
            Dwell { selection: None, fired: false }
        },
        Some(selection) => if hit == Some(selection.target) {
            if dwelt(selection, now) >= delay {
                Dwell { selection: None, fired: true }
            } else {
                Dwell { selection: current, fired: false }
            }
        } else {
            Dwell { selection: None, fired: false }
        },
    }
}

/// The number of nanoseconds in a second.
pub open spec fn second() -> u128 {
    1_000_000_000
}

/// The factor by which the marker grows while its target is dwelt on: one
/// plus the seconds dwelt so far.
pub open spec fn growth_of(selection: Selection, now: u128) -> Scalar {
    Scalar::Sum(
        Box::new(Scalar::Whole(1)),
        Box::new(
            Scalar::Quotient(
                Box::new(Scalar::Whole(dwelt(selection, now) as u128)),
                Box::new(Scalar::Whole(second())),
            ),
        ),
    )
}

impl Selection {
    /// For how many nanoseconds the target has been pointed at.
    pub fn dwelt(&self, now: u128) -> (elapsed: u128)
        ensures
            elapsed == dwelt(*self, now),
    {
        if now >= self.since {
            now - self.since
        } else {
            0
        }
    }

    /// The factor by which the marker grows while the target is dwelt on.
    pub fn growth(&self, now: u128) -> (factor: Scalar)
        ensures
            factor == growth_of(*self, now),
    {
        Scalar::Sum(
            Box::new(Scalar::Whole(1)),
            Box::new(
                Scalar::Quotient(
                    Box::new(Scalar::Whole(self.dwelt(now))),
                    Box::new(Scalar::Whole(1_000_000_000)),
                ),
            ),
        )
    }
}

/// Decides what one observation of the pointer does to the dwell.
pub fn observe(
    current: Option<Selection>,
    hit: Option<Entity>,
    eligible: bool,
    now: u128,
    delay: u128,
) -> (dwell: Dwell)
    ensures
        dwell == observe_of(current, hit, eligible, now, delay),
{
    match current {
        None => match hit {
            Some(entity) => {
                if eligible {
                    Dwell { selection: Some(Selection { target: entity, since: now }), fired: false }
                } else {
                    Dwell { selection: None, fired: false }
                }
            },
            None => Dwell { selection: None, fired: false },
        },
        Some(selection) => match hit {
            Some(entity) => {
                if entity == selection.target {
                    if selection.dwelt(now) >= delay {
                        Dwell { selection: None, fired: true }
                    } else {
                        Dwell { selection: current, fired: false }
                    }
                } else {
                    Dwell { selection: None, fired: false }
                }
            },
            None => Dwell { selection: None, fired: false },
        },
    }
}

} // verus!
