//! Random triggering of sound effects, and the check that notices when the
//! effect being shown has finished playing.
use vstd::prelude::*;

use crate::control::StateStatus;
use rand::Rng;

verus! {

#[verifier::external_type_specification]
#[verifier::external_body]
pub struct ExThreadRng(rand::rngs::ThreadRng);

/// Relies on `Rng::random_range` over `0..n`: an index below `n` (it panics
/// on an empty range).
#[verifier::external_body]
fn random_index(rng: &mut rand::rngs::ThreadRng, n: usize) -> (r: usize)
    requires
        n > 0,
    ensures
        r < n,
{
    rng.random_range(0..n)
}

/// Whether `name` is the name of the effect at `j`.
pub open spec fn names_effect(names: Seq<String>, j: int, name: Seq<char>) -> bool {
    0 <= j < names.len() && names[j]@ == name
}

/// The first effect named `candidates[idx]`, or `None` when no effect has
/// that name.
pub fn pick_effect(candidates: &Vec<String>, names: &Vec<String>, idx: usize) -> (r: Option<usize>)
    requires
        idx < candidates@.len(),
    ensures
        match r {
            Some(j) => names_effect(names@, j as int, candidates@[idx as int]@) && forall|k: int|
                0 <= k < j ==> !names_effect(names@, k, candidates@[idx as int]@),
            None => forall|k: int|
                0 <= k < names@.len() ==> !names_effect(names@, k, candidates@[idx as int]@),
        },
{
    let wanted = &candidates[idx];
    let mut j: usize = 0;
    while j < names.len()
        invariant
            j <= names@.len(),
            *wanted == candidates@[idx as int],
            forall|k: int| 0 <= k < j ==> !names_effect(names@, k, candidates@[idx as int]@),
        decreases names@.len() - j,
    {
        if names[j] == *wanted {
            return Some(j);
        }
        j = j + 1;
    }
    None
}

/// Draws one of `candidates` at random and returns the first effect of that
/// name, if there is one; whatever the draw, an effect returned carries the
/// name of some candidate.
pub fn draw_effect(rng: &mut rand::rngs::ThreadRng, candidates: &Vec<String>, names: &Vec<String>) -> (r: Option<usize>)
    requires
        candidates@.len() > 0,
    ensures
        match r {
            Some(j) => exists|k: int|
                0 <= k < candidates@.len() && names_effect(names@, j as int, #[trigger] candidates@[k]@),
            None => true,
        },
{
    let idx = random_index(rng, candidates.len());
    pick_effect(candidates, names, idx)
}

/// What the control loop makes of the player: `has_data` tells whether an
/// effect is shown, `active` whether a session still decodes. Returns the
/// status and whether the shown effect is to be cleared, which it is once
/// its session has gone.
pub fn playback_status(has_data: bool, active: bool) -> (r: (StateStatus, bool))
    ensures
        r == (if !has_data {
            (StateStatus::Unaffected, false)
        } else if !active {
            (StateStatus::Updated, true)
        } else {
            (StateStatus::IdleRender, false)
        }),
{
    if has_data {
        if !active {
            return (StateStatus::Updated, true);
        }
        return (StateStatus::IdleRender, false);
    }
    (StateStatus::Unaffected, false)
}

} // verus!
