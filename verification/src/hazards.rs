//! The admission of hazards: a device accepts an action only when every
//! hazard of the action is among those the device allows. Hazards are
//! named by their identifiers.
use vstd::prelude::*;

verus! {

/// The first hazard of `hazards`, in order, that `allowed` does not hold;
/// `None` when `allowed` holds them all.
pub open spec fn first_disallowed(hazards: Seq<u16>, allowed: Seq<u16>) -> Option<u16>
    decreases hazards.len(),
{
    if hazards.len() == 0 {
        None
    } else if !allowed.contains(hazards[0]) {
        Some(hazards[0])
    } else {
        first_disallowed(hazards.drop_first(), allowed)
    }
}

proof fn lemma_first_disallowed_none(hazards: Seq<u16>, allowed: Seq<u16>)
    ensures
        first_disallowed(hazards, allowed) is None <==> forall|i: int|
            0 <= i < hazards.len() ==> allowed.contains(#[trigger] hazards[i]),
    decreases hazards.len(),
{
    if hazards.len() > 0 {
        lemma_first_disallowed_none(hazards.drop_first(), allowed);
        if first_disallowed(hazards, allowed) is None {
            assert forall|i: int| 0 <= i < hazards.len() implies allowed.contains(
                #[trigger] hazards[i],
            ) by {
                if i > 0 {
                    assert(hazards[i] == hazards.drop_first()[i - 1]);
                }
            }
        } else if allowed.contains(hazards[0]) {
            let tail = hazards.drop_first();
            let i = choose|i: int| 0 <= i < tail.len() && !allowed.contains(#[trigger] tail[i]);
            assert(hazards[i + 1] == tail[i]);
        }
    }
}

/// Whether `allowed` holds `hazard`.
fn allows(allowed: &[u16], hazard: u16) -> (held: bool)
    ensures
        held == allowed@.contains(hazard),
{
    let mut i: usize = 0;
    while i < allowed.len()
        invariant
            i <= allowed@.len(),
            forall|j: int| 0 <= j < i ==> allowed@[j] != hazard,
        decreases allowed@.len() - i,
    {
        if allowed[i] == hazard {
            return true;
        }
        i = i + 1;
    }
    false
}

/// Returns the first hazard of an action, in order, that the device does not
/// allow, or `None` when it allows them all.
pub fn first_disallowed_hazard(hazards: &[u16], allowed: &[u16]) -> (result: Option<u16>)
    ensures
        result == first_disallowed(hazards@, allowed@),
        result is None <==> forall|i: int|
            0 <= i < hazards@.len() ==> allowed@.contains(#[trigger] hazards@[i]),
{
    proof {
        lemma_first_disallowed_none(hazards@, allowed@);
        assert(hazards@.subrange(0, hazards@.len() as int) =~= hazards@);
    }
    let mut i: usize = 0;
    while i < hazards.len()
        invariant
            i <= hazards@.len(),
            first_disallowed(hazards@, allowed@) == first_disallowed(
                hazards@.subrange(i as int, hazards@.len() as int),
                allowed@,
            ),
        decreases hazards@.len() - i,
    {
        let hazard = hazards[i];
        proof {
            let rest = hazards@.subrange(i as int, hazards@.len() as int);
            assert(rest[0] == hazard);
            assert(rest.drop_first() =~= hazards@.subrange(i + 1, hazards@.len() as int));
        }
        if !allows(allowed, hazard) {
            return Some(hazard);
        }
        i = i + 1;
    }
    proof {
        assert(hazards@.subrange(i as int, hazards@.len() as int).len() == 0);
    }
    None
}

/// Tells whether a set of hazards misses any of `hazards`: whether some
/// hazard of `hazards` is not in `held`.
pub fn misses_hazards(held: &[u16], hazards: &[u16]) -> (missing: bool)
    ensures
        missing <==> exists|i: int| 0 <= i < hazards@.len() && !held@.contains(#[trigger] hazards@[i]),
{
    first_disallowed_hazard(hazards, held).is_some()
}

} // verus!
