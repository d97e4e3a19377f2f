//! The two-way map between local and server identities: `bimap`'s
//! `BiBTreeMap`, keyed on both sides by pairs of 128-bit words, and what this
//! crate takes for granted about it.
//!
//! Verus does not see inside the map. Its pairs are given a name, [`pairs`],
//! and the contracts of the wrappers below say how the map's methods act on
//! it. None of these contracts is proved.
use bimap::BiBTreeMap;
use vstd::prelude::*;

verus! {

/// `bimap::BiBTreeMap`, as a type that Verus does not look into.
#[verifier::external_type_specification]
#[verifier::external_body]
#[verifier::reject_recursive_types(L)]
#[verifier::reject_recursive_types(R)]
pub struct ExBiBTreeMap<L, R>(BiBTreeMap<L, R>);

/// The two words that stand for a 256-bit identity, the high one first.
pub type Words = (u128, u128);

/// The pairs that the map holds, as a map from each left value to its right
/// value.
pub uninterp spec fn pairs(m: BiBTreeMap<Words, Words>) -> Map<Words, Words>;

/// The map without pairs.
pub open spec fn no_pairs() -> Map<Words, Words> {
    Map::empty()
}

/// What `pairs` becomes when `left` and `right` are paired: the pair that
/// held `left` and the pair that held `right` are gone, and the new pair is
/// there.
pub open spec fn paired(pairs: Map<Words, Words>, left: Words, right: Words) -> Map<Words, Words> {
    Map::new(
        |l: Words| l == left || (pairs.contains_key(l) && pairs[l] != right),
        |l: Words| if l == left { right } else { pairs[l] },
    )
}

/// Calls `BiBTreeMap::new`. Claims that the new map holds no pair.
#[verifier::external_body]
pub(crate) fn bimap_new() -> (m: BiBTreeMap<Words, Words>)
    ensures
        pairs(m) == no_pairs(),
{
    BiBTreeMap::new()
}

/// Calls `BiBTreeMap::insert`. Claims that afterwards the map holds the pair
/// and no other pair with that left or that right value, and every other
/// pair as before.
#[verifier::external_body]
pub(crate) fn bimap_insert(m: &mut BiBTreeMap<Words, Words>, left: Words, right: Words)
    ensures
        pairs(*final(m)) == paired(pairs(*old(m)), left, right),
{
    m.insert(left, right);
}

/// Calls `BiBTreeMap::get_by_right`. Claims that it returns the left value
/// paired with `right`, and `None` exactly if no pair holds `right`.
#[verifier::external_body]
pub(crate) fn bimap_get_by_right(m: &BiBTreeMap<Words, Words>, right: Words) -> (left: Option<Words>)
    ensures
        left is Some ==> pairs(*m).contains_pair(left->Some_0, right),
        left is None ==> forall|l: Words| !pairs(*m).contains_pair(l, right),
{
    m.get_by_right(&right).copied()
}

/// Calls `BiBTreeMap::remove_by_left`. Claims that afterwards the pair that
/// held `left` is gone, if there was one, and every other pair is as before.
#[verifier::external_body]
pub(crate) fn bimap_remove_by_left(m: &mut BiBTreeMap<Words, Words>, left: Words)
    ensures
        pairs(*final(m)) == pairs(*old(m)).remove(left),
{
    m.remove_by_left(&left);
}

/// Calls `BiBTreeMap::clear`. Claims that afterwards the map holds no pair.
#[verifier::external_body]
pub(crate) fn bimap_clear(m: &mut BiBTreeMap<Words, Words>)
    ensures
        pairs(*final(m)) == no_pairs(),
{
    m.clear();
}

} // verus!
