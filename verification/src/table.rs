//! Lists of pairs read as maps.

use vstd::prelude::*;

verus! {

/// The map that a list of pairs of key and value stands for: where a key
/// occurs more than once, the last pair stands.
pub open spec fn last_wins<K, V>(entries: Seq<(K, V)>) -> Map<K, V>
    decreases entries.len(),
{
    if entries.len() == 0 {
        Map::empty()
    } else {
        last_wins(entries.drop_last()).insert(entries.last().0, entries.last().1)
    }
}

/// What a key maps to depends on the last pair alone, or else on the pairs
/// before it.
pub proof fn lemma_last_wins_step<K, V>(entries: Seq<(K, V)>, key: K)
    requires
        entries.len() > 0,
    ensures
        entries.last().0 == key ==> last_wins(entries).contains_key(key) && last_wins(
            entries,
        )[key] == entries.last().1,
        entries.last().0 != key ==> (last_wins(entries).contains_key(key) <==> last_wins(
            entries.drop_last(),
        ).contains_key(key)),
        entries.last().0 != key ==> last_wins(entries)[key] == last_wins(entries.drop_last())[key],
{
}

/// Adding a pair to the end of the list sets its key in the map.
pub proof fn lemma_last_wins_push<K, V>(entries: Seq<(K, V)>, key: K, value: V)
    ensures
        last_wins(entries.push((key, value))) == last_wins(entries).insert(key, value),
{
    assert(entries.push((key, value)).drop_last() =~= entries);
}

/// The last pair with a key is what the key maps to.
pub proof fn lemma_last_wins_at<K, V>(entries: Seq<(K, V)>, key: K, at: int)
    requires
        0 <= at < entries.len(),
        entries[at].0 == key,
        forall|j: int| at < j < entries.len() ==> entries[j].0 != key,
    ensures
        last_wins(entries).contains_key(key),
        last_wins(entries)[key] == entries[at].1,
    decreases entries.len(),
{
    if at < entries.len() - 1 {
        lemma_last_wins_at(entries.drop_last(), key, at);
    }
}

/// A key that no pair has maps to nothing.
pub proof fn lemma_last_wins_absent<K, V>(entries: Seq<(K, V)>, key: K)
    requires
        forall|j: int| 0 <= j < entries.len() ==> entries[j].0 != key,
    ensures
        !last_wins(entries).contains_key(key),
    decreases entries.len(),
{
    if entries.len() > 0 {
        lemma_last_wins_absent(entries.drop_last(), key);
    }
}

/// An entry of a list that is searched by a key of type `P`.
pub trait Keyed<P> {
    /// Whether the key of this entry is `probe`.
    spec fn keyed_by(&self, probe: &P) -> bool;

    /// Whether the key of this entry is `probe`.
    fn has_key(&self, probe: &P) -> (found: bool)
        ensures
            found == self.keyed_by(probe),
    ;
}

impl<V> Keyed<u32> for (u32, V) {
    open spec fn keyed_by(&self, probe: &u32) -> bool {
        self.0 == *probe
    }

    fn has_key(&self, probe: &u32) -> (found: bool) {
        self.0 == *probe
    }
}

/// The index of the last entry whose key is `probe`, if there is one.
pub fn find_last<P, T: Keyed<P>>(entries: &[T], probe: &P) -> (index: Option<usize>)
    ensures
        match index {
            Some(at) => at < entries@.len() && entries@[at as int].keyed_by(probe) && forall|
                j: int,
            |
                at < j < entries@.len() ==> !(#[trigger] entries@[j]).keyed_by(probe),
            None => forall|j: int|
                0 <= j < entries@.len() ==> !(#[trigger] entries@[j]).keyed_by(probe),
        },
{
    let mut i: usize = entries.len();
    while i > 0
        invariant
            i <= entries@.len(),
            forall|j: int| i <= j < entries@.len() ==> !(#[trigger] entries@[j]).keyed_by(probe),
        decreases i,
    {
        i -= 1;
        if entries[i].has_key(probe) {
            return Some(i);
        }
    }
    None
}

} // verus!
