//! Placeable equipment: keys identifying where a piece sits, and the
//! occupancy tables that track which keys hold a placed piece.
//!
//! Each table maps a key to an opaque `u64` handle. The handle is minted
//! by the session and round-tripped to the presentation layer, which binds
//! it to whatever scene object it spawns for the piece; the core never
//! interprets it. At most one piece of a given type occupies a given key:
//! placing on an occupied key is rejected, removing from a vacant key is
//! rejected.

use vstd::prelude::*;

use crate::direction::{Alignment, CardinalDirection};

verus! {

/// Whether a ladder stands against a wall or bridges a gap.
#[derive(Debug, Clone, Copy, PartialEq, Eq, Structural, Hash)]
pub enum LadderOrientation {
    Horizontal,
    Vertical,
}

/// A ladder leaning against the wall face of tile `(x, y)`, its foot at
/// elevation `height`, climbed while facing `direction`.
#[derive(Debug, Clone, Copy, PartialEq, Eq, Structural, Hash)]
pub struct VerticalLadderKey {
    pub x: u8,
    pub y: u8,
    pub height: u8,
    pub direction: CardinalDirection,
}

/// A ladder laid flat over tile `(x, y)` at elevation `height`, aligned
/// with one of the two grid axes.
#[derive(Debug, Clone, Copy, PartialEq, Eq, Structural, Hash)]
pub struct HorizontalLadderKey {
    pub x: u8,
    pub y: u8,
    pub height: u8,
    pub alignment: Alignment,
}

/// A rope tied off at tile `(x, y)`, hanging down the wall the owner faced
/// in `direction` when placing it.
#[derive(Debug, Clone, Copy, PartialEq, Eq, Structural, Hash)]
pub struct RopeKey {
    pub x: u8,
    pub y: u8,
    pub direction: CardinalDirection,
}

/// Error returned when placing a piece on a key that already holds one.
#[derive(Debug, Clone, Copy, PartialEq, Eq, Structural)]
pub struct AlreadyOccupied;

/// The mathematical contents of an occupancy table stored as a list of
/// `(key, handle)` entries.
pub open spec fn table_map<K>(s: Seq<(K, u64)>) -> Map<K, u64>
    decreases s.len(),
{
    if s.len() == 0 {
        Map::empty()
    } else {
        table_map(s.drop_last()).insert(s.last().0, s.last().1)
    }
}

/// No key appears twice in the entry list.
pub open spec fn distinct_keys<K>(s: Seq<(K, u64)>) -> bool {
    forall|i: int, j: int|
        0 <= i < j < s.len() ==> #[trigger] s[i].0 != #[trigger] s[j].0
}

pub proof fn lemma_distinct_drop_last<K>(s: Seq<(K, u64)>)
    requires
        distinct_keys(s),
        s.len() > 0,
    ensures
        distinct_keys(s.drop_last()),
{
    assert forall|i: int, j: int|
        0 <= i < j < s.drop_last().len() implies #[trigger] s.drop_last()[i].0
        != #[trigger] s.drop_last()[j].0 by {
        assert(s.drop_last()[i] == s[i]);
        assert(s.drop_last()[j] == s[j]);
    }
}

/// A key is in the table's contents exactly when some entry carries it.
pub proof fn lemma_table_map_contains<K>(s: Seq<(K, u64)>, k: K)
    ensures
        table_map(s).dom().contains(k) <==> exists|i: int|
            0 <= i < s.len() && #[trigger] s[i].0 == k,
    decreases s.len(),
{
    if s.len() == 0 {
    } else {
        lemma_table_map_contains(s.drop_last(), k);
        if s.last().0 == k {
            assert(s[s.len() - 1].0 == k);
        } else {
            if exists|i: int| 0 <= i < s.len() && #[trigger] s[i].0 == k {
                let i = choose|i: int| 0 <= i < s.len() && #[trigger] s[i].0 == k;
                assert(s.drop_last()[i] == s[i]);
            }
            if exists|i: int| 0 <= i < s.drop_last().len() && #[trigger] s.drop_last()[i].0 == k {
                let i = choose|i: int|
                    0 <= i < s.drop_last().len() && #[trigger] s.drop_last()[i].0 == k;
                assert(s[i].0 == k);
            }
        }
    }
}

/// In a table without duplicate keys, the entry at index `i` gives the
/// value stored for its key.
pub proof fn lemma_table_map_get<K>(s: Seq<(K, u64)>, i: int)
    requires
        distinct_keys(s),
        0 <= i < s.len(),
    ensures
        table_map(s).dom().contains(s[i].0),
        table_map(s)[s[i].0] == s[i].1,
    decreases s.len(),
{
    if i == s.len() - 1 {
    } else {
        lemma_distinct_drop_last(s);
        lemma_table_map_get(s.drop_last(), i);
        assert(s.drop_last()[i] == s[i]);
        assert(s[i].0 != s[s.len() - 1].0);
    }
}

/// Appending an entry inserts its key into the contents.
pub proof fn lemma_table_map_push<K>(s: Seq<(K, u64)>, k: K, v: u64)
    ensures
        table_map(s.push((k, v))) == table_map(s).insert(k, v),
{
    assert(s.push((k, v)).drop_last() =~= s);
    assert(s.push((k, v)).last() == (k, v));
    assert(table_map(s.push((k, v))) == table_map(s.push((k, v)).drop_last()).insert(k, v));
}

pub proof fn lemma_distinct_push<K>(s: Seq<(K, u64)>, k: K, v: u64)
    requires
        distinct_keys(s),
        forall|i: int| 0 <= i < s.len() ==> #[trigger] s[i].0 != k,
    ensures
        distinct_keys(s.push((k, v))),
{
    let t = s.push((k, v));
    assert forall|i: int, j: int|
        0 <= i < j < t.len() implies #[trigger] t[i].0 != #[trigger] t[j].0 by {
        if j < s.len() {
            assert(t[i] == s[i]);
            assert(t[j] == s[j]);
        } else {
            assert(t[i] == s[i]);
            assert(t[j] == (k, v));
        }
    }
}

pub proof fn lemma_distinct_remove<K>(s: Seq<(K, u64)>, i: int)
    requires
        distinct_keys(s),
        0 <= i < s.len(),
    ensures
        distinct_keys(s.remove(i)),
{
    let t = s.remove(i);
    assert forall|a: int, b: int|
        0 <= a < b < t.len() implies #[trigger] t[a].0 != #[trigger] t[b].0 by {
        let sa: int = if a < i { a } else { a + 1 };
        let sb: int = if b < i { b } else { b + 1 };
        assert(t[a] == s[sa]);
        assert(t[b] == s[sb]);
    }
}

/// Removing the entry at index `i` removes exactly its key from the
/// contents.
pub proof fn lemma_table_map_remove<K>(s: Seq<(K, u64)>, i: int)
    requires
        distinct_keys(s),
        0 <= i < s.len(),
    ensures
        table_map(s.remove(i)) == table_map(s).remove(s[i].0),
    decreases s.len(),
{
    let k = s[i].0;
    if i == s.len() - 1 {
        assert(s.remove(i) =~= s.drop_last());
        lemma_distinct_drop_last(s);
        lemma_table_map_contains(s.drop_last(), k);
        if exists|j: int| 0 <= j < s.drop_last().len() && #[trigger] s.drop_last()[j].0 == k {
            let j = choose|j: int|
                0 <= j < s.drop_last().len() && #[trigger] s.drop_last()[j].0 == k;
            assert(s[j] == s.drop_last()[j]);
            assert(false);
        }
        assert(table_map(s.drop_last()) =~= table_map(s).remove(k));
    } else {
        let t = s.remove(i);
        lemma_distinct_drop_last(s);
        assert(s.drop_last()[i] == s[i]);
        lemma_table_map_remove(s.drop_last(), i);
        assert(t.drop_last() =~= s.drop_last().remove(i));
        assert(t.last() == s.last());
        assert(s[i].0 != s[s.len() - 1].0);
        assert(table_map(t) == table_map(s.drop_last()).remove(k).insert(
            s.last().0,
            s.last().1,
        ));
        assert(table_map(s.drop_last()).remove(k).insert(s.last().0, s.last().1)
            =~= table_map(s.drop_last()).insert(s.last().0, s.last().1).remove(k));
    }
}

/// Occupancy table for vertical ladders.
#[derive(Debug)]
pub struct VerticalLadderMap {
    entries: Vec<(VerticalLadderKey, u64)>,
}

impl View for VerticalLadderMap {
    type V = Map<VerticalLadderKey, u64>;

    closed spec fn view(&self) -> Map<VerticalLadderKey, u64> {
        table_map(self.entries@)
    }
}

impl VerticalLadderMap {
    /// The entry list never repeats a key.
    pub closed spec fn wf(&self) -> bool {
        distinct_keys(self.entries@)
    }

    pub fn new() -> (r: Self)
        ensures
            r@ == Map::<VerticalLadderKey, u64>::empty(),
            r.wf(),
    {
        VerticalLadderMap { entries: Vec::new() }
    }

    pub fn contains_key(&self, key: &VerticalLadderKey) -> (r: bool)
        ensures
            r == self@.dom().contains(*key),
    {
        let n = self.entries.len();
        let mut i: usize = 0;
        while i < n
            invariant
                n == self.entries@.len(),
                0 <= i <= n,
                forall|j: int| 0 <= j < i ==> #[trigger] self.entries@[j].0 != *key,
            decreases n - i,
        {
            if self.entries[i].0 == *key {
                proof {
                    lemma_table_map_contains(self.entries@, *key);
                    assert(self.entries@[i as int].0 == *key);
                }
                return true;
            }
            i += 1;
        }
        proof {
            lemma_table_map_contains(self.entries@, *key);
        }
        false
    }

    /// Place a piece at `key`, rejecting the request if the key already
    /// holds one.
    pub fn place(&mut self, key: VerticalLadderKey, handle: u64) -> (r: Result<
        (),
        AlreadyOccupied,
    >)
        requires
            old(self).wf(),
        ensures
            final(self).wf(),
            old(self)@.dom().contains(key) ==> r is Err && final(self)@ == old(self)@,
            !old(self)@.dom().contains(key) ==> r is Ok && final(self)@ == old(self)@.insert(
                key,
                handle,
            ),
    {
        if self.contains_key(&key) {
            Err(AlreadyOccupied)
        } else {
            proof {
                lemma_table_map_contains(self.entries@, key);
                lemma_distinct_push(self.entries@, key, handle);
                lemma_table_map_push(self.entries@, key, handle);
            }
            self.entries.push((key, handle));
            Ok(())
        }
    }

    /// Remove the piece at `key`, returning its handle, or `None` if the
    /// key is vacant.
    pub fn remove(&mut self, key: &VerticalLadderKey) -> (r: Option<u64>)
        requires
            old(self).wf(),
        ensures
            final(self).wf(),
            old(self)@.dom().contains(*key) ==> r == Some(old(self)@[*key]) && final(self)@ == old(
                self,
            )@.remove(*key),
            !old(self)@.dom().contains(*key) ==> r is None && final(self)@ == old(self)@,
    {
        let n = self.entries.len();
        let mut i: usize = 0;
        while i < n
            invariant
                *self == *old(self),
                self.wf(),
                n == self.entries@.len(),
                0 <= i <= n,
                forall|j: int| 0 <= j < i ==> #[trigger] self.entries@[j].0 != *key,
            decreases n - i,
        {
            if self.entries[i].0 == *key {
                proof {
                    assert(self.entries@[i as int].0 == *key);
                    lemma_table_map_get(self.entries@, i as int);
                    lemma_table_map_remove(self.entries@, i as int);
                    lemma_distinct_remove(self.entries@, i as int);
                }
                let (_, handle) = self.entries.remove(i);
                return Some(handle);
            }
            i += 1;
        }
        proof {
            lemma_table_map_contains(self.entries@, *key);
        }
        None
    }

    /// Empty the table.
    pub fn clear(&mut self)
        ensures
            final(self)@ == Map::<VerticalLadderKey, u64>::empty(),
            final(self).wf(),
    {
        self.entries = Vec::new();
    }
}

/// Occupancy table for horizontal ladders.
#[derive(Debug)]
pub struct HorizontalLadderMap {
    entries: Vec<(HorizontalLadderKey, u64)>,
}

impl View for HorizontalLadderMap {
    type V = Map<HorizontalLadderKey, u64>;

    closed spec fn view(&self) -> Map<HorizontalLadderKey, u64> {
        table_map(self.entries@)
    }
}

impl HorizontalLadderMap {
    /// The entry list never repeats a key.
    pub closed spec fn wf(&self) -> bool {
        distinct_keys(self.entries@)
    }

    pub fn new() -> (r: Self)
        ensures
            r@ == Map::<HorizontalLadderKey, u64>::empty(),
            r.wf(),
    {
        HorizontalLadderMap { entries: Vec::new() }
    }

    pub fn contains_key(&self, key: &HorizontalLadderKey) -> (r: bool)
        ensures
            r == self@.dom().contains(*key),
    {
        let n = self.entries.len();
        let mut i: usize = 0;
        while i < n
            invariant
                n == self.entries@.len(),
                0 <= i <= n,
                forall|j: int| 0 <= j < i ==> #[trigger] self.entries@[j].0 != *key,
            decreases n - i,
        {
            if self.entries[i].0 == *key {
                proof {
                    lemma_table_map_contains(self.entries@, *key);
                    assert(self.entries@[i as int].0 == *key);
                }
                return true;
            }
            i += 1;
        }
        proof {
            lemma_table_map_contains(self.entries@, *key);
        }
        false
    }

    /// Place a piece at `key`, rejecting the request if the key already
    /// holds one.
    pub fn place(&mut self, key: HorizontalLadderKey, handle: u64) -> (r: Result<
        (),
        AlreadyOccupied,
    >)
        requires
            old(self).wf(),
        ensures
            final(self).wf(),
            old(self)@.dom().contains(key) ==> r is Err && final(self)@ == old(self)@,
            !old(self)@.dom().contains(key) ==> r is Ok && final(self)@ == old(self)@.insert(
                key,
                handle,
            ),
    {
        if self.contains_key(&key) {
            Err(AlreadyOccupied)
        } else {
            proof {
                lemma_table_map_contains(self.entries@, key);
                lemma_distinct_push(self.entries@, key, handle);
                lemma_table_map_push(self.entries@, key, handle);
            }
            self.entries.push((key, handle));
            Ok(())
        }
    }

    /// Remove the piece at `key`, returning its handle, or `None` if the
    /// key is vacant.
    pub fn remove(&mut self, key: &HorizontalLadderKey) -> (r: Option<u64>)
        requires
            old(self).wf(),
        ensures
            final(self).wf(),
            old(self)@.dom().contains(*key) ==> r == Some(old(self)@[*key]) && final(self)@ == old(
                self,
            )@.remove(*key),
            !old(self)@.dom().contains(*key) ==> r is None && final(self)@ == old(self)@,
    {
        let n = self.entries.len();
        let mut i: usize = 0;
        while i < n
            invariant
                *self == *old(self),
                self.wf(),
                n == self.entries@.len(),
                0 <= i <= n,
                forall|j: int| 0 <= j < i ==> #[trigger] self.entries@[j].0 != *key,
            decreases n - i,
        {
            if self.entries[i].0 == *key {
                proof {
                    assert(self.entries@[i as int].0 == *key);
                    lemma_table_map_get(self.entries@, i as int);
                    lemma_table_map_remove(self.entries@, i as int);
                    lemma_distinct_remove(self.entries@, i as int);
                }
                let (_, handle) = self.entries.remove(i);
                return Some(handle);
            }
            i += 1;
        }
        proof {
            lemma_table_map_contains(self.entries@, *key);
        }
        None
    }

    /// Empty the table.
    pub fn clear(&mut self)
        ensures
            final(self)@ == Map::<HorizontalLadderKey, u64>::empty(),
            final(self).wf(),
    {
        self.entries = Vec::new();
    }
}

/// Occupancy table for ropes.
#[derive(Debug)]
pub struct RopeMap {
    entries: Vec<(RopeKey, u64)>,
}

impl View for RopeMap {
    type V = Map<RopeKey, u64>;

    closed spec fn view(&self) -> Map<RopeKey, u64> {
        table_map(self.entries@)
    }
}

impl RopeMap {
    /// The entry list never repeats a key.
    pub closed spec fn wf(&self) -> bool {
        distinct_keys(self.entries@)
    }

    pub fn new() -> (r: Self)
        ensures
            r@ == Map::<RopeKey, u64>::empty(),
            r.wf(),
    {
        RopeMap { entries: Vec::new() }
    }

    pub fn contains_key(&self, key: &RopeKey) -> (r: bool)
        ensures
            r == self@.dom().contains(*key),
    {
        let n = self.entries.len();
        let mut i: usize = 0;
        while i < n
            invariant
                n == self.entries@.len(),
                0 <= i <= n,
                forall|j: int| 0 <= j < i ==> #[trigger] self.entries@[j].0 != *key,
            decreases n - i,
        {
            if self.entries[i].0 == *key {
                proof {
                    lemma_table_map_contains(self.entries@, *key);
                    assert(self.entries@[i as int].0 == *key);
                }
                return true;
            }
            i += 1;
        }
        proof {
            lemma_table_map_contains(self.entries@, *key);
        }
        false
    }

    /// Place a piece at `key`, rejecting the request if the key already
    /// holds one.
    pub fn place(&mut self, key: RopeKey, handle: u64) -> (r: Result<(), AlreadyOccupied>)
        requires
            old(self).wf(),
        ensures
            final(self).wf(),
            old(self)@.dom().contains(key) ==> r is Err && final(self)@ == old(self)@,
            !old(self)@.dom().contains(key) ==> r is Ok && final(self)@ == old(self)@.insert(
                key,
                handle,
            ),
    {
        if self.contains_key(&key) {
            Err(AlreadyOccupied)
        } else {
            proof {
                lemma_table_map_contains(self.entries@, key);
                lemma_distinct_push(self.entries@, key, handle);
                lemma_table_map_push(self.entries@, key, handle);
            }
            self.entries.push((key, handle));
            Ok(())
        }
    }

    /// Remove the piece at `key`, returning its handle, or `None` if the
    /// key is vacant.
    pub fn remove(&mut self, key: &RopeKey) -> (r: Option<u64>)
        requires
            old(self).wf(),
        ensures
            final(self).wf(),
            old(self)@.dom().contains(*key) ==> r == Some(old(self)@[*key]) && final(self)@ == old(
                self,
            )@.remove(*key),
            !old(self)@.dom().contains(*key) ==> r is None && final(self)@ == old(self)@,
    {
        let n = self.entries.len();
        let mut i: usize = 0;
        while i < n
            invariant
                *self == *old(self),
                self.wf(),
                n == self.entries@.len(),
                0 <= i <= n,
                forall|j: int| 0 <= j < i ==> #[trigger] self.entries@[j].0 != *key,
            decreases n - i,
        {
            if self.entries[i].0 == *key {
                proof {
                    assert(self.entries@[i as int].0 == *key);
                    lemma_table_map_get(self.entries@, i as int);
                    lemma_table_map_remove(self.entries@, i as int);
                    lemma_distinct_remove(self.entries@, i as int);
                }
                let (_, handle) = self.entries.remove(i);
                return Some(handle);
            }
            i += 1;
        }
        proof {
            lemma_table_map_contains(self.entries@, *key);
        }
        None
    }

    /// Empty the table.
    pub fn clear(&mut self)
        ensures
            final(self)@ == Map::<RopeKey, u64>::empty(),
            final(self).wf(),
    {
        self.entries = Vec::new();
    }
}

} // verus!
