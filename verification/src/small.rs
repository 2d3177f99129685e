//! The two short lists that every result carries: the positions at which the
//! engines ranked it, and the names of those engines.
//!
//! Both are kept in `smallvec::SmallVec` with room for four items inline.
//! What such a list holds is described by [`position_items`] and
//! [`engine_items`]; the handful of `SmallVec` methods used here are trusted
//! to act on those sequences as plainly as their names say.

use smallvec::SmallVec;
use vstd::prelude::*;

verus! {

/// The positions of one result, in the order the backend gave them.
///
/// Trusted: the field is a `SmallVec<[i32; 4]>`, which Verus does not look
/// into.
#[verifier::external_body]
#[derive(Debug)]
pub struct PositionList {
    items: SmallVec<[i32; 4]>,
}

/// The integers that a position list holds, first to last.
pub uninterp spec fn position_items(list: PositionList) -> Seq<i32>;

/// Trusted: `SmallVec::new` makes a list that holds nothing.
#[verifier::external_body]
fn positions_new() -> (list: PositionList)
    ensures
        position_items(list) == Seq::<i32>::empty(),
{
    PositionList { items: SmallVec::new() }
}

/// Trusted: `SmallVec::push` appends `value` and leaves the earlier items
/// as they were.
#[verifier::external_body]
fn positions_push(list: &mut PositionList, value: i32)
    ensures
        position_items(*final(list)) == position_items(*old(list)).push(value),
{
    list.items.push(value)
}

/// Trusted: `SmallVec::len` is the number of items held.
#[verifier::external_body]
fn positions_len(list: &PositionList) -> (n: usize)
    ensures
        n == position_items(*list).len(),
{
    list.items.len()
}

/// Trusted: indexing a `SmallVec` below its length gives the item at that
/// place.
#[verifier::external_body]
fn positions_at(list: &PositionList, index: usize) -> (value: i32)
    requires
        index < position_items(*list).len(),
    ensures
        value == position_items(*list)[index as int],
{
    list.items[index]
}

impl PositionList {
    /// A list without positions.
    pub fn new() -> (list: PositionList)
        ensures
            position_items(list) == Seq::<i32>::empty(),
    {
        positions_new()
    }

    /// Appends one position.
    pub fn push(&mut self, value: i32)
        ensures
            position_items(*final(self)) == position_items(*old(self)).push(value),
    {
        positions_push(self, value)
    }

    /// How many positions the list holds.
    pub fn len(&self) -> (n: usize)
        ensures
            n == position_items(*self).len(),
    {
        positions_len(self)
    }

    /// The position at `index`, if the list is that long.
    pub fn get(&self, index: usize) -> (value: Option<i32>)
        ensures
            value == if index < position_items(*self).len() {
                Some(position_items(*self)[index as int])
            } else {
                None
            },
    {
        if index < positions_len(self) {
            Some(positions_at(self, index))
        } else {
            None
        }
    }

    /// The positions as an ordinary vector.
    pub fn to_vec(&self) -> (items: Vec<i32>)
        ensures
            items@ == position_items(*self),
    {
        let n = positions_len(self);
        let mut items: Vec<i32> = Vec::new();
        let mut i: usize = 0;
        while i < n
            invariant
                i <= n,
                n == position_items(*self).len(),
                items@ == position_items(*self).take(i as int),
            decreases n - i,
        {
            items.push(positions_at(self, i));
            assert(position_items(*self).take(i as int).push(position_items(*self)[i as int])
                =~= position_items(*self).take(i + 1));
            i += 1;
        }
        assert(position_items(*self).take(n as int) =~= position_items(*self));
        items
    }

    /// The list that holds the integers of `items`, in their order.
    pub fn from_vec(items: &Vec<i32>) -> (list: PositionList)
        ensures
            position_items(list) == items@,
    {
        let mut list = positions_new();
        let mut i: usize = 0;
        while i < items.len()
            invariant
                i <= items.len(),
                position_items(list) == items@.take(i as int),
            decreases items.len() - i,
        {
            positions_push(&mut list, items[i]);
            assert(items@.take(i as int).push(items@[i as int]) =~= items@.take(i + 1));
            i += 1;
        }
        assert(items@.take(items.len() as int) =~= items@);
        list
    }
}

impl Clone for PositionList {
    fn clone(&self) -> (list: PositionList)
        ensures
            position_items(list) == position_items(*self),
    {
        let items = self.to_vec();
        PositionList::from_vec(&items)
    }
}

/// The names of the engines that returned one result, in the order the
/// backend gave them.
///
/// Trusted: the field is a `SmallVec<[String; 4]>`, which Verus does not look
/// into.
#[verifier::external_body]
#[derive(Debug)]
pub struct EngineList {
    items: SmallVec<[String; 4]>,
}

/// The names that an engine list holds, first to last, each as its
/// characters.
pub uninterp spec fn engine_items(list: EngineList) -> Seq<Seq<char>>;

/// Trusted: `SmallVec::new` makes a list that holds nothing.
#[verifier::external_body]
fn engines_new() -> (list: EngineList)
    ensures
        engine_items(list) == Seq::<Seq<char>>::empty(),
{
    EngineList { items: SmallVec::new() }
}

/// Trusted: `SmallVec::push` appends `value` and leaves the earlier items
/// as they were.
#[verifier::external_body]
fn engines_push(list: &mut EngineList, value: String)
    ensures
        engine_items(*final(list)) == engine_items(*old(list)).push(value@),
{
    list.items.push(value)
}

/// Trusted: `SmallVec::len` is the number of items held.
#[verifier::external_body]
fn engines_len(list: &EngineList) -> (n: usize)
    ensures
        n == engine_items(*list).len(),
{
    list.items.len()
}

/// Trusted: indexing a `SmallVec` below its length gives the item at that
/// place.
#[verifier::external_body]
fn engines_at(list: &EngineList, index: usize) -> (value: &String)
    requires
        index < engine_items(*list).len(),
    ensures
        value@ == engine_items(*list)[index as int],
{
    &list.items[index]
}

impl EngineList {
    /// A list without names.
    pub fn new() -> (list: EngineList)
        ensures
            engine_items(list) == Seq::<Seq<char>>::empty(),
    {
        engines_new()
    }

    /// Appends one name.
    pub fn push(&mut self, value: String)
        ensures
            engine_items(*final(self)) == engine_items(*old(self)).push(value@),
    {
        engines_push(self, value)
    }

    /// How many names the list holds.
    pub fn len(&self) -> (n: usize)
        ensures
            n == engine_items(*self).len(),
    {
        engines_len(self)
    }

    /// The name at `index`, if the list is that long.
    pub fn get(&self, index: usize) -> (value: Option<&String>)
        ensures
            match value {
                Some(name) => index < engine_items(*self).len() && name@ == engine_items(
                    *self,
                )[index as int],
                None => index >= engine_items(*self).len(),
            },
    {
        if index < engines_len(self) {
            Some(engines_at(self, index))
        } else {
            None
        }
    }

    /// The names as an ordinary vector.
    pub fn to_vec(&self) -> (items: Vec<String>)
        ensures
            items.deep_view() == engine_items(*self),
    {
        let n = engines_len(self);
        let mut items: Vec<String> = Vec::new();
        let mut i: usize = 0;
        while i < n
            invariant
                i <= n,
                n == engine_items(*self).len(),
                items@.len() == i,
                forall|k: int| 0 <= k < i ==> items@[k]@ == engine_items(*self)[k],
            decreases n - i,
        {
            items.push(engines_at(self, i).clone());
            i += 1;
        }
        assert(items.deep_view() =~= engine_items(*self));
        items
    }

    /// The list that holds the names of `items`, in their order.
    pub fn from_vec(items: &Vec<String>) -> (list: EngineList)
        ensures
            engine_items(list) == items.deep_view(),
    {
        let mut list = engines_new();
        let mut i: usize = 0;
        while i < items.len()
            invariant
                i <= items.len(),
                engine_items(list) == items.deep_view().take(i as int),
            decreases items.len() - i,
        {
            engines_push(&mut list, items[i].clone());
            assert(items.deep_view().take(i as int).push(items@[i as int]@)
                =~= items.deep_view().take(i + 1));
            i += 1;
        }
        assert(items.deep_view().take(items.len() as int) =~= items.deep_view());
        list
    }
}

impl Clone for EngineList {
    fn clone(&self) -> (list: EngineList)
        ensures
            engine_items(list) == engine_items(*self),
    {
        let items = self.to_vec();
        EngineList::from_vec(&items)
    }
}

} // verus!
