//! Searching and thinning short lists.

use vstd::prelude::*;

verus! {

/// A copyable value that can be told from another of its type.
pub trait Distinguishable: Copy {
    /// Whether the two values are the same.
    fn same(self, other: Self) -> (same: bool)
        ensures
            same == (self == other),
    ;
}

impl Distinguishable for u64 {
    fn same(self, other: Self) -> (same: bool) {
        self == other
    }
}

/// Where `item` first occurs in `list`.
pub fn position<T: Distinguishable>(list: &Vec<T>, item: T) -> (found: Option<usize>)
    ensures
        match found {
            Some(index) => {
                &&& index < list@.len()
                &&& list@[index as int] == item
                &&& forall|i: int| 0 <= i < index ==> list@[i] != item
            },
            None => !list@.contains(item),
        },
{
    let mut index: usize = 0;
    while index < list.len()
        invariant
            index <= list@.len(),
            forall|i: int| 0 <= i < index ==> list@[i] != item,
        decreases list@.len() - index,
    {
        if list[index].same(item) {
            return Some(index);
        }
        index += 1;
    }
    None
}

/// Whether `item` occurs in `list`.
pub fn contains<T: Distinguishable>(list: &Vec<T>, item: T) -> (found: bool)
    ensures
        found == list@.contains(item),
{
    let at = position(list, item);
    assert(at is Some ==> list@[at->0 as int] == item);
    at.is_some()
}

/// The elements of `list` that occur in `kept`, in the order of `list`.
pub open spec fn restricted<T>(list: Seq<T>, kept: Seq<T>) -> Seq<T> {
    list.filter(|item: T| kept.contains(item))
}

/// The elements of `list` other than `dropped`, in the order of `list`.
pub open spec fn without<T>(list: Seq<T>, dropped: T) -> Seq<T> {
    list.filter(|item: T| item != dropped)
}

/// Thins `list` down to the elements that occur in `kept`.
pub fn restrict<T: Distinguishable>(list: &Vec<T>, kept: &Vec<T>) -> (thinned: Vec<T>)
    ensures
        thinned@ == restricted(list@, kept@),
{
    let ghost pred = |item: T| kept@.contains(item);
    let mut thinned: Vec<T> = Vec::new();
    let mut index: usize = 0;
    assert(list@.take(0).filter(pred) =~= Seq::<T>::empty()) by {
        reveal(Seq::filter);
    }
    while index < list.len()
        invariant
            index <= list@.len(),
            pred == (|item: T| kept@.contains(item)),
            thinned@ == list@.take(index as int).filter(pred),
        decreases list@.len() - index,
    {
        let item = list[index];
        proof {
            list@.take(index as int).lemma_filter_push(item, pred);
            assert(list@.take(index + 1) =~= list@.take(index as int).push(item));
        }
        if contains(kept, item) {
            thinned.push(item);
        }
        index += 1;
    }
    assert(list@.take(list@.len() as int) =~= list@);
    thinned
}

/// Drops every occurrence of `dropped` from `list`.
pub fn remove_all<T: Distinguishable>(list: &Vec<T>, dropped: T) -> (thinned: Vec<T>)
    ensures
        thinned@ == without(list@, dropped),
{
    let ghost pred = |item: T| item != dropped;
    let mut thinned: Vec<T> = Vec::new();
    let mut index: usize = 0;
    assert(list@.take(0).filter(pred) =~= Seq::<T>::empty()) by {
        reveal(Seq::filter);
    }
    while index < list.len()
        invariant
            index <= list@.len(),
            pred == (|item: T| item != dropped),
            thinned@ == list@.take(index as int).filter(pred),
        decreases list@.len() - index,
    {
        let item = list[index];
        proof {
            list@.take(index as int).lemma_filter_push(item, pred);
            assert(list@.take(index + 1) =~= list@.take(index as int).push(item));
        }
        if !item.same(dropped) {
            thinned.push(item);
        }
        index += 1;
    }
    assert(list@.take(list@.len() as int) =~= list@);
    thinned
}

} // verus!
