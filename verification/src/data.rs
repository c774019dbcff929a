//! Items, their history, and a snapshot of a stack as a query sees it.

use vstd::prelude::*;
use vstd::string::*;

verus! {

/// One note on a stack.
///
/// `history` records what happened to the item, oldest event first: each
/// entry is a status label and the moment, in seconds since the epoch, at
/// which the item took that status.
#[derive(Clone, Debug, PartialEq, Eq)]
pub struct Item {
    pub contents: String,
    pub history: Vec<(String, i64)>,
}

/// The mathematical value of an [`Item`].
pub ghost struct ItemView {
    pub contents: Seq<char>,
    pub history: Seq<(Seq<char>, i64)>,
}

impl View for Item {
    type V = ItemView;

    open spec fn view(&self) -> ItemView {
        ItemView {
            contents: self.contents@,
            history: Seq::new(self.history@.len(), |j: int| (self.history@[j].0@, self.history@[j].1)),
        }
    }
}

/// The store could not hand over the stack: it does not exist, cannot be
/// read, or holds something that is no stack.
#[derive(Clone, Copy, Debug, PartialEq, Eq, Structural)]
pub struct LoadFailure;

/// A stack as loaded: the items in the order they were pushed, so that the
/// last one is the top.
pub open spec fn snapshot(items: Seq<Item>) -> Seq<ItemView> {
    Seq::new(items.len(), |i: int| items[i]@)
}

/// The item at display position `position`, where position 0 is the top.
pub open spec fn item_at(items: Seq<ItemView>, position: int) -> ItemView
    recommends
        0 <= position < items.len(),
{
    items[items.len() - 1 - position]
}

/// Whether a history entry records the creation of its item.
pub open spec fn records_creation(entry: (Seq<char>, i64)) -> bool {
    entry.0 == "created"@
}

/// The moment of the first creation entry at or after index `from`.
pub open spec fn created_from(history: Seq<(Seq<char>, i64)>, from: int) -> Option<i64>
    decreases history.len() - from,
{
    if from < 0 || from >= history.len() {
        None
    } else if records_creation(history[from]) {
        Some(history[from].1)
    } else {
        created_from(history, from + 1)
    }
}

/// The moment at which an item with this history was created: that of the
/// first entry labelled "created", if there is one.
pub open spec fn created_at(history: Seq<(Seq<char>, i64)>) -> Option<i64> {
    created_from(history, 0)
}

/// `created_from` finds the earliest creation entry from `from` on, and finds
/// none only where there is none.
pub proof fn created_from_is_first(history: Seq<(Seq<char>, i64)>, from: int)
    requires
        0 <= from,
    ensures
        match created_from(history, from) {
            Some(moment) => exists|j: int|
                from <= j < history.len() && records_creation(#[trigger] history[j])
                    && history[j].1 == moment && forall|i: int|
                    from <= i < j ==> !records_creation(#[trigger] history[i]),
            None => forall|j: int|
                from <= j < history.len() ==> !records_creation(#[trigger] history[j]),
        },
    decreases history.len() - from,
{
    if from < history.len() {
        if records_creation(history[from]) {
            assert(from <= from < history.len() && records_creation(history[from])
                && history[from].1 == created_from(history, from)->0);
        } else {
            created_from_is_first(history, from + 1);
            match created_from(history, from + 1) {
                Some(moment) => {
                    let j = choose|j: int|
                        from + 1 <= j < history.len() && records_creation(#[trigger] history[j])
                            && history[j].1 == moment && forall|i: int|
                            from + 1 <= i < j ==> !records_creation(#[trigger] history[i]);
                    assert(from <= j < history.len() && records_creation(history[j])
                        && history[j].1 == moment && forall|i: int|
                        from <= i < j ==> !records_creation(#[trigger] history[i]));
                },
                None => {},
            }
        }
    }
}

/// The first creation entry decides: entries after it, whatever their label,
/// do not change when the item was created, and a history without such an
/// entry has no creation moment.
pub proof fn created_at_is_first(history: Seq<(Seq<char>, i64)>)
    ensures
        match created_at(history) {
            Some(moment) => exists|j: int|
                0 <= j < history.len() && records_creation(#[trigger] history[j]) && history[j].1
                    == moment && forall|i: int|
                    0 <= i < j ==> !records_creation(#[trigger] history[i]),
            None => forall|j: int|
                0 <= j < history.len() ==> !records_creation(#[trigger] history[j]),
        },
{
    created_from_is_first(history, 0);
}

impl Item {
    /// Looks up when the item was created.
    pub fn created(&self) -> (moment: Option<i64>)
        ensures
            moment == created_at(self@.history),
    {
        let label: String = String::from_str("created");
        let mut j: usize = 0;
        while j < self.history.len()
            invariant
                j <= self.history@.len(),
                label@ == "created"@,
                created_at(self@.history) == created_from(self@.history, j as int),
            decreases self.history@.len() - j,
        {
            if self.history[j].0 == label {
                return Some(self.history[j].1);
            }
            j += 1;
        }
        None
    }
}

} // verus!
