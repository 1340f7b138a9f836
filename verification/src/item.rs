//! Items and training sets.

use vstd::prelude::*;
use crate::review::{FSRSReview, FsrsReviews};

verus! {

/// An item: the owner of one review history, in chronological order.
#[derive(Clone, Debug, PartialEq, Eq)]
pub struct FSRSItem {
    pub reviews: Vec<FSRSReview>,
    pub len: usize,
}

impl View for FSRSItem {
    type V = Seq<FSRSReview>;

    open spec fn view(&self) -> Seq<FSRSReview> {
        self.reviews@
    }
}

impl FSRSItem {
    /// The length tag equals the number of records owned.
    pub open spec fn wf(&self) -> bool {
        self.len == self.reviews@.len()
    }
}

/// A length-tagged array of items: a training set.
#[derive(Clone, Debug, PartialEq, Eq)]
pub struct FsrsItems {
    pub items: Vec<FSRSItem>,
    pub len: usize,
}

impl View for FsrsItems {
    type V = Seq<Seq<FSRSReview>>;

    open spec fn view(&self) -> Seq<Seq<FSRSReview>> {
        histories(self.items@)
    }
}

/// The review histories of a sequence of items, in the same order.
pub open spec fn histories(items: Seq<FSRSItem>) -> Seq<Seq<FSRSReview>> {
    Seq::new(items.len(), |i: int| items[i]@)
}

impl FsrsItems {
    /// The length tag equals the number of items held, and every item is
    /// well formed.
    pub open spec fn wf(&self) -> bool {
        &&& self.len == self.items@.len()
        &&& forall|i: int| 0 <= i < self.items@.len() ==> (#[trigger] self.items@[i]).wf()
    }
}

/// Builds an item from a caller-supplied review array.
///
/// The records are copied into storage that the item owns; the caller's
/// array is only read. The item holds exactly the records supplied, in the
/// order supplied.
pub fn fsrs_item_new(reviews: &FsrsReviews) -> (item: Box<FSRSItem>)
    requires
        reviews.wf(),
    ensures
        item.wf(),
        item@ == reviews@,
        item.len == reviews.len,
{
    let mut copy: Vec<FSRSReview> = Vec::with_capacity(reviews.len);
    let mut i: usize = 0;
    while i < reviews.len
        invariant
            reviews.wf(),
            i <= reviews.len,
            copy@ == reviews@.take(i as int),
        decreases reviews.len - i,
    {
        copy.push(reviews.reviews[i]);
        proof {
            assert(reviews@.take(i + 1) =~= reviews@.take(i as int).push(reviews@[i as int]));
        }
        i += 1;
    }
    proof {
        assert(reviews@.take(reviews.len as int) =~= reviews@);
    }
    Box::new(FSRSItem { reviews: copy, len: reviews.len })
}

/// Releases an item together with the review history it owns. `None`
/// stands for the null handle and is a no-op.
pub fn fsrs_item_free(item: Option<Box<FSRSItem>>) {
    let _ = item;
}

} // verus!
