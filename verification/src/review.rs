//! Review records and caller-supplied review arrays.

use vstd::prelude::*;

verus! {

/// One review observation: the outcome the learner gave and the number of
/// days since the previous review of the same item.
#[derive(Clone, Copy, Debug, PartialEq, Eq, Structural)]
pub struct FSRSReview {
    /// The outcome: 1 (again), 2 (hard), 3 (good) or 4 (easy).
    pub rating: u32,
    /// Days elapsed since the previous review.
    pub delta_t: u32,
}

impl FSRSReview {
    /// The rating is one of the four defined outcomes.
    pub open spec fn rating_defined(self) -> bool {
        1 <= self.rating <= 4
    }

    /// The review came at least one day after the previous one.
    pub open spec fn long_term(self) -> bool {
        self.delta_t > 0
    }
}

/// A length-tagged array of review records, as a caller supplies it.
///
/// `len` is the authoritative element count; the array is well formed when
/// `len` equals the number of records held.
#[derive(Clone, Debug, PartialEq, Eq)]
pub struct FsrsReviews {
    pub reviews: Vec<FSRSReview>,
    pub len: usize,
}

impl View for FsrsReviews {
    type V = Seq<FSRSReview>;

    open spec fn view(&self) -> Seq<FSRSReview> {
        self.reviews@
    }
}

impl FsrsReviews {
    /// The length tag equals the number of records held.
    pub open spec fn wf(&self) -> bool {
        self.len == self.reviews@.len()
    }
}

/// Creates a review record on the heap and hands its ownership to the caller.
pub fn fsrs_review_new(rating: u32, delta_t: u32) -> (review: Box<FSRSReview>)
    ensures
        *review == (FSRSReview { rating, delta_t }),
{
    Box::new(FSRSReview { rating, delta_t })
}

/// Releases a review record. `None` stands for the null handle and is a
/// no-op.
pub fn fsrs_review_free(review: Option<Box<FSRSReview>>) {
    let _ = review;
}

} // verus!
