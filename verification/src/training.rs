//! Fitting model parameters from a training set.
//!
//! The optimisation itself is the engine's. This module decides which
//! training sets reach the engine, hands them over, and collapses every
//! failure into an empty parameter vector.

use vstd::prelude::*;
use crate::item::{histories, FSRSItem, FsrsItems};
use crate::review::FSRSReview;

verus! {

/// The engine's error type. Its variants are not read here: every failure
/// of a fit is reported the same way.
#[verifier::external_type_specification]
#[verifier::external_body]
pub struct ExEngineError(fsrs::FSRSError);

/// The number of parameters of the model.
pub const PARAMETER_COUNT: usize = 21;

/// The largest number of items for which the engine does not fit anything
/// and answers with its default parameters.
pub const SMALL_SET_MAX: usize = 7;

/// A history that the engine rejects: it is empty, or one of its ratings is
/// not a defined outcome.
pub open spec fn history_malformed(history: Seq<FSRSReview>) -> bool {
    history.len() == 0 || exists|j: int|
        0 <= j < history.len() && !(#[trigger] history[j]).rating_defined()
}

/// The history holds a review that came at least a day after the previous
/// one.
pub open spec fn has_long_term_review(history: Seq<FSRSReview>) -> bool {
    exists|j: int| 0 <= j < history.len() && (#[trigger] history[j]).long_term()
}

/// A training set that the engine rejects as a whole: one of its histories
/// is malformed.
pub open spec fn training_set_rejected(set: Seq<Seq<FSRSReview>>) -> bool {
    exists|i: int| 0 <= i < set.len() && history_malformed(#[trigger] set[i])
}

/// A training set that may be handed to the engine: either the engine
/// rejects it before looking further, or every history holds a long-term
/// review, which the engine's outlier filter relies on.
pub open spec fn fit_for_training(set: Seq<Seq<FSRSReview>>) -> bool {
    training_set_rejected(set) || forall|i: int|
        0 <= i < set.len() ==> has_long_term_review(#[trigger] set[i])
}

/// The engine's default parameters, each as the bit pattern of its
/// single-precision value.
pub open spec fn default_parameter_bits() -> Seq<u32> {
    seq![
        0x3e591687u32, 0x3fa5844du32, 0x40139db2u32, 0x4104bac7u32, 0x40cd39c1u32,
        0x3f5559b4u32, 0x40413dd9u32, 0x3a83126fu32, 0x3fefa440u32, 0x3e2a9931u32,
        0x3f4bc6a8u32, 0x3fbde354u32, 0x3d7b7e91u32, 0x3e869ad4u32, 0x3fd2fb7fu32,
        0x3f19f55au32, 0x3fefbb30u32, 0x3f0ae148u32, 0x3dbac711u32, 0x3d86c227u32,
        0x3e1de69bu32,
    ]
}

impl FSRSItem {
    /// Whether the engine rejects this item's history.
    pub fn is_malformed(&self) -> (malformed: bool)
        ensures
            malformed == history_malformed(self@),
    {
        if self.reviews.len() == 0 {
            return true;
        }
        let mut i: usize = 0;
        while i < self.reviews.len()
            invariant
                i <= self.reviews@.len(),
                forall|j: int| 0 <= j < i ==> (#[trigger] self.reviews@[j]).rating_defined(),
            decreases self.reviews@.len() - i,
        {
            let rating = self.reviews[i].rating;
            if rating < 1 || rating > 4 {
                return true;
            }
            i += 1;
        }
        false
    }

    /// Whether the history holds a review with a positive number of elapsed
    /// days.
    pub fn has_long_term_review(&self) -> (found: bool)
        ensures
            found == has_long_term_review(self@),
    {
        let mut i: usize = 0;
        while i < self.reviews.len()
            invariant
                i <= self.reviews@.len(),
                forall|j: int| 0 <= j < i ==> !(#[trigger] self.reviews@[j]).long_term(),
            decreases self.reviews@.len() - i,
        {
            if self.reviews[i].delta_t > 0 {
                return true;
            }
            i += 1;
        }
        false
    }
}

/// Decides whether a training set meets what `fsrs_compute_parameters`
/// requires: the length tags are right and the set is fit for training.
pub fn training_set_admissible(train_set: &FsrsItems) -> (ok: bool)
    ensures
        ok == (train_set.wf() && fit_for_training(train_set@)),
{
    if train_set.len != train_set.items.len() {
        return false;
    }
    let mut rejected = false;
    let mut all_long_term = true;
    let mut i: usize = 0;
    while i < train_set.items.len()
        invariant
            i <= train_set.items@.len(),
            train_set.len == train_set.items@.len(),
            forall|j: int| 0 <= j < i ==> (#[trigger] train_set.items@[j]).wf(),
            rejected == exists|j: int|
                0 <= j < i && history_malformed(#[trigger] train_set@[j]),
            all_long_term == forall|j: int|
                0 <= j < i ==> has_long_term_review(#[trigger] train_set@[j]),
        decreases train_set.items@.len() - i,
    {
        let item = &train_set.items[i];
        if item.len != item.reviews.len() {
            return false;
        }
        assert(train_set@[i as int] == item@);
        if item.is_malformed() {
            rejected = true;
        }
        if !item.has_long_term_review() {
            all_long_term = false;
        }
        i += 1;
    }
    rejected || all_long_term
}

/// Runs the engine's `compute_parameters` on a training set, with the
/// short-term memory parameters enabled or frozen as the caller says and
/// every other setting at its default.
///
/// This is the one call into the engine, and its contract is not proved.
/// It claims what the engine's source shows of every run:
/// - a set with an empty history, or with a rating outside 1 to 4, is
///   refused with an error before anything else is looked at;
/// - a set of fewer than eight acceptable items is never fitted: the answer
///   is the table of default parameters;
/// - every successful answer holds one value per model parameter.
///
/// The engine's outlier filter looks up the first long-term review of each
/// item and stops the process when there is none, so such sets are excluded.
/// Each parameter is handed back as the bit pattern of its value.
#[verifier::external_body]
fn engine_compute_parameters(items: &Vec<FSRSItem>, enable_short_term: bool) -> (outcome: Result<
    Vec<u32>,
    fsrs::FSRSError,
>)
    requires
        fit_for_training(histories(items@)),
    ensures
        training_set_rejected(histories(items@)) ==> outcome is Err,
        !training_set_rejected(histories(items@)) && items@.len() <= SMALL_SET_MAX ==> outcome is Ok
            && outcome->Ok_0@ == default_parameter_bits(),
        outcome is Ok ==> outcome->Ok_0@.len() == PARAMETER_COUNT,
{
    let train_set = items.iter().map(|item| fsrs::FSRSItem {
        reviews: item.reviews.iter().map(|review| fsrs::FSRSReview {
            rating: review.rating,
            delta_t: review.delta_t,
        }).collect(),
    }).collect();
    let input = fsrs::ComputeParametersInput {
        train_set,
        enable_short_term,
        ..Default::default()
    };
    fsrs::compute_parameters(input).map(|fitted| fitted.iter().map(|w| w.to_bits()).collect())
}

/// Collapses the outcome of a fit: the fitted parameters as they came, or
/// an empty vector for any failure.
pub fn parameters_or_empty(outcome: Result<Vec<u32>, fsrs::FSRSError>) -> (parameters: Vec<u32>)
    ensures
        outcome is Ok ==> parameters@ == outcome->Ok_0@,
        outcome is Err ==> parameters@ == Seq::<u32>::empty(),
{
    match outcome {
        Ok(fitted) => fitted,
        Err(_) => Vec::new(),
    }
}

/// Fits model parameters to a training set.
///
/// The training set is only read. An empty result means that no parameters
/// could be fitted, and the caller falls back on the defaults:
/// - an empty training set yields an empty result, without a run of the
///   engine;
/// - so does a set that the engine rejects, and any failure inside the fit.
///
/// A set of one to seven acceptable items is too small to fit: the engine
/// answers with its default parameters. Any other result holds one value
/// per model parameter.
///
/// The engine stops the process on an acceptable history that holds no
/// long-term review, so the set has to be fit for training;
/// `fsrs_compute_parameters_checked` tests that first.
pub fn fsrs_compute_parameters(train_set: &FsrsItems) -> (parameters: Vec<u32>)
    requires
        train_set.wf(),
        fit_for_training(train_set@),
    ensures
        train_set@.len() == 0 ==> parameters@.len() == 0,
        training_set_rejected(train_set@) ==> parameters@.len() == 0,
        !training_set_rejected(train_set@) && 1 <= train_set@.len() <= SMALL_SET_MAX
            ==> parameters@ == default_parameter_bits(),
        parameters@.len() == 0 || parameters@.len() == PARAMETER_COUNT,
{
    if train_set.len == 0 {
        return Vec::new();
    }
    let outcome = engine_compute_parameters(&train_set.items, true);
    parameters_or_empty(outcome)
}

/// Fits model parameters to a training set if the set is admissible, and
/// says so with `None` if it is not. What is fitted is what
/// `fsrs_compute_parameters` yields.
pub fn fsrs_compute_parameters_checked(train_set: &FsrsItems) -> (fitted: Option<Vec<u32>>)
    ensures
        fitted is Some <==> train_set.wf() && fit_for_training(train_set@),
        fitted is Some && train_set@.len() == 0 ==> fitted->Some_0@.len() == 0,
        fitted is Some && training_set_rejected(train_set@) ==> fitted->Some_0@.len() == 0,
        fitted is Some && !training_set_rejected(train_set@) && 1 <= train_set@.len()
            <= SMALL_SET_MAX ==> fitted->Some_0@ == default_parameter_bits(),
        fitted is Some ==> fitted->Some_0@.len() == 0 || fitted->Some_0@.len() == PARAMETER_COUNT,
{
    if training_set_admissible(train_set) {
        Some(fsrs_compute_parameters(train_set))
    } else {
        None
    }
}

/// Releases a parameter vector. `None` stands for the null handle and is a
/// no-op.
pub fn fsrs_parameters_free(parameters: Option<Vec<u32>>) {
    let _ = parameters;
}

} // verus!
