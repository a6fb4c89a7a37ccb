//! Going through a launcher's games one by one and keeping those whose
//! metadata was found.

use vstd::prelude::*;

use crate::service::Game;

verus! {

/// Progress through a list of `total` owned games.
pub struct CategorizeProgress {
    total: usize,
    processed: usize,
    found: Vec<Game>,
    not_found: usize,
}

/// What a progress holds.
pub struct ProgressView {
    pub total: nat,
    pub processed: nat,
    pub found: Seq<Game>,
    pub not_found: nat,
}

/// The progress after one more game: kept where it was found, counted as not
/// found otherwise.
pub open spec fn recorded(p: ProgressView, outcome: Option<Game>) -> ProgressView {
    match outcome {
        Some(g) => ProgressView { processed: p.processed + 1, found: p.found.push(g), ..p },
        None => ProgressView { processed: p.processed + 1, not_found: p.not_found + 1, ..p },
    }
}

/// The progress after a run of outcomes, in order.
pub open spec fn recorded_all(p: ProgressView, outcomes: Seq<Option<Game>>) -> ProgressView
    decreases outcomes.len(),
{
    if outcomes.len() == 0 {
        p
    } else {
        recorded(recorded_all(p, outcomes.drop_last()), outcomes.last())
    }
}

/// The games of the found outcomes, in order.
pub open spec fn found_games(outcomes: Seq<Option<Game>>) -> Seq<Game>
    decreases outcomes.len(),
{
    if outcomes.len() == 0 {
        Seq::empty()
    } else {
        match outcomes.last() {
            Some(g) => found_games(outcomes.drop_last()).push(g),
            None => found_games(outcomes.drop_last()),
        }
    }
}

/// How many outcomes found nothing.
pub open spec fn missing_count(outcomes: Seq<Option<Game>>) -> nat
    decreases outcomes.len(),
{
    if outcomes.len() == 0 {
        0
    } else {
        match outcomes.last() {
            Some(_) => missing_count(outcomes.drop_last()),
            None => missing_count(outcomes.drop_last()) + 1,
        }
    }
}

pub open spec fn start_view(total: nat) -> ProgressView {
    ProgressView { total, processed: 0, found: Seq::empty(), not_found: 0 }
}

impl View for CategorizeProgress {
    type V = ProgressView;

    closed spec fn view(&self) -> ProgressView {
        ProgressView {
            total: self.total as nat,
            processed: self.processed as nat,
            found: self.found@,
            not_found: self.not_found as nat,
        }
    }
}

impl CategorizeProgress {
    /// Each processed game is counted once, as found or as not found.
    pub closed spec fn wf(&self) -> bool {
        &&& self.processed <= self.total
        &&& self.found@.len() + self.not_found == self.processed
    }

    /// A well-formed progress counts every processed game once and never
    /// passes its total.
    pub proof fn lemma_counted(&self)
        requires
            self.wf(),
        ensures
            self@.found.len() + self@.not_found == self@.processed,
            self@.processed <= self@.total,
    {
    }

    /// No game processed yet out of `total`.
    pub fn new(total: usize) -> (r: Self)
        ensures
            r.wf(),
            r@ == start_view(total as nat),
    {
        CategorizeProgress { total, processed: 0, found: Vec::new(), not_found: 0 }
    }

    pub fn total(&self) -> (n: usize)
        ensures
            n == self@.total,
    {
        self.total
    }

    pub fn processed(&self) -> (n: usize)
        ensures
            n == self@.processed,
    {
        self.processed
    }

    pub fn found_count(&self) -> (n: usize)
        ensures
            n == self@.found.len(),
    {
        self.found.len()
    }

    pub fn not_found_count(&self) -> (n: usize)
        ensures
            n == self@.not_found,
    {
        self.not_found
    }

    /// Whether progress is to be reported before the next game: before the
    /// first and then before every tenth.
    pub fn report_due(&self) -> (due: bool)
        ensures
            due == (self@.processed % 10 == 0),
    {
        self.processed % 10 == 0
    }

    /// Records the outcome of the next game's search.
    pub fn record(&mut self, outcome: Option<Game>)
        requires
            old(self).wf(),
            old(self)@.processed < old(self)@.total,
        ensures
            final(self).wf(),
            final(self)@ == recorded(old(self)@, outcome),
    {
        match outcome {
            Some(g) => {
                self.found.push(g);
            },
            None => {
                self.not_found = self.not_found + 1;
            },
        }
        self.processed = self.processed + 1;
    }

    /// The games found so far, in the order they were recorded.
    pub fn into_found(self) -> (games: Vec<Game>)
        ensures
            games@ == self@.found,
    {
        self.found
    }
}

/// Every game is counted once: after recording a run of outcomes from the
/// start, the processed count is the run's length, the found games are the
/// found outcomes in order, and the rest are counted as not found.
pub proof fn law_progress_counts(total: nat, outcomes: Seq<Option<Game>>)
    ensures
        recorded_all(start_view(total), outcomes) == (ProgressView {
            total,
            processed: outcomes.len(),
            found: found_games(outcomes),
            not_found: missing_count(outcomes),
        }),
        found_games(outcomes).len() + missing_count(outcomes) == outcomes.len(),
    decreases outcomes.len(),
{
    if outcomes.len() > 0 {
        law_progress_counts(total, outcomes.drop_last());
    }
}

} // verus!
