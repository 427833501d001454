use vstd::prelude::*;

verus! {

/// The lowest minimum cutoff tried, in hundredths of a hertz.
pub const CUTOFF_FIRST_CENTI: u32 = 10;

/// Number of minimum cutoffs tried per round: 0.10 Hz up to 3.99 Hz in 0.01 Hz steps.
pub const CUTOFF_COUNT: u32 = 390;

/// Number of decreasing step scales for beta.
pub const BETA_SCALES: u32 = 5;

/// Number of beta steps taken at each scale.
pub const STEPS_PER_SCALE: u32 = 36;

/// Number of beta values tried for each cutoff.
pub const BETA_COUNT: u32 = 180;

/// Number of candidates in one full round.
pub const ROUND_LEN: u32 = 70200;

/// One point of the search: a minimum cutoff and a position in the beta schedule.
#[derive(Debug, Clone, Copy, PartialEq, Eq, Structural)]
pub struct Candidate {
    /// Minimum cutoff in hundredths of a hertz.
    pub cutoff_centi: u32,
    /// Position in the beta schedule, from 0 (the first step below 1.0) to `BETA_COUNT - 1`.
    pub beta_pos: u32,
}

/// The candidate at a position of a round: cutoffs in increasing order, and for each
/// cutoff the whole beta schedule.
pub open spec fn candidate_at(pos: int) -> Candidate {
    Candidate {
        cutoff_centi: (CUTOFF_FIRST_CENTI + pos / (BETA_COUNT as int)) as u32,
        beta_pos: (pos % (BETA_COUNT as int)) as u32,
    }
}

/// The beta scale of a schedule position, from 1 (steps of 0.025) to 5 (steps of 0.0000025).
pub open spec fn scale_of(beta_pos: int) -> int {
    beta_pos / (STEPS_PER_SCALE as int) + 1
}

/// How a measured candidate compares with the lag bound and with the best one so far.
#[derive(Debug, Clone, Copy, PartialEq, Eq, Structural)]
pub struct Comparison {
    /// The best lag so far is at most the bound.
    pub best_lag_within_bound: bool,
    /// The candidate's lag is below the bound.
    pub lag_within_bound: bool,
    /// The candidate's precision is not above the best precision so far.
    pub no_less_precise: bool,
    /// The candidate's lag is at most the best lag so far.
    pub no_slower: bool,
}

/// The acceptance rule: once some candidate meets the lag bound, a new one must meet it too
/// and be no less precise; before that, any candidate that is no slower is taken.
pub open spec fn accepts_spec(c: Comparison) -> bool {
    if c.best_lag_within_bound {
        c.lag_within_bound && c.no_less_precise
    } else {
        c.no_slower
    }
}

pub fn accepts(c: &Comparison) -> (r: bool)
    ensures
        r == accepts_spec(*c),
{
    if c.best_lag_within_bound {
        c.lag_within_bound && c.no_less_precise
    } else {
        c.no_slower
    }
}

/// What the search asks for next.
#[derive(Debug, Clone, Copy, PartialEq, Eq, Structural)]
pub enum SearchStep {
    /// Measure this candidate and offer the result.
    Try(Candidate),
    /// A round ended with nothing accepted: relax the target precision and go again.
    Relax,
    /// A round ended with a candidate accepted: this is the best one.
    Finished(Candidate),
    /// The last allowed round ended with nothing accepted.
    Exhausted,
}

/// Why the search gave no result.
#[derive(Debug, Clone, Copy, PartialEq, Eq, Structural)]
pub enum SearchError {
    /// No candidate was accepted within the allowed number of rounds.
    NoFeasibleConfiguration,
}

/// The state of a search over cutoff and beta, run in rounds of increasing target
/// precision, at most `max_rounds` of them.
pub struct Sweep {
    round: u32,
    max_rounds: u32,
    next: u32,
    best: Option<Candidate>,
}

impl Sweep {
    /// The round in progress, counted from 0.
    pub closed spec fn round_spec(&self) -> nat {
        self.round as nat
    }

    pub closed spec fn max_rounds_spec(&self) -> nat {
        self.max_rounds as nat
    }

    /// Position in the round of the next candidate to hand out.
    pub closed spec fn next_spec(&self) -> nat {
        self.next as nat
    }

    /// The candidate accepted last in this round, if any.
    pub closed spec fn best_spec(&self) -> Option<Candidate> {
        self.best
    }

    pub open spec fn wf(&self) -> bool {
        &&& self.round_spec() < self.max_rounds_spec()
        &&& self.next_spec() <= ROUND_LEN
    }

    /// The candidate handed out by the last `Try`.
    pub open spec fn pending(&self) -> Candidate {
        candidate_at(self.next_spec() - 1)
    }

    /// A bound on the steps left: it falls with each `Try` and `Relax`.
    pub open spec fn steps_left(&self) -> nat {
        ((self.max_rounds_spec() - self.round_spec()) * (ROUND_LEN + 1) - self.next_spec()) as nat
    }

    pub fn new(max_rounds: u32) -> (r: Self)
        requires
            max_rounds >= 1,
        ensures
            r.wf(),
            r.round_spec() == 0,
            r.max_rounds_spec() == max_rounds,
            r.next_spec() == 0,
            r.best_spec() is None,
            r.steps_left() == max_rounds * (ROUND_LEN + 1),
    {
        Sweep { round: 0, max_rounds, next: 0, best: None }
    }

    pub fn round(&self) -> (r: u32)
        ensures
            r == self.round_spec(),
    {
        self.round
    }

    pub fn best(&self) -> (r: Option<Candidate>)
        ensures
            r == self.best_spec(),
    {
        self.best
    }

    /// Decides what comes next: the next candidate of the round, or at the end of a round a
    /// result, a relaxation, or the end of the search.
    pub fn next_step(&mut self) -> (r: SearchStep)
        requires
            old(self).wf(),
        ensures
            final(self).wf(),
            final(self).max_rounds_spec() == old(self).max_rounds_spec(),
            old(self).next_spec() < ROUND_LEN ==> r == SearchStep::Try(
                candidate_at(old(self).next_spec() as int),
            ) && final(self).next_spec() == old(self).next_spec() + 1 && final(self).round_spec()
                == old(self).round_spec() && final(self).best_spec() == old(self).best_spec(),
            old(self).next_spec() == ROUND_LEN && old(self).best_spec() is Some ==> r
                == SearchStep::Finished(old(self).best_spec()->0) && *final(self) == *old(self),
            old(self).next_spec() == ROUND_LEN && old(self).best_spec() is None && old(
                self,
            ).round_spec() + 1 < old(self).max_rounds_spec() ==> r == SearchStep::Relax
                && final(self).round_spec() == old(self).round_spec() + 1 && final(self).next_spec()
                == 0 && final(self).best_spec() is None,
            old(self).next_spec() == ROUND_LEN && old(self).best_spec() is None && old(
                self,
            ).round_spec() + 1 == old(self).max_rounds_spec() ==> r == SearchStep::Exhausted
                && *final(self) == *old(self),
            r is Try || r is Relax ==> final(self).steps_left() < old(self).steps_left(),
    {
        if self.next < ROUND_LEN {
            let pos = self.next;
            self.next = self.next + 1;
            SearchStep::Try(
                Candidate { cutoff_centi: CUTOFF_FIRST_CENTI + pos / BETA_COUNT, beta_pos: pos % BETA_COUNT },
            )
        } else {
            match self.best {
                Some(c) => SearchStep::Finished(c),
                None => {
                    if self.round + 1 < self.max_rounds {
                        self.round = self.round + 1;
                        self.next = 0;
                        proof {
                            let m = self.max_rounds_spec() as int;
                            let r0 = old(self).round_spec() as int;
                            let k = ROUND_LEN as int + 1;
                            assert((m - r0) * k == (m - (r0 + 1)) * k + k) by (nonlinear_arith);
                        }
                        SearchStep::Relax
                    } else {
                        SearchStep::Exhausted
                    }
                },
            }
        }
    }

    /// Offers the measurement of the pending candidate: it is accepted when its precision
    /// is within the target and the acceptance rule takes it.
    pub fn offer(&mut self, within_target: bool, c: &Comparison) -> (accepted: bool)
        requires
            old(self).wf(),
            old(self).next_spec() >= 1,
        ensures
            accepted == (within_target && accepts_spec(*c)),
            final(self).wf(),
            final(self).round_spec() == old(self).round_spec(),
            final(self).max_rounds_spec() == old(self).max_rounds_spec(),
            final(self).next_spec() == old(self).next_spec(),
            accepted ==> final(self).best_spec() == Some(old(self).pending()),
            !accepted ==> final(self).best_spec() == old(self).best_spec(),
    {
        let accepted = within_target && accepts(c);
        if accepted {
            let pos = self.next - 1;
            self.best = Some(
                Candidate { cutoff_centi: CUTOFF_FIRST_CENTI + pos / BETA_COUNT, beta_pos: pos % BETA_COUNT },
            );
        }
        accepted
    }
}

} // verus!
