use vstd::prelude::*;

verus! {

/// Lamports in one native token.
pub const LAMPORTS_PER_SOL: u64 = 1_000_000_000;

/// The credit asked for when funding a fresh wallet: ten native tokens, in
/// lamports.
pub fn airdrop_lamports() -> (r: u64)
    ensures
        r == 10 * LAMPORTS_PER_SOL,
{
    10 * LAMPORTS_PER_SOL
}

/// How many confirmation queries a poll may make before it gives up.
#[derive(Clone, Copy, Debug, PartialEq, Eq, Structural)]
pub enum PollLimit {
    /// Query until the ledger confirms, however long that takes.
    Unbounded,
    /// Give up once this many queries have come back unconfirmed.
    AtMost(u64),
}

/// What the caller does next after a confirmation query came back.
#[derive(Clone, Copy, Debug, PartialEq, Eq, Structural)]
pub enum PollAction {
    /// The transaction is confirmed: stop polling.
    Finish,
    /// Not confirmed yet: query again.
    QueryAgain,
    /// Not confirmed, and the limit is spent: stop and report failure.
    GiveUp,
}

/// The state of a poll that waits for a transaction's confirmation.
#[derive(Clone, Copy, Debug)]
pub struct ConfirmPoll {
    pub limit: PollLimit,
    /// Queries that came back unconfirmed so far.
    pub pending: u64,
    /// Whether the poll has ended, confirmed or given up.
    pub done: bool,
}

/// Whether `pending` unconfirmed answers exhaust `limit`.
pub open spec fn limit_reached(limit: PollLimit, pending: nat) -> bool {
    match limit {
        PollLimit::Unbounded => false,
        PollLimit::AtMost(n) => pending >= n,
    }
}

impl ConfirmPoll {
    pub fn new(limit: PollLimit) -> (r: ConfirmPoll)
        ensures
            r.limit == limit,
            r.pending == 0,
            !r.done,
    {
        ConfirmPoll { limit, pending: 0, done: false }
    }

    /// Takes the answer of one confirmation query and says what to do next.
    /// A confirmed answer finishes the poll; an unconfirmed one asks for
    /// another query until the limit is reached.
    pub fn on_status(&mut self, confirmed: bool) -> (r: PollAction)
        requires
            !old(self).done,
        ensures
            final(self).limit == old(self).limit,
            confirmed ==> r == PollAction::Finish && final(self).pending == old(self).pending,
            !confirmed ==> final(self).pending as nat == saturating_succ(old(self).pending),
            !confirmed ==> (r == PollAction::GiveUp <==> limit_reached(
                old(self).limit,
                saturating_succ(old(self).pending) as nat,
            )),
            !confirmed ==> (r == PollAction::QueryAgain <==> !limit_reached(
                old(self).limit,
                saturating_succ(old(self).pending) as nat,
            )),
            final(self).done <==> r != PollAction::QueryAgain,
    {
        if confirmed {
            self.done = true;
            return PollAction::Finish;
        }
        self.pending = if self.pending < u64::MAX { self.pending + 1 } else { u64::MAX };
        let exhausted = match self.limit {
            PollLimit::Unbounded => false,
            PollLimit::AtMost(n) => self.pending >= n,
        };
        if exhausted {
            self.done = true;
            PollAction::GiveUp
        } else {
            PollAction::QueryAgain
        }
    }
}

/// One more than `n`, held at the largest `u64`.
pub open spec fn saturating_succ(n: u64) -> nat {
    if n < u64::MAX { (n + 1) as nat } else { u64::MAX as nat }
}

} // verus!
