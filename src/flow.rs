use vstd::prelude::*;
use crate::ledger::{apply_steps, Ledger, MintSlot, Step, MINT_LEN};
use crate::plan::{
    issuance_plan, issuance_steps, issued_supply, mint_account_space, mint_creation_plan,
    mint_steps, needs_mint_signature, receiver_account, receiver_account_of, transfer_plan,
    transfer_steps, BalanceQuery, QueryErrorPolicy, MINT_DECIMALS,
};
use crate::poll::{
    airdrop_lamports, limit_reached, saturating_succ, ConfirmPoll, PollAction, PollLimit,
    LAMPORTS_PER_SOL,
};

verus! {

/// The settings of a run of the flow.
#[derive(Clone, Copy, Debug, PartialEq, Eq, Structural)]
pub struct FlowConfig {
    /// Lamports asked for when funding the signer.
    pub airdrop: u64,
    /// Decimal precision of the mint.
    pub decimals: u8,
    /// Base units issued to the signer and then transferred to the receiver.
    pub supply: u64,
    /// How long to wait for the funding to be confirmed.
    pub poll_limit: PollLimit,
    /// How a failed balance query on the receiver's account is read.
    pub query_errors: QueryErrorPolicy,
}

impl FlowConfig {
    /// Ten native tokens of funding, a mint of nine decimals, ten thousand
    /// tokens issued and transferred; the funding poll waits without limit
    /// and a failed receiver query counts as a missing account.
    pub fn standard() -> (r: FlowConfig)
        ensures
            r.airdrop == 10 * LAMPORTS_PER_SOL,
            r.decimals == MINT_DECIMALS,
            r.supply == 10_000_000_000_000,
            r.poll_limit == PollLimit::Unbounded,
            r.query_errors == QueryErrorPolicy::TreatAsMissing,
    {
        let supply = issued_supply();
        FlowConfig {
            airdrop: airdrop_lamports(),
            decimals: MINT_DECIMALS,
            supply,
            poll_limit: PollLimit::Unbounded,
            query_errors: QueryErrorPolicy::TreatAsMissing,
        }
    }
}

/// Where the flow stands.
#[derive(Clone, Copy, Debug, PartialEq, Eq, Structural)]
pub enum Stage {
    /// Nothing done yet.
    Start,
    /// The funding credit is being requested.
    RequestingFunds,
    /// Waiting for the funding credit to be confirmed.
    Confirming,
    /// Waiting for the rent that a mint account needs.
    Sizing,
    /// The mint creation transaction is in flight.
    CreatingMint,
    /// The issuance transaction is in flight.
    Issuing,
    /// Waiting for the balance query on the receiver's account.
    CheckingReceiver,
    /// The transfer transaction is in flight.
    Transferring,
    /// Waiting for both final balances.
    Verifying,
    Done,
    Failed,
}

/// What came back from the ledger.
#[derive(Clone, Copy, Debug, PartialEq, Eq, Structural)]
pub enum Event {
    /// Starts the flow.
    Begin,
    /// The funding credit was requested and has a transaction id.
    FundsRequested,
    /// A confirmation query on the funding credit answered.
    Confirmation(bool),
    /// The least balance that exempts a mint account from rent.
    Rent(u64),
    /// The last submitted transaction was confirmed.
    Submitted,
    /// The balance query on the receiver's token account answered.
    ReceiverBalance(BalanceQuery),
    /// The final balances of both token accounts.
    Balances { signer: u64, receiver: u64 },
}

/// Why the flow stopped early.
#[derive(Clone, Copy, Debug, PartialEq, Eq, Structural)]
pub enum FlowError {
    /// The funding credit was not confirmed within the poll limit.
    NotConfirmed,
    /// Recording the funding credit passes the largest `u64`.
    Overflow,
    /// The ledger would reject the next transaction.
    Rejected,
    /// The receiver's balance query failed and the policy stops the flow.
    ReceiverQueryFailed,
    /// An event came that the current stage does not wait for.
    OutOfOrder,
}

/// What the caller does next.
#[derive(Debug)]
pub enum Action {
    /// Request a credit of `lamports` to the signer wallet.
    RequestAirdrop { lamports: u64 },
    /// Ask whether the funding credit is confirmed.
    QueryConfirmation,
    /// Ask for the least balance that exempts `space` bytes from rent.
    QueryRent { space: u64 },
    /// Build a transaction of these steps, paid and signed by the signer and
    /// also by the mint account where `mint_signs`, then send it and wait for
    /// its confirmation.
    Submit { steps: Vec<Step>, mint_signs: bool },
    /// Query the balance of the receiver's token account.
    QueryReceiverBalance,
    /// Query the balances of both token accounts.
    QueryBalances,
    /// The flow is over; `as_expected` tells whether the reported balances
    /// are the ones the flow predicted.
    Finish { signer_balance: u64, receiver_balance: u64, as_expected: bool },
    /// The flow stopped.
    Stop(FlowError),
}

/// A run of the flow: its stage, settings and the ledger as it expects it.
#[derive(Clone, Copy, Debug)]
pub struct Flow {
    pub stage: Stage,
    pub config: FlowConfig,
    /// The ledger as confirmed so far.
    pub expected: Ledger,
    /// The ledger once the transaction in flight is confirmed.
    pub in_flight: Ledger,
    pub poll: ConfirmPoll,
}

impl Flow {
    /// While the funding poll runs it is open and keeps the configured limit.
    pub open spec fn wf(self) -> bool {
        self.stage == Stage::Confirming ==> !self.poll.done && self.poll.limit
            == self.config.poll_limit
    }

    pub fn new(config: FlowConfig) -> (r: Flow)
        ensures
            r.wf(),
            r.stage == Stage::Start,
            r.config == config,
            r.expected == (Ledger {
                lamports: 0,
                mint: MintSlot::Absent,
                signer_tokens: None,
                receiver_tokens: None,
            }),
    {
        Flow {
            stage: Stage::Start,
            config,
            expected: Ledger::fresh(),
            in_flight: Ledger::fresh(),
            poll: ConfirmPoll::new(config.poll_limit),
        }
    }

    /// Prepares the transaction of `steps` against the expected ledger:
    /// submits it where the ledger would take it, stops otherwise.
    fn propose(&mut self, steps: Vec<Step>, next: Stage) -> (r: Action)
        requires
            next != Stage::Confirming,
        ensures
            final(self).config == old(self).config,
            final(self).expected == old(self).expected,
            final(self).poll == old(self).poll,
            apply_steps(old(self).expected, steps@) is Some ==> {
                &&& final(self).stage == next
                &&& final(self).in_flight == apply_steps(old(self).expected, steps@)->Some_0
                &&& r is Submit
                &&& r->steps@ == steps@
                &&& r->mint_signs == exists|i: int|
                    0 <= i < steps@.len() && (#[trigger] steps@[i]) is CreateMintAccount
            },
            apply_steps(old(self).expected, steps@) is None ==> final(self).stage == Stage::Failed
                && r == Action::Stop(FlowError::Rejected),
    {
        let mut predicted = self.expected;
        let mint_signs = needs_mint_signature(&steps);
        if predicted.submit(&steps) {
            self.in_flight = predicted;
            self.stage = next;
            Action::Submit { steps, mint_signs }
        } else {
            self.stage = Stage::Failed;
            Action::Stop(FlowError::Rejected)
        }
    }

    /// Takes what came back from the ledger and says what to do next.
    pub fn on_event(&mut self, event: Event) -> (r: Action)
        requires
            old(self).wf(),
        ensures
            final(self).wf(),
            final(self).config == old(self).config,
            // starting: ask for the funding credit
            old(self).stage == Stage::Start && event == Event::Begin ==> final(self).stage
                == Stage::RequestingFunds && final(self).expected == old(self).expected && r == (
            Action::RequestAirdrop { lamports: old(self).config.airdrop }),
            // the credit has an id: start polling for its confirmation
            old(self).stage == Stage::RequestingFunds && event == Event::FundsRequested
                ==> final(self).stage == Stage::Confirming && r == Action::QueryConfirmation
                && final(self).poll.pending == 0 && final(self).expected == old(self).expected,
            // confirmed: the credit is recorded, then the mint is sized
            old(self).stage == Stage::Confirming && event == Event::Confirmation(true) ==> {
                if old(self).expected.lamports + old(self).config.airdrop <= u64::MAX {
                    &&& final(self).stage == Stage::Sizing
                    &&& final(self).expected.lamports == old(self).expected.lamports
                        + old(self).config.airdrop
                    &&& final(self).expected.mint == old(self).expected.mint
                    &&& final(self).expected.signer_tokens == old(self).expected.signer_tokens
                    &&& final(self).expected.receiver_tokens == old(
                        self,
                    ).expected.receiver_tokens
                    &&& r == (Action::QueryRent { space: MINT_LEN })
                } else {
                    final(self).stage == Stage::Failed && r == Action::Stop(FlowError::Overflow)
                }
            },
            // not confirmed: query again, or give up once the limit is spent
            old(self).stage == Stage::Confirming && event == Event::Confirmation(false) ==> {
                let pending = saturating_succ(old(self).poll.pending);
                &&& final(self).expected == old(self).expected
                &&& final(self).poll.pending == pending
                &&& if limit_reached(old(self).config.poll_limit, pending) {
                    final(self).stage == Stage::Failed && r == Action::Stop(
                        FlowError::NotConfirmed,
                    )
                } else {
                    final(self).stage == Stage::Confirming && r == Action::QueryConfirmation
                }
            },
            // rent known: create the mint
            old(self).stage == Stage::Sizing && event is Rent ==> {
                let steps = mint_steps(event->Rent_0, old(self).config.decimals);
                &&& final(self).expected == old(self).expected
                &&& apply_steps(old(self).expected, steps) is Some ==> final(self).stage
                    == Stage::CreatingMint && final(self).in_flight == apply_steps(
                    old(self).expected,
                    steps,
                )->Some_0 && r is Submit && r->steps@ == steps && r->mint_signs
                &&& apply_steps(old(self).expected, steps) is None ==> final(self).stage
                    == Stage::Failed && r == Action::Stop(FlowError::Rejected)
            },
            // mint created: issue the supply
            old(self).stage == Stage::CreatingMint && event == Event::Submitted ==> {
                let steps = issuance_steps(old(self).config.supply);
                &&& final(self).expected == old(self).in_flight
                &&& apply_steps(old(self).in_flight, steps) is Some ==> final(self).stage
                    == Stage::Issuing && final(self).in_flight == apply_steps(
                    old(self).in_flight,
                    steps,
                )->Some_0 && r is Submit && r->steps@ == steps && !r->mint_signs
                &&& apply_steps(old(self).in_flight, steps) is None ==> final(self).stage
                    == Stage::Failed && r == Action::Stop(FlowError::Rejected)
            },
            // supply issued: look at the receiver's account
            old(self).stage == Stage::Issuing && event == Event::Submitted ==> final(self).stage
                == Stage::CheckingReceiver && final(self).expected == old(self).in_flight && r
                == Action::QueryReceiverBalance,
            // receiver known: transfer, creating its account where missing
            old(self).stage == Stage::CheckingReceiver && event is ReceiverBalance ==> {
                let q = event->ReceiverBalance_0;
                match receiver_account_of(q, old(self).config.query_errors) {
                    None => final(self).stage == Stage::Failed && r == Action::Stop(
                        FlowError::ReceiverQueryFailed,
                    ),
                    Some(ra) => {
                        let seen = Ledger {
                            receiver_tokens: match q {
                                BalanceQuery::Found(b) => Some(b),
                                _ => None,
                            },
                            ..old(self).expected
                        };
                        let steps = transfer_steps(old(self).config.supply, ra);
                        &&& final(self).expected == seen
                        &&& apply_steps(seen, steps) is Some ==> final(self).stage
                            == Stage::Transferring && final(self).in_flight == apply_steps(
                            seen,
                            steps,
                        )->Some_0 && r is Submit && r->steps@ == steps && !r->mint_signs
                        &&& apply_steps(seen, steps) is None ==> final(self).stage
                            == Stage::Failed && r == Action::Stop(FlowError::Rejected)
                    },
                }
            },
            // transferred: ask for the final balances
            old(self).stage == Stage::Transferring && event == Event::Submitted
                ==> final(self).stage == Stage::Verifying && final(self).expected == old(
                self,
            ).in_flight && r == Action::QueryBalances,
            // balances known: report them against the expectation
            old(self).stage == Stage::Verifying && event is Balances ==> final(self).stage
                == Stage::Done && final(self).expected == old(self).expected && r == (Action::Finish {
                signer_balance: event->signer,
                receiver_balance: event->receiver,
                as_expected: old(self).expected.signer_tokens == Some(event->signer)
                    && old(self).expected.receiver_tokens == Some(event->receiver),
            }),
            // anything else is out of order
            !expected_event(old(self).stage, event) ==> final(self).stage == Stage::Failed
                && final(self).expected == old(self).expected && r == Action::Stop(
                FlowError::OutOfOrder,
            ),
    {
        match (self.stage, event) {
            (Stage::Start, Event::Begin) => {
                self.stage = Stage::RequestingFunds;
                Action::RequestAirdrop { lamports: self.config.airdrop }
            },
            (Stage::RequestingFunds, Event::FundsRequested) => {
                self.poll = ConfirmPoll::new(self.config.poll_limit);
                self.stage = Stage::Confirming;
                Action::QueryConfirmation
            },
            (Stage::Confirming, Event::Confirmation(confirmed)) => {
                match self.poll.on_status(confirmed) {
                    PollAction::Finish => {
                        if self.expected.credit(self.config.airdrop) {
                            self.stage = Stage::Sizing;
                            Action::QueryRent { space: mint_account_space() }
                        } else {
                            self.stage = Stage::Failed;
                            Action::Stop(FlowError::Overflow)
                        }
                    },
                    PollAction::QueryAgain => Action::QueryConfirmation,
                    PollAction::GiveUp => {
                        self.stage = Stage::Failed;
                        Action::Stop(FlowError::NotConfirmed)
                    },
                }
            },
            (Stage::Sizing, Event::Rent(rent)) => {
                let steps = mint_creation_plan(rent, self.config.decimals);
                proof {
                    assert(steps@[0] is CreateMintAccount);
                }
                self.propose(steps, Stage::CreatingMint)
            },
            (Stage::CreatingMint, Event::Submitted) => {
                self.expected = self.in_flight;
                let steps = issuance_plan(self.config.supply);
                proof {
                    assert(forall|i: int| 0 <= i < steps@.len() ==> !(#[trigger] steps@[i] is CreateMintAccount)) by {
                        assert(steps@.len() == 2);
                    }
                }
                self.propose(steps, Stage::Issuing)
            },
            (Stage::Issuing, Event::Submitted) => {
                self.expected = self.in_flight;
                self.stage = Stage::CheckingReceiver;
                Action::QueryReceiverBalance
            },
            (Stage::CheckingReceiver, Event::ReceiverBalance(q)) => {
                match receiver_account(q, self.config.query_errors) {
                    None => {
                        self.stage = Stage::Failed;
                        Action::Stop(FlowError::ReceiverQueryFailed)
                    },
                    Some(ra) => {
                        self.expected.receiver_tokens = match q {
                            BalanceQuery::Found(b) => Some(b),
                            _ => None,
                        };
                        let steps = transfer_plan(self.config.supply, ra);
                        proof {
                    assert(forall|i: int| 0 <= i < steps@.len() ==> !(#[trigger] steps@[i] is CreateMintAccount)) by {
                        assert(steps@.len() <= 2);
                    }
                }
                self.propose(steps, Stage::Transferring)
                    },
                }
            },
            (Stage::Transferring, Event::Submitted) => {
                self.expected = self.in_flight;
                self.stage = Stage::Verifying;
                Action::QueryBalances
            },
            (Stage::Verifying, Event::Balances { signer, receiver }) => {
                let as_expected = self.expected.matches_reported(signer, receiver);
                self.stage = Stage::Done;
                Action::Finish { signer_balance: signer, receiver_balance: receiver, as_expected }
            },
            _ => {
                self.stage = Stage::Failed;
                Action::Stop(FlowError::OutOfOrder)
            },
        }
    }
}

/// Whether `stage` waits for an event of this kind.
pub open spec fn expected_event(stage: Stage, event: Event) -> bool {
    match (stage, event) {
        (Stage::Start, Event::Begin) => true,
        (Stage::RequestingFunds, Event::FundsRequested) => true,
        (Stage::Confirming, Event::Confirmation(_)) => true,
        (Stage::Sizing, Event::Rent(_)) => true,
        (Stage::CreatingMint, Event::Submitted) => true,
        (Stage::Issuing, Event::Submitted) => true,
        (Stage::CheckingReceiver, Event::ReceiverBalance(_)) => true,
        (Stage::Transferring, Event::Submitted) => true,
        (Stage::Verifying, Event::Balances { .. }) => true,
        _ => false,
    }
}

} // verus!
