use vstd::prelude::*;

verus! {

/// One of the two wallets of the flow.
#[derive(Clone, Copy, Debug, PartialEq, Eq, Structural)]
pub enum Holder {
    /// The funded wallet: payer, mint authority and sender.
    Signer,
    /// The wallet that receives the transfer.
    Receiver,
}

/// One instruction of a transaction, over the accounts of the flow.
#[derive(Clone, Copy, Debug, PartialEq, Eq, Structural)]
pub enum Step {
    /// The signer pays `lamports` into a new account of `space` bytes for the
    /// mint, owned by the token program.
    CreateMintAccount { lamports: u64, space: u64 },
    /// The mint account becomes a mint with this precision and mint
    /// authority, without a freeze authority.
    InitializeMint { decimals: u8, authority: Holder },
    /// The associated token account of `owner` for the mint is created, the
    /// signer paying.
    CreateAssociatedAccount { owner: Holder },
    /// `amount` base units are minted into the signer's token account, the
    /// signer signing as mint authority.
    MintTo { amount: u64 },
    /// `amount` base units move from the signer's token account to the
    /// receiver's, the signer signing as owner.
    Transfer { amount: u64 },
}

/// The state of the mint account.
#[derive(Clone, Copy, Debug, PartialEq, Eq, Structural)]
pub enum MintSlot {
    Absent,
    Allocated { space: u64 },
    Initialized { decimals: u8, authority: Holder, supply: u64 },
}

/// The size in bytes of a mint account's data.
pub const MINT_LEN: u64 = 82;

/// The part of the ledger that the flow touches, as the flow expects it to be.
/// `lamports` is what the signer wallet holds as far as the flow's own credits
/// and payments go; fees and the rent that the associated account program
/// takes are not counted. A token account is `None` while it does not exist.
#[derive(Clone, Copy, Debug, PartialEq, Eq, Structural)]
pub struct Ledger {
    pub lamports: u64,
    pub mint: MintSlot,
    pub signer_tokens: Option<u64>,
    pub receiver_tokens: Option<u64>,
}

pub open spec fn tokens_of(l: Ledger, h: Holder) -> Option<u64> {
    match h {
        Holder::Signer => l.signer_tokens,
        Holder::Receiver => l.receiver_tokens,
    }
}

/// The ledger after one step, or `None` where the ledger rejects the step.
pub open spec fn apply_step(l: Ledger, s: Step) -> Option<Ledger> {
    match s {
        Step::CreateMintAccount { lamports, space } => {
            if l.mint == MintSlot::Absent && l.lamports >= lamports {
                Some(Ledger { lamports: (l.lamports - lamports) as u64, mint: MintSlot::Allocated { space }, ..l })
            } else {
                None
            }
        },
        Step::InitializeMint { decimals, authority } => {
            if l.mint == (MintSlot::Allocated { space: MINT_LEN }) {
                Some(Ledger { mint: MintSlot::Initialized { decimals, authority, supply: 0 }, ..l })
            } else {
                None
            }
        },
        Step::CreateAssociatedAccount { owner } => {
            if l.mint is Initialized && tokens_of(l, owner) is None {
                match owner {
                    Holder::Signer => Some(Ledger { signer_tokens: Some(0), ..l }),
                    Holder::Receiver => Some(Ledger { receiver_tokens: Some(0), ..l }),
                }
            } else {
                None
            }
        },
        Step::MintTo { amount } => {
            match (l.mint, l.signer_tokens) {
                (MintSlot::Initialized { decimals, authority, supply }, Some(b)) => {
                    if authority == Holder::Signer && supply + amount <= u64::MAX && b + amount
                        <= u64::MAX {
                        Some(
                            Ledger {
                                mint: MintSlot::Initialized {
                                    decimals,
                                    authority,
                                    supply: (supply + amount) as u64,
                                },
                                signer_tokens: Some((b + amount) as u64),
                                ..l
                            },
                        )
                    } else {
                        None
                    }
                },
                _ => None,
            }
        },
        Step::Transfer { amount } => {
            match (l.signer_tokens, l.receiver_tokens) {
                (Some(b), Some(c)) => {
                    if l.mint is Initialized && b >= amount && c + amount <= u64::MAX {
                        Some(
                            Ledger {
                                signer_tokens: Some((b - amount) as u64),
                                receiver_tokens: Some((c + amount) as u64),
                                ..l
                            },
                        )
                    } else {
                        None
                    }
                },
                _ => None,
            }
        },
    }
}

/// The ledger after a transaction's steps in order, or `None` where the
/// ledger rejects one of them (and with it the whole transaction).
pub open spec fn apply_steps(l: Ledger, steps: Seq<Step>) -> Option<Ledger>
    decreases steps.len(),
{
    if steps.len() == 0 {
        Some(l)
    } else {
        match apply_step(l, steps[0]) {
            Some(n) => apply_steps(n, steps.drop_first()),
            None => None,
        }
    }
}

impl Ledger {
    /// The ledger before the flow: an unfunded wallet, no mint, no token
    /// accounts.
    pub fn fresh() -> (r: Ledger)
        ensures
            r == (Ledger {
                lamports: 0,
                mint: MintSlot::Absent,
                signer_tokens: None,
                receiver_tokens: None,
            }),
    {
        Ledger { lamports: 0, mint: MintSlot::Absent, signer_tokens: None, receiver_tokens: None }
    }

    /// Records a confirmed credit of `amount` lamports to the signer wallet.
    /// Fails, changing nothing, where the balance would pass the largest `u64`.
    pub fn credit(&mut self, amount: u64) -> (r: bool)
        ensures
            r <==> old(self).lamports + amount <= u64::MAX,
            r ==> final(self).lamports == old(self).lamports + amount,
            !r ==> final(self).lamports == old(self).lamports,
            final(self).mint == old(self).mint,
            final(self).signer_tokens == old(self).signer_tokens,
            final(self).receiver_tokens == old(self).receiver_tokens,
    {
        match self.lamports.checked_add(amount) {
            Some(n) => {
                self.lamports = n;
                true
            },
            None => false,
        }
    }

    /// The ledger after one step, or `None` where the ledger rejects it.
    pub fn apply(&self, step: Step) -> (r: Option<Ledger>)
        ensures
            r == apply_step(*self, step),
    {
        match step {
            Step::CreateMintAccount { lamports, space } => {
                if self.mint == MintSlot::Absent && self.lamports >= lamports {
                    Some(Ledger { lamports: self.lamports - lamports, mint: MintSlot::Allocated { space }, ..*self })
                } else {
                    None
                }
            },
            Step::InitializeMint { decimals, authority } => {
                if self.mint == (MintSlot::Allocated { space: MINT_LEN }) {
                    Some(Ledger { mint: MintSlot::Initialized { decimals, authority, supply: 0 }, ..*self })
                } else {
                    None
                }
            },
            Step::CreateAssociatedAccount { owner } => {
                let initialized = match self.mint {
                    MintSlot::Initialized { .. } => true,
                    _ => false,
                };
                if !initialized {
                    return None;
                }
                match owner {
                    Holder::Signer => match self.signer_tokens {
                        None => Some(Ledger { signer_tokens: Some(0), ..*self }),
                        Some(_) => None,
                    },
                    Holder::Receiver => match self.receiver_tokens {
                        None => Some(Ledger { receiver_tokens: Some(0), ..*self }),
                        Some(_) => None,
                    },
                }
            },
            Step::MintTo { amount } => {
                match (self.mint, self.signer_tokens) {
                    (MintSlot::Initialized { decimals, authority, supply }, Some(b)) => {
                        if authority != Holder::Signer {
                            return None;
                        }
                        match (supply.checked_add(amount), b.checked_add(amount)) {
                            (Some(s), Some(n)) => Some(
                                Ledger {
                                    mint: MintSlot::Initialized { decimals, authority, supply: s },
                                    signer_tokens: Some(n),
                                    ..*self
                                },
                            ),
                            _ => None,
                        }
                    },
                    _ => None,
                }
            },
            Step::Transfer { amount } => {
                let initialized = match self.mint {
                    MintSlot::Initialized { .. } => true,
                    _ => false,
                };
                match (self.signer_tokens, self.receiver_tokens) {
                    (Some(b), Some(c)) => {
                        if !initialized || b < amount {
                            return None;
                        }
                        match c.checked_add(amount) {
                            Some(n) => Some(
                                Ledger {
                                    signer_tokens: Some(b - amount),
                                    receiver_tokens: Some(n),
                                    ..*self
                                },
                            ),
                            None => None,
                        }
                    },
                    _ => None,
                }
            },
        }
    }

    /// Submits a transaction's steps as one atomic unit: either every step is
    /// applied in order, or none is and the ledger stays as it was.
    pub fn submit(&mut self, steps: &Vec<Step>) -> (r: bool)
        ensures
            r <==> apply_steps(*old(self), steps@) is Some,
            r ==> *final(self) == apply_steps(*old(self), steps@)->Some_0,
            !r ==> *final(self) == *old(self),
    {
        let mut cur: Ledger = *self;
        let mut i: usize = 0;
        assert(steps@.skip(0) =~= steps@);
        while i < steps.len()
            invariant
                0 <= i <= steps@.len(),
                apply_steps(*old(self), steps@) == apply_steps(cur, steps@.skip(i as int)),
                *self == *old(self),
            decreases steps@.len() - i,
        {
            assert(steps@.skip(i as int).drop_first() =~= steps@.skip(i + 1));
            match cur.apply(steps[i]) {
                Some(n) => {
                    cur = n;
                },
                None => {
                    return false;
                },
            }
            i = i + 1;
        }
        assert(steps@.skip(i as int).len() == 0);
        *self = cur;
        true
    }

    /// Whether the balances that the ledger reports after the flow are the
    /// ones this model expects.
    pub fn matches_reported(&self, signer_balance: u64, receiver_balance: u64) -> (r: bool)
        ensures
            r <==> self.signer_tokens == Some(signer_balance) && self.receiver_tokens == Some(
                receiver_balance,
            ),
    {
        match (self.signer_tokens, self.receiver_tokens) {
            (Some(s), Some(t)) => s == signer_balance && t == receiver_balance,
            _ => false,
        }
    }
}

} // verus!
