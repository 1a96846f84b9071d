use vstd::prelude::*;
use vstd::arithmetic::power::{lemma_pow_increases, lemma_pow_positive, pow};
use crate::address::{associated_address_of, derive_associated_address, Address};
use crate::ledger::{Holder, Step, MINT_LEN};

verus! {

/// The decimal precision of the flow's mint.
pub const MINT_DECIMALS: u8 = 9;

/// Whole tokens issued by the flow.
pub const ISSUED_TOKENS: u64 = 10_000;

/// `whole` tokens in base units at `decimals` digits of precision:
/// `whole * 10^decimals`, or `None` where that passes the largest `u64`.
pub fn base_units(whole: u64, decimals: u8) -> (r: Option<u64>)
    ensures
        r is Some <==> whole * pow(10, decimals as nat) <= u64::MAX,
        r is Some ==> r->Some_0 == whole * pow(10, decimals as nat),
{
    if whole == 0 {
        proof {
            assert(0 * pow(10, decimals as nat) == 0);
        }
        return Some(0);
    }
    let mut scale: u64 = 1;
    let mut i: u8 = 0;
    proof {
        reveal(pow);
    }
    while i < decimals
        invariant
            0 <= i <= decimals,
            scale == pow(10, i as nat),
            whole >= 1,
        decreases decimals - i,
    {
        proof {
            reveal(pow);
            lemma_pow_positive(10, decimals as nat);
        }
        match scale.checked_mul(10) {
            Some(s) => {
                scale = s;
            },
            None => {
                proof {
                    lemma_pow_increases(10, (i + 1) as nat, decimals as nat);
                    assert(pow(10, (i + 1) as nat) == 10 * pow(10, i as nat));
                    assert(whole * pow(10, decimals as nat) >= pow(10, decimals as nat))
                        by (nonlinear_arith)
                        requires
                            whole >= 1,
                            pow(10, decimals as nat) >= 0,
                    ;
                }
                return None;
            },
        }
        i = i + 1;
    }
    whole.checked_mul(scale)
}

/// The supply the flow issues: ten thousand tokens at nine decimals.
pub fn issued_supply() -> (r: u64)
    ensures
        r == ISSUED_TOKENS * pow(10, MINT_DECIMALS as nat),
        r == 10_000_000_000_000,
{
    proof {
        reveal(pow);
        assert(pow(10, 0) == 1);
        assert(pow(10, 1) == 10);
        assert(pow(10, 2) == 100);
        assert(pow(10, 3) == 1_000);
        assert(pow(10, 4) == 10_000);
        assert(pow(10, 5) == 100_000);
        assert(pow(10, 6) == 1_000_000);
        assert(pow(10, 7) == 10_000_000);
        assert(pow(10, 8) == 100_000_000);
        assert(pow(10, 9) == 1_000_000_000);
    }
    10_000 * 1_000_000_000
}

/// Relies on spl_token's `Pack::LEN` for `Mint`: the data of a mint account
/// takes 82 bytes.
#[verifier::external_body]
pub(crate) fn mint_account_space() -> (r: u64)
    ensures
        r == MINT_LEN,
{
    <spl_token::state::Mint as spl_token::solana_program::program_pack::Pack>::LEN as u64
}

/// The steps of the mint creation transaction: allocate the mint account,
/// funded with `rent` lamports, then make it a mint of `decimals` digits
/// whose authority is the signer.
pub open spec fn mint_steps(rent: u64, decimals: u8) -> Seq<Step> {
    seq![
        Step::CreateMintAccount { lamports: rent, space: MINT_LEN },
        Step::InitializeMint { decimals, authority: Holder::Signer },
    ]
}

/// The steps of the issuance transaction: create the signer's associated
/// token account and mint `amount` base units into it.
pub open spec fn issuance_steps(amount: u64) -> Seq<Step> {
    seq![Step::CreateAssociatedAccount { owner: Holder::Signer }, Step::MintTo { amount }]
}

/// The steps of the transfer transaction: the receiver's associated account
/// is created in the same transaction where it is missing.
pub open spec fn transfer_steps(amount: u64, receiver: ReceiverAccount) -> Seq<Step> {
    match receiver {
        ReceiverAccount::Exists => seq![Step::Transfer { amount }],
        ReceiverAccount::Missing => seq![
            Step::CreateAssociatedAccount { owner: Holder::Receiver },
            Step::Transfer { amount },
        ],
    }
}

pub fn mint_creation_plan(rent: u64, decimals: u8) -> (r: Vec<Step>)
    ensures
        r@ == mint_steps(rent, decimals),
{
    let space = mint_account_space();
    let r = vec![
        Step::CreateMintAccount { lamports: rent, space },
        Step::InitializeMint { decimals, authority: Holder::Signer },
    ];
    assert(r@ =~= mint_steps(rent, decimals));
    r
}

pub fn issuance_plan(amount: u64) -> (r: Vec<Step>)
    ensures
        r@ == issuance_steps(amount),
{
    let r = vec![Step::CreateAssociatedAccount { owner: Holder::Signer }, Step::MintTo { amount }];
    assert(r@ =~= issuance_steps(amount));
    r
}

pub fn transfer_plan(amount: u64, receiver: ReceiverAccount) -> (r: Vec<Step>)
    ensures
        r@ == transfer_steps(amount, receiver),
{
    let r = match receiver {
        ReceiverAccount::Exists => vec![Step::Transfer { amount }],
        ReceiverAccount::Missing => vec![
            Step::CreateAssociatedAccount { owner: Holder::Receiver },
            Step::Transfer { amount },
        ],
    };
    assert(r@ =~= transfer_steps(amount, receiver));
    r
}

/// Whether a transaction of these steps needs the mint account's own
/// signature besides the signer's: it does when it creates that account.
pub fn needs_mint_signature(steps: &Vec<Step>) -> (r: bool)
    ensures
        r <==> exists|i: int| 0 <= i < steps@.len() && steps@[i] is CreateMintAccount,
{
    let mut i: usize = 0;
    while i < steps.len()
        invariant
            0 <= i <= steps@.len(),
            forall|j: int| 0 <= j < i ==> !(steps@[j] is CreateMintAccount),
        decreases steps@.len() - i,
    {
        match steps[i] {
            Step::CreateMintAccount { .. } => {
                return true;
            },
            _ => {},
        }
        i = i + 1;
    }
    false
}

/// What a balance query on the receiver's token account came back with.
#[derive(Clone, Copy, Debug, PartialEq, Eq, Structural)]
pub enum BalanceQuery {
    /// The account exists and holds this balance.
    Found(u64),
    /// The ledger says the account does not exist.
    NotFound,
    /// The query failed for another reason, or for one that was not told.
    Failed,
}

/// How a failed balance query is read.
#[derive(Clone, Copy, Debug, PartialEq, Eq, Structural)]
pub enum QueryErrorPolicy {
    /// A failed query counts as a missing account.
    TreatAsMissing,
    /// A failed query stops the flow.
    Abort,
}

/// Whether the receiver's token account has to be created with the transfer.
#[derive(Clone, Copy, Debug, PartialEq, Eq, Structural)]
pub enum ReceiverAccount {
    Exists,
    Missing,
}

/// The receiver's account as a balance query shows it under `policy`: a
/// balance means it exists, a not-found answer that it is missing, and a
/// failure means missing or stops the flow (`None`) as the policy says.
pub open spec fn receiver_account_of(query: BalanceQuery, policy: QueryErrorPolicy) -> Option<
    ReceiverAccount,
> {
    match query {
        BalanceQuery::Found(_) => Some(ReceiverAccount::Exists),
        BalanceQuery::NotFound => Some(ReceiverAccount::Missing),
        BalanceQuery::Failed => if policy == QueryErrorPolicy::TreatAsMissing {
            Some(ReceiverAccount::Missing)
        } else {
            None
        },
    }
}

/// Reads the receiver's balance query under `policy`; `None` where the flow
/// stops.
pub fn receiver_account(query: BalanceQuery, policy: QueryErrorPolicy) -> (r: Option<ReceiverAccount>)
    ensures
        r == receiver_account_of(query, policy),
{
    match query {
        BalanceQuery::Found(_) => Some(ReceiverAccount::Exists),
        BalanceQuery::NotFound => Some(ReceiverAccount::Missing),
        BalanceQuery::Failed => match policy {
            QueryErrorPolicy::TreatAsMissing => Some(ReceiverAccount::Missing),
            QueryErrorPolicy::Abort => None,
        },
    }
}

/// The addresses of the flow: the two wallets, the mint, and the wallets'
/// associated token accounts for the mint.
#[derive(Clone, Copy, Debug)]
pub struct Accounts {
    pub signer: Address,
    pub receiver: Address,
    pub mint: Address,
    pub signer_token_account: Address,
    pub receiver_token_account: Address,
}

impl Accounts {
    /// Whether both token accounts are the associated accounts of their
    /// wallets for the mint.
    pub open spec fn is_derived(self) -> bool {
        &&& self.signer_token_account@ == associated_address_of(self.signer@, self.mint@)
        &&& self.receiver_token_account@ == associated_address_of(self.receiver@, self.mint@)
    }

    pub fn derive(signer: Address, receiver: Address, mint: Address) -> (r: Accounts)
        ensures
            r.signer == signer,
            r.receiver == receiver,
            r.mint == mint,
            r.is_derived(),
    {
        let signer_token_account = derive_associated_address(&signer, &mint);
        let receiver_token_account = derive_associated_address(&receiver, &mint);
        Accounts { signer, receiver, mint, signer_token_account, receiver_token_account }
    }

    pub fn wallet(&self, h: Holder) -> (r: Address)
        ensures
            h == Holder::Signer ==> r == self.signer,
            h == Holder::Receiver ==> r == self.receiver,
    {
        match h {
            Holder::Signer => self.signer,
            Holder::Receiver => self.receiver,
        }
    }

    pub fn token_account(&self, h: Holder) -> (r: Address)
        ensures
            h == Holder::Signer ==> r == self.signer_token_account,
            h == Holder::Receiver ==> r == self.receiver_token_account,
    {
        match h {
            Holder::Signer => self.signer_token_account,
            Holder::Receiver => self.receiver_token_account,
        }
    }
}

} // verus!
