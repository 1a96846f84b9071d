use vstd::prelude::*;
use crate::ledger::{apply_step, apply_steps, Holder, Ledger, MintSlot, Step};
use crate::plan::{issuance_steps, mint_steps, transfer_steps, Accounts, ReceiverAccount};

verus! {

/// What a token account that may not exist holds: nothing where it is missing.
pub open spec fn held(account: Option<u64>) -> nat {
    match account {
        Some(b) => b as nat,
        None => 0,
    }
}

proof fn apply_two(l: Ledger, a: Step, b: Step)
    ensures
        apply_steps(l, seq![a, b]) == match apply_step(l, a) {
            Some(n) => apply_step(n, b),
            None => None,
        },
{
    let s = seq![a, b];
    assert(s.drop_first() =~= seq![b]);
    assert(seq![b].drop_first() =~= Seq::<Step>::empty());
    reveal_with_fuel(apply_steps, 3);
}

proof fn apply_one(l: Ledger, a: Step)
    ensures
        apply_steps(l, seq![a]) == apply_step(l, a),
{
    assert(seq![a].drop_first() =~= Seq::<Step>::empty());
    reveal_with_fuel(apply_steps, 2);
}

/// The associated account addresses are a function of the wallets and the
/// mint: two derivations from the same wallets and mint give the same token
/// account addresses.
pub proof fn derivation_is_deterministic(a: Accounts, b: Accounts)
    requires
        a.is_derived(),
        b.is_derived(),
        a.signer@ == b.signer@,
        a.receiver@ == b.receiver@,
        a.mint@ == b.mint@,
    ensures
        a.signer_token_account@ == b.signer_token_account@,
        a.receiver_token_account@ == b.receiver_token_account@,
{
}

/// After the mint creation transaction the mint holds exactly the precision
/// and the authority that were submitted, with no supply yet.
pub proof fn mint_creation_sets_precision_and_authority(l: Ledger, rent: u64, decimals: u8)
    requires
        l.mint == MintSlot::Absent,
        l.lamports >= rent,
    ensures
        apply_steps(l, mint_steps(rent, decimals)) == Some(
            Ledger {
                lamports: (l.lamports - rent) as u64,
                mint: MintSlot::Initialized { decimals, authority: Holder::Signer, supply: 0 },
                ..l
            },
        ),
{
    apply_two(
        l,
        mint_steps(rent, decimals)[0],
        mint_steps(rent, decimals)[1],
    );
    assert(mint_steps(rent, decimals) =~= seq![
        mint_steps(rent, decimals)[0],
        mint_steps(rent, decimals)[1],
    ]);
}

/// After issuance into a fresh associated account, that account holds the
/// minted amount exactly, and the supply grew by it.
pub proof fn issuance_credits_exact_amount(l: Ledger, amount: u64)
    requires
        l.mint is Initialized,
        l.mint->authority == Holder::Signer,
        l.mint->supply + amount <= u64::MAX,
        l.signer_tokens is None,
    ensures
        apply_steps(l, issuance_steps(amount)) == Some(
            Ledger {
                mint: MintSlot::Initialized {
                    decimals: l.mint->decimals,
                    authority: Holder::Signer,
                    supply: (l.mint->supply + amount) as u64,
                },
                signer_tokens: Some(amount),
                ..l
            },
        ),
{
    apply_two(l, issuance_steps(amount)[0], issuance_steps(amount)[1]);
    assert(issuance_steps(amount) =~= seq![issuance_steps(amount)[0], issuance_steps(amount)[1]]);
}

/// A transfer takes the amount from the sender and gives it to the receiver,
/// whether the receiver's account existed before or was created with the
/// transfer: both branches end in the same balances.
pub proof fn transfer_moves_amount(l: Ledger, amount: u64, receiver: ReceiverAccount)
    requires
        l.mint is Initialized,
        l.signer_tokens is Some,
        l.signer_tokens->Some_0 >= amount,
        receiver == ReceiverAccount::Exists <==> l.receiver_tokens is Some,
        held(l.receiver_tokens) + amount <= u64::MAX,
    ensures
        apply_steps(l, transfer_steps(amount, receiver)) == Some(
            Ledger {
                signer_tokens: Some((l.signer_tokens->Some_0 - amount) as u64),
                receiver_tokens: Some((held(l.receiver_tokens) + amount) as u64),
                ..l
            },
        ),
{
    match receiver {
        ReceiverAccount::Exists => {
            apply_one(l, Step::Transfer { amount });
        },
        ReceiverAccount::Missing => {
            apply_two(
                l,
                Step::CreateAssociatedAccount { owner: Holder::Receiver },
                Step::Transfer { amount },
            );
        },
    }
}

} // verus!
