use vstd::prelude::*;
use solana_sdk::instruction::Instruction;
use solana_sdk::pubkey::Pubkey;
use crate::address::Address;
use crate::ledger::Step;
use crate::plan::Accounts;

verus! {

#[verifier::external_type_specification]
#[verifier::external_body]
pub struct ExInstruction(Instruction);

/// Relies on solana_sdk::system_instruction::create_account: a system program
/// instruction by which `payer` funds a new account `mint` with `lamports`
/// and `space` bytes, owned by the token program.
#[verifier::external_body]
fn create_mint_account_instruction(payer: &Address, mint: &Address, lamports: u64, space: u64) -> (r: Instruction) {
    solana_sdk::system_instruction::create_account(
        &Pubkey::new_from_array(payer.bytes),
        &Pubkey::new_from_array(mint.bytes),
        lamports,
        space,
        &spl_token::id(),
    )
}

/// Relies on spl_token::instruction::initialize_mint, given the token
/// program's own id: it fails only on another program id, so it succeeds here.
#[verifier::external_body]
fn initialize_mint_instruction(mint: &Address, authority: &Address, decimals: u8) -> (r: Option<Instruction>)
    ensures
        r is Some,
{
    spl_token::instruction::initialize_mint(
        &spl_token::id(),
        &Pubkey::new_from_array(mint.bytes),
        &Pubkey::new_from_array(authority.bytes),
        None,
        decimals,
    ).ok()
}

/// Relies on spl_associated_token_account::create_associated_token_account:
/// an instruction by which `payer` creates the associated token account of
/// `owner` for `mint`.
#[verifier::external_body]
#[allow(deprecated)]
fn create_associated_account_instruction(payer: &Address, owner: &Address, mint: &Address) -> (r: Instruction) {
    spl_associated_token_account::create_associated_token_account(
        &Pubkey::new_from_array(payer.bytes),
        &Pubkey::new_from_array(owner.bytes),
        &Pubkey::new_from_array(mint.bytes),
    )
}

/// Relies on spl_token::instruction::mint_to, given the token program's own
/// id: it fails only on another program id, so it succeeds here.
#[verifier::external_body]
fn mint_to_instruction(mint: &Address, account: &Address, authority: &Address, amount: u64) -> (r: Option<Instruction>)
    ensures
        r is Some,
{
    let authority_key = Pubkey::new_from_array(authority.bytes);
    spl_token::instruction::mint_to(
        &spl_token::id(),
        &Pubkey::new_from_array(mint.bytes),
        &Pubkey::new_from_array(account.bytes),
        &authority_key,
        &[&authority_key],
        amount,
    ).ok()
}

/// Relies on spl_token::instruction::transfer, given the token program's own
/// id: it fails only on another program id, so it succeeds here.
#[verifier::external_body]
fn transfer_instruction(source: &Address, destination: &Address, authority: &Address, amount: u64) -> (r: Option<Instruction>)
    ensures
        r is Some,
{
    let authority_key = Pubkey::new_from_array(authority.bytes);
    spl_token::instruction::transfer(
        &spl_token::id(),
        &Pubkey::new_from_array(source.bytes),
        &Pubkey::new_from_array(destination.bytes),
        &authority_key,
        &[&authority_key],
        amount,
    ).ok()
}

/// The token program instruction for one step over the flow's accounts. The
/// signer pays for every account created and signs as mint authority and as
/// owner of the sending account. Every step has one.
pub fn instruction_for(step: Step, accounts: &Accounts) -> (r: Option<Instruction>)
    ensures
        r is Some,
{
    match step {
        Step::CreateMintAccount { lamports, space } => Some(
            create_mint_account_instruction(&accounts.signer, &accounts.mint, lamports, space),
        ),
        Step::InitializeMint { decimals, authority } => {
            let authority = accounts.wallet(authority);
            initialize_mint_instruction(&accounts.mint, &authority, decimals)
        },
        Step::CreateAssociatedAccount { owner } => {
            let owner = accounts.wallet(owner);
            Some(create_associated_account_instruction(&accounts.signer, &owner, &accounts.mint))
        },
        Step::MintTo { amount } => mint_to_instruction(
            &accounts.mint,
            &accounts.signer_token_account,
            &accounts.signer,
            amount,
        ),
        Step::Transfer { amount } => transfer_instruction(
            &accounts.signer_token_account,
            &accounts.receiver_token_account,
            &accounts.signer,
            amount,
        ),
    }
}

/// The instructions of a transaction, one per step and in the steps' order.
pub fn instructions_for(steps: &Vec<Step>, accounts: &Accounts) -> (r: Vec<Instruction>)
    ensures
        r@.len() == steps@.len(),
{
    let mut r: Vec<Instruction> = Vec::new();
    let mut i: usize = 0;
    while i < steps.len()
        invariant
            0 <= i <= steps@.len(),
            r@.len() == i,
        decreases steps@.len() - i,
    {
        if let Some(ix) = instruction_for(steps[i], accounts) {
            r.push(ix);
        }
        i = i + 1;
    }
    r
}

} // verus!
