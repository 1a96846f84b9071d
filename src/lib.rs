//! Planning, modelling and checking of a token issuance flow: fund a wallet,
//! create a mint, issue a supply into the wallet's associated token account,
//! and transfer it to a second wallet.
//!
//! The library decides and predicts; the program around it talks to the
//! ledger node and hands the outcomes back.

mod address;
mod flow;
mod instructions;
mod laws;
mod ledger;
mod plan;
mod poll;

pub use address::{associated_address_of, Address};
pub use flow::{expected_event, Action, Event, Flow, FlowConfig, FlowError, Stage};
pub use instructions::{instruction_for, instructions_for};
pub use laws::{
    derivation_is_deterministic, held, issuance_credits_exact_amount,
    mint_creation_sets_precision_and_authority, transfer_moves_amount,
};
pub use ledger::{apply_step, apply_steps, Holder, Ledger, MintSlot, Step, MINT_LEN};
pub use plan::{
    base_units, issuance_plan, issuance_steps, issued_supply, mint_creation_plan, mint_steps,
    needs_mint_signature, receiver_account, receiver_account_of, transfer_plan, transfer_steps,
    Accounts, BalanceQuery, QueryErrorPolicy, ReceiverAccount, ISSUED_TOKENS, MINT_DECIMALS,
};
pub use poll::{airdrop_lamports, ConfirmPoll, PollAction, PollLimit, LAMPORTS_PER_SOL};
