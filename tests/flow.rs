use spl_flow::{
    airdrop_lamports, base_units, instruction_for, instructions_for, issuance_plan, issued_supply,
    mint_creation_plan, needs_mint_signature, receiver_account, transfer_plan, Accounts, Action,
    Address, BalanceQuery, ConfirmPoll, Event, Flow, FlowConfig, FlowError, Holder, Ledger,
    MintSlot, PollAction, PollLimit, QueryErrorPolicy, ReceiverAccount, Stage, Step, MINT_LEN,
};

const SUPPLY: u64 = 10_000_000_000_000;

fn addr(b: u8) -> Address {
    Address::new([b; 32])
}

fn accounts() -> Accounts {
    Accounts::derive(addr(1), addr(2), addr(3))
}

fn funded() -> Ledger {
    let mut l = Ledger::fresh();
    assert!(l.credit(10_000_000_000));
    l
}

fn with_mint(supply: u64) -> Ledger {
    Ledger {
        mint: MintSlot::Initialized { decimals: 9, authority: Holder::Signer, supply },
        ..funded()
    }
}

#[test]
fn airdrop_is_ten_native_tokens() {
    assert_eq!(airdrop_lamports(), 10_000_000_000);
}

#[test]
fn issued_supply_is_ten_thousand_tokens_at_nine_decimals() {
    assert_eq!(issued_supply(), SUPPLY);
    assert_eq!(base_units(10_000, 9), Some(SUPPLY));
}

#[test]
fn base_units_edges() {
    assert_eq!(base_units(7, 0), Some(7));
    assert_eq!(base_units(0, 255), Some(0));
    assert_eq!(base_units(1, 19), Some(10_000_000_000_000_000_000));
    assert_eq!(base_units(2, 19), None);
    assert_eq!(base_units(1, 20), None);
    assert_eq!(base_units(u64::MAX, 1), None);
}

#[test]
fn poll_without_limit_never_gives_up() {
    let mut p = ConfirmPoll::new(PollLimit::Unbounded);
    for _ in 0..1000 {
        assert_eq!(p.on_status(false), PollAction::QueryAgain);
    }
    assert_eq!(p.pending, 1000);
    assert_eq!(p.on_status(true), PollAction::Finish);
    assert!(p.done);
}

#[test]
fn poll_with_limit_gives_up_at_the_limit() {
    let mut p = ConfirmPoll::new(PollLimit::AtMost(3));
    assert_eq!(p.on_status(false), PollAction::QueryAgain);
    assert_eq!(p.on_status(false), PollAction::QueryAgain);
    assert_eq!(p.on_status(false), PollAction::GiveUp);
    assert!(p.done);
}

#[test]
fn poll_confirmed_first_time() {
    let mut p = ConfirmPoll::new(PollLimit::AtMost(1));
    assert_eq!(p.on_status(true), PollAction::Finish);
    assert_eq!(p.pending, 0);
}

#[test]
fn credit_adds_requested_amount() {
    let mut l = Ledger::fresh();
    assert!(l.credit(5));
    assert!(l.credit(airdrop_lamports()));
    assert_eq!(l.lamports, 10_000_000_005);
}

#[test]
fn credit_overflow_changes_nothing() {
    let mut l = Ledger { lamports: u64::MAX - 1, ..Ledger::fresh() };
    assert!(!l.credit(2));
    assert_eq!(l.lamports, u64::MAX - 1);
}

#[test]
fn receiver_account_reads_queries() {
    let keep = QueryErrorPolicy::TreatAsMissing;
    let stop = QueryErrorPolicy::Abort;
    assert_eq!(receiver_account(BalanceQuery::Found(4), stop), Some(ReceiverAccount::Exists));
    assert_eq!(receiver_account(BalanceQuery::NotFound, stop), Some(ReceiverAccount::Missing));
    assert_eq!(receiver_account(BalanceQuery::Failed, keep), Some(ReceiverAccount::Missing));
    assert_eq!(receiver_account(BalanceQuery::Failed, stop), None);
}

#[test]
fn mint_creation_sets_decimals_and_authority() {
    let mut l = funded();
    let plan = mint_creation_plan(1_461_600, 9);
    assert_eq!(
        plan,
        vec![
            Step::CreateMintAccount { lamports: 1_461_600, space: MINT_LEN },
            Step::InitializeMint { decimals: 9, authority: Holder::Signer },
        ]
    );
    assert!(l.submit(&plan));
    assert_eq!(l.mint, MintSlot::Initialized { decimals: 9, authority: Holder::Signer, supply: 0 });
    assert_eq!(l.lamports, 10_000_000_000 - 1_461_600);
}

#[test]
fn mint_account_space_is_mint_len() {
    assert_eq!(MINT_LEN, 82);
    match mint_creation_plan(1, 9)[0] {
        Step::CreateMintAccount { space, .. } => assert_eq!(space, 82),
        _ => panic!("first step is not the account creation"),
    }
}

#[test]
fn mint_creation_rejected_without_enough_lamports() {
    let mut l = Ledger::fresh();
    assert!(!l.submit(&mint_creation_plan(1, 9)));
    assert_eq!(l, Ledger::fresh());
}

#[test]
fn issuance_credits_exactly_the_minted_amount() {
    let mut l = with_mint(0);
    assert!(l.submit(&issuance_plan(SUPPLY)));
    assert_eq!(l.signer_tokens, Some(SUPPLY));
    assert_eq!(l.receiver_tokens, None);
    assert_eq!(l.mint, MintSlot::Initialized { decimals: 9, authority: Holder::Signer, supply: SUPPLY });
}

#[test]
fn issuance_twice_is_rejected_as_a_whole() {
    let mut l = with_mint(0);
    assert!(l.submit(&issuance_plan(5)));
    let before = l;
    assert!(!l.submit(&issuance_plan(5)));
    assert_eq!(l, before);
}

#[test]
fn mint_to_past_the_largest_supply_is_rejected() {
    let l = Ledger { signer_tokens: Some(0), ..with_mint(u64::MAX) };
    assert_eq!(l.apply(Step::MintTo { amount: 1 }), None);
}

#[test]
fn transfer_to_missing_receiver_creates_its_account() {
    let mut l = Ledger { signer_tokens: Some(SUPPLY), ..with_mint(SUPPLY) };
    assert!(l.submit(&transfer_plan(SUPPLY, ReceiverAccount::Missing)));
    assert_eq!(l.signer_tokens, Some(0));
    assert_eq!(l.receiver_tokens, Some(SUPPLY));
}

#[test]
fn transfer_to_existing_receiver_adds_to_its_balance() {
    let mut l = Ledger { signer_tokens: Some(100), receiver_tokens: Some(7), ..with_mint(107) };
    assert_eq!(transfer_plan(40, ReceiverAccount::Exists), vec![Step::Transfer { amount: 40 }]);
    assert!(l.submit(&transfer_plan(40, ReceiverAccount::Exists)));
    assert_eq!(l.signer_tokens, Some(60));
    assert_eq!(l.receiver_tokens, Some(47));
}

#[test]
fn both_transfer_branches_end_alike_from_an_empty_receiver() {
    let base = Ledger { signer_tokens: Some(100), ..with_mint(100) };
    let mut missing = base;
    assert!(missing.submit(&transfer_plan(100, ReceiverAccount::Missing)));
    let mut existing = Ledger { receiver_tokens: Some(0), ..base };
    assert!(existing.submit(&transfer_plan(100, ReceiverAccount::Exists)));
    assert_eq!(missing, existing);
}

#[test]
fn transfer_of_more_than_held_is_rejected() {
    let mut l = Ledger { signer_tokens: Some(10), receiver_tokens: Some(0), ..with_mint(10) };
    assert!(!l.submit(&transfer_plan(11, ReceiverAccount::Exists)));
    assert_eq!(l.signer_tokens, Some(10));
}

#[test]
fn transfer_to_missing_account_alone_is_rejected() {
    let l = Ledger { signer_tokens: Some(10), ..with_mint(10) };
    assert_eq!(l.apply(Step::Transfer { amount: 1 }), None);
}

#[test]
fn mint_signature_only_for_mint_creation() {
    assert!(needs_mint_signature(&mint_creation_plan(1, 9)));
    assert!(!needs_mint_signature(&issuance_plan(1)));
    assert!(!needs_mint_signature(&transfer_plan(1, ReceiverAccount::Missing)));
    assert!(!needs_mint_signature(&Vec::new()));
}

#[test]
fn associated_addresses_are_deterministic() {
    let a = accounts();
    let b = accounts();
    assert_eq!(a.signer_token_account.bytes, b.signer_token_account.bytes);
    assert_eq!(a.receiver_token_account.bytes, b.receiver_token_account.bytes);
}

#[test]
fn associated_addresses_are_derived_not_copied() {
    let a = accounts();
    assert_ne!(a.signer_token_account.bytes, a.signer.bytes);
    assert_ne!(a.signer_token_account.bytes, a.mint.bytes);
    assert_ne!(a.signer_token_account.bytes, a.receiver_token_account.bytes);
    let other_mint = Accounts::derive(addr(1), addr(2), addr(4));
    assert_ne!(a.signer_token_account.bytes, other_mint.signer_token_account.bytes);
}

#[test]
fn associated_address_matches_the_token_program_convention() {
    let a = accounts();
    let wallet = solana_sdk::pubkey::Pubkey::new_from_array(a.signer.bytes);
    let mint = solana_sdk::pubkey::Pubkey::new_from_array(a.mint.bytes);
    let (expected, _) = solana_sdk::pubkey::Pubkey::find_program_address(
        &[&wallet.to_bytes(), &spl_token::id().to_bytes(), &mint.to_bytes()],
        &spl_associated_token_account::id(),
    );
    assert_eq!(a.signer_token_account.bytes, expected.to_bytes());
}

#[test]
fn instructions_target_the_right_programs() {
    let a = accounts();
    let plan = mint_creation_plan(1_461_600, 9);
    let ixs = instructions_for(&plan, &a);
    assert_eq!(ixs.len(), 2);
    assert_eq!(ixs[0].program_id, solana_sdk::system_program::id());
    assert_eq!(ixs[1].program_id, spl_token::id());
    let ixs = instructions_for(&transfer_plan(5, ReceiverAccount::Missing), &a);
    assert_eq!(ixs.len(), 2);
    assert_eq!(ixs[0].program_id, spl_associated_token_account::id());
    assert_eq!(ixs[1].program_id, spl_token::id());
}

#[test]
fn transfer_instruction_moves_between_token_accounts() {
    let a = accounts();
    let ix = instruction_for(Step::Transfer { amount: 9 }, &a).unwrap();
    let source = solana_sdk::pubkey::Pubkey::new_from_array(a.signer_token_account.bytes);
    let dest = solana_sdk::pubkey::Pubkey::new_from_array(a.receiver_token_account.bytes);
    assert_eq!(ix.accounts[0].pubkey, source);
    assert_eq!(ix.accounts[1].pubkey, dest);
    let mut data = vec![3u8];
    data.extend_from_slice(&9u64.to_le_bytes());
    assert_eq!(ix.data, data);
}

#[test]
fn mint_to_instruction_encodes_amount() {
    let a = accounts();
    let ix = instruction_for(Step::MintTo { amount: SUPPLY }, &a).unwrap();
    let mut data = vec![7u8];
    data.extend_from_slice(&SUPPLY.to_le_bytes());
    assert_eq!(ix.data, data);
    let dest = solana_sdk::pubkey::Pubkey::new_from_array(a.signer_token_account.bytes);
    assert_eq!(ix.accounts[1].pubkey, dest);
}

fn run_to_receiver_check(flow: &mut Flow) {
    assert!(matches!(flow.on_event(Event::Begin), Action::RequestAirdrop { lamports: 10_000_000_000 }));
    assert!(matches!(flow.on_event(Event::FundsRequested), Action::QueryConfirmation));
    assert!(matches!(flow.on_event(Event::Confirmation(false)), Action::QueryConfirmation));
    assert!(matches!(flow.on_event(Event::Confirmation(true)), Action::QueryRent { space: 82 }));
    assert_eq!(flow.expected.lamports, 10_000_000_000);
    match flow.on_event(Event::Rent(1_461_600)) {
        Action::Submit { steps, mint_signs } => {
            assert!(mint_signs);
            assert_eq!(steps, mint_creation_plan(1_461_600, 9));
        }
        other => panic!("unexpected {:?}", other),
    }
    match flow.on_event(Event::Submitted) {
        Action::Submit { steps, mint_signs } => {
            assert!(!mint_signs);
            assert_eq!(steps, issuance_plan(SUPPLY));
        }
        other => panic!("unexpected {:?}", other),
    }
    assert!(matches!(flow.on_event(Event::Submitted), Action::QueryReceiverBalance));
    assert_eq!(flow.expected.signer_tokens, Some(SUPPLY));
    assert_eq!(
        flow.expected.mint,
        MintSlot::Initialized { decimals: 9, authority: Holder::Signer, supply: SUPPLY }
    );
}

#[test]
fn full_flow_to_new_receiver() {
    let mut flow = Flow::new(FlowConfig::standard());
    run_to_receiver_check(&mut flow);
    match flow.on_event(Event::ReceiverBalance(BalanceQuery::NotFound)) {
        Action::Submit { steps, .. } => assert_eq!(steps, transfer_plan(SUPPLY, ReceiverAccount::Missing)),
        other => panic!("unexpected {:?}", other),
    }
    assert!(matches!(flow.on_event(Event::Submitted), Action::QueryBalances));
    assert_eq!(flow.expected.signer_tokens, Some(0));
    assert_eq!(flow.expected.receiver_tokens, Some(SUPPLY));
    match flow.on_event(Event::Balances { signer: 0, receiver: SUPPLY }) {
        Action::Finish { signer_balance, receiver_balance, as_expected } => {
            assert_eq!(signer_balance, 0);
            assert_eq!(receiver_balance, SUPPLY);
            assert!(as_expected);
        }
        other => panic!("unexpected {:?}", other),
    }
    assert_eq!(flow.stage, Stage::Done);
}

#[test]
fn flow_to_existing_receiver_sends_transfer_alone() {
    let mut flow = Flow::new(FlowConfig::standard());
    run_to_receiver_check(&mut flow);
    match flow.on_event(Event::ReceiverBalance(BalanceQuery::Found(5))) {
        Action::Submit { steps, .. } => assert_eq!(steps, vec![Step::Transfer { amount: SUPPLY }]),
        other => panic!("unexpected {:?}", other),
    }
    assert!(matches!(flow.on_event(Event::Submitted), Action::QueryBalances));
    match flow.on_event(Event::Balances { signer: 0, receiver: SUPPLY }) {
        Action::Finish { as_expected, .. } => assert!(!as_expected),
        other => panic!("unexpected {:?}", other),
    }
}

#[test]
fn flow_treats_failed_receiver_query_as_missing_by_default() {
    let mut flow = Flow::new(FlowConfig::standard());
    run_to_receiver_check(&mut flow);
    match flow.on_event(Event::ReceiverBalance(BalanceQuery::Failed)) {
        Action::Submit { steps, .. } => assert_eq!(steps, transfer_plan(SUPPLY, ReceiverAccount::Missing)),
        other => panic!("unexpected {:?}", other),
    }
}

#[test]
fn flow_stops_on_failed_receiver_query_when_asked() {
    let config = FlowConfig { query_errors: QueryErrorPolicy::Abort, ..FlowConfig::standard() };
    let mut flow = Flow::new(config);
    run_to_receiver_check(&mut flow);
    assert!(matches!(
        flow.on_event(Event::ReceiverBalance(BalanceQuery::Failed)),
        Action::Stop(FlowError::ReceiverQueryFailed)
    ));
    assert_eq!(flow.stage, Stage::Failed);
}

#[test]
fn flow_gives_up_on_funding_after_limit() {
    let config = FlowConfig { poll_limit: PollLimit::AtMost(2), ..FlowConfig::standard() };
    let mut flow = Flow::new(config);
    flow.on_event(Event::Begin);
    flow.on_event(Event::FundsRequested);
    assert!(matches!(flow.on_event(Event::Confirmation(false)), Action::QueryConfirmation));
    assert!(matches!(flow.on_event(Event::Confirmation(false)), Action::Stop(FlowError::NotConfirmed)));
    assert_eq!(flow.stage, Stage::Failed);
}

#[test]
fn flow_rejects_rent_beyond_funding() {
    let mut flow = Flow::new(FlowConfig::standard());
    flow.on_event(Event::Begin);
    flow.on_event(Event::FundsRequested);
    flow.on_event(Event::Confirmation(true));
    assert!(matches!(flow.on_event(Event::Rent(20_000_000_000)), Action::Stop(FlowError::Rejected)));
}

#[test]
fn flow_refuses_events_out_of_order() {
    let mut flow = Flow::new(FlowConfig::standard());
    assert!(matches!(flow.on_event(Event::Submitted), Action::Stop(FlowError::OutOfOrder)));
    assert_eq!(flow.stage, Stage::Failed);
}
