use upshift_vault::key::Pubkey;
use upshift_vault::queue::batch::{groups, MAX_EXPEDITE_BATCH, MAX_FINALIZE_BATCH};
use upshift_vault::queue::errors::{BatchError, ConstraintViolation, ErrorCode};
use upshift_vault::queue::instructions::request_withdrawal::NewRequest;
use upshift_vault::queue::instructions::finalize_withdrawal::FinalizeEntry;
use upshift_vault::queue::instructions::update_request::NewRecipient;
use upshift_vault::queue::instructions::{
    admin_cancel_withdrawal, cancel_withdrawal, expedite_request, finalize_withdrawal,
    release_vault, request_withdrawal, sweep_escrow_shares, update_request,
};
use upshift_vault::queue::state::withdrawal_queue::ADMIN_CANCEL_DELAY_SECONDS;
use upshift_vault::queue::state::withdrawal_queue::WithdrawalQueue;
use upshift_vault::queue::state::withdrawal_request::WithdrawalRequest;
use upshift_vault::token::TokenAccountState;
use upshift_vault::vault::state::vault::VaultState;

fn pk(b: u8) -> Pubkey {
    Pubkey::new_from_array([b; 32])
}

const VAULT: u8 = 0x10;
const QUEUE: u8 = 0x20;
const ADMIN: u8 = 0x30;
const OWNER: u8 = 0x40;
const MINT: u8 = 0x50;
const ESCROW_ASSETS: u8 = 0x60;

fn queue() -> WithdrawalQueue {
    WithdrawalQueue {
        vault_state: pk(VAULT),
        deposit_mint: pk(MINT),
        escrow_assets: pk(ESCROW_ASSETS),
        cooldown_seconds: 600,
        fulfillment_window_seconds: 86_400,
        ..Default::default()
    }
}

fn attached_vault() -> VaultState {
    VaultState { admin: pk(ADMIN), withdrawal_queue_authority: pk(QUEUE), ..Default::default() }
}

fn recipient() -> TokenAccountState {
    TokenAccountState {
        mint: pk(MINT),
        owner: pk(OWNER),
        amount: 0,
        delegate: None,
        delegated_amount: 0,
    }
}

fn new_request(shares: u64) -> NewRequest {
    NewRequest {
        key: pk(0x70),
        owner: pk(OWNER),
        request_id: 1,
        shares,
        recipient_token_account: pk(0x71),
        finalizer: Pubkey::default(),
        bump: 3,
    }
}

fn open(q: &mut WithdrawalQueue, shares: u64, now: i64) -> WithdrawalRequest {
    let mut request = WithdrawalRequest::default();
    let event = request_withdrawal::handler(
        q,
        pk(QUEUE),
        &attached_vault(),
        pk(VAULT),
        &mut request,
        new_request(shares),
        &recipient(),
        now,
    )
    .expect("request");
    assert_eq!(event.shares, shares);
    request
}

#[test]
fn a_request_is_counted_in_and_scheduled() {
    let mut q = queue();
    let request = open(&mut q, 500, 1_000);
    assert_eq!((q.sequence, q.pending_requests, q.pending_shares), (1, 1, 500));
    assert_eq!(request.sequence, 1);
    assert_eq!((request.scheduled_eligible_at, request.eligible_at), (1_600, 1_600));
    assert_eq!(request.expires_at, 1_600 + 86_400);
    assert_eq!((request.owner, request.shares, request.queue), (pk(OWNER), 500, pk(QUEUE)));
}

#[test]
fn request_refusals() {
    let mut q = queue();
    let mut request = WithdrawalRequest::default();
    let detached = VaultState { withdrawal_queue_authority: Pubkey::default(), ..attached_vault() };
    let run = |q: &mut WithdrawalQueue, vault: &VaultState, vault_key: Pubkey, new: NewRequest, to: &TokenAccountState, request: &mut WithdrawalRequest| {
        request_withdrawal::handler(q, pk(QUEUE), vault, vault_key, request, new, to, 1_000).map(|_| ())
    };
    assert_eq!(run(&mut q, &attached_vault(), pk(0x11), new_request(5), &recipient(), &mut request), Err(ErrorCode::VaultMismatch));
    assert_eq!(run(&mut q, &detached, pk(VAULT), new_request(5), &recipient(), &mut request), Err(ErrorCode::QueueNotActiveOnVault));
    assert_eq!(run(&mut q, &attached_vault(), pk(VAULT), new_request(0), &recipient(), &mut request), Err(ErrorCode::ZeroShares));
    let escrow = TokenAccountState { owner: pk(QUEUE), ..recipient() };
    assert_eq!(run(&mut q, &attached_vault(), pk(VAULT), new_request(5), &escrow, &mut request), Err(ErrorCode::InvalidRecipient));
    let other_mint = TokenAccountState { mint: pk(0x51), ..recipient() };
    assert_eq!(run(&mut q, &attached_vault(), pk(VAULT), new_request(5), &other_mint, &mut request), Err(ErrorCode::InvalidRecipient));
    assert_eq!((q.sequence, q.pending_requests, q.pending_shares), (0, 0, 0), "refusals count nothing");
}

#[test]
fn cancelling_returns_the_shares_and_uncounts_the_request() {
    let mut q = queue();
    let request = open(&mut q, 500, 1_000);
    assert_eq!(cancel_withdrawal::handler(&mut q, &request, pk(0x41), 1), Err(ErrorCode::NotRequestOwner));
    assert_eq!(cancel_withdrawal::handler(&mut q, &request, pk(OWNER), 2), Err(ErrorCode::StaleRequestSequence));
    assert_eq!(cancel_withdrawal::handler(&mut q, &request, pk(OWNER), 1), Ok(500));
    assert_eq!((q.pending_requests, q.pending_shares, q.sequence), (0, 0, 1));
}

#[test]
fn finalization_waits_for_the_cooldown_and_closes_with_the_window() {
    let mut q = queue();
    let request = open(&mut q, 500, 1_000);
    let fin = |q: &mut WithdrawalQueue, who: Pubkey, now: i64| {
        finalize_withdrawal::handler(q, pk(QUEUE), pk(VAULT), &request, who, &recipient(), pk(0x90), 1, now)
    };
    assert_eq!(fin(&mut q, pk(0x99), 1_599), Err(ErrorCode::CooldownNotElapsed));
    assert_eq!(fin(&mut q, pk(0x99), 1_600 + 86_400), Err(ErrorCode::RequestExpired));
    assert_eq!(
        finalize_withdrawal::handler(&mut q, pk(QUEUE), pk(VAULT), &request, pk(0x99), &recipient(), pk(ESCROW_ASSETS), 1, 1_600),
        Err(ErrorCode::FeeAccountIsEscrow)
    );
    assert_eq!(q.pending_shares, 500);
    assert_eq!(fin(&mut q, pk(0x99), 1_600), Ok(500), "anyone may finalize an unrestricted request");
    assert_eq!((q.pending_requests, q.pending_shares), (0, 0));
}

#[test]
fn a_named_finalizer_excludes_strangers_but_never_the_owner() {
    let mut q = queue();
    let mut request = open(&mut q, 500, 1_000);
    request.finalizer = pk(0x33);
    let fin = |q: &mut WithdrawalQueue, who: Pubkey| {
        finalize_withdrawal::handler(q, pk(QUEUE), pk(VAULT), &request, who, &recipient(), pk(0x90), 1, 2_000)
    };
    assert_eq!(fin(&mut q, pk(0x99)), Err(ErrorCode::FinalizerNotAllowed));
    assert_eq!(fin(&mut q, pk(OWNER)), Ok(500));
}

#[test]
fn the_payout_is_the_escrow_balance_delta() {
    assert_eq!(finalize_withdrawal::payout(1_000, 1_750, 0), Ok(750));
    assert_eq!(finalize_withdrawal::payout(1_000, 1_000, 0), Ok(0));
    assert_eq!(finalize_withdrawal::payout(1_000, 999, 0), Err(ErrorCode::MathError));
    assert_eq!(finalize_withdrawal::payout(1_000, 1_750, 750), Ok(750), "the floor itself is met");
    assert_eq!(finalize_withdrawal::payout(1_000, 1_750, 751), Err(ErrorCode::PayoutBelowFloor));
}

#[test]
fn expediting_only_moves_eligibility_earlier() {
    let mut q = queue();
    let mut request = open(&mut q, 500, 1_000);
    assert_eq!(expedite_request::expedite_one(&mut request, 1_200, 2), Err(ErrorCode::StaleRequestSequence));
    assert_eq!(expedite_request::expedite_one(&mut request, 1_200, 1), Ok(1_600));
    assert_eq!((request.eligible_at, request.scheduled_eligible_at), (1_200, 1_600));
    assert_eq!(expedite_request::expedite_one(&mut request, 1_300, 1), Err(ErrorCode::RequestAlreadyEligible));
    let mut lapsed = WithdrawalRequest { sequence: 1, eligible_at: 5_000, expires_at: 4_000, ..Default::default() };
    assert_eq!(expedite_request::expedite_one(&mut lapsed, 4_000, 1), Err(ErrorCode::RequestExpired));
}

#[test]
fn batches_must_be_sorted_and_sized() {
    let keys = vec![pk(1), pk(9), pk(2), pk(9), pk(3), pk(9)];
    assert_eq!(groups(&keys, &vec![1, 2, 3], 2, MAX_EXPEDITE_BATCH), Ok(vec![pk(1), pk(2), pk(3)]));
    assert_eq!(groups(&keys, &vec![], 2, MAX_EXPEDITE_BATCH), Err(ErrorCode::EmptyBatch));
    assert_eq!(groups(&keys, &vec![1, 2], 2, MAX_EXPEDITE_BATCH), Err(ErrorCode::BatchLengthMismatch));
    assert_eq!(groups(&keys, &vec![1, 2, 3], 2, 2), Err(ErrorCode::BatchTooLarge));
    let unsorted = vec![pk(2), pk(9), pk(1), pk(9)];
    assert_eq!(groups(&unsorted, &vec![1, 2], 2, MAX_EXPEDITE_BATCH), Err(ErrorCode::RequestsNotSorted));
    let repeated = vec![pk(2), pk(2)];
    assert_eq!(groups(&repeated, &vec![1, 2], 1, MAX_EXPEDITE_BATCH), Err(ErrorCode::RequestsNotSorted));
}

#[test]
fn sweeping_takes_only_what_no_request_accounts_for() {
    let q = WithdrawalQueue { pending_shares: 700, ..queue() };
    let admin_ata = TokenAccountState { owner: pk(ADMIN), ..recipient() };
    let sweep = |balance: u64, to: &TokenAccountState, who: Pubkey| {
        sweep_escrow_shares::handler(&q, pk(QUEUE), &attached_vault(), pk(VAULT), who, balance, to)
    };
    assert_eq!(sweep(1_000, &admin_ata, pk(ADMIN)), Ok(300));
    assert_eq!(sweep(700, &admin_ata, pk(ADMIN)), Err(ErrorCode::NothingToSweep));
    assert_eq!(sweep(699, &admin_ata, pk(ADMIN)), Err(ErrorCode::MathError));
    assert_eq!(sweep(1_000, &admin_ata, pk(0x31)), Err(ErrorCode::NotVaultAdmin));
    let to_vault = TokenAccountState { owner: pk(VAULT), ..recipient() };
    assert_eq!(sweep(1_000, &to_vault, pk(ADMIN)), Err(ErrorCode::InvalidSweepDestination));
}

#[test]
fn release_records_the_time() {
    let mut q = queue();
    let event = release_vault::handler(&mut q, pk(QUEUE), &attached_vault(), pk(VAULT), pk(ADMIN), 77_777)
        .expect("release");
    assert_eq!(q.released_at, 77_777);
    assert_eq!(event.queue, pk(QUEUE));
    assert_eq!(
        release_vault::handler(&mut q, pk(QUEUE), &attached_vault(), pk(VAULT), pk(0x31), 80_000).map(|_| ()),
        Err(ErrorCode::NotVaultAdmin)
    );
    assert_eq!(q.released_at, 77_777);
}

#[test]
fn the_owner_updates_floor_finalizer_and_recipient() {
    let mut q = queue();
    let mut request = open(&mut q, 500, 1_000);
    let run = |request: &mut WithdrawalRequest, owner: u8, min: Option<u64>, fin: Option<Pubkey>, to: Option<NewRecipient>| {
        update_request::handler(&q, pk(QUEUE), request, pk(0x70), pk(owner), 1, 1_100, min, fin, to).map(|_| ())
    };
    assert_eq!(run(&mut request, 0x41, Some(1), None, None), Err(ErrorCode::NotRequestOwner));
    assert_eq!(run(&mut request, OWNER, None, None, None), Err(ErrorCode::NothingToUpdate));
    let bad = NewRecipient { key: pk(0x72), account: TokenAccountState { owner: pk(VAULT), ..recipient() } };
    assert_eq!(run(&mut request, OWNER, None, None, Some(bad)), Err(ErrorCode::InvalidRecipient));
    let good = NewRecipient { key: pk(0x73), account: recipient() };
    assert_eq!(run(&mut request, OWNER, Some(450), Some(pk(0x33)), Some(good)), Ok(()));
    assert_eq!((request.min_assets_out, request.finalizer, request.recipient_token_account), (450, pk(0x33), pk(0x73)));
    assert_eq!(request.shares, 500, "the escrowed shares never change");
}

#[test]
fn the_admin_cancels_only_after_a_full_delay_since_release() {
    let mut q = queue();
    let request = open(&mut q, 500, 1_000);
    let detached = VaultState { withdrawal_queue_authority: Pubkey::default(), ..attached_vault() };
    let cancel = |q: &mut WithdrawalQueue, vault: &VaultState, now: i64| {
        admin_cancel_withdrawal::handler(q, pk(QUEUE), vault, pk(VAULT), pk(ADMIN), &request, 1, now)
    };
    assert_eq!(cancel(&mut q, &attached_vault(), 10_000), Err(ErrorCode::QueueStillAttached));
    assert_eq!(cancel(&mut q, &detached, 10_000), Err(ErrorCode::AdminCancelTooEarly), "never released");
    q.released_at = 5_000;
    assert_eq!(cancel(&mut q, &detached, 5_000 + ADMIN_CANCEL_DELAY_SECONDS - 1), Err(ErrorCode::AdminCancelTooEarly));
    assert_eq!(
        admin_cancel_withdrawal::handler(&mut q, pk(QUEUE), &detached, pk(VAULT), pk(0x31), &request, 1, 99_999),
        Err(ErrorCode::NotVaultAdmin)
    );
    assert_eq!(cancel(&mut q, &detached, 5_000 + ADMIN_CANCEL_DELAY_SECONDS), Ok(500));
    assert_eq!((q.pending_requests, q.pending_shares), (0, 0));
}

fn entry(request: WithdrawalRequest) -> FinalizeEntry {
    FinalizeEntry {
        is_writable: true,
        request,
        owner: request.owner,
        recipient_key: request.recipient_token_account,
        recipient: recipient(),
    }
}

#[test]
fn a_finalize_batch_counts_out_every_request_or_none() {
    let mut q = queue();
    let first = open(&mut q, 500, 1_000);
    let second = open(&mut q, 300, 1_000);
    assert_eq!((q.pending_requests, q.pending_shares), (2, 800));
    let keys = vec![pk(0x81), pk(OWNER), pk(0x71), pk(0x82), pk(OWNER), pk(0x71)];
    let batch = |q: &mut WithdrawalQueue, keys: &Vec<Pubkey>, entries: &Vec<FinalizeEntry>, seqs: &Vec<u64>, now: i64| {
        finalize_withdrawal::handler_batch(q, pk(QUEUE), pk(VAULT), pk(0x99), pk(0x90), keys, entries, seqs, now)
    };

    // One request not yet due refuses the whole batch, and nothing is counted out.
    let late = WithdrawalRequest { eligible_at: 5_000, ..second };
    assert_eq!(
        batch(&mut q, &keys, &vec![entry(first), entry(late)], &vec![1, 2], 1_600),
        Err(BatchError::Queue(ErrorCode::CooldownNotElapsed))
    );
    assert_eq!((q.pending_requests, q.pending_shares), (2, 800));

    let read_only = FinalizeEntry { is_writable: false, ..entry(second) };
    assert_eq!(
        batch(&mut q, &keys, &vec![entry(first), read_only], &vec![1, 2], 1_600),
        Err(BatchError::Constraint(ConstraintViolation::ConstraintMut))
    );
    let wrong_owner = FinalizeEntry { owner: pk(0x42), ..entry(second) };
    assert_eq!(
        batch(&mut q, &keys, &vec![entry(first), wrong_owner], &vec![1, 2], 1_600),
        Err(BatchError::Constraint(ConstraintViolation::ConstraintHasOne))
    );
    let unsorted = vec![pk(0x82), pk(OWNER), pk(0x71), pk(0x81), pk(OWNER), pk(0x71)];
    assert_eq!(
        batch(&mut q, &unsorted, &vec![entry(first), entry(second)], &vec![1, 2], 1_600),
        Err(BatchError::Queue(ErrorCode::RequestsNotSorted))
    );
    assert_eq!(
        batch(&mut q, &keys[..3].to_vec(), &vec![entry(first), entry(second)], &vec![1, 2], 1_600),
        Err(BatchError::Queue(ErrorCode::BatchLengthMismatch))
    );
    let six: Vec<u64> = (1..=(MAX_FINALIZE_BATCH as u64 + 1)).collect();
    let six_entries: Vec<FinalizeEntry> = six.iter().map(|_| entry(first)).collect();
    assert_eq!(
        batch(&mut q, &keys, &six_entries, &six, 1_600),
        Err(BatchError::Queue(ErrorCode::BatchTooLarge))
    );
    assert_eq!((q.pending_requests, q.pending_shares), (2, 800));

    assert_eq!(batch(&mut q, &keys, &vec![entry(first), entry(second)], &vec![1, 2], 1_600), Ok(vec![500, 300]));
    assert_eq!((q.pending_requests, q.pending_shares, q.sequence), (0, 0, 2));
}
