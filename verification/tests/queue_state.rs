use upshift_vault::key::Pubkey;
use upshift_vault::queue::auth::require_vault_admin;
use upshift_vault::queue::errors::{abi_pins, ErrorCode, ANCHOR_USER_ERROR_OFFSET};
use upshift_vault::queue::state::withdrawal_queue::{
    WithdrawalQueue, ADMIN_CANCEL_DELAY_SECONDS, MAX_COOLDOWN_SECONDS,
    MAX_FULFILLMENT_WINDOW_SECONDS, MIN_FULFILLMENT_WINDOW_SECONDS,
};
use upshift_vault::queue::state::withdrawal_request::WithdrawalRequest;
use upshift_vault::vault::state::vault::{
    withdrawal_queue_pda, withdrawal_queue_program_id, withdrawal_queue_seed, VaultState,
};

fn pk(b: u8) -> Pubkey {
    Pubkey::new_from_array([b; 32])
}

fn code_of(err: ErrorCode) -> u32 {
    err.code()
}

fn expected(code: ErrorCode) -> u32 {
    code as u32 + ANCHOR_USER_ERROR_OFFSET
}

fn runtime_key(k: &Pubkey) -> anchor_lang::prelude::Pubkey {
    anchor_lang::prelude::Pubkey::new_from_array(k.to_bytes())
}

// ---- queue helpers ----

#[test]
fn signer_seeds_reproduce_the_canonical_queue_pda() {
    let vault_state = pk(0x5a);
    let program = runtime_key(&withdrawal_queue_program_id());
    let seed = withdrawal_queue_seed();
    let (expected, bump) = anchor_lang::prelude::Pubkey::find_program_address(
        &[&seed, &vault_state.to_bytes()],
        &program,
    );
    let queue = WithdrawalQueue { vault_state, bump, ..Default::default() };
    let (seed_vault, seed_bump) = queue.signer_seeds();
    let derived = anchor_lang::prelude::Pubkey::create_program_address(
        &[&seed, &seed_vault.to_bytes(), &[seed_bump]],
        &program,
    )
    .expect("stored bump must be valid");
    assert_eq!(derived, expected);
    // The vault derives the same address for its queue.
    assert_eq!(withdrawal_queue_pda(&vault_state).map(|k| runtime_key(&k)), Some(expected));
}

#[test]
fn init_starts_with_empty_counters() {
    let mut queue = WithdrawalQueue {
        // Dirty every field init must reset, to prove it does.
        fulfillment_window_seconds: 5,
        sequence: 5,
        pending_requests: 5,
        pending_shares: 5,
        released_at: 5,
        padding: [7; 19],
        ..Default::default()
    };
    queue.init(pk(1), pk(2), pk(3), pk(4), pk(5), 0x42, 3_600).expect("init");

    assert_eq!(queue.vault_state, pk(1));
    assert_eq!(queue.deposit_mint, pk(2));
    assert_eq!(queue.share_mint, pk(3));
    assert_eq!(queue.escrow_shares, pk(4));
    assert_eq!(queue.escrow_assets, pk(5));
    assert_eq!(queue.bump, 0x42);
    assert_eq!(queue.cooldown_seconds, 3_600);
    assert_eq!(queue.fulfillment_window_seconds, 0);
    assert_eq!(queue.sequence, 0);
    assert_eq!(queue.pending_requests, 0);
    assert_eq!(queue.pending_shares, 0);
    assert_eq!(queue.released_at, 0);
    assert_eq!(queue.padding, [0; 19]);

    let err = WithdrawalQueue::default()
        .init(pk(1), pk(2), pk(3), pk(4), pk(5), 0, MAX_COOLDOWN_SECONDS + 1)
        .expect_err("init validates the cooldown");
    assert_eq!(code_of(err), expected(ErrorCode::CooldownOutOfBounds));
}

#[test]
fn cooldown_and_window_are_bounded_inclusively() {
    let mut queue = WithdrawalQueue::default();
    queue.set_cooldown(0).expect("zero cooldown is instant eligibility");
    queue.set_cooldown(MAX_COOLDOWN_SECONDS).expect("the maximum itself is allowed");
    assert_eq!(queue.cooldown_seconds, MAX_COOLDOWN_SECONDS);
    let err = queue.set_cooldown(MAX_COOLDOWN_SECONDS + 1).expect_err("one over is refused");
    assert_eq!(code_of(err), expected(ErrorCode::CooldownOutOfBounds));
    assert_eq!(queue.cooldown_seconds, MAX_COOLDOWN_SECONDS, "a refused value leaves the old one");

    queue.set_fulfillment_window(0).expect("zero disables expiry");
    queue
        .set_fulfillment_window(MAX_FULFILLMENT_WINDOW_SECONDS)
        .expect("the maximum itself is allowed");
    let err = queue
        .set_fulfillment_window(MAX_FULFILLMENT_WINDOW_SECONDS + 1)
        .expect_err("one over is refused");
    assert_eq!(code_of(err), expected(ErrorCode::FulfillmentWindowOutOfBounds));
    assert_eq!(queue.fulfillment_window_seconds, MAX_FULFILLMENT_WINDOW_SECONDS);

    queue
        .set_fulfillment_window(MIN_FULFILLMENT_WINDOW_SECONDS)
        .expect("the minimum itself is allowed");
    for seconds in [1, 7, MIN_FULFILLMENT_WINDOW_SECONDS - 1] {
        let err = queue
            .set_fulfillment_window(seconds)
            .expect_err("a non-zero window under a day is refused");
        assert_eq!(code_of(err), expected(ErrorCode::FulfillmentWindowOutOfBounds));
    }
    assert_eq!(queue.fulfillment_window_seconds, MIN_FULFILLMENT_WINDOW_SECONDS);
}

#[test]
fn admin_cancel_opens_a_full_delay_after_the_latest_release() {
    let mut queue = WithdrawalQueue::default();
    assert!(
        !queue.admin_cancel_delay_elapsed(i64::MAX).expect("never"),
        "a queue never released has not waited"
    );

    queue.released_at = 1_000;
    let opens_at = 1_000 + ADMIN_CANCEL_DELAY_SECONDS;
    assert!(!queue.admin_cancel_delay_elapsed(opens_at - 1).expect("early"));
    assert!(queue.admin_cancel_delay_elapsed(opens_at).expect("on time"));

    queue.released_at = i64::MAX;
    let err = queue
        .admin_cancel_delay_elapsed(i64::MAX)
        .expect_err("overflow is refused, not wrapped");
    assert_eq!(code_of(err), expected(ErrorCode::MathError));
}

#[test]
fn counters_move_together_and_refuse_to_wrap() {
    let mut queue = WithdrawalQueue::default();
    assert_eq!(queue.open_request(100).expect("first"), 1, "stamps start at 1");
    assert_eq!(queue.open_request(50).expect("second"), 2);
    assert_eq!(queue.pending_requests, 2);
    assert_eq!(queue.pending_shares, 150);

    queue.close_request(100).expect("close the first");
    assert_eq!(queue.pending_requests, 1);
    assert_eq!(queue.pending_shares, 50);
    assert_eq!(queue.sequence, 2, "closing never rewinds the stamp");

    // Closing more shares than are pending is a request that was never counted.
    // The refusal leaves both counters as they were, so the real close still works.
    let err = queue.close_request(51).expect_err("underflow");
    assert_eq!(code_of(err), expected(ErrorCode::MathError));
    assert_eq!((queue.pending_requests, queue.pending_shares), (1, 50));
    queue.close_request(50).expect("close the second");
    let err = queue.close_request(0).expect_err("nothing left to close");
    assert_eq!(code_of(err), expected(ErrorCode::MathError));

    let mut full = WithdrawalQueue { pending_shares: u64::MAX, ..Default::default() };
    let err = full.open_request(1).expect_err("overflow");
    assert_eq!(code_of(err), expected(ErrorCode::MathError));
}

#[test]
fn open_then_close_leaves_the_counters_as_they_were() {
    let mut queue = WithdrawalQueue {
        sequence: 7,
        pending_requests: 3,
        pending_shares: 900,
        ..Default::default()
    };
    let stamp = queue.open_request(250).expect("open");
    assert_eq!(stamp, 8);
    queue.close_request(250).expect("close");
    assert_eq!((queue.pending_requests, queue.pending_shares), (3, 900));
    assert_eq!(queue.sequence, 8, "the stamp is spent");
}

// ---- request helpers ----

#[test]
fn open_writes_every_field_and_the_schedule() {
    let mut request = WithdrawalRequest { padding: [7; 8], ..Default::default() };
    request.open(pk(1), pk(2), pk(3), pk(4), 500, 9, 3, 0x55, 1_000, 600, 60).expect("open");
    assert_eq!((request.queue, request.owner), (pk(1), pk(2)));
    assert_eq!((request.recipient_token_account, request.finalizer), (pk(3), pk(4)));
    assert_eq!(request.shares, 500);
    assert_eq!((request.request_id, request.sequence, request.bump), (9, 3, 0x55));
    assert_eq!((request.requested_at, request.scheduled_eligible_at), (1_000, 1_600));
    assert_eq!((request.eligible_at, request.expires_at), (1_600, 1_660));
    assert_eq!(request.padding, [0; 8]);
}

#[test]
fn schedule_derives_every_timestamp_from_now() {
    let mut request = WithdrawalRequest::default();
    request.schedule(1_000, 600, 0).expect("no window");
    assert_eq!(request.requested_at, 1_000);
    assert_eq!(request.scheduled_eligible_at, 1_600);
    assert_eq!(request.eligible_at, 1_600, "eligible_at starts at the schedule");
    assert_eq!(
        request.expires_at, 0,
        "a disabled window stores the sentinel, not scheduled + 0"
    );

    request.schedule(1_000, 600, 1).expect("one-second window");
    assert_eq!(request.expires_at, 1_601);

    let err = WithdrawalRequest::default().schedule(i64::MAX, 1, 0).expect_err("overflow");
    assert_eq!(code_of(err), expected(ErrorCode::MathError));
}

#[test]
fn a_refused_schedule_leaves_the_request_unchanged() {
    let mut request = WithdrawalRequest {
        requested_at: 5,
        scheduled_eligible_at: 6,
        eligible_at: 6,
        expires_at: 9,
        ..Default::default()
    };
    let err = request.schedule(i64::MAX - 10, 5, 10).expect_err("window overflows");
    assert_eq!(code_of(err), expected(ErrorCode::MathError));
    assert_eq!(
        (request.requested_at, request.scheduled_eligible_at, request.eligible_at, request.expires_at),
        (5, 6, 6, 9)
    );
    let err = request.schedule(0, u64::MAX, 0).expect_err("cooldown leaves i64");
    assert_eq!(code_of(err), expected(ErrorCode::MathError));
}

/// A freshly created account is zero-filled, and zero reads as eligible now and
/// never expiring. This pins why `schedule` must always run.
#[test]
fn a_zero_filled_request_is_the_most_permissive_state() {
    let request = WithdrawalRequest::default();
    assert!(request.is_eligible(0));
    assert!(!request.is_expired(i64::MAX));
}

#[test]
fn eligibility_and_expiry_boundaries() {
    let request = WithdrawalRequest {
        scheduled_eligible_at: 1_500,
        eligible_at: 1_000,
        expires_at: 2_000,
        ..Default::default()
    };
    assert!(!request.is_eligible(999));
    assert!(request.is_eligible(1_000), "eligible at the instant");
    assert!(request.is_eligible(1_001));

    assert!(!request.is_expired(1_999));
    assert!(request.is_expired(2_000), "now == expires_at is expired");
    assert!(request.is_expired(2_001));

    assert!(!request.is_mature(1_499));
    assert!(request.is_mature(1_500));

    let never = WithdrawalRequest { expires_at: 0, ..Default::default() };
    assert!(!never.is_expired(i64::MAX), "a zero deadline never expires");
}

#[test]
fn a_zero_finalizer_reads_as_no_restriction() {
    assert_eq!(WithdrawalRequest::default().allowed_finalizer(), None);
    assert_eq!(
        WithdrawalRequest { finalizer: pk(8), ..Default::default() }.allowed_finalizer(),
        Some(pk(8))
    );
}

/// The two rows of the finalization-permission table, each checked for the
/// owner, the named key `F` and a stranger. The restriction narrows who may
/// finalize; it never removes the owner.
#[test]
fn may_finalize_follows_the_permission_table() {
    let owner = pk(1);
    let f = pk(2);
    let stranger = pk(3);

    // (request.finalizer, [F allowed, stranger allowed])
    let rows = [
        (Pubkey::default(), [true, true]), // anyone
        (f, [true, false]),                // only F, and the owner
    ];
    for (i, (finalizer, [f_ok, stranger_ok])) in rows.into_iter().enumerate() {
        let request = WithdrawalRequest { owner, finalizer, ..Default::default() };
        let row = i + 1;
        assert!(request.may_finalize(&owner), "row {row}: the owner always may");
        assert_eq!(request.may_finalize(&f), f_ok, "row {row}: F");
        assert_eq!(request.may_finalize(&stranger), stranger_ok, "row {row}: stranger");
    }
}

// ---- errors ----

#[test]
fn errors_errors_discriminant_canary() {
    let pins = abi_pins();
    assert!(!pins.is_empty(), "ABI_PINS is empty — this canary would assert nothing");
    for (variant, code) in pins.iter().copied() {
        assert_eq!(
            variant as u32 + ANCHOR_USER_ERROR_OFFSET,
            code,
            "ErrorCode declaration order shifted — see the ABI warning in errors.rs",
        );
    }
    assert_eq!(ErrorCode::PayoutBelowFloor.code(), 6015);
    assert_eq!(ErrorCode::InvalidSweepDestination.code(), 6025);
}

// ---- authorization ----

fn check(admin: Pubkey, vault_key: Pubkey, queue_vault: Pubkey, signer: Pubkey) -> Result<(), ErrorCode> {
    let vault = VaultState { admin, ..Default::default() };
    let queue = WithdrawalQueue { vault_state: queue_vault, ..Default::default() };
    require_vault_admin(&queue, vault_key, &vault, signer)
}

#[test]
fn the_admin_of_this_queues_vault_passes() {
    let admin = pk(0x10);
    let vault = pk(0x11);
    check(admin, vault, vault, admin).expect("the admin passes");
}

#[test]
fn anyone_else_is_not_the_admin() {
    let vault = pk(0x21);
    let err = check(pk(0x22), vault, vault, pk(0x23)).expect_err("fails");
    assert_eq!(code_of(err), expected(ErrorCode::NotVaultAdmin));
}

/// The admin of another vault is a real admin, just not of this queue's
/// vault. The binding is judged before the admin key, so this reports the
/// mismatch rather than the admin.
#[test]
fn another_vaults_admin_is_refused_as_a_mismatch() {
    let admin = pk(0x30);
    let err = check(admin, pk(0x31), pk(0x32), admin).expect_err("fails");
    assert_eq!(code_of(err), expected(ErrorCode::VaultMismatch));
}
