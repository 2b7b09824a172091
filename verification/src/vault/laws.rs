//! Properties of share pricing that span several calls.

use crate::account::AccountFacts;
use crate::key::{zero_bytes, Pubkey};
use crate::token::TokenAccountState;
use crate::vault::errors::ErrorCode;
use crate::vault::instructions::accept_admin_nomination::accept_effect;
use crate::vault::instructions::attach_withdrawal_queue::attach_refusal;
use crate::vault::instructions::deposit::deposit_effect;
use crate::vault::instructions::detach_withdrawal_queue::detach_effect;
use crate::vault::instructions::nominate_admin::nominate_effect;
use crate::vault::instructions::operator_deposit::return_effect;
use crate::vault::instructions::operator_update_aum::update_aum_refusal;
use crate::vault::instructions::operator_withdraw::{withdraw_effect, withdraw_precheck};
use crate::vault::instructions::redeem::{fee_on, redeem_effect, redeem_refusal, RedeemOutcome};
use crate::vault::instructions::set_withdrawal_queue_authority::set_queue_refusal;
use crate::vault::state::nominated_admin::{NominatedAdmin, ONE_DAY_IN_SECONDS};
use crate::vault::state::subaccount::Subaccount;
use crate::vault::state::vault::{
    assets_for_redeem_outcome, redeem_asset_value, shares_for_deposit_outcome,
    spec_withdrawal_queue_pda, VaultState, BPS_DENOMINATOR,
};
use vstd::arithmetic::div_mod::*;
use vstd::prelude::*;

verus! {

/// Floor division times its divisor does not exceed the dividend.
proof fn lemma_floor_times(x: int, d: int)
    requires
        x >= 0,
        d > 0,
    ensures
        (x / d) * d <= x,
        x / d >= 0,
{
    lemma_fundamental_div_mod(x, d);
    lemma_mod_pos_bound(x, d);
    assert((x / d) * d == d * (x / d)) by (nonlinear_arith);
    assert(x / d >= 0) by {
        lemma_div_is_ordered(0, x, d);
    }
}

/// A dividend at most `y * d` floors to at most `y`.
proof fn lemma_div_at_most(x: int, y: int, d: int)
    requires
        0 <= x <= y * d,
        d > 0,
        y >= 0,
    ensures
        x / d <= y,
{
    lemma_div_is_ordered(x, y * d, d);
    lemma_div_by_multiple(y, d);
}

/// `m * (t + a + o) <= a * (s + m + o)` follows from `m * (t + o) <= a * (s + o)`.
proof fn lemma_add_to_both(m: int, a: int, s: int, t: int, o: int)
    requires
        m >= 0,
        a >= 0,
        m * (t + o) <= a * (s + o),
    ensures
        m * (t + a + o) <= a * (s + m + o),
{
    assert(m * (t + a + o) == m * (t + o) + m * a) by (nonlinear_arith);
    assert(a * (s + m + o) == a * (s + o) + a * m) by (nonlinear_arith);
    assert(m * a == a * m) by (nonlinear_arith);
}

/// Redeeming the shares a deposit just minted never pays back more than was
/// deposited: whenever the deposit and the following redemption both price,
/// `redeem(deposit(x)) <= x`.
pub proof fn lemma_round_trip_never_extracts_value(
    supply: u64,
    total_assets: u64,
    deposit: u64,
    offset: u128,
    minted: u64,
)
    requires
        shares_for_deposit_outcome(supply, total_assets, deposit, offset) == Ok::<u64, ErrorCode>(
            minted,
        ),
        supply + minted <= u64::MAX,
        total_assets + deposit <= u64::MAX,
        assets_for_redeem_outcome(
            (supply + minted) as u64,
            (total_assets + deposit) as u64,
            minted,
            offset,
        ) is Ok,
    ensures
        assets_for_redeem_outcome(
            (supply + minted) as u64,
            (total_assets + deposit) as u64,
            minted,
            offset,
        )->Ok_0 <= deposit,
{
    let s = supply as int;
    let t = total_assets as int;
    let a = deposit as int;
    let o = offset as int;
    let m = minted as int;
    let ss = s + m;
    let tt = t + a;
    let w = a * (s + o) / (t + o);
    assert(t + o > 0);
    assert(ss + o > 0);
    assert(a * (s + o) >= 0) by (nonlinear_arith)
        requires
            a >= 0,
            s + o >= 0,
    ;
    lemma_floor_times(a * (s + o), t + o);
    assert(m * (tt + o) >= 0) by (nonlinear_arith)
        requires
            m >= 0,
            tt + o >= 0,
    ;
    let with_offsets = m * (tt + o) / (ss + o);
    let r = redeem_asset_value(ss, tt, m, o);
    if m == w {
        assert(m * (t + o) <= a * (s + o)) by (nonlinear_arith)
            requires
                m == w,
                w * (t + o) <= a * (s + o),
        ;
        lemma_add_to_both(m, a, s, t, o);
        assert(m * (tt + o) <= a * (ss + o));
        lemma_div_at_most(m * (tt + o), a, ss + o);
        assert(r <= with_offsets);
    } else {
        assert(t > 0);
        let p = a * s / t;
        assert(m == p);
        assert(a * s >= 0) by (nonlinear_arith)
            requires
                a >= 0,
                s >= 0,
        ;
        lemma_floor_times(a * s, t);
        if ss == 0 {
            assert(m == 0);
            assert(with_offsets == 0) by {
                assert(m * (tt + o) == 0) by (nonlinear_arith)
                    requires
                        m == 0,
                ;
            }
        } else {
            assert(m * t <= a * s) by (nonlinear_arith)
                requires
                    m == p,
                    p * t <= a * s,
            ;
            lemma_add_to_both(m, a, s, t, 0);
            assert(m * tt <= a * ss);
            assert(m * tt >= 0) by (nonlinear_arith)
                requires
                    m >= 0,
                    tt >= 0,
            ;
            lemma_div_at_most(m * tt, a, ss);
        }
    }
}

/// Redeeming at most the whole supply never claims more than the whole reserve.
pub proof fn lemma_redeeming_never_exceeds_reserves(
    supply: u64,
    total_assets: u64,
    shares: u64,
    offset: u128,
)
    requires
        shares <= supply,
        assets_for_redeem_outcome(supply, total_assets, shares, offset) is Ok,
    ensures
        assets_for_redeem_outcome(supply, total_assets, shares, offset)->Ok_0 <= total_assets,
{
    let s = supply as int;
    let t = total_assets as int;
    let h = shares as int;
    let o = offset as int;
    if s == 0 {
        assert(h == 0);
        assert(h * (t + o) == 0) by (nonlinear_arith)
            requires
                h == 0,
        ;
        assert(s + o > 0);
    } else {
        assert(h * t <= t * s) by (nonlinear_arith)
            requires
                0 <= h <= s,
                t >= 0,
        ;
        assert(h * t >= 0) by (nonlinear_arith)
            requires
                h >= 0,
                t >= 0,
        ;
        lemma_div_at_most(h * t, t, s);
        assert(h * (t + o) >= 0) by (nonlinear_arith)
            requires
                h >= 0,
                t + o >= 0,
        ;
        lemma_floor_times(h * (t + o), s + o);
    }
}

/// A deposit never mints fewer shares than its pro-rata share of the vault.
pub proof fn lemma_deposit_never_below_pro_rata(
    supply: u64,
    total_assets: u64,
    amount: u64,
    offset: u128,
)
    requires
        total_assets > 0,
        shares_for_deposit_outcome(supply, total_assets, amount, offset) is Ok,
    ensures
        shares_for_deposit_outcome(supply, total_assets, amount, offset)->Ok_0 >= (amount as int)
            * (supply as int) / (total_assets as int),
{
}

/// A redemption never pays more than the position's pro-rata share of the
/// assets that exist.
pub proof fn lemma_redeem_never_above_pro_rata(
    supply: u64,
    total_assets: u64,
    shares: u64,
    offset: u128,
)
    requires
        supply > 0,
        assets_for_redeem_outcome(supply, total_assets, shares, offset) is Ok,
    ensures
        assets_for_redeem_outcome(supply, total_assets, shares, offset)->Ok_0 <= (shares as int)
            * (total_assets as int) / (supply as int),
{
}

/// The first deposit into an empty vault mints one share per unit deposited.
pub proof fn lemma_first_deposit_mints_one_to_one(amount: u64, offset: u128)
    requires
        offset > 0,
        amount * offset <= u128::MAX,
    ensures
        shares_for_deposit_outcome(0, 0, amount, offset) == Ok::<u64, ErrorCode>(amount),
{
    assert(amount * (0 + offset) / (0 + offset) == amount) by {
        lemma_div_by_multiple(amount as int, offset as int);
    }
}

/// A deposit followed by redeeming exactly the shares it minted never returns
/// more than was deposited, before or after the fee.
pub proof fn lemma_deposit_then_redeem_never_extracts_value(
    before: VaultState,
    after_deposit: VaultState,
    after_redeem: VaultState,
    share_supply: u64,
    deposit_decimals: u8,
    amount: u64,
    minted: u64,
    signer: Pubkey,
    paid: RedeemOutcome,
)
    requires
        deposit_effect(
            before,
            after_deposit,
            share_supply,
            deposit_decimals,
            amount,
            0,
            Ok(minted),
        ),
        share_supply + minted <= u64::MAX,
        redeem_effect(
            after_deposit,
            after_redeem,
            (share_supply + minted) as u64,
            signer,
            minted,
            0,
            Ok(paid),
        ),
    ensures
        paid.assets <= amount,
        paid.final_amount <= amount,
{
    let total = (before.local_aum + before.deployed_aum) as u64;
    lemma_round_trip_never_extracts_value(
        share_supply,
        total,
        amount,
        crate::vault::state::vault::resolved_offset(before.share_offset),
        minted,
    );
}

/// A redemption pays the fee recipient and the redeemer exactly the priced
/// assets between them, the redeemer at least the stated minimum, and the
/// reserve drops by the same assets.
pub proof fn lemma_redeem_splits_assets_between_fee_and_redeemer(
    before: VaultState,
    after: VaultState,
    share_supply: u64,
    signer: Pubkey,
    shares: u64,
    min_assets_out: u64,
    paid: RedeemOutcome,
)
    requires
        redeem_effect(before, after, share_supply, signer, shares, min_assets_out, Ok(paid)),
    ensures
        paid.fees + paid.final_amount == paid.assets,
        paid.fees == fee_on(paid.assets, before.withdrawal_fee),
        paid.final_amount >= min_assets_out,
        after.local_aum + paid.assets == before.local_aum,
{
}

/// A paused vault refuses every non-empty deposit and every non-empty
/// redemption with `VaultPaused`, and the refusal leaves the vault as it was.
pub proof fn lemma_paused_vault_refuses_holders(
    vault: VaultState,
    after_deposit: VaultState,
    after_redeem: VaultState,
    share_supply: u64,
    deposit_decimals: u8,
    amount: u64,
    min_shares_out: u64,
    signer: Pubkey,
    shares: u64,
    min_assets_out: u64,
    deposited: Result<u64, ErrorCode>,
    redeemed: Result<RedeemOutcome, ErrorCode>,
)
    requires
        vault.paused,
        amount > 0,
        shares > 0,
        deposit_effect(
            vault,
            after_deposit,
            share_supply,
            deposit_decimals,
            amount,
            min_shares_out,
            deposited,
        ),
        redeem_effect(vault, after_redeem, share_supply, signer, shares, min_assets_out, redeemed),
    ensures
        deposited == Err::<u64, ErrorCode>(ErrorCode::VaultPaused),
        redeemed == Err::<RedeemOutcome, ErrorCode>(ErrorCode::VaultPaused),
        after_deposit == vault,
        after_redeem == vault,
{
}

/// While a queue is attached, nobody else can redeem.
pub proof fn lemma_gated_vault_redeems_only_for_its_queue(
    vault: VaultState,
    share_supply: u64,
    signer: Pubkey,
    shares: u64,
    min_assets_out: u64,
)
    requires
        vault.withdrawal_queue_authority@ != zero_bytes(),
        signer != vault.withdrawal_queue_authority,
        shares > 0,
        !vault.paused,
    ensures
        redeem_refusal(vault, share_supply, signer, shares, min_assets_out) == Some(
            ErrorCode::WithdrawalQueueRequired,
        ),
{
}

/// The only keys a vault ever stores as its queue authority are the zero key
/// and its own queue address.
pub proof fn lemma_queue_authority_is_zero_or_the_queue_address(
    vault: VaultState,
    admin: Pubkey,
    vault_key: Pubkey,
    new_authority: Pubkey,
    new_queue: Option<AccountFacts>,
    current_queue: Option<Pubkey>,
    queue: AccountFacts,
)
    ensures
        set_queue_refusal(vault, admin, vault_key, new_authority, new_queue, current_queue) is None
            ==> new_authority@ == zero_bytes() || spec_withdrawal_queue_pda(vault_key@) == Some(
            new_authority@,
        ),
        attach_refusal(vault, admin, vault_key, queue) is None ==> spec_withdrawal_queue_pda(
            vault_key@,
        ) == Some(queue.key@),
{
}

/// Deploying an amount the reserve records and returning the same amount
/// from the same destination leaves the vault's books and the destination's
/// principal as they were.
pub proof fn lemma_withdraw_then_return_restores_books(
    v0: VaultState,
    v1: VaultState,
    v2: VaultState,
    s0: Option<Subaccount>,
    s1: Option<Subaccount>,
    s2: Option<Subaccount>,
    operator: Pubkey,
    vault_key: Pubkey,
    destination: TokenAccountState,
    source: TokenAccountState,
    amount: u64,
)
    requires
        withdraw_effect(v0, v1, s0, s1, operator, vault_key, destination, amount, Ok(())),
        return_effect(v1, v2, s1, s2, operator, vault_key, source, amount, Ok(())),
        amount <= v0.local_aum,
        v0.deployed_aum + amount <= u64::MAX,
    ensures
        v2 == v0,
        s2 == s0,
{
}

/// A nomination is accepted by the nominee alone, and only before its
/// one-day deadline; acceptance makes the nominee the admin.
pub proof fn lemma_nomination_is_accepted_only_by_the_nominee_within_a_day(
    vault: VaultState,
    admin: Pubkey,
    n0: NominatedAdmin,
    n1: NominatedAdmin,
    nominated: Pubkey,
    now: i64,
    v0: VaultState,
    v1: VaultState,
    signer: Pubkey,
    later: i64,
    r: Result<(), ErrorCode>,
)
    requires
        nominate_effect(vault, admin, n0, n1, nominated, now, Ok(())),
        accept_effect(v0, v1, n1, signer, later, r),
    ensures
        signer == nominated && later < now + ONE_DAY_IN_SECONDS ==> r == Ok::<(), ErrorCode>(())
            && v1.admin == nominated,
        signer == nominated && later >= now + ONE_DAY_IN_SECONDS ==> r == Err::<(), ErrorCode>(
            ErrorCode::NominationExpired,
        ) && v1 == v0,
        signer != nominated ==> r == Err::<(), ErrorCode>(ErrorCode::InvalidNominatedAdmin) && v1
            == v0,
{
}

/// An accepted AUM report lies within the vault's basis-point bounds of the
/// previous deployed AUM.
pub proof fn lemma_accepted_aum_report_is_within_bounds(
    vault: VaultState,
    operator: Pubkey,
    new_aum: u64,
)
    requires
        update_aum_refusal(vault, operator, new_aum) is None,
    ensures
        (BPS_DENOMINATOR - vault.aum_decrease_limit) * vault.deployed_aum <= new_aum
            * BPS_DENOMINATOR <= (BPS_DENOMINATOR + vault.aum_increase_limit) * vault.deployed_aum,
{
}

/// A vault's share offset is fixed at creation: no deposit, redemption,
/// deployment, return of deployed funds or admin hand-over changes it, whether
/// the instruction succeeds or is refused.
pub proof fn lemma_share_offset_is_permanent(before: VaultState, after: VaultState)
    requires
        (exists|share_supply: u64, decimals: u8, amount: u64, min_out: u64, r: Result<u64, ErrorCode>|
            deposit_effect(before, after, share_supply, decimals, amount, min_out, r))
            || (exists|
            share_supply: u64,
            signer: Pubkey,
            shares: u64,
            min_out: u64,
            r: Result<RedeemOutcome, ErrorCode>,
        | redeem_effect(before, after, share_supply, signer, shares, min_out, r)) || (exists|
            s0: Option<Subaccount>,
            s1: Option<Subaccount>,
            operator: Pubkey,
            vault_key: Pubkey,
            destination: TokenAccountState,
            amount: u64,
            r: Result<(), ErrorCode>,
        | withdraw_effect(before, after, s0, s1, operator, vault_key, destination, amount, r))
            || (exists|
            s0: Option<Subaccount>,
            s1: Option<Subaccount>,
            operator: Pubkey,
            vault_key: Pubkey,
            source: TokenAccountState,
            amount: u64,
            r: Result<(), ErrorCode>,
        | return_effect(before, after, s0, s1, operator, vault_key, source, amount, r)) || (exists|
            nomination: NominatedAdmin,
            new_admin: Pubkey,
            now: i64,
            r: Result<(), ErrorCode>,
        | accept_effect(before, after, nomination, new_admin, now, r)),
    ensures
        after.share_offset == before.share_offset,
{
}

/// Attaching the vault's queue and then detaching it with that queue
/// co-signing returns the vault exactly to where it was, and the detach hands
/// back the queue it removed. While attached, a detach signed by any other key
/// is refused with `WrongWithdrawalQueueSigner` and changes nothing; on a vault
/// with no queue attached a detach is refused with `WithdrawalQueueNotAttached`.
pub proof fn lemma_attach_then_detach_restores_the_vault(
    v0: VaultState,
    v1: VaultState,
    v2: VaultState,
    admin: Pubkey,
    vault_key: Pubkey,
    queue: AccountFacts,
    queue_signer: Pubkey,
    r: Result<Pubkey, ErrorCode>,
    v3: VaultState,
    r0: Result<Pubkey, ErrorCode>,
)
    requires
        attach_refusal(v0, admin, vault_key, queue) is None,
        v1 == (VaultState { withdrawal_queue_authority: queue.key, ..v0 }),
        detach_effect(v1, v2, admin, queue_signer, r),
        detach_effect(v0, v3, admin, queue_signer, r0),
    ensures
        queue_signer == queue.key ==> r == Ok::<Pubkey, ErrorCode>(queue.key) && v2 == v0,
        queue_signer != queue.key ==> r == Err::<Pubkey, ErrorCode>(
            ErrorCode::WrongWithdrawalQueueSigner,
        ) && v2 == v1,
        r0 == Err::<Pubkey, ErrorCode>(ErrorCode::WithdrawalQueueNotAttached) && v3 == v0,
{
    if queue_signer == queue.key {
        assert(v2.withdrawal_queue_authority@ == v0.withdrawal_queue_authority@);
        crate::key::lemma_key_view_injective(
            v2.withdrawal_queue_authority,
            v0.withdrawal_queue_authority,
        );
    }
}

/// The minimum deposit applies to the first deposit alone: once shares are
/// outstanding, no deposit is refused for its size. A deposit into such a
/// vault that is not paused, prices without overflow to at least one share and
/// at least the stated minimum, and fits the reserve's counter is accepted:
/// it mints exactly the priced shares and the reserve grows by the amount.
pub proof fn lemma_only_the_first_deposit_has_a_minimum(
    before: VaultState,
    after: VaultState,
    share_supply: u64,
    deposit_decimals: u8,
    amount: u64,
    min_shares_out: u64,
    r: Result<u64, ErrorCode>,
    minted: u64,
)
    requires
        deposit_effect(before, after, share_supply, deposit_decimals, amount, min_shares_out, r),
    ensures
        share_supply > 0 ==> r != Err::<u64, ErrorCode>(ErrorCode::InsufficientAmount),
        share_supply > 0 && amount > 0 && !before.paused && before.local_aum + before.deployed_aum
            <= u64::MAX && shares_for_deposit_outcome(
            share_supply,
            (before.local_aum + before.deployed_aum) as u64,
            amount,
            crate::vault::state::vault::resolved_offset(before.share_offset),
        ) == Ok::<u64, ErrorCode>(minted) && minted >= 1 && minted >= min_shares_out
            && before.local_aum + amount <= u64::MAX ==> r == Ok::<u64, ErrorCode>(minted)
            && after.local_aum == before.local_aum + amount,
{
}

/// A deployment's delegation is measured against the destination's own
/// principal: a destination that delegates to the vault at least its own
/// principal plus the amount is never refused for its delegation, whatever
/// the vault's total deployed principal. With the operator signing, a
/// non-zero amount, the matching subaccount and no counter overflowing, the
/// deployment goes through and the subaccount then owes its principal plus
/// the amount.
pub proof fn lemma_delegation_covers_own_principal_only(
    v0: VaultState,
    v1: VaultState,
    s0: Option<Subaccount>,
    s1: Option<Subaccount>,
    operator: Pubkey,
    vault_key: Pubkey,
    destination: TokenAccountState,
    amount: u64,
    r: Result<(), ErrorCode>,
    sub: Subaccount,
)
    requires
        withdraw_effect(v0, v1, s0, s1, operator, vault_key, destination, amount, r),
        s0 == Some(sub),
        destination.delegate == Some(vault_key),
        destination.delegated_amount >= sub.principal + amount,
    ensures
        withdraw_precheck(v0, operator, vault_key, s0, destination, amount) != Some(
            ErrorCode::SubaccountDelegationMissing,
        ),
        r != Err::<(), ErrorCode>(ErrorCode::SubaccountDelegationMissing),
        operator == v0.operator && amount > 0 && v0.subaccount_count > 0 && v0.deployed_principal
            + amount <= u64::MAX && sub.principal + amount <= u64::MAX ==> r == Ok::<(), ErrorCode>(
            (),
        ) && s1 == Some(Subaccount { principal: (sub.principal + amount) as u64, ..sub }),
{
}

} // verus!
