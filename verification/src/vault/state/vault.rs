//! The vault state account and the share pricing it carries.
//!
//! Pricing treats every vault as if `offset` virtual shares were permanently
//! outstanding against `offset` virtual assets, which defends against the
//! first-depositor inflation attack; below par the pro-rata value binds
//! instead, so no depositor or redeemer gains at the expense of the others.

use crate::address::{program_address, try_find_program_address};
use crate::key::Pubkey;
use crate::vault::errors::ErrorCode;
use vstd::prelude::*;

verus! {

/// First seed of a vault's state address.
pub const VAULT_STATE_SEED: [u8; 11] = [86, 65, 85, 76, 84, 95, 83, 84, 65, 84, 69];

/// First seed of a vault's share mint address.
pub const SHARE_MINT_SEED: [u8; 4] = [109, 105, 110, 116];

/// First seed of a vault's reserve token account address.
pub const VAULT_TOKEN_SEED: [u8; 11] = [116, 111, 107, 101, 110, 95, 118, 97, 117, 108, 116];

/// Denominator of `withdrawal_fee`: the full denominator is 100%.
pub const FEE_RATE_DENOMINATOR_VALUE: u32 = 1_000_000;

/// Basis-point denominator of the AUM change limits: 10 000 bps is 100%.
pub const BPS_DENOMINATOR: u32 = 10_000;

/// Default virtual-share offset; a stored offset of zero resolves to it.
pub const EXTRA_SHARES: u128 = 1_000_000;

/// Smallest offset a new vault may store.
pub const MIN_SHARE_OFFSET: u128 = 1_000;

/// Largest offset a new vault may store.
pub const MAX_SHARE_OFFSET: u128 = 1_000_000;

/// Companion virtual-asset offset; equal to [`EXTRA_SHARES`].
pub const VIRTUAL_ASSETS: u128 = 1_000_000;

/// How far the opening share supply must exceed the vault's offset.
pub const MIN_SUPPLY_MULTIPLE: u128 = 100;

/// Default AUM change limit set at initialization, in basis points.
pub const DEFAULT_AUM_LIMIT_BPS: u32 = 20;

/// The vault's state account.
#[derive(Clone, Copy, Debug)]
pub struct VaultState {
    pub operator: Pubkey,
    pub admin: Pubkey,
    pub share_mint: Pubkey,
    pub deposit_mint: Pubkey,
    pub fee_recipient: Pubkey,
    /// Fee on redemptions, in units of [`FEE_RATE_DENOMINATOR_VALUE`].
    pub withdrawal_fee: u32,
    /// Assets held by the vault itself.
    pub local_aum: u64,
    /// Assets deployed externally by the operator, as last reported.
    pub deployed_aum: u64,
    /// Largest permitted AUM increase per report, in basis points.
    pub aum_increase_limit: u32,
    /// Largest permitted AUM decrease per report, in basis points.
    pub aum_decrease_limit: u32,
    pub pda_bump: u8,
    pub vault_version: u8,
    pub paused: bool,
    /// Stored virtual-share offset; zero means "not set". Read it through
    /// [`VaultState::share_offset`].
    pub share_offset: u64,
    /// The only key `redeem` accepts while non-zero; zero is instant redemption
    /// for any holder.
    pub withdrawal_queue_authority: Pubkey,
    /// Where operator funds go while non-zero; zero is the operator's own account.
    pub operator_subaccount: Pubkey,
    /// Principal sent to operator destinations and not returned. Never marked
    /// to market.
    pub deployed_principal: u64,
    /// Number of registered operator subaccounts.
    pub subaccount_count: u64,
}

/// `10^e`.
pub open spec fn pow10(e: nat) -> nat
    decreases e,
{
    if e == 0 {
        1
    } else {
        10 * pow10((e - 1) as nat)
    }
}

/// The larger of two integers.
pub open spec fn max_int(a: int, b: int) -> int {
    if a >= b {
        a
    } else {
        b
    }
}

/// The smaller of two integers.
pub open spec fn min_int(a: int, b: int) -> int {
    if a <= b {
        a
    } else {
        b
    }
}

/// The offset a vault with stored value `stored` prices at.
pub open spec fn resolved_offset(stored: u64) -> u128 {
    if stored == 0 {
        EXTRA_SHARES
    } else {
        stored as u128
    }
}

/// Shares minted for a deposit of `amount`:
/// `floor(max(amount * (supply + offset) / (total + offset), amount * supply / total))`,
/// the pro-rata term taking part only when `total > 0`.
pub open spec fn deposit_share_value(supply: int, total: int, amount: int, offset: int) -> int {
    let with_offsets = amount * (supply + offset) / (total + offset);
    if total == 0 {
        with_offsets
    } else {
        max_int(with_offsets, amount * supply / total)
    }
}

/// Assets paid for `shares` burned:
/// `floor(min(shares * (total + offset) / (supply + offset), shares * total / supply))`,
/// the pro-rata term taking part only when `supply > 0`.
pub open spec fn redeem_asset_value(supply: int, total: int, shares: int, offset: int) -> int {
    let with_offsets = shares * (total + offset) / (supply + offset);
    if supply == 0 {
        with_offsets
    } else {
        min_int(with_offsets, shares * total / supply)
    }
}

/// A vault holding nothing while shares are outstanding has no share price.
pub open spec fn price_undefined(supply: u64, total: u64) -> bool {
    total == 0 && supply > 0
}

/// What `shares_for_deposit_with_offset` returns.
pub open spec fn shares_for_deposit_outcome(supply: u64, total: u64, amount: u64, offset: u128) -> Result<u64, ErrorCode> {
    if price_undefined(supply, total) {
        Err(ErrorCode::SharePriceUndefined)
    } else if supply + offset > u128::MAX || total + offset > u128::MAX || amount * (supply
        + offset) > u128::MAX || total + offset == 0 {
        Err(ErrorCode::MathError)
    } else if deposit_share_value(supply as int, total as int, amount as int, offset as int)
        > u64::MAX {
        Err(ErrorCode::NumberOverflow)
    } else {
        Ok(deposit_share_value(supply as int, total as int, amount as int, offset as int) as u64)
    }
}

/// What `assets_for_redeem_with_offset` returns.
pub open spec fn assets_for_redeem_outcome(supply: u64, total: u64, shares: u64, offset: u128) -> Result<u64, ErrorCode> {
    if price_undefined(supply, total) {
        Err(ErrorCode::SharePriceUndefined)
    } else if supply + offset > u128::MAX || total + offset > u128::MAX || shares * (total
        + offset) > u128::MAX || supply + offset == 0 {
        Err(ErrorCode::MathError)
    } else if redeem_asset_value(supply as int, total as int, shares as int, offset as int)
        > u64::MAX {
        Err(ErrorCode::NumberOverflow)
    } else {
        Ok(redeem_asset_value(supply as int, total as int, shares as int, offset as int) as u64)
    }
}

/// The decimals floor of the first deposit: `10^(decimals - 3)`, at least 1,
/// saturating at `u64::MAX`.
pub open spec fn decimals_floor(decimals: u8) -> int {
    if decimals <= 3 {
        1
    } else {
        min_int(pow10((decimals - 3) as nat) as int, u64::MAX as int)
    }
}

/// `MIN_SUPPLY_MULTIPLE * offset`, saturating at `u64::MAX`.
pub open spec fn offset_floor(offset: u128) -> int {
    min_int(MIN_SUPPLY_MULTIPLE * offset, u64::MAX as int)
}

/// Smallest first deposit a vault at `offset` accepts.
pub open spec fn spec_min_first_deposit_for(decimals: u8, offset: u128) -> int {
    max_int(decimals_floor(decimals), offset_floor(offset))
}

/// The offsets a new vault may store: the powers of ten from
/// [`MIN_SHARE_OFFSET`] to [`MAX_SHARE_OFFSET`].
pub open spec fn valid_share_offset(offset: u128) -> bool {
    offset == 1_000 || offset == 10_000 || offset == 100_000 || offset == 1_000_000
}

proof fn lemma_pow10_step(e: nat)
    ensures
        pow10(e + 1) == 10 * pow10(e),
        pow10(e) >= 1,
    decreases e,
{
    if e > 0 {
        lemma_pow10_step((e - 1) as nat);
    }
}

/// The withdrawal-queue program's id, `NmJ9CGaiPJSfAGSdhNeVDkMPGi7ZQMABYYwWUC4GHyf`.
pub open spec fn spec_withdrawal_queue_program_id() -> Seq<u8> {
    seq![
        5u8, 147, 72, 56, 202, 135, 89, 182, 47, 254, 136, 240, 119, 207, 78, 242, 238, 50, 127,
        169, 117, 231, 133, 20, 229, 61, 69, 210, 109, 101, 45, 190,
    ]
}

/// The withdrawal-queue program's id.
pub fn withdrawal_queue_program_id() -> (r: Pubkey)
    ensures
        r@ == spec_withdrawal_queue_program_id(),
{
    let r = Pubkey::new_from_array(
        [
            5u8, 147, 72, 56, 202, 135, 89, 182, 47, 254, 136, 240, 119, 207, 78, 242, 238, 50,
            127, 169, 117, 231, 133, 20, 229, 61, 69, 210, 109, 101, 45, 190,
        ],
    );
    assert(r@ =~= spec_withdrawal_queue_program_id());
    r
}

/// First seed of the per-vault queue address, `b"withdrawal_queue"`; the
/// second is the vault state's address.
pub open spec fn spec_withdrawal_queue_seed() -> Seq<u8> {
    seq![119u8, 105, 116, 104, 100, 114, 97, 119, 97, 108, 95, 113, 117, 101, 117, 101]
}

/// First seed of the per-vault queue address.
pub fn withdrawal_queue_seed() -> (r: [u8; 16])
    ensures
        r@ == spec_withdrawal_queue_seed(),
{
    let r = crate::queue::state::withdrawal_queue::WITHDRAWAL_QUEUE_SEED;
    assert(r@ =~= spec_withdrawal_queue_seed());
    r
}

/// The queue address of the vault at `vault`: the program address of
/// `[withdrawal_queue_seed, vault]` under the queue program.
pub open spec fn spec_withdrawal_queue_pda(vault: Seq<u8>) -> Option<Seq<u8>> {
    match program_address(spec_withdrawal_queue_seed(), vault, spec_withdrawal_queue_program_id()) {
        Some(q) => Some(q.0),
        None => None,
    }
}

/// The queue address of the vault at `vault`, the one key a vault may name as
/// its withdrawal-queue authority.
pub fn withdrawal_queue_pda(vault: &Pubkey) -> (r: Option<Pubkey>)
    ensures
        match r {
            Some(k) => spec_withdrawal_queue_pda(vault@) == Some(k@),
            None => spec_withdrawal_queue_pda(vault@) is None,
        },
{
    let seed = withdrawal_queue_seed();
    let program = withdrawal_queue_program_id();
    match try_find_program_address(seed.as_slice(), vault, &program) {
        Some((address, _bump)) => Some(address),
        None => None,
    }
}

impl Default for VaultState {
    /// The all-zero vault: what a freshly created account reads as.
    fn default() -> (r: Self)
        ensures
            r.operator@ == crate::key::zero_bytes(),
            r.admin@ == crate::key::zero_bytes(),
            r.share_mint@ == crate::key::zero_bytes(),
            r.deposit_mint@ == crate::key::zero_bytes(),
            r.fee_recipient@ == crate::key::zero_bytes(),
            r.withdrawal_queue_authority@ == crate::key::zero_bytes(),
            r.operator_subaccount@ == crate::key::zero_bytes(),
            r.withdrawal_fee == 0,
            r.local_aum == 0,
            r.deployed_aum == 0,
            r.aum_increase_limit == 0,
            r.aum_decrease_limit == 0,
            r.pda_bump == 0,
            r.vault_version == 0,
            !r.paused,
            r.share_offset == 0,
            r.deployed_principal == 0,
            r.subaccount_count == 0,
    {
        VaultState {
            operator: Pubkey::zero(),
            admin: Pubkey::zero(),
            share_mint: Pubkey::zero(),
            deposit_mint: Pubkey::zero(),
            fee_recipient: Pubkey::zero(),
            withdrawal_fee: 0,
            local_aum: 0,
            deployed_aum: 0,
            aum_increase_limit: 0,
            aum_decrease_limit: 0,
            pda_bump: 0,
            vault_version: 0,
            paused: false,
            share_offset: 0,
            withdrawal_queue_authority: Pubkey::zero(),
            operator_subaccount: Pubkey::zero(),
            deployed_principal: 0,
            subaccount_count: 0,
        }
    }
}

impl VaultState {
    /// Fill a freshly created vault. The AUM limits start at
    /// [`DEFAULT_AUM_LIMIT_BPS`], the deployed AUM at zero, unpaused.
    pub fn init(
        &mut self,
        operator: Pubkey,
        admin: Pubkey,
        share_mint: Pubkey,
        deposit_mint: Pubkey,
        fee_recipient: Pubkey,
        withdrawal_fee: u32,
        pda_bump: u8,
        vault_version: u8,
        share_offset: u64,
    )
        ensures
            *final(self) == (VaultState {
                operator,
                admin,
                share_mint,
                deposit_mint,
                fee_recipient,
                withdrawal_fee,
                deployed_aum: 0,
                aum_increase_limit: DEFAULT_AUM_LIMIT_BPS,
                aum_decrease_limit: DEFAULT_AUM_LIMIT_BPS,
                paused: false,
                pda_bump,
                vault_version,
                share_offset,
                ..*old(self)
            }),
    {
        self.operator = operator;
        self.admin = admin;
        self.share_mint = share_mint;
        self.deposit_mint = deposit_mint;
        self.fee_recipient = fee_recipient;
        self.withdrawal_fee = withdrawal_fee;
        self.deployed_aum = 0;
        self.aum_increase_limit = DEFAULT_AUM_LIMIT_BPS;
        self.aum_decrease_limit = DEFAULT_AUM_LIMIT_BPS;
        self.paused = false;
        self.pda_bump = pda_bump;
        self.vault_version = vault_version;
        self.share_offset = share_offset;
    }

    /// The three values the vault PDA's seeds are built from, after the
    /// constant prefix: the deposit mint, the version byte and the bump.
    pub fn seeds(&self) -> (r: (Pubkey, u8, u8))
        ensures
            r == (self.deposit_mint, self.vault_version, self.pda_bump),
    {
        (self.deposit_mint, self.vault_version, self.pda_bump)
    }

    /// This vault's offset, resolving the legacy zero to [`EXTRA_SHARES`].
    pub fn share_offset(&self) -> (r: u128)
        ensures
            r == resolved_offset(self.share_offset),
            r > 0,
    {
        if self.share_offset == 0 {
            EXTRA_SHARES
        } else {
            self.share_offset as u128
        }
    }

    /// The attached withdrawal queue, if any.
    pub fn withdrawal_queue(&self) -> (r: Option<Pubkey>)
        ensures
            r == (if self.withdrawal_queue_authority@ == crate::key::zero_bytes() {
                None
            } else {
                Some(self.withdrawal_queue_authority)
            }),
    {
        if self.withdrawal_queue_authority.is_zero() {
            None
        } else {
            Some(self.withdrawal_queue_authority)
        }
    }

    /// The named operator subaccount, if any.
    pub fn operator_subaccount(&self) -> (r: Option<Pubkey>)
        ensures
            r == (if self.operator_subaccount@ == crate::key::zero_bytes() {
                None
            } else {
                Some(self.operator_subaccount)
            }),
    {
        if self.operator_subaccount.is_zero() {
            None
        } else {
            Some(self.operator_subaccount)
        }
    }

    /// Whether operator transfers must name a registered subaccount.
    pub fn requires_subaccount(&self) -> (r: bool)
        ensures
            r == (self.subaccount_count > 0),
    {
        self.subaccount_count > 0
    }

    /// [`Self::shares_for_deposit_with_offset`] at this vault's offset.
    pub fn shares_for_deposit(&self, supply: u64, total_assets: u64, amount: u64) -> (r: Result<
        u64,
        ErrorCode,
    >)
        ensures
            r == shares_for_deposit_outcome(
                supply,
                total_assets,
                amount,
                resolved_offset(self.share_offset),
            ),
    {
        Self::shares_for_deposit_with_offset(supply, total_assets, amount, self.share_offset())
    }

    /// [`Self::assets_for_redeem_with_offset`] at this vault's offset.
    pub fn assets_for_redeem(&self, supply: u64, total_assets: u64, shares: u64) -> (r: Result<
        u64,
        ErrorCode,
    >)
        ensures
            r == assets_for_redeem_outcome(
                supply,
                total_assets,
                shares,
                resolved_offset(self.share_offset),
            ),
    {
        Self::assets_for_redeem_with_offset(supply, total_assets, shares, self.share_offset())
    }

    /// [`Self::min_first_deposit_for`] at this vault's offset.
    pub fn min_first_deposit(&self, decimals: u8) -> (r: u64)
        ensures
            r == spec_min_first_deposit_for(decimals, resolved_offset(self.share_offset)),
    {
        Self::min_first_deposit_for(decimals, self.share_offset())
    }

    /// Smallest first deposit a vault at `offset` accepts: the larger of the
    /// decimals floor `10^(decimals - 3)` (1 below four decimals) and
    /// `MIN_SUPPLY_MULTIPLE * offset`, both saturating at `u64::MAX`.
    pub fn min_first_deposit_for(decimals: u8, offset: u128) -> (r: u64)
        ensures
            r == spec_min_first_deposit_for(decimals, offset),
            r >= offset_floor(offset),
    {
        let by_decimals: u64 = if decimals <= 3 {
            1
        } else {
            let e: u8 = decimals - 3;
            let mut p: u64 = 1;
            let mut i: u8 = 0;
            while i < e
                invariant
                    i <= e,
                    e == decimals - 3,
                    decimals > 3,
                    p == min_int(pow10(i as nat) as int, u64::MAX as int),
                decreases e - i,
            {
                proof {
                    lemma_pow10_step(i as nat);
                }
                if p > u64::MAX / 10 {
                    p = u64::MAX;
                } else {
                    p = p * 10;
                }
                i = i + 1;
            }
            p
        };
        let by_offset: u64 = if offset > u64::MAX as u128 / MIN_SUPPLY_MULTIPLE {
            u64::MAX
        } else {
            (MIN_SUPPLY_MULTIPLE * offset) as u64
        };
        if by_decimals >= by_offset {
            by_decimals
        } else {
            by_offset
        }
    }

    /// Smallest share supply a vault may open with:
    /// `MIN_SUPPLY_MULTIPLE * offset`, saturating at `u64::MAX`.
    pub fn min_opening_supply(&self) -> (r: u64)
        ensures
            r == offset_floor(resolved_offset(self.share_offset)),
    {
        let offset = self.share_offset();
        if offset > u64::MAX as u128 / MIN_SUPPLY_MULTIPLE {
            u64::MAX
        } else {
            (MIN_SUPPLY_MULTIPLE * offset) as u64
        }
    }

    /// Whether `offset` may be stored on a new vault: a power of ten within
    /// [`MIN_SHARE_OFFSET`] ..= [`MAX_SHARE_OFFSET`].
    pub fn is_valid_share_offset(offset: u128) -> (r: bool)
        ensures
            r == valid_share_offset(offset),
    {
        if !(MIN_SHARE_OFFSET <= offset && offset <= MAX_SHARE_OFFSET) {
            return false;
        }
        let mut p: u128 = 1;
        while p < offset
            invariant
                MIN_SHARE_OFFSET <= offset <= MAX_SHARE_OFFSET,
                p == 1 || p == 10 || p == 100 || p == 1_000 || p == 10_000 || p == 100_000 || p
                    == 1_000_000 || p == 10_000_000,
                p == 1 || p / 10 < offset,
            decreases 10_000_000 - p,
        {
            match p.checked_mul(10) {
                Some(next) => p = next,
                None => return false,
            }
        }
        p == offset
    }

    /// Sum of on-vault and deployed assets; `MathError` on overflow.
    pub fn total_assets(&self) -> (r: Result<u64, ErrorCode>)
        ensures
            r == (if self.local_aum + self.deployed_aum > u64::MAX {
                Err::<u64, ErrorCode>(ErrorCode::MathError)
            } else {
                Ok((self.local_aum + self.deployed_aum) as u64)
            }),
    {
        match self.local_aum.checked_add(self.deployed_aum) {
            Some(v) => Ok(v),
            None => Err(ErrorCode::MathError),
        }
    }

    /// Shares minted for a deposit of `amount`, priced at `offset`:
    /// `floor(max(amount * (supply + offset) / (total_assets + offset),
    /// amount * supply / total_assets))`, the pro-rata term only when
    /// `total_assets > 0`. `SharePriceUndefined` when the vault holds nothing
    /// against outstanding shares, `MathError` when a `u128` intermediate
    /// overflows, `NumberOverflow` when the result exceeds `u64`.
    pub fn shares_for_deposit_with_offset(
        supply: u64,
        total_assets: u64,
        amount: u64,
        offset: u128,
    ) -> (r: Result<u64, ErrorCode>)
        ensures
            r == shares_for_deposit_outcome(supply, total_assets, amount, offset),
    {
        if !(total_assets > 0 || supply == 0) {
            return Err(ErrorCode::SharePriceUndefined);
        }
        let shares_eff = match (supply as u128).checked_add(offset) {
            Some(v) => v,
            None => return Err(ErrorCode::MathError),
        };
        let assets_eff = match (total_assets as u128).checked_add(offset) {
            Some(v) => v,
            None => return Err(ErrorCode::MathError),
        };
        let product = match (amount as u128).checked_mul(shares_eff) {
            Some(v) => v,
            None => return Err(ErrorCode::MathError),
        };
        let with_offsets = match product.checked_div(assets_eff) {
            Some(v) => v,
            None => return Err(ErrorCode::MathError),
        };
        let shares: u128 = if total_assets == 0 {
            with_offsets
        } else {
            assert((amount as int) * (supply as int) <= u128::MAX) by (nonlinear_arith)
                requires
                    amount <= u64::MAX,
                    supply <= u64::MAX,
            ;
            let pro_rata = (amount as u128) * (supply as u128) / (total_assets as u128);
            if with_offsets >= pro_rata {
                with_offsets
            } else {
                pro_rata
            }
        };
        if shares > u64::MAX as u128 {
            Err(ErrorCode::NumberOverflow)
        } else {
            Ok(shares as u64)
        }
    }

    /// Assets paid for `shares` burned, priced at `offset`:
    /// `floor(min(shares * (total_assets + offset) / (supply + offset),
    /// shares * total_assets / supply))`, the pro-rata term only when
    /// `supply > 0`. Errors as [`Self::shares_for_deposit_with_offset`].
    pub fn assets_for_redeem_with_offset(
        supply: u64,
        total_assets: u64,
        shares: u64,
        offset: u128,
    ) -> (r: Result<u64, ErrorCode>)
        ensures
            r == assets_for_redeem_outcome(supply, total_assets, shares, offset),
    {
        if !(total_assets > 0 || supply == 0) {
            return Err(ErrorCode::SharePriceUndefined);
        }
        let shares_eff = match (supply as u128).checked_add(offset) {
            Some(v) => v,
            None => return Err(ErrorCode::MathError),
        };
        let assets_eff = match (total_assets as u128).checked_add(offset) {
            Some(v) => v,
            None => return Err(ErrorCode::MathError),
        };
        let product = match (shares as u128).checked_mul(assets_eff) {
            Some(v) => v,
            None => return Err(ErrorCode::MathError),
        };
        let with_offsets = match product.checked_div(shares_eff) {
            Some(v) => v,
            None => return Err(ErrorCode::MathError),
        };
        let capped: u128 = if supply == 0 {
            with_offsets
        } else {
            assert((shares as int) * (total_assets as int) <= u128::MAX) by (nonlinear_arith)
                requires
                    shares <= u64::MAX,
                    total_assets <= u64::MAX,
            ;
            let pro_rata = (shares as u128) * (total_assets as u128) / (supply as u128);
            if with_offsets <= pro_rata {
                with_offsets
            } else {
                pro_rata
            }
        };
        if capped > u64::MAX as u128 {
            Err(ErrorCode::NumberOverflow)
        } else {
            Ok(capped as u64)
        }
    }
}

} // verus!
