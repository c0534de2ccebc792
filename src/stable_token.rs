//! A stable token backed by a basket of collateral assets, with a price
//! oracle and governance proposals that adjust it.

use vstd::prelude::*;

verus! {

/// Collateralization the token starts at, in percent.
pub const INITIAL_COLLATERAL_RATIO: u64 = 150;

/// Price of one token in atomic units of the base asset.
pub const INITIAL_TARGET_PRICE: u64 = 1000000;

/// Lowest collateralization at which tokens may be minted, in percent.
pub const MIN_RATIO: u64 = 120;

/// Collateralization the token is steered towards, in percent.
pub const TARGET_RATIO: u64 = 150;

/// Highest collateralization of the default basket, in percent.
pub const MAX_RATIO: u64 = 200;

/// Deviation from the target ratio (in percentage points) that triggers a
/// rebalance.
pub const REBALANCE_THRESHOLD: u64 = 5;

/// Divisor that turns `amount * price` into atomic units of the base asset.
pub const PRICE_SCALE: u64 = 10000000;

/// Percent of the collateral value that is minted as tokens; the rest is the fee.
pub const MINT_SHARE_PERCENT: u64 = 95;

/// Largest allowed price move between two oracle updates, in percent.
pub const DEVIATION_THRESHOLD: u64 = 5;

/// Why a token, oracle or governance operation was refused. No refusal
/// changes any state.
#[derive(Debug, Clone, Copy, PartialEq, Eq, Structural)]
pub enum TokenError {
    EmergencyHalt,
    UnsupportedAsset,
    PriceUnavailable,
    InsufficientCollateralization,
    InsufficientSupply,
    UnsupportedPreferredAsset,
    PriceDeviationTooHigh,
    AlreadyExecuted,
    VotingDeadlinePassed,
    NotApproved,
    UnknownProposalType,
    UnknownParameter,
    UnknownFeeType,
}

impl TokenError {
    /// A human-readable description of the refusal.
    pub fn message(&self) -> &'static str {
        match self {
            TokenError::EmergencyHalt => "Emergency halt is active",
            TokenError::UnsupportedAsset => "Unsupported collateral asset",
            TokenError::PriceUnavailable => "Price not available for asset",
            TokenError::InsufficientCollateralization => "Insufficient collateralization ratio",
            TokenError::InsufficientSupply => "Insufficient UDST supply",
            TokenError::UnsupportedPreferredAsset => "Unsupported preferred asset",
            TokenError::PriceDeviationTooHigh => "Price deviation too high",
            TokenError::AlreadyExecuted => "Proposal already executed",
            TokenError::VotingDeadlinePassed => "Voting deadline passed",
            TokenError::NotApproved => "Proposal not approved",
            TokenError::UnknownProposalType => "Unknown proposal type",
            TokenError::UnknownParameter => "Unknown parameter",
            TokenError::UnknownFeeType => "Unknown fee type",
        }
    }
}

/// What a rebalance found necessary.
#[derive(Debug, Clone, Copy, PartialEq, Eq, Structural)]
pub enum RebalanceAction {
    /// The ratio is within the threshold of the target.
    Hold,
    /// Under-collateralized: collateral must grow or supply shrink.
    IncreaseCollateral,
    /// Over-collateralized: collateral may shrink or supply grow.
    DecreaseCollateral,
}

/// One asset of the collateral basket.
#[derive(Debug, Clone)]
pub struct CollateralAsset {
    pub asset_type: String,
    pub amount: u64,
    pub value_in_xfg: u64,
    /// Share of the basket, in percent.
    pub weight: u64,
    pub last_price_update: u64,
}

/// A basket of collateral assets with its ratio bounds.
#[derive(Debug, Clone)]
pub struct CollateralBasket {
    pub assets: Vec<CollateralAsset>,
    pub total_value_xfg: u64,
    pub collateral_ratio: u64,
    pub min_ratio: u64,
    pub max_ratio: u64,
    pub target_ratio: u64,
}

/// A holder's token balance and the collateral locked per asset.
#[derive(Debug, Clone)]
pub struct DSTBalance {
    pub address: String,
    pub balance: u64,
    pub locked_collateral: Vec<(String, u64)>,
    pub last_activity: u64,
}

/// Prices per asset, in atomic units of the base asset, with the feeds they
/// come from.
#[derive(Debug, Clone)]
pub struct PriceOracle {
    pub feeds: Vec<String>,
    pub prices: Vec<(String, u64)>,
    pub last_update: u64,
    /// Largest allowed move between two updates, in percent.
    pub deviation_threshold: u64,
}

/// A governance proposal and its tally.
#[derive(Debug, Clone)]
pub struct GovernanceProposal {
    pub proposal_id: u64,
    pub proposer: String,
    pub proposal_type: String,
    pub description: String,
    pub parameters: Vec<(String, u64)>,
    pub votes_for: u64,
    pub votes_against: u64,
    /// Zero for no deadline.
    pub voting_deadline: u64,
    pub executed: bool,
}

/// The stable token.
#[derive(Debug, Clone)]
pub struct DIGMStableToken {
    pub token_id: u64,
    pub total_supply: u64,
    /// In percent.
    pub collateral_ratio: u64,
    pub target_price_xfg: u64,
    pub last_rebalance: u64,
    pub collateral: Vec<CollateralAsset>,
    pub governance: String,
    pub emergency_halt: bool,
}

/// `x`, or the largest `u64` when `x` is larger.
pub open spec fn clamp64(x: int) -> int {
    if x <= u64::MAX { x } else { u64::MAX as int }
}

/// The price recorded for `asset`: the first entry for it in `prices`.
pub open spec fn price_in(prices: Seq<(String, u64)>, asset: Seq<char>) -> Option<u64>
    decreases prices.len(),
{
    if prices.len() == 0 {
        None
    } else if prices[0].0@ == asset {
        Some(prices[0].1)
    } else {
        price_in(prices.subrange(1, prices.len() as int), asset)
    }
}

/// Whether `j` is the position of the first asset of type `asset` in `basket`.
pub open spec fn is_first_of(basket: Seq<CollateralAsset>, asset: Seq<char>, j: int) -> bool {
    &&& 0 <= j < basket.len()
    &&& basket[j].asset_type@ == asset
    &&& forall|k: int| 0 <= k < j ==> (#[trigger] basket[k]).asset_type@ != asset
}

/// Whether `basket` holds an asset of type `asset`.
pub open spec fn holds_asset(basket: Seq<CollateralAsset>, asset: Seq<char>) -> bool {
    exists|j: int| 0 <= j < basket.len() && (#[trigger] basket[j]).asset_type@ == asset
}

/// The total value of `basket`.
pub open spec fn total_value(basket: Seq<CollateralAsset>) -> int
    decreases basket.len(),
{
    if basket.len() == 0 {
        0
    } else {
        total_value(basket.drop_last()) + basket.last().value_in_xfg
    }
}

/// Whether `asset` is one of the default basket's assets with the given
/// type and weight, holding nothing yet.
pub open spec fn is_empty_asset(asset: CollateralAsset, asset_type: Seq<char>, weight: u64) -> bool {
    &&& asset.asset_type@ == asset_type
    &&& asset.weight == weight
    &&& asset.amount == 0
    &&& asset.value_in_xfg == 0
    &&& asset.last_price_update == 0
}

/// `basket` after `amount` and `value` are added (saturating) to the first
/// asset of type `asset`, stamped `now`; unchanged when there is none.
pub open spec fn credited(
    basket: Seq<CollateralAsset>,
    asset: Seq<char>,
    amount: u64,
    value: u64,
    now: u64,
) -> Seq<CollateralAsset> {
    if holds_asset(basket, asset) {
        let j = choose|j: int| is_first_of(basket, asset, j);
        basket.update(
            j,
            CollateralAsset {
                amount: clamp64(basket[j].amount + amount) as u64,
                value_in_xfg: clamp64(basket[j].value_in_xfg + value) as u64,
                last_price_update: now,
                ..basket[j]
            },
        )
    } else {
        basket
    }
}

/// `basket` after each entry of `mix` is credited in turn, as amount and
/// value alike.
pub open spec fn credit_all(basket: Seq<CollateralAsset>, mix: Seq<(String, u64)>, now: u64) -> Seq<
    CollateralAsset,
>
    decreases mix.len(),
{
    if mix.len() == 0 {
        basket
    } else {
        credited(credit_all(basket, mix.drop_last(), now), mix.last().0@, mix.last().1, mix.last().1, now)
    }
}

/// The collateralization (in percent, saturating) of `basket` against
/// `supply` tokens priced at `target`; `previous` when there is no supply.
pub open spec fn ratio_of(basket: Seq<CollateralAsset>, supply: u64, target: u64, previous: u64) -> u64 {
    if supply * target > 0 {
        clamp64(clamp64(total_value(basket)) * 100 / (supply * target)) as u64
    } else {
        previous
    }
}

/// The value of `amount` units of an asset at `price`, saturating.
pub open spec fn collateral_value(amount: u64, price: u64) -> u64 {
    clamp64(amount * price / (PRICE_SCALE as int)) as u64
}

/// Tokens minted for collateral worth `value`: 95% of it at price `target`.
pub open spec fn minted_for(value: u64, target: u64) -> u64 {
    (value * MINT_SHARE_PERCENT / 100 / (target as int)) as u64
}

/// The redemption mix that splits `total` over `basket` by weight.
pub open spec fn optimal_mix(basket: Seq<CollateralAsset>, total: u64) -> Seq<(String, u64)> {
    Seq::new(
        basket.len(),
        |k: int| (basket[k].asset_type, clamp64(total * basket[k].weight / 100) as u64),
    )
}

/// What a rebalance at collateralization `ratio` calls for.
pub open spec fn rebalance_action(ratio: u64) -> RebalanceAction {
    if ratio + REBALANCE_THRESHOLD < TARGET_RATIO {
        RebalanceAction::IncreaseCollateral
    } else if ratio > TARGET_RATIO + REBALANCE_THRESHOLD {
        RebalanceAction::DecreaseCollateral
    } else {
        RebalanceAction::Hold
    }
}

/// The move from `old_price` to `new_price`, in whole percent of the old
/// price; zero when there was no price.
pub open spec fn deviation(old_price: u64, new_price: u64) -> int {
    if old_price > 0 {
        (if new_price >= old_price { new_price - old_price } else { old_price - new_price }) * 100
            / (old_price as int)
    } else {
        0
    }
}

/// Whether every price in `new_prices` stays within `threshold` percent of
/// the price recorded for its asset in `prices`.
pub open spec fn within_deviation(prices: Seq<(String, u64)>, new_prices: Seq<(String, u64)>, threshold: u64) -> bool {
    forall|k: int|
        0 <= k < new_prices.len() ==> match price_in(prices, (#[trigger] new_prices[k]).0@) {
            Some(p) => deviation(p, new_prices[k].1) <= threshold,
            None => true,
        }
}

/// Whether every parameter of `params` is named by one of `names`.
pub open spec fn all_named(params: Seq<(String, u64)>, names: Seq<Seq<char>>) -> bool {
    forall|k: int| 0 <= k < params.len() ==> names.contains((#[trigger] params[k]).0@)
}

/// The assets that a collateral-addition proposal with `params` adds: one
/// empty asset per parameter, named by it and weighted by its value.
pub open spec fn added_assets(params: Seq<(String, u64)>) -> Seq<CollateralAsset> {
    Seq::new(
        params.len(),
        |k: int|
            CollateralAsset {
                asset_type: params[k].0,
                amount: 0,
                value_in_xfg: 0,
                weight: params[k].1,
                last_price_update: 0,
            },
    )
}

/// There is only one first asset of a type.
pub proof fn lemma_first_unique(basket: Seq<CollateralAsset>, asset: Seq<char>, i: int, j: int)
    requires
        is_first_of(basket, asset, i),
        is_first_of(basket, asset, j),
    ensures
        i == j,
{
    if i < j {
        assert(basket[i].asset_type@ != asset);
    } else if j < i {
        assert(basket[j].asset_type@ != asset);
    }
}

/// Whether `s` is `name`.
fn is_named(s: &String, name: &str) -> (r: bool)
    ensures
        r == (s@ == name@),
{
    *s == name.to_string()
}

/// An empty basket asset of type `asset_type` and weight `weight`.
fn empty_asset(asset_type: &str, weight: u64) -> (r: CollateralAsset)
    ensures
        is_empty_asset(r, asset_type@, weight),
{
    CollateralAsset {
        asset_type: asset_type.to_string(),
        amount: 0,
        value_in_xfg: 0,
        weight,
        last_price_update: 0,
    }
}

impl DIGMStableToken {
    /// A token with no supply and no collateral, at 150% collateralization
    /// and a target price of 1000000.
    pub fn new(token_id: u64, governance: String) -> (r: Self)
        ensures
            r.token_id == token_id,
            r.total_supply == 0,
            r.collateral_ratio == INITIAL_COLLATERAL_RATIO,
            r.target_price_xfg == INITIAL_TARGET_PRICE,
            r.last_rebalance == 0,
            r.collateral@.len() == 0,
            r.governance == governance,
            !r.emergency_halt,
    {
        DIGMStableToken {
            token_id,
            total_supply: 0,
            collateral_ratio: INITIAL_COLLATERAL_RATIO,
            target_price_xfg: INITIAL_TARGET_PRICE,
            last_rebalance: 0,
            collateral: Vec::new(),
            governance,
            emergency_halt: false,
        }
    }

    /// Replaces the collateral with the default basket: XFG 40%, BTC 30%,
    /// ETH 20% and USDC 10%, each holding nothing.
    pub fn initialize_collateral_basket(&mut self)
        ensures
            final(self).collateral@.len() == 4,
            is_empty_asset(final(self).collateral@[0], "XFG"@, 40),
            is_empty_asset(final(self).collateral@[1], "BTC"@, 30),
            is_empty_asset(final(self).collateral@[2], "ETH"@, 20),
            is_empty_asset(final(self).collateral@[3], "USDC"@, 10),
            final(self).token_id == old(self).token_id,
            final(self).total_supply == old(self).total_supply,
            final(self).collateral_ratio == old(self).collateral_ratio,
            final(self).target_price_xfg == old(self).target_price_xfg,
            final(self).last_rebalance == old(self).last_rebalance,
            final(self).governance == old(self).governance,
            final(self).emergency_halt == old(self).emergency_halt,
    {
        let mut basket = CollateralBasket {
            assets: Vec::new(),
            total_value_xfg: 0,
            collateral_ratio: TARGET_RATIO,
            min_ratio: MIN_RATIO,
            max_ratio: MAX_RATIO,
            target_ratio: TARGET_RATIO,
        };
        basket.assets.push(empty_asset("XFG", 40));
        basket.assets.push(empty_asset("BTC", 30));
        basket.assets.push(empty_asset("ETH", 20));
        basket.assets.push(empty_asset("USDC", 10));
        self.collateral = basket.assets;
    }

    /// Whether the basket holds an asset of type `asset_type`.
    pub fn is_supported_asset(&self, asset_type: &String) -> (r: bool)
        ensures
            r == holds_asset(self.collateral@, asset_type@),
    {
        let mut i: usize = 0;
        while i < self.collateral.len()
            invariant
                i <= self.collateral@.len(),
                forall|k: int| 0 <= k < i ==> (#[trigger] self.collateral@[k]).asset_type@ != asset_type@,
            decreases self.collateral@.len() - i,
        {
            if self.collateral[i].asset_type == *asset_type {
                assert(self.collateral@[i as int].asset_type@ == asset_type@);
                return true;
            }
            i += 1;
        }
        false
    }

    /// Adds `amount` and `value_xfg` (saturating) to the first asset of
    /// type `asset_type` and stamps it `now`. Nothing happens for an asset
    /// the basket does not hold.
    fn update_collateral(&mut self, asset_type: &String, amount: u64, value_xfg: u64, now: u64)
        ensures
            final(self).collateral@ == credited(old(self).collateral@, asset_type@, amount, value_xfg, now),
            final(self).token_id == old(self).token_id,
            final(self).total_supply == old(self).total_supply,
            final(self).collateral_ratio == old(self).collateral_ratio,
            final(self).target_price_xfg == old(self).target_price_xfg,
            final(self).last_rebalance == old(self).last_rebalance,
            final(self).governance == old(self).governance,
            final(self).emergency_halt == old(self).emergency_halt,
    {
        let mut i: usize = 0;
        while i < self.collateral.len()
            invariant
                *self == *old(self),
                i <= self.collateral@.len(),
                forall|k: int| 0 <= k < i ==> (#[trigger] self.collateral@[k]).asset_type@ != asset_type@,
            decreases self.collateral@.len() - i,
        {
            if self.collateral[i].asset_type == *asset_type {
                proof {
                    assert(is_first_of(self.collateral@, asset_type@, i as int));
                    assert(holds_asset(self.collateral@, asset_type@));
                    let j = choose|j: int| is_first_of(self.collateral@, asset_type@, j);
                    lemma_first_unique(self.collateral@, asset_type@, i as int, j);
                }
                let collateral = &mut self.collateral[i];
                collateral.amount = collateral.amount.saturating_add(amount);
                collateral.value_in_xfg = collateral.value_in_xfg.saturating_add(value_xfg);
                collateral.last_price_update = now;
                return;
            }
            i += 1;
        }
    }

    /// Recomputes the collateralization from the basket's total value and the
    /// supply; kept as it is while there is no supply.
    fn update_collateral_ratio(&mut self)
        ensures
            *final(self) == (DIGMStableToken {
                collateral_ratio: ratio_of(
                    old(self).collateral@,
                    old(self).total_supply,
                    old(self).target_price_xfg,
                    old(self).collateral_ratio,
                ),
                ..*old(self)
            }),
    {
        let mut total_collateral_value: u64 = 0;
        let mut i: usize = 0;
        while i < self.collateral.len()
            invariant
                i <= self.collateral@.len(),
                total_collateral_value == clamp64(total_value(self.collateral@.subrange(0, i as int))),
            decreases self.collateral@.len() - i,
        {
            assert(self.collateral@.subrange(0, i + 1).drop_last() =~= self.collateral@.subrange(0, i as int));
            total_collateral_value = total_collateral_value.saturating_add(self.collateral[i].value_in_xfg);
            i += 1;
        }
        assert(self.collateral@.subrange(0, i as int) =~= self.collateral@);
        assert((self.total_supply as u128) * (self.target_price_xfg as u128) <= 0xffff_ffff_ffff_ffffu128
            * 0xffff_ffff_ffff_ffffu128) by (nonlinear_arith);
        let total_dst_value: u128 = self.total_supply as u128 * self.target_price_xfg as u128;
        if total_dst_value > 0 {
            let ratio: u128 = total_collateral_value as u128 * 100 / total_dst_value;
            self.collateral_ratio = if ratio > u64::MAX as u128 {
                u64::MAX
            } else {
                ratio as u64
            };
        }
    }

    /// Splits `total_value` over the basket by weight (saturating).
    fn calculate_optimal_asset_mix(&self, total_value: u64) -> (r: Vec<(String, u64)>)
        ensures
            r@ == optimal_mix(self.collateral@, total_value),
    {
        let mut mix: Vec<(String, u64)> = Vec::new();
        let mut i: usize = 0;
        while i < self.collateral.len()
            invariant
                i <= self.collateral@.len(),
                mix@ == optimal_mix(self.collateral@.subrange(0, i as int), total_value),
            decreases self.collateral@.len() - i,
        {
            let collateral = &self.collateral[i];
            assert((total_value as u128) * (collateral.weight as u128) <= 0xffff_ffff_ffff_ffffu128
                * 0xffff_ffff_ffff_ffffu128) by (nonlinear_arith);
            let share: u128 = total_value as u128 * collateral.weight as u128 / 100;
            let asset_value: u64 = if share > u64::MAX as u128 {
                u64::MAX
            } else {
                share as u64
            };
            mix.push((collateral.asset_type.clone(), asset_value));
            assert(mix@ =~= optimal_mix(self.collateral@.subrange(0, i + 1), total_value));
            i += 1;
        }
        assert(self.collateral@.subrange(0, i as int) =~= self.collateral@);
        mix
    }

    /// Mints tokens for `collateral_amount` of `asset_type` at the oracle's
    /// price, at time `now`: 95% of the collateral's value at the target
    /// price. Refused while halted, for an asset outside the basket or
    /// without a price, and below the minimum collateralization.
    pub fn mint_udst(
        &mut self,
        collateral_amount: u64,
        asset_type: String,
        user_address: String,
        price_oracle: &PriceOracle,
        now: u64,
    ) -> (r: Result<u64, TokenError>)
        requires
            old(self).target_price_xfg > 0,
        ensures
            old(self).emergency_halt ==> r == Err::<u64, TokenError>(TokenError::EmergencyHalt),
            !old(self).emergency_halt && !holds_asset(old(self).collateral@, asset_type@) ==> r == Err::<
                u64,
                TokenError,
            >(TokenError::UnsupportedAsset),
            !old(self).emergency_halt && holds_asset(old(self).collateral@, asset_type@) && price_in(
                price_oracle.prices@,
                asset_type@,
            ) is None ==> r == Err::<u64, TokenError>(TokenError::PriceUnavailable),
            !old(self).emergency_halt && holds_asset(old(self).collateral@, asset_type@) && price_in(
                price_oracle.prices@,
                asset_type@,
            ) is Some && old(self).collateral_ratio < MIN_RATIO ==> r == Err::<u64, TokenError>(
                TokenError::InsufficientCollateralization,
            ),
            r is Err ==> *final(self) == *old(self),
            !old(self).emergency_halt && holds_asset(old(self).collateral@, asset_type@) && price_in(
                price_oracle.prices@,
                asset_type@,
            ) is Some && old(self).collateral_ratio >= MIN_RATIO ==> {
                let price = price_in(price_oracle.prices@, asset_type@)->Some_0;
                let value = collateral_value(collateral_amount, price);
                let minted = minted_for(value, old(self).target_price_xfg);
                let supply = clamp64(old(self).total_supply + minted) as u64;
                &&& r == Ok::<u64, TokenError>(minted)
                &&& final(self).collateral@ == credited(
                    old(self).collateral@,
                    asset_type@,
                    collateral_amount,
                    value,
                    now,
                )
                &&& final(self).total_supply == supply
                &&& final(self).collateral_ratio == ratio_of(
                    final(self).collateral@,
                    supply,
                    old(self).target_price_xfg,
                    old(self).collateral_ratio,
                )
                &&& final(self).token_id == old(self).token_id
                &&& final(self).target_price_xfg == old(self).target_price_xfg
                &&& final(self).last_rebalance == old(self).last_rebalance
                &&& final(self).governance == old(self).governance
                &&& final(self).emergency_halt == old(self).emergency_halt
            },
    {
        if self.emergency_halt {
            return Err(TokenError::EmergencyHalt);
        }
        if !self.is_supported_asset(&asset_type) {
            return Err(TokenError::UnsupportedAsset);
        }
        let asset_price = match price_of(&price_oracle.prices, &asset_type) {
            Some(p) => p,
            None => return Err(TokenError::PriceUnavailable),
        };
        assert((collateral_amount as u128) * (asset_price as u128) <= 0xffff_ffff_ffff_ffffu128
            * 0xffff_ffff_ffff_ffffu128) by (nonlinear_arith);
        let raw_value: u128 = collateral_amount as u128 * asset_price as u128 / PRICE_SCALE as u128;
        let collateral_value_xfg: u64 = if raw_value > u64::MAX as u128 {
            u64::MAX
        } else {
            raw_value as u64
        };
        if self.collateral_ratio < self.get_min_ratio() {
            return Err(TokenError::InsufficientCollateralization);
        }
        let udst_to_mint: u128 = collateral_value_xfg as u128 * MINT_SHARE_PERCENT as u128 / 100;
        let udst_amount: u64 = (udst_to_mint / self.target_price_xfg as u128) as u64;
        assert(udst_to_mint / (self.target_price_xfg as u128) <= udst_to_mint) by (nonlinear_arith)
            requires
                self.target_price_xfg > 0,
        ;
        self.update_collateral(&asset_type, collateral_amount, collateral_value_xfg, now);
        self.total_supply = self.total_supply.saturating_add(udst_amount);
        self.update_collateral_ratio();
        Ok(udst_amount)
    }

    /// Redeems `udst_amount` tokens at time `now` for collateral worth
    /// `udst_amount` times the target price (saturating): all of it in the
    /// preferred asset when one is named, else split over the basket by
    /// weight. Each entry of the returned mix is credited to the basket.
    /// Refused while halted, beyond the supply, or for a preferred asset
    /// outside the basket.
    pub fn burn_udst(
        &mut self,
        udst_amount: u64,
        preferred_asset: Option<String>,
        user_address: String,
        price_oracle: &PriceOracle,
        now: u64,
    ) -> (r: Result<Vec<(String, u64)>, TokenError>)
        ensures
            old(self).emergency_halt ==> r == Err::<Vec<(String, u64)>, TokenError>(
                TokenError::EmergencyHalt,
            ),
            !old(self).emergency_halt && udst_amount > old(self).total_supply ==> r == Err::<
                Vec<(String, u64)>,
                TokenError,
            >(TokenError::InsufficientSupply),
            !old(self).emergency_halt && udst_amount <= old(self).total_supply
                && preferred_asset is Some && !holds_asset(
                old(self).collateral@,
                preferred_asset->Some_0@,
            ) ==> r == Err::<Vec<(String, u64)>, TokenError>(TokenError::UnsupportedPreferredAsset),
            r is Err ==> *final(self) == *old(self),
            !old(self).emergency_halt && udst_amount <= old(self).total_supply && (preferred_asset is None
                || holds_asset(old(self).collateral@, preferred_asset->Some_0@)) ==> {
                let value = clamp64(udst_amount * old(self).target_price_xfg) as u64;
                let mix = match preferred_asset {
                    Some(asset) => seq![(asset, value)],
                    None => optimal_mix(old(self).collateral@, value),
                };
                let supply = (old(self).total_supply - udst_amount) as u64;
                &&& r is Ok
                &&& r->Ok_0@ == mix
                &&& final(self).collateral@ == credit_all(old(self).collateral@, mix, now)
                &&& final(self).total_supply == supply
                &&& final(self).collateral_ratio == ratio_of(
                    final(self).collateral@,
                    supply,
                    old(self).target_price_xfg,
                    old(self).collateral_ratio,
                )
                &&& final(self).token_id == old(self).token_id
                &&& final(self).target_price_xfg == old(self).target_price_xfg
                &&& final(self).last_rebalance == old(self).last_rebalance
                &&& final(self).governance == old(self).governance
                &&& final(self).emergency_halt == old(self).emergency_halt
            },
    {
        if self.emergency_halt {
            return Err(TokenError::EmergencyHalt);
        }
        if udst_amount > self.total_supply {
            return Err(TokenError::InsufficientSupply);
        }
        assert((udst_amount as u128) * (self.target_price_xfg as u128) <= 0xffff_ffff_ffff_ffffu128
            * 0xffff_ffff_ffff_ffffu128) by (nonlinear_arith);
        let raw_value: u128 = udst_amount as u128 * self.target_price_xfg as u128;
        let collateral_value_xfg: u64 = if raw_value > u64::MAX as u128 {
            u64::MAX
        } else {
            raw_value as u64
        };
        let asset_mix: Vec<(String, u64)> = match preferred_asset {
            Some(asset) => {
                if self.is_supported_asset(&asset) {
                    let mut mix: Vec<(String, u64)> = Vec::new();
                    mix.push((asset, collateral_value_xfg));
                    mix
                } else {
                    return Err(TokenError::UnsupportedPreferredAsset);
                }
            },
            None => self.calculate_optimal_asset_mix(collateral_value_xfg),
        };
        let ghost before = self.collateral@;
        let mut i: usize = 0;
        while i < asset_mix.len()
            invariant
                i <= asset_mix@.len(),
                self.collateral@ == credit_all(before, asset_mix@.subrange(0, i as int), now),
                self.token_id == old(self).token_id,
                self.total_supply == old(self).total_supply,
                self.collateral_ratio == old(self).collateral_ratio,
                self.target_price_xfg == old(self).target_price_xfg,
                self.last_rebalance == old(self).last_rebalance,
                self.governance == old(self).governance,
                self.emergency_halt == old(self).emergency_halt,
            decreases asset_mix@.len() - i,
        {
            assert(asset_mix@.subrange(0, i + 1).drop_last() =~= asset_mix@.subrange(0, i as int));
            let entry = &asset_mix[i];
            self.update_collateral(&entry.0, entry.1, entry.1, now);
            i += 1;
        }
        assert(asset_mix@.subrange(0, i as int) =~= asset_mix@);
        self.total_supply = self.total_supply - udst_amount;
        self.update_collateral_ratio();
        Ok(asset_mix)
    }

    /// Records a rebalance at time `now` and says what the collateralization
    /// calls for: more collateral more than 5 points under the 150% target,
    /// less collateral more than 5 points over it, nothing otherwise.
    pub fn rebalance_collateral(&mut self, price_oracle: &PriceOracle, now: u64) -> (r: RebalanceAction)
        ensures
            r == rebalance_action(old(self).collateral_ratio),
            *final(self) == (DIGMStableToken { last_rebalance: now, ..*old(self) }),
    {
        let current_ratio = self.collateral_ratio;
        let target_ratio = self.get_target_ratio();
        let action = if current_ratio < target_ratio && target_ratio - current_ratio > REBALANCE_THRESHOLD {
            RebalanceAction::IncreaseCollateral
        } else if current_ratio > target_ratio && current_ratio - target_ratio > REBALANCE_THRESHOLD {
            RebalanceAction::DecreaseCollateral
        } else {
            RebalanceAction::Hold
        };
        self.last_rebalance = now;
        action
    }

    /// The lowest collateralization at which tokens may be minted.
    pub fn get_min_ratio(&self) -> (r: u64)
        ensures
            r == MIN_RATIO,
    {
        MIN_RATIO
    }

    /// The collateralization the token is steered towards.
    pub fn get_target_ratio(&self) -> (r: u64)
        ensures
            r == TARGET_RATIO,
    {
        TARGET_RATIO
    }

    /// Stops minting and burning.
    pub fn emergency_halt(&mut self, reason: String)
        ensures
            *final(self) == (DIGMStableToken { emergency_halt: true, ..*old(self) }),
    {
        self.emergency_halt = true;
    }

    /// Allows minting and burning again.
    pub fn resume_operations(&mut self)
        ensures
            *final(self) == (DIGMStableToken { emergency_halt: false, ..*old(self) }),
    {
        self.emergency_halt = false;
    }
}

impl PriceOracle {
    /// An oracle over four feeds, with no prices yet and a 5% deviation limit.
    pub fn new() -> (r: Self)
        ensures
            r.feeds@.len() == 4,
            r.feeds@[0]@ == "coingecko"@,
            r.feeds@[1]@ == "binance"@,
            r.feeds@[2]@ == "kraken"@,
            r.feeds@[3]@ == "chainlink"@,
            r.prices@.len() == 0,
            r.last_update == 0,
            r.deviation_threshold == DEVIATION_THRESHOLD,
    {
        let mut feeds: Vec<String> = Vec::new();
        feeds.push("coingecko".to_string());
        feeds.push("binance".to_string());
        feeds.push("kraken".to_string());
        feeds.push("chainlink".to_string());
        PriceOracle {
            feeds,
            prices: Vec::new(),
            last_update: 0,
            deviation_threshold: DEVIATION_THRESHOLD,
        }
    }

    /// Replaces the prices with `new_prices`, stamped `now`, unless some
    /// asset's price moves by more than the deviation threshold from the price
    /// on record.
    pub fn update_prices(&mut self, new_prices: Vec<(String, u64)>, now: u64) -> (r: Result<(), TokenError>)
        ensures
            within_deviation(old(self).prices@, new_prices@, old(self).deviation_threshold) ==> {
                &&& r == Ok::<(), TokenError>(())
                &&& final(self).prices == new_prices
                &&& final(self).last_update == now
                &&& final(self).feeds == old(self).feeds
                &&& final(self).deviation_threshold == old(self).deviation_threshold
            },
            !within_deviation(old(self).prices@, new_prices@, old(self).deviation_threshold) ==> {
                &&& r == Err::<(), TokenError>(TokenError::PriceDeviationTooHigh)
                &&& *final(self) == *old(self)
            },
    {
        let mut i: usize = 0;
        while i < new_prices.len()
            invariant
                i <= new_prices@.len(),
                forall|k: int|
                    0 <= k < i ==> match price_in(self.prices@, (#[trigger] new_prices@[k]).0@) {
                        Some(p) => deviation(p, new_prices@[k].1) <= self.deviation_threshold,
                        None => true,
                    },
            decreases new_prices@.len() - i,
        {
            let asset = &new_prices[i].0;
            let new_price: u64 = new_prices[i].1;
            if let Some(old_price) = price_of(&self.prices, asset) {
                let dev: u128 = if old_price > 0 {
                    let diff: u64 = if new_price >= old_price {
                        new_price - old_price
                    } else {
                        old_price - new_price
                    };
                    diff as u128 * 100 / old_price as u128
                } else {
                    0
                };
                if dev > self.deviation_threshold as u128 {
                    return Err(TokenError::PriceDeviationTooHigh);
                }
            }
            i += 1;
        }
        self.prices = new_prices;
        self.last_update = now;
        Ok(())
    }

    /// The price recorded for `asset`.
    pub fn get_median_price(&self, asset: &String) -> (r: Result<u64, TokenError>)
        ensures
            r == match price_in(self.prices@, asset@) {
                Some(p) => Ok::<u64, TokenError>(p),
                None => Err::<u64, TokenError>(TokenError::PriceUnavailable),
            },
    {
        match price_of(&self.prices, asset) {
            Some(p) => Ok(p),
            None => Err(TokenError::PriceUnavailable),
        }
    }
}

/// The price recorded for `asset` in `prices`.
fn price_of(prices: &Vec<(String, u64)>, asset: &String) -> (r: Option<u64>)
    ensures
        r == price_in(prices@, asset@),
{
    let mut i: usize = 0;
    assert(prices@.subrange(0, prices@.len() as int) =~= prices@);
    while i < prices.len()
        invariant
            i <= prices@.len(),
            price_in(prices@, asset@) == price_in(prices@.subrange(i as int, prices@.len() as int), asset@),
        decreases prices@.len() - i,
    {
        let ghost rest = prices@.subrange(i as int, prices@.len() as int);
        assert(rest.subrange(1, rest.len() as int) =~= prices@.subrange(i + 1, prices@.len() as int));
        if prices[i].0 == *asset {
            return Some(prices[i].1);
        }
        i += 1;
    }
    None
}

impl GovernanceProposal {
    /// A proposal with no votes, no deadline, not executed.
    pub fn new(
        proposal_id: u64,
        proposer: String,
        proposal_type: String,
        description: String,
        parameters: Vec<(String, u64)>,
    ) -> (r: Self)
        ensures
            r.proposal_id == proposal_id,
            r.proposer == proposer,
            r.proposal_type == proposal_type,
            r.description == description,
            r.parameters == parameters,
            r.votes_for == 0,
            r.votes_against == 0,
            r.voting_deadline == 0,
            !r.executed,
    {
        GovernanceProposal {
            proposal_id,
            proposer,
            proposal_type,
            description,
            parameters,
            votes_for: 0,
            votes_against: 0,
            voting_deadline: 0,
            executed: false,
        }
    }

    /// Adds `voting_power` to the votes for (`vote`) or against the proposal,
    /// at time `now`. Refused once executed or past a set deadline.
    pub fn vote(&mut self, voter: String, vote: bool, voting_power: u64, now: u64) -> (r: Result<(), TokenError>)
        requires
            vote ==> old(self).votes_for + voting_power <= u64::MAX,
            !vote ==> old(self).votes_against + voting_power <= u64::MAX,
        ensures
            old(self).executed ==> r == Err::<(), TokenError>(TokenError::AlreadyExecuted),
            !old(self).executed && old(self).voting_deadline > 0 && now > old(self).voting_deadline ==> r
                == Err::<(), TokenError>(TokenError::VotingDeadlinePassed),
            r is Err ==> *final(self) == *old(self),
            !old(self).executed && !(old(self).voting_deadline > 0 && now > old(self).voting_deadline) ==> {
                &&& r == Ok::<(), TokenError>(())
                &&& *final(self) == if vote {
                    GovernanceProposal { votes_for: (old(self).votes_for + voting_power) as u64, ..*old(self) }
                } else {
                    GovernanceProposal {
                        votes_against: (old(self).votes_against + voting_power) as u64,
                        ..*old(self)
                    }
                }
            },
    {
        if self.executed {
            return Err(TokenError::AlreadyExecuted);
        }
        if self.voting_deadline > 0 && now > self.voting_deadline {
            return Err(TokenError::VotingDeadlinePassed);
        }
        if vote {
            self.votes_for = self.votes_for + voting_power;
        } else {
            self.votes_against = self.votes_against + voting_power;
        }
        Ok(())
    }

    /// Applies an approved proposal to `dst_token` and marks it executed.
    /// A parameter change names only `target_ratio`, `min_ratio` and
    /// `max_ratio`; a fee adjustment only `minting_fee` and `burning_fee`;
    /// neither changes the token. A collateral addition appends one empty
    /// asset per parameter, weighted by its value. Refused when already
    /// executed, not approved, of another type, or naming anything else.
    pub fn execute(&mut self, dst_token: &mut DIGMStableToken) -> (r: Result<(), TokenError>)
        ensures
            old(self).executed ==> r == Err::<(), TokenError>(TokenError::AlreadyExecuted),
            !old(self).executed && old(self).votes_for <= old(self).votes_against ==> r == Err::<
                (),
                TokenError,
            >(TokenError::NotApproved),
            !old(self).executed && old(self).votes_for > old(self).votes_against ==> r == if old(
                self,
            ).proposal_type@ == "parameter_change"@ {
                if all_named(old(self).parameters@, seq!["target_ratio"@, "min_ratio"@, "max_ratio"@]) {
                    Ok::<(), TokenError>(())
                } else {
                    Err(TokenError::UnknownParameter)
                }
            } else if old(self).proposal_type@ == "collateral_addition"@ {
                Ok(())
            } else if old(self).proposal_type@ == "fee_adjustment"@ {
                if all_named(old(self).parameters@, seq!["minting_fee"@, "burning_fee"@]) {
                    Ok(())
                } else {
                    Err(TokenError::UnknownFeeType)
                }
            } else {
                Err(TokenError::UnknownProposalType)
            },
            r is Err ==> *final(self) == *old(self) && *final(dst_token) == *old(dst_token),
            r is Ok ==> {
                &&& *final(self) == (GovernanceProposal { executed: true, ..*old(self) })
                &&& final(dst_token).collateral@ == if old(self).proposal_type@ == "collateral_addition"@ {
                    old(dst_token).collateral@ + added_assets(old(self).parameters@)
                } else {
                    old(dst_token).collateral@
                }
                &&& final(dst_token).token_id == old(dst_token).token_id
                &&& final(dst_token).total_supply == old(dst_token).total_supply
                &&& final(dst_token).collateral_ratio == old(dst_token).collateral_ratio
                &&& final(dst_token).target_price_xfg == old(dst_token).target_price_xfg
                &&& final(dst_token).last_rebalance == old(dst_token).last_rebalance
                &&& final(dst_token).governance == old(dst_token).governance
                &&& final(dst_token).emergency_halt == old(dst_token).emergency_halt
            },
    {
        if self.executed {
            return Err(TokenError::AlreadyExecuted);
        }
        if self.votes_for <= self.votes_against {
            return Err(TokenError::NotApproved);
        }
        proof {
            reveal_strlit("parameter_change");
            reveal_strlit("collateral_addition");
            reveal_strlit("fee_adjustment");
            assert("parameter_change"@.len() == 16);
            assert("collateral_addition"@.len() == 19);
            assert("fee_adjustment"@.len() == 14);
        }
        if is_named(&self.proposal_type, "parameter_change") {
            if !self.execute_parameter_change() {
                return Err(TokenError::UnknownParameter);
            }
        } else if is_named(&self.proposal_type, "collateral_addition") {
            self.execute_collateral_addition(dst_token);
        } else if is_named(&self.proposal_type, "fee_adjustment") {
            if !self.execute_fee_adjustment() {
                return Err(TokenError::UnknownFeeType);
            }
        } else {
            return Err(TokenError::UnknownProposalType);
        }
        self.executed = true;
        Ok(())
    }

    /// Whether every parameter names a ratio that a parameter change may set.
    fn execute_parameter_change(&self) -> (r: bool)
        ensures
            r == all_named(self.parameters@, seq!["target_ratio"@, "min_ratio"@, "max_ratio"@]),
    {
        let ghost names = seq!["target_ratio"@, "min_ratio"@, "max_ratio"@];
        let mut i: usize = 0;
        while i < self.parameters.len()
            invariant
                names == seq!["target_ratio"@, "min_ratio"@, "max_ratio"@],
                i <= self.parameters@.len(),
                forall|k: int| 0 <= k < i ==> names.contains((#[trigger] self.parameters@[k]).0@),
            decreases self.parameters@.len() - i,
        {
            let parameter = &self.parameters[i].0;
            if is_named(parameter, "target_ratio") {
                assert(names[0] == parameter@);
            } else if is_named(parameter, "min_ratio") {
                assert(names[1] == parameter@);
            } else if is_named(parameter, "max_ratio") {
                assert(names[2] == parameter@);
            } else {
                assert(!names.contains(self.parameters@[i as int].0@));
                return false;
            }
            i += 1;
        }
        true
    }

    /// Appends one empty asset per parameter to `dst_token`'s basket.
    fn execute_collateral_addition(&self, dst_token: &mut DIGMStableToken)
        ensures
            final(dst_token).collateral@ == old(dst_token).collateral@ + added_assets(self.parameters@),
            final(dst_token).token_id == old(dst_token).token_id,
            final(dst_token).total_supply == old(dst_token).total_supply,
            final(dst_token).collateral_ratio == old(dst_token).collateral_ratio,
            final(dst_token).target_price_xfg == old(dst_token).target_price_xfg,
            final(dst_token).last_rebalance == old(dst_token).last_rebalance,
            final(dst_token).governance == old(dst_token).governance,
            final(dst_token).emergency_halt == old(dst_token).emergency_halt,
    {
        let mut i: usize = 0;
        while i < self.parameters.len()
            invariant
                i <= self.parameters@.len(),
                dst_token.collateral@ == old(dst_token).collateral@ + added_assets(
                    self.parameters@.subrange(0, i as int),
                ),
                dst_token.token_id == old(dst_token).token_id,
                dst_token.total_supply == old(dst_token).total_supply,
                dst_token.collateral_ratio == old(dst_token).collateral_ratio,
                dst_token.target_price_xfg == old(dst_token).target_price_xfg,
                dst_token.last_rebalance == old(dst_token).last_rebalance,
                dst_token.governance == old(dst_token).governance,
                dst_token.emergency_halt == old(dst_token).emergency_halt,
            decreases self.parameters@.len() - i,
        {
            let new_collateral = CollateralAsset {
                asset_type: self.parameters[i].0.clone(),
                amount: 0,
                value_in_xfg: 0,
                weight: self.parameters[i].1,
                last_price_update: 0,
            };
            dst_token.collateral.push(new_collateral);
            assert(dst_token.collateral@ =~= old(dst_token).collateral@ + added_assets(
                self.parameters@.subrange(0, i + 1),
            ));
            i += 1;
        }
        assert(self.parameters@.subrange(0, i as int) =~= self.parameters@);
    }

    /// Whether every parameter names a fee that a fee adjustment may set.
    fn execute_fee_adjustment(&self) -> (r: bool)
        ensures
            r == all_named(self.parameters@, seq!["minting_fee"@, "burning_fee"@]),
    {
        let ghost names = seq!["minting_fee"@, "burning_fee"@];
        let mut i: usize = 0;
        while i < self.parameters.len()
            invariant
                names == seq!["minting_fee"@, "burning_fee"@],
                i <= self.parameters@.len(),
                forall|k: int| 0 <= k < i ==> names.contains((#[trigger] self.parameters@[k]).0@),
            decreases self.parameters@.len() - i,
        {
            let fee_type = &self.parameters[i].0;
            if is_named(fee_type, "minting_fee") {
                assert(names[0] == fee_type@);
            } else if is_named(fee_type, "burning_fee") {
                assert(names[1] == fee_type@);
            } else {
                assert(!names.contains(self.parameters@[i as int].0@));
                return false;
            }
            i += 1;
        }
        true
    }
}

/// A token with the default collateral basket.
pub fn create_dst_token(token_id: u64, governance: String) -> (r: DIGMStableToken)
    ensures
        r.token_id == token_id,
        r.total_supply == 0,
        r.collateral_ratio == INITIAL_COLLATERAL_RATIO,
        r.target_price_xfg == INITIAL_TARGET_PRICE,
        r.last_rebalance == 0,
        r.governance == governance,
        !r.emergency_halt,
        r.collateral@.len() == 4,
        is_empty_asset(r.collateral@[0], "XFG"@, 40),
        is_empty_asset(r.collateral@[1], "BTC"@, 30),
        is_empty_asset(r.collateral@[2], "ETH"@, 20),
        is_empty_asset(r.collateral@[3], "USDC"@, 10),
{
    let mut dst = DIGMStableToken::new(token_id, governance);
    dst.initialize_collateral_basket();
    dst
}

/// An oracle over the four default feeds.
pub fn create_price_oracle() -> (r: PriceOracle)
    ensures
        r.feeds@.len() == 4,
        r.feeds@[0]@ == "coingecko"@,
        r.feeds@[1]@ == "binance"@,
        r.feeds@[2]@ == "kraken"@,
        r.feeds@[3]@ == "chainlink"@,
        r.prices@.len() == 0,
        r.last_update == 0,
        r.deviation_threshold == DEVIATION_THRESHOLD,
{
    PriceOracle::new()
}

/// A fresh proposal.
pub fn create_governance_proposal(
    proposal_id: u64,
    proposer: String,
    proposal_type: String,
    description: String,
    parameters: Vec<(String, u64)>,
) -> (r: GovernanceProposal)
    ensures
        r.proposal_id == proposal_id,
        r.proposer == proposer,
        r.proposal_type == proposal_type,
        r.description == description,
        r.parameters == parameters,
        r.votes_for == 0,
        r.votes_against == 0,
        r.voting_deadline == 0,
        !r.executed,
{
    GovernanceProposal::new(proposal_id, proposer, proposal_type, description, parameters)
}

} // verus!
