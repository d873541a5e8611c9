//! The life of an escrow: created, funded, and ended once, by settlement at
//! expiration or by early exercise.

use crate::error::ErrorCode;
use crate::fees::{compute_fee, deduct_fee, fee, lemma_fee_and_remainder, remainder};
use crate::keys::same_key;
use crate::state::{EscrowAccount, Governance, OptionType, Settlement, TokenAccount, Transfer};
use anchor_lang::prelude::Pubkey;
use vstd::prelude::*;

verus! {

/// What creating an escrow works on.
#[derive(Clone, Copy, Debug, PartialEq, Eq)]
pub struct InitializeEscrow {
    /// The record to fill. What it held before is of no account.
    pub escrow_account: EscrowAccount,
    /// Who creates the escrow, and signs for the fee.
    pub initializer: Pubkey,
    /// The holding account the fee is charged to.
    pub initializer_collateral_account: TokenAccount,
    /// The protocol's parameters as read at the start of the operation.
    pub governance: Governance,
}

/// What a deposit of collateral works on.
#[derive(Clone, Copy, Debug, PartialEq, Eq)]
pub struct DepositCollateral {
    pub escrow_account: EscrowAccount,
    /// Who deposits, and signs for the transfer.
    pub user: Pubkey,
    /// The holding account the collateral comes from.
    pub user_collateral_account: TokenAccount,
    /// The escrow's own holding account.
    pub escrow_collateral_account: TokenAccount,
}

/// What settlement and early exercise work on.
#[derive(Clone, Copy, Debug, PartialEq, Eq)]
pub struct SettleEscrow {
    pub escrow_account: EscrowAccount,
    /// The option holder's holding account, paid when the option ends in the
    /// money.
    pub user_collateral_account: TokenAccount,
    /// The escrow's own holding account, which every transfer here draws on.
    pub escrow_collateral_account: TokenAccount,
    /// The initializer's holding account, refunded when the option ends out
    /// of the money.
    pub initializer_collateral_account: TokenAccount,
    /// The identity that signs for transfers out of the escrow's holding
    /// account.
    pub escrow_authority: Pubkey,
    /// The protocol's parameters as read at the start of the operation.
    pub governance: Governance,
}

impl OptionType {
    /// Whether an option of this type may be exercised before it expires.
    /// Both types may: the contract terms carry no style that would forbid it.
    pub open spec fn spec_allows_early_exercise(self) -> bool {
        self == OptionType::Call || self == OptionType::Put
    }

    pub fn allows_early_exercise(&self) -> (allowed: bool)
        ensures
            allowed == self.spec_allows_early_exercise(),
    {
        match self {
            OptionType::Call => true,
            OptionType::Put => true,
        }
    }
}

impl EscrowAccount {
    /// Whether the fee at `fee_rate` can be taken out of the collateral.
    pub open spec fn fee_is_covered(self, fee_rate: u64) -> bool {
        fee(self.collateral_amount as nat, fee_rate as nat) <= self.collateral_amount
    }

    /// Why settlement at time `now` is refused, if it is. The checks apply in
    /// this order: the first that fails decides.
    pub open spec fn settle_refusal(self, fee_rate: u64, now: i64) -> Option<ErrorCode> {
        if self.is_exercised {
            Some(ErrorCode::OptionAlreadyExercised)
        } else if now < self.expiration {
            Some(ErrorCode::OptionNotExpired)
        } else if !self.fee_is_covered(fee_rate) {
            Some(ErrorCode::ArithmeticError)
        } else {
            None
        }
    }

    /// Why early exercise is refused, if it is. The expiration time plays no
    /// part.
    pub open spec fn exercise_refusal(self, fee_rate: u64) -> Option<ErrorCode> {
        if self.is_exercised {
            Some(ErrorCode::OptionAlreadyExercised)
        } else if !self.option_type.spec_allows_early_exercise() {
            Some(ErrorCode::CannotExerciseEarly)
        } else if !self.fee_is_covered(fee_rate) {
            Some(ErrorCode::ArithmeticError)
        } else {
            None
        }
    }
}

impl InitializeEscrow {
    /// The fee charged for creating an escrow over `collateral_amount` of
    /// `collateral_mint`: from the initializer's holding account to the fee
    /// collector.
    pub open spec fn fee_charge(self, collateral_amount: u64, collateral_mint: Pubkey) -> Transfer {
        Transfer {
            mint: collateral_mint,
            from: self.initializer_collateral_account.key,
            to: self.governance.fee_collector,
            authority: self.initializer,
            amount: fee(collateral_amount as nat, self.governance.fee_rate as nat) as u64,
        }
    }

    /// The same accounts once the escrow record holds the given terms.
    pub open spec fn created(
        self,
        option_type: OptionType,
        strike_price: u64,
        expiration: i64,
        collateral_amount: u64,
        collateral_mint: Pubkey,
    ) -> InitializeEscrow {
        InitializeEscrow {
            escrow_account: EscrowAccount {
                initializer_key: self.initializer,
                option_type,
                strike_price,
                expiration,
                collateral_amount,
                collateral_mint,
                is_exercised: false,
            },
            ..self
        }
    }
}

impl DepositCollateral {
    /// Whether the depositor's holding account is of the escrow's asset.
    pub open spec fn mint_matches(self) -> bool {
        self.user_collateral_account.mint == self.escrow_account.collateral_mint
    }

    /// The transfer that a deposit of `amount` asks for.
    pub open spec fn deposit(self, amount: u64) -> Transfer {
        Transfer {
            mint: self.escrow_account.collateral_mint,
            from: self.user_collateral_account.key,
            to: self.escrow_collateral_account.key,
            authority: self.user,
            amount,
        }
    }
}

impl SettleEscrow {
    /// The holding account the collateral goes to: the option holder's when
    /// the option is in the money, the initializer's when it is not.
    pub open spec fn beneficiary(self, is_itm: bool) -> Pubkey {
        if is_itm {
            self.user_collateral_account.key
        } else {
            self.initializer_collateral_account.key
        }
    }

    /// The transfers that end the escrow: the collateral less the fee to the
    /// beneficiary, then the fee to the fee collector, both out of the
    /// escrow's holding account and in the escrow's asset.
    pub open spec fn settlement(self, is_itm: bool) -> Settlement {
        let amount = self.escrow_account.collateral_amount as nat;
        let rate = self.governance.fee_rate as nat;
        Settlement {
            payout: Transfer {
                mint: self.escrow_account.collateral_mint,
                from: self.escrow_collateral_account.key,
                to: self.beneficiary(is_itm),
                authority: self.escrow_authority,
                amount: remainder(amount, rate) as u64,
            },
            fee: Transfer {
                mint: self.escrow_account.collateral_mint,
                from: self.escrow_collateral_account.key,
                to: self.governance.fee_collector,
                authority: self.escrow_authority,
                amount: fee(amount, rate) as u64,
            },
        }
    }

    /// The same accounts once the escrow is marked exercised.
    pub open spec fn settled(self) -> SettleEscrow {
        SettleEscrow { escrow_account: self.escrow_account.exercised(), ..self }
    }
}

/// Every option may be exercised early, whatever its type.
pub proof fn lemma_every_type_allows_early_exercise(option_type: OptionType)
    ensures
        option_type.spec_allows_early_exercise(),
{
}

/// At a rate of at most one hundred per cent the fee can always be taken out
/// of the collateral, so neither settlement nor early exercise is ever
/// refused on account of the amounts.
pub proof fn lemma_bounded_rate_covers_fee(escrow: EscrowAccount, fee_rate: u64, now: i64)
    requires
        fee_rate <= 10000,
    ensures
        escrow.fee_is_covered(fee_rate),
        escrow.settle_refusal(fee_rate, now) != Some(ErrorCode::ArithmeticError),
        escrow.exercise_refusal(fee_rate) != Some(ErrorCode::ArithmeticError),
{
    lemma_fee_and_remainder(escrow.collateral_amount as nat, fee_rate as nat);
}

/// An escrow that has been exercised refuses settlement with
/// `OptionAlreadyExercised`, at any time and at any fee rate, and early
/// exercise likewise.
pub proof fn lemma_exercised_escrow_stays_closed(escrow: EscrowAccount, fee_rate: u64, now: i64)
    requires
        escrow.is_exercised,
    ensures
        escrow.settle_refusal(fee_rate, now) == Some(ErrorCode::OptionAlreadyExercised),
        escrow.exercise_refusal(fee_rate) == Some(ErrorCode::OptionAlreadyExercised),
{
}

/// An escrow that has not been exercised refuses settlement with
/// `OptionNotExpired` at every time before its expiration, at any fee rate.
pub proof fn lemma_settlement_waits_for_expiration(escrow: EscrowAccount, fee_rate: u64, now: i64)
    requires
        !escrow.is_exercised,
        now < escrow.expiration,
    ensures
        escrow.settle_refusal(fee_rate, now) == Some(ErrorCode::OptionNotExpired),
{
}

/// An escrow ends once. Where settlement at `now` or early exercise is
/// granted, the record it leaves is exercised, keeps every term, and refuses
/// any later settlement or early exercise with `OptionAlreadyExercised`,
/// whatever the time or the fee rate then.
pub proof fn lemma_escrow_ends_once(
    escrow: EscrowAccount,
    fee_rate: u64,
    now: i64,
    later_fee_rate: u64,
    later: i64,
)
    requires
        escrow.settle_refusal(fee_rate, now) is None || escrow.exercise_refusal(fee_rate) is None,
    ensures
        !escrow.is_exercised,
        escrow.exercised().is_exercised,
        escrow.exercised() == (EscrowAccount { is_exercised: true, ..escrow }),
        escrow.exercised().settle_refusal(later_fee_rate, later) == Some(
            ErrorCode::OptionAlreadyExercised,
        ),
        escrow.exercised().exercise_refusal(later_fee_rate) == Some(
            ErrorCode::OptionAlreadyExercised,
        ),
{
}

/// The two transfers of a granted settlement share out the collateral
/// exactly: what is paid out and the fee add up to the collateral amount, and
/// both leave the escrow's holding account in the escrow's asset.
pub proof fn lemma_settlement_shares_out_collateral(ctx: SettleEscrow, is_itm: bool)
    requires
        ctx.escrow_account.fee_is_covered(ctx.governance.fee_rate),
    ensures
        ctx.settlement(is_itm).payout.amount + ctx.settlement(is_itm).fee.amount
            == ctx.escrow_account.collateral_amount,
        ctx.settlement(is_itm).fee.amount == fee(
            ctx.escrow_account.collateral_amount as nat,
            ctx.governance.fee_rate as nat,
        ),
        ctx.settlement(is_itm).payout.mint == ctx.escrow_account.collateral_mint,
        ctx.settlement(is_itm).fee.mint == ctx.escrow_account.collateral_mint,
        ctx.settlement(is_itm).payout.from == ctx.escrow_collateral_account.key,
        ctx.settlement(is_itm).fee.from == ctx.escrow_collateral_account.key,
{
}

/// Ends an escrow that the caller has found fit to end: takes the fee out of
/// the collateral, names the two transfers and sets the exercise flag.
fn close_escrow(ctx: &mut SettleEscrow, is_itm: bool) -> (result: Result<Settlement, ErrorCode>)
    ensures
        match result {
            Ok(settlement) => {
                &&& old(ctx).escrow_account.fee_is_covered(old(ctx).governance.fee_rate)
                &&& settlement == old(ctx).settlement(is_itm)
                &&& *final(ctx) == old(ctx).settled()
            },
            Err(e) => {
                &&& e == ErrorCode::ArithmeticError
                &&& !old(ctx).escrow_account.fee_is_covered(old(ctx).governance.fee_rate)
                &&& *final(ctx) == *old(ctx)
            },
        },
{
    let split = match deduct_fee(ctx.escrow_account.collateral_amount, ctx.governance.fee_rate) {
        Ok(split) => split,
        Err(e) => {
            return Err(e);
        },
    };
    let to = if is_itm {
        ctx.user_collateral_account.key
    } else {
        ctx.initializer_collateral_account.key
    };
    let payout = Transfer {
        mint: ctx.escrow_account.collateral_mint,
        from: ctx.escrow_collateral_account.key,
        to,
        authority: ctx.escrow_authority,
        amount: split.remainder,
    };
    let fee = Transfer {
        mint: ctx.escrow_account.collateral_mint,
        from: ctx.escrow_collateral_account.key,
        to: ctx.governance.fee_collector,
        authority: ctx.escrow_authority,
        amount: split.fee,
    };
    ctx.escrow_account.is_exercised = true;
    Ok(Settlement { payout, fee })
}

/// Settles an escrow at time `now`.
///
/// Refused with `OptionAlreadyExercised` where the escrow has ended before,
/// else with `OptionNotExpired` where `now` is before the expiration time,
/// else with `ArithmeticError` where the fee exceeds the collateral. A refused
/// call changes nothing. Otherwise the escrow is marked exercised and the
/// result names the transfers to carry out: the collateral less the fee to the
/// option holder if `is_itm`, to the initializer if not, and the fee to the
/// fee collector. The new record is to be kept only if the ledger carries out
/// both.
pub fn settle_escrow(
    ctx: &mut SettleEscrow,
    is_itm: bool,
    now: i64,
) -> (result: Result<Settlement, ErrorCode>)
    ensures
        match result {
            Ok(settlement) => {
                &&& old(ctx).escrow_account.settle_refusal(old(ctx).governance.fee_rate, now)
                    is None
                &&& settlement == old(ctx).settlement(is_itm)
                &&& *final(ctx) == old(ctx).settled()
            },
            Err(e) => {
                &&& old(ctx).escrow_account.settle_refusal(old(ctx).governance.fee_rate, now)
                    == Some(e)
                &&& *final(ctx) == *old(ctx)
            },
        },
        old(ctx).escrow_account.is_exercised ==> result == Err::<Settlement, ErrorCode>(
            ErrorCode::OptionAlreadyExercised,
        ),
        !old(ctx).escrow_account.is_exercised && now < old(ctx).escrow_account.expiration
            ==> result == Err::<Settlement, ErrorCode>(ErrorCode::OptionNotExpired),
        !old(ctx).escrow_account.is_exercised && now >= old(ctx).escrow_account.expiration
            && old(ctx).governance.rate_in_bounds() ==> result is Ok,
        result matches Ok(settlement) ==> final(ctx).escrow_account.is_exercised
            && settlement.payout.amount + settlement.fee.amount
            == old(ctx).escrow_account.collateral_amount,
        old(ctx).escrow_account.is_exercised ==> final(ctx).escrow_account.is_exercised,
        final(ctx).escrow_account.collateral_amount == old(ctx).escrow_account.collateral_amount,
{
    proof {
        if ctx.governance.fee_rate <= 10000 {
            lemma_bounded_rate_covers_fee(ctx.escrow_account, ctx.governance.fee_rate, now);
        }
    }
    if ctx.escrow_account.is_exercised {
        return Err(ErrorCode::OptionAlreadyExercised);
    }
    if now < ctx.escrow_account.expiration {
        return Err(ErrorCode::OptionNotExpired);
    }
    close_escrow(ctx, is_itm)
}

/// Exercises an option before it expires.
///
/// As `settle_escrow`, but the expiration time is not looked at; in its place
/// stands the question whether the option's type allows early exercise, which
/// both types do.
pub fn exercise_early(
    ctx: &mut SettleEscrow,
    is_itm: bool,
) -> (result: Result<Settlement, ErrorCode>)
    ensures
        match result {
            Ok(settlement) => {
                &&& old(ctx).escrow_account.exercise_refusal(old(ctx).governance.fee_rate)
                    is None
                &&& settlement == old(ctx).settlement(is_itm)
                &&& *final(ctx) == old(ctx).settled()
            },
            Err(e) => {
                &&& old(ctx).escrow_account.exercise_refusal(old(ctx).governance.fee_rate)
                    == Some(e)
                &&& *final(ctx) == *old(ctx)
            },
        },
        old(ctx).escrow_account.is_exercised ==> result == Err::<Settlement, ErrorCode>(
            ErrorCode::OptionAlreadyExercised,
        ),
        result != Err::<Settlement, ErrorCode>(ErrorCode::CannotExerciseEarly),
        !old(ctx).escrow_account.is_exercised && old(ctx).governance.rate_in_bounds()
            ==> result is Ok,
        result matches Ok(settlement) ==> final(ctx).escrow_account.is_exercised
            && settlement.payout.amount + settlement.fee.amount
            == old(ctx).escrow_account.collateral_amount,
        old(ctx).escrow_account.is_exercised ==> final(ctx).escrow_account.is_exercised,
        final(ctx).escrow_account.collateral_amount == old(ctx).escrow_account.collateral_amount,
{
    proof {
        if ctx.governance.fee_rate <= 10000 {
            lemma_bounded_rate_covers_fee(ctx.escrow_account, ctx.governance.fee_rate, 0);
        }
    }
    if ctx.escrow_account.is_exercised {
        return Err(ErrorCode::OptionAlreadyExercised);
    }
    if !ctx.escrow_account.option_type.allows_early_exercise() {
        return Err(ErrorCode::CannotExerciseEarly);
    }
    close_escrow(ctx, is_itm)
}

/// Creates an escrow with the given terms and charges the creation fee.
///
/// The record is filled with the terms, the initializer's identity and a
/// cleared exercise flag, and the result is the transfer of the fee on
/// `collateral_amount` from the initializer's holding account to the fee
/// collector. The record is to be kept only if the ledger carries the
/// transfer out. Refused with `ArithmeticError`, and nothing changed, where
/// the fee does not fit in 64 bits.
pub fn initialize_escrow(
    ctx: &mut InitializeEscrow,
    option_type: OptionType,
    strike_price: u64,
    expiration: i64,
    collateral_amount: u64,
    collateral_mint: Pubkey,
) -> (result: Result<Transfer, ErrorCode>)
    ensures
        match result {
            Ok(charge) => {
                &&& fee(collateral_amount as nat, old(ctx).governance.fee_rate as nat)
                    <= u64::MAX
                &&& charge == old(ctx).fee_charge(collateral_amount, collateral_mint)
                &&& *final(ctx) == old(ctx).created(
                    option_type,
                    strike_price,
                    expiration,
                    collateral_amount,
                    collateral_mint,
                )
            },
            Err(e) => {
                &&& e == ErrorCode::ArithmeticError
                &&& fee(collateral_amount as nat, old(ctx).governance.fee_rate as nat)
                    > u64::MAX
                &&& *final(ctx) == *old(ctx)
            },
        },
        old(ctx).governance.rate_in_bounds() ==> result is Ok,
{
    let charged: u64 = match compute_fee(collateral_amount, ctx.governance.fee_rate) {
        Ok(charged) => charged,
        Err(e) => {
            return Err(e);
        },
    };
    ctx.escrow_account.initializer_key = ctx.initializer;
    ctx.escrow_account.option_type = option_type;
    ctx.escrow_account.strike_price = strike_price;
    ctx.escrow_account.expiration = expiration;
    ctx.escrow_account.collateral_amount = collateral_amount;
    ctx.escrow_account.collateral_mint = collateral_mint;
    ctx.escrow_account.is_exercised = false;
    Ok(
        Transfer {
            mint: collateral_mint,
            from: ctx.initializer_collateral_account.key,
            to: ctx.governance.fee_collector,
            authority: ctx.initializer,
            amount: charged,
        },
    )
}

/// Asks for `amount` of collateral to be moved from the depositor's holding
/// account into the escrow's.
///
/// Refused with `IncorrectCollateralMint` exactly where the depositor's
/// holding account is of another asset than the escrow's collateral; no
/// transfer is asked for then. Neither the amount nor earlier deposits are
/// held against the collateral the escrow was created with.
pub fn deposit_collateral(
    ctx: &DepositCollateral,
    amount: u64,
) -> (result: Result<Transfer, ErrorCode>)
    ensures
        match result {
            Ok(transfer) => ctx.mint_matches() && transfer == ctx.deposit(amount),
            Err(e) => e == ErrorCode::IncorrectCollateralMint && !ctx.mint_matches(),
        },
{
    if !same_key(&ctx.user_collateral_account.mint, &ctx.escrow_account.collateral_mint) {
        return Err(ErrorCode::IncorrectCollateralMint);
    }
    Ok(
        Transfer {
            mint: ctx.escrow_account.collateral_mint,
            from: ctx.user_collateral_account.key,
            to: ctx.escrow_collateral_account.key,
            authority: ctx.user,
            amount,
        },
    )
}

} // verus!
