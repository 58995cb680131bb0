//! Properties that relate several instructions, or hold of every input.

use vstd::prelude::*;

use crate::fees::{bps_share, split_computable, split_of};
use crate::instructions::buy_token::{BuyToken, BuyTokenSeedBumps};
use crate::instructions::cancel_exhibition::CancelExhibition;
use crate::instructions::close_exhibition::CloseExhibition;
use crate::instructions::deposit_token::{DepositToken, DepositTokenSeedBumps};
use crate::state::Transfer;

verus! {

/// When the two fee rates together stay within 10000 bps, the split of any
/// price fails only if a product overflows, and the exhibitor's remainder
/// makes the three amounts add up to the price exactly.
pub proof fn lemma_split_adds_up(price: u64, renter_fee: u16, platform_fee: u16)
    requires
        renter_fee + platform_fee <= 10000,
    ensures
        split_computable(price, renter_fee, platform_fee) <==> (price * renter_fee <= u64::MAX
            && price * platform_fee <= u64::MAX),
        ({
            let s = split_of(price, renter_fee, platform_fee);
            s.renter_amount + s.platform_amount + s.exhibitor_amount == price
        }),
{
    let x = price as int * renter_fee as int;
    let y = price as int * platform_fee as int;
    vstd::arithmetic::div_mod::lemma_fundamental_div_mod(x, 10000);
    vstd::arithmetic::div_mod::lemma_fundamental_div_mod(y, 10000);
    assert(0 <= x && 0 <= y && x + y <= price * 10000) by (nonlinear_arith)
        requires
            x == price as int * renter_fee as int,
            y == price as int * platform_fee as int,
            renter_fee + platform_fee <= 10000,
            price >= 0,
            renter_fee >= 0,
            platform_fee >= 0,
    ;
    assert(bps_share(price as int, renter_fee as int) == x / 10000);
    assert(bps_share(price as int, platform_fee as int) == y / 10000);
}

/// A close by the exhibition's renter succeeds exactly when no item is left.
pub proof fn lemma_close_iff_empty(ctx: CloseExhibition)
    requires
        ctx.exhibition matches Some(e) && e.renter@ == ctx.renter@,
    ensures
        ctx.accounts_valid() <==> ctx.exhibition->Some_0.n_pieces == 0,
{
}

/// After a sale the item record is gone and the token has gone to the
/// buyer's account, so a second purchase of the item is refused.
pub proof fn lemma_sold_item_cannot_be_bought_again(
    ctx: BuyToken,
    bumps: BuyTokenSeedBumps,
    again: BuyTokenSeedBumps,
)
    requires
        ctx.accounts_valid(bumps),
        ctx.arithmetic_ok(),
    ensures
        ctx.sold().exhibition_item is None,
        ctx.sold().exhibition.n_pieces == ctx.exhibition.n_pieces - 1,
        ctx.legs().last() == (Transfer::Token {
            from: ctx.deposited_token_account,
            to: ctx.buyer_account.key,
            authority: ctx.escrow,
        }),
        !ctx.sold().accounts_valid(again),
{
}

/// Once an exhibition is cancelled, no item can be deposited into it.
pub proof fn lemma_no_deposit_after_cancel(
    cancel: CancelExhibition,
    deposit: DepositToken,
    bumps: DepositTokenSeedBumps,
)
    requires
        deposit.exhibition == cancel.cancelled(),
    ensures
        !deposit.accounts_valid(bumps),
{
}

} // verus!
