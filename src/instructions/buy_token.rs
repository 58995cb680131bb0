use vstd::prelude::*;

use crate::address::{check_derivation, custody_seed_list, custody_seeds, derives, escrow_seed_list, escrow_seeds};
use crate::errors::ErrorCode;
use crate::fees::{split_computable, split_of, split_price};
use crate::identity::Identity;
use crate::instructions::withdraw_token::{is_item_linked, item_linked};
use crate::state::{holds_for, is_holding_for, Exhibition, ExhibitionItem, State, TokenAccount, Transfer};

verus! {

/// Bump seeds supplied with a purchase. The custody account's is checked;
/// the item record is identified by its contents, not by its address.
#[derive(Clone, Copy, Debug, PartialEq, Eq, Structural)]
pub struct BuyTokenSeedBumps {
    pub item: u8,
    pub token_account: u8,
}

/// The records of the instruction that sells one consigned item.
#[derive(Clone, Copy, Debug, PartialEq, Eq)]
pub struct BuyToken {
    pub program_id: Identity,
    pub state: State,
    pub exhibition: Exhibition,
    pub exhibition_key: Identity,
    /// The wallet that receives the exhibitor's share.
    pub exhibitor: Identity,
    /// The item record; `None` once it is destroyed.
    pub exhibition_item: Option<ExhibitionItem>,
    /// The escrow authority of the exhibition's property.
    pub escrow: Identity,
    pub deposited_token_mint: Identity,
    /// The custody account that holds the token.
    pub deposited_token_account: Identity,
    /// The signer, who pays.
    pub buyer: Identity,
    /// The buyer's account that receives the token.
    pub buyer_account: TokenAccount,
    /// The wallet that receives the renter's share.
    pub renter: Identity,
    /// The wallet that receives the platform's share.
    pub dao: Identity,
}

impl BuyToken {
    /// The item is linked to the exhibition and the token, each payee is the
    /// party the records name, the buyer's account takes the token, and the
    /// escrow and custody addresses match their seeds.
    pub open spec fn accounts_valid(&self, bumps: BuyTokenSeedBumps) -> bool {
        let e = self.exhibition;
        &&& item_linked(self.exhibition_item, self.exhibition_key, self.deposited_token_mint)
        &&& self.exhibitor@ == e.exhibitor@
        &&& self.renter@ == e.renter@
        &&& self.dao@ == self.state.fee_earner@
        &&& holds_for(self.buyer_account, self.deposited_token_mint, self.buyer)
        &&& derives(self.program_id@, escrow_seeds(e.property@), e.bumps.escrow, self.escrow@)
        &&& derives(
            self.program_id@,
            custody_seeds(self.deposited_token_mint@),
            bumps.token_account,
            self.deposited_token_account@,
        )
    }

    /// The price of the item on sale.
    pub open spec fn price(&self) -> u64 {
        self.exhibition_item->Some_0.price
    }

    /// Whether the count can be lowered and the price split in 64-bit arithmetic.
    pub open spec fn arithmetic_ok(&self) -> bool {
        self.exhibition.n_pieces > 0 && split_computable(
            self.price(),
            self.exhibition.renter_fee,
            self.state.fee_amount,
        )
    }

    /// The records after a sale: the item is gone and uncounted.
    pub open spec fn sold(&self) -> BuyToken {
        BuyToken {
            exhibition: Exhibition { n_pieces: (self.exhibition.n_pieces - 1) as u64, ..self.exhibition },
            exhibition_item: None,
            ..*self
        }
    }

    /// The three payments and the token move of a sale, in the order they are made.
    pub open spec fn legs(&self) -> Seq<Transfer> {
        let s = split_of(self.price(), self.exhibition.renter_fee, self.state.fee_amount);
        seq![
            Transfer::Lamports { from: self.buyer, to: self.exhibitor, amount: s.exhibitor_amount },
            Transfer::Lamports { from: self.buyer, to: self.renter, amount: s.renter_amount },
            Transfer::Lamports { from: self.buyer, to: self.dao, amount: s.platform_amount },
            Transfer::Token {
                from: self.deposited_token_account,
                to: self.buyer_account.key,
                authority: self.escrow,
            },
        ]
    }
}

/// Sells the item to the buyer: splits its price among exhibitor, renter and
/// platform, moves the token from custody to the buyer, uncounts the item
/// and destroys its record. Fails with `ConstraintViolation` when the records
/// are not as required, then with `ArithmeticError` when the count is zero
/// or the split overflows.
pub fn handler(ctx: &mut BuyToken, bumps: BuyTokenSeedBumps) -> (r: Result<Vec<Transfer>, ErrorCode>)
    ensures
        !old(ctx).accounts_valid(bumps) ==> r == Err::<Vec<Transfer>, ErrorCode>(
            ErrorCode::ConstraintViolation,
        ),
        old(ctx).accounts_valid(bumps) && !old(ctx).arithmetic_ok() ==> r == Err::<
            Vec<Transfer>,
            ErrorCode,
        >(ErrorCode::ArithmeticError),
        old(ctx).accounts_valid(bumps) && old(ctx).arithmetic_ok() ==> r is Ok,
        r matches Ok(t) ==> {
            &&& t@ == old(ctx).legs()
            &&& *final(ctx) == old(ctx).sold()
        },
        r is Err ==> *final(ctx) == *old(ctx),
{
    let property = ctx.exhibition.property;
    let mint = ctx.deposited_token_mint;
    let valid = is_item_linked(&ctx.exhibition_item, &ctx.exhibition_key, &mint)
        && ctx.exhibitor.same_as(&ctx.exhibition.exhibitor) && ctx.renter.same_as(
        &ctx.exhibition.renter,
    ) && ctx.dao.same_as(&ctx.state.fee_earner) && is_holding_for(
        &ctx.buyer_account,
        &mint,
        &ctx.buyer,
    ) && check_derivation(
        &ctx.program_id,
        escrow_seed_list(&property),
        ctx.exhibition.bumps.escrow,
        &ctx.escrow,
    ) && check_derivation(
        &ctx.program_id,
        custody_seed_list(&mint),
        bumps.token_account,
        &ctx.deposited_token_account,
    );
    if !valid {
        return Err(ErrorCode::ConstraintViolation);
    }
    let price = match &ctx.exhibition_item {
        Some(i) => i.price,
        None => return Err(ErrorCode::ConstraintViolation),
    };
    let count = match ctx.exhibition.n_pieces.checked_sub(1) {
        Some(c) => c,
        None => return Err(ErrorCode::ArithmeticError),
    };
    let split = match split_price(price, ctx.exhibition.renter_fee, ctx.state.fee_amount) {
        Ok(s) => s,
        Err(e) => return Err(e),
    };
    ctx.exhibition.n_pieces = count;
    ctx.exhibition_item = None;
    let mut transfers: Vec<Transfer> = Vec::new();
    transfers.push(
        Transfer::Lamports { from: ctx.buyer, to: ctx.exhibitor, amount: split.exhibitor_amount },
    );
    transfers.push(
        Transfer::Lamports { from: ctx.buyer, to: ctx.renter, amount: split.renter_amount },
    );
    transfers.push(Transfer::Lamports { from: ctx.buyer, to: ctx.dao, amount: split.platform_amount });
    transfers.push(
        Transfer::Token {
            from: ctx.deposited_token_account,
            to: ctx.buyer_account.key,
            authority: ctx.escrow,
        },
    );
    assert(transfers@ =~= old(ctx).legs());
    Ok(transfers)
}

} // verus!
