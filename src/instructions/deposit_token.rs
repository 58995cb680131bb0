use vstd::prelude::*;

use crate::address::{
    check_derivation, custody_seed_list, custody_seeds, derives, escrow_seed_list, escrow_seeds,
    item_seed_list, item_seeds,
};
use crate::errors::ErrorCode;
use crate::identity::Identity;
use crate::state::{
    holds_for, is_holding_for, Exhibition, ExhibitionItem, ExhibitionStatus, TokenAccount, Transfer,
};

verus! {

/// Bump seeds of the addresses derived when an item is deposited.
#[derive(Clone, Copy, Debug, PartialEq, Eq, Structural)]
pub struct DepositTokenSeedBumps {
    pub item: u8,
    pub token_account: u8,
}

/// The records of the instruction that consigns one item to an exhibition.
#[derive(Clone, Copy, Debug, PartialEq, Eq)]
pub struct DepositToken {
    pub program_id: Identity,
    pub exhibition: Exhibition,
    pub exhibition_key: Identity,
    /// The item record; `None` until it is created.
    pub exhibition_item: Option<ExhibitionItem>,
    pub exhibition_item_key: Identity,
    /// The escrow authority of the exhibition's property.
    pub escrow: Identity,
    /// The mint of the consigned token.
    pub deposited_token_mint: Identity,
    /// The custody account that will hold the consigned token.
    pub deposited_token_account: Identity,
    /// The signer, who must be the exhibition's exhibitor.
    pub exhibitor: Identity,
    pub exhibitor_account: TokenAccount,
}

impl DepositToken {
    /// The signer is the exhibitor, the exhibition is active, the item does
    /// not exist yet, the derived addresses match their seeds, and the
    /// exhibitor's account holds exactly the one token.
    pub open spec fn accounts_valid(&self, bumps: DepositTokenSeedBumps) -> bool {
        let e = self.exhibition;
        let mint = self.deposited_token_mint;
        &&& self.exhibitor@ == e.exhibitor@
        &&& e.status == ExhibitionStatus::Active
        &&& self.exhibition_item is None
        &&& derives(
            self.program_id@,
            item_seeds(self.exhibition_key@, mint@),
            bumps.item,
            self.exhibition_item_key@,
        )
        &&& derives(self.program_id@, escrow_seeds(e.property@), e.bumps.escrow, self.escrow@)
        &&& derives(
            self.program_id@,
            custody_seeds(mint@),
            bumps.token_account,
            self.deposited_token_account@,
        )
        &&& holds_for(self.exhibitor_account, mint, self.exhibitor)
        &&& self.exhibitor_account.amount == 1
    }

    /// The item record that a successful call creates.
    pub open spec fn consigned(&self, price: u64) -> ExhibitionItem {
        ExhibitionItem { exhibition: self.exhibition_key, mint: self.deposited_token_mint, price }
    }

    /// The move of the consigned token into custody.
    pub open spec fn custody_move(&self) -> Transfer {
        Transfer::Token {
            from: self.exhibitor_account.key,
            to: self.deposited_token_account,
            authority: self.exhibitor,
        }
    }
}

/// Consigns one token at `price`: creates its item record, moves it into
/// custody and counts it. Fails with `ConstraintViolation` when the records
/// are not as required, then with `ArithmeticError` when the count is full.
pub fn handler(ctx: &mut DepositToken, bumps: DepositTokenSeedBumps, price: u64) -> (r: Result<
    Vec<Transfer>,
    ErrorCode,
>)
    ensures
        !old(ctx).accounts_valid(bumps) ==> r == Err::<Vec<Transfer>, ErrorCode>(
            ErrorCode::ConstraintViolation,
        ),
        old(ctx).accounts_valid(bumps) && old(ctx).exhibition.n_pieces == u64::MAX ==> r == Err::<
            Vec<Transfer>,
            ErrorCode,
        >(ErrorCode::ArithmeticError),
        old(ctx).accounts_valid(bumps) && old(ctx).exhibition.n_pieces < u64::MAX ==> r is Ok,
        r matches Ok(t) ==> {
            &&& t@ == seq![old(ctx).custody_move()]
            &&& *final(ctx) == (DepositToken {
                exhibition: Exhibition {
                    n_pieces: (old(ctx).exhibition.n_pieces + 1) as u64,
                    ..old(ctx).exhibition
                },
                exhibition_item: Some(old(ctx).consigned(price)),
                ..*old(ctx)
            })
        },
        r is Err ==> *final(ctx) == *old(ctx),
{
    let property = ctx.exhibition.property;
    let mint = ctx.deposited_token_mint;
    let valid = ctx.exhibitor.same_as(&ctx.exhibition.exhibitor) && ctx.exhibition.status
        == ExhibitionStatus::Active && ctx.exhibition_item.is_none() && check_derivation(
        &ctx.program_id,
        item_seed_list(&ctx.exhibition_key, &mint),
        bumps.item,
        &ctx.exhibition_item_key,
    ) && check_derivation(
        &ctx.program_id,
        escrow_seed_list(&property),
        ctx.exhibition.bumps.escrow,
        &ctx.escrow,
    ) && check_derivation(
        &ctx.program_id,
        custody_seed_list(&mint),
        bumps.token_account,
        &ctx.deposited_token_account,
    ) && is_holding_for(&ctx.exhibitor_account, &mint, &ctx.exhibitor)
        && ctx.exhibitor_account.amount == 1;
    if !valid {
        return Err(ErrorCode::ConstraintViolation);
    }
    let count = match ctx.exhibition.n_pieces.checked_add(1) {
        Some(c) => c,
        None => return Err(ErrorCode::ArithmeticError),
    };
    ctx.exhibition.n_pieces = count;
    ctx.exhibition_item = Some(ExhibitionItem { exhibition: ctx.exhibition_key, mint, price });
    let mut transfers: Vec<Transfer> = Vec::new();
    transfers.push(
        Transfer::Token {
            from: ctx.exhibitor_account.key,
            to: ctx.deposited_token_account,
            authority: ctx.exhibitor,
        },
    );
    Ok(transfers)
}

} // verus!
