use vstd::prelude::*;

use crate::address::{check_derivation, custody_seed_list, custody_seeds, derives, escrow_seed_list, escrow_seeds};
use crate::errors::ErrorCode;
use crate::identity::Identity;
use crate::state::{holds_for, is_holding_for, Exhibition, ExhibitionItem, TokenAccount, Transfer};

verus! {

/// Bump seed of the custody account of the withdrawn token.
#[derive(Clone, Copy, Debug, PartialEq, Eq, Structural)]
pub struct WithdrawTokenSeedBumps {
    pub token_account: u8,
}

/// The records of the instruction that returns a consigned item to the exhibitor.
#[derive(Clone, Copy, Debug, PartialEq, Eq)]
pub struct WithdrawToken {
    pub program_id: Identity,
    pub exhibition: Exhibition,
    pub exhibition_key: Identity,
    /// The signer, who must be the exhibition's exhibitor.
    pub exhibitor: Identity,
    /// The exhibitor's account that receives the token.
    pub exhibitor_account: TokenAccount,
    /// The item record; `None` once it is destroyed.
    pub exhibition_item: Option<ExhibitionItem>,
    /// The escrow authority of the exhibition's property.
    pub escrow: Identity,
    pub deposited_token_mint: Identity,
    /// The custody account that holds the token.
    pub deposited_token_account: Identity,
}

/// Whether `item` exists, belongs to the exhibition at `exhibition_key` and
/// is a token of `mint`.
pub open spec fn item_linked(item: Option<ExhibitionItem>, exhibition_key: Identity, mint: Identity) -> bool {
    item matches Some(i) && i.exhibition@ == exhibition_key@ && i.mint@ == mint@
}

/// Checks that `item` exists, belongs to the exhibition and is a token of `mint`.
pub fn is_item_linked(item: &Option<ExhibitionItem>, exhibition_key: &Identity, mint: &Identity) -> (r:
    bool)
    ensures
        r == item_linked(*item, *exhibition_key, *mint),
{
    match item {
        Some(i) => i.exhibition.same_as(exhibition_key) && i.mint.same_as(mint),
        None => false,
    }
}

impl WithdrawToken {
    /// The signer is the exhibitor, the item is linked to the exhibition and
    /// the token, and the escrow and custody addresses match their seeds.
    pub open spec fn accounts_valid(&self, bumps: WithdrawTokenSeedBumps) -> bool {
        let e = self.exhibition;
        &&& self.exhibitor@ == e.exhibitor@
        &&& holds_for(self.exhibitor_account, self.deposited_token_mint, self.exhibitor)
        &&& item_linked(self.exhibition_item, self.exhibition_key, self.deposited_token_mint)
        &&& derives(self.program_id@, escrow_seeds(e.property@), e.bumps.escrow, self.escrow@)
        &&& derives(
            self.program_id@,
            custody_seeds(self.deposited_token_mint@),
            bumps.token_account,
            self.deposited_token_account@,
        )
    }

    /// The return of the token from custody, signed by the escrow.
    pub open spec fn return_move(&self) -> Transfer {
        Transfer::Token {
            from: self.deposited_token_account,
            to: self.exhibitor_account.key,
            authority: self.escrow,
        }
    }
}

/// Returns a consigned token to the exhibitor, destroys its item record and
/// uncounts it. Fails with `ConstraintViolation` when the records are not as
/// required, then with `ArithmeticError` when the count is already zero.
pub fn handler(ctx: &mut WithdrawToken, bumps: WithdrawTokenSeedBumps) -> (r: Result<
    Vec<Transfer>,
    ErrorCode,
>)
    ensures
        !old(ctx).accounts_valid(bumps) ==> r == Err::<Vec<Transfer>, ErrorCode>(
            ErrorCode::ConstraintViolation,
        ),
        old(ctx).accounts_valid(bumps) && old(ctx).exhibition.n_pieces == 0 ==> r == Err::<
            Vec<Transfer>,
            ErrorCode,
        >(ErrorCode::ArithmeticError),
        old(ctx).accounts_valid(bumps) && old(ctx).exhibition.n_pieces > 0 ==> r is Ok,
        r matches Ok(t) ==> {
            &&& t@ == seq![old(ctx).return_move()]
            &&& *final(ctx) == (WithdrawToken {
                exhibition: Exhibition {
                    n_pieces: (old(ctx).exhibition.n_pieces - 1) as u64,
                    ..old(ctx).exhibition
                },
                exhibition_item: None,
                ..*old(ctx)
            })
        },
        r is Err ==> *final(ctx) == *old(ctx),
{
    let property = ctx.exhibition.property;
    let valid = ctx.exhibitor.same_as(&ctx.exhibition.exhibitor) && is_holding_for(
        &ctx.exhibitor_account,
        &ctx.deposited_token_mint,
        &ctx.exhibitor,
    ) && is_item_linked(&ctx.exhibition_item, &ctx.exhibition_key, &ctx.deposited_token_mint)
        && check_derivation(
        &ctx.program_id,
        escrow_seed_list(&property),
        ctx.exhibition.bumps.escrow,
        &ctx.escrow,
    ) && check_derivation(
        &ctx.program_id,
        custody_seed_list(&ctx.deposited_token_mint),
        bumps.token_account,
        &ctx.deposited_token_account,
    );
    if !valid {
        return Err(ErrorCode::ConstraintViolation);
    }
    let count = match ctx.exhibition.n_pieces.checked_sub(1) {
        Some(c) => c,
        None => return Err(ErrorCode::ArithmeticError),
    };
    ctx.exhibition.n_pieces = count;
    ctx.exhibition_item = None;
    let mut transfers: Vec<Transfer> = Vec::new();
    transfers.push(
        Transfer::Token {
            from: ctx.deposited_token_account,
            to: ctx.exhibitor_account.key,
            authority: ctx.escrow,
        },
    );
    Ok(transfers)
}

} // verus!
