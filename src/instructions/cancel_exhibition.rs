use vstd::prelude::*;

use crate::address::{check_derivation, custody_seed_list, custody_seeds, derives, escrow_seed_list, escrow_seeds};
use crate::errors::ErrorCode;
use crate::identity::Identity;
use crate::state::{holds_for, is_holding_for, Exhibition, ExhibitionStatus, TokenAccount, Transfer};

verus! {

/// The records of the instruction that cancels an exhibition and returns the
/// property token to the renter.
#[derive(Clone, Copy, Debug, PartialEq, Eq)]
pub struct CancelExhibition {
    pub program_id: Identity,
    pub exhibition: Exhibition,
    /// The signer, who must be the exhibition's renter.
    pub renter: Identity,
    /// The renter's account that receives the property token.
    pub renter_account: TokenAccount,
    /// The escrow authority of the property.
    pub escrow: Identity,
    /// The mint of the property token.
    pub deposited_token_mint: Identity,
    /// The custody account that holds the property token.
    pub deposited_token_account: Identity,
}

impl CancelExhibition {
    /// The signer is the renter, the exhibition is still active, the token is
    /// the property token, and the escrow and custody addresses are the
    /// exhibition's own.
    pub open spec fn accounts_valid(&self) -> bool {
        let e = self.exhibition;
        &&& self.renter@ == e.renter@
        &&& e.status == ExhibitionStatus::Active
        &&& self.deposited_token_mint@ == e.property@
        &&& holds_for(self.renter_account, self.deposited_token_mint, self.renter)
        &&& derives(self.program_id@, escrow_seeds(e.property@), e.bumps.escrow, self.escrow@)
        &&& derives(
            self.program_id@,
            custody_seeds(self.deposited_token_mint@),
            e.bumps.exhibition_token,
            self.deposited_token_account@,
        )
    }

    /// The exhibition after cancellation.
    pub open spec fn cancelled(&self) -> Exhibition {
        Exhibition { status: ExhibitionStatus::Cancelled, ..self.exhibition }
    }

    /// The return of the property token from custody, signed by the escrow.
    pub open spec fn reclaim_move(&self) -> Transfer {
        Transfer::Token {
            from: self.deposited_token_account,
            to: self.renter_account.key,
            authority: self.escrow,
        }
    }
}

/// Cancels the exhibition: no item can be deposited afterwards, and the
/// property token goes back to the renter. Fails with `ConstraintViolation`
/// when the records are not as required, among them when the exhibition is
/// cancelled already.
pub fn handler(ctx: &mut CancelExhibition) -> (r: Result<Vec<Transfer>, ErrorCode>)
    ensures
        r is Ok <==> old(ctx).accounts_valid(),
        r is Err ==> r == Err::<Vec<Transfer>, ErrorCode>(ErrorCode::ConstraintViolation),
        r matches Ok(t) ==> {
            &&& t@ == seq![old(ctx).reclaim_move()]
            &&& *final(ctx) == (CancelExhibition {
                exhibition: old(ctx).cancelled(),
                ..*old(ctx)
            })
        },
        r is Err ==> *final(ctx) == *old(ctx),
{
    let property = ctx.exhibition.property;
    let valid = ctx.renter.same_as(&ctx.exhibition.renter) && ctx.exhibition.status
        == ExhibitionStatus::Active && ctx.deposited_token_mint.same_as(&property)
        && is_holding_for(&ctx.renter_account, &ctx.deposited_token_mint, &ctx.renter)
        && check_derivation(
        &ctx.program_id,
        escrow_seed_list(&property),
        ctx.exhibition.bumps.escrow,
        &ctx.escrow,
    ) && check_derivation(
        &ctx.program_id,
        custody_seed_list(&ctx.deposited_token_mint),
        ctx.exhibition.bumps.exhibition_token,
        &ctx.deposited_token_account,
    );
    if !valid {
        return Err(ErrorCode::ConstraintViolation);
    }
    ctx.exhibition.status = ExhibitionStatus::Cancelled;
    let mut transfers: Vec<Transfer> = Vec::new();
    transfers.push(
        Transfer::Token {
            from: ctx.deposited_token_account,
            to: ctx.renter_account.key,
            authority: ctx.escrow,
        },
    );
    Ok(transfers)
}

} // verus!
