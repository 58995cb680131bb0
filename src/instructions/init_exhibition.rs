use vstd::prelude::*;

use crate::address::{
    check_derivation, custody_seed_list, custody_seeds, derives, escrow_seed_list, escrow_seeds,
    exhibition_seed_list, exhibition_seeds,
};
use crate::errors::ErrorCode;
use crate::identity::Identity;
use crate::state::{
    holds_for, is_holding_for, Exhibition, ExhibitionStatus, InitExhibitionBumpSeeds, State,
    TokenAccount, Transfer,
};

verus! {

/// The records of the instruction that opens an exhibition on a property.
#[derive(Clone, Copy, Debug, PartialEq, Eq)]
pub struct InitializeExhibition {
    pub program_id: Identity,
    pub state: State,
    /// The exhibition record; `None` until it is created.
    pub exhibition: Option<Exhibition>,
    pub exhibition_key: Identity,
    /// The escrow authority of the property.
    pub escrow: Identity,
    /// The mint of the property token.
    pub exhibition_token_mint: Identity,
    /// The custody account that will hold the property token.
    pub exhibition_token_account: Identity,
    /// The signer, who holds the property token.
    pub renter: Identity,
    pub renter_account: TokenAccount,
    pub exhibitor: Identity,
}

impl InitializeExhibition {
    /// The exhibition does not exist yet, the derived addresses match their
    /// seeds, and the renter's account holds exactly the one property token.
    pub open spec fn accounts_valid(&self, bumps: InitExhibitionBumpSeeds) -> bool {
        let mint = self.exhibition_token_mint@;
        &&& self.exhibition is None
        &&& derives(self.program_id@, exhibition_seeds(mint), bumps.exhibition, self.exhibition_key@)
        &&& derives(self.program_id@, escrow_seeds(mint), bumps.escrow, self.escrow@)
        &&& derives(
            self.program_id@,
            custody_seeds(mint),
            bumps.exhibition_token,
            self.exhibition_token_account@,
        )
        &&& holds_for(self.renter_account, self.exhibition_token_mint, self.renter)
        &&& self.renter_account.amount == 1
    }

    /// The exhibition that a successful call creates.
    pub open spec fn opened(&self, bumps: InitExhibitionBumpSeeds, renter_fee: u16) -> Exhibition {
        Exhibition {
            renter: self.renter,
            property: self.exhibition_token_mint,
            renter_fee,
            exhibitor: self.exhibitor,
            n_pieces: 0,
            status: ExhibitionStatus::Active,
            bumps,
        }
    }

    /// The move of the property token into custody.
    pub open spec fn escrow_move(&self) -> Transfer {
        Transfer::Token {
            from: self.renter_account.key,
            to: self.exhibition_token_account,
            authority: self.renter,
        }
    }
}

/// Whether the renter's fee leaves room for the platform's fee.
pub open spec fn fees_fit(renter_fee: u16, platform_fee: u16) -> bool {
    renter_fee + platform_fee <= 10000
}

/// Opens an exhibition and moves the property token into escrow custody.
/// Fails with `ConstraintViolation` when the records are not as required,
/// then with `FeeOutOfRange` when the two fees together exceed 10000 bps.
pub fn handler(ctx: &mut InitializeExhibition, bumps: InitExhibitionBumpSeeds, renter_fee: u16) -> (r:
    Result<Vec<Transfer>, ErrorCode>)
    ensures
        !old(ctx).accounts_valid(bumps) ==> r == Err::<Vec<Transfer>, ErrorCode>(
            ErrorCode::ConstraintViolation,
        ),
        old(ctx).accounts_valid(bumps) && !fees_fit(renter_fee, old(ctx).state.fee_amount) ==> r
            == Err::<Vec<Transfer>, ErrorCode>(ErrorCode::FeeOutOfRange),
        old(ctx).accounts_valid(bumps) && fees_fit(renter_fee, old(ctx).state.fee_amount) ==> r is Ok,
        r matches Ok(t) ==> {
            &&& t@ == seq![old(ctx).escrow_move()]
            &&& *final(ctx) == (InitializeExhibition {
                exhibition: Some(old(ctx).opened(bumps, renter_fee)),
                ..*old(ctx)
            })
        },
        r is Ok ==> final(ctx).exhibition->Some_0.wf(),
        r is Err ==> *final(ctx) == *old(ctx),
{
    let mint = ctx.exhibition_token_mint;
    let valid = ctx.exhibition.is_none() && check_derivation(
        &ctx.program_id,
        exhibition_seed_list(&mint),
        bumps.exhibition,
        &ctx.exhibition_key,
    ) && check_derivation(&ctx.program_id, escrow_seed_list(&mint), bumps.escrow, &ctx.escrow)
        && check_derivation(
        &ctx.program_id,
        custody_seed_list(&mint),
        bumps.exhibition_token,
        &ctx.exhibition_token_account,
    ) && is_holding_for(&ctx.renter_account, &mint, &ctx.renter) && ctx.renter_account.amount == 1;
    if !valid {
        return Err(ErrorCode::ConstraintViolation);
    }
    if renter_fee as u32 + ctx.state.fee_amount as u32 > 10000 {
        return Err(ErrorCode::FeeOutOfRange);
    }
    ctx.exhibition = Some(
        Exhibition {
            renter: ctx.renter,
            property: mint,
            renter_fee,
            exhibitor: ctx.exhibitor,
            n_pieces: 0,
            status: ExhibitionStatus::Active,
            bumps,
        },
    );
    let mut transfers: Vec<Transfer> = Vec::new();
    transfers.push(
        Transfer::Token {
            from: ctx.renter_account.key,
            to: ctx.exhibition_token_account,
            authority: ctx.renter,
        },
    );
    Ok(transfers)
}

} // verus!
