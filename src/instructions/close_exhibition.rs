use vstd::prelude::*;

use crate::errors::ErrorCode;
use crate::identity::Identity;
use crate::state::Exhibition;

verus! {

/// The records of the instruction that destroys an empty exhibition.
#[derive(Clone, Copy, Debug, PartialEq, Eq)]
pub struct CloseExhibition {
    /// The exhibition record; `None` once it is destroyed.
    pub exhibition: Option<Exhibition>,
    /// The signer, who must be the exhibition's renter.
    pub renter: Identity,
}

impl CloseExhibition {
    /// The exhibition exists, the signer is its renter, and it holds no items.
    pub open spec fn accounts_valid(&self) -> bool {
        self.exhibition matches Some(e) && e.renter@ == self.renter@ && e.n_pieces == 0
    }
}

/// Destroys the exhibition record. Succeeds exactly when the exhibition
/// exists, the signer is its renter and no item is left in it.
pub fn handler(ctx: &mut CloseExhibition) -> (r: Result<(), ErrorCode>)
    ensures
        r is Ok <==> old(ctx).accounts_valid(),
        r is Err ==> r == Err::<(), ErrorCode>(ErrorCode::ConstraintViolation),
        r is Ok ==> *final(ctx) == (CloseExhibition { exhibition: None, ..*old(ctx) }),
        r is Err ==> *final(ctx) == *old(ctx),
{
    let valid = match &ctx.exhibition {
        Some(e) => e.renter.same_as(&ctx.renter) && e.n_pieces == 0,
        None => false,
    };
    if !valid {
        return Err(ErrorCode::ConstraintViolation);
    }
    ctx.exhibition = None;
    Ok(())
}

} // verus!
