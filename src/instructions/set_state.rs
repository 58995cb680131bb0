use vstd::prelude::*;

use crate::errors::ErrorCode;
use crate::identity::Identity;
use crate::state::{State, MAX_BPS};

verus! {

/// The records of the instruction that updates the global configuration.
#[derive(Clone, Copy, Debug, PartialEq, Eq)]
pub struct SetState {
    pub state: State,
    /// The signer, who must be the current fee earner.
    pub owner: Identity,
}

/// Overwrites the fee earner and the fee. Fails with `ConstraintViolation`
/// unless the signer is the current fee earner, then with `FeeOutOfRange` if
/// the fee exceeds 10000 bps.
pub fn handler(ctx: &mut SetState, fee_earner: Identity, fee_amount: u16) -> (r: Result<
    (),
    ErrorCode,
>)
    ensures
        old(ctx).owner@ != old(ctx).state.fee_earner@ ==> r == Err::<(), ErrorCode>(
            ErrorCode::ConstraintViolation,
        ),
        old(ctx).owner@ == old(ctx).state.fee_earner@ && fee_amount > 10000 ==> r == Err::<
            (),
            ErrorCode,
        >(ErrorCode::FeeOutOfRange),
        old(ctx).owner@ == old(ctx).state.fee_earner@ && fee_amount <= 10000 ==> r is Ok,
        r is Ok ==> *final(ctx) == (SetState {
            state: State { fee_earner, fee_amount, ..old(ctx).state },
            ..*old(ctx)
        }),
        r is Ok ==> final(ctx).state.wf(),
        r is Err ==> *final(ctx) == *old(ctx),
{
    if !ctx.owner.same_as(&ctx.state.fee_earner) {
        return Err(ErrorCode::ConstraintViolation);
    }
    if fee_amount > MAX_BPS {
        return Err(ErrorCode::FeeOutOfRange);
    }
    ctx.state.fee_earner = fee_earner;
    ctx.state.fee_amount = fee_amount;
    Ok(())
}

} // verus!
