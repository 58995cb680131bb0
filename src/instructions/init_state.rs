use vstd::prelude::*;

use crate::errors::ErrorCode;
use crate::identity::Identity;
use crate::state::{State, MAX_BPS};

verus! {

/// The records of the instruction that creates the global configuration.
#[derive(Clone, Copy, Debug, PartialEq, Eq)]
pub struct InitializeState {
    /// The configuration record; `None` until it is created.
    pub state: Option<State>,
    pub payer: Identity,
}

/// Creates the configuration, once. Fails with `ConstraintViolation` if it
/// exists already and with `FeeOutOfRange` if the fee exceeds 10000 bps.
pub fn handler(ctx: &mut InitializeState, bump: u8, fee_earner: Identity, fee_amount: u16) -> (r:
    Result<(), ErrorCode>)
    ensures
        old(ctx).state is Some ==> r == Err::<(), ErrorCode>(ErrorCode::ConstraintViolation),
        old(ctx).state is None && fee_amount > 10000 ==> r == Err::<(), ErrorCode>(
            ErrorCode::FeeOutOfRange,
        ),
        old(ctx).state is None && fee_amount <= 10000 ==> r is Ok,
        r is Ok ==> *final(ctx) == (InitializeState {
            state: Some(State { bump, fee_earner, fee_amount }),
            ..*old(ctx)
        }),
        r is Ok ==> final(ctx).state->Some_0.wf(),
        r is Err ==> *final(ctx) == *old(ctx),
{
    if ctx.state.is_some() {
        return Err(ErrorCode::ConstraintViolation);
    }
    if fee_amount > MAX_BPS {
        return Err(ErrorCode::FeeOutOfRange);
    }
    ctx.state = Some(State { bump, fee_earner, fee_amount });
    Ok(())
}

} // verus!
