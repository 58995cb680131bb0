use vstd::prelude::*;

use crate::identity::Identity;

verus! {

/// The largest basis-point rate: 100%.
pub const MAX_BPS: u16 = 10000;

/// The global configuration of the program: one record for the whole system.
#[derive(Clone, Copy, Debug, PartialEq, Eq)]
pub struct State {
    /// The bump seed of the record's derived address.
    pub bump: u8,
    /// The wallet that receives the platform fee.
    pub fee_earner: Identity,
    /// The platform's share of each sale, in basis points.
    pub fee_amount: u16,
}

impl State {
    pub open spec fn wf(&self) -> bool {
        self.fee_amount <= 10000
    }
}

#[derive(Clone, Copy, Debug, PartialEq, Eq, Structural)]
pub enum ExhibitionStatus {
    Active,
    Cancelled,
}

/// Bump seeds of the addresses derived when an exhibition is opened.
#[derive(Clone, Copy, Debug, PartialEq, Eq, Structural)]
pub struct InitExhibitionBumpSeeds {
    pub exhibition: u8,
    pub escrow: u8,
    pub exhibition_token: u8,
}

/// A rented property that serves as a gallery for one exhibitor's items.
#[derive(Clone, Copy, Debug, PartialEq, Eq)]
pub struct Exhibition {
    /// The owner of the property, who opened the exhibition.
    pub renter: Identity,
    /// The mint of the property token held in escrow.
    pub property: Identity,
    /// The renter's share of each sale, in basis points.
    pub renter_fee: u16,
    /// The party allowed to consign items.
    pub exhibitor: Identity,
    /// The number of items currently consigned.
    pub n_pieces: u64,
    pub status: ExhibitionStatus,
    /// Bump seeds that prove the exhibition's derived addresses.
    pub bumps: InitExhibitionBumpSeeds,
}

impl Exhibition {
    pub open spec fn wf(&self) -> bool {
        self.renter_fee <= 10000
    }
}

/// One consigned item, held in custody until it is bought or withdrawn.
#[derive(Clone, Copy, Debug, PartialEq, Eq)]
pub struct ExhibitionItem {
    /// The record key of the exhibition the item belongs to.
    pub exhibition: Identity,
    /// The mint of the consigned token.
    pub mint: Identity,
    /// The price set by the exhibitor, in lamports.
    pub price: u64,
}

/// What an instruction reads of a token account.
#[derive(Clone, Copy, Debug, PartialEq, Eq)]
pub struct TokenAccount {
    /// The account's own address.
    pub key: Identity,
    pub mint: Identity,
    pub owner: Identity,
    pub amount: u64,
}

/// Whether a token account holds tokens of `mint` on behalf of `owner`.
pub open spec fn holds_for(account: TokenAccount, mint: Identity, owner: Identity) -> bool {
    account.mint@ == mint@ && account.owner@ == owner@
}

/// Checks that a token account holds tokens of `mint` on behalf of `owner`.
pub fn is_holding_for(account: &TokenAccount, mint: &Identity, owner: &Identity) -> (r: bool)
    ensures
        r == holds_for(*account, *mint, *owner),
{
    account.mint.same_as(mint) && account.owner.same_as(owner)
}

/// One leg of an instruction's effect on balances outside its own records.
#[derive(Clone, Copy, Debug, PartialEq, Eq)]
pub enum Transfer {
    /// A payment of `amount` lamports.
    Lamports { from: Identity, to: Identity, amount: u64 },
    /// A move of one token between token accounts, signed by `authority`.
    Token { from: Identity, to: Identity, authority: Identity },
}

} // verus!
