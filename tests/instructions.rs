use stead_rent::address::{
    check_derivation, escrow_seed_list, find_custody_account, find_escrow_authority,
    find_exhibition_address, find_item_address,
};
use stead_rent::errors::ErrorCode;
use stead_rent::identity::Identity;
use stead_rent::instructions::buy_token::{self, BuyToken, BuyTokenSeedBumps};
use stead_rent::instructions::cancel_exhibition::{self, CancelExhibition};
use stead_rent::instructions::close_exhibition::{self, CloseExhibition};
use stead_rent::instructions::deposit_token::{self, DepositToken, DepositTokenSeedBumps};
use stead_rent::instructions::init_exhibition::{self, InitializeExhibition};
use stead_rent::instructions::init_state::{self, InitializeState};
use stead_rent::instructions::set_state::{self, SetState};
use stead_rent::instructions::withdraw_token::{self, WithdrawToken, WithdrawTokenSeedBumps};
use stead_rent::state::{
    Exhibition, ExhibitionItem, ExhibitionStatus, InitExhibitionBumpSeeds, State, TokenAccount,
    Transfer,
};

fn id(n: u8) -> Identity {
    Identity::new([n; 32])
}

struct World {
    program: Identity,
    property: Identity,
    renter: Identity,
    exhibitor: Identity,
    buyer: Identity,
    dao: Identity,
    exhibition_key: Identity,
    escrow: Identity,
    property_custody: Identity,
    bumps: InitExhibitionBumpSeeds,
}

fn world() -> World {
    let program = id(200);
    let property = id(10);
    let (exhibition_key, b_ex) = find_exhibition_address(&program, &property).unwrap();
    let (escrow, b_escrow) = find_escrow_authority(&program, &property).unwrap();
    let (property_custody, b_custody) = find_custody_account(&program, &property).unwrap();
    World {
        program,
        property,
        renter: id(1),
        exhibitor: id(2),
        buyer: id(3),
        dao: id(4),
        exhibition_key,
        escrow,
        property_custody,
        bumps: InitExhibitionBumpSeeds {
            exhibition: b_ex,
            escrow: b_escrow,
            exhibition_token: b_custody,
        },
    }
}

fn config(w: &World) -> State {
    State { bump: 254, fee_earner: w.dao, fee_amount: 250 }
}

fn open_ctx(w: &World) -> InitializeExhibition {
    InitializeExhibition {
        program_id: w.program,
        state: config(w),
        exhibition: None,
        exhibition_key: w.exhibition_key,
        escrow: w.escrow,
        exhibition_token_mint: w.property,
        exhibition_token_account: w.property_custody,
        renter: w.renter,
        renter_account: TokenAccount { key: id(50), mint: w.property, owner: w.renter, amount: 1 },
        exhibitor: w.exhibitor,
    }
}

fn opened(w: &World, renter_fee: u16) -> Exhibition {
    let mut ctx = open_ctx(w);
    init_exhibition::handler(&mut ctx, w.bumps, renter_fee).unwrap();
    ctx.exhibition.unwrap()
}

fn deposit_ctx(w: &World, exhibition: Exhibition, mint: Identity) -> (DepositToken, DepositTokenSeedBumps) {
    let (item_key, b_item) = find_item_address(&w.program, &w.exhibition_key, &mint).unwrap();
    let (custody, b_custody) = find_custody_account(&w.program, &mint).unwrap();
    let ctx = DepositToken {
        program_id: w.program,
        exhibition,
        exhibition_key: w.exhibition_key,
        exhibition_item: None,
        exhibition_item_key: item_key,
        escrow: w.escrow,
        deposited_token_mint: mint,
        deposited_token_account: custody,
        exhibitor: w.exhibitor,
        exhibitor_account: TokenAccount { key: id(60), mint, owner: w.exhibitor, amount: 1 },
    };
    (ctx, DepositTokenSeedBumps { item: b_item, token_account: b_custody })
}

fn deposited(w: &World, exhibition: Exhibition, mint: Identity, price: u64) -> (Exhibition, ExhibitionItem) {
    let (mut ctx, bumps) = deposit_ctx(w, exhibition, mint);
    deposit_token::handler(&mut ctx, bumps, price).unwrap();
    (ctx.exhibition, ctx.exhibition_item.unwrap())
}

fn buy_ctx(w: &World, exhibition: Exhibition, item: Option<ExhibitionItem>, mint: Identity) -> (BuyToken, BuyTokenSeedBumps) {
    let (custody, b_custody) = find_custody_account(&w.program, &mint).unwrap();
    let ctx = BuyToken {
        program_id: w.program,
        state: config(w),
        exhibition,
        exhibition_key: w.exhibition_key,
        exhibitor: w.exhibitor,
        exhibition_item: item,
        escrow: w.escrow,
        deposited_token_mint: mint,
        deposited_token_account: custody,
        buyer: w.buyer,
        buyer_account: TokenAccount { key: id(70), mint, owner: w.buyer, amount: 0 },
        renter: w.renter,
        dao: w.dao,
    };
    (ctx, BuyTokenSeedBumps { item: 0, token_account: b_custody })
}

fn withdraw_ctx(w: &World, exhibition: Exhibition, item: Option<ExhibitionItem>, mint: Identity) -> (WithdrawToken, WithdrawTokenSeedBumps) {
    let (custody, b_custody) = find_custody_account(&w.program, &mint).unwrap();
    let ctx = WithdrawToken {
        program_id: w.program,
        exhibition,
        exhibition_key: w.exhibition_key,
        exhibitor: w.exhibitor,
        exhibitor_account: TokenAccount { key: id(60), mint, owner: w.exhibitor, amount: 0 },
        exhibition_item: item,
        escrow: w.escrow,
        deposited_token_mint: mint,
        deposited_token_account: custody,
    };
    (ctx, WithdrawTokenSeedBumps { token_account: b_custody })
}

fn cancel_ctx(w: &World, exhibition: Exhibition) -> CancelExhibition {
    CancelExhibition {
        program_id: w.program,
        exhibition,
        renter: w.renter,
        renter_account: TokenAccount { key: id(50), mint: w.property, owner: w.renter, amount: 0 },
        escrow: w.escrow,
        deposited_token_mint: w.property,
        deposited_token_account: w.property_custody,
    }
}

#[test]
fn derived_escrow_verifies_and_differs_from_its_seed() {
    let w = world();
    assert_ne!(w.escrow.bytes, w.property.bytes);
    assert_ne!(w.escrow.bytes, w.program.bytes);
    assert!(check_derivation(&w.program, escrow_seed_list(&w.property), w.bumps.escrow, &w.escrow));
    assert!(!check_derivation(&w.program, escrow_seed_list(&w.property), w.bumps.escrow, &w.property));
    assert!(!check_derivation(&w.program, escrow_seed_list(&id(11)), w.bumps.escrow, &w.escrow));
}

#[test]
fn derived_addresses_differ_by_label() {
    let w = world();
    assert_ne!(w.escrow.bytes, w.exhibition_key.bytes);
    assert_ne!(w.escrow.bytes, w.property_custody.bytes);
    assert_ne!(w.exhibition_key.bytes, w.property_custody.bytes);
}

#[test]
fn init_state_accepts_every_fee_up_to_10000() {
    for fee in [0u16, 1, 250, 9999, 10000] {
        let mut ctx = InitializeState { state: None, payer: id(9) };
        assert_eq!(init_state::handler(&mut ctx, 254, id(4), fee), Ok(()));
        assert_eq!(ctx.state, Some(State { bump: 254, fee_earner: id(4), fee_amount: fee }));
    }
}

#[test]
fn init_state_rejects_fees_over_10000() {
    for fee in [10001u16, 20000, u16::MAX] {
        let mut ctx = InitializeState { state: None, payer: id(9) };
        assert_eq!(init_state::handler(&mut ctx, 254, id(4), fee), Err(ErrorCode::FeeOutOfRange));
        assert_eq!(ctx.state, None);
    }
}

#[test]
fn init_state_runs_once() {
    let existing = State { bump: 1, fee_earner: id(4), fee_amount: 100 };
    let mut ctx = InitializeState { state: Some(existing), payer: id(9) };
    assert_eq!(init_state::handler(&mut ctx, 2, id(5), 200), Err(ErrorCode::ConstraintViolation));
    assert_eq!(ctx.state, Some(existing));
}

#[test]
fn set_state_by_fee_earner_overwrites_both_fields() {
    let mut ctx = SetState { state: State { bump: 7, fee_earner: id(4), fee_amount: 100 }, owner: id(4) };
    assert_eq!(set_state::handler(&mut ctx, id(5), 10000), Ok(()));
    assert_eq!(ctx.state, State { bump: 7, fee_earner: id(5), fee_amount: 10000 });
}

#[test]
fn set_state_rejects_fee_over_10000() {
    let before = State { bump: 7, fee_earner: id(4), fee_amount: 100 };
    let mut ctx = SetState { state: before, owner: id(4) };
    assert_eq!(set_state::handler(&mut ctx, id(5), 10001), Err(ErrorCode::FeeOutOfRange));
    assert_eq!(ctx.state, before);
}

#[test]
fn set_state_by_another_signer_is_refused() {
    let before = State { bump: 7, fee_earner: id(4), fee_amount: 100 };
    let mut ctx = SetState { state: before, owner: id(5) };
    assert_eq!(set_state::handler(&mut ctx, id(5), 100), Err(ErrorCode::ConstraintViolation));
    assert_eq!(ctx.state, before);
}

#[test]
fn open_exhibition_escrows_the_property_and_starts_empty() {
    let w = world();
    let mut ctx = open_ctx(&w);
    let t = init_exhibition::handler(&mut ctx, w.bumps, 9750).unwrap();
    assert_eq!(t, vec![Transfer::Token { from: id(50), to: w.property_custody, authority: w.renter }]);
    let e = ctx.exhibition.unwrap();
    assert_eq!(e.n_pieces, 0);
    assert_eq!(e.status, ExhibitionStatus::Active);
    assert_eq!(e.renter_fee, 9750);
    assert_eq!(e.property, w.property);
    assert_eq!(e.exhibitor, w.exhibitor);
}

#[test]
fn open_exhibition_rejects_fee_beyond_the_platform_room() {
    let w = world();
    let mut ctx = open_ctx(&w);
    assert_eq!(init_exhibition::handler(&mut ctx, w.bumps, 9751), Err(ErrorCode::FeeOutOfRange));
    assert_eq!(ctx.exhibition, None);
    assert_eq!(init_exhibition::handler(&mut ctx, w.bumps, u16::MAX), Err(ErrorCode::FeeOutOfRange));
}

#[test]
fn open_exhibition_needs_exactly_one_property_token() {
    let w = world();
    let mut ctx = open_ctx(&w);
    ctx.renter_account.amount = 2;
    assert_eq!(init_exhibition::handler(&mut ctx, w.bumps, 100), Err(ErrorCode::ConstraintViolation));
}

#[test]
fn open_exhibition_with_wrong_escrow_bump_is_refused() {
    let w = world();
    let mut ctx = open_ctx(&w);
    let mut bumps = w.bumps;
    bumps.escrow = bumps.escrow.wrapping_sub(1);
    assert_eq!(init_exhibition::handler(&mut ctx, bumps, 100), Err(ErrorCode::ConstraintViolation));
    assert_eq!(ctx.exhibition, None);
}

#[test]
fn open_exhibition_twice_is_refused() {
    let w = world();
    let mut ctx = open_ctx(&w);
    init_exhibition::handler(&mut ctx, w.bumps, 100).unwrap();
    assert_eq!(init_exhibition::handler(&mut ctx, w.bumps, 100), Err(ErrorCode::ConstraintViolation));
}

#[test]
fn deposit_counts_the_item_and_moves_it_into_custody() {
    let w = world();
    let e = opened(&w, 500);
    let (mut ctx, bumps) = deposit_ctx(&w, e, id(30));
    let t = deposit_token::handler(&mut ctx, bumps, 10000).unwrap();
    assert_eq!(ctx.exhibition.n_pieces, 1);
    assert_eq!(ctx.exhibition_item, Some(ExhibitionItem { exhibition: w.exhibition_key, mint: id(30), price: 10000 }));
    assert_eq!(t, vec![Transfer::Token { from: id(60), to: ctx.deposited_token_account, authority: w.exhibitor }]);
}

#[test]
fn deposit_by_someone_else_is_refused() {
    let w = world();
    let e = opened(&w, 500);
    let (mut ctx, bumps) = deposit_ctx(&w, e, id(30));
    ctx.exhibitor = id(99);
    ctx.exhibitor_account.owner = id(99);
    assert_eq!(deposit_token::handler(&mut ctx, bumps, 1), Err(ErrorCode::ConstraintViolation));
    assert_eq!(ctx.exhibition.n_pieces, 0);
}

#[test]
fn deposit_with_full_count_is_an_arithmetic_error() {
    let w = world();
    let mut e = opened(&w, 500);
    e.n_pieces = u64::MAX;
    let (mut ctx, bumps) = deposit_ctx(&w, e, id(30));
    assert_eq!(deposit_token::handler(&mut ctx, bumps, 1), Err(ErrorCode::ArithmeticError));
    assert_eq!(ctx.exhibition_item, None);
}

#[test]
fn cancelled_exhibition_takes_no_deposit() {
    let w = world();
    let e = opened(&w, 500);
    let mut cancel = cancel_ctx(&w, e);
    let t = cancel_exhibition::handler(&mut cancel).unwrap();
    assert_eq!(t, vec![Transfer::Token { from: w.property_custody, to: id(50), authority: w.escrow }]);
    assert_eq!(cancel.exhibition.status, ExhibitionStatus::Cancelled);
    let (mut ctx, bumps) = deposit_ctx(&w, cancel.exhibition, id(30));
    assert_eq!(deposit_token::handler(&mut ctx, bumps, 1), Err(ErrorCode::ConstraintViolation));
    assert_eq!(ctx.exhibition.n_pieces, 0);
}

#[test]
fn cancel_twice_is_refused() {
    let w = world();
    let e = opened(&w, 500);
    let mut cancel = cancel_ctx(&w, e);
    cancel_exhibition::handler(&mut cancel).unwrap();
    assert_eq!(cancel_exhibition::handler(&mut cancel), Err(ErrorCode::ConstraintViolation));
}

#[test]
fn cancel_by_someone_else_is_refused() {
    let w = world();
    let e = opened(&w, 500);
    let mut cancel = cancel_ctx(&w, e);
    cancel.renter = id(99);
    cancel.renter_account.owner = id(99);
    assert_eq!(cancel_exhibition::handler(&mut cancel), Err(ErrorCode::ConstraintViolation));
    assert_eq!(cancel.exhibition.status, ExhibitionStatus::Active);
}

#[test]
fn purchase_splits_the_price_and_moves_the_token_to_the_buyer() {
    let w = world();
    let e = opened(&w, 500);
    let (e, item) = deposited(&w, e, id(30), 10000);
    let (mut ctx, bumps) = buy_ctx(&w, e, Some(item), id(30));
    let t = buy_token::handler(&mut ctx, bumps).unwrap();
    assert_eq!(
        t,
        vec![
            Transfer::Lamports { from: w.buyer, to: w.exhibitor, amount: 9250 },
            Transfer::Lamports { from: w.buyer, to: w.renter, amount: 500 },
            Transfer::Lamports { from: w.buyer, to: w.dao, amount: 250 },
            Transfer::Token { from: ctx.deposited_token_account, to: id(70), authority: w.escrow },
        ]
    );
    assert_eq!(ctx.exhibition.n_pieces, 0);
    assert_eq!(ctx.exhibition_item, None);
}

#[test]
fn second_purchase_of_a_sold_item_is_refused() {
    let w = world();
    let e = opened(&w, 500);
    let (e, item) = deposited(&w, e, id(30), 10000);
    let (mut ctx, bumps) = buy_ctx(&w, e, Some(item), id(30));
    buy_token::handler(&mut ctx, bumps).unwrap();
    let after = ctx;
    assert_eq!(buy_token::handler(&mut ctx, bumps), Err(ErrorCode::ConstraintViolation));
    assert_eq!(ctx, after);
}

#[test]
fn purchase_of_zero_price_item_pays_nothing() {
    let w = world();
    let e = opened(&w, 500);
    let (e, item) = deposited(&w, e, id(31), 0);
    let (mut ctx, bumps) = buy_ctx(&w, e, Some(item), id(31));
    let t = buy_token::handler(&mut ctx, bumps).unwrap();
    assert_eq!(t[0], Transfer::Lamports { from: w.buyer, to: w.exhibitor, amount: 0 });
    assert_eq!(t[1], Transfer::Lamports { from: w.buyer, to: w.renter, amount: 0 });
    assert_eq!(t[2], Transfer::Lamports { from: w.buyer, to: w.dao, amount: 0 });
    assert_eq!(t.len(), 4);
}

#[test]
fn purchase_paying_the_wrong_fee_earner_is_refused() {
    let w = world();
    let e = opened(&w, 500);
    let (e, item) = deposited(&w, e, id(30), 10000);
    let (mut ctx, bumps) = buy_ctx(&w, e, Some(item), id(30));
    ctx.dao = id(98);
    assert_eq!(buy_token::handler(&mut ctx, bumps), Err(ErrorCode::ConstraintViolation));
    assert_eq!(ctx.exhibition_item, Some(item));
}

#[test]
fn purchase_of_an_item_of_another_exhibition_is_refused() {
    let w = world();
    let e = opened(&w, 500);
    let (e, mut item) = deposited(&w, e, id(30), 10000);
    item.exhibition = id(97);
    let (mut ctx, bumps) = buy_ctx(&w, e, Some(item), id(30));
    assert_eq!(buy_token::handler(&mut ctx, bumps), Err(ErrorCode::ConstraintViolation));
}

#[test]
fn purchase_whose_split_overflows_is_an_arithmetic_error() {
    let w = world();
    let e = opened(&w, 500);
    let (e, item) = deposited(&w, e, id(30), u64::MAX);
    let (mut ctx, bumps) = buy_ctx(&w, e, Some(item), id(30));
    assert_eq!(buy_token::handler(&mut ctx, bumps), Err(ErrorCode::ArithmeticError));
    assert_eq!(ctx.exhibition.n_pieces, 1);
}

#[test]
fn withdraw_returns_the_token_and_uncounts_it() {
    let w = world();
    let e = opened(&w, 500);
    let (e, item) = deposited(&w, e, id(30), 10);
    let (mut ctx, bumps) = withdraw_ctx(&w, e, Some(item), id(30));
    let t = withdraw_token::handler(&mut ctx, bumps).unwrap();
    assert_eq!(t, vec![Transfer::Token { from: ctx.deposited_token_account, to: id(60), authority: w.escrow }]);
    assert_eq!(ctx.exhibition.n_pieces, 0);
    assert_eq!(ctx.exhibition_item, None);
    assert_eq!(withdraw_token::handler(&mut ctx, bumps), Err(ErrorCode::ConstraintViolation));
}

#[test]
fn withdraw_with_zero_count_is_an_arithmetic_error() {
    let w = world();
    let e = opened(&w, 500);
    let (mut e, item) = deposited(&w, e, id(30), 10);
    e.n_pieces = 0;
    let (mut ctx, bumps) = withdraw_ctx(&w, e, Some(item), id(30));
    assert_eq!(withdraw_token::handler(&mut ctx, bumps), Err(ErrorCode::ArithmeticError));
    assert_eq!(ctx.exhibition_item, Some(item));
}

#[test]
fn close_succeeds_only_when_empty() {
    let w = world();
    let e = opened(&w, 500);
    let (e, item) = deposited(&w, e, id(30), 10);
    let mut close = CloseExhibition { exhibition: Some(e), renter: w.renter };
    assert_eq!(close_exhibition::handler(&mut close), Err(ErrorCode::ConstraintViolation));
    assert_eq!(close.exhibition, Some(e));
    let (mut wd, bumps) = withdraw_ctx(&w, e, Some(item), id(30));
    withdraw_token::handler(&mut wd, bumps).unwrap();
    let mut close = CloseExhibition { exhibition: Some(wd.exhibition), renter: w.renter };
    assert_eq!(close_exhibition::handler(&mut close), Ok(()));
    assert_eq!(close.exhibition, None);
    assert_eq!(close_exhibition::handler(&mut close), Err(ErrorCode::ConstraintViolation));
}

#[test]
fn close_by_someone_else_is_refused() {
    let w = world();
    let e = opened(&w, 500);
    let mut close = CloseExhibition { exhibition: Some(e), renter: id(99) };
    assert_eq!(close_exhibition::handler(&mut close), Err(ErrorCode::ConstraintViolation));
}

#[test]
fn counts_follow_deposits_withdrawals_and_purchases() {
    let w = world();
    let e = opened(&w, 500);
    let (e, a) = deposited(&w, e, id(30), 100);
    let (e, b) = deposited(&w, e, id(31), 200);
    let (e, _c) = deposited(&w, e, id(32), 300);
    assert_eq!(e.n_pieces, 3);
    let (mut wd, wb) = withdraw_ctx(&w, e, Some(a), id(30));
    withdraw_token::handler(&mut wd, wb).unwrap();
    assert_eq!(wd.exhibition.n_pieces, 2);
    let (mut buy, bb) = buy_ctx(&w, wd.exhibition, Some(b), id(31));
    buy_token::handler(&mut buy, bb).unwrap();
    assert_eq!(buy.exhibition.n_pieces, 1);
    let mut cancel = cancel_ctx(&w, buy.exhibition);
    cancel_exhibition::handler(&mut cancel).unwrap();
    assert_eq!(cancel.exhibition.n_pieces, 1);
}
