use whitelist_sale::account::{
    AddToWhitelist, CheckWhitelistStatus, EndSale, Initialize, Purchase, RemoveFromWhitelist,
    StartSale, UpdateSaleParameters, WhitelistSaleAccount, WithdrawFunds,
};
use whitelist_sale::identity::Identity;
use whitelist_sale::model::{ErrorCode, LedgerError, Receipt, Withdrawal, MAX_WHITELIST_SIZE};
use whitelist_sale::whitelist_sale::{
    add_to_whitelist, check_whitelist_status, end_sale, initialize_sale, ledger_outcome,
    purchase_tokens, remove_from_whitelist, settle_purchase, start_sale, update_sale_parameters,
    withdraw_funds,
};

fn ident(n: u8) -> Identity {
    let mut bytes = [0u8; 32];
    bytes[0] = n;
    bytes[31] = n.wrapping_mul(7);
    Identity::new(bytes)
}

fn admin() -> Identity {
    ident(1)
}

fn vault() -> Identity {
    ident(200)
}

fn fresh(price: u64, limit: u64) -> WhitelistSaleAccount {
    initialize_sale(&Initialize { initializer: admin() }, price, limit)
}

fn start(acct: WhitelistSaleAccount, caller: Identity) -> (WhitelistSaleAccount, Result<(), ErrorCode>) {
    let mut ctx = StartSale { admin: caller, whitelist_sale_account: acct };
    let r = start_sale(&mut ctx);
    (ctx.whitelist_sale_account, r)
}

fn end(acct: WhitelistSaleAccount, caller: Identity) -> (WhitelistSaleAccount, Result<(), ErrorCode>) {
    let mut ctx = EndSale { admin: caller, whitelist_sale_account: acct };
    let r = end_sale(&mut ctx);
    (ctx.whitelist_sale_account, r)
}

fn add(acct: WhitelistSaleAccount, caller: Identity, who: Identity) -> (WhitelistSaleAccount, Result<(), ErrorCode>) {
    let mut ctx = AddToWhitelist { admin: caller, whitelist_sale_account: acct };
    let r = add_to_whitelist(&mut ctx, who);
    (ctx.whitelist_sale_account, r)
}

fn remove(acct: WhitelistSaleAccount, caller: Identity, who: Identity) -> (WhitelistSaleAccount, Result<(), ErrorCode>) {
    let mut ctx = RemoveFromWhitelist { admin: caller, whitelist_sale_account: acct };
    let r = remove_from_whitelist(&mut ctx, who);
    (ctx.whitelist_sale_account, r)
}

fn update(acct: WhitelistSaleAccount, caller: Identity, price: u64, limit: u64) -> (WhitelistSaleAccount, Result<(), ErrorCode>) {
    let mut ctx = UpdateSaleParameters { admin: caller, whitelist_sale_account: acct };
    let r = update_sale_parameters(&mut ctx, price, limit);
    (ctx.whitelist_sale_account, r)
}

fn status(acct: WhitelistSaleAccount, who: Identity) -> (WhitelistSaleAccount, bool) {
    let ctx = CheckWhitelistStatus { whitelist_sale_account: acct };
    let r = check_whitelist_status(&ctx, who);
    (ctx.whitelist_sale_account, r)
}

fn purchase_ctx(acct: WhitelistSaleAccount, buyer: Identity) -> Purchase {
    Purchase {
        buyer,
        whitelist_sale_account: acct,
        vault: vault(),
        mint: ident(201),
        buyer_token_account: ident(202),
        mint_authority: ident(203),
    }
}

/// Checks a purchase and, when it passes, settles it with the given ledger answer.
fn buy(
    acct: WhitelistSaleAccount,
    buyer: Identity,
    amount: u64,
    ledger: Result<(), LedgerError>,
) -> (WhitelistSaleAccount, Result<Receipt, ErrorCode>) {
    let mut ctx = purchase_ctx(acct, buyer);
    let r = match purchase_tokens(&ctx, amount) {
        Ok(receipt) => settle_purchase(&mut ctx, &receipt, ledger).map(|_| receipt),
        Err(e) => Err(e),
    };
    (ctx.whitelist_sale_account, r)
}

/// A sale with price 10 and limit 100, open, with buyer 2 whitelisted.
fn open_sale() -> WhitelistSaleAccount {
    let acct = fresh(10, 100);
    let (acct, r) = start(acct, admin());
    assert_eq!(r, Ok(()));
    let (acct, r) = add(acct, admin(), ident(2));
    assert_eq!(r, Ok(()));
    acct
}

fn snapshot(a: &WhitelistSaleAccount) -> (Identity, u64, u64, bool, u64, Vec<Identity>) {
    (a.admin, a.token_price, a.purchase_limit, a.is_active, a.total_tokens_sold, a.whitelist.clone())
}

#[test]
fn initialize_sets_fields() {
    let acct = fresh(10, 100);
    assert_eq!(acct.admin, admin());
    assert_eq!(acct.token_price, 10);
    assert_eq!(acct.purchase_limit, 100);
    assert!(!acct.is_active);
    assert_eq!(acct.total_tokens_sold, 0);
    assert!(acct.whitelist.is_empty());
}

#[test]
fn scenario_purchase_then_limit_exceeded() {
    let acct = open_sale();
    let mut ctx = purchase_ctx(acct, ident(2));
    let receipt = purchase_tokens(&ctx, 5).unwrap();
    assert_eq!(receipt, Receipt { buyer: ident(2), amount: 5, total_cost: 50 });
    assert_eq!(settle_purchase(&mut ctx, &receipt, Ok(())), Ok(()));
    assert_eq!(ctx.whitelist_sale_account.total_tokens_sold, 5);
    assert_eq!(purchase_tokens(&ctx, 96), Err(ErrorCode::NumericalOverflow));
    assert_eq!(ctx.whitelist_sale_account.total_tokens_sold, 5);
}

#[test]
fn scenario_not_whitelisted_buyer() {
    let acct = open_sale();
    let before = snapshot(&acct);
    let (acct, r) = buy(acct, ident(3), 1, Ok(()));
    assert_eq!(r, Err(ErrorCode::NotWhitelisted));
    assert_eq!(snapshot(&acct), before);
}

#[test]
fn scenario_sale_not_active() {
    let acct = open_sale();
    let (acct, r) = end(acct, admin());
    assert_eq!(r, Ok(()));
    let (acct, r) = buy(acct, ident(2), 5, Ok(()));
    assert_eq!(r, Err(ErrorCode::SaleNotActive));
    assert_eq!(acct.total_tokens_sold, 0);
}

#[test]
fn closed_on_creation() {
    let acct = fresh(10, 100);
    let (acct, r) = add(acct, admin(), ident(2));
    assert_eq!(r, Ok(()));
    let (_, r) = buy(acct, ident(2), 1, Ok(()));
    assert_eq!(r, Err(ErrorCode::SaleNotActive));
}

#[test]
fn scenario_limit_below_sold_rejected() {
    let acct = open_sale();
    let (acct, r) = buy(acct, ident(2), 30, Ok(()));
    assert!(r.is_ok());
    let before = snapshot(&acct);
    let (acct, r) = update(acct, admin(), 20, 29);
    assert_eq!(r, Err(ErrorCode::InvalidParameter));
    assert_eq!(snapshot(&acct), before);
    let (acct, r) = update(acct, admin(), 20, 30);
    assert_eq!(r, Ok(()));
    assert_eq!(acct.token_price, 20);
    assert_eq!(acct.purchase_limit, 30);
}

#[test]
fn sold_never_passes_limit() {
    let mut acct = open_sale();
    let amounts: [u64; 6] = [40, 50, 20, 10, 1, 0];
    for amount in amounts {
        let (next, _) = buy(acct, ident(2), amount, Ok(()));
        assert!(next.total_tokens_sold <= next.purchase_limit);
        acct = next;
    }
    assert_eq!(acct.total_tokens_sold, 100);
    let (acct, r) = update(acct, admin(), 10, 50);
    assert_eq!(r, Err(ErrorCode::InvalidParameter));
    assert!(acct.total_tokens_sold <= acct.purchase_limit);
}

#[test]
fn purchase_up_to_limit_exactly() {
    let acct = open_sale();
    let (acct, r) = buy(acct, ident(2), 100, Ok(()));
    assert_eq!(r, Ok(Receipt { buyer: ident(2), amount: 100, total_cost: 1000 }));
    assert_eq!(acct.total_tokens_sold, 100);
    let (acct, r) = buy(acct, ident(2), 1, Ok(()));
    assert_eq!(r, Err(ErrorCode::NumericalOverflow));
    assert_eq!(acct.total_tokens_sold, 100);
}

#[test]
fn admin_never_changes() {
    let acct = open_sale();
    let (acct, _) = add(acct, ident(9), ident(4));
    let (acct, _) = remove(acct, admin(), ident(2));
    let (acct, _) = update(acct, admin(), 3, 300);
    let (acct, _) = end(acct, ident(9));
    let (acct, _) = start(acct, admin());
    assert_eq!(acct.admin, admin());
}

#[test]
fn add_then_check_and_remove_then_check() {
    let acct = fresh(10, 100);
    let (acct, r) = add(acct, admin(), ident(5));
    assert_eq!(r, Ok(()));
    let (acct, present) = status(acct, ident(5));
    assert!(present);
    let (acct, other) = status(acct, ident(6));
    assert!(!other);
    let (acct, r) = remove(acct, admin(), ident(5));
    assert_eq!(r, Ok(()));
    let (_, present) = status(acct, ident(5));
    assert!(!present);
}

#[test]
fn remove_keeps_others_in_order() {
    let acct = fresh(10, 100);
    let (acct, _) = add(acct, admin(), ident(5));
    let (acct, _) = add(acct, admin(), ident(6));
    let (acct, _) = add(acct, admin(), ident(7));
    let (acct, r) = remove(acct, admin(), ident(6));
    assert_eq!(r, Ok(()));
    assert_eq!(acct.whitelist, vec![ident(5), ident(7)]);
    let (acct, r) = remove(acct, admin(), ident(8));
    assert_eq!(r, Ok(()));
    assert_eq!(acct.whitelist, vec![ident(5), ident(7)]);
}

#[test]
fn add_twice_same_as_once() {
    let acct = fresh(10, 100);
    let (once, r1) = add(acct, admin(), ident(5));
    let once_list = once.whitelist.clone();
    let (twice, r2) = add(once, admin(), ident(5));
    assert_eq!(r1, Ok(()));
    assert_eq!(r2, Ok(()));
    assert_eq!(twice.whitelist, once_list);
    assert_eq!(twice.whitelist.len(), 1);
}

#[test]
fn non_admin_refused_everywhere() {
    let intruder = ident(9);
    let acct = open_sale();
    let before = snapshot(&acct);
    let (acct, r) = start(acct, intruder);
    assert_eq!(r, Err(ErrorCode::Unauthorized));
    let (acct, r) = end(acct, intruder);
    assert_eq!(r, Err(ErrorCode::Unauthorized));
    let (acct, r) = add(acct, intruder, ident(4));
    assert_eq!(r, Err(ErrorCode::Unauthorized));
    let (acct, r) = remove(acct, intruder, ident(2));
    assert_eq!(r, Err(ErrorCode::Unauthorized));
    let (acct, r) = update(acct, intruder, 1, 1000);
    assert_eq!(r, Err(ErrorCode::Unauthorized));
    let ctx = WithdrawFunds { admin: intruder, whitelist_sale_account: acct, vault: vault() };
    assert_eq!(withdraw_funds(&ctx, 10), Err(ErrorCode::Unauthorized));
    assert_eq!(snapshot(&ctx.whitelist_sale_account), before);
}

#[test]
fn cost_overflow_refused() {
    let acct = fresh(u64::MAX / 2 + 1, u64::MAX);
    let (acct, _) = start(acct, admin());
    let (acct, _) = add(acct, admin(), ident(2));
    let before = snapshot(&acct);
    let (acct, r) = buy(acct, ident(2), 2, Ok(()));
    assert_eq!(r, Err(ErrorCode::NumericalOverflow));
    assert_eq!(snapshot(&acct), before);
    let (acct, r) = buy(acct, ident(2), 1, Ok(()));
    assert_eq!(r, Ok(Receipt { buyer: ident(2), amount: 1, total_cost: u64::MAX / 2 + 1 }));
    assert_eq!(acct.total_tokens_sold, 1);
}

#[test]
fn total_overflow_refused() {
    let acct = fresh(0, u64::MAX);
    let (acct, _) = start(acct, admin());
    let (acct, _) = add(acct, admin(), ident(2));
    let (acct, r) = buy(acct, ident(2), u64::MAX, Ok(()));
    assert_eq!(r, Ok(Receipt { buyer: ident(2), amount: u64::MAX, total_cost: 0 }));
    let (acct, r) = buy(acct, ident(2), 1, Ok(()));
    assert_eq!(r, Err(ErrorCode::NumericalOverflow));
    assert_eq!(acct.total_tokens_sold, u64::MAX);
}

#[test]
fn ledger_failure_changes_nothing() {
    let acct = open_sale();
    let before = snapshot(&acct);
    let (acct, r) = buy(acct, ident(2), 5, Err(LedgerError { code: 1 }));
    assert_eq!(r, Err(ErrorCode::LedgerFailure));
    assert_eq!(snapshot(&acct), before);
    assert_eq!(ledger_outcome(Err(LedgerError { code: 7 })), Err(ErrorCode::LedgerFailure));
    assert_eq!(ledger_outcome(Ok(())), Ok(()));
}

#[test]
fn whitelist_capacity() {
    let mut acct = fresh(10, 100);
    for n in 0..MAX_WHITELIST_SIZE {
        let mut bytes = [0u8; 32];
        bytes[0] = (n % 256) as u8;
        bytes[1] = (n / 256) as u8;
        bytes[2] = 1;
        let (next, r) = add(acct, admin(), Identity::new(bytes));
        assert_eq!(r, Ok(()));
        acct = next;
    }
    assert_eq!(acct.whitelist.len(), MAX_WHITELIST_SIZE);
    let (acct, r) = add(acct, admin(), ident(2));
    assert_eq!(r, Err(ErrorCode::CapacityExceeded));
    assert_eq!(acct.whitelist.len(), MAX_WHITELIST_SIZE);
    let mut bytes = [0u8; 32];
    bytes[2] = 1;
    let (acct, r) = add(acct, admin(), Identity::new(bytes));
    assert_eq!(r, Ok(()));
    assert_eq!(acct.whitelist.len(), MAX_WHITELIST_SIZE);
}

#[test]
fn start_and_end_are_idempotent() {
    let acct = fresh(10, 100);
    let (acct, _) = start(acct, admin());
    let (acct, r) = start(acct, admin());
    assert_eq!(r, Ok(()));
    assert!(acct.is_active);
    let (acct, _) = end(acct, admin());
    let (acct, r) = end(acct, admin());
    assert_eq!(r, Ok(()));
    assert!(!acct.is_active);
    let (acct, _) = start(acct, admin());
    assert!(acct.is_active);
}

#[test]
fn withdraw_by_admin() {
    let acct = open_sale();
    let ctx = WithdrawFunds { admin: admin(), whitelist_sale_account: acct, vault: vault() };
    assert_eq!(
        withdraw_funds(&ctx, 42),
        Ok(Withdrawal { from: vault(), to: admin(), amount: 42 })
    );
}

#[test]
fn identity_equality() {
    assert!(ident(3).same_as(&ident(3)));
    assert!(!ident(3).same_as(&ident(4)));
    let mut bytes = ident(3).bytes;
    bytes[17] = 9;
    assert!(ident(3) != Identity::new(bytes));
}
