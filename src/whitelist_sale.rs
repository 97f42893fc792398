use vstd::prelude::*;

use crate::account::{
    AddToWhitelist, CheckWhitelistStatus, EndSale, Initialize, Purchase, RemoveFromWhitelist,
    StartSale, UpdateSaleParameters, WhitelistSaleAccount, WithdrawFunds,
};
use crate::identity::Identity;
use crate::model::{
    add_member, initial_sale, purchase_order, remove_member, set_active, set_parameters, settle,
    without, withdrawal, ErrorCode, LedgerError, Receipt, Withdrawal, MAX_WHITELIST_SIZE,
};

verus! {

/// Creates the sale record: the initializer becomes its admin, the sale is
/// closed, nothing is sold and the whitelist is empty.
pub fn initialize_sale(
    ctx: &Initialize,
    token_price: u64,
    purchase_limit: u64,
) -> (r: WhitelistSaleAccount)
    ensures
        r@ == initial_sale(ctx.initializer, token_price, purchase_limit),
        r@.wf(),
{
    WhitelistSaleAccount {
        admin: ctx.initializer,
        token_price,
        purchase_limit,
        is_active: false,
        total_tokens_sold: 0,
        whitelist: Vec::new(),
    }
}

/// Checks a purchase of `amount` tokens by the signing buyer, in order: the
/// sale is open, the buyer is whitelisted, the cost does not overflow, and
/// the limit allows the amount. On success the receipt says what the ledger
/// is to do: move `total_cost` from the buyer to the vault and issue
/// `amount` tokens to the buyer. The record is not touched here; once the
/// ledger has answered, `settle_purchase` records the sale.
pub fn purchase_tokens(ctx: &Purchase, amount: u64) -> (r: Result<Receipt, ErrorCode>)
    ensures
        r == purchase_order(ctx.whitelist_sale_account@, ctx.buyer, amount),
{
    let acct = &ctx.whitelist_sale_account;
    if !acct.is_active {
        return Err(ErrorCode::SaleNotActive);
    }
    if !acct.is_whitelisted(&ctx.buyer) {
        return Err(ErrorCode::NotWhitelisted);
    }
    let total_cost = match amount.checked_mul(acct.token_price) {
        Some(c) => c,
        None => {
            return Err(ErrorCode::NumericalOverflow);
        },
    };
    let new_total = match acct.total_tokens_sold.checked_add(amount) {
        Some(t) => t,
        None => {
            return Err(ErrorCode::NumericalOverflow);
        },
    };
    if new_total > acct.purchase_limit {
        return Err(ErrorCode::NumericalOverflow);
    }
    Ok(Receipt { buyer: ctx.buyer, amount, total_cost })
}

/// Maps what the ledger answered to the result of the enclosing operation.
pub fn ledger_outcome(ledger: Result<(), LedgerError>) -> (r: Result<(), ErrorCode>)
    ensures
        r == (if ledger is Ok {
            Ok::<(), ErrorCode>(())
        } else {
            Err(ErrorCode::LedgerFailure)
        }),
{
    match ledger {
        Ok(()) => Ok(()),
        Err(_) => Err(ErrorCode::LedgerFailure),
    }
}

/// Records a purchase that `purchase_tokens` accepted, given what the ledger
/// answered to the transfer and the issue. Nothing changes when the ledger
/// failed, or when the limit no longer allows the amount.
pub fn settle_purchase(
    ctx: &mut Purchase,
    receipt: &Receipt,
    ledger: Result<(), LedgerError>,
) -> (r: Result<(), ErrorCode>)
    ensures
        (final(ctx).whitelist_sale_account@, r) == settle(
            old(ctx).whitelist_sale_account@,
            *receipt,
            ledger is Ok,
        ),
        final(ctx).buyer == old(ctx).buyer,
        final(ctx).vault == old(ctx).vault,
        final(ctx).mint == old(ctx).mint,
        final(ctx).buyer_token_account == old(ctx).buyer_token_account,
        final(ctx).mint_authority == old(ctx).mint_authority,
{
    match ledger_outcome(ledger) {
        Ok(()) => {},
        Err(e) => {
            return Err(e);
        },
    }
    let new_total = match ctx.whitelist_sale_account.total_tokens_sold.checked_add(receipt.amount) {
        Some(t) => t,
        None => {
            return Err(ErrorCode::NumericalOverflow);
        },
    };
    if new_total > ctx.whitelist_sale_account.purchase_limit {
        return Err(ErrorCode::NumericalOverflow);
    }
    ctx.whitelist_sale_account.total_tokens_sold = new_total;
    Ok(())
}

/// Adds `whitelist_address` to the whitelist; admin only.
pub fn add_to_whitelist(
    ctx: &mut AddToWhitelist,
    whitelist_address: Identity,
) -> (r: Result<(), ErrorCode>)
    ensures
        (final(ctx).whitelist_sale_account@, r) == add_member(
            old(ctx).whitelist_sale_account@,
            old(ctx).admin,
            whitelist_address,
        ),
        final(ctx).admin == old(ctx).admin,
{
    if !ctx.admin.same_as(&ctx.whitelist_sale_account.admin) {
        return Err(ErrorCode::Unauthorized);
    }
    if ctx.whitelist_sale_account.is_whitelisted(&whitelist_address) {
        return Ok(());
    }
    if ctx.whitelist_sale_account.whitelist.len() >= MAX_WHITELIST_SIZE {
        return Err(ErrorCode::CapacityExceeded);
    }
    ctx.whitelist_sale_account.whitelist.push(whitelist_address);
    Ok(())
}

/// Removes `whitelist_address` from the whitelist, keeping the order of the
/// others; admin only.
pub fn remove_from_whitelist(
    ctx: &mut RemoveFromWhitelist,
    whitelist_address: Identity,
) -> (r: Result<(), ErrorCode>)
    ensures
        (final(ctx).whitelist_sale_account@, r) == remove_member(
            old(ctx).whitelist_sale_account@,
            old(ctx).admin,
            whitelist_address,
        ),
        final(ctx).admin == old(ctx).admin,
{
    if !ctx.admin.same_as(&ctx.whitelist_sale_account.admin) {
        return Err(ErrorCode::Unauthorized);
    }
    let ghost list = ctx.whitelist_sale_account.whitelist@;
    let mut kept: Vec<Identity> = Vec::new();
    let mut i: usize = 0;
    while i < ctx.whitelist_sale_account.whitelist.len()
        invariant
            0 <= i <= list.len(),
            ctx.whitelist_sale_account.whitelist@ == list,
            *ctx == *old(ctx),
            kept@ == without(list.subrange(0, i as int), whitelist_address),
        decreases list.len() - i,
    {
        let x = ctx.whitelist_sale_account.whitelist[i];
        if !x.same_as(&whitelist_address) {
            kept.push(x);
        }
        proof {
            let t = list.subrange(0, i + 1);
            assert(t.drop_last() =~= list.subrange(0, i as int));
            assert(t.last() == x);
            reveal(Seq::filter);
        }
        i = i + 1;
    }
    assert(list.subrange(0, list.len() as int) =~= list);
    ctx.whitelist_sale_account.whitelist = kept;
    Ok(())
}

/// Whether `whitelist_address` is on the whitelist; anyone may ask.
pub fn check_whitelist_status(ctx: &CheckWhitelistStatus, whitelist_address: Identity) -> (r: bool)
    ensures
        r == ctx.whitelist_sale_account@.whitelist.contains(whitelist_address),
{
    ctx.whitelist_sale_account.is_whitelisted(&whitelist_address)
}

/// Sets a new price and purchase limit; admin only, and the limit may not
/// fall below what was already sold.
pub fn update_sale_parameters(
    ctx: &mut UpdateSaleParameters,
    token_price: u64,
    purchase_limit: u64,
) -> (r: Result<(), ErrorCode>)
    ensures
        (final(ctx).whitelist_sale_account@, r) == set_parameters(
            old(ctx).whitelist_sale_account@,
            old(ctx).admin,
            token_price,
            purchase_limit,
        ),
        final(ctx).admin == old(ctx).admin,
{
    if !ctx.admin.same_as(&ctx.whitelist_sale_account.admin) {
        return Err(ErrorCode::Unauthorized);
    }
    if purchase_limit < ctx.whitelist_sale_account.total_tokens_sold {
        return Err(ErrorCode::InvalidParameter);
    }
    ctx.whitelist_sale_account.token_price = token_price;
    ctx.whitelist_sale_account.purchase_limit = purchase_limit;
    Ok(())
}

/// Closes the sale; admin only.
pub fn end_sale(ctx: &mut EndSale) -> (r: Result<(), ErrorCode>)
    ensures
        (final(ctx).whitelist_sale_account@, r) == set_active(
            old(ctx).whitelist_sale_account@,
            old(ctx).admin,
            false,
        ),
        final(ctx).admin == old(ctx).admin,
{
    if !ctx.admin.same_as(&ctx.whitelist_sale_account.admin) {
        return Err(ErrorCode::Unauthorized);
    }
    ctx.whitelist_sale_account.is_active = false;
    Ok(())
}

/// Opens the sale; admin only.
pub fn start_sale(ctx: &mut StartSale) -> (r: Result<(), ErrorCode>)
    ensures
        (final(ctx).whitelist_sale_account@, r) == set_active(
            old(ctx).whitelist_sale_account@,
            old(ctx).admin,
            true,
        ),
        final(ctx).admin == old(ctx).admin,
{
    if !ctx.admin.same_as(&ctx.whitelist_sale_account.admin) {
        return Err(ErrorCode::Unauthorized);
    }
    ctx.whitelist_sale_account.is_active = true;
    Ok(())
}

/// Checks a withdrawal of `amount` from the vault; admin only. On success it
/// says which transfer the ledger is to make; `ledger_outcome` maps the
/// ledger's answer. The record is never changed.
pub fn withdraw_funds(ctx: &WithdrawFunds, amount: u64) -> (r: Result<Withdrawal, ErrorCode>)
    ensures
        r == withdrawal(ctx.whitelist_sale_account@, ctx.admin, ctx.vault, amount),
{
    if !ctx.admin.same_as(&ctx.whitelist_sale_account.admin) {
        return Err(ErrorCode::Unauthorized);
    }
    Ok(Withdrawal { from: ctx.vault, to: ctx.whitelist_sale_account.admin, amount })
}

} // verus!
