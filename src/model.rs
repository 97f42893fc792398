use vstd::prelude::*;

use crate::identity::Identity;

verus! {

/// Most identities the whitelist may hold.
pub const MAX_WHITELIST_SIZE: usize = 1000;

/// Why an operation on the sale was refused.
#[derive(Clone, Copy, Debug, PartialEq, Eq, Structural)]
pub enum ErrorCode {
    /// The caller is not the sale's admin.
    Unauthorized,
    /// A purchase was attempted while the sale is closed.
    SaleNotActive,
    /// The buyer is not on the whitelist.
    NotWhitelisted,
    /// A checked arithmetic step overflowed, or the purchase limit would be passed.
    NumericalOverflow,
    /// The whitelist is full and the identity is new.
    CapacityExceeded,
    /// A parameter update would break the record's invariant.
    InvalidParameter,
    /// The ledger refused a fund transfer or a token issue.
    LedgerFailure,
}

/// The ledger's refusal of a transfer or of a token issue, with the host's
/// error number.
#[derive(Clone, Copy, Debug, PartialEq, Eq, Structural)]
pub struct LedgerError {
    pub code: u64,
}

/// What a successful purchase amounts to: `amount` tokens for `total_cost` funds.
#[derive(Clone, Copy, Debug, PartialEq, Eq)]
pub struct Receipt {
    pub buyer: Identity,
    pub amount: u64,
    pub total_cost: u64,
}

/// A fund transfer that the ledger is asked to make.
#[derive(Clone, Copy, Debug, PartialEq, Eq)]
pub struct Withdrawal {
    pub from: Identity,
    pub to: Identity,
    pub amount: u64,
}

/// The sale record as a mathematical value.
pub struct SaleView {
    pub admin: Identity,
    pub token_price: u64,
    pub purchase_limit: u64,
    pub is_active: bool,
    pub total_tokens_sold: u64,
    pub whitelist: Seq<Identity>,
}

impl SaleView {
    /// The record's invariant: the limit is respected and the whitelist is a
    /// bounded list of distinct identities.
    pub open spec fn wf(self) -> bool {
        &&& self.total_tokens_sold <= self.purchase_limit
        &&& self.whitelist.len() <= MAX_WHITELIST_SIZE
        &&& self.whitelist.no_duplicates()
    }
}

/// The record as `initialize_sale` creates it.
pub open spec fn initial_sale(admin: Identity, token_price: u64, purchase_limit: u64) -> SaleView {
    SaleView {
        admin,
        token_price,
        purchase_limit,
        is_active: false,
        total_tokens_sold: 0,
        whitelist: Seq::empty(),
    }
}

/// Opening (`active == true`) or closing the sale: admin only.
pub open spec fn set_active(s: SaleView, caller: Identity, active: bool) -> (SaleView, Result<(), ErrorCode>) {
    if caller != s.admin {
        (s, Err(ErrorCode::Unauthorized))
    } else {
        (SaleView { is_active: active, ..s }, Ok(()))
    }
}

/// Adding an identity to the whitelist: admin only, a no-op when it is
/// already there, refused when the whitelist is full.
pub open spec fn add_member(s: SaleView, caller: Identity, who: Identity) -> (SaleView, Result<(), ErrorCode>) {
    if caller != s.admin {
        (s, Err(ErrorCode::Unauthorized))
    } else if s.whitelist.contains(who) {
        (s, Ok(()))
    } else if s.whitelist.len() >= MAX_WHITELIST_SIZE {
        (s, Err(ErrorCode::CapacityExceeded))
    } else {
        (SaleView { whitelist: s.whitelist.push(who), ..s }, Ok(()))
    }
}

/// The whitelist without `who`, in the same order.
pub open spec fn without(list: Seq<Identity>, who: Identity) -> Seq<Identity> {
    list.filter(|x: Identity| x != who)
}

/// Removing an identity from the whitelist: admin only, a no-op when it is absent.
pub open spec fn remove_member(s: SaleView, caller: Identity, who: Identity) -> (SaleView, Result<(), ErrorCode>) {
    if caller != s.admin {
        (s, Err(ErrorCode::Unauthorized))
    } else {
        (SaleView { whitelist: without(s.whitelist, who), ..s }, Ok(()))
    }
}

/// Changing price and limit: admin only, and never below what was sold.
pub open spec fn set_parameters(s: SaleView, caller: Identity, token_price: u64, purchase_limit: u64) -> (SaleView, Result<(), ErrorCode>) {
    if caller != s.admin {
        (s, Err(ErrorCode::Unauthorized))
    } else if purchase_limit < s.total_tokens_sold {
        (s, Err(ErrorCode::InvalidParameter))
    } else {
        (SaleView { token_price, purchase_limit, ..s }, Ok(()))
    }
}

/// The checks of a purchase, in order, before anything is asked of the ledger.
pub open spec fn purchase_order(s: SaleView, buyer: Identity, amount: u64) -> Result<Receipt, ErrorCode> {
    if !s.is_active {
        Err(ErrorCode::SaleNotActive)
    } else if !s.whitelist.contains(buyer) {
        Err(ErrorCode::NotWhitelisted)
    } else if amount * s.token_price > u64::MAX {
        Err(ErrorCode::NumericalOverflow)
    } else if s.total_tokens_sold + amount > s.purchase_limit {
        Err(ErrorCode::NumericalOverflow)
    } else {
        Ok(Receipt { buyer, amount, total_cost: (amount * s.token_price) as u64 })
    }
}

/// Recording a purchase once the ledger has answered: nothing changes unless
/// the ledger succeeded and the limit still allows the amount.
pub open spec fn settle(s: SaleView, receipt: Receipt, ledger_ok: bool) -> (SaleView, Result<(), ErrorCode>) {
    if !ledger_ok {
        (s, Err(ErrorCode::LedgerFailure))
    } else if s.total_tokens_sold + receipt.amount > s.purchase_limit {
        (s, Err(ErrorCode::NumericalOverflow))
    } else {
        (SaleView { total_tokens_sold: (s.total_tokens_sold + receipt.amount) as u64, ..s }, Ok(()))
    }
}

/// The transfer from the custody account `vault` to the admin: admin only.
pub open spec fn withdrawal(s: SaleView, caller: Identity, vault: Identity, amount: u64) -> Result<Withdrawal, ErrorCode> {
    if caller != s.admin {
        Err(ErrorCode::Unauthorized)
    } else {
        Ok(Withdrawal { from: vault, to: s.admin, amount })
    }
}

/// One operation on the sale, with what the ledger answered where it is asked.
pub enum SaleOp {
    StartSale { caller: Identity },
    EndSale { caller: Identity },
    AddToWhitelist { caller: Identity, who: Identity },
    RemoveFromWhitelist { caller: Identity, who: Identity },
    CheckWhitelistStatus { who: Identity },
    UpdateSaleParameters { caller: Identity, token_price: u64, purchase_limit: u64 },
    Purchase { buyer: Identity, amount: u64, ledger_ok: bool },
    WithdrawFunds { caller: Identity, amount: u64 },
}

/// The record after one operation.
pub open spec fn step(s: SaleView, op: SaleOp) -> SaleView {
    match op {
        SaleOp::StartSale { caller } => set_active(s, caller, true).0,
        SaleOp::EndSale { caller } => set_active(s, caller, false).0,
        SaleOp::AddToWhitelist { caller, who } => add_member(s, caller, who).0,
        SaleOp::RemoveFromWhitelist { caller, who } => remove_member(s, caller, who).0,
        SaleOp::CheckWhitelistStatus { .. } => s,
        SaleOp::UpdateSaleParameters { caller, token_price, purchase_limit } =>
            set_parameters(s, caller, token_price, purchase_limit).0,
        SaleOp::Purchase { buyer, amount, ledger_ok } => match purchase_order(s, buyer, amount) {
            Ok(receipt) => settle(s, receipt, ledger_ok).0,
            Err(_) => s,
        },
        SaleOp::WithdrawFunds { .. } => s,
    }
}

/// The record after a sequence of operations, applied first to last.
pub open spec fn run(s: SaleView, ops: Seq<SaleOp>) -> SaleView
    decreases ops.len(),
{
    if ops.len() == 0 {
        s
    } else {
        run(step(s, ops[0]), ops.drop_first())
    }
}

} // verus!
