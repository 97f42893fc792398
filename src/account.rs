use vstd::prelude::*;

use crate::identity::Identity;
use crate::model::SaleView;

verus! {

/// The sale record: who administers it, the price and limit, whether it is
/// open, how much was sold, and who may buy.
#[derive(Debug)]
pub struct WhitelistSaleAccount {
    pub admin: Identity,
    pub token_price: u64,
    pub purchase_limit: u64,
    pub is_active: bool,
    pub total_tokens_sold: u64,
    pub whitelist: Vec<Identity>,
}

impl View for WhitelistSaleAccount {
    type V = SaleView;

    open spec fn view(&self) -> SaleView {
        SaleView {
            admin: self.admin,
            token_price: self.token_price,
            purchase_limit: self.purchase_limit,
            is_active: self.is_active,
            total_tokens_sold: self.total_tokens_sold,
            whitelist: self.whitelist@,
        }
    }
}

impl WhitelistSaleAccount {
    /// Whether `who` is on the whitelist.
    pub fn is_whitelisted(&self, who: &Identity) -> (r: bool)
        ensures
            r == self.whitelist@.contains(*who),
    {
        let mut i: usize = 0;
        while i < self.whitelist.len()
            invariant
                0 <= i <= self.whitelist@.len(),
                forall|j: int| 0 <= j < i ==> self.whitelist@[j] != *who,
            decreases self.whitelist@.len() - i,
        {
            if self.whitelist[i].same_as(who) {
                return true;
            }
            i = i + 1;
        }
        false
    }
}

/// The accounts of a sale's creation: the signer who becomes its admin.
pub struct Initialize {
    pub initializer: Identity,
}

/// The accounts of a purchase.
pub struct Purchase {
    pub buyer: Identity,
    pub whitelist_sale_account: WhitelistSaleAccount,
    /// The custody account that receives the buyer's funds.
    pub vault: Identity,
    pub mint: Identity,
    pub buyer_token_account: Identity,
    pub mint_authority: Identity,
}

/// The accounts of a whitelist addition: the signer and the record.
pub struct AddToWhitelist {
    pub admin: Identity,
    pub whitelist_sale_account: WhitelistSaleAccount,
}

/// The accounts of a whitelist removal: the signer and the record.
pub struct RemoveFromWhitelist {
    pub admin: Identity,
    pub whitelist_sale_account: WhitelistSaleAccount,
}

/// The accounts of a whitelist query: the record alone.
pub struct CheckWhitelistStatus {
    pub whitelist_sale_account: WhitelistSaleAccount,
}

/// The accounts of a parameter update: the signer and the record.
pub struct UpdateSaleParameters {
    pub admin: Identity,
    pub whitelist_sale_account: WhitelistSaleAccount,
}

/// The accounts that open the sale: the signer and the record.
pub struct StartSale {
    pub admin: Identity,
    pub whitelist_sale_account: WhitelistSaleAccount,
}

/// The accounts that close the sale: the signer and the record.
pub struct EndSale {
    pub admin: Identity,
    pub whitelist_sale_account: WhitelistSaleAccount,
}

/// The accounts of a withdrawal: the signer, the record and the custody account.
pub struct WithdrawFunds {
    pub admin: Identity,
    pub whitelist_sale_account: WhitelistSaleAccount,
    pub vault: Identity,
}

} // verus!
