use vstd::prelude::*;

use crate::identity::Identity;
use crate::model::{
    add_member, purchase_order, remove_member, run, set_active, set_parameters, settle, step,
    without, withdrawal, ErrorCode, SaleOp, SaleView, MAX_WHITELIST_SIZE,
};

verus! {

/// Removing `who` from a list keeps exactly the other members, never
/// lengthens it, and keeps it free of duplicates.
pub proof fn lemma_without(list: Seq<Identity>, who: Identity)
    ensures
        without(list, who).len() <= list.len(),
        forall|x: Identity| #[trigger]
            without(list, who).contains(x) <==> (list.contains(x) && x != who),
        list.no_duplicates() ==> without(list, who).no_duplicates(),
    decreases list.len(),
{
    reveal(Seq::filter);
    if list.len() == 0 {
        assert forall|x: Identity| !list.contains(x) by {}
    } else {
        let rest = list.drop_last();
        let last = list.last();
        let w = without(rest, who);
        lemma_without(rest, who);
        assert(without(list, who) == if last != who {
            w.push(last)
        } else {
            w
        });
        assert forall|x: Identity| list.contains(x) <==> (rest.contains(x) || x == last) by {
            if list.contains(x) {
                let k = choose|k: int| 0 <= k < list.len() && list[k] == x;
                if k < list.len() - 1 {
                    assert(rest[k] == x);
                }
            }
            if rest.contains(x) {
                let k = choose|k: int| 0 <= k < rest.len() && rest[k] == x;
                assert(list[k] == x);
            }
            if x == last {
                assert(list[list.len() - 1] == x);
            }
        }
        if last != who {
            assert forall|x: Identity| w.push(last).contains(x) <==> (w.contains(x) || x == last) by {
                if w.push(last).contains(x) {
                    let k = choose|k: int| 0 <= k < w.len() + 1 && w.push(last)[k] == x;
                    if k < w.len() {
                        assert(w[k] == x);
                    }
                }
                if w.contains(x) {
                    let k = choose|k: int| 0 <= k < w.len() && w[k] == x;
                    assert(w.push(last)[k] == x);
                }
                if x == last {
                    assert(w.push(last)[w.len() as int] == x);
                }
            }
        }
        assert forall|x: Identity| #[trigger]
            without(list, who).contains(x) <==> (list.contains(x) && x != who) by {
            assert(w.contains(x) <==> (rest.contains(x) && x != who));
        }
        if list.no_duplicates() {
            assert(rest.no_duplicates());
            assert(!rest.contains(last)) by {
                if rest.contains(last) {
                    let k = choose|k: int| 0 <= k < rest.len() && rest[k] == last;
                    assert(list[k] == list[list.len() - 1]);
                }
            }
            if last != who {
                let v = w.push(last);
                assert forall|i: int, j: int|
                    0 <= i < v.len() && 0 <= j < v.len() && i != j implies v[i] != v[j] by {
                    if i == w.len() {
                        assert(w.contains(v[j]));
                    } else if j == w.len() {
                        assert(w.contains(v[i]));
                    } else {
                        assert(v[i] == w[i] && v[j] == w[j]);
                    }
                }
            }
        }
    }
}

/// One operation keeps the record's invariant and its admin.
pub proof fn lemma_step_keeps_invariant(s: SaleView, op: SaleOp)
    requires
        s.wf(),
    ensures
        step(s, op).wf(),
        step(s, op).admin == s.admin,
{
    match op {
        SaleOp::AddToWhitelist { caller, who } => {
            let t = add_member(s, caller, who).0;
            if caller == s.admin && !s.whitelist.contains(who) && s.whitelist.len() < MAX_WHITELIST_SIZE {
                assert forall|i: int, j: int|
                    0 <= i < t.whitelist.len() && 0 <= j < t.whitelist.len() && i != j
                    implies t.whitelist[i] != t.whitelist[j] by {
                    if i < s.whitelist.len() && j < s.whitelist.len() {
                    } else if i == s.whitelist.len() {
                        assert(s.whitelist[j] == t.whitelist[j]);
                    } else {
                        assert(s.whitelist[i] == t.whitelist[i]);
                    }
                }
            }
        },
        SaleOp::RemoveFromWhitelist { caller, who } => {
            lemma_without(s.whitelist, who);
        },
        _ => {},
    }
}

/// Whatever sequence of operations runs on a well-formed record, sold
/// tokens never pass the purchase limit, the whitelist stays a bounded set,
/// and the admin stays the same.
pub proof fn lemma_run_keeps_invariant(s: SaleView, ops: Seq<SaleOp>)
    requires
        s.wf(),
    ensures
        run(s, ops).wf(),
        run(s, ops).total_tokens_sold <= run(s, ops).purchase_limit,
        run(s, ops).admin == s.admin,
    decreases ops.len(),
{
    if ops.len() > 0 {
        lemma_step_keeps_invariant(s, ops[0]);
        lemma_run_keeps_invariant(step(s, ops[0]), ops.drop_first());
    }
}

/// After the admin adds an identity (and the whitelist has room for it when
/// it is new), the identity is a member.
pub proof fn lemma_added_is_member(s: SaleView, caller: Identity, who: Identity)
    requires
        caller == s.admin,
        s.whitelist.contains(who) || s.whitelist.len() < MAX_WHITELIST_SIZE,
    ensures
        add_member(s, caller, who).1 == Ok::<(), ErrorCode>(()),
        add_member(s, caller, who).0.whitelist.contains(who),
{
    if !s.whitelist.contains(who) {
        let t = add_member(s, caller, who).0.whitelist;
        assert(t[t.len() - 1] == who);
    }
}

/// After the admin removes an identity, it is not a member.
pub proof fn lemma_removed_is_not_member(s: SaleView, caller: Identity, who: Identity)
    requires
        caller == s.admin,
    ensures
        remove_member(s, caller, who).1 == Ok::<(), ErrorCode>(()),
        !remove_member(s, caller, who).0.whitelist.contains(who),
{
    lemma_without(s.whitelist, who);
}

/// Adding the same identity twice gives the same record and result as
/// adding it once.
pub proof fn lemma_add_idempotent(s: SaleView, caller: Identity, who: Identity)
    ensures
        add_member(add_member(s, caller, who).0, caller, who) == add_member(s, caller, who),
{
    if caller == s.admin && !s.whitelist.contains(who) && s.whitelist.len() < MAX_WHITELIST_SIZE {
        lemma_added_is_member(s, caller, who);
    }
}

/// A caller who is not the admin is refused every admin-only operation with
/// `Unauthorized`, and the record stays as it was.
pub proof fn lemma_non_admin_refused(
    s: SaleView,
    caller: Identity,
    who: Identity,
    token_price: u64,
    purchase_limit: u64,
    vault: Identity,
    amount: u64,
)
    requires
        caller != s.admin,
    ensures
        set_active(s, caller, true) == (s, Err::<(), ErrorCode>(ErrorCode::Unauthorized)),
        set_active(s, caller, false) == (s, Err::<(), ErrorCode>(ErrorCode::Unauthorized)),
        add_member(s, caller, who) == (s, Err::<(), ErrorCode>(ErrorCode::Unauthorized)),
        remove_member(s, caller, who) == (s, Err::<(), ErrorCode>(ErrorCode::Unauthorized)),
        set_parameters(s, caller, token_price, purchase_limit) == (s, Err::<(), ErrorCode>(
            ErrorCode::Unauthorized,
        )),
        withdrawal(s, caller, vault, amount) is Err,
        withdrawal(s, caller, vault, amount)->Err_0 == ErrorCode::Unauthorized,
{
}

/// A purchase by a whitelisted buyer in an open sale whose cost overflows a
/// `u64` is refused with `NumericalOverflow`: the ledger is asked nothing and
/// the record stays as it was, whatever the ledger would have answered.
pub proof fn lemma_cost_overflow_refused(s: SaleView, buyer: Identity, amount: u64, ledger_ok: bool)
    requires
        s.is_active,
        s.whitelist.contains(buyer),
        amount * s.token_price > u64::MAX,
    ensures
        purchase_order(s, buyer, amount) is Err,
        purchase_order(s, buyer, amount)->Err_0 == ErrorCode::NumericalOverflow,
        step(s, SaleOp::Purchase { buyer, amount, ledger_ok }) == s,
{
}

/// A purchase that passed its checks is recorded in full when the ledger
/// succeeds, and not at all when it fails.
pub proof fn lemma_accepted_purchase_settles(s: SaleView, buyer: Identity, amount: u64)
    requires
        purchase_order(s, buyer, amount) is Ok,
    ensures
        settle(s, purchase_order(s, buyer, amount)->Ok_0, true) == (
        SaleView { total_tokens_sold: (s.total_tokens_sold + amount) as u64, ..s },
        Ok::<(), ErrorCode>(()),
        ),
        settle(s, purchase_order(s, buyer, amount)->Ok_0, false) == (s, Err::<(), ErrorCode>(
            ErrorCode::LedgerFailure,
        )),
{
}

} // verus!
