//! What the storage of cart entries does with the steps of a cart
//! operation, as their statements say, and what the operations therefore
//! answer. The entries are kept in a sequence; the storage returns rows in
//! no particular order, so only which rows come back is meant.
//!
//! Conditions on ranges select as the range says; a condition on the
//! delivery method compares its stored document, which this model does not
//! hold, so such a condition selects no entry here (no cart operation sets
//! one). An insert writes neither the coupon nor the delivery method, so a
//! new entry has none; an insert that meets the customer's entry for the
//! product does what its strategy's conflict clause says.

use vstd::prelude::*;

use crate::cart::{
    session_conflict_clause, user_conflict_clause, CartItem, CartItemFilter, CartItemInserter, CartItemMergeStrategy,
    CartItemMetaFilter, CartItemUpdateData,
};
use crate::cart_service::{CartAnswer, CartPlan, CartRepoStep};
use crate::sql::Range;
use crate::types::{CartCustomer, ProductId, Quantity};

verus! {

/// Whether `x` is among the values of a range.
pub open spec fn range_holds(r: Range<i32>, x: i32) -> bool {
    match r {
        Range::Exact(v) => x == v,
        Range::In(vs) => vs@.contains(x),
        Range::From(l) => if l.inclusive {
            x >= l.value
        } else {
            x > l.value
        },
        Range::To(l) => if l.inclusive {
            x <= l.value
        } else {
            x < l.value
        },
        Range::Between((a, b)) => (if a.inclusive {
            x >= a.value
        } else {
            x > a.value
        }) && (if b.inclusive {
            x <= b.value
        } else {
            x < b.value
        }),
    }
}

/// Whether an entry meets the written conditions of a shared filter (the
/// quantity condition is not written).
pub open spec fn meta_holds(m: CartItemMetaFilter, e: CartItem) -> bool {
    &&& (m.id matches Some(i) ==> e.id == i)
    &&& (m.product_id matches Some(r) ==> range_holds(r, e.product_id.0))
    &&& (m.selected matches Some(b) ==> e.selected == b)
    &&& (m.comment matches Some(c) ==> e.comment@ == c@)
    &&& (m.store_id matches Some(r) ==> range_holds(r, e.store_id.0))
    &&& (m.coupon_id matches Some(r) ==> (e.coupon_id matches Some(k) && range_holds(r, k.0)))
    &&& m.delivery_method_id is None
}

/// Whether an entry meets a filter.
pub open spec fn holds(f: CartItemFilter, e: CartItem) -> bool {
    &&& (f.customer matches Some(c) ==> e.customer == c)
    &&& meta_holds(f.meta_filter, e)
}

/// The entries that meet a filter, in order.
pub open spec fn selected_by(s: Seq<CartItem>, f: CartItemFilter) -> Seq<CartItem>
    decreases s.len(),
{
    if s.len() == 0 {
        Seq::empty()
    } else {
        let r = selected_by(s.drop_last(), f);
        if holds(f, s.last()) {
            r.push(s.last())
        } else {
            r
        }
    }
}

/// The entries that do not meet a filter, in order.
pub open spec fn kept_by(s: Seq<CartItem>, f: CartItemFilter) -> Seq<CartItem>
    decreases s.len(),
{
    if s.len() == 0 {
        Seq::empty()
    } else {
        let r = kept_by(s.drop_last(), f);
        if holds(f, s.last()) {
            r
        } else {
            r.push(s.last())
        }
    }
}

/// An entry with the present values of an update.
pub open spec fn updated(d: CartItemUpdateData, e: CartItem) -> CartItem {
    CartItem {
        quantity: match d.quantity {
            Some(q) => q,
            None => e.quantity,
        },
        selected: match d.selected {
            Some(b) => b,
            None => e.selected,
        },
        comment: match d.comment {
            Some(c) => c,
            None => e.comment,
        },
        coupon_id: match d.coupon_id {
            Some(c) => c,
            None => e.coupon_id,
        },
        delivery_method_id: match d.delivery_method_id {
            Some(m) => m,
            None => e.delivery_method_id,
        },
        ..e
    }
}

/// The entries after an update of those that meet the filter.
pub open spec fn updated_by(s: Seq<CartItem>, f: CartItemFilter, d: CartItemUpdateData) -> Seq<CartItem>
    decreases s.len(),
{
    if s.len() == 0 {
        Seq::empty()
    } else {
        let r = updated_by(s.drop_last(), f, d);
        if holds(f, s.last()) {
            r.push(updated(d, s.last()))
        } else {
            r.push(s.last())
        }
    }
}

/// The entries that an update changes, as they are after it.
pub open spec fn updated_rows(s: Seq<CartItem>, f: CartItemFilter, d: CartItemUpdateData) -> Seq<CartItem>
    decreases s.len(),
{
    if s.len() == 0 {
        Seq::empty()
    } else {
        let r = updated_rows(s.drop_last(), f, d);
        if holds(f, s.last()) {
            r.push(updated(d, s.last()))
        } else {
            r
        }
    }
}

/// The entries of one table: the users' (`users`) or the sessions'.
pub open spec fn table_rows(s: Seq<CartItem>, users: bool) -> Seq<CartItem>
    decreases s.len(),
{
    if s.len() == 0 {
        Seq::empty()
    } else {
        let r = table_rows(s.drop_last(), users);
        if (s.last().customer is User) == users {
            r.push(s.last())
        } else {
            r
        }
    }
}

/// The first `n` rows, or all of them when there are fewer.
pub open spec fn at_most(rows: Seq<CartItem>, n: int) -> Seq<CartItem> {
    if n < rows.len() {
        rows.take(n)
    } else {
        rows
    }
}

/// Whether an entry is the customer's entry for the product.
pub open spec fn is_entry_of(e: CartItem, customer: CartCustomer, product_id: ProductId) -> bool {
    e.customer == customer && e.product_id == product_id
}

/// How many entries the customer has for the product.
pub open spec fn entry_count(s: Seq<CartItem>, customer: CartCustomer, product_id: ProductId) -> nat
    decreases s.len(),
{
    if s.len() == 0 {
        0
    } else {
        entry_count(s.drop_last(), customer, product_id) + if is_entry_of(s.last(), customer, product_id) {
            1nat
        } else {
            0nat
        }
    }
}

/// The entries with one more piece of the customer's product; nothing when
/// a quantity would leave the range of `i32`.
pub open spec fn incremented(s: Seq<CartItem>, customer: CartCustomer, product_id: ProductId) -> Option<Seq<CartItem>>
    decreases s.len(),
{
    if s.len() == 0 {
        Some(Seq::empty())
    } else {
        match incremented(s.drop_last(), customer, product_id) {
            None => None,
            Some(r) => {
                let e = s.last();
                if is_entry_of(e, customer, product_id) {
                    if e.quantity.0 < i32::MAX {
                        Some(r.push(CartItem { quantity: Quantity((e.quantity.0 + 1) as i32), ..e }))
                    } else {
                        None
                    }
                } else {
                    Some(r.push(e))
                }
            },
        }
    }
}

/// An entry as an insert writes it: without coupon and delivery method.
pub open spec fn written(e: CartItem) -> CartItem {
    CartItem { coupon_id: None, delivery_method_id: None, ..e }
}

/// The entries with the customer's entry for the product replaced by `e`.
pub open spec fn replaced(s: Seq<CartItem>, customer: CartCustomer, product_id: ProductId, e: CartItem) -> Seq<CartItem>
    decreases s.len(),
{
    if s.len() == 0 {
        Seq::empty()
    } else {
        let r = replaced(s.drop_last(), customer, product_id, e);
        if is_entry_of(s.last(), customer, product_id) {
            r.push(e)
        } else {
            r.push(s.last())
        }
    }
}

/// The rows that an insert returns and the entries after it: a new entry,
/// or, where the customer has the product, what the strategy's conflict
/// clause does; nothing when the storage refuses the insert.
pub open spec fn inserted(s: Seq<CartItem>, ins: CartItemInserter) -> Option<(Seq<CartItem>, Seq<CartItem>)> {
    let c = ins.data.customer;
    let p = ins.data.product_id;
    if entry_count(s, c, p) == 0 {
        Some((s.push(written(ins.data)), seq![written(ins.data)]))
    } else {
        match ins.strategy {
            CartItemMergeStrategy::Standard => None,
            CartItemMergeStrategy::Replacer => Some((replaced(s, c, p, written(ins.data)), seq![written(ins.data)])),
            CartItemMergeStrategy::CollisionNoOp => Some((s, Seq::empty())),
            CartItemMergeStrategy::Incrementer => match incremented(s, c, p) {
                Some(t) => Some((t, selected_by(t, CartItemFilter {
                    customer: Some(c),
                    meta_filter: CartItemMetaFilter {
                        id: None,
                        product_id: Some(Range::Exact(p.0)),
                        quantity: None,
                        selected: None,
                        comment: None,
                        store_id: None,
                        coupon_id: None,
                        delivery_method_id: None,
                    },
                }))),
                None => None,
            },
        }
    }
}

/// What one step does: the entries after it and the rows it returns;
/// nothing when it fails.
pub open spec fn step_effect(s: Seq<CartItem>, step: CartRepoStep) -> Option<(Seq<CartItem>, Seq<CartItem>)> {
    match step {
        CartRepoStep::Select(f) => Some((s, selected_by(s, f))),
        CartRepoStep::SelectLimited { filter, limit } => if limit < 0 {
            None
        } else {
            Some(
                (
                    s,
                    at_most(selected_by(table_rows(s, true), filter), limit as int) + at_most(
                        selected_by(table_rows(s, false), filter),
                        limit as int,
                    ),
                ),
            )
        },
        CartRepoStep::SelectExactlyOne(f) => if selected_by(s, f).len() == 1 {
            Some((s, selected_by(s, f)))
        } else {
            None
        },
        CartRepoStep::Insert(ins) => inserted(s, ins),
        CartRepoStep::InsertExactlyOne(ins) => match inserted(s, ins) {
            Some((t, rows)) => if rows.len() == 1 {
                Some((t, rows))
            } else {
                None
            },
            None => None,
        },
        CartRepoStep::Update(u) => Some((updated_by(s, u.filter, u.data), updated_rows(s, u.filter, u.data))),
        CartRepoStep::Delete(f) => Some((kept_by(s, f), selected_by(s, f))),
    }
}

/// The steps run one after the other: the entries after them and the rows
/// of the last; nothing when one fails.
pub open spec fn run_steps(s: Seq<CartItem>, steps: Seq<CartRepoStep>) -> Option<(Seq<CartItem>, Seq<CartItem>)>
    decreases steps.len(),
{
    if steps.len() == 0 {
        Some((s, Seq::empty()))
    } else {
        match run_steps(s, steps.drop_last()) {
            None => None,
            Some(r) => step_effect(r.0, steps.last()),
        }
    }
}

/// What an operation does: the entries after it and its answer; nothing
/// when a step fails.
pub open spec fn run_plan(s: Seq<CartItem>, p: CartPlan) -> Option<(Seq<CartItem>, Seq<CartItem>)> {
    match run_steps(s, p.steps@) {
        None => None,
        Some(r) => Some(
            (
                r.0,
                match p.answer {
                    CartAnswer::LastResult => r.1,
                    _ => Seq::empty(),
                },
            ),
        ),
    }
}

/// The customer's entries, in order.
pub open spec fn entries_of(s: Seq<CartItem>, customer: CartCustomer) -> Seq<CartItem>
    decreases s.len(),
{
    if s.len() == 0 {
        Seq::empty()
    } else {
        let r = entries_of(s.drop_last(), customer);
        if s.last().customer == customer {
            r.push(s.last())
        } else {
            r
        }
    }
}

/// The entries with the customer's entry for the product updated.
pub open spec fn with_entry_updated(
    s: Seq<CartItem>,
    customer: CartCustomer,
    product_id: ProductId,
    d: CartItemUpdateData,
) -> Seq<CartItem>
    decreases s.len(),
{
    if s.len() == 0 {
        Seq::empty()
    } else {
        let r = with_entry_updated(s.drop_last(), customer, product_id, d);
        if is_entry_of(s.last(), customer, product_id) {
            r.push(updated(d, s.last()))
        } else {
            r.push(s.last())
        }
    }
}

/// The entries without the customer's entry for the product.
pub open spec fn without_entry(s: Seq<CartItem>, customer: CartCustomer, product_id: ProductId) -> Seq<CartItem>
    decreases s.len(),
{
    if s.len() == 0 {
        Seq::empty()
    } else {
        let r = without_entry(s.drop_last(), customer, product_id);
        if is_entry_of(s.last(), customer, product_id) {
            r
        } else {
            r.push(s.last())
        }
    }
}

/// The entries without any entry of the customer.
pub open spec fn without_customer(s: Seq<CartItem>, customer: CartCustomer) -> Seq<CartItem>
    decreases s.len(),
{
    if s.len() == 0 {
        Seq::empty()
    } else {
        let r = without_customer(s.drop_last(), customer);
        if s.last().customer == customer {
            r
        } else {
            r.push(s.last())
        }
    }
}

proof fn lemma_whole_cart_holds(f: CartItemFilter, c: CartCustomer, e: CartItem)
    requires
        crate::cart_service::is_whole_cart(f, c),
    ensures
        holds(f, e) == (e.customer == c),
{
}

proof fn lemma_cart_entry_holds(f: CartItemFilter, c: CartCustomer, p: ProductId, e: CartItem)
    requires
        crate::cart_service::is_cart_entry(f, c, p),
    ensures
        holds(f, e) == is_entry_of(e, c, p),
{
}

proof fn lemma_select_whole_cart(s: Seq<CartItem>, f: CartItemFilter, c: CartCustomer)
    requires
        crate::cart_service::is_whole_cart(f, c),
    ensures
        selected_by(s, f) == entries_of(s, c),
        kept_by(s, f) == without_customer(s, c),
    decreases s.len(),
{
    if s.len() > 0 {
        lemma_select_whole_cart(s.drop_last(), f, c);
        lemma_whole_cart_holds(f, c, s.last());
    }
}

proof fn lemma_select_cart_entry(s: Seq<CartItem>, f: CartItemFilter, c: CartCustomer, p: ProductId, d: CartItemUpdateData)
    requires
        crate::cart_service::is_cart_entry(f, c, p),
    ensures
        selected_by(s, f).len() == entry_count(s, c, p),
        kept_by(s, f) == without_entry(s, c, p),
        updated_by(s, f, d) == with_entry_updated(s, c, p, d),
    decreases s.len(),
{
    if s.len() > 0 {
        lemma_select_cart_entry(s.drop_last(), f, c, p, d);
        lemma_cart_entry_holds(f, c, p, s.last());
    }
}

proof fn lemma_update_keeps_entries(s: Seq<CartItem>, c: CartCustomer, p: ProductId, d: CartItemUpdateData)
    ensures
        entry_count(with_entry_updated(s, c, p, d), c, p) == entry_count(s, c, p),
    decreases s.len(),
{
    if s.len() > 0 {
        lemma_update_keeps_entries(s.drop_last(), c, p, d);
        let t = with_entry_updated(s, c, p, d);
        assert(t.drop_last() == with_entry_updated(s.drop_last(), c, p, d));
    }
}

proof fn lemma_no_entries_left(s: Seq<CartItem>, c: CartCustomer)
    ensures
        entries_of(without_customer(s, c), c) == Seq::<CartItem>::empty(),
    decreases s.len(),
{
    if s.len() > 0 {
        lemma_no_entries_left(s.drop_last(), c);
        let t = without_customer(s, c);
        if s.last().customer != c {
            assert(t.drop_last() == without_customer(s.drop_last(), c));
        }
    }
}

proof fn lemma_three_steps(s: Seq<CartItem>, steps: Seq<CartRepoStep>)
    requires
        steps.len() == 3,
    ensures
        run_steps(s, steps) == match step_effect(s, steps[0]) {
            None => None,
            Some(r1) => match step_effect(r1.0, steps[1]) {
                None => None,
                Some(r2) => step_effect(r2.0, steps[2]),
            },
        },
{
    let s2 = steps.drop_last();
    assert(s2[0] == steps[0]);
    assert(s2[1] == steps[1]);
    lemma_two_steps(s, s2);
    assert(steps.last() == steps[2]);
}

proof fn lemma_one_step(s: Seq<CartItem>, steps: Seq<CartRepoStep>)
    requires
        steps.len() == 1,
    ensures
        run_steps(s, steps) == step_effect(s, steps[0]),
{
    let s0 = steps.drop_last();
    assert(s0.len() == 0);
    assert(run_steps(s, s0) == Some((s, Seq::<CartItem>::empty())));
    assert(steps.last() == steps[0]);
}

proof fn lemma_two_steps(s: Seq<CartItem>, steps: Seq<CartRepoStep>)
    requires
        steps.len() == 2,
    ensures
        run_steps(s, steps) == match step_effect(s, steps[0]) {
            None => None,
            Some(r1) => step_effect(r1.0, steps[1]),
        },
{
    let s1 = steps.drop_last();
    assert(s1[0] == steps[0]);
    lemma_one_step(s, s1);
    assert(steps.last() == steps[1]);
}

/// Reading a cart answers with the customer's entries and changes nothing.
pub proof fn law_get_cart_reads_the_cart(s: Seq<CartItem>, p: CartPlan, customer: CartCustomer)
    requires
        crate::cart_service::get_cart_plan(p, customer),
    ensures
        run_plan(s, p) == Some((s, entries_of(s, customer))),
{
    lemma_one_step(s, p.steps@);
    let f = p.steps@[0]->Select_0;
    lemma_select_whole_cart(s, f, customer);
}

/// An update of one entry of a cart that does not read the entry back (its
/// quantity) gives the customer's entry for the product,
/// if there is one, the new values, leaves every other entry as it was, and
/// answers with the customer's cart as it is now; a cart without the
/// product comes back unchanged.
pub proof fn law_entry_update_is_read_back(
    s: Seq<CartItem>,
    p: CartPlan,
    customer: CartCustomer,
    product_id: ProductId,
    quantity: Option<Quantity>,
    selected: Option<bool>,
    comment: Option<Seq<char>>,
    coupon_id: Option<Option<crate::types::CouponId>>,
    delivery_method_id: Option<Option<crate::types::DeliveryMethodId>>,
)
    requires
        crate::cart_service::entry_update_plan(
            p,
            customer,
            product_id,
            quantity,
            selected,
            comment,
            coupon_id,
            delivery_method_id,
        ),
    ensures
        run_plan(s, p) == Some(
            (
                with_entry_updated(s, customer, product_id, p.steps@[0]->Update_0.data),
                entries_of(with_entry_updated(s, customer, product_id, p.steps@[0]->Update_0.data), customer),
            ),
        ),
        entry_count(s, customer, product_id) == 0 ==> with_entry_updated(
            s,
            customer,
            product_id,
            p.steps@[0]->Update_0.data,
        ) == s,
{
    lemma_two_steps(s, p.steps@);
    let u = p.steps@[0]->Update_0;
    let f = p.steps@[1]->Select_0;
    lemma_select_cart_entry(s, u.filter, customer, product_id, u.data);
    let t = with_entry_updated(s, customer, product_id, u.data);
    lemma_select_whole_cart(t, f, customer);
    lemma_update_without_entry(s, customer, product_id, u.data);
}

proof fn lemma_update_without_entry(s: Seq<CartItem>, c: CartCustomer, p: ProductId, d: CartItemUpdateData)
    ensures
        entry_count(s, c, p) == 0 ==> with_entry_updated(s, c, p, d) == s,
    decreases s.len(),
{
    if s.len() > 0 {
        lemma_update_without_entry(s.drop_last(), c, p, d);
        if entry_count(s, c, p) == 0 {
            assert(s.drop_last().push(s.last()) =~= s);
        }
    }
}

/// An update of one entry of a cart that reads the entry back (its
/// selection, comment, coupon or delivery method) succeeds exactly when the
/// customer has one entry for the product; then that entry gets the new
/// values, every other entry stays as it was, and the answer is the
/// customer's cart as it is now. Where it fails, nothing is kept of it.
pub proof fn law_checked_entry_update_is_read_back(
    s: Seq<CartItem>,
    p: CartPlan,
    customer: CartCustomer,
    product_id: ProductId,
    quantity: Option<Quantity>,
    selected: Option<bool>,
    comment: Option<Seq<char>>,
    coupon_id: Option<Option<crate::types::CouponId>>,
    delivery_method_id: Option<Option<crate::types::DeliveryMethodId>>,
)
    requires
        crate::cart_service::checked_entry_update_plan(
            p,
            customer,
            product_id,
            quantity,
            selected,
            comment,
            coupon_id,
            delivery_method_id,
        ),
    ensures
        (run_plan(s, p) is Some) == (entry_count(s, customer, product_id) == 1),
        entry_count(s, customer, product_id) == 1 ==> run_plan(s, p) == Some(
            (
                with_entry_updated(s, customer, product_id, p.steps@[0]->Update_0.data),
                entries_of(with_entry_updated(s, customer, product_id, p.steps@[0]->Update_0.data), customer),
            ),
        ),
{
    lemma_three_steps(s, p.steps@);
    let u = p.steps@[0]->Update_0;
    let f1 = p.steps@[1]->SelectExactlyOne_0;
    let f2 = p.steps@[2]->Select_0;
    lemma_select_cart_entry(s, u.filter, customer, product_id, u.data);
    let t = with_entry_updated(s, customer, product_id, u.data);
    lemma_update_keeps_entries(s, customer, product_id, u.data);
    lemma_select_cart_entry(t, f1, customer, product_id, u.data);
    lemma_select_whole_cart(t, f2, customer);
}

/// Deleting a product from a cart succeeds exactly when the customer has
/// it; then the entry is gone, every other entry stays, and the answer is
/// the customer's cart without it.
pub proof fn law_delete_item_is_read_back(s: Seq<CartItem>, p: CartPlan, customer: CartCustomer, product_id: ProductId)
    requires
        crate::cart_service::delete_item_plan(p, customer, product_id),
        entry_count(s, customer, product_id) <= 1,
    ensures
        (run_plan(s, p) is Some) == (entry_count(s, customer, product_id) == 1),
        entry_count(s, customer, product_id) == 1 ==> run_plan(s, p) == Some(
            (without_entry(s, customer, product_id), entries_of(without_entry(s, customer, product_id), customer)),
        ),
{
    lemma_three_steps(s, p.steps@);
    let f0 = p.steps@[0]->SelectExactlyOne_0;
    let f1 = p.steps@[1]->Delete_0;
    let f2 = p.steps@[2]->Select_0;
    let d = CartItemUpdateData { quantity: None, selected: None, comment: None, coupon_id: None, delivery_method_id: None };
    lemma_select_cart_entry(s, f0, customer, product_id, d);
    lemma_select_cart_entry(s, f1, customer, product_id, d);
    lemma_select_whole_cart(without_entry(s, customer, product_id), f2, customer);
}

/// Clearing a cart removes every entry of the customer, keeps every other
/// entry, and answers with an empty cart; the customer's cart is then empty.
pub proof fn law_clear_cart_empties_the_cart(s: Seq<CartItem>, p: CartPlan, customer: CartCustomer)
    requires
        crate::cart_service::clear_cart_plan(p, customer),
    ensures
        run_plan(s, p) == Some((without_customer(s, customer), Seq::<CartItem>::empty())),
        entries_of(without_customer(s, customer), customer) == Seq::<CartItem>::empty(),
{
    lemma_one_step(s, p.steps@);
    let f = p.steps@[0]->Delete_0;
    lemma_select_whole_cart(s, f, customer);
    lemma_no_entries_left(s, customer);
}

/// Whether every entry of the customer for the product can take one more
/// piece within the range of `i32`.
pub open spec fn quantities_fit(s: Seq<CartItem>, customer: CartCustomer, product_id: ProductId) -> bool {
    forall|i: int| 0 <= i < s.len() && is_entry_of(#[trigger] s[i], customer, product_id) ==> s[i].quantity.0 < i32::MAX
}

/// The entries with one more piece of the customer's product.
pub open spec fn with_one_more(s: Seq<CartItem>, customer: CartCustomer, product_id: ProductId) -> Seq<CartItem>
    decreases s.len(),
{
    if s.len() == 0 {
        Seq::empty()
    } else {
        let r = with_one_more(s.drop_last(), customer, product_id);
        let e = s.last();
        if is_entry_of(e, customer, product_id) {
            r.push(CartItem { quantity: Quantity((e.quantity.0 + 1) as i32), ..e })
        } else {
            r.push(e)
        }
    }
}

proof fn lemma_incremented(s: Seq<CartItem>, c: CartCustomer, p: ProductId)
    ensures
        incremented(s, c, p) == (if quantities_fit(s, c, p) {
            Some(with_one_more(s, c, p))
        } else {
            None
        }),
        entry_count(with_one_more(s, c, p), c, p) == entry_count(s, c, p),
    decreases s.len(),
{
    if s.len() > 0 {
        let pre = s.drop_last();
        lemma_incremented(pre, c, p);
        let t = with_one_more(s, c, p);
        assert(t.drop_last() == with_one_more(pre, c, p));
        if quantities_fit(s, c, p) {
            assert forall|i: int| 0 <= i < pre.len() && is_entry_of(#[trigger] pre[i], c, p) implies pre[i].quantity.0
                < i32::MAX by {
                assert(pre[i] == s[i]);
            }
            assert(is_entry_of(s[s.len() - 1], c, p) ==> s[s.len() - 1].quantity.0 < i32::MAX);
        } else {
            let k = choose|i: int| 0 <= i < s.len() && is_entry_of(#[trigger] s[i], c, p) && !(s[i].quantity.0 < i32::MAX);
            if k < pre.len() {
                assert(pre[k] == s[k]);
                assert(!quantities_fit(pre, c, p));
            }
        }
    }
}

/// Adding one piece of a product to a cart: with no entry for the product,
/// the new entry of one piece is added; with the entry, its quantity grows
/// by one (the storage refuses a quantity beyond the range of `i32`); every
/// other entry stays, and the answer is the customer's cart as it is now.
pub proof fn law_increment_adds_one_piece(
    s: Seq<CartItem>,
    p: CartPlan,
    customer: CartCustomer,
    product_id: ProductId,
    payload: crate::cart_service::CartProductIncrementPayload,
)
    requires
        crate::cart_service::increment_plan(p, customer, product_id, payload),
        entry_count(s, customer, product_id) <= 1,
    ensures
        entry_count(s, customer, product_id) == 0 ==> run_plan(s, p) == Some(
            (
                s.push(written(p.steps@[0]->InsertExactlyOne_0.data)),
                entries_of(s.push(written(p.steps@[0]->InsertExactlyOne_0.data)), customer),
            ),
        ),
        entry_count(s, customer, product_id) == 1 && quantities_fit(s, customer, product_id) ==> run_plan(s, p) == Some(
            (with_one_more(s, customer, product_id), entries_of(with_one_more(s, customer, product_id), customer)),
        ),
        entry_count(s, customer, product_id) == 1 && !quantities_fit(s, customer, product_id) ==> run_plan(s, p) is None,
{
    lemma_two_steps(s, p.steps@);
    let ins = p.steps@[0]->InsertExactlyOne_0;
    let f = p.steps@[1]->Select_0;
    lemma_incremented(s, customer, product_id);
    let t = with_one_more(s, customer, product_id);
    let ef = CartItemFilter {
        customer: Some(customer),
        meta_filter: CartItemMetaFilter {
            id: None,
            product_id: Some(Range::Exact(product_id.0)),
            quantity: None,
            selected: None,
            comment: None,
            store_id: None,
            coupon_id: None,
            delivery_method_id: None,
        },
    };
    let d = CartItemUpdateData { quantity: None, selected: None, comment: None, coupon_id: None, delivery_method_id: None };
    lemma_select_cart_entry(t, ef, customer, product_id, d);
    lemma_select_whole_cart(t, f, customer);
    lemma_select_whole_cart(s.push(written(ins.data)), f, customer);
}

/// The entries after the moved entries are put, one by one, into the cart
/// of `to`, each unless that cart has its product by then.
pub open spec fn merged_into(s: Seq<CartItem>, moved: Seq<CartItem>, to: CartCustomer) -> Seq<CartItem>
    decreases moved.len(),
{
    if moved.len() == 0 {
        s
    } else {
        let acc = merged_into(s, moved.drop_last(), to);
        let m = moved.last();
        if entry_count(acc, to, m.product_id) == 0 {
            acc.push(written(CartItem { customer: to, ..m }))
        } else {
            acc
        }
    }
}

proof fn lemma_merge_steps(s: Seq<CartItem>, p: CartPlan, moved: Seq<CartItem>, to: CartCustomer, k: int)
    requires
        crate::cart_service::merge_finish_plan(p, moved, to),
        0 <= k <= moved.len(),
    ensures
        run_steps(s, p.steps@.take(k)) matches Some(r) && r.0 == merged_into(s, moved.take(k), to),
    decreases k,
{
    if k == 0 {
        assert(p.steps@.take(0).len() == 0);
        assert(moved.take(0) =~= Seq::<CartItem>::empty());
    } else {
        lemma_merge_steps(s, p, moved, to, k - 1);
        let steps = p.steps@.take(k);
        assert(steps.drop_last() =~= p.steps@.take(k - 1));
        assert(steps.last() == p.steps@[k - 1]);
        assert(moved.take(k).drop_last() =~= moved.take(k - 1));
        assert(moved.take(k).last() == moved[k - 1]);
        let ins = p.steps@[k - 1]->Insert_0;
        assert(ins.strategy == CartItemMergeStrategy::CollisionNoOp);
    }
}

proof fn lemma_merge_leaves_others(s: Seq<CartItem>, moved: Seq<CartItem>, to: CartCustomer, other: CartCustomer)
    requires
        other != to,
    ensures
        entries_of(merged_into(s, moved, to), other) == entries_of(s, other),
    decreases moved.len(),
{
    if moved.len() > 0 {
        lemma_merge_leaves_others(s, moved.drop_last(), to, other);
        let acc = merged_into(s, moved.drop_last(), to);
        let m = moved.last();
        if entry_count(acc, to, m.product_id) == 0 {
            let t = acc.push(written(CartItem { customer: to, ..m }));
            assert(t.drop_last() == acc);
        }
    }
}

/// Merging carts: taking the entries out of the cart of `from` leaves every
/// other entry and answers with the taken ones; putting them into the cart
/// of `to` adds each whose product that cart does not have by then, keeps
/// every other entry, and answers with the cart of `to` as it is now; the
/// cart of `from`, when it is another cart, is then empty, and every other
/// customer's cart is as it was.
pub proof fn law_merge_moves_entries(
    s: Seq<CartItem>,
    start: CartPlan,
    finish: CartPlan,
    from: CartCustomer,
    to: CartCustomer,
)
    requires
        crate::cart_service::merge_start_plan(start, from),
        crate::cart_service::merge_finish_plan(finish, entries_of(s, from), to),
    ensures
        run_plan(s, start) == Some((without_customer(s, from), entries_of(s, from))),
        run_plan(without_customer(s, from), finish) == Some(
            (
                merged_into(without_customer(s, from), entries_of(s, from), to),
                entries_of(merged_into(without_customer(s, from), entries_of(s, from), to), to),
            ),
        ),
        from != to ==> entries_of(merged_into(without_customer(s, from), entries_of(s, from), to), from)
            == Seq::<CartItem>::empty(),
        forall|other: CartCustomer| other != from && other != to ==> #[trigger] entries_of(
            merged_into(without_customer(s, from), entries_of(s, from), to),
            other,
        ) == entries_of(s, other),
{
    lemma_one_step(s, start.steps@);
    let f = start.steps@[0]->Delete_0;
    lemma_select_whole_cart(s, f, from);
    let t = without_customer(s, from);
    let moved = entries_of(s, from);
    let n = moved.len() as int;
    lemma_merge_steps(t, finish, moved, to, n);
    let steps = finish.steps@;
    assert(steps.drop_last() =~= steps.take(n));
    assert(moved.take(n) =~= moved);
    assert(steps.last() == steps[n]);
    let g = steps[n]->Select_0;
    lemma_select_whole_cart(merged_into(t, moved, to), g, to);
    lemma_no_entries_left(s, from);
    if from != to {
        lemma_merge_leaves_others(t, moved, to, from);
    }
    assert forall|other: CartCustomer| other != from && other != to implies #[trigger] entries_of(
        merged_into(t, moved, to),
        other,
    ) == entries_of(s, other) by {
        lemma_merge_leaves_others(t, moved, to, other);
        lemma_other_entries_kept(s, from, other);
    }
}

proof fn lemma_other_entries_kept(s: Seq<CartItem>, c: CartCustomer, other: CartCustomer)
    requires
        other != c,
    ensures
        entries_of(without_customer(s, c), other) == entries_of(s, other),
    decreases s.len(),
{
    if s.len() > 0 {
        lemma_other_entries_kept(s.drop_last(), c, other);
        let t = without_customer(s, c);
        if s.last().customer != c {
            assert(t.drop_last() == without_customer(s.drop_last(), c));
        }
    }
}

/// Assignments of the listed columns from the row that an insert proposes:
/// `c = EXCLUDED.c` for each column `c`, joined by `, `.
pub open spec fn from_proposed(columns: Seq<Seq<char>>) -> Seq<char>
    decreases columns.len(),
{
    if columns.len() == 0 {
        Seq::empty()
    } else if columns.len() == 1 {
        columns[0] + " = EXCLUDED."@ + columns[0]
    } else {
        from_proposed(columns.drop_last()) + ", "@ + columns.last() + " = EXCLUDED."@ + columns.last()
    }
}

/// The columns of a stored cart entry, the owner's column last.
pub open spec fn entry_columns(owner: Seq<char>) -> Seq<Seq<char>> {
    seq![
        "comment"@,
        "id"@,
        "product_id"@,
        "quantity"@,
        "selected"@,
        "store_id"@,
        "pre_order"@,
        "pre_order_days"@,
        "coupon_id"@,
        "delivery_method_id"@,
        owner,
    ]
}

/// What the storage keeps of an insert into `table` (whose entries belong to
/// the owner named in column `owner`) when the customer already has an
/// entry `stored` for the product, as the insert's conflict clause says:
/// `DO NOTHING` keeps the stored entry; adding one to the stored quantity
/// keeps the entry with one more piece (an error past the range of `i32`);
/// setting every column from the proposed row (`EXCLUDED`, the inserted
/// values and the defaults of the columns left out) keeps that row. Without
/// a conflict clause the key's uniqueness refuses the insert; a clause of
/// any other form is refused here as well.
pub open spec fn conflict_outcome(
    clause: Seq<char>,
    table: Seq<char>,
    owner: Seq<char>,
    stored: CartItem,
    proposed: CartItem,
) -> Option<CartItem> {
    let target = "ON CONFLICT ("@ + owner + ", product_id)"@;
    if clause == target + " DO NOTHING"@ {
        Some(stored)
    } else if clause == target + " DO UPDATE SET quantity = "@ + table + ".quantity + 1"@ {
        if stored.quantity.0 < i32::MAX {
            Some(CartItem { quantity: Quantity((stored.quantity.0 + 1) as i32), ..stored })
        } else {
            None
        }
    } else if clause == target + " DO UPDATE SET "@ + from_proposed(entry_columns(owner)) {
        Some(proposed)
    } else {
        None
    }
}

/// What the insert's own conflict clause makes of a stored entry of the
/// same customer and product, on the table of the customer's kind.
pub open spec fn inserter_conflict_outcome(ins: CartItemInserter, stored: CartItem) -> Option<CartItem> {
    match ins.data.customer {
        CartCustomer::User(_) => conflict_outcome(
            user_conflict_clause(ins.strategy),
            "cart_items_user"@,
            "user_id"@,
            stored,
            written(ins.data),
        ),
        CartCustomer::Anonymous(_) => conflict_outcome(
            session_conflict_clause(ins.strategy),
            "cart_items_session"@,
            "session_id"@,
            stored,
            written(ins.data),
        ),
    }
}

proof fn lemma_user_clause_texts()
    ensures
        user_conflict_clause(CartItemMergeStrategy::CollisionNoOp) == "ON CONFLICT ("@ + "user_id"@ + ", product_id)"@
            + " DO NOTHING"@,
        user_conflict_clause(CartItemMergeStrategy::Incrementer) == "ON CONFLICT ("@ + "user_id"@ + ", product_id)"@
            + " DO UPDATE SET quantity = "@ + "cart_items_user"@ + ".quantity + 1"@,
        user_conflict_clause(CartItemMergeStrategy::Replacer) == "ON CONFLICT ("@ + "user_id"@ + ", product_id)"@
            + " DO UPDATE SET "@ + from_proposed(entry_columns("user_id"@)),
{
    reveal_strlit("ON CONFLICT (");
    reveal_strlit(", product_id)");
    reveal_strlit(" DO NOTHING");
    reveal_strlit(" DO UPDATE SET quantity = ");
    reveal_strlit(".quantity + 1");
    reveal_strlit(" DO UPDATE SET ");
    reveal_strlit(" = EXCLUDED.");
    reveal_strlit(", ");
    reveal_strlit("user_id");
    reveal_strlit("cart_items_user");
    reveal_strlit("ON CONFLICT (user_id, product_id) DO NOTHING");
    reveal_strlit("ON CONFLICT (user_id, product_id) DO UPDATE SET quantity = cart_items_user.quantity + 1");
    reveal_strlit("ON CONFLICT (user_id, product_id) DO UPDATE SET comment = EXCLUDED.comment, id = EXCLUDED.id, product_id = EXCLUDED.product_id, quantity = EXCLUDED.quantity, selected = EXCLUDED.selected, store_id = EXCLUDED.store_id, pre_order = EXCLUDED.pre_order, pre_order_days = EXCLUDED.pre_order_days, coupon_id = EXCLUDED.coupon_id, delivery_method_id = EXCLUDED.delivery_method_id, user_id = EXCLUDED.user_id");
    reveal_strlit("comment");
    reveal_strlit("id");
    reveal_strlit("product_id");
    reveal_strlit("quantity");
    reveal_strlit("selected");
    reveal_strlit("store_id");
    reveal_strlit("pre_order");
    reveal_strlit("pre_order_days");
    reveal_strlit("coupon_id");
    reveal_strlit("delivery_method_id");
    reveal_strlit("comment = EXCLUDED.comment, id = EXCLUDED.id, product_id = EXCLUDED.product_id, quantity = EXCLUDED.quantity, selected = EXCLUDED.selected, store_id = EXCLUDED.store_id, pre_order = EXCLUDED.pre_order, pre_order_days = EXCLUDED.pre_order_days, coupon_id = EXCLUDED.coupon_id, delivery_method_id = EXCLUDED.delivery_method_id, user_id = EXCLUDED.user_id");
    reveal_with_fuel(from_proposed, 12);
    assert("ON CONFLICT (user_id, product_id) DO NOTHING"@ =~= "ON CONFLICT ("@ + "user_id"@ + ", product_id)"@ + " DO NOTHING"@);
    assert("ON CONFLICT (user_id, product_id) DO UPDATE SET quantity = cart_items_user.quantity + 1"@ =~= "ON CONFLICT ("@ + "user_id"@ + ", product_id)"@ + " DO UPDATE SET quantity = "@ + "cart_items_user"@
        + ".quantity + 1"@);
    let cols = entry_columns("user_id"@);
    assert(from_proposed(cols) =~= "comment = EXCLUDED.comment, id = EXCLUDED.id, product_id = EXCLUDED.product_id, quantity = EXCLUDED.quantity, selected = EXCLUDED.selected, store_id = EXCLUDED.store_id, pre_order = EXCLUDED.pre_order, pre_order_days = EXCLUDED.pre_order_days, coupon_id = EXCLUDED.coupon_id, delivery_method_id = EXCLUDED.delivery_method_id, user_id = EXCLUDED.user_id"@);
    assert("ON CONFLICT (user_id, product_id) DO UPDATE SET comment = EXCLUDED.comment, id = EXCLUDED.id, product_id = EXCLUDED.product_id, quantity = EXCLUDED.quantity, selected = EXCLUDED.selected, store_id = EXCLUDED.store_id, pre_order = EXCLUDED.pre_order, pre_order_days = EXCLUDED.pre_order_days, coupon_id = EXCLUDED.coupon_id, delivery_method_id = EXCLUDED.delivery_method_id, user_id = EXCLUDED.user_id"@ =~= "ON CONFLICT ("@ + "user_id"@ + ", product_id)"@ + " DO UPDATE SET "@ + from_proposed(cols));
}

proof fn lemma_session_clause_texts()
    ensures
        session_conflict_clause(CartItemMergeStrategy::CollisionNoOp) == "ON CONFLICT ("@ + "session_id"@ + ", product_id)"@
            + " DO NOTHING"@,
        session_conflict_clause(CartItemMergeStrategy::Incrementer) == "ON CONFLICT ("@ + "session_id"@ + ", product_id)"@
            + " DO UPDATE SET quantity = "@ + "cart_items_session"@ + ".quantity + 1"@,
        session_conflict_clause(CartItemMergeStrategy::Replacer) == "ON CONFLICT ("@ + "session_id"@ + ", product_id)"@
            + " DO UPDATE SET "@ + from_proposed(entry_columns("session_id"@)),
{
    reveal_strlit("ON CONFLICT (");
    reveal_strlit(", product_id)");
    reveal_strlit(" DO NOTHING");
    reveal_strlit(" DO UPDATE SET quantity = ");
    reveal_strlit(".quantity + 1");
    reveal_strlit(" DO UPDATE SET ");
    reveal_strlit(" = EXCLUDED.");
    reveal_strlit(", ");
    reveal_strlit("session_id");
    reveal_strlit("cart_items_session");
    reveal_strlit("ON CONFLICT (session_id, product_id) DO NOTHING");
    reveal_strlit("ON CONFLICT (session_id, product_id) DO UPDATE SET quantity = cart_items_session.quantity + 1");
    reveal_strlit("ON CONFLICT (session_id, product_id) DO UPDATE SET comment = EXCLUDED.comment, id = EXCLUDED.id, product_id = EXCLUDED.product_id, quantity = EXCLUDED.quantity, selected = EXCLUDED.selected, store_id = EXCLUDED.store_id, pre_order = EXCLUDED.pre_order, pre_order_days = EXCLUDED.pre_order_days, coupon_id = EXCLUDED.coupon_id, delivery_method_id = EXCLUDED.delivery_method_id, session_id = EXCLUDED.session_id");
    reveal_strlit("comment");
    reveal_strlit("id");
    reveal_strlit("product_id");
    reveal_strlit("quantity");
    reveal_strlit("selected");
    reveal_strlit("store_id");
    reveal_strlit("pre_order");
    reveal_strlit("pre_order_days");
    reveal_strlit("coupon_id");
    reveal_strlit("delivery_method_id");
    reveal_strlit("comment = EXCLUDED.comment, id = EXCLUDED.id, product_id = EXCLUDED.product_id, quantity = EXCLUDED.quantity, selected = EXCLUDED.selected, store_id = EXCLUDED.store_id, pre_order = EXCLUDED.pre_order, pre_order_days = EXCLUDED.pre_order_days, coupon_id = EXCLUDED.coupon_id, delivery_method_id = EXCLUDED.delivery_method_id, session_id = EXCLUDED.session_id");
    reveal_with_fuel(from_proposed, 12);
    assert("ON CONFLICT (session_id, product_id) DO NOTHING"@ =~= "ON CONFLICT ("@ + "session_id"@ + ", product_id)"@ + " DO NOTHING"@);
    assert("ON CONFLICT (session_id, product_id) DO UPDATE SET quantity = cart_items_session.quantity + 1"@ =~= "ON CONFLICT ("@ + "session_id"@ + ", product_id)"@ + " DO UPDATE SET quantity = "@ + "cart_items_session"@
        + ".quantity + 1"@);
    let cols = entry_columns("session_id"@);
    assert(from_proposed(cols) =~= "comment = EXCLUDED.comment, id = EXCLUDED.id, product_id = EXCLUDED.product_id, quantity = EXCLUDED.quantity, selected = EXCLUDED.selected, store_id = EXCLUDED.store_id, pre_order = EXCLUDED.pre_order, pre_order_days = EXCLUDED.pre_order_days, coupon_id = EXCLUDED.coupon_id, delivery_method_id = EXCLUDED.delivery_method_id, session_id = EXCLUDED.session_id"@);
    assert("ON CONFLICT (session_id, product_id) DO UPDATE SET comment = EXCLUDED.comment, id = EXCLUDED.id, product_id = EXCLUDED.product_id, quantity = EXCLUDED.quantity, selected = EXCLUDED.selected, store_id = EXCLUDED.store_id, pre_order = EXCLUDED.pre_order, pre_order_days = EXCLUDED.pre_order_days, coupon_id = EXCLUDED.coupon_id, delivery_method_id = EXCLUDED.delivery_method_id, session_id = EXCLUDED.session_id"@ =~= "ON CONFLICT ("@ + "session_id"@ + ", product_id)"@ + " DO UPDATE SET "@ + from_proposed(cols));
}

proof fn lemma_outcome_forms(table: Seq<char>, owner: Seq<char>, stored: CartItem, proposed: CartItem)
    requires
        table == "cart_items_user"@ && owner == "user_id"@ || table == "cart_items_session"@ && owner == "session_id"@,
    ensures
        conflict_outcome(Seq::empty(), table, owner, stored, proposed) is None,
        conflict_outcome("ON CONFLICT ("@ + owner + ", product_id)"@ + " DO NOTHING"@, table, owner, stored, proposed)
            == Some(stored),
        conflict_outcome(
            "ON CONFLICT ("@ + owner + ", product_id)"@ + " DO UPDATE SET quantity = "@ + table + ".quantity + 1"@,
            table,
            owner,
            stored,
            proposed,
        ) == (if stored.quantity.0 < i32::MAX {
            Some(CartItem { quantity: Quantity((stored.quantity.0 + 1) as i32), ..stored })
        } else {
            None
        }),
        conflict_outcome(
            "ON CONFLICT ("@ + owner + ", product_id)"@ + " DO UPDATE SET "@ + from_proposed(entry_columns(owner)),
            table,
            owner,
            stored,
            proposed,
        ) == Some(proposed),
{
    reveal_strlit("ON CONFLICT (");
    reveal_strlit(", product_id)");
    reveal_strlit(" DO NOTHING");
    reveal_strlit(" DO UPDATE SET quantity = ");
    reveal_strlit(".quantity + 1");
    reveal_strlit(" DO UPDATE SET ");
    reveal_strlit("cart_items_user");
    reveal_strlit("user_id");
    reveal_strlit("cart_items_session");
    reveal_strlit("session_id");
    let target = "ON CONFLICT ("@ + owner + ", product_id)"@;
    let nothing = target + " DO NOTHING"@;
    let inc = target + " DO UPDATE SET quantity = "@ + table + ".quantity + 1"@;
    let rep = target + " DO UPDATE SET "@ + from_proposed(entry_columns(owner));
    // The three forms differ at the character after the target: `N`, then
    // `q`, then the first column's `c`.
    let k: int = target.len() as int + 4;
    let j: int = target.len() as int + 15;
    assert(nothing[k] == 'N');
    assert(inc[k] == 'U');
    assert(inc[j] == 'q');
    reveal_strlit("comment");
    reveal_strlit(" = EXCLUDED.");
    reveal_strlit(", ");
    reveal_with_fuel(from_proposed, 12);
    assert(rep[k] == 'U');
    assert(rep[j] == 'c');
    assert(nothing != inc);
    assert(nothing != rep);
    assert(inc != rep);
    assert(Seq::<char>::empty() != nothing);
    assert(Seq::<char>::empty() != inc);
    assert(Seq::<char>::empty() != rep);
}

/// Run on a table that already holds the customer's entry for the product,
/// an insert's conflict clause keeps what the storage model says the insert
/// keeps: the collision-no-op insert leaves the stored entry as it was, the
/// incrementing insert adds one piece to its quantity, the replacing insert
/// puts the proposed entry in its place, and a plain insert is refused.
pub proof fn law_conflict_clauses_run_as_modelled(ins: CartItemInserter, stored: CartItem)
    requires
        is_entry_of(stored, ins.data.customer, ins.data.product_id),
    ensures
        inserter_conflict_outcome(ins, stored) == match inserted(seq![stored], ins) {
            Some((t, _)) => Some(t[0]),
            None => None,
        },
        ins.strategy == CartItemMergeStrategy::CollisionNoOp ==> inserter_conflict_outcome(ins, stored) == Some(stored),
        ins.strategy == CartItemMergeStrategy::Incrementer && stored.quantity.0 < i32::MAX ==> (inserter_conflict_outcome(
            ins,
            stored,
        ) matches Some(e) && e.quantity.0 == stored.quantity.0 + 1 && e == (CartItem { quantity: e.quantity, ..stored })),
        ins.strategy == CartItemMergeStrategy::Replacer ==> inserter_conflict_outcome(ins, stored) == Some(
            written(ins.data),
        ),
        ins.strategy == CartItemMergeStrategy::Standard ==> inserter_conflict_outcome(ins, stored) is None,
{
    lemma_user_clause_texts();
    lemma_session_clause_texts();
    match ins.data.customer {
        CartCustomer::User(_) => lemma_outcome_forms("cart_items_user"@, "user_id"@, stored, written(ins.data)),
        CartCustomer::Anonymous(_) => lemma_outcome_forms(
            "cart_items_session"@,
            "session_id"@,
            stored,
            written(ins.data),
        ),
    }
    let s = seq![stored];
    let c = ins.data.customer;
    let p = ins.data.product_id;
    reveal_with_fuel(entry_count, 2);
    reveal_with_fuel(incremented, 2);
    reveal_with_fuel(replaced, 2);
    assert(s.drop_last() =~= Seq::<CartItem>::empty());
    assert(s.last() == stored);
    assert(entry_count(s, c, p) == 1);
    let w = written(ins.data);
    assert(replaced(s, c, p, w) =~= seq![w]);
    if stored.quantity.0 < i32::MAX {
        assert(incremented(s, c, p) == Some(
            seq![CartItem { quantity: Quantity((stored.quantity.0 + 1) as i32), ..stored }],
        )) by {
            assert(Seq::<CartItem>::empty().push(CartItem { quantity: Quantity((stored.quantity.0 + 1) as i32), ..stored })
                =~= seq![CartItem { quantity: Quantity((stored.quantity.0 + 1) as i32), ..stored }]);
        }
    } else {
        assert(incremented(s, c, p) is None);
    }
}

} // verus!
