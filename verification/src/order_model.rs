//! What the storage does with the steps of the order operations, as their
//! statements say: the cart entries, the orders and the history records
//! are each kept in a sequence. The storage numbers what it creates; the
//! numbers it hands out are a parameter here, the `i`-th step taking the
//! `i`-th pair of an order id and a record id.

use vstd::prelude::*;

use crate::cart::{CartItem, CartItemFilter, CartItemInserter, CartItemMergeStrategy};
use crate::cart_model::{holds, inserted, is_entry_of, entry_count, kept_by, replaced, selected_by, written};
use crate::order::{AddressFull, Order, OrderDiff};
use crate::order_plan::{conversion_filter, creates_order_of, is_conversion_plan, is_revert_clear_plan, OrderPlan, OrderStep};
use crate::order_service::{restored_comment, reverted_entry, stored_draft, OrderDraft};
use crate::types::{CartCustomer, ConversionId, CouponId, OrderDiffId, OrderId, OrderState, ProductId, UserId};

verus! {

/// A stored order as the order operations see it: its id, what its draft
/// said, and the address it ships to.
pub struct OrderRow {
    pub id: OrderId,
    pub draft: OrderDraft,
    pub address: AddressFull,
}

/// The first history record of a created order.
pub open spec fn creation_diff(id: (OrderId, OrderDiffId), committer: UserId, committed_at: i128, comment: String) -> OrderDiff {
    OrderDiff { id: id.1, parent: id.0, committer, committed_at, state: OrderState::New, comment: Some(comment) }
}

/// The orders of a conversion, in order: what reading the conversion
/// answers with.
pub open spec fn conversion_rows(orders: Seq<OrderRow>, conversion_id: ConversionId) -> Seq<OrderRow> {
    orders.filter(|r: OrderRow| r.draft.conversion_id == Some(conversion_id))
}

/// What one step does to the cart entries, the orders and the history
/// records; nothing when the storage refuses it.
pub open spec fn order_step_effect<P>(
    s: (Seq<CartItem>, Seq<OrderRow>, Seq<OrderDiff>),
    step: OrderStep<P>,
    id: (OrderId, OrderDiffId),
) -> Option<(Seq<CartItem>, Seq<OrderRow>, Seq<OrderDiff>)> {
    match step {
        OrderStep::DeleteCartEntries(f) => Some((kept_by(s.0, f), s.1, s.2)),
        OrderStep::CreateOrder { order, address, committer, committed_at } => Some(
            (
                s.0,
                s.1.push(OrderRow { id: id.0, draft: order.order, address }),
                s.2.push(creation_diff(id, committer, committed_at, order.comment)),
            ),
        ),
        OrderStep::SelectConversion(_) => Some(s),
        OrderStep::DeleteHistory(order_id) => Some((s.0, s.1, s.2.filter(|d: OrderDiff| d.parent != order_id))),
        OrderStep::DeleteConversion(conversion_id) => Some(
            (s.0, s.1.filter(|r: OrderRow| r.draft.conversion_id != Some(conversion_id)), s.2),
        ),
        OrderStep::InsertCartEntry(ins) => match inserted(s.0, ins) {
            Some((t, rows)) => if rows.len() == 1 {
                Some((t, s.1, s.2))
            } else {
                None
            },
            None => None,
        },
    }
}

/// The steps run one after the other; nothing when one is refused.
pub open spec fn run_order_steps<P>(
    s: (Seq<CartItem>, Seq<OrderRow>, Seq<OrderDiff>),
    steps: Seq<OrderStep<P>>,
    ids: Seq<(OrderId, OrderDiffId)>,
) -> Option<(Seq<CartItem>, Seq<OrderRow>, Seq<OrderDiff>)>
    decreases steps.len(),
{
    if steps.len() == 0 {
        Some(s)
    } else {
        match run_order_steps(s, steps.drop_last(), ids) {
            None => None,
            Some(t) => order_step_effect(t, steps.last(), ids[steps.len() - 1]),
        }
    }
}

/// The orders that creating steps add, in order.
pub open spec fn created_rows<P>(steps: Seq<OrderStep<P>>, ids: Seq<(OrderId, OrderDiffId)>) -> Seq<OrderRow> {
    Seq::new(steps.len(), |i: int| OrderRow { id: ids[i].0, draft: steps[i]->order.order, address: steps[i]->address })
}

/// The history records that creating steps add, in order.
pub open spec fn created_diffs<P>(steps: Seq<OrderStep<P>>, ids: Seq<(OrderId, OrderDiffId)>) -> Seq<OrderDiff> {
    Seq::new(
        steps.len(),
        |i: int| creation_diff(ids[i], steps[i]->committer, steps[i]->committed_at, steps[i]->order.comment),
    )
}

/// The cart entries after inserting each entry in turn.
pub open spec fn restored(cart: Seq<CartItem>, inserts: Seq<CartItemInserter>) -> Seq<CartItem>
    decreases inserts.len(),
{
    if inserts.len() == 0 {
        cart
    } else {
        match inserted(restored(cart, inserts.drop_last()), inserts.last()) {
            Some((t, _)) => t,
            None => restored(cart, inserts.drop_last()),
        }
    }
}

/// An element of a sequence without its last element, or that last one.
proof fn lemma_contains_last<A>(s: Seq<A>, e: A)
    requires
        s.len() > 0,
    ensures
        s.contains(e) <==> (s.drop_last().contains(e) || s.last() == e),
{
    assert(s =~= s.drop_last().push(s.last()));
    vstd::seq_lib::lemma_seq_contains_after_push(s.drop_last(), s.last(), e);
}

/// The entries that a filter keeps are those that do not meet it.
proof fn lemma_kept_by_contains(s: Seq<CartItem>, f: CartItemFilter, e: CartItem)
    ensures
        kept_by(s, f).contains(e) <==> (s.contains(e) && !holds(f, e)),
    decreases s.len(),
{
    if s.len() > 0 {
        lemma_kept_by_contains(s.drop_last(), f, e);
        lemma_contains_last(s, e);
        vstd::seq_lib::lemma_seq_contains_after_push(kept_by(s.drop_last(), f), s.last(), e);
    }
}

/// The entries that a filter selects are those that meet it.
proof fn lemma_selected_by_contains(s: Seq<CartItem>, f: CartItemFilter, e: CartItem)
    ensures
        selected_by(s, f).contains(e) <==> (s.contains(e) && holds(f, e)),
    decreases s.len(),
{
    if s.len() > 0 {
        lemma_selected_by_contains(s.drop_last(), f, e);
        lemma_contains_last(s, e);
        vstd::seq_lib::lemma_seq_contains_after_push(selected_by(s.drop_last(), f), s.last(), e);
    }
}

/// The first phase of a conversion takes the customer's selected entries
/// out of the cart and answers with them; every other entry stays, and the
/// orders and their histories are untouched.
pub proof fn law_conversion_takes_selected_entries<P>(
    s: (Seq<CartItem>, Seq<OrderRow>, Seq<OrderDiff>),
    p: OrderPlan<P>,
    customer: UserId,
    ids: Seq<(OrderId, OrderDiffId)>,
)
    requires
        p.steps@ == seq![OrderStep::<P>::DeleteCartEntries(conversion_filter(customer))],
    ensures
        run_order_steps(s, p.steps@, ids) == Some((kept_by(s.0, conversion_filter(customer)), s.1, s.2)),
        forall|e: CartItem|
            #![trigger kept_by(s.0, conversion_filter(customer)).contains(e)]
            kept_by(s.0, conversion_filter(customer)).contains(e) <==> (s.0.contains(e) && !(e.customer
                == CartCustomer::User(customer) && e.selected)),
        forall|e: CartItem|
            #![trigger selected_by(s.0, conversion_filter(customer)).contains(e)]
            selected_by(s.0, conversion_filter(customer)).contains(e) <==> (s.0.contains(e) && e.customer
                == CartCustomer::User(customer) && e.selected),
{
    let f = conversion_filter(customer);
    reveal_with_fuel(run_order_steps, 2);
    assert(p.steps@.drop_last() =~= Seq::<OrderStep<P>>::empty());
    assert forall|e: CartItem| #![trigger kept_by(s.0, f).contains(e)] kept_by(s.0, f).contains(e) <==> (s.0.contains(e)
        && !(e.customer == CartCustomer::User(customer) && e.selected)) by {
        lemma_kept_by_contains(s.0, f, e);
    }
    assert forall|e: CartItem| #![trigger selected_by(s.0, f).contains(e)] selected_by(s.0, f).contains(e) <==> (
    s.0.contains(e) && e.customer == CartCustomer::User(customer) && e.selected) by {
        lemma_selected_by_contains(s.0, f, e);
    }
}

/// Steps that each create an order add their orders and first records, in
/// order, and touch nothing else.
proof fn lemma_run_creations<P>(
    s: (Seq<CartItem>, Seq<OrderRow>, Seq<OrderDiff>),
    steps: Seq<OrderStep<P>>,
    ids: Seq<(OrderId, OrderDiffId)>,
)
    requires
        forall|i: int| 0 <= i < steps.len() ==> #[trigger] steps[i] is CreateOrder,
    ensures
        run_order_steps(s, steps, ids) == Some((s.0, s.1 + created_rows(steps, ids), s.2 + created_diffs(steps, ids))),
    decreases steps.len(),
{
    if steps.len() == 0 {
        assert(s.1 + created_rows(steps, ids) =~= s.1);
        assert(s.2 + created_diffs(steps, ids) =~= s.2);
    } else {
        let prev = steps.drop_last();
        assert forall|i: int| 0 <= i < prev.len() implies #[trigger] prev[i] is CreateOrder by {
            assert(prev[i] == steps[i]);
        }
        lemma_run_creations(s, prev, ids);
        assert(steps.last() is CreateOrder);
        assert(s.1 + created_rows(steps, ids) =~= (s.1 + created_rows(prev, ids)).push(
            OrderRow { id: ids[steps.len() - 1].0, draft: steps.last()->order.order, address: steps.last()->address },
        ));
        assert(s.2 + created_diffs(steps, ids) =~= (s.2 + created_diffs(prev, ids)).push(
            creation_diff(
                ids[steps.len() - 1],
                steps.last()->committer,
                steps.last()->committed_at,
                steps.last()->order.comment,
            ),
        ));
    }
}

/// The second phase of a conversion leaves the cart as the first phase left
/// it and creates one order per taken entry, in order: of the entry's
/// product, store and quantity, for the customer, in the conversion, made
/// of the entry and shipping to the conversion's address. Each order gets
/// exactly one history record: new, with the entry's comment, committed by
/// the caller at the conversion's time. Nothing else is added.
pub proof fn law_conversion_creates_orders<P>(
    s: (Seq<CartItem>, Seq<OrderRow>, Seq<OrderDiff>),
    p: OrderPlan<P>,
    taken: Seq<CartItem>,
    prices: Seq<(ProductId, P)>,
    coupons: Seq<(CouponId, i32)>,
    conversion_id: Option<ConversionId>,
    customer: UserId,
    address: AddressFull,
    receiver_name: Seq<char>,
    receiver_phone: Seq<char>,
    receiver_email: Seq<char>,
    committer: UserId,
    now: i128,
    ids: Seq<(OrderId, OrderDiffId)>,
)
    requires
        is_conversion_plan(
            p,
            taken,
            prices,
            coupons,
            conversion_id,
            customer,
            address,
            receiver_name,
            receiver_phone,
            receiver_email,
            committer,
            now,
        ),
    ensures
        run_order_steps(s, p.steps@, ids) matches Some(t) && {
            &&& t.0 == s.0
            &&& t.1.len() == s.1.len() + taken.len()
            &&& t.1.take(s.1.len() as int) == s.1
            &&& t.2.len() == s.2.len() + taken.len()
            &&& t.2.take(s.2.len() as int) == s.2
            &&& forall|i: int|
                #![trigger taken[i]]
                0 <= i < taken.len() ==> {
                    let o = t.1[s.1.len() + i];
                    &&& o.id == ids[i].0
                    &&& o.address == address
                    &&& o.draft.created_from == Some(taken[i].id)
                    &&& o.draft.conversion_id == conversion_id
                    &&& o.draft.customer == customer
                    &&& o.draft.store == taken[i].store_id
                    &&& o.draft.product == taken[i].product_id
                    &&& o.draft.quantity == taken[i].quantity
                    &&& o.draft.state == OrderState::New
                    &&& o.draft.coupon_id == taken[i].coupon_id
                    &&& t.2[s.2.len() + i] == creation_diff(ids[i], committer, now, taken[i].comment)
                }
        },
{
    let steps = p.steps@;
    assert forall|i: int| 0 <= i < steps.len() implies #[trigger] steps[i] is CreateOrder by {
        assert(creates_order_of(
            steps[i],
            taken[i],
            prices,
            coupons,
            conversion_id,
            customer,
            address,
            receiver_name,
            receiver_phone,
            receiver_email,
            committer,
            now,
        ));
    }
    lemma_run_creations(s, steps, ids);
    let t = (s.0, s.1 + created_rows(steps, ids), s.2 + created_diffs(steps, ids));
    assert(t.1.take(s.1.len() as int) =~= s.1);
    assert(t.2.take(s.2.len() as int) =~= s.2);
    assert forall|i: int| #![trigger taken[i]] 0 <= i < taken.len() implies {
        let o = t.1[s.1.len() + i];
        &&& o.id == ids[i].0
        &&& o.address == address
        &&& o.draft.created_from == Some(taken[i].id)
        &&& o.draft.conversion_id == conversion_id
        &&& o.draft.customer == customer
        &&& o.draft.store == taken[i].store_id
        &&& o.draft.product == taken[i].product_id
        &&& o.draft.quantity == taken[i].quantity
        &&& o.draft.state == OrderState::New
        &&& o.draft.coupon_id == taken[i].coupon_id
        &&& t.2[s.2.len() + i] == creation_diff(ids[i], committer, now, taken[i].comment)
    } by {
        assert(creates_order_of(
            steps[i],
            taken[i],
            prices,
            coupons,
            conversion_id,
            customer,
            address,
            receiver_name,
            receiver_phone,
            receiver_email,
            committer,
            now,
        ));
        assert(t.1[s.1.len() + i] == created_rows(steps, ids)[i]);
        assert(t.2[s.2.len() + i] == created_diffs(steps, ids)[i]);
    }
}

/// A buy-now leaves the cart as it was and adds exactly one order, of its
/// draft and address, with exactly one history record: new, saying
/// `Buy now`, committed by the caller at the request's time.
pub proof fn law_buy_now_adds_one_order<P>(
    s: (Seq<CartItem>, Seq<OrderRow>, Seq<OrderDiff>),
    p: OrderPlan<P>,
    ids: Seq<(OrderId, OrderDiffId)>,
)
    requires
        p.steps@.len() == 1,
        p.steps@[0] matches OrderStep::CreateOrder { order, .. } && order.comment@ == "Buy now"@,
        ids.len() >= 1,
    ensures
        run_order_steps(s, p.steps@, ids) matches Some(t) && {
            &&& t.0 == s.0
            &&& t.1 == s.1.push(OrderRow { id: ids[0].0, draft: p.steps@[0]->order.order, address: p.steps@[0]->address })
            &&& t.2 == s.2.push(
                creation_diff(ids[0], p.steps@[0]->committer, p.steps@[0]->committed_at, p.steps@[0]->order.comment),
            )
            &&& t.2.last().state == OrderState::New
            &&& t.2.last().parent == ids[0].0
            &&& t.2.last().comment matches Some(c) && c@ == "Buy now"@
        },
{
    reveal_with_fuel(run_order_steps, 2);
    assert(p.steps@.drop_last() =~= Seq::<OrderStep<P>>::empty());
}

/// History deletions, one per order id, leave the cart and the orders
/// alone and remove exactly the records of those orders.
proof fn lemma_run_history_deletes<P>(
    s: (Seq<CartItem>, Seq<OrderRow>, Seq<OrderDiff>),
    steps: Seq<OrderStep<P>>,
    order_ids: Seq<OrderId>,
    ids: Seq<(OrderId, OrderDiffId)>,
)
    requires
        steps.len() == order_ids.len(),
        forall|i: int| 0 <= i < steps.len() ==> #[trigger] steps[i] == OrderStep::<P>::DeleteHistory(order_ids[i]),
    ensures
        run_order_steps(s, steps, ids) matches Some(t) && t.0 == s.0 && t.1 == s.1 && forall|d: OrderDiff|
            #![trigger t.2.contains(d)]
            t.2.contains(d) <==> (s.2.contains(d) && !order_ids.contains(d.parent)),
    decreases steps.len(),
{
    if steps.len() > 0 {
        let prev = steps.drop_last();
        let prev_ids = order_ids.drop_last();
        assert forall|i: int| 0 <= i < prev.len() implies #[trigger] prev[i] == OrderStep::<P>::DeleteHistory(
            prev_ids[i],
        ) by {
            assert(prev[i] == steps[i]);
        }
        lemma_run_history_deletes(s, prev, prev_ids, ids);
        let t = run_order_steps(s, prev, ids)->0;
        let last = order_ids.last();
        assert(steps.last() == OrderStep::<P>::DeleteHistory(last));
        let pred = |d: OrderDiff| d.parent != last;
        let u = t.2.filter(pred);
        assert forall|d: OrderDiff| #![trigger u.contains(d)] u.contains(d) <==> (s.2.contains(d) && !order_ids.contains(
            d.parent,
        )) by {
            lemma_contains_last(order_ids, d.parent);
            if u.contains(d) {
                t.2.lemma_filter_contains_rev(pred, d);
                let k = choose|k: int| 0 <= k < u.len() && u[k] == d;
                t.2.lemma_filter_pred(pred, k);
            }
            if t.2.contains(d) && pred(d) {
                let k = choose|k: int| 0 <= k < t.2.len() && t.2[k] == d;
                t.2.lemma_filter_contains(pred, k);
            }
        }
    }
}

/// The second phase of a revert, given the orders that reading the
/// conversion answered with, leaves the cart alone, removes every order of
/// the conversion and keeps the others in order, and removes exactly the
/// history records of the removed orders.
pub proof fn law_revert_removes_conversion<P>(
    s: (Seq<CartItem>, Seq<OrderRow>, Seq<OrderDiff>),
    p: OrderPlan<P>,
    conversion_id: ConversionId,
    ids: Seq<(OrderId, OrderDiffId)>,
)
    requires
        is_revert_clear_plan(p, conversion_id, conversion_rows(s.1, conversion_id).map_values(|r: OrderRow| r.id)),
    ensures
        run_order_steps(s, p.steps@, ids) matches Some(t) && {
            &&& t.0 == s.0
            &&& t.1 == s.1.filter(|r: OrderRow| r.draft.conversion_id != Some(conversion_id))
            &&& forall|r: OrderRow| #[trigger] t.1.contains(r) ==> r.draft.conversion_id != Some(conversion_id)
            &&& forall|d: OrderDiff|
                #![trigger t.2.contains(d)]
                t.2.contains(d) <==> (s.2.contains(d) && !conversion_rows(s.1, conversion_id).map_values(
                    |r: OrderRow| r.id,
                ).contains(d.parent))
        },
{
    let order_ids = conversion_rows(s.1, conversion_id).map_values(|r: OrderRow| r.id);
    let steps = p.steps@;
    let prev = steps.drop_last();
    assert forall|i: int| 0 <= i < prev.len() implies #[trigger] prev[i] == OrderStep::<P>::DeleteHistory(
        order_ids[i],
    ) by {
        assert(prev[i] == steps[i]);
    }
    lemma_run_history_deletes(s, prev, order_ids, ids);
    let pred = |r: OrderRow| r.draft.conversion_id != Some(conversion_id);
    let t1 = s.1.filter(pred);
    assert forall|r: OrderRow| #[trigger] t1.contains(r) implies r.draft.conversion_id != Some(conversion_id) by {
        let k = choose|k: int| 0 <= k < t1.len() && t1[k] == r;
        s.1.lemma_filter_pred(pred, k);
    }
}

/// An entry of the customer's product is kept where another product's
/// entry is replaced.
proof fn lemma_replaced_keeps(s: Seq<CartItem>, c: CartCustomer, p: ProductId, e: CartItem, x: CartItem)
    requires
        s.contains(x),
        !is_entry_of(x, c, p),
    ensures
        replaced(s, c, p, e).contains(x),
    decreases s.len(),
{
    lemma_contains_last(s, x);
    let r = replaced(s.drop_last(), c, p, e);
    if s.drop_last().contains(x) {
        lemma_replaced_keeps(s.drop_last(), c, p, e, x);
    }
    if is_entry_of(s.last(), c, p) {
        vstd::seq_lib::lemma_seq_contains_after_push(r, e, x);
    } else {
        vstd::seq_lib::lemma_seq_contains_after_push(r, s.last(), x);
    }
}

/// Replacing the customer's entry for a product, where there is one, puts
/// the new entry in.
proof fn lemma_replaced_holds_new(s: Seq<CartItem>, c: CartCustomer, p: ProductId, e: CartItem)
    requires
        entry_count(s, c, p) > 0,
    ensures
        replaced(s, c, p, e).contains(e),
    decreases s.len(),
{
    let r = replaced(s.drop_last(), c, p, e);
    if is_entry_of(s.last(), c, p) {
        vstd::seq_lib::lemma_seq_contains_after_push(r, e, e);
    } else {
        lemma_replaced_holds_new(s.drop_last(), c, p, e);
        vstd::seq_lib::lemma_seq_contains_after_push(r, s.last(), e);
    }
}

/// Inserts that replace never fail and touch only the cart.
proof fn lemma_run_restores<P>(
    s: (Seq<CartItem>, Seq<OrderRow>, Seq<OrderDiff>),
    steps: Seq<OrderStep<P>>,
    inserts: Seq<CartItemInserter>,
    ids: Seq<(OrderId, OrderDiffId)>,
)
    requires
        steps.len() == inserts.len(),
        forall|i: int| 0 <= i < steps.len() ==> #[trigger] steps[i] == OrderStep::<P>::InsertCartEntry(inserts[i]),
        forall|i: int| 0 <= i < inserts.len() ==> (#[trigger] inserts[i]).strategy == CartItemMergeStrategy::Replacer,
    ensures
        run_order_steps(s, steps, ids) == Some((restored(s.0, inserts), s.1, s.2)),
    decreases steps.len(),
{
    if steps.len() > 0 {
        let prev = steps.drop_last();
        let prev_ins = inserts.drop_last();
        assert forall|i: int| 0 <= i < prev.len() implies #[trigger] prev[i] == OrderStep::<P>::InsertCartEntry(
            prev_ins[i],
        ) by {
            assert(prev[i] == steps[i]);
        }
        assert forall|i: int| 0 <= i < prev_ins.len() implies (#[trigger] prev_ins[i]).strategy
            == CartItemMergeStrategy::Replacer by {
            assert(prev_ins[i] == inserts[i]);
        }
        lemma_run_restores(s, prev, prev_ins, ids);
        assert(inserts.last() == inserts[inserts.len() - 1]);
        assert(steps.last() == steps[steps.len() - 1]);
    }
}

/// Whether no entry after the `i`-th is for the same customer and product.
pub open spec fn last_for_its_product(inserts: Seq<CartItemInserter>, i: int) -> bool {
    forall|j: int| i < j < inserts.len() ==> !is_entry_of(
        #[trigger] inserts[j].data,
        inserts[i].data.customer,
        inserts[i].data.product_id,
    )
}

/// After inserts that replace, each entry that no later insert of the same
/// customer and product follows is in the cart, as an insert writes it.
proof fn lemma_restored_contains(cart: Seq<CartItem>, inserts: Seq<CartItemInserter>, i: int)
    requires
        0 <= i < inserts.len(),
        last_for_its_product(inserts, i),
        forall|k: int| 0 <= k < inserts.len() ==> (#[trigger] inserts[k]).strategy == CartItemMergeStrategy::Replacer,
    ensures
        restored(cart, inserts).contains(written(inserts[i].data)),
    decreases inserts.len(),
{
    let prev_ins = inserts.drop_last();
    let c0 = restored(cart, prev_ins);
    let ins = inserts.last();
    assert(ins == inserts[inserts.len() - 1]);
    let c = ins.data.customer;
    let pr = ins.data.product_id;
    let w = written(ins.data);
    let x = written(inserts[i].data);
    if i < inserts.len() - 1 {
        assert(prev_ins[i] == inserts[i]);
        assert forall|k: int| 0 <= k < prev_ins.len() implies (#[trigger] prev_ins[k]).strategy
            == CartItemMergeStrategy::Replacer by {
            assert(prev_ins[k] == inserts[k]);
        }
        assert forall|j: int| i < j < prev_ins.len() implies !is_entry_of(
            #[trigger] prev_ins[j].data,
            prev_ins[i].data.customer,
            prev_ins[i].data.product_id,
        ) by {
            assert(prev_ins[j] == inserts[j]);
        }
        lemma_restored_contains(cart, prev_ins, i);
        assert(!is_entry_of(inserts[inserts.len() - 1].data, inserts[i].data.customer, inserts[i].data.product_id));
        if entry_count(c0, c, pr) == 0 {
            vstd::seq_lib::lemma_seq_contains_after_push(c0, w, x);
        } else {
            lemma_replaced_keeps(c0, c, pr, w, x);
        }
    } else {
        if entry_count(c0, c, pr) == 0 {
            vstd::seq_lib::lemma_seq_contains_after_push(c0, w, w);
        } else {
            lemma_replaced_holds_new(c0, c, pr, w);
        }
    }
}

/// The last phase of a revert never fails: it puts each entry into the
/// cart, replacing what the customer held for that product, and leaves
/// the orders and histories alone. Every entry that no later entry of the
/// same customer and product follows is in the cart afterwards, as an
/// insert writes it.
pub proof fn law_revert_restores_entries<P>(
    s: (Seq<CartItem>, Seq<OrderRow>, Seq<OrderDiff>),
    p: OrderPlan<P>,
    inserts: Seq<CartItemInserter>,
    ids: Seq<(OrderId, OrderDiffId)>,
)
    requires
        p.steps@.len() == inserts.len(),
        forall|i: int| 0 <= i < inserts.len() ==> #[trigger] p.steps@[i] == OrderStep::<P>::InsertCartEntry(inserts[i]),
        forall|i: int| 0 <= i < inserts.len() ==> (#[trigger] inserts[i]).strategy == CartItemMergeStrategy::Replacer,
    ensures
        run_order_steps(s, p.steps@, ids) == Some((restored(s.0, inserts), s.1, s.2)),
        forall|i: int|
            #![trigger inserts[i]]
            0 <= i < inserts.len() && last_for_its_product(inserts, i) ==> restored(s.0, inserts).contains(
                written(inserts[i].data),
            ),
{
    lemma_run_restores(s, p.steps@, inserts, ids);
    assert forall|i: int|
        #![trigger inserts[i]]
        0 <= i < inserts.len() && last_for_its_product(inserts, i) implies restored(s.0, inserts).contains(
            written(inserts[i].data),
        ) by {
        lemma_restored_contains(s.0, inserts, i);
    }
}

/// The cart entry that a reverted order comes back as: the entry it was
/// made of (its id, the customer, product, quantity and store), selected,
/// with the comment of the first new record of its history that has one,
/// and, as an insert writes it, without coupon or delivery method.
pub open spec fn is_returned_entry(e: CartItem, order: Order, history: Seq<OrderDiff>) -> bool {
    &&& e.id == order.created_from
    &&& e.customer == CartCustomer::User(order.customer)
    &&& e.product_id == order.product
    &&& e.quantity == order.quantity
    &&& e.selected
    &&& e.comment@ == restored_comment(history)
    &&& e.store_id == order.store
    &&& !e.pre_order
    &&& e.pre_order_days == 0
    &&& e.coupon_id is None
    &&& e.delivery_method_id is None
}

/// Whether the cart holds, for every order that no later order of the same
/// customer and product follows, the entry that the order comes back as.
#[verifier::opaque]
pub open spec fn holds_returned_entries(cart: Seq<CartItem>, orders: Seq<(Order, Seq<OrderDiff>)>) -> bool {
    forall|i: int|
        #![trigger orders[i]]
        0 <= i < orders.len() && (forall|j: int|
            i < j < orders.len() ==> !((#[trigger] orders[j]).0.customer == orders[i].0.customer
                && orders[j].0.product == orders[i].0.product)) ==> exists|e: CartItem|
            cart.contains(e) && is_returned_entry(e, orders[i].0, orders[i].1)
}

/// The last phase of a revert, given each order of the conversion with the
/// history deleted for it, never fails and leaves the orders and histories
/// alone; every order that no later order of the same customer and product
/// follows is back in the cart as the entry it was made of, replacing what
/// the cart held for that product.
pub proof fn law_revert_puts_orders_back<P>(
    s: (Seq<CartItem>, Seq<OrderRow>, Seq<OrderDiff>),
    p: OrderPlan<P>,
    orders: Seq<(Order, Seq<OrderDiff>)>,
    ids: Seq<(OrderId, OrderDiffId)>,
)
    requires
        p.steps@.len() == orders.len(),
        forall|i: int|
            #![trigger p.steps@[i]]
            0 <= i < orders.len() ==> (p.steps@[i] matches OrderStep::InsertCartEntry(ins) && reverted_entry(
                orders[i].0,
                orders[i].1,
                ins,
            )),
    ensures
        run_order_steps(s, p.steps@, ids) matches Some(t) && t.1 == s.1 && t.2 == s.2 && holds_returned_entries(
            t.0,
            orders,
        ),
{
    let n = orders.len();
    let inserts = Seq::new(n, |i: int| p.steps@[i]->InsertCartEntry_0);
    assert forall|i: int| 0 <= i < n implies #[trigger] p.steps@[i] == OrderStep::<P>::InsertCartEntry(inserts[i]) by {
        assert(reverted_entry(orders[i].0, orders[i].1, p.steps@[i]->InsertCartEntry_0));
    }
    assert forall|i: int| 0 <= i < n implies (#[trigger] inserts[i]).strategy == CartItemMergeStrategy::Replacer by {
        assert(p.steps@[i] == OrderStep::<P>::InsertCartEntry(inserts[i]));
        assert(reverted_entry(orders[i].0, orders[i].1, inserts[i]));
    }
    lemma_run_restores(s, p.steps@, inserts, ids);
    let t = (restored(s.0, inserts), s.1, s.2);
    assert forall|i: int|
        #![trigger orders[i]]
        0 <= i < n && (forall|j: int|
            i < j < n ==> !((#[trigger] orders[j]).0.customer == orders[i].0.customer && orders[j].0.product
                == orders[i].0.product)) implies exists|e: CartItem|
        t.0.contains(e) && is_returned_entry(e, orders[i].0, orders[i].1) by {
        assert(p.steps@[i] == OrderStep::<P>::InsertCartEntry(inserts[i]));
        assert(reverted_entry(orders[i].0, orders[i].1, inserts[i]));
        assert forall|j: int| i < j < inserts.len() implies !is_entry_of(
            #[trigger] inserts[j].data,
            inserts[i].data.customer,
            inserts[i].data.product_id,
        ) by {
            assert(p.steps@[j] == OrderStep::<P>::InsertCartEntry(inserts[j]));
            assert(reverted_entry(orders[j].0, orders[j].1, inserts[j]));
            assert(!(orders[j].0.customer == orders[i].0.customer && orders[j].0.product == orders[i].0.product));
        }
        lemma_restored_contains(s.0, inserts, i);
        let w = written(inserts[i].data);
        assert(t.0.contains(w) && is_returned_entry(w, orders[i].0, orders[i].1));
    }
    assert(holds_returned_entries(t.0, orders)) by {
        reveal(holds_returned_entries);
    }
    assert(run_order_steps(s, p.steps@, ids) == Some(t));
}

/// The store after a plan's steps (any store where a step is refused).
#[verifier::opaque]
pub open spec fn after<P>(
    s: (Seq<CartItem>, Seq<OrderRow>, Seq<OrderDiff>),
    p: OrderPlan<P>,
    ids: Seq<(OrderId, OrderDiffId)>,
) -> (Seq<CartItem>, Seq<OrderRow>, Seq<OrderDiff>) {
    run_order_steps(s, p.steps@, ids)->0
}

/// Whether the storage runs every step of a plan.
#[verifier::opaque]
pub open spec fn runs<P>(
    s: (Seq<CartItem>, Seq<OrderRow>, Seq<OrderDiff>),
    p: OrderPlan<P>,
    ids: Seq<(OrderId, OrderDiffId)>,
) -> bool {
    run_order_steps(s, p.steps@, ids) is Some
}

/// The history records of one order, in order.
pub open spec fn history_of(diffs: Seq<OrderDiff>, order_id: OrderId) -> Seq<OrderDiff> {
    diffs.filter(|d: OrderDiff| d.parent == order_id)
}

/// Whether the cart holds every taken entry back that no later taken entry
/// of the same product follows.
#[verifier::opaque]
pub open spec fn holds_taken_entries(cart: Seq<CartItem>, taken: Seq<CartItem>) -> bool {
    forall|i: int| 0 <= i < taken.len() ==> #[trigger] returned_if_last(cart, taken, i)
}

/// A filter that keeps every element keeps the sequence.
proof fn lemma_filter_all<A>(s: Seq<A>, pred: spec_fn(A) -> bool)
    requires
        forall|i: int| 0 <= i < s.len() ==> pred(#[trigger] s[i]),
    ensures
        s.filter(pred) == s,
    decreases s.len(),
{
    reveal(Seq::filter);
    if s.len() > 0 {
        assert forall|i: int| 0 <= i < s.drop_last().len() implies pred(#[trigger] s.drop_last()[i]) by {
            assert(s.drop_last()[i] == s[i]);
        }
        lemma_filter_all(s.drop_last(), pred);
        assert(pred(s[s.len() - 1]));
        assert(s.drop_last().push(s.last()) =~= s);
    }
}

/// A filter that keeps no element gives the empty sequence.
proof fn lemma_filter_none<A>(s: Seq<A>, pred: spec_fn(A) -> bool)
    requires
        forall|i: int| 0 <= i < s.len() ==> !pred(#[trigger] s[i]),
    ensures
        s.filter(pred) == Seq::<A>::empty(),
    decreases s.len(),
{
    reveal(Seq::filter);
    if s.len() > 0 {
        assert forall|i: int| 0 <= i < s.drop_last().len() implies !pred(#[trigger] s.drop_last()[i]) by {
            assert(s.drop_last()[i] == s[i]);
        }
        lemma_filter_none(s.drop_last(), pred);
        assert(!pred(s[s.len() - 1]));
    }
}

/// A filter that keeps exactly the `k`-th element gives that element.
proof fn lemma_filter_one<A>(s: Seq<A>, pred: spec_fn(A) -> bool, k: int)
    requires
        0 <= k < s.len(),
        pred(s[k]),
        forall|i: int| 0 <= i < s.len() && i != k ==> !pred(#[trigger] s[i]),
    ensures
        s.filter(pred) == seq![s[k]],
{
    let a = s.take(k);
    let b = s.skip(k);
    assert(s =~= a + b);
    assert(b =~= seq![s[k]] + b.skip(1));
    assert forall|i: int| 0 <= i < a.len() implies !pred(#[trigger] a[i]) by {
        assert(a[i] == s[i]);
    }
    assert forall|i: int| 0 <= i < b.skip(1).len() implies !pred(#[trigger] b.skip(1)[i]) by {
        assert(b.skip(1)[i] == s[k + 1 + i]);
    }
    lemma_filter_none(a, pred);
    lemma_filter_none(b.skip(1), pred);
    lemma_filter_all(seq![s[k]], pred);
    Seq::filter_distributes_over_add(a, b, pred);
    Seq::filter_distributes_over_add(seq![s[k]], b.skip(1), pred);
    assert(Seq::<A>::empty() + seq![s[k]] + Seq::<A>::empty() =~= seq![s[k]]);
}

/// Whether the cart holds the `i`-th taken entry back (with its id, owner,
/// product, quantity, selection, comment and store) where no later taken
/// entry is of the same product.
pub open spec fn returned_if_last(cart: Seq<CartItem>, taken: Seq<CartItem>, i: int) -> bool {
    (forall|j: int| i < j < taken.len() ==> (#[trigger] taken[j]).product_id != taken[i].product_id) ==> exists|e: CartItem|
        {
            &&& cart.contains(e)
            &&& e.id == taken[i].id
            &&& e.customer == taken[i].customer
            &&& e.product_id == taken[i].product_id
            &&& e.quantity == taken[i].quantity
            &&& e.selected == taken[i].selected
            &&& e.comment@ == taken[i].comment@
            &&& e.store_id == taken[i].store_id
        }
}

/// The two conversion phases: the selected entries leave the cart, and the
/// conversion's orders are exactly the created ones.
proof fn lemma_conversion_state<P>(
    s: (Seq<CartItem>, Seq<OrderRow>, Seq<OrderDiff>),
    customer: UserId,
    conversion_id: ConversionId,
    prices: Seq<(ProductId, P)>,
    coupons: Seq<(CouponId, i32)>,
    address: AddressFull,
    receiver_name: Seq<char>,
    receiver_phone: Seq<char>,
    receiver_email: Seq<char>,
    committer: UserId,
    now: i128,
    start: OrderPlan<P>,
    convert: OrderPlan<P>,
    ids: Seq<(OrderId, OrderDiffId)>,
)
    requires
        start.steps@ == seq![OrderStep::<P>::DeleteCartEntries(conversion_filter(customer))],
        is_conversion_plan(
            convert,
            selected_by(s.0, conversion_filter(customer)),
            prices,
            coupons,
            Some(conversion_id),
            customer,
            address,
            receiver_name,
            receiver_phone,
            receiver_email,
            committer,
            now,
        ),
        forall|k: int| 0 <= k < s.1.len() ==> (#[trigger] s.1[k]).draft.conversion_id != Some(conversion_id),
    ensures
        run_order_steps(s, start.steps@, ids) == Some((kept_by(s.0, conversion_filter(customer)), s.1, s.2)),
        run_order_steps((kept_by(s.0, conversion_filter(customer)), s.1, s.2), convert.steps@, ids) == Some(
            (
                kept_by(s.0, conversion_filter(customer)),
                s.1 + created_rows(convert.steps@, ids),
                s.2 + created_diffs(convert.steps@, ids),
            ),
        ),
        conversion_rows(s.1 + created_rows(convert.steps@, ids), conversion_id) == created_rows(convert.steps@, ids),
{
    let f = conversion_filter(customer);
    let taken = selected_by(s.0, f);
    law_conversion_takes_selected_entries(s, start, customer, ids);
    let t1 = (kept_by(s.0, f), s.1, s.2);
    let steps = convert.steps@;
    let n = steps.len();
    assert forall|i: int| 0 <= i < n implies #[trigger] steps[i] is CreateOrder by {
        assert(creates_order_of(
            steps[i],
            taken[i],
            prices,
            coupons,
            Some(conversion_id),
            customer,
            address,
            receiver_name,
            receiver_phone,
            receiver_email,
            committer,
            now,
        ));
    }
    lemma_run_creations(t1, steps, ids);
    let rows = created_rows(steps, ids);
    let cpred = |r: OrderRow| r.draft.conversion_id == Some(conversion_id);
    assert forall|k: int| 0 <= k < s.1.len() implies !cpred(#[trigger] s.1[k]) by {}
    lemma_filter_none(s.1, cpred);
    assert forall|i: int| 0 <= i < rows.len() implies cpred(#[trigger] rows[i]) by {
        assert(creates_order_of(
            steps[i],
            taken[i],
            prices,
            coupons,
            Some(conversion_id),
            customer,
            address,
            receiver_name,
            receiver_phone,
            receiver_email,
            committer,
            now,
        ));
    }
    lemma_filter_all(rows, cpred);
    Seq::filter_distributes_over_add(s.1, rows, cpred);
    assert(Seq::<OrderRow>::empty() + rows =~= rows);
}

/// The history of a created order is its creation record alone, where the
/// storage numbered the orders apart from each other and from the orders
/// that the existing records name.
proof fn lemma_history_of_created<P>(
    old: Seq<OrderDiff>,
    steps: Seq<OrderStep<P>>,
    ids: Seq<(OrderId, OrderDiffId)>,
    i: int,
)
    requires
        0 <= i < steps.len(),
        forall|a: int, b: int| 0 <= a < b < steps.len() ==> (#[trigger] ids[a]).0 != (#[trigger] ids[b]).0,
        forall|k: int, a: int| 0 <= k < old.len() && 0 <= a < steps.len() ==> (#[trigger] old[k]).parent != (
        #[trigger] ids[a]).0,
    ensures
        history_of(old + created_diffs(steps, ids), ids[i].0) == seq![created_diffs(steps, ids)[i]],
{
    let recs = created_diffs(steps, ids);
    let hpred = |d: OrderDiff| d.parent == ids[i].0;
    assert forall|k: int| 0 <= k < old.len() implies !hpred(#[trigger] old[k]) by {
        assert(old[k].parent != ids[i].0);
    }
    lemma_filter_none(old, hpred);
    assert forall|j: int| 0 <= j < recs.len() && j != i implies !hpred(#[trigger] recs[j]) by {
        if j < i {
            assert(ids[j].0 != ids[i].0);
        } else {
            assert(ids[i].0 != ids[j].0);
        }
    }
    lemma_filter_one(recs, hpred, i);
    Seq::filter_distributes_over_add(old, recs, hpred);
    assert(Seq::<OrderDiff>::empty() + seq![recs[i]] =~= seq![recs[i]]);
}

/// Reading the orders of a conversion changes nothing.
proof fn lemma_read_changes_nothing<P>(
    t: (Seq<CartItem>, Seq<OrderRow>, Seq<OrderDiff>),
    read: OrderPlan<P>,
    conversion_id: ConversionId,
    ids: Seq<(OrderId, OrderDiffId)>,
)
    requires
        read.steps@ == seq![OrderStep::<P>::SelectConversion(conversion_id)],
    ensures
        run_order_steps(t, read.steps@, ids) == Some(t),
{
    reveal_with_fuel(run_order_steps, 2);
    assert(read.steps@.drop_last() =~= Seq::<OrderStep<P>>::empty());
}

/// The orders read back after a conversion match its taken entries one for
/// one, and each one's history gives its entry's comment back.
proof fn lemma_orders_match_taken<P>(
    s: (Seq<CartItem>, Seq<OrderRow>, Seq<OrderDiff>),
    customer: UserId,
    conversion_id: ConversionId,
    prices: Seq<(ProductId, P)>,
    coupons: Seq<(CouponId, i32)>,
    address: AddressFull,
    receiver_name: Seq<char>,
    receiver_phone: Seq<char>,
    receiver_email: Seq<char>,
    committer: UserId,
    now: i128,
    convert: OrderPlan<P>,
    orders: Seq<(Order, Seq<OrderDiff>)>,
    ids: Seq<(OrderId, OrderDiffId)>,
)
    requires
        is_conversion_plan(
            convert,
            selected_by(s.0, conversion_filter(customer)),
            prices,
            coupons,
            Some(conversion_id),
            customer,
            address,
            receiver_name,
            receiver_phone,
            receiver_email,
            committer,
            now,
        ),
        forall|i: int, j: int| 0 <= i < j < convert.steps@.len() ==> (#[trigger] ids[i]).0 != (#[trigger] ids[j]).0,
        forall|k: int, i: int| 0 <= k < s.2.len() && 0 <= i < convert.steps@.len() ==> (#[trigger] s.2[k]).parent != (
        #[trigger] ids[i]).0,
        orders.len() == convert.steps@.len(),
        forall|i: int|
            #![trigger orders[i]]
            0 <= i < orders.len() ==> {
                let row = created_rows(convert.steps@, ids)[i];
                &&& orders[i].0.id == row.id
                &&& stored_draft(orders[i].0, row.draft)
                &&& orders[i].1 == history_of(s.2 + created_diffs(convert.steps@, ids), row.id)
            },
    ensures
        selected_by(s.0, conversion_filter(customer)).len() == orders.len(),
        forall|j: int|
            #![trigger orders[j]]
            0 <= j < orders.len() ==> {
                let taken = selected_by(s.0, conversion_filter(customer));
                &&& orders[j].0.created_from == taken[j].id
                &&& CartCustomer::User(orders[j].0.customer) == taken[j].customer
                &&& orders[j].0.product == taken[j].product_id
                &&& orders[j].0.quantity == taken[j].quantity
                &&& orders[j].0.store == taken[j].store_id
                &&& taken[j].selected
                &&& restored_comment(orders[j].1) == taken[j].comment@
            },
{
    let f = conversion_filter(customer);
    let taken = selected_by(s.0, f);
    let steps = convert.steps@;
    let recs = created_diffs(steps, ids);
    assert forall|j: int|
        #![trigger orders[j]]
        0 <= j < orders.len() implies {
            &&& orders[j].0.created_from == taken[j].id
            &&& CartCustomer::User(orders[j].0.customer) == taken[j].customer
            &&& orders[j].0.product == taken[j].product_id
            &&& orders[j].0.quantity == taken[j].quantity
            &&& orders[j].0.store == taken[j].store_id
            &&& taken[j].selected
            &&& restored_comment(orders[j].1) == taken[j].comment@
        } by {
        assert(creates_order_of(
            steps[j],
            taken[j],
            prices,
            coupons,
            Some(conversion_id),
            customer,
            address,
            receiver_name,
            receiver_phone,
            receiver_email,
            committer,
            now,
        ));
        lemma_history_of_created(s.2, steps, ids, j);
        assert(orders[j].1 == seq![recs[j]]);
        assert(seq![recs[j]].drop_first() =~= Seq::<OrderDiff>::empty());
        lemma_selected_by_contains(s.0, f, taken[j]);
        assert(taken.contains(taken[j]));
    }
}

/// Reading the orders of a conversion runs and changes nothing.
proof fn lemma_read_step<P>(
    t: (Seq<CartItem>, Seq<OrderRow>, Seq<OrderDiff>),
    read: OrderPlan<P>,
    conversion_id: ConversionId,
    ids: Seq<(OrderId, OrderDiffId)>,
)
    requires
        read.steps@ == seq![OrderStep::<P>::SelectConversion(conversion_id)],
    ensures
        runs(t, read, ids),
        after(t, read, ids) == t,
{
    lemma_read_changes_nothing(t, read, conversion_id, ids);
    reveal(runs);
    reveal(after);
}

/// The second phase of a revert runs and leaves the cart alone.
proof fn lemma_clear_step<P>(
    t: (Seq<CartItem>, Seq<OrderRow>, Seq<OrderDiff>),
    clear: OrderPlan<P>,
    conversion_id: ConversionId,
    ids: Seq<(OrderId, OrderDiffId)>,
)
    requires
        is_revert_clear_plan(clear, conversion_id, conversion_rows(t.1, conversion_id).map_values(|r: OrderRow| r.id)),
    ensures
        runs(t, clear, ids),
        after(t, clear, ids).0 == t.0,
{
    law_revert_removes_conversion(t, clear, conversion_id, ids);
    reveal(runs);
    reveal(after);
}

/// The last phase of a revert runs and puts the orders back.
proof fn lemma_put_back_step<P>(
    t: (Seq<CartItem>, Seq<OrderRow>, Seq<OrderDiff>),
    put_back: OrderPlan<P>,
    orders: Seq<(Order, Seq<OrderDiff>)>,
    ids: Seq<(OrderId, OrderDiffId)>,
)
    requires
        put_back.steps@.len() == orders.len(),
        forall|i: int|
            #![trigger put_back.steps@[i]]
            0 <= i < orders.len() ==> (put_back.steps@[i] matches OrderStep::InsertCartEntry(ins) && reverted_entry(
                orders[i].0,
                orders[i].1,
                ins,
            )),
    ensures
        runs(t, put_back, ids),
        holds_returned_entries(after(t, put_back, ids).0, orders),
{
    law_revert_puts_orders_back(t, put_back, orders, ids);
    reveal(runs);
    reveal(after);
}

/// An order read back as stored for the draft of a taken entry, whose
/// history gives the entry's comment back, returns as that entry.
proof fn lemma_entry_given_back(
    cart: Seq<CartItem>,
    taken: Seq<CartItem>,
    orders: Seq<(Order, Seq<OrderDiff>)>,
    i: int,
)
    requires
        holds_returned_entries(cart, orders),
        0 <= i < taken.len(),
        taken.len() == orders.len(),
        taken[i].selected,
        restored_comment(orders[i].1) == taken[i].comment@,
        forall|j: int|
            #![trigger orders[j]]
            0 <= j < orders.len() ==> {
                &&& orders[j].0.created_from == taken[j].id
                &&& CartCustomer::User(orders[j].0.customer) == taken[j].customer
                &&& orders[j].0.product == taken[j].product_id
                &&& orders[j].0.quantity == taken[j].quantity
                &&& orders[j].0.store == taken[j].store_id
            },
    ensures
        returned_if_last(cart, taken, i),
{
    reveal(holds_returned_entries);
    if forall|j: int| i < j < taken.len() ==> (#[trigger] taken[j]).product_id != taken[i].product_id {
        assert forall|j: int| i < j < orders.len() implies !((#[trigger] orders[j]).0.customer == orders[i].0.customer
            && orders[j].0.product == orders[i].0.product) by {
            assert(taken[j].product_id != taken[i].product_id);
        }
        assert(orders[i] == orders[i]);
        let e = choose|e: CartItem| cart.contains(e) && is_returned_entry(e, orders[i].0, orders[i].1);
        assert(cart.contains(e) && is_returned_entry(e, orders[i].0, orders[i].1));
    }
}

/// Converting a customer's cart and then reverting the conversion puts
/// every taken entry (the customer's selected ones) back into the cart with
/// its id, owner, product, quantity, selection, comment and store, where no
/// later taken entry is of the same product. This holds where no order of
/// the conversion existed before, the storage numbers the new orders apart
/// from each other and from the orders that existing records name, the
/// revert reads back each order of the conversion as stored (its id and the
/// draft's entry, owner, store, product, quantity and coupon), with the
/// history that its second phase deletes for it.
pub proof fn law_conversion_then_revert_gives_the_entries_back<P>(
    s: (Seq<CartItem>, Seq<OrderRow>, Seq<OrderDiff>),
    customer: UserId,
    conversion_id: ConversionId,
    prices: Seq<(ProductId, P)>,
    coupons: Seq<(CouponId, i32)>,
    address: AddressFull,
    receiver_name: Seq<char>,
    receiver_phone: Seq<char>,
    receiver_email: Seq<char>,
    committer: UserId,
    now: i128,
    start: OrderPlan<P>,
    convert: OrderPlan<P>,
    read: OrderPlan<P>,
    clear: OrderPlan<P>,
    put_back: OrderPlan<P>,
    orders: Seq<(Order, Seq<OrderDiff>)>,
    ids: Seq<(OrderId, OrderDiffId)>,
)
    requires
        start.steps@ == seq![OrderStep::<P>::DeleteCartEntries(conversion_filter(customer))],
        is_conversion_plan(
            convert,
            selected_by(s.0, conversion_filter(customer)),
            prices,
            coupons,
            Some(conversion_id),
            customer,
            address,
            receiver_name,
            receiver_phone,
            receiver_email,
            committer,
            now,
        ),
        forall|k: int| 0 <= k < s.1.len() ==> (#[trigger] s.1[k]).draft.conversion_id != Some(conversion_id),
        ids.len() >= convert.steps@.len(),
        forall|i: int, j: int| 0 <= i < j < convert.steps@.len() ==> (#[trigger] ids[i]).0 != (#[trigger] ids[j]).0,
        forall|k: int, i: int| 0 <= k < s.2.len() && 0 <= i < convert.steps@.len() ==> (#[trigger] s.2[k]).parent != (
        #[trigger] ids[i]).0,
        read.steps@ == seq![OrderStep::<P>::SelectConversion(conversion_id)],
        is_revert_clear_plan(
            clear,
            conversion_id,
            conversion_rows(after(after(s, start, ids), convert, ids).1, conversion_id).map_values(|r: OrderRow| r.id),
        ),
        orders.len() == conversion_rows(after(after(s, start, ids), convert, ids).1, conversion_id).len(),
        forall|i: int|
            #![trigger orders[i]]
            0 <= i < orders.len() ==> {
                let row = conversion_rows(after(after(s, start, ids), convert, ids).1, conversion_id)[i];
                &&& orders[i].0.id == row.id
                &&& stored_draft(orders[i].0, row.draft)
                &&& orders[i].1 == history_of(after(after(s, start, ids), convert, ids).2, row.id)
            },
        put_back.steps@.len() == orders.len(),
        forall|i: int|
            #![trigger put_back.steps@[i]]
            0 <= i < orders.len() ==> (put_back.steps@[i] matches OrderStep::InsertCartEntry(ins) && reverted_entry(
                orders[i].0,
                orders[i].1,
                ins,
            )),
    ensures
        runs(s, start, ids),
        runs(after(s, start, ids), convert, ids),
        runs(after(after(s, start, ids), convert, ids), read, ids),
        runs(after(after(after(s, start, ids), convert, ids), read, ids), clear, ids),
        runs(after(after(after(after(s, start, ids), convert, ids), read, ids), clear, ids), put_back, ids),
        holds_taken_entries(
            after(after(after(after(after(s, start, ids), convert, ids), read, ids), clear, ids), put_back, ids).0,
            selected_by(s.0, conversion_filter(customer)),
        ),
{
    let f = conversion_filter(customer);
    let taken = selected_by(s.0, f);
    lemma_conversion_state(
        s,
        customer,
        conversion_id,
        prices,
        coupons,
        address,
        receiver_name,
        receiver_phone,
        receiver_email,
        committer,
        now,
        start,
        convert,
        ids,
    );
    let t1 = (kept_by(s.0, f), s.1, s.2);
    let rows = created_rows(convert.steps@, ids);
    let recs = created_diffs(convert.steps@, ids);
    let t2 = (t1.0, s.1 + rows, s.2 + recs);
    assert(after(s, start, ids) == t1 && after(t1, convert, ids) == t2 && runs(s, start, ids) && runs(t1, convert, ids))
        by {
        reveal(after);
        reveal(runs);
    }
    lemma_read_step(t2, read, conversion_id, ids);
    lemma_clear_step(t2, clear, conversion_id, ids);
    let t4 = after(t2, clear, ids);
    lemma_put_back_step(t4, put_back, orders, ids);
    let t5 = after(t4, put_back, ids);
    lemma_orders_match_taken(
        s,
        customer,
        conversion_id,
        prices,
        coupons,
        address,
        receiver_name,
        receiver_phone,
        receiver_email,
        committer,
        now,
        convert,
        orders,
        ids,
    );
    assert forall|i: int| 0 <= i < taken.len() implies #[trigger] returned_if_last(t5.0, taken, i) by {
        let _ = orders[i];
        lemma_entry_given_back(t5.0, taken, orders, i);
    }
    reveal(holds_taken_entries);
}

} // verus!
