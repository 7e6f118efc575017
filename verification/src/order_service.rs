//! Decisions of the order operations: which cart entries become orders,
//! what a reverted conversion puts back into the cart, which orders a state
//! query answers with, and what history record a state change leaves.
//! Amounts of money are not handled here.

use vstd::prelude::*;

use crate::cart::{CartItem, CartItemFilter, CartItemInserter, CartItemMergeStrategy, CartItemMetaFilter};
use crate::cart_service::no_conditions;
use crate::errors::Error;
use crate::order::{
    diff_filter_args, diff_filter_columns, diff_statement_selects, law_history_statement_selects_what_the_filter_says,
    is_empty_diff_filter, is_empty_order_filter, spec_into_range, into_range, Order, OrderDiff,
    OrderDiffFilter, OrderDiffInserter, OrderFilter, OrderSearchTerms, OrderUpdateData, OrderUpdater,
};
use crate::types::{
    CartCustomer, CartItemId, ConversionId, CouponId, OrderId, OrderIdentifier, OrderState, ProductId,
    UserId, UserLogin,
};

verus! {

/// The user that history records name as committer: the caller, or user
/// `-1` for an anonymous caller.
pub open spec fn spec_calling_user(login: UserLogin) -> UserId {
    match login {
        UserLogin::User { caller_id, .. } => caller_id,
        UserLogin::Anonymous => UserId(-1i32),
    }
}

pub fn calling_user(login: &UserLogin) -> (r: UserId)
    ensures
        r == spec_calling_user(*login),
{
    match login {
        UserLogin::User { caller_id, .. } => *caller_id,
        UserLogin::Anonymous => UserId(-1i32),
    }
}

/// The entries of a cart that a conversion takes: the selected ones of the
/// customer.
pub fn conversion_cart_filter(customer: UserId) -> (r: CartItemFilter)
    ensures
        r.customer == Some(CartCustomer::User(customer)),
        r.meta_filter.selected == Some(true),
        no_conditions(CartItemMetaFilter { selected: None, ..r.meta_filter }),
{
    let mut m = CartItemMetaFilter::default();
    m.selected = Some(true);
    CartItemFilter { customer: Some(CartCustomer::User(customer)), meta_filter: m }
}

/// A cart entry with the seller's price of its product and the percent of
/// its coupon.
#[derive(Debug)]
pub struct PricedCartItem<P> {
    pub item: CartItem,
    pub price: P,
    pub coupon_percent: Option<i32>,
}

/// The value that the first pair with key `k` holds, if any.
pub open spec fn lookup<K, V>(pairs: Seq<(K, V)>, k: K) -> Option<V>
    decreases pairs.len(),
{
    if pairs.len() == 0 {
        None
    } else if pairs[0].0 == k {
        Some(pairs[0].1)
    } else {
        lookup(pairs.drop_first(), k)
    }
}

fn find_price<P: Copy>(prices: &Vec<(ProductId, P)>, k: ProductId) -> (r: Option<P>)
    ensures
        r == lookup(prices@, k),
{
    let n = prices.len();
    let mut i: usize = 0;
    assert(prices@.skip(0) =~= prices@);
    while i < n
        invariant
            n == prices@.len(),
            i <= n,
            lookup(prices@, k) == lookup(prices@.skip(i as int), k),
        decreases n - i,
    {
        assert(prices@.skip(i as int)[0] == prices@[i as int]);
        assert(prices@.skip(i as int).drop_first() =~= prices@.skip(i + 1));
        if prices[i].0 == k {
            return Some(prices[i].1);
        }
        i = i + 1;
    }
    None
}

fn find_coupon(coupons: &Vec<(CouponId, i32)>, k: CouponId) -> (r: Option<i32>)
    ensures
        r == lookup(coupons@, k),
{
    let n = coupons.len();
    let mut i: usize = 0;
    assert(coupons@.skip(0) =~= coupons@);
    while i < n
        invariant
            n == coupons@.len(),
            i <= n,
            lookup(coupons@, k) == lookup(coupons@.skip(i as int), k),
        decreases n - i,
    {
        assert(coupons@.skip(i as int)[0] == coupons@[i as int]);
        assert(coupons@.skip(i as int).drop_first() =~= coupons@.skip(i + 1));
        if coupons[i].0 == k {
            return Some(coupons[i].1);
        }
        i = i + 1;
    }
    None
}

/// The percent of the coupon on an entry, when the entry has a coupon that
/// is known.
pub open spec fn coupon_percent_of(coupon_id: Option<CouponId>, coupons: Seq<(CouponId, i32)>) -> Option<i32> {
    match coupon_id {
        Some(c) => lookup(coupons, c),
        None => None,
    }
}

/// Whether every entry of the cart has a price.
pub open spec fn all_priced<P>(cart: Seq<CartItem>, prices: Seq<(ProductId, P)>) -> bool {
    forall|i: int| 0 <= i < cart.len() ==> (#[trigger] lookup(prices, cart[i].product_id)) is Some
}

/// Pairs each taken cart entry, in order, with its price and coupon percent;
/// fails with `MissingPrice` when some entry's product has no price.
#[verifier::loop_isolation(false)]
pub fn price_cart_items<P: Copy>(
    cart: Vec<CartItem>,
    prices: &Vec<(ProductId, P)>,
    coupons: &Vec<(CouponId, i32)>,
) -> (r: Result<Vec<PricedCartItem<P>>, Error>)
    ensures
        all_priced(cart@, prices@) <==> r is Ok,
        r matches Err(e) ==> e == Error::MissingPrice,
        r matches Ok(v) ==> v@.len() == cart@.len() && forall|i: int| #![trigger v@[i]] 0 <= i < cart@.len() ==> {
            &&& v@[i].item == cart@[i]
            &&& Some(v@[i].price) == lookup(prices@, cart@[i].product_id)
            &&& v@[i].coupon_percent == coupon_percent_of(cart@[i].coupon_id, coupons@)
        },
{
    let ghost old_cart = cart@;
    let ghost n = old_cart.len();
    let mut cart = cart;
    let mut out: Vec<PricedCartItem<P>> = Vec::new();
    while cart.len() > 0
        invariant
            out@.len() + cart@.len() == n,
            n == old_cart.len(),
            cart@ =~= old_cart.subrange(out@.len() as int, n as int),
            forall|i: int| #![trigger out@[i]] 0 <= i < out@.len() ==> {
                &&& out@[i].item == old_cart[i]
                &&& Some(out@[i].price) == lookup(prices@, old_cart[i].product_id)
                &&& out@[i].coupon_percent == coupon_percent_of(old_cart[i].coupon_id, coupons@)
            },
        decreases cart@.len(),
    {
        let item = cart.remove(0);
        let ghost k = out@.len() as int;
        assert(item == old_cart[k]);
        match find_price(prices, item.product_id) {
            Some(price) => {
                let coupon_percent = match item.coupon_id {
                    Some(c) => find_coupon(coupons, c),
                    None => None,
                };
                out.push(PricedCartItem { item, price, coupon_percent });
            },
            None => {
                assert(!all_priced(old_cart, prices@)) by {
                    assert(lookup(prices@, old_cart[k].product_id) is None);
                }
                return Err(Error::MissingPrice);
            },
        }
    }
    assert(all_priced(old_cart, prices@)) by {
        assert forall|i: int| 0 <= i < old_cart.len() implies (#[trigger] lookup(prices@, old_cart[i].product_id)) is Some by {
            assert(Some(out@[i].price) == lookup(prices@, old_cart[i].product_id));
        }
    }
    Ok(out)
}

/// Which discount an order gets: the product's own discount when it is
/// above the negligible amount, else the coupon's, else none.
#[derive(Clone, Copy, Debug, PartialEq, Eq, Structural)]
pub enum DiscountKind {
    Product,
    Coupon(i32),
    NoDiscount,
}

pub open spec fn spec_discount_kind(product_discount_significant: bool, coupon_percent: Option<i32>) -> DiscountKind {
    if product_discount_significant {
        DiscountKind::Product
    } else {
        match coupon_percent {
            Some(p) => DiscountKind::Coupon(p),
            None => DiscountKind::NoDiscount,
        }
    }
}

/// Chooses the discount of an order; a product discount wins over a coupon.
pub fn discount_kind(product_discount_significant: bool, coupon_percent: Option<i32>) -> (r: DiscountKind)
    ensures
        r == spec_discount_kind(product_discount_significant, coupon_percent),
{
    if product_discount_significant {
        DiscountKind::Product
    } else {
        match coupon_percent {
            Some(p) => DiscountKind::Coupon(p),
            None => DiscountKind::NoDiscount,
        }
    }
}

/// The comment that a conversion stored for an order: the comment of the
/// first `New` record that has one, else the empty text.
pub open spec fn restored_comment(diffs: Seq<OrderDiff>) -> Seq<char>
    decreases diffs.len(),
{
    if diffs.len() == 0 {
        Seq::empty()
    } else if diffs[0].state == OrderState::New && diffs[0].comment is Some {
        diffs[0].comment->0@
    } else {
        restored_comment(diffs.drop_first())
    }
}

/// The cart entry that a reverted order becomes.
pub open spec fn reverted_entry(order: Order, diffs: Seq<OrderDiff>, r: CartItemInserter) -> bool {
    &&& r.strategy == CartItemMergeStrategy::Replacer
    &&& r.data.id == order.created_from
    &&& r.data.customer == CartCustomer::User(order.customer)
    &&& r.data.product_id == order.product
    &&& r.data.quantity == order.quantity
    &&& r.data.selected
    &&& r.data.comment@ == restored_comment(diffs)
    &&& r.data.store_id == order.store
    &&& !r.data.pre_order
    &&& r.data.pre_order_days == 0
    &&& r.data.coupon_id == order.coupon_id
    &&& r.data.delivery_method_id is None
}

/// The comment of the first `New` record with a comment.
#[verifier::loop_isolation(false)]
pub fn comment_of_history(diffs: Vec<OrderDiff>) -> (r: String)
    ensures
        r@ == restored_comment(diffs@),
{
    let ghost all = diffs@;
    let mut diffs = diffs;
    assert(all.skip(0) =~= all);
    while diffs.len() > 0
        invariant
            all.len() >= diffs@.len(),
            diffs@ =~= all.skip(all.len() - diffs@.len()),
            restored_comment(all) == restored_comment(diffs@),
        decreases diffs@.len(),
    {
        let ghost before = diffs@;
        let d = diffs.remove(0);
        assert(d == before[0]);
        assert(diffs@ =~= before.drop_first());
        if d.state == OrderState::New {
            if let Some(comment) = d.comment {
                return comment;
            }
        }
    }
    String::new()
}

/// What a reverted conversion puts back into the cart: for each order, in
/// order, its entry with the comment from its history, replacing what the
/// cart holds for that product.
pub fn reverted_cart_items(orders: Vec<(Order, Vec<OrderDiff>)>) -> (r: Vec<CartItemInserter>)
    ensures
        r@.len() == orders@.len(),
        forall|i: int| #![trigger r@[i]] 0 <= i < orders@.len() ==> reverted_entry(orders@[i].0, orders@[i].1@, r@[i]),
{
    let ghost all = orders@;
    let ghost n = all.len();
    let mut orders = orders;
    let mut out: Vec<CartItemInserter> = Vec::new();
    while orders.len() > 0
        invariant
            out@.len() + orders@.len() == n,
            n == all.len(),
            orders@ =~= all.subrange(out@.len() as int, n as int),
            forall|i: int| #![trigger out@[i]] 0 <= i < out@.len() ==> reverted_entry(all[i].0, all[i].1@, out@[i]),
        decreases orders@.len(),
    {
        let (order, diffs) = orders.remove(0);
        let ghost k = out@.len() as int;
        assert(order == all[k].0 && diffs == all[k].1);
        let comment = comment_of_history(diffs);
        let data = CartItem {
            id: order.created_from,
            customer: CartCustomer::User(order.customer),
            product_id: order.product,
            quantity: order.quantity,
            selected: true,
            comment,
            store_id: order.store,
            pre_order: false,
            pre_order_days: 0,
            coupon_id: order.coupon_id,
            delivery_method_id: None,
        };
        out.push(CartItemInserter { strategy: CartItemMergeStrategy::Replacer, data });
    }
    out
}

/// The orders of a conversion.
pub fn conversion_orders_filter(conversion_id: ConversionId) -> (r: OrderFilter)
    ensures
        r.conversion_id == Some(conversion_id),
        is_empty_order_filter(OrderFilter { conversion_id: None, ..r }),
{
    let mut f = OrderFilter::default();
    f.conversion_id = Some(conversion_id);
    f
}

/// Whether `id` is the parent of one of the records.
pub open spec fn is_parent_of_some(diffs: Seq<OrderDiff>, id: OrderId) -> bool {
    exists|j: int| 0 <= j < diffs.len() && (#[trigger] diffs[j]).parent == id
}

/// Whether some order of the sequence has the id.
pub open spec fn has_id(orders: Seq<Order>, id: OrderId) -> bool {
    exists|j: int| 0 <= j < orders.len() && (#[trigger] orders[j]).id == id
}

/// The orders, in order, that some record names as parent, each id once:
/// of orders that share an id, the last one.
pub open spec fn orders_named_by(orders: Seq<Order>, diffs: Seq<OrderDiff>) -> Seq<Order>
    decreases orders.len(),
{
    if orders.len() == 0 {
        Seq::empty()
    } else {
        let first = orders[0];
        let rest = orders_named_by(orders.drop_first(), diffs);
        if is_parent_of_some(diffs, first.id) && !has_id(orders.drop_first(), first.id) {
            seq![first] + rest
        } else {
            rest
        }
    }
}

fn named_by(diffs: &Vec<OrderDiff>, id: OrderId) -> (r: bool)
    ensures
        r == is_parent_of_some(diffs@, id),
{
    let n = diffs.len();
    let mut j: usize = 0;
    while j < n
        invariant
            n == diffs@.len(),
            j <= n,
            forall|k: int| 0 <= k < j ==> (#[trigger] diffs@[k]).parent != id,
        decreases n - j,
    {
        if diffs[j].parent == id {
            return true;
        }
        j = j + 1;
    }
    false
}

fn seen_later(orders: &Vec<Order>, id: OrderId) -> (r: bool)
    ensures
        r == has_id(orders@, id),
{
    let n = orders.len();
    let mut j: usize = 0;
    while j < n
        invariant
            n == orders@.len(),
            j <= n,
            forall|k: int| 0 <= k < j ==> (#[trigger] orders@[k]).id != id,
        decreases n - j,
    {
        if orders[j].id == id {
            assert(orders@[j as int].id == id);
            return true;
        }
        j = j + 1;
    }
    false
}

/// The orders in a state that have a recent record of that state: the
/// orders, in order and each id once (the last order with it), that some
/// record names as parent.
pub fn orders_with_recent_diffs(orders: Vec<Order>, recent_diffs: &Vec<OrderDiff>) -> (r: Vec<Order>)
    ensures
        r@ == orders_named_by(orders@, recent_diffs@),
{
    let ghost all = orders@;
    let mut orders = orders;
    let mut out: Vec<Order> = Vec::new();
    while orders.len() > 0
        invariant
            out@ + orders_named_by(orders@, recent_diffs@) == orders_named_by(all, recent_diffs@),
        decreases orders@.len(),
    {
        let ghost before = orders@;
        let order = orders.remove(0);
        assert(order == before[0]);
        assert(orders@ =~= before.drop_first());
        let named = named_by(recent_diffs, order.id);
        let later = seen_later(&orders, order.id);
        let ghost rest = orders_named_by(orders@, recent_diffs@);
        if named && !later {
            let ghost prev = out@;
            out.push(order);
            assert(out@ + rest =~= prev + (seq![order] + rest));
        }
    }
    assert(out@ + Seq::<Order>::empty() =~= out@);
    out
}

/// The records of `state` committed at or after `since`.
pub fn recent_diffs_filter(state: OrderState, since: i128) -> (r: OrderDiffFilter)
    ensures
        r.state == Some(state),
        r.committed_at_range == spec_into_range(Some(since), None),
        is_empty_diff_filter(OrderDiffFilter { state: None, committed_at_range: None, ..r }),
{
    let mut f = OrderDiffFilter::default();
    f.state = Some(state);
    f.committed_at_range = into_range(Some(since), None);
    f
}

/// The records of one order that moved it into the delivered state at or
/// before `until`: an order is due for completion only once it has been
/// delivered for the whole period that ends at `until`.
pub fn old_diffs_filter(order_id: OrderId, until: i128) -> (r: OrderDiffFilter)
    ensures
        r.parent == Some(order_id),
        r.state == Some(OrderState::Delivered),
        r.committed_at_range == spec_into_range(None, Some(until)),
        is_empty_diff_filter(OrderDiffFilter { parent: None, state: None, committed_at_range: None, ..r }),
{
    let mut f = OrderDiffFilter::default();
    f.parent = Some(order_id);
    f.state = Some(OrderState::Delivered);
    f.committed_at_range = into_range(None, Some(until));
    f
}

/// The history statement of the old-records filter of an order selects
/// exactly the records that moved that order into the delivered state at or
/// before `until`: a delivery committed after `until` is not found, so an
/// order delivered less than the whole period ago is not completed yet.
pub proof fn law_old_records_are_deliveries_before(f: OrderDiffFilter, order_id: OrderId, until: i128, d: OrderDiff)
    requires
        f.parent == Some(order_id),
        f.state == Some(OrderState::Delivered),
        f.committed_at_range == spec_into_range(None, Some(until)),
        is_empty_diff_filter(OrderDiffFilter { parent: None, state: None, committed_at_range: None, ..f }),
    ensures
        diff_statement_selects(diff_filter_columns(f), diff_filter_args(f), d) <==> (d.parent == order_id && d.state
            == OrderState::Delivered && d.committed_at <= until),
{
    law_history_statement_selects_what_the_filter_says(f, d);
}

/// The search for the orders in one state.
pub fn state_search(state: OrderState) -> (r: OrderSearchTerms)
    ensures
        r.state == Some(state),
        r.slug is None,
        r.created_from is None,
        r.created_to is None,
        r.payment_status is None,
        r.customer is None,
        r.store is None,
{
    OrderSearchTerms {
        slug: None,
        created_from: None,
        created_to: None,
        payment_status: None,
        customer: None,
        store: None,
        state: Some(state),
    }
}

/// The orders that the records name, record by record.
pub open spec fn parents_of(groups: Seq<Seq<OrderDiff>>) -> Seq<OrderId>
    decreases groups.len(),
{
    if groups.len() == 0 {
        Seq::empty()
    } else {
        parents_of(groups.drop_last()) + groups.last().map_values(|d: OrderDiff| d.parent)
    }
}

/// The orders to complete: the parent of every old record found, in order
/// (an order appears once per record).
pub fn orders_to_complete(groups: &Vec<Vec<OrderDiff>>) -> (r: Vec<OrderId>)
    ensures
        r@ == parents_of(groups@.map_values(|g: Vec<OrderDiff>| g@)),
{
    let ghost gs = groups@.map_values(|g: Vec<OrderDiff>| g@);
    let mut out: Vec<OrderId> = Vec::new();
    let n = groups.len();
    let mut i: usize = 0;
    assert(gs.take(0) =~= Seq::<Seq<OrderDiff>>::empty());
    while i < n
        invariant
            n == groups@.len(),
            gs == groups@.map_values(|g: Vec<OrderDiff>| g@),
            i <= n,
            out@ == parents_of(gs.take(i as int)),
        decreases n - i,
    {
        let g = &groups[i];
        let ghost before = out@;
        let m = g.len();
        let mut j: usize = 0;
        while j < m
            invariant
                m == g@.len(),
                j <= m,
                out@ =~= before + g@.take(j as int).map_values(|d: OrderDiff| d.parent),
            decreases m - j,
        {
            out.push(g[j].parent);
            assert(g@.take(j + 1).map_values(|d: OrderDiff| d.parent) =~= g@.take(j as int).map_values(
                |d: OrderDiff| d.parent,
            ).push(g@[j as int].parent));
            j = j + 1;
        }
        assert(g@.take(m as int) =~= g@);
        assert(gs.take(i + 1).drop_last() =~= gs.take(i as int));
        assert(gs.take(i + 1).last() == g@);
        i = i + 1;
    }
    assert(gs.take(n as int) =~= gs);
    out
}

/// The update that moves an order into `state`, setting the track id when
/// one is given.
pub fn order_state_updater(order_id: OrderIdentifier, state: OrderState, track_id: Option<String>) -> (r: OrderUpdater)
    ensures
        r.mask == OrderFilter::spec_from_identifier(order_id),
        r.data.state == Some(state),
        r.data.track_id == track_id,
{
    OrderUpdater { mask: OrderFilter::from_identifier(order_id), data: OrderUpdateData { state: Some(state), track_id } }
}

/// After a state change: the last updated order, with the history record
/// that names it, its new state, the committer, the time and the comment;
/// nothing when no order was updated.
pub fn state_change_record(
    updated: Vec<Order>,
    committer: UserId,
    now: i128,
    comment: Option<String>,
) -> (r: Option<(Order, OrderDiffInserter)>)
    ensures
        updated@.len() == 0 ==> r is None,
        updated@.len() > 0 ==> (r matches Some((o, d)) && o == updated@.last() && d == (OrderDiffInserter {
            parent: o.id,
            committer,
            committed_at: now,
            state: o.state,
            comment,
        })),
{
    let mut updated = updated;
    match updated.pop() {
        Some(order) => {
            let diff = OrderDiffInserter { parent: order.id, committer, committed_at: now, state: order.state, comment };
            Some((order, diff))
        },
        None => None,
    }
}

/// The point in time `duration` nanoseconds before `now`.
pub fn time_before(now: i128, duration: i128) -> (r: i128)
    requires
        -0x1_0000_0000_0000_0000_0000_0000 <= now <= 0x1_0000_0000_0000_0000_0000_0000,
        -0x1_0000_0000_0000_0000_0000_0000 <= duration <= 0x1_0000_0000_0000_0000_0000_0000,
    ensures
        r == now - duration,
{
    now - duration
}

/// Nanoseconds in a number of days.
pub open spec fn days_nanos(days: int) -> int {
    days * 86_400_000_000_000
}

/// The largest number of days that a duration holds.
pub open spec fn max_duration_days() -> int {
    106_751_991_167
}

/// A number of days as nanoseconds.
pub fn days_to_nanos(days: i64) -> (r: i128)
    requires
        -max_duration_days() <= days <= max_duration_days(),
    ensures
        r == days_nanos(days as int),
{
    assert(-106_751_991_167 * 86_400_000_000_000 <= days * 86_400_000_000_000 <= 106_751_991_167
        * 86_400_000_000_000) by (nonlinear_arith)
        requires
            -106_751_991_167 <= days <= 106_751_991_167,
    ;
    (days as i128) * 86_400_000_000_000
}

/// The orders, in order, that have been in their state for at least `days`
/// days at `now`, judged by their last update.
pub open spec fn due_orders(orders: Seq<Order>, now: i128, days: int) -> Seq<OrderId>
    decreases orders.len(),
{
    if orders.len() == 0 {
        Seq::empty()
    } else {
        let rest = due_orders(orders.drop_last(), now, days);
        if now - orders.last().updated_at >= days_nanos(days) {
            rest.push(orders.last().id)
        } else {
            rest
        }
    }
}

/// The delivered orders to complete: those last updated at least `days`
/// days before `now`.
pub fn orders_due_for_completion(orders: &Vec<Order>, now: i128, days: i64) -> (r: Vec<OrderId>)
    requires
        -max_duration_days() <= days <= max_duration_days(),
        -0x1_0000_0000_0000_0000_0000_0000 <= now <= 0x1_0000_0000_0000_0000_0000_0000,
        forall|i: int| 0 <= i < orders@.len() ==> -0x1_0000_0000_0000_0000_0000_0000 <= (#[trigger] orders@[i]).updated_at
            <= 0x1_0000_0000_0000_0000_0000_0000,
    ensures
        r@ == due_orders(orders@, now, days as int),
{
    let limit = days_to_nanos(days);
    let mut out: Vec<OrderId> = Vec::new();
    let n = orders.len();
    let mut i: usize = 0;
    assert(orders@.take(0) =~= Seq::<Order>::empty());
    while i < n
        invariant
            n == orders@.len(),
            i <= n,
            limit == days_nanos(days as int),
            -0x1_0000_0000_0000_0000_0000_0000 <= now <= 0x1_0000_0000_0000_0000_0000_0000,
            forall|k: int| 0 <= k < orders@.len() ==> -0x1_0000_0000_0000_0000_0000_0000 <= (#[trigger] orders@[k]).updated_at
                <= 0x1_0000_0000_0000_0000_0000_0000,
            out@ == due_orders(orders@.take(i as int), now, days as int),
        decreases n - i,
    {
        let o = &orders[i];
        assert(orders@.take(i + 1).drop_last() =~= orders@.take(i as int));
        assert(orders@.take(i + 1).last() == orders@[i as int]);
        if now - o.updated_at >= limit {
            out.push(o.id);
        }
        i = i + 1;
    }
    assert(orders@.take(n as int) =~= orders@);
    out
}

/// The orders of one customer.
pub fn orders_for_user_filter(customer: UserId) -> (r: OrderFilter)
    ensures
        r.customer == Some(customer),
        is_empty_order_filter(OrderFilter { customer: None, ..r }),
{
    let mut f = OrderFilter::default();
    f.customer = Some(customer);
    f
}

/// The orders of one store.
pub fn orders_for_store_filter(store: crate::types::StoreId) -> (r: OrderFilter)
    ensures
        r.store == Some(store),
        is_empty_order_filter(OrderFilter { store: None, ..r }),
{
    let mut f = OrderFilter::default();
    f.store = Some(store);
    f
}

/// The filter of a search, newest orders first.
pub fn search_filter(terms: OrderSearchTerms) -> (r: Result<OrderFilter, Error>)
    ensures
        r matches Ok(f) && f.do_order && f.slug == terms.slug && f.created_at == spec_into_range(
            terms.created_from,
            terms.created_to,
        ) && f.payment_status == terms.payment_status && f.customer == terms.customer && f.store == terms.store
            && f.state == terms.state && is_empty_order_filter(
            OrderFilter {
                do_order: false,
                slug: None,
                created_at: None,
                payment_status: None,
                customer: None,
                store: None,
                state: None,
                ..f
            },
        ),
{
    match OrderFilter::from_search_terms(terms) {
        Ok(f) => Ok(f.with_ordering(true)),
        Err(e) => Err(e),
    }
}

/// The order that a lookup by identifier answers with: the last row found.
pub fn found_order(orders: Vec<Order>) -> (r: Option<Order>)
    ensures
        orders@.len() == 0 ==> r is None,
        orders@.len() > 0 ==> r == Some(orders@.last()),
{
    let mut orders = orders;
    orders.pop()
}

/// The order id that an identifier names without a lookup: an id names
/// itself, a slug needs the order to be read first.
pub fn direct_order_id(order_id: OrderIdentifier) -> (r: Option<OrderId>)
    ensures
        r == match order_id {
            OrderIdentifier::Id(id) => Some(id),
            OrderIdentifier::Slug(_) => None,
        },
{
    match order_id {
        OrderIdentifier::Id(id) => Some(id),
        OrderIdentifier::Slug(_) => None,
    }
}

/// The history of an order, newest record first.
pub fn history_filter(order_id: OrderId) -> (r: OrderDiffFilter)
    ensures
        r.parent == Some(order_id),
        r.do_order,
        is_empty_diff_filter(OrderDiffFilter { parent: None, do_order: false, ..r }),
{
    OrderDiffFilter::from_parent(order_id).with_ordering(true)
}

/// An order about to be created, without its amounts of money and its
/// address.
#[derive(Debug)]
pub struct OrderDraft {
    pub created_from: Option<CartItemId>,
    pub conversion_id: Option<ConversionId>,
    pub customer: UserId,
    pub store: crate::types::StoreId,
    pub product: ProductId,
    pub quantity: crate::types::Quantity,
    pub receiver_name: String,
    pub receiver_phone: String,
    pub receiver_email: String,
    pub state: OrderState,
    pub delivery_company: Option<String>,
    pub track_id: Option<String>,
    pub pre_order: bool,
    pub pre_order_days: i32,
    pub coupon_id: Option<CouponId>,
    pub coupon_percent: Option<i32>,
}

/// The order that a conversion makes of a cart entry: a new order of the
/// entry's product, quantity and store for the customer, remembering the
/// entry it came from.
pub open spec fn is_conversion_draft<P>(
    d: OrderDraft,
    p: PricedCartItem<P>,
    conversion_id: Option<ConversionId>,
    customer: UserId,
    receiver_name: Seq<char>,
    receiver_phone: Seq<char>,
    receiver_email: Seq<char>,
) -> bool {
    &&& d.created_from == Some(p.item.id)
    &&& d.conversion_id == conversion_id
    &&& d.customer == customer
    &&& d.store == p.item.store_id
    &&& d.product == p.item.product_id
    &&& d.quantity == p.item.quantity
    &&& d.receiver_name@ == receiver_name
    &&& d.receiver_phone@ == receiver_phone
    &&& d.receiver_email@ == receiver_email
    &&& d.state == OrderState::New
    &&& d.delivery_company is None
    &&& d.track_id is None
    &&& d.pre_order == p.item.pre_order
    &&& d.pre_order_days == p.item.pre_order_days
    &&& d.coupon_id == p.item.coupon_id
    &&& d.coupon_percent == p.coupon_percent
}

/// A new order drafted from a priced cart entry, with its price and the
/// entry's comment for the order's history.
#[derive(Debug)]
pub struct ConversionDraft<P> {
    pub order: OrderDraft,
    pub price: P,
    pub comment: String,
}

/// The orders of a conversion: one per priced entry, in order.
pub fn conversion_drafts<P: Copy>(
    priced: Vec<PricedCartItem<P>>,
    conversion_id: Option<ConversionId>,
    customer: UserId,
    receiver_name: &str,
    receiver_phone: &str,
    receiver_email: &str,
) -> (r: Vec<ConversionDraft<P>>)
    ensures
        r@.len() == priced@.len(),
        forall|i: int| #![trigger r@[i]] 0 <= i < priced@.len() ==> {
            &&& is_conversion_draft(
                r@[i].order,
                priced@[i],
                conversion_id,
                customer,
                receiver_name@,
                receiver_phone@,
                receiver_email@,
            )
            &&& r@[i].price == priced@[i].price
            &&& r@[i].comment == priced@[i].item.comment
        },
{
    let ghost all = priced@;
    let ghost n = all.len();
    let mut priced = priced;
    let mut out: Vec<ConversionDraft<P>> = Vec::new();
    while priced.len() > 0
        invariant
            out@.len() + priced@.len() == n,
            n == all.len(),
            priced@ =~= all.subrange(out@.len() as int, n as int),
            forall|i: int| #![trigger out@[i]] 0 <= i < out@.len() ==> {
                &&& is_conversion_draft(
                    out@[i].order,
                    all[i],
                    conversion_id,
                    customer,
                    receiver_name@,
                    receiver_phone@,
                    receiver_email@,
                )
                &&& out@[i].price == all[i].price
                &&& out@[i].comment == all[i].item.comment
            },
        decreases priced@.len(),
    {
        let p = priced.remove(0);
        let ghost k = out@.len() as int;
        assert(p == all[k]);
        let order = OrderDraft {
            created_from: Some(p.item.id),
            conversion_id,
            customer,
            store: p.item.store_id,
            product: p.item.product_id,
            quantity: p.item.quantity,
            receiver_name: String::from_str(receiver_name),
            receiver_phone: String::from_str(receiver_phone),
            receiver_email: String::from_str(receiver_email),
            state: OrderState::New,
            delivery_company: None,
            track_id: None,
            pre_order: p.item.pre_order,
            pre_order_days: p.item.pre_order_days,
            coupon_id: p.item.coupon_id,
            coupon_percent: p.coupon_percent,
        };
        out.push(ConversionDraft { order, price: p.price, comment: p.item.comment });
    }
    out
}

/// A buy-now request: one product bought at once, without its address; the
/// coupon, when there is one, with its percent.
#[derive(Debug)]
pub struct BuyNow<P> {
    pub customer_id: UserId,
    pub store_id: crate::types::StoreId,
    pub product_id: ProductId,
    pub quantity: crate::types::Quantity,
    pub price: P,
    pub receiver_name: String,
    pub receiver_phone: String,
    pub receiver_email: String,
    pub pre_order: bool,
    pub pre_order_days: i32,
    pub coupon: Option<(CouponId, i32)>,
}

/// The order of a buy-now request: a new order of the product for the
/// customer, made of no cart entry, remembering the request's coupon, with
/// the history comment `Buy now`.
pub fn buy_now_draft<P>(payload: BuyNow<P>, conversion_id: Option<ConversionId>) -> (r: ConversionDraft<P>)
    ensures
        r.order == (OrderDraft {
            created_from: None,
            conversion_id,
            customer: payload.customer_id,
            store: payload.store_id,
            product: payload.product_id,
            quantity: payload.quantity,
            receiver_name: payload.receiver_name,
            receiver_phone: payload.receiver_phone,
            receiver_email: payload.receiver_email,
            state: OrderState::New,
            delivery_company: None,
            track_id: None,
            pre_order: payload.pre_order,
            pre_order_days: payload.pre_order_days,
            coupon_id: match payload.coupon {
                Some(c) => Some(c.0),
                None => None,
            },
            coupon_percent: match payload.coupon {
                Some(c) => Some(c.1),
                None => None,
            },
        }),
        r.price == payload.price,
        r.comment@ == "Buy now"@,
{
    let coupon_id = match payload.coupon {
        Some(c) => Some(c.0),
        None => None,
    };
    let coupon_percent = match payload.coupon {
        Some(c) => Some(c.1),
        None => None,
    };
    let order = OrderDraft {
        created_from: None,
        conversion_id,
        customer: payload.customer_id,
        store: payload.store_id,
        product: payload.product_id,
        quantity: payload.quantity,
        receiver_name: payload.receiver_name,
        receiver_phone: payload.receiver_phone,
        receiver_email: payload.receiver_email,
        state: OrderState::New,
        delivery_company: None,
        track_id: None,
        pre_order: payload.pre_order,
        pre_order_days: payload.pre_order_days,
        coupon_id,
        coupon_percent,
    };
    ConversionDraft { order, price: payload.price, comment: String::from_str("Buy now") }
}

/// The first record of a new order's history: the order is new, created
/// by `committer` at `now`, with the comment of the cart entry.
pub fn creation_record(order_id: OrderId, committer: UserId, now: i128, comment: String) -> (r: OrderDiffInserter)
    ensures
        r == (OrderDiffInserter {
            parent: order_id,
            committer,
            committed_at: now,
            state: OrderState::New,
            comment: Some(comment),
        }),
{
    OrderDiffInserter { parent: order_id, committer, committed_at: now, state: OrderState::New, comment: Some(comment) }
}

/// No two orders of the sequence share an id.
pub open spec fn distinct_ids(s: Seq<Order>) -> bool {
    forall|i: int, j: int| 0 <= i < j < s.len() ==> (#[trigger] s[i]).id != (#[trigger] s[j]).id
}

proof fn lemma_named_by_members(orders: Seq<Order>, diffs: Seq<OrderDiff>)
    ensures
        forall|k: int| #![trigger orders_named_by(orders, diffs)[k]] 0 <= k < orders_named_by(orders, diffs).len() ==> {
            &&& orders.contains(orders_named_by(orders, diffs)[k])
            &&& is_parent_of_some(diffs, orders_named_by(orders, diffs)[k].id)
        },
    decreases orders.len(),
{
    if orders.len() > 0 {
        let tail = orders.drop_first();
        lemma_named_by_members(tail, diffs);
        let rest = orders_named_by(tail, diffs);
        let r = orders_named_by(orders, diffs);
        assert forall|k: int| #![trigger r[k]] 0 <= k < r.len() implies orders.contains(r[k]) && is_parent_of_some(
            diffs,
            r[k].id,
        ) by {
            if r.len() == rest.len() + 1 && k == 0 {
                assert(r[0] == orders[0]);
            } else {
                let m = if r.len() == rest.len() + 1 { k - 1 } else { k };
                assert(r[k] == rest[m]);
                let j = choose|j: int| 0 <= j < tail.len() && tail[j] == rest[m];
                assert(orders[j + 1] == tail[j]);
            }
        }
    }
}

/// The orders that a state query answers with (those that a recent record
/// names) carry each id once; each of them is one of the orders in the state
/// and is named by a record; and every order in the state that a record
/// names has its id among them.
pub proof fn law_recent_orders(orders: Seq<Order>, diffs: Seq<OrderDiff>)
    ensures
        distinct_ids(orders_named_by(orders, diffs)),
        forall|k: int| #![trigger orders_named_by(orders, diffs)[k]] 0 <= k < orders_named_by(orders, diffs).len() ==> {
            &&& orders.contains(orders_named_by(orders, diffs)[k])
            &&& is_parent_of_some(diffs, orders_named_by(orders, diffs)[k].id)
        },
        forall|i: int| #![trigger orders[i]] 0 <= i < orders.len() && is_parent_of_some(diffs, orders[i].id) ==> exists|k: int|
            0 <= k < orders_named_by(orders, diffs).len() && (#[trigger] orders_named_by(orders, diffs)[k]).id
                == orders[i].id,
    decreases orders.len(),
{
    lemma_named_by_members(orders, diffs);
    if orders.len() > 0 {
        let tail = orders.drop_first();
        let first = orders[0];
        law_recent_orders(tail, diffs);
        lemma_named_by_members(tail, diffs);
        let rest = orders_named_by(tail, diffs);
        let r = orders_named_by(orders, diffs);
        let picked = is_parent_of_some(diffs, first.id) && !has_id(tail, first.id);
        assert(distinct_ids(r)) by {
            if picked {
                assert forall|i: int, j: int| 0 <= i < j < r.len() implies (#[trigger] r[i]).id != (#[trigger] r[j]).id by {
                    assert(r[j] == rest[j - 1]);
                    if i == 0 {
                        assert(r[0] == first);
                        assert(tail.contains(rest[j - 1]));
                        let m = choose|m: int| 0 <= m < tail.len() && tail[m] == rest[j - 1];
                        if tail[m].id == first.id {
                            assert(has_id(tail, first.id));
                        }
                    } else {
                        assert(r[i] == rest[i - 1]);
                    }
                }
            }
        }
        assert forall|i: int| #![trigger orders[i]] 0 <= i < orders.len() && is_parent_of_some(diffs, orders[i].id) implies exists|k: int|
            0 <= k < r.len() && (#[trigger] r[k]).id == orders[i].id by {
            if i > 0 {
                assert(orders[i] == tail[i - 1]);
                let k = choose|k: int| 0 <= k < rest.len() && (#[trigger] rest[k]).id == tail[i - 1].id;
                if picked {
                    assert(r[k + 1] == rest[k]);
                } else {
                    assert(r[k] == rest[k]);
                }
            } else if picked {
                assert(r[0] == first);
            } else {
                let j = choose|j: int| 0 <= j < tail.len() && (#[trigger] tail[j]).id == first.id;
                assert(is_parent_of_some(diffs, tail[j].id));
                let k = choose|k: int| 0 <= k < rest.len() && (#[trigger] rest[k]).id == tail[j].id;
                assert(r[k] == rest[k]);
            }
        }
    }
}

proof fn lemma_restored_comment_at(diffs: Seq<OrderDiff>, k: int)
    requires
        0 <= k < diffs.len(),
        diffs[k].state == OrderState::New,
        diffs[k].comment is Some,
        forall|j: int| 0 <= j < k ==> !((#[trigger] diffs[j]).state == OrderState::New && diffs[j].comment is Some),
    ensures
        restored_comment(diffs) == diffs[k].comment->0@,
    decreases k,
{
    if k > 0 {
        assert(!(diffs[0].state == OrderState::New && diffs[0].comment is Some));
        let rest = diffs.drop_first();
        assert forall|j: int| 0 <= j < k - 1 implies !((#[trigger] rest[j]).state == OrderState::New && rest[j].comment is Some) by {
            assert(rest[j] == diffs[j + 1]);
        }
        assert(rest[k - 1] == diffs[k]);
        lemma_restored_comment_at(rest, k - 1);
    }
}

/// The order stored for a draft: the draft's entry, customer, store,
/// product, quantity and coupon.
pub open spec fn stored_draft(order: Order, draft: OrderDraft) -> bool {
    &&& draft.created_from == Some(order.created_from)
    &&& draft.customer == order.customer
    &&& draft.store == order.store
    &&& draft.product == order.product
    &&& draft.quantity == order.quantity
    &&& draft.coupon_id == order.coupon_id
}

/// Reverting a conversion gives back the cart entry that the order was made
/// of: its id, owner, product, quantity, selection, comment, store and
/// coupon. This holds where the conversion took a selected entry of the
/// customer's cart (as the conversion filter does), the order is the one
/// stored for its draft, and its history holds the record that the order's
/// creation wrote before any other record of a new order with a comment.
pub proof fn law_revert_restores_converted_entry<P>(
    p: PricedCartItem<P>,
    draft: ConversionDraft<P>,
    conversion_id: Option<ConversionId>,
    customer: UserId,
    receiver_name: Seq<char>,
    receiver_phone: Seq<char>,
    receiver_email: Seq<char>,
    order: Order,
    creation: OrderDiffInserter,
    diffs: Seq<OrderDiff>,
    k: int,
    reverted: CartItemInserter,
)
    requires
        p.item.customer == CartCustomer::User(customer),
        p.item.selected,
        is_conversion_draft(draft.order, p, conversion_id, customer, receiver_name, receiver_phone, receiver_email),
        draft.comment == p.item.comment,
        stored_draft(order, draft.order),
        creation.parent == order.id,
        creation.state == OrderState::New,
        creation.comment == Some(draft.comment),
        0 <= k < diffs.len(),
        diffs[k].parent == creation.parent,
        diffs[k].state == creation.state,
        diffs[k].comment == creation.comment,
        forall|j: int| 0 <= j < k ==> !((#[trigger] diffs[j]).state == OrderState::New && diffs[j].comment is Some),
        reverted_entry(order, diffs, reverted),
    ensures
        reverted.data.id == p.item.id,
        reverted.data.customer == p.item.customer,
        reverted.data.product_id == p.item.product_id,
        reverted.data.quantity == p.item.quantity,
        reverted.data.selected == p.item.selected,
        reverted.data.comment@ == p.item.comment@,
        reverted.data.store_id == p.item.store_id,
        reverted.data.coupon_id == p.item.coupon_id,
{
    lemma_restored_comment_at(diffs, k);
}

} // verus!
