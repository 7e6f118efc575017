//! The storage steps of the order operations that touch more than one
//! table: turning a cart into orders, buying a product at once, and
//! reverting a conversion. An operation is built as a plan, in phases
//! where a later phase needs what an earlier one answered; the plan is then
//! run against the storage, one step after the other.

use vstd::prelude::*;

use crate::cart::{CartItem, CartItemFilter, CartItemInserter, CartItemMetaFilter};
use crate::cart_service::no_conditions;
use crate::errors::Error;
use crate::order::{AddressFull, Order, OrderDiff};
use crate::order_service::{
    all_priced, buy_now_draft, calling_user, conversion_cart_filter, conversion_drafts, coupon_percent_of,
    is_conversion_draft, lookup, price_cart_items, reverted_cart_items, reverted_entry, spec_calling_user, BuyNow,
    ConversionDraft, OrderDraft, PricedCartItem,
};
use crate::types::{CartCustomer, ConversionId, CouponId, OrderId, OrderState, ProductId, UserId, UserLogin};

verus! {

/// One step of an order operation.
#[derive(Debug)]
pub enum OrderStep<P> {
    /// Deletes the cart entries that meet the filter, answering them.
    DeleteCartEntries(CartItemFilter),
    /// Creates one order of the draft, shipping to the address, and the
    /// first record of its history: new, by `committer` at `committed_at`,
    /// with the draft's comment.
    CreateOrder { order: ConversionDraft<P>, address: AddressFull, committer: UserId, committed_at: i128 },
    /// Reads the orders of a conversion.
    SelectConversion(ConversionId),
    /// Deletes the history of one order, answering it.
    DeleteHistory(OrderId),
    /// Deletes the orders of a conversion.
    DeleteConversion(ConversionId),
    /// Inserts one cart entry; the storage must answer with exactly one row.
    InsertCartEntry(CartItemInserter),
}

/// The steps of an order operation, run in order.
#[derive(Debug)]
pub struct OrderPlan<P> {
    pub steps: Vec<OrderStep<P>>,
}

/// The cart entries that a conversion takes: the customer's selected ones.
pub open spec fn conversion_filter(customer: UserId) -> CartItemFilter {
    CartItemFilter {
        customer: Some(CartCustomer::User(customer)),
        meta_filter: CartItemMetaFilter {
            id: None,
            product_id: None,
            quantity: None,
            selected: Some(true),
            comment: None,
            store_id: None,
            coupon_id: None,
            delivery_method_id: None,
        },
    }
}

/// Whether a step creates the order of a taken cart entry: the entry's
/// draft, priced from the seller prices, shipping to the conversion's
/// address, with the entry's comment as the first record of the order's
/// history, written by `committer` at `now`.
pub open spec fn creates_order_of<P>(
    step: OrderStep<P>,
    item: CartItem,
    prices: Seq<(ProductId, P)>,
    coupons: Seq<(CouponId, i32)>,
    conversion_id: Option<ConversionId>,
    customer: UserId,
    address: AddressFull,
    receiver_name: Seq<char>,
    receiver_phone: Seq<char>,
    receiver_email: Seq<char>,
    committer: UserId,
    now: i128,
) -> bool {
    match step {
        OrderStep::CreateOrder { order, address: a, committer: c, committed_at } => {
            &&& is_conversion_draft(
                order.order,
                PricedCartItem { item, price: order.price, coupon_percent: coupon_percent_of(item.coupon_id, coupons) },
                conversion_id,
                customer,
                receiver_name,
                receiver_phone,
                receiver_email,
            )
            &&& Some(order.price) == lookup(prices, item.product_id)
            &&& order.comment == item.comment
            &&& a == address
            &&& c == committer
            &&& committed_at == now
        },
        _ => false,
    }
}

/// The plan of a conversion's second phase: one created order per taken
/// entry, in order.
pub open spec fn is_conversion_plan<P>(
    p: OrderPlan<P>,
    taken: Seq<CartItem>,
    prices: Seq<(ProductId, P)>,
    coupons: Seq<(CouponId, i32)>,
    conversion_id: Option<ConversionId>,
    customer: UserId,
    address: AddressFull,
    receiver_name: Seq<char>,
    receiver_phone: Seq<char>,
    receiver_email: Seq<char>,
    committer: UserId,
    now: i128,
) -> bool {
    &&& p.steps@.len() == taken.len()
    &&& forall|i: int|
        #![trigger p.steps@[i]]
        0 <= i < taken.len() ==> creates_order_of(
            p.steps@[i],
            taken[i],
            prices,
            coupons,
            conversion_id,
            customer,
            address,
            receiver_name,
            receiver_phone,
            receiver_email,
            committer,
            now,
        )
}

/// The plan of a revert's second phase: the history of each order read, in
/// order, then the orders of the conversion.
pub open spec fn is_revert_clear_plan<P>(p: OrderPlan<P>, conversion_id: ConversionId, ids: Seq<OrderId>) -> bool {
    &&& p.steps@.len() == ids.len() + 1
    &&& forall|i: int| #![trigger p.steps@[i]] 0 <= i < ids.len() ==> p.steps@[i] == OrderStep::<P>::DeleteHistory(ids[i])
    &&& p.steps@[ids.len() as int] == OrderStep::<P>::DeleteConversion(conversion_id)
}

/// A copy of a text that may be missing.
fn copy_text(t: &Option<String>) -> (r: Option<String>)
    ensures
        r == *t,
{
    match t {
        None => None,
        Some(s) => Some(s.clone()),
    }
}

/// A copy of an address.
pub fn copy_address(a: &AddressFull) -> (r: AddressFull)
    ensures
        r == *a,
{
    AddressFull {
        location: a.location,
        administrative_area_level_1: copy_text(&a.administrative_area_level_1),
        administrative_area_level_2: copy_text(&a.administrative_area_level_2),
        country: copy_text(&a.country),
        locality: copy_text(&a.locality),
        political: copy_text(&a.political),
        postal_code: copy_text(&a.postal_code),
        route: copy_text(&a.route),
        street_number: copy_text(&a.street_number),
        address: copy_text(&a.address),
        place_id: copy_text(&a.place_id),
    }
}

/// The first phase of a conversion: the customer's selected cart entries
/// are taken out of the cart.
pub fn conversion_start<P>(customer: UserId) -> (r: OrderPlan<P>)
    ensures
        r.steps@ == seq![OrderStep::<P>::DeleteCartEntries(conversion_filter(customer))],
{
    let f = conversion_cart_filter(customer);
    let ghost m = f.meta_filter;
    assert(no_conditions(CartItemMetaFilter { selected: None, ..m }));
    assert(f == conversion_filter(customer));
    let mut steps: Vec<OrderStep<P>> = Vec::new();
    steps.push(OrderStep::DeleteCartEntries(f));
    assert(steps@ =~= seq![OrderStep::<P>::DeleteCartEntries(conversion_filter(customer))]);
    OrderPlan { steps }
}

/// The second phase of a conversion: the entries taken out of the cart, in
/// order, each become an order with its seller price, the conversion's
/// address and receiver, and a first history record with the entry's
/// comment, committed by the caller (user `-1` for an anonymous caller).
/// Fails with `MissingPrice`, creating nothing, when some taken entry's
/// product has no price.
pub fn conversion_finish<P: Copy>(
    taken: Vec<CartItem>,
    prices: &Vec<(ProductId, P)>,
    coupons: &Vec<(CouponId, i32)>,
    conversion_id: Option<ConversionId>,
    customer: UserId,
    address: &AddressFull,
    receiver_name: &str,
    receiver_phone: &str,
    receiver_email: &str,
    login: &UserLogin,
    now: i128,
) -> (r: Result<OrderPlan<P>, Error>)
    ensures
        all_priced(taken@, prices@) <==> r is Ok,
        r matches Err(e) ==> e == Error::MissingPrice,
        r matches Ok(p) ==> is_conversion_plan(
            p,
            taken@,
            prices@,
            coupons@,
            conversion_id,
            customer,
            *address,
            receiver_name@,
            receiver_phone@,
            receiver_email@,
            spec_calling_user(*login),
            now,
        ),
{
    let ghost items = taken@;
    let priced = match price_cart_items(taken, prices, coupons) {
        Ok(v) => v,
        Err(e) => return Err(e),
    };
    let ghost pv = priced@;
    let committer = calling_user(login);
    let drafts = conversion_drafts(priced, conversion_id, customer, receiver_name, receiver_phone, receiver_email);
    let ghost all = drafts@;
    let ghost n = all.len();
    let mut drafts = drafts;
    let mut steps: Vec<OrderStep<P>> = Vec::new();
    while drafts.len() > 0
        invariant
            steps@.len() + drafts@.len() == n,
            n == all.len(),
            n == items.len(),
            pv.len() == n,
            drafts@ =~= all.subrange(steps@.len() as int, n as int),
            forall|i: int| #![trigger all[i]] 0 <= i < n ==> {
                &&& is_conversion_draft(
                    all[i].order,
                    pv[i],
                    conversion_id,
                    customer,
                    receiver_name@,
                    receiver_phone@,
                    receiver_email@,
                )
                &&& all[i].price == pv[i].price
                &&& all[i].comment == pv[i].item.comment
            },
            forall|i: int| #![trigger pv[i]] 0 <= i < n ==> {
                &&& pv[i].item == items[i]
                &&& Some(pv[i].price) == lookup(prices@, items[i].product_id)
                &&& pv[i].coupon_percent == coupon_percent_of(items[i].coupon_id, coupons@)
            },
            committer == spec_calling_user(*login),
            forall|i: int| #![trigger steps@[i]] 0 <= i < steps@.len() ==> creates_order_of(
                steps@[i],
                items[i],
                prices@,
                coupons@,
                conversion_id,
                customer,
                *address,
                receiver_name@,
                receiver_phone@,
                receiver_email@,
                committer,
                now,
            ),
        decreases drafts@.len(),
    {
        let d = drafts.remove(0);
        let ghost k = steps@.len() as int;
        assert(d == all[k]);
        assert(pv[k].item == items[k]);
        let a = copy_address(address);
        steps.push(OrderStep::CreateOrder { order: d, address: a, committer, committed_at: now });
    }
    Ok(OrderPlan { steps })
}

/// A buy-now request as a plan: one new order of the product for the
/// customer, made of no cart entry, with the request's receiver, pre-order
/// terms and coupon, shipping to the address, whose first history record
/// says `Buy now`, committed by the caller (user `-1` for an anonymous
/// caller). The cart is not touched.
pub fn buy_now_plan<P>(
    payload: BuyNow<P>,
    conversion_id: Option<ConversionId>,
    address: AddressFull,
    login: &UserLogin,
    now: i128,
) -> (r: OrderPlan<P>)
    ensures
        r.steps@.len() == 1,
        r.steps@[0] matches OrderStep::CreateOrder { order, address: a, committer, committed_at } && {
            &&& order.order == (OrderDraft {
                created_from: None,
                conversion_id,
                customer: payload.customer_id,
                store: payload.store_id,
                product: payload.product_id,
                quantity: payload.quantity,
                receiver_name: payload.receiver_name,
                receiver_phone: payload.receiver_phone,
                receiver_email: payload.receiver_email,
                state: OrderState::New,
                delivery_company: None,
                track_id: None,
                pre_order: payload.pre_order,
                pre_order_days: payload.pre_order_days,
                coupon_id: match payload.coupon {
                    Some(c) => Some(c.0),
                    None => None,
                },
                coupon_percent: match payload.coupon {
                    Some(c) => Some(c.1),
                    None => None,
                },
            })
            &&& order.price == payload.price
            &&& order.comment@ == "Buy now"@
            &&& a == address
            &&& committer == spec_calling_user(*login)
            &&& committed_at == now
        },
{
    let committer = calling_user(login);
    let order = buy_now_draft(payload, conversion_id);
    let mut steps: Vec<OrderStep<P>> = Vec::new();
    steps.push(OrderStep::CreateOrder { order, address, committer, committed_at: now });
    OrderPlan { steps }
}

/// The first phase of a revert: the orders of the conversion are read.
pub fn revert_start<P>(conversion_id: ConversionId) -> (r: OrderPlan<P>)
    ensures
        r.steps@ == seq![OrderStep::<P>::SelectConversion(conversion_id)],
{
    let mut steps: Vec<OrderStep<P>> = Vec::new();
    steps.push(OrderStep::SelectConversion(conversion_id));
    assert(steps@ =~= seq![OrderStep::<P>::SelectConversion(conversion_id)]);
    OrderPlan { steps }
}

/// The second phase of a revert: the history of each order read is
/// deleted, in order, then the orders of the conversion.
pub fn revert_clear<P>(conversion_id: ConversionId, orders: &Vec<Order>) -> (r: OrderPlan<P>)
    ensures
        is_revert_clear_plan(r, conversion_id, orders@.map_values(|o: Order| o.id)),
{
    let ghost ids = orders@.map_values(|o: Order| o.id);
    let mut steps: Vec<OrderStep<P>> = Vec::new();
    let n = orders.len();
    let mut i: usize = 0;
    while i < n
        invariant
            n == orders@.len(),
            ids == orders@.map_values(|o: Order| o.id),
            i <= n,
            steps@.len() == i,
            forall|k: int| #![trigger steps@[k]] 0 <= k < i ==> steps@[k] == OrderStep::<P>::DeleteHistory(ids[k]),
        decreases n - i,
    {
        steps.push(OrderStep::DeleteHistory(orders[i].id));
        i = i + 1;
    }
    steps.push(OrderStep::DeleteConversion(conversion_id));
    OrderPlan { steps }
}

/// The last phase of a revert: each order, with the history deleted for
/// it, goes back into the cart as the entry it was made of, replacing what
/// the cart holds for that product.
pub fn revert_finish<P>(orders: Vec<(Order, Vec<OrderDiff>)>) -> (r: OrderPlan<P>)
    ensures
        r.steps@.len() == orders@.len(),
        forall|i: int| #![trigger r.steps@[i]] 0 <= i < orders@.len() ==> (r.steps@[i] matches OrderStep::InsertCartEntry(ins)
            && reverted_entry(orders@[i].0, orders@[i].1@, ins)),
{
    let ghost all = orders@;
    let entries = reverted_cart_items(orders);
    let ghost ev = entries@;
    let ghost n = ev.len();
    let mut entries = entries;
    let mut steps: Vec<OrderStep<P>> = Vec::new();
    while entries.len() > 0
        invariant
            steps@.len() + entries@.len() == n,
            n == all.len(),
            ev.len() == n,
            entries@ =~= ev.subrange(steps@.len() as int, n as int),
            forall|i: int| #![trigger ev[i]] 0 <= i < n ==> reverted_entry(all[i].0, all[i].1@, ev[i]),
            forall|i: int| #![trigger steps@[i]] 0 <= i < steps@.len() ==> steps@[i] == OrderStep::<P>::InsertCartEntry(ev[i]),
        decreases entries@.len(),
    {
        let e = entries.remove(0);
        let ghost k = steps@.len() as int;
        assert(e == ev[k]);
        steps.push(OrderStep::InsertCartEntry(e));
    }
    assert forall|i: int| 0 <= i < all.len() implies (#[trigger] steps@[i] matches OrderStep::InsertCartEntry(ins)
        && reverted_entry(all[i].0, all[i].1@, ins)) by {
        assert(reverted_entry(all[i].0, all[i].1@, ev[i]));
    }
    OrderPlan { steps }
}

} // verus!
