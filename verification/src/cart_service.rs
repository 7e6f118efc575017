//! What each cart operation asks of the cart storage, in order. The storage
//! runs the steps one after the other on one connection; the answer of an
//! operation is the cart that its last read returns, or an empty cart.

use vstd::prelude::*;

use crate::cart::{
    CartItem, CartItemFilter, CartItemInserter, CartItemMergeStrategy, CartItemMetaFilter,
    CartItemUpdateData, CartItemUpdater,
};
use crate::sql::{Range, RangeLimit};
use crate::types::{
    new_uuid, CartCustomer, CartItemId, CouponId, DeliveryMethodId, ProductId, Quantity, StoreId,
};

verus! {

/// One storage operation on cart entries.
#[derive(Debug)]
pub enum CartRepoStep {
    /// Reads the entries that the filter selects.
    Select(CartItemFilter),
    /// Reads at most `limit` entries that the filter selects.
    SelectLimited { filter: CartItemFilter, limit: i32 },
    /// Reads the one entry that the filter selects; fails unless there is
    /// exactly one.
    SelectExactlyOne(CartItemFilter),
    /// Inserts one entry; fails unless exactly one row is written.
    InsertExactlyOne(CartItemInserter),
    /// Inserts entries.
    Insert(CartItemInserter),
    /// Updates the entries that the filter selects.
    Update(CartItemUpdater),
    /// Deletes the entries that the filter selects.
    Delete(CartItemFilter),
}

/// What an operation answers with once its steps have run.
#[derive(Clone, Copy, Debug, PartialEq, Eq, Structural)]
pub enum CartAnswer {
    /// The entries that the last step returned.
    LastResult,
    /// An empty cart.
    EmptyCart,
    /// Nothing.
    Done,
}

/// The steps of a cart operation and the form of its answer.
#[derive(Debug)]
pub struct CartPlan {
    pub steps: Vec<CartRepoStep>,
    pub answer: CartAnswer,
}

/// The body of the increment request.
#[derive(Clone, Copy, Debug, PartialEq, Eq, Structural)]
pub struct CartProductIncrementPayload {
    pub store_id: StoreId,
    pub pre_order: bool,
    pub pre_order_days: i32,
}

/// A shared filter with no condition.
pub open spec fn no_conditions(m: CartItemMetaFilter) -> bool {
    &&& m.id is None
    &&& m.product_id is None
    &&& m.quantity is None
    &&& m.selected is None
    &&& m.comment is None
    &&& m.store_id is None
    &&& m.coupon_id is None
    &&& m.delivery_method_id is None
}

/// A shared filter on one product only.
pub open spec fn only_product(m: CartItemMetaFilter, product_id: ProductId) -> bool {
    &&& m.id is None
    &&& m.product_id == Some(Range::Exact(product_id.0))
    &&& m.quantity is None
    &&& m.selected is None
    &&& m.comment is None
    &&& m.store_id is None
    &&& m.coupon_id is None
    &&& m.delivery_method_id is None
}

/// The filter of all entries of `customer`.
pub open spec fn is_whole_cart(f: CartItemFilter, customer: CartCustomer) -> bool {
    f.customer == Some(customer) && no_conditions(f.meta_filter)
}

/// The filter of the entry of `customer` for `product_id`.
pub open spec fn is_cart_entry(f: CartItemFilter, customer: CartCustomer, product_id: ProductId) -> bool {
    f.customer == Some(customer) && only_product(f.meta_filter, product_id)
}

/// An update that sets exactly the given values and nothing else.
pub open spec fn data_sets(
    d: CartItemUpdateData,
    quantity: Option<Quantity>,
    selected: Option<bool>,
    comment: Option<Seq<char>>,
    coupon_id: Option<Option<CouponId>>,
    delivery_method_id: Option<Option<DeliveryMethodId>>,
) -> bool {
    &&& d.quantity == quantity
    &&& d.selected == selected
    &&& (match comment {
        Some(c) => d.comment matches Some(s) && s@ == c,
        None => d.comment is None,
    })
    &&& d.coupon_id == coupon_id
    &&& d.delivery_method_id == delivery_method_id
}

/// The operation that reads a whole cart, then answers with it.
pub open spec fn reads_whole_cart(step: CartRepoStep, customer: CartCustomer) -> bool {
    step matches CartRepoStep::Select(f) && is_whole_cart(f, customer)
}

/// An update of the customer's entry for the product (of nothing, where the
/// cart does not have it), then the read of the whole cart: setting the
/// quantity of a product that the cart lacks answers the cart unchanged.
pub open spec fn entry_update_plan(
    p: CartPlan,
    customer: CartCustomer,
    product_id: ProductId,
    quantity: Option<Quantity>,
    selected: Option<bool>,
    comment: Option<Seq<char>>,
    coupon_id: Option<Option<CouponId>>,
    delivery_method_id: Option<Option<DeliveryMethodId>>,
) -> bool {
    &&& p.answer == CartAnswer::LastResult
    &&& p.steps@.len() == 2
    &&& p.steps@[0] matches CartRepoStep::Update(u) && is_cart_entry(u.filter, customer, product_id) && data_sets(
        u.data,
        quantity,
        selected,
        comment,
        coupon_id,
        delivery_method_id,
    )
    &&& reads_whole_cart(p.steps@[1], customer)
}

/// An update of the customer's entry for the product, then the read of that
/// entry, which must find exactly one (so the operation fails where the cart
/// lacks the product), then the read of the whole cart.
pub open spec fn checked_entry_update_plan(
    p: CartPlan,
    customer: CartCustomer,
    product_id: ProductId,
    quantity: Option<Quantity>,
    selected: Option<bool>,
    comment: Option<Seq<char>>,
    coupon_id: Option<Option<CouponId>>,
    delivery_method_id: Option<Option<DeliveryMethodId>>,
) -> bool {
    &&& p.answer == CartAnswer::LastResult
    &&& p.steps@.len() == 3
    &&& p.steps@[0] matches CartRepoStep::Update(u) && is_cart_entry(u.filter, customer, product_id) && data_sets(
        u.data,
        quantity,
        selected,
        comment,
        coupon_id,
        delivery_method_id,
    )
    &&& p.steps@[1] matches CartRepoStep::SelectExactlyOne(f) && is_cart_entry(f, customer, product_id)
    &&& reads_whole_cart(p.steps@[2], customer)
}

/// Reads the customer's cart and answers with it.
pub open spec fn get_cart_plan(p: CartPlan, customer: CartCustomer) -> bool {
    &&& p.answer == CartAnswer::LastResult
    &&& p.steps@.len() == 1
    &&& reads_whole_cart(p.steps@[0], customer)
}

/// Inserts a selected entry of one piece of the product, or adds one piece
/// where the customer has the product; then reads the cart.
pub open spec fn increment_plan(
    p: CartPlan,
    customer: CartCustomer,
    product_id: ProductId,
    payload: CartProductIncrementPayload,
) -> bool {
    &&& p.answer == CartAnswer::LastResult
    &&& p.steps@.len() == 2
    &&& p.steps@[0] matches CartRepoStep::InsertExactlyOne(ins) && ins.strategy == CartItemMergeStrategy::Incrementer
        && ins.data.customer == customer && ins.data.product_id == product_id && ins.data.store_id == payload.store_id
        && ins.data.quantity == Quantity(1) && ins.data.selected && ins.data.comment@ == Seq::<char>::empty()
        && ins.data.pre_order == payload.pre_order && ins.data.pre_order_days == payload.pre_order_days
        && ins.data.coupon_id is None && ins.data.delivery_method_id is None
    &&& reads_whole_cart(p.steps@[1], customer)
}

/// Takes a coupon off every entry of the cart that has it, then reads the
/// cart.
pub open spec fn delete_coupon_plan(p: CartPlan, customer: CartCustomer, coupon_id: CouponId) -> bool {
    &&& p.answer == CartAnswer::LastResult
    &&& p.steps@.len() == 2
    &&& p.steps@[0] matches CartRepoStep::Update(u) && u.filter.customer == Some(customer)
        && u.filter.meta_filter.coupon_id == Some(Range::Exact(coupon_id.0)) && u.filter.meta_filter.id is None
        && u.filter.meta_filter.product_id is None && u.filter.meta_filter.quantity is None
        && u.filter.meta_filter.selected is None && u.filter.meta_filter.comment is None
        && u.filter.meta_filter.store_id is None && u.filter.meta_filter.delivery_method_id is None && data_sets(
        u.data,
        None,
        None,
        None,
        Some(None),
        None,
    )
    &&& reads_whole_cart(p.steps@[1], customer)
}

/// Checks that the entry is there, deletes it and reads the cart.
pub open spec fn delete_item_plan(p: CartPlan, customer: CartCustomer, product_id: ProductId) -> bool {
    &&& p.answer == CartAnswer::LastResult
    &&& p.steps@.len() == 3
    &&& p.steps@[0] matches CartRepoStep::SelectExactlyOne(f) && is_cart_entry(f, customer, product_id)
    &&& p.steps@[1] matches CartRepoStep::Delete(f) && is_cart_entry(f, customer, product_id)
    &&& reads_whole_cart(p.steps@[2], customer)
}

/// Deletes every entry of the cart and answers with an empty cart.
pub open spec fn clear_cart_plan(p: CartPlan, customer: CartCustomer) -> bool {
    &&& p.answer == CartAnswer::EmptyCart
    &&& p.steps@.len() == 1
    &&& p.steps@[0] matches CartRepoStep::Delete(f) && is_whole_cart(f, customer)
}

/// Reads at most `count` entries of the cart, from product `from` on.
pub open spec fn list_plan(p: CartPlan, customer: CartCustomer, from: ProductId, count: i32) -> bool {
    &&& p.answer == CartAnswer::LastResult
    &&& p.steps@.len() == 1
    &&& p.steps@[0] matches CartRepoStep::SelectLimited { filter, limit } && limit == count && filter.customer == Some(
        customer,
    ) && (filter.meta_filter.product_id matches Some(Range::From(l)) && l.value == from.0 && l.inclusive
        && filter.meta_filter.id is None && filter.meta_filter.quantity is None && filter.meta_filter.selected is None
        && filter.meta_filter.comment is None && filter.meta_filter.store_id is None
        && filter.meta_filter.coupon_id is None && filter.meta_filter.delivery_method_id is None)
}

/// Puts each of the moved entries into the cart of `to`, unless that cart
/// already has the product; then reads the cart of `to`.
pub open spec fn merge_finish_plan(p: CartPlan, moved: Seq<CartItem>, to: CartCustomer) -> bool {
    &&& p.answer == CartAnswer::LastResult
    &&& p.steps@.len() == moved.len() + 1
    &&& forall|i: int| #![trigger p.steps@[i]] 0 <= i < moved.len() ==> (p.steps@[i] matches CartRepoStep::Insert(ins)
        && ins.strategy == CartItemMergeStrategy::CollisionNoOp && ins.data == (CartItem { customer: to, ..moved[i] }))
    &&& reads_whole_cart(p.steps@[moved.len() as int], to)
}

/// Takes every entry out of the cart of `from`, answering with them.
pub open spec fn merge_start_plan(p: CartPlan, from: CartCustomer) -> bool {
    &&& p.answer == CartAnswer::LastResult
    &&& p.steps@.len() == 1
    &&& p.steps@[0] matches CartRepoStep::Delete(f) && is_whole_cart(f, from)
}

fn whole_cart(customer: CartCustomer) -> (r: CartItemFilter)
    ensures
        is_whole_cart(r, customer),
{
    CartItemFilter { customer: Some(customer), meta_filter: CartItemMetaFilter::default() }
}

fn cart_entry(customer: CartCustomer, product_id: ProductId) -> (r: CartItemFilter)
    ensures
        is_cart_entry(r, customer, product_id),
{
    let mut m = CartItemMetaFilter::default();
    m.product_id = Some(Range::Exact(product_id.0));
    CartItemFilter { customer: Some(customer), meta_filter: m }
}

fn entry_update(customer: CartCustomer, product_id: ProductId, data: CartItemUpdateData) -> (r: CartPlan)
    ensures
        r.answer == CartAnswer::LastResult,
        r.steps@.len() == 2,
        r.steps@[0] matches CartRepoStep::Update(u) && is_cart_entry(u.filter, customer, product_id) && u.data
            == data,
        reads_whole_cart(r.steps@[1], customer),
{
    let mut steps = Vec::new();
    steps.push(CartRepoStep::Update(CartItemUpdater { filter: cart_entry(customer, product_id), data }));
    steps.push(CartRepoStep::Select(whole_cart(customer)));
    CartPlan { steps, answer: CartAnswer::LastResult }
}

fn checked_entry_update(customer: CartCustomer, product_id: ProductId, data: CartItemUpdateData) -> (r: CartPlan)
    ensures
        r.answer == CartAnswer::LastResult,
        r.steps@.len() == 3,
        r.steps@[0] matches CartRepoStep::Update(u) && is_cart_entry(u.filter, customer, product_id) && u.data
            == data,
        r.steps@[1] matches CartRepoStep::SelectExactlyOne(f) && is_cart_entry(f, customer, product_id),
        reads_whole_cart(r.steps@[2], customer),
{
    let mut steps = Vec::new();
    steps.push(CartRepoStep::Update(CartItemUpdater { filter: cart_entry(customer, product_id), data }));
    steps.push(CartRepoStep::SelectExactlyOne(cart_entry(customer, product_id)));
    steps.push(CartRepoStep::Select(whole_cart(customer)));
    CartPlan { steps, answer: CartAnswer::LastResult }
}

/// Cart operations of the service.
pub struct CartServiceImpl;

impl CartServiceImpl {
    /// Reads the customer's cart.
    pub fn get_cart(customer: CartCustomer) -> (r: CartPlan)
        ensures
            get_cart_plan(r, customer),
    {
        let mut steps = Vec::new();
        steps.push(CartRepoStep::Select(whole_cart(customer)));
        CartPlan { steps, answer: CartAnswer::LastResult }
    }

    /// Adds one piece of a product: a new selected entry of one piece, or
    /// one more piece where the customer already has the product; then reads
    /// the cart.
    pub fn increment_item(customer: CartCustomer, product_id: ProductId, payload: CartProductIncrementPayload) -> (r: CartPlan)
        ensures
            increment_plan(r, customer, product_id, payload),
    {
        let item = CartItem {
            id: CartItemId(new_uuid()),
            customer,
            product_id,
            store_id: payload.store_id,
            quantity: Quantity(1),
            selected: true,
            comment: String::new(),
            pre_order: payload.pre_order,
            pre_order_days: payload.pre_order_days,
            coupon_id: None,
            delivery_method_id: None,
        };
        let mut steps = Vec::new();
        steps.push(
            CartRepoStep::InsertExactlyOne(CartItemInserter { strategy: CartItemMergeStrategy::Incrementer, data: item }),
        );
        steps.push(CartRepoStep::Select(whole_cart(customer)));
        CartPlan { steps, answer: CartAnswer::LastResult }
    }

    /// Sets the quantity of a product in the cart; a cart without the
    /// product comes back unchanged.
    pub fn set_quantity(customer: CartCustomer, product_id: ProductId, quantity: Quantity) -> (r: CartPlan)
        ensures
            entry_update_plan(r, customer, product_id, Some(quantity), None, None, None, None),
    {
        let mut data = CartItemUpdateData::default();
        data.quantity = Some(quantity);
        entry_update(customer, product_id, data)
    }

    /// Sets whether a product of the cart is selected; fails where the cart
    /// lacks the product.
    pub fn set_selection(customer: CartCustomer, product_id: ProductId, selected: bool) -> (r: CartPlan)
        ensures
            checked_entry_update_plan(r, customer, product_id, None, Some(selected), None, None, None),
    {
        let mut data = CartItemUpdateData::default();
        data.selected = Some(selected);
        checked_entry_update(customer, product_id, data)
    }

    /// Sets the comment on a product of the cart; fails where the cart lacks
    /// the product.
    pub fn set_comment(customer: CartCustomer, product_id: ProductId, comment: String) -> (r: CartPlan)
        ensures
            checked_entry_update_plan(r, customer, product_id, None, None, Some(comment@), None, None),
    {
        let mut data = CartItemUpdateData::default();
        data.comment = Some(comment);
        checked_entry_update(customer, product_id, data)
    }

    /// Puts a coupon on a product of the cart; fails where the cart lacks the
    /// product.
    pub fn add_coupon(customer: CartCustomer, product_id: ProductId, coupon_id: CouponId) -> (r: CartPlan)
        ensures
            checked_entry_update_plan(r, customer, product_id, None, None, None, Some(Some(coupon_id)), None),
    {
        let mut data = CartItemUpdateData::default();
        data.coupon_id = Some(Some(coupon_id));
        checked_entry_update(customer, product_id, data)
    }

    /// Takes the coupon off a product of the cart; fails where the cart lacks
    /// the product.
    pub fn delete_coupon_by_product(customer: CartCustomer, product_id: ProductId) -> (r: CartPlan)
        ensures
            checked_entry_update_plan(r, customer, product_id, None, None, None, Some(None), None),
    {
        let mut data = CartItemUpdateData::default();
        data.coupon_id = Some(None);
        checked_entry_update(customer, product_id, data)
    }

    /// Sets, or with `None` clears, the delivery method of a product of the
    /// cart; fails where the cart lacks the product.
    pub fn set_delivery_method(customer: CartCustomer, product_id: ProductId, delivery_method_id: Option<DeliveryMethodId>) -> (r: CartPlan)
        ensures
            checked_entry_update_plan(r, customer, product_id, None, None, None, None, Some(delivery_method_id)),
    {
        let mut data = CartItemUpdateData::default();
        data.delivery_method_id = Some(delivery_method_id);
        checked_entry_update(customer, product_id, data)
    }

    /// Takes a coupon off every product of the cart that has it, then reads
    /// the cart.
    pub fn delete_coupon(customer: CartCustomer, coupon_id: CouponId) -> (r: CartPlan)
        ensures
            delete_coupon_plan(r, customer, coupon_id),
    {
        let mut m = CartItemMetaFilter::default();
        m.coupon_id = Some(Range::Exact(coupon_id.0));
        let mut data = CartItemUpdateData::default();
        data.coupon_id = Some(None);
        let mut steps = Vec::new();
        steps.push(CartRepoStep::Update(CartItemUpdater { filter: CartItemFilter { customer: Some(customer), meta_filter: m }, data }));
        steps.push(CartRepoStep::Select(whole_cart(customer)));
        CartPlan { steps, answer: CartAnswer::LastResult }
    }

    /// Deletes a product from the cart: checks that the entry is there,
    /// deletes it and reads the cart.
    pub fn delete_item(customer: CartCustomer, product_id: ProductId) -> (r: CartPlan)
        ensures
            delete_item_plan(r, customer, product_id),
    {
        let mut steps = Vec::new();
        steps.push(CartRepoStep::SelectExactlyOne(cart_entry(customer, product_id)));
        steps.push(CartRepoStep::Delete(cart_entry(customer, product_id)));
        steps.push(CartRepoStep::Select(whole_cart(customer)));
        CartPlan { steps, answer: CartAnswer::LastResult }
    }

    /// Deletes every entry of the cart; answers with an empty cart.
    pub fn clear_cart(customer: CartCustomer) -> (r: CartPlan)
        ensures
            clear_cart_plan(r, customer),
    {
        let mut steps = Vec::new();
        steps.push(CartRepoStep::Delete(whole_cart(customer)));
        CartPlan { steps, answer: CartAnswer::EmptyCart }
    }

    /// Reads at most `count` entries of the cart, from product `from` on.
    pub fn list(customer: CartCustomer, from: ProductId, count: i32) -> (r: CartPlan)
        ensures
            list_plan(r, customer, from, count),
    {
        let mut m = CartItemMetaFilter::default();
        m.product_id = Some(Range::From(RangeLimit { value: from.0, inclusive: true }));
        let mut steps = Vec::new();
        steps.push(CartRepoStep::SelectLimited { filter: CartItemFilter { customer: Some(customer), meta_filter: m }, limit: count });
        CartPlan { steps, answer: CartAnswer::LastResult }
    }

    /// First part of a merge: takes every entry out of the cart of `from`.
    pub fn merge_start(from: CartCustomer) -> (r: CartPlan)
        ensures
            merge_start_plan(r, from),
    {
        let mut steps = Vec::new();
        steps.push(CartRepoStep::Delete(whole_cart(from)));
        CartPlan { steps, answer: CartAnswer::LastResult }
    }

    /// Second part of a merge: puts each entry taken out of the first cart
    /// into the cart of `to`, unless `to` already has that product; then
    /// reads the cart of `to`.
    pub fn merge_finish(moved: Vec<CartItem>, to: CartCustomer) -> (r: CartPlan)
        ensures
            merge_finish_plan(r, moved@, to),
    {
        let ghost old_moved = moved@;
        let ghost n = old_moved.len();
        let mut moved = moved;
        let mut steps: Vec<CartRepoStep> = Vec::new();
        while moved.len() > 0
            invariant
                steps@.len() + moved@.len() == n,
                n == old_moved.len(),
                moved@ =~= old_moved.subrange(steps@.len() as int, n as int),
                forall|i: int| #![trigger steps@[i]] 0 <= i < steps@.len() ==> (steps@[i] matches CartRepoStep::Insert(ins)
                    && ins.strategy == CartItemMergeStrategy::CollisionNoOp && ins.data == (CartItem {
                    customer: to,
                    ..old_moved[i]
                })),
            decreases moved@.len(),
        {
            let item = moved.remove(0);
            let ghost k = steps@.len() as int;
            assert(item == old_moved[k]);
            let data = CartItem { customer: to, ..item };
            steps.push(CartRepoStep::Insert(CartItemInserter { strategy: CartItemMergeStrategy::CollisionNoOp, data }));
        }
        steps.push(CartRepoStep::Select(whole_cart(to)));
        CartPlan { steps, answer: CartAnswer::LastResult }
    }

    /// Deletes the given products from every cart.
    pub fn delete_products_from_all_carts(product_ids: Vec<i32>) -> (r: CartPlan)
        ensures
            r.answer == CartAnswer::Done,
            r.steps@.len() == 1,
            r.steps@[0] matches CartRepoStep::Delete(f) && f.customer is None && (f.meta_filter.product_id matches Some(
                Range::In(ids),
            ) && ids@ == product_ids@ && f.meta_filter.id is None && f.meta_filter.quantity is None
                && f.meta_filter.selected is None && f.meta_filter.comment is None && f.meta_filter.store_id is None
                && f.meta_filter.coupon_id is None && f.meta_filter.delivery_method_id is None),
    {
        let mut m = CartItemMetaFilter::default();
        m.product_id = Some(Range::In(product_ids));
        let mut steps = Vec::new();
        steps.push(CartRepoStep::Delete(CartItemFilter { customer: None, meta_filter: m }));
        CartPlan { steps, answer: CartAnswer::Done }
    }

    /// Clears the delivery method of the given products in every cart, with
    /// a comment that says so.
    pub fn delete_delivery_method_from_all_carts(product_ids: Vec<i32>) -> (r: CartPlan)
        ensures
            r.answer == CartAnswer::Done,
            r.steps@.len() == 1,
            r.steps@[0] matches CartRepoStep::Update(u) && u.filter.customer is None && (u.filter.meta_filter.product_id matches Some(
                Range::In(ids),
            ) && ids@ == product_ids@ && u.filter.meta_filter.id is None && u.filter.meta_filter.quantity is None
                && u.filter.meta_filter.selected is None && u.filter.meta_filter.comment is None
                && u.filter.meta_filter.store_id is None && u.filter.meta_filter.coupon_id is None
                && u.filter.meta_filter.delivery_method_id is None && data_sets(
                u.data,
                None,
                None,
                Some("Selected delivery has changed/removed by store manager"@),
                None,
                Some(None),
            )),
    {
        let mut m = CartItemMetaFilter::default();
        m.product_id = Some(Range::In(product_ids));
        let mut data = CartItemUpdateData::default();
        data.delivery_method_id = Some(None);
        data.comment = Some(String::from_str("Selected delivery has changed/removed by store manager"));
        let mut steps = Vec::new();
        steps.push(CartRepoStep::Update(CartItemUpdater { filter: CartItemFilter { customer: None, meta_filter: m }, data }));
        CartPlan { steps, answer: CartAnswer::Done }
    }
}

} // verus!
