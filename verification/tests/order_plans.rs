//! Conversions, buy-now requests and reverts, built as plans and run on
//! carts, orders and histories held in memory.

use orders_lib::cart::{CartItem, CartItemFilter, CartItemMergeStrategy};
use orders_lib::errors::Error;
use orders_lib::order::{AddressFull, Order, OrderDiff};
use orders_lib::order_plan::{
    buy_now_plan, conversion_finish, conversion_start, revert_clear, revert_finish, revert_start, OrderPlan, OrderStep,
};
use orders_lib::order_service::BuyNow;
use orders_lib::types::{
    CartCustomer, CartItemId, ConversionId, CouponId, OrderDiffId, OrderId, OrderSlug, OrderState, ProductId, Quantity,
    StoreId, UserId, UserLogin,
};

const CUSTOMER: UserId = UserId(12345);

fn entry(product: i32, selected: bool, comment: &str) -> CartItem {
    CartItem {
        id: CartItemId(1000 + product as u128),
        customer: CartCustomer::User(CUSTOMER),
        product_id: ProductId(product),
        quantity: Quantity(product * 10),
        selected,
        comment: comment.to_string(),
        store_id: StoreId(7),
        pre_order: false,
        pre_order_days: 0,
        coupon_id: None,
        delivery_method_id: None,
    }
}

fn copy(e: &CartItem) -> CartItem {
    CartItem { comment: e.comment.clone(), ..*e }
}

fn holds(f: &CartItemFilter, e: &CartItem) -> bool {
    f.customer.map_or(true, |c| e.customer == c) && f.meta_filter.selected.map_or(true, |b| e.selected == b)
}

fn address() -> AddressFull {
    AddressFull {
        location: None,
        administrative_area_level_1: None,
        administrative_area_level_2: None,
        country: Some("Russia".to_string()),
        locality: Some("Moscow".to_string()),
        political: None,
        postal_code: Some("101000".to_string()),
        route: None,
        street_number: None,
        address: None,
        place_id: None,
    }
}

/// What the storage holds: cart entries, orders and history records.
struct Store {
    cart: Vec<CartItem>,
    orders: Vec<Order>,
    diffs: Vec<OrderDiff>,
    next: u128,
}

/// Runs a plan's steps; the answer of the last step that answers rows.
fn run(store: &mut Store, plan: &OrderPlan<i32>) -> Option<(Vec<CartItem>, Vec<Order>, Vec<OrderDiff>)> {
    let mut taken = vec![];
    let mut read = vec![];
    let mut gone = vec![];
    for s in plan.steps.iter() {
        match s {
            OrderStep::DeleteCartEntries(f) => {
                taken = store.cart.iter().filter(|e| holds(f, e)).map(copy).collect();
                store.cart.retain(|e| !holds(f, e));
            }
            OrderStep::CreateOrder { order, committer, committed_at, .. } => {
                store.next += 1;
                let id = OrderId(store.next);
                let d = &order.order;
                store.orders.push(Order {
                    id,
                    created_from: d.created_from.unwrap_or(CartItemId(0)),
                    conversion_id: d.conversion_id.unwrap_or(ConversionId(0)),
                    slug: OrderSlug(store.next as i32),
                    customer: d.customer,
                    store: d.store,
                    product: d.product,
                    quantity: d.quantity,
                    receiver_name: d.receiver_name.clone(),
                    receiver_phone: d.receiver_phone.clone(),
                    receiver_email: d.receiver_email.clone(),
                    state: d.state,
                    payment_status: false,
                    delivery_company: None,
                    track_id: None,
                    pre_order: d.pre_order,
                    pre_order_days: d.pre_order_days,
                    coupon_id: d.coupon_id,
                    coupon_percent: d.coupon_percent,
                    created_at: *committed_at,
                    updated_at: *committed_at,
                });
                store.diffs.push(OrderDiff {
                    id: OrderDiffId(store.next),
                    parent: id,
                    committer: *committer,
                    committed_at: *committed_at,
                    state: OrderState::New,
                    comment: Some(order.comment.clone()),
                });
            }
            OrderStep::SelectConversion(c) => {
                read = store.orders.iter().filter(|o| o.conversion_id == *c).map(copy_order).collect();
            }
            OrderStep::DeleteHistory(id) => {
                gone = store.diffs.iter().filter(|d| d.parent == *id).map(copy_diff).collect();
                store.diffs.retain(|d| d.parent != *id);
            }
            OrderStep::DeleteConversion(c) => store.orders.retain(|o| o.conversion_id != *c),
            OrderStep::InsertCartEntry(ins) => {
                assert_eq!(ins.strategy, CartItemMergeStrategy::Replacer);
                let key = |e: &CartItem| e.customer == ins.data.customer && e.product_id == ins.data.product_id;
                let w = CartItem { coupon_id: None, delivery_method_id: None, ..copy(&ins.data) };
                if store.cart.iter().any(|e| key(e)) {
                    for e in store.cart.iter_mut().filter(|e| key(e)) {
                        *e = copy(&w);
                    }
                } else {
                    store.cart.push(w);
                }
            }
        }
    }
    Some((taken, read, gone))
}

fn copy_order(o: &Order) -> Order {
    Order {
        receiver_name: o.receiver_name.clone(),
        receiver_phone: o.receiver_phone.clone(),
        receiver_email: o.receiver_email.clone(),
        delivery_company: o.delivery_company.clone(),
        track_id: o.track_id.clone(),
        ..*o
    }
}

fn copy_diff(d: &OrderDiff) -> OrderDiff {
    OrderDiff { comment: d.comment.clone(), ..*d }
}

fn summary(cart: &[CartItem]) -> Vec<(i32, i32, bool, String)> {
    let mut v: Vec<(i32, i32, bool, String)> =
        cart.iter().map(|e| (e.product_id.0, e.quantity.0, e.selected, e.comment.clone())).collect();
    v.sort();
    v
}

fn caller() -> UserLogin {
    UserLogin::User { caller_id: UserId(1), caller_roles: vec![] }
}

#[test]
fn conversion_turns_selected_entries_into_orders() {
    let mut store = Store {
        cart: vec![entry(1, true, "first"), entry(2, false, "kept"), entry(3, true, "third")],
        orders: vec![],
        diffs: vec![],
        next: 0,
    };
    let (taken, _, _) = run(&mut store, &conversion_start(CUSTOMER)).unwrap();
    assert_eq!(summary(&store.cart), vec![(2, 20, false, "kept".to_string())]);
    assert_eq!(taken.len(), 2);
    let prices = vec![(ProductId(1), 100), (ProductId(3), 300)];
    let coupons: Vec<(CouponId, i32)> = vec![];
    let plan = conversion_finish(
        taken,
        &prices,
        &coupons,
        Some(ConversionId(77)),
        CUSTOMER,
        &address(),
        "Receiver",
        "+7",
        "r@example.com",
        &caller(),
        5,
    )
    .unwrap();
    assert_eq!(plan.steps.len(), 2);
    match &plan.steps[0] {
        OrderStep::CreateOrder { order, address: a, committer, committed_at } => {
            assert_eq!(order.order.created_from, Some(CartItemId(1001)));
            assert_eq!(order.order.product, ProductId(1));
            assert_eq!(order.order.quantity, Quantity(10));
            assert_eq!(order.order.conversion_id, Some(ConversionId(77)));
            assert_eq!(order.order.state, OrderState::New);
            assert_eq!(order.price, 100);
            assert_eq!(order.comment, "first");
            assert_eq!(a.locality.as_deref(), Some("Moscow"));
            assert_eq!(*committer, UserId(1));
            assert_eq!(*committed_at, 5);
        }
        _ => panic!("an order is created"),
    }
    run(&mut store, &plan).unwrap();
    assert_eq!(store.orders.len(), 2);
    assert_eq!(store.diffs.len(), 2);
    for (o, d) in store.orders.iter().zip(store.diffs.iter()) {
        assert_eq!(d.parent, o.id);
        assert_eq!(d.state, OrderState::New);
    }
    assert_eq!(store.diffs[1].comment.as_deref(), Some("third"));
    // The cart still holds only the unselected entry.
    assert_eq!(summary(&store.cart), vec![(2, 20, false, "kept".to_string())]);
}

#[test]
fn a_missing_price_creates_nothing() {
    let prices = vec![(ProductId(1), 100)];
    let coupons: Vec<(CouponId, i32)> = vec![];
    let r = conversion_finish(
        vec![entry(1, true, ""), entry(3, true, "")],
        &prices,
        &coupons,
        None,
        CUSTOMER,
        &address(),
        "",
        "",
        "",
        &UserLogin::Anonymous,
        0,
    );
    assert!(matches!(r, Err(Error::MissingPrice)));
}

#[test]
fn a_reverted_conversion_restores_the_cart() {
    let before = vec![entry(1, true, "first"), entry(2, false, "kept"), entry(3, true, "third")];
    let mut store = Store { cart: before.iter().map(copy).collect(), orders: vec![], diffs: vec![], next: 0 };
    let (taken, _, _) = run(&mut store, &conversion_start(CUSTOMER)).unwrap();
    let prices = vec![(ProductId(1), 100), (ProductId(3), 300)];
    let coupons: Vec<(CouponId, i32)> = vec![];
    let cid = ConversionId(77);
    let plan = conversion_finish(taken, &prices, &coupons, Some(cid), CUSTOMER, &address(), "", "", "", &caller(), 5)
        .unwrap();
    run(&mut store, &plan).unwrap();

    let (_, orders, _) = run(&mut store, &revert_start(cid)).unwrap();
    assert_eq!(orders.len(), 2);
    let clear: OrderPlan<i32> = revert_clear(cid, &orders);
    assert_eq!(clear.steps.len(), 3);
    let mut with_history = vec![];
    for o in orders.iter() {
        let gone: Vec<OrderDiff> = store.diffs.iter().filter(|d| d.parent == o.id).map(copy_diff).collect();
        with_history.push((copy_order(o), gone));
    }
    run(&mut store, &clear).unwrap();
    assert!(store.orders.is_empty());
    assert!(store.diffs.is_empty());
    run(&mut store, &revert_finish(with_history)).unwrap();
    assert_eq!(summary(&store.cart), summary(&before));
    assert!(store.cart.iter().any(|e| e.id == CartItemId(1003) && e.comment == "third"));
}

#[test]
fn buy_now_adds_one_order_and_leaves_the_cart() {
    let mut store = Store { cart: vec![entry(1, true, "")], orders: vec![], diffs: vec![], next: 0 };
    let payload = BuyNow {
        customer_id: CUSTOMER,
        store_id: StoreId(3),
        product_id: ProductId(9),
        quantity: Quantity(2),
        price: 50,
        receiver_name: "R".to_string(),
        receiver_phone: "P".to_string(),
        receiver_email: "E".to_string(),
        pre_order: false,
        pre_order_days: 0,
        coupon: Some((CouponId(4), 10)),
    };
    let plan = buy_now_plan(payload, None, address(), &UserLogin::Anonymous, 9);
    match &plan.steps[0] {
        OrderStep::CreateOrder { order, .. } => {
            assert_eq!(order.order.state, OrderState::New);
            assert_eq!(order.order.created_from, None);
            assert_eq!(order.order.coupon_id, Some(CouponId(4)));
            assert_eq!(order.order.receiver_name, "R");
            assert_eq!(order.order.receiver_email, "E");
            assert!(!order.order.pre_order);
        }
        _ => panic!("an order is created"),
    }
    run(&mut store, &plan).unwrap();
    assert_eq!(store.cart.len(), 1);
    assert_eq!(store.orders.len(), 1);
    assert_eq!(store.orders[0].product, ProductId(9));
    assert_eq!(store.orders[0].coupon_percent, Some(10));
    assert_eq!(store.diffs.len(), 1);
    assert_eq!(store.diffs[0].comment.as_deref(), Some("Buy now"));
    assert_eq!(store.diffs[0].committer, UserId(-1));
}
