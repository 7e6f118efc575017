use orders_lib::cart::{CartItem, CartItemMergeStrategy};
use orders_lib::cart_service::{CartAnswer, CartProductIncrementPayload, CartRepoStep, CartServiceImpl};
use orders_lib::controller::{body_kind, cart_call, BodyKind, CartBody, ControllerAction};
use orders_lib::errors::Error;
use orders_lib::order::{Order, OrderDiff, OrderSearchTerms};
use orders_lib::order_service::{
    calling_user, comment_of_history, conversion_cart_filter, conversion_drafts, conversion_orders_filter,
    creation_record, days_to_nanos, direct_order_id, discount_kind, found_order, history_filter,
    old_diffs_filter, order_state_updater, orders_due_for_completion, orders_for_store_filter, orders_for_user_filter,
    orders_to_complete, orders_with_recent_diffs, price_cart_items, recent_diffs_filter, reverted_cart_items,
    search_filter, state_change_record, state_search, time_before, DiscountKind,
};
use orders_lib::sql::Range;
use orders_lib::types::{
    CartCustomer, CartItemId, ConversionId, CouponId, DeliveryMethodId, OrderDiffId, OrderId, OrderIdentifier, OrderSlug,
    OrderState, ProductId, Quantity, RoleEntry, RoleEntryId, StoreId, UserId, UserLogin, UserRole,
};

fn cart_item(id: u128, product: i32, quantity: i32, coupon: Option<i32>, comment: &str) -> CartItem {
    CartItem {
        id: CartItemId(id),
        customer: CartCustomer::User(UserId(777)),
        product_id: ProductId(product),
        quantity: Quantity(quantity),
        selected: true,
        comment: comment.to_string(),
        store_id: StoreId(1337),
        pre_order: false,
        pre_order_days: 0,
        coupon_id: coupon.map(CouponId),
        delivery_method_id: Some(DeliveryMethodId(4)),
    }
}

fn order(id: u128, state: OrderState, updated_at: i128) -> Order {
    Order {
        id: OrderId(id),
        created_from: CartItemId(id + 100),
        conversion_id: ConversionId(1),
        slug: OrderSlug(id as i32),
        customer: UserId(777),
        store: StoreId(1337),
        product: ProductId(12345),
        quantity: Quantity(2),
        receiver_name: "Mr. Anderson".to_string(),
        receiver_phone: "+14441234567".to_string(),
        receiver_email: "neo@matrix".to_string(),
        state,
        payment_status: false,
        delivery_company: None,
        track_id: None,
        pre_order: false,
        pre_order_days: 0,
        coupon_id: Some(CouponId(25)),
        coupon_percent: Some(12),
        created_at: 0,
        updated_at,
    }
}

fn diff(parent: u128, state: OrderState, comment: Option<&str>) -> OrderDiff {
    OrderDiff {
        id: OrderDiffId(parent * 10),
        parent: OrderId(parent),
        committer: UserId(1),
        committed_at: 5,
        state,
        comment: comment.map(|c| c.to_string()),
    }
}

#[test]
fn cart_reads_and_entry_updates() {
    let c = CartCustomer::User(UserId(12345));
    let p = CartServiceImpl::get_cart(c);
    assert_eq!(p.answer, CartAnswer::LastResult);
    assert_eq!(p.steps.len(), 1);
    match &p.steps[0] {
        CartRepoStep::Select(f) => assert_eq!(f.customer, Some(c)),
        _ => panic!("a cart is read"),
    }

    let p = CartServiceImpl::set_quantity(c, ProductId(555), Quantity(9000));
    assert_eq!(p.steps.len(), 2);
    match &p.steps[0] {
        CartRepoStep::Update(u) => {
            assert_eq!(u.data.quantity, Some(Quantity(9000)));
            assert!(u.data.selected.is_none());
            assert!(matches!(u.filter.meta_filter.product_id, Some(Range::Exact(555))));
        }
        _ => panic!("the entry is updated first"),
    }
    assert!(matches!(&p.steps[1], CartRepoStep::Select(f) if f.customer == Some(c)));

    let p = CartServiceImpl::set_comment(c, ProductId(555), "MyComment".to_string());
    assert_eq!(p.steps.len(), 3);
    assert!(matches!(&p.steps[1], CartRepoStep::SelectExactlyOne(f) if f.customer == Some(c)));
    assert!(matches!(&p.steps[2], CartRepoStep::Select(f) if f.customer == Some(c)));
    match &p.steps[0] {
        CartRepoStep::Update(u) => assert_eq!(u.data.comment.as_deref(), Some("MyComment")),
        _ => panic!("the entry is updated first"),
    }
    let p = CartServiceImpl::delete_coupon_by_product(c, ProductId(555));
    match &p.steps[0] {
        CartRepoStep::Update(u) => assert_eq!(u.data.coupon_id, Some(None)),
        _ => panic!("the entry is updated first"),
    }
}

#[test]
fn cart_increment_delete_clear() {
    let c = CartCustomer::User(UserId(12345));
    let payload = CartProductIncrementPayload { store_id: StoreId(9), pre_order: true, pre_order_days: 3 };
    let p = CartServiceImpl::increment_item(c, ProductId(555), payload);
    match &p.steps[0] {
        CartRepoStep::InsertExactlyOne(ins) => {
            assert_eq!(ins.strategy, CartItemMergeStrategy::Incrementer);
            assert_eq!(ins.data.quantity, Quantity(1));
            assert_eq!(ins.data.store_id, StoreId(9));
            assert!(ins.data.pre_order);
        }
        _ => panic!("the product is inserted or incremented"),
    }

    let p = CartServiceImpl::delete_item(c, ProductId(555));
    assert!(matches!(p.steps[0], CartRepoStep::SelectExactlyOne(_)));
    assert!(matches!(p.steps[1], CartRepoStep::Delete(_)));

    let p = CartServiceImpl::clear_cart(c);
    assert_eq!(p.answer, CartAnswer::EmptyCart);
    assert_eq!(p.steps.len(), 1);

    let p = CartServiceImpl::list(c, ProductId(10), 5);
    match &p.steps[0] {
        CartRepoStep::SelectLimited { filter, limit } => {
            assert_eq!(*limit, 5);
            assert!(matches!(&filter.meta_filter.product_id, Some(Range::From(l)) if l.value == 10 && l.inclusive));
        }
        _ => panic!("a limited read"),
    }
}

#[test]
fn merging_moves_entries_without_overwriting() {
    let from = CartCustomer::Anonymous(orders_lib::types::SessionId(5));
    let to = CartCustomer::User(UserId(6));
    let p = CartServiceImpl::merge_start(from);
    assert!(matches!(&p.steps[0], CartRepoStep::Delete(f) if f.customer == Some(from)));
    let moved = vec![cart_item(1, 10, 1, None, "a"), cart_item(2, 11, 2, None, "b")];
    let p = CartServiceImpl::merge_finish(moved, to);
    assert_eq!(p.steps.len(), 3);
    for (i, step) in p.steps.iter().take(2).enumerate() {
        match step {
            CartRepoStep::Insert(ins) => {
                assert_eq!(ins.strategy, CartItemMergeStrategy::CollisionNoOp);
                assert_eq!(ins.data.customer, to);
                assert_eq!(ins.data.product_id, ProductId(10 + i as i32));
            }
            _ => panic!("entries are inserted"),
        }
    }
    assert!(matches!(&p.steps[2], CartRepoStep::Select(f) if f.customer == Some(to)));
}

#[test]
fn store_wide_cart_changes() {
    let p = CartServiceImpl::delete_products_from_all_carts(vec![1, 2]);
    assert_eq!(p.answer, CartAnswer::Done);
    match &p.steps[0] {
        CartRepoStep::Delete(f) => {
            assert!(f.customer.is_none());
            assert!(matches!(&f.meta_filter.product_id, Some(Range::In(v)) if *v == vec![1, 2]));
        }
        _ => panic!("entries are deleted"),
    }
    let p = CartServiceImpl::delete_delivery_method_from_all_carts(vec![3]);
    match &p.steps[0] {
        CartRepoStep::Update(u) => {
            assert_eq!(u.data.delivery_method_id, Some(None));
            assert_eq!(u.data.comment.as_deref(), Some("Selected delivery has changed/removed by store manager"));
        }
        _ => panic!("entries are updated"),
    }
    let p = CartServiceImpl::delete_coupon(CartCustomer::User(UserId(1)), CouponId(25));
    match &p.steps[0] {
        CartRepoStep::Update(u) => assert!(matches!(u.filter.meta_filter.coupon_id, Some(Range::Exact(25)))),
        _ => panic!("entries are updated"),
    }
}

#[test]
fn conversion_prices_every_entry_or_fails() {
    let f = conversion_cart_filter(UserId(777));
    assert_eq!(f.customer, Some(CartCustomer::User(UserId(777))));
    assert_eq!(f.meta_filter.selected, Some(true));

    let prices = vec![(ProductId(12345), 1001u32), (ProductId(67890), 25u32)];
    let coupons = vec![(CouponId(25), 12)];
    let cart = vec![cart_item(1, 12345, 2, Some(25), "Product 1 comment"), cart_item(2, 67890, 1, None, "Product 2 comment")];
    let priced = price_cart_items(cart, &prices, &coupons).unwrap();
    assert_eq!(priced.len(), 2);
    assert_eq!(priced[0].price, 1001);
    assert_eq!(priced[0].coupon_percent, Some(12));
    assert_eq!(priced[1].price, 25);
    assert_eq!(priced[1].coupon_percent, None);

    let missing = vec![cart_item(1, 12345, 2, None, ""), cart_item(3, 88888, 1, None, "")];
    assert_eq!(price_cart_items(missing, &prices, &coupons).err(), Some(Error::MissingPrice));
    // An unknown coupon gives no percent.
    let unknown = vec![cart_item(1, 12345, 2, Some(99), "")];
    assert_eq!(price_cart_items(unknown, &prices, &coupons).unwrap()[0].coupon_percent, None);

    let drafts = conversion_drafts(priced, Some(ConversionId(3)), UserId(777), "Mr. Anderson", "+14441234567", "neo@matrix");
    assert_eq!(drafts.len(), 2);
    assert_eq!(drafts[0].order.created_from, Some(CartItemId(1)));
    assert_eq!(drafts[0].order.state, OrderState::New);
    assert_eq!(drafts[0].order.quantity, Quantity(2));
    assert_eq!(drafts[0].order.coupon_percent, Some(12));
    assert_eq!(drafts[0].order.receiver_name, "Mr. Anderson");
    assert_eq!(drafts[0].comment, "Product 1 comment");
    assert_eq!(drafts[1].price, 25);

    let rec = creation_record(OrderId(9), UserId(-1), 77, drafts[0].comment.clone());
    assert_eq!(rec.state, OrderState::New);
    assert_eq!(rec.comment.as_deref(), Some("Product 1 comment"));
    assert_eq!(rec.committed_at, 77);
}

#[test]
fn product_discount_wins_over_coupon() {
    assert_eq!(discount_kind(true, Some(25)), DiscountKind::Product);
    assert_eq!(discount_kind(true, None), DiscountKind::Product);
    assert_eq!(discount_kind(false, Some(30)), DiscountKind::Coupon(30));
    assert_eq!(discount_kind(false, None), DiscountKind::NoDiscount);
}

#[test]
fn reverting_a_conversion_restores_the_entries() {
    assert_eq!(conversion_orders_filter(ConversionId(3)).conversion_id, Some(ConversionId(3)));
    let history = vec![
        diff(1, OrderState::Paid, Some("paid")),
        diff(1, OrderState::New, None),
        diff(1, OrderState::New, Some("Product 1 comment")),
        diff(1, OrderState::New, Some("later")),
    ];
    assert_eq!(comment_of_history(history), "Product 1 comment");
    assert_eq!(comment_of_history(vec![]), "");

    let o = order(1, OrderState::New, 0);
    let out = reverted_cart_items(vec![(o, vec![diff(1, OrderState::New, Some("MyComment"))]), (order(2, OrderState::Paid, 0), vec![])]);
    assert_eq!(out.len(), 2);
    let e = &out[0];
    assert_eq!(e.strategy, CartItemMergeStrategy::Replacer);
    assert_eq!(e.data.id, CartItemId(101));
    assert_eq!(e.data.customer, CartCustomer::User(UserId(777)));
    assert_eq!(e.data.product_id, ProductId(12345));
    assert_eq!(e.data.quantity, Quantity(2));
    assert!(e.data.selected);
    assert_eq!(e.data.comment, "MyComment");
    assert_eq!(e.data.coupon_id, Some(CouponId(25)));
    assert!(!e.data.pre_order);
    assert_eq!(e.data.delivery_method_id, None);
    assert_eq!(out[1].data.comment, "");
}

#[test]
fn the_committer_is_the_caller() {
    let login = UserLogin::User {
        caller_id: UserId(5),
        caller_roles: vec![RoleEntry { id: RoleEntryId(1), user_id: UserId(5), role: UserRole::Superadmin }],
    };
    assert_eq!(calling_user(&login), UserId(5));
    assert_eq!(calling_user(&UserLogin::Anonymous), UserId(-1));
}

#[test]
fn state_queries_answer_orders_with_recent_records() {
    let orders = vec![order(1, OrderState::Sent, 10), order(2, OrderState::Sent, 0), order(1, OrderState::Sent, 20), order(3, OrderState::Sent, 0)];
    let recent = vec![diff(3, OrderState::Sent, None), diff(1, OrderState::Sent, None), diff(1, OrderState::Sent, None)];
    let found = orders_with_recent_diffs(orders, &recent);
    let ids: Vec<OrderId> = found.iter().map(|o| o.id).collect();
    assert_eq!(ids, vec![OrderId(1), OrderId(3)]);
    // Of orders that share an id, the last one is kept.
    assert_eq!(found[0].updated_at, 20);
    assert!(orders_with_recent_diffs(vec![order(4, OrderState::Sent, 0)], &vec![]).is_empty());

    let f = recent_diffs_filter(OrderState::Delivered, 10);
    assert_eq!(f.state, Some(OrderState::Delivered));
    assert!(matches!(&f.committed_at_range, Some(Range::From(l)) if l.value == 10 && l.inclusive));
    let f = old_diffs_filter(OrderId(4), 20);
    assert_eq!(f.parent, Some(OrderId(4)));
    assert_eq!(f.state, Some(OrderState::Delivered));
    assert!(matches!(&f.committed_at_range, Some(Range::To(l)) if l.value == 20 && l.inclusive));
    assert_eq!(state_search(OrderState::Sent).state, Some(OrderState::Sent));

    let groups = vec![vec![diff(1, OrderState::Delivered, None), diff(2, OrderState::Delivered, None)], vec![], vec![diff(1, OrderState::Delivered, None)]];
    assert_eq!(orders_to_complete(&groups), vec![OrderId(1), OrderId(2), OrderId(1)]);
}

#[test]
fn delivered_orders_complete_after_their_days() {
    let day: i128 = 86_400_000_000_000;
    assert_eq!(days_to_nanos(1), day);
    assert_eq!(days_to_nanos(-2), -2 * day);
    assert_eq!(time_before(10 * day, day), 9 * day);
    let now = 10 * day;
    let orders = vec![order(1, OrderState::Delivered, 8 * day), order(2, OrderState::Delivered, 9 * day + 1), order(3, OrderState::Delivered, 9 * day)];
    assert_eq!(orders_due_for_completion(&orders, now, 1), vec![OrderId(1), OrderId(3)]);
    assert_eq!(orders_due_for_completion(&orders, now, 0), vec![OrderId(1), OrderId(2), OrderId(3)]);
}

#[test]
fn state_changes_leave_a_record() {
    let u = order_state_updater(OrderIdentifier::Slug(OrderSlug(1001)), OrderState::Sent, Some("1Z".to_string()));
    assert_eq!(u.mask.slug, Some(OrderSlug(1001)));
    assert_eq!(u.data.state, Some(OrderState::Sent));
    assert_eq!(u.data.track_id.as_deref(), Some("1Z"));

    assert!(state_change_record(vec![], UserId(1), 5, None).is_none());
    let (o, d) = state_change_record(vec![order(1, OrderState::Paid, 0), order(2, OrderState::Sent, 0)], UserId(1), 5, Some("c".to_string())).unwrap();
    assert_eq!(o.id, OrderId(2));
    assert_eq!(d.parent, OrderId(2));
    assert_eq!(d.state, OrderState::Sent);
    assert_eq!(d.committer, UserId(1));
    assert_eq!(d.committed_at, 5);
    assert_eq!(d.comment.as_deref(), Some("c"));
}

#[test]
fn order_lookups() {
    assert_eq!(orders_for_user_filter(UserId(3)).customer, Some(UserId(3)));
    assert_eq!(orders_for_store_filter(StoreId(4)).store, Some(StoreId(4)));
    let h = history_filter(OrderId(5));
    assert_eq!(h.parent, Some(OrderId(5)));
    assert!(h.do_order);
    assert_eq!(direct_order_id(OrderIdentifier::Id(OrderId(5))), Some(OrderId(5)));
    assert_eq!(direct_order_id(OrderIdentifier::Slug(OrderSlug(5))), None);
    assert!(found_order(vec![]).is_none());
    assert_eq!(found_order(vec![order(1, OrderState::New, 0), order(2, OrderState::New, 0)]).unwrap().id, OrderId(2));
    let terms = OrderSearchTerms {
        slug: Some(OrderSlug(7)),
        created_from: None,
        created_to: Some(9),
        payment_status: None,
        customer: None,
        store: Some(StoreId(1)),
        state: None,
    };
    let f = search_filter(terms).unwrap();
    assert!(f.do_order);
    assert_eq!(f.slug, Some(OrderSlug(7)));
    assert_eq!(f.store, Some(StoreId(1)));
    assert!(matches!(&f.created_at, Some(Range::To(l)) if l.value == 9));
}

#[test]
fn coupons_selection_and_delivery_methods() {
    let c = CartCustomer::User(UserId(12345));
    let p = CartServiceImpl::add_coupon(c, ProductId(555), CouponId(25));
    match &p.steps[0] {
        CartRepoStep::Update(u) => {
            assert_eq!(u.data.coupon_id, Some(Some(CouponId(25))));
            assert_eq!(u.filter.customer, Some(c));
        }
        _ => panic!("the entry is updated first"),
    }
    let p = CartServiceImpl::set_selection(c, ProductId(555), false);
    match &p.steps[0] {
        CartRepoStep::Update(u) => assert_eq!(u.data.selected, Some(false)),
        _ => panic!("the entry is updated first"),
    }
    let p = CartServiceImpl::set_delivery_method(c, ProductId(555), Some(DeliveryMethodId(4)));
    match &p.steps[0] {
        CartRepoStep::Update(u) => assert_eq!(u.data.delivery_method_id, Some(Some(DeliveryMethodId(4)))),
        _ => panic!("the entry is updated first"),
    }
    let p = CartServiceImpl::set_delivery_method(c, ProductId(555), None);
    match &p.steps[0] {
        CartRepoStep::Update(u) => assert_eq!(u.data.delivery_method_id, Some(None)),
        _ => panic!("the entry is updated first"),
    }
    assert_eq!(p.answer, CartAnswer::LastResult);
}

#[test]
fn cart_items_split_into_product_and_meta() {
    let (product, info) = cart_item(1, 555, 9000, None, "MyComment").into_meta();
    assert_eq!(product, ProductId(555));
    assert_eq!(info.quantity, Quantity(9000));
    assert!(info.selected);
    assert_eq!(info.comment, "MyComment");
    assert_eq!(info.store_id, StoreId(1337));
}

#[test]
fn requests_become_cart_operations() {
    let c = CartCustomer::User(UserId(12345));
    let set = ControllerAction::SetQuantity { customer: c, product_id: ProductId(555) };
    assert_eq!(body_kind(set), BodyKind::Quantity);
    let call = cart_call(set, CartBody::Quantity(Quantity(9000))).unwrap().unwrap();
    assert!(call.merge_into.is_none());
    match &call.plan.steps[0] {
        CartRepoStep::Update(u) => assert_eq!(u.data.quantity, Some(Quantity(9000))),
        _ => panic!("the entry is updated first"),
    }
    // A body that does not hold the quantity is refused as unreadable.
    assert_eq!(cart_call(set, CartBody::Nothing).unwrap().err(), Some(Error::ParseError));
    assert_eq!(cart_call(set, CartBody::Selection(true)).unwrap().err(), Some(Error::ParseError));

    let clear = ControllerAction::ClearCart { customer: c };
    assert_eq!(body_kind(clear), BodyKind::Nothing);
    assert_eq!(cart_call(clear, CartBody::Nothing).unwrap().unwrap().plan.answer, CartAnswer::EmptyCart);

    let from = CartCustomer::Anonymous(orders_lib::types::SessionId(5));
    let merge = cart_call(ControllerAction::MergeCarts, CartBody::Merge { from, to: c }).unwrap().unwrap();
    assert_eq!(merge.merge_into, Some(c));
    assert!(matches!(&merge.plan.steps[0], CartRepoStep::Delete(f) if f.customer == Some(from)));

    assert_eq!(body_kind(ControllerAction::ConvertCart), BodyKind::Conversion);
    assert!(cart_call(ControllerAction::ConvertCart, CartBody::Nothing).is_none());
    assert!(cart_call(ControllerAction::GetOrder { order_id: OrderIdentifier::Slug(OrderSlug(1)) }, CartBody::Nothing).is_none());
}
