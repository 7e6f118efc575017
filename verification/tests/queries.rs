use orders_lib::cart::{
    split_cart_item, CartItem, CartItemFilter, CartItemInserter, CartItemMergeStrategy, CartItemMetaFilter,
    CartItemSession, CartItemSessionInserter, CartItemUpdateData, CartItemUpdater, CartItemUser, CartItemUserInserter,
    SplitCartItem, SplitCartItemInserter,
};
use orders_lib::order::{
    into_range, OrderDiffFilter, OrderDiffInserter, OrderFilter, OrderSearchTerms, OrderUpdateData, OrderUpdater,
};
use orders_lib::product::{
    CartProduct, CartProductInserter, CartProductMask, CartProductUpdateData, CartProductUpdater, NewCartProduct,
};
use orders_lib::sql::{FilterArg, Range, SqlValue};
use orders_lib::types::{
    CartCustomer, CartItemId, CouponId, OrderId, OrderIdentifier, OrderSlug, OrderState, ProductId, Quantity,
    SessionId, StoreId, UserId,
};
use orders_lib::util::{FilteredOperation, FilteredOperationBuilder, InsertBuilder, UpdateBuilder};

fn item(customer: CartCustomer) -> CartItem {
    CartItem {
        id: CartItemId(7),
        customer,
        product_id: ProductId(555),
        quantity: Quantity(3),
        selected: true,
        comment: "MyComment".to_string(),
        store_id: StoreId(1001),
        pre_order: true,
        pre_order_days: 12,
        coupon_id: Some(CouponId(25)),
        delivery_method_id: None,
    }
}

#[test]
fn builds_filtered_statements() {
    let (q, args) = FilteredOperationBuilder::<i32>::new(FilteredOperation::Select, "cart_items").build();
    assert_eq!(q, "SELECT * FROM cart_items ;");
    assert!(args.is_empty());
    let (q, args) = FilteredOperationBuilder::new(FilteredOperation::Delete, "orders")
        .with_arg("customer", 5)
        .with_arg("store", 6)
        .with_extra("RETURNING *")
        .build();
    assert_eq!(q, "DELETE FROM orders WHERE customer = $1 AND store = $2 RETURNING *;");
    assert_eq!(args, vec![5, 6]);
    let mut b = FilteredOperationBuilder::new(FilteredOperation::Select, "t");
    for i in 0..11 {
        b = b.with_arg("c", i);
    }
    let (q, _) = b.build();
    assert!(q.ends_with("AND c = $10 AND c = $11 ;"));
}

#[test]
fn builds_insert_statements() {
    let (q, args) = InsertBuilder::new("cart_items").with_arg("a", 1).with_arg("b", 2).with_extra("ON CONFLICT DO NOTHING").build();
    assert_eq!(q, "INSERT INTO cart_items (a, b) VALUES ($1, $2) ON CONFLICT DO NOTHING;");
    assert_eq!(args, vec![1, 2]);
    let (q, args) = InsertBuilder::<i32>::new("t").build();
    assert_eq!(q, "INSERT INTO t () VALUES () ;");
    assert!(args.is_empty());
}

#[test]
fn update_builders_keep_their_parts() {
    let f = FilteredOperationBuilder::new(FilteredOperation::Select, "t").with_arg("id", 1);
    let u = UpdateBuilder::from_filter(f).with_value("state", "paid").with_value("track_id", "x");
    let (f, columns, values) = u.into_parts();
    assert_eq!(columns, vec!["state", "track_id"]);
    assert_eq!(values, vec!["paid", "x"]);
    assert_eq!(f.build().0, "SELECT * FROM t WHERE id = $1 ;");
}

#[test]
fn splits_cart_items_by_owner() {
    match split_cart_item(item(CartCustomer::User(UserId(12345)))) {
        SplitCartItem::User(u) => {
            assert_eq!(u.user_id, UserId(12345));
            assert_eq!(u.comment, "MyComment");
            let back = u.into_cart_item();
            assert_eq!(back.customer, CartCustomer::User(UserId(12345)));
            assert_eq!(back.product_id, ProductId(555));
            assert_eq!(back.coupon_id, Some(CouponId(25)));
        }
        SplitCartItem::Session(_) => panic!("a user's item goes to the users' table"),
    }
    match split_cart_item(item(CartCustomer::Anonymous(SessionId(9)))) {
        SplitCartItem::Session(s) => {
            assert_eq!(s.session_id, SessionId(9));
            assert_eq!(s.into_cart_item().customer, CartCustomer::Anonymous(SessionId(9)));
        }
        SplitCartItem::User(_) => panic!("a session's item goes to the sessions' table"),
    }
}

#[test]
fn inserts_cart_entries_with_their_conflict_clause() {
    let ins = CartItemInserter { strategy: CartItemMergeStrategy::Incrementer, data: item(CartCustomer::User(UserId(1))) };
    let u = match ins.split() {
        SplitCartItemInserter::User(u) => u,
        SplitCartItemInserter::Session(_) => panic!("wrong table"),
    };
    let (q, args) = u.into_insert_builder("cart_items_user").build();
    assert_eq!(
        q,
        "INSERT INTO cart_items_user (comment, id, product_id, quantity, selected, store_id, user_id, pre_order, pre_order_days) \
         VALUES ($1, $2, $3, $4, $5, $6, $7, $8, $9) \
         ON CONFLICT (user_id, product_id) DO UPDATE SET quantity = cart_items_user.quantity + 1;"
    );
    assert_eq!(args.len(), 9);
    assert!(matches!(args[6], SqlValue::Int(1)));
    assert!(matches!(args[1], SqlValue::Uuid(7)));

    let s = CartItemSessionInserter {
        strategy: CartItemMergeStrategy::CollisionNoOp,
        data: CartItemSession::new(SessionId(3), ProductId(4), StoreId(5), false, 0),
    };
    let (q, args) = s.into_insert_builder("cart_items_session").build();
    assert!(q.ends_with("ON CONFLICT (session_id, product_id) DO NOTHING;"));
    assert!(matches!(args[6], SqlValue::Int(3)));
    assert!(matches!(args[3], SqlValue::Int(1)));

    let r = CartItemSessionInserter {
        strategy: CartItemMergeStrategy::Replacer,
        data: CartItemSession::new(SessionId(3), ProductId(4), StoreId(5), false, 0),
    };
    let (q, _) = r.into_insert_builder("cart_items_session").build();
    assert!(q.ends_with(
        "ON CONFLICT (session_id, product_id) DO UPDATE SET comment = EXCLUDED.comment, id = EXCLUDED.id, \
         product_id = EXCLUDED.product_id, quantity = EXCLUDED.quantity, selected = EXCLUDED.selected, \
         store_id = EXCLUDED.store_id, pre_order = EXCLUDED.pre_order, pre_order_days = EXCLUDED.pre_order_days, \
         coupon_id = EXCLUDED.coupon_id, delivery_method_id = EXCLUDED.delivery_method_id, session_id = EXCLUDED.session_id;"
    ));

    let plain = CartItemUserInserter {
        strategy: CartItemMergeStrategy::Standard,
        data: CartItemUser::new(UserId(8), ProductId(4), StoreId(5), true, 3),
    };
    let (q, _) = plain.into_insert_builder("cart_items_user").build();
    assert!(q.ends_with("($1, $2, $3, $4, $5, $6, $7, $8, $9) ;"));
}

#[test]
fn fresh_entries_have_one_selected_piece_and_new_ids() {
    let a = CartItemUser::new(UserId(1), ProductId(2), StoreId(3), false, 0);
    let b = CartItemUser::new(UserId(1), ProductId(2), StoreId(3), false, 0);
    assert_eq!(a.quantity, Quantity(1));
    assert!(a.selected);
    assert_eq!(a.comment, "");
    assert_eq!(a.coupon_id, None);
    assert_ne!(a.id, b.id);
}

#[test]
fn filters_cart_entries() {
    let mut m = CartItemMetaFilter::default();
    m.product_id = Some(Range::Exact(555));
    m.selected = Some(true);
    let f = CartItemFilter { customer: Some(CartCustomer::User(UserId(12345))), meta_filter: m };
    let (q, args) = f.into_filtered_operation_builder(FilteredOperation::Select, "cart_items_user").build();
    assert_eq!(q, "SELECT * FROM cart_items_user WHERE user_id = $1 AND product_id = $2 AND selected = $3 ;");
    assert!(matches!(args[0], FilterArg::Value(SqlValue::Int(12345))));
    assert!(matches!(args[1], FilterArg::Ints(Range::Exact(555))));
    assert!(matches!(args[2], FilterArg::Value(SqlValue::Bool(true))));

    let f = CartItemFilter { customer: None, meta_filter: CartItemMetaFilter::default() };
    let (q, args) = f.into_filtered_operation_builder(FilteredOperation::Delete, "cart_items_session").build();
    assert_eq!(q, "DELETE FROM cart_items_session ;");
    assert!(args.is_empty());

    // The quantity condition is not written.
    let mut m = CartItemMetaFilter::default();
    m.quantity = Some(Range::Exact(1));
    m.coupon_id = Some(Range::Exact(25));
    let f = CartItemFilter { customer: Some(CartCustomer::Anonymous(SessionId(2))), meta_filter: m };
    let (q, _) = f.into_filtered_operation_builder(FilteredOperation::Select, "cart_items_session").build();
    assert_eq!(q, "SELECT * FROM cart_items_session WHERE session_id = $1 AND coupon_id = $2 ;");
}

#[test]
fn updates_cart_entries() {
    let mut data = CartItemUpdateData::default();
    data.quantity = Some(Quantity(9000));
    data.selected = Some(false);
    data.coupon_id = Some(None);
    let u = CartItemUpdater {
        filter: CartItemFilter { customer: Some(CartCustomer::User(UserId(1))), meta_filter: CartItemMetaFilter::default() },
        data,
    };
    let (f, columns, values) = u.into_update_builder("cart_items_user").into_parts();
    assert_eq!(columns, vec!["selected", "quantity", "coupon_id"]);
    assert!(matches!(values[0], SqlValue::Bool(false)));
    assert!(matches!(values[1], SqlValue::Int(9000)));
    assert!(matches!(values[2], SqlValue::OptInt(None)));
    assert_eq!(f.build().0, "SELECT * FROM cart_items_user WHERE user_id = $1 ;");
}

#[test]
fn filters_orders() {
    let (q, args) = OrderFilter::from_identifier(OrderIdentifier::Slug(OrderSlug(1001)))
        .into_filtered_operation_builder(FilteredOperation::Select, "orders")
        .build();
    assert_eq!(q, "SELECT * FROM orders WHERE slug = $1 ;");
    assert!(matches!(args[0], FilterArg::Value(SqlValue::Int(1001))));

    let terms = OrderSearchTerms {
        slug: None,
        created_from: Some(100),
        created_to: None,
        payment_status: Some(true),
        customer: Some(UserId(3)),
        store: None,
        state: Some(OrderState::Paid),
    };
    let f = OrderFilter::from_search_terms(terms).unwrap().with_ordering(true);
    let (q, args) = f.into_filtered_operation_builder(FilteredOperation::Select, "orders").build();
    assert_eq!(
        q,
        "SELECT * FROM orders WHERE customer = $1 AND created_at = $2 AND state = $3 AND payment_status = $4 ORDER BY created_at DESC;"
    );
    match &args[1] {
        FilterArg::Times(Range::From(l)) => {
            assert_eq!(l.value, 100);
            assert!(l.inclusive);
        }
        _ => panic!("creation time is a range from the given time"),
    }
    assert!(matches!(args[2], FilterArg::Value(SqlValue::State(OrderState::Paid))));
}

#[test]
fn ranges_between_points_in_time() {
    assert!(into_range(None, None).is_none());
    assert!(matches!(into_range(Some(1), None), Some(Range::From(_))));
    assert!(matches!(into_range(None, Some(2)), Some(Range::To(_))));
    match into_range(Some(1), Some(2)) {
        Some(Range::Between((a, b))) => {
            assert_eq!((a.value, a.inclusive, b.value, b.inclusive), (1, true, 2, true));
        }
        _ => panic!("both ends give a range between them"),
    }
}

#[test]
fn filters_and_records_history() {
    let f = OrderDiffFilter::from_parent(OrderId(5)).with_ordering(true);
    let (q, args) = f.into_filtered_operation_builder(FilteredOperation::Select, "order_diffs").build();
    assert_eq!(q, "SELECT * FROM order_diffs WHERE parent = $1 ORDER BY committed_at DESC;");
    assert!(matches!(args[0], FilterArg::Value(SqlValue::Uuid(5))));

    let ins = OrderDiffInserter {
        parent: OrderId(5),
        committer: UserId(-1),
        committed_at: 42,
        state: OrderState::New,
        comment: Some("Product 1 comment".to_string()),
    };
    let (q, args) = ins.into_insert_builder("order_diffs").build();
    assert_eq!(q, "INSERT INTO order_diffs (parent, committer, committed_at, state, comment) VALUES ($1, $2, $3, $4, $5) ;");
    assert!(matches!(args[1], SqlValue::Int(-1)));
    assert!(matches!(args[2], SqlValue::Time(42)));
}

#[test]
fn updates_orders() {
    let u = OrderUpdater {
        mask: OrderFilter::from_identifier(OrderIdentifier::Id(OrderId(9))),
        data: OrderUpdateData { state: Some(OrderState::Sent), track_id: Some("1Z999".to_string()) },
    };
    let (f, columns, values) = u.into_update_builder("orders").into_parts();
    assert_eq!(columns, vec!["state", "track_id"]);
    assert!(matches!(values[0], SqlValue::State(OrderState::Sent)));
    assert!(matches!(&values[1], SqlValue::Text(t) if t == "1Z999"));
    assert_eq!(f.build().0, "SELECT * FROM orders WHERE id = $1 ;");
}

#[test]
fn single_table_cart_products() {
    let p = NewCartProduct::new(UserId(1234), ProductId(5555), StoreId(4444));
    assert_eq!(p.quantity, Quantity(1));
    let (q, args) = CartProductInserter::Incrementer(p).into_insert_builder("cart_items").build();
    assert_eq!(
        q,
        "INSERT INTO cart_items (user_id, product_id, quantity, selected, comment, store_id) VALUES ($1, $2, $3, $4, $5, $6) \
         ON CONFLICT (user_id, product_id) DO UPDATE SET quantity = cart_items.quantity + 1;"
    );
    assert!(matches!(args[0], SqlValue::Int(1234)));
    let stored = CartProduct {
        id: CartItemId(1),
        user_id: UserId(1234),
        product_id: ProductId(5555),
        quantity: Quantity(9000),
        selected: false,
        comment: String::new(),
        store_id: StoreId(4444),
    };
    let (id, data) = stored.decompose();
    assert_eq!(id, CartItemId(1));
    assert_eq!(data.quantity, Quantity(9000));
    let (q, _) = CartProductInserter::CollisionNoOp(data).into_insert_builder("cart_items").build();
    assert!(q.ends_with("ON CONFLICT (user_id, product_id) DO NOTHING;"));

    let mask = CartProductMask {
        id: None,
        user_id: Some(Range::Exact(1234)),
        product_id: Some(Range::Exact(5555)),
        quantity: Some(Range::Exact(1)),
        selected: None,
        comment: None,
        store_id: None,
    };
    let u = CartProductUpdater {
        mask,
        data: CartProductUpdateData { quantity: Some(Quantity(8000)), selected: None, comment: None },
    };
    let (f, columns, _) = u.into_update_builder("cart_items").into_parts();
    assert_eq!(columns, vec!["quantity"]);
    assert_eq!(f.build().0, "SELECT * FROM cart_items WHERE product_id = $1 AND user_id = $2 ;");
}
