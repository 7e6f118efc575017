use std::collections::HashMap;

use orders_lib::cart::{
    CartItem, CartItemFilter, CartItemInserter, CartItemMergeStrategy, CartItemMetaFilter, CartItemSession,
    CartItemUpdateData, CartItemUpdater, CartItemUser,
};
use orders_lib::cart_repo::{filter_statements, inserter_statement, joined_results, updater_statements, CartTable};
use orders_lib::order::{write_address_into_inserter, AddressFull, OrderInserter};
use orders_lib::order_service::{buy_now_draft, creation_record, BuyNow};
use orders_lib::product::{base_product_url, product_info_url, Cart, CartProduct, ProductInfo};
use orders_lib::sql::{FilterArg, Range, SqlValue};
use orders_lib::text::append_int;
use orders_lib::types::{
    CartCustomer, CartItemId, ConversionId, CouponId, OrderId, OrderState, ProductId, Quantity, SessionId, StoreId, UserId,
};
use orders_lib::util::{FilteredOperation, InsertBuilder};

fn item(customer: CartCustomer, product: i32) -> CartItem {
    CartItem {
        id: CartItemId(product as u128),
        customer,
        product_id: ProductId(product),
        quantity: Quantity(1),
        selected: true,
        comment: String::new(),
        store_id: StoreId(1),
        pre_order: false,
        pre_order_days: 0,
        coupon_id: None,
        delivery_method_id: None,
    }
}

#[test]
fn table_names() {
    assert_eq!(CartTable::User.name(), "cart_items_user");
    assert_eq!(CartTable::Session.name(), "cart_items_session");
}

#[test]
fn a_customer_reaches_one_table_and_no_customer_both() {
    let mut m = CartItemMetaFilter::default();
    m.product_id = Some(Range::In(vec![1, 2]));
    let f = CartItemFilter { customer: Some(CartCustomer::Anonymous(SessionId(4))), meta_filter: m };
    let v = filter_statements(f, FilteredOperation::Delete);
    assert_eq!(v.len(), 1);
    assert_eq!(v[0].table, CartTable::Session);
    let (q, _) = v.into_iter().next().unwrap().statement.build();
    assert_eq!(q, "DELETE FROM cart_items_session WHERE session_id = $1 AND product_id = $2 ;");

    let mut m = CartItemMetaFilter::default();
    m.product_id = Some(Range::In(vec![1, 2]));
    m.comment = Some("x".to_string());
    let f = CartItemFilter { customer: None, meta_filter: m };
    let v = filter_statements(f, FilteredOperation::Select);
    assert_eq!(v.len(), 2);
    assert_eq!(v[0].table, CartTable::User);
    assert_eq!(v[1].table, CartTable::Session);
    let mut it = v.into_iter();
    let (q0, a0) = it.next().unwrap().statement.build();
    let (q1, a1) = it.next().unwrap().statement.build();
    assert_eq!(q0, "SELECT * FROM cart_items_user WHERE product_id = $1 AND comment = $2 ;");
    assert_eq!(q1, "SELECT * FROM cart_items_session WHERE product_id = $1 AND comment = $2 ;");
    for args in [a0, a1] {
        assert!(matches!(&args[0], FilterArg::Ints(Range::In(v)) if *v == vec![1, 2]));
        assert!(matches!(&args[1], FilterArg::Value(SqlValue::Text(t)) if t == "x"));
    }
}

#[test]
fn updates_reach_the_tables_of_their_filter() {
    let mut data = CartItemUpdateData::default();
    data.comment = Some("c".to_string());
    let u = CartItemUpdater { filter: CartItemFilter { customer: None, meta_filter: CartItemMetaFilter::default() }, data };
    let v = updater_statements(u);
    assert_eq!(v.len(), 2);
    assert_eq!(v[1].table, CartTable::Session);
    for t in v {
        let (f, columns, values) = t.statement.into_parts();
        assert_eq!(columns, vec!["comment"]);
        assert!(matches!(&values[0], SqlValue::Text(c) if c == "c"));
        assert!(f.build().0.starts_with(&format!("SELECT * FROM {} ", t.table.name())));
    }
    let u = CartItemUpdater {
        filter: CartItemFilter { customer: Some(CartCustomer::User(UserId(3))), meta_filter: CartItemMetaFilter::default() },
        data: CartItemUpdateData::default(),
    };
    let v = updater_statements(u);
    assert_eq!(v.len(), 1);
    assert_eq!(v[0].table, CartTable::User);
}

#[test]
fn inserts_go_to_the_owners_table() {
    let t = inserter_statement(CartItemInserter {
        strategy: CartItemMergeStrategy::Replacer,
        data: item(CartCustomer::Anonymous(SessionId(1)), 5),
    });
    assert_eq!(t.table, CartTable::Session);
    let (q, _) = t.statement.build();
    assert!(q.starts_with("INSERT INTO cart_items_session ("));
    assert!(q.contains("ON CONFLICT (session_id, product_id) DO UPDATE SET comment = EXCLUDED.comment"));
    let t = inserter_statement(CartItemInserter {
        strategy: CartItemMergeStrategy::Standard,
        data: item(CartCustomer::User(UserId(1)), 5),
    });
    assert_eq!(t.table, CartTable::User);
}

#[test]
fn answers_join_users_then_sessions() {
    let users = vec![
        CartItemUser::new(UserId(1), ProductId(10), StoreId(1), false, 0),
        CartItemUser::new(UserId(2), ProductId(11), StoreId(1), false, 0),
    ];
    let sessions = vec![CartItemSession::new(SessionId(3), ProductId(12), StoreId(1), false, 0)];
    let all = joined_results(users, sessions);
    let owners: Vec<CartCustomer> = all.iter().map(|i| i.customer).collect();
    assert_eq!(
        owners,
        vec![CartCustomer::User(UserId(1)), CartCustomer::User(UserId(2)), CartCustomer::Anonymous(SessionId(3))]
    );
    assert_eq!(all[2].product_id, ProductId(12));
    assert!(joined_results(vec![], vec![]).is_empty());
}

#[test]
fn buy_now_makes_one_new_order() {
    let payload = BuyNow {
        customer_id: UserId(777),
        store_id: StoreId(1337),
        product_id: ProductId(12345),
        quantity: Quantity(2),
        price: 100u64,
        receiver_name: "Mr. Anderson".to_string(),
        receiver_phone: "+14441234567".to_string(),
        receiver_email: "neo@matrix".to_string(),
        pre_order: true,
        pre_order_days: 12,
        coupon: Some((CouponId(25), 30)),
    };
    let d = buy_now_draft(payload, Some(ConversionId(9)));
    assert_eq!(d.order.created_from, None);
    assert_eq!(d.order.conversion_id, Some(ConversionId(9)));
    assert_eq!(d.order.customer, UserId(777));
    assert_eq!(d.order.state, OrderState::New);
    assert_eq!(d.order.coupon_id, Some(CouponId(25)));
    assert_eq!(d.order.coupon_percent, Some(30));
    assert!(d.order.pre_order);
    assert_eq!(d.price, 100);
    assert_eq!(d.comment, "Buy now");
    let rec = creation_record(OrderId(1), UserId(777), 5, d.comment);
    assert_eq!(rec.comment.as_deref(), Some("Buy now"));
}

fn empty_address() -> AddressFull {
    AddressFull {
        location: None,
        administrative_area_level_1: None,
        administrative_area_level_2: None,
        country: None,
        locality: None,
        political: None,
        postal_code: None,
        route: None,
        street_number: None,
        address: None,
        place_id: None,
    }
}

#[test]
fn addresses_write_their_present_parts() {
    let mut a = empty_address();
    a.location = Some((1.5f64.to_bits(), 2.5f64.to_bits()));
    a.country = Some("Matrix".to_string());
    a.locality = Some("Central city".to_string());
    let (q, values) = write_address_into_inserter(a, InsertBuilder::new("orders").with_arg("customer", SqlValue::Int(1))).build();
    assert_eq!(q, "INSERT INTO orders (customer, location, country, locality) VALUES ($1, $2, $3, $4) ;");
    assert!(matches!(values[1], SqlValue::Point(x, y) if f64::from_bits(x) == 1.5 && f64::from_bits(y) == 2.5));
    assert!(matches!(&values[3], SqlValue::Text(t) if t == "Central city"));
}

#[test]
fn orders_write_fixed_then_address_then_optional_columns() {
    let mut address = empty_address();
    address.postal_code = Some("12345".to_string());
    let o = OrderInserter {
        id: None,
        created_from: Some(CartItemId(7)),
        conversion_id: None,
        customer: UserId(1),
        store: StoreId(2),
        product: ProductId(3),
        price: 1001.5f64.to_bits(),
        currency_id: 4,
        quantity: Quantity(5),
        address,
        receiver_name: "Mr. Anderson".to_string(),
        receiver_phone: "+14441234567".to_string(),
        delivery_company: Some("UPS".to_string()),
        state: OrderState::New,
        track_id: Some("1Z".to_string()),
    };
    let (q, values) = o.into_insert_builder("orders").build();
    assert_eq!(
        q,
        "INSERT INTO orders (customer, store, product, receiver_name, receiver_phone, price, currency_id, quantity, state, \
         postal_code, created_from, track_id) VALUES ($1, $2, $3, $4, $5, $6, $7, $8, $9, $10, $11, $12) ;"
    );
    assert!(matches!(values[5], SqlValue::Price(p) if f64::from_bits(p) == 1001.5));
    assert!(matches!(values[10], SqlValue::Uuid(7)));
}

#[test]
fn stores_service_addresses() {
    assert_eq!(product_info_url("http://stores", 42), "http://stores/products/42");
    assert_eq!(product_info_url("http://stores", -7), "http://stores/products/-7");
    assert_eq!(base_product_url("http://stores", &ProductInfo { base_product_id: 9 }), "http://stores/base_products/9");
    for v in [0, 1, -1, 1234, i32::MAX, i32::MIN] {
        let mut s = String::new();
        append_int(&mut s, v);
        assert_eq!(s, v.to_string());
    }
}

#[test]
fn single_table_carts_hold_the_last_quantity_of_each_product() {
    let entry = |product: i32, quantity: i32| CartProduct {
        id: CartItemId(product as u128),
        user_id: UserId(1234),
        product_id: ProductId(product),
        quantity: Quantity(quantity),
        selected: true,
        comment: String::new(),
        store_id: StoreId(4444),
    };
    let cart = Cart::from_products(&vec![entry(5555, 9000), entry(9010, 1), entry(5555, 8000)]);
    let mut expected = HashMap::new();
    expected.insert(5555, 8000);
    expected.insert(9010, 1);
    assert_eq!(cart.products, expected);
    assert!(Cart::from_products(&vec![]).products.is_empty());
}
