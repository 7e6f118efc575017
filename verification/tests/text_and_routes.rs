use orders_lib::controller::{extract_user_id, list_query, plan_request, route_action, split_text, ControllerAction, Method};
use orders_lib::errors::Error;
use orders_lib::routing::{is_digits, is_id_text, parse_route, split_pieces, Route};
use orders_lib::text::{append_decimal, parse_i32, push_char, starts_with, str_eq};
use orders_lib::types::{
    format_uuid, parse_uuid, CartCustomer, OrderId, OrderIdentifier, OrderSlug, ProductId, SessionId, StoreId, UserId,
};

#[test]
fn parses_decimal_integers_like_str_parse() {
    assert_eq!(parse_i32("123"), Some(123));
    assert_eq!(parse_i32("-5"), Some(-5));
    assert_eq!(parse_i32("+7"), Some(7));
    assert_eq!(parse_i32("007"), Some(7));
    assert_eq!(parse_i32("2147483647"), Some(i32::MAX));
    assert_eq!(parse_i32("-2147483648"), Some(i32::MIN));
    assert_eq!(parse_i32("2147483648"), None);
    assert_eq!(parse_i32("-2147483649"), None);
    assert_eq!(parse_i32("12345abc"), None);
    assert_eq!(parse_i32(""), None);
    assert_eq!(parse_i32("-"), None);
    assert_eq!(parse_i32("+"), None);
    assert_eq!(parse_i32(" 1"), None);
    for s in ["0", "42", "-17", "99999999999", "1e3", "--1"] {
        assert_eq!(parse_i32(s), s.parse::<i32>().ok(), "{}", s);
    }
}

#[test]
fn decimal_rendering_reads_back() {
    for n in [0usize, 7, 10, 12345, 2147483647] {
        let mut s = String::new();
        append_decimal(&mut s, n);
        assert_eq!(s, n.to_string());
        assert_eq!(parse_i32(&s), Some(n as i32));
        let neg = format!("-{}", s);
        assert_eq!(parse_i32(&neg), Some(-(n as i64) as i32));
    }
    let mut s = String::from("x");
    append_decimal(&mut s, 2048);
    push_char(&mut s, '!');
    assert_eq!(s, "x2048!");
}

#[test]
fn compares_texts() {
    assert!(str_eq("cart", "cart"));
    assert!(!str_eq("cart", "carts"));
    assert!(!str_eq("cart", "card"));
    assert!(starts_with("/orders/search?x=1", "/orders/search"));
    assert!(starts_with("abc", ""));
    assert!(!starts_with("/orders", "/orders/search"));
    assert!(is_digits("0123"));
    assert!(!is_digits(""));
    assert!(!is_digits("12a"));
    assert!(is_id_text("a-Z-09"));
    assert!(!is_id_text("a_b"));
    assert!(!is_id_text(""));
}

#[test]
fn splits_paths_at_slashes() {
    assert_eq!(split_pieces("/cart/by-user/5"), vec!["", "cart", "by-user", "5"]);
    assert_eq!(split_pieces(""), vec![""]);
    assert_eq!(split_pieces("/cart/"), vec!["", "cart", ""]);
}

#[test]
fn reads_and_writes_uuids() {
    let text = "67e55044-10b1-426f-9247-bb680e5fe0c8";
    let v = parse_uuid(text).unwrap();
    assert_eq!(v, 0x67e5504410b1426f9247bb680e5fe0c8u128);
    assert_eq!(format_uuid(v), text);
    assert_eq!(parse_uuid("not-a-uuid"), None);
    assert_eq!(format_uuid(1), "00000000-0000-0000-0000-000000000001");
}

#[test]
fn routes_cart_paths() {
    let user = CartCustomer::User(UserId(12345));
    assert_eq!(parse_route("/cart/by-user/12345"), Some(Route::Cart { customer: user }));
    assert_eq!(parse_route("/cart/by-user/12345/products"), Some(Route::CartProducts { customer: user }));
    assert_eq!(parse_route("/cart/by-user/12345/clear"), Some(Route::CartClear { customer: user }));
    assert_eq!(parse_route("/cart/merge"), Some(Route::CartMerge));
    // The product of a cart product route is read from the owner's piece.
    assert_eq!(
        parse_route("/cart/by-user/12345/products/555"),
        Some(Route::CartProduct { customer: user, product_id: ProductId(12345) })
    );
    for suffix in ["increment", "quantity", "selection", "comment"] {
        assert_eq!(
            parse_route(&format!("/cart/by-user/7/products/555/{}", suffix)),
            Some(Route::CartIncrementProduct { customer: CartCustomer::User(UserId(7)), product_id: ProductId(7) })
        );
    }
    assert_eq!(parse_route("/cart/by-user/7/products/555/other"), None);
    assert_eq!(parse_route("/cart/by-user/7/products/abc"), None);
    assert_eq!(parse_route("/cart/by-user/abc"), None);
    assert_eq!(parse_route("/cart/by-user/99999999999"), None);
    assert_eq!(parse_route("/cart/products"), None);
    assert_eq!(parse_route("/cart/clear/"), None);
    assert_eq!(
        parse_route("/cart/by-session/613415346"),
        Some(Route::Cart { customer: CartCustomer::Anonymous(SessionId(613415346)) })
    );
    assert_eq!(
        parse_route("/cart/by-session/613415346/products"),
        Some(Route::CartProducts { customer: CartCustomer::Anonymous(SessionId(613415346)) })
    );
    assert_eq!(
        parse_route("/cart/by-session/42/products/5"),
        Some(Route::CartProduct { customer: CartCustomer::Anonymous(SessionId(42)), product_id: ProductId(42) })
    );
    // A session id made of letters and hyphens is not a number.
    assert_eq!(parse_route("/cart/by-session/67e55044-10b1-426f-9247-bb680e5fe0c8/products"), None);
    assert_eq!(parse_route("/cart/by-session/not_an_id"), None);
}

#[test]
fn routes_order_paths() {
    assert_eq!(parse_route("/orders"), Some(Route::Orders));
    assert_eq!(parse_route("/orders/create_from_cart"), Some(Route::OrderFromCart));
    assert_eq!(parse_route("/orders/create_from_cart/revert"), Some(Route::OrderFromCartRevert));
    assert_eq!(parse_route("/orders/search"), Some(Route::OrderSearch));
    assert_eq!(parse_route("/orders/search/anything"), Some(Route::OrderSearch));
    assert_eq!(parse_route("/orders/by-store/9"), Some(Route::OrdersByStore { store_id: StoreId(9) }));
    assert_eq!(
        parse_route("/orders/by-slug/1001"),
        Some(Route::Order { order_id: OrderIdentifier::Slug(OrderSlug(1001)) })
    );
    assert_eq!(
        parse_route("/orders/by-slug/1001/status"),
        Some(Route::OrderStatus { order_id: OrderIdentifier::Slug(OrderSlug(1001)) })
    );
    let id = "67e55044-10b1-426f-9247-bb680e5fe0c8";
    let order = OrderIdentifier::Id(OrderId(0x67e5504410b1426f9247bb680e5fe0c8));
    assert_eq!(parse_route(&format!("/orders/by-id/{}", id)), Some(Route::Order { order_id: order }));
    assert_eq!(parse_route(&format!("/order_diff/by-id/{}", id)), Some(Route::OrderDiff { order_id: order }));
    assert_eq!(
        parse_route("/order_diff/by-slug/3"),
        Some(Route::OrderDiff { order_id: OrderIdentifier::Slug(OrderSlug(3)) })
    );
    assert_eq!(parse_route("/orders/by-id/zzz"), None);
    assert_eq!(parse_route("/orders/unknown/1/2/3"), None);
    assert_eq!(parse_route("orders"), None);
    assert_eq!(parse_route(""), None);
}

#[test]
fn reads_the_caller_from_headers() {
    assert_eq!(extract_user_id(None, None), Err(Error::MissingUserId));
    assert_eq!(extract_user_id(Some("12345"), None), Ok(UserId(12345)));
    assert_eq!(extract_user_id(Some("12345"), Some("777")), Ok(UserId(12345)));
    assert_eq!(extract_user_id(None, Some("777")), Ok(UserId(777)));
    assert_eq!(extract_user_id(Some("12345abc"), None), Err(Error::UserIdParse));
    assert_eq!(extract_user_id(Some("12345abc"), Some("777")), Err(Error::UserIdParse));
    let user_id = 12345;
    assert_eq!(extract_user_id(Some(&user_id.to_string()), None), Ok(UserId(user_id)));
}

#[test]
fn chooses_the_operation_of_a_request() {
    let user = CartCustomer::User(UserId(5));
    assert_eq!(
        route_action(Method::Get, Some(Route::Cart { customer: user }), Some((ProductId(1), 10))),
        Ok(ControllerAction::ListCart { customer: user, from: ProductId(1), count: 10 })
    );
    assert_eq!(route_action(Method::Get, Some(Route::Cart { customer: user }), None), Err(Error::ParseError));
    assert_eq!(
        route_action(Method::Get, Some(Route::CartProducts { customer: user }), None),
        Ok(ControllerAction::GetCart { customer: user })
    );
    assert_eq!(route_action(Method::Put, Some(Route::CartProducts { customer: user }), None), Err(Error::InvalidRoute));
    assert_eq!(route_action(Method::Get, None, None), Err(Error::InvalidRoute));
    assert_eq!(route_action(Method::Post, Some(Route::CartMerge), None), Ok(ControllerAction::MergeCarts));
    let order = OrderIdentifier::Slug(OrderSlug(1));
    assert_eq!(
        route_action(Method::Delete, Some(Route::Order { order_id: order }), None),
        Ok(ControllerAction::DeleteOrder { order_id: order })
    );
    assert_eq!(
        route_action(Method::Get, Some(Route::Order { order_id: order }), None),
        Ok(ControllerAction::GetOrder { order_id: order })
    );
}

#[test]
fn plans_whole_requests() {
    assert_eq!(
        plan_request(Method::Get, "/cart/by-user/12345/products", "", Some("12345"), None),
        Ok((UserId(12345), ControllerAction::GetCart { customer: CartCustomer::User(UserId(12345)) }))
    );
    assert_eq!(
        plan_request(Method::Get, "/cart/by-user/12345/products", "", Some("12345abc"), None),
        Err(Error::UserIdParse)
    );
    assert_eq!(plan_request(Method::Get, "/nowhere", "", Some("1"), None), Err(Error::InvalidRoute));
    // Without credentials the request is refused before its route is read.
    assert_eq!(plan_request(Method::Get, "/nowhere", "", None, None), Err(Error::MissingUserId));
    assert_eq!(
        plan_request(Method::Post, "/orders/create_from_cart", "", None, Some("8")),
        Ok((UserId(8), ControllerAction::ConvertCart))
    );
    let user = CartCustomer::User(UserId(5));
    assert_eq!(
        plan_request(Method::Get, "/cart/by-user/5", "offset=555&count=10", Some("5"), None),
        Ok((UserId(5), ControllerAction::ListCart { customer: user, from: ProductId(555), count: 10 }))
    );
    assert_eq!(plan_request(Method::Get, "/cart/by-user/5", "offset=555", Some("5"), None), Err(Error::ParseError));
}

#[test]
fn reads_listing_queries() {
    assert_eq!(list_query("offset=1&count=2"), Some((ProductId(1), 2)));
    assert_eq!(list_query("count=2&x=y&offset=-1"), Some((ProductId(-1), 2)));
    assert_eq!(list_query("offset=1&offset=7&count=2"), Some((ProductId(1), 2)));
    assert_eq!(list_query("offset=1"), None);
    assert_eq!(list_query("offset=a&count=2"), None);
    assert_eq!(list_query(""), None);
    assert_eq!(list_query("offset=1=2&count=3"), None);
    assert_eq!(split_text("a&b&&c", '&'), vec!["a", "b", "", "c"]);
}

#[test]
fn errors_have_their_status_and_message() {
    let all = [
        (Error::MissingUserId, 400, "Missing user_id"),
        (Error::UserIdParse, 400, "Failed to parse user_id"),
        (Error::ParseError, 422, "Parse failure"),
        (Error::MissingPrice, 400, "Missing price during order conversion"),
        (Error::InvalidRoute, 404, "Invalid route"),
        (Error::Forbidden, 403, "Server is refusing to fullfil the request"),
    ];
    for (e, code, message) in all {
        assert_eq!(e.code(), code);
        assert!((400..500).contains(&e.code()));
        assert_eq!(e.message(), message);
    }
}
