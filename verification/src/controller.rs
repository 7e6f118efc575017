//! What a request asks for: the caller named by its headers, and the
//! operation that its method and path select.

use vstd::prelude::*;

use crate::errors::Error;
use crate::routing::{parse_route, spec_route, Route};
use crate::text::{decimal, law_parse_reads_decimal, parse_i32, push_char, spec_parse_i32, str_eq};
use crate::cart_service::{
    checked_entry_update_plan, clear_cart_plan, delete_coupon_plan, delete_item_plan, entry_update_plan, get_cart_plan, increment_plan, list_plan,
    merge_start_plan, CartPlan, CartProductIncrementPayload, CartServiceImpl,
};
use crate::types::{CartCustomer, CouponId, DeliveryMethodId, OrderIdentifier, ProductId, Quantity, UserId};

verus! {

/// The caller named by the request: the `Authorization` header, else the
/// `SESSION_ID` cookie, read as a user id; a request that sends neither is
/// refused as missing its authorization.
pub open spec fn spec_extract_user_id(authorization: Option<Seq<char>>, session_cookie: Option<Seq<char>>) -> Result<
    UserId,
    Error,
> {
    let text = match authorization {
        Some(a) => Some(a),
        None => session_cookie,
    };
    match text {
        None => Err(Error::MissingUserId),
        Some(t) => match spec_parse_i32(t) {
            Some(v) => Ok(UserId(v)),
            None => Err(Error::UserIdParse),
        },
    }
}

/// Reads the caller's user id from the request headers' values.
pub fn extract_user_id(authorization: Option<&str>, session_cookie: Option<&str>) -> (r: Result<UserId, Error>)
    ensures
        r == spec_extract_user_id(
            match authorization {
                Some(a) => Some(a@),
                None => None,
            },
            match session_cookie {
                Some(c) => Some(c@),
                None => None,
            },
        ),
{
    let text = match authorization {
        Some(a) => Some(a),
        None => session_cookie,
    };
    match text {
        None => Err(Error::MissingUserId),
        Some(t) => match parse_i32(t) {
            Some(v) => Ok(UserId(v)),
            None => Err(Error::UserIdParse),
        },
    }
}

/// The pieces of a text between `sep` characters, in order.
pub open spec fn split_on(s: Seq<char>, sep: char) -> Seq<Seq<char>>
    decreases s.len(),
{
    if s.len() == 0 {
        seq![Seq::<char>::empty()]
    } else {
        let r = split_on(s.drop_last(), sep);
        if s.last() == sep {
            r.push(Seq::<char>::empty())
        } else {
            r.update(r.len() - 1, r.last().push(s.last()))
        }
    }
}

proof fn lemma_split_on_nonempty(s: Seq<char>, sep: char)
    ensures
        split_on(s, sep).len() >= 1,
    decreases s.len(),
{
    if s.len() > 0 {
        lemma_split_on_nonempty(s.drop_last(), sep);
    }
}

/// The pieces of `text` between `sep` characters.
pub fn split_text(text: &str, sep: char) -> (r: Vec<String>)
    ensures
        r@.map_values(|x: String| x@) == split_on(text@, sep),
{
    let n = text.unicode_len();
    let mut pieces: Vec<String> = Vec::new();
    let mut cur = String::new();
    let mut i: usize = 0;
    assert(text@.take(0) =~= Seq::<char>::empty());
    assert(pieces@.map_values(|x: String| x@).push(cur@) =~= split_on(text@.take(0), sep));
    while i < n
        invariant
            n == text@.len(),
            i <= n,
            pieces@.map_values(|x: String| x@).push(cur@) == split_on(text@.take(i as int), sep),
        decreases n - i,
    {
        let c = text.get_char(i);
        let ghost before = split_on(text@.take(i as int), sep);
        proof {
            assert(text@.take(i + 1).drop_last() =~= text@.take(i as int));
            assert(text@.take(i + 1).last() == c);
            lemma_split_on_nonempty(text@.take(i as int), sep);
        }
        if c == sep {
            let done = cur;
            pieces.push(done);
            cur = String::new();
            assert(pieces@.map_values(|x: String| x@).push(cur@) =~= before.push(Seq::<char>::empty()));
        } else {
            push_char(&mut cur, c);
            assert(pieces@.map_values(|x: String| x@).push(cur@) =~= before.update(
                before.len() - 1,
                before.last().push(c),
            ));
        }
        i = i + 1;
    }
    assert(text@.take(n as int) =~= text@);
    pieces.push(cur);
    pieces
}

/// The value of the first `key=value` pair of a query with that key; a
/// pair with more than one `=` names nothing.
pub open spec fn param_value(pairs: Seq<Seq<char>>, key: Seq<char>) -> Option<Seq<char>>
    decreases pairs.len(),
{
    if pairs.len() == 0 {
        None
    } else {
        let parts = split_on(pairs[0], '=');
        if parts.len() == 2 && parts[0] == key {
            Some(parts[1])
        } else {
            param_value(pairs.drop_first(), key)
        }
    }
}

/// The `offset` and `count` parameters of a query, both read as `i32`.
pub open spec fn spec_list_query(query: Seq<char>) -> Option<(ProductId, i32)> {
    let pairs = split_on(query, '&');
    match (param_value(pairs, "offset"@), param_value(pairs, "count"@)) {
        (Some(o), Some(c)) => match (spec_parse_i32(o), spec_parse_i32(c)) {
            (Some(from), Some(count)) => Some((ProductId(from), count)),
            _ => None,
        },
        _ => None,
    }
}

fn find_param(pairs: &Vec<String>, key: &str) -> (r: Option<String>)
    ensures
        r matches Some(v) ==> param_value(pairs@.map_values(|x: String| x@), key@) == Some(v@),
        r is None ==> param_value(pairs@.map_values(|x: String| x@), key@) is None,
{
    let ghost all = pairs@.map_values(|x: String| x@);
    let n = pairs.len();
    let mut i: usize = 0;
    assert(all.skip(0) =~= all);
    while i < n
        invariant
            n == pairs@.len(),
            all == pairs@.map_values(|x: String| x@),
            i <= n,
            param_value(all, key@) == param_value(all.skip(i as int), key@),
        decreases n - i,
    {
        assert(all.skip(i as int)[0] == pairs@[i as int]@);
        assert(all.skip(i as int).drop_first() =~= all.skip(i + 1));
        let parts = split_text(pairs[i].as_str(), '=');
        let ghost pv = parts@.map_values(|x: String| x@);
        if parts.len() == 2 && str_eq(parts[0].as_str(), key) {
            assert(pv[0] == parts@[0]@);
            assert(pv[1] == parts@[1]@);
            let v = parts[1].clone();
            return Some(v);
        }
        assert(parts@.len() == 2 ==> pv[0] == parts@[0]@);
        i = i + 1;
    }
    None
}

/// Reads the `offset` and `count` parameters of a cart listing's query.
pub fn list_query(query: &str) -> (r: Option<(ProductId, i32)>)
    ensures
        r == spec_list_query(query@),
{
    let pairs = split_text(query, '&');
    let offset = find_param(&pairs, "offset");
    let count = find_param(&pairs, "count");
    match (offset, count) {
        (Some(o), Some(c)) => match (parse_i32(o.as_str()), parse_i32(c.as_str())) {
            (Some(from), Some(count)) => Some((ProductId(from), count)),
            _ => None,
        },
        _ => None,
    }
}

/// HTTP request methods.
#[derive(Clone, Copy, Debug, PartialEq, Eq, Structural)]
pub enum Method {
    Get,
    Post,
    Put,
    Delete,
    Other,
}

/// The service operation that a request asks for. Operations that take a
/// request body read it after this choice.
#[derive(Clone, Copy, Debug, PartialEq, Eq, Structural)]
pub enum ControllerAction {
    ListCart { customer: CartCustomer, from: ProductId, count: i32 },
    GetCart { customer: CartCustomer },
    ClearCart { customer: CartCustomer },
    DeleteItem { customer: CartCustomer, product_id: ProductId },
    AddCoupon { customer: CartCustomer, product_id: ProductId, coupon_id: CouponId },
    DeleteCoupon { customer: CartCustomer, coupon_id: CouponId },
    DeleteCouponByProduct { customer: CartCustomer, product_id: ProductId },
    SetDeliveryMethod { customer: CartCustomer, product_id: ProductId },
    ClearDeliveryMethod { customer: CartCustomer, product_id: ProductId },
    SetQuantity { customer: CartCustomer, product_id: ProductId },
    SetSelection { customer: CartCustomer, product_id: ProductId },
    SetComment { customer: CartCustomer, product_id: ProductId },
    IncrementItem { customer: CartCustomer, product_id: ProductId },
    MergeCarts,
    GetOrdersForUser { user: UserId },
    GetOrder { order_id: OrderIdentifier },
    GetOrderDiff { order_id: OrderIdentifier },
    SetOrderState { order_id: OrderIdentifier },
    SearchOrders,
    ConvertCart,
    CreateBuyNow,
    RevertConversion,
    DeleteOrder { order_id: OrderIdentifier },
}

/// The operation of a method on a route. Listing a cart needs the `offset`
/// and `count` query parameters; without them the request is refused as
/// unreadable. Any other pair is an invalid route.
pub open spec fn spec_route_action(method: Method, route: Option<Route>, list_query: Option<(ProductId, i32)>) -> Result<
    ControllerAction,
    Error,
> {
    match (method, route) {
        (Method::Get, Some(Route::Cart { customer })) => match list_query {
            Some((from, count)) => Ok(ControllerAction::ListCart { customer, from, count }),
            None => Err(Error::ParseError),
        },
        (Method::Get, Some(Route::CartProducts { customer })) => Ok(ControllerAction::GetCart { customer }),
        (Method::Post, Some(Route::CartClear { customer })) => Ok(ControllerAction::ClearCart { customer }),
        (Method::Delete, Some(Route::CartProduct { customer, product_id })) => Ok(
            ControllerAction::DeleteItem { customer, product_id },
        ),
        (Method::Post, Some(Route::AddCartCoupon { customer, product_id, coupon_id })) => Ok(
            ControllerAction::AddCoupon { customer, product_id, coupon_id },
        ),
        (Method::Delete, Some(Route::DeleteCartCoupon { customer, coupon_id })) => Ok(
            ControllerAction::DeleteCoupon { customer, coupon_id },
        ),
        (Method::Delete, Some(Route::DeleteCartCouponByProduct { customer, product_id })) => Ok(
            ControllerAction::DeleteCouponByProduct { customer, product_id },
        ),
        (Method::Post, Some(Route::CartProductDeliveryMethod { customer, product_id })) => Ok(
            ControllerAction::SetDeliveryMethod { customer, product_id },
        ),
        (Method::Delete, Some(Route::CartProductDeliveryMethod { customer, product_id })) => Ok(
            ControllerAction::ClearDeliveryMethod { customer, product_id },
        ),
        (Method::Put, Some(Route::CartProductQuantity { customer, product_id })) => Ok(
            ControllerAction::SetQuantity { customer, product_id },
        ),
        (Method::Put, Some(Route::CartProductSelection { customer, product_id })) => Ok(
            ControllerAction::SetSelection { customer, product_id },
        ),
        (Method::Put, Some(Route::CartProductComment { customer, product_id })) => Ok(
            ControllerAction::SetComment { customer, product_id },
        ),
        (Method::Post, Some(Route::CartIncrementProduct { customer, product_id })) => Ok(
            ControllerAction::IncrementItem { customer, product_id },
        ),
        (Method::Post, Some(Route::CartMerge)) => Ok(ControllerAction::MergeCarts),
        (Method::Get, Some(Route::OrdersByUser { user })) => Ok(ControllerAction::GetOrdersForUser { user }),
        (Method::Get, Some(Route::Order { order_id })) => Ok(ControllerAction::GetOrder { order_id }),
        (Method::Get, Some(Route::OrderDiff { order_id })) => Ok(ControllerAction::GetOrderDiff { order_id }),
        (Method::Put, Some(Route::OrderStatus { order_id })) => Ok(ControllerAction::SetOrderState { order_id }),
        (Method::Post, Some(Route::OrderSearch)) => Ok(ControllerAction::SearchOrders),
        (Method::Post, Some(Route::OrderFromCart)) => Ok(ControllerAction::ConvertCart),
        (Method::Post, Some(Route::OrderFromBuyNow)) => Ok(ControllerAction::CreateBuyNow),
        (Method::Post, Some(Route::OrderFromCartRevert)) => Ok(ControllerAction::RevertConversion),
        (Method::Delete, Some(Route::Order { order_id })) => Ok(ControllerAction::DeleteOrder { order_id }),
        _ => Err(Error::InvalidRoute),
    }
}

/// Whether an operation only reads: it changes neither a cart nor an order.
pub open spec fn reads_only(a: ControllerAction) -> bool {
    match a {
        ControllerAction::ListCart { .. } | ControllerAction::GetCart { .. } | ControllerAction::GetOrdersForUser { .. }
        | ControllerAction::GetOrder { .. } | ControllerAction::GetOrderDiff { .. } | ControllerAction::SearchOrders => true,
        _ => false,
    }
}

/// Each method and route that the table accepts selects its own operation:
/// two requests that select the same operation have the same method and
/// route (and a cart listing the same range).
pub proof fn law_each_request_selects_its_own_operation(
    m1: Method,
    r1: Route,
    q1: Option<(ProductId, i32)>,
    m2: Method,
    r2: Route,
    q2: Option<(ProductId, i32)>,
)
    requires
        spec_route_action(m1, Some(r1), q1) is Ok,
        spec_route_action(m1, Some(r1), q1) == spec_route_action(m2, Some(r2), q2),
    ensures
        m1 == m2,
        r1 == r2,
{
}

/// The request that asks for an operation: its method and route, the route
/// naming the operation's cart, product, coupon, user or order.
pub open spec fn request_for(a: ControllerAction) -> (Method, Route) {
    match a {
        ControllerAction::ListCart { customer, .. } => (Method::Get, Route::Cart { customer }),
        ControllerAction::GetCart { customer } => (Method::Get, Route::CartProducts { customer }),
        ControllerAction::ClearCart { customer } => (Method::Post, Route::CartClear { customer }),
        ControllerAction::DeleteItem { customer, product_id } => (Method::Delete, Route::CartProduct { customer, product_id }),
        ControllerAction::AddCoupon { customer, product_id, coupon_id } => (
            Method::Post,
            Route::AddCartCoupon { customer, product_id, coupon_id },
        ),
        ControllerAction::DeleteCoupon { customer, coupon_id } => (Method::Delete, Route::DeleteCartCoupon { customer, coupon_id }),
        ControllerAction::DeleteCouponByProduct { customer, product_id } => (
            Method::Delete,
            Route::DeleteCartCouponByProduct { customer, product_id },
        ),
        ControllerAction::SetDeliveryMethod { customer, product_id } => (
            Method::Post,
            Route::CartProductDeliveryMethod { customer, product_id },
        ),
        ControllerAction::ClearDeliveryMethod { customer, product_id } => (
            Method::Delete,
            Route::CartProductDeliveryMethod { customer, product_id },
        ),
        ControllerAction::SetQuantity { customer, product_id } => (
            Method::Put,
            Route::CartProductQuantity { customer, product_id },
        ),
        ControllerAction::SetSelection { customer, product_id } => (
            Method::Put,
            Route::CartProductSelection { customer, product_id },
        ),
        ControllerAction::SetComment { customer, product_id } => (
            Method::Put,
            Route::CartProductComment { customer, product_id },
        ),
        ControllerAction::IncrementItem { customer, product_id } => (
            Method::Post,
            Route::CartIncrementProduct { customer, product_id },
        ),
        ControllerAction::MergeCarts => (Method::Post, Route::CartMerge),
        ControllerAction::GetOrdersForUser { user } => (Method::Get, Route::OrdersByUser { user }),
        ControllerAction::GetOrder { order_id } => (Method::Get, Route::Order { order_id }),
        ControllerAction::GetOrderDiff { order_id } => (Method::Get, Route::OrderDiff { order_id }),
        ControllerAction::SetOrderState { order_id } => (Method::Put, Route::OrderStatus { order_id }),
        ControllerAction::SearchOrders => (Method::Post, Route::OrderSearch),
        ControllerAction::ConvertCart => (Method::Post, Route::OrderFromCart),
        ControllerAction::CreateBuyNow => (Method::Post, Route::OrderFromBuyNow),
        ControllerAction::RevertConversion => (Method::Post, Route::OrderFromCartRevert),
        ControllerAction::DeleteOrder { order_id } => (Method::Delete, Route::Order { order_id }),
    }
}

/// The route table and the requests of the operations agree both ways: a
/// request selects an operation only if it is the request for that
/// operation, and the request for any operation selects it (a cart listing
/// with the range of its query).
pub proof fn law_requests_and_operations_agree(m: Method, r: Route, q: Option<(ProductId, i32)>, a: ControllerAction)
    ensures
        spec_route_action(m, Some(r), q) == Ok::<ControllerAction, Error>(a) ==> request_for(a) == (m, r),
        spec_route_action(
            request_for(a).0,
            Some(request_for(a).1),
            match a {
                ControllerAction::ListCart { from, count, .. } => Some((from, count)),
                _ => q,
            },
        ) == Ok::<ControllerAction, Error>(a),
{
}

/// A `GET` only reads; a `PUT` or a `DELETE` always changes something.
pub proof fn law_reads_are_gets(r: Route, q: Option<(ProductId, i32)>)
    ensures
        spec_route_action(Method::Get, Some(r), q) matches Ok(a) ==> reads_only(a),
        spec_route_action(Method::Put, Some(r), q) matches Ok(a) ==> !reads_only(a),
        spec_route_action(Method::Delete, Some(r), q) matches Ok(a) ==> !reads_only(a),
{
}

/// The order routes: a `GET` of an order or of its history reads it, a
/// `PUT` on its status route sets its state, a `DELETE` of it deletes it,
/// each for the order that the route names; any other method on these
/// routes is refused.
pub proof fn law_order_routes(order_id: OrderIdentifier, q: Option<(ProductId, i32)>, m: Method)
    ensures
        spec_route_action(Method::Get, Some(Route::Order { order_id }), q) == Ok::<ControllerAction, Error>(
            ControllerAction::GetOrder { order_id },
        ),
        spec_route_action(Method::Get, Some(Route::OrderDiff { order_id }), q) == Ok::<ControllerAction, Error>(
            ControllerAction::GetOrderDiff { order_id },
        ),
        spec_route_action(Method::Put, Some(Route::OrderStatus { order_id }), q) == Ok::<ControllerAction, Error>(
            ControllerAction::SetOrderState { order_id },
        ),
        spec_route_action(Method::Delete, Some(Route::Order { order_id }), q) == Ok::<ControllerAction, Error>(
            ControllerAction::DeleteOrder { order_id },
        ),
        m != Method::Put ==> spec_route_action(m, Some(Route::OrderStatus { order_id }), q) == Err::<ControllerAction, Error>(
            Error::InvalidRoute,
        ),
{
}

/// Chooses the operation of a request from its method and route.
pub fn route_action(method: Method, route: Option<Route>, list_query: Option<(ProductId, i32)>) -> (r: Result<
    ControllerAction,
    Error,
>)
    ensures
        r == spec_route_action(method, route, list_query),
{
    match (method, route) {
        (Method::Get, Some(Route::Cart { customer })) => match list_query {
            Some((from, count)) => Ok(ControllerAction::ListCart { customer, from, count }),
            None => Err(Error::ParseError),
        },
        (Method::Get, Some(Route::CartProducts { customer })) => Ok(ControllerAction::GetCart { customer }),
        (Method::Post, Some(Route::CartClear { customer })) => Ok(ControllerAction::ClearCart { customer }),
        (Method::Delete, Some(Route::CartProduct { customer, product_id })) => Ok(
            ControllerAction::DeleteItem { customer, product_id },
        ),
        (Method::Post, Some(Route::AddCartCoupon { customer, product_id, coupon_id })) => Ok(
            ControllerAction::AddCoupon { customer, product_id, coupon_id },
        ),
        (Method::Delete, Some(Route::DeleteCartCoupon { customer, coupon_id })) => Ok(
            ControllerAction::DeleteCoupon { customer, coupon_id },
        ),
        (Method::Delete, Some(Route::DeleteCartCouponByProduct { customer, product_id })) => Ok(
            ControllerAction::DeleteCouponByProduct { customer, product_id },
        ),
        (Method::Post, Some(Route::CartProductDeliveryMethod { customer, product_id })) => Ok(
            ControllerAction::SetDeliveryMethod { customer, product_id },
        ),
        (Method::Delete, Some(Route::CartProductDeliveryMethod { customer, product_id })) => Ok(
            ControllerAction::ClearDeliveryMethod { customer, product_id },
        ),
        (Method::Put, Some(Route::CartProductQuantity { customer, product_id })) => Ok(
            ControllerAction::SetQuantity { customer, product_id },
        ),
        (Method::Put, Some(Route::CartProductSelection { customer, product_id })) => Ok(
            ControllerAction::SetSelection { customer, product_id },
        ),
        (Method::Put, Some(Route::CartProductComment { customer, product_id })) => Ok(
            ControllerAction::SetComment { customer, product_id },
        ),
        (Method::Post, Some(Route::CartIncrementProduct { customer, product_id })) => Ok(
            ControllerAction::IncrementItem { customer, product_id },
        ),
        (Method::Post, Some(Route::CartMerge)) => Ok(ControllerAction::MergeCarts),
        (Method::Get, Some(Route::OrdersByUser { user })) => Ok(ControllerAction::GetOrdersForUser { user }),
        (Method::Get, Some(Route::Order { order_id })) => Ok(ControllerAction::GetOrder { order_id }),
        (Method::Get, Some(Route::OrderDiff { order_id })) => Ok(ControllerAction::GetOrderDiff { order_id }),
        (Method::Put, Some(Route::OrderStatus { order_id })) => Ok(ControllerAction::SetOrderState { order_id }),
        (Method::Post, Some(Route::OrderSearch)) => Ok(ControllerAction::SearchOrders),
        (Method::Post, Some(Route::OrderFromCart)) => Ok(ControllerAction::ConvertCart),
        (Method::Post, Some(Route::OrderFromBuyNow)) => Ok(ControllerAction::CreateBuyNow),
        (Method::Post, Some(Route::OrderFromCartRevert)) => Ok(ControllerAction::RevertConversion),
        (Method::Delete, Some(Route::Order { order_id })) => Ok(ControllerAction::DeleteOrder { order_id }),
        _ => Err(Error::InvalidRoute),
    }
}

/// A request as the service reads it: the caller, then the operation.
/// Failing to read the caller's id refuses the request before routing.
pub open spec fn spec_plan_request(
    method: Method,
    path: Seq<char>,
    query: Seq<char>,
    authorization: Option<Seq<char>>,
    session_cookie: Option<Seq<char>>,
) -> Result<(UserId, ControllerAction), Error> {
    match spec_extract_user_id(authorization, session_cookie) {
        Err(e) => Err(e),
        Ok(caller) => match spec_route_action(method, spec_route(path), spec_list_query(query)) {
            Ok(a) => Ok((caller, a)),
            Err(e) => Err(e),
        },
    }
}

/// Reads the caller and chooses the operation of a request.
pub fn plan_request(
    method: Method,
    path: &str,
    query: &str,
    authorization: Option<&str>,
    session_cookie: Option<&str>,
) -> (r: Result<(UserId, ControllerAction), Error>)
    ensures
        r == spec_plan_request(
            method,
            path@,
            query@,
            match authorization {
                Some(a) => Some(a@),
                None => None,
            },
            match session_cookie {
                Some(c) => Some(c@),
                None => None,
            },
        ),
{
    let route = parse_route(path);
    let listing = list_query(query);
    match extract_user_id(authorization, session_cookie) {
        Err(e) => Err(e),
        Ok(caller) => match route_action(method, route, listing) {
            Ok(a) => Ok((caller, a)),
            Err(e) => Err(e),
        },
    }
}

/// A caller who sends its user id, written in decimal, in the
/// `Authorization` header is read back as that user, whatever the cookie.
pub proof fn law_authorization_names_the_user(n: nat, session_cookie: Option<Seq<char>>)
    requires
        n <= i32::MAX,
    ensures
        spec_extract_user_id(Some(decimal(n)), session_cookie) == Ok::<UserId, Error>(UserId(n as i32)),
{
    law_parse_reads_decimal(n);
}

/// The `Authorization` header takes precedence over the session cookie,
/// and a request that sends neither is refused as missing its authorization,
/// before its route is looked at.
pub proof fn law_header_before_cookie(authorization: Option<Seq<char>>, session_cookie: Option<Seq<char>>)
    ensures
        authorization matches Some(a) ==> spec_extract_user_id(authorization, session_cookie)
            == spec_extract_user_id(Some(a), None),
        authorization is None && session_cookie is None ==> spec_extract_user_id(authorization, session_cookie)
            == Err::<UserId, Error>(Error::MissingUserId),
        forall|method: Method, path: Seq<char>, query: Seq<char>|
            authorization is None && session_cookie is None ==> #[trigger] spec_plan_request(
                method,
                path,
                query,
                authorization,
                session_cookie,
            ) == Err::<(UserId, ControllerAction), Error>(Error::MissingUserId),
{
}

/// What the body of a request must hold for its operation.
#[derive(Clone, Copy, Debug, PartialEq, Eq, Structural)]
pub enum BodyKind {
    Nothing,
    Quantity,
    Selection,
    Comment,
    DeliveryMethod,
    Increment,
    Merge,
    StateUpdate,
    SearchTerms,
    Conversion,
    BuyNow,
    ConversionRevert,
}

pub open spec fn spec_body_kind(a: ControllerAction) -> BodyKind {
    match a {
        ControllerAction::SetDeliveryMethod { .. } => BodyKind::DeliveryMethod,
        ControllerAction::SetQuantity { .. } => BodyKind::Quantity,
        ControllerAction::SetSelection { .. } => BodyKind::Selection,
        ControllerAction::SetComment { .. } => BodyKind::Comment,
        ControllerAction::IncrementItem { .. } => BodyKind::Increment,
        ControllerAction::MergeCarts => BodyKind::Merge,
        ControllerAction::SetOrderState { .. } => BodyKind::StateUpdate,
        ControllerAction::SearchOrders => BodyKind::SearchTerms,
        ControllerAction::ConvertCart => BodyKind::Conversion,
        ControllerAction::CreateBuyNow => BodyKind::BuyNow,
        ControllerAction::RevertConversion => BodyKind::ConversionRevert,
        _ => BodyKind::Nothing,
    }
}

/// What the body of a request must hold for an operation.
pub fn body_kind(a: ControllerAction) -> (r: BodyKind)
    ensures
        r == spec_body_kind(a),
{
    match a {
        ControllerAction::SetDeliveryMethod { .. } => BodyKind::DeliveryMethod,
        ControllerAction::SetQuantity { .. } => BodyKind::Quantity,
        ControllerAction::SetSelection { .. } => BodyKind::Selection,
        ControllerAction::SetComment { .. } => BodyKind::Comment,
        ControllerAction::IncrementItem { .. } => BodyKind::Increment,
        ControllerAction::MergeCarts => BodyKind::Merge,
        ControllerAction::SetOrderState { .. } => BodyKind::StateUpdate,
        ControllerAction::SearchOrders => BodyKind::SearchTerms,
        ControllerAction::ConvertCart => BodyKind::Conversion,
        ControllerAction::CreateBuyNow => BodyKind::BuyNow,
        ControllerAction::RevertConversion => BodyKind::ConversionRevert,
        _ => BodyKind::Nothing,
    }
}

/// The body of a cart request, read as its operation asks; `Nothing` when
/// there is none or it did not read.
#[derive(Debug)]
pub enum CartBody {
    Nothing,
    Quantity(Quantity),
    Selection(bool),
    Comment(String),
    DeliveryMethod(DeliveryMethodId),
    Increment(CartProductIncrementPayload),
    Merge { from: CartCustomer, to: CartCustomer },
}

/// A cart operation: the steps to run; for a merge, the cart that receives
/// the entries that the steps take out.
#[derive(Debug)]
pub struct CartCall {
    pub plan: CartPlan,
    pub merge_into: Option<CartCustomer>,
}

/// `r` is a call of a plan that meets `pred`, with nothing to merge after it.
pub open spec fn plain_call(r: Option<Result<CartCall, Error>>, pred: spec_fn(CartPlan) -> bool) -> bool {
    r matches Some(Ok(c)) && c.merge_into is None && pred(c.plan)
}

/// `r` refuses the request's body as unreadable.
pub open spec fn refused_body(r: Option<Result<CartCall, Error>>) -> bool {
    r == Some(Err::<CartCall, Error>(Error::ParseError))
}

fn plain(plan: CartPlan) -> (r: Option<Result<CartCall, Error>>)
    ensures
        r matches Some(Ok(c)) && c.merge_into is None && c.plan == plan,
{
    Some(Ok(CartCall { plan, merge_into: None }))
}

/// The cart operation of a request: the plan of the service operation that
/// the action names, with the body's value where the operation reads one;
/// `ParseError` when the body does not hold it; nothing for an operation on
/// orders.
pub fn cart_call(action: ControllerAction, body: CartBody) -> (r: Option<Result<CartCall, Error>>)
    ensures
        match action {
            ControllerAction::ListCart { customer, from, count } => plain_call(
                r,
                |p: CartPlan| list_plan(p, customer, from, count),
            ),
            ControllerAction::GetCart { customer } => plain_call(r, |p: CartPlan| get_cart_plan(p, customer)),
            ControllerAction::ClearCart { customer } => plain_call(r, |p: CartPlan| clear_cart_plan(p, customer)),
            ControllerAction::DeleteItem { customer, product_id } => plain_call(
                r,
                |p: CartPlan| delete_item_plan(p, customer, product_id),
            ),
            ControllerAction::AddCoupon { customer, product_id, coupon_id } => plain_call(
                r,
                |p: CartPlan| checked_entry_update_plan(p, customer, product_id, None, None, None, Some(Some(coupon_id)), None),
            ),
            ControllerAction::DeleteCoupon { customer, coupon_id } => plain_call(
                r,
                |p: CartPlan| delete_coupon_plan(p, customer, coupon_id),
            ),
            ControllerAction::DeleteCouponByProduct { customer, product_id } => plain_call(
                r,
                |p: CartPlan| checked_entry_update_plan(p, customer, product_id, None, None, None, Some(None), None),
            ),
            ControllerAction::ClearDeliveryMethod { customer, product_id } => plain_call(
                r,
                |p: CartPlan| checked_entry_update_plan(p, customer, product_id, None, None, None, None, Some(None)),
            ),
            ControllerAction::SetDeliveryMethod { customer, product_id } => match body {
                CartBody::DeliveryMethod(d) => plain_call(
                    r,
                    |p: CartPlan| checked_entry_update_plan(p, customer, product_id, None, None, None, None, Some(Some(d))),
                ),
                _ => refused_body(r),
            },
            ControllerAction::SetQuantity { customer, product_id } => match body {
                CartBody::Quantity(q) => plain_call(
                    r,
                    |p: CartPlan| entry_update_plan(p, customer, product_id, Some(q), None, None, None, None),
                ),
                _ => refused_body(r),
            },
            ControllerAction::SetSelection { customer, product_id } => match body {
                CartBody::Selection(b) => plain_call(
                    r,
                    |p: CartPlan| checked_entry_update_plan(p, customer, product_id, None, Some(b), None, None, None),
                ),
                _ => refused_body(r),
            },
            ControllerAction::SetComment { customer, product_id } => match body {
                CartBody::Comment(c) => plain_call(
                    r,
                    |p: CartPlan| checked_entry_update_plan(p, customer, product_id, None, None, Some(c@), None, None),
                ),
                _ => refused_body(r),
            },
            ControllerAction::IncrementItem { customer, product_id } => match body {
                CartBody::Increment(payload) => plain_call(
                    r,
                    |p: CartPlan| increment_plan(p, customer, product_id, payload),
                ),
                _ => refused_body(r),
            },
            ControllerAction::MergeCarts => match body {
                CartBody::Merge { from, to } => r matches Some(Ok(c)) && c.merge_into == Some(to) && merge_start_plan(
                    c.plan,
                    from,
                ),
                _ => refused_body(r),
            },
            _ => r is None,
        },
{
    match action {
        ControllerAction::ListCart { customer, from, count } => plain(CartServiceImpl::list(customer, from, count)),
        ControllerAction::GetCart { customer } => plain(CartServiceImpl::get_cart(customer)),
        ControllerAction::ClearCart { customer } => plain(CartServiceImpl::clear_cart(customer)),
        ControllerAction::DeleteItem { customer, product_id } => plain(CartServiceImpl::delete_item(customer, product_id)),
        ControllerAction::AddCoupon { customer, product_id, coupon_id } => plain(
            CartServiceImpl::add_coupon(customer, product_id, coupon_id),
        ),
        ControllerAction::DeleteCoupon { customer, coupon_id } => plain(CartServiceImpl::delete_coupon(customer, coupon_id)),
        ControllerAction::DeleteCouponByProduct { customer, product_id } => plain(
            CartServiceImpl::delete_coupon_by_product(customer, product_id),
        ),
        ControllerAction::ClearDeliveryMethod { customer, product_id } => plain(
            CartServiceImpl::set_delivery_method(customer, product_id, None),
        ),
        ControllerAction::SetDeliveryMethod { customer, product_id } => match body {
            CartBody::DeliveryMethod(d) => plain(CartServiceImpl::set_delivery_method(customer, product_id, Some(d))),
            _ => Some(Err(Error::ParseError)),
        },
        ControllerAction::SetQuantity { customer, product_id } => match body {
            CartBody::Quantity(q) => plain(CartServiceImpl::set_quantity(customer, product_id, q)),
            _ => Some(Err(Error::ParseError)),
        },
        ControllerAction::SetSelection { customer, product_id } => match body {
            CartBody::Selection(b) => plain(CartServiceImpl::set_selection(customer, product_id, b)),
            _ => Some(Err(Error::ParseError)),
        },
        ControllerAction::SetComment { customer, product_id } => match body {
            CartBody::Comment(c) => plain(CartServiceImpl::set_comment(customer, product_id, c)),
            _ => Some(Err(Error::ParseError)),
        },
        ControllerAction::IncrementItem { customer, product_id } => match body {
            CartBody::Increment(payload) => plain(CartServiceImpl::increment_item(customer, product_id, payload)),
            _ => Some(Err(Error::ParseError)),
        },
        ControllerAction::MergeCarts => match body {
            CartBody::Merge { from, to } => Some(Ok(CartCall { plan: CartServiceImpl::merge_start(from), merge_into: Some(to) })),
            _ => Some(Err(Error::ParseError)),
        },
        _ => None,
    }
}

} // verus!
