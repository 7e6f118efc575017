//! The request paths of the service and the routes they name.

use vstd::prelude::*;

use crate::text::{
    all_ascii_digits, decimal, law_parse_reads_decimal, lemma_decimal_digits, parse_i32, push_char, spec_parse_i32,
    starts_with, str_eq,
};
use crate::types::{
    parse_uuid, uuid_from_text, CartCustomer, CouponId, OrderId, OrderIdentifier, OrderSlug,
    ProductId, SessionId, StoreId, UserId,
};

verus! {

/// The routes of the service.
#[derive(Clone, Copy, Debug, PartialEq, Eq, Structural)]
pub enum Route {
    Cart { customer: CartCustomer },
    CartProducts { customer: CartCustomer },
    CartProduct { customer: CartCustomer, product_id: ProductId },
    CartIncrementProduct { customer: CartCustomer, product_id: ProductId },
    CartProductQuantity { customer: CartCustomer, product_id: ProductId },
    CartProductSelection { customer: CartCustomer, product_id: ProductId },
    CartProductComment { customer: CartCustomer, product_id: ProductId },
    CartProductDeliveryMethod { customer: CartCustomer, product_id: ProductId },
    AddCartCoupon { customer: CartCustomer, product_id: ProductId, coupon_id: CouponId },
    DeleteCartCoupon { customer: CartCustomer, coupon_id: CouponId },
    DeleteCartCouponByProduct { customer: CartCustomer, product_id: ProductId },
    CartClear { customer: CartCustomer },
    CartMerge,
    Orders,
    OrdersByUser { user: UserId },
    OrdersByStore { store_id: StoreId },
    Order { order_id: OrderIdentifier },
    OrderDiff { order_id: OrderIdentifier },
    OrderStatus { order_id: OrderIdentifier },
    OrderFromCart,
    OrderFromCartRevert,
    OrderFromBuyNow,
    OrderSearch,
}

/// The pieces of a text between `/` characters, in order.
pub open spec fn split_path(s: Seq<char>) -> Seq<Seq<char>>
    decreases s.len(),
{
    if s.len() == 0 {
        seq![Seq::<char>::empty()]
    } else {
        let r = split_path(s.drop_last());
        if s.last() == '/' {
            r.push(Seq::<char>::empty())
        } else {
            r.update(r.len() - 1, r.last().push(s.last()))
        }
    }
}

/// A character of the class `[a-zA-Z0-9-]`.
pub open spec fn is_id_char(c: char) -> bool {
    ('a' <= c && c <= 'z') || ('A' <= c && c <= 'Z') || ('0' <= c && c <= '9') || c == '-'
}

/// A non-empty run of `[a-zA-Z0-9-]`.
pub open spec fn all_id_chars(s: Seq<char>) -> bool {
    s.len() > 0 && forall|i: int| 0 <= i < s.len() ==> is_id_char(#[trigger] s[i])
}

/// The cart owner named by `/cart/by-user/<digits>` or
/// `/cart/by-session/<[a-zA-Z0-9-]+>`, the session read as an `i32`.
pub open spec fn cart_owner(kind: Seq<char>, id: Seq<char>) -> Option<CartCustomer> {
    if kind == "by-user"@ && all_ascii_digits(id) {
        match spec_parse_i32(id) {
            Some(v) => Some(CartCustomer::User(UserId(v))),
            None => None,
        }
    } else if kind == "by-session"@ && all_id_chars(id) {
        match spec_parse_i32(id) {
            Some(v) => Some(CartCustomer::Anonymous(SessionId(v))),
            None => None,
        }
    } else {
        None
    }
}

/// The order named by `by-id/<[a-zA-Z0-9-]+>` (a UUID) or `by-slug/<digits>`.
pub open spec fn order_ident(kind: Seq<char>, id: Seq<char>) -> Option<OrderIdentifier> {
    if kind == "by-id"@ && all_id_chars(id) {
        match uuid_from_text(id) {
            Some(u) => Some(OrderIdentifier::Id(OrderId(u))),
            None => None,
        }
    } else if kind == "by-slug"@ && all_ascii_digits(id) {
        match spec_parse_i32(id) {
            Some(v) => Some(OrderIdentifier::Slug(OrderSlug(v))),
            None => None,
        }
    } else {
        None
    }
}

/// The last piece of a cart product path that names the increment route.
pub open spec fn is_increment_suffix(s: Seq<char>) -> bool {
    s == "increment"@ || s == "quantity"@ || s == "selection"@ || s == "comment"@
}

/// Routes under `/cart/`. The product of a cart product route is read from
/// the owner's piece of the path, as the route table does: the route
/// exists where that piece also reads as an `i32`.
pub open spec fn cart_route(g: Seq<Seq<char>>) -> Option<Route> {
    if g.len() == 3 && g[2] == "merge"@ {
        Some(Route::CartMerge)
    } else if g.len() >= 4 {
        match cart_owner(g[2], g[3]) {
            None => None,
            Some(c) => {
                if g.len() == 4 {
                    Some(Route::Cart { customer: c })
                } else if g.len() == 5 && g[4] == "products"@ {
                    Some(Route::CartProducts { customer: c })
                } else if g.len() == 5 && g[4] == "clear"@ {
                    Some(Route::CartClear { customer: c })
                } else if g.len() >= 6 && g[4] == "products"@ && all_ascii_digits(g[5]) && (g.len() == 6 || (g.len()
                    == 7 && is_increment_suffix(g[6]))) {
                    match spec_parse_i32(g[3]) {
                        None => None,
                        Some(v) => if g.len() == 6 {
                            Some(Route::CartProduct { customer: c, product_id: ProductId(v) })
                        } else {
                            Some(Route::CartIncrementProduct { customer: c, product_id: ProductId(v) })
                        },
                    }
                } else {
                    None
                }
            },
        }
    } else {
        None
    }
}

/// Routes under `/orders`.
pub open spec fn orders_route(g: Seq<Seq<char>>) -> Option<Route> {
    if g.len() == 2 {
        Some(Route::Orders)
    } else if g.len() == 3 && g[2] == "create_from_cart"@ {
        Some(Route::OrderFromCart)
    } else if g.len() == 4 && g[2] == "create_from_cart"@ && g[3] == "revert"@ {
        Some(Route::OrderFromCartRevert)
    } else if g.len() == 4 && g[2] == "by-store"@ {
        if all_ascii_digits(g[3]) {
            match spec_parse_i32(g[3]) {
                Some(v) => Some(Route::OrdersByStore { store_id: StoreId(v) }),
                None => None,
            }
        } else {
            None
        }
    } else if g.len() == 4 {
        match order_ident(g[2], g[3]) {
            Some(id) => Some(Route::Order { order_id: id }),
            None => None,
        }
    } else if g.len() == 5 && g[4] == "status"@ {
        match order_ident(g[2], g[3]) {
            Some(id) => Some(Route::OrderStatus { order_id: id }),
            None => None,
        }
    } else {
        None
    }
}

/// The route of a list of path pieces; the first piece is the empty text
/// before the leading `/`.
pub open spec fn route_of_pieces(g: Seq<Seq<char>>) -> Option<Route> {
    if g.len() < 2 || g[0].len() != 0 {
        None
    } else if g[1] == "cart"@ {
        cart_route(g)
    } else if g[1] == "orders"@ {
        orders_route(g)
    } else if g[1] == "order_diff"@ && g.len() == 4 {
        match order_ident(g[2], g[3]) {
            Some(id) => Some(Route::OrderDiff { order_id: id }),
            None => None,
        }
    } else {
        None
    }
}

/// The route that a request path names, if any.
pub open spec fn spec_route(path: Seq<char>) -> Option<Route> {
    if "/orders/search"@.is_prefix_of(path) {
        Some(Route::OrderSearch)
    } else {
        route_of_pieces(split_path(path))
    }
}

proof fn lemma_split_path_nonempty(s: Seq<char>)
    ensures
        split_path(s).len() >= 1,
    decreases s.len(),
{
    if s.len() > 0 {
        lemma_split_path_nonempty(s.drop_last());
    }
}

/// The pieces of `path` between `/` characters.
pub fn split_pieces(path: &str) -> (r: Vec<String>)
    ensures
        r@.map_values(|x: String| x@) == split_path(path@),
{
    let n = path.unicode_len();
    let mut pieces: Vec<String> = Vec::new();
    let mut cur = String::new();
    let mut i: usize = 0;
    assert(path@.take(0) =~= Seq::<char>::empty());
    assert(pieces@.map_values(|x: String| x@).push(cur@) =~= split_path(path@.take(0)));
    while i < n
        invariant
            n == path@.len(),
            i <= n,
            pieces@.map_values(|x: String| x@).push(cur@) == split_path(path@.take(i as int)),
        decreases n - i,
    {
        let c = path.get_char(i);
        let ghost before = split_path(path@.take(i as int));
        proof {
            assert(path@.take(i + 1).drop_last() =~= path@.take(i as int));
            assert(path@.take(i + 1).last() == c);
            lemma_split_path_nonempty(path@.take(i as int));
        }
        if c == '/' {
            let done = cur;
            pieces.push(done);
            cur = String::new();
            assert(pieces@.map_values(|x: String| x@).push(cur@) =~= before.push(Seq::<char>::empty()));
        } else {
            push_char(&mut cur, c);
            assert(pieces@.map_values(|x: String| x@).push(cur@) =~= before.update(
                before.len() - 1,
                before.last().push(c),
            ));
        }
        i = i + 1;
    }
    assert(path@.take(n as int) =~= path@);
    pieces.push(cur);
    pieces
}

/// Whether `s` is a non-empty run of ASCII digits.
pub fn is_digits(s: &str) -> (r: bool)
    ensures
        r == all_ascii_digits(s@),
{
    let n = s.unicode_len();
    if n == 0 {
        return false;
    }
    let mut i: usize = 0;
    while i < n
        invariant
            n == s@.len(),
            i <= n,
            forall|j: int| 0 <= j < i ==> crate::text::is_ascii_digit(#[trigger] s@[j]),
        decreases n - i,
    {
        let c = s.get_char(i);
        if !('0' <= c && c <= '9') {
            assert(!crate::text::is_ascii_digit(s@[i as int]));
            return false;
        }
        i = i + 1;
    }
    true
}

/// Whether `s` is a non-empty run of `[a-zA-Z0-9-]`.
pub fn is_id_text(s: &str) -> (r: bool)
    ensures
        r == all_id_chars(s@),
{
    let n = s.unicode_len();
    if n == 0 {
        return false;
    }
    let mut i: usize = 0;
    while i < n
        invariant
            n == s@.len(),
            i <= n,
            forall|j: int| 0 <= j < i ==> is_id_char(#[trigger] s@[j]),
        decreases n - i,
    {
        let c = s.get_char(i);
        if !(('a' <= c && c <= 'z') || ('A' <= c && c <= 'Z') || ('0' <= c && c <= '9') || c == '-') {
            assert(!is_id_char(s@[i as int]));
            return false;
        }
        i = i + 1;
    }
    true
}

fn read_cart_owner(kind: &str, id: &str) -> (r: Option<CartCustomer>)
    ensures
        r == cart_owner(kind@, id@),
{
    if str_eq(kind, "by-user") && is_digits(id) {
        match parse_i32(id) {
            Some(v) => Some(CartCustomer::User(UserId(v))),
            None => None,
        }
    } else if str_eq(kind, "by-session") && is_id_text(id) {
        match parse_i32(id) {
            Some(v) => Some(CartCustomer::Anonymous(SessionId(v))),
            None => None,
        }
    } else {
        None
    }
}

fn read_order_ident(kind: &str, id: &str) -> (r: Option<OrderIdentifier>)
    ensures
        r == order_ident(kind@, id@),
{
    if str_eq(kind, "by-id") && is_id_text(id) {
        match parse_uuid(id) {
            Some(u) => Some(OrderIdentifier::Id(OrderId(u))),
            None => None,
        }
    } else if str_eq(kind, "by-slug") && is_digits(id) {
        match parse_i32(id) {
            Some(v) => Some(OrderIdentifier::Slug(OrderSlug(v))),
            None => None,
        }
    } else {
        None
    }
}

fn read_cart_route(g: &Vec<String>) -> (r: Option<Route>)
    requires
        g@.len() >= 2,
    ensures
        r == cart_route(g@.map_values(|x: String| x@)),
{
    let ghost v = g@.map_values(|x: String| x@);
    assert(forall|k: int| 0 <= k < g@.len() ==> v[k] == #[trigger] g@[k]@);
    let n = g.len();
    if n == 3 && str_eq(g[2].as_str(), "merge") {
        return Some(Route::CartMerge);
    }
    if n < 4 {
        return None;
    }
    let owner = read_cart_owner(g[2].as_str(), g[3].as_str());
    match owner {
        None => None,
        Some(c) => {
            if n == 4 {
                Some(Route::Cart { customer: c })
            } else if n == 5 && str_eq(g[4].as_str(), "products") {
                Some(Route::CartProducts { customer: c })
            } else if n == 5 && str_eq(g[4].as_str(), "clear") {
                Some(Route::CartClear { customer: c })
            } else if n >= 6 && str_eq(g[4].as_str(), "products") && is_digits(g[5].as_str()) && (n == 6 || (n == 7 && (
            str_eq(g[6].as_str(), "increment") || str_eq(g[6].as_str(), "quantity") || str_eq(g[6].as_str(), "selection")
                || str_eq(g[6].as_str(), "comment")))) {
                match parse_i32(g[3].as_str()) {
                    None => None,
                    Some(v) => if n == 6 {
                        Some(Route::CartProduct { customer: c, product_id: ProductId(v) })
                    } else {
                        Some(Route::CartIncrementProduct { customer: c, product_id: ProductId(v) })
                    },
                }
            } else {
                None
            }
        },
    }
}

fn read_orders_route(g: &Vec<String>) -> (r: Option<Route>)
    requires
        g@.len() >= 2,
    ensures
        r == orders_route(g@.map_values(|x: String| x@)),
{
    let ghost v = g@.map_values(|x: String| x@);
    assert(forall|k: int| 0 <= k < g@.len() ==> v[k] == #[trigger] g@[k]@);
    let n = g.len();
    if n == 2 {
        Some(Route::Orders)
    } else if n == 3 && str_eq(g[2].as_str(), "create_from_cart") {
        Some(Route::OrderFromCart)
    } else if n == 4 && str_eq(g[2].as_str(), "create_from_cart") && str_eq(g[3].as_str(), "revert") {
        Some(Route::OrderFromCartRevert)
    } else if n == 4 && str_eq(g[2].as_str(), "by-store") {
        if is_digits(g[3].as_str()) {
            match parse_i32(g[3].as_str()) {
                Some(v) => Some(Route::OrdersByStore { store_id: StoreId(v) }),
                None => None,
            }
        } else {
            None
        }
    } else if n == 4 {
        match read_order_ident(g[2].as_str(), g[3].as_str()) {
            Some(id) => Some(Route::Order { order_id: id }),
            None => None,
        }
    } else if n == 5 && str_eq(g[4].as_str(), "status") {
        match read_order_ident(g[2].as_str(), g[3].as_str()) {
            Some(id) => Some(Route::OrderStatus { order_id: id }),
            None => None,
        }
    } else {
        None
    }
}

/// The route that a request path names, if any.
pub fn parse_route(path: &str) -> (r: Option<Route>)
    ensures
        r == spec_route(path@),
{
    if starts_with(path, "/orders/search") {
        return Some(Route::OrderSearch);
    }
    let g = split_pieces(path);
    let ghost v = g@.map_values(|x: String| x@);
    assert(forall|k: int| 0 <= k < g@.len() ==> v[k] == #[trigger] g@[k]@);
    let n = g.len();
    if n < 2 || g[0].as_str().unicode_len() != 0 {
        None
    } else if str_eq(g[1].as_str(), "cart") {
        read_cart_route(&g)
    } else if str_eq(g[1].as_str(), "orders") {
        read_orders_route(&g)
    } else if str_eq(g[1].as_str(), "order_diff") && n == 4 {
        match read_order_ident(g[2].as_str(), g[3].as_str()) {
            Some(id) => Some(Route::OrderDiff { order_id: id }),
            None => None,
        }
    } else {
        None
    }
}

/// A text without `/`.
pub open spec fn no_slash(t: Seq<char>) -> bool {
    forall|i: int| 0 <= i < t.len() ==> t[i] != '/'
}

proof fn lemma_split_extends_last(s: Seq<char>, t: Seq<char>)
    requires
        no_slash(t),
    ensures
        split_path(s + t) == split_path(s).update(
            split_path(s).len() - 1,
            split_path(s).last() + t,
        ),
    decreases t.len(),
{
    lemma_split_path_nonempty(s);
    if t.len() == 0 {
        assert(s + t =~= s);
        assert(split_path(s).last() + t =~= split_path(s).last());
        assert(split_path(s).update(split_path(s).len() - 1, split_path(s).last()) =~= split_path(s));
    } else {
        let u = t.drop_last();
        assert(no_slash(u)) by {
            assert forall|i: int| 0 <= i < u.len() implies u[i] != '/' by {
                assert(u[i] == t[i]);
            }
        }
        lemma_split_extends_last(s, u);
        assert((s + t).drop_last() =~= s + u);
        assert((s + t).last() == t.last());
        assert(t.last() != '/') by {
            assert(t[t.len() - 1] != '/');
        }
        assert(split_path(s).last() + t =~= (split_path(s).last() + u).push(t.last()));
        let r = split_path(s + u);
        assert(r.update(r.len() - 1, r.last().push(t.last())) =~= split_path(s).update(
            split_path(s).len() - 1,
            split_path(s).last() + t,
        ));
    }
}

/// Splitting a path with one more piece after a `/` gives one more piece.
proof fn lemma_split_append_piece(s: Seq<char>, t: Seq<char>)
    requires
        no_slash(t),
    ensures
        split_path(s + seq!['/'] + t) == split_path(s).push(t),
{
    let s1 = s + seq!['/'];
    assert(s1.drop_last() =~= s);
    assert(s1.last() == '/');
    assert(split_path(s1) == split_path(s).push(Seq::<char>::empty()));
    lemma_split_extends_last(s1, t);
    assert(Seq::<char>::empty() + t =~= t);
    assert(split_path(s).push(Seq::<char>::empty()).update(split_path(s).len() as int, t) =~= split_path(s).push(t));
}

proof fn lemma_decimal_no_slash(n: nat)
    ensures
        no_slash(decimal(n)),
{
    lemma_decimal_digits(n);
    assert forall|i: int| 0 <= i < decimal(n).len() implies decimal(n)[i] != '/' by {
        assert(crate::text::is_ascii_digit(decimal(n)[i]));
    }
}

/// The pieces of `/<a>/<b>/<c>` for pieces without `/`.
proof fn lemma_split_three(a: Seq<char>, b: Seq<char>, c: Seq<char>)
    requires
        no_slash(a),
        no_slash(b),
        no_slash(c),
    ensures
        split_path(seq!['/'] + a + seq!['/'] + b + seq!['/'] + c) == seq![Seq::<char>::empty(), a, b, c],
{
    let e = Seq::<char>::empty();
    assert(split_path(e) == seq![e]);
    lemma_split_append_piece(e, a);
    assert(e + seq!['/'] + a =~= seq!['/'] + a);
    lemma_split_append_piece(seq!['/'] + a, b);
    lemma_split_append_piece(seq!['/'] + a + seq!['/'] + b, c);
    assert(seq![e].push(a).push(b).push(c) =~= seq![e, a, b, c]);
}

/// The cart products of a registered user: `/cart/by-user/<id>/products`,
/// the id written in decimal, names that user's cart products.
pub proof fn law_user_cart_products_route(n: nat)
    requires
        n <= i32::MAX,
    ensures
        spec_route("/cart/by-user/"@ + decimal(n) + "/products"@) == Some(
            Route::CartProducts { customer: CartCustomer::User(UserId(n as i32)) },
        ),
{
    reveal_strlit("/cart/by-user/");
    reveal_strlit("/products");
    reveal_strlit("/orders/search");
    reveal_strlit("cart");
    reveal_strlit("by-user");
    reveal_strlit("products");
    reveal_strlit("merge");
    reveal_strlit("orders");
    reveal_strlit("clear");
    lemma_decimal_no_slash(n);
    law_parse_reads_decimal(n);
    let d = decimal(n);
    let path = "/cart/by-user/"@ + d + "/products"@;
    assert(!"/orders/search"@.is_prefix_of(path)) by {
        assert(path[1] == 'c');
        assert("/orders/search"@[1] == 'o');
        if "/orders/search"@.is_prefix_of(path) {
            assert(path.subrange(0, 14)[1] == path[1]);
        }
    }
    let e = Seq::<char>::empty();
    let head = seq!['/'] + "cart"@ + seq!['/'] + "by-user"@ + seq!['/'] + d;
    assert(no_slash("cart"@));
    assert(no_slash("by-user"@));
    assert(no_slash("products"@));
    lemma_split_three("cart"@, "by-user"@, d);
    lemma_split_append_piece(head, "products"@);
    assert(head + seq!['/'] + "products"@ =~= path);
    let g = seq![e, "cart"@, "by-user"@, d, "products"@];
    assert(split_path(path) =~= g);
    assert(g[1] == "cart"@);
    assert(g[2] != "merge"@);
    lemma_decimal_digits(n);
    assert(cart_owner(g[2], g[3]) == Some(CartCustomer::User(UserId(n as i32))));
    assert(cart_route(g) == Some(Route::CartProducts { customer: CartCustomer::User(UserId(n as i32)) }));
}

/// An order named by its number: `/orders/by-slug/<slug>`, the slug written
/// in decimal, names that order.
pub proof fn law_order_slug_route(n: nat)
    requires
        n <= i32::MAX,
    ensures
        spec_route("/orders/by-slug/"@ + decimal(n)) == Some(
            Route::Order { order_id: OrderIdentifier::Slug(OrderSlug(n as i32)) },
        ),
{
    reveal_strlit("/orders/by-slug/");
    reveal_strlit("/orders/search");
    reveal_strlit("orders");
    reveal_strlit("cart");
    reveal_strlit("by-slug");
    reveal_strlit("by-id");
    reveal_strlit("by-store");
    reveal_strlit("create_from_cart");
    lemma_decimal_no_slash(n);
    law_parse_reads_decimal(n);
    let d = decimal(n);
    let path = "/orders/by-slug/"@ + d;
    assert(!"/orders/search"@.is_prefix_of(path)) by {
        assert(path[8] == 'b');
        assert("/orders/search"@[8] == 's');
        if "/orders/search"@.is_prefix_of(path) {
            assert(path.subrange(0, 14)[8] == path[8]);
        }
    }
    let e = Seq::<char>::empty();
    assert(no_slash("orders"@));
    assert(no_slash("by-slug"@));
    lemma_split_three("orders"@, "by-slug"@, d);
    assert(seq!['/'] + "orders"@ + seq!['/'] + "by-slug"@ + seq!['/'] + d =~= path);
    let g = seq![e, "orders"@, "by-slug"@, d];
    assert(split_path(path) =~= g);
    assert(g[1] != "cart"@);
    assert(g[1] == "orders"@);
    assert(g[2] != "create_from_cart"@);
    assert(g[2] != "by-store"@);
    assert(g[2] != "by-id"@);
    lemma_decimal_digits(n);
    assert(order_ident(g[2], g[3]) == Some(OrderIdentifier::Slug(OrderSlug(n as i32))));
    assert(orders_route(g) == Some(Route::Order { order_id: OrderIdentifier::Slug(OrderSlug(n as i32)) }));
}

} // verus!
