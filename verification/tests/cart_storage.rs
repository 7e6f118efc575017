//! Cart operations run on entries held in memory, step by step as the
//! storage runs their statements.

use orders_lib::cart::{CartItem, CartItemFilter, CartItemInserter, CartItemMergeStrategy, CartItemUpdateData};
use orders_lib::cart_service::{CartAnswer, CartPlan, CartProductIncrementPayload, CartRepoStep, CartServiceImpl};
use orders_lib::controller::{cart_call, plan_request, CartBody, Method};
use orders_lib::errors::Error;
use orders_lib::sql::{Range, RangeLimit};
use orders_lib::types::{CartCustomer, CartItemId, CouponId, ProductId, Quantity, SessionId, StoreId, UserId};

fn copy(e: &CartItem) -> CartItem {
    CartItem {
        id: e.id,
        customer: e.customer,
        product_id: e.product_id,
        quantity: e.quantity,
        selected: e.selected,
        comment: e.comment.clone(),
        store_id: e.store_id,
        pre_order: e.pre_order,
        pre_order_days: e.pre_order_days,
        coupon_id: e.coupon_id,
        delivery_method_id: e.delivery_method_id,
    }
}

fn limit_holds(l: &RangeLimit<i32>, x: i32, above: bool) -> bool {
    match (above, l.inclusive) {
        (true, true) => x >= l.value,
        (true, false) => x > l.value,
        (false, true) => x <= l.value,
        (false, false) => x < l.value,
    }
}

fn range_holds(r: &Range<i32>, x: i32) -> bool {
    match r {
        Range::Exact(v) => x == *v,
        Range::In(vs) => vs.contains(&x),
        Range::From(l) => limit_holds(l, x, true),
        Range::To(l) => limit_holds(l, x, false),
        Range::Between((a, b)) => limit_holds(a, x, true) && limit_holds(b, x, false),
    }
}

fn holds(f: &CartItemFilter, e: &CartItem) -> bool {
    let m = &f.meta_filter;
    f.customer.map_or(true, |c| e.customer == c)
        && m.id.map_or(true, |i| e.id == i)
        && m.product_id.as_ref().map_or(true, |r| range_holds(r, e.product_id.0))
        && m.selected.map_or(true, |b| e.selected == b)
        && m.comment.as_ref().map_or(true, |c| e.comment == *c)
        && m.store_id.as_ref().map_or(true, |r| range_holds(r, e.store_id.0))
        && m.coupon_id.as_ref().map_or(true, |r| e.coupon_id.map_or(false, |k| range_holds(r, k.0)))
        && m.delivery_method_id.is_none()
}

fn updated(d: &CartItemUpdateData, e: &CartItem) -> CartItem {
    let mut n = copy(e);
    if let Some(q) = d.quantity {
        n.quantity = q;
    }
    if let Some(b) = d.selected {
        n.selected = b;
    }
    if let Some(c) = &d.comment {
        n.comment = c.clone();
    }
    if let Some(c) = d.coupon_id {
        n.coupon_id = c;
    }
    if let Some(m) = d.delivery_method_id {
        n.delivery_method_id = m;
    }
    n
}

fn selected(rows: &[CartItem], f: &CartItemFilter) -> Vec<CartItem> {
    rows.iter().filter(|e| holds(f, e)).map(copy).collect()
}

/// An entry as an insert writes it: the insert names neither a coupon nor
/// a delivery method.
fn written(e: &CartItem) -> CartItem {
    let mut n = copy(e);
    n.coupon_id = None;
    n.delivery_method_id = None;
    n
}

fn insert(rows: &mut Vec<CartItem>, ins: &CartItemInserter) -> Option<Vec<CartItem>> {
    let key = |e: &CartItem| e.customer == ins.data.customer && e.product_id == ins.data.product_id;
    let present = rows.iter().any(|e| key(e));
    match (present, ins.strategy) {
        (false, _) => {
            rows.push(written(&ins.data));
            Some(vec![written(&ins.data)])
        }
        (true, CartItemMergeStrategy::Replacer) => {
            for e in rows.iter_mut().filter(|e| key(e)) {
                *e = written(&ins.data);
            }
            Some(vec![written(&ins.data)])
        }
        (true, CartItemMergeStrategy::Standard) => None,
        (true, CartItemMergeStrategy::CollisionNoOp) => Some(vec![]),
        (true, CartItemMergeStrategy::Incrementer) => {
            if rows.iter().any(|e| key(e) && e.quantity.0 == i32::MAX) {
                return None;
            }
            for e in rows.iter_mut().filter(|e| key(e)) {
                e.quantity = Quantity(e.quantity.0 + 1);
            }
            Some(rows.iter().filter(|e| key(e)).map(copy).collect())
        }
    }
}

fn is_user_row(e: &CartItem) -> bool {
    matches!(e.customer, CartCustomer::User(_))
}

fn step(rows: &mut Vec<CartItem>, s: &CartRepoStep) -> Option<Vec<CartItem>> {
    match s {
        CartRepoStep::Select(f) => Some(selected(rows, f)),
        CartRepoStep::SelectLimited { filter, limit } => {
            if *limit < 0 {
                return None;
            }
            // Each table answers with at most `limit` rows, the users' first.
            let n = *limit as usize;
            let users: Vec<CartItem> = rows.iter().filter(|e| is_user_row(e)).map(copy).collect();
            let sessions: Vec<CartItem> = rows.iter().filter(|e| !is_user_row(e)).map(copy).collect();
            let mut out: Vec<CartItem> = selected(&users, filter).into_iter().take(n).collect();
            out.extend(selected(&sessions, filter).into_iter().take(n));
            Some(out)
        }
        CartRepoStep::SelectExactlyOne(f) => {
            let v = selected(rows, f);
            if v.len() == 1 {
                Some(v)
            } else {
                None
            }
        }
        CartRepoStep::Insert(ins) => insert(rows, ins),
        CartRepoStep::InsertExactlyOne(ins) => insert(rows, ins).filter(|v| v.len() == 1),
        CartRepoStep::Update(u) => {
            // The update answers with every row it changed.
            let mut changed = vec![];
            for e in rows.iter_mut() {
                if holds(&u.filter, e) {
                    *e = updated(&u.data, e);
                    changed.push(copy(e));
                }
            }
            Some(changed)
        }
        CartRepoStep::Delete(f) => {
            let gone = selected(rows, f);
            rows.retain(|e| !holds(f, e));
            Some(gone)
        }
    }
}

/// Runs an operation; the entries change only when every step succeeds.
fn run(rows: &mut Vec<CartItem>, plan: &CartPlan) -> Option<Vec<CartItem>> {
    let mut work: Vec<CartItem> = rows.iter().map(copy).collect();
    let mut last = vec![];
    for s in plan.steps.iter() {
        last = step(&mut work, s)?;
    }
    *rows = work;
    Some(match plan.answer {
        CartAnswer::LastResult => last,
        _ => vec![],
    })
}

fn entry(customer: CartCustomer, product: i32, quantity: i32) -> CartItem {
    CartItem {
        id: CartItemId(product as u128),
        customer,
        product_id: ProductId(product),
        quantity: Quantity(quantity),
        selected: true,
        comment: String::new(),
        store_id: StoreId(1),
        pre_order: false,
        pre_order_days: 0,
        coupon_id: None,
        delivery_method_id: None,
    }
}

fn quantities(rows: &[CartItem]) -> Vec<(i32, i32)> {
    let mut v: Vec<(i32, i32)> = rows.iter().map(|e| (e.product_id.0, e.quantity.0)).collect();
    v.sort();
    v
}

const USER: CartCustomer = CartCustomer::User(UserId(12345));
const OTHER: CartCustomer = CartCustomer::User(UserId(777));

#[test]
fn test_missing_auth_header() {
    assert_eq!(plan_request(Method::Get, "/", "", None, None), Err(Error::MissingUserId));
    assert_eq!(Error::MissingUserId.code(), 400);
}

#[test]
fn test_invalid_auth_header() {
    assert_eq!(plan_request(Method::Get, "/", "", Some("12345abc"), None), Err(Error::UserIdParse));
    assert_eq!(Error::UserIdParse.code(), 400);
}

#[test]
fn reading_a_cart_gives_the_customers_entries() {
    let mut rows = vec![entry(USER, 555, 9000), entry(OTHER, 1, 1)];
    let answer = run(&mut rows, &CartServiceImpl::get_cart(USER)).unwrap();
    assert_eq!(quantities(&answer), vec![(555, 9000)]);
    assert_eq!(rows.len(), 2);
}

#[test]
fn a_set_quantity_is_read_back() {
    let mut rows = vec![entry(USER, 555, 1), entry(USER, 444, 2), entry(OTHER, 555, 3)];
    let answer = run(&mut rows, &CartServiceImpl::set_quantity(USER, ProductId(555), Quantity(9000))).unwrap();
    assert_eq!(quantities(&answer), vec![(444, 2), (555, 9000)]);
    assert_eq!(quantities(&selected(&rows, &CartItemFilter { customer: Some(OTHER), meta_filter: Default::default() })), vec![(555, 3)]);
    // Without the entry nothing is created: the cart comes back unchanged.
    let answer = run(&mut rows, &CartServiceImpl::set_quantity(USER, ProductId(666), Quantity(1))).unwrap();
    assert_eq!(quantities(&answer), vec![(444, 2), (555, 9000)]);
    assert!(answer.iter().all(|e| e.product_id != ProductId(666)));
    assert_eq!(rows.len(), 3);
    let answer = run(&mut rows, &CartServiceImpl::add_coupon(USER, ProductId(444), CouponId(25))).unwrap();
    assert!(answer.iter().any(|e| e.product_id == ProductId(444) && e.coupon_id == Some(CouponId(25))));
    let answer = run(&mut rows, &CartServiceImpl::set_comment(USER, ProductId(444), "Product 1 comment".to_string())).unwrap();
    assert!(answer.iter().any(|e| e.product_id == ProductId(444) && e.comment == "Product 1 comment"));
    // The other entry updates read the entry back and fail without it,
    // changing nothing.
    assert!(run(&mut rows, &CartServiceImpl::add_coupon(USER, ProductId(666), CouponId(25))).is_none());
    assert!(run(&mut rows, &CartServiceImpl::delete_coupon_by_product(USER, ProductId(666))).is_none());
    assert!(run(&mut rows, &CartServiceImpl::set_delivery_method(USER, ProductId(666), None)).is_none());
    assert!(run(&mut rows, &CartServiceImpl::set_selection(USER, ProductId(666), false)).is_none());
    assert!(run(&mut rows, &CartServiceImpl::set_comment(USER, ProductId(666), "x".to_string())).is_none());
    assert_eq!(rows.len(), 3);
    let answer = run(&mut rows, &CartServiceImpl::delete_coupon_by_product(USER, ProductId(444))).unwrap();
    assert!(answer.iter().all(|e| e.coupon_id.is_none()));
}

#[test]
fn a_deleted_item_is_gone() {
    let mut rows = vec![entry(USER, 444, 9000), entry(USER, 555, 9100)];
    let answer = run(&mut rows, &CartServiceImpl::delete_item(USER, ProductId(555))).unwrap();
    assert_eq!(quantities(&answer), vec![(444, 9000)]);
    assert!(run(&mut rows, &CartServiceImpl::delete_item(USER, ProductId(555))).is_none());
}

#[test]
fn a_cleared_cart_is_empty() {
    let mut rows = vec![entry(USER, 444, 9000), entry(USER, 555, 9010), entry(USER, 666, 9020), entry(OTHER, 1, 1)];
    let answer = run(&mut rows, &CartServiceImpl::clear_cart(USER)).unwrap();
    assert!(answer.is_empty());
    assert!(run(&mut rows, &CartServiceImpl::get_cart(USER)).unwrap().is_empty());
    assert_eq!(rows.len(), 1);
}

#[test]
fn increments_add_one_piece() {
    let payload = CartProductIncrementPayload { store_id: StoreId(9), pre_order: false, pre_order_days: 0 };
    let mut rows = vec![entry(USER, 444, 2)];
    let answer = run(&mut rows, &CartServiceImpl::increment_item(USER, ProductId(555), payload)).unwrap();
    assert_eq!(quantities(&answer), vec![(444, 2), (555, 1)]);
    let answer = run(&mut rows, &CartServiceImpl::increment_item(USER, ProductId(444), payload)).unwrap();
    assert_eq!(quantities(&answer), vec![(444, 3), (555, 1)]);
    let mut full = vec![entry(USER, 444, i32::MAX)];
    assert!(run(&mut full, &CartServiceImpl::increment_item(USER, ProductId(444), payload)).is_none());
}

#[test]
fn merges_move_entries_the_target_lacks() {
    let from = CartCustomer::Anonymous(SessionId(5));
    let mut rows = vec![entry(from, 1, 10), entry(from, 2, 20), entry(USER, 2, 99), entry(OTHER, 3, 1)];
    let call = cart_call(
        orders_lib::controller::ControllerAction::MergeCarts,
        CartBody::Merge { from, to: USER },
    )
    .unwrap()
    .unwrap();
    let moved = run(&mut rows, &call.plan).unwrap();
    assert_eq!(quantities(&moved), vec![(1, 10), (2, 20)]);
    let answer = run(&mut rows, &CartServiceImpl::merge_finish(moved, call.merge_into.unwrap())).unwrap();
    assert_eq!(quantities(&answer), vec![(1, 10), (2, 99)]);
    assert!(run(&mut rows, &CartServiceImpl::get_cart(from)).unwrap().is_empty());
}

#[test]
fn listings_take_at_most_count_entries() {
    let mut rows = vec![entry(USER, 1, 1), entry(USER, 5, 1), entry(USER, 7, 1), entry(USER, 9, 1)];
    let answer = run(&mut rows, &CartServiceImpl::list(USER, ProductId(5), 2)).unwrap();
    assert_eq!(quantities(&answer), vec![(5, 1), (7, 1)]);
}

#[test]
fn each_table_answers_a_limited_read() {
    let s = CartCustomer::Anonymous(SessionId(3));
    let mut rows = vec![entry(USER, 1, 1), entry(s, 2, 1), entry(OTHER, 3, 1), entry(s, 4, 1)];
    let all = CartItemFilter { customer: None, meta_filter: Default::default() };
    let answer = step(&mut rows, &CartRepoStep::SelectLimited { filter: all, limit: 1 }).unwrap();
    assert_eq!(quantities(&answer), vec![(1, 1), (2, 1)]);
}

#[test]
fn an_update_answers_every_changed_row() {
    let mut rows = vec![entry(USER, 1, 1), entry(USER, 2, 1), entry(OTHER, 3, 1)];
    let mut m: orders_lib::cart::CartItemMetaFilter = Default::default();
    m.selected = Some(true);
    let mut data = CartItemUpdateData::default();
    data.selected = Some(false);
    let u = orders_lib::cart::CartItemUpdater { filter: CartItemFilter { customer: Some(USER), meta_filter: m }, data };
    // The rows no longer meet the filter after the update; both are answered.
    let answer = step(&mut rows, &CartRepoStep::Update(u)).unwrap();
    assert_eq!(quantities(&answer), vec![(1, 1), (2, 1)]);
    assert!(answer.iter().all(|e| !e.selected));
}
