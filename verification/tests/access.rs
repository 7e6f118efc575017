use orders_lib::acl::{check_cart_item_acl, check_order_acl, OrdersAcl};
use orders_lib::errors::Error;
use orders_lib::types::{Action, RoleEntry, RoleEntryId, StoreId, UserId, UserLogin, UserRole};

fn user(id: i32, roles: Vec<UserRole>) -> UserLogin {
    UserLogin::User {
        caller_id: UserId(id),
        caller_roles: roles
            .into_iter()
            .enumerate()
            .map(|(i, role)| RoleEntry { id: RoleEntryId(i as u128), user_id: UserId(id), role })
            .collect(),
    }
}

#[test]
fn anonymous_callers_are_refused() {
    assert!(!check_cart_item_acl(&UserLogin::Anonymous, UserId(1)));
    for action in [Action::Select, Action::Insert, Action::Update, Action::Delete] {
        assert!(!check_order_acl(&UserLogin::Anonymous, StoreId(1), UserId(1), action));
    }
}

#[test]
fn cart_entries_belong_to_their_owner_and_superadmins() {
    assert!(check_cart_item_acl(&user(5, vec![]), UserId(5)));
    assert!(!check_cart_item_acl(&user(5, vec![]), UserId(6)));
    assert!(!check_cart_item_acl(&user(5, vec![UserRole::StoreManager(StoreId(6))]), UserId(6)));
    assert!(check_cart_item_acl(&user(5, vec![UserRole::StoreManager(StoreId(1)), UserRole::Superadmin]), UserId(6)));
}

#[test]
fn order_access_follows_roles() {
    let store = StoreId(10);
    let customer = UserId(20);
    // The customer may do anything but delete.
    assert!(check_order_acl(&user(20, vec![]), store, customer, Action::Select));
    assert!(check_order_acl(&user(20, vec![]), store, customer, Action::Update));
    assert!(!check_order_acl(&user(20, vec![]), store, customer, Action::Delete));
    // A stranger may do nothing.
    assert!(!check_order_acl(&user(21, vec![]), store, customer, Action::Select));
    // The store's manager may do anything but delete.
    let manager = user(30, vec![UserRole::StoreManager(store)]);
    assert!(check_order_acl(&manager, store, customer, Action::Update));
    assert!(!check_order_acl(&manager, store, customer, Action::Delete));
    // A manager of another store is a stranger.
    let other = user(31, vec![UserRole::StoreManager(StoreId(11))]);
    assert!(!check_order_acl(&other, store, customer, Action::Select));
    // A superadmin may do anything.
    let admin = user(40, vec![UserRole::Superadmin]);
    assert!(check_order_acl(&admin, store, customer, Action::Delete));
    // The first decisive role wins.
    let both = user(41, vec![UserRole::StoreManager(store), UserRole::Superadmin]);
    assert!(!check_order_acl(&both, store, customer, Action::Delete));
    let both = user(41, vec![UserRole::Superadmin, UserRole::StoreManager(store)]);
    assert!(check_order_acl(&both, store, customer, Action::Delete));
}

#[test]
fn the_engine_asks_its_predicate() {
    let acl = OrdersAcl(|ctx: &i32| *ctx > 0);
    assert_eq!(acl.allows(5), (true, 5));
    assert_eq!(acl.allows(-5), (false, -5));
    assert_eq!(acl.ensure_access(3), Ok(3));
    assert_eq!(acl.ensure_access(0), Err((Error::Forbidden, 0)));
}
