//! Access control: who may see, change or delete cart entries and orders.

use vstd::prelude::*;

use crate::errors::Error;
use crate::types::{Action, RoleEntry, StoreId, UserId, UserLogin, UserRole};

verus! {

/// Access engine that asks a predicate about each access context.
pub struct OrdersAcl<F>(pub F);

impl<F> OrdersAcl<F> {
    /// Asks the predicate; hands the context back with the answer.
    pub fn allows<C>(&self, ctx: C) -> (r: (bool, C)) where F: Fn(&C) -> bool,
        requires
            call_requires(self.0, (&ctx,)),
        ensures
            call_ensures(self.0, (&ctx,), r.0),
            r.1 == ctx,
    {
        let allowed = (self.0)(&ctx);
        (allowed, ctx)
    }

    /// Lets the context through when the predicate allows it, else refuses
    /// it as `Forbidden`.
    pub fn ensure_access<C>(&self, ctx: C) -> (r: Result<C, (Error, C)>) where F: Fn(&C) -> bool,
        requires
            call_requires(self.0, (&ctx,)),
        ensures
            match r {
                Ok(c) => c == ctx && call_ensures(self.0, (&ctx,), true),
                Err((e, c)) => e == Error::Forbidden && c == ctx && call_ensures(self.0, (&ctx,), false),
            },
    {
        let (allowed, ctx) = self.allows(ctx);
        if allowed {
            Ok(ctx)
        } else {
            Err((Error::Forbidden, ctx))
        }
    }
}

/// Whether some role entry makes its user a superadmin.
pub open spec fn has_superadmin(roles: Seq<RoleEntry>) -> bool {
    exists|i: int| 0 <= i < roles.len() && (#[trigger] roles[i]).role == UserRole::Superadmin
}

/// Access to a cart entry owned by `owner`: superadmins and the owner.
pub open spec fn cart_item_access_allowed(login: UserLogin, owner: UserId) -> bool {
    match login {
        UserLogin::Anonymous => false,
        UserLogin::User { caller_id, caller_roles } => has_superadmin(caller_roles@) || caller_id == owner,
    }
}

/// Access to an order by the role entries, taken in order: the first entry
/// that is a superadmin, or a manager of the order's store, decides (a
/// superadmin may do anything, a store manager anything but delete); with
/// neither, the customer may do anything but delete.
pub open spec fn order_access_by_roles(
    roles: Seq<RoleEntry>,
    caller: UserId,
    store: StoreId,
    customer: UserId,
    action: Action,
) -> bool
    decreases roles.len(),
{
    if roles.len() == 0 {
        caller == customer && action != Action::Delete
    } else {
        match roles[0].role {
            UserRole::Superadmin => true,
            UserRole::StoreManager(s) => if s == store {
                action != Action::Delete
            } else {
                order_access_by_roles(roles.drop_first(), caller, store, customer, action)
            },
        }
    }
}

pub open spec fn order_access_allowed(login: UserLogin, store: StoreId, customer: UserId, action: Action) -> bool {
    match login {
        UserLogin::Anonymous => false,
        UserLogin::User { caller_id, caller_roles } => order_access_by_roles(
            caller_roles@,
            caller_id,
            store,
            customer,
            action,
        ),
    }
}

/// Access check for a cart entry of a registered user.
#[verifier::loop_isolation(false)]
pub fn check_cart_item_acl(login: &UserLogin, owner: UserId) -> (r: bool)
    ensures
        r == cart_item_access_allowed(*login, owner),
{
    match login {
        UserLogin::Anonymous => false,
        UserLogin::User { caller_id, caller_roles } => {
            let n = caller_roles.len();
            let mut i: usize = 0;
            while i < n
                invariant
                    n == caller_roles@.len(),
                    i <= n,
                    forall|j: int| 0 <= j < i ==> (#[trigger] caller_roles@[j]).role != UserRole::Superadmin,
                decreases n - i,
            {
                if caller_roles[i].role == UserRole::Superadmin {
                    return true;
                }
                i = i + 1;
            }
            caller_id.0 == owner.0
        },
    }
}

/// Access check for an order of `customer` in `store`.
#[verifier::loop_isolation(false)]
pub fn check_order_acl(login: &UserLogin, store: StoreId, customer: UserId, action: Action) -> (r: bool)
    ensures
        r == order_access_allowed(*login, store, customer, action),
{
    match login {
        UserLogin::Anonymous => false,
        UserLogin::User { caller_id, caller_roles } => {
            let ghost roles = caller_roles@;
            let n = caller_roles.len();
            let mut i: usize = 0;
            assert(roles.skip(0) =~= roles);
            while i < n
                invariant
                    n == roles.len(),
                    roles == caller_roles@,
                    i <= n,
                    order_access_by_roles(roles, *caller_id, store, customer, action)
                        == order_access_by_roles(roles.skip(i as int), *caller_id, store, customer, action),
                decreases n - i,
            {
                assert(roles.skip(i as int)[0] == roles[i as int]);
                assert(roles.skip(i as int).drop_first() =~= roles.skip(i + 1));
                match caller_roles[i].role {
                    UserRole::Superadmin => {
                        return true;
                    },
                    UserRole::StoreManager(managed) => {
                        if managed.0 == store.0 {
                            return action != Action::Delete;
                        }
                    },
                }
                i = i + 1;
            }
            assert(roles.skip(n as int).len() == 0);
            caller_id.0 == customer.0 && action != Action::Delete
        },
    }
}

/// Nobody who is not logged in may touch a cart entry or an order.
pub proof fn law_anonymous_is_refused(owner: UserId, store: StoreId, customer: UserId, action: Action)
    ensures
        !cart_item_access_allowed(UserLogin::Anonymous, owner),
        !order_access_allowed(UserLogin::Anonymous, store, customer, action),
{
}

/// The owner of a cart entry and any superadmin may access it.
pub proof fn law_cart_owner_and_superadmin_allowed(caller: UserId, roles: Seq<RoleEntry>, owner: UserId)
    requires
        caller == owner || has_superadmin(roles),
    ensures
        forall|v: Vec<RoleEntry>| v@ == roles ==> #[trigger] cart_item_access_allowed(
            UserLogin::User { caller_id: caller, caller_roles: v },
            owner,
        ),
{
}

proof fn lemma_delete_needs_superadmin(
    roles: Seq<RoleEntry>,
    caller: UserId,
    store: StoreId,
    customer: UserId,
)
    requires
        order_access_by_roles(roles, caller, store, customer, Action::Delete),
    ensures
        has_superadmin(roles),
    decreases roles.len(),
{
    if roles.len() > 0 {
        match roles[0].role {
            UserRole::Superadmin => {},
            UserRole::StoreManager(s) => {
                lemma_delete_needs_superadmin(roles.drop_first(), caller, store, customer);
                let i = choose|i: int| 0 <= i < roles.drop_first().len() && (#[trigger] roles.drop_first()[i]).role
                    == UserRole::Superadmin;
                assert(roles[i + 1] == roles.drop_first()[i]);
            },
        }
    }
}

/// Only a superadmin may delete an order.
pub proof fn law_order_delete_needs_superadmin(login: UserLogin, store: StoreId, customer: UserId)
    requires
        order_access_allowed(login, store, customer, Action::Delete),
    ensures
        login matches UserLogin::User { caller_roles, .. } && has_superadmin(caller_roles@),
{
    match login {
        UserLogin::Anonymous => {},
        UserLogin::User { caller_id, caller_roles } => {
            lemma_delete_needs_superadmin(caller_roles@, caller_id, store, customer);
        },
    }
}

proof fn lemma_customer_may_read(roles: Seq<RoleEntry>, caller: UserId, store: StoreId, action: Action)
    requires
        action != Action::Delete,
    ensures
        order_access_by_roles(roles, caller, store, caller, action),
    decreases roles.len(),
{
    if roles.len() > 0 {
        lemma_customer_may_read(roles.drop_first(), caller, store, action);
    }
}

/// The customer of an order may do anything with it but delete it.
pub proof fn law_customer_may_use_own_order(login: UserLogin, store: StoreId, action: Action)
    requires
        login is User,
        action != Action::Delete,
    ensures
        order_access_allowed(login, store, login->caller_id, action),
{
    match login {
        UserLogin::Anonymous => {},
        UserLogin::User { caller_id, caller_roles } => {
            lemma_customer_may_read(caller_roles@, caller_id, store, action);
        },
    }
}

proof fn lemma_superadmin_without_manager_allowed(
    roles: Seq<RoleEntry>,
    caller: UserId,
    store: StoreId,
    customer: UserId,
    action: Action,
)
    requires
        has_superadmin(roles),
        forall|i: int| 0 <= i < roles.len() ==> (#[trigger] roles[i]).role != UserRole::StoreManager(store),
    ensures
        order_access_by_roles(roles, caller, store, customer, action),
    decreases roles.len(),
{
    if roles.len() > 0 {
        if roles[0].role != UserRole::Superadmin {
            let i = choose|i: int| 0 <= i < roles.len() && (#[trigger] roles[i]).role == UserRole::Superadmin;
            assert(roles.drop_first()[i - 1] == roles[i]);
            assert forall|j: int| 0 <= j < roles.drop_first().len() implies (#[trigger] roles.drop_first()[j]).role
                != UserRole::StoreManager(store) by {
                assert(roles.drop_first()[j] == roles[j + 1]);
            }
            lemma_superadmin_without_manager_allowed(roles.drop_first(), caller, store, customer, action);
        }
    }
}

/// A superadmin who does not also manage the order's store may do anything
/// with the order.
pub proof fn law_superadmin_may_do_anything(login: UserLogin, store: StoreId, customer: UserId, action: Action)
    requires
        login matches UserLogin::User { caller_roles, .. } && has_superadmin(caller_roles@) && (forall|i: int|
            0 <= i < caller_roles@.len() ==> (#[trigger] caller_roles@[i]).role != UserRole::StoreManager(store)),
    ensures
        order_access_allowed(login, store, customer, action),
{
    match login {
        UserLogin::Anonymous => {},
        UserLogin::User { caller_id, caller_roles } => {
            lemma_superadmin_without_manager_allowed(caller_roles@, caller_id, store, customer, action);
        },
    }
}

} // verus!
