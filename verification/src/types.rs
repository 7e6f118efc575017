//! Identifiers and small domain values shared by carts, orders and access
//! control.

use vstd::prelude::*;

verus! {

#[derive(Clone, Copy, Debug, PartialEq, Eq, Structural)]
pub struct UserId(pub i32);

/// Identifier of an anonymous session.
#[derive(Clone, Copy, Debug, PartialEq, Eq, Structural)]
pub struct SessionId(pub i32);

#[derive(Clone, Copy, Debug, PartialEq, Eq, Structural)]
pub struct ProductId(pub i32);

#[derive(Clone, Copy, Debug, PartialEq, Eq, Structural)]
pub struct StoreId(pub i32);

#[derive(Clone, Copy, Debug, PartialEq, Eq, Structural)]
pub struct Quantity(pub i32);

#[derive(Clone, Copy, Debug, PartialEq, Eq, Structural)]
pub struct CouponId(pub i32);

#[derive(Clone, Copy, Debug, PartialEq, Eq, Structural)]
pub struct DeliveryMethodId(pub i32);

/// Identifier of a cart entry (a UUID, held as its 128-bit value).
#[derive(Clone, Copy, Debug, PartialEq, Eq, Structural)]
pub struct CartItemId(pub u128);

/// Identifier of an order (a UUID, held as its 128-bit value).
#[derive(Clone, Copy, Debug, PartialEq, Eq, Structural)]
pub struct OrderId(pub u128);

/// Identifier of an order history record (a UUID).
#[derive(Clone, Copy, Debug, PartialEq, Eq, Structural)]
pub struct OrderDiffId(pub u128);

/// Identifier of a cart conversion (a UUID).
#[derive(Clone, Copy, Debug, PartialEq, Eq, Structural)]
pub struct ConversionId(pub u128);

/// Identifier of a role entry (a UUID).
#[derive(Clone, Copy, Debug, PartialEq, Eq, Structural)]
pub struct RoleEntryId(pub u128);

/// Human readable order number.
#[derive(Clone, Copy, Debug, PartialEq, Eq, Structural)]
pub struct OrderSlug(pub i32);

/// The owner of a cart: a registered user or an anonymous session.
#[derive(Clone, Copy, Debug, PartialEq, Eq, Structural)]
pub enum CartCustomer {
    User(UserId),
    Anonymous(SessionId),
}

/// An order named by its id or by its slug.
#[derive(Clone, Copy, Debug, PartialEq, Eq, Structural)]
pub enum OrderIdentifier {
    Id(OrderId),
    Slug(OrderSlug),
}

/// Life cycle of an order.
#[derive(Clone, Copy, Debug, PartialEq, Eq, Structural)]
pub enum OrderState {
    New,
    PaymentAwaited,
    TransactionPending,
    AmountExpired,
    Paid,
    InProcessing,
    Cancelled,
    Sent,
    Delivered,
    Received,
    Dispute,
    Complete,
}

/// Operation that an access check is asked about.
#[derive(Clone, Copy, Debug, PartialEq, Eq, Structural)]
pub enum Action {
    Select,
    Insert,
    Update,
    Delete,
}

/// Role of a user in this service.
#[derive(Clone, Copy, Debug, PartialEq, Eq, Structural)]
pub enum UserRole {
    Superadmin,
    StoreManager(StoreId),
}

#[derive(Clone, Copy, Debug, PartialEq, Eq, Structural)]
pub struct RoleEntry {
    pub id: RoleEntryId,
    pub user_id: UserId,
    pub role: UserRole,
}

/// Who performs a request.
#[derive(Debug)]
pub enum UserLogin {
    Anonymous,
    User { caller_id: UserId, caller_roles: Vec<RoleEntry> },
}

/// The 128-bit value of the UUID that `uuid::Uuid::parse_str` reads from a
/// text, or `None` where it refuses the text.
pub uninterp spec fn uuid_from_text(text: Seq<char>) -> Option<u128>;

/// Reads a UUID with `uuid::Uuid::parse_str` (which `str::parse` uses).
/// Trusted: the result is the named value `uuid_from_text` of the text.
#[verifier::external_body]
pub fn parse_uuid(text: &str) -> (r: Option<u128>)
    ensures
        r == uuid_from_text(text@),
{
    uuid::Uuid::parse_str(text).ok().map(|u| u.as_u128())
}

/// The lower-case hexadecimal digit of a value below sixteen.
pub open spec fn hex_digit(d: int) -> char {
    if d < 10 {
        (d + 48) as char
    } else {
        (d + 87) as char
    }
}

/// The `k`-th of the 32 hexadecimal digits of a value, the most
/// significant first.
pub open spec fn uuid_digit(value: u128, k: int) -> char {
    hex_digit((value as int / vstd::arithmetic::power2::pow2((4 * (31 - k)) as nat) as int) % 16)
}

/// How many hyphens the hyphenated form writes before position `i`.
pub open spec fn hyphens_before(i: int) -> int {
    if i < 8 {
        0
    } else if i < 13 {
        1
    } else if i < 18 {
        2
    } else if i < 23 {
        3
    } else {
        4
    }
}

/// The text that `uuid::Uuid` displays for a value: its 32 hexadecimal
/// digits, most significant first and lower case, in groups of 8, 4, 4, 4
/// and 12 joined by hyphens.
pub open spec fn uuid_text(value: u128) -> Seq<char> {
    Seq::new(
        36,
        |i: int|
            if i == 8 || i == 13 || i == 18 || i == 23 {
                '-'
            } else {
                uuid_digit(value, i - hyphens_before(i))
            },
    )
}

/// Displays a UUID with `uuid::Uuid`'s `Display` (its hyphenated
/// lower-case form). Trusted: the result is `uuid_text` of the value.
#[verifier::external_body]
pub fn format_uuid(value: u128) -> (r: String)
    ensures
        r@ == uuid_text(value),
{
    uuid::Uuid::from_u128(value).to_string()
}

/// A fresh random version 4 UUID from `uuid::Uuid::new_v4`, as its 128-bit
/// value. Trusted; nothing is promised of the value.
#[verifier::external_body]
pub fn new_uuid() -> u128 {
    uuid::Uuid::new_v4().as_u128()
}

} // verus!
