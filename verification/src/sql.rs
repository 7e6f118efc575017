//! Plain values that statements carry as parameters, and the ranges that
//! filters select by.

use vstd::prelude::*;

use crate::types::OrderState;

verus! {

/// A statement parameter.
#[derive(Debug)]
pub enum SqlValue {
    Int(i32),
    OptInt(Option<i32>),
    Bool(bool),
    Uuid(u128),
    Text(String),
    OptText(Option<String>),
    State(OrderState),
    /// A point in time, in nanoseconds since the Unix epoch.
    Time(i128),
    /// A delivery method, stored as a JSON document.
    DeliveryMethod(Option<crate::types::DeliveryMethodId>),
    /// A price, held as the bit pattern of its double precision value.
    Price(u64),
    /// A geographic point, held as the bit patterns of its two double
    /// precision coordinates.
    Point(u64, u64),
}

/// One end of a range.
#[derive(Debug)]
pub struct RangeLimit<T> {
    pub value: T,
    pub inclusive: bool,
}

/// The values a filter accepts for a column.
#[derive(Debug)]
pub enum Range<T> {
    Exact(T),
    In(Vec<T>),
    From(RangeLimit<T>),
    To(RangeLimit<T>),
    Between((RangeLimit<T>, RangeLimit<T>)),
}

/// A filter argument: one value, or a range of integers or of points in time.
#[derive(Debug)]
pub enum FilterArg {
    Value(SqlValue),
    Ints(Range<i32>),
    Times(Range<i128>),
}

} // verus!
