//! Settings of the service and of its background jobs.

use vstd::prelude::*;

verus! {

#[derive(Debug)]
pub struct Database {
    pub dsn: String,
}

/// Tracking of sent orders.
#[derive(Debug)]
pub struct SentOrders {
    /// State check interval in seconds
    pub interval_s: u64,
    /// UPS api access licence number
    pub ups_api_access_license_number: String,
    /// UPS api url
    pub ups_api_url: String,
    /// How long in days order can be in sent state to be processed
    pub sent_state_duration_days: i64,
}

/// Completion of delivered orders.
#[derive(Debug)]
pub struct DeliveredOrders {
    /// State check interval in seconds
    pub interval_s: u64,
    /// How long in days order has to be in delivered state to be considered completed
    pub delivery_state_duration_days: i64,
    /// Saga url
    pub saga_url: String,
}

/// Reporting of paid and delivered orders.
#[derive(Debug)]
pub struct PaidDeliveredReports {
    pub interval_s: u64,
}

/// AWS S3 credentials
#[derive(Debug)]
pub struct S3 {
    pub key: String,
    pub secret: String,
    pub region: String,
    pub bucket: String,
    pub acl: String,
}

} // verus!
