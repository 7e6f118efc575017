//! Decisions of the background jobs: how often they run, whether a tick
//! runs a step, which orders a step moves on, and the requests and report
//! names they produce.

use vstd::prelude::*;

use crate::config::{DeliveredOrders, PaidDeliveredReports, SentOrders};
use crate::order::Order;
use crate::types::{format_uuid, new_uuid, uuid_text, OrderId, OrderState, RoleEntry, RoleEntryId, UserId, UserLogin, UserRole};
use crate::ups::DeliveryState;

verus! {

/// Seconds between runs of the delivered orders job when unset: one day.
pub open spec fn delivered_orders_default_interval() -> u64 {
    86400
}

/// Days an order stays delivered before it completes, when unset.
pub open spec fn default_delivery_state_days() -> i64 {
    1
}

/// Seconds between runs of the tracking and reporting jobs when unset: one
/// hour.
pub open spec fn tracking_default_interval() -> u64 {
    3600
}

/// Seconds between runs of the delivered orders job.
pub fn delivered_orders_interval(config: Option<&DeliveredOrders>) -> (r: u64)
    ensures
        r == match config {
            Some(c) => c.interval_s,
            None => delivered_orders_default_interval(),
        },
{
    match config {
        Some(c) => c.interval_s,
        None => 86400,
    }
}

/// Days an order stays delivered before the delivered orders job completes
/// it.
pub fn delivery_state_days(config: Option<&DeliveredOrders>) -> (r: i64)
    ensures
        r == match config {
            Some(c) => c.delivery_state_duration_days,
            None => default_delivery_state_days(),
        },
{
    match config {
        Some(c) => c.delivery_state_duration_days,
        None => 1,
    }
}

/// Seconds between runs of the delivered state tracking job.
pub fn delivered_state_tracking_interval(config: Option<&DeliveredOrders>) -> (r: u64)
    ensures
        r == match config {
            Some(c) => c.interval_s,
            None => tracking_default_interval(),
        },
{
    match config {
        Some(c) => c.interval_s,
        None => 3600,
    }
}

/// Seconds between runs of the sent state tracking job.
pub fn sent_state_tracking_interval(config: Option<&SentOrders>) -> (r: u64)
    ensures
        r == match config {
            Some(c) => c.interval_s,
            None => tracking_default_interval(),
        },
{
    match config {
        Some(c) => c.interval_s,
        None => 3600,
    }
}

/// Seconds between runs of the paid and delivered report.
pub fn paid_delivered_report_interval(config: Option<&PaidDeliveredReports>) -> (r: u64)
    ensures
        r == match config {
            Some(c) => c.interval_s,
            None => tracking_default_interval(),
        },
{
    match config {
        Some(c) => c.interval_s,
        None => 3600,
    }
}

/// What a job does on a tick of its timer.
#[derive(Clone, Copy, Debug, PartialEq, Eq, Structural)]
pub enum TickAction {
    /// The job has no settings: it only reports that it is disabled.
    Disabled,
    /// The previous step still runs: this tick is skipped.
    Skip,
    /// A step runs; the job is busy until it ends.
    Step,
}

/// A job's timer tick: disabled without settings, skipped while busy, else
/// a step.
pub fn loader_tick(configured: bool, busy: bool) -> (r: TickAction)
    ensures
        r == (if !configured {
            TickAction::Disabled
        } else if busy {
            TickAction::Skip
        } else {
            TickAction::Step
        }),
{
    if !configured {
        TickAction::Disabled
    } else if busy {
        TickAction::Skip
    } else {
        TickAction::Step
    }
}

/// What a job learns: a tick of its timer, or that its step has ended,
/// with the number of its parts that failed (each failure is logged and
/// the remaining parts still run).
#[derive(Clone, Copy, Debug, PartialEq, Eq, Structural)]
pub enum JobEvent {
    Tick,
    StepEnded { failures: u64 },
}

/// A job's next state (whether it is busy) and what it does: a tick acts
/// as `loader_tick` says and makes the job busy when it starts a step; the
/// end of a step frees the job, however many of its parts failed.
pub open spec fn spec_job_step(configured: bool, busy: bool, event: JobEvent) -> (bool, Option<TickAction>) {
    match event {
        JobEvent::Tick => if !configured {
            (busy, Some(TickAction::Disabled))
        } else if busy {
            (true, Some(TickAction::Skip))
        } else {
            (true, Some(TickAction::Step))
        },
        JobEvent::StepEnded { .. } => (false, None),
    }
}

/// Moves a job on by one event.
pub fn job_step(configured: bool, busy: bool, event: JobEvent) -> (r: (bool, Option<TickAction>))
    ensures
        r == spec_job_step(configured, busy, event),
{
    match event {
        JobEvent::Tick => {
            let a = loader_tick(configured, busy);
            match a {
                TickAction::Step => (true, Some(a)),
                _ => (busy, Some(a)),
            }
        },
        JobEvent::StepEnded { .. } => (false, None),
    }
}

/// A job runs one step at a time and is free again once the step ends,
/// whatever failed in it: a tick while a step runs is skipped, and the next
/// tick after the end starts a new step.
pub proof fn law_job_free_after_step(failures: u64)
    ensures
        spec_job_step(true, false, JobEvent::Tick) == (true, Some(TickAction::Step)),
        spec_job_step(true, true, JobEvent::Tick) == (true, Some(TickAction::Skip)),
        forall|busy: bool| #[trigger] spec_job_step(true, busy, JobEvent::StepEnded { failures }).0 == false,
        forall|busy: bool|
            spec_job_step(true, #[trigger] spec_job_step(true, busy, JobEvent::StepEnded { failures }).0, JobEvent::Tick)
                == (true, Some(TickAction::Step)),
{
}

/// The reports that each step of the report job writes, in order: the
/// orders paid and the orders delivered since the start of the previous
/// day. Each is written whatever became of the other.
pub fn report_states() -> (r: Vec<OrderState>)
    ensures
        r@ == seq![OrderState::Paid, OrderState::Delivered],
{
    let mut v: Vec<OrderState> = Vec::new();
    v.push(OrderState::Paid);
    v.push(OrderState::Delivered);
    assert(v@ =~= seq![OrderState::Paid, OrderState::Delivered]);
    v
}

/// The UPS licence number and url of the sent orders settings, or empty
/// texts without settings.
pub fn ups_credentials(config: Option<&SentOrders>) -> (r: (String, String))
    ensures
        match config {
            Some(c) => r.0@ == c.ups_api_access_license_number@ && r.1@ == c.ups_api_url@,
            None => r.0@ == Seq::<char>::empty() && r.1@ == Seq::<char>::empty(),
        },
{
    match config {
        Some(c) => (c.ups_api_access_license_number.clone(), c.ups_api_url.clone()),
        None => (String::new(), String::new()),
    }
}

/// The orders, in order, that carry a track id, with that id.
pub open spec fn with_track_ids(orders: Seq<Order>) -> Seq<(OrderId, String)>
    decreases orders.len(),
{
    if orders.len() == 0 {
        Seq::empty()
    } else {
        let rest = with_track_ids(orders.drop_last());
        match orders.last().track_id {
            Some(t) => rest.push((orders.last().id, t)),
            None => rest,
        }
    }
}

/// The sent orders whose delivery can be checked: those with a track id.
pub fn tracked_orders(orders: Vec<Order>) -> (r: Vec<(OrderId, String)>)
    ensures
        r@ == with_track_ids(orders@),
{
    let ghost all = orders@;
    let n = orders.len();
    let mut orders = orders;
    let mut out: Vec<(OrderId, String)> = Vec::new();
    let mut i: usize = 0;
    assert(all.take(0) =~= Seq::<Order>::empty());
    while orders.len() > 0
        invariant
            i + orders@.len() == n,
            n == all.len(),
            i <= n,
            orders@ =~= all.subrange(i as int, n as int),
            out@ == with_track_ids(all.take(i as int)),
        decreases orders@.len(),
    {
        let o = orders.remove(0);
        assert(o == all[i as int]);
        assert(all.take(i + 1).drop_last() =~= all.take(i as int));
        assert(all.take(i + 1).last() == o);
        match o.track_id {
            Some(t) => out.push((o.id, t)),
            None => {},
        }
        i = i + 1;
    }
    assert(all.take(n as int) =~= all);
    out
}

/// The orders, in order, whose package UPS reports delivered. An order
/// whose delivery state could not be read (`None`) is left as it is; the
/// answers for the other orders still count.
pub open spec fn delivered_ids(states: Seq<(OrderId, Option<DeliveryState>)>) -> Seq<OrderId>
    decreases states.len(),
{
    if states.len() == 0 {
        Seq::empty()
    } else {
        let rest = delivered_ids(states.drop_last());
        if states.last().1 == Some(DeliveryState::Delivered) {
            rest.push(states.last().0)
        } else {
            rest
        }
    }
}

/// The orders to move into the delivered state, of the delivery states read
/// for the tracked orders; a failed reading skips only its own order.
pub fn newly_delivered(states: &Vec<(OrderId, Option<DeliveryState>)>) -> (r: Vec<OrderId>)
    ensures
        r@ == delivered_ids(states@),
{
    let n = states.len();
    let mut out: Vec<OrderId> = Vec::new();
    let mut i: usize = 0;
    assert(states@.take(0) =~= Seq::<(OrderId, Option<DeliveryState>)>::empty());
    while i < n
        invariant
            n == states@.len(),
            i <= n,
            out@ == delivered_ids(states@.take(i as int)),
        decreases n - i,
    {
        assert(states@.take(i + 1).drop_last() =~= states@.take(i as int));
        assert(states@.take(i + 1).last() == states@[i as int]);
        if states[i].1 == Some(DeliveryState::Delivered) {
            out.push(states[i].0);
        }
        i = i + 1;
    }
    assert(states@.take(n as int) =~= states@);
    out
}

/// A failed reading of one order's delivery state takes nothing from the
/// answers for the orders around it.
pub proof fn law_failed_reading_skips_only_its_order(
    before: Seq<(OrderId, Option<DeliveryState>)>,
    order_id: OrderId,
    after: Seq<(OrderId, Option<DeliveryState>)>,
)
    ensures
        delivered_ids(before + seq![(order_id, None::<DeliveryState>)] + after) == delivered_ids(before)
            + delivered_ids(after),
    decreases after.len(),
{
    let mid = before + seq![(order_id, None::<DeliveryState>)];
    assert(mid.drop_last() =~= before);
    if after.len() == 0 {
        assert(mid + after =~= mid);
        assert(delivered_ids(before) + delivered_ids(after) =~= delivered_ids(before));
    } else {
        law_failed_reading_skips_only_its_order(before, order_id, after.drop_last());
        assert((mid + after).drop_last() =~= mid + after.drop_last());
        assert((mid + after).last() == after.last());
        if after.last().1 == Some(DeliveryState::Delivered) {
            assert(delivered_ids(before) + delivered_ids(after) =~= (delivered_ids(before) + delivered_ids(
                after.drop_last(),
            )).push(after.last().0));
        } else {
            assert(delivered_ids(before) + delivered_ids(after) =~= delivered_ids(before) + delivered_ids(
                after.drop_last(),
            ));
        }
    }
}

/// Payment states of an order as the payment service knows them.
#[derive(Clone, Copy, Debug, PartialEq, Eq, Structural)]
pub enum PaymentState {
    /// Order created and maybe paid by customer
    Initial,
    /// Store manager declined the order
    Declined,
    /// Store manager confirmed the order, money was captured
    Captured,
    /// Need money refund to customer
    RefundNeeded,
    /// Money was refunded to customer
    Refunded,
    /// Money was paid to seller
    PaidToSeller,
    /// Need money payment to seller
    PaymentToSellerNeeded,
}

/// A change of an order's payment state.
#[derive(Clone, Copy, Debug, PartialEq, Eq, Structural)]
pub struct OrderPaymentStateRequest {
    pub state: PaymentState,
}

/// What the payment service is told of a completed order: the seller must
/// be paid.
pub fn completed_order_payment_request() -> (r: OrderPaymentStateRequest)
    ensures
        r.state == PaymentState::PaymentToSellerNeeded,
{
    OrderPaymentStateRequest { state: PaymentState::PaymentToSellerNeeded }
}

/// The address of the payment state of an order at the payment service
/// `base`: `<base>/orders/<order id>/set_payment_state`.
pub fn payment_state_url(base: &str, order_id: OrderId) -> (r: String)
    ensures
        r@ == base@ + "/"@ + "orders/"@ + uuid_text(order_id.0) + "/set_payment_state"@,
{
    let id = format_uuid(order_id.0);
    let mut r = String::from_str(base);
    r.append("/");
    r.append("orders/");
    r.append(id.as_str());
    r.append("/set_payment_state");
    r
}

/// Nanoseconds in a day.
pub open spec fn day_nanos() -> int {
    86_400_000_000_000
}

/// Midnight (UTC) at the start of the day before the one that holds `now`.
pub open spec fn start_of_previous_day(now: int) -> int {
    (now / day_nanos()) * day_nanos() - day_nanos()
}

/// The points in time that `chrono` can hold in nanoseconds since the
/// Unix epoch, as `i64`.
pub open spec fn is_chrono_nanos(t: int) -> bool {
    i64::MIN <= t <= i64::MAX
}

/// Midnight (UTC) at the start of the day before the one that holds `now`:
/// where a report's period begins.
pub fn previous_day_start(now: i128) -> (r: i128)
    requires
        is_chrono_nanos(now as int),
    ensures
        r == start_of_previous_day(now as int),
{
    let day: i128 = 86_400_000_000_000;
    let shift: i128 = 106_752;
    let shifted: i128 = now + shift * day;
    assert(shifted >= 0);
    let q: i128 = shifted / day;
    assert(q - shift == (now as int) / day_nanos()) by (nonlinear_arith)
        requires
            shifted == now + shift * day,
            shifted >= 0,
            q == shifted / day,
            day == 86_400_000_000_000,
            day_nanos() == day,
    ;
    assert(-106_753 <= (now as int) / day_nanos() <= 106_752) by (nonlinear_arith)
        requires
            i64::MIN <= now <= i64::MAX,
            day_nanos() == 86_400_000_000_000,
    ;
    (q - shift) * day - day
}

/// A report's period starts at a midnight, more than one and at most two
/// days before the report.
pub proof fn law_report_period_starts_at_previous_midnight(now: int)
    ensures
        start_of_previous_day(now) % day_nanos() == 0,
        now - 2 * day_nanos() < start_of_previous_day(now) <= now - day_nanos(),
{
    let d = day_nanos();
    let q = now / d;
    assert(q * d <= now < q * d + d) by (nonlinear_arith)
        requires
            d > 0,
            q == now / d,
    ;
    assert((q * d - d) % d == 0) by (nonlinear_arith)
        requires
            d > 0,
    ;
}

/// How `chrono` writes a point in time (UTC) with a format, such as `%FT%T`
/// for `2018-11-02T07:14:48`.
pub uninterp spec fn time_text(nanos: i128, format: Seq<char>) -> Seq<char>;

/// The format of the points in time in report names.
pub open spec fn report_time_format() -> Seq<char> {
    "%FT%T"@
}

/// Writes a point in time with `chrono`: `DateTime::<Utc>::from_timestamp_nanos`
/// written with `format`. Trusted: the result is the named text `time_text`
/// of the point in time and the format. Only the report format is admitted,
/// since `chrono` panics when asked to write a format it refuses.
#[verifier::external_body]
fn format_time(nanos: i128, format: &str) -> (r: String)
    requires
        is_chrono_nanos(nanos as int),
        format@ == report_time_format(),
    ensures
        r@ == time_text(nanos, format@),
{
    chrono::DateTime::from_timestamp_nanos(nanos as i64).format(format).to_string()
}

/// The file name of a report of the orders that reached `state` since the
/// start of the previous day: `<state>_orders_<start>_-_<now>.csv`.
pub fn report_file_name(state: &str, now: i128) -> (r: String)
    requires
        is_chrono_nanos(now as int),
        is_chrono_nanos(start_of_previous_day(now as int)),
    ensures
        r@ == state@ + "_orders_"@ + time_text(start_of_previous_day(now as int) as i128, report_time_format()) + "_-_"@
            + time_text(now, report_time_format()) + ".csv"@,
{
    let start = previous_day_start(now);
    let format = "%FT%T";
    let from = format_time(start, format);
    let to = format_time(now, format);
    let mut r = String::from_str(state);
    r.append("_orders_");
    r.append(from.as_str());
    r.append("_-_");
    r.append(to.as_str());
    r.append(".csv");
    r
}

/// The title of a report of the orders that reached `state` since the start
/// of the previous day: `<state> orders <start> - <now>`.
pub fn report_name(state: &str, now: i128) -> (r: String)
    requires
        is_chrono_nanos(now as int),
        is_chrono_nanos(start_of_previous_day(now as int)),
    ensures
        r@ == state@ + " orders "@ + time_text(start_of_previous_day(now as int) as i128, report_time_format()) + " - "@
            + time_text(now, report_time_format()),
{
    let start = previous_day_start(now);
    let format = "%FT%T";
    let from = format_time(start, format);
    let to = format_time(now, format);
    let mut r = String::from_str(state);
    r.append(" orders ");
    r.append(from.as_str());
    r.append(" - ");
    r.append(to.as_str());
    r
}

/// A report is uploaded only when some order is in it.
pub fn report_needed<T>(orders: &Vec<T>) -> (r: bool)
    ensures
        r == (orders@.len() > 0),
{
    orders.len() > 0
}

/// The caller that the background jobs act as: user 1, a superadmin (the
/// role entry under a new random id).
pub fn super_user() -> (r: UserLogin)
    ensures
        r matches UserLogin::User { caller_id, caller_roles } && caller_id == UserId(1) && caller_roles@.len() == 1
            && caller_roles@[0].user_id == UserId(1) && caller_roles@[0].role == UserRole::Superadmin,
{
    let mut roles: Vec<RoleEntry> = Vec::new();
    roles.push(RoleEntry { id: RoleEntryId(new_uuid()), user_id: UserId(1), role: UserRole::Superadmin });
    UserLogin::User { caller_id: UserId(1), caller_roles: roles }
}

} // verus!
