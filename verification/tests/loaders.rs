use orders_lib::config::{DeliveredOrders, PaidDeliveredReports, SentOrders};
use orders_lib::loaders::{
    completed_order_payment_request, delivered_orders_interval, delivered_state_tracking_interval, delivery_state_days,
    loader_tick, newly_delivered, paid_delivered_report_interval, payment_state_url, previous_day_start, report_file_name,
    report_name, report_needed, sent_state_tracking_interval, super_user, tracked_orders, ups_credentials, PaymentState,
    TickAction, job_step, report_states, JobEvent,
};
use orders_lib::order::Order;
use orders_lib::types::{
    CartItemId, ConversionId, OrderId, OrderSlug, OrderState, ProductId, Quantity, StoreId, UserId, UserLogin, UserRole,
};
use orders_lib::ups::{
    tracking_request, Activity, DeliveryState, Fault, FaultDetail, ErrorCode, ErrorDetail, Errors, Package,
    PackageActivity, Response, ResponseStatus, Shipment, Status, TrackResponse, TrackingError, TransactionReference,
    UpsResponse,
};

fn sent_order(id: u128, track_id: Option<&str>) -> Order {
    Order {
        id: OrderId(id),
        created_from: CartItemId(1),
        conversion_id: ConversionId(1),
        slug: OrderSlug(1),
        customer: UserId(1),
        store: StoreId(1),
        product: ProductId(1),
        quantity: Quantity(1),
        receiver_name: String::new(),
        receiver_phone: String::new(),
        receiver_email: String::new(),
        state: OrderState::Sent,
        payment_status: true,
        delivery_company: Some("UPS".to_string()),
        track_id: track_id.map(|t| t.to_string()),
        pre_order: false,
        pre_order_days: 0,
        coupon_id: None,
        coupon_percent: None,
        created_at: 0,
        updated_at: 0,
    }
}

fn activity(kind: Option<&str>) -> Activity {
    Activity {
        Status: Some(Status {
            Type: kind.map(|k| k.to_string()),
            Description: "x".to_string(),
            Code: "y".to_string(),
        }),
    }
}

fn answer(package: Option<PackageActivity>) -> UpsResponse {
    UpsResponse {
        Fault: None,
        TrackResponse: Some(TrackResponse {
            Response: Response {
                ResponseStatus: ResponseStatus { Code: "1".to_string(), Description: "Success".to_string() },
                TransactionReference: TransactionReference { CustomerContext: "Storiqa".to_string() },
            },
            Shipment: Shipment { Package: Some(Package { Activity: package }) },
            Disclaimer: None,
        }),
    }
}

#[test]
fn job_intervals_and_defaults() {
    assert_eq!(delivered_orders_interval(None), 86400);
    assert_eq!(delivery_state_days(None), 1);
    assert_eq!(delivered_state_tracking_interval(None), 3600);
    assert_eq!(sent_state_tracking_interval(None), 3600);
    assert_eq!(paid_delivered_report_interval(None), 3600);
    let d = DeliveredOrders { interval_s: 60, delivery_state_duration_days: 14, saga_url: "http://saga".to_string() };
    assert_eq!(delivered_orders_interval(Some(&d)), 60);
    assert_eq!(delivery_state_days(Some(&d)), 14);
    assert_eq!(delivered_state_tracking_interval(Some(&d)), 60);
    let s = SentOrders {
        interval_s: 120,
        ups_api_access_license_number: "KEY".to_string(),
        ups_api_url: "https://ups".to_string(),
        sent_state_duration_days: 30,
    };
    assert_eq!(sent_state_tracking_interval(Some(&s)), 120);
    assert_eq!(ups_credentials(Some(&s)), ("KEY".to_string(), "https://ups".to_string()));
    assert_eq!(ups_credentials(None), (String::new(), String::new()));
    assert_eq!(paid_delivered_report_interval(Some(&PaidDeliveredReports { interval_s: 7 })), 7);
}

#[test]
fn ticks_run_one_step_at_a_time() {
    assert_eq!(loader_tick(false, false), TickAction::Disabled);
    assert_eq!(loader_tick(false, true), TickAction::Disabled);
    assert_eq!(loader_tick(true, true), TickAction::Skip);
    assert_eq!(loader_tick(true, false), TickAction::Step);
    // A step makes the job busy; its end frees the job whatever failed.
    assert_eq!(job_step(true, false, JobEvent::Tick), (true, Some(TickAction::Step)));
    assert_eq!(job_step(true, true, JobEvent::Tick), (true, Some(TickAction::Skip)));
    assert_eq!(job_step(true, true, JobEvent::StepEnded { failures: 2 }), (false, None));
    assert_eq!(job_step(false, false, JobEvent::Tick), (false, Some(TickAction::Disabled)));
    assert_eq!(report_states(), vec![OrderState::Paid, OrderState::Delivered]);
}

#[test]
fn tracking_uses_orders_with_track_ids() {
    let orders = vec![sent_order(1, Some("1Z1")), sent_order(2, None), sent_order(3, Some("1Z3"))];
    let with_ids = tracked_orders(orders);
    assert_eq!(with_ids, vec![(OrderId(1), "1Z1".to_string()), (OrderId(3), "1Z3".to_string())]);
    let states = vec![
        (OrderId(1), Some(DeliveryState::Delivered)),
        (OrderId(3), Some(DeliveryState::NotDelivered)),
        (OrderId(5), None),
        (OrderId(4), Some(DeliveryState::Delivered)),
    ];
    // The failed reading of order 5 stops neither order 1 nor order 4.
    assert_eq!(newly_delivered(&states), vec![OrderId(1), OrderId(4)]);

    let r = tracking_request("KEY".to_string(), "1Z1".to_string());
    assert_eq!(r.UPSSecurity.ServiceAccessToken.AccessLicenseNumber, "KEY");
    assert_eq!(r.TrackRequest.InquiryNumber, "1Z1");
    assert_eq!(r.TrackRequest.Request.RequestOption, "1");
    assert_eq!(r.TrackRequest.Request.TransactionReference.CustomerContext, "Storiqa");
}

#[test]
fn delivery_state_from_ups_answers() {
    assert_eq!(DeliveryState::from_activities(&[]), DeliveryState::NotDelivered);
    assert_eq!(DeliveryState::from_activities(&[activity(Some("I")), activity(Some("D"))]), DeliveryState::Delivered);
    assert_eq!(DeliveryState::from_activities(&[activity(None), activity(Some("X"))]), DeliveryState::NotDelivered);
    assert_eq!(DeliveryState::from_activities(&[Activity { Status: None }]), DeliveryState::NotDelivered);

    let list = answer(Some(PackageActivity::List(vec![activity(Some("I")), activity(Some("D"))])));
    assert_eq!(DeliveryState::try_from_response(list).ok(), Some(DeliveryState::Delivered));
    let single = answer(Some(PackageActivity::Single(activity(Some("D")))));
    assert_eq!(DeliveryState::try_from_response(single).ok(), Some(DeliveryState::Delivered));
    let none = answer(None);
    assert_eq!(DeliveryState::try_from_response(none).ok(), Some(DeliveryState::NotDelivered));
    let other = answer(Some(PackageActivity::Other));
    assert_eq!(DeliveryState::try_from_response(other).ok(), Some(DeliveryState::NotDelivered));
    let unreadable = answer(Some(PackageActivity::Unreadable));
    assert!(matches!(DeliveryState::try_from_response(unreadable), Err(TrackingError::UnreadableActivity)));
    let empty = UpsResponse { Fault: None, TrackResponse: None };
    assert_eq!(DeliveryState::try_from_response(empty).ok(), Some(DeliveryState::NotDelivered));

    let fault = UpsResponse {
        Fault: Some(Fault {
            faultcode: "Client".to_string(),
            faultstring: "An exception has been raised as a result of client data.".to_string(),
            detail: FaultDetail {
                Errors: Errors {
                    ErrorDetail: ErrorDetail {
                        Severity: "Hard".to_string(),
                        PrimaryErrorCode: ErrorCode { Code: "151018".to_string(), Description: "Invalid tracking number".to_string() },
                        Location: None,
                        SubErrorCode: None,
                    },
                },
            },
        }),
        TrackResponse: None,
    };
    match DeliveryState::try_from_response(fault) {
        Err(TrackingError::Fault(f)) => assert_eq!(f.detail.Errors.ErrorDetail.PrimaryErrorCode.Code, "151018"),
        _ => panic!("a fault is an error"),
    }
    assert_eq!(DeliveryState::Delivered.name(), "delivered");
    assert_eq!(DeliveryState::NotDelivered.name(), "not delivered");
}

#[test]
fn payment_service_requests() {
    assert_eq!(completed_order_payment_request().state, PaymentState::PaymentToSellerNeeded);
    assert_eq!(
        payment_state_url("http://saga", OrderId(0x67e5504410b1426f9247bb680e5fe0c8)),
        "http://saga/orders/67e55044-10b1-426f-9247-bb680e5fe0c8/set_payment_state"
    );
}

#[test]
fn report_names() {
    let now: i128 = 1541142888 * 1_000_000_000 + 123;
    assert_eq!(report_file_name("paid", now), "paid_orders_2018-11-01T00:00:00_-_2018-11-02T07:14:48.csv");
    assert_eq!(report_name("delivered", now), "delivered orders 2018-11-01T00:00:00 - 2018-11-02T07:14:48");
    let day: i128 = 86_400_000_000_000;
    assert_eq!(previous_day_start(now), (now / day - 1) * day);
    assert_eq!(previous_day_start(0), -day);
    assert_eq!(previous_day_start(-1), -2 * day);
    assert_eq!(previous_day_start(day - 1), -day);
    assert_eq!(previous_day_start(day), 0);
    assert!(report_needed(&vec![1]));
    assert!(!report_needed::<i32>(&vec![]));
}

#[test]
fn jobs_act_as_a_superadmin() {
    match super_user() {
        UserLogin::User { caller_id, caller_roles } => {
            assert_eq!(caller_id, UserId(1));
            assert_eq!(caller_roles.len(), 1);
            assert_eq!(caller_roles[0].role, UserRole::Superadmin);
            assert_eq!(caller_roles[0].user_id, UserId(1));
        }
        UserLogin::Anonymous => panic!("the jobs act as a user"),
    }
}
