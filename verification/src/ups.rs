//! The delivery tracking requests to UPS and what their answers say.

use vstd::prelude::*;

verus! {

#[derive(Debug)]
#[allow(non_snake_case)]
pub struct ResponseStatus {
    pub Code: String,
    pub Description: String,
}

#[derive(Debug)]
#[allow(non_snake_case)]
pub struct TransactionReference {
    pub CustomerContext: String,
}

#[derive(Debug)]
#[allow(non_snake_case)]
pub struct Response {
    pub ResponseStatus: ResponseStatus,
    pub TransactionReference: TransactionReference,
}

#[derive(Debug)]
#[allow(non_snake_case)]
pub struct Status {
    pub Type: Option<String>,
    pub Description: String,
    pub Code: String,
}

#[derive(Debug)]
#[allow(non_snake_case)]
pub struct Activity {
    pub Status: Option<Status>,
}

/// The activity field of a package: a list of activities, a single one,
/// a JSON value that does not read as activities, or another JSON value.
#[derive(Debug)]
pub enum PackageActivity {
    List(Vec<Activity>),
    Single(Activity),
    Unreadable,
    Other,
}

#[derive(Debug)]
#[allow(non_snake_case)]
pub struct Package {
    pub Activity: Option<PackageActivity>,
}

#[derive(Debug)]
#[allow(non_snake_case)]
pub struct Shipment {
    pub Package: Option<Package>,
}

#[derive(Debug)]
#[allow(non_snake_case)]
pub struct TrackResponse {
    pub Response: Response,
    pub Shipment: Shipment,
    pub Disclaimer: Option<String>,
}

#[derive(Debug)]
#[allow(non_snake_case)]
pub struct ErrorCode {
    pub Code: String,
    pub Description: String,
}

#[derive(Debug)]
#[allow(non_snake_case)]
pub struct Location {
    pub LocationElementName: String,
    pub XPathOfElement: String,
    pub OriginalValue: String,
}

#[derive(Debug)]
#[allow(non_snake_case)]
pub struct ErrorDetail {
    pub Severity: String,
    pub PrimaryErrorCode: ErrorCode,
    pub Location: Option<Location>,
    pub SubErrorCode: Option<ErrorCode>,
}

#[derive(Debug)]
#[allow(non_snake_case)]
pub struct Errors {
    pub ErrorDetail: ErrorDetail,
}

#[derive(Debug)]
#[allow(non_snake_case)]
pub struct FaultDetail {
    pub Errors: Errors,
}

#[derive(Debug)]
pub struct Fault {
    pub faultcode: String,
    pub faultstring: String,
    pub detail: FaultDetail,
}

#[derive(Debug)]
#[allow(non_snake_case)]
pub struct UpsResponse {
    pub Fault: Option<Fault>,
    pub TrackResponse: Option<TrackResponse>,
}

#[derive(Debug)]
#[allow(non_snake_case)]
pub struct ServiceAccessToken {
    pub AccessLicenseNumber: String,
}

#[derive(Debug)]
#[allow(non_snake_case)]
pub struct UPSSecurity {
    pub ServiceAccessToken: ServiceAccessToken,
}

#[derive(Debug)]
#[allow(non_snake_case)]
pub struct Request {
    pub RequestOption: String,
    pub TransactionReference: TransactionReference,
}

#[derive(Debug)]
#[allow(non_snake_case)]
pub struct TrackRequest {
    pub Request: Request,
    pub InquiryNumber: String,
}

#[derive(Debug)]
#[allow(non_snake_case)]
pub struct UpsRequest {
    pub UPSSecurity: UPSSecurity,
    pub TrackRequest: TrackRequest,
}

/// Whether a package has been delivered.
#[derive(Clone, Copy, Debug, PartialEq, Eq, Structural)]
pub enum DeliveryState {
    NotDelivered,
    Delivered,
}

/// Why a tracking answer could not be read.
#[derive(Debug)]
pub enum TrackingError {
    /// UPS answered with a fault.
    Fault(Fault),
    /// The activities of the package did not read.
    UnreadableActivity,
}

/// Whether an activity's status type is `D`, the delivered state.
pub open spec fn is_delivered_activity(a: Activity) -> bool {
    a.Status matches Some(s) && s.Type matches Some(t) && t@ == "D"@
}

/// Delivered when some activity is in the delivered state.
pub open spec fn spec_from_activities(activities: Seq<Activity>) -> DeliveryState {
    if exists|i: int| 0 <= i < activities.len() && is_delivered_activity(#[trigger] activities[i]) {
        DeliveryState::Delivered
    } else {
        DeliveryState::NotDelivered
    }
}

/// A package is delivered exactly when some activity, at any position of
/// the list (newest first or not), has the status type `D`: adding an
/// activity in the delivered state anywhere makes the list delivered, and a
/// list without one is not delivered.
pub proof fn law_delivered_when_any_activity_is(activities: Seq<Activity>, k: int)
    ensures
        0 <= k < activities.len() && (activities[k].Status matches Some(s) && s.Type matches Some(t) && t@ == "D"@)
            ==> spec_from_activities(activities) == DeliveryState::Delivered,
        (forall|i: int|
            0 <= i < activities.len() ==> !((#[trigger] activities[i]).Status matches Some(s) && s.Type matches Some(t)
                && t@ == "D"@)) ==> spec_from_activities(activities) == DeliveryState::NotDelivered,
{
    if 0 <= k < activities.len() && (activities[k].Status matches Some(s) && s.Type matches Some(t) && t@ == "D"@) {
        assert(is_delivered_activity(activities[k]));
    }
}

/// The order of the activities does not matter: a list and the same list
/// with one more activity at its front or at its end are delivered alike,
/// where the added activity is not a delivered one.
pub proof fn law_delivery_ignores_position(activities: Seq<Activity>, a: Activity)
    requires
        !(a.Status matches Some(s) && s.Type matches Some(t) && t@ == "D"@),
    ensures
        spec_from_activities(seq![a] + activities) == spec_from_activities(activities),
        spec_from_activities(activities.push(a)) == spec_from_activities(activities),
{
    let front = seq![a] + activities;
    let back = activities.push(a);
    if exists|i: int| 0 <= i < activities.len() && is_delivered_activity(#[trigger] activities[i]) {
        let i = choose|i: int| 0 <= i < activities.len() && is_delivered_activity(#[trigger] activities[i]);
        assert(front[i + 1] == activities[i]);
        assert(back[i] == activities[i]);
    }
    if exists|i: int| 0 <= i < front.len() && is_delivered_activity(#[trigger] front[i]) {
        let i = choose|i: int| 0 <= i < front.len() && is_delivered_activity(#[trigger] front[i]);
        assert(i > 0);
        assert(activities[i - 1] == front[i]);
    }
    if exists|i: int| 0 <= i < back.len() && is_delivered_activity(#[trigger] back[i]) {
        let i = choose|i: int| 0 <= i < back.len() && is_delivered_activity(#[trigger] back[i]);
        assert(i < activities.len());
        assert(activities[i] == back[i]);
    }
}

fn activity_delivered(a: &Activity) -> (r: bool)
    ensures
        r == is_delivered_activity(*a),
{
    match &a.Status {
        Some(s) => match &s.Type {
            Some(t) => crate::text::str_eq(t.as_str(), "D"),
            None => false,
        },
        None => false,
    }
}

impl DeliveryState {
    /// The delivery state that a list of activities shows: delivered when an
    /// activity anywhere in the list has the status type `D`.
    pub fn from_activities(activities: &[Activity]) -> (r: DeliveryState)
        ensures
            r == spec_from_activities(activities@),
            forall|k: int|
                0 <= k < activities@.len() && ((#[trigger] activities@[k]).Status matches Some(s) && s.Type matches Some(
                    t,
                ) && t@ == "D"@) ==> r == DeliveryState::Delivered,
            r == DeliveryState::Delivered ==> exists|k: int|
                0 <= k < activities@.len() && ((#[trigger] activities@[k]).Status matches Some(s) && s.Type matches Some(
                    t,
                ) && t@ == "D"@),
    {
        let n = activities.len();
        let mut i: usize = 0;
        while i < n
            invariant
                n == activities@.len(),
                i <= n,
                forall|j: int| 0 <= j < i ==> !is_delivered_activity(#[trigger] activities@[j]),
            decreases n - i,
        {
            if activity_delivered(&activities[i]) {
                return DeliveryState::Delivered;
            }
            i = i + 1;
        }
        DeliveryState::NotDelivered
    }

    /// Reads a tracking answer: a fault is an error; a package's activities,
    /// listed or single, give the state; an answer without activities means
    /// not delivered.
    pub fn try_from_response(response: UpsResponse) -> (r: Result<DeliveryState, TrackingError>)
        ensures
            match response.Fault {
                Some(f) => r == Err::<DeliveryState, TrackingError>(TrackingError::Fault(f)),
                None => match response.TrackResponse {
                    Some(t) => match t.Shipment.Package {
                        Some(p) => match p.Activity {
                            Some(PackageActivity::List(v)) => r == Ok::<DeliveryState, TrackingError>(spec_from_activities(v@)),
                            Some(PackageActivity::Single(a)) => r == Ok::<DeliveryState, TrackingError>(spec_from_activities(seq![a])),
                            Some(PackageActivity::Unreadable) => r == Err::<DeliveryState, TrackingError>(TrackingError::UnreadableActivity),
                            _ => r == Ok::<DeliveryState, TrackingError>(DeliveryState::NotDelivered),
                        },
                        None => r == Ok::<DeliveryState, TrackingError>(DeliveryState::NotDelivered),
                    },
                    None => r == Ok::<DeliveryState, TrackingError>(DeliveryState::NotDelivered),
                },
            },
    {
        if let Some(fault) = response.Fault {
            return Err(TrackingError::Fault(fault));
        }
        match response.TrackResponse {
            Some(t) => match t.Shipment.Package {
                Some(p) => match p.Activity {
                    Some(PackageActivity::List(v)) => Ok(Self::from_activities(v.as_slice())),
                    Some(PackageActivity::Single(a)) => {
                        let v = vec![a];
                        assert(v@ =~= seq![a]);
                        Ok(Self::from_activities(v.as_slice()))
                    },
                    Some(PackageActivity::Unreadable) => Err(TrackingError::UnreadableActivity),
                    _ => Ok(DeliveryState::NotDelivered),
                },
                None => Ok(DeliveryState::NotDelivered),
            },
            None => Ok(DeliveryState::NotDelivered),
        }
    }

    /// How the state reads in messages.
    pub fn name(&self) -> (r: &'static str)
        ensures
            r@ == (match *self {
                DeliveryState::NotDelivered => "not delivered"@,
                DeliveryState::Delivered => "delivered"@,
            }),
    {
        match self {
            DeliveryState::NotDelivered => "not delivered",
            DeliveryState::Delivered => "delivered",
        }
    }
}

/// The tracking request for one package.
pub fn tracking_request(access_license_number: String, track_id: String) -> (r: UpsRequest)
    ensures
        r.UPSSecurity.ServiceAccessToken.AccessLicenseNumber == access_license_number,
        r.TrackRequest.InquiryNumber == track_id,
        r.TrackRequest.Request.RequestOption@ == "1"@,
        r.TrackRequest.Request.TransactionReference.CustomerContext@ == "Storiqa"@,
{
    UpsRequest {
        UPSSecurity: UPSSecurity { ServiceAccessToken: ServiceAccessToken { AccessLicenseNumber: access_license_number } },
        TrackRequest: TrackRequest {
            Request: Request {
                RequestOption: String::from_str("1"),
                TransactionReference: TransactionReference { CustomerContext: String::from_str("Storiqa") },
            },
            InquiryNumber: track_id,
        },
    }
}

} // verus!
