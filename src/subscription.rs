//! The subscription payload: a fixed yearly plan for the subscriber, with
//! placeholder holder details.

use vstd::prelude::*;
use vstd::string::StringExecFns;
use crate::ids::{generate_reference_id, is_token, reference_id_of};
use crate::urls::{failure_url_of, payment_failure_url, payment_success_url, success_url_of};

verus! {

/// What the subscription form submits.
pub struct SubscriptionRequest {
    pub name: String,
    /// Amount per period in minor currency units.
    pub amount: u64,
    pub period: i32,
    pub payment_date: i32,
    pub card_id: Option<String>,
    pub subscriber_email: String,
    pub subscriber_phone: String,
}

pub struct PlanUser {
    pub id: String,
    pub first_name: String,
    pub last_name: String,
    pub email: String,
    pub phone: String,
    pub address: String,
    pub city: String,
    pub country: String,
    pub zip_code: String,
    pub identity_number: String,
}

pub struct PlanBilling {
    pub contact_name: String,
    pub country: String,
    pub city: String,
    pub address: String,
    pub zip_code: String,
    pub vat_number: String,
}

/// The subscription payload in the shape the gateway expects.
pub struct SubscriptionPlan {
    pub title: String,
    pub amount: u64,
    pub currency: String,
    pub period: i32,
    pub payment_date: i32,
    pub cycle: i32,
    pub success_url: String,
    pub failure_url: String,
    pub user: PlanUser,
    pub billing: PlanBilling,
}

pub open spec fn is_plan_user_for(u: PlanUser, req: SubscriptionRequest, user_id: Seq<char>) -> bool {
    &&& u.id@ == user_id
    &&& u.first_name@ == "John"@
    &&& u.last_name@ == "Doe"@
    &&& u.email@ == req.subscriber_email@
    &&& u.phone@ == req.subscriber_phone@
    &&& u.address@ == "Mock Address"@
    &&& u.city@ == "Istanbul"@
    &&& u.country@ == "Turkey"@
    &&& u.zip_code@ == "34000"@
    &&& u.identity_number@ == "11111111111"@
}

pub open spec fn is_plan_billing(b: PlanBilling) -> bool {
    &&& b.contact_name@ == "John Doe"@
    &&& b.country@ == "Turkey"@
    &&& b.city@ == "Istanbul"@
    &&& b.address@ == "Mock Billing Address"@
    &&& b.zip_code@ == "34000"@
    &&& b.vat_number@ == "11111111111"@
}

/// The plan for a request: twelve cycles in TRY, a payment day of at least
/// one, callbacks to the request's origin.
pub open spec fn is_plan_for(
    p: SubscriptionPlan,
    req: SubscriptionRequest,
    base: Seq<char>,
    user_id: Seq<char>,
) -> bool {
    &&& p.title@ == req.name@
    &&& p.amount == req.amount
    &&& p.currency@ == "TRY"@
    &&& p.period == req.period
    &&& p.payment_date == (if req.payment_date < 1 {
        1
    } else {
        req.payment_date
    })
    &&& p.cycle == 12
    &&& p.success_url@ == success_url_of(base)
    &&& p.failure_url@ == failure_url_of(base)
    &&& is_plan_user_for(p.user, req, user_id)
    &&& is_plan_billing(p.billing)
}

/// The plan for a request, with the subscriber's user id given.
pub fn subscription_plan_with_user_id(req: &SubscriptionRequest, base_url: &str, user_id: &str) -> (r:
    SubscriptionPlan)
    ensures
        is_plan_for(r, *req, base_url@, user_id@),
{
    let payment_date = if req.payment_date < 1 {
        1
    } else {
        req.payment_date
    };
    SubscriptionPlan {
        title: req.name.clone(),
        amount: req.amount,
        currency: String::from_str("TRY"),
        period: req.period,
        payment_date,
        cycle: 12,
        success_url: payment_success_url(base_url),
        failure_url: payment_failure_url(base_url),
        user: PlanUser {
            id: String::from_str(user_id),
            first_name: String::from_str("John"),
            last_name: String::from_str("Doe"),
            email: req.subscriber_email.clone(),
            phone: req.subscriber_phone.clone(),
            address: String::from_str("Mock Address"),
            city: String::from_str("Istanbul"),
            country: String::from_str("Turkey"),
            zip_code: String::from_str("34000"),
            identity_number: String::from_str("11111111111"),
        },
        billing: PlanBilling {
            contact_name: String::from_str("John Doe"),
            country: String::from_str("Turkey"),
            city: String::from_str("Istanbul"),
            address: String::from_str("Mock Billing Address"),
            zip_code: String::from_str("34000"),
            vat_number: String::from_str("11111111111"),
        },
    }
}

/// The plan for a request; the subscriber gets a fresh `SUB_USER_` id.
pub fn subscription_plan(req: &SubscriptionRequest, base_url: &str) -> (r: SubscriptionPlan)
    ensures
        exists|t: Seq<char>|
            is_token(t) && #[trigger] is_plan_for(r, *req, base_url@, reference_id_of("SUB_USER"@, t)),
{
    let user_id = generate_reference_id("SUB_USER");
    let r = subscription_plan_with_user_id(req, base_url, user_id.as_str());
    let ghost t = choose|t: Seq<char>| is_token(t) && user_id@ == reference_id_of("SUB_USER"@, t);
    assert(is_plan_for(r, *req, base_url@, reference_id_of("SUB_USER"@, t)));
    r
}

} // verus!
