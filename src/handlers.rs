//! The decisions the HTTP handlers make around gateway calls: which checkout
//! link to hand back, what an outcome says, what a result page shows and
//! which page of a listing is asked for.

use vstd::prelude::*;
use vstd::string::StringExecFns;
use crate::text::{parse_u32, u32_of_text};

verus! {

/// What to do for the checkout link once the gateway answered.
pub enum CheckoutLink {
    /// The gateway's answer carried the link.
    Ready(String),
    /// Ask the gateway for the link of this reference id.
    Fetch(String),
    /// Nothing to link to.
    Missing,
}

/// The link carried by the answer wins; else the reference id, when there is
/// one, is used to ask for it.
pub fn checkout_link_step(checkout_url: &Option<String>, reference_id: &Option<String>) -> (r:
    CheckoutLink)
    ensures
        r == (match (*checkout_url, *reference_id) {
            (Some(u), _) => CheckoutLink::Ready(u),
            (None, Some(id)) => CheckoutLink::Fetch(id),
            (None, None) => CheckoutLink::Missing,
        }),
{
    match checkout_url {
        Some(u) => CheckoutLink::Ready(u.clone()),
        None => match reference_id {
            Some(id) => CheckoutLink::Fetch(id.clone()),
            None => CheckoutLink::Missing,
        },
    }
}

/// The answer of the order and subscription endpoints.
pub struct Outcome {
    pub success: bool,
    pub checkout_url: Option<String>,
    pub error: Option<String>,
    pub reference_id: Option<String>,
}

/// A successful outcome with the link and reference id found.
pub fn success_outcome(checkout_url: Option<String>, reference_id: Option<String>) -> (r: Outcome)
    ensures
        r == (Outcome { success: true, checkout_url, error: None, reference_id }),
{
    Outcome { success: true, checkout_url, error: None, reference_id }
}

pub open spec fn is_failure_with(o: Outcome, message: Seq<char>) -> bool {
    &&& !o.success
    &&& o.checkout_url.is_none()
    &&& o.reference_id.is_none()
    &&& o.error matches Some(e) && e@ == message
}

/// A failed order: `Failed to create order: {message}`.
pub fn order_failure(message: &str) -> (r: Outcome)
    ensures
        is_failure_with(r, "Failed to create order: "@ + message@),
{
    let mut e = String::from_str("Failed to create order: ");
    e.append(message);
    Outcome { success: false, checkout_url: None, error: Some(e), reference_id: None }
}

/// A failed subscription: `Failed to create subscription: {message}`.
pub fn subscription_failure(message: &str) -> (r: Outcome)
    ensures
        is_failure_with(r, "Failed to create subscription: "@ + message@),
{
    let mut e = String::from_str("Failed to create subscription: ");
    e.append(message);
    Outcome { success: false, checkout_url: None, error: Some(e), reference_id: None }
}

/// The query of the page the gateway sends the payer back to.
pub struct PaymentResult {
    pub reference_id: Option<String>,
    pub conversation_id: Option<String>,
    pub status: Option<String>,
    pub error_message: Option<String>,
}

pub open spec fn pairs_view(v: Seq<(String, String)>) -> Seq<(Seq<char>, Seq<char>)> {
    v.map_values(|p: (String, String)| (p.0@, p.1@))
}

/// The named value, when present, as a one-element list.
pub open spec fn field_if(name: Seq<char>, v: Option<String>) -> Seq<(Seq<char>, Seq<char>)> {
    match v {
        Some(s) => seq![(name, s@)],
        None => seq![],
    }
}

pub open spec fn success_fields(p: PaymentResult) -> Seq<(Seq<char>, Seq<char>)> {
    field_if("ReferenceID"@, p.reference_id) + field_if("ConversationID"@, p.conversation_id)
}

pub open spec fn failure_fields(p: PaymentResult) -> Seq<(Seq<char>, Seq<char>)> {
    success_fields(p) + field_if("ErrorMessage"@, p.error_message)
}

fn push_field(fields: &mut Vec<(String, String)>, name: &str, v: &Option<String>)
    ensures
        pairs_view(final(fields)@) == pairs_view(old(fields)@) + field_if(name@, *v),
{
    let ghost before = fields@;
    if let Some(s) = v {
        fields.push((String::from_str(name), s.clone()));
        assert(pairs_view(fields@) =~= pairs_view(before) + field_if(name@, *v));
    } else {
        assert(pairs_view(fields@) =~= pairs_view(before) + field_if(name@, *v));
    }
}

/// The values shown on the success page: the reference and conversation ids
/// that came back, in that order.
pub fn success_page_fields(p: &PaymentResult) -> (r: Vec<(String, String)>)
    ensures
        pairs_view(r@) == success_fields(*p),
{
    let mut r: Vec<(String, String)> = Vec::new();
    assert(pairs_view(r@) =~= seq![]);
    push_field(&mut r, "ReferenceID", &p.reference_id);
    push_field(&mut r, "ConversationID", &p.conversation_id);
    assert(pairs_view(r@) =~= success_fields(*p));
    r
}

/// The values shown on the failure page: those of the success page, then the
/// error message.
pub fn failure_page_fields(p: &PaymentResult) -> (r: Vec<(String, String)>)
    ensures
        pairs_view(r@) == failure_fields(*p),
{
    let mut r = success_page_fields(p);
    push_field(&mut r, "ErrorMessage", &p.error_message);
    r
}

/// The value of the first pair with the key.
pub open spec fn first_value(pairs: Seq<(Seq<char>, Seq<char>)>, key: Seq<char>) -> Option<Seq<char>>
    decreases pairs.len(),
{
    if pairs.len() == 0 {
        None
    } else if pairs[0].0 == key {
        Some(pairs[0].1)
    } else {
        first_value(pairs.drop_first(), key)
    }
}

/// The number under the first pair with the key; `default` when the key is
/// absent or its value is not a `u32`.
pub open spec fn number_param(pairs: Seq<(Seq<char>, Seq<char>)>, key: Seq<char>, default: u32) -> u32 {
    match first_value(pairs, key) {
        Some(v) => match u32_of_text(v) {
            Some(n) => n,
            None => default,
        },
        None => default,
    }
}

proof fn lemma_first_value_skip(pairs: Seq<(Seq<char>, Seq<char>)>, key: Seq<char>, i: int)
    requires
        0 <= i <= pairs.len(),
        forall|k: int| 0 <= k < i ==> (#[trigger] pairs[k]).0 != key,
    ensures
        first_value(pairs, key) == first_value(pairs.skip(i), key),
    decreases i,
{
    if i > 0 {
        lemma_first_value_skip(pairs.drop_first(), key, i - 1);
        assert(pairs.drop_first().skip(i - 1) =~= pairs.skip(i));
        assert forall|k: int| 0 <= k < i - 1 implies (#[trigger] pairs.drop_first()[k]).0
            != key by {
            assert(pairs.drop_first()[k] == pairs[k + 1]);
        }
    } else {
        assert(pairs.skip(0) =~= pairs);
    }
}

/// The number under `key` in decoded query pairs, or `default`.
pub fn number_param_or(pairs: &Vec<(String, String)>, key: &str, default: u32) -> (r: u32)
    ensures
        r == number_param(pairs_view(pairs@), key@, default),
{
    let ghost pv = pairs_view(pairs@);
    let k = String::from_str(key);
    let mut i: usize = 0;
    while i < pairs.len()
        invariant
            0 <= i <= pairs.len(),
            pv == pairs_view(pairs@),
            k@ == key@,
            forall|j: int| 0 <= j < i ==> (#[trigger] pv[j]).0 != key@,
        decreases pairs.len() - i,
    {
        if pairs[i].0 == k {
            proof {
                lemma_first_value_skip(pv, key@, i as int);
                assert(pv.skip(i as int)[0] == pv[i as int]);
            }
            return match parse_u32(pairs[i].1.as_str()) {
                Some(n) => n,
                None => default,
            };
        }
        i = i + 1;
    }
    proof {
        lemma_first_value_skip(pv, key@, i as int);
        assert(pv.skip(i as int).len() == 0);
    }
    default
}

/// A page of a listing.
pub struct PageRequest {
    pub page: u32,
    pub per_page: u32,
}

/// `page` and `per_page` from decoded query pairs, by default 1 and 10.
pub fn page_request_from_pairs(pairs: &Vec<(String, String)>) -> (r: PageRequest)
    ensures
        r.page == number_param(pairs_view(pairs@), "page"@, 1),
        r.per_page == number_param(pairs_view(pairs@), "per_page"@, 10),
{
    PageRequest {
        page: number_param_or(pairs, "page", 1),
        per_page: number_param_or(pairs, "per_page", 10),
    }
}

/// Names the pairs that a URL-encoded query string decodes to, or `None`
/// when it does not decode.
pub uninterp spec fn query_pairs(q: Seq<char>) -> Option<Seq<(Seq<char>, Seq<char>)>>;

/// Relies on `actix_web::web::Query::from_query` (serde_urlencoded): the
/// decoded key/value pairs in order, or an error. The result depends on the
/// query string alone.
#[verifier::external_body]
fn decode_query(q: &str) -> (r: Option<Vec<(String, String)>>)
    ensures
        match r {
            Some(v) => query_pairs(q@) == Some(pairs_view(v@)),
            None => query_pairs(q@).is_none(),
        },
{
    actix_web::web::Query::<Vec<(String, String)>>::from_query(q).ok().map(|x| x.into_inner())
}

/// `page` and `per_page` from a raw query string. A query that does not
/// decode counts as empty.
pub fn page_request(query: &str) -> (r: PageRequest)
    ensures
        ({
            let pairs = match query_pairs(query@) {
                Some(p) => p,
                None => seq![],
            };
            r.page == number_param(pairs, "page"@, 1) && r.per_page == number_param(
                pairs,
                "per_page"@,
                10,
            )
        }),
{
    let pairs = match decode_query(query) {
        Some(v) => v,
        None => Vec::new(),
    };
    proof {
        if query_pairs(query@).is_none() {
            assert(pairs_view(pairs@) =~= seq![]);
        }
    }
    page_request_from_pairs(&pairs)
}

} // verus!
