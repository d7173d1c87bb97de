//! Origin and callback addresses handed to the payment gateway.

use vstd::prelude::*;
use vstd::string::StringExecFns;

verus! {

pub open spec fn base_url_of(scheme: Seq<char>, host: Seq<char>) -> Seq<char> {
    scheme + "://"@ + host
}

pub open spec fn success_url_of(base: Seq<char>) -> Seq<char> {
    base + "/payment/success"@
}

pub open spec fn failure_url_of(base: Seq<char>) -> Seq<char> {
    base + "/payment/failure"@
}

/// The origin of a request: `scheme://host`.
pub fn base_url(scheme: &str, host: &str) -> (r: String)
    ensures
        r@ == base_url_of(scheme@, host@),
{
    let mut s = String::from_str(scheme);
    s.append("://");
    s.append(host);
    s
}

/// Where the gateway sends the payer after a successful payment.
pub fn payment_success_url(base: &str) -> (r: String)
    ensures
        r@ == success_url_of(base@),
{
    let mut s = String::from_str(base);
    s.append("/payment/success");
    s
}

/// Where the gateway sends the payer after a failed payment.
pub fn payment_failure_url(base: &str) -> (r: String)
    ensures
        r@ == failure_url_of(base@),
{
    let mut s = String::from_str(base);
    s.append("/payment/failure");
    s
}

} // verus!
