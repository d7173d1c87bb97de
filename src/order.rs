//! Turning a checkout submission into the payload for the payment gateway.

use vstd::prelude::*;
use vstd::string::{StrSliceExecFns, StringExecFns};
use crate::cart::{
    basket_total, build_basket, calculate_total, cart_total, is_basket_for,
    lemma_basket_total_matches_cart, BasketLine, CartItem,
};
use crate::ids::{is_generated_conversation_id, resolve_conversation_id};
use crate::text::{
    bool_text, decimal, decimal_text, signed_decimal, signed_decimal_text, split_words,
    whitespace_words,
};
use crate::urls::{failure_url_of, payment_failure_url, payment_success_url, success_url_of};

verus! {

pub struct Address {
    pub contact_name: String,
    pub email: String,
    pub contact_phone: String,
    pub address: String,
    pub city: String,
    pub zip_code: String,
    pub vat_number: String,
}

pub struct AddressView {
    pub contact_name: Seq<char>,
    pub email: Seq<char>,
    pub contact_phone: Seq<char>,
    pub address: Seq<char>,
    pub city: Seq<char>,
    pub zip_code: Seq<char>,
    pub vat_number: Seq<char>,
}

impl View for Address {
    type V = AddressView;

    open spec fn view(&self) -> AddressView {
        AddressView {
            contact_name: self.contact_name@,
            email: self.email@,
            contact_phone: self.contact_phone@,
            address: self.address@,
            city: self.city@,
            zip_code: self.zip_code@,
            vat_number: self.vat_number@,
        }
    }
}

impl Address {
    /// A field-by-field copy.
    pub fn duplicate(&self) -> (r: Address)
        ensures
            r@ == self@,
    {
        Address {
            contact_name: self.contact_name.clone(),
            email: self.email.clone(),
            contact_phone: self.contact_phone.clone(),
            address: self.address.clone(),
            city: self.city.clone(),
            zip_code: self.zip_code.clone(),
            vat_number: self.vat_number.clone(),
        }
    }
}

/// A key/value pair attached to an order.
pub struct MetadataEntry {
    pub key: String,
    pub value: String,
}

impl View for MetadataEntry {
    type V = (Seq<char>, Seq<char>);

    open spec fn view(&self) -> (Seq<char>, Seq<char>) {
        (self.key@, self.value@)
    }
}

pub open spec fn entries_view(es: Seq<MetadataEntry>) -> Seq<(Seq<char>, Seq<char>)> {
    es.map_values(|e: MetadataEntry| e@)
}

pub open spec fn strings_view(v: Seq<String>) -> Seq<Seq<char>> {
    v.map_values(|s: String| s@)
}

/// The buyer record, derived from the billing address.
pub struct Buyer {
    pub name: String,
    pub surname: String,
    pub email: String,
    pub gsm_number: String,
    pub identity_number: String,
    pub registration_address: String,
    pub city: String,
    pub country: String,
    pub zip_code: String,
    pub ip: String,
}

pub struct BillingRecord {
    pub contact_name: String,
    pub city: String,
    pub country: String,
    pub address: String,
    pub zip_code: String,
    pub vat_number: String,
}

pub struct ShippingRecord {
    pub contact_name: String,
    pub city: String,
    pub country: String,
    pub address: String,
    pub zip_code: String,
}

/// What the checkout form submits.
pub struct OrderSubmission {
    pub cart: Vec<CartItem>,
    pub installment: i32,
    pub enabled_installments: Vec<i32>,
    pub billing: Address,
    pub shipping: Option<Address>,
    pub same_address: bool,
    pub conversation_id: String,
    pub description: String,
    pub locale: String,
    pub currency: String,
    pub three_d_force: bool,
    pub payment_methods: bool,
    pub payment_options: Vec<String>,
    pub metadata: Vec<MetadataEntry>,
}

/// The order payload in the shape the gateway expects.
pub struct NormalizedOrder {
    /// Total in minor currency units.
    pub amount: u64,
    pub currency: String,
    pub locale: String,
    pub conversation_id: String,
    pub buyer: Buyer,
    pub billing_address: BillingRecord,
    pub shipping_address: ShippingRecord,
    pub basket_items: Vec<BasketLine>,
    pub metadata: Vec<MetadataEntry>,
    pub payment_success_url: String,
    pub payment_failure_url: String,
    pub three_d_force: bool,
    pub payment_methods: bool,
    pub payment_options: Vec<String>,
    pub enabled_installments: Option<Vec<i32>>,
}

pub enum OrderError {
    /// The cart's total does not fit in a `u64` of minor units.
    TotalTooLarge,
}

/// Buyer first name: the first word of the contact name, `Customer` if
/// there is none. A heuristic, not name parsing.
pub open spec fn first_name_of(words: Seq<Seq<char>>) -> Seq<char> {
    if words.len() == 0 {
        "Customer"@
    } else {
        words[0]
    }
}

/// Buyer last name: the last word of the contact name, `User` if there is
/// none. With a single word it equals the first name.
pub open spec fn last_name_of(words: Seq<Seq<char>>) -> Seq<char> {
    if words.len() == 0 {
        "User"@
    } else {
        words.last()
    }
}

/// The shipping address: the billing address when the flag is set or none
/// was given, else the one given.
pub open spec fn resolved_shipping(billing: Address, shipping: Option<Address>, same: bool) -> AddressView {
    match shipping {
        Some(s) if !same => s@,
        _ => billing@,
    }
}

pub open spec fn bool_chars(b: bool) -> Seq<char> {
    if b {
        "true"@
    } else {
        "false"@
    }
}

/// The entries computed for every order, placed before the caller's.
pub open spec fn computed_metadata(
    cart_len: nat,
    installment: i32,
    same_address: bool,
    city: Seq<char>,
) -> Seq<(Seq<char>, Seq<char>)> {
    seq![
        ("cart_items_count"@, decimal(cart_len)),
        ("selected_installment"@, signed_decimal(installment as int)),
        ("same_billing_shipping"@, bool_chars(same_address)),
        ("application_name"@, "Tapsilat Rust SDK Example"@),
        ("framework"@, "Actix-Web"@),
        ("customer_city"@, city),
    ]
}

pub open spec fn or_default(s: Seq<char>, default: Seq<char>) -> Seq<char> {
    if s.len() == 0 {
        default
    } else {
        s
    }
}

pub open spec fn options_or_default(opts: Seq<Seq<char>>) -> Seq<Seq<char>> {
    if opts.len() == 0 {
        seq!["card"@, "bank_transfer"@]
    } else {
        opts
    }
}

pub open spec fn is_buyer_for(b: Buyer, billing: Address) -> bool {
    let words = whitespace_words(billing.contact_name@);
    &&& b.name@ == first_name_of(words)
    &&& b.surname@ == last_name_of(words)
    &&& b.email@ == billing.email@
    &&& b.gsm_number@ == billing.contact_phone@
    &&& b.identity_number@ == billing.vat_number@
    &&& b.registration_address@ == billing.address@
    &&& b.city@ == billing.city@
    &&& b.country@ == "Turkey"@
    &&& b.zip_code@ == billing.zip_code@
    &&& b.ip@ == "127.0.0.1"@
}

pub open spec fn is_billing_record_for(r: BillingRecord, a: AddressView) -> bool {
    &&& r.contact_name@ == a.contact_name
    &&& r.city@ == a.city
    &&& r.country@ == "Turkey"@
    &&& r.address@ == a.address
    &&& r.zip_code@ == a.zip_code
    &&& r.vat_number@ == a.vat_number
}

pub open spec fn is_shipping_record_for(r: ShippingRecord, a: AddressView) -> bool {
    &&& r.contact_name@ == a.contact_name
    &&& r.city@ == a.city
    &&& r.country@ == "Turkey"@
    &&& r.address@ == a.address
    &&& r.zip_code@ == a.zip_code
}

/// Everything of the payload but the conversation id is fixed by the
/// submission and the origin; the id is the one given here.
pub open spec fn is_normalized(
    o: NormalizedOrder,
    sub: OrderSubmission,
    base: Seq<char>,
    conversation_id: Seq<char>,
) -> bool {
    &&& o.amount as nat == cart_total(sub.cart@)
    &&& o.currency@ == or_default(sub.currency@, "TRY"@)
    &&& o.locale@ == or_default(sub.locale@, "en"@)
    &&& o.conversation_id@ == conversation_id
    &&& is_buyer_for(o.buyer, sub.billing)
    &&& is_billing_record_for(o.billing_address, sub.billing@)
    &&& is_shipping_record_for(
        o.shipping_address,
        resolved_shipping(sub.billing, sub.shipping, sub.same_address),
    )
    &&& is_basket_for(o.basket_items@, sub.cart@)
    &&& entries_view(o.metadata@) == computed_metadata(
        sub.cart@.len(),
        sub.installment,
        sub.same_address,
        sub.billing.city@,
    ) + entries_view(sub.metadata@)
    &&& o.payment_success_url@ == success_url_of(base)
    &&& o.payment_failure_url@ == failure_url_of(base)
    &&& o.three_d_force == sub.three_d_force
    &&& o.payment_methods == sub.payment_methods
    &&& strings_view(o.payment_options@) == options_or_default(strings_view(sub.payment_options@))
    &&& match o.enabled_installments {
        None => sub.enabled_installments@.len() == 0,
        Some(v) => sub.enabled_installments@.len() > 0 && v@ == sub.enabled_installments@,
    }
}

/// The amount of a normalised order is what its basket lines add up to, so
/// the total can be recomputed from the basket alone.
pub proof fn lemma_amount_matches_basket(
    o: NormalizedOrder,
    sub: OrderSubmission,
    base: Seq<char>,
    conversation_id: Seq<char>,
)
    requires
        is_normalized(o, sub, base, conversation_id),
    ensures
        o.amount as nat == basket_total(o.basket_items@),
{
    lemma_basket_total_matches_cart(o.basket_items@, sub.cart@);
}

/// First and last name from the words of a contact name.
pub fn names_from_words(words: &Vec<String>) -> (r: (String, String))
    ensures
        r.0@ == first_name_of(strings_view(words@)),
        r.1@ == last_name_of(strings_view(words@)),
{
    if words.len() == 0 {
        (String::from_str("Customer"), String::from_str("User"))
    } else {
        (words[0].clone(), words[words.len() - 1].clone())
    }
}

/// Buyer first and last name from a contact name: its first and last
/// whitespace-separated words, or `Customer` and `User` when it has none.
pub fn buyer_names(contact_name: &str) -> (r: (String, String))
    ensures
        r.0@ == first_name_of(whitespace_words(contact_name@)),
        r.1@ == last_name_of(whitespace_words(contact_name@)),
{
    let words = split_words(contact_name);
    names_from_words(&words)
}

/// The buyer record for a billing address.
pub fn build_buyer(billing: &Address) -> (r: Buyer)
    ensures
        is_buyer_for(r, *billing),
{
    let (name, surname) = buyer_names(billing.contact_name.as_str());
    Buyer {
        name,
        surname,
        email: billing.email.clone(),
        gsm_number: billing.contact_phone.clone(),
        identity_number: billing.vat_number.clone(),
        registration_address: billing.address.clone(),
        city: billing.city.clone(),
        country: String::from_str("Turkey"),
        zip_code: billing.zip_code.clone(),
        ip: String::from_str("127.0.0.1"),
    }
}

/// The address goods are shipped to.
pub fn resolve_shipping(billing: &Address, shipping: &Option<Address>, same_address: bool) -> (r:
    Address)
    ensures
        r@ == resolved_shipping(*billing, *shipping, same_address),
        same_address ==> r@ == billing@,
        shipping.is_none() ==> r@ == billing@,
        !same_address && shipping.is_some() ==> r@ == shipping.unwrap()@,
{
    match shipping {
        Some(s) if !same_address => s.duplicate(),
        _ => billing.duplicate(),
    }
}

pub fn billing_record(a: &Address) -> (r: BillingRecord)
    ensures
        is_billing_record_for(r, a@),
{
    BillingRecord {
        contact_name: a.contact_name.clone(),
        city: a.city.clone(),
        country: String::from_str("Turkey"),
        address: a.address.clone(),
        zip_code: a.zip_code.clone(),
        vat_number: a.vat_number.clone(),
    }
}

pub fn shipping_record(a: &Address) -> (r: ShippingRecord)
    ensures
        is_shipping_record_for(r, a@),
{
    ShippingRecord {
        contact_name: a.contact_name.clone(),
        city: a.city.clone(),
        country: String::from_str("Turkey"),
        address: a.address.clone(),
        zip_code: a.zip_code.clone(),
    }
}

fn entry(key: &str, value: String) -> (r: MetadataEntry)
    ensures
        r@ == (key@, value@),
{
    MetadataEntry { key: String::from_str(key), value }
}

/// The computed entries followed by the caller's, in the caller's order.
pub fn order_metadata(
    cart_len: usize,
    installment: i32,
    same_address: bool,
    city: &str,
    extra: &Vec<MetadataEntry>,
) -> (r: Vec<MetadataEntry>)
    ensures
        entries_view(r@) == computed_metadata(cart_len as nat, installment, same_address, city@)
            + entries_view(extra@),
{
    let mut r: Vec<MetadataEntry> = Vec::new();
    r.push(entry("cart_items_count", decimal_text(cart_len as u64)));
    r.push(entry("selected_installment", signed_decimal_text(installment as i64)));
    r.push(entry("same_billing_shipping", bool_text(same_address)));
    r.push(entry("application_name", String::from_str("Tapsilat Rust SDK Example")));
    r.push(entry("framework", String::from_str("Actix-Web")));
    r.push(entry("customer_city", String::from_str(city)));
    let ghost head = computed_metadata(cart_len as nat, installment, same_address, city@);
    assert(entries_view(r@) =~= head);
    let mut i: usize = 0;
    while i < extra.len()
        invariant
            0 <= i <= extra.len(),
            entries_view(r@) == head + entries_view(extra@.take(i as int)),
        decreases extra.len() - i,
    {
        let e = MetadataEntry { key: extra[i].key.clone(), value: extra[i].value.clone() };
        let ghost before = r@;
        r.push(e);
        assert(entries_view(r@) =~= entries_view(before).push(e@));
        assert(entries_view(extra@.take(i as int + 1)) =~= entries_view(extra@.take(i as int)).push(
            extra@[i as int]@,
        ));
        i = i + 1;
    }
    assert(extra@.take(i as int) =~= extra@);
    r
}

/// A copy of a list of strings.
pub fn copy_strings(v: &Vec<String>) -> (r: Vec<String>)
    ensures
        r@ == v@,
{
    let mut r: Vec<String> = Vec::new();
    let mut i: usize = 0;
    while i < v.len()
        invariant
            0 <= i <= v.len(),
            r@ == v@.take(i as int),
        decreases v.len() - i,
    {
        r.push(v[i].clone());
        assert(v@.take(i as int + 1) =~= v@.take(i as int).push(v@[i as int]));
        i = i + 1;
    }
    assert(v@.take(i as int) =~= v@);
    r
}

/// A copy of a list of integers.
pub fn copy_ints(v: &Vec<i32>) -> (r: Vec<i32>)
    ensures
        r@ == v@,
{
    let mut r: Vec<i32> = Vec::new();
    let mut i: usize = 0;
    while i < v.len()
        invariant
            0 <= i <= v.len(),
            r@ == v@.take(i as int),
        decreases v.len() - i,
    {
        r.push(v[i]);
        assert(v@.take(i as int + 1) =~= v@.take(i as int).push(v@[i as int]));
        i = i + 1;
    }
    assert(v@.take(i as int) =~= v@);
    r
}

/// The text, or `default` when it is empty.
pub fn text_or_default(s: &str, default: &str) -> (r: String)
    ensures
        r@ == or_default(s@, default@),
{
    if s.unicode_len() == 0 {
        String::from_str(default)
    } else {
        String::from_str(s)
    }
}

/// The payment options, or card and bank transfer when none were chosen.
pub fn payment_options_or_default(opts: &Vec<String>) -> (r: Vec<String>)
    ensures
        strings_view(r@) == options_or_default(strings_view(opts@)),
{
    if opts.len() == 0 {
        let r = vec![String::from_str("card"), String::from_str("bank_transfer")];
        assert(strings_view(r@) =~= seq!["card"@, "bank_transfer"@]);
        r
    } else {
        copy_strings(opts)
    }
}

/// The payload for a submission, with the conversation id given. Fails only
/// when the total does not fit in a `u64`.
pub fn normalize_order_with_id(sub: &OrderSubmission, base_url: &str, conversation_id: &str) -> (r:
    Result<NormalizedOrder, OrderError>)
    ensures
        match r {
            Ok(o) => cart_total(sub.cart@) <= u64::MAX && is_normalized(
                o,
                *sub,
                base_url@,
                conversation_id@,
            ),
            Err(e) => cart_total(sub.cart@) > u64::MAX && e == OrderError::TotalTooLarge,
        },
{
    let amount = match calculate_total(&sub.cart) {
        Some(t) => t,
        None => {
            return Err(OrderError::TotalTooLarge);
        },
    };
    let shipping = resolve_shipping(&sub.billing, &sub.shipping, sub.same_address);
    let enabled_installments = if sub.enabled_installments.len() == 0 {
        None
    } else {
        Some(copy_ints(&sub.enabled_installments))
    };
    Ok(
        NormalizedOrder {
            amount,
            currency: text_or_default(sub.currency.as_str(), "TRY"),
            locale: text_or_default(sub.locale.as_str(), "en"),
            conversation_id: String::from_str(conversation_id),
            buyer: build_buyer(&sub.billing),
            billing_address: billing_record(&sub.billing),
            shipping_address: shipping_record(&shipping),
            basket_items: build_basket(&sub.cart),
            metadata: order_metadata(
                sub.cart.len(),
                sub.installment,
                sub.same_address,
                sub.billing.city.as_str(),
                &sub.metadata,
            ),
            payment_success_url: payment_success_url(base_url),
            payment_failure_url: payment_failure_url(base_url),
            three_d_force: sub.three_d_force,
            payment_methods: sub.payment_methods,
            payment_options: payment_options_or_default(&sub.payment_options),
            enabled_installments,
        },
    )
}

/// The payload for a submission. The caller's conversation id is kept when
/// given; otherwise a fresh one is generated.
pub fn normalize_order(sub: &OrderSubmission, base_url: &str) -> (r: Result<
    NormalizedOrder,
    OrderError,
>)
    ensures
        match r {
            Ok(o) => {
                &&& cart_total(sub.cart@) <= u64::MAX
                &&& is_normalized(o, *sub, base_url@, o.conversation_id@)
                &&& sub.conversation_id@.len() > 0 ==> o.conversation_id@ == sub.conversation_id@
                &&& sub.conversation_id@.len() == 0 ==> is_generated_conversation_id(
                    o.conversation_id@,
                )
            },
            Err(e) => cart_total(sub.cart@) > u64::MAX && e == OrderError::TotalTooLarge,
        },
{
    let conversation_id = resolve_conversation_id(sub.conversation_id.as_str());
    normalize_order_with_id(sub, base_url, conversation_id.as_str())
}

} // verus!
