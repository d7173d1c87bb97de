use shop_checkout::cart::{build_basket, calculate_total, CartItem};
use shop_checkout::handlers::{
    checkout_link_step, failure_page_fields, order_failure, page_request, page_request_from_pairs,
    subscription_failure, success_outcome, success_page_fields, CheckoutLink, PaymentResult,
};
use shop_checkout::ids::{
    conversation_id_from, generate_conversation_id, generate_reference_id, resolve_conversation_id,
    token_of_uuid,
};
use shop_checkout::order::{
    buyer_names, names_from_words, normalize_order, normalize_order_with_id, order_metadata,
    resolve_shipping, Address, MetadataEntry, OrderError, OrderSubmission,
};
use shop_checkout::subscription::{subscription_plan, subscription_plan_with_user_id, SubscriptionRequest};
use shop_checkout::text::{decimal_text, signed_decimal_text};
use shop_checkout::urls::{base_url, payment_failure_url, payment_success_url};
use shop_checkout::webhook::{
    is_json_file_name, new_webhook_file_name, stamp_text, webhook_file_name, webhook_listing,
    StoredFile,
};

fn item(id: i32, price: u64, quantity: i32) -> CartItem {
    CartItem {
        id,
        name: format!("Item {}", id),
        price,
        description: String::new(),
        image: String::new(),
        quantity,
    }
}

fn address(name: &str, city: &str) -> Address {
    Address {
        contact_name: name.to_string(),
        email: "a@example.com".to_string(),
        contact_phone: "+905550000000".to_string(),
        address: "Street 1".to_string(),
        city: city.to_string(),
        zip_code: "34000".to_string(),
        vat_number: "1234567890".to_string(),
    }
}

fn submission(cart: Vec<CartItem>) -> OrderSubmission {
    OrderSubmission {
        cart,
        installment: 3,
        enabled_installments: vec![],
        billing: address("Ada Lovelace", "Istanbul"),
        shipping: None,
        same_address: true,
        conversation_id: String::new(),
        description: String::new(),
        locale: String::new(),
        currency: String::new(),
        three_d_force: false,
        payment_methods: true,
        payment_options: vec![],
        metadata: vec![],
    }
}

#[test]
fn total_of_example_cart_and_basket_lines() {
    let cart = vec![item(1, 10000, 2), item(2, 5000, 1)];
    assert_eq!(calculate_total(&cart), Some(25000));
    let basket = build_basket(&cart);
    assert_eq!(basket.len(), 2);
    assert_eq!(basket[0].price, 20000);
    assert_eq!(basket[0].quantity, 1);
    assert_eq!(basket[1].price, 5000);
    assert_eq!(basket[1].quantity, 1);
    assert_eq!(basket[0].id, "1");
    assert_eq!(basket[0].name, "Item 1");
    assert_eq!(basket[0].category1, "Electronics");
    assert_eq!(basket[0].item_type, "PHYSICAL");
}

#[test]
fn zero_and_negative_quantities_bill_one_unit() {
    let cart = vec![item(1, 700, 0), item(2, 300, -4), item(3, 100, 3)];
    assert_eq!(calculate_total(&cart), Some(1300));
    let unit_sum: u64 = cart.iter().map(|i| i.price).sum();
    assert!(calculate_total(&cart).unwrap() >= unit_sum);
}

#[test]
fn empty_cart_totals_zero() {
    assert_eq!(calculate_total(&vec![]), Some(0));
    assert!(build_basket(&vec![]).is_empty());
}

#[test]
fn total_that_does_not_fit_is_refused() {
    let cart = vec![item(1, u64::MAX, 2)];
    assert_eq!(calculate_total(&cart), None);
    let r = normalize_order(&submission(cart), "http://localhost:5005");
    assert!(matches!(r, Err(OrderError::TotalTooLarge)));
    let edge = vec![item(1, u64::MAX - 1, 1), item(2, 1, 1)];
    assert_eq!(calculate_total(&edge), Some(u64::MAX));
}

#[test]
fn buyer_names_from_contact_name() {
    let (f, l) = buyer_names("Ada Lovelace");
    assert_eq!((f.as_str(), l.as_str()), ("Ada", "Lovelace"));
    let (f, l) = buyer_names("Madonna");
    assert_eq!((f.as_str(), l.as_str()), ("Madonna", "Madonna"));
    let (f, l) = buyer_names("  Grace   Brewster  Hopper ");
    assert_eq!((f.as_str(), l.as_str()), ("Grace", "Hopper"));
    let (f, l) = buyer_names("   ");
    assert_eq!((f.as_str(), l.as_str()), ("Customer", "User"));
    let (f, l) = names_from_words(&vec![]);
    assert_eq!((f.as_str(), l.as_str()), ("Customer", "User"));
}

#[test]
fn same_address_uses_billing() {
    let billing = address("Ada Lovelace", "Istanbul");
    let shipping = Some(address("Charles Babbage", "Ankara"));
    let r = resolve_shipping(&billing, &shipping, true);
    assert_eq!(r.contact_name, "Ada Lovelace");
    assert_eq!(r.city, "Istanbul");
    assert_eq!(r.vat_number, billing.vat_number);
}

#[test]
fn separate_shipping_address_is_used() {
    let billing = address("Ada Lovelace", "Istanbul");
    let shipping = Some(address("Charles Babbage", "Ankara"));
    let r = resolve_shipping(&billing, &shipping, false);
    assert_eq!(r.contact_name, "Charles Babbage");
    assert_eq!(r.city, "Ankara");
    let r = resolve_shipping(&billing, &None, false);
    assert_eq!(r.contact_name, "Ada Lovelace");
}

#[test]
fn normalized_order_fields() {
    let mut sub = submission(vec![item(7, 10000, 2), item(8, 5000, 1)]);
    sub.same_address = false;
    sub.shipping = Some(address("Charles Babbage", "Ankara"));
    sub.metadata = vec![
        MetadataEntry { key: "k1".to_string(), value: "v1".to_string() },
        MetadataEntry { key: "k2".to_string(), value: "v2".to_string() },
    ];
    sub.enabled_installments = vec![1, 3, 6];
    let o = match normalize_order_with_id(&sub, "https://shop.example", "CONV_fixed") {
        Ok(o) => o,
        Err(_) => panic!("normalisation failed"),
    };
    assert_eq!(o.amount, 25000);
    assert_eq!(o.currency, "TRY");
    assert_eq!(o.locale, "en");
    assert_eq!(o.conversation_id, "CONV_fixed");
    assert_eq!(o.buyer.name, "Ada");
    assert_eq!(o.buyer.surname, "Lovelace");
    assert_eq!(o.buyer.country, "Turkey");
    assert_eq!(o.buyer.ip, "127.0.0.1");
    assert_eq!(o.buyer.gsm_number, "+905550000000");
    assert_eq!(o.billing_address.contact_name, "Ada Lovelace");
    assert_eq!(o.billing_address.country, "Turkey");
    assert_eq!(o.shipping_address.contact_name, "Charles Babbage");
    assert_eq!(o.shipping_address.city, "Ankara");
    assert_eq!(o.payment_success_url, "https://shop.example/payment/success");
    assert_eq!(o.payment_failure_url, "https://shop.example/payment/failure");
    assert_eq!(o.payment_options, vec!["card".to_string(), "bank_transfer".to_string()]);
    assert_eq!(o.enabled_installments, Some(vec![1, 3, 6]));
    assert!(o.payment_methods);
    assert!(!o.three_d_force);
    let basket_sum: u64 = o.basket_items.iter().map(|l| l.price).sum();
    assert_eq!(basket_sum, o.amount);
    let keys: Vec<&str> = o.metadata.iter().map(|e| e.key.as_str()).collect();
    assert_eq!(
        keys,
        vec![
            "cart_items_count",
            "selected_installment",
            "same_billing_shipping",
            "application_name",
            "framework",
            "customer_city",
            "k1",
            "k2"
        ]
    );
    let values: Vec<&str> = o.metadata.iter().map(|e| e.value.as_str()).collect();
    assert_eq!(values[0], "2");
    assert_eq!(values[1], "3");
    assert_eq!(values[2], "false");
    assert_eq!(values[3], "Tapsilat Rust SDK Example");
    assert_eq!(values[4], "Actix-Web");
    assert_eq!(values[5], "Istanbul");
    assert_eq!(values[7], "v2");
}

#[test]
fn given_currency_locale_and_options_are_kept() {
    let mut sub = submission(vec![item(1, 100, 1)]);
    sub.currency = "USD".to_string();
    sub.locale = "tr".to_string();
    sub.payment_options = vec!["card".to_string()];
    sub.conversation_id = "my-conv".to_string();
    let o = match normalize_order(&sub, "http://localhost:5005") {
        Ok(o) => o,
        Err(_) => panic!("normalisation failed"),
    };
    assert_eq!(o.currency, "USD");
    assert_eq!(o.locale, "tr");
    assert_eq!(o.payment_options, vec!["card".to_string()]);
    assert_eq!(o.conversation_id, "my-conv");
    assert_eq!(o.enabled_installments, None);
}

#[test]
fn metadata_with_negative_installment() {
    let m = order_metadata(0, -2, true, "Izmir", &vec![]);
    assert_eq!(m.len(), 6);
    assert_eq!(m[0].value, "0");
    assert_eq!(m[1].value, "-2");
    assert_eq!(m[2].value, "true");
    assert_eq!(m[5].value, "Izmir");
}

#[test]
fn empty_conversation_id_is_generated_fresh() {
    let sub = submission(vec![item(1, 100, 1)]);
    let a = match normalize_order(&sub, "http://h") {
        Ok(o) => o.conversation_id,
        Err(_) => panic!("normalisation failed"),
    };
    let b = match normalize_order(&sub, "http://h") {
        Ok(o) => o.conversation_id,
        Err(_) => panic!("normalisation failed"),
    };
    assert!(!a.is_empty());
    assert!(a.starts_with("CONV_"));
    assert_ne!(a, b);
    let c = generate_conversation_id();
    let d = generate_conversation_id();
    assert_ne!(c, d);
    let parts: Vec<&str> = c.split('_').collect();
    assert_eq!(parts.len(), 3);
    assert!(parts[1].parse::<i64>().is_ok());
    assert_eq!(parts[2].len(), 8);
    assert!(parts[2].chars().all(|ch| ch.is_ascii_hexdigit() && !ch.is_ascii_uppercase()));
}

#[test]
fn given_conversation_id_is_kept() {
    assert_eq!(resolve_conversation_id("abc"), "abc");
    assert!(resolve_conversation_id("").starts_with("CONV_"));
}

#[test]
fn identifier_formats() {
    assert_eq!(conversation_id_from(1700000000, "0a1b2c3d"), "CONV_1700000000_0a1b2c3d");
    assert_eq!(conversation_id_from(-5, "ffffffff"), "CONV_-5_ffffffff");
    assert_eq!(token_of_uuid("67e55044-10b1-426f-9247-bb680e5fe0c8"), "67e55044");
    let r = generate_reference_id("SUB_USER");
    assert_eq!(r.len(), 17);
    assert!(r.starts_with("SUB_USER_"));
    assert!(r[9..].chars().all(|ch| ch.is_ascii_hexdigit()));
}

#[test]
fn decimal_rendering() {
    assert_eq!(decimal_text(0), "0");
    assert_eq!(decimal_text(1234567890), "1234567890");
    assert_eq!(decimal_text(u64::MAX), u64::MAX.to_string());
    assert_eq!(signed_decimal_text(i64::MIN), i64::MIN.to_string());
    assert_eq!(signed_decimal_text(-42), "-42");
}

#[test]
fn callback_urls_follow_origin() {
    let b = base_url("https", "shop.example:8443");
    assert_eq!(b, "https://shop.example:8443");
    assert_eq!(payment_success_url(&b), "https://shop.example:8443/payment/success");
    assert_eq!(payment_failure_url(&b), "https://shop.example:8443/payment/failure");
}

#[test]
fn subscription_plan_fields() {
    let req = SubscriptionRequest {
        name: "Gold".to_string(),
        amount: 9900,
        period: 30,
        payment_date: 0,
        card_id: Some("card-1".to_string()),
        subscriber_email: "s@example.com".to_string(),
        subscriber_phone: "555".to_string(),
    };
    let p = subscription_plan_with_user_id(&req, "http://h", "SUB_USER_00000000");
    assert_eq!(p.title, "Gold");
    assert_eq!(p.amount, 9900);
    assert_eq!(p.currency, "TRY");
    assert_eq!(p.period, 30);
    assert_eq!(p.payment_date, 1);
    assert_eq!(p.cycle, 12);
    assert_eq!(p.success_url, "http://h/payment/success");
    assert_eq!(p.user.id, "SUB_USER_00000000");
    assert_eq!(p.user.email, "s@example.com");
    assert_eq!(p.user.first_name, "John");
    assert_eq!(p.billing.contact_name, "John Doe");
    assert_eq!(p.billing.address, "Mock Billing Address");
    let mut later = req;
    later.payment_date = 15;
    let q = subscription_plan(&later, "http://h");
    assert_eq!(q.payment_date, 15);
    assert!(q.user.id.starts_with("SUB_USER_"));
    assert_eq!(q.user.id.len(), 17);
}

#[test]
fn checkout_link_decisions() {
    let r = checkout_link_step(&Some("https://pay/x".to_string()), &Some("ref".to_string()));
    assert!(matches!(r, CheckoutLink::Ready(ref u) if u == "https://pay/x"));
    let r = checkout_link_step(&None, &Some("ref".to_string()));
    assert!(matches!(r, CheckoutLink::Fetch(ref id) if id == "ref"));
    let r = checkout_link_step(&None, &None);
    assert!(matches!(r, CheckoutLink::Missing));
}

#[test]
fn outcomes() {
    let o = order_failure("bad key");
    assert!(!o.success);
    assert_eq!(o.error.as_deref(), Some("Failed to create order: bad key"));
    assert!(o.checkout_url.is_none() && o.reference_id.is_none());
    let s = subscription_failure("timeout");
    assert_eq!(s.error.as_deref(), Some("Failed to create subscription: timeout"));
    let ok = success_outcome(Some("u".to_string()), Some("r".to_string()));
    assert!(ok.success && ok.error.is_none());
    assert_eq!(ok.reference_id.as_deref(), Some("r"));
}

#[test]
fn result_page_fields() {
    let p = PaymentResult {
        reference_id: Some("R1".to_string()),
        conversation_id: None,
        status: Some("ok".to_string()),
        error_message: Some("declined".to_string()),
    };
    let s = success_page_fields(&p);
    assert_eq!(s, vec![("ReferenceID".to_string(), "R1".to_string())]);
    let f = failure_page_fields(&p);
    assert_eq!(
        f,
        vec![
            ("ReferenceID".to_string(), "R1".to_string()),
            ("ErrorMessage".to_string(), "declined".to_string())
        ]
    );
}

#[test]
fn paging_from_query() {
    let r = page_request("page=3&per_page=25");
    assert_eq!((r.page, r.per_page), (3, 25));
    let r = page_request("");
    assert_eq!((r.page, r.per_page), (1, 10));
    let r = page_request("page=abc&per_page=%2B7");
    assert_eq!((r.page, r.per_page), (1, 7));
    let r = page_request("page=2&page=9");
    assert_eq!(r.page, 2);
    let r = page_request("page=-1&per_page=4294967296");
    assert_eq!((r.page, r.per_page), (1, 10));
    let pairs = vec![("per_page".to_string(), "5".to_string())];
    let r = page_request_from_pairs(&pairs);
    assert_eq!((r.page, r.per_page), (1, 5));
}

#[test]
fn webhook_file_names() {
    assert_eq!(webhook_file_name("20240102_030405", 7, "refund"), "20240102_030405_7_refund.json");
    let n = new_webhook_file_name("refund");
    assert!(n.ends_with("_refund.json"));
    assert_eq!(n.split('_').count(), 4);
    assert!(is_json_file_name(&n));
    assert!(is_json_file_name("a.json"));
    assert!(is_json_file_name("..json"));
    assert!(!is_json_file_name(".json"));
    assert!(!is_json_file_name("a.json.bak"));
    assert!(!is_json_file_name("a.jsonx"));
}

#[test]
fn stamp_text_pads_fields() {
    assert_eq!(stamp_text(2024, 1, 2, 3, 4, 5), "20240102_030405");
    assert_eq!(stamp_text(2025, 12, 31, 23, 59, 59), "20251231_235959");
    assert_eq!(stamp_text(987, 6, 7, 0, 0, 0), "09870607_000000");
    assert_eq!(stamp_text(12345, 1, 1, 0, 0, 0), "+123450101_000000");
    assert_eq!(stamp_text(-7, 1, 1, 0, 0, 0), "-00070101_000000");
}

#[test]
fn new_webhook_name_has_stamp_shape() {
    let n = new_webhook_file_name("fail");
    let parts: Vec<&str> = n.split('_').collect();
    assert_eq!(parts.len(), 4);
    assert_eq!(parts[0].len(), 8);
    assert!(parts[0].chars().all(|c| c.is_ascii_digit()));
    assert_eq!(parts[1].len(), 6);
    assert!(parts[1].chars().all(|c| c.is_ascii_digit()));
    assert!(parts[2].parse::<u32>().unwrap() < 1000);
    assert_eq!(parts[3], "fail.json");
}

#[test]
fn webhook_listing_reverses_and_parses() {
    let files = vec![
        StoredFile { file_name: "1_1_success.json".to_string(), content: Some("{\"a\":1}".to_string()) },
        StoredFile { file_name: "notes.txt".to_string(), content: Some("{}".to_string()) },
        StoredFile { file_name: "2_5_refund.json".to_string(), content: Some("not json".to_string()) },
        StoredFile { file_name: "3_9_cancel.json".to_string(), content: None },
        StoredFile { file_name: "4_0_fail.json".to_string(), content: Some("[1,2]".to_string()) },
    ];
    let logs = webhook_listing(files);
    let names: Vec<&str> = logs.iter().map(|l| l.filename.as_str()).collect();
    assert_eq!(names, vec!["4_0_fail.json", "3_9_cancel.json", "2_5_refund.json", "1_1_success.json"]);
    assert_eq!(logs[0].content, Some(serde_json::from_str::<serde_json::Value>("[1,2]").unwrap()));
    assert_eq!(logs[1].content, None);
    assert_eq!(logs[1].raw, "");
    assert_eq!(logs[2].content, None);
    assert_eq!(logs[2].raw, "not json");
    assert_eq!(logs[3].content, Some(serde_json::from_str::<serde_json::Value>("{\"a\":1}").unwrap()));
    assert_eq!(logs[3].raw, "{\"a\":1}");
}

#[test]
fn refund_webhook_is_listed_once() {
    let name = new_webhook_file_name("refund");
    let files = vec![
        StoredFile { file_name: "20240101_000000_1_success.json".to_string(), content: Some("{}".to_string()) },
        StoredFile { file_name: name.clone(), content: Some("{\"id\":7}".to_string()) },
    ];
    let logs = webhook_listing(files);
    let hits: Vec<_> = logs.iter().filter(|l| l.filename == name).collect();
    assert_eq!(hits.len(), 1);
    assert_eq!(hits[0].content, Some(serde_json::from_str::<serde_json::Value>("{\"id\":7}").unwrap()));
    assert_eq!(logs[0].filename, name);
}

#[test]
fn empty_directory_lists_nothing() {
    assert!(webhook_listing(vec![]).is_empty());
}

#[test]
fn conversation_ids_differ_by_timestamp_or_token() {
    assert_ne!(conversation_id_from(1, "aaaaaaaa"), conversation_id_from(11, "aaaaaaaa"));
    assert_ne!(conversation_id_from(1, "aaaaaaaa"), conversation_id_from(1, "aaaaaaab"));
    assert_ne!(conversation_id_from(-1, "aaaaaaaa"), conversation_id_from(1, "aaaaaaaa"));
}
