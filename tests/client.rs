use netsuite_client::client::{connection_status, fetch_status};
use netsuite_client::{ApiRequest, AppConfig, NetSuiteClient, NetSuiteConfig, NetSuiteError};

const BASE: &str = "https://rest.na1.netsuite.com";

fn config_with(base_url: &str, consumer_key: &str) -> AppConfig {
    AppConfig {
        netsuite: NetSuiteConfig {
            account_id: "1234567".to_string(),
            consumer_key: consumer_key.to_string(),
            consumer_secret: "secret".to_string(),
            token_id: "token".to_string(),
            token_secret: "token-secret".to_string(),
            base_url: base_url.to_string(),
        },
    }
}

fn client() -> NetSuiteClient {
    match NetSuiteClient::new(config_with(BASE, "ck")) {
        Ok(c) => c,
        Err(e) => panic!("client not built: {:?}", e),
    }
}

fn request(r: Result<ApiRequest, NetSuiteError>) -> ApiRequest {
    match r {
        Ok(q) => q,
        Err(e) => panic!("no request: {:?}", e),
    }
}

fn strings(items: &[&str]) -> Vec<String> {
    items.iter().map(|s| s.to_string()).collect()
}

#[test]
fn new_accepts_https_base_url() {
    assert!(NetSuiteClient::new(config_with(BASE, "ck")).is_ok());
    assert!(NetSuiteClient::new(config_with("http://localhost:8080", "ck")).is_ok());
}

#[test]
fn new_rejects_base_url_without_scheme() {
    match NetSuiteClient::new(config_with("not a url", "ck")) {
        Err(NetSuiteError::Configuration(u)) => assert_eq!(u, "not a url/oauth/authorize"),
        Ok(_) => panic!("accepted"),
        Err(e) => panic!("wrong error: {:?}", e),
    }
}

#[test]
fn new_rejects_empty_base_url() {
    match NetSuiteClient::new(config_with("", "ck")) {
        Err(NetSuiteError::Configuration(u)) => assert_eq!(u, "/oauth/authorize"),
        Ok(_) => panic!("accepted"),
        Err(e) => panic!("wrong error: {:?}", e),
    }
}

#[test]
fn connection_status_accepts_2xx_and_401() {
    for s in [200u16, 201, 204, 250, 299, 401] {
        assert_eq!(connection_status(s), Ok(()), "status {}", s);
    }
}

#[test]
fn connection_status_rejects_other_codes() {
    for s in [100u16, 199, 300, 302, 400, 402, 403, 404, 500, 503] {
        assert_eq!(connection_status(s), Err(NetSuiteError::Status(s)), "status {}", s);
    }
}

#[test]
fn fetch_status_accepts_only_2xx() {
    assert_eq!(fetch_status(200), Ok(()));
    assert_eq!(fetch_status(299), Ok(()));
    assert_eq!(fetch_status(401), Err(NetSuiteError::Status(401)));
    assert_eq!(fetch_status(500), Err(NetSuiteError::Status(500)));
    assert_eq!(fetch_status(199), Err(NetSuiteError::Status(199)));
    assert_eq!(fetch_status(300), Err(NetSuiteError::Status(300)));
}

#[test]
fn connection_request_targets_customer_list() {
    let q = request(client().connection_request());
    assert_eq!(q.url, "https://rest.na1.netsuite.com/rest/platform/v1/record/customer");
    assert_eq!(q.authorization, "Bearer ck");
}

#[test]
fn customers_without_limit_have_no_query() {
    let q = request(client().customers_request(None));
    assert_eq!(q.url, "https://rest.na1.netsuite.com/rest/platform/v1/record/customer");
    assert!(!q.url.contains("limit"));
}

#[test]
fn customers_with_limit_five() {
    let q = request(client().customers_request(Some(5)));
    assert_eq!(q.url, "https://rest.na1.netsuite.com/rest/platform/v1/record/customer?limit=5");
    assert_eq!(q.authorization, "Bearer ck");
}

#[test]
fn transactions_without_filters_or_limit_have_no_query() {
    let q = request(client().transactions_request(&[], None));
    assert_eq!(q.url, "https://rest.na1.netsuite.com/rest/platform/v1/record/check");
    assert!(!q.url.contains('?'));
}

#[test]
fn transactions_filters_keep_order_then_limit() {
    let filters = strings(&["type IS VendPymt", "createddate BETWEEN 'a' AND 'b'"]);
    let q = request(client().transactions_request(&filters, Some(10)));
    let (path, query) = q.url.split_once('?').expect("query string");
    assert_eq!(path, "https://rest.na1.netsuite.com/rest/platform/v1/record/check");
    assert_eq!(query, "q=type IS VendPymt&q=createddate BETWEEN 'a' AND 'b'&limit=10");
}

#[test]
fn transactions_limit_alone() {
    let q = request(client().transactions_request(&[], Some(0)));
    assert_eq!(q.url, "https://rest.na1.netsuite.com/rest/platform/v1/record/check?limit=0");
}

#[test]
fn transactions_filters_are_not_escaped() {
    let filters = strings(&["memo IS a&b=c"]);
    let q = request(client().transactions_request(&filters, None));
    assert_eq!(q.url, "https://rest.na1.netsuite.com/rest/platform/v1/record/check?q=memo IS a&b=c");
}

#[test]
fn vendor_payments_over_a_range() {
    let q = request(client().vendor_payments_request("2024-01-01", "2024-03-31", Some(20)));
    assert_eq!(
        q.url,
        "https://rest.na1.netsuite.com/rest/platform/v1/record/check?q=type IS VendPymt&q=createddate BETWEEN '2024-01-01' AND '2024-03-31'&limit=20"
    );
}

#[test]
fn vendor_payments_without_limit() {
    let q = request(client().vendor_payments_request("x", "y", None));
    assert_eq!(
        q.url,
        "https://rest.na1.netsuite.com/rest/platform/v1/record/check?q=type IS VendPymt&q=createddate BETWEEN 'x' AND 'y'"
    );
}

#[test]
fn vendor_payments_2024_is_the_fixed_range() {
    let c = client();
    for limit in [None, Some(0u32), Some(20), Some(u32::MAX)] {
        assert_eq!(
            c.vendor_payments_2024_request(limit),
            c.vendor_payments_request("2024-05-01", "2024-08-31", limit)
        );
    }
}

#[test]
fn sales_orders_target_their_endpoint() {
    let filters = strings(&["status IS open"]);
    let q = request(client().sales_orders_request(&filters, Some(3)));
    assert_eq!(
        q.url,
        "https://rest.na1.netsuite.com/rest/platform/v1/record/salesorder?q=status IS open&limit=3"
    );
    let q = request(client().sales_orders_request(&[], None));
    assert_eq!(q.url, "https://rest.na1.netsuite.com/rest/platform/v1/record/salesorder");
}

#[test]
fn key_with_newline_cannot_be_sent() {
    let c = NetSuiteClient::new(config_with(BASE, "bad\nkey")).expect("client");
    assert_eq!(c.authorization(), Err(NetSuiteError::Authentication));
    assert_eq!(c.customers_request(None), Err(NetSuiteError::Authentication));
    assert_eq!(c.connection_request(), Err(NetSuiteError::Authentication));
}

#[test]
fn key_with_tab_or_non_ascii_is_sent() {
    let c = NetSuiteClient::new(config_with(BASE, "a\tb")).expect("client");
    assert_eq!(c.authorization(), Ok("Bearer a\tb".to_string()));
    let c = NetSuiteClient::new(config_with(BASE, "cl\u{e9}")).expect("client");
    assert_eq!(c.authorization(), Ok("Bearer cl\u{e9}".to_string()));
    let c = NetSuiteClient::new(config_with(BASE, "del\u{7f}")).expect("client");
    assert_eq!(c.authorization(), Err(NetSuiteError::Authentication));
}
