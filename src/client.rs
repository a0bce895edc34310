use vstd::prelude::*;

use crate::config::{AppConfig, NetSuiteConfig};
use crate::error::NetSuiteError;
use crate::query::{append_query, decimal, filter_param, join_params, query_params, with_query};

verus! {

/// Path of the record endpoints, below the base URL.
pub const RECORD_PATH: &'static str = "/rest/platform/v1/record/";

/// Record type of the customer list.
pub const CUSTOMER_RECORD: &'static str = "customer";

/// Record type under which the API lists checks, vendor payments included.
pub const CHECK_RECORD: &'static str = "check";

/// Record type of the sales-order list.
pub const SALES_ORDER_RECORD: &'static str = "salesorder";

/// Suffix of the OAuth authorization endpoint.
pub const AUTHORIZE_SUFFIX: &'static str = "/oauth/authorize";

/// Suffix of the OAuth token endpoint.
pub const TOKEN_SUFFIX: &'static str = "/oauth/token";

/// First day of the fixed vendor-payment range.
pub const VENDOR_PAYMENTS_FROM: &'static str = "2024-05-01";

/// Last day of the fixed vendor-payment range.
pub const VENDOR_PAYMENTS_TO: &'static str = "2024-08-31";

/// Whether `s` parses as an absolute URL.
pub uninterp spec fn url_parses(s: Seq<char>) -> bool;

/// Relies on `url::Url::parse` (re-exported by oauth2): `true` exactly when
/// the text parses as a URL, which depends on the text alone.
#[verifier::external_body]
fn parses_as_url(s: &str) -> (r: bool)
    ensures
        r == url_parses(s@),
{
    oauth2::url::Url::parse(s).is_ok()
}

/// Whether `s` can be the value of an HTTP header: each character is a tab,
/// or is at least a space and not DEL. Characters outside ASCII are
/// accepted, since all the bytes that encode them are at least 128.
pub open spec fn header_value_valid(s: Seq<char>) -> bool {
    forall|i: int| 0 <= i < s.len() ==> #[trigger] s[i] == '\t' || (s[i] as u32 >= 32 && s[i] as u32 != 127)
}

/// Relies on `reqwest::header::HeaderValue::from_str` (from the http crate),
/// which accepts a string exactly when each of its bytes is a tab or lies in
/// 32..=255 without 127.
#[verifier::external_body]
fn is_header_value(s: &str) -> (r: bool)
    ensures
        r == header_value_valid(s@),
{
    reqwest::header::HeaderValue::from_str(s).is_ok()
}

/// The OAuth authorization endpoint of a base URL.
pub open spec fn authorize_url(base: Seq<char>) -> Seq<char> {
    base + AUTHORIZE_SUFFIX@
}

/// The OAuth token endpoint of a base URL.
pub open spec fn token_url(base: Seq<char>) -> Seq<char> {
    base + TOKEN_SUFFIX@
}

/// The URL of a record list, without query.
pub open spec fn record_url(base: Seq<char>, record: Seq<char>) -> Seq<char> {
    base + RECORD_PATH@ + record
}

/// The value of the `Authorization` header: the consumer key used as a
/// static bearer credential.
pub open spec fn bearer(key: Seq<char>) -> Seq<char> {
    "Bearer "@ + key
}

/// The two filters of a vendor-payment query over a creation-date range;
/// the dates are inserted verbatim.
pub open spec fn vendor_payment_filters(start: Seq<char>, end: Seq<char>) -> Seq<Seq<char>> {
    seq!["type IS VendPymt"@, "createddate BETWEEN '"@ + start + "' AND '"@ + end + "'"@]
}

/// Whether a status code is in the 2xx range.
pub open spec fn is_success(status: u16) -> bool {
    200 <= status <= 299
}

/// Whether the connectivity probe counts a status as reaching the API:
/// any 2xx, or 401 (reachable, credentials refused).
pub open spec fn is_reachable(status: u16) -> bool {
    is_success(status) || status == 401
}

/// A GET request to send: the full URL and the `Authorization` header value.
#[derive(Clone, Debug, PartialEq, Eq)]
pub struct ApiRequest {
    pub url: String,
    pub authorization: String,
}

/// The connection settings of one NetSuite account, checked at construction.
pub struct NetSuiteClient {
    config: NetSuiteConfig,
}

impl NetSuiteClient {
    /// The base URL the client was built with.
    pub closed spec fn base_url(&self) -> Seq<char> {
        self.config.base_url@
    }

    /// The consumer key the client was built with.
    pub closed spec fn consumer_key(&self) -> Seq<char> {
        self.config.consumer_key@
    }

    /// Whether the consumer key can be sent as a bearer header.
    pub open spec fn credential_usable(&self) -> bool {
        header_value_valid(bearer(self.consumer_key()))
    }

    /// `r` is the outcome of a request for the list of `record` with these
    /// filters and limit.
    pub open spec fn is_request_for(
        &self,
        r: Result<ApiRequest, NetSuiteError>,
        record: Seq<char>,
        filters: Seq<Seq<char>>,
        limit: Option<u32>,
    ) -> bool {
        match r {
            Ok(q) => {
                &&& self.credential_usable()
                &&& q.url@ == with_query(
                    record_url(self.base_url(), record),
                    query_params(filters, limit),
                )
                &&& q.authorization@ == bearer(self.consumer_key())
            },
            Err(e) => !self.credential_usable() && e == NetSuiteError::Authentication,
        }
    }

    /// `r` is the outcome of a vendor-payment request over a date range.
    pub open spec fn is_vendor_payments_request(
        &self,
        r: Result<ApiRequest, NetSuiteError>,
        start: Seq<char>,
        end: Seq<char>,
        limit: Option<u32>,
    ) -> bool {
        self.is_request_for(r, CHECK_RECORD@, vendor_payment_filters(start, end), limit)
    }

    /// Builds a client. Both OAuth endpoints derived from the base URL must
    /// parse as URLs; they are checked and not used further.
    pub fn new(config: AppConfig) -> (r: Result<Self, NetSuiteError>)
        ensures
            r is Ok <==> (url_parses(authorize_url(config.netsuite.base_url@)) && url_parses(
                token_url(config.netsuite.base_url@),
            )),
            r matches Ok(c) ==> c.base_url() == config.netsuite.base_url@ && c.consumer_key()
                == config.netsuite.consumer_key@,
            r matches Err(e) ==> e matches NetSuiteError::Configuration(u) && u@ == (if !url_parses(
                authorize_url(config.netsuite.base_url@),
            ) {
                authorize_url(config.netsuite.base_url@)
            } else {
                token_url(config.netsuite.base_url@)
            }),
    {
        let netsuite = config.netsuite;
        let mut auth = netsuite.base_url.clone();
        auth.append(AUTHORIZE_SUFFIX);
        if !parses_as_url(auth.as_str()) {
            return Err(NetSuiteError::Configuration(auth));
        }
        let mut token = netsuite.base_url.clone();
        token.append(TOKEN_SUFFIX);
        if !parses_as_url(token.as_str()) {
            return Err(NetSuiteError::Configuration(token));
        }
        Ok(NetSuiteClient { config: netsuite })
    }

    /// The `Authorization` header value that every request carries.
    pub fn authorization(&self) -> (r: Result<String, NetSuiteError>)
        ensures
            match r {
                Ok(h) => self.credential_usable() && h@ == bearer(self.consumer_key()),
                Err(e) => !self.credential_usable() && e == NetSuiteError::Authentication,
            },
    {
        let mut h = String::from_str("Bearer ");
        h.append(self.config.consumer_key.as_str());
        if is_header_value(h.as_str()) {
            Ok(h)
        } else {
            Err(NetSuiteError::Authentication)
        }
    }

    /// The request for the list of `record`, with the filters and limit as
    /// its query.
    fn request(&self, record: &str, filters: &[String], limit: Option<u32>) -> (r: Result<
        ApiRequest,
        NetSuiteError,
    >)
        ensures
            self.is_request_for(r, record@, filters.deep_view(), limit),
    {
        let authorization = match self.authorization() {
            Ok(h) => h,
            Err(e) => return Err(e),
        };
        let mut url = self.config.base_url.clone();
        url.append(RECORD_PATH);
        url.append(record);
        append_query(&mut url, filters, limit);
        Ok(ApiRequest { url, authorization })
    }

    /// The request of the connectivity probe: the customer list, no limit.
    pub fn connection_request(&self) -> (r: Result<ApiRequest, NetSuiteError>)
        ensures
            self.is_request_for(r, CUSTOMER_RECORD@, Seq::empty(), None),
    {
        let none: Vec<String> = Vec::new();
        self.request(CUSTOMER_RECORD, none.as_slice(), None)
    }

    /// The request for the customer list; `limit=N` only when a limit is given.
    pub fn customers_request(&self, limit: Option<u32>) -> (r: Result<ApiRequest, NetSuiteError>)
        ensures
            self.is_request_for(r, CUSTOMER_RECORD@, Seq::empty(), limit),
    {
        let none: Vec<String> = Vec::new();
        self.request(CUSTOMER_RECORD, none.as_slice(), limit)
    }

    /// The request for vendor payments created between two dates.
    pub fn vendor_payments_request(&self, start_date: &str, end_date: &str, limit: Option<u32>) -> (r:
        Result<ApiRequest, NetSuiteError>)
        ensures
            self.is_vendor_payments_request(r, start_date@, end_date@, limit),
    {
        let mut range = String::from_str("createddate BETWEEN '");
        range.append(start_date);
        range.append("' AND '");
        range.append(end_date);
        range.append("'");
        let mut filters: Vec<String> = Vec::new();
        filters.push(String::from_str("type IS VendPymt"));
        filters.push(range);
        assert(filters.deep_view() =~= vendor_payment_filters(start_date@, end_date@));
        self.request(CHECK_RECORD, filters.as_slice(), limit)
    }

    /// The request for vendor payments of the fixed range from
    /// 2024-05-01 to 2024-08-31.
    pub fn vendor_payments_2024_request(&self, limit: Option<u32>) -> (r: Result<
        ApiRequest,
        NetSuiteError,
    >)
        ensures
            self.is_vendor_payments_request(r, VENDOR_PAYMENTS_FROM@, VENDOR_PAYMENTS_TO@, limit),
    {
        self.vendor_payments_request(VENDOR_PAYMENTS_FROM, VENDOR_PAYMENTS_TO, limit)
    }

    /// The request for checks matching the filters, in order.
    pub fn transactions_request(&self, filters: &[String], limit: Option<u32>) -> (r: Result<
        ApiRequest,
        NetSuiteError,
    >)
        ensures
            self.is_request_for(r, CHECK_RECORD@, filters.deep_view(), limit),
    {
        self.request(CHECK_RECORD, filters, limit)
    }

    /// The request for sales orders matching the filters, in order.
    pub fn sales_orders_request(&self, filters: &[String], limit: Option<u32>) -> (r: Result<
        ApiRequest,
        NetSuiteError,
    >)
        ensures
            self.is_request_for(r, SALES_ORDER_RECORD@, filters.deep_view(), limit),
    {
        self.request(SALES_ORDER_RECORD, filters, limit)
    }
}

/// What the status of the connectivity probe's response means.
pub fn connection_status(status: u16) -> (r: Result<(), NetSuiteError>)
    ensures
        is_reachable(status) ==> r is Ok,
        !is_reachable(status) ==> r == Err::<(), NetSuiteError>(NetSuiteError::Status(status)),
{
    if (200 <= status && status <= 299) || status == 401 {
        Ok(())
    } else {
        Err(NetSuiteError::Status(status))
    }
}

/// What the status of a fetch's response means: only a 2xx body is decoded.
pub fn fetch_status(status: u16) -> (r: Result<(), NetSuiteError>)
    ensures
        is_success(status) ==> r is Ok,
        !is_success(status) ==> r == Err::<(), NetSuiteError>(NetSuiteError::Status(status)),
{
    if 200 <= status && status <= 299 {
        Ok(())
    } else {
        Err(NetSuiteError::Status(status))
    }
}


/// Two request outcomes that no caller can tell apart: the same URL and
/// header, or the same error.
pub open spec fn same_outcome(
    a: Result<ApiRequest, NetSuiteError>,
    b: Result<ApiRequest, NetSuiteError>,
) -> bool {
    match (a, b) {
        (Ok(x), Ok(y)) => x.url@ == y.url@ && x.authorization@ == y.authorization@,
        (Err(x), Err(y)) => x == y,
        _ => false,
    }
}

/// The customer request carries no query when no limit is given, and the
/// single parameter `limit=N` when limit `N` is given.
pub proof fn customers_limit_is_only_parameter(
    c: NetSuiteClient,
    r: Result<ApiRequest, NetSuiteError>,
    limit: Option<u32>,
)
    requires
        c.is_request_for(r, CUSTOMER_RECORD@, Seq::empty(), limit),
    ensures
        r matches Ok(q) ==> q.url@ == match limit {
            None => record_url(c.base_url(), CUSTOMER_RECORD@),
            Some(n) => record_url(c.base_url(), CUSTOMER_RECORD@) + "?limit="@ + decimal(n as nat),
        },
{
    reveal_strlit("?limit=");
    reveal_strlit("?");
    reveal_strlit("limit=");
    let none = Seq::<Seq<char>>::empty();
    assert(none.map_values(|f: Seq<char>| filter_param(f)) =~= Seq::empty());
    if let Some(n) = limit {
        let ps = query_params(none, limit);
        assert(ps.len() == 1);
        assert(join_params(ps) == ps[0]);
        assert(record_url(c.base_url(), CUSTOMER_RECORD@) + "?"@ + ("limit="@ + decimal(n as nat))
            =~= record_url(c.base_url(), CUSTOMER_RECORD@) + "?limit="@ + decimal(n as nat));
    }
}

/// A filtered transaction fetch with no filter and no limit has no query
/// string at all.
pub proof fn unfiltered_transactions_have_no_query(c: NetSuiteClient, r: Result<ApiRequest, NetSuiteError>)
    requires
        c.is_request_for(r, CHECK_RECORD@, Seq::empty(), None),
    ensures
        r matches Ok(q) ==> q.url@ == record_url(c.base_url(), CHECK_RECORD@),
{
    let none = Seq::<Seq<char>>::empty();
    assert(query_params(none, None) =~= Seq::empty());
}

/// The fixed-range vendor-payment request cannot be told apart from the
/// ranged request from 2024-05-01 to 2024-08-31, whatever the limit.
pub proof fn fixed_range_matches_explicit_range(
    c: NetSuiteClient,
    limit: Option<u32>,
    fixed: Result<ApiRequest, NetSuiteError>,
    ranged: Result<ApiRequest, NetSuiteError>,
)
    requires
        c.is_vendor_payments_request(fixed, VENDOR_PAYMENTS_FROM@, VENDOR_PAYMENTS_TO@, limit),
        c.is_vendor_payments_request(ranged, "2024-05-01"@, "2024-08-31"@, limit),
    ensures
        same_outcome(fixed, ranged),
{
}

} // verus!
