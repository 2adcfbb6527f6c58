//! The four requests of a run, described as plain values.
//!
//! Nothing here sends anything: a request says where to go, with which
//! headers, and what to carry.

use crate::failure::{Failure, FailureView};
use crate::record::{DNSRecord, DNSRecordView};
use crate::settings::{Settings, SettingsView};
use vstd::prelude::*;
use vstd::string::StringExecFns;

verus! {

/// Path of the token check below the provider's base address.
pub const VERIFY_PATH: &'static str = "/user/tokens/verify";

/// Path segment that precedes a zone's identifier.
pub const ZONES_SEGMENT: &'static str = "/zones/";

/// Path segment that follows a zone's identifier.
pub const RECORDS_SEGMENT: &'static str = "/dns_records";

/// What stands between two segments of a path.
pub const SEPARATOR: &'static str = "/";

/// What precedes the credential in the value of the authorization header.
pub const BEARER_PREFIX: &'static str = "Bearer ";

/// Name of the query parameter that restricts a request to one record type.
pub const TYPE_KEY: &'static str = "type";

/// The record type that the requests are restricted to.
pub const TYPE_VALUE: &'static str = "A";

/// Value of the content-type header of a request that carries a record.
pub const JSON_CONTENT: &'static str = "application/json";

/// How a request is made.
#[derive(Clone, Copy, Debug, PartialEq, Eq, Structural)]
pub enum Method {
    Get,
    Put,
}

/// The headers that the requests of a run set.
#[derive(Clone, Copy, Debug, PartialEq, Eq, Structural)]
pub enum HeaderName {
    Authorization,
    ContentType,
}

/// A header and its value.
#[derive(Debug, PartialEq, Eq)]
pub struct Header {
    pub name: HeaderName,
    pub value: String,
}

/// What a [`Header`] holds, as text.
pub struct HeaderView {
    pub name: HeaderName,
    pub value: Seq<char>,
}

impl View for Header {
    type V = HeaderView;

    open spec fn view(&self) -> HeaderView {
        HeaderView { name: self.name, value: self.value@ }
    }
}

impl DeepView for Header {
    type V = HeaderView;

    open spec fn deep_view(&self) -> HeaderView {
        self@
    }
}

/// A request, ready to be sent by whoever holds a connection.
///
/// `url` is the address without the query; the pairs of `query` are appended
/// to it by the sender, and `body`, where there is one, travels as JSON.
#[derive(Debug, PartialEq, Eq)]
pub struct HttpRequest {
    pub method: Method,
    pub url: String,
    pub query: Vec<(String, String)>,
    pub headers: Vec<Header>,
    pub body: Option<DNSRecord>,
}

/// What an [`HttpRequest`] holds, as text.
pub struct HttpRequestView {
    pub method: Method,
    pub url: Seq<char>,
    pub query: Seq<(Seq<char>, Seq<char>)>,
    pub headers: Seq<HeaderView>,
    pub body: Option<DNSRecordView>,
}

impl View for HttpRequest {
    type V = HttpRequestView;

    open spec fn view(&self) -> HttpRequestView {
        HttpRequestView {
            method: self.method,
            url: self.url@,
            query: self.query.deep_view(),
            headers: self.headers.deep_view(),
            body: self.body.deep_view(),
        }
    }
}

impl DeepView for HttpRequest {
    type V = HttpRequestView;

    open spec fn deep_view(&self) -> HttpRequestView {
        self@
    }
}

/// The authorization header that presents `token`.
pub open spec fn bearer(token: Seq<char>) -> HeaderView {
    HeaderView { name: HeaderName::Authorization, value: BEARER_PREFIX@ + token }
}

/// The header that announces a JSON body.
pub open spec fn json_content() -> HeaderView {
    HeaderView { name: HeaderName::ContentType, value: JSON_CONTENT@ }
}

/// The query that restricts a request to address records.
pub open spec fn type_query() -> Seq<(Seq<char>, Seq<char>)> {
    seq![(TYPE_KEY@, TYPE_VALUE@)]
}

/// Address of the token check.
pub open spec fn verify_url(settings: SettingsView) -> Seq<char> {
    settings.api_url + VERIFY_PATH@
}

/// Address of the record list of the configured zone.
pub open spec fn zone_url(settings: SettingsView) -> Seq<char> {
    settings.api_url + ZONES_SEGMENT@ + settings.zone_id + RECORDS_SEGMENT@
}

/// Address of one record, in the zone that the record itself names.
pub open spec fn record_url(settings: SettingsView, dns: DNSRecordView) -> Seq<char> {
    settings.api_url + ZONES_SEGMENT@ + dns.zone_id + RECORDS_SEGMENT@ + SEPARATOR@ + dns.id
}

/// The token check: a `GET` that presents the credential and nothing else.
pub open spec fn check_auth_request_view(settings: SettingsView, token: Seq<char>) -> HttpRequestView {
    HttpRequestView {
        method: Method::Get,
        url: verify_url(settings),
        query: Seq::empty(),
        headers: seq![bearer(token)],
        body: None,
    }
}

/// The listing of the zone's address records: a `GET` that presents the
/// credential and asks for type `A`.
pub open spec fn get_zone_request_view(settings: SettingsView, token: Seq<char>) -> HttpRequestView {
    HttpRequestView {
        method: Method::Get,
        url: zone_url(settings),
        query: type_query(),
        headers: seq![bearer(token)],
        body: None,
    }
}

/// The question for the public address: a `GET` without credential.
pub open spec fn get_current_ip_request_view(settings: SettingsView) -> HttpRequestView {
    HttpRequestView {
        method: Method::Get,
        url: settings.ip_url,
        query: Seq::empty(),
        headers: Seq::empty(),
        body: None,
    }
}

/// The update of one record: a `PUT` to the record's own address that
/// presents the credential, announces JSON and carries the whole record.
pub open spec fn set_zone_ip_request_view(
    settings: SettingsView,
    token: Seq<char>,
    dns: DNSRecordView,
) -> HttpRequestView {
    HttpRequestView {
        method: Method::Put,
        url: record_url(settings, dns),
        query: type_query(),
        headers: seq![bearer(token), json_content()],
        body: Some(dns),
    }
}

/// Builds the authorization header for a credential, or fails where there is
/// none.
fn bearer_header(credential: &Option<String>) -> (res: Result<Header, Failure>)
    ensures
        match res {
            Ok(header) => credential matches Some(token) && header@ == bearer(token@),
            Err(failure) => credential is None && failure@ == FailureView::MissingCredential,
        },
{
    match credential {
        Some(token) => {
            let value = BEARER_PREFIX.to_owned().concat(token.as_str());
            Ok(Header { name: HeaderName::Authorization, value })
        },
        None => Err(Failure::MissingCredential),
    }
}

/// Builds the one-pair query that restricts a request to address records.
fn type_pairs() -> (res: Vec<(String, String)>)
    ensures
        res.deep_view() == type_query(),
{
    let mut res: Vec<(String, String)> = Vec::new();
    res.push((TYPE_KEY.to_owned(), TYPE_VALUE.to_owned()));
    assert(res.deep_view() =~= type_query());
    res
}

/// Describes the token check.
///
/// Fails with [`Failure::MissingCredential`] exactly where `credential` is
/// `None`; no request is described then.
pub fn check_auth_request(settings: &Settings, credential: &Option<String>) -> (res: Result<
    HttpRequest,
    Failure,
>)
    ensures
        match res {
            Ok(request) => credential matches Some(token) && request@ == check_auth_request_view(
                settings@,
                token@,
            ),
            Err(failure) => credential is None && failure@ == FailureView::MissingCredential,
        },
{
    match bearer_header(credential) {
        Ok(header) => {
            let url = settings.api_url.clone().concat(VERIFY_PATH);
            let mut headers: Vec<Header> = Vec::new();
            headers.push(header);
            let request = HttpRequest {
                method: Method::Get,
                url,
                query: Vec::new(),
                headers,
                body: None,
            };
            assert(request@.query =~= Seq::empty());
            assert(request@.headers =~= seq![header@]);
            Ok(request)
        },
        Err(failure) => Err(failure),
    }
}

/// Describes the listing of the zone's address records.
///
/// Fails with [`Failure::MissingCredential`] exactly where `credential` is
/// `None`; no request is described then.
pub fn get_zone_request(settings: &Settings, credential: &Option<String>) -> (res: Result<
    HttpRequest,
    Failure,
>)
    ensures
        match res {
            Ok(request) => credential matches Some(token) && request@ == get_zone_request_view(
                settings@,
                token@,
            ),
            Err(failure) => credential is None && failure@ == FailureView::MissingCredential,
        },
{
    match bearer_header(credential) {
        Ok(header) => {
            let mut url = settings.api_url.clone();
            url.append(ZONES_SEGMENT);
            url.append(settings.zone_id.as_str());
            url.append(RECORDS_SEGMENT);
            let mut headers: Vec<Header> = Vec::new();
            headers.push(header);
            let request = HttpRequest {
                method: Method::Get,
                url,
                query: type_pairs(),
                headers,
                body: None,
            };
            assert(request@.headers =~= seq![header@]);
            Ok(request)
        },
        Err(failure) => Err(failure),
    }
}

/// Describes the question for the machine's public address.  It needs no
/// credential and cannot fail.
pub fn get_current_ip_request(settings: &Settings) -> (res: HttpRequest)
    ensures
        res@ == get_current_ip_request_view(settings@),
{
    let request = HttpRequest {
        method: Method::Get,
        url: settings.ip_url.clone(),
        query: Vec::new(),
        headers: Vec::new(),
        body: None,
    };
    assert(request@.query =~= Seq::empty());
    assert(request@.headers =~= Seq::empty());
    request
}

/// Describes the update that writes `dns` back to the provider.
///
/// The request carries `dns` as it is handed in, field for field.  Fails with
/// [`Failure::MissingCredential`] exactly where `credential` is `None`; no
/// request is described then.
pub fn set_zone_ip_request(
    settings: &Settings,
    credential: &Option<String>,
    dns: &DNSRecord,
) -> (res: Result<HttpRequest, Failure>)
    ensures
        match res {
            Ok(request) => credential matches Some(token) && request@ == set_zone_ip_request_view(
                settings@,
                token@,
                dns@,
            ),
            Err(failure) => credential is None && failure@ == FailureView::MissingCredential,
        },
{
    match bearer_header(credential) {
        Ok(header) => {
            let mut url = settings.api_url.clone();
            url.append(ZONES_SEGMENT);
            url.append(dns.zone_id.as_str());
            url.append(RECORDS_SEGMENT);
            url.append(SEPARATOR);
            url.append(dns.id.as_str());
            let content = Header { name: HeaderName::ContentType, value: JSON_CONTENT.to_owned() };
            let mut headers: Vec<Header> = Vec::new();
            headers.push(header);
            headers.push(content);
            let request = HttpRequest {
                method: Method::Put,
                url,
                query: type_pairs(),
                headers,
                body: Some(dns.clone()),
            };
            assert(request@.headers =~= seq![header@, content@]);
            Ok(request)
        },
        Err(failure) => Err(failure),
    }
}

} // verus!
