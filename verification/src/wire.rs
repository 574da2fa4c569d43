//! What this library assumes of the HTTP request types that it carries.
//!
//! A signed request arrives as the SDK runtime's `Request` and leaves as an
//! `http` 0.2 `Request`. Both are opaque here: nothing in this library looks
//! inside one. What it reads of the first it reads through the runtime's own
//! methods: the method, the URI and the headers as text, the number of header
//! values, and the headers as `Debug` shows them. Three things more decide
//! whether a request can be duplicated and converted: whether its body is the
//! empty one, whether its URI can be had as an http 0.2 URI, and whether its
//! extensions can be had as http 0.2 extensions. Each of these has a name
//! below, and each call into the runtime states, without proof, what it
//! returns or what it does to them.
//!
//! The `http` 0.2 request is generic in its body, so it has no names of its
//! own. What is said of one is said of what its own accessors return: its
//! `method`, `uri`, `headers` and `body`. [`carries`] puts that together.

use crate::method::is_http02x_method;
use aws_smithy_runtime_api::client::orchestrator::HttpRequest;
use aws_smithy_runtime_api::http::HttpError;
use aws_smithy_runtime_api::http::Request;
use aws_smithy_types::body::SdkBody;
use vstd::prelude::*;

verus! {

/// The SDK runtime's request body.
#[verifier::external_type_specification]
#[verifier::external_body]
pub struct ExSdkBody(SdkBody);

/// The SDK runtime's HTTP request.
#[verifier::external_type_specification]
#[verifier::external_body]
#[verifier::reject_recursive_types(B)]
pub struct ExRequest<B>(Request<B>);

/// The SDK runtime's error for a request that cannot be built or converted.
#[verifier::external_type_specification]
#[verifier::external_body]
pub struct ExHttpError(HttpError);

/// The `http` 0.2 request.
#[verifier::external_type_specification]
#[verifier::external_body]
#[verifier::reject_recursive_types(T)]
pub struct ExOutboundRequest<T>(http::Request<T>);

/// The `http` 0.2 request method.
#[verifier::external_type_specification]
#[verifier::external_body]
pub struct ExMethod(http::Method);

/// The `http` 0.2 URI.
#[verifier::external_type_specification]
#[verifier::external_body]
pub struct ExUri(http::Uri);

/// The `http` 0.2 header value.
#[verifier::external_type_specification]
#[verifier::external_body]
pub struct ExHeaderValue(http::HeaderValue);

/// The `http` 0.2 header map.
#[verifier::external_type_specification]
#[verifier::external_body]
#[verifier::reject_recursive_types(T)]
pub struct ExHeaderMap<T>(http::HeaderMap<T>);

/// The request's method: the text that `Request::method` returns.
pub uninterp spec fn request_method(request: HttpRequest) -> Seq<char>;

/// The request's URI: the text that `Request::uri` returns.
pub uninterp spec fn request_uri(request: HttpRequest) -> Seq<char>;

/// The request's headers as name and value, in the order in which
/// `Request::headers` and then `Headers::iter` hand them out.
pub uninterp spec fn request_headers(request: HttpRequest) -> Seq<(Seq<char>, Seq<char>)>;

/// The text that `Debug` writes for the request's `Headers`, which hides the
/// values of the headers that carry credentials.
pub uninterp spec fn request_headers_debug(request: HttpRequest) -> Seq<char>;

/// The text that `Debug` writes for a text: the text in double quotes, with
/// the characters escaped that Rust escapes in a string literal.
pub uninterp spec fn debug_text(text: Seq<char>) -> Seq<char>;

/// How many header values the request holds: the number that `Headers::len`
/// returns on `Request::headers`. It counts the values that are no text too,
/// which [`request_headers`] leaves out.
pub uninterp spec fn request_header_count(request: HttpRequest) -> usize;

/// Whether the request's body is the empty one: a body that `SdkBody::empty`
/// made, or a duplicate of such a body.
pub uninterp spec fn request_body_is_empty(request: HttpRequest) -> bool;

/// Whether the request's URI can be had as an http 0.2 URI: the first thing
/// that `Request::try_into_http02x` asks.
pub uninterp spec fn request_uri_fits_http02x(request: HttpRequest) -> bool;

/// Whether the request's extensions can be had as http 0.2 extensions: the
/// last thing that `Request::try_into_http02x` asks.
pub uninterp spec fn request_extensions_fit_http02x(request: HttpRequest) -> bool;

/// The URI that `Request::try_into_http02x` gives the http 0.2 request, as
/// [`uri_text`] shows it. It is the request's own URI as http 0.2 reads it,
/// and its text may differ from [`request_uri`]: http 0.2 writes a path of `/`
/// where the request's URI has none, and no fragment.
pub uninterp spec fn request_http02x_uri(request: HttpRequest) -> Seq<char>;

/// The headers that `Request::try_into_http02x` gives the http 0.2 request, as
/// [`header_map_entries`] shows them. They are the request's own headers,
/// those whose value is no text among them.
pub uninterp spec fn request_http02x_headers(request: HttpRequest) -> Seq<(Seq<char>, Seq<u8>)>;

/// The text of an http 0.2 method: what `Method::as_str` returns.
pub uninterp spec fn method_text(method: http::Method) -> Seq<char>;

/// The text of an http 0.2 URI: what its `Display` writes.
pub uninterp spec fn uri_text(uri: http::Uri) -> Seq<char>;

/// What an http 0.2 header map holds: name and value of each header, the
/// value as bytes, in the order in which `HeaderMap::iter` hands them out.
pub uninterp spec fn header_map_entries(headers: http::HeaderMap<http::HeaderValue>) -> Seq<
    (Seq<char>, Seq<u8>),
>;

/// `http::Request::method`. Nothing is assumed of it; contracts speak of what
/// it returns.
pub assume_specification<T>[ http::Request::<T>::method ](request: &http::Request<T>) -> (method:
    &http::Method)
;

/// `http::Request::uri`. Nothing is assumed of it; contracts speak of what it
/// returns.
pub assume_specification<T>[ http::Request::<T>::uri ](request: &http::Request<T>) -> (uri:
    &http::Uri)
;

/// `http::Request::headers`. Nothing is assumed of it; contracts speak of what
/// it returns.
pub assume_specification<T>[ http::Request::<T>::headers ](request: &http::Request<T>) -> (headers:
    &http::HeaderMap<http::HeaderValue>)
;

/// `http::Request::body`. Nothing is assumed of it; contracts speak of what
/// it returns.
pub assume_specification<T>[ http::Request::<T>::body ](request: &http::Request<T>) -> (body: &T)
;

/// Whether an http 0.2 request has this head: whatever its `method`, `uri`
/// and `headers` return is the given method, URI and headers.
pub open spec fn has_head<B>(
    outbound: http::Request<B>,
    method: Seq<char>,
    uri: Seq<char>,
    headers: Seq<(Seq<char>, Seq<u8>)>,
) -> bool {
    &&& forall|m: &http::Method| #[trigger]
        call_ensures(http::Request::<B>::method, (&outbound,), m) ==> method_text(*m) == method
    &&& forall|u: &http::Uri| #[trigger]
        call_ensures(http::Request::<B>::uri, (&outbound,), u) ==> uri_text(*u) == uri
    &&& forall|h: &http::HeaderMap<http::HeaderValue>| #[trigger]
        call_ensures(http::Request::<B>::headers, (&outbound,), h) ==> header_map_entries(*h)
            == headers
}

/// Whether an http 0.2 request carries this head and this body: it has the
/// head, and whatever its `body` returns is the given body.
pub open spec fn carries<B>(
    outbound: http::Request<B>,
    method: Seq<char>,
    uri: Seq<char>,
    headers: Seq<(Seq<char>, Seq<u8>)>,
    body: B,
) -> bool {
    &&& has_head(outbound, method, uri, headers)
    &&& forall|b: &B| #[trigger]
        call_ensures(http::Request::<B>::body, (&outbound,), b) ==> *b == body
}

/// `Request::method`.
#[verifier::external_body]
pub(crate) fn method_of(request: &HttpRequest) -> (method: &str)
    ensures
        method@ == request_method(*request),
{
    request.method()
}

/// `Request::uri`.
#[verifier::external_body]
pub(crate) fn uri_of(request: &HttpRequest) -> (uri: &str)
    ensures
        uri@ == request_uri(*request),
{
    request.uri()
}

/// `Headers::len` on `Request::headers`.
#[verifier::external_body]
pub(crate) fn header_count_of(request: &HttpRequest) -> (count: usize)
    ensures
        count == request_header_count(*request),
{
    request.headers().len()
}

/// `Headers::iter` on `Request::headers`, collected: every header whose
/// value is text, in the runtime's order.
#[verifier::external_body]
pub(crate) fn headers_of(request: &HttpRequest) -> (headers: Vec<(&str, &str)>)
    ensures
        headers.deep_view() == request_headers(*request),
{
    request.headers().iter().collect()
}

/// `Debug` for `Headers`, on `Request::headers`.
#[verifier::external_body]
pub(crate) fn headers_debug_of(request: &HttpRequest) -> (shown: String)
    ensures
        shown@ == request_headers_debug(*request),
{
    format!("{:?}", request.headers())
}

/// `Debug` for `str`.
#[verifier::external_body]
pub(crate) fn quoted(text: &str) -> (shown: String)
    ensures
        shown@ == debug_text(text@),
{
    format!("{:?}", text)
}

/// `Request::map` with a closure that answers `SdkBody::empty()`: the request
/// with an empty body in place of its own. `map` moves method, URI and headers
/// over as they are.
#[verifier::external_body]
pub(crate) fn without_body(request: HttpRequest) -> (stripped: HttpRequest)
    ensures
        request_method(stripped) == request_method(request),
        request_uri(stripped) == request_uri(request),
        request_headers(stripped) == request_headers(request),
        request_headers_debug(stripped) == request_headers_debug(request),
        request_header_count(stripped) == request_header_count(request),
        request_uri_fits_http02x(stripped) == request_uri_fits_http02x(request),
        request_http02x_uri(stripped) == request_http02x_uri(request),
        request_http02x_headers(stripped) == request_http02x_headers(request),
        request_body_is_empty(stripped),
{
    request.map(|_body| SdkBody::empty())
}

/// `Request::try_clone`: a duplicate of the request. It is asked of a request
/// with the empty body only, which can always be made again: a body of the
/// caller's may fail to, or panic over it. The duplicate has method, URI and
/// headers cloned, the empty body again, and no extensions, so that its
/// extensions fit http 0.2.
pub assume_specification[ Request::<SdkBody>::try_clone ](request: &HttpRequest) -> (r: Option<
    HttpRequest,
>)
    requires
        request_body_is_empty(*request),
    ensures
        r is Some,
        r matches Some(copy) ==> {
            &&& request_method(copy) == request_method(*request)
            &&& request_uri(copy) == request_uri(*request)
            &&& request_headers(copy) == request_headers(*request)
            &&& request_headers_debug(copy) == request_headers_debug(*request)
            &&& request_header_count(copy) == request_header_count(*request)
            &&& request_uri_fits_http02x(copy) == request_uri_fits_http02x(*request)
            &&& request_http02x_uri(copy) == request_http02x_uri(*request)
            &&& request_http02x_headers(copy) == request_http02x_headers(*request)
            &&& request_body_is_empty(copy)
            &&& request_extensions_fit_http02x(copy)
        },
;

/// The most header values with which a request is handed to
/// `Request::try_into_http02x`. http 0.2's header map has room for 32768
/// entries and panics when it is asked for more. It is asked for as many as
/// the request holds values, and it doubles its room when colliding names
/// fill a fifth of it; with at most 6553 values neither goes past the limit.
pub const MAX_HEADER_VALUES: usize = 6553;

/// `Request::try_into_http02x`: the request as an http 0.2 request, which
/// there is when URI and extensions fit. It panics on a method that http 0.2
/// does not take and on more headers than http 0.2 has room for, so such a
/// request is kept from it. The http 0.2 request has a method of the same
/// text, since it is made from that text, and the URI and the headers that
/// the conversion makes of the request's.
#[verifier::external_body]
pub(crate) fn into_http02x(request: HttpRequest) -> (r: Result<http::Request<SdkBody>, HttpError>)
    requires
        is_http02x_method(request_method(request)),
        request_header_count(request) <= MAX_HEADER_VALUES,
    ensures
        r is Ok <==> (request_uri_fits_http02x(request) && request_extensions_fit_http02x(
            request,
        )),
        r matches Ok(converted) ==> {
            &&& forall|m: &http::Method| #[trigger]
                call_ensures(http::Request::<SdkBody>::method, (&converted,), m) ==> method_text(
                    *m,
                ) == request_method(request)
            &&& forall|u: &http::Uri| #[trigger]
                call_ensures(http::Request::<SdkBody>::uri, (&converted,), u) ==> uri_text(*u)
                    == request_http02x_uri(request)
            &&& forall|h: &http::HeaderMap<http::HeaderValue>| #[trigger]
                call_ensures(http::Request::<SdkBody>::headers, (&converted,), h)
                    ==> header_map_entries(*h) == request_http02x_headers(request)
        },
{
    request.try_into_http02x()
}

/// `http::Request::map` with a closure that answers `body`: the http 0.2
/// request with `body` in place of its own. `map` moves the head over as it
/// is, so `method`, `uri` and `headers` return on the new request what they
/// return on the old one, and `body` returns the new body.
#[verifier::external_body]
pub(crate) fn with_body<B>(request: http::Request<SdkBody>, body: B) -> (outbound: http::Request<B>)
    ensures
        forall|m: &http::Method| #[trigger]
            call_ensures(http::Request::<B>::method, (&outbound,), m) ==> call_ensures(
                http::Request::<SdkBody>::method,
                (&request,),
                m,
            ),
        forall|u: &http::Uri| #[trigger]
            call_ensures(http::Request::<B>::uri, (&outbound,), u) ==> call_ensures(
                http::Request::<SdkBody>::uri,
                (&request,),
                u,
            ),
        forall|h: &http::HeaderMap<http::HeaderValue>| #[trigger]
            call_ensures(http::Request::<B>::headers, (&outbound,), h) ==> call_ensures(
                http::Request::<SdkBody>::headers,
                (&request,),
                h,
            ),
        forall|b: &B| #[trigger]
            call_ensures(http::Request::<B>::body, (&outbound,), b) ==> *b == body,
{
    request.map(move |_empty| body)
}

} // verus!
