//! The handle on a presigned request: method, URI and headers of a request
//! that was already signed, with no body, kept so that it can always be
//! duplicated and always be turned into an http 0.2 request.

use crate::headers::drop_host;
use crate::headers::is_host;
use crate::headers::lemma_without_host_keeps_no_host;
use crate::headers::lemma_without_host_keeps_the_others;
use crate::headers::lemma_without_host_of_no_host;
use crate::headers::without_host;
use crate::headers::HeaderText;
use crate::method::fits_http02x;
use crate::method::is_http02x_method;
use crate::wire::carries;
use crate::wire::debug_text;
use crate::wire::header_count_of;
use crate::wire::headers_debug_of;
use crate::wire::headers_of;
use crate::wire::into_http02x;
use crate::wire::method_of;
use crate::wire::quoted;
use crate::wire::request_body_is_empty;
use crate::wire::request_extensions_fit_http02x;
use crate::wire::request_header_count;
use crate::wire::request_headers;
use crate::wire::request_headers_debug;
use crate::wire::request_http02x_headers;
use crate::wire::request_http02x_uri;
use crate::wire::request_method;
use crate::wire::request_uri;
use crate::wire::request_uri_fits_http02x;
use crate::wire::uri_of;
use crate::wire::with_body;
use crate::wire::without_body;
use crate::wire::MAX_HEADER_VALUES;
use aws_smithy_runtime_api::client::orchestrator::HttpRequest;
use aws_smithy_runtime_api::http::HttpError;
use vstd::pervasive::unreached;
use vstd::prelude::*;
use vstd::string::StringExecFns;

verus! {

/// Why a signed request could not be made into a handle.
#[derive(Debug)]
pub enum PresignedRequestError {
    /// The request's method is none that an http 0.2 request can carry.
    UnsupportedMethod,
    /// The request holds more header values than [`MAX_HEADER_VALUES`].
    TooManyHeaders,
    /// The request has no http 0.2 form; the error is the one that the attempt
    /// to convert it gave.
    Conversion(HttpError),
}

/// What a handle shows: the model of a [`PresignedRequest`].
pub struct RequestView {
    /// The HTTP method.
    pub method: Seq<char>,
    /// The URI, which holds the signature where it is sent in the query.
    pub uri: Seq<char>,
    /// The headers as name and value, in the order in which they are stored,
    /// without any that is named `Host`.
    pub headers: Seq<HeaderText>,
}

/// The text that describes a request with the given method, URI and headers
/// to a person. It names the three and nothing else: no body.
pub open spec fn debug_rendering(method: Seq<char>, uri: Seq<char>, headers: Seq<char>) -> Seq<
    char,
> {
    "PresignedRequest { method: "@ + method + ", uri: "@ + uri + ", headers: "@ + headers + " }"@
}

/// What a handle on a signed request shows of it: its method, its URI, and
/// its headers but `Host`.
pub open spec fn view_of(request: HttpRequest) -> RequestView {
    RequestView {
        method: request_method(request),
        uri: request_uri(request),
        headers: without_host(request_headers(request)),
    }
}

/// Whether a signed request can be made into a handle: its method is one of
/// http 0.2, it holds no more header values than can be converted, and its
/// URI can be had as an http 0.2 URI.
pub open spec fn is_presignable(request: HttpRequest) -> bool {
    &&& is_http02x_method(request_method(request))
    &&& request_header_count(request) <= MAX_HEADER_VALUES
    &&& request_uri_fits_http02x(request)
}

/// Represents a presigned request. This only includes the HTTP request method, URI, and headers.
///
/// The request is kept without a body and without extensions. It can be
/// duplicated with `clone`, and turned into an `http::Request` with
/// [`make_http_02x_request`](Self::make_http_02x_request) or
/// [`into_http_02x_request`](Self::into_http_02x_request); none of these fails.
#[non_exhaustive]
pub struct PresignedRequest {
    http_request: HttpRequest,
}

impl View for PresignedRequest {
    type V = RequestView;

    closed spec fn view(&self) -> RequestView {
        view_of(self.http_request)
    }
}

impl Clone for PresignedRequest {
    /// An independent handle that shows the same method, URI and headers.
    fn clone(&self) -> (copy: Self)
        ensures
            copy@ == self@,
            copy.headers_debug() == self.headers_debug(),
            copy.http02x_uri() == self.http02x_uri(),
            copy.http02x_headers() == self.http02x_headers(),
    {
        proof {
            use_type_invariant(self);
        }
        match self.http_request.try_clone() {
            Some(http_request) => PresignedRequest { http_request },
            None => unreached(),
        }
    }
}

impl PresignedRequest {
    /// The stored request has the empty body, and what its conversion to an
    /// http 0.2 request asks for: so a duplicate can be made of it, and the
    /// conversion succeeds.
    #[verifier::type_invariant]
    spec fn convertible(self) -> bool {
        &&& request_body_is_empty(self.http_request)
        &&& request_extensions_fit_http02x(self.http_request)
        &&& is_presignable(self.http_request)
    }

    /// The headers as their `Debug` shows them, with the values hidden that
    /// carry credentials.
    pub closed spec fn headers_debug(&self) -> Seq<char> {
        request_headers_debug(self.http_request)
    }

    /// The URI as the http 0.2 request carries it: the handle's URI as http
    /// 0.2 reads it.
    pub closed spec fn http02x_uri(&self) -> Seq<char> {
        request_http02x_uri(self.http_request)
    }

    /// The headers as the http 0.2 request carries them: name and value of
    /// each, the value as bytes. A header named `Host` and a value that is no
    /// text are among them, if the signed request held one.
    pub closed spec fn http02x_headers(&self) -> Seq<(Seq<char>, Seq<u8>)> {
        request_http02x_headers(self.http_request)
    }

    /// Makes a handle from a signed request, if the request has an http 0.2
    /// form.
    ///
    /// The request's body is thrown out and the empty body put in its place.
    /// Of the result a duplicate is kept, which drops the extensions, and one
    /// more duplicate is converted to an http 0.2 request, to see that it can
    /// be. The converted request is thrown away; its error, if it gave one, is
    /// returned.
    ///
    /// A request is refused before that where the conversion would not
    /// return: for a method that http 0.2 does not take, and for more header
    /// values than [`MAX_HEADER_VALUES`].
    pub fn new(inner: HttpRequest) -> (r: Result<PresignedRequest, PresignedRequestError>)
        ensures
            r is Ok <==> is_presignable(inner),
            r matches Ok(handle) ==> {
                &&& handle@ == view_of(inner)
                &&& handle.headers_debug() == request_headers_debug(inner)
                &&& handle.http02x_uri() == request_http02x_uri(inner)
                &&& handle.http02x_headers() == request_http02x_headers(inner)
            },
            r matches Err(error) ==> {
                &&& error is UnsupportedMethod <==> !is_http02x_method(request_method(inner))
                &&& error is TooManyHeaders <==> is_http02x_method(request_method(inner))
                    && request_header_count(inner) > MAX_HEADER_VALUES
                &&& error is Conversion <==> is_http02x_method(request_method(inner))
                    && request_header_count(inner) <= MAX_HEADER_VALUES
                    && !request_uri_fits_http02x(inner)
            },
    {
        let stripped = without_body(inner);
        if !fits_http02x(method_of(&stripped)) {
            return Err(PresignedRequestError::UnsupportedMethod);
        }
        if header_count_of(&stripped) > MAX_HEADER_VALUES {
            return Err(PresignedRequestError::TooManyHeaders);
        }
        let http_request = match stripped.try_clone() {
            Some(copy) => copy,
            None => unreached(),
        };
        let trial = match http_request.try_clone() {
            Some(copy) => copy,
            None => unreached(),
        };
        match into_http02x(trial) {
            Ok(_) => Ok(PresignedRequest { http_request }),
            Err(error) => Err(PresignedRequestError::Conversion(error)),
        }
    }

    /// Returns the HTTP request method.
    pub fn method(&self) -> (method: &str)
        ensures
            method@ == self@.method,
            is_http02x_method(method@),
    {
        proof {
            use_type_invariant(self);
        }
        method_of(&self.http_request)
    }

    /// Returns the HTTP request URI.
    pub fn uri(&self) -> (uri: &str)
        ensures
            uri@ == self@.uri,
    {
        uri_of(&self.http_request)
    }

    /// Returns any HTTP headers that need to go along with the request, except for `Host`,
    /// which should be sent based on the endpoint in the URI by the HTTP client rather than
    /// added directly.
    ///
    /// These are the headers of the signed request, each of them and no other, in
    /// the order in which the request holds them. One that is named `Host` is
    /// left out.
    pub fn headers(&self) -> (headers: Vec<(&str, &str)>)
        ensures
            headers.deep_view() == self@.headers,
    {
        drop_host(headers_of(&self.http_request))
    }

    /// The text for diagnostic display: method, URI and headers, as `Debug`
    /// shows each of them.
    pub fn to_debug_string(&self) -> (text: String)
        ensures
            text@ == debug_rendering(
                debug_text(self@.method),
                debug_text(self@.uri),
                self.headers_debug(),
            ),
    {
        let method = quoted(self.method());
        let uri = quoted(self.uri());
        let headers = headers_debug_of(&self.http_request);
        let mut text = "PresignedRequest { method: ".to_owned();
        text.append(method.as_str());
        text.append(", uri: ");
        text.append(uri.as_str());
        text.append(", headers: ");
        text.append(headers.as_str());
        text.append(" }");
        text
    }

    /// Given a body, produce an `http::Request` from this `PresignedRequest`
    ///
    /// The handle stays as it is: a duplicate of it is converted. This cannot
    /// fail. The request that comes back is the one that
    /// [`into_http_02x_request`](Self::into_http_02x_request) gives: its method
    /// is the handle's, its URI and headers are the handle's in their http 0.2
    /// form, and its body is `body`.
    pub fn make_http_02x_request<B>(&self, body: B) -> (outbound: http::Request<B>)
        ensures
            carries(outbound, self@.method, self.http02x_uri(), self.http02x_headers(), body),
    {
        self.clone().into_http_02x_request(body)
    }

    /// Converts this `PresignedRequest` directly into an `http` request.
    ///
    /// The request that was kept is converted as the SDK runtime converts it,
    /// and `body` is put in the place of its empty body. This cannot fail: that
    /// it can be converted was seen when the handle was made.
    ///
    /// Of the request that comes back, `method` returns a method with the
    /// handle's text, `uri` and `headers` return the handle's URI and headers in
    /// their http 0.2 form, and `body` returns `body`.
    pub fn into_http_02x_request<B>(self, body: B) -> (outbound: http::Request<B>)
        ensures
            carries(outbound, self@.method, self.http02x_uri(), self.http02x_headers(), body),
    {
        proof {
            use_type_invariant(&self);
        }
        match into_http02x(self.http_request) {
            Ok(converted) => with_body(converted, body),
            Err(_) => unreached(),
        }
    }
}

/// Reading a handle does not change it. Whatever two calls of `headers` on one
/// handle return, they hold the same names and values in the same order, those
/// that the handle shows; and whatever two calls of `clone` return, the
/// duplicates show the same method, URI and headers as the handle, and so as
/// each other.
pub proof fn law_reads_repeat(
    handle: PresignedRequest,
    first_headers: Vec<(&str, &str)>,
    second_headers: Vec<(&str, &str)>,
    first_copy: PresignedRequest,
    second_copy: PresignedRequest,
)
    requires
        call_ensures(PresignedRequest::headers, (&handle,), first_headers),
        call_ensures(PresignedRequest::headers, (&handle,), second_headers),
        call_ensures(PresignedRequest::clone, (&handle,), first_copy),
        call_ensures(PresignedRequest::clone, (&handle,), second_copy),
    ensures
        first_headers.deep_view() == second_headers.deep_view(),
        first_headers.deep_view() == handle@.headers,
        first_copy@ == second_copy@,
        first_copy@ == handle@,
{
}

/// A handle shows what the signed request showed: the same method, the same
/// URI, and of its headers every one that is not named `Host`, in the same
/// order and with nothing put in. No header that it shows is named `Host`, and
/// where the signed request had none of that name, it shows them all. Its
/// duplicates show the same.
pub proof fn law_handle_shows_the_signed_request(
    inner: HttpRequest,
    handle: PresignedRequest,
    headers: Vec<(&str, &str)>,
    copy: PresignedRequest,
    copy_headers: Vec<(&str, &str)>,
)
    requires
        call_ensures(PresignedRequest::new, (inner,), Ok::<
            PresignedRequest,
            PresignedRequestError,
        >(handle)),
        call_ensures(PresignedRequest::headers, (&handle,), headers),
        call_ensures(PresignedRequest::clone, (&handle,), copy),
        call_ensures(PresignedRequest::headers, (&copy,), copy_headers),
    ensures
        handle@.method == request_method(inner),
        handle@.uri == request_uri(inner),
        headers.deep_view() == without_host(request_headers(inner)),
        forall|i: int|
            0 <= i < headers.deep_view().len() ==> {
                &&& !is_host((#[trigger] headers.deep_view()[i]).0)
                &&& request_headers(inner).contains(headers.deep_view()[i])
            },
        forall|i: int|
            0 <= i < request_headers(inner).len() && !is_host(
                (#[trigger] request_headers(inner)[i]).0,
            ) ==> headers.deep_view().contains(request_headers(inner)[i]),
        (forall|i: int|
            0 <= i < request_headers(inner).len() ==> !is_host(
                (#[trigger] request_headers(inner)[i]).0,
            )) ==> headers.deep_view() == request_headers(inner),
        copy@ == handle@,
        copy_headers.deep_view() == headers.deep_view(),
{
    let signed = request_headers(inner);
    lemma_without_host_keeps_no_host(signed);
    assert forall|i: int| 0 <= i < signed.len() && !is_host((#[trigger] signed[i]).0) implies
        without_host(signed).contains(signed[i]) by {
        lemma_without_host_keeps_the_others(signed, i);
    }
    if forall|i: int| 0 <= i < signed.len() ==> !is_host((#[trigger] signed[i]).0) {
        lemma_without_host_of_no_host(signed);
    }
}

} // verus!
