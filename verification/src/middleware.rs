//! Rewriting error responses into the common error format.
use vstd::prelude::*;
use crate::error::{ApiError, status_text};
use crate::status::{is_client_error, is_server_error, spec_is_client_error, spec_is_server_error};
use crate::text::str_eq;

verus! {

/// How an error response is rewritten.
#[derive(Debug, Clone, PartialEq, Eq)]
pub struct ErrorRewrite {
    /// The body that replaces the response's own, with the headers that
    /// describe the old body removed; `None` keeps a body that is already in
    /// the common format.
    pub replacement: Option<ApiError>,
    /// Whether the body is then emptied, as a response to `HEAD` requires.
    pub empty_body: bool,
}

/// Decides what becomes of a response with this status: `None` leaves it
/// untouched; only client and server errors are rewritten.
pub fn normalize_errors(status: u16, is_head: bool, already_formatted: bool) -> (r: Option<ErrorRewrite>)
    ensures
        r is None <==> !(spec_is_client_error(status) || spec_is_server_error(status)),
        r matches Some(w) ==> {
            &&& w.empty_body == is_head
            &&& w.replacement is None <==> already_formatted
            &&& w.replacement matches Some(e) ==> e.status == status && (e.code, e.message)
                == status_text(status) && e.errors is None
        },
{
    if !is_client_error(status) && !is_server_error(status) {
        return None;
    }
    let replacement = if already_formatted {
        None
    } else {
        Some(ApiError::from_status(status))
    };
    Some(ErrorRewrite { replacement, empty_body: is_head })
}

/// The headers that describe a response body, removed with the body it replaces.
pub open spec fn spec_representation_headers() -> Seq<&'static str> {
    seq![
        "content-type",
        "content-length",
        "content-encoding",
        "content-range",
        "etag",
        "last-modified",
        "transfer-encoding",
        "trailer",
        "content-md5",
        "digest",
        "content-digest",
        "repr-digest",
    ]
}

pub fn representation_headers() -> (r: Vec<&'static str>)
    ensures
        r@ == spec_representation_headers(),
{
    let r = vec![
        "content-type",
        "content-length",
        "content-encoding",
        "content-range",
        "etag",
        "last-modified",
        "transfer-encoding",
        "trailer",
        "content-md5",
        "digest",
        "content-digest",
        "repr-digest",
    ];
    assert(r@ =~= spec_representation_headers());
    r
}

/// One header of a response: its name, in the lowercase form in which
/// header maps hold it, and its value's bytes.
#[derive(Debug, Clone, PartialEq, Eq)]
pub struct HeaderEntry {
    pub name: String,
    pub value: Vec<u8>,
}

/// Whether `name` is one of the headers that describe a response body.
pub open spec fn is_representation_header(name: Seq<char>) -> bool {
    exists|i: int|
        0 <= i < spec_representation_headers().len() && #[trigger] spec_representation_headers()[i]@
            == name
}

/// Whether some header of `headers` is called `name`.
pub open spec fn sets_header(headers: Seq<HeaderEntry>, name: Seq<char>) -> bool {
    exists|i: int| 0 <= i < headers.len() && #[trigger] headers[i].name@ == name
}

/// Whether a header of the old response outlives a replacement with these
/// headers: it describes no body, and the replacement does not set it anew.
pub open spec fn survives(entry: HeaderEntry, replacement: Seq<HeaderEntry>) -> bool {
    !is_representation_header(entry.name@) && !sets_header(replacement, entry.name@)
}

/// The headers of `original` that outlive the replacement, in their order.
pub open spec fn kept_headers(original: Seq<HeaderEntry>, replacement: Seq<HeaderEntry>) -> Seq<
    HeaderEntry,
>
    decreases original.len(),
{
    if original.len() == 0 {
        Seq::empty()
    } else {
        let kept = kept_headers(original.drop_last(), replacement);
        if survives(original.last(), replacement) {
            kept.push(original.last())
        } else {
            kept
        }
    }
}

/// The headers of a replaced error response: those of the old response
/// that outlive the replacement, then the replacement's own.
pub open spec fn rewritten_headers(original: Seq<HeaderEntry>, replacement: Seq<HeaderEntry>) -> Seq<
    HeaderEntry,
> {
    kept_headers(original, replacement) + replacement
}

/// Whether `name` is one of the headers that describe a response body.
pub fn is_representation_header_name(name: &str) -> (r: bool)
    ensures
        r == is_representation_header(name@),
{
    let names = representation_headers();
    let mut i: usize = 0;
    while i < names.len()
        invariant
            i <= names@.len(),
            names@ == spec_representation_headers(),
            forall|k: int| 0 <= k < i ==> names@[k]@ != name@,
        decreases names.len() - i,
    {
        if str_eq(names[i], name) {
            return true;
        }
        i = i + 1;
    }
    false
}

fn sets_header_named(headers: &Vec<HeaderEntry>, name: &str) -> (r: bool)
    ensures
        r == sets_header(headers@, name@),
{
    let mut i: usize = 0;
    while i < headers.len()
        invariant
            i <= headers@.len(),
            forall|k: int| 0 <= k < i ==> headers@[k].name@ != name@,
        decreases headers.len() - i,
    {
        if str_eq(headers[i].name.as_str(), name) {
            return true;
        }
        i = i + 1;
    }
    false
}

/// The headers of an error response whose body gives way to a replacement
/// with the headers `replacement`: every header that describes the old body
/// goes, a header that the replacement sets is set by it alone, and all other
/// headers stay, in their order, followed by the replacement's.
pub fn rewrite_headers(original: Vec<HeaderEntry>, replacement: Vec<HeaderEntry>) -> (r: Vec<
    HeaderEntry,
>)
    ensures
        r@ == rewritten_headers(original@, replacement@),
{
    let ghost all = original@;
    let mut rest = original;
    let mut replacement = replacement;
    let mut kept: Vec<HeaderEntry> = Vec::new();
    let ghost mut done: int = 0;
    while rest.len() > 0
        invariant
            0 <= done <= all.len(),
            rest@ == all.skip(done),
            kept@ == kept_headers(all.take(done), replacement@),
        decreases rest.len(),
    {
        let entry = rest.remove(0);
        let drop = is_representation_header_name(entry.name.as_str()) || sets_header_named(
            &replacement,
            entry.name.as_str(),
        );
        proof {
            assert(all.take(done + 1).drop_last() =~= all.take(done));
            assert(all.take(done + 1).last() == entry);
            assert(all.skip(done).remove(0) =~= all.skip(done + 1));
        }
        if !drop {
            kept.push(entry);
        }
        proof {
            done = done + 1;
        }
    }
    assert(all.take(done) =~= all);
    kept.append(&mut replacement);
    kept
}

/// A response as the error rewrite sees it: its status, its headers, its
/// body, and whether the body is already in the common error format.
pub struct ResponseParts<B> {
    pub status: u16,
    pub headers: Vec<HeaderEntry>,
    pub body: B,
    pub formatted: bool,
}

/// The model of a response: `ResponseParts` with its headers as a sequence.
pub struct ResponseModel<B> {
    pub status: u16,
    pub headers: Seq<HeaderEntry>,
    pub body: B,
    pub formatted: bool,
}

impl<B> View for ResponseParts<B> {
    type V = ResponseModel<B>;

    open spec fn view(&self) -> ResponseModel<B> {
        ResponseModel {
            status: self.status,
            headers: self.headers@,
            body: self.body,
            formatted: self.formatted,
        }
    }
}

/// The model of an optional response.
pub open spec fn model_of<B>(response: Option<ResponseParts<B>>) -> Option<ResponseModel<B>> {
    match response {
        Some(r) => Some(r@),
        None => None,
    }
}

/// A rewrite carried out on `response`: with `rendered`, the response of the
/// replacement error, the old body gives way to the rendered one, the headers
/// to `rewritten_headers`, and the response is marked as formatted; the
/// status stays. With `empty_body`, the body is then `empty`.
pub open spec fn rewritten<B>(
    response: ResponseModel<B>,
    empty_body: bool,
    rendered: Option<ResponseModel<B>>,
    empty: B,
) -> ResponseModel<B> {
    let replaced = match rendered {
        Some(x) => ResponseModel {
            status: response.status,
            headers: rewritten_headers(response.headers, x.headers),
            body: x.body,
            formatted: true,
        },
        None => response,
    };
    if empty_body {
        ResponseModel {
            status: replaced.status,
            headers: replaced.headers,
            body: empty,
            formatted: replaced.formatted,
        }
    } else {
        replaced
    }
}

/// What the error rewrite makes of `response` for a request whose method is
/// `HEAD` exactly when `is_head`, with `rendered` the response of the error
/// that answers its status and `empty` an empty body: client and server
/// errors that are not yet formatted are replaced, and the body of every
/// error is emptied for `HEAD`; other responses pass unchanged.
pub open spec fn normalized<B>(
    response: ResponseModel<B>,
    is_head: bool,
    rendered: ResponseModel<B>,
    empty: B,
) -> ResponseModel<B> {
    if !(spec_is_client_error(response.status) || spec_is_server_error(response.status)) {
        response
    } else {
        rewritten(
            response,
            is_head,
            if response.formatted {
                None
            } else {
                Some(rendered)
            },
            empty,
        )
    }
}

/// Carries out the rewrite that `normalize_errors` decided: `rendered` is
/// the rendered replacement error where the plan has one, and the body
/// becomes `empty` where the plan empties it.
pub fn apply_rewrite<B>(
    response: ResponseParts<B>,
    empty_body: bool,
    rendered: Option<ResponseParts<B>>,
    empty: B,
) -> (r: ResponseParts<B>)
    ensures
        r@ == rewritten(response@, empty_body, model_of(rendered), empty),
{
    let replaced = match rendered {
        Some(x) => ResponseParts {
            status: response.status,
            headers: rewrite_headers(response.headers, x.headers),
            body: x.body,
            formatted: true,
        },
        None => response,
    };
    if empty_body {
        ResponseParts {
            status: replaced.status,
            headers: replaced.headers,
            body: empty,
            formatted: replaced.formatted,
        }
    } else {
        replaced
    }
}

} // verus!
