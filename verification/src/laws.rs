//! Properties that hold across the library's operations.
use vstd::prelude::*;
use vstd::utf8::encode_utf8;
use crate::auth::dto::{Credentials, UserRecord, credentials_rejection, normalized_email, email_acceptable};
use crate::text::{trimmed, lowercased, lemma_trimmed_idempotent, is_white_space, trim_start, trim_end};
use crate::config::is_exact_origin;
use crate::auth::session::spec_session_live;
use crate::shutdown::ServerAction;
use crate::auth::error::{AuthError, api_error_for};
use crate::auth::protection::{RequestMethod, method_is_safe, request_permitted, csrf_token};
use crate::auth::service::{
    NewUser, authenticated, login_result, prepared_from, password_verifies, registration_rejection,
};
use crate::error::status_text;
use crate::status::{spec_is_server_error, spec_is_client_error};
use crate::shutdown::{ServerPhase, ServerEvent, spec_shutdown_step};
use crate::middleware::{
    HeaderEntry, ResponseModel, is_representation_header, kept_headers, normalized,
    rewritten_headers, sets_header, survives, spec_representation_headers,
};

verus! {

/// A state-changing request without `X-CSRF-Protection: 1` is refused,
/// whatever its origin.
pub proof fn lemma_unsafe_request_requires_csrf_header(
    method: RequestMethod,
    csrf_header: Option<Seq<u8>>,
    origin_header: Option<Seq<u8>>,
    allowed_origin: Seq<char>,
)
    requires
        !method_is_safe(method),
        csrf_header != Some(csrf_token()),
    ensures
        !request_permitted(method, csrf_header, origin_header, allowed_origin),
{
}

/// A state-changing request from any origin other than the configured one is refused.
pub proof fn lemma_foreign_origin_is_refused(
    method: RequestMethod,
    csrf_header: Option<Seq<u8>>,
    origin: Seq<u8>,
    allowed_origin: Seq<char>,
)
    requires
        !method_is_safe(method),
        origin != encode_utf8(allowed_origin),
    ensures
        !request_permitted(method, csrf_header, Some(origin), allowed_origin),
{
}

/// A state-changing request with the header, from the configured origin or
/// with no `Origin` header, passes.
pub proof fn lemma_protected_request_passes(
    method: RequestMethod,
    origin_header: Option<Seq<u8>>,
    allowed_origin: Seq<char>,
)
    requires
        origin_header is None || origin_header == Some(encode_utf8(allowed_origin)),
    ensures
        request_permitted(method, Some(csrf_token()), origin_header, allowed_origin),
{
}

/// Safe methods pass without header or origin checks.
pub proof fn lemma_safe_request_passes(
    method: RequestMethod,
    csrf_header: Option<Seq<u8>>,
    origin_header: Option<Seq<u8>>,
    allowed_origin: Seq<char>,
)
    requires
        method_is_safe(method),
    ensures
        request_permitted(method, csrf_header, origin_header, allowed_origin),
{
}

/// Database, task and other internal failures are answered identically,
/// whatever their details: a bare 500 `internal_error`.
pub proof fn lemma_internal_failures_disclose_nothing(database: String, task: String)
    ensures
        api_error_for(AuthError::Database(database)) == api_error_for(AuthError::Internal),
        api_error_for(AuthError::Task(task)) == api_error_for(AuthError::Internal),
        api_error_for(AuthError::Internal).status == 500,
        (api_error_for(AuthError::Internal).code, api_error_for(AuthError::Internal).message)
            == status_text(500),
        api_error_for(AuthError::Internal).errors is None,
{
}

/// A server error answered from its status alone reveals no more than
/// `internal_error`, unless it is 503 `service_unavailable`.
pub proof fn lemma_server_errors_are_generic(status: u16)
    requires
        spec_is_server_error(status),
        status != 503,
    ensures
        status_text(status) == ("internal_error", "Internal server error"),
{
}

/// A login for an unknown address and a login with a wrong password are
/// answered alike, so the answer does not reveal whether an address is registered.
pub proof fn lemma_login_hides_unknown_addresses(password: Seq<char>, user: UserRecord)
    requires
        !password_verifies(encode_utf8(password), user.password_hash@),
    ensures
        login_result(Ok(authenticated(password, None))) == login_result(
            Ok(authenticated(password, Some(user))),
        ),
        login_result(Ok(authenticated(password, None))) == Err::<UserRecord, AuthError>(
            AuthError::InvalidCredentials,
        ),
{
}

/// An account stored as registration prepared it logs in with the password it
/// was registered with.
pub proof fn lemma_registered_password_logs_in(
    credentials: Credentials,
    prepared: NewUser,
    stored: UserRecord,
)
    requires
        prepared_from(credentials, prepared),
        stored.password_hash@ == prepared.password_hash@,
    ensures
        login_result(Ok(authenticated(credentials.password@, Some(stored)))) == Ok::<
            UserRecord,
            AuthError,
        >(stored),
{
}

/// Every refused submission is answered as a 400 `validation_error` that
/// names the field at fault, `email` or `password`.
pub proof fn lemma_rejections_name_the_field(email: Seq<char>, password: Seq<char>)
    requires
        credentials_rejection(email, password) is Some,
    ensures
        ({
            let answer = api_error_for(credentials_rejection(email, password)->0);
            &&& answer.status == 400
            &&& answer.code == "validation_error"
            &&& answer.errors matches Some(f) && (f.field == "email" || f.field == "password")
        }),
{
}

/// Once shutdown has been requested the server never serves again, and
/// the deadline always ends it.
pub proof fn lemma_shutdown_is_final(event: ServerEvent)
    ensures
        spec_shutdown_step(ServerPhase::Draining, event).0 != ServerPhase::Serving,
        spec_shutdown_step(ServerPhase::Stopped, event).0 == ServerPhase::Stopped,
        spec_shutdown_step(ServerPhase::Draining, ServerEvent::DrainTimedOut).0
            == ServerPhase::Stopped,
{
}

/// Credentials already in canonical form are left as they are: an accepted
/// address without surrounding whitespace that lowercasing leaves unchanged
/// normalises to itself, and the password is never changed.
pub proof fn lemma_canonical_credentials_are_kept(email: Seq<char>, password: Seq<char>)
    requires
        trimmed(email) == email,
        lowercased(email) == email,
        credentials_rejection(email, password) is None,
    ensures
        normalized_email(email) == email,
        credentials_rejection(normalized_email(email), password) is None,
{
}

/// Normalising trims the address once and for all: trimming again removes nothing.
pub proof fn lemma_trimming_is_idempotent(email: Seq<char>)
    ensures
        trimmed(trimmed(email)) == trimmed(email),
{
    lemma_trimmed_idempotent(email);
}

/// Rewriting an error response a second time changes nothing: the first
/// rewrite leaves it formatted, and a formatted error keeps its headers and
/// its body (emptied again for `HEAD`, where it is empty already).
pub proof fn lemma_error_rewrite_is_idempotent<B>(
    response: ResponseModel<B>,
    is_head: bool,
    rendered: ResponseModel<B>,
    rendered_again: ResponseModel<B>,
    empty: B,
)
    ensures
        normalized(normalized(response, is_head, rendered, empty), is_head, rendered_again, empty)
            == normalized(response, is_head, rendered, empty),
{
}

proof fn lemma_kept_headers_members(original: Seq<HeaderEntry>, replacement: Seq<HeaderEntry>)
    ensures
        forall|e: HeaderEntry|
            #[trigger] kept_headers(original, replacement).contains(e) <==> (original.contains(e)
                && survives(e, replacement)),
    decreases original.len(),
{
    if original.len() > 0 {
        let front = original.drop_last();
        lemma_kept_headers_members(front, replacement);
        assert forall|e: HeaderEntry| #[trigger]
            kept_headers(original, replacement).contains(e) <==> (original.contains(e) && survives(
                e,
                replacement,
            )) by {
            assert(original =~= front.push(original.last()));
            if original.contains(e) && e != original.last() {
                let i = choose|i: int| 0 <= i < original.len() && original[i] == e;
                assert(front[i] == e);
            }
            if front.contains(e) {
                let i = choose|i: int| 0 <= i < front.len() && front[i] == e;
                assert(original[i] == e);
            }
            let kept = kept_headers(front, replacement);
            if survives(original.last(), replacement) {
                assert(kept.push(original.last())[kept.len() as int] == original.last());
                if kept.contains(e) {
                    let i = choose|i: int| 0 <= i < kept.len() && kept[i] == e;
                    assert(kept.push(original.last())[i] == e);
                }
                if kept.push(original.last()).contains(e) && e != original.last() {
                    let i = choose|i: int|
                        0 <= i < kept.len() + 1 && kept.push(original.last())[i] == e;
                    assert(kept[i] == e);
                }
            }
            assert(original[original.len() - 1] == original.last());
        }
    }
}

/// Which headers an error rewrite keeps: a header of the old response
/// survives exactly when it describes no body and the replacement does not
/// set it; no header that describes a body is left over from the old
/// response; and every header of the replacement is present.
pub proof fn lemma_rewrite_keeps_protocol_headers(
    original: Seq<HeaderEntry>,
    replacement: Seq<HeaderEntry>,
    entry: HeaderEntry,
)
    ensures
        original.contains(entry) && !is_representation_header(entry.name@) && !sets_header(
            replacement,
            entry.name@,
        ) ==> rewritten_headers(original, replacement).contains(entry),
        rewritten_headers(original, replacement).contains(entry) ==> replacement.contains(entry)
            || (original.contains(entry) && !is_representation_header(entry.name@)),
        replacement.contains(entry) ==> rewritten_headers(original, replacement).contains(entry),
{
    lemma_kept_headers_members(original, replacement);
    let kept = kept_headers(original, replacement);
    let all = rewritten_headers(original, replacement);
    assert(all == kept + replacement);
    if kept.contains(entry) {
        let i = choose|i: int| 0 <= i < kept.len() && kept[i] == entry;
        assert(all[i] == entry);
    }
    if replacement.contains(entry) {
        let i = choose|i: int| 0 <= i < replacement.len() && replacement[i] == entry;
        assert(all[kept.len() + i] == entry);
    }
    if all.contains(entry) {
        let i = choose|i: int| 0 <= i < all.len() && all[i] == entry;
        if i < kept.len() {
            assert(kept[i] == entry);
        } else {
            assert(replacement[i - kept.len()] == entry);
        }
    }
}

/// The whitespace that trimming removes is exactly the Unicode
/// `White_Space` set: tab through carriage return, space, next line,
/// no-break space, ogham space mark, the spaces from en quad to hair space,
/// the line and paragraph separators, narrow no-break space, medium
/// mathematical space and ideographic space.
pub proof fn lemma_white_space_is_the_unicode_set(c: char)
    ensures
        is_white_space(c) <==> (c == '\t' || c == '\n' || c == '\u{0B}' || c == '\u{0C}' || c
            == '\r' || c == ' ' || c == '\u{85}' || c == '\u{A0}' || c == '\u{1680}' || c
            == '\u{2000}' || c == '\u{2001}' || c == '\u{2002}' || c == '\u{2003}' || c
            == '\u{2004}' || c == '\u{2005}' || c == '\u{2006}' || c == '\u{2007}' || c
            == '\u{2008}' || c == '\u{2009}' || c == '\u{200A}' || c == '\u{2028}' || c
            == '\u{2029}' || c == '\u{202F}' || c == '\u{205F}' || c == '\u{3000}'),
{
}

/// No character that can make up an ordinary address is whitespace: ASCII
/// letters and digits, `@`, `.`, `-`, `_` and `+` are never trimmed.
pub proof fn lemma_address_characters_are_not_white_space(c: char)
    requires
        ('a' <= c <= 'z') || ('A' <= c <= 'Z') || ('0' <= c <= '9') || c == '@' || c == '.' || c
            == '-' || c == '_' || c == '+',
    ensures
        !is_white_space(c),
{
}

/// Trimming leaves a text alone whose first and last characters are not
/// whitespace; so an address that begins and ends with a letter or digit
/// normalises to its lowercase form, with nothing removed.
pub proof fn lemma_trimming_keeps_unpadded_text(s: Seq<char>)
    requires
        s.len() > 0,
        !is_white_space(s[0]),
        !is_white_space(s.last()),
    ensures
        trimmed(s) == s,
        normalized_email(s) == lowercased(s),
{
    assert(trim_start(s) == s);
    assert(trim_end(s) == s);
}

/// The headers removed with a replaced body are exactly content-type,
/// content-length, content-encoding, content-range, etag, last-modified,
/// transfer-encoding, trailer, content-md5, digest, content-digest and
/// repr-digest.
pub proof fn lemma_representation_headers_are_the_twelve(name: Seq<char>)
    ensures
        is_representation_header(name) <==> (name == "content-type"@ || name
            == "content-length"@ || name == "content-encoding"@ || name == "content-range"@
            || name == "etag"@ || name == "last-modified"@ || name == "transfer-encoding"@
            || name == "trailer"@ || name == "content-md5"@ || name == "digest"@ || name
            == "content-digest"@ || name == "repr-digest"@),
{
    let h = spec_representation_headers();
    assert(h[0]@ == "content-type"@);
    assert(h[1]@ == "content-length"@);
    assert(h[2]@ == "content-encoding"@);
    assert(h[3]@ == "content-range"@);
    assert(h[4]@ == "etag"@);
    assert(h[5]@ == "last-modified"@);
    assert(h[6]@ == "transfer-encoding"@);
    assert(h[7]@ == "trailer"@);
    assert(h[8]@ == "content-md5"@);
    assert(h[9]@ == "digest"@);
    assert(h[10]@ == "content-digest"@);
    assert(h[11]@ == "repr-digest"@);
}

/// No CORS header is removed with a replaced body: a name that begins
/// `access-control-` is never a header that describes the body.
pub proof fn lemma_cors_headers_survive_a_rewrite(name: Seq<char>)
    requires
        name.len() >= 15,
        name.take(15) == "access-control-"@,
    ensures
        !is_representation_header(name),
{
    reveal_strlit("access-control-");
    reveal_strlit("content-type");
    reveal_strlit("content-length");
    reveal_strlit("content-encoding");
    reveal_strlit("content-range");
    reveal_strlit("etag");
    reveal_strlit("last-modified");
    reveal_strlit("transfer-encoding");
    reveal_strlit("trailer");
    reveal_strlit("content-md5");
    reveal_strlit("digest");
    reveal_strlit("content-digest");
    reveal_strlit("repr-digest");
    assert(name[0] == name.take(15)[0]);
    lemma_representation_headers_are_the_twelve(name);
}

/// An origin is exact exactly when its scheme is `http` or `https`, it has
/// an authority without user information, its path is `/`, it has no
/// query, and its text does not end in `/`; the host itself may hold any
/// other characters, such as `-`.
pub proof fn lemma_exact_origin_conditions(
    origin: Seq<char>,
    scheme: Option<Seq<char>>,
    authority: Option<Seq<char>>,
    path: Seq<char>,
    query: Option<Seq<char>>,
)
    ensures
        is_exact_origin(origin, (scheme, authority, path, query)) <==> ((scheme == Some("http"@)
            || scheme == Some("https"@)) && authority is Some && !authority->0.contains('@')
            && path == "/"@ && query is None && !(origin.len() > 0 && origin.last() == '/')),
{
}

/// Whether an origin is exact depends on its authority only through `@`:
/// exchanging the authority for any other without `@` keeps the verdict.
pub proof fn lemma_origin_host_characters_are_free(
    origin: Seq<char>,
    scheme: Option<Seq<char>>,
    authority: Seq<char>,
    other: Seq<char>,
    path: Seq<char>,
    query: Option<Seq<char>>,
)
    requires
        is_exact_origin(origin, (scheme, Some(authority), path, query)),
        !other.contains('@'),
    ensures
        is_exact_origin(origin, (scheme, Some(other), path, query)),
{
}

/// A stored session is live exactly while its expiry lies after the
/// present: however far ahead the expiry is, and never at or after it.
pub proof fn lemma_session_live_until_expiry(expires_at: i64, now: i64)
    ensures
        spec_session_live(expires_at, now) <==> now < expires_at,
{
}

/// A session live now was live at every earlier moment, and a later expiry
/// is live whenever an earlier one is.
pub proof fn lemma_session_liveness_is_monotone(expires_at: i64, later: i64, now: i64, earlier: i64)
    requires
        spec_session_live(expires_at, now),
        expires_at <= later,
        earlier <= now,
    ensures
        spec_session_live(expires_at, earlier),
        spec_session_live(later, now),
{
}

/// The server loop passes on the server's own result: when it finishes, it
/// reports success exactly when the server ended cleanly, whether the server
/// ended by itself or while draining; it finishes only on those events, and
/// a timed-out drain is the only abort.
pub proof fn lemma_finish_passes_on_the_server_result(
    phase: ServerPhase,
    event: ServerEvent,
    ok: bool,
)
    ensures
        spec_shutdown_step(ServerPhase::Serving, ServerEvent::ServerExited { ok }) == (
            ServerPhase::Stopped,
            ServerAction::Finish { ok },
        ),
        spec_shutdown_step(ServerPhase::Draining, ServerEvent::DrainFinished { ok }) == (
            ServerPhase::Stopped,
            ServerAction::Finish { ok },
        ),
        spec_shutdown_step(phase, event).1 == (ServerAction::Finish { ok }) ==> ((phase
            == ServerPhase::Serving && event == (ServerEvent::ServerExited { ok })) || (phase
            == ServerPhase::Draining && event == (ServerEvent::DrainFinished { ok }))),
{
}

proof fn lemma_trim_start_skips(s: Seq<char>) -> (i: int)
    ensures
        0 <= i <= s.len(),
        trim_start(s) == s.skip(i),
        forall|k: int| 0 <= k < i ==> is_white_space(#[trigger] s[k]),
    decreases s.len(),
{
    if s.len() > 0 && is_white_space(s[0]) {
        let rest = s.drop_first();
        let i = lemma_trim_start_skips(rest);
        assert(rest.skip(i) =~= s.skip(i + 1));
        assert forall|k: int| 0 <= k < i + 1 implies is_white_space(#[trigger] s[k]) by {
            if k > 0 {
                assert(s[k] == rest[k - 1]);
            }
        }
        i + 1
    } else {
        assert(s.skip(0) =~= s);
        0
    }
}

proof fn lemma_trim_end_takes(s: Seq<char>) -> (j: int)
    ensures
        0 <= j <= s.len(),
        trim_end(s) == s.take(j),
        forall|k: int| j <= k < s.len() ==> is_white_space(#[trigger] s[k]),
    decreases s.len(),
{
    if s.len() > 0 && is_white_space(s.last()) {
        let front = s.drop_last();
        let j = lemma_trim_end_takes(front);
        assert(front.take(j) =~= s.take(j));
        assert forall|k: int| j <= k < s.len() implies is_white_space(#[trigger] s[k]) by {
            if k < s.len() - 1 {
                assert(s[k] == front[k]);
            }
        }
        j
    } else {
        assert(s.take(s.len() as int) =~= s);
        s.len() as int
    }
}

/// Trimming removes whitespace from both ends and nothing else: the result
/// is a stretch of the text, everything before and after it is whitespace,
/// and the result neither begins nor ends with whitespace.
pub proof fn lemma_trimming_removes_only_surrounding_white_space(s: Seq<char>)
    ensures
        exists|i: int, j: int|
            0 <= i <= j <= s.len() && trimmed(s) == s.subrange(i, j) && (forall|k: int|
                0 <= k < i ==> is_white_space(#[trigger] s[k])) && (forall|k: int|
                j <= k < s.len() ==> is_white_space(#[trigger] s[k])),
        trimmed(s).len() > 0 ==> !is_white_space(trimmed(s)[0]) && !is_white_space(
            trimmed(s).last(),
        ),
{
    let i = lemma_trim_start_skips(s);
    let a = s.skip(i);
    let j = lemma_trim_end_takes(a);
    assert(trimmed(s) == a.take(j));
    assert(a.take(j) =~= s.subrange(i, i + j));
    assert forall|k: int| i + j <= k < s.len() implies is_white_space(#[trigger] s[k]) by {
        assert(s[k] == a[k - i]);
    }
    assert(0 <= i <= i + j <= s.len() && trimmed(s) == s.subrange(i, i + j) && (forall|k: int|
        0 <= k < i ==> is_white_space(#[trigger] s[k])) && (forall|k: int|
        i + j <= k < s.len() ==> is_white_space(#[trigger] s[k])));
    crate::text::lemma_trim_start_front(s);
    crate::text::lemma_trim_end_prefix(a);
    let t = trimmed(s);
    if t.len() > 0 {
        assert(t[0] == a[0]);
    }
}

/// The status classes: client errors are exactly 400 to 499, server errors
/// exactly 500 to 599, and no status is both.
pub proof fn lemma_status_classes(status: u16)
    ensures
        spec_is_client_error(status) <==> 400 <= status <= 499,
        spec_is_server_error(status) <==> 500 <= status <= 599,
        !(spec_is_client_error(status) && spec_is_server_error(status)),
{
}

/// A registration is accepted exactly when the normalised address is
/// acceptable and the password holds at least 15 characters and at most
/// 1024 bytes.
pub proof fn lemma_registration_bounds(email: Seq<char>, password: Seq<char>)
    ensures
        registration_rejection(email, password) is None <==> (email_acceptable(
            normalized_email(email),
        ) && 15 <= password.len() && encode_utf8(password).len() <= 1024),
{
}

} // verus!
