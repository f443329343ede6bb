//! Finding the access token of a request.
//!
//! A request carries its token in an `Authorization: Bearer <token>` header
//! or, for WebSocket upgrades that cannot set headers, in a `token=` query
//! parameter. The header wins when both are there.
use vstd::prelude::*;
use crate::session::{api_error, ApiError, STATUS_UNAUTHORIZED};
use crate::text::{field_end, find_char_from, has_prefix_at, lemma_field_end, split_on};

verus! {

/// The value of the first `token=` parameter among the query's pieces.
pub open spec fn token_param(pieces: Seq<Seq<char>>) -> Option<Seq<char>>
    decreases pieces.len(),
{
    if pieces.len() == 0 {
        None
    } else if "token="@.is_prefix_of(pieces[0]) {
        Some(pieces[0].skip("token="@.len() as int))
    } else {
        token_param(pieces.drop_first())
    }
}

/// The token of a request with the given `Authorization` header and query
/// string: what follows `Bearer ` in the header, else the first `token=`
/// parameter of the query.
pub open spec fn request_token(header: Option<Seq<char>>, query: Option<Seq<char>>) -> Option<
    Seq<char>,
> {
    match header {
        Some(h) if "Bearer "@.is_prefix_of(h) => Some(h.skip("Bearer "@.len() as int)),
        _ => match query {
            Some(q) => token_param(split_on(q, '&')),
            None => None,
        },
    }
}

/// The view of an optional text.
pub open spec fn opt_str_view(s: Option<&str>) -> Option<Seq<char>> {
    match s {
        Some(t) => Some(t@),
        None => None,
    }
}

/// The view of an optional string.
pub open spec fn opt_string_view(s: Option<String>) -> Option<Seq<char>> {
    match s {
        Some(t) => Some(t@),
        None => None,
    }
}

/// The rest of `s` after a first piece of `k` characters and its separator
/// is split into the remaining pieces.
proof fn lemma_split_step(s: Seq<char>, p: int, k: int)
    requires
        0 <= p <= s.len(),
        k == field_end(s.skip(p), '&'),
        p + k < s.len(),
    ensures
        split_on(s.skip(p), '&') == seq![s.subrange(p, p + k)] + split_on(s.skip(p + k + 1), '&'),
{
    let t = s.skip(p);
    assert(t.take(k) =~= s.subrange(p, p + k));
    assert(t.skip(k + 1) =~= s.skip(p + k + 1));
}

/// The value of the first `token=` parameter of a query string.
pub fn query_token(query: &str) -> (t: Option<String>)
    ensures
        opt_string_view(t) == token_param(split_on(query@, '&')),
{
    let n = query.unicode_len();
    let plen = "token=".unicode_len();
    let mut p: usize = 0;
    assert(query@.skip(0) =~= query@);
    loop
        invariant
            n == query@.len(),
            plen == "token="@.len(),
            p <= n,
            token_param(split_on(query@, '&')) == token_param(split_on(query@.skip(p as int), '&')),
        decreases n - p,
    {
        let end = find_char_from(query, p, '&');
        let piece = query.substring_char(p, end);
        let ghost k = field_end(query@.skip(p as int), '&');
        let ghost pieces = split_on(query@.skip(p as int), '&');
        proof {
            if end < n {
                lemma_split_step(query@, p as int, k as int);
            } else {
                assert(query@.skip(p as int).take(k as int) =~= query@.skip(p as int));
            }
            assert(pieces.len() > 0);
            assert(pieces[0] == piece@);
        }
        if has_prefix_at(piece, 0, "token=") {
            assert(piece@.subrange(0, plen as int) =~= piece@.take(plen as int));
            let value = piece.substring_char(plen, piece.unicode_len());
            assert(value@ =~= piece@.skip(plen as int));
            return Some(String::from_str(value));
        }
        assert(!"token="@.is_prefix_of(piece@)) by {
            if "token="@.is_prefix_of(piece@) {
                assert(piece@.subrange(0, "token="@.len() as int) =~= "token="@);
            }
        }
        if end == n {
            assert(pieces =~= seq![piece@]);
            assert(pieces.drop_first() =~= Seq::<Seq<char>>::empty());
            assert(token_param(pieces.drop_first()) is None);
            assert(token_param(pieces) is None);
            return None;
        }
        assert(pieces.drop_first() =~= split_on(query@.skip(end + 1), '&'));
        p = end + 1;
    }
}

/// The access token of a request, from its `Authorization` header or its
/// query string.
pub fn request_token_of(header: Option<&str>, query: Option<&str>) -> (t: Option<String>)
    ensures
        opt_string_view(t) == request_token(opt_str_view(header), opt_str_view(query)),
{
    match header {
        Some(h) => {
            if has_prefix_at(h, 0, "Bearer ") {
                let plen = "Bearer ".unicode_len();
                assert(h@.subrange(0, plen as int) =~= h@.take(plen as int));
                let rest = h.substring_char(plen, h.unicode_len());
                assert(rest@ =~= h@.skip(plen as int));
                return Some(String::from_str(rest));
            }
            assert(!"Bearer "@.is_prefix_of(h@)) by {
                if "Bearer "@.is_prefix_of(h@) {
                    assert(h@.subrange(0, "Bearer "@.len() as int) =~= "Bearer "@);
                }
            }
        },
        None => {},
    }
    match query {
        Some(q) => query_token(q),
        None => None,
    }
}

/// Why a request was not let through.
pub enum AuthFailure {
    /// No `Bearer` header and no `token=` parameter.
    MissingToken,
    /// The token was there but could not be verified.
    InvalidToken,
}

pub const MISSING_TOKEN_MESSAGE: &'static str = "missing or invalid authorization header";
pub const INVALID_TOKEN_MESSAGE: &'static str = "invalid or expired token";

/// The 401 answer to a request that was not let through.
pub fn unauthorized(failure: AuthFailure) -> (e: ApiError)
    ensures
        e.status == STATUS_UNAUTHORIZED,
        e.message@ == (match failure {
            AuthFailure::MissingToken => MISSING_TOKEN_MESSAGE@,
            AuthFailure::InvalidToken => INVALID_TOKEN_MESSAGE@,
        }),
{
    match failure {
        AuthFailure::MissingToken => api_error(STATUS_UNAUTHORIZED, MISSING_TOKEN_MESSAGE),
        AuthFailure::InvalidToken => api_error(STATUS_UNAUTHORIZED, INVALID_TOKEN_MESSAGE),
    }
}

/// A `Bearer` header decides the token, whatever the query holds.
pub proof fn law_header_token_wins(h: Seq<char>, q1: Option<Seq<char>>, q2: Option<Seq<char>>)
    requires
        "Bearer "@.is_prefix_of(h),
    ensures
        request_token(Some(h), q1) == request_token(Some(h), q2),
{
}

/// What follows `token=` in a list of pieces comes from one piece.
proof fn lemma_token_from_piece(pieces: Seq<Seq<char>>, sep: char)
    requires
        forall|i: int| 0 <= i < pieces.len() ==> !(#[trigger] pieces[i]).contains(sep),
    ensures
        token_param(pieces) matches Some(v) ==> !v.contains(sep),
    decreases pieces.len(),
{
    if pieces.len() > 0 {
        if "token="@.is_prefix_of(pieces[0]) {
            let v = pieces[0].skip("token="@.len() as int);
            if v.contains(sep) {
                let j = choose|j: int| 0 <= j < v.len() && v[j] == sep;
                assert(pieces[0][j + "token="@.len()] == sep);
                assert(pieces[0].contains(sep));
            }
        } else {
            let rest = pieces.drop_first();
            assert forall|i: int| 0 <= i < rest.len() implies !(#[trigger] rest[i]).contains(sep) by {
                assert(rest[i] == pieces[i + 1]);
            }
            lemma_token_from_piece(rest, sep);
        }
    }
}

/// A token taken from the query is the value of a single parameter: it
/// never holds a `&`.
pub proof fn law_query_token_is_one_parameter(query: Seq<char>)
    ensures
        request_token(None, Some(query)) matches Some(v) ==> !v.contains('&'),
{
    crate::text::lemma_split_pieces(query, '&');
    lemma_token_from_piece(split_on(query, '&'), '&');
}

/// The first piece that starts with `token=`, and the value it carries,
/// decide `token_param`; with no such piece there is none.
proof fn lemma_token_param_first(pieces: Seq<Seq<char>>)
    ensures
        token_param(pieces) is None <==> forall|i: int|
            0 <= i < pieces.len() ==> !"token="@.is_prefix_of(#[trigger] pieces[i]),
        token_param(pieces) is Some ==> exists|i: int|
            0 <= i < pieces.len() && "token="@.is_prefix_of(#[trigger] pieces[i]) && (forall|j: int|
                0 <= j < i ==> !"token="@.is_prefix_of(#[trigger] pieces[j])) && token_param(pieces)
                == Some(pieces[i].skip("token="@.len() as int)),
    decreases pieces.len(),
{
    if pieces.len() > 0 {
        let rest = pieces.drop_first();
        lemma_token_param_first(rest);
        if "token="@.is_prefix_of(pieces[0]) {
            assert(pieces[0] == pieces[0]);
        } else {
            assert forall|i: int| 0 <= i < rest.len() implies #[trigger] rest[i] == pieces[i + 1] by {}
            if token_param(rest) is Some {
                let i = choose|i: int|
                    0 <= i < rest.len() && "token="@.is_prefix_of(#[trigger] rest[i]) && (forall|j: int|
                        0 <= j < i ==> !"token="@.is_prefix_of(#[trigger] rest[j])) && token_param(rest)
                        == Some(rest[i].skip("token="@.len() as int));
                assert(pieces[i + 1] == rest[i]);
                assert forall|j: int| 0 <= j < i + 1 implies !"token="@.is_prefix_of(
                    #[trigger] pieces[j],
                ) by {
                    if j > 0 {
                        assert(pieces[j] == rest[j - 1]);
                    }
                }
            } else {
                assert forall|i: int| 0 <= i < pieces.len() implies !"token="@.is_prefix_of(
                    #[trigger] pieces[i],
                ) by {
                    if i > 0 {
                        assert(pieces[i] == rest[i - 1]);
                    }
                }
            }
        }
    }
}

/// Without a `Bearer` header, the token is the value of the first `token=`
/// parameter among the `&`-separated pieces of the query, and there is none
/// when no piece is such a parameter.
pub proof fn law_query_token_is_first_token_parameter(header: Option<Seq<char>>, query: Seq<char>)
    requires
        !(header matches Some(h) && "Bearer "@.is_prefix_of(h)),
    ensures
        ({
            let pieces = split_on(query, '&');
            request_token(header, Some(query)) is None <==> forall|i: int|
                0 <= i < pieces.len() ==> !"token="@.is_prefix_of(#[trigger] pieces[i])
        }),
        ({
            let pieces = split_on(query, '&');
            request_token(header, Some(query)) is Some ==> exists|i: int|
                0 <= i < pieces.len() && "token="@.is_prefix_of(#[trigger] pieces[i]) && (forall|j: int|
                    0 <= j < i ==> !"token="@.is_prefix_of(#[trigger] pieces[j])) && request_token(
                    header,
                    Some(query),
                ) == Some(pieces[i].skip("token="@.len() as int))
        }),
{
    lemma_token_param_first(split_on(query, '&'));
}

} // verus!
