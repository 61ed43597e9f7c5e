//! Authentication of HTTP and WebSocket requests: where the access token is
//! taken from, and the decisions taken after each check of it.
use vstd::prelude::*;

use crate::dto::user::User;
use crate::error::CoreError;
use crate::ids::UserId;
use uuid::Uuid;
use crate::text::{chars_of, push_char, spec_is_whitespace, trim, trim_chars, trim_end, trim_start};

verus! {

// ---------------------------------------------------------------------------
// Sequences of characters
// ---------------------------------------------------------------------------

/// Index of the first `c` in `s`, or the length of `s` when there is none.
pub open spec fn index_of(s: Seq<char>, c: char) -> int
    decreases s.len(),
{
    if s.len() == 0 {
        0
    } else if s[0] == c {
        0
    } else {
        1 + index_of(s.drop_first(), c)
    }
}

pub open spec fn starts_with(s: Seq<char>, prefix: Seq<char>) -> bool {
    prefix.len() <= s.len() && s.take(prefix.len() as int) == prefix
}

proof fn lemma_index_of(s: Seq<char>, c: char)
    ensures
        0 <= index_of(s, c) <= s.len(),
        index_of(s, c) < s.len() ==> s[index_of(s, c)] == c,
        forall|j: int| 0 <= j < index_of(s, c) ==> s[j] != c,
    decreases s.len(),
{
    if s.len() > 0 && s[0] != c {
        lemma_index_of(s.drop_first(), c);
        assert forall|j: int| 0 <= j < index_of(s, c) implies s[j] != c by {
            if j > 0 {
                assert(s[j] == s.drop_first()[j - 1]);
            }
        }
    }
}

proof fn lemma_index_of_at(s: Seq<char>, c: char, i: int)
    requires
        0 <= i <= s.len(),
        i < s.len() ==> s[i] == c,
        forall|j: int| 0 <= j < i ==> s[j] != c,
    ensures
        index_of(s, c) == i,
    decreases s.len(),
{
    if s.len() > 0 && i > 0 {
        let t = s.drop_first();
        assert forall|j: int| 0 <= j < i - 1 implies t[j] != c by {
            assert(t[j] == s[j + 1]);
        }
        lemma_index_of_at(t, c, i - 1);
    }
}

// ---------------------------------------------------------------------------
// Where the token comes from
// ---------------------------------------------------------------------------

/// The value of a `token=` or `access_token=` query parameter (split at its
/// first `=`), if `param` is one.
pub open spec fn token_param(param: Seq<char>) -> Option<Seq<char>> {
    let i = index_of(param, '=');
    if i < param.len() && (param.take(i) == "token"@ || param.take(i) == "access_token"@) {
        Some(param.skip(i + 1))
    } else {
        None
    }
}

/// The token of the first `&`-separated parameter of `query` that carries one.
pub open spec fn query_token(query: Seq<char>) -> Option<Seq<char>>
    decreases query.len(),
{
    let i = index_of(query, '&');
    if 0 <= i < query.len() {
        if token_param(query.take(i)) is Some {
            token_param(query.take(i))
        } else {
            query_token(query.skip(i + 1))
        }
    } else {
        token_param(query)
    }
}

/// The first of the comma-separated WebSocket protocols, trimmed, that looks
/// like a JSON web token (starts with `ey`).
pub open spec fn protocol_token(protocols: Seq<char>) -> Option<Seq<char>>
    decreases protocols.len(),
{
    let i = index_of(protocols, ',');
    if 0 <= i < protocols.len() {
        if starts_with(trim(protocols.take(i)), "ey"@) {
            Some(trim(protocols.take(i)))
        } else {
            protocol_token(protocols.skip(i + 1))
        }
    } else if starts_with(trim(protocols), "ey"@) {
        Some(trim(protocols))
    } else {
        None
    }
}

/// Where the access token of a request is found, in this order: the
/// `Authorization` header (which must then read `Bearer <token>`), the URI query
/// (`token=` or `access_token=`), the `Sec-WebSocket-Protocol` header (the
/// protocol that looks like a token, else the whole header). `Err` holds the
/// text of the `Unauthorized` answer.
pub open spec fn request_token(
    authorization: Option<Seq<char>>,
    query: Option<Seq<char>>,
    protocols: Option<Seq<char>>,
) -> Result<Seq<char>, Seq<char>> {
    match authorization {
        Some(h) => if starts_with(h, "Bearer "@) {
            Ok(h.skip(7))
        } else {
            Err("Invalid authorization header format"@)
        },
        None => match query {
            Some(q) => match query_token(q) {
                Some(t) => Ok(t),
                None => Err("Missing authorization header"@),
            },
            None => match protocols {
                Some(p) => match protocol_token(p) {
                    Some(t) => Ok(t),
                    None => Ok(p),
                },
                None => Err("Missing authorization header"@),
            },
        },
    }
}

/// The sources of the token rank strictly: an `Authorization` header decides
/// alone, and without one, a query decides without the WebSocket protocol
/// header being read.
pub proof fn lemma_token_source_precedence(
    header: Seq<char>,
    query: Seq<char>,
    q1: Option<Seq<char>>,
    q2: Option<Seq<char>>,
    p1: Option<Seq<char>>,
    p2: Option<Seq<char>>,
)
    ensures
        request_token(Some(header), q1, p1) == request_token(Some(header), q2, p2),
        request_token(None, Some(query), p1) == request_token(None, Some(query), p2),
{
}

/// A bearer header gives its token: `Authorization: Bearer <t>` yields `t`
/// exactly, whatever the query and protocol header hold; an `Authorization`
/// header not starting with `Bearer ` is refused as badly formatted.
pub proof fn lemma_bearer_token(
    t: Seq<char>,
    header: Seq<char>,
    q: Option<Seq<char>>,
    p: Option<Seq<char>>,
)
    ensures
        request_token(Some(seq!['B', 'e', 'a', 'r', 'e', 'r', ' '] + t), q, p) == Ok::<
            Seq<char>,
            Seq<char>,
        >(t),
        !(header.len() >= 7 && header.take(7) == seq!['B', 'e', 'a', 'r', 'e', 'r', ' '])
            ==> request_token(Some(header), q, p) == Err::<Seq<char>, Seq<char>>(
            "Invalid authorization header format"@,
        ),
        request_token(None, None, None) == Err::<Seq<char>, Seq<char>>(
            "Missing authorization header"@,
        ),
{
    reveal_strlit("Bearer ");
    let h = seq!['B', 'e', 'a', 'r', 'e', 'r', ' '] + t;
    assert(h.take(7) =~= "Bearer "@);
    assert(h.skip(7) =~= t);
    assert("Bearer "@ =~= seq!['B', 'e', 'a', 'r', 'e', 'r', ' ']);
}

/// A query that is a single `token=<t>` or `access_token=<t>` parameter (with
/// no `&` in `t`) gives `t`, without a look at the protocol header.
pub proof fn lemma_query_token(t: Seq<char>, p: Option<Seq<char>>)
    requires
        forall|i: int| 0 <= i < t.len() ==> t[i] != '&',
    ensures
        request_token(None, Some(seq!['t', 'o', 'k', 'e', 'n', '='] + t), p) == Ok::<
            Seq<char>,
            Seq<char>,
        >(t),
        request_token(
            None,
            Some(seq!['a', 'c', 'c', 'e', 's', 's', '_', 't', 'o', 'k', 'e', 'n', '='] + t),
            p,
        ) == Ok::<Seq<char>, Seq<char>>(t),
{
    reveal_strlit("token");
    reveal_strlit("access_token");
    let q1 = seq!['t', 'o', 'k', 'e', 'n', '='] + t;
    let q2 = seq!['a', 'c', 'c', 'e', 's', 's', '_', 't', 'o', 'k', 'e', 'n', '='] + t;
    assert forall|j: int| 0 <= j < q1.len() implies q1[j] != '&' by {
        if j >= 6 {
            assert(q1[j] == t[j - 6]);
        }
    }
    assert forall|j: int| 0 <= j < q2.len() implies q2[j] != '&' by {
        if j >= 13 {
            assert(q2[j] == t[j - 13]);
        }
    }
    lemma_index_of_at(q1, '&', q1.len() as int);
    lemma_index_of_at(q2, '&', q2.len() as int);
    lemma_index_of_at(q1, '=', 5);
    lemma_index_of_at(q2, '=', 12);
    assert(q1.take(5) =~= "token"@);
    assert(q1.skip(6) =~= t);
    assert(q2.take(12) =~= "access_token"@);
    assert(q2.skip(13) =~= t);
}

/// With neither an `Authorization` header nor a query, a WebSocket protocol
/// header holding one JSON-web-token-like value (ASCII letters, digits, `.`,
/// `-`, `_`) gives that value as the token.
pub proof fn lemma_protocol_token(p: Seq<char>)
    requires
        p.len() > 0,
        forall|i: int|
            0 <= i < p.len() ==> {
                let v = #[trigger] p[i] as int;
                ||| 0x61 <= v <= 0x7A
                ||| 0x41 <= v <= 0x5A
                ||| 0x30 <= v <= 0x39
                ||| v == 0x2E || v == 0x2D || v == 0x5F
            },
    ensures
        request_token(None, None, Some(p)) == Ok::<Seq<char>, Seq<char>>(p),
{
    assert forall|j: int| 0 <= j < p.len() implies p[j] != ',' by {
        let v = p[j] as int;
    }
    lemma_index_of_at(p, ',', p.len() as int);
    let v0 = p[0] as int;
    let vl = p[p.len() - 1] as int;
    assert(!spec_is_whitespace(p[0]));
    assert(!spec_is_whitespace(p.last()));
    assert(trim_start(p) == p);
    assert(trim_end(p) == p);
}

pub open spec fn opt_view(s: Option<&str>) -> Option<Seq<char>> {
    match s {
        Some(x) => Some(x@),
        None => None,
    }
}

fn has_prefix(v: &Vec<char>, start: usize, end: usize, prefix: &str) -> (r: bool)
    requires
        start <= end <= v@.len(),
    ensures
        r == starts_with(v@.subrange(start as int, end as int), prefix@),
{
    let p = chars_of(prefix);
    let ghost s = v@.subrange(start as int, end as int);
    if p.len() > end - start {
        return false;
    }
    let mut i: usize = 0;
    while i < p.len()
        invariant
            start <= end <= v@.len(),
            s == v@.subrange(start as int, end as int),
            p@ == prefix@,
            p@.len() <= end - start,
            i <= p@.len(),
            forall|j: int| 0 <= j < i ==> s[j] == p@[j],
        decreases p@.len() - i,
    {
        if v[start + i] != p[i] {
            proof {
                assert(s.take(p@.len() as int)[i as int] != p@[i as int]);
            }
            return false;
        }
        i = i + 1;
    }
    proof {
        assert(s.take(p@.len() as int) =~= p@);
    }
    true
}

fn range_equals(v: &Vec<char>, start: usize, end: usize, word: &str) -> (r: bool)
    requires
        start <= end <= v@.len(),
    ensures
        r == (v@.subrange(start as int, end as int) == word@),
{
    let w = chars_of(word);
    if w.len() != end - start {
        proof {
            assert(v@.subrange(start as int, end as int).len() != word@.len());
        }
        return false;
    }
    let r = has_prefix(v, start, end, word);
    proof {
        let s = v@.subrange(start as int, end as int);
        assert(s.take(w@.len() as int) =~= s);
    }
    r
}

fn string_of_range(v: &Vec<char>, start: usize, end: usize) -> (r: String)
    requires
        start <= end <= v@.len(),
    ensures
        r@ == v@.subrange(start as int, end as int),
{
    let mut r = String::new();
    let mut i: usize = start;
    while i < end
        invariant
            start <= i <= end <= v@.len(),
            r@ == v@.subrange(start as int, i as int),
        decreases end - i,
    {
        push_char(&mut r, v[i]);
        proof {
            assert(v@.subrange(start as int, i + 1) =~= v@.subrange(start as int, i as int).push(
                v@[i as int],
            ));
        }
        i = i + 1;
    }
    r
}

fn find_char(v: &Vec<char>, start: usize, c: char) -> (r: usize)
    requires
        start <= v@.len(),
    ensures
        r == start + index_of(v@.skip(start as int), c),
        start <= r <= v@.len(),
{
    let mut i: usize = start;
    while i < v.len() && v[i] != c
        invariant
            start <= i <= v@.len(),
            forall|j: int| start <= j < i ==> v@[j] != c,
        decreases v@.len() - i,
    {
        i = i + 1;
    }
    proof {
        let s = v@.skip(start as int);
        assert forall|j: int| 0 <= j < i - start implies s[j] != c by {
            assert(s[j] == v@[j + start]);
        }
        if i < v@.len() {
            assert(s[i - start] == v@[i as int]);
        }
        lemma_index_of_at(s, c, i - start);
    }
    i
}

fn query_token_of(q: &str) -> (r: Option<String>)
    ensures
        match r {
            Some(t) => query_token(q@) == Some(t@),
            None => query_token(q@) is None,
        },
{
    let v = chars_of(q);
    let n = v.len();
    let mut start: usize = 0;
    proof {
        assert(v@.skip(0) =~= v@);
    }
    loop
        invariant
            v@ == q@,
            n == v@.len(),
            start <= n,
            query_token(q@) == query_token(v@.skip(start as int)),
        decreases n - start,
    {
        let ghost rest = v@.skip(start as int);
        let end = find_char(&v, start, '&');
        let eq = find_char(&v, start, '=');
        proof {
            lemma_index_of(rest, '&');
            assert(rest.take(end - start) =~= v@.subrange(start as int, end as int));
        }
        let piece_eq = if eq < end { eq } else { end };
        let ghost piece = v@.subrange(start as int, end as int);
        proof {
            lemma_index_of(rest, '=');
            assert forall|j: int| 0 <= j < piece_eq - start implies piece[j] != '=' by {
                assert(piece[j] == rest[j]);
            }
            if piece_eq < end {
                assert(piece[piece_eq - start] == rest[piece_eq - start]);
            }
            lemma_index_of_at(piece, '=', piece_eq - start);
            assert(piece.take(piece_eq - start) =~= v@.subrange(start as int, piece_eq as int));
            if piece_eq < end {
                assert(piece.skip(piece_eq - start + 1) =~= v@.subrange(piece_eq + 1, end as int));
            }
        }
        if piece_eq < end && (range_equals(&v, start, piece_eq, "token") || range_equals(
            &v,
            start,
            piece_eq,
            "access_token",
        )) {
            let t = string_of_range(&v, piece_eq + 1, end);
            proof {
                if end < n {
                    assert(token_param(rest.take(end - start)) is Some);
                } else {
                    assert(rest =~= piece);
                }
            }
            return Some(t);
        }
        proof {
            assert(token_param(piece) is None);
        }
        if end == n {
            proof {
                assert(rest =~= piece);
            }
            return None;
        }
        proof {
            assert(rest.skip(end - start + 1) =~= v@.skip(end + 1));
        }
        start = end + 1;
    }
}

fn protocol_token_of(p: &str) -> (r: Option<String>)
    ensures
        match r {
            Some(t) => protocol_token(p@) == Some(t@),
            None => protocol_token(p@) is None,
        },
{
    let v = chars_of(p);
    let n = v.len();
    let mut start: usize = 0;
    proof {
        assert(v@.skip(0) =~= v@);
    }
    loop
        invariant
            v@ == p@,
            n == v@.len(),
            start <= n,
            protocol_token(p@) == protocol_token(v@.skip(start as int)),
        decreases n - start,
    {
        let ghost rest = v@.skip(start as int);
        let end = find_char(&v, start, ',');
        proof {
            lemma_index_of(rest, ',');
            assert(rest.take(end - start) =~= v@.subrange(start as int, end as int));
        }
        let mut piece: Vec<char> = Vec::new();
        let mut i: usize = start;
        while i < end
            invariant
                start <= i <= end <= n,
                n == v@.len(),
                piece@ == v@.subrange(start as int, i as int),
            decreases end - i,
        {
            piece.push(v[i]);
            proof {
                assert(v@.subrange(start as int, i + 1) =~= v@.subrange(start as int, i as int).push(
                    v@[i as int],
                ));
            }
            i = i + 1;
        }
        let trimmed = trim_chars(&piece);
        if has_prefix(&trimmed, 0, trimmed.len(), "ey") {
            let t = string_of_range(&trimmed, 0, trimmed.len());
            proof {
                assert(trimmed@.subrange(0, trimmed@.len() as int) =~= trimmed@);
                if end == n {
                    assert(rest =~= piece@);
                }
            }
            return Some(t);
        }
        proof {
            assert(trimmed@.subrange(0, trimmed@.len() as int) =~= trimmed@);
        }
        if end == n {
            proof {
                assert(rest =~= piece@);
            }
            return None;
        }
        proof {
            assert(rest.skip(end - start + 1) =~= v@.skip(end + 1));
        }
        start = end + 1;
    }
}

/// Takes the access token out of a request, given its `Authorization` header,
/// its URI query and its `Sec-WebSocket-Protocol` header, each when present
/// (and, for headers, readable as text).
pub fn extract_token(
    authorization: Option<&str>,
    query: Option<&str>,
    websocket_protocol: Option<&str>,
) -> (r: Result<String, CoreError>)
    ensures
        match request_token(opt_view(authorization), opt_view(query), opt_view(websocket_protocol)) {
            Ok(t) => r matches Ok(s) && s@ == t,
            Err(m) => r matches Err(CoreError::Unauthorized(e)) && e@ == m,
        },
{
    match authorization {
        Some(h) => {
            let v = chars_of(h);
            if has_prefix(&v, 0, v.len(), "Bearer ") {
                proof {
                    assert(v@.subrange(0, v@.len() as int) =~= v@);
                    reveal_strlit("Bearer ");
                    assert(v@.subrange(7, v@.len() as int) =~= h@.skip(7));
                }
                Ok(string_of_range(&v, 7, v.len()))
            } else {
                proof {
                    assert(v@.subrange(0, v@.len() as int) =~= v@);
                }
                Err(CoreError::Unauthorized("Invalid authorization header format".to_string()))
            }
        },
        None => match query {
            Some(q) => match query_token_of(q) {
                Some(t) => Ok(t),
                None => Err(CoreError::Unauthorized("Missing authorization header".to_string())),
            },
            None => match websocket_protocol {
                Some(p) => match protocol_token_of(p) {
                    Some(t) => Ok(t),
                    None => Ok(p.to_string()),
                },
                None => Err(CoreError::Unauthorized("Missing authorization header".to_string())),
            },
        },
    }
}

// ---------------------------------------------------------------------------
// After the token is found
// ---------------------------------------------------------------------------

/// What a valid access token says: its own id (checked against the
/// revocation list) and the user it was issued to.
#[derive(Debug, Clone, Copy, PartialEq, Eq)]
pub struct TokenClaims {
    pub jti: Uuid,
    pub sub: UserId,
}

/// What the caller learned from the check it last ran on a request.
#[derive(Debug)]
pub enum AuthEvent {
    /// The token's signature and expiry were checked: its claims when it is
    /// valid, `None` when it is not.
    TokenChecked(Option<TokenClaims>),
    /// The revocation list was consulted for the token with these claims:
    /// whether the token is on it, or `Err` when the lookup failed.
    BlacklistChecked(TokenClaims, Result<bool, ()>),
    /// The user of the token with these claims was looked up, or `Err` when
    /// the lookup failed.
    UserFetched(TokenClaims, Result<Option<User>, ()>),
}

/// What the caller does next.
#[derive(Debug, Clone)]
pub enum AuthAction {
    /// Look the token with these claims up in the revocation list, by its
    /// `jti`.
    CheckBlacklist(TokenClaims),
    /// Fetch the user with the id `sub` of these claims.
    FetchUser(TokenClaims),
    /// The request is authenticated as this user.
    Accept(User),
    /// The request is refused with this error.
    Reject(CoreError),
}

/// The decision after each check: an invalid token is unauthorized, a valid
/// one is looked up in the revocation list with its claims; a token on the
/// list is unauthorized, a failed lookup is an internal error, and otherwise
/// the user the same claims name is fetched; an unknown user is forbidden, an
/// inactive one unauthorized, a failed lookup is an internal error; an active
/// user is accepted.
pub open spec fn auth_decision(event: AuthEvent, action: AuthAction) -> bool {
    match event {
        AuthEvent::TokenChecked(claims) => match claims {
            Some(c) => action == AuthAction::CheckBlacklist(c),
            None => action matches AuthAction::Reject(CoreError::Unauthorized(m)) && m@
                == "Invalid token"@,
        },
        AuthEvent::BlacklistChecked(c, r) => match r {
            Err(_) => action matches AuthAction::Reject(CoreError::InternalServerError(m)) && m@
                == "Error occurred while checking token blacklist"@,
            Ok(true) => action matches AuthAction::Reject(CoreError::Unauthorized(m)) && m@
                == "Token is blacklisted"@,
            Ok(false) => action == AuthAction::FetchUser(c),
        },
        AuthEvent::UserFetched(_, r) => match r {
            Err(_) => action matches AuthAction::Reject(CoreError::InternalServerError(m)) && m@
                == "Error occurred while fetching user"@,
            Ok(None) => action matches AuthAction::Reject(CoreError::Forbidden(m)) && m@
                == "User not found"@,
            Ok(Some(u)) => if u.is_active {
                action == AuthAction::Accept(u)
            } else {
                action matches AuthAction::Reject(CoreError::Unauthorized(m)) && m@
                    == "User is inactive"@
            },
        },
    }
}

/// Decides the next step of authenticating a request from the outcome of the
/// check just run.
pub fn auth_step(event: AuthEvent) -> (action: AuthAction)
    ensures
        auth_decision(event, action),
{
    match event {
        AuthEvent::TokenChecked(claims) => match claims {
            Some(c) => AuthAction::CheckBlacklist(c),
            None => AuthAction::Reject(CoreError::Unauthorized("Invalid token".to_string())),
        },
        AuthEvent::BlacklistChecked(c, r) => match r {
            Err(_) => AuthAction::Reject(
                CoreError::InternalServerError(
                    "Error occurred while checking token blacklist".to_string(),
                ),
            ),
            Ok(true) => AuthAction::Reject(CoreError::Unauthorized("Token is blacklisted".to_string())),
            Ok(false) => AuthAction::FetchUser(c),
        },
        AuthEvent::UserFetched(_, r) => match r {
            Err(_) => AuthAction::Reject(
                CoreError::InternalServerError("Error occurred while fetching user".to_string()),
            ),
            Ok(None) => AuthAction::Reject(CoreError::Forbidden("User not found".to_string())),
            Ok(Some(u)) => if u.is_active {
                AuthAction::Accept(u)
            } else {
                AuthAction::Reject(CoreError::Unauthorized("User is inactive".to_string()))
            },
        },
    }
}

/// Only an active user is ever accepted: whatever the step, an `Accept`
/// follows the lookup of that very user, and the user is active.
pub proof fn lemma_only_active_users_accepted(event: AuthEvent, action: AuthAction)
    requires
        auth_decision(event, action),
        action is Accept,
    ensures
        event matches AuthEvent::UserFetched(_, Ok(Some(u))) && u == action->Accept_0 && u.is_active,
{
}

/// The claims of the checked token are handed on unchanged: the revocation
/// lookup that follows a valid token is for that token's claims, and the user
/// fetched after a token is found not revoked is the one those same claims
/// name.
pub proof fn lemma_claims_handed_on(
    claims: TokenClaims,
    revoked: Result<bool, ()>,
    first: AuthAction,
    second: AuthAction,
)
    requires
        auth_decision(AuthEvent::TokenChecked(Some(claims)), first),
        auth_decision(AuthEvent::BlacklistChecked(claims, revoked), second),
    ensures
        first == AuthAction::CheckBlacklist(claims),
        first->CheckBlacklist_0.jti == claims.jti,
        revoked == Ok::<bool, ()>(false) <==> second == AuthAction::FetchUser(claims),
        second matches AuthAction::FetchUser(c) ==> c.sub == claims.sub,
{
}

} // verus!
