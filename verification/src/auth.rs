//! Token authentication of the data routes.

use subtle::ConstantTimeEq;
use vstd::prelude::*;
use vstd::string::*;
use vstd::utf8::*;

verus! {

broadcast use vstd::utf8::group_utf8_lib;

/// The configured token, kept as its UTF-8 bytes.
pub struct AuthState {
    expected: Vec<u8>,
}

impl Clone for AuthState {
    /// A copy that holds the same token.
    fn clone(&self) -> (r: Self)
        ensures
            r@ == self@,
    {
        let expected = self.expected.clone();
        assert(expected@ =~= self.expected@);
        AuthState { expected }
    }
}

impl View for AuthState {
    type V = Seq<u8>;

    closed spec fn view(&self) -> Seq<u8> {
        self.expected@
    }
}

/// Compares two byte slices with `subtle::ConstantTimeEq::ct_eq` and turns the
/// resulting `subtle::Choice` into a `bool`.
///
/// subtle's slice comparison answers 1 exactly when the two slices have the same
/// length and are equal byte by byte; `bool::from(Choice)` maps 1 to `true`.
#[verifier::external_body]
fn constant_time_eq(a: &[u8], b: &[u8]) -> (r: bool)
    ensures
        r == (a@ == b@),
{
    a.ct_eq(b).into()
}

impl AuthState {
    /// Keeps the bytes of `expected` as the token to compare against.
    pub fn new(expected: &str) -> (s: Self)
        ensures
            s@ == expected.spec_bytes(),
    {
        AuthState { expected: expected.as_bytes_vec() }
    }

    /// Whether `candidate` is the configured token, compared in constant time.
    pub fn matches(&self, candidate: &str) -> (r: bool)
        ensures
            r == (self@ == candidate.spec_bytes()),
    {
        constant_time_eq(self.expected.as_slice(), candidate.as_bytes())
    }
}

/// A byte that `http::HeaderValue::to_str` accepts: visible ASCII or a tab.
pub open spec fn visible_ascii(b: u8) -> bool {
    (32 <= b && b < 127) || b == 9
}

/// Every byte of a header value is visible ASCII.
pub open spec fn header_is_visible(h: Seq<u8>) -> bool {
    forall|i: int| 0 <= i < h.len() ==> visible_ascii(#[trigger] h[i])
}

/// The bytes of `"Bearer "`.
pub open spec fn bearer_bytes() -> Seq<u8> {
    seq![66u8, 101u8, 97u8, 114u8, 101u8, 114u8, 32u8]
}

/// `s` with every occurrence of `"Bearer "` removed, scanning from the left and
/// never letting two occurrences overlap, as `str::replace(s, "Bearer ", "")` does.
pub open spec fn strip_bearer(s: Seq<u8>) -> Seq<u8>
    decreases s.len(),
{
    if s.len() == 0 {
        s
    } else if s.len() >= 7 && s.subrange(0, 7) == bearer_bytes() {
        strip_bearer(s.subrange(7, s.len() as int))
    } else {
        seq![s[0]] + strip_bearer(s.subrange(1, s.len() as int))
    }
}

/// The characters of a byte sequence read as ASCII.
pub open spec fn ascii_chars(b: Seq<u8>) -> Seq<char> {
    Seq::new(b.len(), |i: int| b[i] as char)
}

/// A byte sequence of ASCII bytes is valid UTF-8 and decodes to its bytes read as
/// characters.
pub proof fn lemma_ascii_bytes_utf8(b: Seq<u8>)
    requires
        forall|i: int| 0 <= i < b.len() ==> #[trigger] b[i] < 128,
    ensures
        valid_utf8(b),
        decode_utf8(b) == ascii_chars(b),
        encode_utf8(ascii_chars(b)) == b,
{
    let cs = ascii_chars(b);
    assert(is_ascii_chars(cs));
    is_ascii_chars_encode_utf8(cs);
    assert forall|i: int| 0 <= i < b.len() implies encode_utf8(cs)[i] == b[i] by {
        assert(cs[i] as u8 == encode_utf8(cs)[i]);
    }
    assert(encode_utf8(cs) =~= b);
}

/// Calls `String::from_utf8` and keeps the string when the bytes are valid UTF-8.
#[verifier::external_body]
fn string_from_utf8(bytes: Vec<u8>) -> (r: Option<String>)
    ensures
        r is Some <==> valid_utf8(bytes@),
        r matches Some(s) ==> s@ == decode_utf8(bytes@),
{
    String::from_utf8(bytes).ok()
}

/// What a request offers as its token.
#[derive(Debug)]
pub enum CandidateToken {
    Missing,
    InvalidHeader,
    Present(String),
}

/// A candidate token as a mathematical value.
pub enum TokenView {
    Missing,
    InvalidHeader,
    Present(Seq<char>),
}

impl View for CandidateToken {
    type V = TokenView;

    open spec fn view(&self) -> TokenView {
        match self {
            CandidateToken::Missing => TokenView::Missing,
            CandidateToken::InvalidHeader => TokenView::InvalidHeader,
            CandidateToken::Present(s) => TokenView::Present(s@),
        }
    }
}

fn bearer_at(h: &[u8], i: usize) -> (r: bool)
    requires
        i <= h@.len(),
    ensures
        r == (h@.len() - i >= 7 && h@.subrange(i as int, i + 7) == bearer_bytes()),
{
    if h.len() - i < 7 {
        return false;
    }
    let r = h[i] == 66 && h[i + 1] == 101 && h[i + 2] == 97 && h[i + 3] == 114 && h[i + 4] == 101
        && h[i + 5] == 114 && h[i + 6] == 32;
    assert(r ==> h@.subrange(i as int, i + 7) =~= bearer_bytes());
    assert(h@.subrange(i as int, i + 7) == bearer_bytes() ==> h@.subrange(i as int, i + 7)[0]
        == 66u8);
    r
}

/// Removes every `"Bearer "` from the header bytes.
fn strip_bearer_bytes(h: &[u8]) -> (r: Vec<u8>)
    ensures
        r@ == strip_bearer(h@),
{
    let n = h.len();
    let mut out: Vec<u8> = Vec::new();
    let mut i: usize = 0;
    assert(h@.subrange(0, n as int) =~= h@);
    assert(out@ + strip_bearer(h@) =~= strip_bearer(h@));
    while i < n
        invariant
            n == h@.len(),
            i <= n,
            strip_bearer(h@) == out@ + strip_bearer(h@.subrange(i as int, n as int)),
        decreases n - i,
    {
        let ghost rest = h@.subrange(i as int, n as int);
        if bearer_at(h, i) {
            assert(rest.subrange(0, 7) =~= h@.subrange(i as int, i + 7));
            assert(rest.subrange(7, rest.len() as int) =~= h@.subrange(i + 7, n as int));
            i = i + 7;
        } else {
            assert(rest.len() >= 7 ==> rest.subrange(0, 7) =~= h@.subrange(i as int, i + 7));
            assert(rest.subrange(1, rest.len() as int) =~= h@.subrange(i + 1, n as int));
            let ghost before = out@;
            out.push(h[i]);
            assert(before + strip_bearer(rest) =~= out@ + strip_bearer(
                h@.subrange(i + 1, n as int),
            ));
            i = i + 1;
        }
    }
    assert(h@.subrange(n as int, n as int) =~= Seq::<u8>::empty());
    assert(out@ + Seq::<u8>::empty() =~= out@);
    out
}

/// The (name, value) pairs that `url::form_urlencoded::parse` yields for a query
/// string, names and values percent-decoded.
pub uninterp spec fn form_urlencoded_pairs(input: Seq<u8>) -> Seq<(Seq<char>, Seq<char>)>;

/// The views of a list of string pairs.
pub open spec fn pairs_view(pairs: Seq<(String, String)>) -> Seq<(Seq<char>, Seq<char>)> {
    pairs.map_values(|p: (String, String)| (p.0@, p.1@))
}

/// Collects the pairs of `url::form_urlencoded::parse(input)`, in order, as owned
/// strings (through the crate's own `into_owned`).
#[verifier::external_body]
fn form_pairs(input: &[u8]) -> (r: Vec<(String, String)>)
    ensures
        pairs_view(r@) == form_urlencoded_pairs(input@),
{
    url::form_urlencoded::parse(input).into_owned().collect()
}

/// The value of the last pair named `key`, if any.
pub open spec fn last_value_for(pairs: Seq<(Seq<char>, Seq<char>)>, key: Seq<char>) -> Option<
    Seq<char>,
>
    decreases pairs.len(),
{
    if pairs.len() == 0 {
        None
    } else if pairs.last().0 == key {
        Some(pairs.last().1)
    } else {
        last_value_for(pairs.drop_last(), key)
    }
}

/// The value of the last `token` pair.
pub fn token_from_pairs(pairs: &Vec<(String, String)>) -> (r: Option<String>)
    ensures
        r is Some <==> last_value_for(pairs_view(pairs@), "token"@) is Some,
        r matches Some(t) ==> last_value_for(pairs_view(pairs@), "token"@) == Some(t@),
{
    let key = String::from_str("token");
    let n = pairs.len();
    let mut found: Option<String> = None;
    let ghost all = pairs_view(pairs@);
    for i in 0..n
        invariant
            n == pairs@.len(),
            all == pairs_view(pairs@),
            key@ == "token"@,
            found is Some <==> last_value_for(all.take(i as int), "token"@) is Some,
            found matches Some(t) ==> last_value_for(all.take(i as int), "token"@) == Some(t@),
    {
        assert(all.take(i + 1).drop_last() =~= all.take(i as int));
        assert(all.take(i + 1).last() == all[i as int]);
        if pairs[i].0 == key {
            found = Some(pairs[i].1.clone());
        }
    }
    assert(all.take(n as int) =~= all);
    found
}

/// The query string, or none.
pub open spec fn query_bytes(query: Option<&str>) -> Seq<u8> {
    match query {
        Some(q) => q.spec_bytes(),
        None => Seq::empty(),
    }
}

/// The candidate token of a request. An `Authorization` header takes precedence:
/// when it is not visible ASCII the request carries an invalid header, else its
/// text with every `"Bearer "` removed is the candidate. Without the header the
/// candidate is the value of the last `token` pair of the query string.
pub open spec fn candidate_of(authorization: Option<Seq<u8>>, query: Seq<u8>) -> TokenView {
    match authorization {
        Some(h) => if header_is_visible(h) {
            TokenView::Present(decode_utf8(strip_bearer(h)))
        } else {
            TokenView::InvalidHeader
        },
        None => match last_value_for(form_urlencoded_pairs(query), "token"@) {
            Some(t) => TokenView::Present(t),
            None => TokenView::Missing,
        },
    }
}

/// The optional header as a sequence of bytes.
pub open spec fn header_view(authorization: Option<&[u8]>) -> Option<Seq<u8>> {
    match authorization {
        Some(h) => Some(h@),
        None => None,
    }
}

fn all_visible(h: &[u8]) -> (r: bool)
    ensures
        r == header_is_visible(h@),
{
    let n = h.len();
    for i in 0..n
        invariant
            n == h@.len(),
            forall|j: int| 0 <= j < i ==> visible_ascii(#[trigger] h@[j]),
    {
        let b = h[i];
        if !((32 <= b && b < 127) || b == 9) {
            return false;
        }
    }
    true
}

/// Every byte of `strip_bearer(h)` is a byte of `h`.
proof fn lemma_strip_keeps_bytes(h: Seq<u8>)
    ensures
        forall|i: int|
            0 <= i < strip_bearer(h).len() ==> exists|j: int|
                0 <= j < h.len() && h[j] == #[trigger] strip_bearer(h)[i],
    decreases h.len(),
{
    if h.len() == 0 {
    } else if h.len() >= 7 && h.subrange(0, 7) == bearer_bytes() {
        let rest = h.subrange(7, h.len() as int);
        lemma_strip_keeps_bytes(rest);
        assert forall|i: int| 0 <= i < strip_bearer(h).len() implies exists|j: int|
            0 <= j < h.len() && h[j] == #[trigger] strip_bearer(h)[i] by {
            let k = choose|k: int| 0 <= k < rest.len() && rest[k] == strip_bearer(rest)[i];
            assert(h[k + 7] == rest[k]);
        }
    } else {
        let rest = h.subrange(1, h.len() as int);
        lemma_strip_keeps_bytes(rest);
        assert forall|i: int| 0 <= i < strip_bearer(h).len() implies exists|j: int|
            0 <= j < h.len() && h[j] == #[trigger] strip_bearer(h)[i] by {
            if i == 0 {
                assert(h[0] == strip_bearer(h)[0]);
            } else {
                let k = choose|k: int| 0 <= k < rest.len() && rest[k] == strip_bearer(rest)[i - 1];
                assert(h[k + 1] == rest[k]);
            }
        }
    }
}

/// Reads the candidate token from the `Authorization` header bytes, if the request
/// has that header, else from the `token` pairs of the query string.
pub fn candidate_token(authorization: Option<&[u8]>, query: Option<&str>) -> (r: CandidateToken)
    ensures
        r@ == candidate_of(header_view(authorization), query_bytes(query)),
{
    match authorization {
        Some(h) => {
            if all_visible(h) {
                let stripped = strip_bearer_bytes(h);
                proof {
                    lemma_strip_keeps_bytes(h@);
                    assert forall|i: int| 0 <= i < stripped@.len() implies #[trigger] stripped@[i]
                        < 128 by {
                        let j = choose|j: int| 0 <= j < h@.len() && h@[j] == stripped@[i];
                        assert(visible_ascii(h@[j]));
                    }
                    lemma_ascii_bytes_utf8(stripped@);
                }
                match string_from_utf8(stripped) {
                    Some(t) => CandidateToken::Present(t),
                    None => CandidateToken::InvalidHeader,
                }
            } else {
                CandidateToken::InvalidHeader
            }
        },
        None => {
            let q: &str = match query {
                Some(q) => q,
                None => "",
            };
            proof {
                reveal_strlit("");
            }
            let pairs = form_pairs(q.as_bytes());
            assert(q.spec_bytes() == query_bytes(query));
            match token_from_pairs(&pairs) {
                Some(t) => CandidateToken::Present(t),
                None => CandidateToken::Missing,
            }
        },
    }
}

/// What the authentication step decides for a request.
#[derive(Debug)]
pub enum AuthDecision {
    /// The request goes on to its handler.
    Proceed,
    /// The request is answered 401 with this detail.
    Unauthorized(String),
}

/// The decision for a candidate token: `None` lets the request through,
/// `Some(detail)` refuses it with that detail.
pub open spec fn decision_for(expected: Seq<u8>, candidate: TokenView) -> Option<Seq<char>> {
    match candidate {
        TokenView::Missing => Some("Authentication token required"@),
        TokenView::InvalidHeader => Some("Invalid authentication token"@),
        TokenView::Present(t) => if encode_utf8(t) == expected {
            None
        } else {
            Some("Invalid authentication token"@)
        },
    }
}

/// The decision as a mathematical value.
pub open spec fn decision_view(d: AuthDecision) -> Option<Seq<char>> {
    match d {
        AuthDecision::Proceed => None,
        AuthDecision::Unauthorized(detail) => Some(detail@),
    }
}

/// Decides whether a request may reach a data route: it may exactly when its
/// candidate token is present and equal to the configured token.
pub fn require_token(state: &AuthState, authorization: Option<&[u8]>, query: Option<&str>) -> (r:
    AuthDecision)
    ensures
        decision_view(r) == decision_for(
            state@,
            candidate_of(header_view(authorization), query_bytes(query)),
        ),
{
    let candidate = candidate_token(authorization, query);
    match candidate {
        CandidateToken::Missing => AuthDecision::Unauthorized(
            String::from_str("Authentication token required"),
        ),
        CandidateToken::InvalidHeader => AuthDecision::Unauthorized(
            String::from_str("Invalid authentication token"),
        ),
        CandidateToken::Present(token) => {
            if state.matches(token.as_str()) {
                AuthDecision::Proceed
            } else {
                AuthDecision::Unauthorized(String::from_str("Invalid authentication token"))
            }
        },
    }
}

} // verus!
