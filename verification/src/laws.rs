//! Properties that span several functions of the library.

use crate::auth::{
    bearer_bytes, candidate_of, decision_for, header_is_visible, strip_bearer, visible_ascii,
    TokenView, lemma_ascii_bytes_utf8,
};
use crate::db::{assignment, rating_bind, set_clause, text_bind, update_binds, update_sql};
use crate::format::{film_text, has_fraction_mark, is_fraction_mark, rating_text};
use crate::config::token_outcome;
use crate::db::chosen_record_date;
use crate::models::{rating_in_range, FilmRecord, FilmUpdate, Rating};
use vstd::prelude::*;
use vstd::utf8::*;

verus! {

broadcast use vstd::utf8::group_utf8_lib;

/// Two texts have the same UTF-8 bytes exactly when they are the same text, so
/// a present token is let through exactly when it is the configured token.
pub proof fn law_token_accepted_iff_equal(configured: Seq<char>, token: Seq<char>)
    ensures
        (encode_utf8(token) == encode_utf8(configured)) <==> (token == configured),
        decision_for(encode_utf8(configured), TokenView::Present(token)) is None <==> token
            == configured,
{
    if encode_utf8(token) == encode_utf8(configured) {
        assert(decode_utf8(encode_utf8(token)) == token);
        assert(decode_utf8(encode_utf8(configured)) == configured);
    }
}

/// When a request has an `Authorization` header, its query string plays no part.
pub proof fn law_header_takes_precedence(header: Seq<u8>, query1: Seq<u8>, query2: Seq<u8>)
    ensures
        candidate_of(Some(header), query1) == candidate_of(Some(header), query2),
{
}

/// A header `Bearer <token>`, where the token is visible ASCII and holds no
/// `Bearer ` of its own, is let through exactly when the token is the configured
/// one.
pub proof fn law_bearer_header(configured: Seq<char>, token: Seq<u8>, query: Seq<u8>)
    requires
        header_is_visible(token),
        strip_bearer(token) == token,
    ensures
        decision_for(
            encode_utf8(configured),
            candidate_of(Some(bearer_bytes() + token), query),
        ) is None <==> token == encode_utf8(configured),
{
    let h = bearer_bytes() + token;
    assert(h.subrange(0, 7) =~= bearer_bytes());
    assert(h.subrange(7, h.len() as int) =~= token);
    assert(strip_bearer(h) == token);
    assert forall|i: int| 0 <= i < h.len() implies visible_ascii(#[trigger] h[i]) by {
        if i >= 7 {
            assert(h[i] == token[i - 7]);
        }
    }
    assert forall|i: int| 0 <= i < token.len() implies #[trigger] token[i] < 128 by {
        assert(visible_ascii(token[i]));
    }
    lemma_ascii_bytes_utf8(token);
    assert(candidate_of(Some(h), query) == TokenView::Present(decode_utf8(token)));
    assert(encode_utf8(decode_utf8(token)) == token);
}

/// Rendering a rating twice changes nothing more than rendering it once.
pub proof fn law_rating_text_idempotent(rendered: Seq<char>)
    ensures
        rating_text(rating_text(rendered)) == rating_text(rendered),
{
    reveal_strlit(".0");
    if !has_fraction_mark(rendered) {
        let t = rendered + ".0"@;
        assert(t[rendered.len() as int] == '.');
        assert(is_fraction_mark(t[rendered.len() as int]));
    }
}

/// The number of `?` placeholders in an SQL text.
pub open spec fn placeholders(s: Seq<char>) -> nat
    decreases s.len(),
{
    if s.len() == 0 {
        0
    } else {
        (if s[0] == '?' {
            1nat
        } else {
            0nat
        }) + placeholders(s.drop_first())
    }
}

pub proof fn lemma_placeholders_concat(a: Seq<char>, b: Seq<char>)
    ensures
        placeholders(a + b) == placeholders(a) + placeholders(b),
    decreases a.len(),
{
    if a.len() == 0 {
        assert(a + b =~= b);
    } else {
        assert((a + b).drop_first() =~= a.drop_first() + b);
        lemma_placeholders_concat(a.drop_first(), b);
    }
}

proof fn lemma_one_placeholder(present: bool, text: Seq<char>, n: int)
    requires
        0 <= n < text.len(),
        text[n] == '?',
        forall|i: int| 0 <= i < text.len() && i != n ==> text[i] != '?',
    ensures
        placeholders(assignment(present, text)) == (if present {
            1nat
        } else {
            0nat
        }),
{
    if present {
        lemma_count_one(text, n);
    } else {
        assert(assignment(present, text) =~= Seq::<char>::empty());
    }
}

pub proof fn lemma_count_one(text: Seq<char>, n: int)
    requires
        0 <= n < text.len(),
        text[n] == '?',
        forall|i: int| 0 <= i < text.len() && i != n ==> text[i] != '?',
    ensures
        placeholders(text) == 1,
    decreases text.len(),
{
    if n == 0 {
        lemma_count_none(text.drop_first());
    } else {
        lemma_count_one(text.drop_first(), n - 1);
    }
}

pub proof fn lemma_count_none(text: Seq<char>)
    requires
        forall|i: int| 0 <= i < text.len() ==> text[i] != '?',
    ensures
        placeholders(text) == 0,
    decreases text.len(),
{
    if text.len() > 0 {
        lemma_count_none(text.drop_first());
    }
}

/// The update statement has exactly one bound value for each of its `?`
/// placeholders: one for every present field and one for the film id.
pub proof fn law_update_placeholders_match_binds(film_id: i64, u: FilmUpdate)
    ensures
        placeholders(update_sql(u)) == update_binds(film_id, u).len(),
{
    reveal_strlit("UPDATE films SET ");
    reveal_strlit("title = ?, ");
    reveal_strlit("actors = ?, ");
    reveal_strlit("plot = ?, ");
    reveal_strlit("review = ?, ");
    reveal_strlit("rating = ?, ");
    reveal_strlit("record_date = ?, ");
    reveal_strlit("updated_at = CURRENT_TIMESTAMP WHERE id = ?");
    lemma_count_none("UPDATE films SET "@);
    lemma_one_placeholder(u.title is Some, "title = ?, "@, 8);
    lemma_one_placeholder(u.actors is Some, "actors = ?, "@, 9);
    lemma_one_placeholder(u.plot is Some, "plot = ?, "@, 7);
    lemma_one_placeholder(u.review is Some, "review = ?, "@, 9);
    lemma_one_placeholder(u.rating is Some, "rating = ?, "@, 9);
    lemma_one_placeholder(u.record_date is Some, "record_date = ?, "@, 14);
    let tail = "updated_at = CURRENT_TIMESTAMP WHERE id = ?"@;
    lemma_count_one(tail, tail.len() - 1);
    let a1 = assignment(u.title is Some, "title = ?, "@);
    let a2 = assignment(u.actors is Some, "actors = ?, "@);
    let a3 = assignment(u.plot is Some, "plot = ?, "@);
    let a4 = assignment(u.review is Some, "review = ?, "@);
    let a5 = assignment(u.rating is Some, "rating = ?, "@);
    let a6 = assignment(u.record_date is Some, "record_date = ?, "@);
    lemma_placeholders_concat(a1, a2);
    lemma_placeholders_concat(a1 + a2, a3);
    lemma_placeholders_concat(a1 + a2 + a3, a4);
    lemma_placeholders_concat(a1 + a2 + a3 + a4, a5);
    lemma_placeholders_concat(a1 + a2 + a3 + a4 + a5, a6);
    lemma_placeholders_concat("UPDATE films SET "@, set_clause(u));
    lemma_placeholders_concat("UPDATE films SET "@ + set_clause(u), tail);
    assert(text_bind(u.title).len() == (if u.title is Some { 1nat } else { 0nat }));
    assert(text_bind(u.actors).len() == (if u.actors is Some { 1nat } else { 0nat }));
    assert(text_bind(u.plot).len() == (if u.plot is Some { 1nat } else { 0nat }));
    assert(text_bind(u.review).len() == (if u.review is Some { 1nat } else { 0nat }));
    assert(rating_bind(u.rating).len() == (if u.rating is Some { 1nat } else { 0nat }));
    assert(text_bind(u.record_date).len() == (if u.record_date is Some { 1nat } else { 0nat }));
}

/// The sign bit of a binary64 pattern.
pub open spec fn float_sign(bits: u64) -> u64 {
    bits >> 63u64
}

/// The biased exponent field of a binary64 pattern.
pub open spec fn float_exponent(bits: u64) -> u64 {
    (bits >> 52u64) & 0x7ffu64
}

/// The fraction field of a binary64 pattern.
pub open spec fn float_fraction(bits: u64) -> u64 {
    bits & 0xf_ffff_ffff_ffffu64
}

/// The binary64 number with pattern `bits` is finite and `0 <= x <= 10`.
///
/// A pattern whose exponent field is all ones is an infinity or a NaN. The zeros
/// (either sign) have exponent and fraction fields zero. Among the positive
/// finite numbers the value grows with (exponent, fraction) taken in order, and
/// `10 = 1.25 * 2^3` has exponent field `1023 + 3 = 1026` and fraction
/// `0.25 * 2^52 = 0x4_0000_0000_0000`. Negative non-zero numbers lie below 0.
pub open spec fn float_between_zero_and_ten(bits: u64) -> bool {
    let e = float_exponent(bits);
    let f = float_fraction(bits);
    &&& e != 0x7ffu64
    &&& (e == 0 && f == 0) || (float_sign(bits) == 0 && (e < 1026 || (e == 1026 && f
        <= 0x4_0000_0000_0000u64)))
}

/// A rating is accepted exactly when, read as a binary64 number, it is finite
/// and lies between 0 and 10, both included.
pub proof fn law_rating_range_is_zero_to_ten(bits: u64)
    ensures
        rating_in_range(bits) <==> float_between_zero_and_ten(bits),
{
    assert((bits <= 0x4024_0000_0000_0000u64 || bits == 0x8000_0000_0000_0000u64) <==> ({
        let e = (bits >> 52u64) & 0x7ffu64;
        let f = bits & 0xf_ffff_ffff_ffffu64;
        &&& e != 0x7ffu64
        &&& (e == 0 && f == 0) || ((bits >> 63u64) == 0 && (e < 1026 || (e == 1026 && f
            <= 0x4_0000_0000_0000u64)))
    })) by (bit_vector);
}

/// No usable token was given on the command line: none, or an empty one.
pub open spec fn no_cli_token(cli_token: Option<String>) -> bool {
    match cli_token {
        Some(t) => t@.len() == 0,
        None => true,
    }
}

/// A non-empty token given on the command line is used exactly as given,
/// whatever the environment holds, when it has at least 8 characters; a
/// shorter one is refused.
pub proof fn law_cli_token_taken_unchanged(token: String, env_token: Option<String>)
    ensures
        token@.len() >= 8 ==> token_outcome(Some(token), env_token) == Ok::<Seq<char>, Seq<char>>(
            token@,
        ),
        0 < token@.len() < 8 ==> token_outcome(Some(token), env_token) is Err,
{
}

/// Without a usable command-line token, the environment's token is used exactly
/// as given when it has at least 8 characters, and refused when shorter; with
/// neither, the configuration is refused.
pub proof fn law_env_token_taken_unchanged(cli_token: Option<String>, token: String)
    ensures
        no_cli_token(cli_token) && token@.len() >= 8 ==> token_outcome(cli_token, Some(token))
            == Ok::<Seq<char>, Seq<char>>(token@),
        no_cli_token(cli_token) && token@.len() < 8 ==> token_outcome(cli_token, Some(token)) is Err,
        no_cli_token(cli_token) ==> token_outcome(cli_token, None) is Err,
{
}

/// `seg` occurs in `s` as a contiguous part.
pub open spec fn has_segment(s: Seq<char>, seg: Seq<char>) -> bool {
    exists|i: int| 0 <= i && i + seg.len() <= s.len() && #[trigger] s.subrange(i, i + seg.len()) == seg
}

/// How a text field is shown: its text, or `未记录` when absent.
pub open spec fn shown_text(v: Option<String>) -> Seq<char> {
    match v {
        Some(t) => t@,
        None => "未记录"@,
    }
}

/// How a rating is shown: `未评分` when absent; else its decimal text, with `.0`
/// added when that text has neither a point nor an exponent.
pub open spec fn shown_rating(v: Option<Rating>) -> Seq<char> {
    match v {
        Some(r) => if exists|i: int|
            0 <= i < r.display@.len() && (#[trigger] r.display@[i] == '.' || r.display@[i] == 'e'
                || r.display@[i] == 'E') {
            r.display@
        } else {
            r.display@ + ".0"@
        },
        None => "未评分"@,
    }
}

proof fn lemma_segment(x: Seq<char>, seg: Seq<char>, y: Seq<char>)
    ensures
        has_segment(x + seg + y, seg),
{
    let s = x + seg + y;
    assert(s.subrange(x.len() as int, (x.len() + seg.len()) as int) =~= seg);
}

proof fn lemma_rating_shown(v: Option<Rating>)
    ensures
        crate::format::rating_or_unrated(v) == shown_rating(v),
{
    match v {
        Some(x) => {
            assert(has_fraction_mark(x.display@) == (exists|i: int|
                0 <= i < x.display@.len() && (#[trigger] x.display@[i] == '.' || x.display@[i]
                    == 'e' || x.display@[i] == 'E')));
        },
        None => {},
    }
}

/// The summary of a film, piece by piece.
proof fn lemma_summary_pieces(f: FilmRecord)
    ensures
        film_text(f) == "**"@ + f.title@ + "**\n- 主演: "@ + shown_text(f.actors) + "\n- 剧情: "@
            + shown_text(f.plot) + "\n- 评价: "@ + shown_text(f.review) + "\n- 评分: "@
            + shown_rating(f.rating) + "/10\n- 记录日期: "@ + shown_text(f.record_date),
{
    lemma_rating_shown(f.rating);
}

proof fn lemma_window_0(x0: Seq<char>, x1: Seq<char>, x2: Seq<char>, x3: Seq<char>, x4: Seq<char>, x5: Seq<char>, x6: Seq<char>, x7: Seq<char>, x8: Seq<char>, x9: Seq<char>, x10: Seq<char>, x11: Seq<char>)
    ensures
        has_segment(x0 + x1 + x2 + x3 + x4 + x5 + x6 + x7 + x8 + x9 + x10 + x11, x0 + x1 + x2),
{
    let pre = Seq::<char>::empty();
    let post = x3 + x4 + x5 + x6 + x7 + x8 + x9 + x10 + x11;
    assert(x0 + x1 + x2 + x3 + x4 + x5 + x6 + x7 + x8 + x9 + x10 + x11 =~= pre + (x0 + x1 + x2) + post);
    lemma_segment(pre, x0 + x1 + x2, post);
}

proof fn lemma_window_2(x0: Seq<char>, x1: Seq<char>, x2: Seq<char>, x3: Seq<char>, x4: Seq<char>, x5: Seq<char>, x6: Seq<char>, x7: Seq<char>, x8: Seq<char>, x9: Seq<char>, x10: Seq<char>, x11: Seq<char>)
    ensures
        has_segment(x0 + x1 + x2 + x3 + x4 + x5 + x6 + x7 + x8 + x9 + x10 + x11, x2 + x3 + x4),
{
    let pre = x0 + x1;
    let post = x5 + x6 + x7 + x8 + x9 + x10 + x11;
    assert(x0 + x1 + x2 + x3 + x4 + x5 + x6 + x7 + x8 + x9 + x10 + x11 =~= pre + (x2 + x3 + x4) + post);
    lemma_segment(pre, x2 + x3 + x4, post);
}

proof fn lemma_window_4(x0: Seq<char>, x1: Seq<char>, x2: Seq<char>, x3: Seq<char>, x4: Seq<char>, x5: Seq<char>, x6: Seq<char>, x7: Seq<char>, x8: Seq<char>, x9: Seq<char>, x10: Seq<char>, x11: Seq<char>)
    ensures
        has_segment(x0 + x1 + x2 + x3 + x4 + x5 + x6 + x7 + x8 + x9 + x10 + x11, x4 + x5 + x6),
{
    let pre = x0 + x1 + x2 + x3;
    let post = x7 + x8 + x9 + x10 + x11;
    assert(x0 + x1 + x2 + x3 + x4 + x5 + x6 + x7 + x8 + x9 + x10 + x11 =~= pre + (x4 + x5 + x6) + post);
    lemma_segment(pre, x4 + x5 + x6, post);
}

proof fn lemma_window_6(x0: Seq<char>, x1: Seq<char>, x2: Seq<char>, x3: Seq<char>, x4: Seq<char>, x5: Seq<char>, x6: Seq<char>, x7: Seq<char>, x8: Seq<char>, x9: Seq<char>, x10: Seq<char>, x11: Seq<char>)
    ensures
        has_segment(x0 + x1 + x2 + x3 + x4 + x5 + x6 + x7 + x8 + x9 + x10 + x11, x6 + x7 + x8),
{
    let pre = x0 + x1 + x2 + x3 + x4 + x5;
    let post = x9 + x10 + x11;
    assert(x0 + x1 + x2 + x3 + x4 + x5 + x6 + x7 + x8 + x9 + x10 + x11 =~= pre + (x6 + x7 + x8) + post);
    lemma_segment(pre, x6 + x7 + x8, post);
}

proof fn lemma_window_8(x0: Seq<char>, x1: Seq<char>, x2: Seq<char>, x3: Seq<char>, x4: Seq<char>, x5: Seq<char>, x6: Seq<char>, x7: Seq<char>, x8: Seq<char>, x9: Seq<char>, x10: Seq<char>, x11: Seq<char>)
    ensures
        has_segment(x0 + x1 + x2 + x3 + x4 + x5 + x6 + x7 + x8 + x9 + x10 + x11, x8 + x9 + x10),
{
    let pre = x0 + x1 + x2 + x3 + x4 + x5 + x6 + x7;
    let post = x11;
    assert(x0 + x1 + x2 + x3 + x4 + x5 + x6 + x7 + x8 + x9 + x10 + x11 =~= pre + (x8 + x9 + x10) + post);
    lemma_segment(pre, x8 + x9 + x10, post);
}

proof fn lemma_ends(x0: Seq<char>, x1: Seq<char>, x2: Seq<char>, x3: Seq<char>, x4: Seq<char>, x5: Seq<char>, x6: Seq<char>, x7: Seq<char>, x8: Seq<char>, x9: Seq<char>, x10: Seq<char>, x11: Seq<char>)
    ensures
        (x0 + x1 + x2 + x3 + x4 + x5 + x6 + x7 + x8 + x9 + x10 + x11).len() >= x10.len() + x11.len(),
        (x0 + x1 + x2 + x3 + x4 + x5 + x6 + x7 + x8 + x9 + x10 + x11).skip((x0 + x1 + x2 + x3 + x4 + x5 + x6 + x7 + x8 + x9 + x10 + x11).len() - x10.len() - x11.len()) == x10 + x11,
        (x0 + x1 + x2 + x3 + x4 + x5 + x6 + x7 + x8 + x9 + x10 + x11).take((x0.len() + x1.len()) as int) == x0 + x1,
{
    let whole = x0 + x1 + x2 + x3 + x4 + x5 + x6 + x7 + x8 + x9 + x10 + x11;
    let pre = x0 + x1 + x2 + x3 + x4 + x5 + x6 + x7 + x8 + x9;
    assert(whole =~= pre + (x10 + x11));
    assert(whole.skip(whole.len() - x10.len() - x11.len()) =~= x10 + x11);
    assert(whole =~= (x0 + x1) + (x2 + x3 + x4 + x5 + x6 + x7 + x8 + x9 + x10 + x11));
    assert(whole.take((x0.len() + x1.len()) as int) =~= x0 + x1);
}

/// The summary of a film starts with its title in bold and shows every field on
/// a labelled line of its own, between the label of that field and the label of
/// the next: actors, plot, review, rating out of 10, and last the record date.
pub proof fn law_summary_shows_every_field(f: FilmRecord)
    ensures
        film_text(f).len() >= f.title@.len() + 2,
        film_text(f).take(f.title@.len() + 2int) == "**"@ + f.title@,
        has_segment(film_text(f), "**"@ + f.title@ + "**\n- 主演: "@),
        has_segment(film_text(f), "**\n- 主演: "@ + shown_text(f.actors) + "\n- 剧情: "@),
        has_segment(film_text(f), "\n- 剧情: "@ + shown_text(f.plot) + "\n- 评价: "@),
        has_segment(film_text(f), "\n- 评价: "@ + shown_text(f.review) + "\n- 评分: "@),
        has_segment(film_text(f), "\n- 评分: "@ + shown_rating(f.rating) + "/10\n- 记录日期: "@),
        film_text(f).len() >= "/10\n- 记录日期: "@.len() + shown_text(f.record_date).len(),
        film_text(f).skip(
            film_text(f).len() - "/10\n- 记录日期: "@.len() - shown_text(f.record_date).len(),
        ) == "/10\n- 记录日期: "@ + shown_text(f.record_date),
{
    lemma_summary_pieces(f);
    let x0 = "**"@;
    let x1 = f.title@;
    let x2 = "**\n- 主演: "@;
    let x3 = shown_text(f.actors);
    let x4 = "\n- 剧情: "@;
    let x5 = shown_text(f.plot);
    let x6 = "\n- 评价: "@;
    let x7 = shown_text(f.review);
    let x8 = "\n- 评分: "@;
    let x9 = shown_rating(f.rating);
    let x10 = "/10\n- 记录日期: "@;
    let x11 = shown_text(f.record_date);
    lemma_window_0(x0, x1, x2, x3, x4, x5, x6, x7, x8, x9, x10, x11);
    lemma_window_2(x0, x1, x2, x3, x4, x5, x6, x7, x8, x9, x10, x11);
    lemma_window_4(x0, x1, x2, x3, x4, x5, x6, x7, x8, x9, x10, x11);
    lemma_window_6(x0, x1, x2, x3, x4, x5, x6, x7, x8, x9, x10, x11);
    lemma_window_8(x0, x1, x2, x3, x4, x5, x6, x7, x8, x9, x10, x11);
    lemma_ends(x0, x1, x2, x3, x4, x5, x6, x7, x8, x9, x10, x11);
    assert(x0.len() == 2) by {
        reveal_strlit("**");
    }
}

/// A new film keeps its own record date; a film without one gets the date of
/// the day passed in, unchanged.
pub proof fn law_record_date_choice(record_date: Option<String>, today: String)
    ensures
        record_date matches Some(d) ==> chosen_record_date(record_date, today@) == d@,
        record_date is None ==> chosen_record_date(record_date, today@) == today@,
{
}

} // verus!
