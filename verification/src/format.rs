//! The human-readable text of a film record.

use crate::models::{FilmRecord, Rating};
use vstd::prelude::*;
use vstd::string::*;

verus! {

broadcast use vstd::string::group_string_axioms;

/// A character that shows a rendered number is not a bare integer.
pub open spec fn is_fraction_mark(c: char) -> bool {
    c == '.' || c == 'e' || c == 'E'
}

/// The text contains a decimal point or an exponent mark.
pub open spec fn has_fraction_mark(s: Seq<char>) -> bool {
    exists|i: int| 0 <= i < s.len() && is_fraction_mark(#[trigger] s[i])
}

/// A rendered rating: the rendering as it is when it already shows a fraction or an
/// exponent, else the rendering followed by `.0`.
pub open spec fn rating_text(rendered: Seq<char>) -> Seq<char> {
    if has_fraction_mark(rendered) {
        rendered
    } else {
        rendered + ".0"@
    }
}

fn contains_fraction_mark(s: &str) -> (r: bool)
    ensures
        r == has_fraction_mark(s@),
{
    let mut found = false;
    for c in it: s.chars()
        invariant
            it.seq() == s@,
            found == exists|j: int| 0 <= j < it.index() && is_fraction_mark(#[trigger] s@[j]),
    {
        if c == '.' || c == 'e' || c == 'E' {
            found = true;
        }
    }
    found
}

/// Renders a rating from the text that `f64`'s `Display` writes for it, so that an
/// integral rating shows one decimal place (`8` becomes `8.0`).
pub fn format_rating(rendered: &str) -> (r: String)
    ensures
        r@ == rating_text(rendered@),
{
    let mut out = String::new();
    out.append(rendered);
    if !contains_fraction_mark(rendered) {
        out.append(".0");
    }
    out
}

/// A text field, or `未记录` ("not recorded") when it is absent.
pub open spec fn or_unrecorded(v: Option<String>) -> Seq<char> {
    match v {
        Some(s) => s@,
        None => "未记录"@,
    }
}

/// A rating's text, or `未评分` ("not rated") when there is none.
pub open spec fn rating_or_unrated(v: Option<Rating>) -> Seq<char> {
    match v {
        Some(r) => rating_text(r.display@),
        None => "未评分"@,
    }
}

/// The Markdown summary of a film.
pub open spec fn film_text(f: FilmRecord) -> Seq<char> {
    "**"@ + f.title@ + "**\n- 主演: "@ + or_unrecorded(f.actors) + "\n- 剧情: "@ + or_unrecorded(
        f.plot,
    ) + "\n- 评价: "@ + or_unrecorded(f.review) + "\n- 评分: "@ + rating_or_unrated(f.rating)
        + "/10\n- 记录日期: "@ + or_unrecorded(f.record_date)
}

fn append_or_unrecorded(out: &mut String, v: &Option<String>)
    ensures
        final(out)@ == old(out)@ + or_unrecorded(*v),
{
    match v {
        Some(s) => out.append(s.as_str()),
        None => out.append("未记录"),
    }
}

/// The Markdown summary of a film: title in bold, then actors, plot, review,
/// rating out of 10 and record date, each on a line of its own.
pub fn format_film(film: &FilmRecord) -> (r: String)
    ensures
        r@ == film_text(*film),
{
    let mut out = String::new();
    out.append("**");
    out.append(film.title.as_str());
    out.append("**\n- 主演: ");
    append_or_unrecorded(&mut out, &film.actors);
    out.append("\n- 剧情: ");
    append_or_unrecorded(&mut out, &film.plot);
    out.append("\n- 评价: ");
    append_or_unrecorded(&mut out, &film.review);
    out.append("\n- 评分: ");
    match &film.rating {
        Some(rating) => {
            let text = format_rating(rating.display.as_str());
            out.append(text.as_str());
        },
        None => out.append("未评分"),
    }
    out.append("/10\n- 记录日期: ");
    append_or_unrecorded(&mut out, &film.record_date);
    assert(out@ =~= film_text(*film));
    out
}

} // verus!
