//! What the library decides about database access: the `LIKE` patterns, the
//! statement of a partial update, and the record date of a new film.

use crate::models::{FilmCreate, FilmUpdate, Rating};
use vstd::prelude::*;
use vstd::string::*;

verus! {

/// The `LIKE` pattern that matches every text containing `text`. The text is
/// not escaped: a `%` or `_` in it acts as a `LIKE` wildcard.
pub open spec fn like_text(text: Seq<char>) -> Seq<char> {
    "%"@ + text + "%"@
}

/// The `LIKE` pattern for a search by part of a title or of an actor's name.
/// The text is not escaped: a `%` or `_` in it acts as a `LIKE` wildcard.
pub fn like_pattern(text: &str) -> (r: String)
    ensures
        r@ == like_text(text@),
{
    let mut out = String::new();
    out.append("%");
    out.append(text);
    out.append("%");
    out
}

/// A value bound to a `?` placeholder.
#[derive(Clone, Debug)]
pub enum SqlValue {
    Text(String),
    /// A floating-point number, as its IEEE-754 binary64 pattern.
    Real(u64),
    Integer(i64),
}

/// A bound value as a mathematical value.
pub enum SqlValueView {
    Text(Seq<char>),
    Real(u64),
    Integer(i64),
}

impl View for SqlValue {
    type V = SqlValueView;

    open spec fn view(&self) -> SqlValueView {
        match self {
            SqlValue::Text(s) => SqlValueView::Text(s@),
            SqlValue::Real(b) => SqlValueView::Real(*b),
            SqlValue::Integer(i) => SqlValueView::Integer(*i),
        }
    }
}

/// An SQL statement with `?` placeholders and the values bound to them, in order.
#[derive(Clone, Debug)]
pub struct SqlStatement {
    pub sql: String,
    pub binds: Vec<SqlValue>,
}

/// The views of bound values.
pub open spec fn binds_view(binds: Seq<SqlValue>) -> Seq<SqlValueView> {
    binds.map_values(|v: SqlValue| v@)
}

/// The assignment `text` when the field is present, else nothing.
pub open spec fn assignment(present: bool, text: Seq<char>) -> Seq<char> {
    if present {
        text
    } else {
        Seq::empty()
    }
}

/// The assignments of the present fields, in the order title, actors, plot,
/// review, rating, record date, each followed by `, `.
pub open spec fn set_clause(u: FilmUpdate) -> Seq<char> {
    assignment(u.title is Some, "title = ?, "@) + assignment(u.actors is Some, "actors = ?, "@)
        + assignment(u.plot is Some, "plot = ?, "@) + assignment(u.review is Some, "review = ?, "@)
        + assignment(u.rating is Some, "rating = ?, "@) + assignment(
        u.record_date is Some,
        "record_date = ?, "@,
    )
}

/// The bound text of a present field.
pub open spec fn text_bind(v: Option<String>) -> Seq<SqlValueView> {
    match v {
        Some(s) => seq![SqlValueView::Text(s@)],
        None => Seq::empty(),
    }
}

/// The bound number of a present rating.
pub open spec fn rating_bind(v: Option<Rating>) -> Seq<SqlValueView> {
    match v {
        Some(r) => seq![SqlValueView::Real(r.bits)],
        None => Seq::empty(),
    }
}

/// The values bound by an update, in the order of its placeholders.
pub open spec fn update_binds(film_id: i64, u: FilmUpdate) -> Seq<SqlValueView> {
    text_bind(u.title) + text_bind(u.actors) + text_bind(u.plot) + text_bind(u.review) + rating_bind(u.rating) + text_bind(u.record_date) + seq![SqlValueView::Integer(film_id)]
}

/// The text of the update statement.
pub open spec fn update_sql(u: FilmUpdate) -> Seq<char> {
    "UPDATE films SET "@ + set_clause(u) + "updated_at = CURRENT_TIMESTAMP WHERE id = ?"@
}

fn append_assignment(sql: &mut String, present: bool, text: &str)
    ensures
        final(sql)@ == old(sql)@ + assignment(present, text@),
{
    if present {
        sql.append(text);
    } else {
        assert(sql@ =~= old(sql)@ + assignment(present, text@));
    }
}

fn push_text(binds: &mut Vec<SqlValue>, v: &Option<String>)
    ensures
        binds_view(final(binds)@) == binds_view(old(binds)@) + text_bind(*v),
{
    match v {
        Some(s) => {
            binds.push(SqlValue::Text(s.clone()));
        },
        None => {},
    }
    assert(binds_view(binds@) =~= binds_view(old(binds)@) + text_bind(*v));
}

fn update_sql_text(update: &FilmUpdate) -> (r: String)
    ensures
        r@ == update_sql(*update),
{
    let u = update;
    let mut sql = String::new();
    sql.append("UPDATE films SET ");
    let ghost head = sql@;
    append_assignment(&mut sql, u.title.is_some(), "title = ?, ");
    let ghost s1 = assignment(u.title is Some, "title = ?, "@);
    assert(sql@ =~= head + s1);
    append_assignment(&mut sql, u.actors.is_some(), "actors = ?, ");
    let ghost s2 = s1 + assignment(u.actors is Some, "actors = ?, "@);
    assert(sql@ =~= head + s2);
    append_assignment(&mut sql, u.plot.is_some(), "plot = ?, ");
    let ghost s3 = s2 + assignment(u.plot is Some, "plot = ?, "@);
    assert(sql@ =~= head + s3);
    append_assignment(&mut sql, u.review.is_some(), "review = ?, ");
    let ghost s4 = s3 + assignment(u.review is Some, "review = ?, "@);
    assert(sql@ =~= head + s4);
    append_assignment(&mut sql, u.rating.is_some(), "rating = ?, ");
    let ghost s5 = s4 + assignment(u.rating is Some, "rating = ?, "@);
    assert(sql@ =~= head + s5);
    append_assignment(&mut sql, u.record_date.is_some(), "record_date = ?, ");
    let ghost s6 = s5 + assignment(u.record_date is Some, "record_date = ?, "@);
    assert(sql@ =~= head + s6);
    assert(s6 == set_clause(*u));
    sql.append("updated_at = CURRENT_TIMESTAMP WHERE id = ?");
    assert(sql@ =~= update_sql(*update));
    sql
}

fn update_bind_values(film_id: i64, update: &FilmUpdate) -> (r: Vec<SqlValue>)
    ensures
        binds_view(r@) == update_binds(film_id, *update),
{
    let u = update;
    let mut binds: Vec<SqlValue> = Vec::new();
    assert(binds_view(binds@) =~= Seq::<SqlValueView>::empty());
    push_text(&mut binds, &u.title);
    let ghost b1 = text_bind(u.title);
    assert(binds_view(binds@) =~= b1);
    push_text(&mut binds, &u.actors);
    let ghost b2 = b1 + text_bind(u.actors);
    push_text(&mut binds, &u.plot);
    let ghost b3 = b2 + text_bind(u.plot);
    push_text(&mut binds, &u.review);
    let ghost b4 = b3 + text_bind(u.review);
    assert(binds_view(binds@) =~= b4);
    let ghost rating_part = rating_bind(u.rating);
    match &u.rating {
        Some(rating) => {
            binds.push(SqlValue::Real(rating.bits));
        },
        None => {},
    }
    let ghost b5 = b4 + rating_part;
    assert(binds_view(binds@) =~= b5);
    push_text(&mut binds, &u.record_date);
    let ghost b6 = b5 + text_bind(u.record_date);
    binds.push(SqlValue::Integer(film_id));
    assert(binds_view(binds@) =~= b6 + seq![SqlValueView::Integer(film_id)]);
    binds
}

/// The statement that applies a partial update to the film `film_id`, or `None`
/// when the update changes nothing (the film is then only read back). Every
/// present field is set, and `updated_at` is set to the current time.
pub fn update_statement(film_id: i64, update: &FilmUpdate) -> (r: Option<SqlStatement>)
    ensures
        r is None <==> update.spec_is_empty(),
        r matches Some(st) ==> st.sql@ == update_sql(*update) && binds_view(st.binds@)
            == update_binds(film_id, *update),
{
    if update.is_empty() {
        return None;
    }
    let sql = update_sql_text(update);
    let binds = update_bind_values(film_id, update);
    Some(SqlStatement { sql, binds })
}

/// Today's date in the local time zone, from `chrono::Local::now()`, written as
/// `chrono::NaiveDate`'s `Display` writes it: the year (four digits, or a sign and
/// at least four digits outside 0..=9999), then `-MM-DD`.
#[verifier::external_body]
fn today_local() -> (r: String)
    ensures
        r@.len() >= 10,
        r@[r@.len() - 3] == '-',
        r@[r@.len() - 6] == '-',
{
    chrono::Local::now().date_naive().to_string()
}

/// The record date of a new film: its own when it has one, else `today`.
pub open spec fn chosen_record_date(record_date: Option<String>, today: Seq<char>) -> Seq<char> {
    match record_date {
        Some(d) => d@,
        None => today,
    }
}

/// The record date of a new film, given today's date: the film's own date when
/// it has one, else `today`.
pub fn record_date_or(film: &FilmCreate, today: String) -> (r: String)
    ensures
        r@ == chosen_record_date(film.record_date, today@),
{
    match &film.record_date {
        Some(d) => d.clone(),
        None => today,
    }
}

/// The record date of a new film: its own when it has one, else today's local
/// date (read from the clock only in that case).
pub fn record_date_for(film: &FilmCreate) -> (r: String)
    ensures
        film.record_date matches Some(d) ==> r@ == d@,
        film.record_date is None ==> r@.len() >= 10 && r@[r@.len() - 3] == '-' && r@[r@.len() - 6]
            == '-',
{
    match &film.record_date {
        Some(d) => d.clone(),
        None => record_date_or(film, today_local()),
    }
}

} // verus!
