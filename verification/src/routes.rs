//! What the data routes answer: the replies built from what the database returned.

use crate::error::AppError;
use crate::format::{film_text, format_film};
use crate::db::{
    binds_view, record_date_for, update_binds, update_sql, update_statement,
    SqlStatement,
};
use crate::models::{
    rating_acceptable, rating_error_text, FilmBatch, FilmRecord, FilmUpdate, RatingUpdate,
};
use crate::text::{decimal, decimal_text};
use vstd::prelude::*;
use vstd::string::*;

verus! {

/// The `title` query parameter: part of a film's title.
#[derive(Clone, Debug)]
pub struct TitleQuery {
    pub title: String,
}

/// The `actor` query parameter: part of an actor's name.
#[derive(Clone, Debug)]
pub struct ActorQuery {
    pub actor: String,
}

/// The JSON object a data route answers with. Each present field becomes a key
/// of the object; `data` says whether the film records of the reply are included
/// under `data`.
#[derive(Clone, Debug)]
pub struct Reply {
    pub message: String,
    pub films: Option<Vec<String>>,
    pub film: Option<String>,
    pub data: bool,
    pub deleted: Option<bool>,
    pub count: Option<u64>,
    pub total: Option<i64>,
    pub limit: Option<i64>,
    pub offset: Option<i64>,
}

/// The summaries of a list of films.
pub open spec fn film_texts(films: Seq<FilmRecord>) -> Seq<Seq<char>> {
    films.map_values(|f: FilmRecord| film_text(f))
}

/// The views of a list of strings.
pub open spec fn texts_view(v: Seq<String>) -> Seq<Seq<char>> {
    v.map_values(|s: String| s@)
}

/// The `films` field of a reply as a mathematical value.
pub open spec fn films_field(r: Reply) -> Option<Seq<Seq<char>>> {
    match r.films {
        Some(v) => Some(texts_view(v@)),
        None => None,
    }
}

/// The `film` field of a reply as a mathematical value.
pub open spec fn film_field(r: Reply) -> Option<Seq<char>> {
    match r.film {
        Some(s) => Some(s@),
        None => None,
    }
}

/// The summaries of the films, in order.
pub fn format_films(films: &Vec<FilmRecord>) -> (r: Vec<String>)
    ensures
        texts_view(r@) == film_texts(films@),
{
    let n = films.len();
    let mut out: Vec<String> = Vec::new();
    for i in 0..n
        invariant
            n == films@.len(),
            texts_view(out@) =~= film_texts(films@.take(i as int)),
    {
        let text = format_film(&films[i]);
        out.push(text);
        assert(film_texts(films@.take(i + 1)) =~= film_texts(films@.take(i as int)).push(
            film_text(films@[i as int]),
        ));
        assert(texts_view(out@) =~= film_texts(films@.take(i + 1)));
    }
    assert(films@.take(n as int) =~= films@);
    out
}

fn concat3(a: &str, b: &str, c: &str) -> (r: String)
    ensures
        r@ == a@ + b@ + c@,
{
    let mut out = String::new();
    out.append(a);
    out.append(b);
    out.append(c);
    out
}

/// The reply that only carries a message.
fn message_only(message: String) -> (r: Reply)
    ensures
        r.message == message,
        r.films is None,
        r.film is None,
        !r.data,
        r.deleted is None,
        r.count is None,
        r.total is None,
        r.limit is None,
        r.offset is None,
{
    Reply {
        message,
        films: None,
        film: None,
        data: false,
        deleted: None,
        count: None,
        total: None,
        limit: None,
        offset: None,
    }
}

/// The message when no film's title contains `title`.
pub open spec fn no_title_match_text(title: Seq<char>) -> Seq<char> {
    "未找到标题包含「"@ + title + "」的电影"@
}

/// `r` is the reply to adding the films `added`.
pub open spec fn is_batch_reply(r: Reply, added: Seq<FilmRecord>) -> bool {
    &&& r.message@ == "已成功添加 "@ + decimal_text(added.len() as int) + " 部电影记录"@
    &&& films_field(r) == Some(film_texts(added))
    &&& r.film is None
    &&& r.data
    &&& r.deleted is None
    &&& r.count == Some(added.len() as u64)
    &&& r.total is None && r.limit is None && r.offset is None
}

/// The reply to adding several films: how many were added, their summaries,
/// the records and the count.
pub fn batch_reply(added: &Vec<FilmRecord>) -> (r: Reply)
    ensures
        is_batch_reply(r, added@),
{
    let n = added.len();
    let count = decimal(n as i128);
    let mut r = message_only(concat3("已成功添加 ", count.as_str(), " 部电影记录"));
    r.films = Some(format_films(added));
    r.data = true;
    r.count = Some(n as u64);
    r
}

/// The reply to a search by title: the number found, their summaries and the
/// records; or, when nothing matched, a message saying so and no films.
pub fn title_search_reply(query: &TitleQuery, films: &Vec<FilmRecord>) -> (r: Reply)
    ensures
        films@.len() == 0 ==> {
            &&& r.message@ == no_title_match_text(query.title@)
            &&& films_field(r) == Some(Seq::<Seq<char>>::empty())
            &&& !r.data
        },
        films@.len() > 0 ==> {
            &&& r.message@ == "找到 "@ + decimal_text(films@.len() as int) + " 部电影"@
            &&& films_field(r) == Some(film_texts(films@))
            &&& r.data
        },
        r.film is None && r.deleted is None && r.count is None,
        r.total is None && r.limit is None && r.offset is None,
{
    let n = films.len();
    if n == 0 {
        let mut r = message_only(concat3("未找到标题包含「", query.title.as_str(), "」的电影"));
        let none: Vec<String> = Vec::new();
        assert(texts_view(none@) =~= Seq::<Seq<char>>::empty());
        r.films = Some(none);
        return r;
    }
    let count = decimal(n as i128);
    let mut r = message_only(concat3("找到 ", count.as_str(), " 部电影"));
    r.films = Some(format_films(films));
    r.data = true;
    r
}

/// The reply to a new rating for the films whose title contains the given
/// part: a confirmation with their summaries and records, or a message that no
/// film matched.
pub fn rating_update_reply(update: &RatingUpdate, films: &Vec<FilmRecord>) -> (r: Reply)
    ensures
        films@.len() == 0 ==> r.message@ == no_title_match_text(update.title@) && r.films is None
            && !r.data,
        films@.len() > 0 ==> r.message@ == "已更新评分"@ && films_field(r) == Some(
            film_texts(films@),
        ) && r.data,
        r.film is None && r.deleted is None && r.count is None,
        r.total is None && r.limit is None && r.offset is None,
{
    if films.len() == 0 {
        return message_only(concat3("未找到标题包含「", update.title.as_str(), "」的电影"));
    }
    let mut r = message_only(String::from_str("已更新评分"));
    r.films = Some(format_films(films));
    r.data = true;
    r
}

/// The message when there is no film with the id.
pub open spec fn not_found_text(film_id: i64) -> Seq<char> {
    "未找到 ID 为 "@ + decimal_text(film_id as int) + " 的电影"@
}

/// The error for a film id that does not exist.
pub fn film_not_found(film_id: i64) -> (e: AppError)
    ensures
        (e matches AppError::NotFound(d) && d@ == not_found_text(film_id)),
{
    let id = decimal(film_id as i128);
    AppError::NotFound(concat3("未找到 ID 为 ", id.as_str(), " 的电影"))
}

/// `r` is the answer to a partial update of the film `film_id` that read back
/// `updated`.
pub open spec fn is_update_answer(r: Result<Reply, AppError>, film_id: i64, updated: Option<
    FilmRecord,
>) -> bool {
    match updated {
        None => r matches Err(AppError::NotFound(d)) && d@ == not_found_text(film_id),
        Some(f) => r matches Ok(reply) && {
            &&& reply.message@ == "已更新电影信息"@
            &&& film_field(reply) == Some(film_text(f))
            &&& reply.data
            &&& reply.films is None && reply.deleted is None && reply.count is None
            &&& reply.total is None && reply.limit is None && reply.offset is None
        },
    }
}

/// The reply to a partial update of a film: a confirmation with its summary and
/// record, or not-found when the film is gone.
pub fn film_update_reply(film_id: i64, updated: &Option<FilmRecord>) -> (r: Result<Reply, AppError>)
    ensures
        is_update_answer(r, film_id, *updated),
{
    match updated {
        None => Err(film_not_found(film_id)),
        Some(film) => {
            let mut r = message_only(String::from_str("已更新电影信息"));
            r.film = Some(format_film(film));
            r.data = true;
            Ok(r)
        },
    }
}

/// The reply to deleting a film by id: a confirmation with a count of 1, or
/// not-found when nothing was deleted.
pub fn film_delete_reply(film_id: i64, deleted: bool) -> (r: Result<Reply, AppError>)
    ensures
        !deleted ==> (r matches Err(AppError::NotFound(d)) && d@ == not_found_text(film_id)),
        deleted ==> (r matches Ok(reply) && {
            &&& reply.message@ == "已删除电影记录 (ID: "@ + decimal_text(film_id as int) + ")"@
            &&& reply.deleted == Some(true)
            &&& reply.count == Some(1u64)
            &&& reply.films is None && reply.film is None && !reply.data
            &&& reply.total is None && reply.limit is None && reply.offset is None
        }),
{
    if !deleted {
        return Err(film_not_found(film_id));
    }
    let id = decimal(film_id as i128);
    let mut r = message_only(concat3("已删除电影记录 (ID: ", id.as_str(), ")"));
    r.deleted = Some(true);
    r.count = Some(1);
    Ok(r)
}

/// The reply to deleting the films whose title contains the given part: how many
/// were deleted, or that none matched.
pub fn title_delete_reply(query: &TitleQuery, count: u64) -> (r: Reply)
    ensures
        count == 0 ==> r.message@ == no_title_match_text(query.title@) && r.deleted == Some(
            false,
        ),
        count > 0 ==> r.message@ == "已删除 "@ + decimal_text(count as int) + " 部标题包含「"@
            + query.title@ + "」的电影"@ && r.deleted == Some(true),
        r.count == Some(count),
        r.films is None && r.film is None && !r.data,
        r.total is None && r.limit is None && r.offset is None,
{
    if count == 0 {
        let mut r = message_only(concat3("未找到标题包含「", query.title.as_str(), "」的电影"));
        r.deleted = Some(false);
        r.count = Some(0);
        return r;
    }
    let n = decimal(count as i128);
    let mut message = concat3("已删除 ", n.as_str(), " 部标题包含「");
    message.append(query.title.as_str());
    message.append("」的电影");
    let mut r = message_only(message);
    r.deleted = Some(true);
    r.count = Some(count);
    r
}

/// The reply to a search by actor: the number found with their summaries and
/// records, or a message that the actor has no films.
pub fn actor_search_reply(query: &ActorQuery, films: &Vec<FilmRecord>) -> (r: Reply)
    ensures
        films@.len() == 0 ==> {
            &&& r.message@ == "未找到「"@ + query.actor@ + "」主演的电影"@
            &&& films_field(r) == Some(Seq::<Seq<char>>::empty())
            &&& !r.data
        },
        films@.len() > 0 ==> {
            &&& r.message@ == "「"@ + query.actor@ + "」主演的电影 ("@ + decimal_text(
                films@.len() as int,
            ) + " 部)"@
            &&& films_field(r) == Some(film_texts(films@))
            &&& r.data
        },
        r.film is None && r.deleted is None && r.count is None,
        r.total is None && r.limit is None && r.offset is None,
{
    let n = films.len();
    if n == 0 {
        let mut r = message_only(concat3("未找到「", query.actor.as_str(), "」主演的电影"));
        let none: Vec<String> = Vec::new();
        assert(texts_view(none@) =~= Seq::<Seq<char>>::empty());
        r.films = Some(none);
        return r;
    }
    let count = decimal(n as i128);
    let mut message = concat3("「", query.actor.as_str(), "」主演的电影 (");
    message.append(count.as_str());
    message.append(" 部)");
    let mut r = message_only(message);
    r.films = Some(format_films(films));
    r.data = true;
    r
}

/// The reply to one page of the listing: the total, the range of positions shown
/// (counted from 1), the summaries and records, with the page size and offset;
/// or, for an empty page, a message that there are no records and a total of 0.
pub fn listing_reply(films: &Vec<FilmRecord>, total: i64, limit: i64, offset: i64) -> (r: Reply)
    ensures
        films@.len() == 0 ==> {
            &&& r.message@ == "暂无电影记录"@
            &&& films_field(r) == Some(Seq::<Seq<char>>::empty())
            &&& r.total == Some(0i64)
        },
        films@.len() > 0 ==> {
            &&& r.message@ == "所有电影记录 (共 "@ + decimal_text(total as int) + " 部，显示 "@
                + decimal_text(offset + 1) + "-"@ + decimal_text(offset + films@.len()) + " 部)"@
            &&& films_field(r) == Some(film_texts(films@))
            &&& r.total == Some(total)
        },
        r.data,
        r.limit == Some(limit) && r.offset == Some(offset),
        r.film is None && r.deleted is None && r.count is None,
{
    let n = films.len();
    if n == 0 {
        let mut r = message_only(String::from_str("暂无电影记录"));
        let none: Vec<String> = Vec::new();
        assert(texts_view(none@) =~= Seq::<Seq<char>>::empty());
        r.films = Some(none);
        r.data = true;
        r.total = Some(0);
        r.limit = Some(limit);
        r.offset = Some(offset);
        return r;
    }
    let first = decimal(offset as i128 + 1);
    let last = decimal(offset as i128 + n as i128);
    let mut message = concat3("所有电影记录 (共 ", decimal(total as i128).as_str(), " 部，显示 ");
    message.append(first.as_str());
    message.append("-");
    message.append(last.as_str());
    message.append(" 部)");
    let mut r = message_only(message);
    r.films = Some(format_films(films));
    r.data = true;
    r.total = Some(total);
    r.limit = Some(limit);
    r.offset = Some(offset);
    r
}

/// What happens next while a batch of films is being added.
#[derive(Debug)]
pub enum BatchEvent {
    /// The batch has arrived; nothing is stored yet.
    Requested,
    /// These records have been stored so far, in order.
    Inserted(Vec<FilmRecord>),
}

/// What the service does next for a batch of films.
#[derive(Debug)]
pub enum BatchAction {
    /// Answer with this error; nothing is stored.
    Reject(AppError),
    /// Store the film at `index` of the batch with this record date.
    Insert { index: usize, record_date: String },
    /// Answer with this reply.
    Answer(Reply),
}

/// Every film of the batch is accepted.
pub open spec fn batch_acceptable(batch: FilmBatch) -> bool {
    forall|i: int| 0 <= i < batch.films@.len() ==> rating_acceptable(#[trigger] batch.films@[i].rating)
}

/// The step after `added` films of the batch have been stored: store the next
/// one, or answer once all are stored.
pub open spec fn batch_next(batch: FilmBatch, added: Seq<FilmRecord>, a: BatchAction) -> bool {
    if added.len() < batch.films@.len() {
        a matches BatchAction::Insert { index, record_date } && index == added.len() && (
        batch.films@[index as int].record_date matches Some(d) ==> record_date@ == d@) && (
        batch.films@[index as int].record_date is None ==> record_date@.len() >= 10
            && record_date@[record_date@.len() - 3] == '-' && record_date@[record_date@.len() - 6]
            == '-')
    } else {
        a matches BatchAction::Answer(reply) && is_batch_reply(reply, added)
    }
}

fn batch_continue(batch: &FilmBatch, added: &Vec<FilmRecord>) -> (a: BatchAction)
    ensures
        batch_next(*batch, added@, a),
{
    let n = added.len();
    if n < batch.films.len() {
        let record_date = record_date_for(&batch.films[n]);
        BatchAction::Insert { index: n, record_date }
    } else {
        BatchAction::Answer(batch_reply(added))
    }
}

/// Decides the next step of adding a batch of films. The whole batch is checked
/// when it arrives: a batch with any rating out of range is refused before any
/// film is stored. Then the films are stored one by one, in order, each with its
/// own record date or today's, and the reply names all of them.
pub fn batch_step(batch: &FilmBatch, event: BatchEvent) -> (a: BatchAction)
    ensures
        event is Requested && !batch_acceptable(*batch) ==> (a matches BatchAction::Reject(
            AppError::Validation(e),
        ) && e@ == rating_error_text()),
        event is Requested && batch_acceptable(*batch) ==> batch_next(*batch, Seq::empty(), a),
        event matches BatchEvent::Inserted(added) ==> batch_next(*batch, added@, a),
{
    match event {
        BatchEvent::Requested => match batch.validate() {
            Err(e) => BatchAction::Reject(AppError::Validation(e)),
            Ok(()) => {
                let none: Vec<FilmRecord> = Vec::new();
                batch_continue(batch, &none)
            },
        },
        BatchEvent::Inserted(added) => batch_continue(batch, &added),
    }
}

/// What happens next while a film is being changed.
#[derive(Debug)]
pub enum UpdateEvent {
    /// The change has arrived.
    Requested,
    /// The film was looked up; `exists` says whether it is there.
    LookedUp { exists: bool },
    /// The change was applied and the film read back.
    Applied(Option<FilmRecord>),
}

/// What the service does next for a change of a film.
#[derive(Debug)]
pub enum UpdateAction {
    /// Look the film up by id.
    LookUp,
    /// Run this statement, if any, then read the film back.
    Apply(Option<SqlStatement>),
    /// Answer with this reply or error.
    Answer(Result<Reply, AppError>),
}

/// Decides the next step of changing the film `film_id`. A rating out of range
/// is refused (422) before the database is read; a film that does not exist is
/// answered 404 before anything is written; otherwise the planned statement is
/// run and the film read back is the reply.
pub fn update_step(film_id: i64, update: &FilmUpdate, event: UpdateEvent) -> (a: UpdateAction)
    ensures
        event is Requested && !rating_acceptable(update.rating) ==> (a matches UpdateAction::Answer(
            Err(AppError::Validation(e)),
        ) && e@ == rating_error_text()),
        event is Requested && rating_acceptable(update.rating) ==> a is LookUp,
        event matches UpdateEvent::LookedUp { exists } && !exists ==> (a matches UpdateAction::Answer(
            Err(AppError::NotFound(d)),
        ) && d@ == not_found_text(film_id)),
        event matches UpdateEvent::LookedUp { exists } && exists ==> (a matches UpdateAction::Apply(
            plan,
        ) && (plan is None <==> update.spec_is_empty()) && (plan matches Some(st) ==> st.sql@
            == update_sql(*update) && binds_view(st.binds@) == update_binds(film_id, *update))),
        event matches UpdateEvent::Applied(updated) ==> (a matches UpdateAction::Answer(r)
            && is_update_answer(r, film_id, updated)),
{
    match event {
        UpdateEvent::Requested => match update.validate() {
            Err(e) => UpdateAction::Answer(Err(AppError::Validation(e))),
            Ok(()) => UpdateAction::LookUp,
        },
        UpdateEvent::LookedUp { exists } => {
            if exists {
                UpdateAction::Apply(update_statement(film_id, update))
            } else {
                UpdateAction::Answer(Err(film_not_found(film_id)))
            }
        },
        UpdateEvent::Applied(updated) => UpdateAction::Answer(film_update_reply(film_id, &updated)),
    }
}

} // verus!
