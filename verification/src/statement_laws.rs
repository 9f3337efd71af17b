//! Which column each placeholder of the partial-update statement writes.

use crate::db::{assignment, rating_bind, text_bind, update_binds, update_sql, SqlValueView};
use crate::laws::placeholders;
use crate::models::FilmUpdate;
use vstd::prelude::*;

verus! {

/// The position of the `k`-th `?` of `s` (counted from 0), or -1 when `s` has
/// fewer.
pub open spec fn mark_pos(s: Seq<char>, k: nat) -> int
    decreases s.len(),
{
    if s.len() == 0 {
        -1
    } else if s[0] == '?' && k == 0 {
        0
    } else {
        let r = mark_pos(
            s.drop_first(),
            if s[0] == '?' {
                (k - 1) as nat
            } else {
                k
            },
        );
        if r < 0 {
            -1
        } else {
            r + 1
        }
    }
}

/// The `k`-th `?` of `s` stands in the assignment `col = ?`.
pub open spec fn placeholder_column_is(s: Seq<char>, k: nat, col: Seq<char>) -> bool {
    let i = mark_pos(s, k);
    &&& i >= col.len() + 3
    &&& s.subrange(i - col.len() - 3, i) == col + " = "@
}

/// The column named `col` when the field is present, else none.
pub open spec fn column_if(present: bool, col: Seq<char>) -> Seq<Seq<char>> {
    if present {
        seq![col]
    } else {
        Seq::empty()
    }
}

/// The columns an update writes, in the order of its placeholders: the present
/// fields among title, actors, plot, review, rating, record date, then the id
/// of the `WHERE` clause.
pub open spec fn update_columns(u: FilmUpdate) -> Seq<Seq<char>> {
    column_if(u.title is Some, "title"@) + column_if(u.actors is Some, "actors"@) + column_if(
        u.plot is Some,
        "plot"@,
    ) + column_if(u.review is Some, "review"@) + column_if(u.rating is Some, "rating"@)
        + column_if(u.record_date is Some, "record_date"@) + seq!["id"@]
}

/// The value that belongs in column `col` for the update of film `film_id`.
pub open spec fn column_value(u: FilmUpdate, film_id: i64, col: Seq<char>) -> SqlValueView {
    if col == "title"@ {
        SqlValueView::Text(u.title->0@)
    } else if col == "actors"@ {
        SqlValueView::Text(u.actors->0@)
    } else if col == "plot"@ {
        SqlValueView::Text(u.plot->0@)
    } else if col == "review"@ {
        SqlValueView::Text(u.review->0@)
    } else if col == "rating"@ {
        SqlValueView::Real(u.rating->0.bits)
    } else if col == "record_date"@ {
        SqlValueView::Text(u.record_date->0@)
    } else {
        SqlValueView::Integer(film_id)
    }
}

proof fn lemma_mark_pos_range(s: Seq<char>, k: nat)
    ensures
        k < placeholders(s) ==> 0 <= mark_pos(s, k) < s.len() && s[mark_pos(s, k)] == '?',
        k >= placeholders(s) ==> mark_pos(s, k) == -1,
    decreases s.len(),
{
    if s.len() > 0 {
        let k2: nat = if s[0] == '?' && k > 0 {
            (k - 1) as nat
        } else {
            k
        };
        lemma_mark_pos_range(s.drop_first(), k2);
        if !(s[0] == '?' && k == 0) && k < placeholders(s) {
            assert(s.drop_first()[mark_pos(s.drop_first(), k2)] == s[mark_pos(s, k)]);
        }
    }
}

proof fn lemma_mark_pos_concat(a: Seq<char>, b: Seq<char>, k: nat)
    ensures
        k < placeholders(a) ==> mark_pos(a + b, k) == mark_pos(a, k),
        k >= placeholders(a) && mark_pos(b, (k - placeholders(a)) as nat) >= 0 ==> mark_pos(a + b, k)
            == a.len() + mark_pos(b, (k - placeholders(a)) as nat),
    decreases a.len(),
{
    if a.len() == 0 {
        assert(a + b =~= b);
    } else {
        assert((a + b).drop_first() =~= a.drop_first() + b);
        let k2: nat = if a[0] == '?' && k > 0 {
            (k - 1) as nat
        } else {
            k
        };
        lemma_mark_pos_concat(a.drop_first(), b, k2);
    }
}

/// Extending `s` by a piece `a` that holds a single `?` at `j`, preceded by
/// `col = `, keeps the columns of the earlier placeholders and gives the new one
/// the column `col`.
proof fn lemma_extend(s: Seq<char>, a: Seq<char>, cols: Seq<Seq<char>>, col: Seq<char>, j: int)
    requires
        cols.len() == placeholders(s),
        forall|k: nat| k < cols.len() ==> placeholder_column_is(s, k, #[trigger] cols[k as int]),
        0 <= j < a.len(),
        a[j] == '?',
        forall|i: int| 0 <= i < a.len() && i != j ==> a[i] != '?',
        j >= col.len() + 3,
        a.subrange(j - col.len() - 3, j) == col + " = "@,
    ensures
        placeholders(s + a) == cols.len() + 1,
        forall|k: nat|
            k < cols.len() + 1 ==> placeholder_column_is(s + a, k, #[trigger] cols.push(col)[k as int]),
{
    crate::laws::lemma_placeholders_concat(s, a);
    crate::laws::lemma_count_one(a, j);
    assert(mark_pos(a, 0) == j) by {
        lemma_mark_pos_range(a, 0);
        assert forall|i: int| 0 <= i < j implies a[i] != '?' by {}
        lemma_first_mark(a, j);
    }
    assert forall|k: nat| k < cols.len() + 1 implies placeholder_column_is(
        s + a,
        k,
        #[trigger] cols.push(col)[k as int],
    ) by {
        lemma_mark_pos_concat(s, a, k);
        if k < cols.len() {
            lemma_mark_pos_range(s, k);
            let i = mark_pos(s, k);
            let c = cols[k as int];
            assert(placeholder_column_is(s, k, c));
            assert((s + a).subrange(i - c.len() - 3, i) =~= s.subrange(i - c.len() - 3, i));
        } else {
            let i = s.len() + j;
            assert((s + a).subrange(i - col.len() - 3, i) =~= a.subrange(j - col.len() - 3, j));
        }
    }
}

proof fn lemma_first_mark(a: Seq<char>, j: int)
    requires
        0 <= j < a.len(),
        a[j] == '?',
        forall|i: int| 0 <= i < j ==> a[i] != '?',
    ensures
        mark_pos(a, 0) == j,
    decreases j,
{
    if j > 0 {
        assert forall|i: int| 0 <= i < j - 1 implies a.drop_first()[i] != '?' by {
            assert(a.drop_first()[i] == a[i + 1]);
        }
        lemma_first_mark(a.drop_first(), j - 1);
    }
}

/// Extending by a piece that is absent changes nothing.
proof fn lemma_extend_absent(s: Seq<char>, cols: Seq<Seq<char>>)
    requires
        cols.len() == placeholders(s),
        forall|k: nat| k < cols.len() ==> placeholder_column_is(s, k, #[trigger] cols[k as int]),
    ensures
        placeholders(s + Seq::<char>::empty()) == cols.len(),
        forall|k: nat|
            k < cols.len() ==> placeholder_column_is(
                s + Seq::<char>::empty(),
                k,
                #[trigger] cols[k as int],
            ),
{
    assert(s + Seq::<char>::empty() =~= s);
}

proof fn lemma_step(s: Seq<char>, cols: Seq<Seq<char>>, present: bool, col: Seq<char>)
    requires
        cols.len() == placeholders(s),
        forall|k: nat| k < cols.len() ==> placeholder_column_is(s, k, #[trigger] cols[k as int]),
        forall|i: int| 0 <= i < col.len() ==> col[i] != '?',
    ensures
        ({
            let s2 = s + assignment(present, col + " = ?, "@);
            let c2 = cols + column_if(present, col);
            &&& c2.len() == placeholders(s2)
            &&& forall|k: nat| k < c2.len() ==> placeholder_column_is(s2, k, #[trigger] c2[k as int])
        }),
{
    reveal_strlit(" = ?, ");
    reveal_strlit(" = ");
    let a = col + " = ?, "@;
    if present {
        let j: int = col.len() + 3int;
        assert(a[j] == '?');
        assert forall|i: int| 0 <= i < a.len() && i != j implies a[i] != '?' by {
            if i >= col.len() {
                assert(a[i] == " = ?, "@[i - col.len()]);
            }
        }
        assert(a.subrange(j - col.len() - 3, j) =~= col + " = "@);
        lemma_extend(s, a, cols, col, j);
        assert(cols + column_if(present, col) =~= cols.push(col));
    } else {
        lemma_extend_absent(s, cols);
        assert(cols + column_if(present, col) =~= cols);
    }
}

/// The columns of `s` are `cols`, placeholder by placeholder.
pub open spec fn columns_are(s: Seq<char>, cols: Seq<Seq<char>>) -> bool {
    &&& cols.len() == placeholders(s)
    &&& forall|k: nat| k < cols.len() ==> placeholder_column_is(s, k, #[trigger] cols[k as int])
}

proof fn lemma_literal_split()
    ensures
        "title = ?, "@ == "title"@ + " = ?, "@,
        "actors = ?, "@ == "actors"@ + " = ?, "@,
        "plot = ?, "@ == "plot"@ + " = ?, "@,
        "review = ?, "@ == "review"@ + " = ?, "@,
        "rating = ?, "@ == "rating"@ + " = ?, "@,
        "record_date = ?, "@ == "record_date"@ + " = ?, "@,
        forall|i: int| 0 <= i < "title"@.len() ==> "title"@[i] != '?',
        forall|i: int| 0 <= i < "actors"@.len() ==> "actors"@[i] != '?',
        forall|i: int| 0 <= i < "plot"@.len() ==> "plot"@[i] != '?',
        forall|i: int| 0 <= i < "review"@.len() ==> "review"@[i] != '?',
        forall|i: int| 0 <= i < "rating"@.len() ==> "rating"@[i] != '?',
        forall|i: int| 0 <= i < "record_date"@.len() ==> "record_date"@[i] != '?',
{
    reveal_strlit("title = ?, ");
    reveal_strlit("actors = ?, ");
    reveal_strlit("plot = ?, ");
    reveal_strlit("review = ?, ");
    reveal_strlit("rating = ?, ");
    reveal_strlit("record_date = ?, ");
    reveal_strlit(" = ?, ");
    reveal_strlit("title");
    reveal_strlit("actors");
    reveal_strlit("plot");
    reveal_strlit("review");
    reveal_strlit("rating");
    reveal_strlit("record_date");
    assert("title = ?, "@ =~= "title"@ + " = ?, "@);
    assert("actors = ?, "@ =~= "actors"@ + " = ?, "@);
    assert("plot = ?, "@ =~= "plot"@ + " = ?, "@);
    assert("review = ?, "@ =~= "review"@ + " = ?, "@);
    assert("rating = ?, "@ =~= "rating"@ + " = ?, "@);
    assert("record_date = ?, "@ =~= "record_date"@ + " = ?, "@);
}

proof fn lemma_step_named(s: Seq<char>, cols: Seq<Seq<char>>, present: bool, col: Seq<char>, text: Seq<char>)
    requires
        columns_are(s, cols),
        forall|i: int| 0 <= i < col.len() ==> col[i] != '?',
        text == col + " = ?, "@,
    ensures
        columns_are(s + assignment(present, text), cols + column_if(present, col)),
{
    lemma_step(s, cols, present, col);
}

/// The SQL text after the first three optional assignments.
pub open spec fn sql_first3(u: FilmUpdate) -> Seq<char> {
    "UPDATE films SET "@ + assignment(u.title is Some, "title = ?, "@) + assignment(
        u.actors is Some,
        "actors = ?, "@,
    ) + assignment(u.plot is Some, "plot = ?, "@)
}

/// The columns of the first three optional assignments.
pub open spec fn cols_first3(u: FilmUpdate) -> Seq<Seq<char>> {
    Seq::<Seq<char>>::empty() + column_if(u.title is Some, "title"@) + column_if(
        u.actors is Some,
        "actors"@,
    ) + column_if(u.plot is Some, "plot"@)
}

/// The SQL text after all six optional assignments.
pub open spec fn sql_first6(u: FilmUpdate) -> Seq<char> {
    sql_first3(u) + assignment(u.review is Some, "review = ?, "@) + assignment(
        u.rating is Some,
        "rating = ?, "@,
    ) + assignment(u.record_date is Some, "record_date = ?, "@)
}

/// The columns of all six optional assignments.
pub open spec fn cols_first6(u: FilmUpdate) -> Seq<Seq<char>> {
    cols_first3(u) + column_if(u.review is Some, "review"@) + column_if(
        u.rating is Some,
        "rating"@,
    ) + column_if(u.record_date is Some, "record_date"@)
}

proof fn lemma_first3(u: FilmUpdate)
    ensures
        columns_are(sql_first3(u), cols_first3(u)),
{
    reveal_strlit("UPDATE films SET ");
    let head = "UPDATE films SET "@;
    crate::laws::lemma_count_none(head);
    lemma_literal_split();
    let c0 = Seq::<Seq<char>>::empty();
    assert(columns_are(head, c0));
    lemma_step_named(head, c0, u.title is Some, "title"@, "title = ?, "@);
    let s1 = head + assignment(u.title is Some, "title = ?, "@);
    let c1 = c0 + column_if(u.title is Some, "title"@);
    lemma_step_named(s1, c1, u.actors is Some, "actors"@, "actors = ?, "@);
    let s2 = s1 + assignment(u.actors is Some, "actors = ?, "@);
    let c2 = c1 + column_if(u.actors is Some, "actors"@);
    lemma_step_named(s2, c2, u.plot is Some, "plot"@, "plot = ?, "@);
}

proof fn lemma_first6(u: FilmUpdate)
    ensures
        columns_are(sql_first6(u), cols_first6(u)),
{
    lemma_first3(u);
    lemma_literal_split();
    let s3 = sql_first3(u);
    let c3 = cols_first3(u);
    lemma_step_named(s3, c3, u.review is Some, "review"@, "review = ?, "@);
    let s4 = s3 + assignment(u.review is Some, "review = ?, "@);
    let c4 = c3 + column_if(u.review is Some, "review"@);
    lemma_step_named(s4, c4, u.rating is Some, "rating"@, "rating = ?, "@);
    let s5 = s4 + assignment(u.rating is Some, "rating = ?, "@);
    let c5 = c4 + column_if(u.rating is Some, "rating"@);
    lemma_step_named(s5, c5, u.record_date is Some, "record_date"@, "record_date = ?, "@);
}

proof fn lemma_tail_facts()
    ensures
        ({
            let tail = "updated_at = CURRENT_TIMESTAMP WHERE id = ?"@;
            let j = tail.len() - 1;
            &&& 0 <= j < tail.len()
            &&& tail[j] == '?'
            &&& forall|i: int| 0 <= i < tail.len() && i != j ==> tail[i] != '?'
            &&& j >= "id"@.len() + 3
            &&& tail.subrange(j - "id"@.len() - 3, j) == "id"@ + " = "@
        }),
{
    reveal_strlit("updated_at = CURRENT_TIMESTAMP WHERE id = ?");
    reveal_strlit(" = ");
    reveal_strlit("id");
    let tail = "updated_at = CURRENT_TIMESTAMP WHERE id = ?"@;
    let j = tail.len() - 1;
    assert(tail.subrange(j - 5, j) =~= "id"@ + " = "@);
}

proof fn lemma_assoc_text(h: Seq<char>, a1: Seq<char>, a2: Seq<char>, a3: Seq<char>, a4: Seq<
    char,
>, a5: Seq<char>, a6: Seq<char>, t: Seq<char>)
    ensures
        h + (a1 + a2 + a3 + a4 + a5 + a6) + t == h + a1 + a2 + a3 + a4 + a5 + a6 + t,
{
    assert(h + (a1 + a2 + a3 + a4 + a5 + a6) + t =~= h + a1 + a2 + a3 + a4 + a5 + a6 + t);
}

proof fn lemma_assoc_cols(
    a1: Seq<Seq<char>>,
    a2: Seq<Seq<char>>,
    a3: Seq<Seq<char>>,
    a4: Seq<Seq<char>>,
    a5: Seq<Seq<char>>,
    a6: Seq<Seq<char>>,
    t: Seq<char>,
)
    ensures
        (Seq::<Seq<char>>::empty() + a1 + a2 + a3 + a4 + a5 + a6).push(t) == a1 + a2 + a3 + a4 + a5
            + a6 + seq![t],
{
    assert((Seq::<Seq<char>>::empty() + a1 + a2 + a3 + a4 + a5 + a6).push(t) =~= a1 + a2 + a3 + a4
        + a5 + a6 + seq![t]);
}

proof fn lemma_update_sql_columns(u: FilmUpdate)
    ensures
        columns_are(update_sql(u), update_columns(u)),
{
    lemma_first6(u);
    lemma_tail_facts();
    let tail = "updated_at = CURRENT_TIMESTAMP WHERE id = ?"@;
    let j = tail.len() - 1;
    let s6 = sql_first6(u);
    let c6 = cols_first6(u);
    lemma_extend(s6, tail, c6, "id"@, j);
    lemma_assoc_text(
        "UPDATE films SET "@,
        assignment(u.title is Some, "title = ?, "@),
        assignment(u.actors is Some, "actors = ?, "@),
        assignment(u.plot is Some, "plot = ?, "@),
        assignment(u.review is Some, "review = ?, "@),
        assignment(u.rating is Some, "rating = ?, "@),
        assignment(u.record_date is Some, "record_date = ?, "@),
        tail,
    );
    lemma_assoc_cols(
        column_if(u.title is Some, "title"@),
        column_if(u.actors is Some, "actors"@),
        column_if(u.plot is Some, "plot"@),
        column_if(u.review is Some, "review"@),
        column_if(u.rating is Some, "rating"@),
        column_if(u.record_date is Some, "record_date"@),
        "id"@,
    );
}

proof fn lemma_update_values(film_id: i64, u: FilmUpdate)
    ensures
        update_binds(film_id, u) == update_columns(u).map_values(
            |c: Seq<char>| column_value(u, film_id, c),
        ),
{
    reveal_strlit("title");
    reveal_strlit("actors");
    reveal_strlit("plot");
    reveal_strlit("review");
    reveal_strlit("rating");
    reveal_strlit("record_date");
    reveal_strlit("id");
    assert("title"@.len() == 5 && "actors"@.len() == 6 && "plot"@.len() == 4);
    assert("review"@.len() == 6 && "rating"@.len() == 6 && "record_date"@.len() == 11);
    assert("id"@.len() == 2);
    assert("review"@[0] != "actors"@[0]);
    assert("rating"@[0] != "actors"@[0]);
    assert("rating"@[1] != "review"@[1]);
    let cols = update_columns(u);
    let values = cols.map_values(|c: Seq<char>| column_value(u, film_id, c));
    assert(update_binds(film_id, u) =~= values) by {
        assert(text_bind(u.title) =~= column_if(u.title is Some, "title"@).map_values(
            |c: Seq<char>| column_value(u, film_id, c),
        ));
        assert(text_bind(u.actors) =~= column_if(u.actors is Some, "actors"@).map_values(
            |c: Seq<char>| column_value(u, film_id, c),
        ));
        assert(text_bind(u.plot) =~= column_if(u.plot is Some, "plot"@).map_values(
            |c: Seq<char>| column_value(u, film_id, c),
        ));
        assert(text_bind(u.review) =~= column_if(u.review is Some, "review"@).map_values(
            |c: Seq<char>| column_value(u, film_id, c),
        ));
        assert(rating_bind(u.rating) =~= column_if(u.rating is Some, "rating"@).map_values(
            |c: Seq<char>| column_value(u, film_id, c),
        ));
        assert(text_bind(u.record_date) =~= column_if(
            u.record_date is Some,
            "record_date"@,
        ).map_values(|c: Seq<char>| column_value(u, film_id, c)));
        assert(seq![SqlValueView::Integer(film_id)] =~= seq!["id"@].map_values(
            |c: Seq<char>| column_value(u, film_id, c),
        ));
        lemma_map_concat7(
            column_if(u.title is Some, "title"@),
            column_if(u.actors is Some, "actors"@),
            column_if(u.plot is Some, "plot"@),
            column_if(u.review is Some, "review"@),
            column_if(u.rating is Some, "rating"@),
            column_if(u.record_date is Some, "record_date"@),
            seq!["id"@],
            |c: Seq<char>| column_value(u, film_id, c),
        );
    }
}

/// Each `?` of the update statement stands in the assignment of the column
/// whose value is bound to it: the `k`-th placeholder writes the `k`-th column
/// of `update_columns`, and the `k`-th bound value is that column's value in the
/// update (the id for the `WHERE` clause).
pub proof fn law_update_columns_match_values(film_id: i64, u: FilmUpdate)
    ensures
        update_binds(film_id, u).len() == update_columns(u).len(),
        placeholders(update_sql(u)) == update_columns(u).len(),
        forall|k: nat|
            k < update_columns(u).len() ==> placeholder_column_is(
                update_sql(u),
                k,
                #[trigger] update_columns(u)[k as int],
            ),
        forall|k: int|
            0 <= k < update_columns(u).len() ==> #[trigger] update_binds(film_id, u)[k]
                == column_value(u, film_id, update_columns(u)[k]),
{
    lemma_update_sql_columns(u);
    lemma_update_values(film_id, u);
    assert forall|k: int| 0 <= k < update_columns(u).len() implies #[trigger] update_binds(
        film_id,
        u,
    )[k] == column_value(u, film_id, update_columns(u)[k]) by {}
}

proof fn lemma_map_concat7<A, B>(
    a1: Seq<A>,
    a2: Seq<A>,
    a3: Seq<A>,
    a4: Seq<A>,
    a5: Seq<A>,
    a6: Seq<A>,
    a7: Seq<A>,
    f: spec_fn(A) -> B,
)
    ensures
        (a1 + a2 + a3 + a4 + a5 + a6 + a7).map_values(f) == a1.map_values(f) + a2.map_values(f)
            + a3.map_values(f) + a4.map_values(f) + a5.map_values(f) + a6.map_values(f)
            + a7.map_values(f),
{
    assert((a1 + a2 + a3 + a4 + a5 + a6 + a7).map_values(f) =~= a1.map_values(f) + a2.map_values(f)
        + a3.map_values(f) + a4.map_values(f) + a5.map_values(f) + a6.map_values(f)
        + a7.map_values(f));
}

} // verus!
