use film_record_lite::auth::AuthState;
use film_record_lite::db::record_date_or;
use film_record_lite::error::AppError;
use film_record_lite::models::{FilmBatch, FilmCreate, FilmRecord, FilmUpdate, Rating};
use film_record_lite::routes::{batch_step, update_step, BatchAction, BatchEvent, UpdateAction, UpdateEvent};

fn rating(v: f64) -> Rating {
    Rating { bits: v.to_bits(), display: v.to_string() }
}

fn create(title: &str, r: Option<f64>, date: Option<&str>) -> FilmCreate {
    FilmCreate {
        title: title.to_string(),
        actors: None,
        plot: None,
        review: None,
        rating: r.map(rating),
        record_date: date.map(|d| d.to_string()),
    }
}

fn record(id: i64, title: &str) -> FilmRecord {
    FilmRecord {
        id,
        title: title.to_string(),
        actors: None,
        plot: None,
        review: None,
        rating: None,
        record_date: None,
        created_at: None,
        updated_at: None,
    }
}

#[test]
fn record_date_or_chooses() {
    assert_eq!(record_date_or(&create("a", None, Some("2020-02-02")), "2024-01-01".to_string()), "2020-02-02");
    assert_eq!(record_date_or(&create("a", None, None), "2024-01-01".to_string()), "2024-01-01");
}

#[test]
fn cloned_auth_state_answers_alike() {
    let a = AuthState::new("configured-token");
    let b = a.clone();
    assert!(b.matches("configured-token"));
    assert!(!b.matches("configured-tokeN"));
}

#[test]
fn invalid_batch_is_refused_before_any_insert() {
    let batch = FilmBatch { films: vec![create("a", Some(5.0), None), create("b", Some(11.0), None)] };
    match batch_step(&batch, BatchEvent::Requested) {
        BatchAction::Reject(AppError::Validation(e)) => assert_eq!(e, "Rating must be between 0 and 10"),
        other => panic!("unexpected {other:?}"),
    }
}

#[test]
fn valid_batch_inserts_in_order_then_answers() {
    let batch = FilmBatch { films: vec![create("a", None, Some("2021-01-01")), create("b", Some(3.0), Some("2022-02-02"))] };
    match batch_step(&batch, BatchEvent::Requested) {
        BatchAction::Insert { index, record_date } => {
            assert_eq!(index, 0);
            assert_eq!(record_date, "2021-01-01");
        }
        other => panic!("unexpected {other:?}"),
    }
    match batch_step(&batch, BatchEvent::Inserted(vec![record(1, "a")])) {
        BatchAction::Insert { index, record_date } => {
            assert_eq!(index, 1);
            assert_eq!(record_date, "2022-02-02");
        }
        other => panic!("unexpected {other:?}"),
    }
    match batch_step(&batch, BatchEvent::Inserted(vec![record(1, "a"), record(2, "b")])) {
        BatchAction::Answer(reply) => {
            assert_eq!(reply.message, "已成功添加 2 部电影记录");
            assert_eq!(reply.count, Some(2));
        }
        other => panic!("unexpected {other:?}"),
    }
}

#[test]
fn empty_batch_answers_at_once() {
    let batch = FilmBatch { films: vec![] };
    match batch_step(&batch, BatchEvent::Requested) {
        BatchAction::Answer(reply) => assert_eq!(reply.message, "已成功添加 0 部电影记录"),
        other => panic!("unexpected {other:?}"),
    }
}

fn update(r: Option<f64>) -> FilmUpdate {
    FilmUpdate { title: None, actors: None, plot: None, review: None, rating: r.map(rating), record_date: None }
}

#[test]
fn update_refuses_rating_before_lookup() {
    match update_step(7, &update(Some(-2.0)), UpdateEvent::Requested) {
        UpdateAction::Answer(Err(AppError::Validation(e))) => assert_eq!(e, "Rating must be between 0 and 10"),
        other => panic!("unexpected {other:?}"),
    }
    assert!(matches!(update_step(7, &update(Some(2.0)), UpdateEvent::Requested), UpdateAction::LookUp));
}

#[test]
fn update_missing_film_is_not_found() {
    match update_step(7, &update(Some(2.0)), UpdateEvent::LookedUp { exists: false }) {
        UpdateAction::Answer(Err(AppError::NotFound(d))) => assert_eq!(d, "未找到 ID 为 7 的电影"),
        other => panic!("unexpected {other:?}"),
    }
}

#[test]
fn update_applies_plan_then_answers() {
    match update_step(7, &update(Some(2.0)), UpdateEvent::LookedUp { exists: true }) {
        UpdateAction::Apply(Some(st)) => {
            assert_eq!(st.sql, "UPDATE films SET rating = ?, updated_at = CURRENT_TIMESTAMP WHERE id = ?")
        }
        other => panic!("unexpected {other:?}"),
    }
    assert!(matches!(
        update_step(7, &update(None), UpdateEvent::LookedUp { exists: true }),
        UpdateAction::Apply(None)
    ));
    match update_step(7, &update(None), UpdateEvent::Applied(Some(record(7, "x")))) {
        UpdateAction::Answer(Ok(reply)) => assert_eq!(reply.message, "已更新电影信息"),
        other => panic!("unexpected {other:?}"),
    }
    assert!(matches!(
        update_step(7, &update(None), UpdateEvent::Applied(None)),
        UpdateAction::Answer(Err(AppError::NotFound(_)))
    ));
}
