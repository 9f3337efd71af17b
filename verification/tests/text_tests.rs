use film_record_lite::config::{Cli, Config};
use film_record_lite::db::{like_pattern, record_date_for, update_statement, SqlValue};
use film_record_lite::error::AppError;
use film_record_lite::format::{format_film, format_rating};
use film_record_lite::models::{FilmCreate, FilmRecord, FilmUpdate, Rating};
use film_record_lite::text::decimal;

#[test]
fn decimal_matches_display() {
    for n in [0i128, 7, 10, 99, 100, 12345, -1, -908, i64::MAX as i128, i64::MIN as i128, u64::MAX as i128] {
        assert_eq!(decimal(n), n.to_string());
    }
}

#[test]
fn format_rating_adds_fraction() {
    assert_eq!(format_rating("8"), "8.0");
    assert_eq!(format_rating("8.5"), "8.5");
    assert_eq!(format_rating("1e20"), "1e20");
    assert_eq!(format_rating("NaN"), "NaN.0");
    assert_eq!(format_rating(&10.0f64.to_string()), "10.0");
    assert_eq!(format_rating(&format_rating("3")), "3.0");
}

fn record() -> FilmRecord {
    FilmRecord {
        id: 1,
        title: "盗梦空间".to_string(),
        actors: Some("莱昂纳多".to_string()),
        plot: None,
        review: Some("好看".to_string()),
        rating: Some(Rating { bits: 9.0f64.to_bits(), display: 9.0f64.to_string() }),
        record_date: Some("2024-01-02".to_string()),
        created_at: None,
        updated_at: None,
    }
}

#[test]
fn format_film_full_text() {
    assert_eq!(
        format_film(&record()),
        "**盗梦空间**\n- 主演: 莱昂纳多\n- 剧情: 未记录\n- 评价: 好看\n- 评分: 9.0/10\n- 记录日期: 2024-01-02"
    );
    let mut r = record();
    r.rating = None;
    r.record_date = None;
    r.actors = None;
    assert_eq!(
        format_film(&r),
        "**盗梦空间**\n- 主演: 未记录\n- 剧情: 未记录\n- 评价: 好看\n- 评分: 未评分/10\n- 记录日期: 未记录"
    );
}

#[test]
fn like_pattern_wraps_text() {
    assert_eq!(like_pattern("Inception"), "%Inception%");
    assert_eq!(like_pattern(""), "%%");
}

fn update() -> FilmUpdate {
    FilmUpdate { title: None, actors: None, plot: None, review: None, rating: None, record_date: None }
}

#[test]
fn update_statement_for_empty_update_is_none() {
    assert!(update_statement(3, &update()).is_none());
}

#[test]
fn update_statement_lists_present_fields() {
    let mut u = update();
    u.title = Some("New".to_string());
    u.rating = Some(Rating { bits: 7.5f64.to_bits(), display: "7.5".to_string() });
    u.record_date = Some("2024-05-06".to_string());
    let st = update_statement(42, &u).unwrap();
    assert_eq!(
        st.sql,
        "UPDATE films SET title = ?, rating = ?, record_date = ?, updated_at = CURRENT_TIMESTAMP WHERE id = ?"
    );
    assert_eq!(st.binds.len(), 4);
    assert!(matches!(&st.binds[0], SqlValue::Text(t) if t == "New"));
    assert!(matches!(&st.binds[1], SqlValue::Real(b) if *b == 7.5f64.to_bits()));
    assert!(matches!(&st.binds[2], SqlValue::Text(t) if t == "2024-05-06"));
    assert!(matches!(&st.binds[3], SqlValue::Integer(42)));
}

#[test]
fn update_statement_single_field() {
    let mut u = update();
    u.actors = Some("A".to_string());
    let st = update_statement(-5, &u).unwrap();
    assert_eq!(st.sql, "UPDATE films SET actors = ?, updated_at = CURRENT_TIMESTAMP WHERE id = ?");
    assert!(matches!(&st.binds[1], SqlValue::Integer(-5)));
}

#[test]
fn record_date_prefers_given_date() {
    let film = FilmCreate {
        title: "x".to_string(),
        actors: None,
        plot: None,
        review: None,
        rating: None,
        record_date: Some("1999-12-31".to_string()),
    };
    assert_eq!(record_date_for(&film), "1999-12-31");
}

#[test]
fn record_date_defaults_to_today() {
    let film = FilmCreate {
        title: "x".to_string(),
        actors: None,
        plot: None,
        review: None,
        rating: None,
        record_date: None,
    };
    let today = record_date_for(&film);
    assert_eq!(today.len(), 10);
    assert_eq!(&today[4..5], "-");
    assert_eq!(&today[7..8], "-");
    assert!(today.chars().filter(|c| c.is_ascii_digit()).count() == 8);
}

fn cli(token: Option<&str>) -> Cli {
    Cli {
        healthcheck: false,
        host: "0.0.0.0".to_string(),
        port: 8000,
        token: token.map(|s| s.to_string()),
        db: None,
    }
}

#[test]
fn config_cli_token_takes_precedence() {
    let c = Config::from_cli(cli(Some("cli-token-1")), Some("env-token-1".to_string())).unwrap();
    assert_eq!(c.token, "cli-token-1");
    assert_eq!(c.host, "0.0.0.0");
    assert_eq!(c.port, 8000);
    assert_eq!(c.db_path, "data/films.db");
}

#[test]
fn config_empty_cli_token_falls_back_to_env() {
    let c = Config::from_cli(cli(Some("")), Some("env-token-1".to_string())).unwrap();
    assert_eq!(c.token, "env-token-1");
    let mut with_db = cli(None);
    with_db.db = Some("/tmp/x.db".to_string());
    let c = Config::from_cli(with_db, Some("env-token-1".to_string())).unwrap();
    assert_eq!(c.db_path, "/tmp/x.db");
}

#[test]
fn config_errors() {
    assert_eq!(
        Config::from_cli(cli(None), None).unwrap_err(),
        "Authentication token required. Set --token or FILM_RECORD_TOKEN."
    );
    assert_eq!(
        Config::from_cli(cli(Some("")), None).unwrap_err(),
        "Authentication token required. Set --token or FILM_RECORD_TOKEN."
    );
    assert_eq!(
        Config::from_cli(cli(Some("short")), None).unwrap_err(),
        "Token too weak. Minimum 8 characters required."
    );
    // Eight characters counted as Unicode scalar values, not bytes.
    assert!(Config::from_cli(cli(Some("令牌令牌令牌令牌")), None).is_ok());
    assert!(Config::from_cli(cli(Some("令牌令牌令牌令")), None).is_err());
}

#[test]
fn app_error_responses() {
    let v = AppError::Validation("bad".to_string());
    assert_eq!(v.response_parts(), (422, "bad".to_string()));
    assert_eq!(v.message(), "bad");
    let n = AppError::NotFound("gone".to_string());
    assert_eq!(n.response_parts(), (404, "gone".to_string()));
    let d = AppError::Database("disk I/O error".to_string());
    assert_eq!(d.response_parts(), (500, "Internal server error".to_string()));
    assert_eq!(d.message(), "disk I/O error");
}

#[test]
fn update_statement_placeholders_match_binds() {
    let mut u = update();
    u.title = Some("a".to_string());
    u.actors = Some("b".to_string());
    u.plot = Some("c".to_string());
    u.review = Some("d".to_string());
    u.rating = Some(Rating { bits: 1.0f64.to_bits(), display: "1".to_string() });
    u.record_date = Some("e".to_string());
    let st = update_statement(1, &u).unwrap();
    assert_eq!(st.sql.matches('?').count(), st.binds.len());
    assert_eq!(st.binds.len(), 7);
    u.plot = None;
    u.rating = None;
    let st = update_statement(1, &u).unwrap();
    assert_eq!(st.sql.matches('?').count(), st.binds.len());
    assert_eq!(st.binds.len(), 5);
}
