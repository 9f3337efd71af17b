use film_record_lite::models::{
    in_range, validate_rating, FilmBatch, FilmCreate, FilmUpdate, Pagination, Rating, RatingUpdate,
};

fn rating(v: f64) -> Rating {
    Rating { bits: v.to_bits(), display: v.to_string() }
}

fn create(r: Option<f64>) -> FilmCreate {
    FilmCreate {
        title: "T".to_string(),
        actors: None,
        plot: None,
        review: None,
        rating: r.map(rating),
        record_date: None,
    }
}

#[test]
fn rating_range_bounds() {
    for v in [0.0f64, -0.0, 10.0, 5.5, 9.999, f64::MIN_POSITIVE] {
        assert!(in_range(v.to_bits()), "{v} should be accepted");
    }
    for v in [-0.1f64, 10.000001, 11.0, f64::NAN, f64::INFINITY, f64::NEG_INFINITY, -f64::NAN, -5.0] {
        assert!(!in_range(v.to_bits()), "{v} should be rejected");
    }
}

#[test]
fn rating_range_agrees_with_float_comparison() {
    let samples = [0.0f64, 1e-300, 0.5, 3.0, 7.25, 9.5, 10.0, 10.5, 100.0, 1e300, -1e-300, -2.0];
    for v in samples {
        let expected = v.is_finite() && (0.0..=10.0).contains(&v);
        assert_eq!(in_range(v.to_bits()), expected, "{v}");
    }
}

#[test]
fn validate_rating_message() {
    assert_eq!(validate_rating(&None), Ok(()));
    assert_eq!(validate_rating(&Some(rating(7.0))), Ok(()));
    assert_eq!(
        validate_rating(&Some(rating(12.0))),
        Err("Rating must be between 0 and 10".to_string())
    );
}

#[test]
fn film_create_validate() {
    assert!(create(None).validate().is_ok());
    assert!(create(Some(10.0)).validate().is_ok());
    assert_eq!(create(Some(-1.0)).validate(), Err("Rating must be between 0 and 10".to_string()));
}

#[test]
fn batch_validate_all_or_nothing() {
    let ok = FilmBatch { films: vec![create(Some(1.0)), create(None), create(Some(9.0))] };
    assert!(ok.validate().is_ok());
    let bad = FilmBatch { films: vec![create(Some(1.0)), create(Some(10.5)), create(None)] };
    assert_eq!(bad.validate(), Err("Rating must be between 0 and 10".to_string()));
    assert!(FilmBatch { films: vec![] }.validate().is_ok());
}

#[test]
fn rating_update_validate() {
    let ok = RatingUpdate { title: "x".to_string(), rating: rating(0.0) };
    assert!(ok.validate().is_ok());
    let bad = RatingUpdate { title: "x".to_string(), rating: rating(f64::NAN) };
    assert_eq!(bad.validate(), Err("Rating must be between 0 and 10".to_string()));
}

fn empty_update() -> FilmUpdate {
    FilmUpdate { title: None, actors: None, plot: None, review: None, rating: None, record_date: None }
}

#[test]
fn film_update_is_empty_and_validate() {
    assert!(empty_update().is_empty());
    let mut u = empty_update();
    u.plot = Some(String::new());
    assert!(!u.is_empty());
    u.rating = Some(rating(20.0));
    assert!(u.validate().is_err());
    u.rating = Some(rating(2.0));
    assert!(u.validate().is_ok());
}

#[test]
fn pagination_defaults_and_bounds() {
    assert_eq!(Pagination::default().values(), Ok((20, 0)));
    assert_eq!(Pagination { limit: None, offset: None }.values(), Ok((20, 0)));
    assert_eq!(Pagination { limit: Some(1), offset: Some(0) }.values(), Ok((1, 0)));
    assert_eq!(Pagination { limit: Some(100), offset: Some(7) }.values(), Ok((100, 7)));
    assert_eq!(
        Pagination { limit: Some(0), offset: Some(0) }.values(),
        Err("limit must be between 1 and 100".to_string())
    );
    assert_eq!(
        Pagination { limit: Some(101), offset: Some(-1) }.values(),
        Err("limit must be between 1 and 100".to_string())
    );
    assert_eq!(
        Pagination { limit: None, offset: Some(-1) }.values(),
        Err("offset must be greater than or equal to 0".to_string())
    );
}
