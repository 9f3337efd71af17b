//! The film records and the requests that create, change or page through them.

use vstd::prelude::*;
use vstd::string::*;

verus! {

/// The IEEE-754 binary64 pattern of `10.0`.
pub const TEN_BITS: u64 = 0x4024_0000_0000_0000;

/// The IEEE-754 binary64 pattern of `-0.0`.
pub const NEGATIVE_ZERO_BITS: u64 = 0x8000_0000_0000_0000;

/// A rating as the service reads it: `bits` is the IEEE-754 binary64 pattern of
/// the number, `display` the text that `f64`'s `Display` writes for it.
#[derive(Clone, Debug)]
pub struct Rating {
    pub bits: u64,
    pub display: String,
}

/// A rating lies in the accepted range: it is finite and `0 <= rating <= 10`.
///
/// Among binary64 patterns with the sign bit clear, the order of the patterns is
/// the order of the values, so `+0.0 ..= 10.0` are exactly the patterns
/// `0 ..= TEN_BITS`; the only other pattern that compares within the range is
/// `-0.0`, which equals `0.0`. Infinities and NaNs lie above `TEN_BITS`.
pub open spec fn rating_in_range(bits: u64) -> bool {
    bits <= TEN_BITS || bits == NEGATIVE_ZERO_BITS
}

/// An optional rating passes validation: absent, or within the range.
pub open spec fn rating_acceptable(rating: Option<Rating>) -> bool {
    match rating {
        Some(r) => rating_in_range(r.bits),
        None => true,
    }
}

/// The message of every rejected rating.
pub open spec fn rating_error_text() -> Seq<char> {
    "Rating must be between 0 and 10"@
}

/// A stored film.
#[derive(Clone, Debug)]
pub struct FilmRecord {
    pub id: i64,
    pub title: String,
    pub actors: Option<String>,
    pub plot: Option<String>,
    pub review: Option<String>,
    pub rating: Option<Rating>,
    pub record_date: Option<String>,
    pub created_at: Option<String>,
    pub updated_at: Option<String>,
}

/// A film to be added.
#[derive(Clone, Debug)]
pub struct FilmCreate {
    pub title: String,
    pub actors: Option<String>,
    pub plot: Option<String>,
    pub review: Option<String>,
    pub rating: Option<Rating>,
    pub record_date: Option<String>,
}

/// Whether a rating pattern lies in the accepted range.
pub fn in_range(bits: u64) -> (r: bool)
    ensures
        r == rating_in_range(bits),
{
    bits <= TEN_BITS || bits == NEGATIVE_ZERO_BITS
}

/// Checks an optional rating.
pub fn validate_rating(value: &Option<Rating>) -> (r: Result<(), String>)
    ensures
        r is Ok <==> rating_acceptable(*value),
        r matches Err(e) ==> e@ == rating_error_text(),
{
    match value {
        Some(rating) => {
            if in_range(rating.bits) {
                Ok(())
            } else {
                Err(String::from_str("Rating must be between 0 and 10"))
            }
        },
        None => Ok(()),
    }
}

impl FilmCreate {
    /// Accepts the film unless it carries a rating out of range.
    pub fn validate(&self) -> (r: Result<(), String>)
        ensures
            r is Ok <==> rating_acceptable(self.rating),
            r matches Err(e) ==> e@ == rating_error_text(),
    {
        validate_rating(&self.rating)
    }
}

/// Several films to be added at once.
#[derive(Clone, Debug)]
pub struct FilmBatch {
    pub films: Vec<FilmCreate>,
}

impl FilmBatch {
    /// Accepts the batch when every film in it is accepted.
    pub fn validate(&self) -> (r: Result<(), String>)
        ensures
            r is Ok <==> forall|i: int|
                0 <= i < self.films@.len() ==> rating_acceptable(#[trigger] self.films@[i].rating),
            r matches Err(e) ==> e@ == rating_error_text(),
    {
        let n = self.films.len();
        for i in 0..n
            invariant
                n == self.films@.len(),
                forall|j: int| 0 <= j < i ==> rating_acceptable(#[trigger] self.films@[j].rating),
        {
            let checked = self.films[i].validate();
            if checked.is_err() {
                return checked;
            }
        }
        Ok(())
    }
}

/// A new rating for every film whose title contains `title`.
#[derive(Clone, Debug)]
pub struct RatingUpdate {
    pub title: String,
    pub rating: Rating,
}

impl RatingUpdate {
    /// Accepts the update when its rating lies in the range.
    pub fn validate(&self) -> (r: Result<(), String>)
        ensures
            r is Ok <==> rating_in_range(self.rating.bits),
            r matches Err(e) ==> e@ == rating_error_text(),
    {
        if in_range(self.rating.bits) {
            Ok(())
        } else {
            Err(String::from_str("Rating must be between 0 and 10"))
        }
    }
}

/// A partial change of one film: the fields that are present replace the stored ones.
#[derive(Clone, Debug)]
pub struct FilmUpdate {
    pub title: Option<String>,
    pub actors: Option<String>,
    pub plot: Option<String>,
    pub review: Option<String>,
    pub rating: Option<Rating>,
    pub record_date: Option<String>,
}

impl FilmUpdate {
    /// No field of the update is present.
    pub open spec fn spec_is_empty(&self) -> bool {
        &&& self.title is None
        &&& self.actors is None
        &&& self.plot is None
        &&& self.review is None
        &&& self.rating is None
        &&& self.record_date is None
    }

    /// Accepts the update unless it carries a rating out of range.
    pub fn validate(&self) -> (r: Result<(), String>)
        ensures
            r is Ok <==> rating_acceptable(self.rating),
            r matches Err(e) ==> e@ == rating_error_text(),
    {
        validate_rating(&self.rating)
    }

    /// Whether the update changes nothing.
    pub fn is_empty(&self) -> (r: bool)
        ensures
            r == self.spec_is_empty(),
    {
        self.title.is_none() && self.actors.is_none() && self.plot.is_none()
            && self.review.is_none() && self.rating.is_none() && self.record_date.is_none()
    }
}

/// The page size used when none is given.
pub const DEFAULT_LIMIT: i64 = 20;

/// Query parameters of the paged listing.
#[derive(Clone, Debug)]
pub struct Pagination {
    pub limit: Option<i64>,
    pub offset: Option<i64>,
}

impl Default for Pagination {
    fn default() -> (p: Self)
        ensures
            p.limit == Some(20i64),
            p.offset == Some(0i64),
    {
        Pagination { limit: Some(DEFAULT_LIMIT), offset: Some(0) }
    }
}

/// The page size that applies: the given one, else the default.
pub open spec fn effective_limit(p: Pagination) -> i64 {
    match p.limit {
        Some(l) => l,
        None => DEFAULT_LIMIT,
    }
}

/// The offset that applies: the given one, else zero.
pub open spec fn effective_offset(p: Pagination) -> i64 {
    match p.offset {
        Some(o) => o,
        None => 0,
    }
}

impl Pagination {
    /// The page size and offset, checked: the size lies in `1..=100` and the
    /// offset is not negative. The size is checked first.
    pub fn values(&self) -> (r: Result<(i64, i64), String>)
        ensures
            r is Ok <==> 1 <= effective_limit(*self) <= 100 && effective_offset(*self) >= 0,
            r matches Ok(v) ==> v == (effective_limit(*self), effective_offset(*self)),
            r matches Err(e) ==> (e@ == "limit must be between 1 and 100"@ <==> !(1
                <= effective_limit(*self) <= 100)),
            r matches Err(e) ==> (1 <= effective_limit(*self) <= 100 ==> e@
                == "offset must be greater than or equal to 0"@),
    {
        let limit = match self.limit {
            Some(l) => l,
            None => DEFAULT_LIMIT,
        };
        let offset = match self.offset {
            Some(o) => o,
            None => 0,
        };
        if !(1 <= limit && limit <= 100) {
            return Err(String::from_str("limit must be between 1 and 100"));
        }
        if offset < 0 {
            proof {
                reveal_strlit("limit must be between 1 and 100");
                reveal_strlit("offset must be greater than or equal to 0");
                assert("limit must be between 1 and 100"@[0]
                    != "offset must be greater than or equal to 0"@[0]);
            }
            return Err(String::from_str("offset must be greater than or equal to 0"));
        }
        Ok((limit, offset))
    }
}

} // verus!
