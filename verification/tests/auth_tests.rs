use film_record_lite::auth::{candidate_token, require_token, AuthDecision, AuthState, CandidateToken};

fn present(c: CandidateToken) -> Option<String> {
    match c {
        CandidateToken::Present(t) => Some(t),
        _ => None,
    }
}

#[test]
fn matches_only_the_configured_token() {
    let state = AuthState::new("secret-token");
    assert!(state.matches("secret-token"));
    assert!(!state.matches("secret-tokem"));
    assert!(!state.matches("secret-token-longer"));
    assert!(!state.matches(""));
}

#[test]
fn matches_compares_unicode_tokens() {
    let state = AuthState::new("令牌令牌令牌令牌");
    assert!(state.matches("令牌令牌令牌令牌"));
    assert!(!state.matches("令牌令牌令牌令"));
}

#[test]
fn bearer_prefix_is_removed_from_header() {
    let c = candidate_token(Some(b"Bearer abcdefgh".as_slice()), None);
    assert_eq!(present(c).as_deref(), Some("abcdefgh"));
}

#[test]
fn every_bearer_occurrence_is_removed() {
    let c = candidate_token(Some(b"Bearer Bearer xyBearer z".as_slice()), None);
    assert_eq!(present(c).as_deref(), Some("xyz"));
    let c = candidate_token(Some(b"BearerBearer  x".as_slice()), None);
    assert_eq!(present(c).as_deref(), Some("Bearer x"));
}

#[test]
fn header_without_prefix_is_the_token() {
    let c = candidate_token(Some(b"plaintoken".as_slice()), Some("token=other"));
    assert_eq!(present(c).as_deref(), Some("plaintoken"));
}

#[test]
fn non_visible_header_is_invalid() {
    let c = candidate_token(Some([0x42u8, 0x80, 0x41].as_slice()), None);
    assert!(matches!(c, CandidateToken::InvalidHeader));
    let c = candidate_token(Some([0x41u8, 0x0a].as_slice()), None);
    assert!(matches!(c, CandidateToken::InvalidHeader));
    let c = candidate_token(Some(b"a\tb".as_slice()), None);
    assert_eq!(present(c).as_deref(), Some("a\tb"));
}

#[test]
fn query_token_last_pair_wins() {
    let c = candidate_token(None, Some("token=first&x=1&token=second"));
    assert_eq!(present(c).as_deref(), Some("second"));
}

#[test]
fn query_token_is_percent_decoded() {
    let c = candidate_token(None, Some("token=a%20b+c%26d"));
    assert_eq!(present(c).as_deref(), Some("a b c&d"));
}

#[test]
fn query_without_token_is_missing() {
    assert!(matches!(candidate_token(None, Some("tok=1&tokens=2")), CandidateToken::Missing));
    assert!(matches!(candidate_token(None, None), CandidateToken::Missing));
    assert!(matches!(candidate_token(None, Some("")), CandidateToken::Missing));
}

#[test]
fn empty_token_pair_is_present_and_empty() {
    let c = candidate_token(None, Some("token="));
    assert_eq!(present(c).as_deref(), Some(""));
    let c = candidate_token(None, Some("token"));
    assert_eq!(present(c).as_deref(), Some(""));
}

fn detail(d: AuthDecision) -> Option<String> {
    match d {
        AuthDecision::Proceed => None,
        AuthDecision::Unauthorized(s) => Some(s),
    }
}

#[test]
fn require_token_lets_the_right_token_through() {
    let state = AuthState::new("correct-horse");
    assert!(detail(require_token(&state, Some(b"Bearer correct-horse".as_slice()), None)).is_none());
    assert!(detail(require_token(&state, None, Some("token=correct-horse"))).is_none());
    assert!(detail(require_token(&state, Some(b"correct-horse".as_slice()), Some("token=bad"))).is_none());
}

#[test]
fn require_token_refusals_and_details() {
    let state = AuthState::new("correct-horse");
    assert_eq!(
        detail(require_token(&state, None, None)).as_deref(),
        Some("Authentication token required")
    );
    assert_eq!(
        detail(require_token(&state, Some(b"Bearer wrong".as_slice()), None)).as_deref(),
        Some("Invalid authentication token")
    );
    assert_eq!(
        detail(require_token(&state, Some([0xffu8].as_slice()), Some("token=correct-horse"))).as_deref(),
        Some("Invalid authentication token")
    );
    assert_eq!(
        detail(require_token(&state, None, Some("token=correct-hors"))).as_deref(),
        Some("Invalid authentication token")
    );
}

#[test]
fn header_takes_precedence_over_query() {
    let state = AuthState::new("correct-horse");
    assert_eq!(
        detail(require_token(&state, Some(b"Bearer nope".as_slice()), Some("token=correct-horse"))).as_deref(),
        Some("Invalid authentication token")
    );
}
