use auth_policy::redirect::validate_redirects;
use auth_policy::AuthError;

fn s(v: &str) -> Option<String> {
    Some(v.to_string())
}

#[test]
fn both_absent_is_ok_none() {
    assert_eq!(validate_redirects(&None, &None, false, &None), Ok(None));
    assert_eq!(validate_redirects(&None, &None, true, &s("https://ex.com")), Ok(None));
}

#[test]
fn valid_first_wins_second_never_consulted() {
    let r = validate_redirects(&s("/x"), &s("https://evil.com"), false, &None);
    assert_eq!(r, Ok(Some("/x".to_string())));
}

#[test]
fn invalid_first_short_circuits_no_fallback() {
    let r = validate_redirects(&s("https://evil.com"), &s("/x"), false, &None);
    assert_eq!(r, Err(AuthError::BadRequest));
}

#[test]
fn dev_mode_allows_localhost() {
    let r = validate_redirects(&s("http://localhost:3000/a"), &None, true, &None);
    assert_eq!(r, Ok(Some("http://localhost:3000/a".to_string())));
}

#[test]
fn localhost_rejected_outside_dev_mode() {
    let r = validate_redirects(&s("http://localhost:3000/a"), &None, false, &None);
    assert_eq!(r, Err(AuthError::BadRequest));
}

#[test]
fn configured_site_prefix_allows() {
    let site = s("https://ex.com");
    let r = validate_redirects(&s("https://ex.com/path"), &None, false, &site);
    assert_eq!(r, Ok(Some("https://ex.com/path".to_string())));
}

#[test]
fn site_check_is_a_literal_prefix_test() {
    // Known weakness, kept deliberately: an attacker domain that extends the site
    // string still passes the raw prefix test.
    let site = s("https://ex.com");
    let r = validate_redirects(&s("https://ex.com.evil.org"), &None, false, &site);
    assert_eq!(r, Ok(Some("https://ex.com.evil.org".to_string())));
}

#[test]
fn second_candidate_used_when_first_absent() {
    let r = validate_redirects(&None, &s("/after-login"), false, &None);
    assert_eq!(r, Ok(Some("/after-login".to_string())));
    let r = validate_redirects(&None, &s("https://evil.com"), false, &None);
    assert_eq!(r, Err(AuthError::BadRequest));
}
