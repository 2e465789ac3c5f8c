use auth_policy::cookies::{
    new_cookie, new_cookie_opts, CookieJar, SameSitePolicy, COOKIE_AUTH_TOKEN,
    COOKIE_OAUTH_STATE, COOKIE_REFRESH_TOKEN,
};

#[test]
fn production_cookie_is_strict_and_secure() {
    let c = new_cookie("auth_token", "v".to_string(), 3600, false);
    assert_eq!(c.key, "auth_token");
    assert_eq!(c.value, "v");
    assert_eq!(c.max_age_seconds, 3600);
    assert!(c.http_only);
    assert!(c.secure);
    assert_eq!(c.same_site, SameSitePolicy::Strict);
    assert_eq!(c.path, "/");
}

#[test]
fn dev_cookie_is_lax_and_insecure() {
    let c = new_cookie("auth_token", "v".to_string(), 60, true);
    assert!(c.http_only);
    assert!(!c.secure);
    assert_eq!(c.same_site, SameSitePolicy::Lax);
    assert_eq!(c.path, "/");
}

#[test]
fn explicit_cookie_attributes_are_independent() {
    let c = new_cookie_opts("oauth_state", "s".to_string(), 300, true, false);
    assert!(c.secure);
    assert_eq!(c.same_site, SameSitePolicy::Lax);
    assert!(c.http_only);
    let c = new_cookie_opts("oauth_state", "s".to_string(), 300, false, true);
    assert!(!c.secure);
    assert_eq!(c.same_site, SameSitePolicy::Strict);
    assert!(c.http_only);
}

#[test]
fn remove_on_missing_key_adds_nothing() {
    let mut jar = CookieJar::new();
    jar.add(new_cookie("other", "keep".to_string(), 10, false));
    jar.remove_cookie(COOKIE_AUTH_TOKEN);
    assert!(jar.get(COOKIE_AUTH_TOKEN).is_none());
    let kept = jar.get("other").expect("untouched entry");
    assert_eq!(kept.value, "keep");
    assert_eq!(kept.max_age_seconds, 10);
}

#[test]
fn remove_overwrites_with_downgraded_cookie() {
    let mut jar = CookieJar::new();
    jar.add(new_cookie(COOKIE_AUTH_TOKEN, "secret".to_string(), 3600, false));
    jar.remove_cookie(COOKIE_AUTH_TOKEN);
    let c = jar.get(COOKIE_AUTH_TOKEN).expect("overwritten entry");
    assert_eq!(c.value, "");
    assert_eq!(c.max_age_seconds, 1);
    assert!(!c.secure);
    assert_eq!(c.same_site, SameSitePolicy::Lax);
    assert!(c.http_only);
}

#[test]
fn remove_all_downgrades_present_and_skips_absent() {
    let mut jar = CookieJar::new();
    jar.add(new_cookie(COOKIE_AUTH_TOKEN, "a".to_string(), 3600, false));
    jar.add(new_cookie(COOKIE_OAUTH_STATE, "s".to_string(), 300, false));
    jar.add(new_cookie("unrelated", "u".to_string(), 99, false));
    jar.remove_all_cookies();

    let a = jar.get(COOKIE_AUTH_TOKEN).expect("auth entry stays");
    assert_eq!(a.value, "");
    assert_eq!(a.max_age_seconds, 1);

    assert!(jar.get(COOKIE_REFRESH_TOKEN).is_none());

    let s = jar.get(COOKIE_OAUTH_STATE).expect("state entry stays");
    assert_eq!(s.value, "");
    assert_eq!(s.max_age_seconds, 1);

    let u = jar.get("unrelated").expect("unrelated entry untouched");
    assert_eq!(u.value, "u");
    assert_eq!(u.max_age_seconds, 99);
}

#[test]
fn add_replaces_entry_with_same_key() {
    let mut jar = CookieJar::new();
    jar.add(new_cookie("k", "first".to_string(), 1, false));
    jar.add(new_cookie("k", "second".to_string(), 2, false));
    let c = jar.get("k").expect("entry");
    assert_eq!(c.value, "second");
    assert_eq!(c.max_age_seconds, 2);
}
