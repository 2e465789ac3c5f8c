//! Session-cookie policy: building cookies with explicit security
//! attributes, and removing them from a jar by overwriting them with a
//! deliberately downgraded cookie (empty value, one-second lifetime,
//! `secure` off, `SameSite=Lax`), since removal of a stricter cookie is not
//! reliable across browsers.

use vstd::prelude::*;

use crate::strutil::str_eq;

verus! {

/// Name of the cookie that carries the short-lived auth token.
pub const COOKIE_AUTH_TOKEN: &'static str = "auth_token";

/// Name of the cookie that carries the long-lived refresh token.
pub const COOKIE_REFRESH_TOKEN: &'static str = "refresh_token";

/// Name of the cookie that carries the OAuth state value.
pub const COOKIE_OAUTH_STATE: &'static str = "oauth_state";

/// The `SameSite` attribute of a session cookie; this policy never issues a
/// cookie without one.
#[derive(Clone, Copy, Debug, PartialEq, Eq, Structural)]
pub enum SameSitePolicy {
    Strict,
    Lax,
}

/// Mathematical view of a cookie.
pub ghost struct CookieSpec {
    pub key: Seq<char>,
    pub value: Seq<char>,
    pub max_age_seconds: int,
    pub http_only: bool,
    pub secure: bool,
    pub same_site: SameSitePolicy,
    pub path: Seq<char>,
}

/// A session cookie with explicit security attributes. It is always
/// `http_only` (never exposed to client-side script) and always scoped to
/// path `/`.
pub struct Cookie {
    pub key: String,
    pub value: String,
    pub max_age_seconds: i64,
    pub http_only: bool,
    pub secure: bool,
    pub same_site: SameSitePolicy,
    pub path: String,
}

impl View for Cookie {
    type V = CookieSpec;

    open spec fn view(&self) -> CookieSpec {
        CookieSpec {
            key: self.key@,
            value: self.value@,
            max_age_seconds: self.max_age_seconds as int,
            http_only: self.http_only,
            secure: self.secure,
            same_site: self.same_site,
            path: self.path@,
        }
    }
}

/// The shape every cookie built by this policy has: `http_only`, path `/`,
/// with `secure` and `SameSite` chosen by the caller.
pub open spec fn cookie_spec(
    key: Seq<char>,
    value: Seq<char>,
    ttl_seconds: int,
    tls_only: bool,
    strict_same_site: bool,
) -> CookieSpec {
    CookieSpec {
        key: key,
        value: value,
        max_age_seconds: ttl_seconds,
        http_only: true,
        secure: tls_only,
        same_site: if strict_same_site {
            SameSitePolicy::Strict
        } else {
            SameSitePolicy::Lax
        },
        path: "/"@,
    }
}

/// Builds a session cookie whose attributes are derived from the development
/// flag: over TLS only and `SameSite=Strict` in production, relaxed to plain
/// HTTP and `SameSite=Lax` in development.
pub fn new_cookie(key: &str, value: String, ttl_seconds: i64, dev: bool) -> (c: Cookie)
    ensures
        c@ == cookie_spec(key@, value@, ttl_seconds as int, !dev, !dev),
{
    Cookie {
        key: key.to_owned(),
        value: value,
        max_age_seconds: ttl_seconds,
        http_only: true,
        secure: !dev,
        same_site: if dev {
            SameSitePolicy::Lax
        } else {
            SameSitePolicy::Strict
        },
        path: "/".to_owned(),
    }
}

/// Builds a session cookie with `secure` and `SameSite` chosen independently
/// of a single development flag.
pub fn new_cookie_opts(
    key: &str,
    value: String,
    ttl_seconds: i64,
    tls_only: bool,
    same_site: bool,
) -> (c: Cookie)
    ensures
        c@ == cookie_spec(key@, value@, ttl_seconds as int, tls_only, same_site),
{
    Cookie {
        key: key.to_owned(),
        value: value,
        max_age_seconds: ttl_seconds,
        http_only: true,
        secure: tls_only,
        same_site: if same_site {
            SameSitePolicy::Strict
        } else {
            SameSitePolicy::Lax
        },
        path: "/".to_owned(),
    }
}

/// The downgraded cookie that `remove_cookie` overwrites an entry with:
/// empty value, one-second lifetime, `secure` off, `SameSite=Lax`.
pub open spec fn removed_cookie(key: Seq<char>) -> CookieSpec {
    cookie_spec(key, Seq::<char>::empty(), 1, false, false)
}

/// What removing `key` does to a jar: nothing when the key is absent,
/// otherwise the entry is overwritten with the downgraded cookie.
pub open spec fn remove_spec(m: Map<Seq<char>, CookieSpec>, key: Seq<char>) -> Map<
    Seq<char>,
    CookieSpec,
> {
    if m.contains_key(key) {
        m.insert(key, removed_cookie(key))
    } else {
        m
    }
}

/// What removing all three well-known cookies does to a jar.
pub open spec fn remove_all_spec(m: Map<Seq<char>, CookieSpec>) -> Map<Seq<char>, CookieSpec> {
    remove_spec(remove_spec(remove_spec(m, COOKIE_AUTH_TOKEN@), COOKIE_REFRESH_TOKEN@), COOKIE_OAUTH_STATE@)
}

/// No two cookies in the jar share a key.
pub open spec fn unique_keys(s: Seq<Cookie>) -> bool {
    forall|i: int, j: int| 0 <= i < j < s.len() ==> s[i]@.key != s[j]@.key
}

/// The jar as a map from cookie key to cookie.
pub closed spec fn jar_map_of(s: Seq<Cookie>) -> Map<Seq<char>, CookieSpec>
    decreases s.len(),
{
    if s.len() == 0 {
        Map::empty()
    } else {
        jar_map_of(s.drop_last()).insert(s.last()@.key, s.last()@)
    }
}

proof fn lemma_unique_drop_last(s: Seq<Cookie>)
    requires
        unique_keys(s),
        s.len() > 0,
    ensures
        unique_keys(s.drop_last()),
{
    assert forall|i: int, j: int| 0 <= i < j < s.drop_last().len() implies s.drop_last()[i]@.key
        != s.drop_last()[j]@.key by {
        assert(s.drop_last()[i] == s[i]);
        assert(s.drop_last()[j] == s[j]);
    }
}

proof fn lemma_jar_map_contains(s: Seq<Cookie>, k: Seq<char>)
    ensures
        jar_map_of(s).contains_key(k) <==> exists|i: int| 0 <= i < s.len() && s[i]@.key == k,
    decreases s.len(),
{
    if s.len() == 0 {
    } else {
        lemma_jar_map_contains(s.drop_last(), k);
        if k == s.last()@.key {
            assert(s[s.len() - 1]@.key == k);
        } else {
            if jar_map_of(s).contains_key(k) {
                let i = choose|i: int| 0 <= i < s.drop_last().len() && s.drop_last()[i]@.key == k;
                assert(s[i] == s.drop_last()[i]);
                assert(0 <= i < s.len() && s[i]@.key == k);
            }
            if exists|i: int| 0 <= i < s.len() && s[i]@.key == k {
                let i = choose|i: int| 0 <= i < s.len() && s[i]@.key == k;
                assert(i < s.len() - 1);
                assert(s.drop_last()[i] == s[i]);
                assert(0 <= i < s.drop_last().len() && s.drop_last()[i]@.key == k);
            }
        }
    }
}

proof fn lemma_jar_map_index(s: Seq<Cookie>, i: int)
    requires
        unique_keys(s),
        0 <= i < s.len(),
    ensures
        jar_map_of(s).contains_key(s[i]@.key),
        jar_map_of(s)[s[i]@.key] == s[i]@,
    decreases s.len(),
{
    if i == s.len() - 1 {
    } else {
        lemma_unique_drop_last(s);
        assert(s.drop_last()[i] == s[i]);
        lemma_jar_map_index(s.drop_last(), i);
        assert(s[i]@.key != s.last()@.key);
    }
}

proof fn lemma_unique_update(s: Seq<Cookie>, i: int, c: Cookie)
    requires
        unique_keys(s),
        0 <= i < s.len(),
        c@.key == s[i]@.key,
    ensures
        unique_keys(s.update(i, c)),
{
    let t = s.update(i, c);
    assert forall|a: int, b: int| 0 <= a < b < t.len() implies t[a]@.key != t[b]@.key by {
        assert(s[a]@.key != s[b]@.key);
    }
}

proof fn lemma_unique_push(s: Seq<Cookie>, c: Cookie)
    requires
        unique_keys(s),
        forall|j: int| 0 <= j < s.len() ==> s[j]@.key != c@.key,
    ensures
        unique_keys(s.push(c)),
{
    let t = s.push(c);
    assert forall|a: int, b: int| 0 <= a < b < t.len() implies t[a]@.key != t[b]@.key by {
        if b < s.len() {
            assert(s[a]@.key != s[b]@.key);
        } else {
            assert(t[b] == c);
            assert(t[a] == s[a]);
        }
    }
}

proof fn lemma_jar_map_push(s: Seq<Cookie>, c: Cookie)
    ensures
        jar_map_of(s.push(c)) == jar_map_of(s).insert(c@.key, c@),
{
    assert(s.push(c).drop_last() =~= s);
    assert(s.push(c).last() == c);
}

proof fn lemma_jar_map_update(s: Seq<Cookie>, i: int, c: Cookie)
    requires
        unique_keys(s),
        0 <= i < s.len(),
        c@.key == s[i]@.key,
    ensures
        jar_map_of(s.update(i, c)) == jar_map_of(s).insert(c@.key, c@),
    decreases s.len(),
{
    let t = s.update(i, c);
    if i == s.len() - 1 {
        assert(t.drop_last() =~= s.drop_last());
        assert(t.last() == c);
        assert(jar_map_of(t) == jar_map_of(s.drop_last()).insert(c@.key, c@));
        assert(jar_map_of(s.drop_last()).insert(s.last()@.key, s.last()@).insert(c@.key, c@)
            =~= jar_map_of(s.drop_last()).insert(c@.key, c@));
    } else {
        lemma_unique_drop_last(s);
        assert(s.drop_last()[i] == s[i]);
        lemma_jar_map_update(s.drop_last(), i, c);
        assert(t.drop_last() =~= s.drop_last().update(i, c));
        assert(t.last() == s.last());
        assert(s[i]@.key != s.last()@.key);
        assert(jar_map_of(t) == jar_map_of(s.drop_last()).insert(c@.key, c@).insert(
            s.last()@.key,
            s.last()@,
        ));
        assert(jar_map_of(s.drop_last()).insert(c@.key, c@).insert(s.last()@.key, s.last()@)
            =~= jar_map_of(s.drop_last()).insert(s.last()@.key, s.last()@).insert(c@.key, c@));
    }
}

/// A jar of session cookies, at most one per key.
pub struct CookieJar {
    cookies: Vec<Cookie>,
}

impl View for CookieJar {
    type V = Map<Seq<char>, CookieSpec>;

    closed spec fn view(&self) -> Map<Seq<char>, CookieSpec> {
        jar_map_of(self.cookies@)
    }
}

/// Finds the index of the cookie with the given key, if any.
fn find_key(cookies: &Vec<Cookie>, key: &str) -> (r: Option<usize>)
    ensures
        match r {
            Some(i) => i < cookies@.len() && cookies@[i as int]@.key == key@,
            None => forall|j: int| 0 <= j < cookies@.len() ==> cookies@[j]@.key != key@,
        },
{
    let n = cookies.len();
    let mut i: usize = 0;
    while i < n
        invariant
            i <= n,
            n == cookies@.len(),
            forall|j: int| 0 <= j < i ==> cookies@[j]@.key != key@,
        decreases n - i,
    {
        if str_eq(cookies[i].key.as_str(), key) {
            return Some(i);
        }
        i += 1;
    }
    None
}

impl CookieJar {
    /// Well-formedness: at most one cookie per key. Constructors establish
    /// it and every method preserves it.
    pub closed spec fn wf(&self) -> bool {
        unique_keys(self.cookies@)
    }

    /// An empty jar.
    pub fn new() -> (jar: CookieJar)
        ensures
            jar.wf(),
            jar@ == Map::<Seq<char>, CookieSpec>::empty(),
    {
        CookieJar { cookies: Vec::new() }
    }

    /// Looks up the cookie stored under `key`.
    pub fn get(&self, key: &str) -> (r: Option<&Cookie>)
        requires
            self.wf(),
        ensures
            match r {
                Some(c) => self@.contains_key(key@) && c@ == self@[key@],
                None => !self@.contains_key(key@),
            },
    {
        match find_key(&self.cookies, key) {
            Some(i) => {
                proof {
                    lemma_jar_map_index(self.cookies@, i as int);
                }
                Some(&self.cookies[i])
            },
            None => {
                proof {
                    lemma_jar_map_contains(self.cookies@, key@);
                }
                None
            },
        }
    }

    /// Stores `c` in the jar, replacing any cookie with the same key.
    pub fn add(&mut self, c: Cookie)
        requires
            old(self).wf(),
        ensures
            final(self).wf(),
            final(self)@ == old(self)@.insert(c@.key, c@),
    {
        match find_key(&self.cookies, c.key.as_str()) {
            Some(i) => {
                proof {
                    lemma_unique_update(self.cookies@, i as int, c);
                    lemma_jar_map_update(self.cookies@, i as int, c);
                }
                self.cookies[i] = c;
            },
            None => {
                proof {
                    lemma_unique_push(self.cookies@, c);
                    lemma_jar_map_push(self.cookies@, c);
                }
                self.cookies.push(c);
            },
        }
    }

    /// Removes the cookie stored under `key`: a no-op when the key is
    /// absent, otherwise the entry is overwritten with the downgraded cookie
    /// so that browsers reliably drop a previously stricter one.
    pub fn remove_cookie(&mut self, key: &str)
        requires
            old(self).wf(),
        ensures
            final(self).wf(),
            final(self)@ == remove_spec(old(self)@, key@),
    {
        let present = self.get(key).is_some();
        if present {
            self.add(new_cookie_opts(key, String::new(), 1, false, false));
        }
    }

    /// Removes the three well-known cookies (auth token, refresh token,
    /// OAuth state), whether or not each is present.
    pub fn remove_all_cookies(&mut self)
        requires
            old(self).wf(),
        ensures
            final(self).wf(),
            final(self)@ == remove_all_spec(old(self)@),
    {
        self.remove_cookie(COOKIE_AUTH_TOKEN);
        self.remove_cookie(COOKIE_REFRESH_TOKEN);
        self.remove_cookie(COOKIE_OAUTH_STATE);
    }
}

/// Law: removing a key that is not in the jar leaves the jar unchanged — no
/// entry is added.
pub proof fn lemma_remove_absent_is_noop(m: Map<Seq<char>, CookieSpec>, key: Seq<char>)
    requires
        !m.contains_key(key),
    ensures
        remove_spec(m, key) == m,
{
}

/// Law: after removing all well-known cookies, each of the three keys is
/// either still absent (when it was absent before) or holds a downgraded
/// entry with an empty value and a one-second lifetime (when it was
/// present); every other key is untouched.
pub proof fn lemma_remove_all_downgrades(m: Map<Seq<char>, CookieSpec>)
    ensures
        ({
            let m2 = remove_all_spec(m);
            &&& forall|k: Seq<char>|
                (k == COOKIE_AUTH_TOKEN@ || k == COOKIE_REFRESH_TOKEN@ || k
                    == COOKIE_OAUTH_STATE@) && m.contains_key(k) ==> m2.contains_key(k)
                    && m2[k].value == Seq::<char>::empty() && m2[k].max_age_seconds == 1
            &&& forall|k: Seq<char>| m2.contains_key(k) <==> m.contains_key(k)
            &&& forall|k: Seq<char>|
                m.contains_key(k) && k != COOKIE_AUTH_TOKEN@ && k != COOKIE_REFRESH_TOKEN@ && k
                    != COOKIE_OAUTH_STATE@ ==> m2[k] == m[k]
        }),
{
}

} // verus!
