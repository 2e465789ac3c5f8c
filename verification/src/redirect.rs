//! Validation of client-supplied redirect targets after login or an OAuth
//! callback. A target is followed only if it is a same-origin relative path,
//! a localhost URL in development mode, or literally prefixed by the
//! configured site string.

use vstd::prelude::*;

use crate::strutil::{is_prefix_of, str_starts_with};
use crate::AuthError;

verus! {

/// View of an optional string as an optional character sequence.
pub open spec fn opt_str_view(s: Option<String>) -> Option<Seq<char>> {
    match s {
        Some(x) => Some(x@),
        None => None,
    }
}

/// The allow-rule for a single redirect target: accepted iff it starts with
/// `/`, or development mode is on and it starts with `http://localhost`, or a
/// site string is configured and the target starts with it (a literal string
/// prefix test, not a parsed-origin comparison).
pub open spec fn redirect_allowed(target: Seq<char>, dev: bool, site: Option<Seq<char>>) -> bool {
    ||| is_prefix_of("/"@, target)
    ||| (dev && is_prefix_of("http://localhost"@, target))
    ||| (site is Some && is_prefix_of(site->0, target))
}

/// What `validate_redirects` returns: the first candidate, when present,
/// decides the outcome on its own; the second is consulted only when the
/// first is absent; when both are absent the result is no redirect.
pub open spec fn validate_redirects_spec(
    first: Option<Seq<char>>,
    second: Option<Seq<char>>,
    dev: bool,
    site: Option<Seq<char>>,
) -> Result<Option<Seq<char>>, AuthError> {
    match first {
        Some(f) => if redirect_allowed(f, dev, site) {
            Ok(Some(f))
        } else {
            Err(AuthError::BadRequest)
        },
        None => match second {
            Some(s) => if redirect_allowed(s, dev, site) {
                Ok(Some(s))
            } else {
                Err(AuthError::BadRequest)
            },
            None => Ok(None),
        },
    }
}

/// View of the validator's executable result.
pub open spec fn redirect_result_view(r: Result<Option<String>, AuthError>) -> Result<
    Option<Seq<char>>,
    AuthError,
> {
    match r {
        Ok(t) => Ok(opt_str_view(t)),
        Err(e) => Err(e),
    }
}

/// Decides whether one redirect target satisfies the allow-rule.
pub fn redirect_target_allowed(target: &String, dev: bool, site: &Option<String>) -> (r: bool)
    ensures
        r == redirect_allowed(target@, dev, opt_str_view(*site)),
{
    if str_starts_with(target.as_str(), "/") {
        return true;
    }
    if dev && str_starts_with(target.as_str(), "http://localhost") {
        return true;
    }
    match site {
        Some(site) => str_starts_with(target.as_str(), site.as_str()),
        None => false,
    }
}

/// Sanitizes up to two candidate redirect targets. A present first candidate
/// must pass the allow-rule or the call fails with `BadRequest`; the second
/// candidate is never a fallback for an invalid first one.
pub fn validate_redirects(
    first: &Option<String>,
    second: &Option<String>,
    dev: bool,
    site: &Option<String>,
) -> (r: Result<Option<String>, AuthError>)
    ensures
        redirect_result_view(r) == validate_redirects_spec(
            opt_str_view(*first),
            opt_str_view(*second),
            dev,
            opt_str_view(*site),
        ),
{
    match first {
        Some(f) => {
            if redirect_target_allowed(f, dev, site) {
                Ok(Some(f.clone()))
            } else {
                Err(AuthError::BadRequest)
            }
        },
        None => match second {
            Some(s) => {
                if redirect_target_allowed(s, dev, site) {
                    Ok(Some(s.clone()))
                } else {
                    Err(AuthError::BadRequest)
                }
            },
            None => Ok(None),
        },
    }
}

/// Law: when the first candidate is present, the second never influences the
/// outcome — a valid first is returned as-is and an invalid first fails the
/// call, whatever the second holds.
pub proof fn lemma_second_never_consulted(
    f: Seq<char>,
    second1: Option<Seq<char>>,
    second2: Option<Seq<char>>,
    dev: bool,
    site: Option<Seq<char>>,
)
    ensures
        validate_redirects_spec(Some(f), second1, dev, site) == validate_redirects_spec(
            Some(f),
            second2,
            dev,
            site,
        ),
        redirect_allowed(f, dev, site) ==> validate_redirects_spec(Some(f), second1, dev, site)
            == Ok::<Option<Seq<char>>, AuthError>(Some(f)),
        !redirect_allowed(f, dev, site) ==> validate_redirects_spec(Some(f), second1, dev, site)
            == Err::<Option<Seq<char>>, AuthError>(AuthError::BadRequest),
{
}

} // verus!
