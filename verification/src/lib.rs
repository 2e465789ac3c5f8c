//! Security-policy layer of an authentication subsystem: safe post-login
//! redirection, session-cookie attributes and lifecycle, PKCE code-challenge
//! derivation, and the decision logic behind session revocation and
//! principal lookup.

use vstd::prelude::*;

pub mod cookies;
pub mod pkce;
pub mod redirect;
pub mod sessions;
pub mod strutil;
pub mod users;

verus! {

/// Error kinds surfaced by this layer.
///
/// `UnauthorizedExt` deliberately collapses "row not found" and "row failed
/// to decode" into one caller-visible class, so that lookup failures cannot
/// be used to enumerate which accounts exist.
#[derive(Clone, Copy, Debug, PartialEq, Eq, Structural)]
pub enum AuthError {
    /// A client-supplied value (e.g. a redirect target) failed validation.
    BadRequest,
    /// A user lookup failed for any reason; the cause is redacted by design.
    UnauthorizedExt,
    /// An infrastructure failure unrelated to user input.
    Internal,
}

} // verus!
