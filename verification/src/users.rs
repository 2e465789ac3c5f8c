//! Principal lookup and the admin gate. A user row is decoded with an
//! explicit column-to-field mapping; "row not found" and "row fails to
//! decode" are kept apart internally but collapse to the same caller-visible
//! unauthorized error, so lookup failures cannot be used to probe which
//! accounts exist. The admin check fails closed: any failure reads as "not
//! an admin", never as an error.

use vstd::prelude::*;

use crate::AuthError;

verus! {

/// A user id: a UUID held as its raw 16-byte form, the shape in which it is
/// bound into queries.
pub struct UserId {
    bytes: Vec<u8>,
}

impl View for UserId {
    type V = Seq<u8>;

    closed spec fn view(&self) -> Seq<u8> {
        self.bytes@
    }
}

impl UserId {
    /// Accepts exactly 16 bytes.
    pub fn from_bytes(bytes: Vec<u8>) -> (r: Option<UserId>)
        ensures
            bytes@.len() == 16 ==> (r matches Some(id) && id@ == bytes@),
            bytes@.len() != 16 ==> r is None,
    {
        if bytes.len() == 16 {
            Some(UserId { bytes })
        } else {
            None
        }
    }

    /// The raw 16-byte form, as bound into queries.
    pub fn as_bytes(&self) -> (r: &Vec<u8>)
        ensures
            r@ == self@,
    {
        &self.bytes
    }
}

/// The read-only view of a user this layer works with: id, email and the
/// admin flag; every other column is opaque here.
pub struct DbUser {
    pub id: UserId,
    pub email: String,
    pub admin: bool,
}

/// Why a lookup failed, kept apart internally even though the caller sees
/// one redacted error class.
#[derive(Clone, Copy, Debug, PartialEq, Eq, Structural)]
pub enum LookupFailure {
    /// The query matched no row.
    NotFound,
    /// The query itself failed in the storage layer.
    Storage,
    /// A row came back but its columns do not fit the expected shape.
    Decode,
}

/// What the single-row user fetch handed back, as plain values.
pub enum UserRowOutcome {
    /// The row's relevant columns: raw id bytes, email, and the admin flag
    /// as the integer the storage layer holds.
    Row { id: Vec<u8>, email: String, admin: i64 },
    /// A row came back but its columns do not carry the expected types.
    RowMalformed,
    /// The query matched no row.
    NotFound,
    /// The query failed in the storage layer.
    StorageFailed,
}

/// Maps a fetched row's columns onto a `DbUser`: the id must be a raw
/// 16-byte UUID, and the admin flag is the integer's truth value.
pub fn decode_user_row(id: Vec<u8>, email: String, admin: i64) -> (r: Result<
    DbUser,
    LookupFailure,
>)
    ensures
        id@.len() == 16 ==> (r matches Ok(u) && u.id@ == id@ && u.email@ == email@ && u.admin == (
        admin != 0)),
        id@.len() != 16 ==> r == Err::<DbUser, LookupFailure>(LookupFailure::Decode),
{
    match UserId::from_bytes(id) {
        Some(uid) => Ok(DbUser { id: uid, email, admin: admin != 0 }),
        None => Err(LookupFailure::Decode),
    }
}

/// Resolves a user lookup: a well-shaped row becomes the user; not-found,
/// storage failure and decode failure all become the same redacted
/// unauthorized error, if and only if no well-shaped row came back.
pub fn resolve_user_lookup(outcome: UserRowOutcome) -> (r: Result<DbUser, AuthError>)
    ensures
        match outcome {
            UserRowOutcome::Row { id, email, admin } => {
                if id@.len() == 16 {
                    (r matches Ok(u) && u.id@ == id@ && u.email@ == email@ && u.admin == (admin
                        != 0))
                } else {
                    r == Err::<DbUser, AuthError>(AuthError::UnauthorizedExt)
                }
            },
            UserRowOutcome::RowMalformed => r == Err::<DbUser, AuthError>(
                AuthError::UnauthorizedExt,
            ),
            UserRowOutcome::NotFound => r == Err::<DbUser, AuthError>(AuthError::UnauthorizedExt),
            UserRowOutcome::StorageFailed => r == Err::<DbUser, AuthError>(
                AuthError::UnauthorizedExt,
            ),
        },
{
    match outcome {
        UserRowOutcome::Row { id, email, admin } => match decode_user_row(id, email, admin) {
            Ok(u) => Ok(u),
            Err(_) => Err(AuthError::UnauthorizedExt),
        },
        UserRowOutcome::RowMalformed => Err(AuthError::UnauthorizedExt),
        UserRowOutcome::NotFound => Err(AuthError::UnauthorizedExt),
        UserRowOutcome::StorageFailed => Err(AuthError::UnauthorizedExt),
    }
}

/// What the admin-flag query handed back.
#[derive(Clone, Copy, Debug, PartialEq, Eq, Structural)]
pub enum AdminFlagOutcome {
    /// The row was found and its flag decoded.
    Flag(bool),
    /// No row for the user id.
    NoRow,
    /// The query failed in the storage layer.
    StorageFailed,
    /// The flag column would not decode as a boolean.
    DecodeFailed,
}

/// The admin gate, fail-closed: true exactly when the query returned a row
/// whose flag decoded to true; every failure — no row, storage error, decode
/// error — reads as "not an admin", never as an error.
pub fn is_admin(outcome: AdminFlagOutcome) -> (r: bool)
    ensures
        r == (outcome matches AdminFlagOutcome::Flag(true)),
{
    match outcome {
        AdminFlagOutcome::Flag(b) => b,
        AdminFlagOutcome::NoRow => false,
        AdminFlagOutcome::StorageFailed => false,
        AdminFlagOutcome::DecodeFailed => false,
    }
}

} // verus!
