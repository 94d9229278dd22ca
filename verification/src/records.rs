//! Decoding of the durable store's replies.
//!
//! The database driver answers a query with a summary message and a
//! list of records whose fields are dynamically typed values. These
//! types model exactly what the protocol reads of them: whether the
//! summary reports success, and the text and integer fields of the
//! first record. Everything unexpected — a non-success summary, a
//! missing or mistyped field, a negative identity — is corrupt or
//! failing stored data, classified as the opaque service error and
//! never as a user mistake.

use vstd::prelude::*;

use crate::protocol::{ServiceError, StoreFailure};

verus! {

/// Summary of the store's reply to one request: it either reports
/// success or something else (a failure or an ignored request).
#[derive(Clone, Copy, Debug, PartialEq, Eq, Structural)]
pub enum DbMessage {
    Success,
    Other,
}

/// One dynamically typed field of a record, narrowed to the shapes the
/// protocol reads: text, an integer, or anything else.
#[derive(Clone, Debug)]
pub enum DbValue {
    Text(String),
    Integer(i64),
    Other,
}

/// One record of a query's result.
#[derive(Clone, Debug)]
pub struct DbRecord {
    pub fields: Vec<DbValue>,
}

/// What reading the credential query's result yields.
#[derive(Clone, Debug)]
pub enum CredentialLookup {
    /// No record came back: the username is not provisioned.
    NoUser,
    /// The stored hash and identity of the matching account.
    Found { user_id: u64, password_hash: String },
    /// The record is unusable: fields missing, mistyped, or a negative
    /// identity. Corrupt data, not a user mistake.
    Corrupt,
}

/// Specification-level image of a `CredentialLookup`.
pub ghost enum CredentialView {
    NoUser,
    Found { user_id: u64, password_hash: Seq<char> },
    Corrupt,
}

impl View for CredentialLookup {
    type V = CredentialView;

    open spec fn view(&self) -> CredentialView {
        match self {
            CredentialLookup::NoUser => CredentialView::NoUser,
            CredentialLookup::Found { user_id, password_hash } => CredentialView::Found {
                user_id: *user_id,
                password_hash: password_hash@,
            },
            CredentialLookup::Corrupt => CredentialView::Corrupt,
        }
    }
}

/// What the credential query's records hold: nothing (no such user), a
/// usable hash-and-identity pair from the first record — its first
/// field the hash text, its second a non-negative integer identity —
/// or corrupt data.
pub open spec fn spec_extract(records: Seq<DbRecord>) -> CredentialView {
    if records.len() == 0 {
        CredentialView::NoUser
    } else {
        let fields = records[0].fields@;
        if fields.len() < 2 {
            CredentialView::Corrupt
        } else {
            match (fields[0], fields[1]) {
                (DbValue::Text(hash), DbValue::Integer(id)) => if id >= 0 {
                    CredentialView::Found { user_id: id as u64, password_hash: hash@ }
                } else {
                    CredentialView::Corrupt
                },
                _ => CredentialView::Corrupt,
            }
        }
    }
}

/// Classifies the store's reply to the query request itself: only a
/// success summary lets the operation continue; every other reply, and
/// a connectivity failure, surfaces as the opaque service error.
pub fn transform_result(outcome: Result<DbMessage, StoreFailure>) -> (r: Result<
    (),
    ServiceError,
>)
    ensures
        match outcome {
            Ok(DbMessage::Success) => r == Ok::<(), ServiceError>(()),
            Ok(DbMessage::Other) => r == Err::<(), ServiceError>(ServiceError::Unavailable),
            Err(_) => r == Err::<(), ServiceError>(ServiceError::Unavailable),
        },
{
    match outcome {
        Ok(DbMessage::Success) => Ok(()),
        Ok(DbMessage::Other) => Err(ServiceError::Unavailable),
        Err(_) => Err(ServiceError::Unavailable),
    }
}

/// Classifies the store's reply to the record pull: the records are
/// handed on only under a success summary; anything else surfaces as
/// the opaque service error.
pub fn transform_records(outcome: Result<(Vec<DbRecord>, DbMessage), StoreFailure>) -> (r: Result<
    Vec<DbRecord>,
    ServiceError,
>)
    ensures
        match outcome {
            Ok(pair) => match pair.1 {
                DbMessage::Success => r == Ok::<Vec<DbRecord>, ServiceError>(pair.0),
                DbMessage::Other => r == Err::<Vec<DbRecord>, ServiceError>(
                    ServiceError::Unavailable,
                ),
            },
            Err(_) => r == Err::<Vec<DbRecord>, ServiceError>(ServiceError::Unavailable),
        },
{
    match outcome {
        Ok((records, DbMessage::Success)) => Ok(records),
        Ok((_, DbMessage::Other)) => Err(ServiceError::Unavailable),
        Err(_) => Err(ServiceError::Unavailable),
    }
}

/// Reads the credential query's records: the first record's first two
/// fields as hash text and non-negative identity, or `NoUser` when no
/// record came back, or `Corrupt` for any other shape.
pub fn extract_credentials(records: &Vec<DbRecord>) -> (r: CredentialLookup)
    ensures
        r@ == spec_extract(records@),
{
    if records.len() == 0 {
        return CredentialLookup::NoUser;
    }
    let record = &records[0];
    if record.fields.len() < 2 {
        return CredentialLookup::Corrupt;
    }
    let password_hash: String = match &record.fields[0] {
        DbValue::Text(hash) => hash.clone(),
        _ => {
            return CredentialLookup::Corrupt;
        },
    };
    let id: i64 = match &record.fields[1] {
        DbValue::Integer(id) => *id,
        _ => {
            return CredentialLookup::Corrupt;
        },
    };
    if id >= 0 {
        CredentialLookup::Found { user_id: id as u64, password_hash }
    } else {
        CredentialLookup::Corrupt
    }
}

} // verus!
