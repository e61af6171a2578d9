//! Errors of the storage layer.

use vstd::prelude::*;
use crate::text::str_equal;

verus! {

/// What can go wrong when reading or writing storage.
#[derive(Debug, PartialEq, Eq)]
pub enum DBError {
    /// The database could not be reached or refused a statement.
    ConnectorError(String),
    /// A schema migration failed.
    MigrationError(String),
    /// A stored network identifier names no network.
    NetworkDeserializeError(String),
    /// A stored outbox event type names no event type.
    OutboxEventTypeDeserializeError(String),
    /// A user with this email is already registered.
    UserEmailAlreadyExistsError(String),
}

/// The message of each error.
pub open spec fn db_error_text(e: DBError) -> Seq<char> {
    match e {
        DBError::ConnectorError(s) => "Database Error: "@ + s@,
        DBError::MigrationError(s) => "Database Error: "@ + s@,
        DBError::NetworkDeserializeError(s) => "Network "@ + s@ + " could not be deserialized"@,
        DBError::OutboxEventTypeDeserializeError(s) => "OutboxEventType "@ + s@ + " could not be deserialized"@,
        DBError::UserEmailAlreadyExistsError(s) => "User email "@ + s@ + " already exists"@,
    }
}

/// The constraint that keeps user emails unique.
pub open spec fn users_email_key() -> Seq<char> {
    "users_email_key"@
}

impl DBError {
    /// The error for a failed insertion of a user with `email`: a breach of
    /// the unique-email constraint means the email is taken; any other
    /// failure is reported with the database's message.
    pub fn from_insert_user_failure(constraint: Option<&str>, email: &str, message: String) -> (e: DBError)
        ensures
            (constraint matches Some(c) && c@ == users_email_key()) ==> (e matches DBError::UserEmailAlreadyExistsError(
                s,
            ) && s@ == email@),
            !(constraint matches Some(c) && c@ == users_email_key()) ==> e == DBError::ConnectorError(message),
    {
        match constraint {
            Some(c) => if str_equal(c, "users_email_key") {
                DBError::UserEmailAlreadyExistsError(email.to_owned())
            } else {
                DBError::ConnectorError(message)
            },
            None => DBError::ConnectorError(message),
        }
    }

    /// The error's message.
    pub fn to_text(&self) -> (t: String)
        ensures
            t@ == db_error_text(*self),
    {
        match self {
            DBError::ConnectorError(s) => {
                let mut t = "Database Error: ".to_owned();
                t.append(s.as_str());
                t
            },
            DBError::MigrationError(s) => {
                let mut t = "Database Error: ".to_owned();
                t.append(s.as_str());
                t
            },
            DBError::NetworkDeserializeError(s) => {
                let mut t = "Network ".to_owned();
                t.append(s.as_str());
                t.append(" could not be deserialized");
                t
            },
            DBError::OutboxEventTypeDeserializeError(s) => {
                let mut t = "OutboxEventType ".to_owned();
                t.append(s.as_str());
                t.append(" could not be deserialized");
                t
            },
            DBError::UserEmailAlreadyExistsError(s) => {
                let mut t = "User email ".to_owned();
                t.append(s.as_str());
                t.append(" already exists");
                t
            },
        }
    }
}

} // verus!
