//! The kinds of failure that pool, connection and cursor report.

use vstd::prelude::*;
use crate::text::{decimal, decimal_digits};

verus! {

/// A failure of the pool, of a connection or of a cursor.
#[derive(Debug)]
pub enum CozoError {
    /// A probe failed, or a connection could not be established.
    ConnectionFailed { message: String },
    /// An operation or a cursor failed; `query` describes what was asked.
    QueryFailed { message: String, query: String },
    /// A transaction could not be completed.
    TransactionFailed { message: String },
    /// A bounded resource has no capacity left.
    ResourceLimitExhausted { resource: String, used: usize, limit: usize },
    /// No database exists at `path`.
    DatabaseNotFound { path: String },
    /// A configuration value is not acceptable.
    InvalidConfiguration { message: String },
    /// A value could not be written out or read back.
    SerializationFailed { message: String },
    /// An internal invariant was found broken.
    Internal { message: String },
}

/// What a [`CozoError`] holds, with each text as a sequence of characters.
pub enum CozoErrorView {
    ConnectionFailed { message: Seq<char> },
    QueryFailed { message: Seq<char>, query: Seq<char> },
    TransactionFailed { message: Seq<char> },
    ResourceLimitExhausted { resource: Seq<char>, used: usize, limit: usize },
    DatabaseNotFound { path: Seq<char> },
    InvalidConfiguration { message: Seq<char> },
    SerializationFailed { message: Seq<char> },
    Internal { message: Seq<char> },
}

impl View for CozoError {
    type V = CozoErrorView;

    open spec fn view(&self) -> CozoErrorView {
        match *self {
            CozoError::ConnectionFailed { message } => CozoErrorView::ConnectionFailed {
                message: message@,
            },
            CozoError::QueryFailed { message, query } => CozoErrorView::QueryFailed {
                message: message@,
                query: query@,
            },
            CozoError::TransactionFailed { message } => CozoErrorView::TransactionFailed {
                message: message@,
            },
            CozoError::ResourceLimitExhausted {
                resource,
                used,
                limit,
            } => CozoErrorView::ResourceLimitExhausted { resource: resource@, used, limit },
            CozoError::DatabaseNotFound { path } => CozoErrorView::DatabaseNotFound { path: path@ },
            CozoError::InvalidConfiguration { message } => CozoErrorView::InvalidConfiguration {
                message: message@,
            },
            CozoError::SerializationFailed { message } => CozoErrorView::SerializationFailed {
                message: message@,
            },
            CozoError::Internal { message } => CozoErrorView::Internal { message: message@ },
        }
    }
}

impl Clone for CozoError {
    /// A copy that holds the same texts and numbers.
    fn clone(&self) -> (copy: CozoError)
        ensures
            copy@ == self@,
    {
        match self {
            CozoError::ConnectionFailed { message } => CozoError::ConnectionFailed {
                message: message.clone(),
            },
            CozoError::QueryFailed { message, query } => CozoError::QueryFailed {
                message: message.clone(),
                query: query.clone(),
            },
            CozoError::TransactionFailed { message } => CozoError::TransactionFailed {
                message: message.clone(),
            },
            CozoError::ResourceLimitExhausted { resource, used, limit } => {
                CozoError::ResourceLimitExhausted {
                    resource: resource.clone(),
                    used: *used,
                    limit: *limit,
                }
            },
            CozoError::DatabaseNotFound { path } => CozoError::DatabaseNotFound {
                path: path.clone(),
            },
            CozoError::InvalidConfiguration { message } => CozoError::InvalidConfiguration {
                message: message.clone(),
            },
            CozoError::SerializationFailed { message } => CozoError::SerializationFailed {
                message: message.clone(),
            },
            CozoError::Internal { message } => CozoError::Internal { message: message.clone() },
        }
    }
}

impl CozoErrorView {
    /// The error in words: what kind of failure it is, and its message.
    pub open spec fn description(self) -> Seq<char> {
        match self {
            CozoErrorView::ConnectionFailed { message } => "Connection failed: "@ + message,
            CozoErrorView::QueryFailed { message, query } => "Query execution failed: "@ + message,
            CozoErrorView::TransactionFailed { message } => "Transaction failed: "@ + message,
            CozoErrorView::ResourceLimitExhausted { resource, used, limit } => {
                "Resource limit exhausted: "@ + resource + " ("@ + decimal_digits(used as nat)
                    + "/"@ + decimal_digits(limit as nat) + ")"@
            },
            CozoErrorView::DatabaseNotFound { path } => "Database not found: "@ + path,
            CozoErrorView::InvalidConfiguration { message } => "Invalid configuration: "@
                + message,
            CozoErrorView::SerializationFailed { message } => "Serialization failed: "@ + message,
            CozoErrorView::Internal { message } => "Internal error: "@ + message,
        }
    }
}

/// `head` followed by `tail`.
fn headed(head: &str, tail: &str) -> (text: String)
    ensures
        text@ == head@ + tail@,
{
    let mut text = String::from_str(head);
    text.append(tail);
    text
}

impl CozoError {
    /// The error in words.
    pub fn to_string(&self) -> (text: String)
        ensures
            text@ == self@.description(),
    {
        match self {
            CozoError::ConnectionFailed { message } => headed(
                "Connection failed: ",
                message.as_str(),
            ),
            CozoError::QueryFailed { message, query } => headed(
                "Query execution failed: ",
                message.as_str(),
            ),
            CozoError::TransactionFailed { message } => headed(
                "Transaction failed: ",
                message.as_str(),
            ),
            CozoError::ResourceLimitExhausted { resource, used, limit } => {
                let mut text = headed("Resource limit exhausted: ", resource.as_str());
                text.append(" (");
                text.append(decimal(*used as u128).as_str());
                text.append("/");
                text.append(decimal(*limit as u128).as_str());
                text.append(")");
                text
            },
            CozoError::DatabaseNotFound { path } => headed("Database not found: ", path.as_str()),
            CozoError::InvalidConfiguration { message } => headed(
                "Invalid configuration: ",
                message.as_str(),
            ),
            CozoError::SerializationFailed { message } => headed(
                "Serialization failed: ",
                message.as_str(),
            ),
            CozoError::Internal { message } => headed("Internal error: ", message.as_str()),
        }
    }

    /// A probe or an attempt to connect failed, for the reason in `message`.
    pub fn connection_failed(message: &str) -> (e: CozoError)
        ensures
            e@ == (CozoErrorView::ConnectionFailed { message: message@ }),
    {
        CozoError::ConnectionFailed { message: message.to_owned() }
    }

    /// The operation described by `query` failed, for the reason in `message`.
    pub fn query_failed(message: &str, query: &str) -> (e: CozoError)
        ensures
            e@ == (CozoErrorView::QueryFailed { message: message@, query: query@ }),
    {
        CozoError::QueryFailed { message: message.to_owned(), query: query.to_owned() }
    }

    /// A transaction failed, for the reason in `message`.
    pub fn transaction_failed(message: &str) -> (e: CozoError)
        ensures
            e@ == (CozoErrorView::TransactionFailed { message: message@ }),
    {
        CozoError::TransactionFailed { message: message.to_owned() }
    }

    /// `used` of the `limit` units of `resource` are taken and one more was
    /// asked for.
    pub fn resource_limit_exhausted(resource: &str, used: usize, limit: usize) -> (e: CozoError)
        ensures
            e@ == (CozoErrorView::ResourceLimitExhausted { resource: resource@, used, limit }),
    {
        CozoError::ResourceLimitExhausted { resource: resource.to_owned(), used, limit }
    }

    /// No database exists at `path`.
    pub fn database_not_found(path: &str) -> (e: CozoError)
        ensures
            e@ == (CozoErrorView::DatabaseNotFound { path: path@ }),
    {
        CozoError::DatabaseNotFound { path: path.to_owned() }
    }

    /// A configuration value was refused, for the reason in `message`.
    pub fn invalid_configuration(message: &str) -> (e: CozoError)
        ensures
            e@ == (CozoErrorView::InvalidConfiguration { message: message@ }),
    {
        CozoError::InvalidConfiguration { message: message.to_owned() }
    }

    /// A value could not be serialised, for the reason in `message`.
    pub fn serialization_failed(message: &str) -> (e: CozoError)
        ensures
            e@ == (CozoErrorView::SerializationFailed { message: message@ }),
    {
        CozoError::SerializationFailed { message: message.to_owned() }
    }

    /// An invariant of this library was found broken; `message` says which.
    pub fn internal(message: &str) -> (e: CozoError)
        ensures
            e@ == (CozoErrorView::Internal { message: message@ }),
    {
        CozoError::Internal { message: message.to_owned() }
    }
}

/// What this library's fallible functions return.
pub type CozoResult<T> = Result<T, CozoError>;

} // verus!
