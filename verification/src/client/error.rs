//! Errors of the price provider's client.

use vstd::prelude::*;
use crate::client::cg_model::CGTokenData;
use crate::text::{decimal_text, u64_to_text};

verus! {

/// What can go wrong when asking the provider for rates.
#[derive(Debug)]
pub enum ClientError {
    /// The request could not be sent or its reply could not be read.
    HttpError(String),
    Unauthorized,
    RateLimited,
    NotFound,
    /// The provider replied with an unexpected status code.
    Unexpected(u16),
    /// The provider quoted no price for a token.
    MissingAssetRateError(CGTokenData),
}

/// The error that a reply's HTTP status stands for; `None` for 200 OK.
pub open spec fn status_error(code: u16) -> Option<ClientError> {
    if code == 200 {
        None
    } else if code == 401 {
        Some(ClientError::Unauthorized)
    } else if code == 404 {
        Some(ClientError::NotFound)
    } else if code == 429 {
        Some(ClientError::RateLimited)
    } else {
        Some(ClientError::Unexpected(code))
    }
}

/// The message of each error.
pub open spec fn client_error_text(e: ClientError) -> Seq<char> {
    match e {
        ClientError::HttpError(s) => "HTTP error: "@ + s@,
        ClientError::Unauthorized => "ClientError: unauthorized, check your API key"@,
        ClientError::RateLimited => "ClientError: rate limited"@,
        ClientError::NotFound => "ClientError: not found"@,
        ClientError::Unexpected(code) => "ClientError: unexpected error "@ + decimal_text(code as nat),
        ClientError::MissingAssetRateError(d) => "ClientError: no rate for "@ + d.attributes.symbol.0@ + "("@
            + d.attributes.address.0@ + ")"@,
    }
}

impl ClientError {
    /// The error's message.
    pub fn to_text(&self) -> (t: String)
        ensures
            t@ == client_error_text(*self),
    {
        match self {
            ClientError::HttpError(s) => {
                let mut t = "HTTP error: ".to_owned();
                t.append(s.as_str());
                t
            },
            ClientError::Unauthorized => "ClientError: unauthorized, check your API key".to_owned(),
            ClientError::RateLimited => "ClientError: rate limited".to_owned(),
            ClientError::NotFound => "ClientError: not found".to_owned(),
            ClientError::Unexpected(code) => {
                let mut t = "ClientError: unexpected error ".to_owned();
                let n = u64_to_text(*code as u64);
                t.append(n.as_str());
                t
            },
            ClientError::MissingAssetRateError(d) => {
                let mut t = "ClientError: no rate for ".to_owned();
                t.append(d.attributes.symbol.0.as_str());
                t.append("(");
                t.append(d.attributes.address.0.as_str());
                t.append(")");
                t
            },
        }
    }

    /// The error that a reply's HTTP status stands for, or `None` when the
    /// status is 200 OK and the reply carries rates.
    pub fn from_status(code: u16) -> (r: Option<ClientError>)
        ensures
            r == status_error(code),
    {
        if code == 200 {
            None
        } else if code == 401 {
            Some(ClientError::Unauthorized)
        } else if code == 404 {
            Some(ClientError::NotFound)
        } else if code == 429 {
            Some(ClientError::RateLimited)
        } else {
            Some(ClientError::Unexpected(code))
        }
    }
}

} // verus!
