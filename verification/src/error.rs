//! The ways in which a request to the rate service can fail.

use vstd::prelude::*;
use vstd::string::StringExecFns;

use crate::text::{decimal, decimal_text};

verus! {

/// What the rate service said when it refused a request: the HTTP status of
/// its reply and the message in the reply's body.
#[derive(Debug)]
pub struct ExchangeRequestError {
    pub status_code: u16,
    pub error_message: String,
}

/// The line that reports a refusal with the given status and message.
pub open spec fn refusal_text(status_code: u16, error_message: Seq<char>) -> Seq<char> {
    "Received an error in exchange rate request, got status "@ + decimal(status_code as nat)
        + ": "@ + error_message
}

impl Clone for ExchangeRequestError {
    fn clone(&self) -> (copy: ExchangeRequestError)
        ensures
            copy.status_code == self.status_code,
            copy.error_message@ == self.error_message@,
    {
        ExchangeRequestError {
            status_code: self.status_code,
            error_message: self.error_message.clone(),
        }
    }
}

impl ExchangeRequestError {
    /// The refusal with the given status and message.
    pub fn new(status_code: u16, error_message: String) -> (error: ExchangeRequestError)
        ensures
            error.status_code == status_code,
            error.error_message@ == error_message@,
    {
        ExchangeRequestError { status_code, error_message }
    }

    /// The line that reports this refusal.
    pub fn to_string(&self) -> (text: String)
        ensures
            text@ == refusal_text(self.status_code, self.error_message@),
    {
        let mut text: String = String::from_str(
            "Received an error in exchange rate request, got status ",
        );
        let number: String = decimal_text(self.status_code);
        text.append(number.as_str());
        text.append(": ");
        text.append(self.error_message.as_str());
        text
    }
}

/// Why a request gave no result.
#[derive(Debug)]
pub enum ClientError {
    /// The service could not be reached; the text says what went wrong.
    Transport(String),
    /// The body of the reply did not have the expected shape; the text says
    /// what was wrong with it.
    Decode(String),
    /// The service refused the request.
    Api(ExchangeRequestError),
    /// The service answered with a snapshot that lists no rate at all.
    EmptyRates,
}

/// A [`ClientError`] with its texts as sequences of characters.
pub enum Failure {
    Transport(Seq<char>),
    Decode(Seq<char>),
    Api(u16, Seq<char>),
    EmptyRates,
}

impl View for ClientError {
    type V = Failure;

    open spec fn view(&self) -> Failure {
        match self {
            ClientError::Transport(detail) => Failure::Transport(detail@),
            ClientError::Decode(detail) => Failure::Decode(detail@),
            ClientError::Api(error) => Failure::Api(error.status_code, error.error_message@),
            ClientError::EmptyRates => Failure::EmptyRates,
        }
    }
}

impl Failure {
    /// The line that reports the failure.
    pub open spec fn text(self) -> Seq<char> {
        match self {
            Failure::Transport(detail) => detail,
            Failure::Decode(detail) => detail,
            Failure::Api(status_code, error_message) => refusal_text(status_code, error_message),
            Failure::EmptyRates => "The exchange rate response lists no rates"@,
        }
    }
}

impl ClientError {
    /// The line that reports this failure.
    pub fn to_string(&self) -> (text: String)
        ensures
            text@ == self@.text(),
    {
        match self {
            ClientError::Transport(detail) => detail.clone(),
            ClientError::Decode(detail) => detail.clone(),
            ClientError::Api(error) => error.to_string(),
            ClientError::EmptyRates => String::from_str(
                "The exchange rate response lists no rates",
            ),
        }
    }
}

} // verus!
