//! HTTP status codes as the statistics see them.

use vstd::prelude::*;

verus! {

/// An HTTP status code.
#[derive(Clone, Copy, Debug, PartialEq, Eq, Structural)]
pub struct StatusCode {
    code: u16,
}

impl View for StatusCode {
    type V = u16;

    closed spec fn view(&self) -> u16 {
        self.code
    }
}

/// `reqwest::StatusCode::from_u16` takes the numbers from 100 to 999 and no others.
#[verifier::external_body]
fn is_status_code(code: u16) -> (accepted: bool)
    ensures
        accepted == (100 <= code <= 999),
{
    reqwest::StatusCode::from_u16(code).is_ok()
}

/// `reqwest::StatusCode::is_success` holds of the status codes from 200 to 299.
#[verifier::external_body]
fn is_success(code: u16) -> (holds: bool)
    ensures
        holds == (200 <= code <= 299),
{
    match reqwest::StatusCode::from_u16(code) {
        Ok(status) => status.is_success(),
        Err(_) => false,
    }
}

/// `reqwest::StatusCode::is_redirection` holds of the status codes from 300 to 399.
#[verifier::external_body]
fn is_redirection(code: u16) -> (holds: bool)
    ensures
        holds == (300 <= code <= 399),
{
    match reqwest::StatusCode::from_u16(code) {
        Ok(status) => status.is_redirection(),
        Err(_) => false,
    }
}

/// `reqwest::StatusCode::is_client_error` holds of the status codes from 400 to 499.
#[verifier::external_body]
fn is_client_error(code: u16) -> (holds: bool)
    ensures
        holds == (400 <= code <= 499),
{
    match reqwest::StatusCode::from_u16(code) {
        Ok(status) => status.is_client_error(),
        Err(_) => false,
    }
}

/// `reqwest::StatusCode::is_server_error` holds of the status codes from 500 to 599.
#[verifier::external_body]
fn is_server_error(code: u16) -> (holds: bool)
    ensures
        holds == (500 <= code <= 599),
{
    match reqwest::StatusCode::from_u16(code) {
        Ok(status) => status.is_server_error(),
        Err(_) => false,
    }
}

impl StatusCode {
    #[verifier::type_invariant]
    spec fn in_range(self) -> bool {
        100 <= self.code <= 999
    }

    /// The status code with the given number, if there is one.
    pub fn from_u16(code: u16) -> (status: Option<StatusCode>)
        ensures
            status is Some <==> 100 <= code <= 999,
            status matches Some(s) ==> s@ == code,
    {
        if is_status_code(code) {
            Some(StatusCode { code })
        } else {
            None
        }
    }

    /// The number of this status code.
    pub fn as_u16(&self) -> (code: u16)
        ensures
            code == self@,
            100 <= code <= 999,
    {
        proof {
            use_type_invariant(self);
        }
        self.code
    }

    /// Whether the status code is a 2xx.
    pub fn is_success(&self) -> (holds: bool)
        ensures
            holds == (200 <= self@ <= 299),
    {
        is_success(self.code)
    }

    /// Whether the status code is a 3xx.
    pub fn is_redirection(&self) -> (holds: bool)
        ensures
            holds == (300 <= self@ <= 399),
    {
        is_redirection(self.code)
    }

    /// Whether the status code is a 4xx.
    pub fn is_client_error(&self) -> (holds: bool)
        ensures
            holds == (400 <= self@ <= 499),
    {
        is_client_error(self.code)
    }

    /// Whether the status code is a 5xx.
    pub fn is_server_error(&self) -> (holds: bool)
        ensures
            holds == (500 <= self@ <= 599),
    {
        is_server_error(self.code)
    }
}

} // verus!
