//! A service error value built up by chaining setters over sensible
//! defaults: an unknown error code, status 500 and a generic message.

use vstd::prelude::*;

verus! {

/// An error with a machine-readable code, an HTTP-like status and a
/// human-readable message.
#[derive(Debug)]
pub struct Error {
    pub code: String,
    pub status: u16,
    pub message: String,
}

impl Default for Error {
    /// The unknown error: code `UNKNOWN`, status 500, a generic message.
    fn default() -> (e: Self)
        ensures
            e.code@ == "UNKNOWN"@,
            e.status == 500,
            e.message@ == "Unknown error has happened."@,
    {
        Error {
            code: "UNKNOWN".to_owned(),
            status: 500,
            message: "Unknown error has happened.".to_owned(),
        }
    }
}

impl Error {
    /// An error with the given code and the default status and message.
    pub fn new(code: &str) -> (e: Self)
        ensures
            e.code@ == code@,
            e.status == 500,
            e.message@ == "Unknown error has happened."@,
    {
        Error {
            code: code.to_owned(),
            status: 500,
            message: "Unknown error has happened.".to_owned(),
        }
    }

    /// Replaces the status.
    pub fn set_status(&mut self, s: u16)
        ensures
            final(self).status == s,
            final(self).code == old(self).code,
            final(self).message == old(self).message,
    {
        self.status = s;
    }

    /// Replaces the status.
    pub fn status(&mut self, s: u16)
        ensures
            final(self).status == s,
            final(self).code == old(self).code,
            final(self).message == old(self).message,
    {
        self.status = s;
    }

    /// Replaces the message.
    pub fn message(&mut self, m: &str)
        ensures
            final(self).message@ == m@,
            final(self).code == old(self).code,
            final(self).status == old(self).status,
    {
        self.message = m.to_owned();
    }

    /// Replaces the message.
    pub fn set_message(&mut self, m: &str)
        ensures
            final(self).message@ == m@,
            final(self).code == old(self).code,
            final(self).status == old(self).status,
    {
        self.message = m.to_owned();
    }
}

} // verus!
