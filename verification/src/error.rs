//! What can go wrong, and how a failure is reported to the client.

use vstd::prelude::*;

verus! {

/// The failures of the store and of the request boundary.
#[derive(Debug, Clone, Copy, PartialEq, Eq, Structural)]
pub enum BlogError {
    /// The backing storage could not be set up.
    StorageInitError,
    /// A record could not be written.
    StorageWriteError,
    /// The records could not be read.
    StorageReadError,
    /// An image could not be written.
    ImagePersistError,
    /// A required text is missing or empty, or an attached image has no bytes.
    MalformedRequest,
}

/// Who is to blame for a failure.
#[derive(Debug, Clone, Copy, PartialEq, Eq, Structural)]
pub enum Fault {
    /// The request was bad; sending it again unchanged will fail again.
    Client,
    /// The service failed; nothing was wrong with the request.
    Server,
}

/// The status of a response.
#[derive(Debug, Clone, Copy, PartialEq, Eq, Structural)]
pub enum Status {
    Success,
    BadRequest,
    NotFound,
    InternalServerError,
}

impl BlogError {
    /// Only a malformed request is the client's fault.
    pub open spec fn fault_of(self) -> Fault {
        if self == BlogError::MalformedRequest {
            Fault::Client
        } else {
            Fault::Server
        }
    }

    /// Who is to blame for this failure.
    pub fn fault(&self) -> (fault: Fault)
        ensures
            fault == self.fault_of(),
    {
        match self {
            BlogError::MalformedRequest => Fault::Client,
            _ => Fault::Server,
        }
    }

    /// The status that reports this failure.
    pub open spec fn status_of(self) -> Status {
        match self.fault_of() {
            Fault::Client => Status::BadRequest,
            Fault::Server => Status::InternalServerError,
        }
    }

    /// The status that reports this failure: a client fault is a bad request,
    /// a server fault an internal error that tells nothing of the storage.
    pub fn status(&self) -> (status: Status)
        ensures
            status == self.status_of(),
    {
        match self.fault() {
            Fault::Client => Status::BadRequest,
            Fault::Server => Status::InternalServerError,
        }
    }
}

impl Status {
    /// The numeric code of a status.
    pub open spec fn code_of(self) -> u16 {
        match self {
            Status::Success => 200,
            Status::BadRequest => 400,
            Status::NotFound => 404,
            Status::InternalServerError => 500,
        }
    }

    /// The numeric code under which the status is sent.
    pub fn code(&self) -> (code: u16)
        ensures
            code == self.code_of(),
    {
        match self {
            Status::Success => 200,
            Status::BadRequest => 400,
            Status::NotFound => 404,
            Status::InternalServerError => 500,
        }
    }
}

} // verus!
