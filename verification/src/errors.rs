//! The errors that the service's logic reports.

use vstd::prelude::*;
use vstd::std_specs::convert::FromSpecImpl;

verus! {

/// Why a token or a key could not be read from its transported form.
#[derive(Debug, Clone, Copy, PartialEq, Eq, Structural)]
pub enum DecodingError {
    /// The text is not base64.
    Base64,
    /// The bytes are too few, or for a key not exactly as many as a key has.
    Length,
    /// The bytes where a signature stands are not the encoding of one.
    Signature,
    /// The bytes are not the encoding of a keypair.
    KeyPair,
}

#[derive(Debug, Clone, Copy, PartialEq, Eq, Structural)]
pub enum ServiceError {
    /// The caller did not prove who they are: a token expired or its
    /// signature did not verify, or a password did not match.
    Unauthorized,
    /// The entity asked for does not exist.
    NotFound,
    /// The entity to create exists already.
    AlreadyExists,
    /// What was transported could not be decoded.
    Decoding(DecodingError),
    /// A password could not be hashed.
    Hashing,
}

impl From<base64::DecodeError> for ServiceError {
    fn from(e: base64::DecodeError) -> (r: Self) {
        ServiceError::Decoding(DecodingError::Base64)
    }
}

impl FromSpecImpl<base64::DecodeError> for ServiceError {
    open spec fn obeys_from_spec() -> bool {
        true
    }

    open spec fn from_spec(e: base64::DecodeError) -> Self {
        ServiceError::Decoding(DecodingError::Base64)
    }
}

/// The HTTP status codes that the service answers failures with.
pub const BAD_REQUEST: u16 = 400;

pub const UNAUTHORIZED: u16 = 401;

pub const NOT_FOUND: u16 = 404;

pub const METHOD_NOT_ALLOWED: u16 = 405;

pub const CONFLICT: u16 = 409;

pub const INTERNAL_SERVER_ERROR: u16 = 500;

/// What a failed request is answered with: a status code and a line of text.
#[derive(Debug)]
pub struct ErrMsg {
    pub statuscode: u16,
    pub message: String,
}

/// The status code that an error is answered with.
pub open spec fn status_of(e: ServiceError) -> u16 {
    match e {
        ServiceError::Unauthorized => UNAUTHORIZED,
        ServiceError::AlreadyExists => CONFLICT,
        ServiceError::NotFound => NOT_FOUND,
        _ => INTERNAL_SERVER_ERROR,
    }
}

/// The text that an error is answered with.
pub open spec fn message_of(e: ServiceError) -> Seq<char> {
    match e {
        ServiceError::Unauthorized => "Unauthorized "@,
        ServiceError::AlreadyExists => "Already exists"@,
        ServiceError::NotFound => "Entity not found"@,
        _ => "UNHANDLED_REJECTION"@,
    }
}

/// The status code that a bare status is answered with: itself where the
/// service has a text for it, and 500 where it has none.
pub open spec fn status_of_status(sc: u16) -> u16 {
    if sc == UNAUTHORIZED || sc == METHOD_NOT_ALLOWED {
        sc
    } else {
        INTERNAL_SERVER_ERROR
    }
}

/// The text that a bare status is answered with.
pub open spec fn message_of_status(sc: u16) -> Seq<char> {
    if sc == UNAUTHORIZED {
        "Unauthorized"@
    } else if sc == METHOD_NOT_ALLOWED {
        "Method not Allowed"@
    } else {
        "UNHANDLED_REJECTION"@
    }
}

impl ErrMsg {
    pub fn new(code: u16, msg: &str) -> (r: Self)
        ensures
            r.statuscode == code,
            r.message@ == msg@,
    {
        ErrMsg { statuscode: code, message: msg.to_owned() }
    }

    /// The answer to an error of the service.
    pub fn from_error(e: &ServiceError) -> (r: Self)
        ensures
            r.statuscode == status_of(*e),
            r.message@ == message_of(*e),
    {
        match e {
            ServiceError::Unauthorized => ErrMsg::new(UNAUTHORIZED, "Unauthorized "),
            ServiceError::AlreadyExists => ErrMsg::new(CONFLICT, "Already exists"),
            ServiceError::NotFound => ErrMsg::new(NOT_FOUND, "Entity not found"),
            _ => ErrMsg::new(INTERNAL_SERVER_ERROR, "UNHANDLED_REJECTION"),
        }
    }

    /// The answer to a failure of which only the status is known.
    pub fn from_status(sc: u16) -> (r: Self)
        ensures
            r.statuscode == status_of_status(sc),
            r.message@ == message_of_status(sc),
    {
        if sc == UNAUTHORIZED {
            ErrMsg::new(sc, "Unauthorized")
        } else if sc == METHOD_NOT_ALLOWED {
            ErrMsg::new(sc, "Method not Allowed")
        } else {
            ErrMsg::new(INTERNAL_SERVER_ERROR, "UNHANDLED_REJECTION")
        }
    }

    /// The answer to a request that the routing layer turned down, given what
    /// the rejection holds: whether no route matched, the service's error if
    /// it carries one, and whether the method was not allowed. The first of
    /// these that applies decides; where none does the answer is a 500.
    pub fn from_rejection(
        not_found: bool,
        service_error: Option<&ServiceError>,
        method_not_allowed: bool,
    ) -> (r: Self)
        ensures
            r.statuscode == if not_found {
                NOT_FOUND
            } else if let Some(e) = service_error {
                status_of(*e)
            } else if method_not_allowed {
                METHOD_NOT_ALLOWED
            } else {
                INTERNAL_SERVER_ERROR
            },
            r.message@ == if not_found {
                "Not found"@
            } else if let Some(e) = service_error {
                message_of(*e)
            } else if method_not_allowed {
                "Method not Allowed"@
            } else {
                "UNHANDLED_REJECTION"@
            },
    {
        if not_found {
            return ErrMsg::new(NOT_FOUND, "Not found");
        }
        if let Some(service_error) = service_error {
            return ErrMsg::from_error(service_error);
        }
        if method_not_allowed {
            return ErrMsg::from_status(METHOD_NOT_ALLOWED);
        }
        ErrMsg::new(INTERNAL_SERVER_ERROR, "UNHANDLED_REJECTION")
    }
}

} // verus!
