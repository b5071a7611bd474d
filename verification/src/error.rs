use vstd::prelude::*;
use vstd::string::StringExecFns;

verus! {

/// Status codes by which the API reports a failed call.
pub const BAD_REQUEST: u16 = 400;

pub const PAYMENT_REQUIRED: u16 = 402;

pub const FORBIDDEN: u16 = 403;

pub const NOT_FOUND: u16 = 404;

pub const TOO_MANY_REQUESTS: u16 = 429;

pub const INTERNAL_SERVER_ERROR: u16 = 500;

/// The sentence shown for each error kind that holds no message of its own.
pub const INVALID_REQUEST_TEXT: &'static str =
    "The server could not process the request due to invalid request parameters or invalid format of the parameters.";

pub const INSUFFICIENT_PLAN_TEXT: &'static str =
    "The request could not be processed because of the user has an insufficient plan. If you want to be able to process this request, get a higher plan.";

pub const INVALID_API_KEY_TEXT: &'static str =
    "The request could not be processed due to invalid API key.";

pub const INVALID_PARAMETER_TEXT: &'static str =
    "The server could not process the request due to invalid URL or invalid path parameter.";

pub const RATE_LIMIT_TEXT: &'static str =
    "The rate limit has been exceeded. Reduce the frequency of requests to avoid this error.";

pub const INTERNAL_SERVER_ERROR_TEXT: &'static str = "An unexpected server error has occured.";

pub const API_CONNECTION_TEXT: &'static str = "Fail to connect to API.";

/// Everything a call to the API can fail with.
#[derive(Debug, PartialEq, Eq)]
pub enum Error {
    /// 400: the request parameters were invalid or badly formatted.
    InvalidRequestError,
    /// 402: the plan of the caller does not cover this endpoint.
    InsufficientPlan,
    /// 403: the API key was not accepted.
    InvalidApiKey,
    /// 404: the URL or a path parameter named nothing.
    InvalidParameter,
    /// 429: the rate limit was exceeded.
    RateLimitError,
    /// 500: the server failed unexpectedly.
    InternalServerError,
    /// The API could not be reached, retries included.
    ApiConnectionError,
    /// Any other failure of the HTTP client, with the client's own message.
    Reqwest(String),
    /// The response body was not the JSON that the endpoint promises; holds
    /// the parser's diagnostic.
    Json(String),
}

/// What the transport reports when a request brought no response.
#[derive(Debug, PartialEq, Eq)]
pub enum TransportFailure {
    /// The retry layer around the HTTP client failed.
    Middleware,
    /// The HTTP client failed: whether it could not connect, whether it timed
    /// out, and its message.
    Reqwest { connect: bool, timeout: bool, message: String },
}

/// The error kind that a status code stands for, if it stands for one.
pub open spec fn status_error(status: u16) -> Option<Error> {
    if status == BAD_REQUEST {
        Some(Error::InvalidRequestError)
    } else if status == PAYMENT_REQUIRED {
        Some(Error::InsufficientPlan)
    } else if status == FORBIDDEN {
        Some(Error::InvalidApiKey)
    } else if status == NOT_FOUND {
        Some(Error::InvalidParameter)
    } else if status == TOO_MANY_REQUESTS {
        Some(Error::RateLimitError)
    } else if status == INTERNAL_SERVER_ERROR {
        Some(Error::InternalServerError)
    } else {
        None
    }
}

/// The error kind that a transport failure is reported as: a failure to
/// connect, a timeout and a failure of the retry layer all mean that the API
/// could not be reached; anything else keeps the client's message.
pub open spec fn failure_error(failure: TransportFailure) -> Error {
    match failure {
        TransportFailure::Middleware => Error::ApiConnectionError,
        TransportFailure::Reqwest { connect, timeout, message } => if connect || timeout {
            Error::ApiConnectionError
        } else {
            Error::Reqwest(message)
        },
    }
}

impl Error {
    /// The text shown for this error.
    pub open spec fn description_spec(self) -> Seq<char> {
        match self {
            Error::InvalidRequestError => INVALID_REQUEST_TEXT@,
            Error::InsufficientPlan => INSUFFICIENT_PLAN_TEXT@,
            Error::InvalidApiKey => INVALID_API_KEY_TEXT@,
            Error::InvalidParameter => INVALID_PARAMETER_TEXT@,
            Error::RateLimitError => RATE_LIMIT_TEXT@,
            Error::InternalServerError => INTERNAL_SERVER_ERROR_TEXT@,
            Error::ApiConnectionError => API_CONNECTION_TEXT@,
            Error::Reqwest(message) => message@,
            Error::Json(message) => message@,
        }
    }

    /// Classifies a received status code: each of the six codes of the API's
    /// error table gives its error kind, every other code gives `None`.
    pub fn from_status(status: u16) -> (r: Option<Error>)
        ensures
            r == status_error(status),
    {
        if status == BAD_REQUEST {
            Some(Error::InvalidRequestError)
        } else if status == PAYMENT_REQUIRED {
            Some(Error::InsufficientPlan)
        } else if status == FORBIDDEN {
            Some(Error::InvalidApiKey)
        } else if status == NOT_FOUND {
            Some(Error::InvalidParameter)
        } else if status == TOO_MANY_REQUESTS {
            Some(Error::RateLimitError)
        } else if status == INTERNAL_SERVER_ERROR {
            Some(Error::InternalServerError)
        } else {
            None
        }
    }

    /// Classifies a request that brought no response.
    pub fn from_failure(failure: TransportFailure) -> (r: Error)
        ensures
            r == failure_error(failure),
    {
        match failure {
            TransportFailure::Middleware => Error::ApiConnectionError,
            TransportFailure::Reqwest { connect, timeout, message } => {
                if connect || timeout {
                    Error::ApiConnectionError
                } else {
                    Error::Reqwest(message)
                }
            },
        }
    }

    /// Concludes a call whose response body was read: the record that the
    /// body decoded to, whole, or else the decoding failure, which keeps the
    /// parser's diagnostic and is no other kind of error.
    pub fn decoded<T>(outcome: Result<T, String>) -> (r: Result<T, Error>)
        ensures
            r == match outcome {
                Ok(record) => Ok::<T, Error>(record),
                Err(diagnostic) => Err(Error::Json(diagnostic)),
            },
    {
        match outcome {
            Ok(record) => Ok(record),
            Err(diagnostic) => Err(Error::Json(diagnostic)),
        }
    }

    /// A fixed, human-readable sentence for each error kind; for a client or
    /// decoding failure, the diagnostic that the variant holds.
    pub fn description(&self) -> (r: String)
        ensures
            r@ == self.description_spec(),
    {
        match self {
            Error::InvalidRequestError => String::from_str(INVALID_REQUEST_TEXT),
            Error::InsufficientPlan => String::from_str(INSUFFICIENT_PLAN_TEXT),
            Error::InvalidApiKey => String::from_str(INVALID_API_KEY_TEXT),
            Error::InvalidParameter => String::from_str(INVALID_PARAMETER_TEXT),
            Error::RateLimitError => String::from_str(RATE_LIMIT_TEXT),
            Error::InternalServerError => String::from_str(INTERNAL_SERVER_ERROR_TEXT),
            Error::ApiConnectionError => String::from_str(API_CONNECTION_TEXT),
            Error::Reqwest(message) => message.clone(),
            Error::Json(message) => message.clone(),
        }
    }
}

} // verus!
