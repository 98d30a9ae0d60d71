use vstd::prelude::*;
use vstd::string::*;

verus! {

/// Why a step of the session failed.
#[derive(Debug, Clone, Copy, PartialEq, Eq, Structural)]
pub enum WebDriverError {
    /// The driver executable could not be launched.
    SpawnError,
    /// The driver process ended while the session was still being opened.
    DriverExited,
    /// The transport failed, the driver answered with a failing status, or
    /// the answer did not have the expected shape.
    ProtocolError,
    /// A screenshot payload was not valid base64.
    DecodeError,
}

impl WebDriverError {
    /// The text that describes each failure.
    pub open spec fn spec_message(self) -> Seq<char> {
        match self {
            WebDriverError::SpawnError => "The webdriver process could not be started."@,
            WebDriverError::DriverExited => "The webdriver process has exited."@,
            WebDriverError::ProtocolError => "The webdriver reply was not understood."@,
            WebDriverError::DecodeError => "The screenshot payload is not valid base64."@,
        }
    }

    /// A human-readable description of the failure.
    pub fn message(&self) -> (r: String)
        ensures
            r@ == self.spec_message(),
    {
        match self {
            WebDriverError::SpawnError => String::from_str("The webdriver process could not be started."),
            WebDriverError::DriverExited => String::from_str("The webdriver process has exited."),
            WebDriverError::ProtocolError => String::from_str("The webdriver reply was not understood."),
            WebDriverError::DecodeError => String::from_str("The screenshot payload is not valid base64."),
        }
    }
}

} // verus!
