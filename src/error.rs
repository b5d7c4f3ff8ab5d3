use vstd::prelude::*;

verus! {

/// The closed set of failures that operations of this crate report.
#[derive(Debug)]
pub enum Error {
    /// A parameter could not be turned into a dynamic value.
    ParameterEncoding(String),
    /// The host refused the parameters bound to a statement.
    BindRejected(String),
    /// The host boundary itself failed, or answered with a malformed reply.
    HostExecution(String),
    /// A dynamic value did not have the shape that the requested type expects.
    Decoding(String),
}

impl Error {
    /// Builds the error for a reply of the host that has not the expected shape.
    pub fn malformed(what: &str) -> (r: Error)
        ensures
            r is HostExecution,
    {
        let mut message = "malformed reply from the host: ".to_owned();
        message.append(what);
        Error::HostExecution(message)
    }

    /// The diagnostic text carried by the error.
    pub fn message(&self) -> (r: &str)
        ensures
            r@ == match self {
                Error::ParameterEncoding(m) => m@,
                Error::BindRejected(m) => m@,
                Error::HostExecution(m) => m@,
                Error::Decoding(m) => m@,
            },
    {
        match self {
            Error::ParameterEncoding(m) => m.as_str(),
            Error::BindRejected(m) => m.as_str(),
            Error::HostExecution(m) => m.as_str(),
            Error::Decoding(m) => m.as_str(),
        }
    }
}

} // verus!
