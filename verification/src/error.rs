use vstd::prelude::*;

verus! {

/// `std::io::Error` appears as a payload of [`Error`]; it is opaque here.
#[verifier::external_type_specification]
#[verifier::external_body]
pub struct ExIoError(std::io::Error);

/// The failures that end a connection or the whole process.
#[derive(Debug)]
pub enum Error {
    /// A socket or stream failed; fatal to the one connection it came from.
    IOError(std::io::Error),
    /// The configured bind address could not be parsed; fatal at startup.
    SocketAddrParseError,
}

impl Error {
    /// A short description of the error, in place of `Display`.
    pub fn message(&self) -> (r: String)
        ensures
            r@ == (match self {
                Error::IOError(_) => "An IO Error occured"@,
                Error::SocketAddrParseError => "Can't parse host address"@,
            }),
    {
        match self {
            Error::IOError(_) => String::from_str("An IO Error occured"),
            Error::SocketAddrParseError => String::from_str("Can't parse host address"),
        }
    }
}

} // verus!
