use vstd::prelude::*;

verus! {

/// An error from the protocol engine or from a storage backend.
///
/// This type represents only circumstances outside the realm of the protocol, not the specific
/// results described by the protocol (those are ordinary return values).
#[derive(Debug, Clone, PartialEq, Eq)]
pub enum ServerError {
    /// There is no client with the given client id.
    NoSuchClient,
    /// Any other failure, carrying a short description.
    Other(String),
}

impl ServerError {
    /// A short, human-readable description of this error.
    pub fn message(&self) -> (r: String)
        ensures
            self is NoSuchClient ==> r@ == "No such client"@,
            self matches ServerError::Other(m) ==> r@ == m@,
    {
        match self {
            ServerError::NoSuchClient => {
                proof {
                    reveal_strlit("No such client");
                }
                "No such client".to_owned()
            },
            ServerError::Other(m) => m.clone(),
        }
    }

    /// True if this is the "no such client" error.
    pub fn is_no_such_client(&self) -> (r: bool)
        ensures
            r == (self is NoSuchClient),
    {
        match self {
            ServerError::NoSuchClient => true,
            ServerError::Other(_) => false,
        }
    }
}

/// Build an [`ServerError::Other`] from a fixed description.
pub fn other_error(msg: &str) -> (r: ServerError)
    ensures
        r matches ServerError::Other(m) && m@ == msg@,
{
    ServerError::Other(msg.to_owned())
}

} // verus!
