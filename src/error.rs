use vstd::prelude::*;

verus! {

/// The one kind of failure of this library: the setup could not be built as
/// asked. Each variant carries a message meant for the user.
#[derive(Debug)]
pub enum Error {
    /// Not a failure of the input as such: information that the user needs
    /// to choose valid input (such as the list of known setups).
    PrintUserInformation(String),
    /// The setup's name or its parameters were not valid.
    InvalidSetup(String),
}

impl Error {
    /// The user-facing message, as characters.
    pub open spec fn text(&self) -> Seq<char> {
        match self {
            Error::PrintUserInformation(m) => m@,
            Error::InvalidSetup(m) => m@,
        }
    }

    /// The message that the error carries.
    pub fn message(&self) -> (r: String)
        ensures
            r@ == self.text(),
    {
        match self {
            Error::PrintUserInformation(m) => m.clone(),
            Error::InvalidSetup(m) => m.clone(),
        }
    }
}

} // verus!
