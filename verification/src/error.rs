use vstd::prelude::*;

verus! {

/// An error of the client, carrying its message.
#[derive(Clone, Debug)]
pub struct ClientError {
    message: String,
}

impl View for ClientError {
    type V = Seq<char>;

    closed spec fn view(&self) -> Seq<char> {
        self.message@
    }
}

/// What every call of the client returns.
pub type ClientResult<T> = Result<T, ClientError>;

impl ClientError {
    pub fn new(message: String) -> (e: ClientError)
        ensures
            e@ == message@,
    {
        ClientError { message }
    }

    pub fn from_str(message: &str) -> (e: ClientError)
        ensures
            e@ == message@,
    {
        ClientError { message: message.to_owned() }
    }

    /// The message of the error, as text.
    pub fn to_message(&self) -> (s: String)
        ensures
            s@ == self@,
    {
        self.message.clone()
    }
}

} // verus!
