//! Controller errors: a kind and a description, shown as `Kind: description`.
use vstd::prelude::*;
use vstd::string::StringExecFns;

verus! {

/// All possible error kinds.
#[derive(Debug, Copy, Clone, PartialEq, Eq, Structural)]
pub enum ErrorKind {
    /// Errors caused by the discovery process.
    Discovery,
    /// Errors caused by sending requests to a device.
    Request,
    /// Errors caused by a wrong input parameter.
    WrongParameter,
    /// Errors in receiving a json response.
    JsonResponse,
    /// Errors in receiving a bytes stream response.
    StreamResponse,
    /// Errors in building the mechanism to send a request to a device.
    Sender,
    /// Errors related to event management.
    Events,
}

impl ErrorKind {
    /// The text that names the kind.
    pub open spec fn text(self) -> Seq<char> {
        match self {
            ErrorKind::Discovery => "Discovery"@,
            ErrorKind::Request => "Request"@,
            ErrorKind::WrongParameter => "Wrong Parameter"@,
            ErrorKind::JsonResponse => "Json Response"@,
            ErrorKind::StreamResponse => "Stream Response"@,
            ErrorKind::Sender => "Response Sender"@,
            ErrorKind::Events => "Events"@,
        }
    }

    /// Returns the text that names the kind.
    pub fn description(self) -> (text: &'static str)
        ensures
            text@ == self.text(),
    {
        match self {
            ErrorKind::Discovery => "Discovery",
            ErrorKind::Request => "Request",
            ErrorKind::WrongParameter => "Wrong Parameter",
            ErrorKind::JsonResponse => "Json Response",
            ErrorKind::StreamResponse => "Stream Response",
            ErrorKind::Sender => "Response Sender",
            ErrorKind::Events => "Events",
        }
    }
}

/// Controller error.
pub struct Error {
    kind: ErrorKind,
    description: String,
}

impl Error {
    /// The kind of the error.
    pub closed spec fn spec_kind(&self) -> ErrorKind {
        self.kind
    }

    /// The description of the error.
    pub closed spec fn spec_description(&self) -> Seq<char> {
        self.description@
    }

    /// How the error is shown: its kind, a colon, a space and its description.
    pub open spec fn shown(&self) -> Seq<char> {
        self.spec_kind().text() + ": "@ + self.spec_description()
    }

    /// Creates an [`Error`] from an [`ErrorKind`] and a description.
    pub fn new(kind: ErrorKind, description: &str) -> (error: Self)
        ensures
            error.spec_kind() == kind,
            error.spec_description() == description@,
    {
        Error { kind, description: String::from_str(description) }
    }

    /// Returns the error kind.
    pub fn kind(&self) -> (kind: ErrorKind)
        ensures
            kind == self.spec_kind(),
    {
        self.kind
    }

    /// Returns the error description.
    pub fn description(&self) -> (description: &str)
        ensures
            description@ == self.spec_description(),
    {
        self.description.as_str()
    }

    /// Writes the error as its kind, a colon, a space and its description.
    pub fn format(&self) -> (text: String)
        ensures
            text@ == self.shown(),
    {
        let mut text = String::from_str(self.kind.description());
        text.append(": ");
        text.append(self.description.as_str());
        text
    }

    /// The error as text, as `Display` would show it.
    pub fn to_string(&self) -> (text: String)
        ensures
            text@ == self.shown(),
    {
        self.format()
    }
}

} // verus!
