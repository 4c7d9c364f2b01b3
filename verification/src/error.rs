//! What can go wrong while a file is watched.
use vstd::prelude::*;
use vstd::string::to_string_from_display_ensures;

use notify::Error as NotifyError;

verus! {

/// `notify::Error`, carried through as it came.
#[verifier::external_type_specification]
#[verifier::external_body]
pub struct ExNotifyError(NotifyError);

/// The ways in which watching a file fails.
#[derive(Debug)]
pub enum Error {
    /// The path cannot be watched; the text says why.
    InvalidPath(String),
    /// The file watcher could not be created or started.
    WatchError(NotifyError),
    /// The file watcher has stopped and will report no more changes.
    WatcherStopped,
    /// The file (first text) does not decode; the second text says why.
    DecodeError(String, String),
}

/// An error as contracts speak of it.
pub enum Fault {
    InvalidPath(Seq<char>),
    WatchError(NotifyError),
    WatcherStopped,
    DecodeError(Seq<char>, Seq<char>),
}

impl View for Error {
    type V = Fault;

    open spec fn view(&self) -> Fault {
        match *self {
            Error::InvalidPath(reason) => Fault::InvalidPath(reason@),
            Error::WatchError(err) => Fault::WatchError(err),
            Error::WatcherStopped => Fault::WatcherStopped,
            Error::DecodeError(path, reason) => Fault::DecodeError(path@, reason@),
        }
    }
}

impl From<NotifyError> for Error {
    fn from(err: NotifyError) -> (error: Self) {
        Error::WatchError(err)
    }
}

impl vstd::std_specs::convert::FromSpecImpl<NotifyError> for Error {
    open spec fn obeys_from_spec() -> bool {
        true
    }

    open spec fn from_spec(err: NotifyError) -> Self {
        Error::WatchError(err)
    }
}

/// Contracts see an error with all that it says.
pub proof fn law_error_is_seen(path: String, reason: String, err: NotifyError)
    ensures
        Error::InvalidPath(reason)@ == Fault::InvalidPath(reason@),
        Error::WatchError(err)@ == Fault::WatchError(err),
        Error::WatcherStopped@ == Fault::WatcherStopped,
        Error::DecodeError(path, reason)@ == Fault::DecodeError(path@, reason@),
{
}

/// An error of the watcher is passed on within the error that it becomes.
pub proof fn law_watch_error_is_passed_on(err: NotifyError)
    ensures
        <Error as vstd::std_specs::convert::FromSpec<NotifyError>>::from_spec(err)
            == Error::WatchError(err),
{
}

impl Error {
    /// The text of the error as a user reads it.
    pub fn message(&self) -> (text: String)
        ensures
            match *self {
                Error::InvalidPath(path) => text@ == "Invalid path to watch: "@ + path@,
                Error::WatchError(err) => exists|shown: String|
                    #[trigger] to_string_from_display_ensures(&err, shown) && text@
                        == "Error creating watch: "@ + shown@,
                Error::WatcherStopped => text@ == "Watcher stopped watching"@,
                Error::DecodeError(path, reason) => text@ == "Error decoding file: "@ + path@
                    + " "@ + reason@,
            },
    {
        match self {
            Error::InvalidPath(path) => {
                "Invalid path to watch: ".to_owned().concat(path.as_str())
            },
            Error::WatchError(err) => {
                let shown = err.to_string();
                "Error creating watch: ".to_owned().concat(shown.as_str())
            },
            Error::WatcherStopped => "Watcher stopped watching".to_owned(),
            Error::DecodeError(path, reason) => {
                "Error decoding file: ".to_owned().concat(path.as_str()).concat(" ").concat(
                    reason.as_str(),
                )
            },
        }
    }
}

} // verus!
