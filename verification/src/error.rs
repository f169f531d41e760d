//! The errors of a decode, and how they read as text.

use vstd::prelude::*;
use vstd::std_specs::convert::FromSpecImpl;
use vstd::string::StringExecFns;

verus! {

/// A failure reported by the backing store, kept as the text it rendered to.
#[derive(Debug, Clone, PartialEq, Eq)]
pub struct StoreError {
    /// The store's own description of the failure.
    pub message: String,
    /// The description of the failure underneath it, where the store chained one.
    pub cause: Option<String>,
}

/// Mathematical value of a [`StoreError`].
pub struct StoreErrorView {
    pub message: Seq<char>,
    pub cause: Option<Seq<char>>,
}

impl View for StoreError {
    type V = StoreErrorView;

    open spec fn view(&self) -> StoreErrorView {
        StoreErrorView {
            message: self.message@,
            cause: match self.cause {
                Some(c) => Some(c@),
                None => None,
            },
        }
    }
}

/// Why a decode failed.
#[derive(Debug, Clone, PartialEq, Eq)]
pub enum Error {
    /// The store failed while opening the file or reading from it.
    HDF5(StoreError),
    /// No readable dataset of this name.
    Dataset(String),
    /// No readable group of this name.
    Group(String),
    /// The group is not a Matlab struct.
    Struct,
}

/// Mathematical value of an [`Error`].
pub enum ErrorView {
    HDF5(StoreErrorView),
    Dataset(Seq<char>),
    Group(Seq<char>),
    Struct,
}

impl ErrorView {
    /// The text an error renders to: its kind, the name it is about, and for a
    /// store failure the store's description followed by its cause, if any.
    pub open spec fn message(self) -> Seq<char> {
        match self {
            ErrorView::HDF5(e) => match e.cause {
                Some(c) => "Importing Matlab variables failed ("@ + e.message + "), caused by "@
                    + c,
                None => "Importing Matlab variables failed ("@ + e.message + ")"@,
            },
            ErrorView::Dataset(name) => "Loading "@ + name + " dataset failed"@,
            ErrorView::Group(name) => "Loading "@ + name + " group failed"@,
            ErrorView::Struct => "Matlab class is not a struct"@,
        }
    }

    /// The cause of an error: for a store failure the store's error itself,
    /// which the error wraps; the other errors have none.
    pub open spec fn source(self) -> Option<StoreErrorView> {
        match self {
            ErrorView::HDF5(e) => Some(e),
            _ => None,
        }
    }
}

impl View for Error {
    type V = ErrorView;

    open spec fn view(&self) -> ErrorView {
        match self {
            Error::HDF5(e) => ErrorView::HDF5(e@),
            Error::Dataset(name) => ErrorView::Dataset(name@),
            Error::Group(name) => ErrorView::Group(name@),
            Error::Struct => ErrorView::Struct,
        }
    }
}

impl Error {
    /// Renders the error as text.
    pub fn message(&self) -> (text: String)
        ensures
            text@ == self@.message(),
    {
        match self {
            Error::HDF5(e) => {
                let mut text = String::from_str("Importing Matlab variables failed (");
                text.append(e.message.as_str());
                match &e.cause {
                    Some(c) => {
                        text.append("), caused by ");
                        text.append(c.as_str());
                    },
                    None => {
                        text.append(")");
                    },
                }
                text
            },
            Error::Dataset(name) => {
                let mut text = String::from_str("Loading ");
                text.append(name.as_str());
                text.append(" dataset failed");
                text
            },
            Error::Group(name) => {
                let mut text = String::from_str("Loading ");
                text.append(name.as_str());
                text.append(" group failed");
                text
            },
            Error::Struct => String::from_str("Matlab class is not a struct"),
        }
    }

    /// The cause of the error: the store's error, where the error wraps one.
    pub fn source(&self) -> (cause: Option<&StoreError>)
        ensures
            match cause {
                Some(c) => self@.source() == Some(c@),
                None => self@.source().is_none(),
            },
    {
        match self {
            Error::HDF5(e) => Some(e),
            _ => None,
        }
    }
}

impl From<StoreError> for Error {
    fn from(error: StoreError) -> (e: Error) {
        Error::HDF5(error)
    }
}

impl FromSpecImpl<StoreError> for Error {
    open spec fn obeys_from_spec() -> bool {
        true
    }

    open spec fn from_spec(error: StoreError) -> Error {
        Error::HDF5(error)
    }
}

} // verus!
