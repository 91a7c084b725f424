//! The decisions taken when the collection is loaded from its data file.
//! Reading the file and decoding its text are the caller's part; what to do
//! with what was read, and which error a failure is, is decided here.

use crate::models::Patient;
use crate::text::trimmed;
use vstd::prelude::*;

verus! {

/// Why the collection could not be loaded or saved.
#[derive(Debug, Clone, PartialEq, Eq)]
pub enum StorageError {
    /// The file could not be opened, read or written; the text is the
    /// underlying message.
    Io(String),
    /// The text is not that of a collection; the text is the decoder's
    /// message.
    Format(String),
}

/// What reading the data file gave.
#[derive(Debug, Clone, PartialEq, Eq)]
pub enum FileRead {
    /// There is no file at the path.
    Missing,
    /// The file is there but could not be read; the text is the underlying
    /// message.
    Failed(String),
    /// The whole text of the file.
    Text(String),
}

/// What is left to do once the file has been read.
#[derive(Debug, Clone, PartialEq, Eq)]
pub enum LoadStep {
    /// The load is over with this collection.
    Done(Vec<Patient>),
    /// The load is over with this error.
    Failed(StorageError),
    /// The text has to be decoded; `finish_load` takes the outcome.
    Decode(String),
}

impl LoadStep {
    /// The load is over with the empty collection.
    pub open spec fn is_empty_collection(self) -> bool {
        self matches LoadStep::Done(patients) && patients@.len() == 0
    }
}

/// A text with nothing but whitespace in it.
pub open spec fn is_blank(text: Seq<char>) -> bool {
    trimmed(text).len() == 0
}

/// Whether the text holds nothing but whitespace. The empty text does.
pub fn blank(text: &str) -> (r: bool)
    ensures
        r == is_blank(text@),
        text@.len() == 0 ==> r,
{
    text.trim().is_empty()
}

/// Decides what follows a read of the data file. A missing file and a blank
/// text both give the empty collection; a failed read gives an `Io` error
/// with the same message; any other text has to be decoded.
pub fn begin_load(read: FileRead) -> (step: LoadStep)
    ensures
        match read {
            FileRead::Missing => step.is_empty_collection(),
            FileRead::Failed(message) => step == LoadStep::Failed(StorageError::Io(message)),
            FileRead::Text(text) => if is_blank(text@) {
                step.is_empty_collection()
            } else {
                step == LoadStep::Decode(text)
            },
        },
        read matches FileRead::Text(text) ==> (text@.len() == 0 ==> step.is_empty_collection()),
{
    match read {
        FileRead::Missing => LoadStep::Done(Vec::new()),
        FileRead::Failed(message) => LoadStep::Failed(StorageError::Io(message)),
        FileRead::Text(text) => {
            if blank(text.as_str()) {
                LoadStep::Done(Vec::new())
            } else {
                LoadStep::Decode(text)
            }
        },
    }
}

/// Ends a load with the outcome of decoding: the decoded collection as it
/// is, or a `Format` error with the decoder's message.
pub fn finish_load(decoded: Result<Vec<Patient>, String>) -> (r: Result<Vec<Patient>, StorageError>)
    ensures
        match decoded {
            Ok(patients) => r == Ok::<Vec<Patient>, StorageError>(patients),
            Err(message) => r == Err::<Vec<Patient>, StorageError>(StorageError::Format(message)),
        },
{
    match decoded {
        Ok(patients) => Ok(patients),
        Err(message) => Err(StorageError::Format(message)),
    }
}

} // verus!
