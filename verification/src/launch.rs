//! The file name that the application was started with.

use vstd::prelude::*;

verus! {

/// The value of a command-line argument, as far as it matters here: a text,
/// or anything else (a flag, a number, a list, nothing).
#[derive(Debug, Clone, PartialEq, Eq)]
pub enum ArgValue {
    Text(String),
    Other,
}

/// What is kept from the start of the application for later questions.
#[derive(Debug)]
pub struct AppData {
    /// The file named on the command line, if one was.
    pub cli_argument_filename: Option<String>,
}

/// The file name that an argument stands for: its text, where it is given and
/// is a text.
pub open spec fn filename_of(file: Option<ArgValue>) -> Option<Seq<char>> {
    match file {
        Some(ArgValue::Text(name)) => Some(name@),
        _ => None,
    }
}

impl AppData {
    /// Keeps the file name from the `file` argument of the command line.
    /// `file` is `None` where the command line could not be parsed or gave no
    /// such argument; a value that is no text gives no file name either.
    pub fn from_file_argument(file: Option<ArgValue>) -> (r: AppData)
        ensures
            r.cli_argument_filename.deep_view() == filename_of(file),
    {
        let name = match file {
            Some(ArgValue::Text(name)) => Some(name),
            _ => None,
        };
        AppData { cli_argument_filename: name }
    }
}

/// The file name the application was started with, as it was kept.
pub fn get_cli_argument_filename(state: &AppData) -> (r: Option<String>)
    ensures
        r.deep_view() == state.cli_argument_filename.deep_view(),
{
    match &state.cli_argument_filename {
        Some(name) => Some(name.clone()),
        None => None,
    }
}

} // verus!
