//! The outcome of a command and its errors.
use vstd::prelude::*;

verus! {

/// What a command gives back: the text to print, or an error.
#[derive(Debug)]
pub struct CliOutput(pub Result<String, TigerSharkError>);

/// The errors of the commands.
#[derive(Debug)]
pub enum TigerSharkError {
    FilePathError(String),
    CliError(String),
    DbError(String),
    NotFound(String),
    AssetKeysError(String, String),
    Unknown,
}

/// A `TigerSharkError` with its texts taken as character sequences.
pub enum ErrorView {
    FilePathError(Seq<char>),
    CliError(Seq<char>),
    DbError(Seq<char>),
    NotFound(Seq<char>),
    AssetKeysError(Seq<char>, Seq<char>),
    Unknown,
}

impl View for TigerSharkError {
    type V = ErrorView;

    open spec fn view(&self) -> ErrorView {
        match self {
            TigerSharkError::FilePathError(s) => ErrorView::FilePathError(s@),
            TigerSharkError::CliError(s) => ErrorView::CliError(s@),
            TigerSharkError::DbError(s) => ErrorView::DbError(s@),
            TigerSharkError::NotFound(s) => ErrorView::NotFound(s@),
            TigerSharkError::AssetKeysError(c, k) => ErrorView::AssetKeysError(c@, k@),
            TigerSharkError::Unknown => ErrorView::Unknown,
        }
    }
}

impl View for CliOutput {
    type V = Result<Seq<char>, ErrorView>;

    open spec fn view(&self) -> Result<Seq<char>, ErrorView> {
        match &self.0 {
            Ok(s) => Ok(s@),
            Err(e) => Err(e@),
        }
    }
}

/// The message of an error, as the program describes it to a person.
pub open spec fn error_message(e: ErrorView) -> Seq<char> {
    match e {
        ErrorView::FilePathError(s) => "FilePath Error: `"@ + s + "`"@,
        ErrorView::CliError(s) => "CLI Error: `"@ + s + "`"@,
        ErrorView::DbError(s) => "DB Error: `"@ + s + "`"@,
        ErrorView::NotFound(s) => "Not Found: `"@ + s + "`"@,
        ErrorView::AssetKeysError(c, k) => "Some Asset keys missing for command `"@ + c
            + "`: `"@ + k + "`"@,
        ErrorView::Unknown => "unknown error"@,
    }
}

/// The exit code of the program for an outcome: 0 for a result, 101 for an error.
pub open spec fn exit_code_of(o: Result<Seq<char>, ErrorView>) -> i32 {
    match o {
        Ok(_) => 0,
        Err(_) => 101,
    }
}

/// `prefix`, then `s`, then `suffix`.
fn enclose(prefix: &str, s: &String, suffix: &str) -> (text: String)
    ensures
        text@ == prefix@ + s@ + suffix@,
{
    let mut text = prefix.to_owned();
    text.append(s.as_str());
    text.append(suffix);
    text
}

impl TigerSharkError {
    /// The message of the error: `DbError("x")` reads "DB Error: `x`".
    pub fn message(&self) -> (text: String)
        ensures
            text@ == error_message(self@),
    {
        match self {
            TigerSharkError::FilePathError(s) => enclose("FilePath Error: `", s, "`"),
            TigerSharkError::CliError(s) => enclose("CLI Error: `", s, "`"),
            TigerSharkError::DbError(s) => enclose("DB Error: `", s, "`"),
            TigerSharkError::NotFound(s) => enclose("Not Found: `", s, "`"),
            TigerSharkError::AssetKeysError(c, k) => {
                let mut text = enclose("Some Asset keys missing for command `", c, "`: `");
                text.append(k.as_str());
                text.append("`");
                text
            },
            TigerSharkError::Unknown => "unknown error".to_owned(),
        }
    }
}

impl CliOutput {
    /// The code with which the program exits after this outcome: 0 when it
    /// holds a result, 101 when it holds an error.
    pub fn exit_code(&self) -> (code: i32)
        ensures
            code == exit_code_of(self@),
    {
        match &self.0 {
            Ok(_) => 0,
            Err(_) => 101,
        }
    }
}

} // verus!
