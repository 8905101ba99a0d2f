//! What can go wrong in a run. Every error ends the run.

use vstd::prelude::*;
use vstd::string::StringExecFns;

verus! {

/// Why a project URL could not be read.
#[derive(Debug, Clone, Copy, PartialEq, Eq, Structural)]
pub enum ParseError {
    /// The URL ends before the owner's place.
    MissingOwner,
    /// The URL ends before the project number's place.
    MissingNumber,
    /// What stands at the project number's place is no number.
    InvalidNumber,
}

/// Why a response gave no project identifier.
#[derive(Debug, Clone, Copy, PartialEq, Eq, Structural)]
pub enum ResolveError {
    /// The owner, the project or the response's data is absent.
    ProjectNotFound,
}

/// A parameter that a run cannot do without.
#[derive(Debug, Clone, Copy, PartialEq, Eq, Structural)]
pub enum Parameter {
    /// The URL of the project.
    ProjectUrl,
    /// The token that authenticates the requests.
    GithubToken,
}

/// The errors of reading the parameters.
#[derive(Debug, Clone, PartialEq, Eq)]
pub enum Errors {
    /// The operator token is none of `AND`, `OR` and `NOT`.
    CouldNotParseOperator(String),
    /// The project URL has not the shape of one.
    CouldNotParseProjectUrl(ParseError, String),
    /// A required parameter was not given.
    MissingParameter(Parameter),
}

/// An error of reading the parameters, with its texts as character sequences.
pub enum ErrorsView {
    CouldNotParseOperator(Seq<char>),
    CouldNotParseProjectUrl(ParseError, Seq<char>),
    MissingParameter(Parameter),
}

impl View for Errors {
    type V = ErrorsView;

    open spec fn view(&self) -> ErrorsView {
        match *self {
            Errors::CouldNotParseOperator(token) => ErrorsView::CouldNotParseOperator(token@),
            Errors::CouldNotParseProjectUrl(reason, url) => ErrorsView::CouldNotParseProjectUrl(
                reason,
                url@,
            ),
            Errors::MissingParameter(parameter) => ErrorsView::MissingParameter(parameter),
        }
    }
}

/// What is said of a URL that could not be read, before the URL itself.
pub open spec fn parse_error_text(reason: ParseError) -> Seq<char> {
    match reason {
        ParseError::MissingOwner => "Could not parse owner owner from url "@,
        ParseError::MissingNumber => "Could not parse project id from url "@,
        ParseError::InvalidNumber => "Could not parse project number from url "@,
    }
}

/// The name under which a parameter is asked for.
pub open spec fn parameter_name(parameter: Parameter) -> Seq<char> {
    match parameter {
        Parameter::ProjectUrl => "project-url"@,
        Parameter::GithubToken => "github-token"@,
    }
}

/// The message of an error.
pub open spec fn message_text(error: ErrorsView) -> Seq<char> {
    match error {
        ErrorsView::CouldNotParseOperator(token) => "Could not parse operator "@ + token
            + ". Possible values are AND, OR and NOT"@,
        ErrorsView::CouldNotParseProjectUrl(reason, url) => parse_error_text(reason) + url,
        ErrorsView::MissingParameter(parameter) => "Missing "@ + parameter_name(parameter)
            + " parameter"@,
    }
}

impl ParseError {
    /// The message of this error for the URL that it was found in.
    pub fn message(&self, url: &str) -> (text: String)
        ensures
            text@ == parse_error_text(*self) + url@,
    {
        let begin = match self {
            ParseError::MissingOwner => "Could not parse owner owner from url ",
            ParseError::MissingNumber => "Could not parse project id from url ",
            ParseError::InvalidNumber => "Could not parse project number from url ",
        };
        String::from_str(begin).concat(url)
    }
}

impl Parameter {
    /// The name under which this parameter is asked for.
    pub fn name(&self) -> (name: &'static str)
        ensures
            name@ == parameter_name(*self),
    {
        match self {
            Parameter::ProjectUrl => "project-url",
            Parameter::GithubToken => "github-token",
        }
    }
}

impl Errors {
    /// The message of this error.
    pub fn message(&self) -> (text: String)
        ensures
            text@ == message_text(self@),
    {
        match self {
            Errors::CouldNotParseOperator(token) => String::from_str(
                "Could not parse operator ",
            ).concat(token.as_str()).concat(". Possible values are AND, OR and NOT"),
            Errors::CouldNotParseProjectUrl(reason, url) => reason.message(url.as_str()),
            Errors::MissingParameter(parameter) => String::from_str("Missing ").concat(
                parameter.name(),
            ).concat(" parameter"),
        }
    }
}

} // verus!
