//! What one run works on: the project's URL, the parameters, the operator and
//! the issue with its labels.

use crate::errors::{Errors, ErrorsView, Parameter, ParseError};
use crate::matcher::{evaluate, label_names, verdict};
use crate::text::{
    decimal, equal, joined, lemma_pieces, lemma_pieces_of_joined, occurrences, parse_u64, pieces,
    split, string_views, trim, trimmed, views,
};
use std::str::FromStr;
use vstd::prelude::*;
use vstd::std_specs::convert::TryFromSpecImpl;
use vstd::std_specs::iter::IteratorSpec;

verus! {

/// How the requested labels combine into a verdict.
#[derive(Debug, Clone, Copy, PartialEq, Eq, Structural)]
pub enum Operator {
    /// Every requested label is on the issue.
    And,
    /// At least one requested label is on the issue.
    Or,
    /// No requested label is on the issue.
    Not,
}

impl Default for Operator {
    /// An operator that was not given is `Or`.
    fn default() -> (operator: Self)
        ensures
            operator == Operator::Or,
    {
        Operator::Or
    }
}

/// The operator that a token names. Tokens are upper case; nothing else is one.
pub open spec fn operator_named(token: Seq<char>) -> Option<Operator> {
    if token == "AND"@ {
        Some(Operator::And)
    } else if token == "OR"@ {
        Some(Operator::Or)
    } else if token == "NOT"@ {
        Some(Operator::Not)
    } else {
        None
    }
}

impl FromStr for Operator {
    type Err = Errors;

    /// Reads an operator token. Any other text is an error that carries it.
    fn from_str(s: &str) -> (parsed: Result<Self, Errors>)
        ensures
            match operator_named(s@) {
                Some(operator) => parsed == Ok::<Operator, Errors>(operator),
                None => parsed matches Err(error) && error@ == ErrorsView::CouldNotParseOperator(
                    s@,
                ),
            },
    {
        if equal(s, "AND") {
            Ok(Operator::And)
        } else if equal(s, "OR") {
            Ok(Operator::Or)
        } else if equal(s, "NOT") {
            Ok(Operator::Not)
        } else {
            Err(Errors::CouldNotParseOperator(s.to_owned()))
        }
    }
}

/// A label of an issue.
#[derive(Debug, Clone, PartialEq, Eq)]
pub struct Label {
    id: u64,
    name: String,
}

/// A label as a value: its identifier and the characters of its name.
pub struct LabelView {
    pub id: u64,
    pub name: Seq<char>,
}

impl View for Label {
    type V = LabelView;

    closed spec fn view(&self) -> LabelView {
        LabelView { id: self.id, name: self.name@ }
    }
}

impl Label {
    /// A label with the given identifier and name.
    pub fn new(id: u64, name: String) -> (label: Self)
        ensures
            label@ == (LabelView { id, name: name@ }),
    {
        Label { id, name }
    }

    /// The identifier of the label.
    pub fn id(&self) -> (id: u64)
        ensures
            id == self@.id,
    {
        self.id
    }

    /// The name of the label.
    pub fn name(&self) -> (name: &str)
        ensures
            name@ == self@.name,
    {
        self.name.as_str()
    }

    /// Whether the label has exactly this name.
    pub fn is_named(&self, name: &String) -> (same: bool)
        ensures
            same == (self@.name == name@),
    {
        self.name == *name
    }
}

/// The labels of a sequence as values, in order.
pub open spec fn label_views(labels: Seq<Label>) -> Seq<LabelView> {
    Seq::new(labels.len(), |i: int| labels[i]@)
}

/// An issue.
#[derive(Debug, Clone)]
pub struct Issue {
    id: u64,
    labels: Vec<Label>,
    number: u32,
}

/// An issue as a value.
pub struct IssueView {
    pub id: u64,
    pub labels: Seq<LabelView>,
    pub number: u32,
}

impl View for Issue {
    type V = IssueView;

    closed spec fn view(&self) -> IssueView {
        IssueView { id: self.id, labels: label_views(self.labels@), number: self.number }
    }
}

impl Issue {
    /// An issue with the given identifier, labels and number.
    pub fn new(id: u64, labels: Vec<Label>, number: u32) -> (issue: Self)
        ensures
            issue@ == (IssueView { id, labels: label_views(labels@), number }),
    {
        Issue { id, labels, number }
    }

    /// The identifier of the issue.
    pub fn id(&self) -> (id: u64)
        ensures
            id == self@.id,
    {
        self.id
    }

    /// The labels of the issue, in their order.
    pub fn labels(&self) -> (labels: core::slice::Iter<'_, Label>)
        ensures
            labels.remaining().len() == self@.labels.len(),
            forall|i: int| 0 <= i < self@.labels.len() ==> labels.remaining()[i]@ == self@.labels[i],
    {
        self.labels.iter()
    }

    /// The number of the issue in its repository.
    pub fn number(&self) -> (number: u32)
        ensures
            number == self@.number,
    {
        self.number
    }

    /// Whether the issue's labels meet the requested ones under `operator`.
    pub fn is_epic(&self, operator: Operator, requested: &Vec<String>) -> (epic: bool)
        ensures
            epic == verdict(operator, string_views(requested@).to_set(), label_names(self@.labels)),
    {
        evaluate(operator, requested, self.labels.as_slice())
    }
}

/// The event that an issue was opened or changed.
#[derive(Debug, Clone)]
pub struct IssueEvent {
    issue: Issue,
}

impl View for IssueEvent {
    type V = IssueView;

    closed spec fn view(&self) -> IssueView {
        self.issue@
    }
}

impl IssueEvent {
    /// The event of the given issue.
    pub fn new(issue: Issue) -> (event: Self)
        ensures
            event@ == issue@,
    {
        IssueEvent { issue }
    }

    /// The issue that the event is about.
    pub fn issue(&self) -> (issue: &Issue)
        ensures
            issue@ == self@,
    {
        &self.issue
    }
}

/// A project, as its URL names it.
#[derive(Debug, Clone)]
pub struct ProjectUrl {
    url: String,
    owner: String,
    number: u64,
}

/// A project reference as a value.
pub struct ProjectUrlView {
    /// The URL as it was given.
    pub url: Seq<char>,
    /// The login of the project's owner.
    pub owner: Seq<char>,
    /// The number of the project among its owner's projects.
    pub number: u64,
}

impl View for ProjectUrl {
    type V = ProjectUrlView;

    closed spec fn view(&self) -> ProjectUrlView {
        ProjectUrlView { url: self.url@, owner: self.owner@, number: self.number }
    }
}

/// What a URL says of a project. Cut at every `/`, a URL such as
/// `https://github.com/users/<owner>/projects/<number>` has its owner as the
/// fifth piece and its number as the seventh.
pub open spec fn project_named(url: Seq<char>) -> Result<ProjectUrlView, ParseError> {
    let parts = pieces(url, '/');
    if parts.len() <= 4 {
        Err(ParseError::MissingOwner)
    } else if parts.len() <= 6 {
        Err(ParseError::MissingNumber)
    } else {
        match decimal(parts[6]) {
            Some(number) => Ok(ProjectUrlView { url, owner: parts[4], number }),
            None => Err(ParseError::InvalidNumber),
        }
    }
}

/// A URL that is put together of pieces names the project that its fifth and
/// seventh pieces give, whatever the other pieces are, and keeps the URL whole.
pub proof fn lemma_project_by_place(parts: Seq<Seq<char>>)
    requires
        parts.len() >= 7,
        forall|i: int| 0 <= i < parts.len() ==> !(#[trigger] parts[i]).contains('/'),
    ensures
        project_named(joined(parts, '/')) == match decimal(parts[6]) {
            Some(number) => Ok::<ProjectUrlView, ParseError>(
                ProjectUrlView { url: joined(parts, '/'), owner: parts[4], number },
            ),
            None => Err::<ProjectUrlView, ParseError>(ParseError::InvalidNumber),
        },
{
    lemma_pieces_of_joined(parts, '/');
}

/// A URL with fewer than four slashes has no owner, and one with four or five
/// has no number.
pub proof fn lemma_short_url(url: Seq<char>)
    ensures
        occurrences(url, '/') < 4 ==> project_named(url) == Err::<ProjectUrlView, ParseError>(
            ParseError::MissingOwner,
        ),
        4 <= occurrences(url, '/') < 6 ==> project_named(url) == Err::<ProjectUrlView, ParseError>(
            ParseError::MissingNumber,
        ),
        occurrences(url, '/') >= 6 ==> project_named(url) != Err::<ProjectUrlView, ParseError>(
            ParseError::MissingOwner,
        ) && project_named(url) != Err::<ProjectUrlView, ParseError>(ParseError::MissingNumber),
{
    lemma_pieces(url, '/');
}

impl FromStr for ProjectUrl {
    type Err = ParseError;

    /// Reads the owner and the number of a project from its URL, and keeps
    /// the URL as it stands.
    fn from_str(s: &str) -> (parsed: Result<Self, ParseError>)
        ensures
            match project_named(s@) {
                Ok(project) => parsed matches Ok(found) && found@ == project,
                Err(reason) => parsed == Err::<ProjectUrl, ParseError>(reason),
            },
    {
        let parts = split(s, '/');
        if parts.len() <= 4 {
            return Err(ParseError::MissingOwner);
        }
        if parts.len() <= 6 {
            return Err(ParseError::MissingNumber);
        }
        match parse_u64(parts[6]) {
            Some(number) => Ok(ProjectUrl { url: s.to_owned(), owner: parts[4].to_owned(), number }),
            None => Err(ParseError::InvalidNumber),
        }
    }
}

impl ProjectUrl {
    /// The URL as it was given.
    pub fn url(&self) -> (url: &str)
        ensures
            url@ == self@.url,
    {
        self.url.as_str()
    }

    /// The login of the project's owner.
    pub fn owner(&self) -> (owner: &str)
        ensures
            owner@ == self@.owner,
    {
        self.owner.as_str()
    }

    /// The number of the project.
    pub fn number(&self) -> (number: u64)
        ensures
            number == self@.number,
    {
        self.number
    }
}

/// The arguments of a run as they were given, the program's name first.
#[derive(Debug, Clone)]
pub struct Args(pub Vec<String>);

/// The parameters of a run.
#[derive(Debug, Clone)]
pub struct Params {
    project_url: ProjectUrl,
    github_token: String,
    labels: Vec<String>,
    operator: Operator,
}

/// The parameters of a run as a value.
pub struct ParamsView {
    pub project_url: ProjectUrlView,
    pub github_token: Seq<char>,
    pub labels: Seq<Seq<char>>,
    pub operator: Operator,
}

impl View for Params {
    type V = ParamsView;

    closed spec fn view(&self) -> ParamsView {
        ParamsView {
            project_url: self.project_url@,
            github_token: self.github_token@,
            labels: string_views(self.labels@),
            operator: self.operator,
        }
    }
}

/// The labels that a list names: its pieces between commas, each without the
/// white space round it.
pub open spec fn labels_listed(list: Seq<char>) -> Seq<Seq<char>> {
    Seq::new(pieces(list, ',').len(), |i: int| trimmed(pieces(list, ',')[i]))
}

/// The parameters that the arguments give. The URL is the second argument,
/// the token the third, the label list the fourth and the operator the fifth.
/// The URL and the token are required. Without a list no label is requested;
/// without an operator it is `Or`; an operator that is given must be one.
pub open spec fn params_given(args: Seq<Seq<char>>) -> Result<ParamsView, ErrorsView> {
    if args.len() <= 1 {
        Err(ErrorsView::MissingParameter(Parameter::ProjectUrl))
    } else {
        match project_named(args[1]) {
            Err(reason) => Err(ErrorsView::CouldNotParseProjectUrl(reason, args[1])),
            Ok(project_url) => if args.len() <= 2 {
                Err(ErrorsView::MissingParameter(Parameter::GithubToken))
            } else {
                let labels = if args.len() <= 3 {
                    Seq::<Seq<char>>::empty()
                } else {
                    labels_listed(args[3])
                };
                let operator = if args.len() <= 4 {
                    Some(Operator::Or)
                } else {
                    operator_named(args[4])
                };
                match operator {
                    None => Err(ErrorsView::CouldNotParseOperator(args[4])),
                    Some(operator) => Ok(
                        ParamsView { project_url, github_token: args[2], labels, operator },
                    ),
                }
            },
        }
    }
}

/// Reads a list of labels: cuts it at the commas and trims every piece.
pub fn parse_labels(list: &str) -> (labels: Vec<String>)
    ensures
        string_views(labels@) == labels_listed(list@),
{
    let parts = split(list, ',');
    let mut labels: Vec<String> = Vec::new();
    let mut i: usize = 0;
    while i < parts.len()
        invariant
            i <= parts.len(),
            views(parts@) == pieces(list@, ','),
            labels.len() == i,
            forall|k: int| 0 <= k < i ==> labels[k]@ == trimmed(pieces(list@, ',')[k]),
        decreases parts.len() - i,
    {
        labels.push(trim(parts[i]).to_owned());
        i += 1;
    }
    labels
}

/// The standard library's own statement of this conversion is left open: what
/// `try_from` returns is stated on `try_from` itself, over views.
impl TryFromSpecImpl<Args> for Params {
    open spec fn obeys_try_from_spec() -> bool {
        false
    }

    open spec fn try_from_spec(v: Args) -> Result<Self, Errors> {
        arbitrary()
    }
}

impl TryFrom<Args> for Params {
    type Error = Errors;

    /// Reads the parameters of a run from its arguments.
    fn try_from(value: Args) -> (read: Result<Self, Errors>)
        ensures
            match params_given(string_views(value.0@)) {
                Ok(params) => read matches Ok(found) && found@ == params,
                Err(error) => read matches Err(found) && found@ == error,
            },
    {
        let args = &value.0;
        let ghost given = string_views(args@);
        if args.len() <= 1 {
            return Err(Errors::MissingParameter(Parameter::ProjectUrl));
        }
        let project_url = match ProjectUrl::from_str(args[1].as_str()) {
            Ok(project_url) => project_url,
            Err(reason) => {
                return Err(Errors::CouldNotParseProjectUrl(reason, args[1].clone()));
            },
        };
        if args.len() <= 2 {
            return Err(Errors::MissingParameter(Parameter::GithubToken));
        }
        let github_token = args[2].clone();
        let labels = if args.len() <= 3 {
            Vec::new()
        } else {
            parse_labels(args[3].as_str())
        };
        let operator = if args.len() <= 4 {
            Operator::default()
        } else {
            match Operator::from_str(args[4].as_str()) {
                Ok(operator) => operator,
                Err(error) => {
                    return Err(error);
                },
            }
        };
        assert(string_views(labels@) =~= if args.len() <= 3 {
            Seq::<Seq<char>>::empty()
        } else {
            labels_listed(given[3])
        });
        Ok(Params { project_url, github_token, labels, operator })
    }
}

impl Params {
    /// The project that the run is for.
    pub fn project_url(&self) -> (project_url: &ProjectUrl)
        ensures
            project_url@ == self@.project_url,
    {
        &self.project_url
    }

    /// The token that authenticates the requests.
    pub fn github_token(&self) -> (token: &str)
        ensures
            token@ == self@.github_token,
    {
        self.github_token.as_str()
    }

    /// The operator of the run.
    pub fn operator(&self) -> (operator: &Operator)
        ensures
            *operator == self@.operator,
    {
        &self.operator
    }

    /// The requested labels.
    pub fn labels(&self) -> (labels: &Vec<String>)
        ensures
            string_views(labels@) == self@.labels,
    {
        &self.labels
    }
}

} // verus!
