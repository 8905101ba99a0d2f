//! The project reference resolver's two ends: the request that asks for a
//! project's identifier, and the reading of the response.

use crate::errors::ResolveError;
use crate::models::{ProjectUrl, ProjectUrlView};
use vstd::prelude::*;
use vstd::string::StringExecFns;

verus! {

/// The identifier that the server gave a project.
pub type ProjectId = String;

/// Who owns a project: a user or an organization. The two are asked for under
/// different fields, and a URL does not tell them apart.
#[derive(Debug, Clone, Copy, PartialEq, Eq, Structural)]
pub enum OwnerKind {
    User,
    Organization,
}

/// The field of the query under which an owner of this kind is found.
pub open spec fn owner_field(kind: OwnerKind) -> Seq<char> {
    match kind {
        OwnerKind::User => "user"@,
        OwnerKind::Organization => "organization"@,
    }
}

/// The text of the query up to the owner's field.
pub open spec fn query_head() -> Seq<char> {
    "query getProject($project_owner_name: String!, $project_number: Int!) { "@
}

/// The text of the query behind the owner's field: the owner by login, its
/// project by number, and of the project the identifier alone.
pub open spec fn query_tail() -> Seq<char> {
    "(login: $project_owner_name) { projectV2(number: $project_number) { id } } }"@
}

/// The query document for an owner of the given kind. It holds nothing of the
/// project asked for: owner and number travel as variables.
pub open spec fn query_document(kind: OwnerKind) -> Seq<char> {
    query_head() + owner_field(kind) + query_tail()
}

impl OwnerKind {
    /// The field of the query under which an owner of this kind is found.
    pub fn field(&self) -> (field: &'static str)
        ensures
            field@ == owner_field(*self),
    {
        match self {
            OwnerKind::User => "user",
            OwnerKind::Organization => "organization",
        }
    }
}

/// The variables of the query.
#[derive(Debug, Clone, PartialEq, Eq)]
pub struct GetProjectUserVariables {
    pub project_number: u64,
    pub project_owner_name: String,
}

/// The variables of the query as a value.
pub struct VariablesView {
    pub project_number: u64,
    pub project_owner_name: Seq<char>,
}

impl View for GetProjectUserVariables {
    type V = VariablesView;

    open spec fn view(&self) -> VariablesView {
        VariablesView {
            project_number: self.project_number,
            project_owner_name: self.project_owner_name@,
        }
    }
}

/// The variables that ask for the project of a reference.
pub open spec fn variables_for(project: ProjectUrlView) -> VariablesView {
    VariablesView { project_number: project.number, project_owner_name: project.owner }
}

/// A request: the query document and, apart from it, the variables.
#[derive(Debug, Clone, PartialEq, Eq)]
pub struct QueryBody {
    pub variables: GetProjectUserVariables,
    pub query: String,
}

/// Whether `body` is the request for the project that `variables` name, under
/// an owner of the given kind.
pub open spec fn is_request(body: QueryBody, kind: OwnerKind, variables: VariablesView) -> bool {
    &&& body.query@ == query_document(kind)
    &&& body.variables@ == variables
}

/// The request that asks under an owner of the given kind.
fn request(kind: OwnerKind, variables: GetProjectUserVariables) -> (body: QueryBody)
    ensures
        is_request(body, kind, variables@),
{
    let query = String::from_str(
        "query getProject($project_owner_name: String!, $project_number: Int!) { ",
    ).concat(kind.field()).concat(
        "(login: $project_owner_name) { projectV2(number: $project_number) { id } } }",
    );
    QueryBody { variables, query }
}

/// Builds the request for the identifier of a project. The kind of the owner
/// is given, not read from the URL.
pub fn build_query(reference: &ProjectUrl, kind: OwnerKind) -> (body: QueryBody)
    ensures
        is_request(body, kind, variables_for(reference@)),
{
    let variables = GetProjectUserVariables {
        project_number: reference.number(),
        project_owner_name: reference.owner().to_owned(),
    };
    request(kind, variables)
}

/// A project in a response.
#[derive(Debug, Clone, PartialEq, Eq)]
pub struct ProjectV2 {
    pub id: ProjectId,
}

/// A user in a response, with the project that was asked for.
#[derive(Debug, Clone, PartialEq, Eq)]
pub struct User {
    pub project_v2: Option<ProjectV2>,
}

/// An organization in a response, with the project that was asked for.
#[derive(Debug, Clone, PartialEq, Eq)]
pub struct Organization {
    pub project_v2: Option<ProjectV2>,
}

/// The query for a project of a user, and the data of its response.
#[derive(Debug, Clone, PartialEq, Eq)]
pub struct GetProjectUser {
    pub user: Option<User>,
}

/// The query for a project of an organization, and the data of its response.
#[derive(Debug, Clone, PartialEq, Eq)]
pub struct GetProjectOrg {
    pub organization: Option<Organization>,
}

/// The data of a response, by the kind of owner that was asked for.
#[derive(Debug, Clone, PartialEq, Eq)]
pub enum ResponseData {
    User(GetProjectUser),
    Organization(GetProjectOrg),
}

/// A response. Its data is absent where the server answered with errors.
#[derive(Debug, Clone, PartialEq, Eq)]
pub struct GraphQlResponse {
    pub data: Option<ResponseData>,
}

/// The identifier at the end of the chain from an owner to its project, if no
/// link of the chain is missing.
pub open spec fn project_of(project: Option<ProjectV2>) -> Option<Seq<char>> {
    match project {
        Some(project) => Some(project.id@),
        None => None,
    }
}

/// The identifier that the data of a user's response holds.
pub open spec fn user_project(data: GetProjectUser) -> Option<Seq<char>> {
    match data.user {
        Some(user) => project_of(user.project_v2),
        None => None,
    }
}

/// The identifier that the data of an organization's response holds.
pub open spec fn org_project(data: GetProjectOrg) -> Option<Seq<char>> {
    match data.organization {
        Some(organization) => project_of(organization.project_v2),
        None => None,
    }
}

/// The identifier that a response holds.
pub open spec fn project_found(response: GraphQlResponse) -> Option<Seq<char>> {
    match response.data {
        Some(ResponseData::User(data)) => user_project(data),
        Some(ResponseData::Organization(data)) => org_project(data),
        None => None,
    }
}

/// Whether `id` is the outcome for a chain that ends in `found`: the
/// identifier where there is one, and otherwise that no project was found.
pub open spec fn is_outcome(id: Result<ProjectId, ResolveError>, found: Option<Seq<char>>) -> bool {
    match found {
        Some(text) => id matches Ok(given) && given@ == text,
        None => id == Err::<ProjectId, ResolveError>(ResolveError::ProjectNotFound),
    }
}

/// The identifier of a project, where there is a project.
fn id_of(project: Option<ProjectV2>) -> (id: Result<ProjectId, ResolveError>)
    ensures
        is_outcome(id, project_of(project)),
{
    match project {
        Some(project) => Ok(project.id),
        None => Err(ResolveError::ProjectNotFound),
    }
}

impl GetProjectUser {
    /// The query, with no response yet.
    pub fn new() -> (query: Self)
        ensures
            query.user is None,
    {
        GetProjectUser { user: None }
    }

    /// The request for a project of a user.
    pub fn build_query(variables: GetProjectUserVariables) -> (body: QueryBody)
        ensures
            is_request(body, OwnerKind::User, variables@),
    {
        request(OwnerKind::User, variables)
    }

    /// The identifier of the project in this data.
    pub fn project_id(self) -> (id: Result<ProjectId, ResolveError>)
        ensures
            is_outcome(id, user_project(self)),
    {
        match self.user {
            Some(user) => id_of(user.project_v2),
            None => Err(ResolveError::ProjectNotFound),
        }
    }
}

impl GetProjectOrg {
    /// The query, with no response yet.
    pub fn new() -> (query: Self)
        ensures
            query.organization is None,
    {
        GetProjectOrg { organization: None }
    }

    /// The request for a project of an organization.
    pub fn build_query(variables: GetProjectUserVariables) -> (body: QueryBody)
        ensures
            is_request(body, OwnerKind::Organization, variables@),
    {
        request(OwnerKind::Organization, variables)
    }

    /// The identifier of the project in this data.
    pub fn project_id(self) -> (id: Result<ProjectId, ResolveError>)
        ensures
            is_outcome(id, org_project(self)),
    {
        match self.organization {
            Some(organization) => id_of(organization.project_v2),
            None => Err(ResolveError::ProjectNotFound),
        }
    }
}

/// Reads the identifier of the project from a response. A response without
/// data, without the owner or without the project gives `ProjectNotFound`.
pub fn extract_id(response: GraphQlResponse) -> (id: Result<ProjectId, ResolveError>)
    ensures
        is_outcome(id, project_found(response)),
{
    match response.data {
        Some(ResponseData::User(data)) => data.project_id(),
        Some(ResponseData::Organization(data)) => data.project_id(),
        None => Err(ResolveError::ProjectNotFound),
    }
}

} // verus!
