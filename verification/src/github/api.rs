//! Requests to the remote GraphQL API and the shape of its answers.

use crate::github::batch::Batch;
use crate::github::repository::{fails_with, maps_to, MappingError, Repository};
use vstd::prelude::*;
use vstd::string::*;

verus! {

/// A language as the API names it.
#[derive(Debug, Clone)]
pub struct Language {
    pub name: String,
}

/// The license of a repository; the SPDX id may be missing.
#[derive(Debug, Clone)]
pub struct LicenseInfo {
    pub name: String,
    pub spdx_id: Option<String>,
}

/// The languages of one repository; the list and each entry may be null.
#[derive(Debug, Clone)]
pub struct LanguageConnection {
    pub nodes: Option<Vec<Option<Language>>>,
}

/// The account that owns a repository.
#[derive(Debug, Clone)]
pub struct Owner {
    pub login: String,
}

/// One repository as the repositories query returns it.
#[derive(Debug, Clone)]
pub struct RepositoryNode {
    pub name: String,
    pub owner: Owner,
    pub url: String,
    pub stargazer_count: i64,
    pub created_at: String,
    pub license_info: Option<LicenseInfo>,
    pub primary_language: Option<Language>,
    pub languages: Option<LanguageConnection>,
}

/// The repositories of one user; the list and each entry may be null.
#[derive(Debug, Clone)]
pub struct RepositoryConnection {
    pub nodes: Option<Vec<Option<RepositoryNode>>>,
}

/// The `user` object of the repositories query.
#[derive(Debug, Clone)]
pub struct RepositoriesUser {
    pub repositories: RepositoryConnection,
}

/// The `user` object of the contributions query. The collection is carried
/// through as `C`: nothing here reads it.
#[derive(Debug, Clone)]
pub struct ContributionsUser<C> {
    pub contributions_collection: C,
}

/// The `data` object of an answer: the user that was asked for, if any.
#[derive(Debug, Clone)]
pub struct ResponseData<U> {
    pub user: Option<U>,
}

/// The envelope of an answer.
#[derive(Debug, Clone)]
pub struct Response<U> {
    pub data: Option<ResponseData<U>>,
}

/// Why an answer of the API yields no data.
#[derive(Debug, Clone, Copy, PartialEq, Eq)]
pub enum UpstreamError {
    /// The HTTP status, which was not in 200..=299.
    Status(u16),
    /// The envelope holds no `data`.
    MissingData,
    /// `data` holds no `user`.
    MissingUser,
}

/// The document of the contributions query.
pub const CONTRIBUTIONS_DOCUMENT: &'static str =
    "query ContributionsQuery($login: String!) { user(login: $login) { contributionsCollection { contributionCalendar { totalContributions weeks { contributionDays { contributionCount date } } } } } }";

/// The document of the repositories query.
pub const REPOSITORIES_DOCUMENT: &'static str =
    "query RepositoriesQuery($login: String!) { user(login: $login) { repositories(first: 100, ownerAffiliations: OWNER, privacy: PUBLIC) { nodes { name owner { login } url stargazerCount createdAt licenseInfo { name spdxId } primaryLanguage { name } languages(first: 10) { nodes { name } } } } } }";

/// The two queries.
#[derive(Debug, Clone, Copy, PartialEq, Eq)]
pub enum Query {
    Contributions,
    Repositories,
}

/// What is sent for one query: a POST to `endpoint` with the given user
/// agent, the token as bearer, and a body that holds the query document, the
/// name of its operation and, as the variable `login`, the login asked for.
#[derive(Debug, Clone)]
pub struct Request {
    pub endpoint: String,
    pub user_agent: String,
    pub bearer: String,
    pub operation_name: String,
    pub query: String,
    pub login: String,
}

/// The name under which a query is sent.
pub open spec fn spec_operation_name(query: Query) -> Seq<char> {
    match query {
        Query::Contributions => "ContributionsQuery"@,
        Query::Repositories => "RepositoriesQuery"@,
    }
}

/// The name under which a query is sent.
pub fn operation_name(query: Query) -> (name: String)
    ensures
        name@ == spec_operation_name(query),
{
    match query {
        Query::Contributions => String::from_str("ContributionsQuery"),
        Query::Repositories => String::from_str("RepositoriesQuery"),
    }
}

/// The document of a query. Both ask for one user by login: the one for the
/// contributions calendar, the other for the user's own public repositories
/// with what a row is made of.
pub open spec fn spec_document(query: Query) -> Seq<char> {
    match query {
        Query::Contributions => CONTRIBUTIONS_DOCUMENT@,
        Query::Repositories => REPOSITORIES_DOCUMENT@,
    }
}

/// The document of a query.
pub fn document(query: Query) -> (text: String)
    ensures
        text@ == spec_document(query),
{
    match query {
        Query::Contributions => String::from_str(CONTRIBUTIONS_DOCUMENT),
        Query::Repositories => String::from_str(REPOSITORIES_DOCUMENT),
    }
}

/// The user agent of every request: the service's name, `#` and `version`.
pub open spec fn spec_user_agent(version: Seq<char>) -> Seq<char> {
    "sondr3/personal-api#"@ + version
}

/// Whether a status is a success, that is in 200..=299.
pub open spec fn is_success(status: u16) -> bool {
    200 <= status <= 299
}

/// What an answer yields: the user, or the first thing that is missing.
pub open spec fn spec_user<U>(response: Response<U>) -> Result<U, UpstreamError> {
    match response.data {
        None => Err(UpstreamError::MissingData),
        Some(data) => match data.user {
            None => Err(UpstreamError::MissingUser),
            Some(user) => Ok(user),
        },
    }
}

/// Builds the request for `query` on behalf of `login`. `version` is the
/// version of the running service.
pub fn build_request(query: Query, login: &str, token: &str, version: &str) -> (request: Request)
    ensures
        request.endpoint@ == "https://api.github.com/graphql"@,
        request.user_agent@ == spec_user_agent(version@),
        request.bearer@ == token@,
        request.operation_name@ == spec_operation_name(query),
        request.query@ == spec_document(query),
        request.login@ == login@,
{
    Request {
        endpoint: String::from_str("https://api.github.com/graphql"),
        user_agent: String::from_str("sondr3/personal-api#").concat(version),
        bearer: String::from_str(token),
        operation_name: operation_name(query),
        query: document(query),
        login: String::from_str(login),
    }
}

/// Accepts the statuses 200..=299 and refuses every other with the status.
pub fn check_status(status: u16) -> (checked: Result<(), UpstreamError>)
    ensures
        is_success(status) ==> checked == Ok::<(), UpstreamError>(()),
        !is_success(status) ==> checked == Err::<(), UpstreamError>(UpstreamError::Status(status)),
{
    if 200 <= status && status <= 299 {
        Ok(())
    } else {
        Err(UpstreamError::Status(status))
    }
}

/// Takes the user out of an answer.
pub fn extract_user<U>(response: Response<U>) -> (user: Result<U, UpstreamError>)
    ensures
        user == spec_user(response),
{
    match response.data {
        None => Err(UpstreamError::MissingData),
        Some(data) => match data.user {
            None => Err(UpstreamError::MissingUser),
            Some(user) => Ok(user),
        },
    }
}

/// What the repositories query yields for an answer.
pub open spec fn spec_repositories(response: Response<RepositoriesUser>) -> Result<
    RepositoryConnection,
    UpstreamError,
> {
    match spec_user(response) {
        Ok(user) => Ok(user.repositories),
        Err(e) => Err(e),
    }
}

/// What the contributions query yields for an answer.
pub open spec fn spec_contributions<C>(response: Response<ContributionsUser<C>>) -> Result<
    C,
    UpstreamError,
> {
    match spec_user(response) {
        Ok(user) => Ok(user.contributions_collection),
        Err(e) => Err(e),
    }
}

/// Takes the repositories out of an answer to the repositories query.
pub fn query_repositories(response: Response<RepositoriesUser>) -> (repositories: Result<
    RepositoryConnection,
    UpstreamError,
>)
    ensures
        repositories == spec_repositories(response),
{
    match extract_user(response) {
        Ok(user) => Ok(user.repositories),
        Err(e) => Err(e),
    }
}

/// Takes the collection out of an answer to the contributions query.
pub fn query_contributions<C>(response: Response<ContributionsUser<C>>) -> (contributions: Result<
    C,
    UpstreamError,
>)
    ensures
        contributions == spec_contributions(response),
{
    match extract_user(response) {
        Ok(user) => Ok(user.contributions_collection),
        Err(e) => Err(e),
    }
}

/// Why a synchronisation run stops before anything is written.
#[derive(Debug, Clone, Copy, PartialEq, Eq)]
pub enum SyncError {
    /// An answer of the API yields no data.
    Upstream(UpstreamError),
    /// The repositories cannot be mapped to rows.
    Mapping(MappingError),
}

/// What was last fetched for one user.
#[derive(Debug, Clone)]
pub struct GitHub<C> {
    pub contributions: C,
    pub repositories: RepositoryConnection,
}

impl<C> GitHub<C> {
    /// Takes both answers of a first run: the repositories, then the
    /// contributions. The first answer that yields no data decides the error.
    pub fn new(
        repositories: Response<RepositoriesUser>,
        contributions: Response<ContributionsUser<C>>,
    ) -> (fetched: Result<GitHub<C>, UpstreamError>)
        ensures
            fetched == match spec_repositories(repositories) {
                Err(e) => Err::<GitHub<C>, UpstreamError>(e),
                Ok(repositories) => match spec_contributions(contributions) {
                    Err(e) => Err(e),
                    Ok(contributions) => Ok((GitHub { contributions, repositories })),
                },
            },
    {
        let repositories = match query_repositories(repositories) {
            Ok(repositories) => repositories,
            Err(e) => {
                return Err(e);
            },
        };
        let contributions = match query_contributions(contributions) {
            Ok(contributions) => contributions,
            Err(e) => {
                return Err(e);
            },
        };
        Ok(GitHub { contributions, repositories })
    }

    /// Takes both answers of a later run, the contributions, then the
    /// repositories, and maps the repositories to the rows that are to be
    /// written. What was taken before a failure stays.
    pub fn update(
        &mut self,
        contributions: Response<ContributionsUser<C>>,
        repositories: Response<RepositoriesUser>,
    ) -> (batch: Result<Batch, SyncError>)
        ensures
            final(self).contributions == match spec_contributions(contributions) {
                Ok(contributions) => contributions,
                Err(_) => old(self).contributions,
            },
            final(self).repositories == match (
                spec_contributions(contributions),
                spec_repositories(repositories),
            ) {
                (Ok(_), Ok(repositories)) => repositories,
                _ => old(self).repositories,
            },
            match spec_contributions(contributions) {
                Err(e) => batch matches Err(failure) && failure == SyncError::Upstream(e),
                Ok(_) => match spec_repositories(repositories) {
                    Err(e) => batch matches Err(failure) && failure == SyncError::Upstream(e),
                    Ok(repositories) => spec_mapped(repositories, batch),
                },
            },
    {
        match query_contributions(contributions) {
            Ok(contributions) => {
                self.contributions = contributions;
            },
            Err(e) => {
                return Err(SyncError::Upstream(e));
            },
        }
        match query_repositories(repositories) {
            Ok(repositories) => {
                self.repositories = repositories;
            },
            Err(e) => {
                return Err(SyncError::Upstream(e));
            },
        }
        self.write_to_database()
    }

    /// The rows that are to be written for the repositories last fetched,
    /// none of them written yet.
    pub fn write_to_database(&self) -> (batch: Result<Batch, SyncError>)
        ensures
            spec_mapped(self.repositories, batch),
    {
        match Repository::from_query(&self.repositories) {
            Ok(rows) => Ok(Batch::new(rows)),
            Err(e) => Err(SyncError::Mapping(e)),
        }
    }
}

/// Whether `batch` is what mapping `repositories` gives: one row per node
/// and in their order, with nothing written yet, or the reason why there are
/// no rows.
pub open spec fn spec_mapped(
    repositories: RepositoryConnection,
    batch: Result<Batch, SyncError>,
) -> bool {
    match batch {
        Ok(batch) => maps_to(repositories, batch.spec_rows()) && batch.spec_written() == 0
            && batch.spec_failure() is None,
        Err(SyncError::Mapping(e)) => fails_with(repositories, e),
        Err(SyncError::Upstream(_)) => false,
    }
}

} // verus!
