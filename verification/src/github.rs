//! What the marketplace reads from GitHub.
use crate::ids::{GithubIssueNumber, GithubRepoId, GithubUserId};
use crate::parsed_url::{url_parse, ParsedUrl};
use vstd::prelude::*;

verus! {

/// A GitHub issue, with the metadata that describes the contribution it stands for.
#[derive(Debug)]
pub struct Issue {
    pub number: GithubIssueNumber,
    pub project_id: GithubRepoId,
    pub title: String,
    pub description: Option<String>,
    pub external_link: ParsedUrl,
    pub difficulty: Option<String>,
    pub technology: Option<String>,
    pub duration: Option<String>,
    pub context: Option<String>,
    pub issue_type: Option<String>,
}

impl Issue {
    /// An issue with every field empty, linking to GitHub's not-found page; `None` where that
    /// page's address does not parse.
    pub fn not_found() -> (r: Option<Issue>)
        ensures
            r is Some <==> url_parse("https://github.com/404"@) is Some,
            r matches Some(issue) ==> {
                &&& issue.number == 0
                &&& issue.project_id == 0
                &&& issue.title@ == Seq::<char>::empty()
                &&& issue.description is None
                &&& issue.external_link@ == url_parse("https://github.com/404"@)->0
                &&& issue.difficulty is None
                &&& issue.technology is None
                &&& issue.duration is None
                &&& issue.context is None
                &&& issue.issue_type is None
            },
    {
        match ParsedUrl::parse("https://github.com/404") {
            Ok(external_link) => Some(
                Issue {
                    number: 0,
                    project_id: 0,
                    title: String::new(),
                    description: None,
                    external_link,
                    difficulty: None,
                    technology: None,
                    duration: None,
                    context: None,
                    issue_type: None,
                },
            ),
            Err(_) => None,
        }
    }
}

/// A GitHub repository.
#[derive(Debug, Default)]
pub struct Repository {
    pub project_id: GithubRepoId,
    pub owner: String,
    pub name: String,
    pub description: Option<String>,
    pub url: Option<ParsedUrl>,
    pub logo_url: Option<ParsedUrl>,
}

/// A GitHub user.
#[derive(Debug, Default)]
pub struct User {
    pub id: GithubUserId,
    pub name: String,
}

} // verus!
