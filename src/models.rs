//! The items the views show: pull requests and their authors.

use vstd::prelude::*;

verus! {

/// A user of the code host.
#[derive(Debug)]
pub struct User {
    pub id: usize,
    pub login: String,
    pub url: String,
}

/// A pull request: what the list and detail views show of one.
#[derive(Debug)]
pub struct PullRequest {
    pub owner: User,
    pub number: usize,
    pub id: usize,
    pub title: String,
    pub body: String,
    pub state: String,
}

impl Clone for User {
    fn clone(&self) -> (r: User)
        ensures
            r == *self,
    {
        User { id: self.id, login: self.login.clone(), url: self.url.clone() }
    }
}

impl Clone for PullRequest {
    fn clone(&self) -> (r: PullRequest)
        ensures
            r == *self,
    {
        PullRequest {
            owner: self.owner.clone(),
            number: self.number,
            id: self.id,
            title: self.title.clone(),
            body: self.body.clone(),
            state: self.state.clone(),
        }
    }
}

impl PullRequest {
    /// A new open pull request.
    pub fn new(id: usize, number: usize, title: &str, body: &str, owner: User) -> (r: PullRequest)
        ensures
            r.id == id,
            r.number == number,
            r.title@ == title@,
            r.body@ == body@,
            r.state@ == "open"@,
            r.owner == owner,
    {
        PullRequest {
            id,
            owner,
            number,
            title: String::from_str(title),
            body: String::from_str(body),
            state: String::from_str("open"),
        }
    }
}

} // verus!
