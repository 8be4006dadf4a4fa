//! Made-up users and pull requests, for running without the API.

use vstd::prelude::*;
use crate::models::{PullRequest, User};

verus! {

#[verifier::external_type_specification]
#[verifier::external_body]
pub struct ExIoError(std::io::Error);

/// A user named `login`, with id 0 and a profile address on the code host.
pub fn user(login: &str) -> (r: Result<User, std::io::Error>)
    ensures
        r matches Ok(u) && u.id == 0 && u.login@ == login@ && u.url@ == "https://github.com/"@ + login@,
{
    let mut url = String::from_str("https://github.com/");
    url.append(login);
    let user = User { id: 0, login: String::from_str(login), url };
    Ok(user)
}

/// Four open pull requests by `user`, numbered 123, 124, 128 and 109.
pub fn pull_requests(user: User) -> (r: Result<Vec<PullRequest>, std::io::Error>)
    ensures
        r matches Ok(prs) && prs@.len() == 4 && prs@[0].number == 123 && prs@[1].number == 124
            && prs@[2].number == 128 && prs@[3].number == 109 && prs@[0].id == 0 && prs@[1].id == 1
            && prs@[2].id == 4 && prs@[3].id == 3 && prs@[0].title@
            == "Fix that stupid bug that's been plaguing us"@ && prs@[1].title@
            == "Revert previous changes made in 0.4.2b release"@ && prs@[2].title@
            == "Quick fix: Don't panic on read Err."@ && prs@[3].title@
            == "Refactor the backend buff-related structures"@ && forall|i: int|
            0 <= i < 4 ==> (#[trigger] prs@[i]).owner == user && prs@[i].state@ == "open"@,
{
    let prs: Vec<PullRequest> = vec![
        PullRequest::new(
            0,
            123,
            "Fix that stupid bug that's been plaguing us",
            "...",
            user.clone(),
        ),
        PullRequest::new(
            1,
            124,
            "Revert previous changes made in 0.4.2b release",
            "These changes had many many breaking changes that we didn't anticipate.",
            user.clone(),
        ),
        PullRequest::new(4, 128, "Quick fix: Don't panic on read Err.", "'nuff said", user.clone()),
        PullRequest::new(
            3,
            109,
            "Refactor the backend buff-related structures",
            "...",
            user.clone(),
        ),
    ];
    Ok(prs)
}

} // verus!
