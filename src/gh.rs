//! What the library needs of the code host's API: the address of a request
//! and the token that authorizes it. Sending requests is left to the caller.

use vstd::prelude::*;

verus! {

/// The root of the code host's API.
pub open spec fn api_root() -> Seq<char> {
    "https://api.github.com/"@
}

/// A client of the API, authorized by an API key.
pub struct Client<'a> {
    api_key: &'a str,
}

impl<'a> Client<'a> {
    pub closed spec fn key(&self) -> Seq<char> {
        self.api_key@
    }

    pub fn new(api_key: &'a str) -> (r: Client<'a>)
        ensures
            r.key() == api_key@,
    {
        Client { api_key }
    }

    /// The full address of `url_end`, a path below the API root.
    pub fn url(&self, url_end: &str) -> (r: String)
        ensures
            r@ == api_root() + url_end@,
    {
        let mut r = String::from_str("https://api.github.com/");
        r.append(url_end);
        r
    }

    /// The value of the `Authorization` header: `token` and the API key.
    pub fn authorization(&self) -> (r: String)
        ensures
            r@ == "token "@ + self.key(),
    {
        let mut r = String::from_str("token ");
        r.append(self.api_key);
        r
    }
}

/// The path, below the API root, of the pull requests of `repo`.
pub fn pulls_path(repo: &str) -> (r: String)
    ensures
        r@ == "repos/bisondev/"@ + repo@ + "/pulls"@,
{
    let mut r = String::from_str("repos/bisondev/");
    r.append(repo);
    r.append("/pulls");
    r
}

} // verus!
