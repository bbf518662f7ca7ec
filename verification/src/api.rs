//! The request side of the API client: the two endpoint URLs and the
//! authorization header, built exactly from the resolved values. The
//! surrounding binary issues the requests themselves.

use vstd::prelude::*;
use vstd::string::StringExecFns;

verus! {

/// The repository metadata endpoint for `owner/repo`.
pub fn repo_info_url(owner: &str, repo: &str) -> (res: String)
    ensures
        res@ == "https://api.github.com/repos/"@ + owner@ + "/"@ + repo@,
{
    let mut url = String::from_str("https://api.github.com/repos/");
    url.append(owner);
    url.append("/");
    url.append(repo);
    url
}

/// The recursive tree endpoint for `branch` of `owner/repo`.
pub fn tree_url(owner: &str, repo: &str, branch: &str) -> (res: String)
    ensures
        res@ == "https://api.github.com/repos/"@ + owner@ + "/"@ + repo@ + "/git/trees/"@
            + branch@ + "?recursive=1"@,
{
    let mut url = String::from_str("https://api.github.com/repos/");
    url.append(owner);
    url.append("/");
    url.append(repo);
    url.append("/git/trees/");
    url.append(branch);
    url.append("?recursive=1");
    url
}

/// The value of the authorization header carrying `token`.
pub fn auth_header_value(token: &str) -> (res: String)
    ensures
        res@ == "token "@ + token@,
{
    let mut value = String::from_str("token ");
    value.append(token);
    value
}

} // verus!
