//! Fixed addresses of the external collaborators.

use vstd::prelude::*;
use vstd::string::StringExecFns;

verus! {

/// Base URL of the external git-hosting service.
pub fn git_server_url() -> (r: &'static str)
    ensures
        r@ == "https://git.dotcodeschool.com"@,
{
    "https://git.dotcodeschool.com"
}

/// Full URL of the git server's provisioning endpoint.
pub fn create_repository_url() -> (r: String)
    ensures
        r@ == "https://git.dotcodeschool.com"@ + "/api/v0/create_repository"@,
{
    let base = git_server_url().to_owned();
    base.concat("/api/v0/create_repository")
}

} // verus!
