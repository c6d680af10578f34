//! The API bearer token: where it is kept, how a new one is made, and how its
//! file is locked down.

use vstd::prelude::*;
use crate::cloud::{is_v4, random_uuid};
use crate::error::ServiceError;
use crate::ids::{uuid_text, uuid_to_string};
use crate::paths::{joinable_base, joined, path_join, plain_component};
use crate::text::to_owned_string;

verus! {

/// `.api-token` in the data directory.
pub fn token_path(data_dir: &str) -> (r: String)
    ensures
        joinable_base(data_dir@) ==> joined(data_dir@, ".api-token"@, r@),
{
    proof {
        reveal_strlit(".api-token");
        assert(plain_component(".api-token"@));
    }
    path_join(data_dir, ".api-token")
}

/// A new token: a random identifier in hyphenated form.
pub fn new_token() -> (r: String)
    ensures
        exists|x: u128| r@ == uuid_text(x) && is_v4(x),
{
    uuid_to_string(random_uuid())
}

/// What restricting the token file's access takes.
pub enum AclStep {
    /// Nothing to run: the outcome.
    Done(Result<(), ServiceError>),
    /// Run `icacls` with these arguments, then read its outcome with
    /// `icacls_outcome`.
    RunIcacls(Vec<String>),
}

/// Restricts the token file to administrators and the system account. Only
/// Windows has anything to do, and only where the file exists.
pub fn restrict_token_acl(is_windows: bool, token_path: &str, token_exists: bool) -> (r: AclStep)
    ensures
        !(is_windows && token_exists) ==> r matches AclStep::Done(Ok(())),
        is_windows && token_exists ==> (r matches AclStep::RunIcacls(args) && args@.len() == 5 && args@[0]@
            == token_path@ && args@[1]@ == "/inheritance:r"@ && args@[2]@ == "/grant:r"@ && args@[3]@
            == "Administrators:(F)"@ && args@[4]@ == "SYSTEM:(F)"@),
{
    if !(is_windows && token_exists) {
        return AclStep::Done(Ok(()));
    }
    let mut args: Vec<String> = Vec::new();
    args.push(to_owned_string(token_path));
    args.push(String::from_str("/inheritance:r"));
    args.push(String::from_str("/grant:r"));
    args.push(String::from_str("Administrators:(F)"));
    args.push(String::from_str("SYSTEM:(F)"));
    AclStep::RunIcacls(args)
}

/// Outcome of the `icacls` run: an error carrying its standard error output
/// where it failed.
pub fn icacls_outcome(success: bool, stderr: &str) -> (r: Result<(), ServiceError>)
    ensures
        success ==> r is Ok,
        !success ==> (r matches Err(ServiceError::Config(m)) && m@ == "restrict_token_acl icacls failed: "@
            + stderr@),
{
    if success {
        Ok(())
    } else {
        let mut m = String::from_str("restrict_token_acl icacls failed: ");
        m.append(stderr);
        Err(ServiceError::Config(m))
    }
}

} // verus!
