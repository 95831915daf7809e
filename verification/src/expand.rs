//! Expansion of `~` and `$VAR` in a path that the user wrote.

use vstd::prelude::*;

verus! {

/// A text that holds nothing to expand: no `$` anywhere, no `~` in front.
pub open spec fn is_plain(text: Seq<char>) -> bool {
    !text.contains('$') && (text.len() == 0 || text[0] != '~')
}

/// A variable that a path names and the environment does not have.
#[derive(Debug, PartialEq, Eq)]
pub struct LookupFailure {
    /// The name of the variable.
    pub var_name: String,
}

/// `shellexpand::full`: replaces a leading `~` by the home directory and
/// each `$NAME` or `${NAME}` by the value of that variable in the
/// environment of the process. The result depends on that environment, so
/// the contract claims only what holds in every environment: a text
/// without `$` never fails, and a text with nothing to expand comes back as
/// it went in. An error carries the name of the variable that could not be
/// read.
#[verifier::external_body]
fn full(path: &str) -> (r: Result<String, String>)
    ensures
        !path@.contains('$') ==> r is Ok,
        is_plain(path@) ==> r is Ok && r->Ok_0@ == path@,
{
    match shellexpand::full(path) {
        Ok(expanded) => Ok(expanded.into_owned()),
        Err(error) => Err(error.var_name),
    }
}

/// Expands the home directory and the environment variables in `path`.
/// A path without `$` and without a leading `~` is returned unchanged, and
/// only a path with `$` can fail: on a variable that cannot be read.
pub fn expand_env_vars(path: &str) -> (r: Result<String, LookupFailure>)
    ensures
        !path@.contains('$') ==> r is Ok,
        is_plain(path@) ==> r is Ok && r->Ok_0@ == path@,
{
    match full(path) {
        Ok(expanded) => Ok(expanded),
        Err(var_name) => Err(LookupFailure { var_name }),
    }
}

} // verus!
