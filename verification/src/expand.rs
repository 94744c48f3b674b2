//! Expansion of `~` and of environment variables in paths.

use vstd::prelude::*;

verus! {

/// Whether `path` is written without anything to expand: it does not begin
/// with `~` and holds no `$`.
pub open spec fn kept_as_written(path: Seq<char>) -> bool {
    (path.len() == 0 || path[0] != '~') && !path.contains('$')
}

/// Calls `shellexpand::full` on `path`: a leading `~` becomes the home
/// directory and `$NAME` or `${NAME}` the value of that environment variable.
/// A variable that cannot be looked up, and for which the path gives no
/// default, gives `Err` with its name. What comes back depends on the
/// environment of the process, so nothing is promised of it, but for this:
/// a path that neither begins with `~` nor holds a `$` comes back as it is.
#[verifier::external_body]
pub(crate) fn expand(path: &str) -> (r: Result<String, String>)
    ensures
        kept_as_written(path@) ==> r is Ok && r->Ok_0@ == path@,
{
    match shellexpand::full(path) {
        Ok(expanded) => Ok(expanded.into_owned()),
        Err(e) => Err(e.var_name),
    }
}

} // verus!
