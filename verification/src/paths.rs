//! Expansion of the configured path strings: a leading `~` and `$VAR` references
//! are resolved against the user's home directory and the process environment.

use vstd::prelude::*;

verus! {

/// A path string that holds nothing to expand: no `$` anywhere and no `~` in
/// front. Expansion leaves such a string as it is, whatever the environment.
pub open spec fn is_plain_path(path: Seq<char>) -> bool {
    &&& !path.contains('$')
    &&& (path.len() == 0 || path[0] != '~')
}

/// A configured path string refers to a variable that could not be looked up.
#[derive(Debug, PartialEq, Eq)]
pub struct PathExpansionError {
    /// The path string as it stands in the configuration.
    pub path: String,
    /// The name of the variable whose lookup failed.
    pub var_name: String,
}

/// Calls `shellexpand::full` on `raw`: the string with a leading `~` replaced by
/// the home directory and each `$VAR` or `${VAR}` replaced by the variable's
/// value, or the name of the first variable whose lookup failed.
///
/// Trusted, not proved: a string without `$` that does not start with `~` comes
/// back unchanged. Of any other string nothing is claimed, since the answer
/// depends on the environment of the process.
#[verifier::external_body]
fn shell_expand(raw: &str) -> (expanded: Result<String, String>)
    ensures
        is_plain_path(raw@) ==> expanded is Ok && expanded->Ok_0@ == raw@,
{
    match shellexpand::full(raw) {
        Ok(text) => Ok(text.into_owned()),
        Err(failure) => Err(failure.var_name),
    }
}

/// What expanding `config_path` amounts to, given what the lookup of its
/// variables came to: the expanded string, or the error that names the path
/// and the variable.
pub open spec fn expansion_result(
    config_path: String,
    outcome: Result<String, String>,
) -> Result<String, PathExpansionError> {
    match outcome {
        Ok(expanded) => Ok(expanded),
        Err(var_name) => Err(PathExpansionError { path: config_path, var_name }),
    }
}

/// Turns the outcome of an expansion of `config_path` into the expanded path or
/// a [`PathExpansionError`].
pub fn expansion_of(config_path: &String, outcome: Result<String, String>) -> (result: Result<
    String,
    PathExpansionError,
>)
    ensures
        result == expansion_result(*config_path, outcome),
{
    match outcome {
        Ok(expanded) => Ok(expanded),
        Err(var_name) => Err(PathExpansionError { path: config_path.clone(), var_name }),
    }
}

/// Expands `config_path` against the home directory and the environment.
///
/// A plain path always succeeds and comes back unchanged. Any other path gives
/// whatever the environment makes of it; if it fails, the error carries the
/// path itself.
pub fn expand_config_path(config_path: &String) -> (result: Result<String, PathExpansionError>)
    ensures
        is_plain_path(config_path@) ==> result is Ok && result->Ok_0@ == config_path@,
        result matches Err(error) ==> error.path == *config_path && !is_plain_path(
            config_path@,
        ),
{
    let outcome = shell_expand(config_path.as_str());
    expansion_of(config_path, outcome)
}

} // verus!
