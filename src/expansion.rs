//! Shell-style expansion of a path: `$VAR`, `${VAR}` and a leading `~`.
use vstd::prelude::*;
use crate::environment::Environment;

verus! {

/// What a leading `~` (alone, or before a `/`) becomes: the home directory,
/// where there is one. Any other text is kept.
pub open spec fn tilde_expanded(input: Seq<char>, home: Option<Seq<char>>) -> Seq<char> {
    if input.len() > 0 && input[0] == '~' && (input.len() == 1 || input[1] == '/') && home is Some {
        home->0 + input.subrange(1, input.len() as int)
    } else {
        input
    }
}

/// The expansion of a text that holds a `$`, with the given home directory
/// and variables, or none where a variable it names is unset.
pub uninterp spec fn shell_expansion(
    input: Seq<char>,
    home: Option<Seq<char>>,
    vars: Seq<(Seq<char>, Seq<char>)>,
) -> Option<Seq<char>>;

/// The expansion of `input` under `env`: without a `$` only the tilde rule
/// applies.
pub open spec fn expansion_spec(input: Seq<char>, env: &Environment) -> Option<Seq<char>> {
    if input.contains('$') {
        shell_expansion(input, env.home_spec(), env.vars_view())
    } else {
        Some(tilde_expanded(input, env.home_spec()))
    }
}

/// Expanding a path that holds no `$` and does not start with `~` gives it
/// back unchanged.
pub proof fn concrete_path_expands_to_itself(p: Seq<char>, env: &Environment)
    requires
        !p.contains('$'),
        !(p.len() > 0 && p[0] == '~'),
    ensures
        expansion_spec(p, env) == Some(p),
{
}

/// An expansion failed: the variable it names is unset.
#[derive(Debug)]
pub struct ExpansionError {
    pub var_name: String,
}

/// A variable looked up during expansion is not set.
#[derive(Debug)]
pub struct UnsetVariable;

impl Environment {
    /// A lookup in the shape the expander takes: an unset variable is an error.
    pub fn expansion_lookup(&self, name: &str) -> (r: Result<Option<String>, UnsetVariable>)
        ensures
            r is Ok == self.var_spec(name@) is Some,
            r matches Ok(v) ==> v matches Some(s) && self.var_spec(name@) == Some(s@),
    {
        match self.var(name) {
            Some(v) => Ok(Some(v)),
            None => Err(UnsetVariable),
        }
    }
}

/// Relies on `shellexpand::full_with_context`: replaces `$VAR`, `${VAR}` and a
/// leading `~`, with variables looked up in `env` (an unset one is an error)
/// and the home directory taken from `env`. Its source returns a text without
/// a `$` to the tilde rule alone, and the result depends on the arguments alone.
/// A failure names the variable whose lookup failed.
#[verifier::external_body]
pub(crate) fn expand(input: &str, env: &Environment) -> (r: Result<String, ExpansionError>)
    ensures
        r is Ok == expansion_spec(input@, env) is Some,
        r matches Ok(s) ==> s@ == (if input@.contains('$') {
            shell_expansion(input@, env.home_spec(), env.vars_view())->0
        } else {
            tilde_expanded(input@, env.home_spec())
        }),
        r matches Err(e) ==> env.var_spec(e.var_name@) is None,
{
    shellexpand::full_with_context(input, || env.home_dir(), |name: &str| env.expansion_lookup(name))
        .map(|s| s.into_owned())
        .map_err(|e| ExpansionError { var_name: e.var_name })
}

} // verus!
