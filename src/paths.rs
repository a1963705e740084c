//! Paths: absoluteness, joining, and the XDG configuration and data directories.
use vstd::prelude::*;
use vstd::string::*;
use crate::environment::{opt_view, Environment};

verus! {

/// A path is absolute when it starts at the root.
pub open spec fn is_absolute(p: Seq<char>) -> bool {
    p.len() > 0 && p[0] == '/'
}

/// Appending `part` to `base`, as a path buffer does: an absolute `part`
/// replaces `base`; otherwise one separator goes between them unless `base`
/// is empty or already ends in one.
pub open spec fn join(base: Seq<char>, part: Seq<char>) -> Seq<char> {
    if is_absolute(part) {
        part
    } else if base.len() == 0 || base.last() == '/' {
        base + part
    } else {
        base + seq!['/'] + part
    }
}

/// The directory chosen from an override and a home directory: an absolute
/// override wins; otherwise `<home>/<fallback>`; otherwise none.
pub open spec fn chosen_dir(
    over: Option<Seq<char>>,
    home: Option<Seq<char>>,
    fallback: Seq<char>,
) -> Option<Seq<char>> {
    match over {
        Some(o) if is_absolute(o) => Some(o),
        _ => match home {
            Some(h) => Some(join(h, fallback)),
            None => None,
        },
    }
}

pub open spec fn config_dir_spec(env: &Environment) -> Option<Seq<char>> {
    chosen_dir(env.var_spec("XDG_CONFIG_HOME"@), env.home_spec(), ".config"@)
}

pub open spec fn data_dir_spec(env: &Environment) -> Option<Seq<char>> {
    chosen_dir(env.var_spec("XDG_DATA_HOME"@), env.home_spec(), ".local/share"@)
}

/// `<config_dir>/<app>`, the directory that holds the configuration file.
pub open spec fn app_dir_spec(config_dir: Seq<char>, app: Seq<char>) -> Seq<char> {
    join(config_dir, app)
}

/// `<config_dir>/<app>/<app>.toml`.
pub open spec fn config_file_spec(config_dir: Seq<char>, app: Seq<char>) -> Seq<char> {
    join(app_dir_spec(config_dir, app), app + ".toml"@)
}

/// An absolute `XDG_CONFIG_HOME` is the configuration directory itself,
/// whatever the home directory is, or whether there is one.
pub proof fn absolute_config_override_wins(env: &Environment, other: &Environment)
    requires
        env.var_spec("XDG_CONFIG_HOME"@) matches Some(o) && is_absolute(o),
        other.vars@ == env.vars@,
    ensures
        config_dir_spec(env) == env.var_spec("XDG_CONFIG_HOME"@),
        config_dir_spec(other) == config_dir_spec(env),
{
}

/// Where an override is unset or relative, the directories fall back to
/// `<home>/.config` and `<home>/.local/share`.
pub proof fn relative_override_falls_back_to_home(env: &Environment)
    ensures
        !(env.var_spec("XDG_CONFIG_HOME"@) matches Some(o) && is_absolute(o)) ==> config_dir_spec(env)
            == (match env.home_spec() {
            Some(h) => Some(join(h, ".config"@)),
            None => None,
        }),
        !(env.var_spec("XDG_DATA_HOME"@) matches Some(o) && is_absolute(o)) ==> data_dir_spec(env)
            == (match env.home_spec() {
            Some(h) => Some(join(h, ".local/share"@)),
            None => None,
        }),
{
}

/// Keeps `path` when it is absolute.
pub fn is_absolute_path(path: String) -> (r: Option<String>)
    ensures
        r == (if is_absolute(path@) { Some(path) } else { None::<String> }),
{
    let p = path.as_str();
    if p.unicode_len() > 0 && p.get_char(0) == '/' {
        Some(path)
    } else {
        None
    }
}

/// `base` joined with `part`, as `join` states.
pub fn join_path(base: &str, part: &str) -> (r: String)
    ensures
        r@ == join(base@, part@),
{
    if part.unicode_len() > 0 && part.get_char(0) == '/' {
        return String::from_str(part);
    }
    let n = base.unicode_len();
    let mut out = String::from_str(base);
    if n > 0 && base.get_char(n - 1) != '/' {
        let sep = "/";
        proof {
            reveal_strlit("/");
        }
        out.append(sep);
    }
    out.append(part);
    proof {
        if n > 0 {
            assert(base@.last() == base@[n - 1]);
        }
    }
    out
}

fn chosen_dir_of(over: Option<String>, home: Option<String>, fallback: &str) -> (r: Option<String>)
    ensures
        opt_view(r) == chosen_dir(opt_view(over), opt_view(home), fallback@),
{
    let absolute = match over {
        Some(o) => is_absolute_path(o),
        None => None,
    };
    match absolute {
        Some(o) => Some(o),
        None => match home {
            Some(h) => Some(join_path(h.as_str(), fallback)),
            None => None,
        },
    }
}

/// The configuration directory: an absolute `XDG_CONFIG_HOME`, else
/// `<home>/.config`, else none.
pub fn config_dir(env: &Environment) -> (r: Option<String>)
    ensures
        opt_view(r) == config_dir_spec(env),
{
    let over = env.var("XDG_CONFIG_HOME");
    let home = env.home_dir();
    chosen_dir_of(over, home, ".config")
}

/// The data directory: an absolute `XDG_DATA_HOME`, else
/// `<home>/.local/share`, else none.
pub fn data_dir(env: &Environment) -> (r: Option<String>)
    ensures
        opt_view(r) == data_dir_spec(env),
{
    let over = env.var("XDG_DATA_HOME");
    let home = env.home_dir();
    chosen_dir_of(over, home, ".local/share")
}

} // verus!
