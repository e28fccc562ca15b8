//! Where launchers go: the installation root and the paths under it.

use vstd::prelude::*;
use crate::error::InstallError;
use crate::module_url::{joined_path, join_path};

verus! {

/// The platform's launcher dialect, chosen once for a build.
#[derive(Clone, Copy, Debug, PartialEq, Eq)]
pub enum ScriptDialect {
    /// One POSIX shell script.
    Posix,
    /// A batch file with a `.cmd` extension plus a POSIX companion script.
    DualWindows,
}

/// The environment variables the root is located from.
#[derive(Clone, Debug)]
pub struct Environment {
    /// The root-override variable; an empty value counts as unset.
    pub install_root: Option<String>,
    /// The home-directory variable of the platform.
    pub home: Option<String>,
}

/// Where the installation root comes from.
#[derive(Clone, Debug, PartialEq, Eq)]
pub enum RootChoice {
    /// A directory that must exist; the caller canonicalizes it.
    Canonicalize(String),
    /// A directory under the home directory, used as it stands.
    Plain(String),
}

pub open spec fn home_var_name(d: ScriptDialect) -> Seq<char> {
    match d {
        ScriptDialect::Posix => seq!['H', 'O', 'M', 'E'],
        ScriptDialect::DualWindows => seq!['U', 'S', 'E', 'R', 'P', 'R', 'O', 'F', 'I', 'L', 'E'],
    }
}

pub open spec fn root_dir_name() -> Seq<char> {
    seq!['.', 'd', 'e', 'n', 'o']
}

/// The name of the home-directory variable for a dialect's platform.
pub fn home_var(d: ScriptDialect) -> (r: &'static str)
    ensures
        r@ == home_var_name(d),
{
    match d {
        ScriptDialect::Posix => {
            proof {
                reveal_strlit("HOME");
                assert("HOME"@ =~= home_var_name(d));
            }
            "HOME"
        },
        ScriptDialect::DualWindows => {
            proof {
                reveal_strlit("USERPROFILE");
                assert("USERPROFILE"@ =~= home_var_name(d));
            }
            "USERPROFILE"
        },
    }
}

/// The root-override variable, when set to a non-empty value.
pub open spec fn override_of(env: &Environment) -> Option<Seq<char>> {
    match env.install_root {
        Some(v) => if v@.len() > 0 {
            Some(v@)
        } else {
            None
        },
        None => None,
    }
}

/// Locates the installation root: an explicit root first, then a non-empty
/// override variable (both to be canonicalized), then `.deno` under home.
pub fn locate_root(explicit: Option<String>, env: &Environment, dialect: ScriptDialect) -> (r:
    Result<RootChoice, InstallError>)
    ensures
        explicit matches Some(e) ==> (r matches Ok(RootChoice::Canonicalize(p)) && p@ == e@),
        explicit is None && override_of(env) is Some ==> (r matches Ok(RootChoice::Canonicalize(p))
            && p@ == override_of(env).unwrap()),
        explicit is None && override_of(env) is None && env.home is Some ==> (r matches Ok(
            RootChoice::Plain(p),
        ) && p@ == joined_path(env.home.unwrap()@, root_dir_name())),
        explicit is None && override_of(env) is None && env.home is None ==> (r matches Err(
            InstallError::HomeNotFound { var },
        ) && var@ == home_var_name(dialect)),
{
    if let Some(e) = explicit {
        return Ok(RootChoice::Canonicalize(e));
    }
    if let Some(v) = &env.install_root {
        if v.as_str().unicode_len() > 0 {
            return Ok(RootChoice::Canonicalize(v.clone()));
        }
    }
    match &env.home {
        Some(h) => {
            proof {
                reveal_strlit(".deno");
                assert(".deno"@ =~= root_dir_name());
            }
            Ok(RootChoice::Plain(join_path(h.as_str(), ".deno")))
        },
        None => Err(InstallError::HomeNotFound { var: String::from_str(home_var(dialect)) }),
    }
}

pub open spec fn bin_name() -> Seq<char> {
    seq!['b', 'i', 'n']
}

/// The directory that holds the launchers.
pub open spec fn bin_dir_of(root: Seq<char>) -> Seq<char> {
    joined_path(root, bin_name())
}

/// The launcher directory under an installation root.
pub fn bin_dir(root: &str) -> (r: String)
    ensures
        r@ == bin_dir_of(root@),
{
    proof {
        reveal_strlit("bin");
        assert("bin"@ =~= bin_name());
    }
    join_path(root, "bin")
}

pub open spec fn cmd_ext() -> Seq<char> {
    seq!['.', 'c', 'm', 'd']
}

/// The extensionless path of a command in the launcher directory: the
/// POSIX launcher, or the companion script next to a batch file.
pub open spec fn command_path_of(bin: Seq<char>, name: Seq<char>) -> Seq<char> {
    joined_path(bin, name)
}

/// The path of the primary launcher.
pub open spec fn launcher_path_of(bin: Seq<char>, name: Seq<char>, d: ScriptDialect) -> Seq<char> {
    match d {
        ScriptDialect::Posix => command_path_of(bin, name),
        ScriptDialect::DualWindows => command_path_of(bin, name) + cmd_ext(),
    }
}

/// The primary launcher's path for a command name.
pub fn launcher_path(bin: &str, name: &str, d: ScriptDialect) -> (r: String)
    ensures
        r@ == launcher_path_of(bin@, name@, d),
{
    let p = join_path(bin, name);
    match d {
        ScriptDialect::Posix => p,
        ScriptDialect::DualWindows => {
            proof {
                reveal_strlit(".cmd");
                assert(".cmd"@ =~= cmd_ext());
            }
            p.concat(".cmd")
        },
    }
}

/// The path a configuration file is copied to: the command's path with the
/// given suffix as its extension.
pub open spec fn aux_path_of(bin: Seq<char>, name: Seq<char>, suffix: Seq<char>) -> Seq<char> {
    command_path_of(bin, name) + seq!['.'] + suffix
}

/// The path of an auxiliary file next to a launcher.
pub fn aux_path(bin: &str, name: &str, suffix: &str) -> (r: String)
    ensures
        r@ == aux_path_of(bin@, name@, suffix@),
{
    proof {
        reveal_strlit(".");
    }
    join_path(bin, name).concat(".").concat(suffix)
}

} // verus!
