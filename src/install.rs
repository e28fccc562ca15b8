//! The decisions of an installation, between the file system steps that
//! the caller performs.

use vstd::prelude::*;
use crate::args::{Flags, serialize_args, launcher_args, log_tokens, href_of, views, config_copy_of, lock_copy_of, head_tokens, v8_tokens, seed_tokens, flag_eq, flag_pair, opt_view};
use crate::error::InstallError;
use crate::module_url::{ModuleUrl, resolve_url_or_path, has_uri_scheme, parses_as_url};
use crate::root::{ScriptDialect, aux_path, command_path_of, launcher_path_of, cmd_ext};
use crate::script::{posix_script, cmd_script, companion_script};
use crate::script::{LauncherFile, emit, launcher_files};

verus! {

/// What was found at the launcher directory's path.
#[derive(Clone, Copy, Debug, PartialEq, Eq)]
pub enum PathState {
    Missing,
    Directory,
    Other,
}

/// Whether the launcher directory must be created; anything there that is
/// not a directory stops the installation.
pub fn check_bin_dir(state: PathState) -> (r: Result<bool, InstallError>)
    ensures
        state == PathState::Missing ==> r == Ok::<bool, InstallError>(true),
        state == PathState::Directory ==> r == Ok::<bool, InstallError>(false),
        state == PathState::Other ==> r == Err::<bool, InstallError>(InstallError::NotADirectory),
{
    match state {
        PathState::Missing => Ok(true),
        PathState::Directory => Ok(false),
        PathState::Other => Err(InstallError::NotADirectory),
    }
}

/// An existing launcher may only be replaced when overwriting was asked for.
pub fn check_existing(exists: bool, force: bool) -> (r: Result<(), InstallError>)
    ensures
        exists && !force ==> r == Err::<(), InstallError>(InstallError::AlreadyExists),
        !(exists && !force) ==> r is Ok,
{
    if exists && !force {
        Err(InstallError::AlreadyExists)
    } else {
        Ok(())
    }
}

/// Resolves the import map reference, if there is one, against `cwd`.
pub fn resolve_import_map(flags: &Flags, cwd: &str) -> (r: Result<Option<ModuleUrl>, InstallError>)
    ensures
        flags.import_map_path is None ==> r == Ok::<Option<ModuleUrl>, InstallError>(None),
        flags.import_map_path is Some ==> (r matches Ok(m) ==> m is Some),
        flags.import_map_path is Some && has_uri_scheme(flags.import_map_path.unwrap()@) ==> (r is Ok
            <==> parses_as_url(flags.import_map_path.unwrap()@)),
        r matches Err(e) ==> e matches InstallError::UrlResolution { input } && flags.import_map_path
            matches Some(p) && input@ == p@,
{
    match &flags.import_map_path {
        None => Ok(None),
        Some(p) => match resolve_url_or_path(p.as_str(), cwd) {
            Ok(u) => Ok(Some(u)),
            Err(e) => Err(e),
        },
    }
}

/// The fixed inputs of one installation.
#[derive(Clone, Debug)]
pub struct InstallRequest {
    pub flags: Flags,
    /// The resolved module reference.
    pub module: ModuleUrl,
    /// Passthrough arguments, appended after the module.
    pub args: Vec<String>,
    /// Whether an existing launcher may be replaced.
    pub force: bool,
}

/// A file to write next to the launcher.
#[derive(Clone, Debug, PartialEq, Eq)]
pub struct AuxFile {
    pub path: String,
    pub content: String,
}

/// What an installation writes: the launchers first, then the auxiliary
/// files.
#[derive(Clone, Debug)]
pub struct InstallPlan {
    pub args: Vec<String>,
    pub launchers: Vec<LauncherFile>,
    pub aux: Vec<AuxFile>,
}

pub open spec fn opt_text(t: Option<String>) -> Option<Seq<char>> {
    match t {
        Some(s) => Some(s@),
        None => None,
    }
}

/// The copies of the configuration and lock files, as (path, content).
pub open spec fn aux_writes(
    f: Flags,
    bin: Seq<char>,
    name: Seq<char>,
    config: Option<Seq<char>>,
    lock: Option<Seq<char>>,
) -> Seq<(Seq<char>, Seq<char>)> {
    (if f.config_path is Some {
        seq![(config_copy_of(bin, name), config.unwrap())]
    } else {
        seq![]
    }) + (if f.lock is Some {
        seq![(lock_copy_of(bin, name), lock.unwrap())]
    } else {
        seq![]
    })
}

/// The launcher files as (path, content).
pub open spec fn launcher_writes(
    d: ScriptDialect,
    bin: Seq<char>,
    name: Seq<char>,
    args: Seq<Seq<char>>,
) -> Seq<(Seq<char>, Seq<char>)> {
    launcher_files(d, bin, name, args).map_values(|f: (Seq<char>, Seq<char>, bool)| (f.0, f.1))
}

/// The command line of an installation, or `None` for an invalid log level.
pub open spec fn planned_args(
    req: InstallRequest,
    import_map: Option<Seq<char>>,
    bin: Seq<char>,
    name: Seq<char>,
) -> Option<Seq<Seq<char>>> {
    match log_tokens(req.flags.log_level) {
        None => None,
        Some(logs) => Some(
            launcher_args(req.flags, logs, import_map, req.module.href@, views(req.args@), bin, name),
        ),
    }
}

/// The writes an installation performs, in order, or `None` when it is
/// abandoned before writing anything.
pub open spec fn planned_writes(
    req: InstallRequest,
    d: ScriptDialect,
    bin: Seq<char>,
    name: Seq<char>,
    exists: bool,
    import_map: Option<Seq<char>>,
    config: Option<Seq<char>>,
    lock: Option<Seq<char>>,
) -> Option<Seq<(Seq<char>, Seq<char>)>> {
    if exists && !req.force {
        None
    } else if planned_args(req, import_map, bin, name) is None {
        None
    } else if req.flags.config_path is Some && config is None {
        None
    } else if req.flags.lock is Some && lock is None {
        None
    } else {
        Some(
            launcher_writes(d, bin, name, planned_args(req, import_map, bin, name).unwrap())
                + aux_writes(req.flags, bin, name, config, lock),
        )
    }
}

/// The writes of a plan, in order.
pub open spec fn plan_writes(p: InstallPlan) -> Seq<(Seq<char>, Seq<char>)> {
    p.launchers@.map_values(|f: LauncherFile| (f.path@, f.content@)) + p.aux@.map_values(
        |a: AuxFile| (a.path@, a.content@),
    )
}

fn aux_file(bin: &str, name: &str, suffix: &str, content: String) -> (r: AuxFile)
    ensures
        r.path@ == crate::root::aux_path_of(bin@, name@, suffix@),
        r.content@ == content@,
{
    AuxFile { path: aux_path(bin, name, suffix), content }
}

/// Decides an installation of `name` into `bin`, given whether a launcher
/// is already there, the resolved import map and the texts of the
/// configuration and lock files (`None` when they could not be read).
pub fn plan_install(
    req: &InstallRequest,
    d: ScriptDialect,
    bin: &str,
    name: &str,
    exists: bool,
    import_map: &Option<ModuleUrl>,
    config: Option<String>,
    lock: Option<String>,
) -> (r: Result<InstallPlan, InstallError>)
    ensures
        ({
            let w = planned_writes(
                *req,
                d,
                bin@,
                name@,
                exists,
                href_of(*import_map),
                opt_text(config),
                opt_text(lock),
            );
            &&& (r is Ok <==> w is Some)
            &&& (r matches Ok(p) ==> plan_writes(p) == w.unwrap() && views(p.args@) == planned_args(
                *req,
                href_of(*import_map),
                bin@,
                name@,
            ).unwrap())
        }),
        exists && !req.force ==> r == Err::<InstallPlan, InstallError>(InstallError::AlreadyExists),
        !(exists && !req.force) && log_tokens(req.flags.log_level) is None ==> r == Err::<
            InstallPlan,
            InstallError,
        >(InstallError::InvalidLogLevel),
{
    if let Err(e) = check_existing(exists, req.force) {
        return Err(e);
    }
    let args = match serialize_args(&req.flags, import_map, &req.module, &req.args, bin, name) {
        Ok(a) => a,
        Err(e) => {
            return Err(e);
        },
    };
    let mut aux: Vec<AuxFile> = Vec::new();
    if let Some(p) = &req.flags.config_path {
        match config {
            Some(text) => aux.push(aux_file(bin, name, "tsconfig.json", text)),
            None => {
                return Err(InstallError::AuxiliaryFileRead { path: p.clone() });
            },
        }
    }
    if let Some(p) = &req.flags.lock {
        match lock {
            Some(text) => aux.push(aux_file(bin, name, "lock.json", text)),
            None => {
                return Err(InstallError::AuxiliaryFileRead { path: p.clone() });
            },
        }
    }
    let launchers = emit(d, bin, name, &args);
    let plan = InstallPlan { args, launchers, aux };
    proof {
        let w = planned_writes(
            *req,
            d,
            bin@,
            name@,
            exists,
            href_of(*import_map),
            opt_text(config),
            opt_text(lock),
        );
        let a = planned_args(*req, href_of(*import_map), bin@, name@).unwrap();
        assert(plan.launchers@.map_values(|f: LauncherFile| (f.path@, f.content@)) =~= launcher_writes(
            d,
            bin@,
            name@,
            a,
        ));
        assert(plan.aux@.map_values(|x: AuxFile| (x.path@, x.content@)) =~= aux_writes(
            req.flags,
            bin@,
            name@,
            opt_text(config),
            opt_text(lock),
        ));
    }
    Ok(plan)
}

/// The file system after a sequence of writes, each replacing the whole
/// content at its path.
pub open spec fn apply_writes(fs: Map<Seq<char>, Seq<char>>, w: Seq<(Seq<char>, Seq<char>)>) -> Map<
    Seq<char>,
    Seq<char>,
>
    decreases w.len(),
{
    if w.len() == 0 {
        fs
    } else {
        apply_writes(fs, w.drop_last()).insert(w.last().0, w.last().1)
    }
}

/// The file system after an installation's outcome: unchanged when it was
/// abandoned.
pub open spec fn after_install(
    fs: Map<Seq<char>, Seq<char>>,
    w: Option<Seq<(Seq<char>, Seq<char>)>>,
) -> Map<Seq<char>, Seq<char>> {
    match w {
        None => fs,
        Some(x) => apply_writes(fs, x),
    }
}

/// The text of the primary launcher of a dialect.
pub open spec fn primary_script(d: ScriptDialect, args: Seq<Seq<char>>) -> Seq<char> {
    match d {
        ScriptDialect::Posix => posix_script(args),
        ScriptDialect::DualWindows => cmd_script(args),
    }
}

proof fn lemma_last_write_wins(
    fs: Map<Seq<char>, Seq<char>>,
    w: Seq<(Seq<char>, Seq<char>)>,
    i: int,
)
    requires
        0 <= i < w.len(),
        forall|j: int| i < j < w.len() ==> (#[trigger] w[j]).0.len() != w[i].0.len(),
    ensures
        apply_writes(fs, w).contains_key(w[i].0),
        apply_writes(fs, w)[w[i].0] == w[i].1,
    decreases w.len(),
{
    if i < w.len() - 1 {
        let v = w.drop_last();
        assert forall|j: int| i < j < v.len() implies (#[trigger] v[j]).0.len() != v[i].0.len() by {
            assert(v[j] == w[j]);
        }
        lemma_last_write_wins(fs, v, i);
        assert(w[w.len() - 1].0.len() != w[i].0.len());
    }
}

/// What an installation that goes ahead leaves at each path it writes.
proof fn lemma_installed_contents(
    fs: Map<Seq<char>, Seq<char>>,
    req: InstallRequest,
    d: ScriptDialect,
    bin: Seq<char>,
    name: Seq<char>,
    exists: bool,
    import_map: Option<Seq<char>>,
    config: Option<Seq<char>>,
    lock: Option<Seq<char>>,
)
    requires
        planned_writes(req, d, bin, name, exists, import_map, config, lock) is Some,
    ensures
        ({
            let after = after_install(
                fs,
                planned_writes(req, d, bin, name, exists, import_map, config, lock),
            );
            let args = planned_args(req, import_map, bin, name).unwrap();
            &&& after.contains_key(launcher_path_of(bin, name, d))
            &&& after[launcher_path_of(bin, name, d)] == primary_script(d, args)
            &&& d == ScriptDialect::DualWindows ==> after.contains_key(command_path_of(bin, name))
                && after[command_path_of(bin, name)] == companion_script(args)
            &&& req.flags.config_path is Some ==> after.contains_key(config_copy_of(bin, name))
                && after[config_copy_of(bin, name)] == config.unwrap()
            &&& req.flags.lock is Some ==> after.contains_key(lock_copy_of(bin, name))
                && after[lock_copy_of(bin, name)] == lock.unwrap()
        }),
{
    reveal_strlit("tsconfig.json");
    reveal_strlit("lock.json");
    let args = planned_args(req, import_map, bin, name).unwrap();
    let lw = launcher_writes(d, bin, name, args);
    let aw = aux_writes(req.flags, bin, name, config, lock);
    let w = lw + aw;
    let c = command_path_of(bin, name);
    let n = c.len();
    assert(planned_writes(req, d, bin, name, exists, import_map, config, lock) == Some(w));
    assert(config_copy_of(bin, name).len() == n + 14);
    assert(lock_copy_of(bin, name).len() == n + 10);
    assert(forall|j: int| 0 <= j < aw.len() ==> (#[trigger] aw[j]).0.len() >= n + 10);
    match d {
        ScriptDialect::Posix => {
            assert(lw.len() == 1 && lw[0] == (c, posix_script(args)));
            lemma_last_write_wins(fs, w, 0);
        },
        ScriptDialect::DualWindows => {
            assert(lw.len() == 2 && lw[0] == (c + cmd_ext(), cmd_script(args)) && lw[1] == (
                c,
                companion_script(args),
            ));
            assert(w[0].0.len() == n + 4);
            assert(forall|j: int| 1 <= j < w.len() ==> (#[trigger] w[j]).0.len() != n + 4);
            lemma_last_write_wins(fs, w, 0);
            lemma_last_write_wins(fs, w, 1);
        },
    }
    if req.flags.config_path is Some {
        let k = lw.len() as int;
        assert(w[k] == (config_copy_of(bin, name), config.unwrap()));
        lemma_last_write_wins(fs, w, k);
    }
    if req.flags.lock is Some {
        let k = w.len() - 1;
        assert(w[k] == (lock_copy_of(bin, name), lock.unwrap()));
        lemma_last_write_wins(fs, w, k);
    }
}

/// Installing over an existing launcher without `force` is refused with
/// `AlreadyExists` (see `plan_install`) and leaves the file system as it
/// was, the existing launcher's content included.
pub proof fn law_existing_launcher_kept(
    fs: Map<Seq<char>, Seq<char>>,
    req: InstallRequest,
    d: ScriptDialect,
    bin: Seq<char>,
    name: Seq<char>,
    import_map: Option<Seq<char>>,
    config: Option<Seq<char>>,
    lock: Option<Seq<char>>,
)
    requires
        fs.contains_key(launcher_path_of(bin, name, d)),
        !req.force,
    ensures
        planned_writes(req, d, bin, name, true, import_map, config, lock) is None,
        after_install(fs, planned_writes(req, d, bin, name, true, import_map, config, lock)) == fs,
{
}

/// With `force`, an installation over an existing one goes ahead: the
/// launcher holds the script for the new command line, and the copies of
/// the configuration and lock files hold their new contents.
pub proof fn law_force_rewrites(
    fs: Map<Seq<char>, Seq<char>>,
    req: InstallRequest,
    d: ScriptDialect,
    bin: Seq<char>,
    name: Seq<char>,
    import_map: Option<Seq<char>>,
    config: Option<Seq<char>>,
    lock: Option<Seq<char>>,
)
    requires
        req.force,
        log_tokens(req.flags.log_level) is Some,
        req.flags.config_path is Some ==> config is Some,
        req.flags.lock is Some ==> lock is Some,
    ensures
        ({
            let exists = fs.contains_key(launcher_path_of(bin, name, d));
            let w = planned_writes(req, d, bin, name, exists, import_map, config, lock);
            let after = after_install(fs, w);
            let args = launcher_args(
                req.flags,
                log_tokens(req.flags.log_level).unwrap(),
                import_map,
                req.module.href@,
                views(req.args@),
                bin,
                name,
            );
            &&& w is Some
            &&& after[launcher_path_of(bin, name, d)] == primary_script(d, args)
            &&& req.flags.config_path is Some ==> after[config_copy_of(bin, name)] == config.unwrap()
            &&& req.flags.lock is Some ==> after[lock_copy_of(bin, name)] == lock.unwrap()
        }),
{
    let exists = fs.contains_key(launcher_path_of(bin, name, d));
    lemma_installed_contents(fs, req, d, bin, name, exists, import_map, config, lock);
}

/// When a configuration file is given and the installation goes ahead, the
/// launcher's command line passes `--config` with the copy's path, which
/// is the command's path with `.tsconfig.json` added, and that copy holds
/// the configuration text unchanged.
pub proof fn law_config_copied(
    fs: Map<Seq<char>, Seq<char>>,
    req: InstallRequest,
    d: ScriptDialect,
    bin: Seq<char>,
    name: Seq<char>,
    exists: bool,
    import_map: Option<Seq<char>>,
    config: Option<Seq<char>>,
    lock: Option<Seq<char>>,
)
    requires
        req.flags.config_path is Some,
        planned_writes(req, d, bin, name, exists, import_map, config, lock) is Some,
    ensures
        ({
            let args = planned_args(req, import_map, bin, name).unwrap();
            let after = after_install(
                fs,
                planned_writes(req, d, bin, name, exists, import_map, config, lock),
            );
            &&& config_copy_of(bin, name) == command_path_of(bin, name) + ".tsconfig.json"@
            &&& exists|k: int|
                0 <= k && k + 1 < args.len() && #[trigger] args[k] == "--config"@ && args[k + 1]
                    == config_copy_of(bin, name)
            &&& after[config_copy_of(bin, name)] == config.unwrap()
        }),
{
    reveal_strlit(".tsconfig.json");
    reveal_strlit("tsconfig.json");
    assert(config_copy_of(bin, name) =~= command_path_of(bin, name) + ".tsconfig.json"@);
    lemma_installed_contents(fs, req, d, bin, name, exists, import_map, config, lock);
    let f = req.flags;
    let logs = log_tokens(f.log_level).unwrap();
    let pre = head_tokens(f, logs) + v8_tokens(f) + seed_tokens(f) + flag_eq(
        "--inspect="@,
        opt_view(f.inspect),
    ) + flag_eq("--inspect-brk="@, opt_view(f.inspect_brk)) + flag_pair("--import-map"@, import_map);
    let args = planned_args(req, import_map, bin, name).unwrap();
    let k = pre.len() as int;
    assert(args[k] == "--config"@);
    assert(args[k + 1] == config_copy_of(bin, name));
}

} // verus!
