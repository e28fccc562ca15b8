//! The command line a launcher replays, rebuilt from the run configuration.

use vstd::prelude::*;
use crate::error::InstallError;
use crate::module_url::ModuleUrl;
use crate::root::aux_path_of;
use crate::root::aux_path;

verus! {

/// Severity levels of the runtime's log.
#[derive(Clone, Copy, Debug, PartialEq, Eq)]
pub enum LogLevel {
    Error,
    Warn,
    Info,
    Debug,
    Trace,
}

/// The run configuration a launcher reproduces.
#[derive(Clone, Debug)]
pub struct Flags {
    /// Read access: `Some` of an empty list grants all of it.
    pub allow_read: Option<Vec<String>>,
    pub allow_write: Option<Vec<String>>,
    pub allow_net: Option<Vec<String>>,
    pub allow_env: Option<Vec<String>>,
    pub allow_run: Option<Vec<String>>,
    pub allow_plugin: bool,
    pub allow_hrtime: bool,
    /// The location override, as a URL.
    pub location: Option<String>,
    /// A certificate authority file.
    pub ca_file: Option<String>,
    pub log_level: Option<LogLevel>,
    pub no_check: bool,
    pub unstable: bool,
    pub no_remote: bool,
    pub lock_write: bool,
    pub cached_only: bool,
    /// Engine flags, passed on as one comma-separated token.
    pub v8_flags: Vec<String>,
    pub seed: Option<u64>,
    /// Inspector address.
    pub inspect: Option<String>,
    /// Inspector address, breaking at the first statement.
    pub inspect_brk: Option<String>,
    /// The import map, as given; it is referred to by its resolved URL.
    pub import_map_path: Option<String>,
    /// A type configuration file, copied next to the launcher.
    pub config_path: Option<String>,
    /// A lock file, copied next to the launcher.
    pub lock: Option<String>,
}

impl Default for Flags {
    fn default() -> (r: Flags)
        ensures
            r.allow_read is None && r.allow_write is None && r.allow_net is None && r.allow_env is None
                && r.allow_run is None && !r.allow_plugin && !r.allow_hrtime,
            r.location is None && r.ca_file is None && r.log_level is None,
            !r.no_check && !r.unstable && !r.no_remote && !r.lock_write && !r.cached_only,
            r.v8_flags@.len() == 0 && r.seed is None && r.inspect is None && r.inspect_brk is None,
            r.import_map_path is None && r.config_path is None && r.lock is None,
    {
        Flags {
            allow_read: None,
            allow_write: None,
            allow_net: None,
            allow_env: None,
            allow_run: None,
            allow_plugin: false,
            allow_hrtime: false,
            location: None,
            ca_file: None,
            log_level: None,
            no_check: false,
            unstable: false,
            no_remote: false,
            lock_write: false,
            cached_only: false,
            v8_flags: Vec::new(),
            seed: None,
            inspect: None,
            inspect_brk: None,
            import_map_path: None,
            config_path: None,
            lock: None,
        }
    }
}

/// The characters of each string.
pub open spec fn views(v: Seq<String>) -> Seq<Seq<char>> {
    v.map_values(|s: String| s@)
}

/// Parts joined with a separator.
pub open spec fn joined(parts: Seq<Seq<char>>, sep: Seq<char>) -> Seq<char>
    decreases parts.len(),
{
    if parts.len() == 0 {
        Seq::empty()
    } else if parts.len() == 1 {
        parts[0]
    } else {
        joined(parts.drop_last(), sep) + sep + parts.last()
    }
}

/// Parts joined with commas.
pub open spec fn join_commas(parts: Seq<Seq<char>>) -> Seq<char> {
    joined(parts, ","@)
}

/// Decimal digits of a number, most significant first.
pub open spec fn decimal(n: nat) -> Seq<char>
    decreases n,
{
    let d = ((n % 10) as u8 + '0' as u8) as char;
    if n < 10 {
        seq![d]
    } else {
        decimal(n / 10).push(d)
    }
}

/// The token for one permission category: bare when it covers everything,
/// with its comma-separated scope otherwise.
pub open spec fn scoped_tokens(bare: Seq<char>, with_eq: Seq<char>, grant: Option<Vec<String>>) -> Seq<
    Seq<char>,
> {
    match grant {
        None => seq![],
        Some(l) => if l@.len() == 0 {
            seq![bare]
        } else {
            seq![with_eq + join_commas(views(l@))]
        },
    }
}

/// `tok` when `b` holds.
pub open spec fn flag_token(b: bool, tok: Seq<char>) -> Seq<Seq<char>> {
    if b {
        seq![tok]
    } else {
        seq![]
    }
}

/// A flag followed by its value, when there is one.
pub open spec fn flag_pair(flag: Seq<char>, v: Option<Seq<char>>) -> Seq<Seq<char>> {
    match v {
        Some(x) => seq![flag, x],
        None => seq![],
    }
}

/// A flag with its value after `=`, when there is one.
pub open spec fn flag_eq(flag_with_eq: Seq<char>, v: Option<Seq<char>>) -> Seq<Seq<char>> {
    match v {
        Some(x) => seq![flag_with_eq + x],
        None => seq![],
    }
}

pub open spec fn opt_view(v: Option<String>) -> Option<Seq<char>> {
    match v {
        Some(s) => Some(s@),
        None => None,
    }
}

/// The permission tokens, in the configuration's order.
pub open spec fn permission_tokens(f: Flags) -> Seq<Seq<char>> {
    scoped_tokens("--allow-read"@, "--allow-read="@, f.allow_read) + scoped_tokens(
        "--allow-write"@,
        "--allow-write="@,
        f.allow_write,
    ) + scoped_tokens("--allow-net"@, "--allow-net="@, f.allow_net) + scoped_tokens(
        "--allow-env"@,
        "--allow-env="@,
        f.allow_env,
    ) + scoped_tokens("--allow-run"@, "--allow-run="@, f.allow_run) + flag_token(
        f.allow_plugin,
        "--allow-plugin"@,
    ) + flag_token(f.allow_hrtime, "--allow-hrtime"@)
}

/// The tokens for a log level; `None` for a level that has no flag.
pub open spec fn log_tokens(l: Option<LogLevel>) -> Option<Seq<Seq<char>>> {
    match l {
        None => Some(seq![]),
        Some(LogLevel::Error) => Some(seq!["--quiet"@]),
        Some(LogLevel::Info) => Some(seq!["--log-level=info"@]),
        Some(LogLevel::Debug) => Some(seq!["--log-level=debug"@]),
        Some(_) => None,
    }
}

/// The engine flags token, when there are any.
pub open spec fn v8_tokens(f: Flags) -> Seq<Seq<char>> {
    if f.v8_flags@.len() == 0 {
        seq![]
    } else {
        seq!["--v8-flags="@ + join_commas(views(f.v8_flags@))]
    }
}

/// The seed flag and its decimal value.
pub open spec fn seed_tokens(f: Flags) -> Seq<Seq<char>> {
    match f.seed {
        Some(s) => seq!["--seed"@, decimal(s as nat)],
        None => seq![],
    }
}

/// The tokens from the run subcommand up to the engine-level flags.
pub open spec fn head_tokens(f: Flags, logs: Seq<Seq<char>>) -> Seq<Seq<char>> {
    seq!["run"@] + permission_tokens(f) + flag_pair("--location"@, opt_view(f.location))
        + flag_pair("--cert"@, opt_view(f.ca_file)) + logs + flag_token(f.no_check, "--no-check"@)
        + flag_token(f.unstable, "--unstable"@) + flag_token(f.no_remote, "--no-remote"@)
        + flag_token(f.lock_write, "--lock-write"@) + flag_token(f.cached_only, "--cached-only"@)
}

/// The configuration file's copy next to the launcher.
pub open spec fn config_copy_of(bin: Seq<char>, name: Seq<char>) -> Seq<char> {
    aux_path_of(bin, name, "tsconfig.json"@)
}

/// The lock file's copy next to the launcher.
pub open spec fn lock_copy_of(bin: Seq<char>, name: Seq<char>) -> Seq<char> {
    aux_path_of(bin, name, "lock.json"@)
}

/// The type configuration flag, pointing at the copy.
pub open spec fn config_tokens(f: Flags, bin: Seq<char>, name: Seq<char>) -> Seq<Seq<char>> {
    if f.config_path is Some {
        seq!["--config"@, config_copy_of(bin, name)]
    } else {
        seq![]
    }
}

/// The lock file flag, pointing at the copy.
pub open spec fn lock_tokens(f: Flags, bin: Seq<char>, name: Seq<char>) -> Seq<Seq<char>> {
    if f.lock is Some {
        seq!["--lock"@, lock_copy_of(bin, name)]
    } else {
        seq![]
    }
}

/// The whole command line a launcher replays, given valid log tokens.
pub open spec fn launcher_args(
    f: Flags,
    logs: Seq<Seq<char>>,
    import_map: Option<Seq<char>>,
    module: Seq<char>,
    extra: Seq<Seq<char>>,
    bin: Seq<char>,
    name: Seq<char>,
) -> Seq<Seq<char>> {
    head_tokens(f, logs) + v8_tokens(f) + seed_tokens(f) + flag_eq("--inspect="@, opt_view(f.inspect))
        + flag_eq("--inspect-brk="@, opt_view(f.inspect_brk)) + flag_pair("--import-map"@, import_map)
        + config_tokens(f, bin, name) + lock_tokens(f, bin, name) + seq![module] + extra
}

/// Relies on u64's `to_string` (its `Display`): the decimal digits, with no
/// sign or padding.
#[verifier::external_body]
fn u64_to_decimal(n: u64) -> (r: String)
    ensures
        r@ == decimal(n as nat),
{
    n.to_string()
}

fn push_token(v: &mut Vec<String>, s: String)
    ensures
        views(final(v)@) == views(old(v)@).push(s@),
{
    v.push(s);
    proof {
        assert(views(final(v)@) =~= views(old(v)@).push(s@));
    }
}

fn push_str(v: &mut Vec<String>, s: &str)
    ensures
        views(final(v)@) == views(old(v)@).push(s@),
{
    push_token(v, String::from_str(s));
}

/// Joins strings with a separator.
pub fn join_strings(parts: &Vec<String>, sep: &str) -> (r: String)
    ensures
        r@ == joined(views(parts@), sep@),
{
    let n = parts.len();
    if n == 0 {
        proof {
            assert(views(parts@).len() == 0);
        }
        return String::new();
    }
    let mut acc = parts[0].clone();
    let mut i: usize = 1;
    proof {
        assert(views(parts@.subrange(0, 1)) =~= seq![parts@[0]@]);
    }
    while i < n
        invariant
            1 <= i <= n == parts@.len(),
            acc@ == joined(views(parts@.subrange(0, i as int)), sep@),
        decreases n - i,
    {
        proof {
            let s = views(parts@.subrange(0, i + 1));
            assert(s.drop_last() =~= views(parts@.subrange(0, i as int)));
            assert(s.last() == parts@[i as int]@);
        }
        acc = acc.concat(sep).concat(parts[i].as_str());
        i = i + 1;
    }
    proof {
        assert(parts@.subrange(0, n as int) =~= parts@);
    }
    acc
}

/// Joins strings with commas.
pub fn join_with_commas(parts: &Vec<String>) -> (r: String)
    ensures
        r@ == join_commas(views(parts@)),
{
    join_strings(parts, ",")
}

fn push_scoped(v: &mut Vec<String>, bare: &str, with_eq: &str, grant: &Option<Vec<String>>)
    ensures
        views(final(v)@) == views(old(v)@) + scoped_tokens(bare@, with_eq@, *grant),
{
    match grant {
        None => {
            assert(views(old(v)@) + seq![] =~= views(old(v)@));
        },
        Some(l) => {
            if l.len() == 0 {
                push_str(v, bare);
            } else {
                let j = join_with_commas(l);
                push_token(v, String::from_str(with_eq).concat(j.as_str()));
            }
            assert(views(final(v)@) =~= views(old(v)@) + scoped_tokens(bare@, with_eq@, *grant));
        },
    }
}

fn push_flag(v: &mut Vec<String>, b: bool, tok: &str)
    ensures
        views(final(v)@) == views(old(v)@) + flag_token(b, tok@),
{
    if b {
        push_str(v, tok);
    }
    assert(views(final(v)@) =~= views(old(v)@) + flag_token(b, tok@));
}

fn push_pair(v: &mut Vec<String>, flag: &str, val: &Option<String>)
    ensures
        views(final(v)@) == views(old(v)@) + flag_pair(flag@, opt_view(*val)),
{
    if let Some(x) = val {
        push_str(v, flag);
        push_token(v, x.clone());
    }
    assert(views(final(v)@) =~= views(old(v)@) + flag_pair(flag@, opt_view(*val)));
}

fn push_eq(v: &mut Vec<String>, flag: &str, val: &Option<String>)
    ensures
        views(final(v)@) == views(old(v)@) + flag_eq(flag@, opt_view(*val)),
{
    if let Some(x) = val {
        push_token(v, String::from_str(flag).concat(x.as_str()));
    }
    assert(views(final(v)@) =~= views(old(v)@) + flag_eq(flag@, opt_view(*val)));
}

fn push_all(v: &mut Vec<String>, extra: &Vec<String>)
    ensures
        views(final(v)@) == views(old(v)@) + views(extra@),
{
    let mut i: usize = 0;
    while i < extra.len()
        invariant
            i <= extra@.len(),
            views(v@) == views(old(v)@) + views(extra@.subrange(0, i as int)),
        decreases extra@.len() - i,
    {
        push_token(v, extra[i].clone());
        proof {
            assert(views(extra@.subrange(0, i + 1)) =~= views(extra@.subrange(0, i as int)).push(
                extra@[i as int]@,
            ));
        }
        i = i + 1;
    }
    proof {
        assert(extra@.subrange(0, extra@.len() as int) =~= extra@);
    }
}

/// The URL text of an optional resolved reference.
pub open spec fn href_of(u: Option<ModuleUrl>) -> Option<Seq<char>> {
    match u {
        Some(m) => Some(m.href@),
        None => None,
    }
}

fn push_permissions(v: &mut Vec<String>, f: &Flags)
    ensures
        views(final(v)@) == views(old(v)@) + permission_tokens(*f),
{
    push_scoped(v, "--allow-read", "--allow-read=", &f.allow_read);
    push_scoped(v, "--allow-write", "--allow-write=", &f.allow_write);
    push_scoped(v, "--allow-net", "--allow-net=", &f.allow_net);
    push_scoped(v, "--allow-env", "--allow-env=", &f.allow_env);
    push_scoped(v, "--allow-run", "--allow-run=", &f.allow_run);
    push_flag(v, f.allow_plugin, "--allow-plugin");
    push_flag(v, f.allow_hrtime, "--allow-hrtime");
    assert(views(final(v)@) =~= views(old(v)@) + permission_tokens(*f));
}

/// Pushes the log level's tokens; false for a level that has no flag.
fn push_log_level(v: &mut Vec<String>, l: Option<LogLevel>) -> (ok: bool)
    ensures
        ok == log_tokens(l) is Some,
        ok ==> views(final(v)@) == views(old(v)@) + log_tokens(l).unwrap(),
{
    match l {
        None => {},
        Some(LogLevel::Error) => push_str(v, "--quiet"),
        Some(LogLevel::Info) => push_str(v, "--log-level=info"),
        Some(LogLevel::Debug) => push_str(v, "--log-level=debug"),
        Some(_) => {
            return false;
        },
    }
    assert(views(final(v)@) =~= views(old(v)@) + log_tokens(l).unwrap());
    true
}

fn push_head(v: &mut Vec<String>, f: &Flags) -> (ok: bool)
    requires
        old(v)@.len() == 0,
    ensures
        ok == log_tokens(f.log_level) is Some,
        ok ==> views(final(v)@) == head_tokens(*f, log_tokens(f.log_level).unwrap()),
{
    push_str(v, "run");
    push_permissions(v, f);
    push_pair(v, "--location", &f.location);
    push_pair(v, "--cert", &f.ca_file);
    if !push_log_level(v, f.log_level) {
        return false;
    }
    push_flag(v, f.no_check, "--no-check");
    push_flag(v, f.unstable, "--unstable");
    push_flag(v, f.no_remote, "--no-remote");
    push_flag(v, f.lock_write, "--lock-write");
    push_flag(v, f.cached_only, "--cached-only");
    assert(views(old(v)@) =~= seq![]);
    assert(views(final(v)@) =~= head_tokens(*f, log_tokens(f.log_level).unwrap()));
    true
}

fn push_config(v: &mut Vec<String>, f: &Flags, bin: &str, name: &str)
    ensures
        views(final(v)@) == views(old(v)@) + config_tokens(*f, bin@, name@),
{
    if f.config_path.is_some() {
        push_str(v, "--config");
        push_token(v, aux_path(bin, name, "tsconfig.json"));
    }
    assert(views(final(v)@) =~= views(old(v)@) + config_tokens(*f, bin@, name@));
}

fn push_lock(v: &mut Vec<String>, f: &Flags, bin: &str, name: &str)
    ensures
        views(final(v)@) == views(old(v)@) + lock_tokens(*f, bin@, name@),
{
    if f.lock.is_some() {
        push_str(v, "--lock");
        push_token(v, aux_path(bin, name, "lock.json"));
    }
    assert(views(final(v)@) =~= views(old(v)@) + lock_tokens(*f, bin@, name@));
}

fn push_v8(v: &mut Vec<String>, f: &Flags)
    ensures
        views(final(v)@) == views(old(v)@) + v8_tokens(*f),
{
    if f.v8_flags.len() > 0 {
        let j = join_with_commas(&f.v8_flags);
        push_token(v, String::from_str("--v8-flags=").concat(j.as_str()));
    }
    assert(views(final(v)@) =~= views(old(v)@) + v8_tokens(*f));
}

fn push_seed(v: &mut Vec<String>, f: &Flags)
    ensures
        views(final(v)@) == views(old(v)@) + seed_tokens(*f),
{
    if let Some(seed) = f.seed {
        push_str(v, "--seed");
        push_token(v, u64_to_decimal(seed));
    }
    assert(views(final(v)@) =~= views(old(v)@) + seed_tokens(*f));
}

fn push_import_map(v: &mut Vec<String>, import_map: &Option<ModuleUrl>)
    ensures
        views(final(v)@) == views(old(v)@) + flag_pair("--import-map"@, href_of(*import_map)),
{
    if let Some(u) = import_map {
        push_str(v, "--import-map");
        push_token(v, u.href.clone());
    }
    assert(views(final(v)@) =~= views(old(v)@) + flag_pair("--import-map"@, href_of(*import_map)));
}

fn push_tail(v: &mut Vec<String>, f: &Flags, import_map: &Option<ModuleUrl>, bin: &str, name: &str)
    ensures
        views(final(v)@) == views(old(v)@) + v8_tokens(*f) + seed_tokens(*f) + flag_eq(
            "--inspect="@,
            opt_view(f.inspect),
        ) + flag_eq("--inspect-brk="@, opt_view(f.inspect_brk)) + flag_pair(
            "--import-map"@,
            href_of(*import_map),
        ) + config_tokens(*f, bin@, name@) + lock_tokens(*f, bin@, name@),
{
    push_v8(v, f);
    push_seed(v, f);
    push_eq(v, "--inspect=", &f.inspect);
    push_eq(v, "--inspect-brk=", &f.inspect_brk);
    push_import_map(v, import_map);
    push_config(v, f, bin, name);
    push_lock(v, f, bin, name);
}

/// Builds the command line a launcher for `name` in `bin` replays: the
/// run subcommand, the flags in their fixed order, the module URL, then the
/// passthrough arguments. Fails only on a log level that has no flag.
pub fn serialize_args(
    f: &Flags,
    import_map: &Option<ModuleUrl>,
    module: &ModuleUrl,
    extra: &Vec<String>,
    bin: &str,
    name: &str,
) -> (r: Result<Vec<String>, InstallError>)
    ensures
        log_tokens(f.log_level) is None ==> r == Err::<Vec<String>, InstallError>(
            InstallError::InvalidLogLevel,
        ),
        log_tokens(f.log_level) is Some ==> (r matches Ok(v) && views(v@) == launcher_args(
            *f,
            log_tokens(f.log_level).unwrap(),
            href_of(*import_map),
            module.href@,
            views(extra@),
            bin@,
            name@,
        )),
{
    let mut v: Vec<String> = Vec::new();
    if !push_head(&mut v, f) {
        return Err(InstallError::InvalidLogLevel);
    }
    push_tail(&mut v, f, import_map, bin, name);
    push_token(&mut v, module.href.clone());
    push_all(&mut v, extra);
    assert(views(v@) =~= launcher_args(
        *f,
        log_tokens(f.log_level).unwrap(),
        href_of(*import_map),
        module.href@,
        views(extra@),
        bin@,
        name@,
    ));
    Ok(v)
}

} // verus!
