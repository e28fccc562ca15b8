use installer::args::{Flags, LogLevel};
use installer::error::InstallError;
use installer::install::{plan_install, resolve_import_map, InstallPlan, InstallRequest};
use installer::module_url::{infer_name_from_url, resolve_url_or_path, ModuleUrl};
use installer::name::resolve_name;
use installer::root::{bin_dir, launcher_path, locate_root, Environment, RootChoice, ScriptDialect};

const CWD: &str = "/work/project";

fn infer(s: &str) -> Option<String> {
    infer_name_from_url(&ModuleUrl::parse(s).unwrap())
}

fn root_dir(choice: RootChoice) -> String {
    match choice {
        RootChoice::Canonicalize(p) => p,
        RootChoice::Plain(p) => p,
    }
}

/// Runs the decisions of an installation into `root` with nothing on disk.
fn plan_in(
    flags: Flags,
    module: &str,
    args: Vec<String>,
    name: Option<String>,
    root: &str,
    d: ScriptDialect,
    exists: bool,
    force: bool,
    config: Option<String>,
) -> Result<(String, InstallPlan), InstallError> {
    let bin = bin_dir(root);
    let module = resolve_url_or_path(module, CWD)?;
    let name = resolve_name(name, &module)?;
    let import_map = resolve_import_map(&flags, CWD)?;
    let req = InstallRequest { flags, module, args, force };
    let plan = plan_install(&req, d, &bin, &name, exists, &import_map, config, None)?;
    Ok((launcher_path(&bin, &name, d), plan))
}

fn posix_content(plan: &InstallPlan) -> String {
    assert_eq!(plan.launchers.len(), 1);
    plan.launchers[0].content.clone()
}

#[test]
fn install_infer_name_from_url() {
    assert_eq!(infer("https://example.com/abc/server.ts"), Some("server".to_string()));
    assert_eq!(infer("https://example.com/abc/main.ts"), Some("abc".to_string()));
    assert_eq!(infer("https://example.com/abc/mod.ts"), Some("abc".to_string()));
    assert_eq!(infer("https://example.com/abc/index.ts"), Some("abc".to_string()));
    assert_eq!(infer("https://example.com/abc/cli.ts"), Some("abc".to_string()));
    assert_eq!(infer("https://example.com/main.ts"), Some("main".to_string()));
    assert_eq!(infer("https://example.com"), None);
    assert_eq!(infer("file:///abc/server.ts"), Some("server".to_string()));
    assert_eq!(infer("file:///abc/main.ts"), Some("abc".to_string()));
    assert_eq!(infer("file:///main.ts"), Some("main".to_string()));
    assert_eq!(infer("file:///"), None);
    assert_eq!(infer("https://example.com/abc@0.1.0"), Some("abc".to_string()));
    assert_eq!(infer("https://example.com/abc@0.1.0/main.ts"), Some("abc".to_string()));
    assert_eq!(infer("https://example.com/abc@def@ghi"), Some("abc".to_string()));
}

#[test]
fn install_basic() {
    let env = Environment { install_root: Some(String::new()), home: Some("/home/u".to_string()) };
    let root = root_dir(locate_root(None, &env, ScriptDialect::Posix).unwrap());
    assert_eq!(root, "/home/u/.deno");
    let (path, plan) = plan_in(
        Flags::default(),
        "http://localhost:4545/echo_server.ts",
        vec![],
        Some("echo_test".to_string()),
        &root,
        ScriptDialect::Posix,
        false,
        false,
        None,
    )
    .expect("Install failed");
    assert_eq!(path, "/home/u/.deno/bin/echo_test");
    let content = posix_content(&plan);
    assert_eq!(content.chars().last().unwrap(), '\n');
    assert!(content.contains(r#"run 'http://localhost:4545/echo_server.ts'"#));

    let (path, plan) = plan_in(
        Flags::default(),
        "http://localhost:4545/echo_server.ts",
        vec![],
        Some("echo_test".to_string()),
        &root,
        ScriptDialect::DualWindows,
        false,
        false,
        None,
    )
    .expect("Install failed");
    assert_eq!(path, "/home/u/.deno/bin/echo_test.cmd");
    let content = plan.launchers[0].content.clone();
    assert_eq!(content.chars().last().unwrap(), '\n');
    assert!(content.contains(r#""run" "http://localhost:4545/echo_server.ts""#));
}

#[test]
fn install_unstable() {
    let (_, plan) = plan_in(
        Flags { unstable: true, ..Flags::default() },
        "http://localhost:4545/echo_server.ts",
        vec![],
        Some("echo_test".to_string()),
        "/tmp/root",
        ScriptDialect::Posix,
        false,
        false,
        None,
    )
    .expect("Install failed");
    assert!(posix_content(&plan)
        .contains(r#"run --unstable 'http://localhost:4545/echo_server.ts'"#));
}

#[test]
fn install_inferred_name() {
    let (path, plan) = plan_in(
        Flags::default(),
        "http://localhost:4545/echo_server.ts",
        vec![],
        None,
        "/tmp/root",
        ScriptDialect::Posix,
        false,
        false,
        None,
    )
    .expect("Install failed");
    assert_eq!(path, "/tmp/root/bin/echo_server");
    assert!(posix_content(&plan).contains(r#"run 'http://localhost:4545/echo_server.ts'"#));
}

#[test]
fn install_inferred_name_from_parent() {
    let (path, plan) = plan_in(
        Flags::default(),
        "http://localhost:4545/subdir/main.ts",
        vec![],
        None,
        "/tmp/root",
        ScriptDialect::Posix,
        false,
        false,
        None,
    )
    .expect("Install failed");
    assert_eq!(path, "/tmp/root/bin/subdir");
    assert!(posix_content(&plan).contains(r#"run 'http://localhost:4545/subdir/main.ts'"#));
}

#[test]
fn install_custom_dir_option() {
    let env = Environment { install_root: None, home: None };
    let choice = locate_root(Some("/tmp/custom".to_string()), &env, ScriptDialect::Posix).unwrap();
    assert_eq!(choice, RootChoice::Canonicalize("/tmp/custom".to_string()));
    let (path, plan) = plan_in(
        Flags::default(),
        "http://localhost:4545/echo_server.ts",
        vec![],
        Some("echo_test".to_string()),
        &root_dir(choice),
        ScriptDialect::Posix,
        false,
        false,
        None,
    )
    .expect("Install failed");
    assert_eq!(path, "/tmp/custom/bin/echo_test");
    assert!(posix_content(&plan).contains(r#"run 'http://localhost:4545/echo_server.ts'"#));
}

#[test]
fn install_custom_dir_env_var() {
    let env = Environment {
        install_root: Some("/tmp/from_env".to_string()),
        home: Some("/home/u".to_string()),
    };
    let choice = locate_root(None, &env, ScriptDialect::Posix).unwrap();
    assert_eq!(choice, RootChoice::Canonicalize("/tmp/from_env".to_string()));
    let (path, plan) = plan_in(
        Flags::default(),
        "http://localhost:4545/echo_server.ts",
        vec![],
        Some("echo_test".to_string()),
        &root_dir(choice),
        ScriptDialect::Posix,
        false,
        false,
        None,
    )
    .expect("Install failed");
    assert_eq!(path, "/tmp/from_env/bin/echo_test");
    assert!(posix_content(&plan).contains(r#"run 'http://localhost:4545/echo_server.ts'"#));
}

fn with_flags() -> Flags {
    Flags {
        allow_net: Some(vec![]),
        allow_read: Some(vec![]),
        no_check: true,
        log_level: Some(LogLevel::Error),
        ..Flags::default()
    }
}

#[test]
fn install_with_flags() {
    let (_, plan) = plan_in(
        with_flags(),
        "http://localhost:4545/echo_server.ts",
        vec!["--foobar".to_string()],
        Some("echo_test".to_string()),
        "/tmp/root",
        ScriptDialect::Posix,
        false,
        false,
        None,
    )
    .expect("Install failed");
    assert!(posix_content(&plan).contains(
        r#"run --allow-read --allow-net --quiet --no-check 'http://localhost:4545/echo_server.ts' --foobar"#
    ));
    let (_, plan) = plan_in(
        with_flags(),
        "http://localhost:4545/echo_server.ts",
        vec!["--foobar".to_string()],
        Some("echo_test".to_string()),
        "/tmp/root",
        ScriptDialect::DualWindows,
        false,
        false,
        None,
    )
    .expect("Install failed");
    assert!(plan.launchers[0].content.contains(r#""run" "--allow-read" "--allow-net" "--quiet" "--no-check" "http://localhost:4545/echo_server.ts" "--foobar""#));
}

#[test]
fn install_local_module() {
    let local_module_url = url::Url::from_file_path("/work/project/echo_server.ts").unwrap();
    let (_, plan) = plan_in(
        Flags::default(),
        "echo_server.ts",
        vec![],
        Some("echo_test".to_string()),
        "/tmp/root",
        ScriptDialect::Posix,
        false,
        false,
        None,
    )
    .expect("Install failed");
    assert!(posix_content(&plan).contains(&local_module_url.to_string()));
}

#[test]
fn install_force() {
    let (_, plan) = plan_in(
        Flags::default(),
        "http://localhost:4545/echo_server.ts",
        vec![],
        Some("echo_test".to_string()),
        "/tmp/root",
        ScriptDialect::Posix,
        false,
        false,
        None,
    )
    .expect("Install failed");
    assert!(posix_content(&plan).contains("echo_server.ts"));

    // No force: refused, nothing planned.
    let no_force_result = plan_in(
        Flags::default(),
        "http://localhost:4545/cat.ts",
        vec![],
        Some("echo_test".to_string()),
        "/tmp/root",
        ScriptDialect::Posix,
        true,
        false,
        None,
    );
    assert!(no_force_result.is_err());
    let err = no_force_result.err().unwrap();
    assert_eq!(err, InstallError::AlreadyExists);
    assert!(err.message().contains("Existing installation found"));

    // Force: the launcher is rewritten for the new module.
    let force_result = plan_in(
        Flags::default(),
        "http://localhost:4545/cat.ts",
        vec![],
        Some("echo_test".to_string()),
        "/tmp/root",
        ScriptDialect::Posix,
        true,
        true,
        None,
    );
    assert!(force_result.is_ok());
    let (path, plan) = force_result.unwrap();
    assert_eq!(plan.launchers[0].path, path);
    assert!(posix_content(&plan).contains("cat.ts"));
}

#[test]
fn install_with_config() {
    let result = plan_in(
        Flags { config_path: Some("/tmp/root/test_tsconfig.json".to_string()), ..Flags::default() },
        "http://localhost:4545/cat.ts",
        vec![],
        Some("echo_test".to_string()),
        "/tmp/root",
        ScriptDialect::Posix,
        false,
        true,
        Some("{}".to_string()),
    );
    assert!(result.is_ok());
    let (_, plan) = result.unwrap();
    assert_eq!(plan.aux.len(), 1);
    assert_eq!(plan.aux[0].path, "/tmp/root/bin/echo_test.tsconfig.json");
    assert!(plan.aux[0].content == "{}");
    assert!(posix_content(&plan)
        .contains("--config /tmp/root/bin/echo_test.tsconfig.json 'http://localhost:4545/cat.ts'"));
}

#[test]
fn install_shell_escaping() {
    let (_, plan) = plan_in(
        Flags::default(),
        "http://localhost:4545/echo_server.ts",
        vec!["\"".to_string()],
        Some("echo_test".to_string()),
        "/tmp/root",
        ScriptDialect::Posix,
        false,
        false,
        None,
    )
    .expect("Install failed");
    assert!(posix_content(&plan).contains(r#"run 'http://localhost:4545/echo_server.ts' '"'"#));
}

#[test]
fn install_with_import_map() {
    let import_map_url = url::Url::from_file_path("/tmp/root/import_map.json").unwrap();
    let flags =
        Flags { import_map_path: Some("/tmp/root/import_map.json".to_string()), ..Flags::default() };
    let (_, plan) = plan_in(
        flags.clone(),
        "http://localhost:4545/cat.ts",
        vec![],
        Some("echo_test".to_string()),
        "/tmp/root",
        ScriptDialect::Posix,
        false,
        true,
        None,
    )
    .unwrap();
    let expected_string = format!(
        "--import-map '{}' 'http://localhost:4545/cat.ts'",
        import_map_url.to_string()
    );
    assert!(posix_content(&plan).contains(&expected_string));

    let (_, plan) = plan_in(
        flags,
        "http://localhost:4545/cat.ts",
        vec![],
        Some("echo_test".to_string()),
        "/tmp/root",
        ScriptDialect::DualWindows,
        false,
        true,
        None,
    )
    .unwrap();
    let expected_string = format!(
        "\"--import-map\" \"{}\" \"http://localhost:4545/cat.ts\"",
        import_map_url.to_string()
    );
    assert!(plan.launchers[0].content.contains(&expected_string));
}

#[test]
fn install_file_url() {
    let file_module_string = url::Url::from_file_path("/srv/testdata/cat.ts").unwrap().to_string();
    assert!(file_module_string.starts_with("file:///"));
    let (_, plan) = plan_in(
        Flags::default(),
        &file_module_string,
        vec![],
        Some("echo_test".to_string()),
        "/tmp/root",
        ScriptDialect::Posix,
        false,
        true,
        None,
    )
    .unwrap();
    let expected_string = format!("run '{}'", &file_module_string);
    assert!(posix_content(&plan).contains(&expected_string));
}
