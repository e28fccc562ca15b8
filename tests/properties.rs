use installer::args::{join_with_commas, serialize_args, Flags, LogLevel};
use installer::error::InstallError;
use installer::install::{check_bin_dir, check_existing, plan_install, resolve_import_map, InstallRequest, PathState};
use installer::module_url::{join_path, resolve_url_or_path, specifier_has_uri_scheme, ModuleUrl};
use installer::name::{infer_name_from_path, resolve_name, validate_name};
use installer::root::{aux_path, bin_dir, launcher_path, locate_root, Environment, RootChoice, ScriptDialect};
use installer::script::{emit, percent_doubled, render_cmd, render_companion, render_posix};

fn module(s: &str) -> ModuleUrl {
    ModuleUrl::parse(s).unwrap()
}

fn strings(v: &[&str]) -> Vec<String> {
    v.iter().map(|s| s.to_string()).collect()
}

fn request(flags: Flags, m: &str, args: Vec<String>, force: bool) -> InstallRequest {
    InstallRequest { flags, module: module(m), args, force }
}

#[test]
fn entry_point_stems_take_the_parent_name() {
    for stem in ["main", "mod", "index", "cli"] {
        let p = format!("/tools/{}.js", stem);
        assert_eq!(infer_name_from_path(&p), Some("tools".to_string()));
    }
    assert_eq!(infer_name_from_path("/tools/server.js"), Some("server".to_string()));
    assert_eq!(infer_name_from_path("/tools/main/"), Some("tools".to_string()));
    assert_eq!(infer_name_from_path("/a.b.c"), Some("a.b".to_string()));
    assert_eq!(infer_name_from_path("/.hidden"), Some(".hidden".to_string()));
    assert_eq!(infer_name_from_path(""), None);
    assert_eq!(infer_name_from_path("///"), None);
}

#[test]
fn inferred_names_stop_at_the_first_at_sign() {
    assert_eq!(infer_name_from_path("/x@1@2/y.ts"), Some("y".to_string()));
    assert_eq!(infer_name_from_path("/pkg@1.2.3/mod.ts"), Some("pkg".to_string()));
    assert_eq!(infer_name_from_path("/@scope"), Some("".to_string()));
    // a supplied name is not cut: it fails validation instead
    let r = resolve_name(Some("abc@1".to_string()), &module("https://example.com/x.ts"));
    assert_eq!(r, Err(InstallError::InvalidName { name: "abc@1".to_string() }));
}

#[test]
fn name_validation_accepts_the_documented_shape() {
    for ok in ["a", "echo_test", "Foo-Bar_9", "Z"] {
        assert!(validate_name(ok).is_ok(), "{}", ok);
    }
    for bad in ["", "1abc", "_a", "-a", "a b", "a/b", "a.b", "a@b"] {
        assert_eq!(validate_name(bad), Err(InstallError::InvalidName { name: bad.to_string() }));
    }
}

#[test]
fn missing_name_is_reported() {
    let r = resolve_name(None, &module("https://example.com"));
    assert_eq!(r, Err(InstallError::MissingName));
    assert!(r.unwrap_err().message().contains("could not be inferred"));
    assert_eq!(resolve_name(Some("given".to_string()), &module("https://example.com")), Ok("given".to_string()));
}

#[test]
fn root_precedence_and_home() {
    let env = Environment { install_root: Some(String::new()), home: None };
    let e = locate_root(None, &env, ScriptDialect::Posix).unwrap_err();
    assert_eq!(e, InstallError::HomeNotFound { var: "HOME".to_string() });
    assert_eq!(e.message(), "$HOME is not defined");
    let e = locate_root(None, &env, ScriptDialect::DualWindows).unwrap_err();
    assert_eq!(e, InstallError::HomeNotFound { var: "USERPROFILE".to_string() });
    let env = Environment { install_root: None, home: Some("/h/".to_string()) };
    assert_eq!(locate_root(None, &env, ScriptDialect::Posix), Ok(RootChoice::Plain("/h/.deno".to_string())));
    let env = Environment { install_root: Some("/r".to_string()), home: Some("/h".to_string()) };
    assert_eq!(
        locate_root(Some("/x".to_string()), &env, ScriptDialect::Posix),
        Ok(RootChoice::Canonicalize("/x".to_string()))
    );
}

#[test]
fn bin_dir_must_be_a_directory() {
    assert_eq!(check_bin_dir(PathState::Missing), Ok(true));
    assert_eq!(check_bin_dir(PathState::Directory), Ok(false));
    assert_eq!(check_bin_dir(PathState::Other), Err(InstallError::NotADirectory));
    assert_eq!(check_existing(true, false), Err(InstallError::AlreadyExists));
    assert_eq!(check_existing(true, true), Ok(()));
    assert_eq!(check_existing(false, false), Ok(()));
}

#[test]
fn paths_under_the_root() {
    assert_eq!(bin_dir("/r"), "/r/bin");
    assert_eq!(bin_dir("/r/"), "/r/bin");
    assert_eq!(launcher_path("/r/bin", "tool", ScriptDialect::Posix), "/r/bin/tool");
    assert_eq!(launcher_path("/r/bin", "tool", ScriptDialect::DualWindows), "/r/bin/tool.cmd");
    assert_eq!(aux_path("/r/bin", "tool", "lock.json"), "/r/bin/tool.lock.json");
    assert_eq!(join_path("/a", "/b"), "/b");
}

#[test]
fn serialized_tokens_for_read_net_quiet_no_check() {
    let flags = Flags {
        allow_read: Some(vec![]),
        allow_net: Some(vec![]),
        log_level: Some(LogLevel::Error),
        no_check: true,
        ..Flags::default()
    };
    let m = module("http://localhost:4545/echo_server.ts");
    let v = serialize_args(&flags, &None, &m, &strings(&["a", "b c"]), "/r/bin", "t").unwrap();
    assert_eq!(
        v,
        strings(&[
            "run",
            "--allow-read",
            "--allow-net",
            "--quiet",
            "--no-check",
            "http://localhost:4545/echo_server.ts",
            "a",
            "b c",
        ])
    );
}

#[test]
fn serialized_tokens_in_full_order() {
    let flags = Flags {
        allow_read: Some(strings(&["/a", "/b"])),
        allow_write: Some(vec![]),
        allow_net: Some(strings(&["example.com"])),
        allow_env: Some(vec![]),
        allow_run: Some(vec![]),
        allow_plugin: true,
        allow_hrtime: true,
        location: Some("https://loc.example/".to_string()),
        ca_file: Some("/ca.pem".to_string()),
        log_level: Some(LogLevel::Debug),
        no_check: true,
        unstable: true,
        no_remote: true,
        lock_write: true,
        cached_only: true,
        v8_flags: strings(&["--a", "--b"]),
        seed: Some(18446744073709551615),
        inspect: Some("127.0.0.1:9229".to_string()),
        inspect_brk: Some("127.0.0.1:9230".to_string()),
        import_map_path: Some("/m.json".to_string()),
        config_path: Some("/c.json".to_string()),
        lock: Some("/l.json".to_string()),
    };
    let map = resolve_import_map(&flags, "/").unwrap();
    let m = module("https://x.example/mod.ts");
    let v = serialize_args(&flags, &map, &m, &strings(&["--x"]), "/r/bin", "t").unwrap();
    assert_eq!(
        v,
        strings(&[
            "run",
            "--allow-read=/a,/b",
            "--allow-write",
            "--allow-net=example.com",
            "--allow-env",
            "--allow-run",
            "--allow-plugin",
            "--allow-hrtime",
            "--location",
            "https://loc.example/",
            "--cert",
            "/ca.pem",
            "--log-level=debug",
            "--no-check",
            "--unstable",
            "--no-remote",
            "--lock-write",
            "--cached-only",
            "--v8-flags=--a,--b",
            "--seed",
            "18446744073709551615",
            "--inspect=127.0.0.1:9229",
            "--inspect-brk=127.0.0.1:9230",
            "--import-map",
            "file:///m.json",
            "--config",
            "/r/bin/t.tsconfig.json",
            "--lock",
            "/r/bin/t.lock.json",
            "https://x.example/mod.ts",
            "--x",
        ])
    );
}

#[test]
fn log_levels_map_to_flags_or_fail() {
    let m = module("https://x.example/a.ts");
    let tok = |l: LogLevel| {
        serialize_args(&Flags { log_level: Some(l), ..Flags::default() }, &None, &m, &vec![], "/b", "a")
    };
    assert_eq!(tok(LogLevel::Info).unwrap()[1], "--log-level=info");
    assert_eq!(tok(LogLevel::Debug).unwrap()[1], "--log-level=debug");
    assert_eq!(tok(LogLevel::Error).unwrap()[1], "--quiet");
    assert_eq!(tok(LogLevel::Warn), Err(InstallError::InvalidLogLevel));
    assert_eq!(tok(LogLevel::Trace), Err(InstallError::InvalidLogLevel));
    assert_eq!(serialize_args(&Flags { seed: Some(0), ..Flags::default() }, &None, &m, &vec![], "/b", "a").unwrap()[2], "0");
}

#[test]
fn config_copy_is_referenced_and_staged() {
    let req = request(
        Flags { config_path: Some("/src/deno.json".to_string()), ..Flags::default() },
        "https://x.example/tool.ts",
        vec![],
        false,
    );
    let plan = plan_install(&req, ScriptDialect::Posix, "/r/bin", "tool", false, &None, Some("{\"a\":1}".to_string()), None).unwrap();
    assert_eq!(plan.aux.len(), 1);
    assert_eq!(plan.aux[0].path, "/r/bin/tool.tsconfig.json");
    assert_eq!(plan.aux[0].content, "{\"a\":1}");
    assert!(plan.args.windows(2).any(|w| w[0] == "--config" && w[1] == "/r/bin/tool.tsconfig.json"));
    let e = plan_install(&req, ScriptDialect::Posix, "/r/bin", "tool", false, &None, None, None).unwrap_err();
    assert_eq!(e, InstallError::AuxiliaryFileRead { path: "/src/deno.json".to_string() });
}

#[test]
fn force_rewrites_launcher_and_aux_files() {
    let flags = Flags { lock: Some("/src/lock.json".to_string()), ..Flags::default() };
    let first = plan_install(
        &request(flags.clone(), "https://x.example/one.ts", vec![], false),
        ScriptDialect::Posix, "/r/bin", "tool", false, &None, None, Some("old".to_string()),
    )
    .unwrap();
    assert!(first.launchers[0].content.contains("one.ts"));
    let refused = plan_install(
        &request(flags.clone(), "https://x.example/two.ts", vec![], false),
        ScriptDialect::Posix, "/r/bin", "tool", true, &None, None, Some("new".to_string()),
    );
    assert_eq!(refused.err(), Some(InstallError::AlreadyExists));
    let forced = plan_install(
        &request(flags, "https://x.example/two.ts", vec![], true),
        ScriptDialect::Posix, "/r/bin", "tool", true, &None, None, Some("new".to_string()),
    )
    .unwrap();
    assert_eq!(forced.launchers[0].path, first.launchers[0].path);
    assert!(forced.launchers[0].content.contains("two.ts"));
    assert!(!forced.launchers[0].content.contains("one.ts"));
    assert_eq!(forced.aux[0].path, "/r/bin/tool.lock.json");
    assert_eq!(forced.aux[0].content, "new");
}

#[test]
fn posix_script_exact_text() {
    let s = render_posix(&strings(&["run", "it's", "a b", "%x", "hi!", "", "ok=1"]));
    assert_eq!(
        s,
        "#!/bin/sh\n# generated by deno install\nexec deno run 'it'\\''s' 'a b' '%x' 'hi'\\!'' '' ok=1 \"$@\"\n"
    );
}

#[test]
fn batch_scripts_exact_text() {
    let a = strings(&["run", "50%", "a b"]);
    assert_eq!(render_cmd(&a), "% generated by deno install %\n@deno \"run\" \"50%%\" \"a b\" %*\n");
    assert_eq!(
        render_companion(&a),
        "#!/bin/sh\n# generated by deno install\ndeno \"run\" \"50%\" \"a b\" \"$@\"\n"
    );
    assert_eq!(percent_doubled("%%a%"), "%%%%a%%");
    let files = emit(ScriptDialect::DualWindows, "/r/bin", "t", &a);
    assert_eq!(files.len(), 2);
    assert_eq!(files[0].path, "/r/bin/t.cmd");
    assert_eq!(files[1].path, "/r/bin/t");
    assert!(!files[0].executable);
    let files = emit(ScriptDialect::Posix, "/r/bin", "t", &a);
    assert_eq!(files.len(), 1);
    assert!(files[0].executable);
}

/// Splits a line into words as `sh` does for quotes, backslashes and spaces.
fn sh_split(line: &str) -> Vec<String> {
    let mut words = Vec::new();
    let mut cur = String::new();
    let mut started = false;
    let mut quoted = false;
    let mut chars = line.chars();
    while let Some(c) = chars.next() {
        if quoted {
            if c == '\'' { quoted = false } else { cur.push(c) }
        } else if c == ' ' {
            if started { words.push(std::mem::take(&mut cur)) }
            started = false;
        } else if c == '\'' {
            quoted = true;
            started = true;
        } else if c == '\\' {
            started = true;
            if let Some(n) = chars.next() { cur.push(n) }
        } else {
            started = true;
            cur.push(c)
        }
    }
    if started { words.push(cur) }
    words
}

#[test]
fn shell_words_round_trip() {
    let tokens = strings(&["\"", "it's", "a b", "100%", "$HOME", "`x`", "", "!", "plain", "a'b'c", "  "]);
    let s = render_posix(&tokens);
    let prefix = "#!/bin/sh\n# generated by deno install\nexec deno ";
    let line = &s[prefix.len()..s.len() - " \"$@\"\n".len()];
    assert_eq!(sh_split(line), tokens);
}

/// Reads double-quoted batch arguments back: quotes group, `%%` is `%`.
fn cmd_split(line: &str) -> Vec<String> {
    let mut words = Vec::new();
    let mut cur = String::new();
    let mut quoted = false;
    let mut chars = line.chars().peekable();
    while let Some(c) = chars.next() {
        if c == '"' {
            quoted = !quoted;
            if !quoted {
                words.push(std::mem::take(&mut cur));
            }
        } else if c == '%' && chars.peek() == Some(&'%') {
            chars.next();
            cur.push('%');
        } else if quoted {
            cur.push(c);
        }
    }
    words
}

#[test]
fn batch_words_round_trip() {
    let tokens = strings(&["run", "100%", "%PATH%", "a b", "it's", "%%"]);
    let s = render_cmd(&tokens);
    let prefix = "% generated by deno install %\n@deno ";
    let line = &s[prefix.len()..s.len() - " %*\n".len()];
    assert_eq!(cmd_split(line), tokens);
}
