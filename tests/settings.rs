use wasixcc::config::{LlvmLocation, ModuleKind, UserSettings};
use wasixcc::error::Error;
use wasixcc::settings::{
    bool_from_lowered, gather_user_settings, parse_module_kind, read_bool_user_setting,
    read_string_list_user_setting, separate_user_settings_args, try_get_user_setting_value,
};

#[test]
fn test_read_string_list_user_setting() {
    let value = "a:b\\:c:d";
    let list = read_string_list_user_setting(value);
    assert_eq!(list, vec!["a", "b:c", "d"]);
}

#[test]
fn list_items_are_trimmed_and_empty_ones_dropped() {
    let list = read_string_list_user_setting("  a :: b\\x : \\");
    assert_eq!(list, vec!["a", "b\\x", "\\"]);
    assert!(read_string_list_user_setting("").is_empty());
}

#[test]
fn test_read_bool_user_setting() {
    assert_eq!(read_bool_user_setting("1"), Some(true));
    assert_eq!(read_bool_user_setting("true"), Some(true));
    assert_eq!(read_bool_user_setting("Yes"), Some(true));
    assert_eq!(read_bool_user_setting("0"), Some(false));
    assert_eq!(read_bool_user_setting("false"), Some(false));
    assert_eq!(read_bool_user_setting("No"), Some(false));
    assert_eq!(read_bool_user_setting("invalid"), None);
}

#[test]
fn lowered_words() {
    assert_eq!(bool_from_lowered("yes"), Some(true));
    assert_eq!(bool_from_lowered("Yes"), None);
    assert_eq!(bool_from_lowered("no"), Some(false));
}

#[test]
fn test_separate_user_settings_args() {
    let args = vec![
        "-sA=1".to_string(),
        "-c".to_string(),
        "-sB=2".to_string(),
        "file.c".to_string(),
    ];
    let (settings, rest) = separate_user_settings_args(args.clone());
    assert_eq!(settings, vec!["-sA=1".to_string(), "-sB=2".to_string()]);
    assert_eq!(rest, vec!["-c".to_string(), "file.c".to_string()]);
}

#[test]
fn arguments_after_double_dash_are_tool_arguments() {
    let args: Vec<String> = ["-sA=1", "--", "-sB=2", "--", "x", "-s"]
        .iter()
        .map(|s| s.to_string())
        .collect();
    let (settings, rest) = separate_user_settings_args(args);
    assert_eq!(settings, vec!["-sA=1".to_string()]);
    assert_eq!(rest, vec!["-sB=2".to_string(), "x".to_string(), "-s".to_string()]);
}

#[test]
fn test_try_get_user_setting_value_arg_and_env() {
    let args = vec!["-sFOO=bar".to_string()];
    let env: Vec<(String, String)> = Vec::new();
    let got = try_get_user_setting_value("FOO", &args, &env);
    assert_eq!(got, Some("bar".to_string()));
    // fallback to env
    let args2: Vec<String> = Vec::new();
    let env2 = vec![("WASIXCC_FOO".to_string(), "baz".to_string())];
    let got2 = try_get_user_setting_value("FOO", &args2, &env2);
    assert_eq!(got2, Some("baz".to_string()));
}

#[test]
fn argument_value_stops_at_next_equals_and_wins_over_env() {
    let args = vec!["-sFOOD=x".to_string(), "-sFOO=a=b".to_string()];
    let env = vec![("WASIXCC_FOO".to_string(), "env".to_string())];
    assert_eq!(try_get_user_setting_value("FOO", &args, &env), Some("a".to_string()));
    assert_eq!(try_get_user_setting_value("BAR", &args, &env), None);
}

#[test]
fn test_gather_user_settings() {
    let args = vec![
        "-sSYSROOT=/sys".to_string(),
        "-sCOMPILER_FLAGS=a:b".to_string(),
        "-sLINKER_FLAGS=x:y".to_string(),
        "-sRUN_WASM_OPT=1".to_string(),
        "-sWASM_OPT_FLAGS=m:n".to_string(),
        "-sMODULE_KIND=shared-library".to_string(),
        "-sWASM_EXCEPTIONS=yes".to_string(),
        "-sPIC=false".to_string(),
    ];
    let env: Vec<(String, String)> = Vec::new();
    let settings = gather_user_settings(&args, &env, None).unwrap();
    assert_eq!(settings.sysroot_location, Some("/sys".to_string()));
    assert_eq!(
        settings.extra_compiler_flags,
        vec!["a".to_string(), "b".to_string()]
    );
    assert_eq!(
        settings.extra_linker_flags,
        vec!["x".to_string(), "y".to_string()]
    );
    assert_eq!(settings.run_wasm_opt, Some(true));
    assert_eq!(
        settings.wasm_opt_flags,
        vec!["m".to_string(), "n".to_string()]
    );
    assert_eq!(settings.module_kind, Some(ModuleKind::SharedLibrary));
    assert!(settings.wasm_exceptions);
    assert!(!settings.pic);
}

#[test]
fn gathered_defaults() {
    let args: Vec<String> = Vec::new();
    let env: Vec<(String, String)> = Vec::new();
    let us = gather_user_settings(&args, &env, Some("/home/u".to_string())).unwrap();
    assert!(us.link_symbolic);
    assert_eq!(us.run_wasm_opt, None);
    assert_eq!(us.sysroot_prefix, Some("/home/u/.wasixcc/sysroot".to_string()));
    match &us.llvm_location {
        LlvmLocation::DefaultPath(p) => assert_eq!(p, "/home/u/.wasixcc/llvm"),
        other => panic!("unexpected {:?}", other),
    }
    let us = gather_user_settings(&args, &env, None).unwrap();
    assert_eq!(us.sysroot_prefix(), "/lib/wasixcc/sysroot");
    let env = vec![("WASIXCC_WASM_OPT_FLAGS".to_string(), "-O3".to_string())];
    let us = gather_user_settings(&args, &env, None).unwrap();
    assert_eq!(us.run_wasm_opt, Some(true));
}

#[test]
fn invalid_settings_are_reported() {
    let env: Vec<(String, String)> = Vec::new();
    let args = vec!["-sPIC=maybe".to_string(), "-sMODULE_KIND=bogus".to_string()];
    match gather_user_settings(&args, &env, None) {
        Err(Error::UnknownModuleKind(k)) => assert_eq!(k, "bogus"),
        other => panic!("unexpected {:?}", other.map(|_| ())),
    }
    let args = vec!["-sPIC=maybe".to_string()];
    match gather_user_settings(&args, &env, None) {
        Err(Error::InvalidSetting(n, v)) => {
            assert_eq!(n, "PIC");
            assert_eq!(v, "maybe");
        }
        other => panic!("unexpected {:?}", other.map(|_| ())),
    }
    assert_eq!(parse_module_kind("object-file").unwrap(), ModuleKind::ObjectFile);
    assert!(matches!(parse_module_kind("unknown"), Err(Error::UnknownModuleKind(_))));
    let _ = UserSettings::default();
}

#[test]
fn list_pieces_before_trimming() {
    let pieces = wasixcc::settings::split_list_setting(" a :b\\:c::\\");
    assert_eq!(pieces, vec![" a ", "b:c", "", "\\"]);
}
