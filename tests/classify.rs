use wasixcc::classify::{
    deduce_module_kind, prepare_compiler_args, prepare_linker_args,
    update_build_settings_from_arg,
};
use wasixcc::config::{BuildSettings, DebugLevel, ModuleKind, OptLevel, UserSettings};
use wasixcc::error::Error;

fn strings(items: &[&str]) -> Vec<String> {
    items.iter().map(|s| s.to_string()).collect()
}

#[test]
fn test_deduce_module_kind() {
    assert_eq!(deduce_module_kind("o"), Some(ModuleKind::ObjectFile));
    assert_eq!(deduce_module_kind("so"), Some(ModuleKind::SharedLibrary));
    assert_eq!(deduce_module_kind("unknown"), None);
}

#[test]
fn test_update_build_settings_from_arg() {
    let mut bs = BuildSettings {
        opt_level: OptLevel::O0,
        debug_level: DebugLevel::NoDebug,
        use_wasm_opt: true,
    };
    let mut us = UserSettings::default();
    assert!(update_build_settings_from_arg("-O3", &mut bs, &mut us).unwrap());
    assert_eq!(bs.opt_level, OptLevel::O3);
    assert!(update_build_settings_from_arg("-g1", &mut bs, &mut us).unwrap());
    assert_eq!(bs.debug_level, DebugLevel::G1);
    assert!(!update_build_settings_from_arg("--no-wasm-opt", &mut bs, &mut us).unwrap());
    assert!(!update_build_settings_from_arg("-fwasm-exceptions", &mut bs, &mut us).unwrap());
    assert!(us.wasm_exceptions);
    assert!(update_build_settings_from_arg("-fno-wasm-exceptions", &mut bs, &mut us).unwrap());
    assert!(!us.wasm_exceptions);
}

#[test]
fn test_prepare_compiler_args_and_build_settings() {
    let mut us = UserSettings::default();
    let args = vec![
        "-O2".to_string(),
        "-g0".to_string(),
        "-fwasm-exceptions".to_string(),
        "--no-wasm-opt".to_string(),
        "-Wl,-foo,bar".to_string(),
        "-Xlinker".to_string(),
        "baz".to_string(),
        "-z".to_string(),
        "zo".to_string(),
        "-o".to_string(),
        "out".to_string(),
        "in.c".to_string(),
        "lib.o".to_string(),
    ];
    let (pa, bs) = prepare_compiler_args(args, &mut us, false).unwrap();
    assert_eq!(bs.opt_level, OptLevel::O2);
    assert_eq!(bs.debug_level, DebugLevel::G0);
    assert!(!bs.use_wasm_opt);
    assert!(us.wasm_exceptions);
    assert_eq!(pa.compiler_args, vec!["-O2".to_string(), "-g0".to_string()]);
    assert_eq!(
        pa.linker_args,
        vec![
            "-foo".to_string(),
            "bar".to_string(),
            "baz".to_string(),
            "-z".to_string(),
            "zo".to_string()
        ]
    );
    assert_eq!(pa.output, Some("out".to_string()));
    assert_eq!(pa.compiler_inputs, vec!["in.c".to_string()]);
    assert_eq!(pa.linker_inputs, vec!["lib.o".to_string()]);
}

#[test]
fn test_prepare_linker_args() {
    let mut us = UserSettings::default();
    let args = vec![
        "-o".to_string(),
        "out.wasm".to_string(),
        "-shared".to_string(),
        "-m".to_string(),
        "module".to_string(),
        "mod.wasm".to_string(),
    ];
    let pa = prepare_linker_args(args, &mut us).unwrap();
    assert_eq!(pa.output, Some("out.wasm".to_string()));
    assert_eq!(
        pa.linker_args,
        vec![
            "-shared".to_string(),
            "-m".to_string(),
            "module".to_string()
        ]
    );
    assert_eq!(pa.linker_inputs, vec!["mod.wasm".to_string()]);
    assert_eq!(us.module_kind, Some(ModuleKind::SharedLibrary));
}

#[test]
fn link_only_input_resolves_to_shared_library_with_pic() {
    let mut us = UserSettings::default();
    let args = strings(&["-o", "out.wasm", "-shared", "-m", "module", "mod.wasm"]);
    prepare_linker_args(args, &mut us).unwrap();
    assert_eq!(us.module_kind(), ModuleKind::SharedLibrary);
    assert!(us.pic);
}

#[test]
fn wl_flag_goes_to_linker_split_on_commas() {
    let mut us = UserSettings::default();
    let (pa, _) = prepare_compiler_args(strings(&["-Wl,-foo,bar"]), &mut us, false).unwrap();
    assert_eq!(pa.linker_args, strings(&["-foo", "bar"]));
    assert!(pa.compiler_args.is_empty());
    assert!(pa.compiler_inputs.is_empty() && pa.linker_inputs.is_empty());
}

#[test]
fn xlinker_value_goes_to_linker_only() {
    let mut us = UserSettings::default();
    let (pa, _) = prepare_compiler_args(strings(&["-Xlinker", "baz"]), &mut us, false).unwrap();
    assert_eq!(pa.linker_args, strings(&["baz"]));
    assert!(pa.compiler_args.is_empty());
}

#[test]
fn z_flag_keeps_flag_and_value() {
    let mut us = UserSettings::default();
    let (pa, _) = prepare_compiler_args(strings(&["-z", "zo"]), &mut us, false).unwrap();
    assert_eq!(pa.linker_args, strings(&["-z", "zo"]));
    assert!(pa.compiler_args.is_empty());
}

#[test]
fn trailing_value_flags_are_malformed() {
    for flag in ["-D", "-I", "-Xlinker", "-z", "-o", "-mllvm", "-mthread-model", "-L", "-target"] {
        let mut us = UserSettings::default();
        let r = prepare_compiler_args(strings(&["a.c", flag]), &mut us, false);
        match r {
            Err(Error::MissingValue(f)) => assert_eq!(f, flag),
            other => panic!("unexpected result for {flag}: {:?}", other.map(|_| ())),
        }
    }
    for flag in ["-o", "-m", "-L", "-l", "-O", "-y", "-z", "-mllvm"] {
        let mut us = UserSettings::default();
        match prepare_linker_args(strings(&["x.wasm", flag]), &mut us) {
            Err(Error::MissingValue(f)) => assert_eq!(f, flag),
            other => panic!("unexpected result for {flag}: {:?}", other.map(|_| ())),
        }
    }
}

#[test]
fn invalid_level_suffixes_are_rejected() {
    let mut us = UserSettings::default();
    match prepare_compiler_args(strings(&["-O9"]), &mut us, false) {
        Err(Error::InvalidValue(f)) => assert_eq!(f, "-O9"),
        other => panic!("unexpected: {:?}", other.map(|_| ())),
    }
    let mut us = UserSettings::default();
    match prepare_compiler_args(strings(&["-g7"]), &mut us, false) {
        Err(Error::InvalidValue(f)) => assert_eq!(f, "-g7"),
        other => panic!("unexpected: {:?}", other.map(|_| ())),
    }
}

#[test]
fn bare_g_means_level_two() {
    let mut us = UserSettings::default();
    let (_, bs) = prepare_compiler_args(strings(&["-g", "-Oz"]), &mut us, false).unwrap();
    assert_eq!(bs.debug_level, DebugLevel::G2);
    assert_eq!(bs.opt_level, OptLevel::Oz);
}

#[test]
fn output_extension_sets_module_kind() {
    for (path, kind) in [
        ("out.o", Some(ModuleKind::ObjectFile)),
        ("out.obj", Some(ModuleKind::ObjectFile)),
        ("libx.so", Some(ModuleKind::SharedLibrary)),
        ("out.wasm", None),
        ("out", None),
    ] {
        let mut us = UserSettings::default();
        prepare_compiler_args(strings(&["-o", path, "a.c"]), &mut us, false).unwrap();
        assert_eq!(us.module_kind, kind, "{path}");
    }
    let mut us = UserSettings::default();
    prepare_compiler_args(strings(&["-o", "out"]), &mut us, false).unwrap();
    assert_eq!(us.module_kind(), ModuleKind::StaticMain);
}

#[test]
fn explicit_module_kind_wins_over_extension() {
    let mut us = UserSettings::default();
    us.module_kind = Some(ModuleKind::DynamicMain);
    prepare_compiler_args(strings(&["-o", "x.o", "-c"]), &mut us, false).unwrap();
    assert_eq!(us.module_kind, Some(ModuleKind::DynamicMain));
}

#[test]
fn flag_scan_infers_module_kind() {
    let mut us = UserSettings::default();
    prepare_compiler_args(strings(&["-c", "a.c"]), &mut us, false).unwrap();
    assert_eq!(us.module_kind, Some(ModuleKind::ObjectFile));
    let mut us = UserSettings::default();
    prepare_compiler_args(strings(&["-Wl,-pie", "a.c"]), &mut us, false).unwrap();
    assert_eq!(us.module_kind, Some(ModuleKind::DynamicMain));
    let mut us = UserSettings::default();
    prepare_compiler_args(strings(&["-shared", "a.c"]), &mut us, false).unwrap();
    assert_eq!(us.module_kind, Some(ModuleKind::SharedLibrary));
}

#[test]
fn discarded_and_forwarded_flags() {
    let mut us = UserSettings::default();
    let args = strings(&[
        "-ftls-model=local-dynamic",
        "--sysroot=/x",
        "-mthread-model",
        "single",
        "-L",
        "/libs",
        "-lfoo",
        "-DX=1",
        "-I",
        "inc",
        "-fPIC",
        "a.c",
        "b.a",
    ]);
    let (pa, _) = prepare_compiler_args(args, &mut us, false).unwrap();
    assert_eq!(pa.compiler_args, strings(&["-DX=1", "-I", "inc", "-fPIC"]));
    assert_eq!(pa.linker_args, strings(&["-L", "/libs", "-lfoo"]));
    assert_eq!(pa.compiler_inputs, strings(&["a.c"]));
    assert_eq!(pa.linker_inputs, strings(&["b.a"]));
    assert!(us.pic);
}

#[test]
fn extra_flags_surround_arguments_and_are_consumed() {
    let mut us = UserSettings::default();
    us.extra_compiler_flags = strings(&["-DA"]);
    us.extra_compiler_flags_c = strings(&["-DC"]);
    us.extra_compiler_flags_cxx = strings(&["-DCXX"]);
    us.extra_compiler_post_flags = strings(&["-DPOST"]);
    us.extra_compiler_post_flags_c = strings(&["-DPOSTC"]);
    let (pa, _) = prepare_compiler_args(strings(&["-DARG"]), &mut us, false).unwrap();
    assert_eq!(pa.compiler_args, strings(&["-DA", "-DC", "-DARG", "-DPOST", "-DPOSTC"]));
    assert!(us.extra_compiler_flags.is_empty());
    assert!(us.extra_compiler_flags_c.is_empty());
    assert_eq!(us.extra_compiler_flags_cxx, strings(&["-DCXX"]));
}

#[test]
fn no_wasm_opt_holds_after_other_flags() {
    let mut us = UserSettings::default();
    us.run_wasm_opt = None;
    let (_, bs) =
        prepare_compiler_args(strings(&["--no-wasm-opt", "-O3", "a.c"]), &mut us, false).unwrap();
    assert!(!bs.use_wasm_opt);
    assert!(!wasixcc::commands::should_run_wasm_opt(us.run_wasm_opt, bs.use_wasm_opt));
    let mut us = UserSettings::default();
    let (_, bs) = prepare_compiler_args(strings(&["a.c"]), &mut us, false).unwrap();
    assert!(bs.use_wasm_opt);
}

#[test]
fn compiler_args_reclassify_to_compiler_args() {
    let mut us = UserSettings::default();
    let args = strings(&["-O2", "-D", "-Wl,x", "-fno-PIC", "-Xclang", "-o", "in.c", "-lm"]);
    let (pa, _) = prepare_compiler_args(args, &mut us, false).unwrap();
    let first = pa.compiler_args.clone();
    let mut us2 = UserSettings::default();
    let (again, _) = prepare_compiler_args(first.clone(), &mut us2, false).unwrap();
    assert_eq!(again.compiler_args, first);
    assert!(again.linker_args.is_empty());
    assert!(again.compiler_inputs.is_empty() && again.linker_inputs.is_empty());
    assert_eq!(again.output, None);
}

#[test]
fn linker_args_reclassify_to_linker_args() {
    let mut us = UserSettings::default();
    let args = strings(&["-m", "-o", "--gc-sections", "-L", "dir", "a.wasm", "-o", "out"]);
    let pa = prepare_linker_args(args, &mut us).unwrap();
    let first = pa.linker_args.clone();
    let mut us2 = UserSettings::default();
    let again = prepare_linker_args(first.clone(), &mut us2).unwrap();
    assert_eq!(again.linker_args, first);
    assert!(again.linker_inputs.is_empty());
    assert_eq!(again.output, None);
}

#[test]
fn link_extensions() {
    assert!(wasixcc::classify::is_link_extension("a"));
    assert!(wasixcc::classify::is_link_extension("obj"));
    assert!(!wasixcc::classify::is_link_extension("c"));
}

#[test]
fn invalid_level_leaves_settings_unchanged() {
    let mut bs = BuildSettings {
        opt_level: OptLevel::O2,
        debug_level: DebugLevel::G1,
        use_wasm_opt: false,
    };
    let mut us = UserSettings::default();
    assert!(update_build_settings_from_arg("-Ofast", &mut bs, &mut us).is_err());
    assert!(update_build_settings_from_arg("-gdwarf-4", &mut bs, &mut us).is_err());
    assert_eq!(bs.opt_level, OptLevel::O2);
    assert_eq!(bs.debug_level, DebugLevel::G1);
    assert!(!bs.use_wasm_opt);
    assert!(!us.wasm_exceptions && !us.pic && us.module_kind.is_none());
}

#[test]
fn optimizer_switches_are_not_emitted() {
    let mut us = UserSettings::default();
    let (pa, _) =
        prepare_compiler_args(strings(&["--wasm-opt", "--no-wasm-opt", "a.c"]), &mut us, false)
            .unwrap();
    assert!(pa.compiler_args.is_empty() && pa.linker_args.is_empty());
}
