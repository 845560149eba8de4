use wasixcc::classify::PreparedArgs;
use wasixcc::commands::{
    compile_flags_for, compile_invocations, link_invocation, output_path, run_wasm_opt,
    should_run_wasm_opt, State,
};
use wasixcc::config::{BuildSettings, DebugLevel, LlvmLocation, ModuleKind, OptLevel, UserSettings};
use wasixcc::error::Error;
use wasixcc::pipeline::{link_only, run};
use wasixcc::text::{decimal_text, join_path, split_text};

fn strings(items: &[&str]) -> Vec<String> {
    items.iter().map(|s| s.to_string()).collect()
}

fn empty_args() -> PreparedArgs {
    PreparedArgs {
        compiler_args: Vec::new(),
        linker_args: Vec::new(),
        compiler_inputs: Vec::new(),
        linker_inputs: Vec::new(),
        output: None,
    }
}

fn state(us: UserSettings, args: PreparedArgs) -> State {
    State {
        user_settings: us,
        build_settings: BuildSettings {
            opt_level: OptLevel::O0,
            debug_level: DebugLevel::G0,
            use_wasm_opt: true,
        },
        args,
        cxx: false,
        temp_dir: "/tmp/build".to_string(),
    }
}

#[test]
fn test_sysroot_prefix() {
    let mut us = UserSettings::default();

    assert_eq!(
        us.sysroot_location().unwrap(),
        "/lib/wasixcc/sysroot/sysroot".to_string()
    );

    us.sysroot_prefix = Some("/xxx".to_string());
    assert_eq!(us.sysroot_location().unwrap(), "/xxx/sysroot".to_string());

    us.wasm_exceptions = true;
    assert_eq!(us.sysroot_location().unwrap(), "/xxx/sysroot-eh".to_string());

    us.pic = true;
    assert_eq!(us.sysroot_location().unwrap(), "/xxx/sysroot-ehpic".to_string());

    us.wasm_exceptions = false;
    assert!(us.sysroot_location().is_err());

    us.sysroot_location = Some("/yyy".to_string());
    assert_eq!(us.sysroot_location().unwrap(), "/yyy".to_string());

    // Hopefully, you don't have a /yyy folder on your system...
    assert!(us.ensure_sysroot_location().is_err());
}

#[test]
fn sysroot_errors_are_distinct() {
    let mut us = UserSettings::default();
    us.pic = true;
    assert!(matches!(us.sysroot_location(), Err(Error::PicWithoutExceptions)));
    assert!(matches!(us.ensure_sysroot_location(), Err(Error::PicWithoutExceptions)));
    us.pic = false;
    us.sysroot_prefix = Some("/no/such/prefix/".to_string());
    match us.ensure_sysroot_location() {
        Err(Error::MissingSysroot(p)) => assert_eq!(p, "/no/such/prefix/sysroot"),
        other => panic!("unexpected {:?}", other),
    }
    us.sysroot_location = Some("/".to_string());
    assert_eq!(us.ensure_sysroot_location().unwrap(), "/");
}

#[test]
fn module_kind_resolution_and_predicates() {
    let mut us = UserSettings::default();
    assert_eq!(us.module_kind(), ModuleKind::StaticMain);
    us.pic = true;
    assert_eq!(us.module_kind(), ModuleKind::DynamicMain);
    us.module_kind = Some(ModuleKind::ObjectFile);
    assert_eq!(us.module_kind(), ModuleKind::ObjectFile);
    assert!(ModuleKind::SharedLibrary.requires_pic() && !ModuleKind::StaticMain.requires_pic());
    assert!(ModuleKind::SharedLibrary.is_binary() && !ModuleKind::ObjectFile.is_binary());
    assert!(ModuleKind::DynamicMain.is_executable() && !ModuleKind::SharedLibrary.is_executable());
}

#[test]
fn tool_paths() {
    let user = LlvmLocation::UserProvided("/opt/llvm".to_string());
    assert_eq!(user.get_tool_path("clang"), "/opt/llvm/bin/clang");
    let missing = LlvmLocation::DefaultPath("/no/such/llvm".to_string());
    assert_eq!(missing.get_tool_path("wasm-ld"), "wasm-ld-21");
    assert_eq!(missing.tool_path_given("clang", true), "/no/such/llvm/bin/clang");
}

#[test]
fn text_helpers() {
    assert_eq!(join_path("", "a"), "a");
    assert_eq!(join_path("/x/", "a"), "/x/a");
    assert_eq!(join_path("/x", "/abs"), "/abs");
    assert_eq!(decimal_text(0), "0");
    assert_eq!(decimal_text(1207), "1207");
    assert_eq!(split_text(",a,,b", ','), vec!["", "a", "", "b"]);
}

#[test]
fn output_path_defaults() {
    let st = state(UserSettings::default(), empty_args());
    assert_eq!(output_path(&st), "a.out");
    let mut us = UserSettings::default();
    us.module_kind = Some(ModuleKind::ObjectFile);
    assert_eq!(output_path(&state(us, empty_args())), "a.o");
}

#[test]
fn compile_flags_for_static_main() {
    let mut args = empty_args();
    args.compiler_args = strings(&["-O2"]);
    let st = state(UserSettings::default(), args);
    let flags = compile_flags_for(&st, "/sr");
    assert_eq!(
        flags,
        strings(&[
            "--sysroot",
            "/sr",
            "--target=wasm32-wasi",
            "-c",
            "-matomics",
            "-mbulk-memory",
            "-mmutable-globals",
            "-pthread",
            "-mthread-model",
            "posix",
            "-fno-trapping-math",
            "-D_WASI_EMULATED_MMAN",
            "-D_WASI_EMULATED_SIGNAL",
            "-D_WASI_EMULATED_PROCESS_CLOCKS",
            "-ftls-model=local-exec",
            "-g",
            "-O2",
        ])
    );
}

#[test]
fn compile_flags_with_exceptions_and_pic_in_cxx() {
    let mut us = UserSettings::default();
    us.wasm_exceptions = true;
    us.module_kind = Some(ModuleKind::SharedLibrary);
    let mut st = state(us, empty_args());
    st.cxx = true;
    st.build_settings.debug_level = DebugLevel::NoDebug;
    let flags = compile_flags_for(&st, "/sr");
    assert_eq!(
        flags[14..].to_vec(),
        strings(&[
            "-fwasm-exceptions",
            "-mllvm",
            "--wasm-enable-sjlj",
            "-mllvm",
            "--wasm-enable-eh",
            "-fPIC",
            "-ftls-model=global-dynamic",
            "-fvisibility=default",
        ])
    );
}

#[test]
fn per_input_objects_get_numbered_names() {
    let mut args = empty_args();
    args.compiler_inputs = strings(&["a/x.c", "b/x.c", "y.c"]);
    args.linker_inputs = strings(&["lib.a"]);
    let mut st = state(UserSettings::default(), args);
    let plan = compile_invocations(&mut st, "cc", "/sr");
    assert_eq!(plan.len(), 3);
    assert_eq!(
        st.args.linker_inputs,
        strings(&["lib.a", "/tmp/build/x.c.0.o", "/tmp/build/x.c.1.o", "/tmp/build/y.c.0.o"])
    );
    let tail = plan[1].args[plan[1].args.len() - 3..].to_vec();
    assert_eq!(tail, strings(&["b/x.c", "-o", "/tmp/build/x.c.1.o"]));
    assert_eq!(plan[0].program, "cc");
}

#[test]
fn object_file_builds_compile_once() {
    let mut us = UserSettings::default();
    us.module_kind = Some(ModuleKind::ObjectFile);
    let mut args = empty_args();
    args.compiler_inputs = strings(&["a.c", "b.c"]);
    args.output = Some("out.o".to_string());
    let mut st = state(us, args);
    let plan = compile_invocations(&mut st, "cc", "/sr");
    assert_eq!(plan.len(), 1);
    let n = plan[0].args.len();
    assert_eq!(plan[0].args[n - 4..].to_vec(), strings(&["a.c", "b.c", "-o", "out.o"]));
    assert!(st.args.linker_inputs.is_empty());
}

#[test]
fn static_main_link_arguments() {
    let mut args = empty_args();
    args.linker_args = strings(&["-foo"]);
    args.linker_inputs = strings(&["x.o"]);
    args.output = Some("out.wasm".to_string());
    let mut us = UserSettings::default();
    us.extra_linker_flags = strings(&["--extra"]);
    let st = state(us, args);
    let inv = link_invocation(&st, "wasm-ld", "/sr");
    assert_eq!(inv.program, "wasm-ld");
    assert_eq!(
        inv.args,
        strings(&[
            "-foo",
            "--extra-features=atomics",
            "--extra-features=bulk-memory",
            "--extra-features=mutable-globals",
            "--shared-memory",
            "--max-memory=4294967296",
            "--import-memory",
            "--export-dynamic",
            "--export=__wasm_call_ctors",
            "--extra",
            "--export=__wasm_init_tls",
            "--export=__wasm_signal",
            "--export=__tls_size",
            "--export=__tls_align",
            "--export=__tls_base",
            "--export-if-defined=__stack_pointer",
            "--export-if-defined=__heap_base",
            "--export-if-defined=__data_end",
            "-L/sr/lib",
            "-L/sr/lib/wasm32-wasi",
            "-lwasi-emulated-getpid",
            "-lwasi-emulated-mman",
            "-lwasi-emulated-process-clocks",
            "-lc",
            "-lresolv",
            "-lrt",
            "-lm",
            "-lpthread",
            "-lutil",
            "-lclang_rt.builtins-wasm32",
            "-z",
            "stack-size=8388608",
            "x.o",
            "/sr/lib/wasm32-wasi/crt1.o",
            "-o",
            "out.wasm",
        ])
    );
}

#[test]
fn shared_library_link_tail() {
    let mut us = UserSettings::default();
    us.module_kind = Some(ModuleKind::SharedLibrary);
    us.link_symbolic = true;
    us.wasm_exceptions = true;
    let st = state(us, empty_args());
    let inv = link_invocation(&st, "wasm-ld", "/sr");
    let a = inv.args;
    let pos = a.iter().position(|x| x == "-lclang_rt.builtins-wasm32").unwrap();
    assert_eq!(
        a[pos + 1..].to_vec(),
        strings(&[
            "--experimental-pic",
            "--export-if-defined=__wasm_apply_data_relocs",
            "--export-if-defined=__wasm_apply_tls_relocs",
            "-shared",
            "--no-entry",
            "--unresolved-symbols=import-dynamic",
            "-Bsymbolic",
            "/sr/lib/wasm32-wasi/scrt1.o",
            "-o",
            "a.out",
        ])
    );
    assert!(a.contains(&"--wasm-enable-sjlj".to_string()));
    assert!(!a.contains(&"-lc".to_string()));
}

#[test]
fn dynamic_main_wraps_archives() {
    let mut us = UserSettings::default();
    us.pic = true;
    let st = state(us, empty_args());
    let a = link_invocation(&st, "wasm-ld", "/sr").args;
    let whole = a.iter().position(|x| x == "--whole-archive").unwrap();
    let no_whole = a.iter().position(|x| x == "--no-whole-archive").unwrap();
    assert_eq!(a[whole + 1], "--export-all");
    assert!(whole < no_whole);
    assert!(a.contains(&"-pie".to_string()) && a.contains(&"-lcommon-tag-stubs".to_string()));
}

#[test]
fn wasm_opt_arguments() {
    let mut st = state(UserSettings::default(), empty_args());
    st.build_settings.opt_level = OptLevel::O3;
    st.build_settings.debug_level = DebugLevel::G2;
    let inv = run_wasm_opt(&st).unwrap();
    assert_eq!(inv.program, "wasm-opt");
    assert_eq!(
        inv.args,
        strings(&[
            "--asyncify",
            "-O3",
            "-g",
            "--no-validation",
            "--enable-threads",
            "--enable-mutable-globals",
            "--enable-bulk-memory",
            "--enable-bulk-memory-opt",
            "--enable-exception-handling",
            "a.out",
            "-o",
            "a.out",
        ])
    );
    st.user_settings.wasm_exceptions = true;
    st.user_settings.wasm_opt_flags = strings(&["-Os"]);
    let inv = run_wasm_opt(&st).unwrap();
    assert_eq!(inv.args[..3].to_vec(), strings(&["--emit-exnref", "-Os", "-g"]));
    st.user_settings.wasm_opt_suppress_default = true;
    st.user_settings.wasm_opt_flags = Vec::new();
    assert!(run_wasm_opt(&st).is_none());
}

#[test]
fn wasm_opt_decision() {
    assert!(should_run_wasm_opt(Some(true), false));
    assert!(!should_run_wasm_opt(Some(false), true));
    assert!(should_run_wasm_opt(None, true));
    assert!(!should_run_wasm_opt(None, false));
}

#[test]
fn run_without_inputs_passes_through() {
    let plan = run(strings(&["-dumpmachine"]), UserSettings::default(), false, "/t".to_string())
        .unwrap();
    assert_eq!(plan.len(), 1);
    assert_eq!(plan[0].args, strings(&["-dumpmachine", "--target=wasm32-wasi"]));
}

#[test]
fn run_plans_compile_link_and_optimize() {
    let mut us = UserSettings::default();
    us.sysroot_location = Some("/".to_string());
    let plan = run(strings(&["-O2", "a.c", "-o", "app.wasm"]), us, false, "/t".to_string())
        .unwrap();
    assert_eq!(plan.len(), 3);
    assert!(plan[1].args.contains(&"/t/a.c.0.o".to_string()));
    assert_eq!(plan[2].program, "wasm-opt");
    let mut us = UserSettings::default();
    us.sysroot_location = Some("/".to_string());
    let plan = run(strings(&["-c", "a.c"]), us, false, "/t".to_string()).unwrap();
    assert_eq!(plan.len(), 1);
}

#[test]
fn run_reports_invalid_configuration() {
    let plan = run(strings(&["-fPIC", "a.c"]), UserSettings::default(), false, "/t".to_string());
    assert!(matches!(plan, Err(Error::PicWithoutExceptions)));
}

#[test]
fn link_only_rejects_object_files() {
    match link_only(strings(&["-o", "x.o", "a.o"]), UserSettings::default()) {
        Err(Error::NotLinkable(k)) => assert_eq!(k, ModuleKind::ObjectFile),
        other => panic!("unexpected {:?}", other.map(|_| ())),
    }
}

#[test]
fn link_only_plans_link_and_optimize() {
    let mut us = UserSettings::default();
    us.sysroot_location = Some("/".to_string());
    let plan = link_only(strings(&["a.o", "-o", "out.wasm"]), us).unwrap();
    assert_eq!(plan.len(), 2);
    assert_eq!(plan[1].args.last().unwrap(), "out.wasm");
    let mut us = UserSettings::default();
    us.sysroot_location = Some("/".to_string());
    us.run_wasm_opt = Some(false);
    assert_eq!(link_only(strings(&["a.o"]), us).unwrap().len(), 1);
    let plan = link_only(strings(&["--version"]), UserSettings::default()).unwrap();
    assert_eq!(plan[0].args, strings(&["--version"]));
}

#[test]
fn intermediate_object_names() {
    assert_eq!(wasixcc::commands::intermediate_object_name("x.c", 12), "x.c.12.o");
}

#[test]
fn no_debug_and_g0_both_keep_no_debug_info() {
    // The compiler gets `-g` for every level but `NoDebug`; the optimizer
    // keeps debug information only from `G1` up. Classification starts at
    // `G0`, so compiles always carry `-g` unless the level is `NoDebug`.
    let mut st = state(UserSettings::default(), empty_args());
    st.build_settings.opt_level = OptLevel::O1;
    for level in [DebugLevel::NoDebug, DebugLevel::G0] {
        st.build_settings.debug_level = level;
        let opt = run_wasm_opt(&st).unwrap();
        assert!(!opt.args.contains(&"-g".to_string()));
    }
    st.build_settings.debug_level = DebugLevel::NoDebug;
    assert!(!compile_flags_for(&st, "/sr").contains(&"-g".to_string()));
    st.build_settings.debug_level = DebugLevel::G0;
    assert!(compile_flags_for(&st, "/sr").contains(&"-g".to_string()));
}

#[test]
fn compile_and_link_stages_resolve_sysroot() {
    let mut us = UserSettings::default();
    us.sysroot_location = Some("/".to_string());
    us.llvm_location = LlvmLocation::UserProvided("/llvm".to_string());
    let mut args = empty_args();
    args.compiler_inputs = strings(&["m.c"]);
    let mut st = state(us, args);
    let plan = wasixcc::commands::compile_inputs(&mut st).unwrap();
    assert_eq!(plan.len(), 1);
    assert_eq!(plan[0].program, "/llvm/bin/clang");
    assert_eq!(plan[0].args[..2].to_vec(), strings(&["--sysroot", "/"]));
    assert_eq!(st.args.linker_inputs, strings(&["/tmp/build/m.c.0.o"]));
    let link = wasixcc::commands::link_inputs(&st).unwrap();
    assert_eq!(link.program, "/llvm/bin/wasm-ld");
    assert!(link.args.contains(&"/tmp/build/m.c.0.o".to_string()));
    assert!(link.args.contains(&"-L/lib".to_string()));

    let mut missing = state(UserSettings::default(), empty_args());
    missing.user_settings.sysroot_location = Some("/no/such/sysroot".to_string());
    assert!(matches!(
        wasixcc::commands::compile_inputs(&mut missing),
        Err(Error::MissingSysroot(_))
    ));
    assert!(matches!(
        wasixcc::commands::link_inputs(&missing),
        Err(Error::MissingSysroot(_))
    ));
}

#[test]
fn sysroot_given_the_directory_answer() {
    let mut us = UserSettings::default();
    us.sysroot_prefix = Some("/p".to_string());
    assert_eq!(us.sysroot_given(true).unwrap(), "/p/sysroot");
    match us.sysroot_given(false) {
        Err(Error::MissingSysroot(p)) => assert_eq!(p, "/p/sysroot"),
        other => panic!("unexpected {:?}", other),
    }
    us.pic = true;
    assert!(matches!(us.sysroot_given(true), Err(Error::PicWithoutExceptions)));
}

#[test]
fn llvm_fallback_only_for_missing_default_location() {
    assert!(LlvmLocation::DefaultPath("/no/such/llvm".to_string()).falls_back());
    assert!(!LlvmLocation::UserProvided("/no/such/llvm".to_string()).falls_back());
}
