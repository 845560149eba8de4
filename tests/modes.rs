use wasixcc::config::{LlvmLocation, UserSettings};
use wasixcc::error::Error;
use wasixcc::release::{get_llvm_asset_name, sysroot_dir_for};
use wasixcc::{
    download_llvm, download_sysroot, get_sysroot, run_ar, run_compiler, run_linker, run_nm,
    run_ranlib, SysrootSpec, TagSpec,
};

fn strings(items: &[&str]) -> Vec<String> {
    items.iter().map(|s| s.to_string()).collect()
}

#[test]
fn tag_specs() {
    assert_eq!(TagSpec::parse("latest").unwrap(), TagSpec::Latest);
    assert_eq!(TagSpec::parse("v1.2").unwrap(), TagSpec::Tag("v1.2".to_string()));
    assert_eq!(
        TagSpec::parse("version_124").unwrap(),
        TagSpec::Tag("version_124".to_string())
    );
    assert!(matches!(TagSpec::parse("1.2"), Err(Error::InvalidTag(_))));
    assert_eq!(TagSpec::Latest.display_github_url_postfix(), "latest");
    assert_eq!(TagSpec::Tag("v3".to_string()).display_github_url_postfix(), "tags/v3");
    assert_eq!(SysrootSpec::parse("v9").unwrap(), SysrootSpec::Tag("v9".to_string()));
    assert!(SysrootSpec::parse("x1").is_err());
    assert_eq!(SysrootSpec::Tag("v9".to_string()).display_github_url_postfix(), "tags/v9");
}

#[test]
fn sysroot_download_plan() {
    let mut us = UserSettings::default();
    us.sysroot_prefix = Some("/p".to_string());
    let d = download_sysroot(TagSpec::Tag("v1".to_string()), &us);
    assert_eq!(
        d.release_url,
        "https://api.github.com/repos/wasix-org/wasix-libc/releases/tags/v1"
    );
    assert_eq!(
        d.asset_names,
        strings(&["sysroot.tar.gz", "sysroot-eh.tar.gz", "sysroot-ehpic.tar.gz"])
    );
    assert_eq!(d.target_dir, "/p");
    assert_eq!(d.ignored_location, None);
}

#[test]
fn llvm_download_plan() {
    let mut us = UserSettings::default();
    us.llvm_location = LlvmLocation::UserProvided("/llvm".to_string());
    let d = download_llvm(TagSpec::Latest, &us, "linux", "x86_64").unwrap();
    assert_eq!(d.asset_name, "LLVM-Linux-x86_64.tar.gz");
    assert_eq!(
        d.release_url,
        "https://api.github.com/repos/wasix-org/llvm-project/releases/latest"
    );
    assert_eq!(d.target_dir, "/llvm");
    assert_eq!(get_llvm_asset_name("macos", "aarch64").unwrap(), "LLVM-MacOS-aarch64.tar.gz");
    match download_llvm(TagSpec::Latest, &us, "windows", "x86_64") {
        Err(Error::UnsupportedPlatform(o, a)) => {
            assert_eq!(o, "windows");
            assert_eq!(a, "x86_64");
        }
        other => panic!("unexpected {:?}", other.map(|_| ())),
    }
}

#[test]
fn passthrough_modes_use_llvm_tools() {
    let env: Vec<(String, String)> = Vec::new();
    let args = strings(&["-sLLVM_LOCATION=/llvm", "rcs", "lib.a", "x.o"]);
    let inv = run_ar(args.clone(), &env, None).unwrap();
    assert_eq!(inv.program, "/llvm/bin/llvm-ar");
    assert_eq!(inv.args, strings(&["rcs", "lib.a", "x.o"]));
    assert_eq!(run_nm(args.clone(), &env, None).unwrap().program, "/llvm/bin/llvm-nm");
    assert_eq!(run_ranlib(args, &env, None).unwrap().program, "/llvm/bin/llvm-ranlib");
    assert!(run_ar(strings(&["-sPIC=perhaps"]), &env, None).is_err());
}

#[test]
fn compiler_and_linker_modes() {
    let env = vec![("WASIXCC_SYSROOT".to_string(), "/".to_string())];
    let plan = run_compiler(strings(&["-sRUN_WASM_OPT=no", "a.c"]), &env, None, false, "/t".to_string())
        .unwrap();
    assert_eq!(plan.len(), 2);
    let plan = run_linker(strings(&["a.o", "-o", "b.wasm"]), &env, None).unwrap();
    assert_eq!(plan.len(), 2);
    assert_eq!(get_sysroot(Vec::new(), &env, None).unwrap(), "/");
    let none: Vec<(String, String)> = Vec::new();
    assert!(matches!(
        get_sysroot(strings(&["-sSYSROOT=/no/such/dir"]), &none, None),
        Err(Error::MissingSysroot(_))
    ));
}

#[test]
fn unpacked_sysroot_directory_names() {
    assert_eq!(sysroot_dir_for("wasix-sysroot-eh"), Some("sysroot-eh".to_string()));
    assert_eq!(sysroot_dir_for("wasix-sysroot"), Some("sysroot".to_string()));
    assert_eq!(sysroot_dir_for("other"), None);
}

#[test]
fn main_test_run_tool_with_passthrough_args() {
    let mut user_settings = UserSettings::default();
    user_settings.llvm_location = LlvmLocation::UserProvided("/tmp/tools".to_string());
    let invocation = wasixcc::modes::run_tool_with_passthrough_args(
        "dummytool",
        vec!["X".into(), "Y".into()],
        &user_settings,
    );
    assert_eq!(invocation.program, "/tmp/tools/bin/dummytool");
    assert_eq!(invocation.args, vec!["X".to_string(), "Y".to_string()]);
}

#[test]
fn passthrough_programs_and_plans() {
    let env: Vec<(String, String)> = Vec::new();
    let plan = run_compiler(
        strings(&["-sLLVM_LOCATION=/l", "--version"]),
        &env,
        None,
        true,
        "/t".to_string(),
    )
    .unwrap();
    assert_eq!(plan[0].program, "/l/bin/clang++");
    let plan = run_linker(strings(&["-sLLVM_LOCATION=/l", "--version"]), &env, None).unwrap();
    assert_eq!(plan[0].program, "/l/bin/wasm-ld");
    let env = vec![("WASIXCC_SYSROOT".to_string(), "/no/such/dir".to_string())];
    assert!(matches!(
        run_compiler(strings(&["a.c"]), &env, None, false, "/t".to_string()),
        Err(Error::MissingSysroot(_))
    ));
    let plan = run_compiler(
        strings(&["-sSYSROOT=/", "--no-wasm-opt", "a.c"]),
        &Vec::new(),
        None,
        false,
        "/t".to_string(),
    )
    .unwrap();
    assert_eq!(plan.len(), 2);
    assert_ne!(plan[1].program, "wasm-opt");
}
