//! The tool modes: each takes the command-line arguments (with the settings
//! among them), the environment and the home directory, and plans what to
//! run.
use vstd::prelude::*;

use crate::commands::Invocation;
use crate::config::UserSettings;
use crate::error::Error;
use crate::pipeline::{is_tool, planned_link, planned_run};
use crate::settings::{gather_user_settings, gathered, separate_user_settings_args, settings_fault, split_settings};

verus! {

/// Separates the settings from the tool arguments and gathers the settings.
pub fn get_args_and_user_settings(
    args: Vec<String>,
    env: &Vec<(String, String)>,
    home: Option<String>,
) -> (r: Result<(Vec<String>, UserSettings), Error>)
    ensures
        match settings_fault(split_settings(args.deep_view()).0, env@) {
            Some(f) => r matches Err(e) && e@ == f,
            None => r is Ok && r->Ok_0.0.deep_view() == split_settings(args.deep_view()).1
                && gathered(r->Ok_0.1, split_settings(args.deep_view()).0, env@, home),
        },
{
    let (settings_args, tool_args) = separate_user_settings_args(args);
    match gather_user_settings(&settings_args, env, home) {
        Ok(us) => Ok((tool_args, us)),
        Err(e) => Err(e),
    }
}

/// An invocation of an LLVM tool with the arguments passed through.
pub fn run_tool_with_passthrough_args(tool: &str, args: Vec<String>, user_settings: &UserSettings) -> (r:
    Invocation)
    ensures
        r@.args == args.deep_view(),
        r@.program == user_settings.llvm_location.spec_tool_path(tool@, true) || r@.program
            == user_settings.llvm_location.spec_tool_path(tool@, false),
{
    let program = user_settings.llvm_location.get_tool_path(tool);
    Invocation { program, args }
}

/// Compiler mode: plans the compile, link and optimizer runs under the
/// gathered settings.
pub fn run_compiler(
    args: Vec<String>,
    env: &Vec<(String, String)>,
    home: Option<String>,
    run_cxx: bool,
    temp_dir: String,
) -> (r: Result<Vec<Invocation>, Error>)
    ensures
        match settings_fault(split_settings(args.deep_view()).0, env@) {
            Some(f) => r matches Err(e) && e@ == f,
            None => exists|us: UserSettings|
                #[trigger] gathered(us, split_settings(args.deep_view()).0, env@, home)
                    && planned_run(r, us, split_settings(args.deep_view()).1, run_cxx, temp_dir@),
        },
{
    let (tool_args, user_settings) = match get_args_and_user_settings(args, env, home) {
        Ok(x) => x,
        Err(e) => {
            return Err(e);
        },
    };
    crate::pipeline::run(tool_args, user_settings, run_cxx, temp_dir)
}

/// Linker mode: plans the link and optimizer runs under the gathered
/// settings.
pub fn run_linker(args: Vec<String>, env: &Vec<(String, String)>, home: Option<String>) -> (r: Result<
    Vec<Invocation>,
    Error,
>)
    ensures
        match settings_fault(split_settings(args.deep_view()).0, env@) {
            Some(f) => r matches Err(e) && e@ == f,
            None => exists|us: UserSettings|
                #[trigger] gathered(us, split_settings(args.deep_view()).0, env@, home)
                    && planned_link(r, us, split_settings(args.deep_view()).1),
        },
{
    let (tool_args, user_settings) = match get_args_and_user_settings(args, env, home) {
        Ok(x) => x,
        Err(e) => {
            return Err(e);
        },
    };
    crate::pipeline::link_only(tool_args, user_settings)
}

fn passthrough_mode(tool: &str, args: Vec<String>, env: &Vec<(String, String)>, home: Option<String>) -> (r:
    Result<Invocation, Error>)
    ensures
        match settings_fault(split_settings(args.deep_view()).0, env@) {
            Some(f) => r matches Err(e) && e@ == f,
            None => r matches Ok(inv) && inv@.args == split_settings(args.deep_view()).1
                && exists|us: UserSettings|
                #[trigger] gathered(us, split_settings(args.deep_view()).0, env@, home)
                    && is_tool(inv@.program, us, tool@),
        },
{
    let (tool_args, user_settings) = match get_args_and_user_settings(args, env, home) {
        Ok(x) => x,
        Err(e) => {
            return Err(e);
        },
    };
    Ok(run_tool_with_passthrough_args(tool, tool_args, &user_settings))
}

/// Archiver mode: `llvm-ar` with the tool arguments.
pub fn run_ar(args: Vec<String>, env: &Vec<(String, String)>, home: Option<String>) -> (r: Result<
    Invocation,
    Error,
>)
    ensures
        match settings_fault(split_settings(args.deep_view()).0, env@) {
            Some(f) => r matches Err(e) && e@ == f,
            None => r matches Ok(inv) && inv@.args == split_settings(args.deep_view()).1
                && exists|us: UserSettings|
                #[trigger] gathered(us, split_settings(args.deep_view()).0, env@, home)
                    && is_tool(inv@.program, us, "llvm-ar"@),
        },
{
    passthrough_mode("llvm-ar", args, env, home)
}

/// Symbol lister mode: `llvm-nm` with the tool arguments.
pub fn run_nm(args: Vec<String>, env: &Vec<(String, String)>, home: Option<String>) -> (r: Result<
    Invocation,
    Error,
>)
    ensures
        match settings_fault(split_settings(args.deep_view()).0, env@) {
            Some(f) => r matches Err(e) && e@ == f,
            None => r matches Ok(inv) && inv@.args == split_settings(args.deep_view()).1
                && exists|us: UserSettings|
                #[trigger] gathered(us, split_settings(args.deep_view()).0, env@, home)
                    && is_tool(inv@.program, us, "llvm-nm"@),
        },
{
    passthrough_mode("llvm-nm", args, env, home)
}

/// Archive indexer mode: `llvm-ranlib` with the tool arguments.
pub fn run_ranlib(args: Vec<String>, env: &Vec<(String, String)>, home: Option<String>) -> (r:
    Result<Invocation, Error>)
    ensures
        match settings_fault(split_settings(args.deep_view()).0, env@) {
            Some(f) => r matches Err(e) && e@ == f,
            None => r matches Ok(inv) && inv@.args == split_settings(args.deep_view()).1
                && exists|us: UserSettings|
                #[trigger] gathered(us, split_settings(args.deep_view()).0, env@, home)
                    && is_tool(inv@.program, us, "llvm-ranlib"@),
        },
{
    passthrough_mode("llvm-ranlib", args, env, home)
}

/// The sysroot location the settings give, checked to exist.
pub fn get_sysroot(args: Vec<String>, env: &Vec<(String, String)>, home: Option<String>) -> (r:
    Result<String, Error>)
    ensures
        match settings_fault(split_settings(args.deep_view()).0, env@) {
            Some(f) => r matches Err(e) && e@ == f,
            None => exists|us: UserSettings|
                #[trigger] gathered(us, split_settings(args.deep_view()).0, env@, home)
                    && match us.spec_sysroot_location() {
                    None => r matches Err(Error::PicWithoutExceptions),
                    Some(p) => (r matches Ok(q) && q@ == p) || (r matches Err(
                        Error::MissingSysroot(q),
                    ) && q@ == p),
                },
        },
{
    let (_, user_settings) = match get_args_and_user_settings(args, env, home) {
        Ok(x) => x,
        Err(e) => {
            return Err(e);
        },
    };
    user_settings.ensure_sysroot_location()
}

} // verus!
