//! The two build pipelines: compile (and link and optimise), and link only.
//! Each yields the invocations to run, in order; running them is up to the
//! caller, which stops at the first one that fails.
use vstd::prelude::*;

use crate::classify::{
    classify_compiler, classify_linker, compiler_stream, prepare_compiler_args,
    prepare_linker_args, same_fixed_settings, Scan,
};
use crate::commands::{
    compile_invocations, compiler_tool, compile_plan, invocations, link_args_with, link_invocation,
    planned_objects, run_wasm_opt, should_run_wasm_opt, wants_wasm_opt, wasm_opt_args,
    Invocation, InvocationModel, State,
};
use crate::config::{
    resolve_kind, sysroot_for, BuildSettings, DebugLevel, ModuleKind, OptLevel, Toggles,
    UserSettings,
};
use crate::error::{Error, Fault};
use crate::text::{extend_texts, push_text, text};

verus! {

/// The sysroot location the settings give once classification has set the
/// toggles.
pub open spec fn sysroot_with(us: UserSettings, t: Toggles) -> Option<Seq<char>> {
    match us.sysroot_location {
        Some(p) => Some(p@),
        None => sysroot_for(us.spec_sysroot_prefix(), t.wasm_exceptions, t.pic),
    }
}

/// How many invocations a compiler-mode build with inputs plans: one per
/// input and a link, and perhaps an optimizer run, for a binary; one
/// otherwise.
pub open spec fn planned_count(n: nat, s: Scan) -> bool {
    if resolve_kind(s.toggles.module_kind, s.toggles.pic).spec_is_binary() {
        s.args.compiler_inputs.len() + 1 <= n <= s.args.compiler_inputs.len() + 2
    } else {
        n == 1
    }
}

/// Whether `program` is `tool` as the settings' LLVM location finds it.
pub open spec fn is_tool(program: Seq<char>, us: UserSettings, tool: Seq<char>) -> bool {
    program == us.llvm_location.spec_tool_path(tool, true) || program
        == us.llvm_location.spec_tool_path(tool, false)
}

/// Whether classification found any input file.
pub open spec fn has_inputs(s: Scan) -> bool {
    s.args.compiler_inputs.len() > 0 || s.args.linker_inputs.len() > 0
}

/// Whether `st` is the state a compiler-mode build works on after its
/// classification `s` under the settings `us`.
pub open spec fn classified_state(
    st: State,
    us: UserSettings,
    s: Scan,
    cxx: bool,
    temp_dir: Seq<char>,
) -> bool {
    &&& st.args@ == s.args
    &&& st.build_settings == s.build
    &&& st.user_settings.toggles() == s.toggles
    &&& same_fixed_settings(us, st.user_settings)
    &&& st.cxx == cxx
    &&& st.temp_dir@ == temp_dir
}

/// Whether `plan` is what a compiler-mode build with classification `s`
/// runs, with the compiler and linker found where the LLVM location says.
pub open spec fn is_build_plan(
    plan: Seq<InvocationModel>,
    us: UserSettings,
    s: Scan,
    cxx: bool,
    temp_dir: Seq<char>,
    sysroot: Seq<char>,
) -> bool {
    exists|st: State, compiler: Seq<char>, linker: Seq<char>|
        #![trigger build_plan(st, compiler, linker, sysroot)]
        {
            &&& classified_state(st, us, s, cxx, temp_dir)
            &&& (compiler == us.llvm_location.spec_tool_path(compiler_tool(cxx), true)
                || compiler == us.llvm_location.spec_tool_path(compiler_tool(cxx), false))
            &&& (linker == us.llvm_location.spec_tool_path("wasm-ld"@, true) || linker
                == us.llvm_location.spec_tool_path("wasm-ld"@, false))
            &&& plan == build_plan(st, compiler, linker, sysroot)
        }
}

/// What planning a compiler-mode build yields: the classification's error,
/// or the arguments passed through when there is no input, or else the
/// sysroot configuration's error, or the build's plan.
pub open spec fn planned_run(
    r: Result<Vec<Invocation>, Error>,
    user_settings: UserSettings,
    args: Seq<Seq<char>>,
    cxx: bool,
    temp_dir: Seq<char>,
) -> bool {
    match classify_compiler(
        compiler_stream(user_settings, args, cxx),
        user_settings.toggles(),
    ) {
        Err(f) => r matches Err(e) && e@ == f,
        Ok(s) => if !has_inputs(s) {
            r matches Ok(plan) && plan@.len() == 1 && plan@[0]@.args == args
                + seq!["--target=wasm32-wasi"@] && is_tool(
                plan@[0]@.program,
                user_settings,
                compiler_tool(cxx),
            )
        } else {
            &&& sysroot_with(user_settings, s.toggles) is None ==> (r matches Err(
                Error::PicWithoutExceptions,
            ))
            &&& r is Err ==> (match sysroot_with(user_settings, s.toggles) {
                None => r matches Err(Error::PicWithoutExceptions),
                Some(p) => r matches Err(Error::MissingSysroot(q)) && q@ == p,
            })
            &&& r is Ok ==> planned_count(r->Ok_0@.len(), s)
            &&& r is Ok ==> is_build_plan(
                invocations(r->Ok_0@),
                user_settings,
                s,
                cxx,
                temp_dir,
                sysroot_with(user_settings, s.toggles)->Some_0,
            )
        },
    }
}

/// Whether `st` is the state a link-only build works on after its
/// classification `s` under the settings `us`: the optimizer runs unless the
/// user ruled it out.
pub open spec fn link_state(st: State, us: UserSettings, s: Scan) -> bool {
    &&& st.args@ == s.args
    &&& st.build_settings == BuildSettings {
        opt_level: OptLevel::O0,
        debug_level: DebugLevel::G0,
        use_wasm_opt: us.run_wasm_opt != Some(false),
    }
    &&& st.user_settings.toggles() == s.toggles
    &&& same_fixed_settings(us, st.user_settings)
    &&& !st.cxx
}

/// Whether `plan` is what a link-only build with classification `s` runs,
/// with the linker found where the LLVM location says.
pub open spec fn is_link_plan(plan: Seq<InvocationModel>, us: UserSettings, s: Scan, sysroot: Seq<char>) -> bool {
    exists|st: State, linker: Seq<char>|
        #![trigger link_plan(st, linker, sysroot)]
        {
            &&& link_state(st, us, s)
            &&& (linker == us.llvm_location.spec_tool_path("wasm-ld"@, true) || linker
                == us.llvm_location.spec_tool_path("wasm-ld"@, false))
            &&& plan == link_plan(st, linker, sysroot)
        }
}

/// What planning a link-only build yields: the classification's error, the
/// refusal to link an object file, the arguments passed through when there
/// is no input, or else the sysroot configuration's error or the link and
/// perhaps the optimizer run.
pub open spec fn planned_link(
    r: Result<Vec<Invocation>, Error>,
    user_settings: UserSettings,
    args: Seq<Seq<char>>,
) -> bool {
    match classify_linker(args, user_settings.toggles()) {
        Err(f) => r matches Err(e) && e@ == f,
        Ok(s) => if !resolve_kind(s.toggles.module_kind, s.toggles.pic).spec_is_binary() {
            r matches Err(e) && e@ == Fault::NotLinkable(ModuleKind::ObjectFile)
        } else if s.args.linker_inputs.len() == 0 {
            r matches Ok(plan) && plan@.len() == 1 && plan@[0]@.args == args && is_tool(
                plan@[0]@.program,
                user_settings,
                "wasm-ld"@,
            )
        } else {
            &&& sysroot_with(user_settings, s.toggles) is None ==> (r matches Err(
                Error::PicWithoutExceptions,
            ))
            &&& r is Err ==> (match sysroot_with(user_settings, s.toggles) {
                None => r matches Err(Error::PicWithoutExceptions),
                Some(p) => r matches Err(Error::MissingSysroot(q)) && q@ == p,
            })
            &&& r is Ok ==> 1 <= r->Ok_0@.len() <= 2
            &&& r is Ok && r->Ok_0@.len() == 2 ==> user_settings.run_wasm_opt != Some(false)
            &&& r is Ok ==> is_link_plan(
                invocations(r->Ok_0@),
                user_settings,
                s,
                sysroot_with(user_settings, s.toggles)->Some_0,
            )
        },
    }
}

/// Plans a compiler-mode build. Without inputs the arguments are passed to
/// the compiler unchanged, with the target added. Otherwise every input is
/// compiled (into `temp_dir` when the output is linked), binaries are
/// linked, and the optimizer runs on them when the user or the flags ask.
pub fn run(args: Vec<String>, user_settings: UserSettings, run_cxx: bool, temp_dir: String) -> (r:
    Result<Vec<Invocation>, Error>)
    ensures
        planned_run(r, user_settings, args.deep_view(), run_cxx, temp_dir@),
{
    let mut passthrough: Vec<String> = Vec::new();
    assert(passthrough.deep_view() =~= Seq::<Seq<char>>::empty());
    extend_texts(&mut passthrough, &args);
    assert(passthrough.deep_view() =~= args.deep_view());
    let ghost old_settings = user_settings;
    let ghost scanned = classify_compiler(
        compiler_stream(user_settings, args.deep_view(), run_cxx),
        user_settings.toggles(),
    )->Ok_0;
    let mut user_settings = user_settings;
    let (prepared, build_settings) = match prepare_compiler_args(args, &mut user_settings, run_cxx) {
        Ok(x) => x,
        Err(e) => {
            return Err(e);
        },
    };
    if prepared.compiler_inputs.len() == 0 && prepared.linker_inputs.len() == 0 {
        let tool = if run_cxx {
            "clang++"
        } else {
            "clang"
        };
        let program = user_settings.llvm_location.get_tool_path(tool);
        push_text(&mut passthrough, "--target=wasm32-wasi");
        let mut plan: Vec<Invocation> = Vec::new();
        plan.push(Invocation { program, args: passthrough });
        assert(plan@[0]@.args == args.deep_view() + seq!["--target=wasm32-wasi"@]);
        return Ok(plan);
    }
    let tool = if run_cxx {
        "clang++"
    } else {
        "clang"
    };
    let compiler = user_settings.llvm_location.get_tool_path(tool);
    let linker = user_settings.llvm_location.get_tool_path("wasm-ld");
    let sysroot = match user_settings.ensure_sysroot_location() {
        Ok(s) => s,
        Err(e) => {
            return Err(e);
        },
    };
    let mut state = State {
        user_settings,
        build_settings,
        args: prepared,
        cxx: run_cxx,
        temp_dir,
    };
    let ghost st = state;
    let plan = plan_build(&mut state, compiler.as_str(), linker.as_str(), sysroot.as_str());
    assert(classified_state(st, old_settings, scanned, run_cxx, st.temp_dir@));
    assert(invocations(plan@).len() == plan@.len());
    assert(optimizer_plan(st).len() <= 1);
    Ok(plan)
}

/// Plans a link-only build. Only binaries can be linked. Without inputs the
/// arguments are passed to the linker unchanged. Otherwise the inputs are
/// linked, and the optimizer runs unless the user ruled it out.
pub fn link_only(args: Vec<String>, user_settings: UserSettings) -> (r: Result<
    Vec<Invocation>,
    Error,
>)
    ensures
        planned_link(r, user_settings, args.deep_view()),
{
    let mut passthrough: Vec<String> = Vec::new();
    assert(passthrough.deep_view() =~= Seq::<Seq<char>>::empty());
    extend_texts(&mut passthrough, &args);
    assert(passthrough.deep_view() =~= args.deep_view());
    let ghost old_settings = user_settings;
    let ghost scanned = classify_linker(args.deep_view(), user_settings.toggles())->Ok_0;
    let mut user_settings = user_settings;
    let prepared = match prepare_linker_args(args, &mut user_settings) {
        Ok(p) => p,
        Err(e) => {
            return Err(e);
        },
    };
    let kind = user_settings.module_kind();
    if !kind.is_binary() {
        return Err(Error::NotLinkable(kind));
    }
    if prepared.linker_inputs.len() == 0 {
        let program = user_settings.llvm_location.get_tool_path("wasm-ld");
        let mut plan: Vec<Invocation> = Vec::new();
        plan.push(Invocation { program, args: passthrough });
        return Ok(plan);
    }
    let use_wasm_opt = match user_settings.run_wasm_opt {
        Some(choice) => choice,
        None => true,
    };
    let state = State {
        user_settings,
        build_settings: BuildSettings {
            opt_level: OptLevel::O0,
            debug_level: DebugLevel::G0,
            use_wasm_opt,
        },
        args: prepared,
        cxx: false,
        temp_dir: text("."),
    };
    let linker = state.user_settings.llvm_location.get_tool_path("wasm-ld");
    let sysroot = match state.user_settings.ensure_sysroot_location() {
        Ok(s) => s,
        Err(e) => {
            return Err(e);
        },
    };
    let plan = plan_link(&state, linker.as_str(), sysroot.as_str());
    assert(link_state(state, old_settings, scanned));
    assert(invocations(plan@).len() == plan@.len());
    assert(optimizer_plan(state).len() <= 1);
    Ok(plan)
}

/// The optimizer run of a binary build, when the user or the flags ask for
/// one and it has something to do.
pub open spec fn optimizer_plan(st: State) -> Seq<InvocationModel> {
    if wants_wasm_opt(st.user_settings.run_wasm_opt, st.build_settings.use_wasm_opt) {
        match wasm_opt_args(st) {
            Some(args) => seq![InvocationModel { program: "wasm-opt"@, args }],
            None => Seq::empty(),
        }
    } else {
        Seq::empty()
    }
}

/// Everything a compiler-mode build with inputs runs, given the compiler,
/// the linker and the sysroot: the compiler invocations, then for a binary
/// the link (of the linker inputs and the intermediate objects) and perhaps
/// the optimizer.
pub open spec fn build_plan(st: State, compiler: Seq<char>, linker: Seq<char>, sysroot: Seq<char>) -> Seq<
    InvocationModel,
> {
    let compiles = compile_plan(st, compiler, sysroot);
    if st.user_settings.spec_module_kind().spec_is_binary() {
        let link = InvocationModel {
            program: linker,
            args: link_args_with(st, st.args@.linker_inputs + planned_objects(st), sysroot),
        };
        compiles.push(link) + optimizer_plan(st)
    } else {
        compiles
    }
}

fn push_optimizer(plan: &mut Vec<Invocation>, state: &State)
    requires
        state.user_settings.spec_module_kind().spec_is_binary(),
    ensures
        invocations(final(plan)@) == invocations(old(plan)@) + optimizer_plan(*state),
{
    let ghost before = invocations(plan@);
    if should_run_wasm_opt(state.user_settings.run_wasm_opt, state.build_settings.use_wasm_opt) {
        match run_wasm_opt(state) {
            Some(opt) => {
                plan.push(opt);
                assert(invocations(plan@) =~= before + optimizer_plan(*state));
            },
            None => {
                assert(invocations(plan@) =~= before + optimizer_plan(*state));
            },
        }
    } else {
        assert(invocations(plan@) =~= before + optimizer_plan(*state));
    }
}

/// Plans a compiler-mode build once the compiler, linker and sysroot are
/// known.
pub fn plan_build(state: &mut State, compiler: &str, linker: &str, sysroot: &str) -> (r: Vec<
    Invocation,
>)
    ensures
        invocations(r@) == build_plan(*old(state), compiler@, linker@, sysroot@),
{
    let ghost st = *state;
    let mut plan = compile_invocations(state, compiler, sysroot);
    if state.user_settings.module_kind().is_binary() {
        let ghost before = invocations(plan@);
        let link = link_invocation(state, linker, sysroot);
        assert(link@.args == link_args_with(st, st.args@.linker_inputs + planned_objects(st), sysroot@));
        plan.push(link);
        assert(invocations(plan@) =~= before.push(link@));
        assert(optimizer_plan(*state) == optimizer_plan(st));
        push_optimizer(&mut plan, state);
    }
    plan
}

/// Everything a link-only build with inputs runs, given the linker and the
/// sysroot: the link, then the optimizer when it has something to do.
pub open spec fn link_plan(st: State, linker: Seq<char>, sysroot: Seq<char>) -> Seq<InvocationModel> {
    let link = InvocationModel { program: linker, args: link_args_with(st, st.args@.linker_inputs, sysroot) };
    seq![link] + optimizer_plan(st)
}

/// Plans a link-only build once the linker and sysroot are known.
pub fn plan_link(state: &State, linker: &str, sysroot: &str) -> (r: Vec<Invocation>)
    requires
        state.user_settings.spec_module_kind().spec_is_binary(),
    ensures
        invocations(r@) == link_plan(*state, linker@, sysroot@),
{
    let mut plan: Vec<Invocation> = Vec::new();
    let link = link_invocation(state, linker, sysroot);
    plan.push(link);
    assert(invocations(plan@) =~= seq![link@]);
    push_optimizer(&mut plan, state);
    plan
}

/// When the flags declined the optimizer and the user did not ask for it,
/// a binary build runs nothing after the link.
pub proof fn lemma_declined_optimizer_not_planned(
    st: State,
    compiler: Seq<char>,
    linker: Seq<char>,
    sysroot: Seq<char>,
)
    requires
        !st.build_settings.use_wasm_opt,
        st.user_settings.run_wasm_opt is None,
        st.user_settings.spec_module_kind().spec_is_binary(),
    ensures
        optimizer_plan(st) == Seq::<InvocationModel>::empty(),
        build_plan(st, compiler, linker, sysroot).len() == compile_plan(
            st,
            compiler,
            sysroot,
        ).len() + 1,
        build_plan(st, compiler, linker, sysroot).last().program == linker,
{
    let compiles = compile_plan(st, compiler, sysroot);
    let link = InvocationModel {
        program: linker,
        args: link_args_with(st, st.args@.linker_inputs + planned_objects(st), sysroot),
    };
    assert(compiles.push(link) + optimizer_plan(st) =~= compiles.push(link));
}

} // verus!
