//! Synthesis of the compiler, linker and post-link optimizer invocations
//! from classified arguments and the configuration.
use vstd::prelude::*;

use crate::classify::PreparedArgs;
use crate::config::{BuildSettings, DebugLevel, ModuleKind, OptLevel, UserSettings};
use crate::error::{Error, Fault};
use crate::text::{
    concat, decimal, decimal_text, extend_texts, file_name_of, has_prefix, join_path, joined,
    path_file_name, push_text, same_text, text,
};

verus! {

/// One run of an outside tool.
#[derive(Debug)]
pub struct Invocation {
    pub program: String,
    pub args: Vec<String>,
}

/// The mathematical form of an [`Invocation`].
pub struct InvocationModel {
    pub program: Seq<char>,
    pub args: Seq<Seq<char>>,
}

impl View for Invocation {
    type V = InvocationModel;

    open spec fn view(&self) -> InvocationModel {
        InvocationModel { program: self.program@, args: self.args.deep_view() }
    }
}

pub open spec fn invocations(v: Seq<Invocation>) -> Seq<InvocationModel> {
    v.map_values(|i: Invocation| i@)
}

/// Everything one build pipeline works on.
#[derive(Debug)]
pub struct State {
    pub user_settings: UserSettings,
    pub build_settings: BuildSettings,
    pub args: PreparedArgs,
    pub cxx: bool,
    /// Where intermediate objects are written.
    pub temp_dir: String,
}

/// The output path: the one given, else `a.out` for binaries and `a.o` for
/// object files.
pub open spec fn spec_output_path(st: State) -> Seq<char> {
    match st.args@.output {
        Some(p) => p,
        None => if st.user_settings.spec_module_kind() is ObjectFile {
            "a.o"@
        } else {
            "a.out"@
        },
    }
}

/// The path of the build's output.
pub fn output_path(state: &State) -> (r: String)
    ensures
        r@ == spec_output_path(*state),
{
    match &state.args.output {
        Some(p) => p.clone(),
        None => match state.user_settings.module_kind() {
            ModuleKind::ObjectFile => text("a.o"),
            _ => text("a.out"),
        },
    }
}

// ---------------------------------------------------------------------------
// Compiler invocations
/// Backend flags that enable exception handling (and C++ exceptions).
pub open spec fn backend_eh_flags(cxx: bool) -> Seq<Seq<char>> {
    seq!["-mllvm"@, "--wasm-enable-sjlj"@] + if cxx {
        seq!["-mllvm"@, "--wasm-enable-eh"@]
    } else {
        Seq::empty()
    }
}

pub open spec fn compile_prefix(sysroot: Seq<char>) -> Seq<Seq<char>> {
    seq![
        "--sysroot"@,
        sysroot,
        "--target=wasm32-wasi"@,
        "-c"@,
        "-matomics"@,
        "-mbulk-memory"@,
        "-mmutable-globals"@,
        "-pthread"@,
        "-mthread-model"@,
        "posix"@,
        "-fno-trapping-math"@,
        "-D_WASI_EMULATED_MMAN"@,
        "-D_WASI_EMULATED_SIGNAL"@,
        "-D_WASI_EMULATED_PROCESS_CLOCKS"@,
    ]
}

/// The flags every compiler invocation of the build gets, before its
/// inputs and output.
pub open spec fn compile_flags(st: State, sysroot: Seq<char>) -> Seq<Seq<char>> {
    let us = st.user_settings;
    compile_prefix(sysroot) + (if us.wasm_exceptions {
        seq!["-fwasm-exceptions"@] + backend_eh_flags(st.cxx)
    } else {
        Seq::empty()
    }) + (if us.spec_module_kind().spec_requires_pic() || us.pic {
        seq!["-fPIC"@, "-ftls-model=global-dynamic"@, "-fvisibility=default"@]
    } else {
        seq!["-ftls-model=local-exec"@]
    }) + (if st.build_settings.debug_level != DebugLevel::NoDebug {
        seq!["-g"@]
    } else {
        Seq::empty()
    }) + st.args@.compiler_args
}

fn push_backend_eh_flags(v: &mut Vec<String>, cxx: bool)
    ensures
        final(v).deep_view() == old(v).deep_view() + backend_eh_flags(cxx),
{
    push_text(v, "-mllvm");
    push_text(v, "--wasm-enable-sjlj");
    if cxx {
        push_text(v, "-mllvm");
        push_text(v, "--wasm-enable-eh");
    }
    assert(final(v).deep_view() =~= old(v).deep_view() + backend_eh_flags(cxx));
}

/// The flags of the build's compiler invocations, given the sysroot.
pub fn compile_flags_for(state: &State, sysroot: &str) -> (r: Vec<String>)
    ensures
        r.deep_view() == compile_flags(*state, sysroot@),
{
    let mut v: Vec<String> = Vec::new();
    push_text(&mut v, "--sysroot");
    push_text(&mut v, sysroot);
    push_text(&mut v, "--target=wasm32-wasi");
    push_text(&mut v, "-c");
    push_text(&mut v, "-matomics");
    push_text(&mut v, "-mbulk-memory");
    push_text(&mut v, "-mmutable-globals");
    push_text(&mut v, "-pthread");
    push_text(&mut v, "-mthread-model");
    push_text(&mut v, "posix");
    push_text(&mut v, "-fno-trapping-math");
    push_text(&mut v, "-D_WASI_EMULATED_MMAN");
    push_text(&mut v, "-D_WASI_EMULATED_SIGNAL");
    push_text(&mut v, "-D_WASI_EMULATED_PROCESS_CLOCKS");
    assert(v.deep_view() =~= compile_prefix(sysroot@));
    let ghost a = v.deep_view();
    let us = &state.user_settings;
    if us.wasm_exceptions {
        push_text(&mut v, "-fwasm-exceptions");
        push_backend_eh_flags(&mut v, state.cxx);
        assert(v.deep_view() =~= a + (seq!["-fwasm-exceptions"@] + backend_eh_flags(state.cxx)));
    } else {
        assert(v.deep_view() =~= a + Seq::<Seq<char>>::empty());
    }
    let ghost b = v.deep_view();
    if us.module_kind().requires_pic() || us.pic {
        push_text(&mut v, "-fPIC");
        push_text(&mut v, "-ftls-model=global-dynamic");
        push_text(&mut v, "-fvisibility=default");
        assert(v.deep_view() =~= b + seq![
            "-fPIC"@,
            "-ftls-model=global-dynamic"@,
            "-fvisibility=default"@,
        ]);
    } else {
        push_text(&mut v, "-ftls-model=local-exec");
        assert(v.deep_view() =~= b + seq!["-ftls-model=local-exec"@]);
    }
    let ghost c = v.deep_view();
    if state.build_settings.debug_level != DebugLevel::NoDebug {
        push_text(&mut v, "-g");
        assert(v.deep_view() =~= c + seq!["-g"@]);
    } else {
        assert(v.deep_view() =~= c + Seq::<Seq<char>>::empty());
    }
    extend_texts(&mut v, &state.args.compiler_args);
    v
}

/// The name an input's intermediate object is based on.
pub open spec fn object_base(input: Seq<char>) -> Seq<char> {
    match path_file_name(input) {
        Some(n) => n,
        None => "output"@,
    }
}

/// How many of the first `k` names equal `name`.
pub open spec fn count_before(names: Seq<Seq<char>>, k: int, name: Seq<char>) -> nat
    decreases k,
{
    if k <= 0 {
        0
    } else {
        count_before(names, k - 1, name) + if names[k - 1] == name {
            1nat
        } else {
            0nat
        }
    }
}

/// The file name of an intermediate object: the input's base name, a count
/// that tells apart inputs with the same base name, and `.o`.
pub open spec fn object_file_name(base: Seq<char>, count: nat) -> Seq<char> {
    base + "."@ + decimal(count) + ".o"@
}

/// Names an intermediate object.
pub fn intermediate_object_name(base: &str, count: usize) -> (r: String)
    ensures
        r@ == object_file_name(base@, count as nat),
{
    let mut file = text(base);
    file.append(".");
    let digits = decimal_text(count);
    file.append(digits.as_str());
    file.append(".o");
    file
}

/// The intermediate object of input `k`: its base name, the number of
/// earlier inputs with the same base name, and `.o`, inside `dir`.
pub open spec fn object_path(dir: Seq<char>, inputs: Seq<Seq<char>>, k: int) -> Seq<char> {
    let names = inputs.map_values(|p: Seq<char>| object_base(p));
    joined(
        dir,
        object_file_name(names[k], count_before(names, k, names[k])),
    )
}

/// The compiler invocations of a build, given the compiler and sysroot: one
/// per input, each writing an intermediate object, when the output is
/// linked; else one for all inputs writing the output.
pub open spec fn compile_plan(st: State, compiler: Seq<char>, sysroot: Seq<char>) -> Seq<
    InvocationModel,
> {
    let flags = compile_flags(st, sysroot);
    let inputs = st.args@.compiler_inputs;
    if st.user_settings.spec_module_kind().spec_is_binary() {
        Seq::new(
            inputs.len(),
            |k: int|
                InvocationModel {
                    program: compiler,
                    args: flags + seq![inputs[k], "-o"@, object_path(st.temp_dir@, inputs, k)],
                },
        )
    } else {
        seq![
            InvocationModel {
                program: compiler,
                args: flags + inputs + match st.args@.output {
                    Some(o) => seq!["-o"@, o],
                    None => Seq::empty(),
                },
            },
        ]
    }
}

/// How many compiler invocations a build has.
pub open spec fn compile_count(st: State) -> nat {
    if st.user_settings.spec_module_kind().spec_is_binary() {
        st.args@.compiler_inputs.len()
    } else {
        1
    }
}

/// The intermediate objects the compiler invocations of a build write.
pub open spec fn planned_objects(st: State) -> Seq<Seq<char>> {
    let inputs = st.args@.compiler_inputs;
    if st.user_settings.spec_module_kind().spec_is_binary() {
        Seq::new(inputs.len(), |k: int| object_path(st.temp_dir@, inputs, k))
    } else {
        Seq::empty()
    }
}

fn object_bases(inputs: &Vec<String>) -> (r: Vec<String>)
    ensures
        r.deep_view() == inputs.deep_view().map_values(|p: Seq<char>| object_base(p)),
{
    let mut r: Vec<String> = Vec::new();
    let mut k: usize = 0;
    while k < inputs.len()
        invariant
            k <= inputs@.len(),
            r.deep_view() =~= inputs.deep_view().subrange(0, k as int).map_values(
                |p: Seq<char>| object_base(p),
            ),
        decreases inputs@.len() - k,
    {
        let name = match file_name_of(inputs[k].as_str()) {
            Some(n) => n,
            None => text("output"),
        };
        let ghost before = r.deep_view();
        r.push(name);
        assert(r.deep_view() =~= before.push(object_base(inputs.deep_view()[k as int])));
        k += 1;
    }
    assert(inputs.deep_view().subrange(0, inputs@.len() as int) =~= inputs.deep_view());
    r
}

fn count_same_before(names: &Vec<String>, k: usize) -> (r: usize)
    requires
        k < names@.len(),
    ensures
        r == count_before(names.deep_view(), k as int, names.deep_view()[k as int]),
{
    let ghost nv = names.deep_view();
    let mut c: usize = 0;
    let mut j: usize = 0;
    while j < k
        invariant
            nv == names.deep_view(),
            k < nv.len(),
            j <= k,
            c == count_before(nv, j as int, nv[k as int]),
            c <= j,
        decreases k - j,
    {
        if same_text(names[j].as_str(), names[k].as_str()) {
            c += 1;
        }
        j += 1;
    }
    c
}

/// The compiler invocations of a build once the compiler and sysroot are
/// known. When the output is linked, the intermediate objects are added to
/// the linker inputs.
pub fn compile_invocations(state: &mut State, compiler: &str, sysroot: &str) -> (r: Vec<
    Invocation,
>)
    ensures
        invocations(r@) == compile_plan(*old(state), compiler@, sysroot@),
        final(state).args@.linker_inputs == old(state).args@.linker_inputs + planned_objects(
            *old(state),
        ),
        final(state).args@.compiler_args == old(state).args@.compiler_args,
        final(state).args@.linker_args == old(state).args@.linker_args,
        final(state).args@.compiler_inputs == old(state).args@.compiler_inputs,
        final(state).args@.output == old(state).args@.output,
        final(state).user_settings == old(state).user_settings,
        final(state).build_settings == old(state).build_settings,
        final(state).cxx == old(state).cxx,
        final(state).temp_dir == old(state).temp_dir,
{
    let flags = compile_flags_for(state, sysroot);
    let ghost st = *state;
    let ghost fv = flags.deep_view();
    let mut plan: Vec<Invocation> = Vec::new();
    if state.user_settings.module_kind().is_binary() {
        let names = object_bases(&state.args.compiler_inputs);
        let ghost inputs = st.args@.compiler_inputs;
        let ghost nv = names.deep_view();
        let n = state.args.compiler_inputs.len();
        let mut k: usize = 0;
        assert(names@.len() == nv.len());
        while k < n
            invariant
                n == inputs.len(),
                inputs == st.args@.compiler_inputs,
                plan@.len() == k,
                names@.len() == n,
                k <= n,
                nv == names.deep_view(),
                nv == inputs.map_values(|p: Seq<char>| object_base(p)),
                fv == flags.deep_view(),
                fv == compile_flags(st, sysroot@),
                st.user_settings.spec_module_kind().spec_is_binary(),
                state.args@.compiler_inputs == inputs,
                state.args@.compiler_args == st.args@.compiler_args,
                state.args@.linker_args == st.args@.linker_args,
                state.args@.output == st.args@.output,
                state.args@.linker_inputs == st.args@.linker_inputs + planned_objects(
                    st,
                ).subrange(0, k as int),
                state.user_settings == st.user_settings,
                state.build_settings == st.build_settings,
                state.cxx == st.cxx,
                state.temp_dir == st.temp_dir,
                invocations(plan@) == compile_plan(st, compiler@, sysroot@).subrange(0, k as int),
            decreases n - k,
        {
            let count = count_same_before(&names, k);
            let file = intermediate_object_name(names[k].as_str(), count);
            let object = join_path(state.temp_dir.as_str(), file.as_str());
            assert(object@ == object_path(st.temp_dir@, inputs, k as int));
            let mut args: Vec<String> = Vec::new();
            extend_texts(&mut args, &flags);
            push_text(&mut args, state.args.compiler_inputs[k].as_str());
            push_text(&mut args, "-o");
            push_text(&mut args, object.as_str());
            assert(args.deep_view() =~= fv + seq![inputs[k as int], "-o"@, object@]);
            let ghost before = invocations(plan@);
            let ghost links = state.args@.linker_inputs;
            plan.push(Invocation { program: text(compiler), args });
            let ghost ps = compile_plan(st, compiler@, sysroot@);
            assert(ps[k as int].args == fv + seq![inputs[k as int], "-o"@, object@]);
            assert(plan@[k as int]@ == ps[k as int]);
            assert(invocations(plan@) =~= before.push(compile_plan(st, compiler@, sysroot@)[k as int]));
            assert(compile_plan(st, compiler@, sysroot@).subrange(0, k + 1) =~= compile_plan(
                st,
                compiler@,
                sysroot@,
            ).subrange(0, k as int).push(compile_plan(st, compiler@, sysroot@)[k as int]));
            state.args.linker_inputs.push(object);
            assert(state.args@.linker_inputs =~= links.push(object@));
            assert(planned_objects(st).subrange(0, k + 1) =~= planned_objects(st).subrange(
                0,
                k as int,
            ).push(object@));
            k += 1;
        }
        assert(compile_plan(st, compiler@, sysroot@).subrange(0, n as int) =~= compile_plan(
            st,
            compiler@,
            sysroot@,
        ));
        assert(planned_objects(st).subrange(0, n as int) =~= planned_objects(st));
    } else {
        let mut args: Vec<String> = Vec::new();
        extend_texts(&mut args, &flags);
        extend_texts(&mut args, &state.args.compiler_inputs);
        let ghost base = args.deep_view();
        match &state.args.output {
            Some(o) => {
                push_text(&mut args, "-o");
                push_text(&mut args, o.as_str());
                assert(args.deep_view() =~= base + seq!["-o"@, o@]);
            },
            None => {
                assert(args.deep_view() =~= base + Seq::<Seq<char>>::empty());
            },
        }
        plan.push(Invocation { program: text(compiler), args });
        assert(invocations(plan@) =~= compile_plan(st, compiler@, sysroot@));
        assert(st.args@.linker_inputs + planned_objects(st) =~= st.args@.linker_inputs);
    }
    plan
}

/// The compiler driver for C or C++.
pub open spec fn compiler_tool(cxx: bool) -> Seq<char> {
    if cxx {
        "clang++"@
    } else {
        "clang"@
    }
}

/// The compiler invocations of a build: the compiler comes from the LLVM
/// location and the sysroot must exist. When the output is linked, the
/// intermediate objects are added to the linker inputs.
pub fn compile_inputs(state: &mut State) -> (r: Result<Vec<Invocation>, Error>)
    ensures
        match old(state).user_settings.spec_sysroot_location() {
            None => r matches Err(Error::PicWithoutExceptions),
            Some(sysroot) => match r {
                Ok(plan) => invocations(plan@) == compile_plan(
                    *old(state),
                    old(state).user_settings.llvm_location.spec_tool_path(
                        compiler_tool(old(state).cxx),
                        true,
                    ),
                    sysroot,
                ) || invocations(plan@) == compile_plan(
                    *old(state),
                    old(state).user_settings.llvm_location.spec_tool_path(
                        compiler_tool(old(state).cxx),
                        false,
                    ),
                    sysroot,
                ),
                Err(e) => e@ == Fault::MissingSysroot(sysroot),
            },
        },
        r is Ok ==> r->Ok_0@.len() == compile_count(*old(state)),
        r is Ok ==> final(state).args@.linker_inputs == old(state).args@.linker_inputs
            + planned_objects(*old(state)),
        final(state).user_settings == old(state).user_settings,
        final(state).build_settings == old(state).build_settings,
        final(state).args@.compiler_args == old(state).args@.compiler_args,
        final(state).args@.linker_args == old(state).args@.linker_args,
        final(state).args@.compiler_inputs == old(state).args@.compiler_inputs,
        final(state).args@.output == old(state).args@.output,
        final(state).cxx == old(state).cxx,
        final(state).temp_dir == old(state).temp_dir,
        r is Err ==> final(state).args@ == old(state).args@,
{
    let tool = if state.cxx {
        "clang++"
    } else {
        "clang"
    };
    let compiler = state.user_settings.llvm_location.get_tool_path(tool);
    let sysroot = match state.user_settings.ensure_sysroot_location() {
        Ok(s) => s,
        Err(e) => {
            return Err(e);
        },
    };
    let plan = compile_invocations(state, compiler.as_str(), sysroot.as_str());
    assert(invocations(plan@).len() == plan@.len());
    Ok(plan)
}

// ---------------------------------------------------------------------------
// The linker invocation
pub open spec fn link_features() -> Seq<Seq<char>> {
    seq![
        "--extra-features=atomics"@,
        "--extra-features=bulk-memory"@,
        "--extra-features=mutable-globals"@,
        "--shared-memory"@,
        "--max-memory=4294967296"@,
        "--import-memory"@,
        "--export-dynamic"@,
        "--export=__wasm_call_ctors"@,
    ]
}

pub open spec fn tls_exports() -> Seq<Seq<char>> {
    seq![
        "--export=__wasm_init_tls"@,
        "--export=__wasm_signal"@,
        "--export=__tls_size"@,
        "--export=__tls_align"@,
        "--export=__tls_base"@,
    ]
}

pub open spec fn main_exports() -> Seq<Seq<char>> {
    seq![
        "--export-if-defined=__stack_pointer"@,
        "--export-if-defined=__heap_base"@,
        "--export-if-defined=__data_end"@,
    ]
}

pub open spec fn main_libraries(cxx: bool) -> Seq<Seq<char>> {
    seq![
        "-lwasi-emulated-getpid"@,
        "-lwasi-emulated-mman"@,
        "-lwasi-emulated-process-clocks"@,
        "-lc"@,
        "-lresolv"@,
        "-lrt"@,
        "-lm"@,
        "-lpthread"@,
        "-lutil"@,
    ] + if cxx {
        seq!["-lc++"@, "-lc++abi"@, "-lunwind"@]
    } else {
        Seq::empty()
    }
}

pub open spec fn pic_link_flags() -> Seq<Seq<char>> {
    seq![
        "--experimental-pic"@,
        "--export-if-defined=__wasm_apply_data_relocs"@,
        "--export-if-defined=__wasm_apply_tls_relocs"@,
    ]
}

/// The flags particular to each kind of binary.
pub open spec fn kind_link_flags(kind: ModuleKind, symbolic: bool) -> Seq<Seq<char>> {
    match kind {
        ModuleKind::StaticMain => seq!["-z"@, "stack-size=8388608"@],
        ModuleKind::DynamicMain => seq!["-pie"@, "-lcommon-tag-stubs"@],
        ModuleKind::SharedLibrary => seq![
            "-shared"@,
            "--no-entry"@,
            "--unresolved-symbols=import-dynamic"@,
        ] + if symbolic {
            seq!["-Bsymbolic"@]
        } else {
            Seq::empty()
        },
        ModuleKind::ObjectFile => Seq::empty(),
    }
}

pub open spec fn when(c: bool, s: Seq<Seq<char>>) -> Seq<Seq<char>> {
    if c {
        s
    } else {
        Seq::empty()
    }
}

pub open spec fn sysroot_lib(sysroot: Seq<char>) -> Seq<char> {
    joined(sysroot, "lib"@)
}

pub open spec fn sysroot_target_lib(sysroot: Seq<char>) -> Seq<char> {
    joined(sysroot_lib(sysroot), "wasm32-wasi"@)
}

/// The arguments of the linker invocation, in order.
pub open spec fn link_args(st: State, sysroot: Seq<char>) -> Seq<Seq<char>> {
    link_args_with(st, st.args@.linker_inputs, sysroot)
}

/// The arguments of the linker invocation, in order, for the given linker
/// inputs.
pub open spec fn link_args_with(st: State, inputs: Seq<Seq<char>>, sysroot: Seq<char>) -> Seq<
    Seq<char>,
> {
    let us = st.user_settings;
    let kind = us.spec_module_kind();
    let dynamic = kind is DynamicMain;
    let lib32 = sysroot_target_lib(sysroot);
    st.args@.linker_args + link_features() + us.extra_linker_flags.deep_view() + when(
        us.wasm_exceptions,
        backend_eh_flags(st.cxx),
    ) + tls_exports() + when(kind.spec_is_executable(), main_exports()) + when(
        dynamic,
        seq!["--whole-archive"@, "--export-all"@],
    ) + seq!["-L"@ + sysroot_lib(sysroot), "-L"@ + lib32] + when(
        kind.spec_is_executable(),
        main_libraries(st.cxx),
    ) + when(dynamic, seq!["--no-whole-archive"@]) + seq!["-lclang_rt.builtins-wasm32"@] + when(
        kind.spec_requires_pic(),
        pic_link_flags(),
    ) + kind_link_flags(kind, us.link_symbolic) + inputs + seq![
        joined(
            lib32,
            if kind.spec_is_executable() {
                "crt1.o"@
            } else {
                "scrt1.o"@
            },
        ),
        "-o"@,
        spec_output_path(st),
    ]
}

fn push_when(v: &mut Vec<String>, c: bool, items: &Vec<String>)
    ensures
        final(v).deep_view() == old(v).deep_view() + when(c, items.deep_view()),
{
    if c {
        extend_texts(v, items);
    } else {
        assert(old(v).deep_view() + when(c, items.deep_view()) =~= old(v).deep_view());
    }
}

fn texts2(a: &str, b: &str) -> (r: Vec<String>)
    ensures
        r.deep_view() == seq![a@, b@],
{
    let mut r: Vec<String> = Vec::new();
    push_text(&mut r, a);
    push_text(&mut r, b);
    assert(r.deep_view() =~= seq![a@, b@]);
    r
}

fn texts3(a: &str, b: &str, c: &str) -> (r: Vec<String>)
    ensures
        r.deep_view() == seq![a@, b@, c@],
{
    let mut r = texts2(a, b);
    push_text(&mut r, c);
    assert(r.deep_view() =~= seq![a@, b@, c@]);
    r
}

fn backend_eh_list(cxx: bool) -> (r: Vec<String>)
    ensures
        r.deep_view() == backend_eh_flags(cxx),
{
    let mut r: Vec<String> = Vec::new();
    push_backend_eh_flags(&mut r, cxx);
    assert(r.deep_view() =~= backend_eh_flags(cxx));
    r
}

fn main_library_list(cxx: bool) -> (r: Vec<String>)
    ensures
        r.deep_view() == main_libraries(cxx),
{
    let mut r: Vec<String> = Vec::new();
    push_text(&mut r, "-lwasi-emulated-getpid");
    push_text(&mut r, "-lwasi-emulated-mman");
    push_text(&mut r, "-lwasi-emulated-process-clocks");
    push_text(&mut r, "-lc");
    push_text(&mut r, "-lresolv");
    push_text(&mut r, "-lrt");
    push_text(&mut r, "-lm");
    push_text(&mut r, "-lpthread");
    push_text(&mut r, "-lutil");
    if cxx {
        push_text(&mut r, "-lc++");
        push_text(&mut r, "-lc++abi");
        push_text(&mut r, "-lunwind");
    }
    assert(r.deep_view() =~= main_libraries(cxx));
    r
}

fn kind_flag_list(kind: ModuleKind, symbolic: bool) -> (r: Vec<String>)
    ensures
        r.deep_view() == kind_link_flags(kind, symbolic),
{
    match kind {
        ModuleKind::StaticMain => texts2("-z", "stack-size=8388608"),
        ModuleKind::DynamicMain => texts2("-pie", "-lcommon-tag-stubs"),
        ModuleKind::SharedLibrary => {
            let mut r = texts3("-shared", "--no-entry", "--unresolved-symbols=import-dynamic");
            if symbolic {
                push_text(&mut r, "-Bsymbolic");
            }
            assert(r.deep_view() =~= kind_link_flags(kind, symbolic));
            r
        },
        ModuleKind::ObjectFile => {
            let r: Vec<String> = Vec::new();
            assert(r.deep_view() =~= kind_link_flags(kind, symbolic));
            r
        },
    }
}

/// The linker invocation once the linker and sysroot are known.
pub fn link_invocation(state: &State, linker: &str, sysroot: &str) -> (r: Invocation)
    ensures
        r@.program == linker@,
        r@.args == link_args(*state, sysroot@),
{
    let us = &state.user_settings;
    let kind = us.module_kind();
    let executable = kind.is_executable();
    let dynamic = matches!(kind, ModuleKind::DynamicMain);
    let lib = join_path(sysroot, "lib");
    let lib32 = join_path(lib.as_str(), "wasm32-wasi");

    let mut v: Vec<String> = Vec::new();
    extend_texts(&mut v, &state.args.linker_args);
    push_text(&mut v, "--extra-features=atomics");
    push_text(&mut v, "--extra-features=bulk-memory");
    push_text(&mut v, "--extra-features=mutable-globals");
    push_text(&mut v, "--shared-memory");
    push_text(&mut v, "--max-memory=4294967296");
    push_text(&mut v, "--import-memory");
    push_text(&mut v, "--export-dynamic");
    push_text(&mut v, "--export=__wasm_call_ctors");
    assert(v.deep_view() =~= state.args@.linker_args + link_features());
    extend_texts(&mut v, &us.extra_linker_flags);
    push_when(&mut v, us.wasm_exceptions, &backend_eh_list(state.cxx));
    let ghost a = v.deep_view();
    push_text(&mut v, "--export=__wasm_init_tls");
    push_text(&mut v, "--export=__wasm_signal");
    push_text(&mut v, "--export=__tls_size");
    push_text(&mut v, "--export=__tls_align");
    push_text(&mut v, "--export=__tls_base");
    assert(v.deep_view() =~= a + tls_exports());
    push_when(
        &mut v,
        executable,
        &texts3(
            "--export-if-defined=__stack_pointer",
            "--export-if-defined=__heap_base",
            "--export-if-defined=__data_end",
        ),
    );
    push_when(&mut v, dynamic, &texts2("--whole-archive", "--export-all"));
    let ghost b = v.deep_view();
    let lib_flag = concat("-L", lib.as_str());
    let lib32_flag = concat("-L", lib32.as_str());
    push_text(&mut v, lib_flag.as_str());
    push_text(&mut v, lib32_flag.as_str());
    assert(v.deep_view() =~= b + seq!["-L"@ + sysroot_lib(sysroot@), "-L"@ + sysroot_target_lib(sysroot@)]);
    push_when(&mut v, executable, &main_library_list(state.cxx));
    let mut no_whole: Vec<String> = Vec::new();
    push_text(&mut no_whole, "--no-whole-archive");
    assert(no_whole.deep_view() =~= seq!["--no-whole-archive"@]);
    push_when(&mut v, dynamic, &no_whole);
    let ghost c = v.deep_view();
    push_text(&mut v, "-lclang_rt.builtins-wasm32");
    assert(v.deep_view() =~= c + seq!["-lclang_rt.builtins-wasm32"@]);
    push_when(
        &mut v,
        kind.requires_pic(),
        &texts3(
            "--experimental-pic",
            "--export-if-defined=__wasm_apply_data_relocs",
            "--export-if-defined=__wasm_apply_tls_relocs",
        ),
    );
    extend_texts(&mut v, &kind_flag_list(kind, us.link_symbolic));
    extend_texts(&mut v, &state.args.linker_inputs);
    let ghost d = v.deep_view();
    let crt = if executable {
        join_path(lib32.as_str(), "crt1.o")
    } else {
        join_path(lib32.as_str(), "scrt1.o")
    };
    push_text(&mut v, crt.as_str());
    push_text(&mut v, "-o");
    let out = output_path(state);
    push_text(&mut v, out.as_str());
    assert(v.deep_view() =~= d + seq![crt@, "-o"@, out@]);
    assert(v.deep_view() =~= link_args(*state, sysroot@));
    Invocation { program: text(linker), args: v }
}

/// The linker invocation of a build; the linker comes from the LLVM
/// location and the sysroot must exist. Only binaries are linked.
pub fn link_inputs(state: &State) -> (r: Result<Invocation, Error>)
    requires
        state.user_settings.spec_module_kind().spec_is_binary(),
    ensures
        match state.user_settings.spec_sysroot_location() {
            None => r matches Err(Error::PicWithoutExceptions),
            Some(sysroot) => match r {
                Ok(inv) => inv@.args == link_args(*state, sysroot) && (inv@.program
                    == state.user_settings.llvm_location.spec_tool_path("wasm-ld"@, true)
                    || inv@.program == state.user_settings.llvm_location.spec_tool_path(
                    "wasm-ld"@,
                    false,
                )),
                Err(e) => e@ == Fault::MissingSysroot(sysroot),
            },
        },
{
    let linker = state.user_settings.llvm_location.get_tool_path("wasm-ld");
    let sysroot = match state.user_settings.ensure_sysroot_location() {
        Ok(s) => s,
        Err(e) => {
            return Err(e);
        },
    };
    Ok(link_invocation(state, linker.as_str(), sysroot.as_str()))
}

// ---------------------------------------------------------------------------
// The post-link optimizer
/// Whether the optimizer runs on a binary: when the user asked for it, or
/// when the user did not rule it out and the flags asked for it.
pub open spec fn wants_wasm_opt(user_choice: Option<bool>, from_flags: bool) -> bool {
    user_choice == Some(true) || (user_choice is None && from_flags)
}

/// Whether the optimizer runs on a binary, given the user's explicit choice
/// and what the flags asked for.
pub fn should_run_wasm_opt(user_choice: Option<bool>, from_flags: bool) -> (r: bool)
    ensures
        r == wants_wasm_opt(user_choice, from_flags),
{
    match user_choice {
        Some(choice) => choice,
        None => from_flags,
    }
}

/// Whether some flag names an optimisation level.
pub open spec fn names_opt_level(flags: Seq<Seq<char>>) -> bool {
    exists|i: int| 0 <= i < flags.len() && "-O"@.is_prefix_of(#[trigger] flags[i])
}

fn any_opt_level(flags: &Vec<String>) -> (r: bool)
    ensures
        r == names_opt_level(flags.deep_view()),
{
    let ghost fv = flags.deep_view();
    let mut i: usize = 0;
    while i < flags.len()
        invariant
            fv == flags.deep_view(),
            i <= fv.len(),
            forall|j: int| 0 <= j < i ==> !"-O"@.is_prefix_of(#[trigger] fv[j]),
        decreases fv.len() - i,
    {
        if has_prefix(flags[i].as_str(), "-O") {
            assert(fv[i as int] == flags@[i as int]@);
            return true;
        }
        i += 1;
    }
    false
}

pub open spec fn opt_level_flag(o: OptLevel) -> Seq<Seq<char>> {
    match o {
        OptLevel::O0 => Seq::empty(),
        OptLevel::O1 => seq!["-O1"@],
        OptLevel::O2 => seq!["-O2"@],
        OptLevel::O3 => seq!["-O3"@],
        OptLevel::O4 => seq!["-O4"@],
        OptLevel::Os => seq!["-Os"@],
        OptLevel::Oz => seq!["-Oz"@],
    }
}

/// The passes the optimizer is asked to run: unless suppressed, the
/// exception-mode pass and the level of the flags (when the user's own
/// flags name none), then the user's flags.
pub open spec fn wasm_opt_passes(us: UserSettings, bs: BuildSettings) -> Seq<Seq<char>> {
    let user = us.wasm_opt_flags.deep_view();
    when(
        !us.wasm_opt_suppress_default,
        (if us.wasm_exceptions {
            seq!["--emit-exnref"@]
        } else {
            seq!["--asyncify"@]
        }) + when(!names_opt_level(user), opt_level_flag(bs.opt_level)),
    ) + user
}

pub open spec fn wasm_opt_features() -> Seq<Seq<char>> {
    seq![
        "--enable-threads"@,
        "--enable-mutable-globals"@,
        "--enable-bulk-memory"@,
        "--enable-bulk-memory-opt"@,
        "--enable-exception-handling"@,
    ]
}

/// The optimizer's arguments, or none when it has nothing to do.
pub open spec fn wasm_opt_args(st: State) -> Option<Seq<Seq<char>>> {
    let passes = wasm_opt_passes(st.user_settings, st.build_settings);
    let out = spec_output_path(st);
    let dbg = st.build_settings.debug_level;
    if passes.len() == 0 {
        None
    } else {
        Some(
            passes + when(!(dbg is NoDebug || dbg is G0), seq!["-g"@]) + seq!["--no-validation"@]
                + wasm_opt_features() + seq![out, "-o"@, out],
        )
    }
}

fn opt_level_list(o: OptLevel) -> (r: Vec<String>)
    ensures
        r.deep_view() == opt_level_flag(o),
{
    let mut r: Vec<String> = Vec::new();
    match o {
        OptLevel::O0 => {},
        OptLevel::O1 => push_text(&mut r, "-O1"),
        OptLevel::O2 => push_text(&mut r, "-O2"),
        OptLevel::O3 => push_text(&mut r, "-O3"),
        OptLevel::O4 => push_text(&mut r, "-O4"),
        OptLevel::Os => push_text(&mut r, "-Os"),
        OptLevel::Oz => push_text(&mut r, "-Oz"),
    }
    assert(r.deep_view() =~= opt_level_flag(o));
    r
}

/// The passes the optimizer is asked to run.
fn wasm_opt_pass_list(us: &UserSettings, bs: &BuildSettings) -> (r: Vec<String>)
    ensures
        r.deep_view() == wasm_opt_passes(*us, *bs),
{
    let mut v: Vec<String> = Vec::new();
    if !us.wasm_opt_suppress_default {
        if us.wasm_exceptions {
            push_text(&mut v, "--emit-exnref");
        } else {
            push_text(&mut v, "--asyncify");
        }
        let named = any_opt_level(&us.wasm_opt_flags);
        push_when(&mut v, !named, &opt_level_list(bs.opt_level));
    }
    extend_texts(&mut v, &us.wasm_opt_flags);
    assert(v.deep_view() =~= wasm_opt_passes(*us, *bs));
    v
}

fn push_wasm_opt_tail(v: &mut Vec<String>, out: &str)
    ensures
        final(v).deep_view() == old(v).deep_view() + seq!["--no-validation"@] + wasm_opt_features()
            + seq![out@, "-o"@, out@],
{
    push_text(v, "--no-validation");
    push_text(v, "--enable-threads");
    push_text(v, "--enable-mutable-globals");
    push_text(v, "--enable-bulk-memory");
    push_text(v, "--enable-bulk-memory-opt");
    push_text(v, "--enable-exception-handling");
    push_text(v, out);
    push_text(v, "-o");
    push_text(v, out);
    assert(final(v).deep_view() =~= old(v).deep_view() + seq!["--no-validation"@]
        + wasm_opt_features() + seq![out@, "-o"@, out@]);
}

/// The optimizer invocation, rewriting the output in place; none when no
/// pass is asked for.
pub fn run_wasm_opt(state: &State) -> (r: Option<Invocation>)
    ensures
        match wasm_opt_args(*state) {
            None => r is None,
            Some(args) => r matches Some(inv) && inv@.program == "wasm-opt"@ && inv@.args == args,
        },
{
    let mut v = wasm_opt_pass_list(&state.user_settings, &state.build_settings);
    if v.len() == 0 {
        return None;
    }
    let dbg = state.build_settings.debug_level;
    let keep_debug = !matches!(dbg, DebugLevel::NoDebug | DebugLevel::G0);
    let mut g: Vec<String> = Vec::new();
    push_text(&mut g, "-g");
    assert(g.deep_view() =~= seq!["-g"@]);
    push_when(&mut v, keep_debug, &g);
    let out = output_path(state);
    push_wasm_opt_tail(&mut v, out.as_str());
    Some(Invocation { program: text("wasm-opt"), args: v })
}

} // verus!
