//! The argument classifier: partitions a flat argument list into compiler
//! and linker flags and inputs, and extracts the build settings the flags
//! carry, filling in still-unset user settings on the way.
use vstd::prelude::*;

use crate::config::{
    resolve_kind, BuildSettings, DebugLevel, ModuleKind, OptLevel, Toggles, UserSettings,
};
use crate::error::{Error, Fault};
use crate::text::{
    extend_texts, extension_of, has_prefix, opt_text, path_extension, push_text, same_text,
    split_on, split_text, text, text_after,
};

verus! {

/// The classified arguments of one invocation.
#[derive(Debug)]
pub struct PreparedArgs {
    pub compiler_args: Vec<String>,
    pub linker_args: Vec<String>,
    pub compiler_inputs: Vec<String>,
    pub linker_inputs: Vec<String>,
    pub output: Option<String>,
}

/// The mathematical form of [`PreparedArgs`].
pub struct ArgsModel {
    pub compiler_args: Seq<Seq<char>>,
    pub linker_args: Seq<Seq<char>>,
    pub compiler_inputs: Seq<Seq<char>>,
    pub linker_inputs: Seq<Seq<char>>,
    pub output: Option<Seq<char>>,
}

impl View for PreparedArgs {
    type V = ArgsModel;

    open spec fn view(&self) -> ArgsModel {
        ArgsModel {
            compiler_args: self.compiler_args.deep_view(),
            linker_args: self.linker_args.deep_view(),
            compiler_inputs: self.compiler_inputs.deep_view(),
            linker_inputs: self.linker_inputs.deep_view(),
            output: opt_text(self.output),
        }
    }
}

pub open spec fn empty_args() -> ArgsModel {
    ArgsModel {
        compiler_args: Seq::empty(),
        linker_args: Seq::empty(),
        compiler_inputs: Seq::empty(),
        linker_inputs: Seq::empty(),
        output: None,
    }
}

/// What a classification pass has gathered so far.
pub struct Scan {
    pub args: ArgsModel,
    pub build: BuildSettings,
    pub toggles: Toggles,
}

pub open spec fn scan_of(pa: PreparedArgs, build: BuildSettings, toggles: Toggles) -> Scan {
    Scan { args: pa@, build, toggles }
}

/// The build settings every classification pass starts from.
pub open spec fn initial_build() -> BuildSettings {
    BuildSettings { opt_level: OptLevel::O0, debug_level: DebugLevel::G0, use_wasm_opt: true }
}

pub open spec fn initial_scan(toggles: Toggles) -> Scan {
    Scan { args: empty_args(), build: initial_build(), toggles }
}

/// Whether two user settings agree on everything but the fields that
/// classification fills in and the extra compiler flag lists it consumes.
pub open spec fn same_fixed_settings(a: UserSettings, b: UserSettings) -> bool {
    &&& a.sysroot_location == b.sysroot_location
    &&& a.sysroot_prefix == b.sysroot_prefix
    &&& a.llvm_location == b.llvm_location
    &&& a.extra_linker_flags == b.extra_linker_flags
    &&& a.include_cpp_symbols == b.include_cpp_symbols
    &&& a.run_wasm_opt == b.run_wasm_opt
    &&& a.wasm_opt_flags == b.wasm_opt_flags
    &&& a.wasm_opt_suppress_default == b.wasm_opt_suppress_default
    &&& a.wasm_opt_preserve_unoptimized == b.wasm_opt_preserve_unoptimized
    &&& a.link_symbolic == b.link_symbolic
}

/// Whether two user settings hold the same extra compiler flag lists.
pub open spec fn same_compiler_flag_lists(a: UserSettings, b: UserSettings) -> bool {
    &&& a.extra_compiler_flags == b.extra_compiler_flags
    &&& a.extra_compiler_post_flags == b.extra_compiler_post_flags
    &&& a.extra_compiler_flags_c == b.extra_compiler_flags_c
    &&& a.extra_compiler_post_flags_c == b.extra_compiler_post_flags_c
    &&& a.extra_compiler_flags_cxx == b.extra_compiler_flags_cxx
    &&& a.extra_compiler_post_flags_cxx == b.extra_compiler_post_flags_cxx
}

// ---------------------------------------------------------------------------
// Flag vocabulary
/// Compiler flags whose value is the following token.
pub open spec fn compiler_value_flag(a: Seq<char>) -> bool {
    ||| a == "-MT"@
    ||| a == "-MF"@
    ||| a == "-MJ"@
    ||| a == "-MQ"@
    ||| a == "-D"@
    ||| a == "-U"@
    ||| a == "-o"@
    ||| a == "-x"@
    ||| a == "-Xpreprocessor"@
    ||| a == "-include"@
    ||| a == "-imacros"@
    ||| a == "-idirafter"@
    ||| a == "-iprefix"@
    ||| a == "-iwithprefix"@
    ||| a == "-iwithprefixbefore"@
    ||| a == "-isysroot"@
    ||| a == "-imultilib"@
    ||| a == "-A"@
    ||| a == "-isystem"@
    ||| a == "-iquote"@
    ||| a == "-install_name"@
    ||| a == "-compatibility_version"@
    ||| a == "-mllvm"@
    ||| a == "-mthread-model"@
    ||| a == "-current_version"@
    ||| a == "-I"@
    ||| a == "-l"@
    ||| a == "-L"@
    ||| a == "-include-pch"@
    ||| a == "-u"@
    ||| a == "-undefined"@
    ||| a == "-target"@
    ||| a == "-Xlinker"@
    ||| a == "-Xclang"@
    ||| a == "-z"@
}

fn is_compiler_value_flag(a: &str) -> (r: bool)
    ensures
        r == compiler_value_flag(a@),
{
    same_text(a, "-MT") || same_text(a, "-MF") || same_text(a, "-MJ") || same_text(a, "-MQ")
        || same_text(a, "-D") || same_text(a, "-U") || same_text(a, "-o") || same_text(a, "-x")
        || same_text(a, "-Xpreprocessor") || same_text(a, "-include") || same_text(a, "-imacros")
        || same_text(a, "-idirafter") || same_text(a, "-iprefix") || same_text(a, "-iwithprefix")
        || same_text(a, "-iwithprefixbefore") || same_text(a, "-isysroot") || same_text(
        a,
        "-imultilib",
    ) || same_text(a, "-A") || same_text(a, "-isystem") || same_text(a, "-iquote") || same_text(
        a,
        "-install_name",
    ) || same_text(a, "-compatibility_version") || same_text(a, "-mllvm") || same_text(
        a,
        "-mthread-model",
    ) || same_text(a, "-current_version") || same_text(a, "-I") || same_text(a, "-l")
        || same_text(a, "-L") || same_text(a, "-include-pch") || same_text(a, "-u") || same_text(
        a,
        "-undefined",
    ) || same_text(a, "-target") || same_text(a, "-Xlinker") || same_text(a, "-Xclang")
        || same_text(a, "-z")
}

/// Linker flags whose value is the following token.
pub open spec fn linker_value_flag(a: Seq<char>) -> bool {
    ||| a == "-o"@
    ||| a == "-mllvm"@
    ||| a == "-L"@
    ||| a == "-l"@
    ||| a == "-m"@
    ||| a == "-O"@
    ||| a == "-y"@
    ||| a == "-z"@
}

fn is_linker_value_flag(a: &str) -> (r: bool)
    ensures
        r == linker_value_flag(a@),
{
    same_text(a, "-o") || same_text(a, "-mllvm") || same_text(a, "-L") || same_text(a, "-l")
        || same_text(a, "-m") || same_text(a, "-O") || same_text(a, "-y") || same_text(a, "-z")
}

/// Whether `a` is the flag `f`, alone or with an `=value` attached.
pub open spec fn names_flag(a: Seq<char>, f: Seq<char>) -> bool {
    f.is_prefix_of(a) && (a.len() == f.len() || a[f.len() as int] == '=')
}

fn is_named_flag(a: &str, f: &str) -> (r: bool)
    ensures
        r == names_flag(a@, f@),
{
    if !has_prefix(a, f) {
        return false;
    }
    let n = f.unicode_len();
    a.unicode_len() == n || a.get_char(n) == '='
}

/// Flags whose values the build configuration always supplies, so that
/// ones given from outside are dropped.
pub open spec fn discarded_flag(a: Seq<char>) -> bool {
    ||| names_flag(a, "-ftls-model"@)
    ||| names_flag(a, "--sysroot"@)
    ||| names_flag(a, "--target"@)
    ||| names_flag(a, "-mthread-model"@)
}

fn is_discarded_flag(a: &str) -> (r: bool)
    ensures
        r == discarded_flag(a@),
{
    is_named_flag(a, "-ftls-model") || is_named_flag(a, "--sysroot") || is_named_flag(
        a,
        "--target",
    ) || is_named_flag(a, "-mthread-model")
}

/// Compiler flags that belong to the link stage.
pub open spec fn forwarded_flag(a: Seq<char>) -> bool {
    "-L"@.is_prefix_of(a) || "-l"@.is_prefix_of(a)
}

pub open spec fn is_flag(a: Seq<char>) -> bool {
    a.len() > 0 && a[0] == '-'
}

fn starts_with_dash(a: &str) -> (r: bool)
    ensures
        r == is_flag(a@),
{
    a.unicode_len() > 0 && a.get_char(0) == '-'
}

/// The module kind an output file extension implies.
pub open spec fn deduced_kind(ext: Seq<char>) -> Option<ModuleKind> {
    if ext == "o"@ || ext == "obj"@ {
        Some(ModuleKind::ObjectFile)
    } else if ext == "so"@ {
        Some(ModuleKind::SharedLibrary)
    } else {
        None
    }
}

/// The module kind an output file extension implies: object files for
/// `o` and `obj`, shared libraries for `so`, none otherwise.
pub fn deduce_module_kind(extension: &str) -> (r: Option<ModuleKind>)
    ensures
        r == deduced_kind(extension@),
{
    if same_text(extension, "o") || same_text(extension, "obj") {
        Some(ModuleKind::ObjectFile)
    } else if same_text(extension, "so") {
        Some(ModuleKind::SharedLibrary)
    } else {
        None
    }
}

pub open spec fn kind_of_output(path: Seq<char>) -> Option<ModuleKind> {
    match path_extension(path) {
        Some(e) => deduced_kind(e),
        None => None,
    }
}

fn output_kind(path: &str) -> (r: Option<ModuleKind>)
    ensures
        r == kind_of_output(path@),
{
    match extension_of(path) {
        Some(e) => deduce_module_kind(e.as_str()),
        None => None,
    }
}

/// Whether a file extension is that of an archive or an object.
pub open spec fn link_extension(ext: Seq<char>) -> bool {
    ext == "a"@ || ext == "o"@ || ext == "obj"@
}

/// Whether a file extension is that of an archive or an object, which go
/// to the linker directly.
pub fn is_link_extension(ext: &str) -> (r: bool)
    ensures
        r == link_extension(ext@),
{
    same_text(ext, "a") || same_text(ext, "o") || same_text(ext, "obj")
}

/// Whether an input path names an archive or an object.
pub open spec fn link_input(path: Seq<char>) -> bool {
    match path_extension(path) {
        Some(e) => link_extension(e),
        None => false,
    }
}

fn is_link_input(path: &str) -> (r: bool)
    ensures
        r == link_input(path@),
{
    match extension_of(path) {
        Some(e) => is_link_extension(e.as_str()),
        None => false,
    }
}

// ---------------------------------------------------------------------------
// Build-settings extraction
pub open spec fn opt_level_of(s: Seq<char>) -> Option<OptLevel> {
    if s == "0"@ {
        Some(OptLevel::O0)
    } else if s == "1"@ {
        Some(OptLevel::O1)
    } else if s == "2"@ {
        Some(OptLevel::O2)
    } else if s == "3"@ {
        Some(OptLevel::O3)
    } else if s == "4"@ {
        Some(OptLevel::O4)
    } else if s == "s"@ {
        Some(OptLevel::Os)
    } else if s == "z"@ {
        Some(OptLevel::Oz)
    } else {
        None
    }
}

fn parse_opt_level(s: &str) -> (r: Option<OptLevel>)
    ensures
        r == opt_level_of(s@),
{
    if same_text(s, "0") {
        Some(OptLevel::O0)
    } else if same_text(s, "1") {
        Some(OptLevel::O1)
    } else if same_text(s, "2") {
        Some(OptLevel::O2)
    } else if same_text(s, "3") {
        Some(OptLevel::O3)
    } else if same_text(s, "4") {
        Some(OptLevel::O4)
    } else if same_text(s, "s") {
        Some(OptLevel::Os)
    } else if same_text(s, "z") {
        Some(OptLevel::Oz)
    } else {
        None
    }
}

pub open spec fn debug_level_of(s: Seq<char>) -> Option<DebugLevel> {
    if s.len() == 0 {
        Some(DebugLevel::G2)
    } else if s == "0"@ {
        Some(DebugLevel::G0)
    } else if s == "1"@ {
        Some(DebugLevel::G1)
    } else if s == "2"@ {
        Some(DebugLevel::G2)
    } else if s == "3"@ {
        Some(DebugLevel::G3)
    } else {
        None
    }
}

fn parse_debug_level(s: &str) -> (r: Option<DebugLevel>)
    ensures
        r == debug_level_of(s@),
{
    if s.unicode_len() == 0 {
        Some(DebugLevel::G2)
    } else if same_text(s, "0") {
        Some(DebugLevel::G0)
    } else if same_text(s, "1") {
        Some(DebugLevel::G1)
    } else if same_text(s, "2") {
        Some(DebugLevel::G2)
    } else if same_text(s, "3") {
        Some(DebugLevel::G3)
    } else {
        None
    }
}

/// What one flag does to the build settings and user settings, and whether
/// it stays in the classified output.
pub open spec fn flag_effect(arg: Seq<char>, b: BuildSettings, t: Toggles) -> Result<
    (bool, BuildSettings, Toggles),
    Fault,
> {
    if "-O"@.is_prefix_of(arg) {
        match opt_level_of(arg.subrange(2, arg.len() as int)) {
            Some(o) => Ok((true, BuildSettings { opt_level: o, ..b }, t)),
            None => Err(Fault::InvalidValue(arg)),
        }
    } else if "-g"@.is_prefix_of(arg) {
        match debug_level_of(arg.subrange(2, arg.len() as int)) {
            Some(d) => Ok((true, BuildSettings { debug_level: d, ..b }, t)),
            None => Err(Fault::InvalidValue(arg)),
        }
    } else if arg == "-fwasm-exceptions"@ {
        Ok((false, b, Toggles { wasm_exceptions: true, ..t }))
    } else if arg == "-fno-wasm-exceptions"@ {
        Ok((true, b, Toggles { wasm_exceptions: false, ..t }))
    } else if arg == "-fPIC"@ {
        Ok((true, b, Toggles { pic: true, ..t }))
    } else if arg == "-fno-PIC"@ {
        Ok((true, b, Toggles { pic: false, ..t }))
    } else if arg == "--wasm-opt"@ {
        Ok((false, BuildSettings { use_wasm_opt: true, ..b }, t))
    } else if arg == "--no-wasm-opt"@ {
        Ok((false, BuildSettings { use_wasm_opt: false, ..b }, t))
    } else {
        Ok((true, b, t))
    }
}

/// Applies one flag to the build settings and user settings, and tells
/// whether the flag stays in the classified output.
pub fn update_build_settings_from_arg(
    arg: &str,
    build_settings: &mut BuildSettings,
    user_settings: &mut UserSettings,
) -> (r: Result<bool, Error>)
    ensures
        match flag_effect(arg@, *old(build_settings), old(user_settings).toggles()) {
            Ok((keep, b, t)) => r == Ok::<bool, Error>(keep) && *final(build_settings) == b
                && final(user_settings).toggles() == t,
            Err(f) => r matches Err(e) && e@ == f && *final(build_settings) == *old(
                build_settings,
            ) && final(user_settings).toggles() == old(user_settings).toggles(),
        },
        same_fixed_settings(*old(user_settings), *final(user_settings)),
        same_compiler_flag_lists(*old(user_settings), *final(user_settings)),
{
    proof {
        reveal_strlit("-O");
        reveal_strlit("-g");
    }
    if has_prefix(arg, "-O") {
        let level = text_after(arg, 2);
        match parse_opt_level(level.as_str()) {
            Some(o) => {
                build_settings.opt_level = o;
                Ok(true)
            },
            None => Err(Error::InvalidValue(text(arg))),
        }
    } else if has_prefix(arg, "-g") {
        let level = text_after(arg, 2);
        match parse_debug_level(level.as_str()) {
            Some(d) => {
                build_settings.debug_level = d;
                Ok(true)
            },
            None => Err(Error::InvalidValue(text(arg))),
        }
    } else if same_text(arg, "-fwasm-exceptions") {
        user_settings.wasm_exceptions = true;
        Ok(false)
    } else if same_text(arg, "-fno-wasm-exceptions") {
        user_settings.wasm_exceptions = false;
        Ok(true)
    } else if same_text(arg, "-fPIC") {
        user_settings.pic = true;
        Ok(true)
    } else if same_text(arg, "-fno-PIC") {
        user_settings.pic = false;
        Ok(true)
    } else if same_text(arg, "--wasm-opt") {
        build_settings.use_wasm_opt = true;
        Ok(false)
    } else if same_text(arg, "--no-wasm-opt") {
        build_settings.use_wasm_opt = false;
        Ok(false)
    } else {
        Ok(true)
    }
}

// ---------------------------------------------------------------------------
// The compiler-mode classifier
pub open spec fn with_linker_args(s: Scan, more: Seq<Seq<char>>) -> Scan {
    Scan { args: ArgsModel { linker_args: s.args.linker_args + more, ..s.args }, ..s }
}

pub open spec fn with_compiler_args(s: Scan, more: Seq<Seq<char>>) -> Scan {
    Scan { args: ArgsModel { compiler_args: s.args.compiler_args + more, ..s.args }, ..s }
}

/// The toggles after an output path is seen: an unset module kind is taken
/// from the path's extension where that implies one.
pub open spec fn toggles_for_output(t: Toggles, path: Seq<char>) -> Toggles {
    Toggles {
        module_kind: if t.module_kind is Some {
            t.module_kind
        } else {
            kind_of_output(path)
        },
        ..t
    }
}

pub open spec fn args_with_output(a: ArgsModel, path: Seq<char>) -> ArgsModel {
    ArgsModel { output: Some(path), ..a }
}

/// The arguments after an input path is seen: archives and objects go to
/// the linker, everything else to the compiler.
pub open spec fn args_with_input(a: ArgsModel, path: Seq<char>) -> ArgsModel {
    if link_input(path) {
        ArgsModel { linker_inputs: a.linker_inputs.push(path), ..a }
    } else {
        ArgsModel { compiler_inputs: a.compiler_inputs.push(path), ..a }
    }
}

pub open spec fn with_output(s: Scan, path: Seq<char>) -> Scan {
    Scan {
        args: args_with_output(s.args, path),
        toggles: toggles_for_output(s.toggles, path),
        ..s
    }
}

pub open spec fn with_input(s: Scan, path: Seq<char>) -> Scan {
    Scan { args: args_with_input(s.args, path), ..s }
}

/// The flag at `i`, with its value when it takes one.
pub open spec fn flag_unit(t: Seq<Seq<char>>, i: int, takes: bool) -> Seq<Seq<char>> {
    if takes {
        seq![t[i], t[i + 1]]
    } else {
        seq![t[i]]
    }
}

/// One step of the compiler-mode classifier on the token at `i`: the new
/// state, and whether the following token was consumed as a value.
pub open spec fn compiler_step(t: Seq<Seq<char>>, i: int, s: Scan) -> Result<(bool, Scan), Fault> {
    let a = t[i];
    let has_next = t.len() - i > 1;
    if "-Wl,"@.is_prefix_of(a) {
        Ok((false, with_linker_args(s, split_on(a.subrange(4, a.len() as int), ','))))
    } else if a == "-Xlinker"@ {
        if has_next {
            Ok((true, with_linker_args(s, seq![t[i + 1]])))
        } else {
            Err(Fault::MissingValue(a))
        }
    } else if a == "-z"@ {
        if has_next {
            Ok((true, with_linker_args(s, seq![a, t[i + 1]])))
        } else {
            Err(Fault::MissingValue(a))
        }
    } else if a == "-o"@ {
        if has_next {
            Ok((true, with_output(s, t[i + 1])))
        } else {
            Err(Fault::MissingValue(a))
        }
    } else if is_flag(a) {
        match flag_effect(a, s.build, s.toggles) {
            Err(f) => Err(f),
            Ok((keep, b, tg)) => {
                let s1 = Scan { build: b, toggles: tg, ..s };
                let takes = compiler_value_flag(a);
                if !keep {
                    Ok((false, s1))
                } else if takes && !has_next {
                    Err(Fault::MissingValue(a))
                } else if discarded_flag(a) {
                    Ok((takes, s1))
                } else if forwarded_flag(a) {
                    Ok((takes, with_linker_args(s1, flag_unit(t, i, takes))))
                } else {
                    Ok((takes, with_compiler_args(s1, flag_unit(t, i, takes))))
                }
            },
        }
    } else {
        Ok((false, with_input(s, a)))
    }
}

/// The compiler-mode classifier from token `i` on.
pub open spec fn compiler_scan(t: Seq<Seq<char>>, i: int, s: Scan) -> Result<Scan, Fault>
    decreases (t.len() - i) as nat,
{
    if i < 0 || i >= t.len() {
        Ok(s)
    } else {
        match compiler_step(t, i, s) {
            Err(f) => Err(f),
            Ok((took, s2)) => compiler_scan(t, if took { i + 2 } else { i + 1 }, s2),
        }
    }
}

/// The module kind a compiler flag implies.
pub open spec fn compiler_kind_flag(a: Seq<char>) -> Option<ModuleKind> {
    if a == "-shared"@ {
        Some(ModuleKind::SharedLibrary)
    } else if a == "-c"@ || a == "-S"@ || a == "-E"@ {
        Some(ModuleKind::ObjectFile)
    } else {
        None
    }
}

/// The module kind a linker flag implies.
pub open spec fn linker_kind_flag(a: Seq<char>) -> Option<ModuleKind> {
    if a == "-shared"@ {
        Some(ModuleKind::SharedLibrary)
    } else if a == "-pie"@ {
        Some(ModuleKind::DynamicMain)
    } else {
        None
    }
}

/// The kind implied by the first compiler flag that implies one.
pub open spec fn first_compiler_kind(c: Seq<Seq<char>>) -> Option<ModuleKind>
    decreases c.len(),
{
    if c.len() == 0 {
        None
    } else if compiler_kind_flag(c[0]) is Some {
        compiler_kind_flag(c[0])
    } else {
        first_compiler_kind(c.drop_first())
    }
}

/// The kind implied by the first linker flag that implies one.
pub open spec fn first_linker_kind(c: Seq<Seq<char>>) -> Option<ModuleKind>
    decreases c.len(),
{
    if c.len() == 0 {
        None
    } else if linker_kind_flag(c[0]) is Some {
        linker_kind_flag(c[0])
    } else {
        first_linker_kind(c.drop_first())
    }
}

pub open spec fn with_kind(s: Scan, k: Option<ModuleKind>) -> Scan {
    Scan { toggles: Toggles { module_kind: k, ..s.toggles }, ..s }
}

/// After a compiler-mode pass, a still-unset module kind comes from the
/// compiler flags, and failing that from the linker flags.
pub open spec fn infer_compiler_kind(s: Scan) -> Scan {
    if s.toggles.module_kind is Some {
        s
    } else if first_compiler_kind(s.args.compiler_args) is Some {
        with_kind(s, first_compiler_kind(s.args.compiler_args))
    } else {
        with_kind(s, first_linker_kind(s.args.linker_args))
    }
}

/// The whole compiler-mode classification of a token stream.
pub open spec fn classify_compiler(t: Seq<Seq<char>>, toggles: Toggles) -> Result<Scan, Fault> {
    match compiler_scan(t, 0, initial_scan(toggles)) {
        Ok(s) => Ok(infer_compiler_kind(s)),
        Err(f) => Err(f),
    }
}

/// The tokens the compiler mode reads: the configured extra flags, the
/// language's extra flags, the arguments, then the post flags of both.
pub open spec fn compiler_stream(us: UserSettings, args: Seq<Seq<char>>, cxx: bool) -> Seq<
    Seq<char>,
> {
    us.extra_compiler_flags.deep_view() + (if cxx {
        us.extra_compiler_flags_cxx.deep_view()
    } else {
        us.extra_compiler_flags_c.deep_view()
    }) + args + us.extra_compiler_post_flags.deep_view() + (if cxx {
        us.extra_compiler_post_flags_cxx.deep_view()
    } else {
        us.extra_compiler_post_flags_c.deep_view()
    })
}

fn new_prepared_args() -> (r: PreparedArgs)
    ensures
        r@ == empty_args(),
{
    let r = PreparedArgs {
        compiler_args: Vec::new(),
        linker_args: Vec::new(),
        compiler_inputs: Vec::new(),
        linker_inputs: Vec::new(),
        output: None,
    };
    assert(r@.compiler_args =~= Seq::empty());
    assert(r@.linker_args =~= Seq::empty());
    assert(r@.compiler_inputs =~= Seq::empty());
    assert(r@.linker_inputs =~= Seq::empty());
    r
}

fn take_list(v: &mut Vec<String>) -> (r: Vec<String>)
    ensures
        r == *old(v),
        final(v)@.len() == 0,
{
    let mut out: Vec<String> = Vec::new();
    std::mem::swap(&mut out, v);
    out
}

fn append_list(v: &mut Vec<String>, w: Vec<String>)
    ensures
        final(v).deep_view() == old(v).deep_view() + w.deep_view(),
{
    let mut w = w;
    let ghost wv = w.deep_view();
    v.append(&mut w);
    assert(final(v).deep_view() =~= old(v).deep_view() + wv);
}

/// Records the output path, and the module kind it implies when none is set.
fn record_output(path: &str, pa: &mut PreparedArgs, us: &mut UserSettings)
    ensures
        final(pa)@ == args_with_output(old(pa)@, path@),
        final(us).toggles() == toggles_for_output(old(us).toggles(), path@),
        same_fixed_settings(*old(us), *final(us)),
        same_compiler_flag_lists(*old(us), *final(us)),
{
    if us.module_kind.is_none() {
        us.module_kind = output_kind(path);
    }
    pa.output = Some(text(path));
}

/// Classifies an input path.
fn record_input(path: &str, pa: &mut PreparedArgs)
    ensures
        final(pa)@ == args_with_input(old(pa)@, path@),
{
    if is_link_input(path) {
        push_text(&mut pa.linker_inputs, path);
    } else {
        push_text(&mut pa.compiler_inputs, path);
    }
}

fn compiler_step_exec(
    t: &Vec<String>,
    i: usize,
    pa: &mut PreparedArgs,
    bs: &mut BuildSettings,
    us: &mut UserSettings,
) -> (r: Result<bool, Error>)
    requires
        i < t@.len(),
    ensures
        match compiler_step(t.deep_view(), i as int, scan_of(*old(pa), *old(bs), old(us).toggles())) {
            Ok((took, s2)) => r == Ok::<bool, Error>(took) && scan_of(
                *final(pa),
                *final(bs),
                final(us).toggles(),
            ) == s2,
            Err(f) => r matches Err(e) && e@ == f,
        },
        same_fixed_settings(*old(us), *final(us)),
        same_compiler_flag_lists(*old(us), *final(us)),
{
    proof {
        reveal_strlit("-Wl,");
    }
    let ghost tv = t.deep_view();
    let a = t[i].as_str();
    assert(a@ == tv[i as int]);
    let has_next = t.len() - i > 1;
    if has_prefix(a, "-Wl,") {
        let rest = text_after(a, 4);
        let pieces = split_text(rest.as_str(), ',');
        extend_texts(&mut pa.linker_args, &pieces);
        Ok(false)
    } else if same_text(a, "-Xlinker") {
        if !has_next {
            return Err(Error::MissingValue(text(a)));
        }
        push_text(&mut pa.linker_args, t[i + 1].as_str());
        assert(final(pa)@.linker_args =~= old(pa)@.linker_args + seq![tv[i + 1]]);
        Ok(true)
    } else if same_text(a, "-z") {
        if !has_next {
            return Err(Error::MissingValue(text(a)));
        }
        push_text(&mut pa.linker_args, a);
        push_text(&mut pa.linker_args, t[i + 1].as_str());
        assert(final(pa)@.linker_args =~= old(pa)@.linker_args + seq![tv[i as int], tv[i + 1]]);
        Ok(true)
    } else if same_text(a, "-o") {
        if !has_next {
            return Err(Error::MissingValue(text(a)));
        }
        record_output(t[i + 1].as_str(), pa, us);
        Ok(true)
    } else if starts_with_dash(a) {
        let keep = update_build_settings_from_arg(a, bs, us)?;
        let takes = is_compiler_value_flag(a);
        if !keep {
            return Ok(false);
        }
        if takes && !has_next {
            return Err(Error::MissingValue(text(a)));
        }
        if is_discarded_flag(a) {
            return Ok(takes);
        }
        if has_prefix(a, "-L") || has_prefix(a, "-l") {
            push_text(&mut pa.linker_args, a);
            if takes {
                push_text(&mut pa.linker_args, t[i + 1].as_str());
                assert(final(pa)@.linker_args =~= old(pa)@.linker_args + flag_unit(tv, i as int, takes));
            } else {
                assert(final(pa)@.linker_args =~= old(pa)@.linker_args + flag_unit(tv, i as int, takes));
            }
        } else {
            push_text(&mut pa.compiler_args, a);
            if takes {
                push_text(&mut pa.compiler_args, t[i + 1].as_str());
                assert(final(pa)@.compiler_args =~= old(pa)@.compiler_args + flag_unit(tv, i as int, takes));
            } else {
                assert(final(pa)@.compiler_args =~= old(pa)@.compiler_args + flag_unit(tv, i as int, takes));
            }
        }
        Ok(takes)
    } else {
        record_input(a, pa);
        Ok(false)
    }
}

/// The extra compiler flag lists after a compiler-mode pass: the general
/// lists and those of the language used are consumed, the other language's
/// are kept.
pub open spec fn compiler_flags_consumed(a: UserSettings, b: UserSettings, cxx: bool) -> bool {
    &&& b.extra_compiler_flags@.len() == 0
    &&& b.extra_compiler_post_flags@.len() == 0
    &&& cxx ==> b.extra_compiler_flags_cxx@.len() == 0
    &&& cxx ==> b.extra_compiler_post_flags_cxx@.len() == 0
    &&& cxx ==> b.extra_compiler_flags_c == a.extra_compiler_flags_c
    &&& cxx ==> b.extra_compiler_post_flags_c == a.extra_compiler_post_flags_c
    &&& !cxx ==> b.extra_compiler_flags_c@.len() == 0
    &&& !cxx ==> b.extra_compiler_post_flags_c@.len() == 0
    &&& !cxx ==> b.extra_compiler_flags_cxx == a.extra_compiler_flags_cxx
    &&& !cxx ==> b.extra_compiler_post_flags_cxx == a.extra_compiler_post_flags_cxx
}

fn first_compiler_kind_of(c: &Vec<String>) -> (r: Option<ModuleKind>)
    ensures
        r == first_compiler_kind(c.deep_view()),
{
    let ghost cv = c.deep_view();
    let mut i: usize = 0;
    assert(cv.subrange(0, cv.len() as int) =~= cv);
    while i < c.len()
        invariant
            i <= cv.len(),
            cv == c.deep_view(),
            first_compiler_kind(cv) == first_compiler_kind(cv.subrange(i as int, cv.len() as int)),
        decreases cv.len() - i,
    {
        let ghost rest = cv.subrange(i as int, cv.len() as int);
        assert(rest[0] == cv[i as int]);
        assert(rest.drop_first() =~= cv.subrange(i + 1, cv.len() as int));
        let a = c[i].as_str();
        if same_text(a, "-shared") {
            return Some(ModuleKind::SharedLibrary);
        } else if same_text(a, "-c") || same_text(a, "-S") || same_text(a, "-E") {
            return Some(ModuleKind::ObjectFile);
        }
        i += 1;
    }
    None
}

fn first_linker_kind_of(c: &Vec<String>) -> (r: Option<ModuleKind>)
    ensures
        r == first_linker_kind(c.deep_view()),
{
    let ghost cv = c.deep_view();
    let mut i: usize = 0;
    assert(cv.subrange(0, cv.len() as int) =~= cv);
    while i < c.len()
        invariant
            i <= cv.len(),
            cv == c.deep_view(),
            first_linker_kind(cv) == first_linker_kind(cv.subrange(i as int, cv.len() as int)),
        decreases cv.len() - i,
    {
        let ghost rest = cv.subrange(i as int, cv.len() as int);
        assert(rest[0] == cv[i as int]);
        assert(rest.drop_first() =~= cv.subrange(i + 1, cv.len() as int));
        let a = c[i].as_str();
        if same_text(a, "-shared") {
            return Some(ModuleKind::SharedLibrary);
        } else if same_text(a, "-pie") {
            return Some(ModuleKind::DynamicMain);
        }
        i += 1;
    }
    None
}

/// Classifies the arguments of a compiler invocation. The tokens read are
/// the configured extra flags, the language's extra flags, `args`, and the
/// post flags of both; those lists are consumed. On success the result
/// holds the classified arguments and the build settings, and the user
/// settings hold the exception, PIC and module kind values the flags set
/// or implied.
pub fn prepare_compiler_args(
    args: Vec<String>,
    user_settings: &mut UserSettings,
    run_cxx: bool,
) -> (r: Result<(PreparedArgs, BuildSettings), Error>)
    ensures
        match classify_compiler(
            compiler_stream(*old(user_settings), args.deep_view(), run_cxx),
            old(user_settings).toggles(),
        ) {
            Ok(s) => r matches Ok((pa, bs)) && s == scan_of(pa, bs, final(user_settings).toggles()),
            Err(f) => r matches Err(e) && e@ == f,
        },
        same_fixed_settings(*old(user_settings), *final(user_settings)),
        compiler_flags_consumed(*old(user_settings), *final(user_settings), run_cxx),
{
    let ghost args_view = args.deep_view();
    let ghost stream_spec = compiler_stream(*user_settings, args_view, run_cxx);
    let ghost t0 = user_settings.toggles();
    let mut tokens = take_list(&mut user_settings.extra_compiler_flags);
    let lang = if run_cxx {
        take_list(&mut user_settings.extra_compiler_flags_cxx)
    } else {
        take_list(&mut user_settings.extra_compiler_flags_c)
    };
    append_list(&mut tokens, lang);
    append_list(&mut tokens, args);
    let post = take_list(&mut user_settings.extra_compiler_post_flags);
    append_list(&mut tokens, post);
    let lang_post = if run_cxx {
        take_list(&mut user_settings.extra_compiler_post_flags_cxx)
    } else {
        take_list(&mut user_settings.extra_compiler_post_flags_c)
    };
    append_list(&mut tokens, lang_post);
    assert(tokens.deep_view() == stream_spec);

    let mut pa = new_prepared_args();
    let mut bs = BuildSettings {
        opt_level: OptLevel::O0,
        debug_level: DebugLevel::G0,
        use_wasm_opt: true,
    };
    let ghost tv = tokens.deep_view();
    let n = tokens.len();
    let mut i: usize = 0;
    while i < n
        invariant
            n == tv.len(),
            tv == tokens.deep_view(),
            i <= n,
            compiler_scan(tv, 0, initial_scan(t0)) == compiler_scan(
                tv,
                i as int,
                scan_of(pa, bs, user_settings.toggles()),
            ),
            tv == compiler_stream(*old(user_settings), args_view, run_cxx),
            args_view == args.deep_view(),
            t0 == old(user_settings).toggles(),
            same_fixed_settings(*old(user_settings), *user_settings),
            compiler_flags_consumed(*old(user_settings), *user_settings, run_cxx),
        decreases n - i,
    {
        let step = compiler_step_exec(&tokens, i, &mut pa, &mut bs, user_settings);
        let took = match step {
            Ok(took) => took,
            Err(e) => {
                return Err(e);
            },
        };
        if took {
            i += 2;
        } else {
            i += 1;
        }
    }
    if user_settings.module_kind.is_none() {
        match first_compiler_kind_of(&pa.compiler_args) {
            Some(k) => {
                user_settings.module_kind = Some(k);
            },
            None => {
                user_settings.module_kind = first_linker_kind_of(&pa.linker_args);
            },
        }
    }
    Ok((pa, bs))
}

// ---------------------------------------------------------------------------
// The link-only classifier
/// One step of the link-only classifier on the token at `i`.
pub open spec fn linker_step(t: Seq<Seq<char>>, i: int, s: Scan) -> Result<(bool, Scan), Fault> {
    let a = t[i];
    let has_next = i + 1 < t.len();
    if a == "-o"@ {
        if has_next {
            Ok((true, with_output(s, t[i + 1])))
        } else {
            Err(Fault::MissingValue(a))
        }
    } else if is_flag(a) {
        if !linker_value_flag(a) {
            Ok((false, with_linker_args(s, seq![a])))
        } else if has_next {
            Ok((true, with_linker_args(s, seq![a, t[i + 1]])))
        } else {
            Err(Fault::MissingValue(a))
        }
    } else {
        Ok((false, Scan { args: ArgsModel { linker_inputs: s.args.linker_inputs.push(a), ..s.args }, ..s }))
    }
}

/// The link-only classifier from token `i` on.
pub open spec fn linker_scan(t: Seq<Seq<char>>, i: int, s: Scan) -> Result<Scan, Fault>
    decreases (t.len() - i) as nat,
{
    if i < 0 || i >= t.len() {
        Ok(s)
    } else {
        match linker_step(t, i, s) {
            Err(f) => Err(f),
            Ok((took, s2)) => linker_scan(t, if took { i + 2 } else { i + 1 }, s2),
        }
    }
}

/// After a link-only pass, a still-unset module kind comes from the linker
/// flags, and a kind that needs PIC turns PIC on.
pub open spec fn infer_linker_kind(s: Scan) -> Scan {
    let s1 = if s.toggles.module_kind is Some {
        s
    } else {
        with_kind(s, first_linker_kind(s.args.linker_args))
    };
    if resolve_kind(s1.toggles.module_kind, s1.toggles.pic).spec_requires_pic() {
        Scan { toggles: Toggles { pic: true, ..s1.toggles }, ..s1 }
    } else {
        s1
    }
}

/// The whole link-only classification of a token stream.
pub open spec fn classify_linker(t: Seq<Seq<char>>, toggles: Toggles) -> Result<Scan, Fault> {
    match linker_scan(t, 0, initial_scan(toggles)) {
        Ok(s) => Ok(infer_linker_kind(s)),
        Err(f) => Err(f),
    }
}

fn linker_step_exec(t: &Vec<String>, i: usize, pa: &mut PreparedArgs, us: &mut UserSettings) -> (r:
    Result<bool, Error>)
    requires
        i < t@.len(),
    ensures
        match linker_step(t.deep_view(), i as int, scan_of(*old(pa), initial_build(), old(us).toggles())) {
            Ok((took, s2)) => r == Ok::<bool, Error>(took) && scan_of(
                *final(pa),
                initial_build(),
                final(us).toggles(),
            ) == s2,
            Err(f) => r matches Err(e) && e@ == f,
        },
        same_fixed_settings(*old(us), *final(us)),
        same_compiler_flag_lists(*old(us), *final(us)),
{
    let ghost tv = t.deep_view();
    let a = t[i].as_str();
    assert(a@ == tv[i as int]);
    let has_next = t.len() - i > 1;
    if same_text(a, "-o") {
        if !has_next {
            return Err(Error::MissingValue(text(a)));
        }
        record_output(t[i + 1].as_str(), pa, us);
        Ok(true)
    } else if starts_with_dash(a) {
        if !is_linker_value_flag(a) {
            push_text(&mut pa.linker_args, a);
            assert(final(pa)@.linker_args =~= old(pa)@.linker_args + seq![tv[i as int]]);
            return Ok(false);
        }
        if !has_next {
            return Err(Error::MissingValue(text(a)));
        }
        push_text(&mut pa.linker_args, a);
        push_text(&mut pa.linker_args, t[i + 1].as_str());
        assert(final(pa)@.linker_args =~= old(pa)@.linker_args + seq![tv[i as int], tv[i + 1]]);
        Ok(true)
    } else {
        push_text(&mut pa.linker_inputs, a);
        Ok(false)
    }
}

/// Classifies the arguments of a link-only invocation: flags (with the
/// values of those that take one) go to the linker arguments, other tokens
/// are linker inputs. On success the user settings hold the module kind the
/// output or the flags implied, and PIC when that kind needs it.
pub fn prepare_linker_args(args: Vec<String>, user_settings: &mut UserSettings) -> (r: Result<
    PreparedArgs,
    Error,
>)
    ensures
        match classify_linker(args.deep_view(), old(user_settings).toggles()) {
            Ok(s) => r matches Ok(pa) && s == scan_of(pa, initial_build(), final(user_settings).toggles()),
            Err(f) => r matches Err(e) && e@ == f,
        },
        same_fixed_settings(*old(user_settings), *final(user_settings)),
        same_compiler_flag_lists(*old(user_settings), *final(user_settings)),
{
    let ghost t0 = user_settings.toggles();
    let mut pa = new_prepared_args();
    let ghost tv = args.deep_view();
    let n = args.len();
    let mut i: usize = 0;
    while i < n
        invariant
            n == tv.len(),
            tv == args.deep_view(),
            i <= n,
            linker_scan(tv, 0, initial_scan(t0)) == linker_scan(
                tv,
                i as int,
                scan_of(pa, initial_build(), user_settings.toggles()),
            ),
            t0 == old(user_settings).toggles(),
            same_fixed_settings(*old(user_settings), *user_settings),
            same_compiler_flag_lists(*old(user_settings), *user_settings),
        decreases n - i,
    {
        let took = match linker_step_exec(&args, i, &mut pa, user_settings) {
            Ok(took) => took,
            Err(e) => {
                return Err(e);
            },
        };
        if took {
            i += 2;
        } else {
            i += 1;
        }
    }
    if user_settings.module_kind.is_none() {
        user_settings.module_kind = first_linker_kind_of(&pa.linker_args);
    }
    if user_settings.module_kind().requires_pic() {
        user_settings.pic = true;
    }
    Ok(pa)
}

} // verus!
