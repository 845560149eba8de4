//! User settings: `-sKEY=VALUE` arguments and `WASIXCC_KEY` environment
//! variables, their value encodings, and the gathering of all of them into
//! [`UserSettings`].
use vstd::prelude::*;

use crate::config::{LlvmLocation, ModuleKind, UserSettings};
use crate::error::{Error, Fault};
use crate::text::{
    concat, has_prefix, join_path, joined, lowercase_text, lowercased, push_char, same_text,
    split_on, split_text, text, text_after, trim_text, trimmed,
};

verus! {

pub open spec fn is_setting_arg(a: Seq<char>) -> bool {
    "-s"@.is_prefix_of(a) && a.contains('=')
}

/// Splits arguments into settings (`-s...=...`) and tool arguments. Every
/// `--` is dropped, and all arguments after the first one are tool
/// arguments.
pub open spec fn split_settings(args: Seq<Seq<char>>) -> (Seq<Seq<char>>, Seq<Seq<char>>)
    decreases args.len(),
{
    if args.len() == 0 {
        (Seq::empty(), Seq::empty())
    } else {
        let prev = split_settings(args.drop_last());
        let a = args.last();
        if a == "--"@ {
            prev
        } else if args.drop_last().contains("--"@) {
            (prev.0, prev.1.push(a))
        } else if is_setting_arg(a) {
            (prev.0.push(a), prev.1)
        } else {
            (prev.0, prev.1.push(a))
        }
    }
}

fn contains_char(s: &str, c: char) -> (r: bool)
    ensures
        r == s@.contains(c),
{
    let n = s.unicode_len();
    let mut i: usize = 0;
    while i < n
        invariant
            n == s@.len(),
            i <= n,
            forall|j: int| 0 <= j < i ==> s@[j] != c,
        decreases n - i,
    {
        if s.get_char(i) == c {
            return true;
        }
        i += 1;
    }
    false
}

/// Separates the `-sKEY=VALUE` settings from the tool arguments.
pub fn separate_user_settings_args(args: Vec<String>) -> (r: (Vec<String>, Vec<String>))
    ensures
        (r.0.deep_view(), r.1.deep_view()) == split_settings(args.deep_view()),
{
    let ghost av = args.deep_view();
    let mut seen_dash_dash = false;
    let mut settings_args: Vec<String> = Vec::new();
    let mut tool_args: Vec<String> = Vec::new();
    let mut i: usize = 0;
    assert(av.subrange(0, 0) =~= Seq::<Seq<char>>::empty());
    assert(settings_args.deep_view() =~= Seq::<Seq<char>>::empty());
    assert(tool_args.deep_view() =~= Seq::<Seq<char>>::empty());
    while i < args.len()
        invariant
            av == args.deep_view(),
            i <= av.len(),
            (settings_args.deep_view(), tool_args.deep_view()) == split_settings(
                av.subrange(0, i as int),
            ),
            seen_dash_dash == av.subrange(0, i as int).contains("--"@),
        decreases av.len() - i,
    {
        let a = args[i].as_str();
        let ghost pre = av.subrange(0, i as int);
        let ghost cur = av.subrange(0, i + 1);
        assert(cur.drop_last() =~= pre);
        assert(cur.last() == a@);
        assert(cur.contains("--"@) == (pre.contains("--"@) || a@ == "--"@)) by {
            if a@ == "--"@ {
                assert(cur[i as int] == a@);
            }
            if pre.contains("--"@) {
                let j = choose|j: int| 0 <= j < pre.len() && pre[j] == "--"@;
                assert(cur[j] == "--"@);
            }
            if cur.contains("--"@) {
                let j = choose|j: int| 0 <= j < cur.len() && cur[j] == "--"@;
                if j < i {
                    assert(pre[j] == "--"@);
                }
            }
        }
        if same_text(a, "--") {
            seen_dash_dash = true;
        } else if seen_dash_dash {
            crate::text::push_text(&mut tool_args, a);
        } else if has_prefix(a, "-s") && contains_char(a, '=') {
            crate::text::push_text(&mut settings_args, a);
        } else {
            crate::text::push_text(&mut tool_args, a);
        }
        i += 1;
    }
    assert(av.subrange(0, av.len() as int) =~= av);
    (settings_args, tool_args)
}

/// The pieces of a list setting, before trimming: the text is split at
/// `:`, where `\:` stands for a colon and a backslash before anything else
/// (or at the end) is kept. This is the scan of `s` from `i`, with the
/// finished pieces `done` and the current piece `cur`.
pub open spec fn list_pieces_from(s: Seq<char>, i: int, done: Seq<Seq<char>>, cur: Seq<char>) -> Seq<
    Seq<char>,
>
    decreases (s.len() - i) as nat,
{
    if i < 0 || i >= s.len() {
        done.push(cur)
    } else if s[i] == '\\' {
        if i + 1 < s.len() {
            if s[i + 1] == ':' {
                list_pieces_from(s, i + 2, done, cur.push(':'))
            } else {
                list_pieces_from(s, i + 2, done, cur.push('\\').push(s[i + 1]))
            }
        } else {
            list_pieces_from(s, i + 1, done, cur.push('\\'))
        }
    } else if s[i] == ':' {
        list_pieces_from(s, i + 1, done.push(cur), Seq::empty())
    } else {
        list_pieces_from(s, i + 1, done, cur.push(s[i]))
    }
}

/// The pieces of a list setting, before trimming.
pub open spec fn list_pieces(s: Seq<char>) -> Seq<Seq<char>> {
    list_pieces_from(s, 0, Seq::empty(), Seq::empty())
}

/// Adds a piece, trimmed, unless nothing is left of it.
pub open spec fn finish_item(done: Seq<Seq<char>>, cur: Seq<char>) -> Seq<Seq<char>> {
    if trimmed(cur).len() > 0 {
        done.push(trimmed(cur))
    } else {
        done
    }
}

/// The pieces, each trimmed, without those that trimming empties.
pub open spec fn kept_items(pieces: Seq<Seq<char>>) -> Seq<Seq<char>>
    decreases pieces.len(),
{
    if pieces.len() == 0 {
        Seq::empty()
    } else {
        finish_item(kept_items(pieces.drop_last()), pieces.last())
    }
}

/// The items of a colon-separated list setting.
pub open spec fn list_items(s: Seq<char>) -> Seq<Seq<char>> {
    kept_items(list_pieces(s))
}

fn finish_piece(done: &mut Vec<String>, cur: &String)
    ensures
        final(done).deep_view() == finish_item(old(done).deep_view(), cur@),
{
    let t = trim_text(cur.as_str());
    if t.unicode_len() > 0 {
        let ghost before = done.deep_view();
        done.push(t);
        assert(done.deep_view() =~= before.push(t@));
    }
}

/// Splits a list setting into its pieces, resolving `\:`, before trimming.
pub fn split_list_setting(value: &str) -> (r: Vec<String>)
    ensures
        r.deep_view() == list_pieces(value@),
{
    let n = value.unicode_len();
    let mut result: Vec<String> = Vec::new();
    let mut current = String::new();
    let mut i: usize = 0;
    assert(result.deep_view() =~= Seq::<Seq<char>>::empty());
    while i < n
        invariant
            n == value@.len(),
            i <= n,
            list_pieces(value@) == list_pieces_from(value@, i as int, result.deep_view(), current@),
        decreases n - i,
    {
        let c = value.get_char(i);
        if c == '\\' {
            if i + 1 < n {
                let next = value.get_char(i + 1);
                if next == ':' {
                    push_char(&mut current, ':');
                } else {
                    push_char(&mut current, '\\');
                    push_char(&mut current, next);
                }
                i += 2;
            } else {
                push_char(&mut current, '\\');
                i += 1;
            }
        } else if c == ':' {
            let ghost before = result.deep_view();
            let ghost piece = current@;
            result.push(current);
            assert(result.deep_view() =~= before.push(piece));
            current = String::new();
            i += 1;
        } else {
            push_char(&mut current, c);
            i += 1;
        }
    }
    let ghost before = result.deep_view();
    let ghost piece = current@;
    result.push(current);
    assert(result.deep_view() =~= before.push(piece));
    result
}

/// Reads a colon-separated list setting: its pieces, trimmed, without the
/// empty ones.
pub fn read_string_list_user_setting(value: &str) -> (r: Vec<String>)
    ensures
        r.deep_view() == list_items(value@),
{
    let pieces = split_list_setting(value);
    let ghost pv = pieces.deep_view();
    let mut result: Vec<String> = Vec::new();
    let mut k: usize = 0;
    assert(result.deep_view() =~= kept_items(pv.subrange(0, 0)));
    while k < pieces.len()
        invariant
            pv == pieces.deep_view(),
            pv == list_pieces(value@),
            k <= pv.len(),
            result.deep_view() == kept_items(pv.subrange(0, k as int)),
        decreases pv.len() - k,
    {
        assert(pv.subrange(0, k + 1).drop_last() =~= pv.subrange(0, k as int));
        finish_piece(&mut result, &pieces[k]);
        k += 1;
    }
    assert(pv.subrange(0, pv.len() as int) =~= pv);
    result
}

/// The meaning of a lower-case yes/no word.
pub open spec fn bool_word(s: Seq<char>) -> Option<bool> {
    if s == "1"@ || s == "true"@ || s == "yes"@ {
        Some(true)
    } else if s == "0"@ || s == "false"@ || s == "no"@ {
        Some(false)
    } else {
        None
    }
}

/// Reads an already lower-cased yes/no word.
pub fn bool_from_lowered(s: &str) -> (r: Option<bool>)
    ensures
        r == bool_word(s@),
{
    if same_text(s, "1") || same_text(s, "true") || same_text(s, "yes") {
        Some(true)
    } else if same_text(s, "0") || same_text(s, "false") || same_text(s, "no") {
        Some(false)
    } else {
        None
    }
}

/// Reads a yes/no setting, in any case.
pub fn read_bool_user_setting(value: &str) -> (r: Option<bool>)
    ensures
        r == bool_word(lowercased(value@)),
{
    let lower = lowercase_text(value);
    bool_from_lowered(lower.as_str())
}

/// The module kind a setting value names.
pub open spec fn kind_word(s: Seq<char>) -> Option<ModuleKind> {
    if s == "static-main"@ {
        Some(ModuleKind::StaticMain)
    } else if s == "dynamic-main"@ {
        Some(ModuleKind::DynamicMain)
    } else if s == "shared-library"@ {
        Some(ModuleKind::SharedLibrary)
    } else if s == "object-file"@ {
        Some(ModuleKind::ObjectFile)
    } else {
        None
    }
}

/// Reads a module kind setting.
pub fn parse_module_kind(s: &str) -> (r: Result<ModuleKind, Error>)
    ensures
        match kind_word(s@) {
            Some(k) => r == Ok::<ModuleKind, Error>(k),
            None => r matches Err(e) && e@ == Fault::UnknownModuleKind(s@),
        },
{
    if same_text(s, "static-main") {
        Ok(ModuleKind::StaticMain)
    } else if same_text(s, "dynamic-main") {
        Ok(ModuleKind::DynamicMain)
    } else if same_text(s, "shared-library") {
        Ok(ModuleKind::SharedLibrary)
    } else if same_text(s, "object-file") {
        Ok(ModuleKind::ObjectFile)
    } else {
        Err(Error::UnknownModuleKind(text(s)))
    }
}

/// The value a `-s<name>=...` argument gives: the text after the `=`, up to
/// any further `=`; the first such argument counts.
pub open spec fn arg_setting(name: Seq<char>, args: Seq<Seq<char>>) -> Option<Seq<char>>
    decreases args.len(),
{
    let prefix = "-s"@ + name + "="@;
    if args.len() == 0 {
        None
    } else if prefix.is_prefix_of(args[0]) {
        Some(split_on(args[0].subrange(prefix.len() as int, args[0].len() as int), '=')[0])
    } else {
        arg_setting(name, args.drop_first())
    }
}

/// The value of the environment variable `key`, if set.
pub open spec fn env_value(key: Seq<char>, env: Seq<(String, String)>) -> Option<Seq<char>>
    decreases env.len(),
{
    if env.len() == 0 {
        None
    } else if env[0].0@ == key {
        Some(env[0].1@)
    } else {
        env_value(key, env.drop_first())
    }
}

/// The value of a setting: from the arguments, else from the environment
/// variable `WASIXCC_<name>`.
pub open spec fn setting(name: Seq<char>, args: Seq<Seq<char>>, env: Seq<(String, String)>) -> Option<
    Seq<char>,
> {
    match arg_setting(name, args) {
        Some(v) => Some(v),
        None => env_value("WASIXCC_"@ + name, env),
    }
}

fn first_piece(s: &str, sep: char) -> (r: String)
    ensures
        r@ == split_on(s@, sep)[0],
{
    let pieces = split_text(s, sep);
    proof {
        crate::text::lemma_split_on_nonempty(s@, sep);
    }
    assert(pieces@.len() == pieces.deep_view().len());
    pieces[0].clone()
}

/// Looks a setting up in the `-s` arguments, then in the environment.
pub fn try_get_user_setting_value(name: &str, args: &Vec<String>, env: &Vec<(String, String)>) -> (r:
    Option<String>)
    ensures
        crate::text::opt_text(r) == setting(name@, args.deep_view(), env@),
{
    let with_s = concat("-s", name);
    let prefix = concat(with_s.as_str(), "=");
    let ghost pv = prefix@;
    let ghost av = args.deep_view();
    let plen = prefix.unicode_len();
    let mut i: usize = 0;
    assert(av.subrange(0, av.len() as int) =~= av);
    while i < args.len()
        invariant
            av == args.deep_view(),
            pv == prefix@,
            pv == "-s"@ + name@ + "="@,
            plen == pv.len(),
            i <= av.len(),
            arg_setting(name@, av) == arg_setting(name@, av.subrange(i as int, av.len() as int)),
        decreases av.len() - i,
    {
        let ghost rest = av.subrange(i as int, av.len() as int);
        assert(rest[0] == av[i as int]);
        assert(rest.drop_first() =~= av.subrange(i + 1, av.len() as int));
        let a = args[i].as_str();
        if has_prefix(a, prefix.as_str()) {
            let value = text_after(a, plen);
            return Some(first_piece(value.as_str(), '='));
        }
        i += 1;
    }
    assert(av.subrange(i as int, av.len() as int) =~= Seq::<Seq<char>>::empty());
    let key = concat("WASIXCC_", name);
    let mut j: usize = 0;
    assert(env@.subrange(0, env@.len() as int) =~= env@);
    while j < env.len()
        invariant
            key@ == "WASIXCC_"@ + name@,
            arg_setting(name@, args.deep_view()) is None,
            j <= env@.len(),
            env_value(key@, env@) == env_value(key@, env@.subrange(j as int, env@.len() as int)),
        decreases env@.len() - j,
    {
        let ghost rest = env@.subrange(j as int, env@.len() as int);
        assert(rest[0] == env@[j as int]);
        assert(rest.drop_first() =~= env@.subrange(j + 1, env@.len() as int));
        if same_text(env[j].0.as_str(), key.as_str()) {
            return Some(env[j].1.clone());
        }
        j += 1;
    }
    assert(env@.subrange(j as int, env@.len() as int) =~= Seq::<(String, String)>::empty());
    None
}

/// The items of a list setting, none when it is not set.
pub open spec fn list_setting(name: Seq<char>, args: Seq<Seq<char>>, env: Seq<(String, String)>) -> Seq<
    Seq<char>,
> {
    match setting(name, args, env) {
        Some(v) => list_items(v),
        None => Seq::empty(),
    }
}

/// A yes/no setting, `default` when it is not set.
pub open spec fn bool_setting(
    name: Seq<char>,
    args: Seq<Seq<char>>,
    env: Seq<(String, String)>,
    default: bool,
) -> Result<bool, Fault> {
    match setting(name, args, env) {
        Some(v) => match bool_word(lowercased(v)) {
            Some(b) => Ok(b),
            None => Err(Fault::InvalidSetting(name, v)),
        },
        None => Ok(default),
    }
}

/// Whether to run the optimizer: as set, else yes when optimizer flags are
/// given, else undecided.
pub open spec fn run_wasm_opt_setting(args: Seq<Seq<char>>, env: Seq<(String, String)>) -> Result<
    Option<bool>,
    Fault,
> {
    match setting("RUN_WASM_OPT"@, args, env) {
        Some(v) => match bool_word(lowercased(v)) {
            Some(b) => Ok(Some(b)),
            None => Err(Fault::InvalidSetting("RUN_WASM_OPT"@, v)),
        },
        None => Ok(
            if list_setting("WASM_OPT_FLAGS"@, args, env).len() == 0 {
                None
            } else {
                Some(true)
            },
        ),
    }
}

/// The explicit module kind, if set.
pub open spec fn kind_setting(args: Seq<Seq<char>>, env: Seq<(String, String)>) -> Result<
    Option<ModuleKind>,
    Fault,
> {
    match setting("MODULE_KIND"@, args, env) {
        Some(v) => match kind_word(v) {
            Some(k) => Ok(Some(k)),
            None => Err(Fault::UnknownModuleKind(v)),
        },
        None => Ok(None),
    }
}

pub open spec fn fault_of<T>(r: Result<T, Fault>) -> Option<Fault> {
    match r {
        Ok(_) => None,
        Err(f) => Some(f),
    }
}

/// The first invalid setting, in the order the settings are read.
pub open spec fn settings_fault(args: Seq<Seq<char>>, env: Seq<(String, String)>) -> Option<Fault> {
    let include_cpp = fault_of(bool_setting("INCLUDE_CPP_SYMBOLS"@, args, env, false));
    let run_opt = fault_of(run_wasm_opt_setting(args, env));
    let suppress = fault_of(bool_setting("WASM_OPT_SUPPRESS_DEFAULT"@, args, env, false));
    let preserve = fault_of(bool_setting("WASM_OPT_PRESERVE_UNOPTIMIZED"@, args, env, false));
    let kind = fault_of(kind_setting(args, env));
    let eh = fault_of(bool_setting("WASM_EXCEPTIONS"@, args, env, false));
    let pic = fault_of(bool_setting("PIC"@, args, env, false));
    let symbolic = fault_of(bool_setting("LINK_SYMBOLIC"@, args, env, true));
    if include_cpp is Some {
        include_cpp
    } else if run_opt is Some {
        run_opt
    } else if suppress is Some {
        suppress
    } else if preserve is Some {
        preserve
    } else if kind is Some {
        kind
    } else if eh is Some {
        eh
    } else if pic is Some {
        pic
    } else {
        symbolic
    }
}

/// A directory under the home directory, if there is one.
pub open spec fn home_dir_with(home: Option<String>, sub: Seq<char>) -> Option<Seq<char>> {
    match home {
        Some(h) => Some(joined(h@, sub)),
        None => None,
    }
}

/// Whether `us` holds exactly what the settings give.
pub open spec fn gathered(
    us: UserSettings,
    args: Seq<Seq<char>>,
    env: Seq<(String, String)>,
    home: Option<String>,
) -> bool {
    &&& crate::text::opt_text(us.sysroot_location) == setting("SYSROOT"@, args, env)
    &&& crate::text::opt_text(us.sysroot_prefix) == match setting("SYSROOT_PREFIX"@, args, env) {
        Some(p) => Some(p),
        None => home_dir_with(home, ".wasixcc/sysroot"@),
    }
    &&& match setting("LLVM_LOCATION"@, args, env) {
        Some(p) => us.llvm_location matches LlvmLocation::UserProvided(q) && q@ == p,
        None => us.llvm_location matches LlvmLocation::DefaultPath(q) && q@ == match home_dir_with(
            home,
            ".wasixcc/llvm"@,
        ) {
            Some(d) => d,
            None => "/lib/wasixcc/llvm"@,
        },
    }
    &&& us.extra_compiler_flags.deep_view() == list_setting("COMPILER_FLAGS"@, args, env)
    &&& us.extra_compiler_post_flags.deep_view() == list_setting("COMPILER_POST_FLAGS"@, args, env)
    &&& us.extra_compiler_flags_c.deep_view() == list_setting("COMPILER_FLAGS_C"@, args, env)
    &&& us.extra_compiler_post_flags_c.deep_view() == list_setting(
        "COMPILER_POST_FLAGS_C"@,
        args,
        env,
    )
    &&& us.extra_compiler_flags_cxx.deep_view() == list_setting("COMPILER_FLAGS_CXX"@, args, env)
    &&& us.extra_compiler_post_flags_cxx.deep_view() == list_setting(
        "COMPILER_POST_FLAGS_CXX"@,
        args,
        env,
    )
    &&& us.extra_linker_flags.deep_view() == list_setting("LINKER_FLAGS"@, args, env)
    &&& us.wasm_opt_flags.deep_view() == list_setting("WASM_OPT_FLAGS"@, args, env)
    &&& Ok::<bool, Fault>(us.include_cpp_symbols) == bool_setting(
        "INCLUDE_CPP_SYMBOLS"@,
        args,
        env,
        false,
    )
    &&& Ok::<Option<bool>, Fault>(us.run_wasm_opt) == run_wasm_opt_setting(args, env)
    &&& Ok::<bool, Fault>(us.wasm_opt_suppress_default) == bool_setting(
        "WASM_OPT_SUPPRESS_DEFAULT"@,
        args,
        env,
        false,
    )
    &&& Ok::<bool, Fault>(us.wasm_opt_preserve_unoptimized) == bool_setting(
        "WASM_OPT_PRESERVE_UNOPTIMIZED"@,
        args,
        env,
        false,
    )
    &&& Ok::<Option<ModuleKind>, Fault>(us.module_kind) == kind_setting(args, env)
    &&& Ok::<bool, Fault>(us.wasm_exceptions) == bool_setting("WASM_EXCEPTIONS"@, args, env, false)
    &&& Ok::<bool, Fault>(us.pic) == bool_setting("PIC"@, args, env, false)
    &&& Ok::<bool, Fault>(us.link_symbolic) == bool_setting("LINK_SYMBOLIC"@, args, env, true)
}

fn list_of(name: &str, args: &Vec<String>, env: &Vec<(String, String)>) -> (r: Vec<String>)
    ensures
        r.deep_view() == list_setting(name@, args.deep_view(), env@),
{
    match try_get_user_setting_value(name, args, env) {
        Some(v) => read_string_list_user_setting(v.as_str()),
        None => {
            let r: Vec<String> = Vec::new();
            assert(r.deep_view() =~= Seq::<Seq<char>>::empty());
            r
        },
    }
}

fn bool_of(name: &str, args: &Vec<String>, env: &Vec<(String, String)>, default: bool) -> (r: Result<
    bool,
    Error,
>)
    ensures
        match bool_setting(name@, args.deep_view(), env@, default) {
            Ok(b) => r == Ok::<bool, Error>(b),
            Err(f) => r matches Err(e) && e@ == f,
        },
{
    match try_get_user_setting_value(name, args, env) {
        Some(v) => match read_bool_user_setting(v.as_str()) {
            Some(b) => Ok(b),
            None => Err(Error::InvalidSetting(text(name), v)),
        },
        None => Ok(default),
    }
}

fn under_home(home: &Option<String>, sub: &str) -> (r: Option<String>)
    ensures
        crate::text::opt_text(r) == home_dir_with(*home, sub@),
{
    match home {
        Some(h) => Some(join_path(h.as_str(), sub)),
        None => None,
    }
}

/// Gathers the user settings from the `-s` arguments and the environment
/// (`env` holds its variables), the arguments taking precedence. `home` is
/// the user's home directory, if known: the default locations lie under it.
pub fn gather_user_settings(
    args: &Vec<String>,
    env: &Vec<(String, String)>,
    home: Option<String>,
) -> (r: Result<UserSettings, Error>)
    ensures
        match settings_fault(args.deep_view(), env@) {
            Some(f) => r matches Err(e) && e@ == f,
            None => r is Ok && gathered(r->Ok_0, args.deep_view(), env@, home),
        },
{
    let ghost av = args.deep_view();
    let ghost ev = env@;
    let llvm_location = match try_get_user_setting_value("LLVM_LOCATION", args, env) {
        Some(path) => LlvmLocation::UserProvided(path),
        None => match under_home(&home, ".wasixcc/llvm") {
            Some(d) => LlvmLocation::DefaultPath(d),
            None => LlvmLocation::DefaultPath(text("/lib/wasixcc/llvm")),
        },
    };
    let sysroot_location = try_get_user_setting_value("SYSROOT", args, env);
    let sysroot_prefix = match try_get_user_setting_value("SYSROOT_PREFIX", args, env) {
        Some(p) => Some(p),
        None => under_home(&home, ".wasixcc/sysroot"),
    };
    let extra_compiler_flags = list_of("COMPILER_FLAGS", args, env);
    let extra_compiler_post_flags = list_of("COMPILER_POST_FLAGS", args, env);
    let extra_compiler_flags_c = list_of("COMPILER_FLAGS_C", args, env);
    let extra_compiler_post_flags_c = list_of("COMPILER_POST_FLAGS_C", args, env);
    let extra_compiler_flags_cxx = list_of("COMPILER_FLAGS_CXX", args, env);
    let extra_compiler_post_flags_cxx = list_of("COMPILER_POST_FLAGS_CXX", args, env);
    let extra_linker_flags = list_of("LINKER_FLAGS", args, env);
    let include_cpp_symbols = match bool_of("INCLUDE_CPP_SYMBOLS", args, env, false) {
        Ok(b) => b,
        Err(e) => {
            return Err(e);
        },
    };
    let wasm_opt_flags = list_of("WASM_OPT_FLAGS", args, env);
    let run_wasm_opt = match try_get_user_setting_value("RUN_WASM_OPT", args, env) {
        Some(v) => match read_bool_user_setting(v.as_str()) {
            Some(b) => Some(b),
            None => {
                return Err(Error::InvalidSetting(text("RUN_WASM_OPT"), v));
            },
        },
        None => if wasm_opt_flags.len() == 0 {
            None
        } else {
            Some(true)
        },
    };
    assert(wasm_opt_flags@.len() == wasm_opt_flags.deep_view().len());
    let wasm_opt_suppress_default = match bool_of("WASM_OPT_SUPPRESS_DEFAULT", args, env, false) {
        Ok(b) => b,
        Err(e) => {
            return Err(e);
        },
    };
    let wasm_opt_preserve_unoptimized = match bool_of(
        "WASM_OPT_PRESERVE_UNOPTIMIZED",
        args,
        env,
        false,
    ) {
        Ok(b) => b,
        Err(e) => {
            return Err(e);
        },
    };
    let module_kind = match try_get_user_setting_value("MODULE_KIND", args, env) {
        Some(kind) => match parse_module_kind(kind.as_str()) {
            Ok(k) => Some(k),
            Err(e) => {
                return Err(e);
            },
        },
        None => None,
    };
    let wasm_exceptions = match bool_of("WASM_EXCEPTIONS", args, env, false) {
        Ok(b) => b,
        Err(e) => {
            return Err(e);
        },
    };
    let pic = match bool_of("PIC", args, env, false) {
        Ok(b) => b,
        Err(e) => {
            return Err(e);
        },
    };
    let link_symbolic = match bool_of("LINK_SYMBOLIC", args, env, true) {
        Ok(b) => b,
        Err(e) => {
            return Err(e);
        },
    };
    Ok(
        UserSettings {
            sysroot_location,
            sysroot_prefix,
            llvm_location,
            extra_compiler_flags,
            extra_compiler_post_flags,
            extra_compiler_flags_c,
            extra_compiler_post_flags_c,
            extra_compiler_flags_cxx,
            extra_compiler_post_flags_cxx,
            extra_linker_flags,
            include_cpp_symbols,
            run_wasm_opt,
            wasm_opt_flags,
            wasm_opt_suppress_default,
            wasm_opt_preserve_unoptimized,
            module_kind,
            wasm_exceptions,
            pic,
            link_symbolic,
        },
    )
}

} // verus!
