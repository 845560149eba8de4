//! Properties of the classifiers that relate several steps or several runs.
use vstd::prelude::*;

use crate::classify::{
    classify_compiler, classify_linker, compiler_scan, compiler_step, compiler_value_flag,
    discarded_flag, empty_args, flag_effect, forwarded_flag, initial_scan, is_flag, linker_scan, linker_step, linker_value_flag,
    ArgsModel, Scan,
};
use crate::config::Toggles;
use crate::error::Fault;

verus! {

/// Whether a state has gathered nothing yet.
pub open spec fn fresh(s: Scan) -> bool {
    s.args == empty_args()
}

/// Arguments that hold only the compiler flags `c`.
pub open spec fn only_compiler_args(c: Seq<Seq<char>>) -> ArgsModel {
    ArgsModel { compiler_args: c, ..empty_args() }
}

/// Arguments that hold only the linker flags `l`.
pub open spec fn only_linker_args(l: Seq<Seq<char>>) -> ArgsModel {
    ArgsModel { linker_args: l, ..empty_args() }
}

/// A text that differs from `p` at position `k` does not begin with `p`.
proof fn lemma_not_prefix(p: Seq<char>, a: Seq<char>, k: int)
    requires
        0 <= k < p.len(),
        k < a.len(),
        p[k] != a[k],
    ensures
        !p.is_prefix_of(a),
{
    if p.is_prefix_of(a) {
        assert(a.subrange(0, p.len() as int)[k] == a[k]);
    }
}

/// A flag that takes a value, standing last in the compiler-mode stream
/// with nothing after it, makes the classifier fail with a malformed-flag
/// error that names it, whatever was gathered before it.
pub proof fn lemma_trailing_value_flag_fails(t: Seq<Seq<char>>, s: Scan)
    requires
        t.len() > 0,
        compiler_value_flag(t.last()),
    ensures
        compiler_scan(t, t.len() - 1, s) == Err::<Scan, Fault>(Fault::MissingValue(t.last())),
{
    reveal_strlit("-Wl,");
    reveal_strlit("-O");
    reveal_strlit("-g");
    reveal_strlit("-fwasm-exceptions");
    reveal_strlit("-fno-wasm-exceptions");
    reveal_strlit("-fPIC");
    reveal_strlit("-fno-PIC");
    reveal_strlit("--wasm-opt");
    reveal_strlit("--no-wasm-opt");
    reveal_strlit("-MT");
    reveal_strlit("-MF");
    reveal_strlit("-MJ");
    reveal_strlit("-MQ");
    reveal_strlit("-D");
    reveal_strlit("-U");
    reveal_strlit("-o");
    reveal_strlit("-x");
    reveal_strlit("-Xpreprocessor");
    reveal_strlit("-include");
    reveal_strlit("-imacros");
    reveal_strlit("-idirafter");
    reveal_strlit("-iprefix");
    reveal_strlit("-iwithprefix");
    reveal_strlit("-iwithprefixbefore");
    reveal_strlit("-isysroot");
    reveal_strlit("-imultilib");
    reveal_strlit("-A");
    reveal_strlit("-isystem");
    reveal_strlit("-iquote");
    reveal_strlit("-install_name");
    reveal_strlit("-compatibility_version");
    reveal_strlit("-mllvm");
    reveal_strlit("-mthread-model");
    reveal_strlit("-current_version");
    reveal_strlit("-I");
    reveal_strlit("-l");
    reveal_strlit("-L");
    reveal_strlit("-include-pch");
    reveal_strlit("-u");
    reveal_strlit("-undefined");
    reveal_strlit("-target");
    reveal_strlit("-Xlinker");
    reveal_strlit("-Xclang");
    reveal_strlit("-z");
    let i = t.len() - 1;
    let a = t[i];
    assert(a == t.last());
    assert(a.len() >= 2 && a[1] != 'W' && a[1] != 'O' && a[1] != 'g');
    lemma_not_prefix("-Wl,"@, a, 1);
    lemma_not_prefix("-O"@, a, 1);
    lemma_not_prefix("-g"@, a, 1);
    assert(is_flag(a));
    assert(flag_effect(a, s.build, s.toggles) is Ok);
    assert(flag_effect(a, s.build, s.toggles)->Ok_0.0);
    assert(compiler_step(t, i, s) == Err::<(bool, Scan), Fault>(Fault::MissingValue(a)));
}

/// The compiler-mode classification of a value-taking flag alone fails with
/// a malformed-flag error that names it.
pub proof fn lemma_lone_value_flag_fails(f: Seq<char>, toggles: Toggles)
    requires
        compiler_value_flag(f),
    ensures
        classify_compiler(seq![f], toggles) == Err::<Scan, Fault>(Fault::MissingValue(f)),
{
    lemma_trailing_value_flag_fails(seq![f], initial_scan(toggles));
}

/// A flag that takes a value, standing last in the link-only stream with
/// nothing after it, makes the classifier fail with a malformed-flag error
/// that names it.
pub proof fn lemma_trailing_linker_value_flag_fails(t: Seq<Seq<char>>, s: Scan)
    requires
        t.len() > 0,
        linker_value_flag(t.last()),
    ensures
        linker_scan(t, t.len() - 1, s) == Err::<Scan, Fault>(Fault::MissingValue(t.last())),
{
    reveal_strlit("-o");
    reveal_strlit("-mllvm");
    reveal_strlit("-L");
    reveal_strlit("-l");
    reveal_strlit("-m");
    reveal_strlit("-O");
    reveal_strlit("-y");
    reveal_strlit("-z");
    let i = t.len() - 1;
    assert(t[i] == t.last());
    assert(is_flag(t[i]));
    assert(linker_step(t, i, s) == Err::<(bool, Scan), Fault>(Fault::MissingValue(t[i])));
}

/// The link-only classification of a value-taking flag alone fails with a
/// malformed-flag error that names it.
pub proof fn lemma_lone_linker_value_flag_fails(f: Seq<char>, toggles: Toggles)
    requires
        linker_value_flag(f),
    ensures
        classify_linker(seq![f], toggles) == Err::<Scan, Fault>(Fault::MissingValue(f)),
{
    lemma_trailing_linker_value_flag_fails(seq![f], initial_scan(toggles));
}

/// Whether a flag is kept and how it is classified does not depend on the
/// settings gathered before it.
proof fn lemma_flag_effect_keep(a: Seq<char>, s: Scan, q: Scan)
    requires
        flag_effect(a, s.build, s.toggles) is Ok,
    ensures
        flag_effect(a, q.build, q.toggles) is Ok,
        flag_effect(a, q.build, q.toggles)->Ok_0.0 == flag_effect(a, s.build, s.toggles)->Ok_0.0,
{
}

/// A step that succeeds on a stream succeeds alike when more tokens follow.
proof fn lemma_compiler_step_extend(t: Seq<Seq<char>>, u: Seq<Seq<char>>, i: int, s: Scan)
    requires
        0 <= i < t.len(),
        compiler_step(t, i, s) is Ok,
    ensures
        compiler_step(t + u, i, s) == compiler_step(t, i, s),
{
    assert((t + u)[i] == t[i]);
    if i + 1 < t.len() {
        assert((t + u)[i + 1] == t[i + 1]);
    }
}

/// Scanning a stream with more tokens after it passes through the state
/// the shorter scan ends in.
proof fn lemma_compiler_scan_extend(t: Seq<Seq<char>>, u: Seq<Seq<char>>, i: int, s: Scan)
    requires
        0 <= i <= t.len(),
        compiler_scan(t, i, s) is Ok,
    ensures
        compiler_scan(t + u, i, s) == compiler_scan(t + u, t.len() as int, compiler_scan(
            t,
            i,
            s,
        )->Ok_0),
    decreases t.len() - i,
{
    if i < t.len() {
        lemma_compiler_step_extend(t, u, i, s);
        let (took, s2) = compiler_step(t, i, s)->Ok_0;
        let j = if took {
            i + 2
        } else {
            i + 1
        };
        lemma_compiler_scan_extend(t, u, j, s2);
    }
}

/// Re-scanning compiler flags `c` from a fresh state gathers `c` as
/// compiler flags and nothing else.
pub open spec fn reclassifies_as_compiler_args(c: Seq<Seq<char>>) -> bool {
    forall|q: Scan|
        fresh(q) ==> {
            &&& #[trigger] compiler_scan(c, 0, q) is Ok
            &&& compiler_scan(c, 0, q)->Ok_0.args == only_compiler_args(c)
        }
}

proof fn lemma_compiler_args_reclassify_from(t: Seq<Seq<char>>, i: int, s: Scan)
    requires
        0 <= i <= t.len(),
        compiler_scan(t, i, s) is Ok,
        reclassifies_as_compiler_args(s.args.compiler_args),
    ensures
        reclassifies_as_compiler_args(compiler_scan(t, i, s)->Ok_0.args.compiler_args),
    decreases t.len() - i,
{
    if i < t.len() {
        let a = t[i];
        let (took, s2) = compiler_step(t, i, s)->Ok_0;
        let j = if took {
            i + 2
        } else {
            i + 1
        };
        let c = s.args.compiler_args;
        if s2.args.compiler_args != c {
            // Only a kept flag that stays with the compiler adds to the
            // compiler flags: the flag with its value when it takes one.
            let takes = compiler_value_flag(a);
            let w = if takes {
                seq![a, t[i + 1]]
            } else {
                seq![a]
            };
            assert(!"-Wl,"@.is_prefix_of(a));
            assert(a != "-Xlinker"@ && a != "-z"@ && a != "-o"@);
            assert(is_flag(a));
            assert(flag_effect(a, s.build, s.toggles) is Ok);
            assert(flag_effect(a, s.build, s.toggles)->Ok_0.0);
            assert(!discarded_flag(a) && !forwarded_flag(a));
            assert(s2.args.compiler_args == c + w);
            let cw = c + w;
            assert forall|q: Scan| fresh(q) implies {
                &&& #[trigger] compiler_scan(cw, 0, q) is Ok
                &&& compiler_scan(cw, 0, q)->Ok_0.args == only_compiler_args(cw)
            } by {
                assert(compiler_scan(c, 0, q) is Ok);
                let q1 = compiler_scan(c, 0, q)->Ok_0;
                lemma_compiler_scan_extend(c, w, 0, q);
                lemma_flag_effect_keep(a, s, q1);
                let k = c.len() as int;
                assert(cw[k] == a);
                if takes {
                    assert(cw[k + 1] == t[i + 1]);
                    assert(seq![cw[k], cw[k + 1]] == w);
                } else {
                    assert(seq![cw[k]] == w);
                }
                let (took2, q2) = compiler_step(cw, k, q1)->Ok_0;
                assert(compiler_step(cw, k, q1) is Ok);
                assert(took2 == takes);
                assert(q2.args == only_compiler_args(cw));
                let k2 = if took2 {
                    k + 2
                } else {
                    k + 1
                };
                assert(k2 == cw.len());
                assert(compiler_scan(cw, k2, q2) == Ok::<Scan, Fault>(q2));
            }
        }
        lemma_compiler_args_reclassify_from(t, j, s2);
    }
}

/// Classifying the compiler flags that a compiler-mode classification
/// emitted, as a fresh argument list, puts every one of them among the
/// compiler flags again, in the same order, and nothing elsewhere.
pub proof fn lemma_compiler_args_reclassify(t: Seq<Seq<char>>, toggles: Toggles, again: Toggles)
    requires
        classify_compiler(t, toggles) is Ok,
    ensures
        classify_compiler(classify_compiler(t, toggles)->Ok_0.args.compiler_args, again) is Ok,
        classify_compiler(classify_compiler(t, toggles)->Ok_0.args.compiler_args, again)->Ok_0.args
            == only_compiler_args(classify_compiler(t, toggles)->Ok_0.args.compiler_args),
{
    let s0 = initial_scan(toggles);
    assert(s0.args.compiler_args =~= Seq::<Seq<char>>::empty());
    assert forall|q: Scan| fresh(q) implies {
        &&& #[trigger] compiler_scan(Seq::<Seq<char>>::empty(), 0, q) is Ok
        &&& compiler_scan(Seq::<Seq<char>>::empty(), 0, q)->Ok_0.args == only_compiler_args(
            Seq::<Seq<char>>::empty(),
        )
    } by {}
    lemma_compiler_args_reclassify_from(t, 0, s0);
    let c = compiler_scan(t, 0, s0)->Ok_0.args.compiler_args;
    assert(fresh(initial_scan(again)));
    assert(compiler_scan(c, 0, initial_scan(again)) is Ok);
}

// ---------------------------------------------------------------------------
proof fn lemma_linker_step_extend(t: Seq<Seq<char>>, u: Seq<Seq<char>>, i: int, s: Scan)
    requires
        0 <= i < t.len(),
        linker_step(t, i, s) is Ok,
    ensures
        linker_step(t + u, i, s) == linker_step(t, i, s),
{
    assert((t + u)[i] == t[i]);
    if i + 1 < t.len() {
        assert((t + u)[i + 1] == t[i + 1]);
    }
}

proof fn lemma_linker_scan_extend(t: Seq<Seq<char>>, u: Seq<Seq<char>>, i: int, s: Scan)
    requires
        0 <= i <= t.len(),
        linker_scan(t, i, s) is Ok,
    ensures
        linker_scan(t + u, i, s) == linker_scan(t + u, t.len() as int, linker_scan(t, i, s)->Ok_0),
    decreases t.len() - i,
{
    if i < t.len() {
        lemma_linker_step_extend(t, u, i, s);
        let (took, s2) = linker_step(t, i, s)->Ok_0;
        let j = if took {
            i + 2
        } else {
            i + 1
        };
        lemma_linker_scan_extend(t, u, j, s2);
    }
}

/// Re-scanning linker flags `l` from a fresh state gathers `l` as linker
/// flags and nothing else.
pub open spec fn reclassifies_as_linker_args(l: Seq<Seq<char>>) -> bool {
    forall|q: Scan|
        fresh(q) ==> {
            &&& #[trigger] linker_scan(l, 0, q) is Ok
            &&& linker_scan(l, 0, q)->Ok_0.args == only_linker_args(l)
        }
}

proof fn lemma_linker_args_reclassify_from(t: Seq<Seq<char>>, i: int, s: Scan)
    requires
        0 <= i <= t.len(),
        linker_scan(t, i, s) is Ok,
        reclassifies_as_linker_args(s.args.linker_args),
    ensures
        reclassifies_as_linker_args(linker_scan(t, i, s)->Ok_0.args.linker_args),
    decreases t.len() - i,
{
    if i < t.len() {
        let a = t[i];
        let (took, s2) = linker_step(t, i, s)->Ok_0;
        let j = if took {
            i + 2
        } else {
            i + 1
        };
        let l = s.args.linker_args;
        if s2.args.linker_args != l {
            let takes = linker_value_flag(a);
            let w = if takes {
                seq![a, t[i + 1]]
            } else {
                seq![a]
            };
            assert(a != "-o"@);
            assert(is_flag(a));
            assert(s2.args.linker_args == l + w);
            let lw = l + w;
            assert forall|q: Scan| fresh(q) implies {
                &&& #[trigger] linker_scan(lw, 0, q) is Ok
                &&& linker_scan(lw, 0, q)->Ok_0.args == only_linker_args(lw)
            } by {
                assert(linker_scan(l, 0, q) is Ok);
                let q1 = linker_scan(l, 0, q)->Ok_0;
                lemma_linker_scan_extend(l, w, 0, q);
                let k = l.len() as int;
                assert(lw[k] == a);
                if takes {
                    assert(lw[k + 1] == t[i + 1]);
                    assert(seq![lw[k], lw[k + 1]] == w);
                } else {
                    assert(seq![lw[k]] == w);
                }
                let (took2, q2) = linker_step(lw, k, q1)->Ok_0;
                assert(linker_step(lw, k, q1) is Ok);
                assert(q2.args == only_linker_args(lw));
                let k2 = if took2 {
                    k + 2
                } else {
                    k + 1
                };
                assert(k2 == lw.len());
                assert(linker_scan(lw, k2, q2) == Ok::<Scan, Fault>(q2));
            }
        }
        lemma_linker_args_reclassify_from(t, j, s2);
    }
}

/// Classifying, link-only, the linker flags that a link-only classification
/// emitted, as a fresh argument list, puts every one of them among the
/// linker flags again, in the same order, and nothing elsewhere.
pub proof fn lemma_linker_args_reclassify(t: Seq<Seq<char>>, toggles: Toggles, again: Toggles)
    requires
        classify_linker(t, toggles) is Ok,
    ensures
        classify_linker(classify_linker(t, toggles)->Ok_0.args.linker_args, again) is Ok,
        classify_linker(classify_linker(t, toggles)->Ok_0.args.linker_args, again)->Ok_0.args
            == only_linker_args(classify_linker(t, toggles)->Ok_0.args.linker_args),
{
    let s0 = initial_scan(toggles);
    assert forall|q: Scan| fresh(q) implies {
        &&& #[trigger] linker_scan(Seq::<Seq<char>>::empty(), 0, q) is Ok
        &&& linker_scan(Seq::<Seq<char>>::empty(), 0, q)->Ok_0.args == only_linker_args(
            Seq::<Seq<char>>::empty(),
        )
    } by {}
    assert(s0.args.linker_args =~= Seq::<Seq<char>>::empty());
    lemma_linker_args_reclassify_from(t, 0, s0);
    let l = linker_scan(t, 0, s0)->Ok_0.args.linker_args;
    assert(fresh(initial_scan(again)));
    assert(linker_scan(l, 0, initial_scan(again)) is Ok);
}

// ---------------------------------------------------------------------------
proof fn lemma_wasm_opt_stays_off(t: Seq<Seq<char>>, i: int, s: Scan)
    requires
        0 <= i,
        !s.build.use_wasm_opt,
        compiler_scan(t, i, s) is Ok,
        forall|j: int| i <= j < t.len() ==> t[j] != "--wasm-opt"@,
    ensures
        !compiler_scan(t, i, s)->Ok_0.build.use_wasm_opt,
    decreases t.len() - i,
{
    if i < t.len() {
        let (took, s2) = compiler_step(t, i, s)->Ok_0;
        assert(!s2.build.use_wasm_opt);
        let j = if took {
            i + 2
        } else {
            i + 1
        };
        lemma_wasm_opt_stays_off(t, j, s2);
    }
}

/// Once the classifier has read `--no-wasm-opt` as a flag, the build
/// settings ask for no optimizer run, unless a later `--wasm-opt` turns it
/// back on; nothing the user settings hold changes that.
pub proof fn lemma_no_wasm_opt_holds(t: Seq<Seq<char>>, i: int, s: Scan)
    requires
        0 <= i < t.len(),
        t[i] == "--no-wasm-opt"@,
        forall|j: int| i < j < t.len() ==> t[j] != "--wasm-opt"@,
        compiler_scan(t, i, s) is Ok,
    ensures
        !compiler_scan(t, i, s)->Ok_0.build.use_wasm_opt,
{
    reveal_strlit("--no-wasm-opt");
    reveal_strlit("--wasm-opt");
    reveal_strlit("-Wl,");
    reveal_strlit("-Xlinker");
    reveal_strlit("-z");
    reveal_strlit("-o");
    reveal_strlit("-O");
    reveal_strlit("-g");
    reveal_strlit("-fwasm-exceptions");
    reveal_strlit("-fno-wasm-exceptions");
    reveal_strlit("-fPIC");
    reveal_strlit("-fno-PIC");
    let a = t[i];
    lemma_not_prefix("-Wl,"@, a, 1);
    lemma_not_prefix("-O"@, a, 1);
    lemma_not_prefix("-g"@, a, 1);
    assert(is_flag(a));
    let (took, s2) = compiler_step(t, i, s)->Ok_0;
    assert(!took && !s2.build.use_wasm_opt);
    lemma_wasm_opt_stays_off(t, i + 1, s2);
}

/// The optimizer switches `--wasm-opt` and `--no-wasm-opt`, read as flags,
/// are consumed by the classifier: nothing is added to any list of
/// arguments or inputs.
pub proof fn lemma_wasm_opt_switches_not_emitted(t: Seq<Seq<char>>, i: int, s: Scan)
    requires
        0 <= i < t.len(),
        t[i] == "--wasm-opt"@ || t[i] == "--no-wasm-opt"@,
    ensures
        compiler_step(t, i, s) is Ok,
        !compiler_step(t, i, s)->Ok_0.0,
        compiler_step(t, i, s)->Ok_0.1.args == s.args,
{
    reveal_strlit("--no-wasm-opt");
    reveal_strlit("--wasm-opt");
    reveal_strlit("-Wl,");
    reveal_strlit("-Xlinker");
    reveal_strlit("-z");
    reveal_strlit("-o");
    reveal_strlit("-O");
    reveal_strlit("-g");
    reveal_strlit("-fwasm-exceptions");
    reveal_strlit("-fno-wasm-exceptions");
    reveal_strlit("-fPIC");
    reveal_strlit("-fno-PIC");
    let a = t[i];
    lemma_not_prefix("-Wl,"@, a, 1);
    lemma_not_prefix("-O"@, a, 1);
    lemma_not_prefix("-g"@, a, 1);
    assert(is_flag(a));
}

} // verus!
