//! The content pipeline: every module's lines, in descriptor order, then
//! the optional post-processing hook.

use vstd::prelude::*;
use vstd::seq_lib::lemma_flatten_concat;
use crate::config::Module;
use crate::metrics::MetricsSnapshot;
use crate::modules::{Outside, ScriptOutcome, collect, fits, module_lines};
use crate::script::{ScriptValue, decode, value_lines};
use crate::styled::{LineView, StyledLine, lines_view, plain_line};

verus! {

/// How the post-processing hook ended.
#[derive(Debug, Clone, PartialEq, Eq)]
pub enum HookOutcome {
    /// No hook is configured or loaded.
    Absent,
    /// The hook failed; the runtime's message.
    Failed(String),
    /// The hook returned this value.
    Returned(ScriptValue),
}

/// Whether each module has an outside result of the kind it needs.
pub open spec fn all_fit(ms: Seq<Module>, os: Seq<Outside>) -> bool {
    &&& ms.len() == os.len()
    &&& forall|i: int| 0 <= i < ms.len() ==> fits(#[trigger] ms[i], os[i])
}

/// The lines of each module, one sequence per module.
pub open spec fn per_module(ms: Seq<Module>, snap: MetricsSnapshot, os: Seq<Outside>) -> Seq<Seq<LineView>> {
    Seq::new(ms.len(), |i: int| module_lines(ms[i], snap, os[i]))
}

/// The concatenation, in descriptor order, of every module's lines.
pub open spec fn pipeline_lines(ms: Seq<Module>, snap: MetricsSnapshot, os: Seq<Outside>) -> Seq<LineView> {
    per_module(ms, snap, os).flatten()
}

/// The lines after the hook: what it returned, or the lines unchanged when
/// there is no hook or it failed.
pub open spec fn hooked_lines(lines: Seq<LineView>, hook: HookOutcome) -> Seq<LineView> {
    match hook {
        HookOutcome::Returned(v) => value_lines(v),
        _ => lines,
    }
}

pub open spec fn script_kind(m: Module) -> Seq<char> {
    match m {
        Module::Python { .. } => "python"@,
        _ => "rhai"@,
    }
}

/// Whether `m` runs a script.
pub open spec fn is_script(m: Module) -> bool {
    ||| m matches Module::Rhai { code, file, .. } && (code is Some || file is Some)
    ||| m is Python
}

/// Every module's lines, concatenated in descriptor order. `outside[i]` is
/// the result of the outside work of `modules[i]`.
pub fn collect_lines(
    modules: &Vec<Module>,
    snapshot: &MetricsSnapshot,
    outside: &Vec<Outside>,
) -> (r: Vec<StyledLine>)
    requires
        all_fit(modules@, outside@),
    ensures
        lines_view(r@) == pipeline_lines(modules@, *snapshot, outside@),
{
    let ghost parts = per_module(modules@, *snapshot, outside@);
    let mut out: Vec<StyledLine> = Vec::new();
    let mut k: usize = 0;
    while k < modules.len()
        invariant
            k <= modules@.len(),
            all_fit(modules@, outside@),
            parts == per_module(modules@, *snapshot, outside@),
            lines_view(out@) == parts.take(k as int).flatten(),
        decreases modules@.len() - k,
    {
        assert(fits(modules@[k as int], outside@[k as int]));
        let mut more = collect(&modules[k], snapshot, &outside[k]);
        let ghost before = out@;
        let ghost added = more@;
        out.append(&mut more);
        proof {
            assert(lines_view(out@) =~= lines_view(before) + lines_view(added));
            assert(parts.take(k + 1) =~= parts.take(k as int).push(parts[k as int]));
            parts.take(k as int).lemma_flatten_push(parts[k as int]);
        }
        k = k + 1;
    }
    assert(parts.take(k as int) =~= parts);
    out
}

/// Applies the hook's outcome: its returned value replaces the lines, even
/// when it gives none; otherwise the lines stay as they are.
pub fn post_process(lines: Vec<StyledLine>, hook: &HookOutcome) -> (r: Vec<StyledLine>)
    ensures
        lines_view(r@) == hooked_lines(lines_view(lines@), *hook),
{
    match hook {
        HookOutcome::Returned(v) => decode(v),
        _ => lines,
    }
}

/// The pipeline keeps descriptor order: the lines of two lists of modules
/// run one after the other are the lines of the first list followed by
/// those of the second.
pub proof fn lemma_pipeline_keeps_order(
    ms1: Seq<Module>,
    os1: Seq<Outside>,
    ms2: Seq<Module>,
    os2: Seq<Outside>,
    snap: MetricsSnapshot,
)
    requires
        ms1.len() == os1.len(),
        ms2.len() == os2.len(),
    ensures
        pipeline_lines(ms1 + ms2, snap, os1 + os2) == pipeline_lines(ms1, snap, os1)
            + pipeline_lines(ms2, snap, os2),
{
    assert(per_module(ms1 + ms2, snap, os1 + os2) =~= per_module(ms1, snap, os1) + per_module(
        ms2,
        snap,
        os2,
    ));
    lemma_flatten_concat(per_module(ms1, snap, os1), per_module(ms2, snap, os2));
}

/// A failing script never suppresses the other modules' lines: when the
/// script of module `i` fails, the output is the lines of the modules
/// before it, one diagnostic line carrying the error, then the lines of the
/// modules after it.
pub proof fn lemma_failure_stays_local(
    ms: Seq<Module>,
    snap: MetricsSnapshot,
    os: Seq<Outside>,
    i: int,
    message: String,
)
    requires
        ms.len() == os.len(),
        0 <= i < ms.len(),
        is_script(ms[i]),
        os[i] == Outside::Script(ScriptOutcome::Failed(message)),
    ensures
        pipeline_lines(ms, snap, os) == pipeline_lines(ms.take(i), snap, os.take(i)) + seq![
            plain_line("["@ + script_kind(ms[i]) + " error: "@ + message@ + "]"@),
        ] + pipeline_lines(ms.skip(i + 1), snap, os.skip(i + 1)),
{
    let one = seq![ms[i]];
    let ones = seq![os[i]];
    assert(ms =~= ms.take(i) + one + ms.skip(i + 1));
    assert(os =~= os.take(i) + ones + os.skip(i + 1));
    lemma_pipeline_keeps_order(ms.take(i), os.take(i), one, ones, snap);
    lemma_pipeline_keeps_order(ms.take(i) + one, os.take(i) + ones, ms.skip(i + 1), os.skip(i + 1), snap);
    let single = per_module(one, snap, ones);
    assert(single.len() == 1);
    single.lemma_flatten_singleton();
    assert(pipeline_lines(one, snap, ones) == module_lines(ms[i], snap, os[i]));
    assert(module_lines(ms[i], snap, os[i]) =~= seq![
        plain_line("["@ + script_kind(ms[i]) + " error: "@ + message@ + "]"@),
    ]);
}

} // verus!
