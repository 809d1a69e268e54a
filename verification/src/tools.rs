//! Device tool vocabulary: request identities, tool-name sanitising, the dangerous-tool
//! deny list and the tool set an LLM may see.
use vstd::prelude::*;
use crate::unicode::{chars_of, string_of, text_eq};

verus! {

#[derive(Clone, Copy, Debug, PartialEq, Eq, Structural, Hash)]
pub struct McpRequestId(pub u64);

/// A character an LLM-facing tool name may keep.
pub open spec fn is_tool_name_char(c: char) -> bool {
    ('a' <= c && c <= 'z') || ('A' <= c && c <= 'Z') || ('0' <= c && c <= '9') || c == '_' || c
        == '-'
}

/// The LLM-facing form of a tool name: every other character becomes `_`.
pub open spec fn sanitized_tool_name(name: Seq<char>) -> Seq<char> {
    name.map_values(|c: char| if is_tool_name_char(c) { c } else { '_' })
}

pub fn sanitize_tool_name(name: &str) -> (r: String)
    ensures
        r@ == sanitized_tool_name(name@),
{
    let v = chars_of(name);
    let mut out: Vec<char> = Vec::new();
    let mut i: usize = 0;
    while i < v.len()
        invariant
            i <= v@.len(),
            v@ == name@,
            out@ == sanitized_tool_name(v@.take(i as int)),
        decreases v.len() - i,
    {
        let c = v[i];
        let keep = ('a' <= c && c <= 'z') || ('A' <= c && c <= 'Z') || ('0' <= c && c <= '9') || c
            == '_' || c == '-';
        out.push(if keep { c } else { '_' });
        i = i + 1;
        assert(out@ =~= sanitized_tool_name(v@.take(i as int)));
    }
    assert(v@.take(i as int) =~= v@);
    string_of(&out)
}

pub open spec fn has_prefix(s: Seq<char>, p: Seq<char>) -> bool {
    p.len() <= s.len() && s.take(p.len() as int) == p
}

/// Whether `s` starts with `p`.
pub fn starts_with(s: &str, p: &str) -> (b: bool)
    ensures
        b == has_prefix(s@, p@),
{
    let sv = chars_of(s);
    let pv = chars_of(p);
    if pv.len() > sv.len() {
        return false;
    }
    let mut i: usize = 0;
    while i < pv.len()
        invariant
            i <= pv@.len() <= sv@.len(),
            sv@ == s@,
            pv@ == p@,
            forall|j: int| 0 <= j < i ==> sv@[j] == pv@[j],
        decreases pv.len() - i,
    {
        if sv[i] != pv[i] {
            assert(sv@.take(pv@.len() as int)[i as int] != pv@[i as int]);
            return false;
        }
        i = i + 1;
    }
    assert(sv@.take(pv@.len() as int) =~= pv@);
    true
}

/// Device tools that may never be offered or allowed: reboot, reset, factory reset,
/// firmware upgrade, and anything under `shell.`, `command.` or `exec.`.
pub open spec fn is_dangerous(name: Seq<char>) -> bool {
    ||| name == "self.reboot"@
    ||| name == "self.reset"@
    ||| name == "self.factory_reset"@
    ||| name == "self.upgrade_firmware"@
    ||| has_prefix(name, "shell."@)
    ||| has_prefix(name, "command."@)
    ||| has_prefix(name, "exec."@)
}

pub fn is_dangerous_tool(name: &str) -> (b: bool)
    ensures
        b == is_dangerous(name@),
{
    text_eq(name, "self.reboot") || text_eq(name, "self.reset") || text_eq(name, "self.factory_reset")
        || text_eq(name, "self.upgrade_firmware") || starts_with(name, "shell.") || starts_with(
        name,
        "command.",
    ) || starts_with(name, "exec.")
}

/// A tool a device announced. The input schema is JSON text.
#[derive(Debug, PartialEq, Eq)]
pub struct DiscoveredTool {
    pub original_name: String,
    pub description: String,
    pub input_schema: String,
}

/// A tool offered to the LLM under its sanitised name.
#[derive(Clone, Debug, PartialEq, Eq)]
pub struct LlmVisibleTool {
    pub llm_name: String,
    pub original_name: String,
    pub description: String,
    pub input_schema: String,
}

/// Whether `name` occurs in `allowed`.
pub open spec fn listed(allowed: Seq<String>, name: Seq<char>) -> bool {
    exists|i: int| 0 <= i < allowed.len() && (#[trigger] allowed[i])@ == name
}

/// A discovered tool is a candidate when it is allowed (an empty list allows all) and not
/// dangerous.
pub open spec fn is_candidate(t: DiscoveredTool, allowed: Seq<String>) -> bool {
    (allowed.len() == 0 || listed(allowed, t.original_name@)) && !is_dangerous(t.original_name@)
}

/// The number of tools of `ts` whose sanitised name is `n`.
pub open spec fn name_count(ts: Seq<DiscoveredTool>, n: Seq<char>) -> nat
    decreases ts.len(),
{
    if ts.len() == 0 {
        0
    } else {
        name_count(ts.drop_last(), n) + if sanitized_tool_name(ts.last().original_name@) == n {
            1nat
        } else {
            0nat
        }
    }
}

/// The visible tools: candidates whose sanitised name no other candidate shares, in order.
pub open spec fn visible_from(cands: Seq<DiscoveredTool>, all: Seq<DiscoveredTool>) -> Seq<(Seq<char>, DiscoveredTool)>
    decreases cands.len(),
{
    if cands.len() == 0 {
        Seq::empty()
    } else {
        let t = cands.last();
        let n = sanitized_tool_name(t.original_name@);
        visible_from(cands.drop_last(), all) + if name_count(all, n) == 1 {
            seq![(n, t)]
        } else {
            Seq::empty()
        }
    }
}

pub open spec fn visible_view(v: Seq<LlmVisibleTool>) -> Seq<(Seq<char>, DiscoveredTool)> {
    v.map_values(
        |t: LlmVisibleTool|
            (
                t.llm_name@,
                DiscoveredTool {
                    original_name: t.original_name,
                    description: t.description,
                    input_schema: t.input_schema,
                },
            ),
    )
}

fn is_listed(allowed: &[String], name: &str) -> (b: bool)
    ensures
        b == listed(allowed@, name@),
{
    let mut i: usize = 0;
    while i < allowed.len()
        invariant
            i <= allowed@.len(),
            forall|j: int| 0 <= j < i ==> (#[trigger] allowed@[j])@ != name@,
        decreases allowed.len() - i,
    {
        if text_eq(allowed[i].as_str(), name) {
            return true;
        }
        i = i + 1;
    }
    false
}

fn count_name(ts: &Vec<DiscoveredTool>, n: &str) -> (c: usize)
    ensures
        c == name_count(ts@, n@),
{
    let mut c: usize = 0;
    let mut i: usize = 0;
    while i < ts.len()
        invariant
            i <= ts@.len(),
            c == name_count(ts@.take(i as int), n@),
            c <= i,
        decreases ts.len() - i,
    {
        let s = sanitize_tool_name(ts[i].original_name.as_str());
        assert(ts@.take(i + 1).drop_last() =~= ts@.take(i as int));
        if text_eq(s.as_str(), n) {
            c = c + 1;
        }
        i = i + 1;
    }
    assert(ts@.take(i as int) =~= ts@);
    c
}

/// Filters discovered tools to those an LLM may call, named by their sanitised names;
/// tools whose sanitised names collide are all withheld.
pub fn visible_tools(discovered: Vec<DiscoveredTool>, allowed: &[String]) -> (r: Vec<LlmVisibleTool>)
    ensures
        visible_view(r@) == visible_from(
            discovered@.filter(|t: DiscoveredTool| is_candidate(t, allowed@)),
            discovered@.filter(|t: DiscoveredTool| is_candidate(t, allowed@)),
        ),
{
    let ghost pred = |t: DiscoveredTool| is_candidate(t, allowed@);
    let mut candidates: Vec<DiscoveredTool> = Vec::new();
    let mut i: usize = 0;
    while i < discovered.len()
        invariant
            i <= discovered@.len(),
            pred == (|t: DiscoveredTool| is_candidate(t, allowed@)),
            candidates@ == discovered@.take(i as int).filter(pred),
        decreases discovered.len() - i,
    {
        let t = &discovered[i];
        let ok = (allowed.len() == 0 || is_listed(allowed, t.original_name.as_str()))
            && !is_dangerous_tool(t.original_name.as_str());
        proof {
            reveal(Seq::filter);
            assert(discovered@.take(i + 1).drop_last() =~= discovered@.take(i as int));
        }
        if ok {
            candidates.push(t.clone());
        }
        i = i + 1;
    }
    assert(discovered@.take(i as int) =~= discovered@);
    let mut out: Vec<LlmVisibleTool> = Vec::new();
    let mut k: usize = 0;
    while k < candidates.len()
        invariant
            k <= candidates@.len(),
            visible_view(out@) == visible_from(candidates@.take(k as int), candidates@),
        decreases candidates.len() - k,
    {
        let t = &candidates[k];
        let name = sanitize_tool_name(t.original_name.as_str());
        let n = count_name(&candidates, name.as_str());
        proof {
            assert(candidates@.take(k + 1).drop_last() =~= candidates@.take(k as int));
            assert(candidates@.take(k + 1).last() == candidates@[k as int]);
        }
        if n == 1 {
            let ghost before = out@;
            out.push(
                LlmVisibleTool {
                    llm_name: name,
                    original_name: t.original_name.clone(),
                    description: t.description.clone(),
                    input_schema: t.input_schema.clone(),
                },
            );
            proof {
                assert(visible_view(out@) =~= visible_view(before) + visible_view(seq![out@.last()]));
            }
        }
        k = k + 1;
    }
    assert(candidates@.take(k as int) =~= candidates@);
    out
}

impl Clone for DiscoveredTool {
    fn clone(&self) -> (t: Self)
        ensures
            t == *self,
    {
        DiscoveredTool {
            original_name: self.original_name.clone(),
            description: self.description.clone(),
            input_schema: self.input_schema.clone(),
        }
    }
}

/// The sanitised name of a discovered tool.
pub open spec fn tool_llm_name(t: DiscoveredTool) -> Seq<char> {
    sanitized_tool_name(t.original_name@)
}

proof fn lemma_count_push(ts: Seq<DiscoveredTool>, t: DiscoveredTool, n: Seq<char>)
    ensures
        name_count(ts.push(t), n) == name_count(ts, n) + if tool_llm_name(t) == n {
            1nat
        } else {
            0nat
        },
{
    assert(ts.push(t).drop_last() =~= ts);
}

proof fn lemma_count_zero(ts: Seq<DiscoveredTool>, n: Seq<char>)
    requires
        forall|i: int| 0 <= i < ts.len() ==> tool_llm_name(#[trigger] ts[i]) != n,
    ensures
        name_count(ts, n) == 0,
    decreases ts.len(),
{
    if ts.len() > 0 {
        assert(tool_llm_name(ts[ts.len() - 1]) != n);
        assert forall|i: int| 0 <= i < ts.drop_last().len() implies tool_llm_name(
            #[trigger] ts.drop_last()[i],
        ) != n by {
            assert(ts.drop_last()[i] == ts[i]);
        }
        lemma_count_zero(ts.drop_last(), n);
    }
}

proof fn lemma_count_unique(ts: Seq<DiscoveredTool>, j: int)
    requires
        0 <= j < ts.len(),
        forall|i: int| 0 <= i < ts.len() && i != j ==> tool_llm_name(#[trigger] ts[i]) != tool_llm_name(ts[j]),
    ensures
        name_count(ts, tool_llm_name(ts[j])) == 1,
    decreases ts.len(),
{
    let n = tool_llm_name(ts[j]);
    let d = ts.drop_last();
    if j == ts.len() - 1 {
        assert forall|i: int| 0 <= i < d.len() implies tool_llm_name(#[trigger] d[i]) != n by {
            assert(d[i] == ts[i]);
        }
        lemma_count_zero(d, n);
    } else {
        assert(tool_llm_name(ts[ts.len() - 1]) != n);
        assert(d[j] == ts[j]);
        assert forall|i: int| 0 <= i < d.len() && i != j implies tool_llm_name(#[trigger] d[i])
            != tool_llm_name(d[j]) by {
            assert(d[i] == ts[i]);
        }
        lemma_count_unique(d, j);
    }
}

proof fn lemma_count_positive(ts: Seq<DiscoveredTool>, m: int)
    requires
        0 <= m < ts.len(),
    ensures
        name_count(ts, tool_llm_name(ts[m])) >= 1,
    decreases ts.len(),
{
    if m < ts.len() - 1 {
        assert(ts.drop_last()[m] == ts[m]);
        lemma_count_positive(ts.drop_last(), m);
    }
}

proof fn lemma_count_filter(ts: Seq<DiscoveredTool>, p: spec_fn(DiscoveredTool) -> bool, n: Seq<char>)
    ensures
        name_count(ts.filter(p), n) <= name_count(ts, n),
    decreases ts.len(),
{
    reveal(Seq::filter);
    if ts.len() > 0 {
        lemma_count_filter(ts.drop_last(), p, n);
        if p(ts.last()) {
            lemma_count_push(ts.drop_last().filter(p), ts.last(), n);
        }
    }
}

proof fn lemma_visible_contains(cands: Seq<DiscoveredTool>, all: Seq<DiscoveredTool>, m: int)
    requires
        0 <= m < cands.len(),
        name_count(all, tool_llm_name(cands[m])) == 1,
    ensures
        visible_from(cands, all).contains((tool_llm_name(cands[m]), cands[m])),
    decreases cands.len(),
{
    let x = (tool_llm_name(cands[m]), cands[m]);
    let d = cands.drop_last();
    let tail = if name_count(all, tool_llm_name(cands.last())) == 1 {
        seq![(tool_llm_name(cands.last()), cands.last())]
    } else {
        Seq::empty()
    };
    assert(visible_from(cands, all) == visible_from(d, all) + tail);
    if m == cands.len() - 1 {
        assert((visible_from(d, all) + tail)[visible_from(d, all).len() as int] == x);
    } else {
        assert(d[m] == cands[m]);
        lemma_visible_contains(d, all, m);
        let k = choose|k: int| 0 <= k < visible_from(d, all).len() && visible_from(d, all)[k] == x;
        assert((visible_from(d, all) + tail)[k] == x);
    }
}

proof fn lemma_visible_members(cands: Seq<DiscoveredTool>, all: Seq<DiscoveredTool>, x: (Seq<char>, DiscoveredTool))
    requires
        visible_from(cands, all).contains(x),
    ensures
        cands.contains(x.1),
        x.0 == tool_llm_name(x.1),
        name_count(all, x.0) == 1,
    decreases cands.len(),
{
    let d = cands.drop_last();
    let tail = if name_count(all, tool_llm_name(cands.last())) == 1 {
        seq![(tool_llm_name(cands.last()), cands.last())]
    } else {
        Seq::empty()
    };
    assert(visible_from(cands, all) == visible_from(d, all) + tail);
    let k = choose|k: int| 0 <= k < visible_from(cands, all).len() && visible_from(cands, all)[k] == x;
    if k < visible_from(d, all).len() {
        assert(visible_from(d, all)[k] == x);
        lemma_visible_members(d, all, x);
        let i = choose|i: int| 0 <= i < d.len() && d[i] == x.1;
        assert(cands[i] == x.1);
    } else {
        assert(x == (tool_llm_name(cands.last()), cands.last()));
        assert(cands[cands.len() - 1] == x.1);
    }
}

/// An allowed tool is offered to the model. The allow list holds original device tool
/// names: when it is empty or names the original name of a discovered tool that is not
/// dangerous and whose sanitised name no other discovered tool shares, that tool is among the
/// visible tools, under its sanitised name.
pub proof fn law_allowed_tool_is_offered(ds: Seq<DiscoveredTool>, allowed: Seq<String>, j: int)
    requires
        0 <= j < ds.len(),
        allowed.len() == 0 || exists|a: int| 0 <= a < allowed.len() && (#[trigger] allowed[a])@
            == ds[j].original_name@,
        !is_dangerous(ds[j].original_name@),
        forall|i: int| 0 <= i < ds.len() && i != j ==> sanitized_tool_name((#[trigger] ds[i]).original_name@)
            != sanitized_tool_name(ds[j].original_name@),
    ensures
        ({
            let c = ds.filter(|t: DiscoveredTool| is_candidate(t, allowed));
            visible_from(c, c).contains((sanitized_tool_name(ds[j].original_name@), ds[j]))
        }),
{
    broadcast use Seq::lemma_filter_contains;

    let p = |t: DiscoveredTool| is_candidate(t, allowed);
    let c = ds.filter(p);
    assert(p(ds[j]));
    assert(c.contains(ds[j]));
    let m = choose|m: int| 0 <= m < c.len() && c[m] == ds[j];
    assert forall|i: int| 0 <= i < ds.len() && i != j implies tool_llm_name(#[trigger] ds[i])
        != tool_llm_name(ds[j]) by {
    }
    lemma_count_unique(ds, j);
    lemma_count_filter(ds, p, tool_llm_name(ds[j]));
    lemma_count_positive(c, m);
    lemma_visible_contains(c, c, m);
}

/// Only allowed, safe tools are offered, each under its own sanitised name: every visible
/// tool was discovered, is not dangerous, is named by the allow list (by its original device
/// name) unless the list is empty, and no other offered tool shares its sanitised name.
pub proof fn law_offered_tools_are_allowed(ds: Seq<DiscoveredTool>, allowed: Seq<String>, x: (Seq<char>, DiscoveredTool))
    requires
        ({
            let c = ds.filter(|t: DiscoveredTool| is_candidate(t, allowed));
            visible_from(c, c).contains(x)
        }),
    ensures
        ds.contains(x.1),
        !is_dangerous(x.1.original_name@),
        allowed.len() == 0 || exists|a: int| 0 <= a < allowed.len() && (#[trigger] allowed[a])@
            == x.1.original_name@,
        x.0 == sanitized_tool_name(x.1.original_name@),
{
    broadcast use Seq::lemma_filter_pred, Seq::lemma_filter_contains_rev;

    let p = |t: DiscoveredTool| is_candidate(t, allowed);
    let c = ds.filter(p);
    lemma_visible_members(c, c, x);
    let i = choose|i: int| 0 <= i < c.len() && c[i] == x.1;
    assert(p(c[i]));
}

proof fn lemma_count_filter_one(ts: Seq<DiscoveredTool>, p: spec_fn(DiscoveredTool) -> bool, i: int)
    requires
        0 <= i < ts.len(),
        p(ts[i]),
    ensures
        name_count(ts.filter(p), tool_llm_name(ts[i])) >= 1,
{
    broadcast use Seq::lemma_filter_contains;

    assert(ts.filter(p).contains(ts[i]));
    let m = choose|m: int| 0 <= m < ts.filter(p).len() && ts.filter(p)[m] == ts[i];
    lemma_count_positive(ts.filter(p), m);
}

proof fn lemma_count_filter_two(ts: Seq<DiscoveredTool>, p: spec_fn(DiscoveredTool) -> bool, i: int, j: int)
    requires
        0 <= i < j < ts.len(),
        p(ts[i]),
        p(ts[j]),
        tool_llm_name(ts[i]) == tool_llm_name(ts[j]),
    ensures
        name_count(ts.filter(p), tool_llm_name(ts[j])) >= 2,
    decreases ts.len(),
{
    reveal(Seq::filter);
    let d = ts.drop_last();
    let n = tool_llm_name(ts[j]);
    assert(d[i] == ts[i]);
    if j == ts.len() - 1 {
        lemma_count_filter_one(d, p, i);
        lemma_count_push(d.filter(p), ts.last(), n);
    } else {
        assert(d[j] == ts[j]);
        lemma_count_filter_two(d, p, i, j);
        if p(ts.last()) {
            lemma_count_push(d.filter(p), ts.last(), n);
        }
    }
}

/// Tools whose sanitised names collide are all withheld: when two different positions of
/// the discovered list hold offerable tools (allowed and not dangerous) with the same
/// sanitised name, no visible tool carries that name.
pub proof fn law_colliding_names_are_withheld(ds: Seq<DiscoveredTool>, allowed: Seq<String>, i: int, j: int, x: (Seq<char>, DiscoveredTool))
    requires
        0 <= i < j < ds.len(),
        is_candidate(ds[i], allowed),
        is_candidate(ds[j], allowed),
        sanitized_tool_name(ds[i].original_name@) == sanitized_tool_name(ds[j].original_name@),
        ({
            let c = ds.filter(|t: DiscoveredTool| is_candidate(t, allowed));
            visible_from(c, c).contains(x)
        }),
    ensures
        x.0 != sanitized_tool_name(ds[j].original_name@),
{
    let p = |t: DiscoveredTool| is_candidate(t, allowed);
    let c = ds.filter(p);
    lemma_visible_members(c, c, x);
    lemma_count_filter_two(ds, p, i, j);
}

/// The name a model sees is the device's name made safe, character for character: it has the
/// same length, keeps every ASCII letter, digit, `_` and `-` where it was, and holds nothing
/// else, every other character having become `_`.
pub proof fn law_llm_names_are_safe(name: Seq<char>)
    ensures
        sanitized_tool_name(name).len() == name.len(),
        forall|k: int|
            0 <= k < name.len() ==> {
                let c = #[trigger] sanitized_tool_name(name)[k];
                let o = name[k];
                &&& ('a' <= c <= 'z') || ('A' <= c <= 'Z') || ('0' <= c <= '9') || c == '_' || c == '-'
                &&& (('a' <= o <= 'z') || ('A' <= o <= 'Z') || ('0' <= o <= '9') || o == '-') ==> c == o
                &&& !(('a' <= o <= 'z') || ('A' <= o <= 'Z') || ('0' <= o <= '9') || o == '-') ==> c == '_'
            },
{
}

} // verus!
