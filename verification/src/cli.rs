//! The command-line interface: its arguments, its commands as sequences of
//! steps, and what it prints.

use vstd::prelude::*;

use crate::config::RuntimeConfig;
use crate::numeric::{all_digits, dec, dec_text, digits_value, is_digit, parse_text, parsed, unsigned_part};
use crate::proto::{distinct_names, pairs};
use crate::template::{Template, TemplateView};
use crate::text::{ascii_lower, cat2, cat3, cat4, cat5, chars_of, find_char, first_index, is_space, left_aligned,
    lines_of, lower, pad_left, pad_right, push_text, repeat_char, right_aligned, same_text, split_lines,
    split_words, starts_with, strs, text_of, trim_text, trimmed, words_of, Text};

verus! {

broadcast use vstd::string::group_string_axioms;

// ---------------------------------------------------------------------
// Arguments
// ---------------------------------------------------------------------

/// The parts of `s` before and after its first `c`.
pub open spec fn cut_at(s: Text, c: char) -> Option<(Text, Text)> {
    let i = first_index(s, c);
    if i < s.len() {
        Some((s.take(i), s.skip(i + 1)))
    } else {
        None
    }
}

fn cut(s: &str, c: char) -> (r: Option<(String, String)>)
    ensures
        match r {
            Some(p) => cut_at(s@, c) == Some((p.0@, p.1@)),
            None => cut_at(s@, c) is None,
        },
{
    let cs = chars_of(s);
    assert(cs@.skip(0) =~= cs@);
    let i = find_char(&cs, 0, c);
    if i < cs.len() {
        let before = text_of(&cs, 0, i);
        let after = text_of(&cs, i + 1, cs.len());
        assert(before@ =~= s@.take(i as int));
        assert(after@ =~= s@.skip(i + 1));
        Some((before, after))
    } else {
        None
    }
}

/// The error of an environment variable without a value.
pub open spec fn key_val_error(s: Text) -> Text {
    "invalid KEY=VALUE: no `=` found in `"@ + s + "`"@
}

/// Parses `KEY=VALUE` at the first equals sign.
pub fn parse_key_val(s: &str) -> (r: Result<(String, String), String>)
    ensures
        match r {
            Ok(p) => cut_at(s@, '=') == Some((p.0@, p.1@)),
            Err(e) => cut_at(s@, '=') is None && e@ == key_val_error(s@),
        },
{
    match cut(s, '=') {
        Some(p) => Ok(p),
        None => Err(cat3("invalid KEY=VALUE: no `=` found in `", s, "`")),
    }
}

/// The error of a mapping without a target.
pub open spec fn mapping_error(s: Text) -> Text {
    "invalid mapping format, expected `SRC:DST`: `"@ + s + "`"@
}

/// Parses `SRC:DST` at the first colon.
pub fn parse_file_mapping(s: &str) -> (r: Result<(String, String), String>)
    ensures
        match r {
            Ok(p) => cut_at(s@, ':') == Some((p.0@, p.1@)),
            Err(e) => cut_at(s@, ':') is None && e@ == mapping_error(s@),
        },
{
    match cut(s, ':') {
        Some(p) => Ok(p),
        None => Err(cat3("invalid mapping format, expected `SRC:DST`: `", s, "`")),
    }
}

/// What was put together with the character that it does not hold before comes
/// apart again.
pub proof fn law_cut_undoes_join(key: Text, value: Text, c: char)
    requires
        !key.contains(c),
    ensures
        cut_at(key + seq![c] + value, c) == Some((key, value)),
{
    let s = key + seq![c] + value;
    let n = key.len() as int;
    assert forall|j: int| 0 <= j < n implies s[j] != c by {
        assert(s[j] == key[j]);
        assert(key.contains(key[j]));
    }
    assert(s[n] == c);
    crate::text::lemma_first_index_is(s, c, n);
    assert(s.take(n) =~= key);
    assert(s.skip(n + 1) =~= value);
}

/// The variables that a list of assignments sets: a later one replaces an earlier
/// one of the same name.
pub open spec fn env_of(v: Seq<(Text, Text)>) -> Map<Text, Text>
    decreases v.len(),
{
    if v.len() == 0 {
        Map::empty()
    } else {
        env_of(v.drop_last()).insert(v.last().0, v.last().1)
    }
}

proof fn lemma_env_names(v: Seq<(Text, Text)>, name: Text)
    ensures
        env_of(v).dom().contains(name) <==> exists|i: int| 0 <= i < v.len() && (#[trigger] v[i]).0 == name,
    decreases v.len(),
{
    if v.len() > 0 {
        let w = v.drop_last();
        lemma_env_names(w, name);
        if env_of(w).dom().contains(name) {
            let i = choose|i: int| 0 <= i < w.len() && (#[trigger] w[i]).0 == name;
            assert(v[i].0 == name);
        }
        if v.last().0 == name {
            assert(v[v.len() - 1].0 == name);
        }
        if exists|i: int| 0 <= i < v.len() && (#[trigger] v[i]).0 == name {
            let i = choose|i: int| 0 <= i < v.len() && (#[trigger] v[i]).0 == name;
            if i < w.len() {
                assert(w[i].0 == name);
            }
        }
    }
}

proof fn lemma_env_remove(v: Seq<(Text, Text)>, k: int)
    requires
        distinct_names(v),
        0 <= k < v.len(),
    ensures
        distinct_names(v.remove(k)),
        env_of(v.remove(k)) == env_of(v).remove(v[k].0),
        !env_of(v.remove(k)).dom().contains(v[k].0),
    decreases v.len(),
{
    let w = v.remove(k);
    assert(distinct_names(w)) by {
        assert forall|i: int, j: int| 0 <= i < j < w.len() implies (#[trigger] w[i]).0 != (
        #[trigger] w[j]).0 by {
            let x = if i < k {
                i
            } else {
                i + 1
            };
            let y = if j < k {
                j
            } else {
                j + 1
            };
            assert(w[i] == v[x] && w[j] == v[y]);
            assert(v[x].0 != v[y].0);
        }
    }
    if k == v.len() - 1 {
        assert(w =~= v.drop_last());
        lemma_env_names(w, v[k].0);
        assert(!env_of(w).dom().contains(v[k].0)) by {
            if env_of(w).dom().contains(v[k].0) {
                let i = choose|i: int| 0 <= i < w.len() && (#[trigger] w[i]).0 == v[k].0;
                assert(v[i].0 != v[k].0);
            }
        }
        assert(env_of(w) =~= env_of(v).remove(v[k].0));
    } else {
        let u = v.drop_last();
        assert(distinct_names(u)) by {
            assert forall|i: int, j: int| 0 <= i < j < u.len() implies (#[trigger] u[i]).0 != (
            #[trigger] u[j]).0 by {
                assert(u[i] == v[i] && u[j] == v[j]);
            }
        }
        lemma_env_remove(u, k);
        assert(w.drop_last() =~= u.remove(k));
        assert(w.last() == v.last());
        assert(u[k] == v[k]);
        assert(v[k].0 != v[v.len() - 1].0);
        assert(env_of(w) =~= env_of(v).remove(v[k].0));
    }
}

/// The variables that a list of assignments sets, each once.
pub fn collect_env(assignments: Vec<(String, String)>) -> (r: Vec<(String, String)>)
    ensures
        distinct_names(pairs(r@)),
        env_of(pairs(r@)) == env_of(pairs(assignments@)),
{
    let mut out: Vec<(String, String)> = Vec::new();
    let ghost all = pairs(assignments@);
    let mut i: usize = 0;
    assert(pairs(out@) =~= all.take(0));
    while i < assignments.len()
        invariant
            i <= assignments@.len(),
            all == pairs(assignments@),
            distinct_names(pairs(out@)),
            env_of(pairs(out@)) == env_of(all.take(i as int)),
        decreases assignments@.len() - i,
    {
        let name = assignments[i].0.clone();
        let value = assignments[i].1.clone();
        let ghost start = pairs(out@);
        let mut k: usize = 0;
        while k < out.len() && !same_text(out[k].0.as_str(), name.as_str())
            invariant
                k <= out@.len(),
                forall|j: int| 0 <= j < k ==> (#[trigger] out@[j]).0@ != name@,
            decreases out@.len() - k,
        {
            k = k + 1;
        }
        if k < out.len() {
            proof {
                assert(start[k as int].0 == name@);
                lemma_env_remove(start, k as int);
            }
            out.remove(k);
            assert(pairs(out@) =~= start.remove(k as int));
            assert(env_of(pairs(out@)).insert(name@, value@) =~= env_of(start).insert(
                name@,
                value@,
            ));
        }
        let ghost mid = pairs(out@);
        proof {
            assert forall|j: int| 0 <= j < mid.len() implies (#[trigger] mid[j]).0 != name@ by {
                if k < start.len() {
                    lemma_env_names(mid, name@);
                } else {
                    assert(mid[j].0 == out@[j].0@);
                }
            }
        }
        out.push((name, value));
        proof {
            let now = pairs(out@);
            assert(now =~= mid.push((name@, value@)));
            assert(now.drop_last() =~= mid);
            assert(distinct_names(now)) by {
                assert forall|a: int, b: int| 0 <= a < b < now.len() implies (#[trigger] now[a]).0
                    != (#[trigger] now[b]).0 by {
                    assert(now[a] == mid[a]);
                    if b < mid.len() {
                        assert(now[b] == mid[b]);
                    }
                }
            }
            assert(all.take(i + 1).drop_last() =~= all.take(i as int));
            assert(all.take(i + 1).last() == (name@, value@));
        }
        i = i + 1;
    }
    assert(all.take(i as int) =~= all);
    out
}

// ---------------------------------------------------------------------
// Configuration
// ---------------------------------------------------------------------

/// Settings from the environment, each of which may be missing.
#[derive(Debug)]
pub struct Overrides {
    pub firecracker_path: Option<String>,
    pub kernel_path: Option<String>,
    pub template_dir: Option<String>,
    pub socket_dir: Option<String>,
    pub agent_bin: Option<String>,
}

/// A setting, or what stands in for it.
pub open spec fn setting(s: Option<String>, otherwise: String) -> String {
    match s {
        Some(v) => v,
        None => otherwise,
    }
}

/// The configuration with the settings of the environment.
pub fn build_config(base: RuntimeConfig, env: Overrides) -> (r: RuntimeConfig)
    ensures
        r == (RuntimeConfig {
            firecracker_path: setting(env.firecracker_path, base.firecracker_path),
            kernel_path: setting(env.kernel_path, base.kernel_path),
            template_dir: setting(env.template_dir, base.template_dir),
            socket_dir: setting(env.socket_dir, base.socket_dir),
            agent_bin: setting(env.agent_bin, base.agent_bin),
            ..base
        }),
{
    let mut config = base;
    match env.firecracker_path {
        Some(v) => {
            config.firecracker_path = v;
        },
        None => {},
    }
    match env.kernel_path {
        Some(v) => {
            config.kernel_path = v;
        },
        None => {},
    }
    match env.template_dir {
        Some(v) => {
            config.template_dir = v;
        },
        None => {},
    }
    match env.socket_dir {
        Some(v) => {
            config.socket_dir = v;
        },
        None => {},
    }
    match env.agent_bin {
        Some(v) => {
            config.agent_bin = v;
        },
        None => {},
    }
    config
}

/// The status with which the process ends: the lowest byte of the exit code.
pub fn exit_status(code: i32) -> (r: u8)
    ensures
        r == code as u8,
        0 <= code < 256 ==> r == code,
{
    code as u8
}

// ---------------------------------------------------------------------
// Templates
// ---------------------------------------------------------------------

/// A row of the table of templates.
pub open spec fn template_row(id: Text, name: Text, vcpus: Text, memory: Text) -> Text {
    left_aligned(id, 28) + " "@ + left_aligned(name, 16) + " "@ + right_aligned(vcpus, 6) + " "@
        + right_aligned(memory, 10)
}

fn format_row(id: &str, name: &str, vcpus: &str, memory: &str) -> (r: String)
    ensures
        r@ == template_row(id@, name@, vcpus@, memory@),
{
    let mut r = cat5(
        pad_right(id, 28).as_str(),
        " ",
        pad_right(name, 16).as_str(),
        " ",
        pad_left(vcpus, 6).as_str(),
    );
    r.append(" ");
    r.append(pad_left(memory, 10).as_str());
    r
}

/// The row of a template.
pub open spec fn row_of(t: TemplateView) -> Text {
    template_row(t.id, t.name, dec(t.vcpus as nat), dec(t.memory_mib as nat))
}

/// The lines of the table of templates.
pub open spec fn template_table(list: Seq<TemplateView>) -> Seq<Text> {
    if list.len() == 0 {
        seq![
            "No templates found."@,
            "  Hint: coffer-cli template build --name <name> <oci-image>"@,
        ]
    } else {
        seq![template_row("ID"@, "NAME"@, "VCPUS"@, "MEM(MiB)"@), Seq::new(64, |i: int| '-')]
            + list.map_values(|t: TemplateView| row_of(t))
    }
}

/// The views of a sequence of templates.
pub open spec fn template_views(v: Seq<Template>) -> Seq<TemplateView> {
    v.map_values(|t: Template| t@)
}

/// The lines of the table of templates.
pub fn template_list_lines(list: &Vec<Template>) -> (r: Vec<String>)
    ensures
        strs(r@) == template_table(template_views(list@)),
{
    let mut out: Vec<String> = Vec::new();
    if list.len() == 0 {
        push_text(&mut out, "No templates found.");
        push_text(&mut out, "  Hint: coffer-cli template build --name <name> <oci-image>");
        assert(strs(out@) =~= template_table(template_views(list@)));
        return out;
    }
    let ghost views = template_views(list@);
    push_text(&mut out, format_row("ID", "NAME", "VCPUS", "MEM(MiB)").as_str());
    push_text(&mut out, repeat_char('-', 64).as_str());
    let ghost head = strs(out@);
    let ghost body = views.map_values(|t: TemplateView| row_of(t));
    let mut i: usize = 0;
    assert(strs(out@) =~= head + body.take(0));
    while i < list.len()
        invariant
            i <= list@.len(),
            views == template_views(list@),
            body == views.map_values(|t: TemplateView| row_of(t)),
            strs(out@) == head + body.take(i as int),
        decreases list@.len() - i,
    {
        let ghost before = strs(out@);
        let t = &list[i];
        let line = format_row(
            t.id.as_str(),
            t.name.as_str(),
            dec_text(t.vcpus as u64).as_str(),
            dec_text(t.memory_mib as u64).as_str(),
        );
        push_text(&mut out, line.as_str());
        proof {
            assert(body[i as int] == line@);
            assert(body.take(i + 1) =~= body.take(i as int).push(line@));
            assert(strs(out@) =~= head + body.take(i + 1));
        }
        i = i + 1;
    }
    proof {
        assert(body.take(i as int) =~= body);
        assert(head =~= seq![
            template_row("ID"@, "NAME"@, "VCPUS"@, "MEM(MiB)"@),
            Seq::new(64, |i: int| '-'),
        ]);
    }
    out
}

/// The lines that describe a template.
pub open spec fn template_details(t: TemplateView) -> Seq<Text> {
    seq![
        "Template: "@ + t.id,
        "  Name:         "@ + t.name,
        "  Kernel:       "@ + t.kernel_path,
        "  Rootfs:       "@ + t.rootfs_path,
        "  Snapshot:     "@ + t.snapshot_state_path + " / "@ + t.snapshot_mem_path,
        "  Kernel args:  "@ + t.kernel_args,
        "  vCPUs:        "@ + dec(t.vcpus as nat),
        "  Memory:       "@ + dec(t.memory_mib as nat) + " MiB"@,
    ] + (if t.metadata.len() == 0 {
        seq![]
    } else {
        seq!["  Metadata:"@] + t.metadata.map_values(
            |p: (Text, Text)| "    "@ + p.0 + ": "@ + p.1,
        )
    })
}

/// The lines that describe a template.
pub fn template_info_lines(t: &Template) -> (r: Vec<String>)
    ensures
        strs(r@) == template_details(t@),
{
    let mut out: Vec<String> = Vec::new();
    push_text(&mut out, cat2("Template: ", t.id.as_str()).as_str());
    push_text(&mut out, cat2("  Name:         ", t.name.as_str()).as_str());
    push_text(&mut out, cat2("  Kernel:       ", t.kernel_path.as_str()).as_str());
    push_text(&mut out, cat2("  Rootfs:       ", t.rootfs_path.as_str()).as_str());
    push_text(
        &mut out,
        cat4(
            "  Snapshot:     ",
            t.snapshot_state_path.as_str(),
            " / ",
            t.snapshot_mem_path.as_str(),
        ).as_str(),
    );
    push_text(&mut out, cat2("  Kernel args:  ", t.kernel_args.as_str()).as_str());
    push_text(&mut out, cat2("  vCPUs:        ", dec_text(t.vcpus as u64).as_str()).as_str());
    push_text(
        &mut out,
        cat3("  Memory:       ", dec_text(t.memory_mib as u64).as_str(), " MiB").as_str(),
    );
    let ghost head = strs(out@);
    let ghost meta = pairs(t.metadata@);
    if t.metadata.len() > 0 {
        push_text(&mut out, "  Metadata:");
        let ghost start = strs(out@);
        let ghost body = meta.map_values(|p: (Text, Text)| "    "@ + p.0 + ": "@ + p.1);
        let mut i: usize = 0;
        assert(strs(out@) =~= start + body.take(0));
        while i < t.metadata.len()
            invariant
                i <= t.metadata@.len(),
                meta == pairs(t.metadata@),
                body == meta.map_values(|p: (Text, Text)| "    "@ + p.0 + ": "@ + p.1),
                strs(out@) == start + body.take(i as int),
            decreases t.metadata@.len() - i,
        {
            let line = cat4(
                "    ",
                t.metadata[i].0.as_str(),
                ": ",
                t.metadata[i].1.as_str(),
            );
            push_text(&mut out, line.as_str());
            proof {
                assert(body[i as int] == line@);
                assert(body.take(i + 1) =~= body.take(i as int).push(line@));
                assert(strs(out@) =~= start + body.take(i + 1));
            }
            i = i + 1;
        }
        assert(body.take(i as int) =~= body);
        assert(start =~= head + seq!["  Metadata:"@]);
    }
    assert(strs(out@) =~= template_details(t@));
    out
}

/// The lines that tell of a built template.
pub fn template_built_lines(t: &Template) -> (r: Vec<String>)
    ensures
        strs(r@) == seq![
            "✓ Template built successfully"@,
            "  ID:      "@ + t.id@,
            "  Name:    "@ + t.name@,
            "  Rootfs:  "@ + t.rootfs_path@,
        ],
{
    let mut out: Vec<String> = Vec::new();
    push_text(&mut out, "✓ Template built successfully");
    push_text(&mut out, cat2("  ID:      ", t.id.as_str()).as_str());
    push_text(&mut out, cat2("  Name:    ", t.name.as_str()).as_str());
    push_text(&mut out, cat2("  Rootfs:  ", t.rootfs_path.as_str()).as_str());
    assert(strs(out@) =~= seq![
        "✓ Template built successfully"@,
        "  ID:      "@ + t.id@,
        "  Name:    "@ + t.name@,
        "  Rootfs:  "@ + t.rootfs_path@,
    ]);
    out
}

/// Whether `s` is `word` but for the case of ASCII letters.
pub open spec fn same_but_case(s: Text, word: Text) -> bool {
    s.map_values(|c: char| ascii_lower(c)) == word
}

/// Whether an answer to a question is yes.
pub open spec fn is_yes(answer: Text) -> bool {
    same_but_case(trimmed(answer), "y"@) || same_but_case(trimmed(answer), "yes"@)
}

fn same_ignoring_case(s: &str, word: &str) -> (r: bool)
    ensures
        r == same_but_case(s@, word@),
{
    let a = chars_of(s);
    let b = chars_of(word);
    let ghost low = s@.map_values(|c: char| ascii_lower(c));
    if a.len() != b.len() {
        return false;
    }
    let mut i: usize = 0;
    while i < a.len()
        invariant
            i <= a@.len(),
            a@ == s@,
            b@ == word@,
            a@.len() == b@.len(),
            low == s@.map_values(|c: char| ascii_lower(c)),
            forall|j: int| 0 <= j < i ==> low[j] == b@[j],
        decreases a@.len() - i,
    {
        if lower(a[i]) != b[i] {
            assert(low[i as int] != b@[i as int]);
            return false;
        }
        i = i + 1;
    }
    assert(low =~= word@);
    true
}

/// Whether an answer to a question is yes: `y` or `yes`, in letters of either
/// case, with white space around it.
pub fn confirmed(answer: &str) -> (r: bool)
    ensures
        r == is_yes(answer@),
{
    let t = trim_text(answer);
    same_ignoring_case(t.as_str(), "y") || same_ignoring_case(t.as_str(), "yes")
}

/// What the removal of a template does.
#[derive(Debug)]
pub enum RemoveStep {
    Fail(String),
    /// Ask this question and come back with the answer.
    Ask(String),
    /// Remove the directory of the template.
    Remove,
}

/// How the removal of a template begins.
pub fn template_rm(id: &str, exists: bool, yes: bool) -> (r: RemoveStep)
    ensures
        !exists ==> (r matches RemoveStep::Fail(e) && e@ == "Template '"@ + id@ + "' not found"@),
        exists && yes ==> r is Remove,
        exists && !yes ==> (r matches RemoveStep::Ask(q) && q@ == "Remove template '"@ + id@
            + "' and all its files? [y/N] "@),
{
    if !exists {
        RemoveStep::Fail(cat3("Template '", id, "' not found"))
    } else if yes {
        RemoveStep::Remove
    } else {
        RemoveStep::Ask(cat3("Remove template '", id, "' and all its files? [y/N] "))
    }
}

// ---------------------------------------------------------------------
// Pool status
// ---------------------------------------------------------------------

/// A line on the VMs of a template.
pub open spec fn count_line(id: Text, count: nat) -> Text {
    "  "@ + left_aligned(id, 28) + " "@ + dec(count)
}

/// The lines on the state of the pool.
pub open spec fn pool_lines(in_use: nat, counts: Seq<(Text, nat)>) -> Seq<Text> {
    seq![
        "Warm Pool Status"@,
        "----------------"@,
        "In-use sandboxes: "@ + dec(in_use),
        "Available sandboxes by template:"@,
    ] + (if counts.len() == 0 {
        seq!["  (none)"@]
    } else {
        seq![
            "  "@ + left_aligned("TEMPLATE"@, 28) + " COUNT"@,
            "  "@ + Seq::new(40, |i: int| '-'),
        ] + counts.map_values(|p: (Text, nat)| count_line(p.0, p.1))
    })
}

/// The views of a sequence of counts.
pub open spec fn count_views(v: Seq<(String, usize)>) -> Seq<(Text, nat)> {
    v.map_values(|p: (String, usize)| (p.0@, p.1 as nat))
}

/// The lines on the state of the pool.
pub fn pool_status_lines(in_use: usize, counts: &Vec<(String, usize)>) -> (r: Vec<String>)
    ensures
        strs(r@) == pool_lines(in_use as nat, count_views(counts@)),
{
    let mut out: Vec<String> = Vec::new();
    push_text(&mut out, "Warm Pool Status");
    push_text(&mut out, "----------------");
    push_text(&mut out, cat2("In-use sandboxes: ", dec_text(in_use as u64).as_str()).as_str());
    push_text(&mut out, "Available sandboxes by template:");
    let ghost head = strs(out@);
    let ghost views = count_views(counts@);
    if counts.len() == 0 {
        push_text(&mut out, "  (none)");
    } else {
        push_text(&mut out, cat3("  ", pad_right("TEMPLATE", 28).as_str(), " COUNT").as_str());
        push_text(&mut out, cat2("  ", repeat_char('-', 40).as_str()).as_str());
        let ghost start = strs(out@);
        let ghost body = views.map_values(|p: (Text, nat)| count_line(p.0, p.1));
        let mut i: usize = 0;
        assert(strs(out@) =~= start + body.take(0));
        while i < counts.len()
            invariant
                i <= counts@.len(),
                views == count_views(counts@),
                body == views.map_values(|p: (Text, nat)| count_line(p.0, p.1)),
                strs(out@) == start + body.take(i as int),
            decreases counts@.len() - i,
        {
            let line = cat4(
                "  ",
                pad_right(counts[i].0.as_str(), 28).as_str(),
                " ",
                dec_text(counts[i].1 as u64).as_str(),
            );
            push_text(&mut out, line.as_str());
            proof {
                assert(body[i as int] == line@);
                assert(body.take(i + 1) =~= body.take(i as int).push(line@));
                assert(strs(out@) =~= start + body.take(i + 1));
            }
            i = i + 1;
        }
        assert(body.take(i as int) =~= body);
        assert(start =~= head + seq![
            "  "@ + left_aligned("TEMPLATE"@, 28) + " COUNT"@,
            "  "@ + Seq::new(40, |i: int| '-'),
        ]);
    }
    assert(strs(out@) =~= pool_lines(in_use as nat, views));
    out
}

// ---------------------------------------------------------------------
// Readiness check
// ---------------------------------------------------------------------

/// What is looked at for an item of the readiness check.
#[derive(Debug)]
pub enum Probe {
    /// A file that exists and that can be run.
    Binary(String),
    /// The device of the hypervisor, which must be readable and writable.
    Kvm,
    /// A directory, which is made where it does not exist.
    Dir(String),
    /// A command that must succeed.
    Command { program: String, arg: String },
}

/// An item of the readiness check.
#[derive(Debug)]
pub struct CheckItem {
    pub label: String,
    pub probe: Probe,
}

pub enum ProbeView {
    Binary(Text),
    Kvm,
    Dir(Text),
    Command { program: Text, arg: Text },
}

impl View for Probe {
    type V = ProbeView;

    open spec fn view(&self) -> ProbeView {
        match *self {
            Probe::Binary(p) => ProbeView::Binary(p@),
            Probe::Kvm => ProbeView::Kvm,
            Probe::Dir(p) => ProbeView::Dir(p@),
            Probe::Command { program, arg } => ProbeView::Command { program: program@, arg: arg@ },
        }
    }
}

impl View for CheckItem {
    type V = (Text, ProbeView);

    open spec fn view(&self) -> (Text, ProbeView) {
        (self.label@, self.probe@)
    }
}

/// The views of a sequence of items.
pub open spec fn check_views(v: Seq<CheckItem>) -> Seq<(Text, ProbeView)> {
    v.map_values(|c: CheckItem| c@)
}

/// The item of a command.
pub open spec fn command_item(program: Text, arg: Text) -> (Text, ProbeView) {
    (program, ProbeView::Command { program, arg })
}

/// The items of the readiness check, in order.
pub open spec fn check_items(c: RuntimeConfig) -> Seq<(Text, ProbeView)> {
    seq![
        (
            "Firecracker binary ("@ + c.firecracker_path@ + ")"@,
            ProbeView::Binary(c.firecracker_path@),
        ),
    ] + (match c.jailer_path {
        Some(j) => seq![("Jailer binary ("@ + j@ + ") [optional]"@, ProbeView::Binary(j@))],
        None => seq![],
    }) + seq![
        ("Kernel image ("@ + c.kernel_path@ + ")"@, ProbeView::Binary(c.kernel_path@)),
        ("Agent binary ("@ + c.agent_bin@ + ")"@, ProbeView::Binary(c.agent_bin@)),
        ("/dev/kvm read+write"@, ProbeView::Kvm),
        ("Template directory ("@ + c.template_dir@ + ")"@, ProbeView::Dir(c.template_dir@)),
        command_item("mkfs.erofs"@, "--help"@),
        command_item("skopeo"@, "--version"@),
        command_item("umoci"@, "--version"@),
        command_item("ip"@, "-V"@),
        command_item("iptables"@, "--version"@),
    ]
}

fn command_check(program: &str, arg: &str) -> (r: CheckItem)
    ensures
        r@ == command_item(program@, arg@),
{
    CheckItem {
        label: program.to_owned(),
        probe: Probe::Command { program: program.to_owned(), arg: arg.to_owned() },
    }
}

/// The items of the readiness check, in order.
pub fn check_plan(c: &RuntimeConfig) -> (r: Vec<CheckItem>)
    ensures
        check_views(r@) == check_items(*c),
{
    let mut out: Vec<CheckItem> = Vec::new();
    out.push(
        CheckItem {
            label: cat3("Firecracker binary (", c.firecracker_path.as_str(), ")"),
            probe: Probe::Binary(c.firecracker_path.clone()),
        },
    );
    match &c.jailer_path {
        Some(j) => {
            out.push(
                CheckItem {
                    label: cat3("Jailer binary (", j.as_str(), ") [optional]"),
                    probe: Probe::Binary(j.clone()),
                },
            );
        },
        None => {},
    }
    out.push(
        CheckItem {
            label: cat3("Kernel image (", c.kernel_path.as_str(), ")"),
            probe: Probe::Binary(c.kernel_path.clone()),
        },
    );
    out.push(
        CheckItem {
            label: cat3("Agent binary (", c.agent_bin.as_str(), ")"),
            probe: Probe::Binary(c.agent_bin.clone()),
        },
    );
    out.push(CheckItem { label: "/dev/kvm read+write".to_owned(), probe: Probe::Kvm });
    out.push(
        CheckItem {
            label: cat3("Template directory (", c.template_dir.as_str(), ")"),
            probe: Probe::Dir(c.template_dir.clone()),
        },
    );
    out.push(command_check("mkfs.erofs", "--help"));
    out.push(command_check("skopeo", "--version"));
    out.push(command_check("umoci", "--version"));
    out.push(command_check("ip", "-V"));
    out.push(command_check("iptables", "--version"));
    assert(check_views(out@) =~= check_items(*c));
    out
}

/// What was found of a program.
#[derive(Debug)]
pub enum FileFacts {
    Missing,
    /// Its permissions could not be read.
    Unreadable(String),
    Found { mode: u32 },
}

/// Whether a mode lets anybody run the file.
pub open spec fn is_executable(mode: u32) -> bool {
    mode & 0o111 != 0
}

/// What is wrong with a program, if anything: it must exist, and somebody must be
/// allowed to run it.
pub fn check_binary(facts: FileFacts) -> (r: Result<(), String>)
    ensures
        match facts {
            FileFacts::Missing => r matches Err(e) && e@ == "binary not found"@,
            FileFacts::Unreadable(m) => r matches Err(e) && e@ == m@,
            FileFacts::Found { mode } => {
                &&& r is Ok <==> is_executable(mode)
                &&& r matches Err(e) ==> e@ == "binary lacks executable permission"@
            },
        },
{
    match facts {
        FileFacts::Missing => Err("binary not found".to_owned()),
        FileFacts::Unreadable(m) => Err(m),
        FileFacts::Found { mode } => {
            if mode & 0o111 == 0 {
                Err("binary lacks executable permission".to_owned())
            } else {
                Ok(())
            }
        },
    }
}

/// What is wrong with a file, if anything.
pub fn check_file(exists: bool) -> (r: Result<(), String>)
    ensures
        exists ==> r is Ok,
        !exists ==> (r matches Err(e) && e@ == "file not found"@),
{
    if exists {
        Ok(())
    } else {
        Err("file not found".to_owned())
    }
}

/// What is wrong with a directory, if anything, given the outcome of making it
/// where it did not exist, and whether it is a directory then.
pub fn check_dir(made: Result<(), String>, is_dir: bool) -> (r: Result<(), String>)
    ensures
        match made {
            Err(m) => r matches Err(e) && e@ == m@,
            Ok(_) => if is_dir {
                r is Ok
            } else {
                r matches Err(e) && e@ == "not a directory"@
            },
        },
{
    match made {
        Err(m) => Err(m),
        Ok(_) => {
            if is_dir {
                Ok(())
            } else {
                Err("not a directory".to_owned())
            }
        },
    }
}

/// What is wrong with a command, if anything, given whether it succeeded or why
/// it could not be run.
pub fn check_cmd(status: Result<bool, String>) -> (r: Result<(), String>)
    ensures
        match status {
            Ok(true) => r is Ok,
            Ok(false) => r matches Err(e) && e@ == "command exited with non-zero status"@,
            Err(m) => r matches Err(e) && e@ == m@,
        },
{
    match status {
        Ok(success) => {
            if success {
                Ok(())
            } else {
                Err("command exited with non-zero status".to_owned())
            }
        },
        Err(m) => Err(m),
    }
}

/// What is wrong with the device of the hypervisor, and what helps.
pub open spec fn kvm_advice(reason: Text) -> Text {
    reason
        + ". To fix:\n    sudo usermod -aG kvm $(whoami) && newgrp kvm\n  or:\n    sudo chmod 666 /dev/kvm"@
}

/// What is wrong with the device of the hypervisor, if anything.
pub fn check_kvm(opened: Result<(), String>) -> (r: Result<(), String>)
    ensures
        match opened {
            Ok(_) => r is Ok,
            Err(m) => r matches Err(e) && e@ == kvm_advice(m@),
        },
{
    match opened {
        Ok(_) => Ok(()),
        Err(m) => Err(
            cat2(
                m.as_str(),
                ". To fix:\n    sudo usermod -aG kvm $(whoami) && newgrp kvm\n  or:\n    sudo chmod 666 /dev/kvm",
            ),
        ),
    }
}

/// The line on an item of the readiness check.
pub open spec fn item_line(label: Text, result: Result<(), String>) -> Text {
    match result {
        Ok(_) => "  [OK]   "@ + label,
        Err(e) => "  [FAIL] "@ + label + " — "@ + e@,
    }
}

/// The line on an item of the readiness check.
pub fn check_line(label: &str, result: &Result<(), String>) -> (r: String)
    ensures
        r@ == item_line(label@, *result),
{
    match result {
        Ok(_) => cat2("  [OK]   ", label),
        Err(e) => cat4("  [FAIL] ", label, " — ", e.as_str()),
    }
}

/// The lines on the right to set up the network.
pub open spec fn net_admin_lines(available: bool, firecracker: Text, bridge: Text) -> Seq<Text> {
    if available {
        seq!["  [OK]   CAP_NET_ADMIN available"@]
    } else {
        seq![
            "  [WARN] CAP_NET_ADMIN not available — network setup will require root"@,
            "         To run without sudo:"@,
            "           sudo setcap cap_net_admin+eip "@ + firecracker,
            "         Or pre-create the bridge as root:"@,
            "           sudo ip link add "@ + bridge + " type bridge && sudo ip link set "@ + bridge
                + " up"@,
        ]
    }
}

/// The lines on the right to set up the network. Without it the check does not
/// fail.
pub fn net_admin_report(available: bool, firecracker: &str, bridge: &str) -> (r: Vec<String>)
    ensures
        strs(r@) == net_admin_lines(available, firecracker@, bridge@),
{
    let mut out: Vec<String> = Vec::new();
    if available {
        push_text(&mut out, "  [OK]   CAP_NET_ADMIN available");
    } else {
        push_text(
            &mut out,
            "  [WARN] CAP_NET_ADMIN not available — network setup will require root",
        );
        push_text(&mut out, "         To run without sudo:");
        push_text(&mut out, cat2("           sudo setcap cap_net_admin+eip ", firecracker).as_str());
        push_text(&mut out, "         Or pre-create the bridge as root:");
        push_text(
            &mut out,
            cat5(
                "           sudo ip link add ",
                bridge,
                " type bridge && sudo ip link set ",
                bridge,
                " up",
            ).as_str(),
        );
    }
    assert(strs(out@) =~= net_admin_lines(available, firecracker@, bridge@));
    out
}

/// Whether all results are good.
pub open spec fn all_good(results: Seq<Result<(), String>>) -> bool {
    forall|i: int| 0 <= i < results.len() ==> #[trigger] results[i] is Ok
}

/// The last line of the readiness check and the exit code: zero if and only if
/// every item is good.
pub fn check_verdict(results: &Vec<Result<(), String>>) -> (r: (&'static str, i32))
    ensures
        all_good(results@) ==> r.0@ == "✓ All checks passed. Coffer is ready to use."@ && r.1 == 0,
        !all_good(results@) ==> r.0@
            == "✗ Some checks failed. Please fix the issues above before running Coffer."@ && r.1
            == 1,
{
    let mut i: usize = 0;
    while i < results.len()
        invariant
            i <= results@.len(),
            forall|j: int| 0 <= j < i ==> #[trigger] results@[j] is Ok,
        decreases results@.len() - i,
    {
        if results[i].is_err() {
            assert(!(results@[i as int] is Ok));
            return (
                "✗ Some checks failed. Please fix the issues above before running Coffer.",
                1,
            );
        }
        i = i + 1;
    }
    ("✓ All checks passed. Coffer is ready to use.", 0)
}

// ---------------------------------------------------------------------
// Capabilities
// ---------------------------------------------------------------------

/// What follows the prefix in the last line that has it.
pub open spec fn last_with_prefix(lines: Seq<Text>, prefix: Text) -> Option<Text>
    decreases lines.len(),
{
    if lines.len() == 0 {
        None
    } else if prefix.is_prefix_of(lines.last()) {
        Some(lines.last().skip(prefix.len() as int))
    } else {
        last_with_prefix(lines.drop_last(), prefix)
    }
}

/// The user of a process, from the lines on its status.
pub open spec fn status_uid(lines: Seq<Text>) -> Option<nat> {
    match last_with_prefix(lines, "Uid:"@) {
        Some(v) => if words_of(v).len() > 0 {
            parsed(words_of(v)[0], 10, u32::MAX as nat)
        } else {
            None
        },
        None => None,
    }
}

/// The effective capabilities of a process, from the lines on its status.
pub open spec fn status_caps(lines: Seq<Text>) -> Option<nat> {
    match last_with_prefix(lines, "CapEff:"@) {
        Some(v) => parsed(trimmed(v), 16, u64::MAX as nat),
        None => None,
    }
}

/// Whether a process may administer the network: root may, and who has the
/// capability with the number twelve.
pub open spec fn has_net_admin(status: Text) -> bool {
    let lines = lines_of(status);
    ||| status_uid(lines) == Some(0nat)
    ||| (status_caps(lines) matches Some(caps) && caps / 4096 % 2 == 1)
}

/// What follows the prefix in the last line that has it.
fn find_last(lines: &Vec<String>, prefix: &str) -> (r: Option<String>)
    ensures
        match r {
            Some(v) => last_with_prefix(strs(lines@), prefix@) == Some(v@),
            None => last_with_prefix(strs(lines@), prefix@) is None,
        },
{
    let mut i: usize = lines.len();
    let ghost all = strs(lines@);
    assert(all.take(i as int) =~= all);
    let plen = prefix.unicode_len();
    while i > 0
        invariant
            i <= lines@.len(),
            all == strs(lines@),
            plen == prefix@.len(),
            last_with_prefix(all, prefix@) == last_with_prefix(all.take(i as int), prefix@),
        decreases i,
    {
        let line = lines[i - 1].as_str();
        assert(all.take(i as int).last() == line@);
        assert(all.take(i as int).drop_last() =~= all.take(i - 1));
        if starts_with(line, prefix) {
            let cs = chars_of(line);
            let v = text_of(&cs, plen, cs.len());
            assert(v@ =~= line@.skip(plen as int));
            return Some(v);
        }
        i = i - 1;
    }
    None
}

/// Whether a process may administer the network, from the text on its status.
pub fn check_cap_net_admin(status: &str) -> (r: bool)
    ensures
        r == has_net_admin(status@),
{
    let lines = split_lines(status);
    let root = match find_last(&lines, "Uid:") {
        Some(v) => {
            let words = split_words(v.as_str());
            if words.len() > 0 {
                assert(strs(words@)[0] == words@[0]@);
                match parse_text(words[0].as_str(), 10, u32::MAX as u64) {
                    Some(uid) => uid == 0,
                    None => false,
                }
            } else {
                false
            }
        },
        None => false,
    };
    if root {
        return true;
    }
    match find_last(&lines, "CapEff:") {
        Some(v) => match parse_text(trim_text(v.as_str()).as_str(), 16, u64::MAX) {
            Some(caps) => caps / 4096 % 2 == 1,
            None => false,
        },
        None => false,
    }
}

/// The capability is bit twelve of the set.
pub proof fn law_capability_bit(caps: u64)
    ensures
        (caps / 4096 % 2 == 1) == (caps & (1u64 << 12) != 0),
{
    assert((caps / 4096 % 2 == 1) == (caps & (1u64 << 12) != 0)) by (bit_vector);
}

// ---------------------------------------------------------------------
// Version
// ---------------------------------------------------------------------

/// `s` with each backslash that is followed by an `n` made a line feed.
pub open spec fn unescaped(s: Text) -> Text
    decreases s.len(),
{
    if s.len() == 0 {
        seq![]
    } else if s.len() >= 2 && s[0] == '\\' && s[1] == 'n' {
        seq!['\n'] + unescaped(s.skip(2))
    } else {
        seq![s[0]] + unescaped(s.drop_first())
    }
}

fn unescape(s: &str) -> (r: String)
    ensures
        r@ == unescaped(s@),
{
    let cs = chars_of(s);
    let mut out = String::new();
    let mut i: usize = 0;
    assert(cs@.skip(0) =~= s@);
    assert(out@ + unescaped(cs@.skip(0)) =~= unescaped(s@));
    while i < cs.len()
        invariant
            i <= cs@.len(),
            out@ + unescaped(cs@.skip(i as int)) == unescaped(s@),
        decreases cs@.len() - i,
    {
        let ghost rest = cs@.skip(i as int);
        let ghost before = out@;
        if i + 1 < cs.len() && cs[i] == '\\' && cs[i + 1] == 'n' {
            out.push('\n');
            assert(rest.skip(2) =~= cs@.skip(i + 2));
            assert(before.push('\n') + unescaped(cs@.skip(i + 2)) =~= before + (seq!['\n']
                + unescaped(cs@.skip(i + 2))));
            i = i + 2;
        } else {
            out.push(cs[i]);
            assert(rest.drop_first() =~= cs@.skip(i + 1));
            assert(before.push(rest[0]) + unescaped(cs@.skip(i + 1)) =~= before + (seq![rest[0]]
                + unescaped(cs@.skip(i + 1))));
            i = i + 1;
        }
    }
    assert(out@ + unescaped(cs@.skip(i as int)) =~= out@);
    out
}

/// The lines on the version of the program.
pub open spec fn version_text(version: Text, commit: Text, log: Text) -> Seq<Text> {
    seq![
        "coffer-cli "@ + version,
        "git commit: "@ + commit,
        ""@,
        "Recent commits:"@,
    ] + lines_of(unescaped(log)).map_values(|l: Text| "  "@ + l)
}

/// The lines on the version of the program, whose log has its line breaks
/// escaped.
pub fn version_lines(version: &str, commit: &str, log: &str) -> (r: Vec<String>)
    ensures
        strs(r@) == version_text(version@, commit@, log@),
{
    let mut out: Vec<String> = Vec::new();
    push_text(&mut out, cat2("coffer-cli ", version).as_str());
    push_text(&mut out, cat2("git commit: ", commit).as_str());
    push_text(&mut out, "");
    push_text(&mut out, "Recent commits:");
    let ghost head = strs(out@);
    let lines = split_lines(unescape(log).as_str());
    let ghost body = strs(lines@).map_values(|l: Text| "  "@ + l);
    let mut i: usize = 0;
    assert(strs(out@) =~= head + body.take(0));
    while i < lines.len()
        invariant
            i <= lines@.len(),
            body == strs(lines@).map_values(|l: Text| "  "@ + l),
            strs(out@) == head + body.take(i as int),
        decreases lines@.len() - i,
    {
        let line = cat2("  ", lines[i].as_str());
        push_text(&mut out, line.as_str());
        proof {
            assert(body[i as int] == line@);
            assert(body.take(i + 1) =~= body.take(i as int).push(line@));
            assert(strs(out@) =~= head + body.take(i + 1));
        }
        i = i + 1;
    }
    assert(body.take(i as int) =~= body);
    assert(strs(out@) =~= version_text(version@, commit@, log@));
    out
}

// ---------------------------------------------------------------------
// Laws
// ---------------------------------------------------------------------

proof fn lemma_last_wins(v: Seq<(Text, Text)>, i: int)
    requires
        0 <= i < v.len(),
        forall|j: int| i < j < v.len() ==> (#[trigger] v[j]).0 != v[i].0,
    ensures
        env_of(v).dom().contains(v[i].0),
        env_of(v)[v[i].0] == v[i].1,
    decreases v.len(),
{
    if i < v.len() - 1 {
        let w = v.drop_last();
        assert forall|j: int| i < j < w.len() implies (#[trigger] w[j]).0 != w[i].0 by {
            assert(w[j] == v[j]);
        }
        lemma_last_wins(w, i);
        assert(v[v.len() - 1].0 != v[i].0);
    }
}

/// Of the assignments to one variable the last one counts, and every variable
/// that the command gets was assigned; each is set once.
pub proof fn law_last_assignment_counts(
    assignments: Vec<(String, String)>,
    r: Vec<(String, String)>,
    i: int,
    k: int,
)
    requires
        call_ensures(collect_env, (assignments,), r),
        0 <= i < assignments@.len(),
        forall|j: int|
            i < j < assignments@.len() ==> (#[trigger] assignments@[j]).0@ != assignments@[i].0@,
        0 <= k < r@.len(),
    ensures
        exists|n: int|
            0 <= n < r@.len() && (#[trigger] r@[n]).0@ == assignments@[i].0@ && r@[n].1@
                == assignments@[i].1@,
        exists|n: int|
            0 <= n < assignments@.len() && (#[trigger] assignments@[n]).0@ == r@[k].0@
                && assignments@[n].1@ == r@[k].1@,
        forall|n: int| 0 <= n < r@.len() && n != k ==> (#[trigger] r@[n]).0@ != r@[k].0@,
{
    let v = pairs(assignments@);
    let w = pairs(r@);
    assert forall|j: int| i < j < v.len() implies (#[trigger] v[j]).0 != v[i].0 by {
        assert(v[j].0 == assignments@[j].0@);
    }
    lemma_last_wins(v, i);
    lemma_env_names(w, v[i].0);
    let n = choose|n: int| 0 <= n < w.len() && (#[trigger] w[n]).0 == v[i].0;
    assert forall|j: int| n < j < w.len() implies (#[trigger] w[j]).0 != w[n].0 by {}
    lemma_last_wins(w, n);
    assert(r@[n].0@ == w[n].0 && r@[n].1@ == w[n].1);
    assert forall|j: int| k < j < w.len() implies (#[trigger] w[j]).0 != w[k].0 by {}
    lemma_last_wins(w, k);
    lemma_env_values(v, w[k].0);
    let a = choose|a: int|
        0 <= a < v.len() && (#[trigger] v[a]).0 == w[k].0 && v[a].1 == env_of(v)[w[k].0];
    assert(assignments@[a].0@ == v[a].0 && assignments@[a].1@ == v[a].1);
    assert forall|n: int| 0 <= n < r@.len() && n != k implies (#[trigger] r@[n]).0@ != r@[k].0@ by {
        assert(w[n].0 == r@[n].0@ && w[k].0 == r@[k].0@);
    }
}

proof fn lemma_env_values(v: Seq<(Text, Text)>, name: Text)
    requires
        env_of(v).dom().contains(name),
    ensures
        exists|i: int| 0 <= i < v.len() && (#[trigger] v[i]).0 == name && v[i].1 == env_of(v)[name],
    decreases v.len(),
{
    if v.len() > 0 {
        let w = v.drop_last();
        if v.last().0 == name {
            assert(v[v.len() - 1].0 == name);
        } else {
            lemma_env_values(w, name);
            let i = choose|i: int|
                0 <= i < w.len() && (#[trigger] w[i]).0 == name && w[i].1 == env_of(w)[name];
            assert(v[i] == w[i]);
        }
    }
}

/// An assignment is cut at its first equals sign, and a mapping at its first
/// colon: what comes apart, put together again, is what was given, and without
/// the sign there is nothing to cut.
pub proof fn law_arguments_come_apart(
    s: &str,
    assignment: Result<(String, String), String>,
    mapping: Result<(String, String), String>,
)
    requires
        call_ensures(parse_key_val, (s,), assignment),
        call_ensures(parse_file_mapping, (s,), mapping),
    ensures
        assignment is Ok <==> s@.contains('='),
        assignment matches Ok(p) ==> p.0@ + seq!['='] + p.1@ == s@ && !p.0@.contains('='),
        mapping is Ok <==> s@.contains(':'),
        mapping matches Ok(p) ==> p.0@ + seq![':'] + p.1@ == s@ && !p.0@.contains(':'),
        assignment matches Err(e) ==> crate::text::occurs(e@, s@),
        mapping matches Err(e) ==> crate::text::occurs(e@, s@),
{
    crate::text::lemma_first_index(s@, '=');
    crate::text::lemma_first_index(s@, ':');
    let i = first_index(s@, '=');
    let j = first_index(s@, ':');
    if assignment is Ok {
        assert(s@.take(i) + seq!['='] + s@.skip(i + 1) =~= s@);
    } else {
        let e = assignment->Err_0@;
        let n = "invalid KEY=VALUE: no `=` found in `"@.len() as int;
        assert(e.subrange(n, n + s@.len()) =~= s@);
        assert(crate::text::occurs_at(e, s@, n));
    }
    if mapping is Ok {
        assert(s@.take(j) + seq![':'] + s@.skip(j + 1) =~= s@);
    } else {
        let e = mapping->Err_0@;
        let n = "invalid mapping format, expected `SRC:DST`: `"@.len() as int;
        assert(e.subrange(n, n + s@.len()) =~= s@);
        assert(crate::text::occurs_at(e, s@, n));
    }
}

/// A setting of the environment replaces its own field of the configuration, and
/// what is not set is as it was.
pub proof fn law_settings_replace_their_own(base: RuntimeConfig, env: Overrides, r: RuntimeConfig)
    requires
        call_ensures(build_config, (base, env), r),
    ensures
        forall|v: String| env.firecracker_path == Some(v) ==> r.firecracker_path == v,
        env.firecracker_path is None ==> r.firecracker_path == base.firecracker_path,
        forall|v: String| env.kernel_path == Some(v) ==> r.kernel_path == v,
        env.kernel_path is None ==> r.kernel_path == base.kernel_path,
        forall|v: String| env.template_dir == Some(v) ==> r.template_dir == v,
        env.template_dir is None ==> r.template_dir == base.template_dir,
        forall|v: String| env.socket_dir == Some(v) ==> r.socket_dir == v,
        env.socket_dir is None ==> r.socket_dir == base.socket_dir,
        forall|v: String| env.agent_bin == Some(v) ==> r.agent_bin == v,
        env.agent_bin is None ==> r.agent_bin == base.agent_bin,
        r.jailer_path == base.jailer_path,
        r.jailer == base.jailer,
        r.pool == base.pool,
        r.network == base.network,
        r.limits == base.limits,
        r.vmm == base.vmm,
{
}

/// The table of templates has, below its head, one row for each template in
/// order, which begins with the identifier and ends with the size of the memory,
/// and between them names the template and its processors.
pub proof fn law_table_has_a_row_for_each(list: &Vec<Template>, r: Vec<String>, i: int)
    requires
        call_ensures(template_list_lines, (list,), r),
        0 <= i < list@.len(),
    ensures
        r@.len() == list@.len() + 2,
        list@[i].id@.is_prefix_of(r@[i + 2]@),
        dec(list@[i].memory_mib as nat).is_suffix_of(r@[i + 2]@),
        crate::text::occurs(r@[i + 2]@, list@[i].name@),
        crate::text::occurs(r@[i + 2]@, dec(list@[i].vcpus as nat)),
{
    let t = list@[i];
    let v = template_views(list@);
    let lines = strs(r@);
    assert(v[i] == t@);
    assert(lines.len() == list@.len() + 2);
    let row = lines[i + 2];
    assert(row == r@[i + 2]@);
    assert(row == row_of(t@));
    let a = left_aligned(t.id@, 28);
    let b = left_aligned(t.name@, 16);
    let c = right_aligned(dec(t.vcpus as nat), 6);
    let d = right_aligned(dec(t.memory_mib as nat), 10);
    let mem = dec(t.memory_mib as nat);
    let cpus = dec(t.vcpus as nat);
    assert(row == a + " "@ + b + " "@ + c + " "@ + d);
    assert(row.subrange(0, t.id@.len() as int) =~= t.id@);
    assert(row.subrange(row.len() - mem.len(), row.len() as int) =~= mem);
    let n = (a + " "@).len() as int;
    assert(row.subrange(n, n + t.name@.len()) =~= t.name@);
    assert(crate::text::occurs_at(row, t.name@, n));
    let k = (a + " "@ + b + " "@ + c).len() - cpus.len();
    assert(row.subrange(k, k + cpus.len()) =~= cpus);
    assert(crate::text::occurs_at(row, cpus, k));
}

/// The description of a template shows each of its parts on a line of its own, at
/// the end of the line.
pub proof fn law_description_shows_each_part(t: &Template, r: Vec<String>)
    requires
        call_ensures(template_info_lines, (t,), r),
    ensures
        r@.len() == 8 + (if t.metadata@.len() == 0 {
            0
        } else {
            1 + t.metadata@.len()
        }),
        r@[0]@ == "Template: "@ + t.id@,
        t.name@.is_suffix_of(r@[1]@),
        t.kernel_path@.is_suffix_of(r@[2]@),
        t.rootfs_path@.is_suffix_of(r@[3]@),
        (t.snapshot_state_path@ + " / "@ + t.snapshot_mem_path@).is_suffix_of(r@[4]@),
        t.kernel_args@.is_suffix_of(r@[5]@),
        dec(t.vcpus as nat).is_suffix_of(r@[6]@),
        (dec(t.memory_mib as nat) + " MiB"@).is_suffix_of(r@[7]@),
        forall|i: int|
            0 <= i < t.metadata@.len() ==> (#[trigger] r@[9 + i])@ == "    "@ + t.metadata@[i].0@
                + ": "@ + t.metadata@[i].1@,
{
    let lines = strs(r@);
    let meta = pairs(t.metadata@);
    let d = template_details(t@);
    assert(lines == d);
    assert(lines.len() == r@.len());
    assert forall|i: int| 0 <= i < r@.len() implies (#[trigger] r@[i])@ == d[i] by {
        assert(lines[i] == r@[i]@);
    }
    let l1 = r@[1]@;
    assert(l1.subrange(l1.len() - t.name@.len(), l1.len() as int) =~= t.name@);
    let l2 = r@[2]@;
    assert(l2.subrange(l2.len() - t.kernel_path@.len(), l2.len() as int) =~= t.kernel_path@);
    let l3 = r@[3]@;
    assert(l3.subrange(l3.len() - t.rootfs_path@.len(), l3.len() as int) =~= t.rootfs_path@);
    let l4 = r@[4]@;
    let snap = t.snapshot_state_path@ + " / "@ + t.snapshot_mem_path@;
    assert(l4.subrange(l4.len() - snap.len(), l4.len() as int) =~= snap);
    let l5 = r@[5]@;
    assert(l5.subrange(l5.len() - t.kernel_args@.len(), l5.len() as int) =~= t.kernel_args@);
    let l6 = r@[6]@;
    let cpus = dec(t.vcpus as nat);
    assert(l6.subrange(l6.len() - cpus.len(), l6.len() as int) =~= cpus);
    let l7 = r@[7]@;
    let mem = dec(t.memory_mib as nat) + " MiB"@;
    assert(l7.subrange(l7.len() - mem.len(), l7.len() as int) =~= mem);
    assert forall|i: int| 0 <= i < t.metadata@.len() implies (#[trigger] r@[9 + i])@ == "    "@
        + t.metadata@[i].0@ + ": "@ + t.metadata@[i].1@ by {
        assert(meta[i] == (t.metadata@[i].0@, t.metadata@[i].1@));
        assert(r@[9 + i]@ == d[9 + i]);
    }
}

/// The state of the pool is shown with the number of sandboxes in use, and for
/// each template a line that begins with its identifier and ends with the number
/// of its sandboxes that wait.
pub proof fn law_pool_is_shown(in_use: usize, counts: &Vec<(String, usize)>, r: Vec<String>, i: int)
    requires
        call_ensures(pool_status_lines, (in_use, counts), r),
        0 <= i < counts@.len(),
    ensures
        r@.len() == counts@.len() + 6,
        dec(in_use as nat).is_suffix_of(r@[2]@),
        ("  "@ + counts@[i].0@).is_prefix_of(r@[i + 6]@),
        dec(counts@[i].1 as nat).is_suffix_of(r@[i + 6]@),
{
    let lines = strs(r@);
    let v = count_views(counts@);
    assert(v[i] == (counts@[i].0@, counts@[i].1 as nat));
    assert(lines == pool_lines(in_use as nat, v));
    assert(v.len() == counts@.len());
    assert(lines.len() == counts@.len() + 6);
    assert(lines.len() == r@.len());
    assert(lines[2] == r@[2]@);
    assert(lines[i + 6] == r@[i + 6]@);
    assert(lines[i + 6] == count_line(v[i].0, v[i].1));
    let l = r@[2]@;
    let n = dec(in_use as nat);
    assert(l.subrange(l.len() - n.len(), l.len() as int) =~= n);
    let m = r@[i + 6]@;
    let p = "  "@ + counts@[i].0@;
    assert(m.subrange(0, p.len() as int) =~= p);
    let q = dec(counts@[i].1 as nat);
    assert(m.subrange(m.len() - q.len(), m.len() as int) =~= q);
}

/// The readiness check looks at each file and directory of the configuration that
/// a sandbox needs: the programs, the jailer where there is one, the kernel, the
/// agent, the device of the hypervisor, and the directory of the templates. The
/// label names what is looked at.
pub proof fn law_check_looks_at_everything(c: &RuntimeConfig, r: Vec<CheckItem>)
    requires
        call_ensures(check_plan, (c,), r),
    ensures
        exists|i: int|
            0 <= i < r@.len() && (#[trigger] r@[i]).probe@ == ProbeView::Binary(c.firecracker_path@),
        exists|i: int|
            0 <= i < r@.len() && (#[trigger] r@[i]).probe@ == ProbeView::Binary(c.kernel_path@),
        exists|i: int|
            0 <= i < r@.len() && (#[trigger] r@[i]).probe@ == ProbeView::Binary(c.agent_bin@),
        exists|i: int| 0 <= i < r@.len() && (#[trigger] r@[i]).probe@ == ProbeView::Kvm,
        exists|i: int|
            0 <= i < r@.len() && (#[trigger] r@[i]).probe@ == ProbeView::Dir(c.template_dir@),
        c.jailer_path matches Some(j) ==> exists|i: int|
            0 <= i < r@.len() && (#[trigger] r@[i]).probe@ == ProbeView::Binary(j@),
        r@.len() == 10 + (if c.jailer_path is Some {
            1int
        } else {
            0int
        }),
        forall|i: int|
            0 <= i < r@.len() ==> match (#[trigger] r@[i]).probe@ {
                ProbeView::Binary(p) => crate::text::occurs(r@[i].label@, p),
                ProbeView::Dir(p) => crate::text::occurs(r@[i].label@, p),
                ProbeView::Command { program, .. } => r@[i].label@ == program,
                ProbeView::Kvm => true,
            },
{
    let v = check_views(r@);
    assert(v == check_items(*c));
    assert(v.len() == r@.len());
    assert forall|i: int| 0 <= i < r@.len() implies v[i] == ((#[trigger] r@[i]).label@, r@[i].probe@) by {}
    let k: int = if c.jailer_path is Some {
        1
    } else {
        0
    };
    assert(v[0] == (r@[0].label@, r@[0].probe@));
    if c.jailer_path is Some {
        assert(v[1] == (r@[1].label@, r@[1].probe@));
    }
    assert(v[1 + k] == (r@[1 + k].label@, r@[1 + k].probe@));
    assert(v[2 + k] == (r@[2 + k].label@, r@[2 + k].probe@));
    assert(v[3 + k] == (r@[3 + k].label@, r@[3 + k].probe@));
    assert(v[4 + k] == (r@[4 + k].label@, r@[4 + k].probe@));
    assert forall|i: int| 0 <= i < r@.len() implies match (#[trigger] r@[i]).probe@ {
        ProbeView::Binary(p) => crate::text::occurs(r@[i].label@, p),
        ProbeView::Dir(p) => crate::text::occurs(r@[i].label@, p),
        ProbeView::Command { program, .. } => r@[i].label@ == program,
        ProbeView::Kvm => true,
    } by {
        assert(v[i] == (r@[i].label@, r@[i].probe@));
        let l = v[i].0;
        let at: int = if i == 0 {
            "Firecracker binary ("@.len() as int
        } else if i == k {
            "Jailer binary ("@.len() as int
        } else if i == 1 + k {
            "Kernel image ("@.len() as int
        } else if i == 2 + k {
            "Agent binary ("@.len() as int
        } else {
            "Template directory ("@.len() as int
        };
        match v[i].1 {
            ProbeView::Binary(p) | ProbeView::Dir(p) => {
                assert(l.subrange(at, at + p.len()) =~= p);
                assert(crate::text::occurs_at(l, p, at));
            },
            _ => {},
        }
    }
}

/// The line on an item says whether it is good, names the item and, where it is
/// not good, ends with the reason; the whole is good if and only if every item is.
pub proof fn law_check_tells_what_is_wrong(
    label: &str,
    result: &Result<(), String>,
    line: String,
    results: &Vec<Result<(), String>>,
    verdict: (&'static str, i32),
)
    requires
        call_ensures(check_line, (label, result), line),
        call_ensures(check_verdict, (results,), verdict),
    ensures
        crate::text::occurs(line@, label@),
        *result is Ok <==> "  [OK]   "@.is_prefix_of(line@),
        *result matches Err(e) ==> "  [FAIL] "@.is_prefix_of(line@) && e@.is_suffix_of(line@),
        verdict.1 == 0 <==> forall|i: int| 0 <= i < results@.len() ==> #[trigger] results@[i] is Ok,
{
    reveal_strlit("  [OK]   ");
    reveal_strlit("  [FAIL] ");
    let t = line@;
    assert(t.subrange(9, 9int + label@.len()) =~= label@);
    assert(crate::text::occurs_at(t, label@, 9));
    match result {
        Ok(_) => {
            assert(t.subrange(0, 9) =~= "  [OK]   "@);
        },
        Err(e) => {
            assert(t.subrange(0, 9) =~= "  [FAIL] "@);
            assert(t.subrange(0, 9)[3] == 'F');
            assert(t.subrange(t.len() - e@.len(), t.len() as int) =~= e@);
        },
    }
}

/// A template is removed only where it exists, and only with a yes, given ahead
/// or as the answer; the answer counts in letters of either case.
pub proof fn law_removal_needs_a_yes(id: &str, found: bool, yes: bool, r: RemoveStep)
    requires
        call_ensures(template_rm, (id, found, yes), r),
    ensures
        r is Remove <==> found && yes,
        r is Ask <==> found && !yes,
        r matches RemoveStep::Ask(q) ==> crate::text::occurs(q@, id@),
        r matches RemoveStep::Fail(e) ==> crate::text::occurs(e@, id@),
{
    match r {
        RemoveStep::Ask(q) => {
            let n = "Remove template '"@.len() as int;
            assert(q@.subrange(n, n + id@.len()) =~= id@);
            assert(crate::text::occurs_at(q@, id@, n));
        },
        RemoveStep::Fail(e) => {
            let n = "Template '"@.len() as int;
            assert(e@.subrange(n, n + id@.len()) =~= id@);
            assert(crate::text::occurs_at(e@, id@, n));
        },
        RemoveStep::Remove => {},
    }
}

/// A file can be run if and only if its owner, its group or others may.
pub proof fn law_executable(mode: u32, r: Result<(), String>)
    requires
        call_ensures(check_binary, (FileFacts::Found { mode },), r),
    ensures
        r is Ok <==> mode & 0o100 != 0 || mode & 0o010 != 0 || mode & 0o001 != 0,
{
    assert((mode & 0o111 != 0) == (mode & 0o100 != 0 || mode & 0o010 != 0 || mode & 0o001 != 0))
        by (bit_vector);
}

/// The exit code of the command is the status of the process, as far as a status
/// holds it.
pub proof fn law_status_is_the_low_byte(code: i32, r: u8)
    requires
        call_ensures(exit_status, (code,), r),
    ensures
        (code - r) % 256 == 0,
{
    let u: u32 = code as u32;
    assert(code as u8 == u as u8) by (bit_vector)
        requires
            u == code as u32,
    ;
    assert(u as u8 == u % 256) by (bit_vector);
    assert(code >= 0 ==> u == code) by (bit_vector)
        requires
            u == code as u32,
    ;
    assert(code < 0 ==> u == code + 0x1_0000_0000i64) by (bit_vector)
        requires
            u == code as u32,
    ;
}

proof fn lemma_last_prefix(lines: Seq<Text>, prefix: Text, i: int)
    requires
        0 <= i < lines.len(),
        prefix.is_prefix_of(lines[i]),
        forall|k: int| i < k < lines.len() ==> !prefix.is_prefix_of(#[trigger] lines[k]),
    ensures
        last_with_prefix(lines, prefix) == Some(lines[i].skip(prefix.len() as int)),
    decreases lines.len(),
{
    if i < lines.len() - 1 {
        assert(!prefix.is_prefix_of(lines[lines.len() - 1]));
        let w = lines.drop_last();
        assert forall|k: int| i < k < w.len() implies !prefix.is_prefix_of(#[trigger] w[k]) by {
            assert(w[k] == lines[k]);
        }
        lemma_last_prefix(w, prefix, i);
    }
}

proof fn lemma_digits_are_no_space(s: Text, base: nat)
    requires
        all_digits(s, base),
    ensures
        forall|i: int| 0 <= i < s.len() ==> !is_space(#[trigger] s[i]),
{
    assert forall|i: int| 0 <= i < s.len() implies !is_space(#[trigger] s[i]) by {
        assert(is_digit(s[i], base));
    }
}

/// Whoever is root, or has the capability, may administer the network, and nobody
/// else: the user and the capabilities are read off the last lines that give them.
pub proof fn law_who_may_administer(
    lines: Seq<Text>,
    status: &str,
    i: int,
    j: int,
    uid: u32,
    others: Text,
    hex: Text,
    caps: u64,
    r: bool,
)
    requires
        forall|k: int|
            0 <= k < lines.len() ==> !(#[trigger] lines[k]).contains('\n') && (lines[k].len() == 0
                || lines[k].last() != '\r'),
        status@ == crate::text::with_feeds(lines),
        0 <= i < lines.len(),
        lines[i] == "Uid:"@ + (seq!['\t'] + dec(uid as nat) + seq!['\t'] + others),
        forall|k: int| i < k < lines.len() ==> !"Uid:"@.is_prefix_of(#[trigger] lines[k]),
        0 <= j < lines.len(),
        lines[j] == "CapEff:"@ + (seq!['\t'] + hex),
        forall|k: int| j < k < lines.len() ==> !"CapEff:"@.is_prefix_of(#[trigger] lines[k]),
        all_digits(hex, 16),
        digits_value(hex, 16) == caps,
        call_ensures(check_cap_net_admin, (status,), r),
    ensures
        r <==> uid == 0 || caps & (1u64 << 12) != 0,
{
    crate::text::lemma_lines(lines);
    let u = seq!['\t'] + dec(uid as nat) + seq!['\t'] + others;
    let v = seq!['\t'] + hex;
    let a = "Uid:"@;
    let b = "CapEff:"@;
    assert(lines[i].subrange(0, a.len() as int) =~= a);
    assert(lines[j].subrange(0, b.len() as int) =~= b);
    lemma_last_prefix(lines, a, i);
    lemma_last_prefix(lines, b, j);
    assert(lines[i].skip(a.len() as int) =~= u);
    assert(lines[j].skip(b.len() as int) =~= v);
    crate::numeric::lemma_dec_digits(uid as nat);
    lemma_digits_are_no_space(dec(uid as nat), 10);
    lemma_digits_are_no_space(hex, 16);
    let w = dec(uid as nat);
    let tail = seq!['\t'] + others;
    let tab = seq!['\t'];
    assert(is_space('\t'));
    assert(u =~= tab + (w + tail));
    crate::text::lemma_trim_start_is(tab, w + tail);
    crate::net::lemma_word_len_of(w, tail);
    assert((w + tail).take(w.len() as int) =~= w);
    assert(words_of(u)[0] == w);
    crate::numeric::law_parse_printed(uid as nat, u32::MAX as nat);
    crate::text::lemma_trim_start_is(tab, hex);
    crate::text::lemma_trim_end_is(hex, seq![]);
    assert(hex + Seq::<char>::empty() =~= hex);
    assert(trimmed(v) == hex);
    assert(is_digit(hex[0], 16));
    assert(unsigned_part(hex) == hex);
    law_capability_bit(caps);
}

/// A yes is one letter or the word, in letters of either case, with any white
/// space around it.
pub proof fn law_yes(before: Text, word: Text, after: Text, answer: &str, r: bool)
    requires
        crate::text::all_space(before),
        crate::text::all_space(after),
        word.len() > 0 ==> !is_space(word[0]) && !is_space(word.last()),
        word.len() == 0 ==> after.len() == 0,
        answer@ == before + word + after,
        call_ensures(confirmed, (answer,), r),
    ensures
        r <==> {
            ||| word.len() == 1 && (word[0] == 'y' || word[0] == 'Y')
            ||| word.len() == 3 && (word[0] == 'y' || word[0] == 'Y') && (word[1] == 'e' || word[1]
                == 'E') && (word[2] == 's' || word[2] == 'S')
        },
{
    assert(answer@ =~= before + (word + after));
    crate::text::lemma_trim_start_is(before, word + after);
    crate::text::lemma_trim_end_is(word, after);
    reveal_strlit("y");
    reveal_strlit("yes");
    let low = word.map_values(|c: char| ascii_lower(c));
    if word.len() == 1 && (word[0] == 'y' || word[0] == 'Y') {
        assert(low =~= "y"@);
    }
    if word.len() == 3 && (word[0] == 'y' || word[0] == 'Y') && (word[1] == 'e' || word[1] == 'E')
        && (word[2] == 's' || word[2] == 'S') {
        assert(low =~= "yes"@);
    }
    if low == "y"@ {
        assert(low[0] == 'y');
        assert(low.len() == 1);
    }
    if low == "yes"@ {
        assert(low.len() == 3);
        assert(low[0] == 'y' && low[1] == 'e' && low[2] == 's');
    }
}

/// A text with its line feeds escaped.
pub open spec fn escaped(s: Text) -> Text
    decreases s.len(),
{
    if s.len() == 0 {
        seq![]
    } else if s[0] == '\n' {
        seq!['\\', 'n'] + escaped(s.drop_first())
    } else {
        seq![s[0]] + escaped(s.drop_first())
    }
}

proof fn lemma_unescape(s: Text)
    requires
        !s.contains('\\'),
    ensures
        unescaped(escaped(s)) == s,
    decreases s.len(),
{
    if s.len() > 0 {
        let t = s.drop_first();
        assert forall|i: int| 0 <= i < t.len() implies t[i] != '\\' by {
            assert(t[i] == s[i + 1]);
            assert(s.contains(s[i + 1]));
        }
        lemma_unescape(t);
        let e = escaped(s);
        assert(s.contains(s[0]));
        if s[0] == '\n' {
            assert(e.skip(2) =~= escaped(t));
            assert(seq!['\n'] + t =~= s);
        } else {
            assert(e.drop_first() =~= escaped(t));
            assert(e[0] == s[0]);
            assert(seq![s[0]] + t =~= s);
        }
    } else {
        assert(unescaped(escaped(s)) =~= s);
    }
}

/// The version names the release and the commit, and then shows the log line by
/// line, as it was before its line feeds were escaped.
pub proof fn law_version_shows_the_log(
    version: &str,
    commit: &str,
    log: &str,
    entries: Seq<Text>,
    r: Vec<String>,
    i: int,
)
    requires
        call_ensures(version_lines, (version, commit, log), r),
        forall|k: int|
            0 <= k < entries.len() ==> !(#[trigger] entries[k]).contains('\n') && (entries[k].len()
                == 0 || entries[k].last() != '\r'),
        !crate::text::with_feeds(entries).contains('\\'),
        log@ == escaped(crate::text::with_feeds(entries)),
        0 <= i < entries.len(),
    ensures
        r@.len() == 4 + entries.len(),
        version@.is_suffix_of(r@[0]@),
        commit@.is_suffix_of(r@[1]@),
        entries[i].is_suffix_of(r@[4 + i]@),
{
    crate::text::lemma_lines(entries);
    lemma_unescape(crate::text::with_feeds(entries));
    let lines = strs(r@);
    assert(lines == version_text(version@, commit@, log@));
    assert(lines.len() == r@.len());
    assert(lines[0] == r@[0]@);
    assert(lines[1] == r@[1]@);
    assert(lines[4 + i] == r@[4 + i]@);
    assert(lines[4 + i] == "  "@ + entries[i]);
    let a = r@[0]@;
    assert(a.subrange(a.len() - version@.len(), a.len() as int) =~= version@);
    let b = r@[1]@;
    assert(b.subrange(b.len() - commit@.len(), b.len() as int) =~= commit@);
    let c = r@[4 + i]@;
    assert(c.subrange(c.len() - entries[i].len(), c.len() as int) =~= entries[i]);
}

/// The readiness check runs each tool that a build or the network needs, in a way
/// that changes nothing.
pub proof fn law_check_runs_the_tools(c: &RuntimeConfig, r: Vec<CheckItem>)
    requires
        call_ensures(check_plan, (c,), r),
    ensures
        ({
            let n = r@.len() as int;
            &&& n >= 5
            &&& r@[n - 5].probe@ == (ProbeView::Command { program: "mkfs.erofs"@, arg: "--help"@ })
            &&& r@[n - 4].probe@ == (ProbeView::Command { program: "skopeo"@, arg: "--version"@ })
            &&& r@[n - 3].probe@ == (ProbeView::Command { program: "umoci"@, arg: "--version"@ })
            &&& r@[n - 2].probe@ == (ProbeView::Command { program: "ip"@, arg: "-V"@ })
            &&& r@[n - 1].probe@ == (ProbeView::Command { program: "iptables"@, arg: "--version"@ })
        }),
{
    let v = check_views(r@);
    assert(v == check_items(*c));
    let n = r@.len() as int;
    assert(v.len() == n);
    assert(v[n - 5] == r@[n - 5]@);
    assert(v[n - 4] == r@[n - 4]@);
    assert(v[n - 3] == r@[n - 3]@);
    assert(v[n - 2] == r@[n - 2]@);
    assert(v[n - 1] == r@[n - 1]@);
}

/// Who may not set up the network is told how to get there, with the program that
/// needs the right and the bridge that could be made ahead.
pub proof fn law_missing_right_is_explained(
    available: bool,
    firecracker: &str,
    bridge: &str,
    r: Vec<String>,
)
    requires
        call_ensures(net_admin_report, (available, firecracker, bridge), r),
    ensures
        available ==> r@.len() == 1 && "  [OK]   "@.is_prefix_of(r@[0]@),
        !available ==> r@.len() == 5 && firecracker@.is_suffix_of(r@[2]@) && crate::text::occurs(
            r@[4]@,
            "ip link add "@ + bridge@ + " type bridge"@,
        ),
{
    let v = strs(r@);
    assert(v == net_admin_lines(available, firecracker@, bridge@));
    assert(v.len() == r@.len());
    if available {
        assert(v[0] == r@[0]@);
        reveal_strlit("  [OK]   CAP_NET_ADMIN available");
        reveal_strlit("  [OK]   ");
        assert(v[0].subrange(0, 9) =~= "  [OK]   "@);
    } else {
        assert(v[2] == r@[2]@);
        assert(v[4] == r@[4]@);
        let l = v[2];
        assert(l.subrange(l.len() - firecracker@.len(), l.len() as int) =~= firecracker@);
        reveal_strlit("           sudo ip link add ");
        reveal_strlit("ip link add ");
        reveal_strlit(" type bridge");
        reveal_strlit(" type bridge && sudo ip link set ");
        let m = v[4];
        let s = "ip link add "@ + bridge@ + " type bridge"@;
        assert(m.subrange(16, 16int + s.len()) =~= s);
        assert(crate::text::occurs_at(m, s, 16));
    }
}

/// A built template is told with its identifier, its name and its root file system,
/// each on a line of its own.
pub proof fn law_built_template_is_told(t: &Template, r: Vec<String>)
    requires
        call_ensures(template_built_lines, (t,), r),
    ensures
        r@.len() == 4,
        t.id@.is_suffix_of(r@[1]@),
        t.name@.is_suffix_of(r@[2]@),
        t.rootfs_path@.is_suffix_of(r@[3]@),
{
    let v = strs(r@);
    assert(v.len() == r@.len());
    assert(v[1] == r@[1]@ && v[2] == r@[2]@ && v[3] == r@[3]@);
    let i = "  ID:      "@.len() as int;
    let n = "  Name:    "@.len() as int;
    let f = "  Rootfs:  "@.len() as int;
    assert(r@[1]@.subrange(i, r@[1]@.len() as int) =~= t.id@);
    assert(r@[2]@.subrange(n, r@[2]@.len() as int) =~= t.name@);
    assert(r@[3]@.subrange(f, r@[3]@.len() as int) =~= t.rootfs_path@);
}

/// What is looked at is in order exactly where the file is there, the directory is
/// one, the command ended well and the device opened; a reason that came along is
/// passed on.
pub proof fn law_single_checks(
    exists: bool,
    file: Result<(), String>,
    made: Result<(), String>,
    is_dir: bool,
    dir: Result<(), String>,
    status: Result<bool, String>,
    cmd: Result<(), String>,
    opened: Result<(), String>,
    kvm: Result<(), String>,
)
    requires
        call_ensures(check_file, (exists,), file),
        call_ensures(check_dir, (made, is_dir), dir),
        call_ensures(check_cmd, (status,), cmd),
        call_ensures(check_kvm, (opened,), kvm),
    ensures
        file is Ok <==> exists,
        dir is Ok <==> made is Ok && is_dir,
        cmd is Ok <==> status == Ok::<bool, String>(true),
        kvm is Ok <==> opened is Ok,
        made matches Err(m) ==> dir->Err_0@ == m@,
        status matches Err(m) ==> cmd->Err_0@ == m@,
        opened matches Err(m) ==> m@.is_prefix_of(kvm->Err_0@),
{
    if let Err(m) = opened {
        assert(kvm->Err_0@.subrange(0, m@.len() as int) =~= m@);
    }
}

} // verus!
