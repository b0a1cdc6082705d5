//! What the commands to `iptables`, taken word by word, do to the filter table,
//! and what a sandbox may reach once its policy was applied.

use vstd::prelude::*;

use crate::error::CofferError;
use crate::net::{chain_of, check_args, commands, edit_command, edit_commands, edited_all, is_word, jump_rule,
    law_jump_checked_is_added, law_policy_verdict, matches_any, passes, policy_edits, rule_words, ChainEdit,
    EgressPlan, NetworkManager, Rule};
use crate::text::{strs, Text};

verus! {

broadcast use vstd::string::group_string_axioms;

/// The filter table: of each chain its rules, each as its words.
#[verifier::ext_equal]
pub struct Table {
    pub chains: Map<Text, Seq<Seq<Text>>>,
}

/// The table after a command, given as its words. A chain that exists is not made
/// again, and one that does not exist cannot be changed.
pub open spec fn did(t: Table, w: Seq<Text>) -> Table {
    if w.len() == 2 && w[0] == "-N"@ {
        if t.chains.dom().contains(w[1]) {
            t
        } else {
            Table { chains: t.chains.insert(w[1], seq![]) }
        }
    } else if w.len() >= 2 && !t.chains.dom().contains(w[1]) {
        t
    } else if w.len() == 2 && w[0] == "-F"@ {
        Table { chains: t.chains.insert(w[1], seq![]) }
    } else if w.len() > 2 && w[0] == "-A"@ {
        Table { chains: t.chains.insert(w[1], t.chains[w[1]].push(w.skip(2))) }
    } else if w.len() > 3 && w[0] == "-I"@ && w[2] == "1"@ {
        Table { chains: t.chains.insert(w[1], seq![w.skip(3)] + t.chains[w[1]]) }
    } else {
        t
    }
}

/// The table after some commands, in order.
pub open spec fn did_all(t: Table, ws: Seq<Seq<Text>>) -> Table
    decreases ws.len(),
{
    if ws.len() == 0 {
        t
    } else {
        did(did_all(t, ws.drop_last()), ws.last())
    }
}

/// What the filter table answers when it is asked for a rule of the chain through
/// which forwarded packets go.
pub open spec fn forwards(t: Table, args: Seq<Text>) -> bool {
    &&& args.len() > 4
    &&& args.take(4) == seq!["-t"@, "filter"@, "-C"@, "FORWARD"@]
    &&& t.chains["FORWARD"@].contains(args.skip(4))
}

/// Whether a rule speaks of a packet that goes to the addresses that it matches,
/// given whether it belongs to a connection that stands.
pub open spec fn hits(rule: Seq<Text>, matches: spec_fn(Text) -> bool, established: bool) -> bool {
    ||| rule.len() == 2 && rule[0] == "-j"@
    ||| rule.len() == 4 && rule[0] == "-d"@ && rule[2] == "-j"@ && matches(rule[1])
    ||| rule.len() == 6 && rule.take(5) == seq![
        "-m"@,
        "state"@,
        "--state"@,
        "ESTABLISHED,RELATED"@,
        "-j"@,
    ] && established
}

/// Whether some rules let a packet pass: the first that speaks of it decides, by
/// its last word.
pub open spec fn lets_pass(
    rules: Seq<Seq<Text>>,
    matches: spec_fn(Text) -> bool,
    established: bool,
) -> bool
    decreases rules.len(),
{
    if rules.len() == 0 {
        true
    } else if hits(rules[0], matches, established) {
        rules[0].last() == "ACCEPT"@
    } else {
        lets_pass(rules.drop_first(), matches, established)
    }
}

spec fn in_words(rules: Seq<Rule>) -> Seq<Seq<Text>> {
    rules.map_values(|r: Rule| rule_words(r))
}

proof fn lemma_words_pass(rules: Seq<Rule>, matches: spec_fn(Text) -> bool, established: bool)
    ensures
        lets_pass(in_words(rules), matches, established) == passes(rules, matches, established),
    decreases rules.len(),
{
    if rules.len() > 0 {
        reveal_strlit("ACCEPT");
        reveal_strlit("DROP");
        reveal_strlit("-d");
        reveal_strlit("-m");
        reveal_strlit("-j");
        assert("ACCEPT"@.len() != "DROP"@.len());
        assert("-d"@[1] != "-m"@[1]);
        let w = rule_words(rules[0]);
        assert(in_words(rules)[0] == w);
        assert(in_words(rules).drop_first() =~= in_words(rules.drop_first()));
        lemma_words_pass(rules.drop_first(), matches, established);
        if rules[0] is Established {
            assert(w.take(5) =~= seq!["-m"@, "state"@, "--state"@, "ESTABLISHED,RELATED"@, "-j"@]);
        }
    }
}

proof fn lemma_commands_differ()
    ensures
        "-N"@ != "-F"@,
        "-N"@ != "-A"@,
        "-N"@ != "-I"@,
        "-F"@ != "-A"@,
        "-F"@ != "-I"@,
        "-A"@ != "-I"@,
{
    reveal_strlit("-N");
    reveal_strlit("-F");
    reveal_strlit("-A");
    reveal_strlit("-I");
    assert("-N"@[1] == 'N' && "-F"@[1] == 'F' && "-A"@[1] == 'A' && "-I"@[1] == 'I');
}

proof fn lemma_did_edits(t: Table, chain: Text, rules: Seq<Rule>, edits: Seq<ChainEdit>)
    requires
        t.chains.dom().contains(chain),
        t.chains[chain] == in_words(rules),
    ensures
        did_all(t, edit_commands(chain, edits)) == (Table {
            chains: t.chains.insert(chain, in_words(edited_all(rules, edits))),
        }),
    decreases edits.len(),
{
    let ws = edit_commands(chain, edits);
    if edits.len() == 0 {
        assert(t.chains.insert(chain, in_words(rules)) =~= t.chains);
    } else {
        let head = edits.drop_last();
        lemma_did_edits(t, chain, rules, head);
        lemma_commands_differ();
        assert(ws.drop_last() =~= edit_commands(chain, head));
        let before = edited_all(rules, head);
        let e = edits.last();
        let w = edit_command(chain, e);
        assert(ws.last() == w);
        match e {
            ChainEdit::Append(r) => {
                assert(w.skip(2) =~= rule_words(r));
                assert(in_words(before.push(r)) =~= in_words(before).push(rule_words(r)));
            },
            ChainEdit::Prepend(r) => {
                assert(w.skip(3) =~= rule_words(r));
                assert(in_words(seq![r] + before) =~= seq![rule_words(r)] + in_words(before));
            },
        }
        assert(did_all(t, ws).chains =~= t.chains.insert(
            chain,
            in_words(edited_all(rules, edits)),
        ));
    }
}

proof fn lemma_did_concat(t: Table, a: Seq<Seq<Text>>, b: Seq<Seq<Text>>)
    ensures
        did_all(t, a + b) == did_all(did_all(t, a), b),
    decreases b.len(),
{
    if b.len() == 0 {
        assert(a + b =~= a);
    } else {
        lemma_did_concat(t, a, b.drop_last());
        assert((a + b).drop_last() =~= a + b.drop_last());
    }
}

/// A policy that is applied to a device sends what is forwarded from the device,
/// once, through a chain that lets a packet pass if and only if the packet belongs
/// to a connection that stands, or goes to an allowed address and to no denied
/// one. Whatever the chain held before, and whether or not it was there, does not
/// matter; no other chain changes.
pub proof fn law_policy_decides(
    m: &NetworkManager,
    tap: &str,
    allow: &Vec<String>,
    deny: &Vec<String>,
    plan: EgressPlan,
    t: Table,
    rest: Result<Vec<Vec<String>>, CofferError>,
    matches: spec_fn(Text) -> bool,
    established: bool,
)
    requires
        is_word(tap@),
        t.chains.dom().contains("FORWARD"@),
        call_ensures(NetworkManager::apply_egress_policy, (m, tap, allow, deny), plan),
        call_ensures(
            EgressPlan::after_check,
            (
                plan,
                Ok::<bool, CofferError>(
                    forwards(did_all(t, commands(plan.prepare@)), strs(plan.check@)),
                ),
            ),
            rest,
        ),
    ensures
        rest is Ok,
        ({
            let end = did_all(did_all(t, commands(plan.prepare@)), commands(rest->Ok_0@));
            let chain = "COFFER-"@ + tap@;
            let jump = seq!["-i"@, tap@, "-j"@, chain];
            &&& end.chains.dom() == t.chains.dom().insert(chain)
            &&& end.chains["FORWARD"@] == if t.chains["FORWARD"@].contains(jump) {
                t.chains["FORWARD"@]
            } else {
                t.chains["FORWARD"@].push(jump)
            }
            &&& lets_pass(end.chains[chain], matches, established) == (established || (matches_any(
                strs(allow@),
                matches,
            ) && !matches_any(strs(deny@), matches)))
            &&& forall|c: Text|
                c != chain && c != "FORWARD"@ && t.chains.dom().contains(c) ==> #[trigger] end.chains[c]
                    == t.chains[c]
        }),
{
    let chain = chain_of(tap@);
    let jump = seq!["-i"@, tap@, "-j"@, chain];
    reveal_strlit("COFFER-");
    reveal_strlit("FORWARD");
    assert(chain[0] == 'C');
    assert("FORWARD"@[0] == 'F');
    lemma_commands_differ();
    let prepare = commands(plan.prepare@);
    assert(prepare.len() == 2);
    assert(prepare[0] =~= seq!["-N"@, chain]);
    assert(prepare[1] =~= seq!["-F"@, chain]);
    reveal_with_fuel(did_all, 3);
    assert(prepare.drop_last().last() == prepare[0]);
    let g = did_all(t, prepare);
    assert(g.chains =~= t.chains.insert(chain, seq![]));
    law_jump_checked_is_added(tap@);
    let asked = strs(plan.check@);
    assert(asked =~= seq!["-t"@, "filter"@, "-C"@, "FORWARD"@] + jump);
    assert(asked.take(4) =~= seq!["-t"@, "filter"@, "-C"@, "FORWARD"@]);
    assert(asked.skip(4) =~= jump);
    let edits = policy_edits(strs(allow@), strs(deny@));
    let fills = edit_commands(chain, edits);
    assert(commands(plan.fill@) == fills);
    let found = forwards(g, asked);
    assert(found == t.chains["FORWARD"@].contains(jump));
    let j = strs(plan.jump@);
    assert(j =~= seq!["-A"@, "FORWARD"@] + jump);
    assert(j.skip(2) =~= jump);
    let h = if found {
        g
    } else {
        did(g, j)
    };
    assert(h.chains[chain] =~= in_words(seq![]));
    let ws = commands(rest->Ok_0@);
    if found {
        assert(ws =~= fills);
    } else {
        assert(ws =~= seq![j] + fills);
        lemma_did_concat(g, seq![j], fills);
        assert(seq![j].drop_last() =~= Seq::<Seq<Text>>::empty());
        assert(did_all(g, seq![j]) == did(g, j));
    }
    lemma_did_edits(h, chain, seq![], edits);
    lemma_words_pass(edited_all(seq![], edits), matches, established);
    law_policy_verdict(strs(allow@), strs(deny@), matches, established);
    let end = did_all(g, ws);
    assert(end.chains.dom() =~= t.chains.dom().insert(chain));
}

} // verus!
