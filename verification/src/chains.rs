//! Modification chains: for one state variable, every function holding a
//! literal mutation of it (a direct modifier), each paired with the set of
//! functions that can reach that modifier through internal calls. The
//! reverse-reachability set is computed as a monotone closure over the call
//! graph, one round per function, which makes termination structural and the
//! result a pure function of the inputs.

use vstd::prelude::*;
use crate::models::{FunctionCall, FunctionDef, ModificationChain};
use crate::names::{contains_name, names_of};

verus! {

broadcast use crate::names::group_names_axioms;

/// A function's coarse mutation set, as character sequences.
pub open spec fn fd_mods(f: FunctionDef) -> Seq<Seq<char>> {
    names_of(f.modifies_states@)
}

/// A function's internal callees, as character sequences.
pub open spec fn fd_calls(f: FunctionDef) -> Seq<Seq<char>> {
    names_of(f.calls_functions@)
}

/// A function's read set, as character sequences.
pub open spec fn fd_reads(f: FunctionDef) -> Seq<Seq<char>> {
    names_of(f.reads_states@)
}

/// One closure round: additionally mark every function that calls a marked
/// function by name.
pub open spec fn callers_round(fns: Seq<FunctionDef>, marked: Seq<bool>) -> Seq<bool> {
    Seq::new(
        marked.len(),
        |i: int|
            marked[i] || exists|j: int|
                0 <= j < fns.len() && #[trigger] marked_calls(fns, marked, i, j),
    )
}

/// Whether function `i` calls the marked function `j`.
pub open spec fn marked_calls(fns: Seq<FunctionDef>, marked: Seq<bool>, i: int, j: int) -> bool {
    0 <= j < fns.len() && j < marked.len() && marked[j] && fd_calls(fns[i]).contains(fns[j].name@)
}

/// The closure after `k` rounds.
pub open spec fn callers_iter(fns: Seq<FunctionDef>, marked: Seq<bool>, k: nat) -> Seq<bool>
    decreases k,
{
    if k == 0 {
        marked
    } else {
        callers_iter(fns, callers_round(fns, marked), (k - 1) as nat)
    }
}

/// Only the function at `target` is marked.
pub open spec fn init_marks(n: nat, target: int) -> Seq<bool> {
    Seq::new(n, |i: int| i == target)
}

/// The reverse-reachability marks for one target: every function that can
/// reach `target` through internal calls, after as many rounds as there are
/// functions.
pub open spec fn reverse_marks(fns: Seq<FunctionDef>, target: int) -> Seq<bool> {
    callers_iter(fns, init_marks(fns.len(), target), fns.len())
}

/// The view of a chain link.
pub open spec fn fc_view(s: Seq<FunctionCall>) -> Seq<(Seq<char>, Seq<char>)> {
    s.map_values(|c: FunctionCall| (c.function_name@, c.visibility@))
}

/// The marked functions other than the target, in declaration order, as
/// (name, visibility) chain links.
pub open spec fn chain_entries(fns: Seq<FunctionDef>, marked: Seq<bool>, target: int, i: int) -> Seq<
    (Seq<char>, Seq<char>),
>
    decreases fns.len() - i,
{
    if i < 0 || i >= fns.len() {
        Seq::empty()
    } else {
        let rest = chain_entries(fns, marked, target, i + 1);
        if i < marked.len() && marked[i] && i != target {
            seq![(fns[i].name@, fns[i].visibility@)] + rest
        } else {
            rest
        }
    }
}

/// The view of a modification chain.
pub open spec fn mc_view(s: Seq<ModificationChain>) -> Seq<
    (Seq<char>, Seq<char>, Seq<(Seq<char>, Seq<char>)>),
> {
    s.map_values(
        |c: ModificationChain|
            (c.direct_modifier@, c.direct_modifier_visibility@, fc_view(c.call_chain@)),
    )
}

/// The modification chains of one state variable: one entry per direct
/// modifier, in declaration order, each carrying its reverse call chain.
pub open spec fn chains_spec(fns: Seq<FunctionDef>, var: Seq<char>, i: int) -> Seq<
    (Seq<char>, Seq<char>, Seq<(Seq<char>, Seq<char>)>),
>
    decreases fns.len() - i,
{
    if i < 0 || i >= fns.len() {
        Seq::empty()
    } else {
        let rest = chains_spec(fns, var, i + 1);
        if fd_mods(fns[i]).contains(var) {
            seq![(fns[i].name@, fns[i].visibility@, chain_entries(fns, reverse_marks(fns, i), i, 0))]
                + rest
        } else {
            rest
        }
    }
}

/// Compute one closure round over the call graph.
fn round_once(functions: &Vec<FunctionDef>, marked: &Vec<bool>) -> (r: Vec<bool>)
    requires
        marked@.len() == functions@.len(),
    ensures
        r@ == callers_round(functions@, marked@),
{
    let n = functions.len();
    let mut out: Vec<bool> = Vec::new();
    let mut i: usize = 0;
    while i < n
        invariant
            i <= n,
            n == functions@.len() == marked@.len(),
            out@.len() == i,
            forall|ii: int| 0 <= ii < i ==> out@[ii] == callers_round(functions@, marked@)[ii],
        decreases n - i,
    {
        let mut hit = marked[i];
        let mut j: usize = 0;
        while !hit && j < n
            invariant
                i < n,
                j <= n,
                n == functions@.len() == marked@.len(),
                !hit ==> !marked@[i as int],
                !hit ==> forall|jj: int|
                    0 <= jj < j ==> !marked_calls(functions@, marked@, i as int, jj),
                hit ==> callers_round(functions@, marked@)[i as int],
            decreases (if hit { 0int } else { 1int }), n - j,
        {
            if marked[j] && contains_name(&functions[i].calls_functions, &functions[j].name) {
                assert(marked_calls(functions@, marked@, i as int, j as int));
                hit = true;
            } else {
                j += 1;
            }
        }
        assert(hit == callers_round(functions@, marked@)[i as int]);
        out.push(hit);
        i += 1;
    }
    assert(out@ =~= callers_round(functions@, marked@));
    out
}

/// Find the callers of one target function, transitively: one mark per
/// function, set exactly when the function can reach the target through
/// internal calls.
pub fn find_callers(functions: &Vec<FunctionDef>, target: usize) -> (r: Vec<bool>)
    requires
        target < functions@.len(),
    ensures
        r@ == reverse_marks(functions@, target as int),
{
    let n = functions.len();
    let mut marked: Vec<bool> = Vec::new();
    let mut i: usize = 0;
    while i < n
        invariant
            i <= n,
            n == functions@.len(),
            marked@.len() == i,
            forall|ii: int| 0 <= ii < i ==> marked@[ii] == (ii == target as int),
        decreases n - i,
    {
        marked.push(i == target);
        i += 1;
    }
    assert(marked@ =~= init_marks(n as nat, target as int));
    let mut k: usize = 0;
    while k < n
        invariant
            k <= n,
            n == functions@.len(),
            marked@.len() == n,
            marked@ == callers_iter(functions@, init_marks(n as nat, target as int), k as nat),
        decreases n - k,
    {
        let ghost pre = marked@;
        marked = round_once(functions, &marked);
        proof {
            lemma_iter_step(functions@, init_marks(n as nat, target as int), k as nat);
            assert(callers_round(functions@, pre).len() == pre.len());
        }
        k += 1;
    }
    marked
}

/// Unrolling the closure from the outside: one more round after `k` rounds is
/// the same as `k` rounds starting one round later.
pub proof fn lemma_iter_step(fns: Seq<FunctionDef>, marked: Seq<bool>, k: nat)
    ensures
        callers_round(fns, callers_iter(fns, marked, k)) == callers_iter(
            fns,
            callers_round(fns, marked),
            k,
        ),
    decreases k,
{
    if k > 0 {
        lemma_iter_step(fns, callers_round(fns, marked), (k - 1) as nat);
    }
}

/// Build the reverse call chain of one function: every function that can
/// reach it through internal calls, in declaration order.
pub fn build_reverse_call_chain(functions: &Vec<FunctionDef>, target: usize) -> (r: Vec<
    FunctionCall,
>)
    requires
        target < functions@.len(),
    ensures
        fc_view(r@) == chain_entries(
            functions@,
            reverse_marks(functions@, target as int),
            target as int,
            0,
        ),
{
    let marked = find_callers(functions, target);
    proof {
        lemma_marks_len(functions@, init_marks(functions@.len(), target as int), functions@.len());
    }
    let mut chain: Vec<FunctionCall> = Vec::new();
    let n = functions.len();
    let mut i: usize = 0;
    while i < n
        invariant
            i <= n,
            n == functions@.len() == marked@.len(),
            marked@ == reverse_marks(functions@, target as int),
            fc_view(chain@) + chain_entries(functions@, marked@, target as int, i as int)
                =~= chain_entries(functions@, marked@, target as int, 0),
        decreases n - i,
    {
        if marked[i] && i != target {
            let ghost pre = fc_view(chain@);
            chain.push(
                FunctionCall {
                    function_name: functions[i].name.clone(),
                    visibility: functions[i].visibility.clone(),
                },
            );
            assert(fc_view(chain@) =~= pre.push((functions@[i as int].name@, functions@[i as int].visibility@)));
        }
        i += 1;
    }
    chain
}

/// The closure keeps the number of marks.
pub proof fn lemma_marks_len(fns: Seq<FunctionDef>, marked: Seq<bool>, k: nat)
    ensures
        callers_iter(fns, marked, k).len() == marked.len(),
    decreases k,
{
    if k > 0 {
        lemma_marks_len(fns, callers_round(fns, marked), (k - 1) as nat);
    }
}

/// The read chains of one state variable: one entry per direct reader, in
/// declaration order, each carrying its reverse call chain.
pub open spec fn read_chains_spec(fns: Seq<FunctionDef>, var: Seq<char>, i: int) -> Seq<
    (Seq<char>, Seq<char>, Seq<(Seq<char>, Seq<char>)>),
>
    decreases fns.len() - i,
{
    if i < 0 || i >= fns.len() {
        Seq::empty()
    } else {
        let rest = read_chains_spec(fns, var, i + 1);
        if fd_reads(fns[i]).contains(var) {
            seq![(fns[i].name@, fns[i].visibility@, chain_entries(fns, reverse_marks(fns, i), i, 0))]
                + rest
        } else {
            rest
        }
    }
}

/// Build the read chains of one state variable: one chain per direct reader,
/// each with the functions that can reach it.
pub fn build_read_chains(var: &String, functions: &Vec<FunctionDef>) -> (r: Vec<
    ModificationChain,
>)
    ensures
        mc_view(r@) == read_chains_spec(functions@, var@, 0),
{
    let mut chains: Vec<ModificationChain> = Vec::new();
    let n = functions.len();
    let mut i: usize = 0;
    while i < n
        invariant
            i <= n,
            n == functions@.len(),
            mc_view(chains@) + read_chains_spec(functions@, var@, i as int) =~= read_chains_spec(
                functions@,
                var@,
                0,
            ),
        decreases n - i,
    {
        if contains_name(&functions[i].reads_states, var) {
            let call_chain = build_reverse_call_chain(functions, i);
            let ghost pre = mc_view(chains@);
            chains.push(
                ModificationChain {
                    direct_modifier: functions[i].name.clone(),
                    direct_modifier_visibility: functions[i].visibility.clone(),
                    call_chain,
                },
            );
            assert(mc_view(chains@) =~= pre.push(
                (
                    functions@[i as int].name@,
                    functions@[i as int].visibility@,
                    chain_entries(functions@, reverse_marks(functions@, i as int), i as int, 0),
                ),
            ));
        }
        i += 1;
    }
    chains
}

/// Build the modification chains of one state variable: one chain per direct
/// modifier, each with the functions that can reach it.
pub fn build_modification_chains(var: &String, functions: &Vec<FunctionDef>) -> (r: Vec<
    ModificationChain,
>)
    ensures
        mc_view(r@) == chains_spec(functions@, var@, 0),
{
    let mut chains: Vec<ModificationChain> = Vec::new();
    let n = functions.len();
    let mut i: usize = 0;
    while i < n
        invariant
            i <= n,
            n == functions@.len(),
            mc_view(chains@) + chains_spec(functions@, var@, i as int) =~= chains_spec(
                functions@,
                var@,
                0,
            ),
        decreases n - i,
    {
        if contains_name(&functions[i].modifies_states, var) {
            let call_chain = build_reverse_call_chain(functions, i);
            let ghost pre = mc_view(chains@);
            chains.push(
                ModificationChain {
                    direct_modifier: functions[i].name.clone(),
                    direct_modifier_visibility: functions[i].visibility.clone(),
                    call_chain,
                },
            );
            assert(mc_view(chains@) =~= pre.push(
                (
                    functions@[i as int].name@,
                    functions@[i as int].visibility@,
                    chain_entries(functions@, reverse_marks(functions@, i as int), i as int, 0),
                ),
            ));
        }
        i += 1;
    }
    chains
}

/// The number of set marks.
pub open spec fn count_marks(s: Seq<bool>) -> int
    decreases s.len(),
{
    if s.len() == 0 {
        0
    } else {
        count_marks(s.drop_last()) + if s.last() {
            1int
        } else {
            0int
        }
    }
}

proof fn lemma_count_le_len(s: Seq<bool>)
    ensures
        0 <= count_marks(s) <= s.len(),
    decreases s.len(),
{
    if s.len() > 0 {
        lemma_count_le_len(s.drop_last());
    }
}

proof fn lemma_count_pointwise(a: Seq<bool>, b: Seq<bool>)
    requires
        a.len() == b.len(),
        forall|i: int| 0 <= i < a.len() ==> (a[i] ==> b[i]),
    ensures
        count_marks(a) <= count_marks(b),
        a != b ==> count_marks(a) < count_marks(b),
    decreases a.len(),
{
    if a.len() == 0 {
        assert(a =~= b);
    } else {
        let a1 = a.drop_last();
        let b1 = b.drop_last();
        assert(forall|i: int| 0 <= i < a1.len() ==> (a1[i] ==> b1[i]));
        lemma_count_pointwise(a1, b1);
        if a != b {
            if a1 == b1 {
                assert(a.last() != b.last()) by {
                    if a.last() == b.last() {
                        assert forall|i: int| 0 <= i < a.len() implies a[i] == b[i] by {
                            if i < a.len() - 1 {
                                assert(a[i] == a1[i] && b[i] == b1[i]);
                            }
                        }
                        assert(a =~= b);
                    }
                }
                assert(!a.last() && b.last());
            }
        }
    }
}

/// One round only adds marks.
proof fn lemma_round_grows(fns: Seq<FunctionDef>, s: Seq<bool>)
    ensures
        callers_round(fns, s).len() == s.len(),
        forall|i: int| 0 <= i < s.len() ==> (s[i] ==> callers_round(fns, s)[i]),
{
}

/// A state the round leaves unchanged stays unchanged forever.
proof fn lemma_stable_step(fns: Seq<FunctionDef>, s: Seq<bool>, m: nat)
    requires
        callers_round(fns, s) == s,
    ensures
        callers_iter(fns, s, m) == s,
    decreases m,
{
    if m > 0 {
        lemma_stable_step(fns, s, (m - 1) as nat);
    }
}

/// After `k` rounds the closure is either already stable or has gained at
/// least `k` marks.
proof fn lemma_progress(fns: Seq<FunctionDef>, s: Seq<bool>, k: nat)
    ensures
        callers_round(fns, callers_iter(fns, s, k)) == callers_iter(fns, s, k) || count_marks(
            callers_iter(fns, s, k),
        ) >= count_marks(s) + k,
    decreases k,
{
    if k == 0 {
    } else {
        let s1 = callers_round(fns, s);
        if s1 == s {
            lemma_stable_step(fns, s, k);
        } else {
            lemma_round_grows(fns, s);
            lemma_count_pointwise(s, s1);
            lemma_progress(fns, s1, (k - 1) as nat);
        }
    }
}

proof fn lemma_init_count(n: nat, target: int)
    requires
        0 <= target < n,
    ensures
        count_marks(init_marks(n, target)) == 1,
    decreases n,
{
    let s = init_marks(n, target);
    if n > 0 {
        if target == n - 1 {
            assert(s.drop_last() =~= Seq::new((n - 1) as nat, |i: int| false));
            lemma_all_false_count(s.drop_last());
        } else {
            assert(s.drop_last() =~= init_marks((n - 1) as nat, target));
            lemma_init_count((n - 1) as nat, target);
        }
    }
}

proof fn lemma_all_false_count(s: Seq<bool>)
    requires
        forall|i: int| 0 <= i < s.len() ==> !s[i],
    ensures
        count_marks(s) == 0,
    decreases s.len(),
{
    if s.len() > 0 {
        lemma_all_false_count(s.drop_last());
    }
}

/// The closure only adds marks over any number of rounds.
proof fn lemma_iter_grows(fns: Seq<FunctionDef>, s: Seq<bool>, k: nat)
    ensures
        callers_iter(fns, s, k).len() == s.len(),
        forall|i: int| 0 <= i < s.len() ==> (s[i] ==> callers_iter(fns, s, k)[i]),
    decreases k,
{
    if k > 0 {
        lemma_round_grows(fns, s);
        lemma_iter_grows(fns, callers_round(fns, s), (k - 1) as nat);
    }
}

/// The reverse-reachability marks are a fixed point of the closure round:
/// they mark the target, and any function that calls a marked function is
/// itself marked.
pub proof fn lemma_reverse_marks_closed(fns: Seq<FunctionDef>, target: int)
    requires
        0 <= target < fns.len(),
    ensures
        reverse_marks(fns, target).len() == fns.len(),
        reverse_marks(fns, target)[target],
        forall|c: int, j: int|
            0 <= c < fns.len() && #[trigger] marked_calls(fns, reverse_marks(fns, target), c, j)
                ==> reverse_marks(fns, target)[c],
{
    let n = fns.len();
    let s0 = init_marks(n, target);
    let rm = reverse_marks(fns, target);
    lemma_marks_len(fns, s0, n);
    lemma_iter_grows(fns, s0, n);
    lemma_progress(fns, s0, n);
    lemma_init_count(n, target);
    lemma_count_le_len(rm);
    assert(rm == callers_iter(fns, s0, n));
    assert(callers_round(fns, rm) == rm);
    assert(s0[target]);
    assert(rm[target]);
    assert forall|c: int, j: int|
        0 <= c < fns.len() && #[trigger] marked_calls(fns, rm, c, j) implies rm[c] by {
        assert(callers_round(fns, rm)[c]);
    }
}

/// Every marked function other than the target stands in the chain entries.
pub proof fn lemma_chain_entry_present(
    fns: Seq<FunctionDef>,
    marked: Seq<bool>,
    target: int,
    c: int,
)
    requires
        0 <= c < fns.len(),
        c < marked.len(),
        marked[c],
        c != target,
    ensures
        chain_entries(fns, marked, target, 0).contains((fns[c].name@, fns[c].visibility@)),
{
    lemma_chain_entry_present_from(fns, marked, target, c, 0);
}

proof fn lemma_chain_entry_present_from(
    fns: Seq<FunctionDef>,
    marked: Seq<bool>,
    target: int,
    c: int,
    i: int,
)
    requires
        0 <= i <= c < fns.len(),
        c < marked.len(),
        marked[c],
        c != target,
    ensures
        chain_entries(fns, marked, target, i).contains((fns[c].name@, fns[c].visibility@)),
    decreases c - i,
{
    if i == c {
        assert(chain_entries(fns, marked, target, i)[0] == (fns[c].name@, fns[c].visibility@));
    } else {
        lemma_chain_entry_present_from(fns, marked, target, c, i + 1);
        let rest = chain_entries(fns, marked, target, i + 1);
        let k = choose|k: int|
            0 <= k < rest.len() && rest[k] == (fns[c].name@, fns[c].visibility@);
        if i < marked.len() && marked[i] && i != target {
            assert(chain_entries(fns, marked, target, i)[k + 1] == rest[k]);
        }
    }
}

/// Each direct modifier of a state variable owns an entry of the variable's
/// modification chains, under its own name and visibility and with its own
/// reverse call chain.
pub proof fn lemma_chains_have_direct_modifier(fns: Seq<FunctionDef>, var: Seq<char>, k: int)
    requires
        0 <= k < fns.len(),
        fd_mods(fns[k]).contains(var),
    ensures
        chains_spec(fns, var, 0).contains(
            (fns[k].name@, fns[k].visibility@, chain_entries(fns, reverse_marks(fns, k), k, 0)),
        ),
{
    lemma_chains_have_direct_modifier_from(fns, var, k, 0);
}

proof fn lemma_chains_have_direct_modifier_from(
    fns: Seq<FunctionDef>,
    var: Seq<char>,
    k: int,
    i: int,
)
    requires
        0 <= i <= k < fns.len(),
        fd_mods(fns[k]).contains(var),
    ensures
        chains_spec(fns, var, i).contains(
            (fns[k].name@, fns[k].visibility@, chain_entries(fns, reverse_marks(fns, k), k, 0)),
        ),
    decreases k - i,
{
    let entry = (fns[k].name@, fns[k].visibility@, chain_entries(fns, reverse_marks(fns, k), k, 0));
    if i == k {
        assert(chains_spec(fns, var, i)[0] == entry);
    } else {
        lemma_chains_have_direct_modifier_from(fns, var, k, i + 1);
        let rest = chains_spec(fns, var, i + 1);
        let j = choose|j: int| 0 <= j < rest.len() && rest[j] == entry;
        if fd_mods(fns[i]).contains(var) {
            assert(chains_spec(fns, var, i)[j + 1] == rest[j]);
        }
    }
}

/// A caller path: each function of the path calls the next, and the last
/// calls the target.
pub open spec fn is_caller_path(fns: Seq<FunctionDef>, path: Seq<int>, target: int) -> bool {
    &&& path.len() >= 1
    &&& forall|i: int| 0 <= i < path.len() ==> 0 <= #[trigger] path[i] < fns.len()
    &&& forall|i: int|
        0 <= i < path.len() - 1 ==> fd_calls(fns[#[trigger] path[i]]).contains(
            fns[path[i + 1]].name@,
        )
    &&& fd_calls(fns[path.last()]).contains(fns[target].name@)
}

proof fn lemma_path_marked(fns: Seq<FunctionDef>, path: Seq<int>, target: int, i: int)
    requires
        0 <= target < fns.len(),
        is_caller_path(fns, path, target),
        0 <= i < path.len(),
    ensures
        reverse_marks(fns, target)[path[i]],
    decreases path.len() - i,
{
    let rm = reverse_marks(fns, target);
    lemma_reverse_marks_closed(fns, target);
    if i == path.len() - 1 {
        assert(marked_calls(fns, rm, path[i], target));
    } else {
        lemma_path_marked(fns, path, target, i + 1);
        assert(marked_calls(fns, rm, path[i], path[i + 1]));
    }
}

/// Every function that reaches a direct modifier through internal calls,
/// directly or through intermediaries, stands in that modifier's reverse call
/// chain.
pub proof fn lemma_chain_contains_transitive_caller(
    fns: Seq<FunctionDef>,
    path: Seq<int>,
    target: int,
)
    requires
        0 <= target < fns.len(),
        is_caller_path(fns, path, target),
        forall|i: int| 0 <= i < path.len() ==> #[trigger] path[i] != target,
    ensures
        forall|i: int|
            0 <= i < path.len() ==> chain_entries(fns, reverse_marks(fns, target), target, 0)
                .contains((fns[#[trigger] path[i]].name@, fns[path[i]].visibility@)),
{
    lemma_reverse_marks_closed(fns, target);
    assert forall|i: int| 0 <= i < path.len() implies chain_entries(
        fns,
        reverse_marks(fns, target),
        target,
        0,
    ).contains((fns[#[trigger] path[i]].name@, fns[path[i]].visibility@)) by {
        lemma_path_marked(fns, path, target, i);
        lemma_chain_entry_present(fns, reverse_marks(fns, target), target, path[i]);
    }
}

} // verus!
