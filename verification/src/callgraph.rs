//! Call-graph queries shared by the report generators: the name-keyed call
//! graph, the direct and indirect writers and readers of a state variable,
//! and reachability from one function to a set of target functions. The
//! graph and DOT/JSON renderers only lay these results out.

use vstd::prelude::*;
use crate::models::FunctionDef;
use crate::names::{assoc_find, contains_name, names_of, push_unique, push_unique_spec};

verus! {

broadcast use crate::names::group_names_axioms;

/// The renderer of DOT graph descriptions; its drawing routines live with the
/// output layer and read the results of the query functions of this module.
#[derive(Debug)]
pub struct GraphGenerator;

/// The renderer of JSON reports; its serialization routines live with the
/// output layer and read the results of the query functions of this module.
#[derive(Debug)]
pub struct JsonReportGenerator;

/// The pair views of a name-keyed call graph.
pub open spec fn cg_view(g: Seq<(String, Vec<String>)>) -> Seq<(Seq<char>, Seq<Seq<char>>)> {
    g.map_values(|p: (String, Vec<String>)| (p.0@, names_of(p.1@)))
}

pub broadcast proof fn cg_view_len(g: Seq<(String, Vec<String>)>)
    ensures
        #[trigger] cg_view(g).len() == g.len(),
{
}

pub broadcast proof fn cg_view_index(g: Seq<(String, Vec<String>)>, i: int)
    requires
        0 <= i < g.len(),
    ensures
        #[trigger] cg_view(g)[i] == (g[i].0@, names_of(g[i].1@)),
{
}

pub broadcast proof fn cg_view_push(g: Seq<(String, Vec<String>)>, p: (String, Vec<String>))
    ensures
        #[trigger] cg_view(g.push(p)) =~= cg_view(g).push((p.0@, names_of(p.1@))),
{
    broadcast use cg_view_len, cg_view_index;

}

pub broadcast group group_cg_axioms {
    cg_view_len,
    cg_view_index,
    cg_view_push,
}

/// The call graph of the analyzed functions: one binding per function,
/// carrying its internal callees.
pub open spec fn call_graph_spec(fns: Seq<FunctionDef>, k: int) -> Seq<(Seq<char>, Seq<Seq<char>>)>
    decreases fns.len() - k,
{
    if k < 0 || k >= fns.len() {
        Seq::empty()
    } else {
        seq![(fns[k].name@, names_of(fns[k].calls_functions@))] + call_graph_spec(fns, k + 1)
    }
}

/// Build the name-keyed call graph of the analyzed functions.
pub fn build_call_graph(functions: &Vec<FunctionDef>) -> (r: Vec<(String, Vec<String>)>)
    ensures
        r@.len() == functions@.len(),
        cg_view(r@) == call_graph_spec(functions@, 0),
{
    broadcast use group_cg_axioms;

    let mut out: Vec<(String, Vec<String>)> = Vec::new();
    assert(cg_view(out@) =~= Seq::<(Seq<char>, Seq<Seq<char>>)>::empty());
    let mut k: usize = 0;
    while k < functions.len()
        invariant
            k <= functions.len(),
            out@.len() == k,
            cg_view(out@) + call_graph_spec(functions@, k as int) =~= call_graph_spec(
                functions@,
                0,
            ),
        decreases functions.len() - k,
    {
        let ghost pre = cg_view(out@);
        out.push(
            (functions[k].name.clone(), crate::analyzer::dup_names(&functions[k].calls_functions)),
        );
        assert(cg_view(out@) =~= pre.push(
            (functions@[k as int].name@, names_of(functions@[k as int].calls_functions@)),
        ));
        k += 1;
    }
    out
}

/// One closure round over the name-keyed call graph: the callees of every
/// reached entry join the reached set.
pub open spec fn name_reach_round(
    r: Seq<Seq<char>>,
    g: Seq<(Seq<char>, Seq<Seq<char>>)>,
    i: int,
) -> Seq<Seq<char>>
    decreases g.len() - i,
{
    if i < 0 || i >= g.len() {
        r
    } else {
        let r1 = if r.contains(g[i].0) {
            add_names(r, g[i].1, 0)
        } else {
            r
        };
        name_reach_round(r1, g, i + 1)
    }
}

/// Fold one callee row into the reached set.
pub open spec fn add_names(r: Seq<Seq<char>>, row: Seq<Seq<char>>, j: int) -> Seq<Seq<char>>
    decreases row.len() - j,
{
    if j < 0 || j >= row.len() {
        r
    } else {
        add_names(push_unique_spec(r, row[j]), row, j + 1)
    }
}

/// The reached names after `k` rounds.
pub open spec fn name_reach_iter(
    r: Seq<Seq<char>>,
    g: Seq<(Seq<char>, Seq<Seq<char>>)>,
    k: nat,
) -> Seq<Seq<char>>
    decreases k,
{
    if k == 0 {
        r
    } else {
        name_reach_iter(name_reach_round(r, g, 0), g, (k - 1) as nat)
    }
}

/// The functions reachable from `start` through the call graph: its direct
/// callees closed under one round per graph binding.
pub open spec fn callees_closure_spec(
    start: Seq<char>,
    g: Seq<(Seq<char>, Seq<Seq<char>>)>,
) -> Seq<Seq<char>> {
    let direct = match assoc_find(g, start) {
        Some(row) => add_names(Seq::empty(), row, 0),
        None => Seq::empty(),
    };
    name_reach_iter(direct, g, g.len())
}

/// Look a function's callees up; the latest binding wins.
fn graph_get<'a>(g: &'a Vec<(String, Vec<String>)>, k: &String) -> (r: Option<&'a Vec<String>>)
    ensures
        match r {
            Some(row) => assoc_find(cg_view(g@), k@) == Some(names_of(row@)),
            None => assoc_find(cg_view(g@), k@) is None,
        },
{
    broadcast use group_cg_axioms;

    let mut i: usize = g.len();
    assert(cg_view(g@).take(i as int) =~= cg_view(g@));
    while i > 0
        invariant
            i <= g.len(),
            assoc_find(cg_view(g@), k@) == assoc_find(cg_view(g@).take(i as int), k@),
        decreases i,
    {
        assert(cg_view(g@).take(i as int).last() == cg_view(g@)[i - 1]);
        assert(cg_view(g@).take(i as int).drop_last() =~= cg_view(g@).take(i - 1));
        if g[i - 1].0.eq(k) {
            return Some(&g[i - 1].1);
        }
        i -= 1;
    }
    assert(cg_view(g@).take(0) =~= Seq::<(Seq<char>, Seq<Seq<char>>)>::empty());
    None
}

/// Fold one callee row into a reached-name list.
fn add_names_exec(r: &mut Vec<String>, row: &Vec<String>)
    ensures
        names_of(final(r)@) == add_names(names_of(old(r)@), names_of(row@), 0),
{
    let mut j: usize = 0;
    while j < row.len()
        invariant
            j <= row.len(),
            add_names(names_of(r@), names_of(row@), j as int) == add_names(
                names_of(old(r)@),
                names_of(row@),
                0,
            ),
        decreases row.len() - j,
    {
        push_unique(r, row[j].clone());
        j += 1;
    }
}

/// Compute the functions reachable from `start` through the call graph.
pub fn callees_closure(start: &String, graph: &Vec<(String, Vec<String>)>) -> (r: Vec<String>)
    ensures
        names_of(r@) == callees_closure_spec(start@, cg_view(graph@)),
{
    broadcast use group_cg_axioms;

    let mut reached: Vec<String> = Vec::new();
    assert(names_of(reached@) =~= Seq::<Seq<char>>::empty());
    if let Some(row) = graph_get(graph, start) {
        add_names_exec(&mut reached, row);
    }
    let rounds = graph.len();
    let mut k: usize = 0;
    while k < rounds
        invariant
            k <= rounds,
            rounds == graph@.len(),
            name_reach_iter(names_of(reached@), cg_view(graph@), (rounds - k) as nat)
                == callees_closure_spec(start@, cg_view(graph@)),
        decreases rounds - k,
    {
        let ghost round_start = names_of(reached@);
        let mut i: usize = 0;
        while i < graph.len()
            invariant
                i <= graph.len(),
                name_reach_round(names_of(reached@), cg_view(graph@), i as int)
                    == name_reach_round(round_start, cg_view(graph@), 0),
            decreases graph.len() - i,
        {
            if contains_name(&reached, &graph[i].0) {
                add_names_exec(&mut reached, &graph[i].1);
            }
            i += 1;
        }
        k += 1;
    }
    reached
}

/// The first target the closure holds, if any.
pub open spec fn first_reached_target(
    targets: Seq<Seq<char>>,
    closure: Seq<Seq<char>>,
    j: int,
) -> Option<Seq<char>>
    decreases targets.len() - j,
{
    if j < 0 || j >= targets.len() {
        None
    } else if closure.contains(targets[j]) {
        Some(targets[j])
    } else {
        first_reached_target(targets, closure, j + 1)
    }
}

/// The next step of a chain walk: the first listed callee that is a target,
/// or that can still reach a target and has not been visited.
pub open spec fn chain_pick_spec(
    row: Seq<Seq<char>>,
    g: Seq<(Seq<char>, Seq<Seq<char>>)>,
    targets: Seq<Seq<char>>,
    visited: Seq<Seq<char>>,
    j: int,
) -> Option<Seq<char>>
    decreases row.len() - j,
{
    if j < 0 || j >= row.len() {
        None
    } else if targets.contains(row[j]) || (first_reached_target(
        targets,
        callees_closure_spec(row[j], g),
        0,
    ) is Some && !visited.contains(row[j])) {
        Some(row[j])
    } else {
        chain_pick_spec(row, g, targets, visited, j + 1)
    }
}

/// A chain walk from `cur` towards the targets, greedy over the call graph,
/// degenerating to the first reachable target alone when it cannot step.
pub open spec fn chain_walk_spec(
    g: Seq<(Seq<char>, Seq<Seq<char>>)>,
    cur: Seq<char>,
    targets: Seq<Seq<char>>,
    ft: Seq<char>,
    chain: Seq<Seq<char>>,
    fuel: nat,
) -> Seq<Seq<char>>
    decreases fuel,
{
    let row = match assoc_find(g, cur) {
        Some(r) => r,
        None => Seq::empty(),
    };
    match chain_pick_spec(row, g, targets, chain, 0) {
        Some(c) => if targets.contains(c) {
            chain.push(c)
        } else if fuel == 0 {
            seq![ft]
        } else {
            chain_walk_spec(g, c, targets, ft, chain.push(c), (fuel - 1) as nat)
        },
        None => seq![ft],
    }
}

/// The chain of one start function: when some target is reachable through its
/// calls, the callees walked through on the way, target last.
pub open spec fn cctt_spec(
    start: Seq<char>,
    targets: Seq<Seq<char>>,
    g: Seq<(Seq<char>, Seq<Seq<char>>)>,
) -> Option<Seq<Seq<char>>> {
    match first_reached_target(targets, callees_closure_spec(start, g), 0) {
        Some(ft) => Some(chain_walk_spec(g, start, targets, ft, Seq::empty(), g.len())),
        None => None,
    }
}

/// Pick the next step of a chain walk from one callee row.
fn chain_pick(
    row: &Vec<String>,
    graph: &Vec<(String, Vec<String>)>,
    targets: &Vec<String>,
    visited: &Vec<String>,
) -> (r: Option<String>)
    ensures
        crate::names::view_opt(r) == chain_pick_spec(
            names_of(row@),
            cg_view(graph@),
            names_of(targets@),
            names_of(visited@),
            0,
        ),
{
    let mut j: usize = 0;
    while j < row.len()
        invariant
            j <= row.len(),
            chain_pick_spec(
                names_of(row@),
                cg_view(graph@),
                names_of(targets@),
                names_of(visited@),
                j as int,
            ) == chain_pick_spec(
                names_of(row@),
                cg_view(graph@),
                names_of(targets@),
                names_of(visited@),
                0,
            ),
        decreases row.len() - j,
    {
        if contains_name(targets, &row[j]) {
            return Some(row[j].clone());
        }
        let closure = callees_closure(&row[j], graph);
        let mut reaches = false;
        let mut t: usize = 0;
        while !reaches && t < targets.len()
            invariant
                t <= targets.len(),
                j < row@.len(),
                names_of(closure@) == callees_closure_spec(names_of(row@)[j as int], cg_view(
                    graph@,
                )),
                reaches ==> first_reached_target(
                    names_of(targets@),
                    names_of(closure@),
                    0,
                ) is Some,
                !reaches ==> first_reached_target(names_of(targets@), names_of(closure@), t as int)
                    == first_reached_target(names_of(targets@), names_of(closure@), 0),
            decreases (if reaches { 0int } else { 1int }), targets.len() - t,
        {
            if contains_name(&closure, &targets[t]) {
                reaches = true;
            } else {
                t += 1;
            }
        }
        if reaches && !contains_name(visited, &row[j]) {
            return Some(row[j].clone());
        }
        j += 1;
    }
    None
}

/// Whether `start` can reach one of the target functions through internal
/// calls; when it can, the chain of callees walked through on the way, ending
/// at a target.
pub fn find_call_chain_to_targets(
    start: &String,
    targets: &Vec<String>,
    graph: &Vec<(String, Vec<String>)>,
) -> (r: Option<Vec<String>>)
    ensures
        match r {
            Some(chain) => cctt_spec(start@, names_of(targets@), cg_view(graph@)) == Some(
                names_of(chain@),
            ) && names_of(chain@).len() >= 1 && names_of(targets@).contains(
                names_of(chain@).last(),
            ),
            None => cctt_spec(start@, names_of(targets@), cg_view(graph@)) is None,
        },
{
    let closure = callees_closure(start, graph);
    let mut ft: Option<String> = None;
    let mut j: usize = 0;
    while j < targets.len()
        invariant
            j <= targets.len(),
            names_of(closure@) == callees_closure_spec(start@, cg_view(graph@)),
            match ft {
                Some(ref f) => first_reached_target(names_of(targets@), names_of(closure@), 0)
                    == Some(f@) && names_of(targets@).contains(f@),
                None => first_reached_target(names_of(targets@), names_of(closure@), j as int)
                    == first_reached_target(names_of(targets@), names_of(closure@), 0),
            },
        decreases targets.len() - j + (match ft {
            Some(_) => 0int,
            None => 1int,
        }),
    {
        if ft.is_none() && contains_name(&closure, &targets[j]) {
            assert(names_of(targets@).contains(names_of(targets@)[j as int]));
            ft = Some(targets[j].clone());
        }
        j += 1;
    }
    let ft = match ft {
        Some(f) => f,
        None => {
            return None;
        },
    };
    let ghost ftv = ft@;
    let mut chain: Vec<String> = Vec::new();
    assert(names_of(chain@) =~= Seq::<Seq<char>>::empty());
    let mut cur = start.clone();
    let mut fuel = graph.len();
    loop
        invariant
            names_of(targets@).contains(ftv),
            ftv == ft@,
            chain_walk_spec(
                cg_view(graph@),
                cur@,
                names_of(targets@),
                ftv,
                names_of(chain@),
                fuel as nat,
            ) == chain_walk_spec(
                cg_view(graph@),
                start@,
                names_of(targets@),
                ftv,
                Seq::empty(),
                cg_view(graph@).len(),
            ),
            cctt_spec(start@, names_of(targets@), cg_view(graph@)) == Some(
                chain_walk_spec(
                    cg_view(graph@),
                    start@,
                    names_of(targets@),
                    ftv,
                    Seq::empty(),
                    cg_view(graph@).len(),
                ),
            ),
        decreases fuel,
    {
        let empty_row: Vec<String> = Vec::new();
        assert(names_of(empty_row@) =~= Seq::<Seq<char>>::empty());
        let next = match graph_get(graph, &cur) {
            Some(row) => chain_pick(row, graph, targets, &chain),
            None => chain_pick(&empty_row, graph, targets, &chain),
        };
        match next {
            Some(c) => {
                if contains_name(targets, &c) {
                    let ghost pre = names_of(chain@);
                    chain.push(c);
                    assert(names_of(chain@) =~= pre.push(names_of(chain@).last()));
                    assert(names_of(chain@).last() == chain_walk_spec(
                        cg_view(graph@),
                        cur@,
                        names_of(targets@),
                        ftv,
                        pre,
                        fuel as nat,
                    ).last());
                    return Some(chain);
                }
                if fuel == 0 {
                    let mut out: Vec<String> = Vec::new();
                    out.push(ft);
                    assert(names_of(out@) =~= seq![ftv]);
                    return Some(out);
                }
                let ghost pre = names_of(chain@);
                let cnext = c.clone();
                chain.push(c);
                assert(names_of(chain@) =~= pre.push(cnext@));
                cur = cnext;
                fuel = fuel - 1;
            },
            None => {
                let mut out: Vec<String> = Vec::new();
                out.push(ft);
                assert(names_of(out@) =~= seq![ftv]);
                return Some(out);
            },
        }
    }
}

/// Whether a function writes the variable directly: its coarse set names it,
/// or some resolved field path roots at it.
pub open spec fn writes_var_spec(f: FunctionDef, var: Seq<char>) -> bool {
    names_of(f.modifies_states@).contains(var) || exists|p: int|
        0 <= p < f.modifies_state_fields@.len() && match (#[trigger] crate::models::paths_of(
            f.modifies_state_fields@,
        )[p]).base {
            crate::models::PathBaseV::Resolved(b) => b == var && crate::models::paths_of(
                f.modifies_state_fields@,
            )[p].fields.len() > 0,
            _ => false,
        }
}

/// The names of the functions that write the variable directly.
pub open spec fn direct_writers_spec(fns: Seq<FunctionDef>, var: Seq<char>, k: int) -> Seq<
    Seq<char>,
>
    decreases fns.len() - k,
{
    if k < 0 || k >= fns.len() {
        Seq::empty()
    } else {
        let rest = direct_writers_spec(fns, var, k + 1);
        if writes_var_spec(fns[k], var) {
            seq![fns[k].name@] + rest
        } else {
            rest
        }
    }
}

/// The indirect accessors: every function outside the direct set from which
/// some direct accessor is reachable, in declaration order, each with its
/// call chain.
pub open spec fn indirect_rows_spec(
    fns: Seq<FunctionDef>,
    direct: Seq<Seq<char>>,
    g: Seq<(Seq<char>, Seq<Seq<char>>)>,
    k: int,
) -> Seq<(Seq<char>, Seq<Seq<char>>)>
    decreases fns.len() - k,
{
    if k < 0 || k >= fns.len() {
        Seq::empty()
    } else {
        let rest = indirect_rows_spec(fns, direct, g, k + 1);
        if !direct.contains(fns[k].name@) && cctt_spec(fns[k].name@, direct, g) is Some {
            seq![(fns[k].name@, cctt_spec(fns[k].name@, direct, g)->Some_0)] + rest
        } else {
            rest
        }
    }
}

/// Find the functions that write a state variable: directly, and through a
/// call chain into a direct writer (every function outside the direct set
/// that reaches one appears, with its chain).
pub fn find_writers(
    var_name: &String,
    functions: &Vec<FunctionDef>,
    call_graph: &Vec<(String, Vec<String>)>,
) -> (r: (Vec<String>, Vec<(String, Vec<String>)>))
    ensures
        names_of(r.0@) == direct_writers_spec(functions@, var_name@, 0),
        cg_view(r.1@) == indirect_rows_spec(
            functions@,
            direct_writers_spec(functions@, var_name@, 0),
            cg_view(call_graph@),
            0,
        ),
{
    broadcast use group_cg_axioms, crate::models::group_paths_axioms;

    let mut direct: Vec<String> = Vec::new();
    assert(names_of(direct@) =~= Seq::<Seq<char>>::empty());
    let mut k: usize = 0;
    while k < functions.len()
        invariant
            k <= functions.len(),
            names_of(direct@) + direct_writers_spec(functions@, var_name@, k as int)
                =~= direct_writers_spec(functions@, var_name@, 0),
        decreases functions.len() - k,
    {
        let f = &functions[k];
        let mut hit = contains_name(&f.modifies_states, var_name);
        if !hit {
            let mut p: usize = 0;
            while !hit && p < f.modifies_state_fields.len()
                invariant
                    p <= f.modifies_state_fields.len(),
                    k < functions@.len(),
                    f == &functions@[k as int],
                    hit ==> writes_var_spec(functions@[k as int], var_name@),
                    !hit ==> !names_of(f.modifies_states@).contains(var_name@),
                    !hit ==> forall|q: int|
                        0 <= q < p ==> match (#[trigger] crate::models::paths_of(
                            f.modifies_state_fields@,
                        )[q]).base {
                            crate::models::PathBaseV::Resolved(b) => !(b == var_name@
                                && crate::models::paths_of(f.modifies_state_fields@)[q].fields.len()
                                > 0),
                            _ => true,
                        },
                decreases (if hit { 0int } else { 1int }), f.modifies_state_fields.len() - p,
            {
                let path = &f.modifies_state_fields[p];
                let mut this_hit = false;
                if path.fields.len() > 0 {
                    if let crate::models::PathBase::Resolved(b) = &path.base {
                        this_hit = b.eq(var_name);
                    }
                }
                if this_hit {
                    assert(crate::models::paths_of(f.modifies_state_fields@)[p as int] == path@);
                    hit = true;
                } else {
                    p += 1;
                }
            }
        }
        if hit {
            let ghost pre = names_of(direct@);
            direct.push(f.name.clone());
            assert(names_of(direct@) =~= pre.push(functions@[k as int].name@));
        } else {
            assert(!writes_var_spec(functions@[k as int], var_name@));
        }
        k += 1;
    }
    let mut indirect: Vec<(String, Vec<String>)> = Vec::new();
    assert(cg_view(indirect@) =~= Seq::<(Seq<char>, Seq<Seq<char>>)>::empty());
    let mut k: usize = 0;
    while k < functions.len()
        invariant
            k <= functions.len(),
            names_of(direct@) == direct_writers_spec(functions@, var_name@, 0),
            cg_view(indirect@) + indirect_rows_spec(
                functions@,
                names_of(direct@),
                cg_view(call_graph@),
                k as int,
            ) =~= indirect_rows_spec(functions@, names_of(direct@), cg_view(call_graph@), 0),
        decreases functions.len() - k,
    {
        if !contains_name(&direct, &functions[k].name) {
            if let Some(chain) = find_call_chain_to_targets(&functions[k].name, &direct, call_graph) {
                let ghost pre = cg_view(indirect@);
                let ghost chv = names_of(chain@);
                indirect.push((functions[k].name.clone(), chain));
                assert(cg_view(indirect@) =~= pre.push((functions@[k as int].name@, chv)));
            }
        }
        k += 1;
    }
    (direct, indirect)
}

/// The names of the functions whose read set names the variable.
pub open spec fn direct_readers_spec(fns: Seq<FunctionDef>, var: Seq<char>, k: int) -> Seq<
    Seq<char>,
>
    decreases fns.len() - k,
{
    if k < 0 || k >= fns.len() {
        Seq::empty()
    } else {
        let rest = direct_readers_spec(fns, var, k + 1);
        if names_of(fns[k].reads_states@).contains(var) {
            seq![fns[k].name@] + rest
        } else {
            rest
        }
    }
}

/// Find the functions that read a state variable: directly, and through a
/// call chain into a direct reader (every function outside the direct set
/// that reaches one appears, with its chain).
pub fn find_readers(
    var_name: &String,
    functions: &Vec<FunctionDef>,
    call_graph: &Vec<(String, Vec<String>)>,
) -> (r: (Vec<String>, Vec<(String, Vec<String>)>))
    ensures
        names_of(r.0@) == direct_readers_spec(functions@, var_name@, 0),
        cg_view(r.1@) == indirect_rows_spec(
            functions@,
            direct_readers_spec(functions@, var_name@, 0),
            cg_view(call_graph@),
            0,
        ),
{
    broadcast use group_cg_axioms;

    let mut direct: Vec<String> = Vec::new();
    assert(names_of(direct@) =~= Seq::<Seq<char>>::empty());
    let mut k: usize = 0;
    while k < functions.len()
        invariant
            k <= functions.len(),
            names_of(direct@) + direct_readers_spec(functions@, var_name@, k as int)
                =~= direct_readers_spec(functions@, var_name@, 0),
        decreases functions.len() - k,
    {
        if contains_name(&functions[k].reads_states, var_name) {
            let ghost pre = names_of(direct@);
            direct.push(functions[k].name.clone());
            assert(names_of(direct@) =~= pre.push(functions@[k as int].name@));
        }
        k += 1;
    }
    let mut indirect: Vec<(String, Vec<String>)> = Vec::new();
    assert(cg_view(indirect@) =~= Seq::<(Seq<char>, Seq<Seq<char>>)>::empty());
    let mut k: usize = 0;
    while k < functions.len()
        invariant
            k <= functions.len(),
            names_of(direct@) == direct_readers_spec(functions@, var_name@, 0),
            cg_view(indirect@) + indirect_rows_spec(
                functions@,
                names_of(direct@),
                cg_view(call_graph@),
                k as int,
            ) =~= indirect_rows_spec(functions@, names_of(direct@), cg_view(call_graph@), 0),
        decreases functions.len() - k,
    {
        if !contains_name(&direct, &functions[k].name) {
            if let Some(chain) = find_call_chain_to_targets(&functions[k].name, &direct, call_graph) {
                let ghost pre = cg_view(indirect@);
                let ghost chv = names_of(chain@);
                indirect.push((functions[k].name.clone(), chain));
                assert(cg_view(indirect@) =~= pre.push((functions@[k as int].name@, chv)));
            }
        }
        k += 1;
    }
    (direct, indirect)
}

/// The declared visibility of the named function, or `unknown`.
pub open spec fn func_visibility_spec(fns: Seq<FunctionDef>, nm: Seq<char>) -> Seq<char> {
    match crate::extcalls::find_fn_spec(fns, nm, 0) {
        Some(i) => fns[i].visibility@,
        None => "unknown"@,
    }
}

/// Look the declared visibility of a function up by name.
pub fn get_func_visibility(func_name: &String, functions: &Vec<FunctionDef>) -> (r: String)
    ensures
        r@ == func_visibility_spec(functions@, func_name@),
{
    let mut i: usize = 0;
    while i < functions.len()
        invariant
            i <= functions.len(),
            crate::extcalls::find_fn_spec(functions@, func_name@, 0)
                == crate::extcalls::find_fn_spec(functions@, func_name@, i as int),
        decreases functions.len() - i,
    {
        if functions[i].name.eq(func_name) {
            return functions[i].visibility.clone();
        }
        i += 1;
    }
    String::from_str("unknown")
}

} // verus!
