//! The library's stated laws, proved over the analysis specifications: an
//! unconditional state assignment always lands in the coarse mutation set,
//! the derived facts are a pure function of the inputs, and the propagation's
//! fixed point is stable under its round cap.

use vstd::prelude::*;
use crate::analyzer::{
    add_mod_target, analyzed_mods, base_var_spec, bind_local, find_state_mods_spec, resolve_spec,
    scan_expr_mods_spec, scan_exprs_mods_spec, scan_stmt_mods_spec, scan_stmts_mods_spec, sp_names,
    StorageTargetV, x_fields, x_mods0, x_sparams,
};
use crate::ast::{Expr, FunctionNode, Stmt};
use crate::models::FunctionDef;
use crate::names::{filter_names, push_unique_spec};
use crate::propagate::{
    prop_calls, prop_iter, prop_one_call, prop_one_param, prop_params, prop_round, PropStateV,
};

verus! {

/// Inserting into a duplicate-free name sequence keeps every member.
proof fn lemma_push_unique_keeps(s: Seq<Seq<char>>, x: Seq<char>, v: Seq<char>)
    requires
        s.contains(v),
    ensures
        push_unique_spec(s, x).contains(v),
{
    if !s.contains(x) {
        let i = choose|i: int| 0 <= i < s.len() && s[i] == v;
        assert(s.push(x)[i] == v);
    }
}

/// Recording a mutation target keeps every member of the set.
proof fn lemma_add_target_grows(
    mods: Seq<Seq<char>>,
    root: Option<Seq<char>>,
    svs: Seq<Seq<char>>,
    m: Seq<(Seq<char>, StorageTargetV)>,
    v: Seq<char>,
)
    requires
        mods.contains(v),
    ensures
        add_mod_target(mods, root, svs, m).contains(v),
{
    match root {
        Some(n) => match resolve_spec(n, svs, m) {
            Some(StorageTargetV::State(sv)) => {
                lemma_push_unique_keeps(mods, sv, v);
            },
            _ => {},
        },
        None => {},
    }
}

/// The coarse expression scan never drops a recorded mutation.
proof fn lemma_scan_expr_mods_grows(
    e: Expr,
    svs: Seq<Seq<char>>,
    mods: Seq<Seq<char>>,
    m: Seq<(Seq<char>, StorageTargetV)>,
    v: Seq<char>,
)
    requires
        mods.contains(v),
    ensures
        scan_expr_mods_spec(e, svs, mods, m).contains(v),
    decreases e, 0int,
{
    match e {
        Expr::Assign(_, l, r) => {
            lemma_add_target_grows(mods, base_var_spec(*l), svs, m, v);
            lemma_scan_expr_mods_grows(*r, svs, add_mod_target(mods, base_var_spec(*l), svs, m), m, v);
        },
        Expr::PreIncrement(x) => {
            lemma_add_target_grows(mods, base_var_spec(*x), svs, m, v);
        },
        Expr::PostIncrement(x) => {
            lemma_add_target_grows(mods, base_var_spec(*x), svs, m, v);
        },
        Expr::PreDecrement(x) => {
            lemma_add_target_grows(mods, base_var_spec(*x), svs, m, v);
        },
        Expr::PostDecrement(x) => {
            lemma_add_target_grows(mods, base_var_spec(*x), svs, m, v);
        },
        Expr::Delete(x) => {
            lemma_add_target_grows(mods, base_var_spec(*x), svs, m, v);
        },
        Expr::FunctionCall(f, args) => {
            let mods1 = match *f {
                Expr::MemberAccess(b, method) => if crate::analyzer::is_mutating_method(method@) {
                    add_mod_target(mods, base_var_spec(*b), svs, m)
                } else {
                    mods
                },
                _ => mods,
            };
            assert(mods1.contains(v)) by {
                match *f {
                    Expr::MemberAccess(b, method) => {
                        if crate::analyzer::is_mutating_method(method@) {
                            lemma_add_target_grows(mods, base_var_spec(*b), svs, m, v);
                        }
                    },
                    _ => {},
                }
            }
            lemma_scan_exprs_mods_grows(args@, 0, svs, mods1, m, v);
        },
        _ => {},
    }
}

/// The coarse argument fold never drops a recorded mutation.
proof fn lemma_scan_exprs_mods_grows(
    es: Seq<Expr>,
    i: int,
    svs: Seq<Seq<char>>,
    mods: Seq<Seq<char>>,
    m: Seq<(Seq<char>, StorageTargetV)>,
    v: Seq<char>,
)
    requires
        mods.contains(v),
    ensures
        scan_exprs_mods_spec(es, i, svs, mods, m).contains(v),
    decreases es, es.len() - i,
{
    if !(i < 0 || i >= es.len()) {
        lemma_scan_expr_mods_grows(es[i], svs, mods, m, v);
        lemma_scan_exprs_mods_grows(es, i + 1, svs, scan_expr_mods_spec(es[i], svs, mods, m), m, v);
    }
}

/// The coarse statement scan never drops a recorded mutation.
proof fn lemma_scan_stmt_mods_grows(
    s: Stmt,
    svs: Seq<Seq<char>>,
    mods: Seq<Seq<char>>,
    m: Seq<(Seq<char>, StorageTargetV)>,
    v: Seq<char>,
)
    requires
        mods.contains(v),
    ensures
        scan_stmt_mods_spec(s, svs, mods, m).0.contains(v),
    decreases s, 0int,
{
    match s {
        Stmt::Expression(e) => {
            lemma_scan_expr_mods_grows(e, svs, mods, m, v);
        },
        Stmt::Block { statements, .. } => {
            lemma_scan_stmts_mods_grows(statements@, 0, svs, mods, m, v);
        },
        Stmt::If(_, t, e) => {
            let r1 = scan_stmt_mods_spec(*t, svs, mods, m);
            lemma_scan_stmt_mods_grows(*t, svs, mods, m, v);
            match e {
                Some(es) => {
                    lemma_scan_stmt_mods_grows(*es, svs, r1.0, r1.1, v);
                },
                None => {},
            }
        },
        Stmt::While(_, b) => {
            lemma_scan_stmt_mods_grows(*b, svs, mods, m, v);
        },
        Stmt::DoWhile(b, _) => {
            lemma_scan_stmt_mods_grows(*b, svs, mods, m, v);
        },
        Stmt::For(init, _, update, body) => {
            let r1 = match init {
                Some(s1) => scan_stmt_mods_spec(*s1, svs, mods, m),
                None => (mods, m),
            };
            match init {
                Some(s1) => {
                    lemma_scan_stmt_mods_grows(*s1, svs, mods, m, v);
                },
                None => {},
            }
            let mods2 = match update {
                Some(u) => scan_expr_mods_spec(*u, svs, r1.0, r1.1),
                None => r1.0,
            };
            match update {
                Some(u) => {
                    lemma_scan_expr_mods_grows(*u, svs, r1.0, r1.1, v);
                },
                None => {},
            }
            match body {
                Some(b) => {
                    lemma_scan_stmt_mods_grows(*b, svs, mods2, r1.1, v);
                },
                None => {},
            }
        },
        Stmt::Return(oe) => {
            match oe {
                Some(e) => {
                    lemma_scan_expr_mods_grows(e, svs, mods, m, v);
                },
                None => {},
            }
        },
        Stmt::VariableDefinition(name_opt, init_opt) => {
            match init_opt {
                Some(init) => {
                    let m1 = match name_opt {
                        Some(n) => bind_local(m, n@, init, svs),
                        None => m,
                    };
                    lemma_scan_expr_mods_grows(init, svs, mods, m1, v);
                },
                None => {},
            }
        },
        _ => {},
    }
}

/// The coarse statement fold never drops a recorded mutation.
proof fn lemma_scan_stmts_mods_grows(
    ss: Seq<Stmt>,
    i: int,
    svs: Seq<Seq<char>>,
    mods: Seq<Seq<char>>,
    m: Seq<(Seq<char>, StorageTargetV)>,
    v: Seq<char>,
)
    requires
        mods.contains(v),
    ensures
        scan_stmts_mods_spec(ss, i, svs, mods, m).0.contains(v),
    decreases ss, ss.len() - i,
{
    if !(i < 0 || i >= ss.len()) {
        let r = scan_stmt_mods_spec(ss[i], svs, mods, m);
        lemma_scan_stmt_mods_grows(ss[i], svs, mods, m, v);
        lemma_scan_stmts_mods_grows(ss, i + 1, svs, r.0, r.1, v);
    }
}

/// Whether a statement is an unconditional assignment whose target root is
/// the given state variable.
pub open spec fn is_direct_assignment_to(s: Stmt, v: Seq<char>) -> bool {
    match s {
        Stmt::Expression(e) => match e {
            Expr::Assign(_, l, _) => base_var_spec(*l) == Some(v),
            _ => false,
        },
        _ => false,
    }
}

/// A direct assignment to a declared state variable puts it into the scan's
/// result, whatever bindings are in scope.
proof fn lemma_direct_assignment_recorded(
    s: Stmt,
    svs: Seq<Seq<char>>,
    mods: Seq<Seq<char>>,
    m: Seq<(Seq<char>, StorageTargetV)>,
    v: Seq<char>,
)
    requires
        is_direct_assignment_to(s, v),
        svs.contains(v),
    ensures
        scan_stmt_mods_spec(s, svs, mods, m).0.contains(v),
{
    match s {
        Stmt::Expression(e) => match e {
            Expr::Assign(_, l, r) => {
                let mods1 = add_mod_target(mods, base_var_spec(*l), svs, m);
                assert(resolve_spec(v, svs, m) == Some(StorageTargetV::State(v)));
                assert(mods1 == push_unique_spec(mods, v));
                assert(mods1.contains(v)) by {
                    if !mods.contains(v) {
                        assert(mods.push(v).last() == v);
                    }
                }
                lemma_scan_expr_mods_grows(*r, svs, mods1, m, v);
            },
            _ => {},
        },
        _ => {},
    }
}

/// Filtering out the storage-parameter names keeps every other name.
proof fn lemma_filter_keeps(s: Seq<Seq<char>>, excl: Seq<Seq<char>>, v: Seq<char>)
    requires
        s.contains(v),
        !excl.contains(v),
    ensures
        filter_names(s, excl).contains(v),
    decreases s.len(),
{
    if s.len() > 0 {
        if s.last() == v {
            assert(filter_names(s, excl).last() == v);
        } else {
            let i = choose|i: int| 0 <= i < s.len() && s[i] == v;
            assert(s.drop_last()[i] == v);
            lemma_filter_keeps(s.drop_last(), excl, v);
            if !excl.contains(s.last()) {
                let j = choose|j: int|
                    0 <= j < filter_names(s.drop_last(), excl).len() && filter_names(
                        s.drop_last(),
                        excl,
                    )[j] == v;
                assert(filter_names(s, excl)[j] == v);
            }
        }
    }
}

/// One propagation step never drops a recorded mutation.
proof fn lemma_prop_one_param_grows(
    st: PropStateV,
    f: int,
    call: (Seq<char>, Seq<crate::analyzer::ArgFactV>),
    ci: int,
    sp: (int, Seq<char>),
    k: int,
    v: Seq<char>,
)
    requires
        0 <= k < st.mods.len(),
        st.mods[k].contains(v),
    ensures
        prop_one_param(st, f, call, ci, sp).mods.len() == st.mods.len(),
        prop_one_param(st, f, call, ci, sp).mods[k].contains(v),
{
    if 0 <= ci < st.mutp.len() && 0 <= f < st.mods.len() && f < st.mutp.len() && 0 <= sp.0
        < call.1.len() && st.mutp[ci].contains(sp.0) {
        match call.1[sp.0] {
            crate::analyzer::ArgFactV::State(sv) => {
                if f == k {
                    lemma_push_unique_keeps(st.mods[k], sv, v);
                }
            },
            _ => {},
        }
    }
}

/// Folding one call's parameters never drops a recorded mutation.
proof fn lemma_prop_params_grows(
    st: PropStateV,
    f: int,
    call: (Seq<char>, Seq<crate::analyzer::ArgFactV>),
    ci: int,
    sps: Seq<(int, Seq<char>)>,
    p: int,
    k: int,
    v: Seq<char>,
)
    requires
        0 <= k < st.mods.len(),
        st.mods[k].contains(v),
    ensures
        prop_params(st, f, call, ci, sps, p).mods.len() == st.mods.len(),
        prop_params(st, f, call, ci, sps, p).mods[k].contains(v),
    decreases sps.len() - p,
{
    if !(p < 0 || p >= sps.len()) {
        lemma_prop_one_param_grows(st, f, call, ci, sps[p], k, v);
        lemma_prop_params_grows(prop_one_param(st, f, call, ci, sps[p]), f, call, ci, sps, p + 1, k, v);
    }
}

/// Folding one function's calls never drops a recorded mutation.
proof fn lemma_prop_calls_grows(
    st: PropStateV,
    names: Seq<Seq<char>>,
    sprows: Seq<Seq<(int, Seq<char>)>>,
    f: int,
    calls: Seq<(Seq<char>, Seq<crate::analyzer::ArgFactV>)>,
    c: int,
    k: int,
    v: Seq<char>,
)
    requires
        0 <= k < st.mods.len(),
        st.mods[k].contains(v),
    ensures
        prop_calls(st, names, sprows, f, calls, c).mods.len() == st.mods.len(),
        prop_calls(st, names, sprows, f, calls, c).mods[k].contains(v),
    decreases calls.len() - c,
{
    if !(c < 0 || c >= calls.len()) {
        let st1 = prop_one_call(st, names, sprows, f, calls[c]);
        assert(st1.mods.len() == st.mods.len() && st1.mods[k].contains(v)) by {
            match crate::propagate::index_of_name(names, calls[c].0, 0) {
                Some(ci) => {
                    if 0 <= ci < sprows.len() {
                        lemma_prop_params_grows(st, f, calls[c], ci, sprows[ci], 0, k, v);
                    }
                },
                None => {},
            }
        }
        lemma_prop_calls_grows(st1, names, sprows, f, calls, c + 1, k, v);
    }
}

/// One propagation round never drops a recorded mutation.
proof fn lemma_prop_round_grows(
    st: PropStateV,
    names: Seq<Seq<char>>,
    sprows: Seq<Seq<(int, Seq<char>)>>,
    css: Seq<Seq<(Seq<char>, Seq<crate::analyzer::ArgFactV>)>>,
    f: int,
    k: int,
    v: Seq<char>,
)
    requires
        0 <= k < st.mods.len(),
        st.mods[k].contains(v),
    ensures
        prop_round(st, names, sprows, css, f).mods.len() == st.mods.len(),
        prop_round(st, names, sprows, css, f).mods[k].contains(v),
    decreases css.len() - f,
{
    if !(f < 0 || f >= css.len()) {
        lemma_prop_calls_grows(st, names, sprows, f, css[f], 0, k, v);
        lemma_prop_round_grows(
            prop_calls(st, names, sprows, f, css[f], 0),
            names,
            sprows,
            css,
            f + 1,
            k,
            v,
        );
    }
}

/// The bounded propagation never drops a recorded mutation.
proof fn lemma_prop_iter_grows(
    st: PropStateV,
    names: Seq<Seq<char>>,
    sprows: Seq<Seq<(int, Seq<char>)>>,
    css: Seq<Seq<(Seq<char>, Seq<crate::analyzer::ArgFactV>)>>,
    rounds: nat,
    k: int,
    v: Seq<char>,
)
    requires
        0 <= k < st.mods.len(),
        st.mods[k].contains(v),
    ensures
        prop_iter(st, names, sprows, css, rounds).mods.len() == st.mods.len(),
        prop_iter(st, names, sprows, css, rounds).mods[k].contains(v),
    decreases rounds,
{
    if rounds > 0 {
        lemma_prop_round_grows(st, names, sprows, css, 0, k, v);
        lemma_prop_iter_grows(
            prop_round(st, names, sprows, css, 0),
            names,
            sprows,
            css,
            (rounds - 1) as nat,
            k,
            v,
        );
    }
}

/// Whether a function body holds an unconditional assignment to the variable:
/// a direct statement of its top-level block (or the body statement itself).
pub open spec fn body_assigns_unconditionally(body: Option<Stmt>, v: Seq<char>) -> bool {
    match body {
        Some(b) => is_direct_assignment_to(b, v) || match b {
            Stmt::Block { statements, .. } => exists|t: int|
                0 <= t < statements@.len() && is_direct_assignment_to(#[trigger] statements@[t], v),
            _ => false,
        },
        None => false,
    }
}

/// A function whose body assigns a declared state variable unconditionally
/// records that variable in its extracted mutation set, as long as the
/// variable does not share its name with one of the function's
/// storage-reference parameters.
pub proof fn lemma_unconditional_assignment_extracted(
    body: Option<Stmt>,
    svs: Seq<Seq<char>>,
    params: Seq<(int, Seq<char>)>,
    v: Seq<char>,
)
    requires
        body_assigns_unconditionally(body, v),
        svs.contains(v),
        !sp_names(params).contains(v),
    ensures
        find_state_mods_spec(body, svs, params).contains(v),
{
    let b = body->Some_0;
    let scanned = scan_stmt_mods_spec(b, svs, Seq::empty(), Seq::empty()).0;
    assert(scanned.contains(v)) by {
        if is_direct_assignment_to(b, v) {
            lemma_direct_assignment_recorded(b, svs, Seq::empty(), Seq::empty(), v);
        } else {
            match b {
                Stmt::Block { statements, .. } => {
                    let t = choose|t: int|
                        0 <= t < statements@.len() && is_direct_assignment_to(
                            #[trigger] statements@[t],
                            v,
                        );
                    lemma_stmts_scan_records(statements@, t, svs, Seq::empty(), Seq::empty(), v);
                },
                _ => {},
            }
        }
    }
    lemma_filter_keeps(scanned, sp_names(params), v);
}

/// Scanning a statement list records a direct assignment found at any index.
proof fn lemma_stmts_scan_records(
    ss: Seq<Stmt>,
    t: int,
    svs: Seq<Seq<char>>,
    mods: Seq<Seq<char>>,
    m: Seq<(Seq<char>, StorageTargetV)>,
    v: Seq<char>,
)
    requires
        0 <= t < ss.len(),
        is_direct_assignment_to(ss[t], v),
        svs.contains(v),
    ensures
        scan_stmts_mods_spec(ss, 0, svs, mods, m).0.contains(v),
    decreases ss.len(),
{
    lemma_stmts_scan_records_from(ss, 0, t, svs, mods, m, v);
}

proof fn lemma_stmts_scan_records_from(
    ss: Seq<Stmt>,
    i: int,
    t: int,
    svs: Seq<Seq<char>>,
    mods: Seq<Seq<char>>,
    m: Seq<(Seq<char>, StorageTargetV)>,
    v: Seq<char>,
)
    requires
        0 <= i <= t < ss.len(),
        is_direct_assignment_to(ss[t], v),
        svs.contains(v),
    ensures
        scan_stmts_mods_spec(ss, i, svs, mods, m).0.contains(v),
    decreases ss.len() - i,
{
    let r = scan_stmt_mods_spec(ss[i], svs, mods, m);
    if i == t {
        lemma_direct_assignment_recorded(ss[i], svs, mods, m, v);
        lemma_scan_stmts_mods_grows(ss, i + 1, svs, r.0, r.1, v);
    } else {
        lemma_stmts_scan_records_from(ss, i + 1, t, svs, r.0, r.1, v);
    }
}

/// A function whose body unconditionally assigns a declared state variable
/// carries that variable in its propagated mutation set: extraction records
/// it and the propagation rounds only ever add.
pub proof fn lemma_unconditional_assignment_in_mods(
    fns0: Seq<FunctionDef>,
    nodes: Seq<FunctionNode>,
    svs: Seq<Seq<char>>,
    k: int,
    j: int,
    v: Seq<char>,
)
    requires
        0 <= k < fns0.len(),
        crate::analyzer::find_node_spec(nodes, fns0[k].name@, 0) == Some(j),
        0 <= j < nodes.len(),
        body_assigns_unconditionally(nodes[j].body, v),
        svs.contains(v),
        !sp_names(x_sparams(nodes, fns0[k])).contains(v),
    ensures
        analyzed_mods(fns0, nodes, svs)[k].contains(v),
{
    lemma_unconditional_assignment_extracted(nodes[j].body, svs, x_sparams(nodes, fns0[k]), v);
    assert(x_mods0(nodes, fns0[k], svs).contains(v));
    let st0 = PropStateV {
        mods: Seq::new(fns0.len(), |kk: int| x_mods0(nodes, fns0[kk], svs)),
        mutp: Seq::new(
            fns0.len(),
            |kk: int| crate::analyzer::mutp_init_row(x_fields(nodes, fns0[kk], svs), 0, Seq::empty()),
        ),
    };
    assert(st0.mods[k].contains(v));
    lemma_prop_iter_grows(
        st0,
        Seq::new(fns0.len(), |kk: int| fns0[kk].name@),
        Seq::new(fns0.len(), |kk: int| x_sparams(nodes, fns0[kk])),
        Seq::new(
            fns0.len(),
            |kk: int|
                match crate::analyzer::find_node_spec(nodes, fns0[kk].name@, 0) {
                    Some(jj) => crate::analyzer::calls_with_args_spec(
                        nodes[jj].body,
                        svs,
                        x_sparams(nodes, fns0[kk]),
                    ),
                    None => Seq::empty(),
                },
        ),
        crate::propagate::MAX_PROPAGATION_ROUNDS as nat,
        k,
        v,
    );
}

/// Every derived fact of the analysis is a pure function of the contract
/// model and the syntax handed in: two results that satisfy the analysis
/// contracts for the same inputs carry byte-identical derived fields.
pub proof fn lemma_analysis_deterministic(
    fns0: Seq<FunctionDef>,
    nodes: Seq<FunctionNode>,
    svs: Seq<Seq<char>>,
    mods1: Seq<Seq<Seq<char>>>,
    mods2: Seq<Seq<Seq<char>>>,
    flows1: Seq<crate::dataflow::TaintFlowV>,
    flows2: Seq<crate::dataflow::TaintFlowV>,
)
    requires
        mods1 == analyzed_mods(fns0, nodes, svs),
        mods2 == analyzed_mods(fns0, nodes, svs),
        flows1 == crate::taint::contract_flows_spec(fns0, nodes, svs, 0),
        flows2 == crate::taint::contract_flows_spec(fns0, nodes, svs, 0),
    ensures
        mods1 == mods2,
        flows1 == flows2,
{
}

/// The propagation's fixed point is stable: a state one round leaves
/// unchanged stays unchanged for any number of further rounds, so the round
/// cap bounds the work without changing the result an unbounded iteration
/// would reach from that state.
pub proof fn lemma_propagation_fixed_point_stable(
    st: PropStateV,
    names: Seq<Seq<char>>,
    sprows: Seq<Seq<(int, Seq<char>)>>,
    css: Seq<Seq<(Seq<char>, Seq<crate::analyzer::ArgFactV>)>>,
    k: nat,
)
    requires
        prop_round(st, names, sprows, css, 0) == st,
    ensures
        prop_iter(st, names, sprows, css, k) == st,
{
    crate::propagate::lemma_prop_stable(st, names, sprows, css, k);
}

} // verus!
