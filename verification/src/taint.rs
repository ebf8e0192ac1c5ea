//! The taint engine's passes over one function: finding sources and sinks,
//! building the variable flow graph, detecting validations, linking sources
//! to sinks through flow-graph reachability, and classifying how parameters
//! influence state.

use vstd::prelude::*;
use crate::ast::{BinOp, ContractAst, Expr, FunctionNode, Stmt};
use crate::analyzer::{base_var_spec, extract_base_variable, find_node_spec};
use crate::dataflow::{
    DataFlowAnalysis, FlowVar, InfluenceType, ParameterInfluence, ParameterInfluenceV, TaintFlow,
    TaintFlowV, TaintSink, TaintSinkV, TaintSource, TaintSourceV, add_edge, add_edge_spec,
    assess_severity, contains_fv, fg_view, fv_view, group_fg_axioms, group_fv_axioms,
    group_pi_axioms, group_tf_axioms, group_tk_axioms, group_ts_axioms, pi_of, reachable_spec,
    flow_reachable_set, severity_spec, tf_of, tk_of, ts_of,
};
use crate::models::{ContractInfo, FieldPath, FunctionDef, PathBase};
use crate::names::{contains_name, names_of, push_unique_gen, push_unique_spec, text_is};

verus! {

broadcast use
    crate::names::group_names_axioms,
    group_fv_axioms,
    group_fg_axioms,
    group_ts_axioms,
    group_tk_axioms,
    group_tf_axioms,
    group_pi_axioms,
;

/// The taint/data-flow analyzer. [`Self::analyze`] runs the whole engine over
/// one analyzed contract.
#[derive(Debug)]
pub struct DataFlowAnalyzer;

/// The `msg` member read as a taint source, when the member is one of the
/// transaction globals.
pub open spec fn msg_source(member: Seq<char>) -> Option<TaintSourceV> {
    if member == "sender"@ {
        Some(TaintSourceV::MsgSender)
    } else if member == "value"@ {
        Some(TaintSourceV::MsgValue)
    } else if member == "data"@ {
        Some(TaintSourceV::MsgData)
    } else {
        None
    }
}

/// The taint-source scan over an expression: `msg.*` reads and call returns
/// on contract-typed variables.
pub open spec fn scan_expr_sources_spec(e: Expr, acc: Seq<TaintSourceV>) -> Seq<TaintSourceV>
    decreases e, 0int,
{
    match e {
        Expr::MemberAccess(b, m) => {
            let acc1 = match *b {
                Expr::Variable(id) => if id@ == "msg"@ {
                    match msg_source(m@) {
                        Some(src) => push_unique_gen(acc, src),
                        None => acc,
                    }
                } else {
                    acc
                },
                _ => acc,
            };
            scan_expr_sources_spec(*b, acc1)
        },
        Expr::FunctionCall(f, args) => {
            let acc1 = match *f {
                Expr::MemberAccess(ce, fname) => match *ce {
                    Expr::Variable(ci) => push_unique_gen(
                        acc,
                        TaintSourceV::ExternalCallReturn {
                            contract_var: ci@,
                            function_name: fname@,
                        },
                    ),
                    _ => acc,
                },
                _ => acc,
            };
            let acc2 = scan_expr_sources_spec(*f, acc1);
            scan_exprs_sources_spec(args@, 0, acc2)
        },
        Expr::Assign(_, l, r) => scan_expr_sources_spec(*r, scan_expr_sources_spec(*l, acc)),
        Expr::Binary(_, l, r) => scan_expr_sources_spec(*r, scan_expr_sources_spec(*l, acc)),
        Expr::Unary(_, x) => scan_expr_sources_spec(*x, acc),
        Expr::PreIncrement(x) => scan_expr_sources_spec(*x, acc),
        Expr::PostIncrement(x) => scan_expr_sources_spec(*x, acc),
        Expr::PreDecrement(x) => scan_expr_sources_spec(*x, acc),
        Expr::PostDecrement(x) => scan_expr_sources_spec(*x, acc),
        Expr::Parenthesis(x) => scan_expr_sources_spec(*x, acc),
        Expr::Conditional(c, t, f) => scan_expr_sources_spec(
            *f,
            scan_expr_sources_spec(*t, scan_expr_sources_spec(*c, acc)),
        ),
        Expr::ArraySubscript(b, idx) => {
            let acc1 = scan_expr_sources_spec(*b, acc);
            match idx {
                Some(ix) => scan_expr_sources_spec(*ix, acc1),
                None => acc1,
            }
        },
        _ => acc,
    }
}

/// The taint-source scan folded over argument expressions.
pub open spec fn scan_exprs_sources_spec(es: Seq<Expr>, i: int, acc: Seq<TaintSourceV>) -> Seq<
    TaintSourceV,
>
    decreases es, es.len() - i,
{
    if i < 0 || i >= es.len() {
        acc
    } else {
        scan_exprs_sources_spec(es, i + 1, scan_expr_sources_spec(es[i], acc))
    }
}

/// The taint-source scan over a statement.
pub open spec fn scan_stmt_sources_spec(s: Stmt, acc: Seq<TaintSourceV>) -> Seq<TaintSourceV>
    decreases s, 0int,
{
    match s {
        Stmt::Block { statements, .. } => scan_stmts_sources_spec(statements@, 0, acc),
        Stmt::Expression(e) => scan_expr_sources_spec(e, acc),
        Stmt::If(c, t, e) => {
            let a1 = scan_stmt_sources_spec(*t, scan_expr_sources_spec(c, acc));
            match e {
                Some(es) => scan_stmt_sources_spec(*es, a1),
                None => a1,
            }
        },
        Stmt::While(c, b) => scan_stmt_sources_spec(*b, scan_expr_sources_spec(c, acc)),
        Stmt::DoWhile(b, c) => scan_expr_sources_spec(c, scan_stmt_sources_spec(*b, acc)),
        Stmt::For(init, cond, next, body) => {
            let a1 = match init {
                Some(s1) => scan_stmt_sources_spec(*s1, acc),
                None => acc,
            };
            let a2 = match cond {
                Some(c) => scan_expr_sources_spec(*c, a1),
                None => a1,
            };
            let a3 = match next {
                Some(u) => scan_expr_sources_spec(*u, a2),
                None => a2,
            };
            match body {
                Some(b) => scan_stmt_sources_spec(*b, a3),
                None => a3,
            }
        },
        Stmt::VariableDefinition(_, init) => match init {
            Some(e) => scan_expr_sources_spec(e, acc),
            None => acc,
        },
        Stmt::Return(oe) => match oe {
            Some(e) => scan_expr_sources_spec(e, acc),
            None => acc,
        },
        _ => acc,
    }
}

/// The taint-source scan folded over the statements of a block.
pub open spec fn scan_stmts_sources_spec(ss: Seq<Stmt>, i: int, acc: Seq<TaintSourceV>) -> Seq<
    TaintSourceV,
>
    decreases ss, ss.len() - i,
{
    if i < 0 || i >= ss.len() {
        acc
    } else {
        scan_stmts_sources_spec(ss, i + 1, scan_stmt_sources_spec(ss[i], acc))
    }
}

/// Append a source unless an equal one is already present.
fn push_unique_source(v: &mut Vec<TaintSource>, x: TaintSource)
    ensures
        ts_of(final(v)@) == push_unique_gen(ts_of(old(v)@), x@),
{
    let mut i: usize = 0;
    while i < v.len()
        invariant
            i <= v.len(),
            forall|j: int| 0 <= j < i ==> ts_of(v@)[j] != x@,
        decreases v.len() - i,
    {
        let hit = match (&v[i], &x) {
            (TaintSource::MsgSender, TaintSource::MsgSender) => true,
            (TaintSource::MsgValue, TaintSource::MsgValue) => true,
            (TaintSource::MsgData, TaintSource::MsgData) => true,
            (
                TaintSource::ExternalCallReturn { contract_var: a, function_name: b },
                TaintSource::ExternalCallReturn { contract_var: c, function_name: d },
            ) => a.eq(c) && b.eq(d),
            (
                TaintSource::FunctionParameter {
                    function_name: a,
                    param_index: b,
                    param_name: c,
                },
                TaintSource::FunctionParameter {
                    function_name: d,
                    param_index: e,
                    param_name: f,
                },
            ) => a.eq(d) && b == e && c.eq(f),
            (
                TaintSource::TaintedArrayAccess { base_var: a },
                TaintSource::TaintedArrayAccess { base_var: b },
            ) => a.eq(b),
            _ => false,
        };
        if hit {
            assert(ts_of(v@)[i as int] == x@);
            return ;
        }
        i += 1;
    }
    assert(!ts_of(v@).contains(x@));
    v.push(x);
}

/// Scan an expression for `msg.*` reads and external-call returns.
pub fn scan_expression_for_taint_sources(e: &Expr, sources: &mut Vec<TaintSource>)
    ensures
        ts_of(final(sources)@) == scan_expr_sources_spec(*e, ts_of(old(sources)@)),
    decreases *e, 0int,
{
    match e {
        Expr::MemberAccess(b, m) => {
            if let Expr::Variable(id) = &**b {
                if text_is(id, "msg") {
                    if text_is(m, "sender") {
                        push_unique_source(sources, TaintSource::MsgSender);
                    } else if text_is(m, "value") {
                        push_unique_source(sources, TaintSource::MsgValue);
                    } else if text_is(m, "data") {
                        push_unique_source(sources, TaintSource::MsgData);
                    }
                }
            }
            scan_expression_for_taint_sources(b, sources);
        },
        Expr::FunctionCall(f, args) => {
            if let Expr::MemberAccess(ce, fname) = &**f {
                if let Expr::Variable(ci) = &**ce {
                    push_unique_source(
                        sources,
                        TaintSource::ExternalCallReturn {
                            contract_var: ci.clone(),
                            function_name: fname.clone(),
                        },
                    );
                }
            }
            scan_expression_for_taint_sources(f, sources);
            let ghost a2 = ts_of(sources@);
            let mut i: usize = 0;
            proof {
                assert(decreases_to!(*e => *args));
            }
            while i < args.len()
                invariant
                    i <= args.len(),
                    decreases_to!(*e => *args),
                    scan_exprs_sources_spec(args@, i as int, ts_of(sources@))
                        == scan_exprs_sources_spec(args@, 0, a2),
                decreases args.len() - i,
            {
                scan_expression_for_taint_sources(&args[i], sources);
                i += 1;
            }
        },
        Expr::Assign(_, l, r) => {
            scan_expression_for_taint_sources(l, sources);
            scan_expression_for_taint_sources(r, sources);
        },
        Expr::Binary(_, l, r) => {
            scan_expression_for_taint_sources(l, sources);
            scan_expression_for_taint_sources(r, sources);
        },
        Expr::Unary(_, x) => scan_expression_for_taint_sources(x, sources),
        Expr::PreIncrement(x) => scan_expression_for_taint_sources(x, sources),
        Expr::PostIncrement(x) => scan_expression_for_taint_sources(x, sources),
        Expr::PreDecrement(x) => scan_expression_for_taint_sources(x, sources),
        Expr::PostDecrement(x) => scan_expression_for_taint_sources(x, sources),
        Expr::Parenthesis(x) => scan_expression_for_taint_sources(x, sources),
        Expr::Conditional(c, t, f) => {
            scan_expression_for_taint_sources(c, sources);
            scan_expression_for_taint_sources(t, sources);
            scan_expression_for_taint_sources(f, sources);
        },
        Expr::ArraySubscript(b, idx) => {
            scan_expression_for_taint_sources(b, sources);
            if let Some(ix) = idx {
                scan_expression_for_taint_sources(ix, sources);
            }
        },
        _ => {},
    }
}

/// Scan a statement tree for taint sources.
pub fn scan_for_taint_sources(s: &Stmt, sources: &mut Vec<TaintSource>)
    ensures
        ts_of(final(sources)@) == scan_stmt_sources_spec(*s, ts_of(old(sources)@)),
    decreases *s, 0int,
{
    match s {
        Stmt::Block { statements, .. } => {
            let ghost a0 = ts_of(sources@);
            let mut i: usize = 0;
            proof {
                assert(decreases_to!(*s => *statements));
            }
            while i < statements.len()
                invariant
                    i <= statements.len(),
                    decreases_to!(*s => *statements),
                    scan_stmts_sources_spec(statements@, i as int, ts_of(sources@))
                        == scan_stmts_sources_spec(statements@, 0, a0),
                decreases statements.len() - i,
            {
                scan_for_taint_sources(&statements[i], sources);
                i += 1;
            }
        },
        Stmt::Expression(e) => scan_expression_for_taint_sources(e, sources),
        Stmt::If(c, t, e) => {
            scan_expression_for_taint_sources(c, sources);
            scan_for_taint_sources(t, sources);
            if let Some(es) = e {
                scan_for_taint_sources(es, sources);
            }
        },
        Stmt::While(c, b) => {
            scan_expression_for_taint_sources(c, sources);
            scan_for_taint_sources(b, sources);
        },
        Stmt::DoWhile(b, c) => {
            scan_for_taint_sources(b, sources);
            scan_expression_for_taint_sources(c, sources);
        },
        Stmt::For(init, cond, next, body) => {
            if let Some(s1) = init {
                scan_for_taint_sources(s1, sources);
            }
            if let Some(c) = cond {
                scan_expression_for_taint_sources(c, sources);
            }
            if let Some(u) = next {
                scan_expression_for_taint_sources(u, sources);
            }
            if let Some(b) = body {
                scan_for_taint_sources(b, sources);
            }
        },
        Stmt::VariableDefinition(_, init) => {
            if let Some(e) = init {
                scan_expression_for_taint_sources(e, sources);
            }
        },
        Stmt::Return(oe) => {
            if let Some(e) = oe {
                scan_expression_for_taint_sources(e, sources);
            }
        },
        _ => {},
    }
}

/// A plain variable reference: a root name with at most one member.
pub open spec fn var_ref_spec(e: Expr) -> Option<(Seq<char>, Option<Seq<char>>)> {
    match e {
        Expr::Variable(v) => Some((v@, None)),
        Expr::MemberAccess(b, m) => match *b {
            Expr::Variable(vb) => Some((vb@, Some(m@))),
            _ => None,
        },
        _ => None,
    }
}

/// Extract a plain variable reference from an expression.
pub fn var_ref_of(e: &Expr) -> (r: Option<FlowVar>)
    ensures
        (match r {
            Some(v) => Some(v@),
            None => None,
        }) == var_ref_spec(*e),
{
    match e {
        Expr::Variable(v) => Some(FlowVar { base: v.clone(), member: None }),
        Expr::MemberAccess(b, m) => match &**b {
            Expr::Variable(vb) => Some(FlowVar { base: vb.clone(), member: Some(m.clone()) }),
            _ => None,
        },
        _ => None,
    }
}

/// The taint-sink scan over an expression: `selfdestruct`/`suicide` calls,
/// `delegatecall`, and the value-moving member calls.
pub open spec fn scan_expr_sinks_spec(e: Expr, acc: Seq<TaintSinkV>) -> Seq<TaintSinkV>
    decreases e, 0int,
{
    match e {
        Expr::FunctionCall(f, args) => {
            let acc1 = match *f {
                Expr::Variable(id) => if id@ == "selfdestruct"@ || id@ == "suicide"@ {
                    acc.push(
                        TaintSinkV::SelfDestruct {
                            target_expr: if args@.len() > 0 {
                                var_ref_spec(args@[0])
                            } else {
                                None
                            },
                        },
                    )
                } else {
                    acc
                },
                Expr::MemberAccess(b, m) => if m@ == "delegatecall"@ {
                    acc.push(TaintSinkV::DelegateCall { target_expr: var_ref_spec(*b) })
                } else if m@ == "call"@ || m@ == "staticcall"@ || m@ == "callcode"@ || m@
                    == "transfer"@ || m@ == "send"@ {
                    acc.push(TaintSinkV::ValueTransfer { target_expr: var_ref_spec(*b) })
                } else {
                    acc
                },
                _ => acc,
            };
            let acc2 = scan_expr_sinks_spec(*f, acc1);
            scan_exprs_sinks_spec(args@, 0, acc2)
        },
        Expr::Assign(_, l, r) => scan_expr_sinks_spec(*r, scan_expr_sinks_spec(*l, acc)),
        Expr::Binary(_, l, r) => scan_expr_sinks_spec(*r, scan_expr_sinks_spec(*l, acc)),
        Expr::Unary(_, x) => scan_expr_sinks_spec(*x, acc),
        Expr::PreIncrement(x) => scan_expr_sinks_spec(*x, acc),
        Expr::PostIncrement(x) => scan_expr_sinks_spec(*x, acc),
        Expr::PreDecrement(x) => scan_expr_sinks_spec(*x, acc),
        Expr::PostDecrement(x) => scan_expr_sinks_spec(*x, acc),
        Expr::Parenthesis(x) => scan_expr_sinks_spec(*x, acc),
        Expr::Conditional(c, t, f) => scan_expr_sinks_spec(
            *f,
            scan_expr_sinks_spec(*t, scan_expr_sinks_spec(*c, acc)),
        ),
        Expr::ArraySubscript(b, idx) => {
            let acc1 = scan_expr_sinks_spec(*b, acc);
            match idx {
                Some(ix) => scan_expr_sinks_spec(*ix, acc1),
                None => acc1,
            }
        },
        Expr::MemberAccess(b, _) => scan_expr_sinks_spec(*b, acc),
        _ => acc,
    }
}

/// The taint-sink scan folded over argument expressions.
pub open spec fn scan_exprs_sinks_spec(es: Seq<Expr>, i: int, acc: Seq<TaintSinkV>) -> Seq<
    TaintSinkV,
>
    decreases es, es.len() - i,
{
    if i < 0 || i >= es.len() {
        acc
    } else {
        scan_exprs_sinks_spec(es, i + 1, scan_expr_sinks_spec(es[i], acc))
    }
}

/// The taint-sink scan over a statement.
pub open spec fn scan_stmt_sinks_spec(s: Stmt, acc: Seq<TaintSinkV>) -> Seq<TaintSinkV>
    decreases s, 0int,
{
    match s {
        Stmt::Block { statements, .. } => scan_stmts_sinks_spec(statements@, 0, acc),
        Stmt::Expression(e) => scan_expr_sinks_spec(e, acc),
        Stmt::If(c, t, e) => {
            let a1 = scan_stmt_sinks_spec(*t, scan_expr_sinks_spec(c, acc));
            match e {
                Some(es) => scan_stmt_sinks_spec(*es, a1),
                None => a1,
            }
        },
        Stmt::While(c, b) => scan_stmt_sinks_spec(*b, scan_expr_sinks_spec(c, acc)),
        Stmt::DoWhile(b, c) => scan_expr_sinks_spec(c, scan_stmt_sinks_spec(*b, acc)),
        Stmt::For(init, cond, next, body) => {
            let a1 = match init {
                Some(s1) => scan_stmt_sinks_spec(*s1, acc),
                None => acc,
            };
            let a2 = match cond {
                Some(c) => scan_expr_sinks_spec(*c, a1),
                None => a1,
            };
            let a3 = match next {
                Some(u) => scan_expr_sinks_spec(*u, a2),
                None => a2,
            };
            match body {
                Some(b) => scan_stmt_sinks_spec(*b, a3),
                None => a3,
            }
        },
        Stmt::VariableDefinition(_, init) => match init {
            Some(e) => scan_expr_sinks_spec(e, acc),
            None => acc,
        },
        Stmt::Return(oe) => match oe {
            Some(e) => scan_expr_sinks_spec(e, acc),
            None => acc,
        },
        _ => acc,
    }
}

/// The taint-sink scan folded over the statements of a block.
pub open spec fn scan_stmts_sinks_spec(ss: Seq<Stmt>, i: int, acc: Seq<TaintSinkV>) -> Seq<
    TaintSinkV,
>
    decreases ss, ss.len() - i,
{
    if i < 0 || i >= ss.len() {
        acc
    } else {
        scan_stmts_sinks_spec(ss, i + 1, scan_stmt_sinks_spec(ss[i], acc))
    }
}

/// Scan an expression for dangerous operations.
pub fn scan_expression_for_taint_sinks(e: &Expr, sinks: &mut Vec<TaintSink>)
    ensures
        tk_of(final(sinks)@) == scan_expr_sinks_spec(*e, tk_of(old(sinks)@)),
    decreases *e, 0int,
{
    match e {
        Expr::FunctionCall(f, args) => {
            match &**f {
                Expr::Variable(id) => {
                    if text_is(id, "selfdestruct") || text_is(id, "suicide") {
                        let target_expr = if args.len() > 0 {
                            var_ref_of(&args[0])
                        } else {
                            None
                        };
                        sinks.push(TaintSink::SelfDestruct { target_expr });
                    }
                },
                Expr::MemberAccess(b, m) => {
                    if text_is(m, "delegatecall") {
                        let target_expr = var_ref_of(b);
                        sinks.push(TaintSink::DelegateCall { target_expr });
                    } else if text_is(m, "call") || text_is(m, "staticcall") || text_is(
                        m,
                        "callcode",
                    ) || text_is(m, "transfer") || text_is(m, "send") {
                        let target_expr = var_ref_of(b);
                        sinks.push(TaintSink::ValueTransfer { target_expr });
                    }
                },
                _ => {},
            }
            scan_expression_for_taint_sinks(f, sinks);
            let ghost a2 = tk_of(sinks@);
            let mut i: usize = 0;
            proof {
                assert(decreases_to!(*e => *args));
            }
            while i < args.len()
                invariant
                    i <= args.len(),
                    decreases_to!(*e => *args),
                    scan_exprs_sinks_spec(args@, i as int, tk_of(sinks@))
                        == scan_exprs_sinks_spec(args@, 0, a2),
                decreases args.len() - i,
            {
                scan_expression_for_taint_sinks(&args[i], sinks);
                i += 1;
            }
        },
        Expr::Assign(_, l, r) => {
            scan_expression_for_taint_sinks(l, sinks);
            scan_expression_for_taint_sinks(r, sinks);
        },
        Expr::Binary(_, l, r) => {
            scan_expression_for_taint_sinks(l, sinks);
            scan_expression_for_taint_sinks(r, sinks);
        },
        Expr::Unary(_, x) => scan_expression_for_taint_sinks(x, sinks),
        Expr::PreIncrement(x) => scan_expression_for_taint_sinks(x, sinks),
        Expr::PostIncrement(x) => scan_expression_for_taint_sinks(x, sinks),
        Expr::PreDecrement(x) => scan_expression_for_taint_sinks(x, sinks),
        Expr::PostDecrement(x) => scan_expression_for_taint_sinks(x, sinks),
        Expr::Parenthesis(x) => scan_expression_for_taint_sinks(x, sinks),
        Expr::Conditional(c, t, f) => {
            scan_expression_for_taint_sinks(c, sinks);
            scan_expression_for_taint_sinks(t, sinks);
            scan_expression_for_taint_sinks(f, sinks);
        },
        Expr::ArraySubscript(b, idx) => {
            scan_expression_for_taint_sinks(b, sinks);
            if let Some(ix) = idx {
                scan_expression_for_taint_sinks(ix, sinks);
            }
        },
        Expr::MemberAccess(b, _) => scan_expression_for_taint_sinks(b, sinks),
        _ => {},
    }
}

/// Scan a statement tree for dangerous operations.
pub fn scan_for_taint_sinks(s: &Stmt, sinks: &mut Vec<TaintSink>)
    ensures
        tk_of(final(sinks)@) == scan_stmt_sinks_spec(*s, tk_of(old(sinks)@)),
    decreases *s, 0int,
{
    match s {
        Stmt::Block { statements, .. } => {
            let ghost a0 = tk_of(sinks@);
            let mut i: usize = 0;
            proof {
                assert(decreases_to!(*s => *statements));
            }
            while i < statements.len()
                invariant
                    i <= statements.len(),
                    decreases_to!(*s => *statements),
                    scan_stmts_sinks_spec(statements@, i as int, tk_of(sinks@))
                        == scan_stmts_sinks_spec(statements@, 0, a0),
                decreases statements.len() - i,
            {
                scan_for_taint_sinks(&statements[i], sinks);
                i += 1;
            }
        },
        Stmt::Expression(e) => scan_expression_for_taint_sinks(e, sinks),
        Stmt::If(c, t, e) => {
            scan_expression_for_taint_sinks(c, sinks);
            scan_for_taint_sinks(t, sinks);
            if let Some(es) = e {
                scan_for_taint_sinks(es, sinks);
            }
        },
        Stmt::While(c, b) => {
            scan_expression_for_taint_sinks(c, sinks);
            scan_for_taint_sinks(b, sinks);
        },
        Stmt::DoWhile(b, c) => {
            scan_for_taint_sinks(b, sinks);
            scan_expression_for_taint_sinks(c, sinks);
        },
        Stmt::For(init, cond, next, body) => {
            if let Some(s1) = init {
                scan_for_taint_sinks(s1, sinks);
            }
            if let Some(c) = cond {
                scan_expression_for_taint_sinks(c, sinks);
            }
            if let Some(u) = next {
                scan_expression_for_taint_sinks(u, sinks);
            }
            if let Some(b) = body {
                scan_for_taint_sinks(b, sinks);
            }
        },
        Stmt::VariableDefinition(_, init) => {
            if let Some(e) = init {
                scan_expression_for_taint_sinks(e, sinks);
            }
        },
        Stmt::Return(oe) => {
            if let Some(e) = oe {
                scan_expression_for_taint_sinks(e, sinks);
            }
        },
        _ => {},
    }
}

/// Every variable reference an expression reads, in reading order: plain
/// identifiers, and for a member access both the root and the root-member
/// pair.
pub open spec fn collect_vars_spec(e: Expr, acc: Seq<(Seq<char>, Option<Seq<char>>)>) -> Seq<
    (Seq<char>, Option<Seq<char>>),
>
    decreases e, 0int,
{
    match e {
        Expr::Variable(v) => acc.push((v@, None)),
        Expr::MemberAccess(b, m) => {
            let acc1 = match *b {
                Expr::Variable(id) => acc.push((id@, None)),
                _ => collect_vars_spec(*b, acc),
            };
            match base_var_spec(*b) {
                Some(root) => acc1.push((root, Some(m@))),
                None => acc1,
            }
        },
        Expr::ArraySubscript(b, idx) => {
            let acc1 = collect_vars_spec(*b, acc);
            match idx {
                Some(ix) => collect_vars_spec(*ix, acc1),
                None => acc1,
            }
        },
        Expr::FunctionCall(f, args) => collect_varss_spec(args@, 0, collect_vars_spec(*f, acc)),
        Expr::Binary(_, l, r) => collect_vars_spec(*r, collect_vars_spec(*l, acc)),
        Expr::Unary(_, x) => collect_vars_spec(*x, acc),
        Expr::PreIncrement(x) => collect_vars_spec(*x, acc),
        Expr::PostIncrement(x) => collect_vars_spec(*x, acc),
        Expr::PreDecrement(x) => collect_vars_spec(*x, acc),
        Expr::PostDecrement(x) => collect_vars_spec(*x, acc),
        Expr::Parenthesis(x) => collect_vars_spec(*x, acc),
        Expr::Conditional(c, t, f) => collect_vars_spec(
            *f,
            collect_vars_spec(*t, collect_vars_spec(*c, acc)),
        ),
        _ => acc,
    }
}

/// The reference collection folded over argument expressions.
pub open spec fn collect_varss_spec(
    es: Seq<Expr>,
    i: int,
    acc: Seq<(Seq<char>, Option<Seq<char>>)>,
) -> Seq<(Seq<char>, Option<Seq<char>>)>
    decreases es, es.len() - i,
{
    if i < 0 || i >= es.len() {
        acc
    } else {
        collect_varss_spec(es, i + 1, collect_vars_spec(es[i], acc))
    }
}

/// Collect every variable reference an expression reads.
pub fn collect_variables_recursive(e: &Expr, vars: &mut Vec<FlowVar>)
    ensures
        fv_view(final(vars)@) == collect_vars_spec(*e, fv_view(old(vars)@)),
    decreases *e, 0int,
{
    match e {
        Expr::Variable(v) => {
            vars.push(FlowVar { base: v.clone(), member: None });
        },
        Expr::MemberAccess(b, m) => {
            if let Expr::Variable(id) = &**b {
                vars.push(FlowVar { base: id.clone(), member: None });
            } else {
                collect_variables_recursive(b, vars);
            }
            if let Some(root) = extract_base_variable(b) {
                vars.push(FlowVar { base: root, member: Some(m.clone()) });
            }
        },
        Expr::ArraySubscript(b, idx) => {
            collect_variables_recursive(b, vars);
            if let Some(ix) = idx {
                collect_variables_recursive(ix, vars);
            }
        },
        Expr::FunctionCall(f, args) => {
            collect_variables_recursive(f, vars);
            let ghost a1 = fv_view(vars@);
            let mut i: usize = 0;
            proof {
                assert(decreases_to!(*e => *args));
            }
            while i < args.len()
                invariant
                    i <= args.len(),
                    decreases_to!(*e => *args),
                    collect_varss_spec(args@, i as int, fv_view(vars@)) == collect_varss_spec(
                        args@,
                        0,
                        a1,
                    ),
                decreases args.len() - i,
            {
                collect_variables_recursive(&args[i], vars);
                i += 1;
            }
        },
        Expr::Binary(_, l, r) => {
            collect_variables_recursive(l, vars);
            collect_variables_recursive(r, vars);
        },
        Expr::Unary(_, x) => collect_variables_recursive(x, vars),
        Expr::PreIncrement(x) => collect_variables_recursive(x, vars),
        Expr::PostIncrement(x) => collect_variables_recursive(x, vars),
        Expr::PreDecrement(x) => collect_variables_recursive(x, vars),
        Expr::PostDecrement(x) => collect_variables_recursive(x, vars),
        Expr::Parenthesis(x) => collect_variables_recursive(x, vars),
        Expr::Conditional(c, t, f) => {
            collect_variables_recursive(c, vars);
            collect_variables_recursive(t, vars);
            collect_variables_recursive(f, vars);
        },
        _ => {},
    }
}

/// Add the flow edges of one batch of read references into one target.
pub open spec fn add_edges_spec(
    g: Seq<((Seq<char>, Option<Seq<char>>), Seq<(Seq<char>, Option<Seq<char>>)>)>,
    froms: Seq<(Seq<char>, Option<Seq<char>>)>,
    j: int,
    to: (Seq<char>, Option<Seq<char>>),
) -> Seq<((Seq<char>, Option<Seq<char>>), Seq<(Seq<char>, Option<Seq<char>>)>)>
    decreases froms.len() - j,
{
    if j < 0 || j >= froms.len() {
        g
    } else {
        add_edges_spec(add_edge_spec(g, froms[j], to), froms, j + 1, to)
    }
}

/// The flow-graph contribution of one expression: an assignment, wherever it
/// stands, flows every reference read on the right into the target's root,
/// a compound assignment also flows the target into itself, and every
/// subexpression is scanned for further assignments.
pub open spec fn scan_expr_flows_spec(
    e: Expr,
    g: Seq<((Seq<char>, Option<Seq<char>>), Seq<(Seq<char>, Option<Seq<char>>)>)>,
) -> Seq<((Seq<char>, Option<Seq<char>>), Seq<(Seq<char>, Option<Seq<char>>)>)>
    decreases e, 0int,
{
    match e {
        Expr::Assign(op, l, r) => {
            let g1 = match base_var_spec(*l) {
                Some(root) => {
                    let target = (root, None::<Seq<char>>);
                    let g0 = if op == crate::ast::AssignOp::Assign {
                        g
                    } else {
                        add_edge_spec(g, target, target)
                    };
                    add_edges_spec(g0, collect_vars_spec(*r, Seq::empty()), 0, target)
                },
                None => g,
            };
            scan_expr_flows_spec(*r, scan_expr_flows_spec(*l, g1))
        },
        Expr::FunctionCall(f, args) => scan_exprs_flows_spec(args@, 0, scan_expr_flows_spec(*f, g)),
        Expr::MemberAccess(b, _) => scan_expr_flows_spec(*b, g),
        Expr::ArraySubscript(b, idx) => {
            let g1 = scan_expr_flows_spec(*b, g);
            match idx {
                Some(ix) => scan_expr_flows_spec(*ix, g1),
                None => g1,
            }
        },
        Expr::Binary(_, l, r) => scan_expr_flows_spec(*r, scan_expr_flows_spec(*l, g)),
        Expr::Unary(_, x) => scan_expr_flows_spec(*x, g),
        Expr::PreIncrement(x) => scan_expr_flows_spec(*x, g),
        Expr::PostIncrement(x) => scan_expr_flows_spec(*x, g),
        Expr::PreDecrement(x) => scan_expr_flows_spec(*x, g),
        Expr::PostDecrement(x) => scan_expr_flows_spec(*x, g),
        Expr::Delete(x) => scan_expr_flows_spec(*x, g),
        Expr::Parenthesis(x) => scan_expr_flows_spec(*x, g),
        Expr::Conditional(c, t, f) => scan_expr_flows_spec(
            *f,
            scan_expr_flows_spec(*t, scan_expr_flows_spec(*c, g)),
        ),
        _ => g,
    }
}

/// The flow-graph contribution folded over argument expressions.
pub open spec fn scan_exprs_flows_spec(
    es: Seq<Expr>,
    i: int,
    g: Seq<((Seq<char>, Option<Seq<char>>), Seq<(Seq<char>, Option<Seq<char>>)>)>,
) -> Seq<((Seq<char>, Option<Seq<char>>), Seq<(Seq<char>, Option<Seq<char>>)>)>
    decreases es, es.len() - i,
{
    if i < 0 || i >= es.len() {
        g
    } else {
        scan_exprs_flows_spec(es, i + 1, scan_expr_flows_spec(es[i], g))
    }
}

/// The flow-graph contribution of a statement tree.
pub open spec fn scan_stmt_flows_spec(
    s: Stmt,
    g: Seq<((Seq<char>, Option<Seq<char>>), Seq<(Seq<char>, Option<Seq<char>>)>)>,
) -> Seq<((Seq<char>, Option<Seq<char>>), Seq<(Seq<char>, Option<Seq<char>>)>)>
    decreases s, 0int,
{
    match s {
        Stmt::Block { statements, .. } => scan_stmts_flows_spec(statements@, 0, g),
        Stmt::Expression(e) => scan_expr_flows_spec(e, g),
        Stmt::If(c, t, e) => {
            let g0 = scan_expr_flows_spec(c, g);
            let g1 = scan_stmt_flows_spec(*t, g0);
            match e {
                Some(es) => scan_stmt_flows_spec(*es, g1),
                None => g1,
            }
        },
        Stmt::While(c, b) => scan_stmt_flows_spec(*b, scan_expr_flows_spec(c, g)),
        Stmt::DoWhile(b, c) => scan_expr_flows_spec(c, scan_stmt_flows_spec(*b, g)),
        Stmt::For(init, cond, update, body) => {
            let g1 = match init {
                Some(s1) => scan_stmt_flows_spec(*s1, g),
                None => g,
            };
            let g2 = match cond {
                Some(c) => scan_expr_flows_spec(*c, g1),
                None => g1,
            };
            let g3 = match update {
                Some(u) => scan_expr_flows_spec(*u, g2),
                None => g2,
            };
            match body {
                Some(b) => scan_stmt_flows_spec(*b, g3),
                None => g3,
            }
        },
        Stmt::VariableDefinition(name_opt, init_opt) => match (name_opt, init_opt) {
            (Some(n), Some(init)) => scan_expr_flows_spec(
                init,
                add_edges_spec(g, collect_vars_spec(init, Seq::empty()), 0, (n@, None)),
            ),
            (None, Some(init)) => scan_expr_flows_spec(init, g),
            _ => g,
        },
        Stmt::Return(oe) => match oe {
            Some(e) => scan_expr_flows_spec(e, g),
            None => g,
        },
        Stmt::Emit(e) => scan_expr_flows_spec(e, g),
        Stmt::Revert(_, args) => scan_exprs_flows_spec(args@, 0, g),
        _ => g,
    }
}

/// The flow-graph contribution folded over the statements of a block.
pub open spec fn scan_stmts_flows_spec(
    ss: Seq<Stmt>,
    i: int,
    g: Seq<((Seq<char>, Option<Seq<char>>), Seq<(Seq<char>, Option<Seq<char>>)>)>,
) -> Seq<((Seq<char>, Option<Seq<char>>), Seq<(Seq<char>, Option<Seq<char>>)>)>
    decreases ss, ss.len() - i,
{
    if i < 0 || i >= ss.len() {
        g
    } else {
        scan_stmts_flows_spec(ss, i + 1, scan_stmt_flows_spec(ss[i], g))
    }
}

/// Record every reference of a batch flowing into one target.
fn add_edges(g: &mut Vec<(FlowVar, Vec<FlowVar>)>, froms: &Vec<FlowVar>, to: &FlowVar)
    ensures
        fg_view(final(g)@) == add_edges_spec(fg_view(old(g)@), fv_view(froms@), 0, to@),
{
    let mut j: usize = 0;
    while j < froms.len()
        invariant
            j <= froms.len(),
            add_edges_spec(fg_view(g@), fv_view(froms@), j as int, to@) == add_edges_spec(
                fg_view(old(g)@),
                fv_view(froms@),
                0,
                to@,
            ),
        decreases froms.len() - j,
    {
        add_edge(g, froms[j].dup(), to.dup());
        j += 1;
    }
}

/// Scan an expression for assignments, wherever they stand, and record the
/// flows they induce.
pub fn scan_expression_for_flows(e: &Expr, g: &mut Vec<(FlowVar, Vec<FlowVar>)>)
    ensures
        fg_view(final(g)@) == scan_expr_flows_spec(*e, fg_view(old(g)@)),
    decreases *e, 0int,
{
    match e {
        Expr::Assign(op, l, r) => {
            if let Some(root) = extract_base_variable(l) {
                let target = FlowVar { base: root, member: None };
                if !matches!(op, crate::ast::AssignOp::Assign) {
                    add_edge(g, target.dup(), target.dup());
                }
                let mut read: Vec<FlowVar> = Vec::new();
                assert(fv_view(read@) =~= Seq::<(Seq<char>, Option<Seq<char>>)>::empty());
                collect_variables_recursive(r, &mut read);
                add_edges(g, &read, &target);
            }
            scan_expression_for_flows(l, g);
            scan_expression_for_flows(r, g);
        },
        Expr::FunctionCall(f, args) => {
            scan_expression_for_flows(f, g);
            let ghost g1 = fg_view(g@);
            let mut i: usize = 0;
            proof {
                assert(decreases_to!(*e => *args));
            }
            while i < args.len()
                invariant
                    i <= args.len(),
                    decreases_to!(*e => *args),
                    scan_exprs_flows_spec(args@, i as int, fg_view(g@)) == scan_exprs_flows_spec(
                        args@,
                        0,
                        g1,
                    ),
                decreases args.len() - i,
            {
                scan_expression_for_flows(&args[i], g);
                i += 1;
            }
        },
        Expr::MemberAccess(b, _) => scan_expression_for_flows(b, g),
        Expr::ArraySubscript(b, idx) => {
            scan_expression_for_flows(b, g);
            if let Some(ix) = idx {
                scan_expression_for_flows(ix, g);
            }
        },
        Expr::Binary(_, l, r) => {
            scan_expression_for_flows(l, g);
            scan_expression_for_flows(r, g);
        },
        Expr::Unary(_, x) => scan_expression_for_flows(x, g),
        Expr::PreIncrement(x) => scan_expression_for_flows(x, g),
        Expr::PostIncrement(x) => scan_expression_for_flows(x, g),
        Expr::PreDecrement(x) => scan_expression_for_flows(x, g),
        Expr::PostDecrement(x) => scan_expression_for_flows(x, g),
        Expr::Delete(x) => scan_expression_for_flows(x, g),
        Expr::Parenthesis(x) => scan_expression_for_flows(x, g),
        Expr::Conditional(c, t, f) => {
            scan_expression_for_flows(c, g);
            scan_expression_for_flows(t, g);
            scan_expression_for_flows(f, g);
        },
        _ => {},
    }
}

/// Scan a list of argument expressions for assignments, recording the flows
/// they induce.
fn scan_expression_list_for_flows(es: &Vec<Expr>, g: &mut Vec<(FlowVar, Vec<FlowVar>)>)
    ensures
        fg_view(final(g)@) == scan_exprs_flows_spec(es@, 0, fg_view(old(g)@)),
    decreases *es, 1int,
{
    let ghost g0 = fg_view(g@);
    let mut i: usize = 0;
    proof {
        assert(decreases_to!(*es => es@));
    }
    while i < es.len()
        invariant
            i <= es.len(),
            decreases_to!(*es => es@),
            scan_exprs_flows_spec(es@, i as int, fg_view(g@)) == scan_exprs_flows_spec(es@, 0, g0),
        decreases es.len() - i,
    {
        scan_expression_for_flows(&es[i], g);
        i += 1;
    }
}

/// Scan a statement tree for assignments and local initializers, recording
/// the flows they induce.
pub fn scan_statement_for_flows(s: &Stmt, g: &mut Vec<(FlowVar, Vec<FlowVar>)>)
    ensures
        fg_view(final(g)@) == scan_stmt_flows_spec(*s, fg_view(old(g)@)),
    decreases *s, 0int,
{
    match s {
        Stmt::Block { statements, .. } => {
            let ghost g0 = fg_view(g@);
            let mut i: usize = 0;
            proof {
                assert(decreases_to!(*s => *statements));
            }
            while i < statements.len()
                invariant
                    i <= statements.len(),
                    decreases_to!(*s => *statements),
                    scan_stmts_flows_spec(statements@, i as int, fg_view(g@))
                        == scan_stmts_flows_spec(statements@, 0, g0),
                decreases statements.len() - i,
            {
                scan_statement_for_flows(&statements[i], g);
                i += 1;
            }
        },
        Stmt::Expression(e) => scan_expression_for_flows(e, g),
        Stmt::If(c, t, e) => {
            scan_expression_for_flows(c, g);
            scan_statement_for_flows(t, g);
            if let Some(es) = e {
                scan_statement_for_flows(es, g);
            }
        },
        Stmt::While(c, b) => {
            scan_expression_for_flows(c, g);
            scan_statement_for_flows(b, g);
        },
        Stmt::DoWhile(b, c) => {
            scan_statement_for_flows(b, g);
            scan_expression_for_flows(c, g);
        },
        Stmt::For(init, cond, update, body) => {
            if let Some(s1) = init {
                scan_statement_for_flows(s1, g);
            }
            if let Some(c) = cond {
                scan_expression_for_flows(c, g);
            }
            if let Some(u) = update {
                scan_expression_for_flows(u, g);
            }
            if let Some(b) = body {
                scan_statement_for_flows(b, g);
            }
        },
        Stmt::VariableDefinition(name_opt, init_opt) => {
            if let Some(init) = init_opt {
                if let Some(n) = name_opt {
                    let mut read: Vec<FlowVar> = Vec::new();
                    assert(fv_view(read@) =~= Seq::<(Seq<char>, Option<Seq<char>>)>::empty());
                    collect_variables_recursive(init, &mut read);
                    let target = FlowVar { base: n.clone(), member: None };
                    add_edges(g, &read, &target);
                }
                scan_expression_for_flows(init, g);
            }
        },
        Stmt::Return(oe) => {
            if let Some(e) = oe {
                scan_expression_for_flows(e, g);
            }
        },
        Stmt::Emit(e) => scan_expression_for_flows(e, g),
        Stmt::Revert(_, args) => scan_expression_list_for_flows(args, g),
        _ => {},
    }
}

/// Build the variable flow graph of a function body.
pub open spec fn flow_graph_spec(body: Option<Stmt>) -> Seq<
    ((Seq<char>, Option<Seq<char>>), Seq<(Seq<char>, Option<Seq<char>>)>),
> {
    match body {
        Some(b) => scan_stmt_flows_spec(b, Seq::empty()),
        None => Seq::empty(),
    }
}

/// Build the variable flow graph of a function.
pub fn build_variable_flow_graph(func: &FunctionNode) -> (r: Vec<(FlowVar, Vec<FlowVar>)>)
    ensures
        fg_view(r@) == flow_graph_spec(func.body),
{
    let mut g: Vec<(FlowVar, Vec<FlowVar>)> = Vec::new();
    assert(fg_view(g@) =~= Seq::<
        ((Seq<char>, Option<Seq<char>>), Seq<(Seq<char>, Option<Seq<char>>)>),
    >::empty());
    if let Some(b) = &func.body {
        scan_statement_for_flows(b, &mut g);
    }
    g
}

/// Whether a statement tree reverts.
pub open spec fn contains_revert_spec(s: Stmt) -> bool
    decreases s, 0int,
{
    match s {
        Stmt::Revert(_, _) => true,
        Stmt::Block { statements, .. } => stmts_contain_revert_spec(statements@, 0),
        Stmt::Expression(e) => expr_is_revert_spec(e),
        _ => false,
    }
}

/// Whether any statement of a block reverts.
pub open spec fn stmts_contain_revert_spec(ss: Seq<Stmt>, i: int) -> bool
    decreases ss, ss.len() - i,
{
    if i < 0 || i >= ss.len() {
        false
    } else {
        contains_revert_spec(ss[i]) || stmts_contain_revert_spec(ss, i + 1)
    }
}

/// Whether an expression is a plain `revert(...)` call.
pub open spec fn expr_is_revert_spec(e: Expr) -> bool {
    match e {
        Expr::FunctionCall(f, _) => match *f {
            Expr::Variable(id) => id@ == "revert"@,
            _ => false,
        },
        _ => false,
    }
}

/// Whether a statement tree reverts.
pub fn contains_revert(s: &Stmt) -> (r: bool)
    ensures
        r == contains_revert_spec(*s),
    decreases *s, 0int,
{
    match s {
        Stmt::Revert(_, _) => true,
        Stmt::Block { statements, .. } => {
            let mut i: usize = 0;
            proof {
                assert(decreases_to!(*s => *statements));
            }
            while i < statements.len()
                invariant
                    i <= statements.len(),
                    decreases_to!(*s => *statements),
                    contains_revert_spec(*s) == stmts_contain_revert_spec(statements@, 0),
                    stmts_contain_revert_spec(statements@, 0) == stmts_contain_revert_spec(
                        statements@,
                        i as int,
                    ),
                decreases statements.len() - i,
            {
                if contains_revert(&statements[i]) {
                    assert(stmts_contain_revert_spec(statements@, i as int));
                    return true;
                }
                i += 1;
            }
            false
        },
        Stmt::Expression(e) => {
            if let Expr::FunctionCall(f, _) = e {
                if let Expr::Variable(id) = &**f {
                    return text_is(id, "revert");
                }
            }
            false
        },
        _ => false,
    }
}

/// The validated references of a statement tree: everything read by a
/// `require` or `assert` condition, or by an `if` condition whose branch
/// reverts.
pub open spec fn scan_stmt_validations_spec(
    s: Stmt,
    acc: Seq<(Seq<char>, Option<Seq<char>>)>,
) -> Seq<(Seq<char>, Option<Seq<char>>)>
    decreases s, 0int,
{
    match s {
        Stmt::Block { statements, .. } => scan_stmts_validations_spec(statements@, 0, acc),
        Stmt::Expression(e) => match e {
            Expr::FunctionCall(f, args) => match *f {
                Expr::Variable(id) => if (id@ == "require"@ || id@ == "assert"@) && args@.len()
                    > 0 {
                    collect_vars_spec(args@[0], acc)
                } else {
                    acc
                },
                _ => acc,
            },
            _ => acc,
        },
        Stmt::If(c, t, e) => {
            let a1 = if contains_revert_spec(*t) {
                collect_vars_spec(c, acc)
            } else {
                acc
            };
            let a2 = scan_stmt_validations_spec(*t, a1);
            match e {
                Some(es) => scan_stmt_validations_spec(*es, a2),
                None => a2,
            }
        },
        Stmt::While(_, b) => scan_stmt_validations_spec(*b, acc),
        Stmt::DoWhile(b, _) => scan_stmt_validations_spec(*b, acc),
        Stmt::For(_, _, _, body) => match body {
            Some(b) => scan_stmt_validations_spec(*b, acc),
            None => acc,
        },
        _ => acc,
    }
}

/// The validated references folded over the statements of a block.
pub open spec fn scan_stmts_validations_spec(
    ss: Seq<Stmt>,
    i: int,
    acc: Seq<(Seq<char>, Option<Seq<char>>)>,
) -> Seq<(Seq<char>, Option<Seq<char>>)>
    decreases ss, ss.len() - i,
{
    if i < 0 || i >= ss.len() {
        acc
    } else {
        scan_stmts_validations_spec(ss, i + 1, scan_stmt_validations_spec(ss[i], acc))
    }
}

/// Scan a statement tree for validated references.
pub fn scan_for_validations(s: &Stmt, validations: &mut Vec<FlowVar>)
    ensures
        fv_view(final(validations)@) == scan_stmt_validations_spec(*s, fv_view(old(validations)@)),
    decreases *s, 0int,
{
    match s {
        Stmt::Block { statements, .. } => {
            let ghost a0 = fv_view(validations@);
            let mut i: usize = 0;
            proof {
                assert(decreases_to!(*s => *statements));
            }
            while i < statements.len()
                invariant
                    i <= statements.len(),
                    decreases_to!(*s => *statements),
                    scan_stmts_validations_spec(statements@, i as int, fv_view(validations@))
                        == scan_stmts_validations_spec(statements@, 0, a0),
                decreases statements.len() - i,
            {
                scan_for_validations(&statements[i], validations);
                i += 1;
            }
        },
        Stmt::Expression(e) => {
            if let Expr::FunctionCall(f, args) = e {
                if let Expr::Variable(id) = &**f {
                    if (text_is(id, "require") || text_is(id, "assert")) && args.len() > 0 {
                        collect_variables_recursive(&args[0], validations);
                    }
                }
            }
        },
        Stmt::If(c, t, e) => {
            if contains_revert(t) {
                collect_variables_recursive(c, validations);
            }
            scan_for_validations(t, validations);
            if let Some(es) = e {
                scan_for_validations(es, validations);
            }
        },
        Stmt::While(_, b) => scan_for_validations(b, validations),
        Stmt::DoWhile(b, _) => scan_for_validations(b, validations),
        Stmt::For(_, _, _, body) => {
            if let Some(b) = body {
                scan_for_validations(b, validations);
            }
        },
        _ => {},
    }
}

/// The tainted parameters of an external or public function, in declaration
/// order; an unnamed parameter contributes nothing.
pub open spec fn params_sources_spec(
    fname: Seq<char>,
    params: Seq<(Seq<char>, bool)>,
    i: int,
    acc: Seq<TaintSourceV>,
) -> Seq<TaintSourceV>
    decreases params.len() - i,
{
    if i < 0 || i >= params.len() {
        acc
    } else {
        let acc1 = if params[i].0.len() > 0 {
            acc.push(
                TaintSourceV::FunctionParameter {
                    function_name: fname,
                    param_index: i,
                    param_name: params[i].0,
                },
            )
        } else {
            acc
        };
        params_sources_spec(fname, params, i + 1, acc1)
    }
}

/// Every taint source of one function: its parameters when it is externally
/// reachable, then whatever its body reads from the transaction globals or
/// from external calls.
pub open spec fn sources_spec(f: FunctionDef, node: FunctionNode) -> Seq<TaintSourceV> {
    let base = if f.visibility@ == "external"@ || f.visibility@ == "public"@ {
        params_sources_spec(f.name@, crate::analyzer::pn_view(node.params@), 0, Seq::empty())
    } else {
        Seq::empty()
    };
    match node.body {
        Some(b) => scan_stmt_sources_spec(b, base),
        None => base,
    }
}

/// Identify the taint sources of one function.
pub fn identify_taint_sources(func: &FunctionDef, node: &FunctionNode) -> (r: Vec<TaintSource>)
    ensures
        ts_of(r@) == sources_spec(*func, *node),
{
    broadcast use crate::analyzer::group_pn_axioms;

    let mut sources: Vec<TaintSource> = Vec::new();
    assert(ts_of(sources@) =~= Seq::<TaintSourceV>::empty());
    if text_is(&func.visibility, "external") || text_is(&func.visibility, "public") {
        let mut i: usize = 0;
        while i < node.params.len()
            invariant
                i <= node.params.len(),
                params_sources_spec(
                    func.name@,
                    crate::analyzer::pn_view(node.params@),
                    i as int,
                    ts_of(sources@),
                ) == params_sources_spec(
                    func.name@,
                    crate::analyzer::pn_view(node.params@),
                    0,
                    Seq::empty(),
                ),
            decreases node.params.len() - i,
        {
            if node.params[i].name.as_str().unicode_len() > 0 {
                let ghost pre = ts_of(sources@);
                sources.push(
                    TaintSource::FunctionParameter {
                        function_name: func.name.clone(),
                        param_index: i,
                        param_name: node.params[i].name.clone(),
                    },
                );
                assert(ts_of(sources@) =~= pre.push(
                    TaintSourceV::FunctionParameter {
                        function_name: func.name@,
                        param_index: i as int,
                        param_name: node.params@[i as int].name@,
                    },
                ));
            }
            i += 1;
        }
    }
    if let Some(b) = &node.body {
        scan_for_taint_sources(b, &mut sources);
    }
    sources
}

/// The state-write sinks of a coarse mutation set.
pub open spec fn mods_sinks_spec(ms: Seq<Seq<char>>, i: int, acc: Seq<TaintSinkV>) -> Seq<
    TaintSinkV,
>
    decreases ms.len() - i,
{
    if i < 0 || i >= ms.len() {
        acc
    } else {
        mods_sinks_spec(
            ms,
            i + 1,
            acc.push(TaintSinkV::StateModification { var_name: ms[i], field_path: None }),
        )
    }
}

/// The state-write sinks of the field-level paths rooted at a state variable.
pub open spec fn fields_sinks_spec(
    ps: Seq<crate::models::FieldPathV>,
    svs: Seq<Seq<char>>,
    i: int,
    acc: Seq<TaintSinkV>,
) -> Seq<TaintSinkV>
    decreases ps.len() - i,
{
    if i < 0 || i >= ps.len() {
        acc
    } else {
        let acc1 = match ps[i].base {
            crate::models::PathBaseV::Resolved(b) => if svs.contains(b) {
                acc.push(TaintSinkV::StateModification { var_name: b, field_path: Some(ps[i]) })
            } else {
                acc
            },
            _ => acc,
        };
        fields_sinks_spec(ps, svs, i + 1, acc1)
    }
}

/// The external-call sinks of a function's classified calls.
pub open spec fn calls_sinks_spec(
    cs: Seq<crate::models::ExternalCallV>,
    i: int,
    acc: Seq<TaintSinkV>,
) -> Seq<TaintSinkV>
    decreases cs.len() - i,
{
    if i < 0 || i >= cs.len() {
        acc
    } else {
        calls_sinks_spec(
            cs,
            i + 1,
            acc.push(
                TaintSinkV::ExternalCall {
                    target_var: cs[i].target_variable,
                    function_name: cs[i].target_function,
                },
            ),
        )
    }
}

/// Every taint sink of one function: its state writes, coarse and
/// field-level, its external calls, and the dangerous operations in its body.
pub open spec fn sinks_spec(f: FunctionDef, node: FunctionNode, svs: Seq<Seq<char>>) -> Seq<
    TaintSinkV,
> {
    let s1 = mods_sinks_spec(names_of(f.modifies_states@), 0, Seq::empty());
    let s2 = fields_sinks_spec(crate::models::paths_of(f.modifies_state_fields@), svs, 0, s1);
    let s3 = calls_sinks_spec(crate::models::ecs_of(f.external_calls@), 0, s2);
    match node.body {
        Some(b) => scan_stmt_sinks_spec(b, s3),
        None => s3,
    }
}

/// Identify the taint sinks of one function.
pub fn identify_taint_sinks(
    func: &FunctionDef,
    node: &FunctionNode,
    state_vars: &Vec<String>,
) -> (r: Vec<TaintSink>)
    ensures
        tk_of(r@) == sinks_spec(*func, *node, names_of(state_vars@)),
{
    broadcast use crate::models::group_paths_axioms, crate::models::group_ecs_axioms;

    let mut sinks: Vec<TaintSink> = Vec::new();
    assert(tk_of(sinks@) =~= Seq::<TaintSinkV>::empty());
    let mut i: usize = 0;
    while i < func.modifies_states.len()
        invariant
            i <= func.modifies_states.len(),
            mods_sinks_spec(names_of(func.modifies_states@), i as int, tk_of(sinks@))
                == mods_sinks_spec(names_of(func.modifies_states@), 0, Seq::empty()),
        decreases func.modifies_states.len() - i,
    {
        let ghost pre = tk_of(sinks@);
        sinks.push(
            TaintSink::StateModification {
                var_name: func.modifies_states[i].clone(),
                field_path: None,
            },
        );
        assert(tk_of(sinks@) =~= pre.push(
            TaintSinkV::StateModification {
                var_name: func.modifies_states@[i as int]@,
                field_path: None,
            },
        ));
        i += 1;
    }
    let ghost s1 = tk_of(sinks@);
    let mut i: usize = 0;
    while i < func.modifies_state_fields.len()
        invariant
            i <= func.modifies_state_fields.len(),
            fields_sinks_spec(
                crate::models::paths_of(func.modifies_state_fields@),
                names_of(state_vars@),
                i as int,
                tk_of(sinks@),
            ) == fields_sinks_spec(
                crate::models::paths_of(func.modifies_state_fields@),
                names_of(state_vars@),
                0,
                s1,
            ),
        decreases func.modifies_state_fields.len() - i,
    {
        let p = &func.modifies_state_fields[i];
        if let PathBase::Resolved(b) = &p.base {
            if contains_name(state_vars, b) {
                let ghost pre = tk_of(sinks@);
                sinks.push(
                    TaintSink::StateModification { var_name: b.clone(), field_path: Some(p.dup()) },
                );
                assert(tk_of(sinks@) =~= pre.push(
                    TaintSinkV::StateModification {
                        var_name: b@,
                        field_path: Some(func.modifies_state_fields@[i as int]@),
                    },
                ));
            }
        }
        i += 1;
    }
    let ghost s2 = tk_of(sinks@);
    let mut i: usize = 0;
    while i < func.external_calls.len()
        invariant
            i <= func.external_calls.len(),
            calls_sinks_spec(crate::models::ecs_of(func.external_calls@), i as int, tk_of(sinks@))
                == calls_sinks_spec(crate::models::ecs_of(func.external_calls@), 0, s2),
        decreases func.external_calls.len() - i,
    {
        let ghost pre = tk_of(sinks@);
        sinks.push(
            TaintSink::ExternalCall {
                target_var: func.external_calls[i].target_variable.clone(),
                function_name: func.external_calls[i].target_function.clone(),
            },
        );
        assert(tk_of(sinks@) =~= pre.push(
            TaintSinkV::ExternalCall {
                target_var: func.external_calls@[i as int].target_variable@,
                function_name: func.external_calls@[i as int].target_function@,
            },
        ));
        i += 1;
    }
    if let Some(b) = &node.body {
        scan_for_taint_sinks(b, &mut sinks);
    }
    sinks
}

/// The flow node a source's data starts at, for the sources the flow graph
/// can follow.
pub open spec fn source_node_spec(s: TaintSourceV) -> Option<(Seq<char>, Option<Seq<char>>)> {
    match s {
        TaintSourceV::FunctionParameter { param_name, .. } => Some((param_name, None)),
        TaintSourceV::MsgSender => Some(("msg"@, Some("sender"@))),
        TaintSourceV::MsgValue => Some(("msg"@, Some("value"@))),
        TaintSourceV::MsgData => Some(("msg"@, Some("data"@))),
        _ => None,
    }
}

/// The flow node a sink consumes.
pub open spec fn sink_node_spec(k: TaintSinkV) -> Option<(Seq<char>, Option<Seq<char>>)> {
    match k {
        TaintSinkV::StateModification { var_name, .. } => Some((var_name, None)),
        TaintSinkV::ExternalCall { target_var, .. } => Some((target_var, None)),
        TaintSinkV::ValueTransfer { target_expr } => target_expr,
        TaintSinkV::DelegateCall { target_expr } => target_expr,
        TaintSinkV::SelfDestruct { target_expr } => target_expr,
        TaintSinkV::ArrayIndex { array_var } => Some((array_var, None)),
    }
}

/// The flow node a source's data starts at.
fn source_node_of(s: &TaintSource) -> (r: Option<FlowVar>)
    ensures
        (match r {
            Some(v) => Some(v@),
            None => None,
        }) == source_node_spec(s@),
{
    match s {
        TaintSource::FunctionParameter { param_name, .. } => Some(
            FlowVar { base: param_name.clone(), member: None },
        ),
        TaintSource::MsgSender => Some(
            FlowVar { base: String::from_str("msg"), member: Some(String::from_str("sender")) },
        ),
        TaintSource::MsgValue => Some(
            FlowVar { base: String::from_str("msg"), member: Some(String::from_str("value")) },
        ),
        TaintSource::MsgData => Some(
            FlowVar { base: String::from_str("msg"), member: Some(String::from_str("data")) },
        ),
        _ => None,
    }
}

/// The flow node a sink consumes.
fn sink_node_of(k: &TaintSink) -> (r: Option<FlowVar>)
    ensures
        (match r {
            Some(v) => Some(v@),
            None => None,
        }) == sink_node_spec(k@),
{
    match k {
        TaintSink::StateModification { var_name, .. } => Some(
            FlowVar { base: var_name.clone(), member: None },
        ),
        TaintSink::ExternalCall { target_var, .. } => Some(
            FlowVar { base: target_var.clone(), member: None },
        ),
        TaintSink::ValueTransfer { target_expr } => match target_expr {
            Some(v) => Some(v.dup()),
            None => None,
        },
        TaintSink::DelegateCall { target_expr } => match target_expr {
            Some(v) => Some(v.dup()),
            None => None,
        },
        TaintSink::SelfDestruct { target_expr } => match target_expr {
            Some(v) => Some(v.dup()),
            None => None,
        },
        TaintSink::ArrayIndex { array_var } => Some(
            FlowVar { base: array_var.clone(), member: None },
        ),
    }
}

/// The next step of a witness walk: the first listed target that is the sink
/// itself, or that can still reach the sink and has not been visited.
pub open spec fn pick_next_spec(
    row: Seq<(Seq<char>, Option<Seq<char>>)>,
    g: Seq<((Seq<char>, Option<Seq<char>>), Seq<(Seq<char>, Option<Seq<char>>)>)>,
    sink: (Seq<char>, Option<Seq<char>>),
    visited: Seq<(Seq<char>, Option<Seq<char>>)>,
    j: int,
) -> Option<(Seq<char>, Option<Seq<char>>)>
    decreases row.len() - j,
{
    if j < 0 || j >= row.len() {
        None
    } else if row[j] == sink || (reachable_spec(row[j], g).contains(sink) && !visited.contains(
        row[j],
    )) {
        Some(row[j])
    } else {
        pick_next_spec(row, g, sink, visited, j + 1)
    }
}

/// A witness walk from `cur` towards the sink, greedy over the recorded
/// edges, with the degenerate `[source, sink]` pair when it cannot step.
pub open spec fn walk_spec(
    g: Seq<((Seq<char>, Option<Seq<char>>), Seq<(Seq<char>, Option<Seq<char>>)>)>,
    cur: (Seq<char>, Option<Seq<char>>),
    sink: (Seq<char>, Option<Seq<char>>),
    path: Seq<(Seq<char>, Option<Seq<char>>)>,
    fuel: nat,
) -> Seq<(Seq<char>, Option<Seq<char>>)>
    decreases fuel,
{
    let row = match crate::names::assoc_find(g, cur) {
        Some(r) => r,
        None => Seq::empty(),
    };
    match pick_next_spec(row, g, sink, path, 0) {
        Some(t) => if t == sink {
            path.push(t)
        } else if fuel == 0 {
            seq![path[0], sink]
        } else {
            walk_spec(g, t, sink, path.push(t), (fuel - 1) as nat)
        },
        None => seq![path[0], sink],
    }
}

/// The recorded witness path of one flow: the sink alone when the source is
/// the sink, otherwise a walk along recorded edges from source to sink,
/// degenerating to the endpoint pair when no walk is found.
pub open spec fn flow_path_spec(
    sv: (Seq<char>, Option<Seq<char>>),
    kv: (Seq<char>, Option<Seq<char>>),
    g: Seq<((Seq<char>, Option<Seq<char>>), Seq<(Seq<char>, Option<Seq<char>>)>)>,
) -> Seq<(Seq<char>, Option<Seq<char>>)> {
    if sv == kv {
        seq![sv]
    } else {
        walk_spec(g, sv, kv, seq![sv], g.len())
    }
}

/// Pick the next step of a witness walk from one edge row.
fn pick_next(
    row: &Vec<FlowVar>,
    graph: &Vec<(FlowVar, Vec<FlowVar>)>,
    sink: &FlowVar,
    visited: &Vec<FlowVar>,
) -> (r: Option<FlowVar>)
    ensures
        (match r {
            Some(t) => Some(t@),
            None => None,
        }) == pick_next_spec(fv_view(row@), fg_view(graph@), sink@, fv_view(visited@), 0),
{
    let mut j: usize = 0;
    while j < row.len()
        invariant
            j <= row.len(),
            pick_next_spec(fv_view(row@), fg_view(graph@), sink@, fv_view(visited@), j as int)
                == pick_next_spec(fv_view(row@), fg_view(graph@), sink@, fv_view(visited@), 0),
        decreases row.len() - j,
    {
        if row[j].same_as(sink) {
            return Some(row[j].dup());
        }
        let reach = flow_reachable_set(&row[j], graph);
        if contains_fv(&reach, sink) && !contains_fv(visited, &row[j]) {
            return Some(row[j].dup());
        }
        j += 1;
    }
    None
}

/// Build the recorded witness path of one flow: a walk along the recorded
/// flow edges from the source's variable to the sink's, falling back to the
/// endpoint pair when the greedy walk cannot reach the sink.
pub fn build_flow_path(
    source: &FlowVar,
    sink: &FlowVar,
    graph: &Vec<(FlowVar, Vec<FlowVar>)>,
) -> (r: Vec<FlowVar>)
    ensures
        fv_view(r@) == flow_path_spec(source@, sink@, fg_view(graph@)),
        fv_view(r@).len() >= 1,
        fv_view(r@)[0] == source@,
        fv_view(r@).last() == sink@ || (source@ == sink@ && fv_view(r@).last() == source@),
{
    let mut path: Vec<FlowVar> = Vec::new();
    path.push(source.dup());
    assert(fv_view(path@) =~= seq![source@]);
    if source.same_as(sink) {
        return path;
    }
    let mut cur = source.dup();
    let mut fuel = graph.len();
    loop
        invariant
            fv_view(path@).len() >= 1,
            fv_view(path@)[0] == source@,
            cur@ != sink@,
            source@ != sink@,
            walk_spec(fg_view(graph@), cur@, sink@, fv_view(path@), fuel as nat) == flow_path_spec(
                source@,
                sink@,
                fg_view(graph@),
            ),
        decreases fuel,
    {
        let empty_row: Vec<FlowVar> = Vec::new();
        assert(fv_view(empty_row@) =~= Seq::<(Seq<char>, Option<Seq<char>>)>::empty());
        let next = match crate::dataflow::flow_graph_get(graph, &cur) {
            Some(row) => pick_next(row, graph, sink, &path),
            None => pick_next(&empty_row, graph, sink, &path),
        };
        match next {
            Some(t) => {
                if t.same_as(sink) {
                    let ghost pre = fv_view(path@);
                    path.push(t);
                    assert(fv_view(path@) =~= pre.push(sink@));
                    return path;
                }
                if fuel == 0 {
                    let mut out: Vec<FlowVar> = Vec::new();
                    out.push(source.dup());
                    out.push(sink.dup());
                    assert(fv_view(out@) =~= seq![source@, sink@]);
                    return out;
                }
                let ghost pre = fv_view(path@);
                path.push(t.dup());
                assert(fv_view(path@) =~= pre.push(t@));
                cur = t;
                fuel = fuel - 1;
            },
            None => {
                let mut out: Vec<FlowVar> = Vec::new();
                out.push(source.dup());
                out.push(sink.dup());
                assert(fv_view(out@) =~= seq![source@, sink@]);
                return out;
            },
        }
    }
}

/// The flows of one source into every sink it reaches.
pub open spec fn flows_for_source_spec(
    fname: Seq<char>,
    src: TaintSourceV,
    sv: (Seq<char>, Option<Seq<char>>),
    reach: Seq<(Seq<char>, Option<Seq<char>>)>,
    g: Seq<((Seq<char>, Option<Seq<char>>), Seq<(Seq<char>, Option<Seq<char>>)>)>,
    validated: bool,
    sinks: Seq<TaintSinkV>,
    j: int,
    acc: Seq<TaintFlowV>,
) -> Seq<TaintFlowV>
    decreases sinks.len() - j,
{
    if j < 0 || j >= sinks.len() {
        acc
    } else {
        let acc1 = match sink_node_spec(sinks[j]) {
            Some(kv) => if reach.contains(kv) {
                acc.push(
                    TaintFlowV {
                        source: src,
                        sink: sinks[j],
                        function_name: fname,
                        path: flow_path_spec(sv, kv, g),
                        is_validated: validated,
                        severity: severity_spec(src, sinks[j]),
                    },
                )
            } else {
                acc
            },
            None => acc,
        };
        flows_for_source_spec(fname, src, sv, reach, g, validated, sinks, j + 1, acc1)
    }
}

/// The flows of every source into every sink it reaches.
pub open spec fn flows_spec(
    fname: Seq<char>,
    sources: Seq<TaintSourceV>,
    sinks: Seq<TaintSinkV>,
    g: Seq<((Seq<char>, Option<Seq<char>>), Seq<(Seq<char>, Option<Seq<char>>)>)>,
    validations: Seq<(Seq<char>, Option<Seq<char>>)>,
    i: int,
    acc: Seq<TaintFlowV>,
) -> Seq<TaintFlowV>
    decreases sources.len() - i,
{
    if i < 0 || i >= sources.len() {
        acc
    } else {
        let acc1 = match source_node_spec(sources[i]) {
            Some(sv) => flows_for_source_spec(
                fname,
                sources[i],
                sv,
                reachable_spec(sv, g),
                g,
                validations.contains(sv),
                sinks,
                0,
                acc,
            ),
            None => acc,
        };
        flows_spec(fname, sources, sinks, g, validations, i + 1, acc1)
    }
}

/// Link every source to every sink its data reaches through the flow graph,
/// marking flows whose source some validation mentions, and scoring each with
/// the fixed severity table.
pub fn build_taint_flows(
    fname: &String,
    sources: &Vec<TaintSource>,
    sinks: &Vec<TaintSink>,
    graph: &Vec<(FlowVar, Vec<FlowVar>)>,
    validations: &Vec<FlowVar>,
) -> (r: Vec<TaintFlow>)
    ensures
        tf_of(r@) == flows_spec(
            fname@,
            ts_of(sources@),
            tk_of(sinks@),
            fg_view(graph@),
            fv_view(validations@),
            0,
            Seq::empty(),
        ),
{
    let mut flows: Vec<TaintFlow> = Vec::new();
    assert(tf_of(flows@) =~= Seq::<TaintFlowV>::empty());
    let mut i: usize = 0;
    while i < sources.len()
        invariant
            i <= sources.len(),
            flows_spec(
                fname@,
                ts_of(sources@),
                tk_of(sinks@),
                fg_view(graph@),
                fv_view(validations@),
                i as int,
                tf_of(flows@),
            ) == flows_spec(
                fname@,
                ts_of(sources@),
                tk_of(sinks@),
                fg_view(graph@),
                fv_view(validations@),
                0,
                Seq::empty(),
            ),
        decreases sources.len() - i,
    {
        if let Some(sv) = source_node_of(&sources[i]) {
            let reach = flow_reachable_set(&sv, graph);
            let validated = contains_fv(validations, &sv);
            let ghost acc0 = tf_of(flows@);
            let mut j: usize = 0;
            while j < sinks.len()
                invariant
                    j <= sinks.len(),
                    i < sources@.len(),
                    source_node_spec(sources@[i as int]@) == Some(sv@),
                    fv_view(reach@) == reachable_spec(sv@, fg_view(graph@)),
                    validated == fv_view(validations@).contains(sv@),
                    flows_for_source_spec(
                        fname@,
                        sources@[i as int]@,
                        sv@,
                        fv_view(reach@),
                        fg_view(graph@),
                        validated,
                        tk_of(sinks@),
                        j as int,
                        tf_of(flows@),
                    ) == flows_for_source_spec(
                        fname@,
                        sources@[i as int]@,
                        sv@,
                        fv_view(reach@),
                        fg_view(graph@),
                        validated,
                        tk_of(sinks@),
                        0,
                        acc0,
                    ),
                decreases sinks.len() - j,
            {
                if let Some(kv) = sink_node_of(&sinks[j]) {
                    if contains_fv(&reach, &kv) {
                        let path = build_flow_path(&sv, &kv, graph);
                        let severity = assess_severity(&sources[i], &sinks[j]);
                        let ghost pre = tf_of(flows@);
                        flows.push(
                            TaintFlow {
                                source: sources[i].dup(),
                                sink: sinks[j].dup(),
                                function_name: fname.clone(),
                                path,
                                is_validated: validated,
                                severity,
                            },
                        );
                        assert(tf_of(flows@) =~= pre.push(
                            TaintFlowV {
                                source: sources@[i as int]@,
                                sink: sinks@[j as int]@,
                                function_name: fname@,
                                path: flow_path_spec(sv@, kv@, fg_view(graph@)),
                                is_validated: validated,
                                severity: severity_spec(sources@[i as int]@, sinks@[j as int]@),
                            },
                        ));
                    }
                }
                j += 1;
            }
        }
        i += 1;
    }
    flows
}

/// Whether an expression mentions the given variable, over the node kinds the
/// influence classifier inspects.
pub open spec fn contains_var_spec(e: Expr, name: Seq<char>) -> bool
    decreases e, 0int,
{
    match e {
        Expr::Variable(v) => v@ == name,
        Expr::MemberAccess(b, _) => contains_var_spec(*b, name),
        Expr::ArraySubscript(b, idx) => contains_var_spec(*b, name) || match idx {
            Some(ix) => contains_var_spec(*ix, name),
            None => false,
        },
        Expr::FunctionCall(f, args) => contains_var_spec(*f, name) || contains_varss_spec(
            args@,
            name,
            0,
        ),
        Expr::Assign(_, l, r) => contains_var_spec(*l, name) || contains_var_spec(*r, name),
        Expr::Binary(op, l, r) => if op == BinOp::Add || op == BinOp::Subtract || op
            == BinOp::Multiply || op == BinOp::Divide || op == BinOp::Equal || op == BinOp::NotEqual
            || op == BinOp::Less || op == BinOp::More || op == BinOp::And || op == BinOp::Or {
            contains_var_spec(*l, name) || contains_var_spec(*r, name)
        } else {
            false
        },
        Expr::Unary(op, x) => if op == crate::ast::UnOp::Not || op == crate::ast::UnOp::Negate {
            contains_var_spec(*x, name)
        } else {
            false
        },
        Expr::Parenthesis(x) => contains_var_spec(*x, name),
        _ => false,
    }
}

/// Whether any argument mentions the given variable.
pub open spec fn contains_varss_spec(es: Seq<Expr>, name: Seq<char>, i: int) -> bool
    decreases es, es.len() - i,
{
    if i < 0 || i >= es.len() {
        false
    } else {
        contains_var_spec(es[i], name) || contains_varss_spec(es, name, i + 1)
    }
}

/// Whether an expression mentions the given variable.
pub fn expression_contains_var(e: &Expr, name: &String) -> (r: bool)
    ensures
        r == contains_var_spec(*e, name@),
    decreases *e, 0int,
{
    match e {
        Expr::Variable(v) => v.eq(name),
        Expr::MemberAccess(b, _) => expression_contains_var(b, name),
        Expr::ArraySubscript(b, idx) => {
            if expression_contains_var(b, name) {
                return true;
            }
            match idx {
                Some(ix) => expression_contains_var(ix, name),
                None => false,
            }
        },
        Expr::FunctionCall(f, args) => {
            if expression_contains_var(f, name) {
                return true;
            }
            let mut i: usize = 0;
            proof {
                assert(decreases_to!(*e => *args));
            }
            while i < args.len()
                invariant
                    i <= args.len(),
                    decreases_to!(*e => *args),
                    contains_var_spec(*e, name@) == contains_varss_spec(args@, name@, 0),
                    contains_varss_spec(args@, name@, 0) == contains_varss_spec(
                        args@,
                        name@,
                        i as int,
                    ),
                decreases args.len() - i,
            {
                if expression_contains_var(&args[i], name) {
                    assert(contains_varss_spec(args@, name@, i as int));
                    return true;
                }
                i += 1;
            }
            false
        },
        Expr::Assign(_, l, r) => expression_contains_var(l, name) || expression_contains_var(
            r,
            name,
        ),
        Expr::Binary(op, l, r) => {
            if matches!(
                op,
                BinOp::Add
                    | BinOp::Subtract
                    | BinOp::Multiply
                    | BinOp::Divide
                    | BinOp::Equal
                    | BinOp::NotEqual
                    | BinOp::Less
                    | BinOp::More
                    | BinOp::And
                    | BinOp::Or,
            ) {
                expression_contains_var(l, name) || expression_contains_var(r, name)
            } else {
                false
            }
        },
        Expr::Unary(op, x) => {
            if matches!(op, crate::ast::UnOp::Not | crate::ast::UnOp::Negate) {
                expression_contains_var(x, name)
            } else {
                false
            }
        },
        Expr::Parenthesis(x) => expression_contains_var(x, name),
        _ => false,
    }
}

/// Whether an expression writes one of the influenced state variables.
pub open spec fn expr_modifies_influenced_spec(e: Expr, influenced: Seq<Seq<char>>) -> bool {
    match e {
        Expr::Assign(op, l, _) => if op == crate::ast::AssignOp::Assign || op
            == crate::ast::AssignOp::AssignAdd || op == crate::ast::AssignOp::AssignSubtract || op
            == crate::ast::AssignOp::AssignMultiply || op == crate::ast::AssignOp::AssignDivide {
            match base_var_spec(*l) {
                Some(b) => influenced.contains(b),
                None => false,
            }
        } else {
            false
        },
        _ => false,
    }
}

/// Whether a statement writes one of the influenced state variables.
pub open spec fn stmt_modifies_influenced_spec(s: Stmt, influenced: Seq<Seq<char>>) -> bool
    decreases s, 0int,
{
    match s {
        Stmt::Block { statements, .. } => stmts_modify_influenced_spec(statements@, influenced, 0),
        Stmt::Expression(e) => expr_modifies_influenced_spec(e, influenced),
        _ => false,
    }
}

/// Whether any statement of a block writes an influenced state variable.
pub open spec fn stmts_modify_influenced_spec(
    ss: Seq<Stmt>,
    influenced: Seq<Seq<char>>,
    i: int,
) -> bool
    decreases ss, ss.len() - i,
{
    if i < 0 || i >= ss.len() {
        false
    } else {
        stmt_modifies_influenced_spec(ss[i], influenced) || stmts_modify_influenced_spec(
            ss,
            influenced,
            i + 1,
        )
    }
}

/// Whether a statement writes one of the influenced state variables.
pub fn statement_modifies_influenced_vars(s: &Stmt, influenced: &Vec<String>) -> (r: bool)
    ensures
        r == stmt_modifies_influenced_spec(*s, names_of(influenced@)),
    decreases *s, 0int,
{
    match s {
        Stmt::Block { statements, .. } => {
            let mut i: usize = 0;
            proof {
                assert(decreases_to!(*s => *statements));
            }
            while i < statements.len()
                invariant
                    i <= statements.len(),
                    decreases_to!(*s => *statements),
                    stmt_modifies_influenced_spec(*s, names_of(influenced@))
                        == stmts_modify_influenced_spec(statements@, names_of(influenced@), 0),
                    stmts_modify_influenced_spec(statements@, names_of(influenced@), 0)
                        == stmts_modify_influenced_spec(statements@, names_of(influenced@), i as int),
                decreases statements.len() - i,
            {
                if statement_modifies_influenced_vars(&statements[i], influenced) {
                    assert(stmts_modify_influenced_spec(statements@, names_of(influenced@), i as int));
                    return true;
                }
                i += 1;
            }
            false
        },
        Stmt::Expression(e) => {
            if let Expr::Assign(op, l, _) = e {
                if matches!(
                    op,
                    crate::ast::AssignOp::Assign
                        | crate::ast::AssignOp::AssignAdd
                        | crate::ast::AssignOp::AssignSubtract
                        | crate::ast::AssignOp::AssignMultiply
                        | crate::ast::AssignOp::AssignDivide,
                ) {
                    if let Some(b) = extract_base_variable(l) {
                        return contains_name(influenced, &b);
                    }
                }
            }
            false
        },
        _ => false,
    }
}

/// Combine two flag triples.
pub open spec fn or3(a: (bool, bool, bool), b: (bool, bool, bool)) -> (bool, bool, bool) {
    (a.0 || b.0, a.1 || b.1, a.2 || b.2)
}

/// The influence evidence an expression contributes, as (arithmetic,
/// conditional, index-access) flags.
pub open spec fn infl_expr_spec(
    e: Expr,
    pname: Seq<char>,
    influenced: Seq<Seq<char>>,
    svs: Seq<Seq<char>>,
    in_assign: bool,
) -> (bool, bool, bool)
    decreases e, 0int,
{
    match e {
        Expr::Assign(op, l, r) => {
            let lhs_flags = infl_expr_spec(*l, pname, influenced, svs, in_assign);
            if op == crate::ast::AssignOp::Assign {
                match base_var_spec(*l) {
                    Some(lv) => if svs.contains(lv) && influenced.contains(lv) {
                        or3(lhs_flags, infl_expr_spec(*r, pname, influenced, svs, true))
                    } else {
                        lhs_flags
                    },
                    None => lhs_flags,
                }
            } else if op.is_arithmetic() {
                match base_var_spec(*l) {
                    Some(lv) => or3(
                        lhs_flags,
                        (
                            svs.contains(lv) && influenced.contains(lv) && contains_var_spec(
                                *r,
                                pname,
                            ),
                            false,
                            false,
                        ),
                    ),
                    None => lhs_flags,
                }
            } else {
                lhs_flags
            }
        },
        Expr::Binary(op, l, r) => if op == BinOp::Add || op == BinOp::Subtract || op
            == BinOp::Multiply || op == BinOp::Divide || op == BinOp::Modulo || op
            == BinOp::Power {
            let own = (in_assign && contains_var_spec(e, pname), false, false);
            or3(
                own,
                or3(
                    infl_expr_spec(*l, pname, influenced, svs, in_assign),
                    infl_expr_spec(*r, pname, influenced, svs, in_assign),
                ),
            )
        } else {
            (false, false, false)
        },
        Expr::ArraySubscript(b, idx) => {
            let own = match idx {
                Some(ix) => (
                    false,
                    false,
                    contains_var_spec(*ix, pname) && match base_var_spec(*b) {
                        Some(bb) => svs.contains(bb),
                        None => false,
                    },
                ),
                None => (false, false, false),
            };
            let sub = or3(
                infl_expr_spec(*b, pname, influenced, svs, in_assign),
                match idx {
                    Some(ix) => infl_expr_spec(*ix, pname, influenced, svs, in_assign),
                    None => (false, false, false),
                },
            );
            or3(own, sub)
        },
        Expr::MemberAccess(b, _) => infl_expr_spec(*b, pname, influenced, svs, in_assign),
        Expr::FunctionCall(f, args) => or3(
            infl_expr_spec(*f, pname, influenced, svs, in_assign),
            infl_exprs_spec(args@, pname, influenced, svs, in_assign, 0),
        ),
        _ => (false, false, false),
    }
}

/// The influence evidence folded over argument expressions.
pub open spec fn infl_exprs_spec(
    es: Seq<Expr>,
    pname: Seq<char>,
    influenced: Seq<Seq<char>>,
    svs: Seq<Seq<char>>,
    in_assign: bool,
    i: int,
) -> (bool, bool, bool)
    decreases es, es.len() - i,
{
    if i < 0 || i >= es.len() {
        (false, false, false)
    } else {
        or3(
            infl_expr_spec(es[i], pname, influenced, svs, in_assign),
            infl_exprs_spec(es, pname, influenced, svs, in_assign, i + 1),
        )
    }
}

/// The influence evidence a statement contributes.
pub open spec fn infl_stmt_spec(
    s: Stmt,
    pname: Seq<char>,
    influenced: Seq<Seq<char>>,
    svs: Seq<Seq<char>>,
) -> (bool, bool, bool)
    decreases s, 0int,
{
    match s {
        Stmt::Block { statements, .. } => infl_stmts_spec(statements@, pname, influenced, svs, 0),
        Stmt::Expression(e) => infl_expr_spec(e, pname, influenced, svs, false),
        Stmt::If(c, t, e) => {
            let guards = contains_var_spec(c, pname) && (stmt_modifies_influenced_spec(
                *t,
                influenced,
            ) || match e {
                Some(es) => stmt_modifies_influenced_spec(*es, influenced),
                None => false,
            });
            let sub = or3(
                infl_stmt_spec(*t, pname, influenced, svs),
                match e {
                    Some(es) => infl_stmt_spec(*es, pname, influenced, svs),
                    None => (false, false, false),
                },
            );
            or3((false, guards, false), sub)
        },
        Stmt::While(_, b) => infl_stmt_spec(*b, pname, influenced, svs),
        Stmt::DoWhile(b, _) => infl_stmt_spec(*b, pname, influenced, svs),
        Stmt::For(_, _, _, body) => match body {
            Some(b) => infl_stmt_spec(*b, pname, influenced, svs),
            None => (false, false, false),
        },
        Stmt::VariableDefinition(_, init) => match init {
            Some(e) => infl_expr_spec(e, pname, influenced, svs, false),
            None => (false, false, false),
        },
        _ => (false, false, false),
    }
}

/// The influence evidence folded over the statements of a block.
pub open spec fn infl_stmts_spec(
    ss: Seq<Stmt>,
    pname: Seq<char>,
    influenced: Seq<Seq<char>>,
    svs: Seq<Seq<char>>,
    i: int,
) -> (bool, bool, bool)
    decreases ss, ss.len() - i,
{
    if i < 0 || i >= ss.len() {
        (false, false, false)
    } else {
        or3(
            infl_stmt_spec(ss[i], pname, influenced, svs),
            infl_stmts_spec(ss, pname, influenced, svs, i + 1),
        )
    }
}

/// Collect the influence evidence of an expression.
pub fn analyze_influence_in_expression(
    e: &Expr,
    pname: &String,
    influenced: &Vec<String>,
    svs: &Vec<String>,
    in_assign: bool,
) -> (r: (bool, bool, bool))
    ensures
        r == infl_expr_spec(*e, pname@, names_of(influenced@), names_of(svs@), in_assign),
    decreases *e, 0int,
{
    match e {
        Expr::Assign(op, l, r) => {
            let lhs_flags = analyze_influence_in_expression(l, pname, influenced, svs, in_assign);
            if matches!(op, crate::ast::AssignOp::Assign) {
                if let Some(lv) = extract_base_variable(l) {
                    if contains_name(svs, &lv) && contains_name(influenced, &lv) {
                        let rhs = analyze_influence_in_expression(r, pname, influenced, svs, true);
                        return (lhs_flags.0 || rhs.0, lhs_flags.1 || rhs.1, lhs_flags.2 || rhs.2);
                    }
                }
                lhs_flags
            } else if matches!(
                op,
                crate::ast::AssignOp::AssignAdd
                    | crate::ast::AssignOp::AssignSubtract
                    | crate::ast::AssignOp::AssignMultiply
                    | crate::ast::AssignOp::AssignDivide
                    | crate::ast::AssignOp::AssignModulo,
            ) {
                if let Some(lv) = extract_base_variable(l) {
                    let hit = contains_name(svs, &lv) && contains_name(influenced, &lv)
                        && expression_contains_var(r, pname);
                    (lhs_flags.0 || hit, lhs_flags.1, lhs_flags.2)
                } else {
                    lhs_flags
                }
            } else {
                lhs_flags
            }
        },
        Expr::Binary(op, l, r) => {
            if matches!(
                op,
                BinOp::Add
                    | BinOp::Subtract
                    | BinOp::Multiply
                    | BinOp::Divide
                    | BinOp::Modulo
                    | BinOp::Power,
            ) {
                let own = in_assign && expression_contains_var(e, pname);
                let a = analyze_influence_in_expression(l, pname, influenced, svs, in_assign);
                let b = analyze_influence_in_expression(r, pname, influenced, svs, in_assign);
                (own || a.0 || b.0, a.1 || b.1, a.2 || b.2)
            } else {
                (false, false, false)
            }
        },
        Expr::ArraySubscript(b, idx) => {
            let mut own = false;
            if let Some(ix) = idx {
                if expression_contains_var(ix, pname) {
                    if let Some(bb) = extract_base_variable(b) {
                        own = contains_name(svs, &bb);
                    }
                }
            }
            let a = analyze_influence_in_expression(b, pname, influenced, svs, in_assign);
            let c = match idx {
                Some(ix) => analyze_influence_in_expression(ix, pname, influenced, svs, in_assign),
                None => (false, false, false),
            };
            (a.0 || c.0, a.1 || c.1, own || a.2 || c.2)
        },
        Expr::MemberAccess(b, _) => analyze_influence_in_expression(
            b,
            pname,
            influenced,
            svs,
            in_assign,
        ),
        Expr::FunctionCall(f, args) => {
            let a = analyze_influence_in_expression(f, pname, influenced, svs, in_assign);
            let mut acc = (false, false, false);
            let mut i: usize = 0;
            proof {
                assert(decreases_to!(*e => *args));
            }
            while i < args.len()
                invariant
                    i <= args.len(),
                    decreases_to!(*e => *args),
                    or3(
                        acc,
                        infl_exprs_spec(
                            args@,
                            pname@,
                            names_of(influenced@),
                            names_of(svs@),
                            in_assign,
                            i as int,
                        ),
                    ) == infl_exprs_spec(
                        args@,
                        pname@,
                        names_of(influenced@),
                        names_of(svs@),
                        in_assign,
                        0,
                    ),
                decreases args.len() - i,
            {
                let b = analyze_influence_in_expression(&args[i], pname, influenced, svs, in_assign);
                acc = (acc.0 || b.0, acc.1 || b.1, acc.2 || b.2);
                i += 1;
            }
            (a.0 || acc.0, a.1 || acc.1, a.2 || acc.2)
        },
        _ => (false, false, false),
    }
}

/// Collect the influence evidence of a statement tree.
pub fn analyze_influence_in_statement(
    s: &Stmt,
    pname: &String,
    influenced: &Vec<String>,
    svs: &Vec<String>,
) -> (r: (bool, bool, bool))
    ensures
        r == infl_stmt_spec(*s, pname@, names_of(influenced@), names_of(svs@)),
    decreases *s, 0int,
{
    match s {
        Stmt::Block { statements, .. } => {
            let mut acc = (false, false, false);
            let mut i: usize = 0;
            proof {
                assert(decreases_to!(*s => *statements));
            }
            while i < statements.len()
                invariant
                    i <= statements.len(),
                    decreases_to!(*s => *statements),
                    or3(
                        acc,
                        infl_stmts_spec(
                            statements@,
                            pname@,
                            names_of(influenced@),
                            names_of(svs@),
                            i as int,
                        ),
                    ) == infl_stmts_spec(
                        statements@,
                        pname@,
                        names_of(influenced@),
                        names_of(svs@),
                        0,
                    ),
                decreases statements.len() - i,
            {
                let b = analyze_influence_in_statement(&statements[i], pname, influenced, svs);
                acc = (acc.0 || b.0, acc.1 || b.1, acc.2 || b.2);
                i += 1;
            }
            acc
        },
        Stmt::Expression(e) => analyze_influence_in_expression(e, pname, influenced, svs, false),
        Stmt::If(c, t, e) => {
            let mut guards = false;
            if expression_contains_var(c, pname) {
                if statement_modifies_influenced_vars(t, influenced) {
                    guards = true;
                } else if let Some(es) = e {
                    if statement_modifies_influenced_vars(es, influenced) {
                        guards = true;
                    }
                }
            }
            let a = analyze_influence_in_statement(t, pname, influenced, svs);
            let b = match e {
                Some(es) => analyze_influence_in_statement(es, pname, influenced, svs),
                None => (false, false, false),
            };
            (a.0 || b.0, guards || a.1 || b.1, a.2 || b.2)
        },
        Stmt::While(_, b) => analyze_influence_in_statement(b, pname, influenced, svs),
        Stmt::DoWhile(b, _) => analyze_influence_in_statement(b, pname, influenced, svs),
        Stmt::For(_, _, _, body) => match body {
            Some(b) => analyze_influence_in_statement(b, pname, influenced, svs),
            None => (false, false, false),
        },
        Stmt::VariableDefinition(_, init) => match init {
            Some(e) => analyze_influence_in_expression(e, pname, influenced, svs, false),
            None => (false, false, false),
        },
        _ => (false, false, false),
    }
}

/// The influence class of one parameter, from the collected evidence:
/// index access beats conditional beats arithmetic beats plain assignment.
pub open spec fn influence_type_spec(
    body: Option<Stmt>,
    pname: Seq<char>,
    influenced: Seq<Seq<char>>,
    svs: Seq<Seq<char>>,
) -> InfluenceType {
    let flags = match body {
        Some(b) => infl_stmt_spec(b, pname, influenced, svs),
        None => (false, false, false),
    };
    if flags.2 {
        InfluenceType::IndexAccess
    } else if flags.1 {
        InfluenceType::Conditional
    } else if flags.0 {
        InfluenceType::Arithmetic
    } else {
        InfluenceType::Direct
    }
}

/// Classify how a parameter influences the state variables it reaches.
pub fn determine_influence_type(
    node: &FunctionNode,
    pname: &String,
    influenced: &Vec<String>,
    svs: &Vec<String>,
) -> (r: InfluenceType)
    ensures
        r == influence_type_spec(node.body, pname@, names_of(influenced@), names_of(svs@)),
{
    let flags = match &node.body {
        Some(b) => analyze_influence_in_statement(b, pname, influenced, svs),
        None => (false, false, false),
    };
    if flags.2 {
        InfluenceType::IndexAccess
    } else if flags.1 {
        InfluenceType::Conditional
    } else if flags.0 {
        InfluenceType::Arithmetic
    } else {
        InfluenceType::Direct
    }
}

/// The state variables among the reached flow nodes, by root name, in
/// discovery order.
pub open spec fn influenced_bases_spec(
    reach: Seq<(Seq<char>, Option<Seq<char>>)>,
    svs: Seq<Seq<char>>,
    j: int,
    acc: Seq<Seq<char>>,
) -> Seq<Seq<char>>
    decreases reach.len() - j,
{
    if j < 0 || j >= reach.len() {
        acc
    } else {
        let acc1 = if svs.contains(reach[j].0) {
            crate::names::push_unique_spec(acc, reach[j].0)
        } else {
            acc
        };
        influenced_bases_spec(reach, svs, j + 1, acc1)
    }
}

/// The influence facts of one function's parameters.
pub open spec fn influences_spec(
    f: FunctionDef,
    node: FunctionNode,
    svs: Seq<Seq<char>>,
    i: int,
    acc: Seq<ParameterInfluenceV>,
) -> Seq<ParameterInfluenceV>
    decreases node.params@.len() - i,
{
    if i < 0 || i >= node.params@.len() {
        acc
    } else {
        let pname = node.params@[i].name@;
        let acc1 = if pname.len() > 0 {
            let reach = reachable_spec((pname, None), flow_graph_spec(node.body));
            let influenced = influenced_bases_spec(reach, svs, 0, Seq::empty());
            if influenced.len() > 0 {
                acc.push(
                    ParameterInfluenceV {
                        function_name: f.name@,
                        param_index: i,
                        param_name: pname,
                        influenced_state_vars: influenced,
                        influence_type: influence_type_spec(node.body, pname, influenced, svs),
                    },
                )
            } else {
                acc
            }
        } else {
            acc
        };
        influences_spec(f, node, svs, i + 1, acc1)
    }
}

/// Analyze how each parameter of a function influences state variables.
pub fn analyze_parameter_influence(
    func: &FunctionDef,
    node: &FunctionNode,
    state_vars: &Vec<String>,
) -> (r: Vec<ParameterInfluence>)
    ensures
        pi_of(r@) == influences_spec(*func, *node, names_of(state_vars@), 0, Seq::empty()),
{
    let graph = build_variable_flow_graph(node);
    let mut out: Vec<ParameterInfluence> = Vec::new();
    assert(pi_of(out@) =~= Seq::<ParameterInfluenceV>::empty());
    let mut i: usize = 0;
    while i < node.params.len()
        invariant
            i <= node.params.len(),
            fg_view(graph@) == flow_graph_spec(node.body),
            influences_spec(*func, *node, names_of(state_vars@), i as int, pi_of(out@))
                == influences_spec(*func, *node, names_of(state_vars@), 0, Seq::empty()),
        decreases node.params.len() - i,
    {
        let pname = &node.params[i].name;
        if pname.as_str().unicode_len() > 0 {
            let src = FlowVar { base: pname.clone(), member: None };
            let reach = flow_reachable_set(&src, &graph);
            let mut influenced: Vec<String> = Vec::new();
            assert(names_of(influenced@) =~= Seq::<Seq<char>>::empty());
            let mut j: usize = 0;
            while j < reach.len()
                invariant
                    j <= reach.len(),
                    influenced_bases_spec(
                        fv_view(reach@),
                        names_of(state_vars@),
                        j as int,
                        names_of(influenced@),
                    ) == influenced_bases_spec(
                        fv_view(reach@),
                        names_of(state_vars@),
                        0,
                        Seq::empty(),
                    ),
                decreases reach.len() - j,
            {
                if contains_name(state_vars, &reach[j].base) {
                    crate::names::push_unique(&mut influenced, reach[j].base.clone());
                }
                j += 1;
            }
            if influenced.len() > 0 {
                let influence_type = determine_influence_type(node, pname, &influenced, state_vars);
                let ghost pre = pi_of(out@);
                out.push(
                    ParameterInfluence {
                        function_name: func.name.clone(),
                        param_index: i,
                        param_name: pname.clone(),
                        influenced_state_vars: influenced,
                        influence_type,
                    },
                );
                assert(pi_of(out@) =~= pre.push(pi_of(out@).last()));
            } else {
                assert(names_of(influenced@).len() == 0);
            }
        }
        i += 1;
    }
    out
}

/// The flows of one function: its sources linked to its sinks through its
/// flow graph, with its validations.
pub open spec fn function_flows_spec(
    f: FunctionDef,
    node: FunctionNode,
    svs: Seq<Seq<char>>,
) -> Seq<TaintFlowV> {
    flows_spec(
        f.name@,
        sources_spec(f, node),
        sinks_spec(f, node, svs),
        flow_graph_spec(node.body),
        match node.body {
            Some(b) => scan_stmt_validations_spec(b, Seq::empty()),
            None => Seq::empty(),
        },
        0,
        Seq::empty(),
    )
}

/// The flows of a whole contract, function by function.
pub open spec fn contract_flows_spec(
    fns: Seq<FunctionDef>,
    nodes: Seq<FunctionNode>,
    svs: Seq<Seq<char>>,
    k: int,
) -> Seq<TaintFlowV>
    decreases fns.len() - k,
{
    if k < 0 || k >= fns.len() {
        Seq::empty()
    } else {
        (match find_node_spec(nodes, fns[k].name@, 0) {
            Some(j) => function_flows_spec(fns[k], nodes[j], svs),
            None => Seq::empty(),
        }) + contract_flows_spec(fns, nodes, svs, k + 1)
    }
}

/// The parameter influences of a whole contract, function by function.
pub open spec fn contract_influences_spec(
    fns: Seq<FunctionDef>,
    nodes: Seq<FunctionNode>,
    svs: Seq<Seq<char>>,
    k: int,
) -> Seq<ParameterInfluenceV>
    decreases fns.len() - k,
{
    if k < 0 || k >= fns.len() {
        Seq::empty()
    } else {
        (match find_node_spec(nodes, fns[k].name@, 0) {
            Some(j) => influences_spec(fns[k], nodes[j], svs, 0, Seq::empty()),
            None => Seq::empty(),
        }) + contract_influences_spec(fns, nodes, svs, k + 1)
    }
}

impl DataFlowAnalyzer {
    /// Run the data-flow analysis over one analyzed contract: per function,
    /// identify taint sources and sinks, build the variable flow graph, link
    /// sources to the sinks they reach, and classify each parameter's
    /// influence on state.
    pub fn analyze(contract: &ContractInfo, ast: &ContractAst) -> (r: DataFlowAnalysis)
        ensures
            tf_of(r.taint_flows@) == contract_flows_spec(
                contract.functions@,
                ast.functions@,
                crate::analyzer::sv_names(contract.state_variables@),
                0,
            ),
            pi_of(r.parameter_influences@) == contract_influences_spec(
                contract.functions@,
                ast.functions@,
                crate::analyzer::sv_names(contract.state_variables@),
                0,
            ),
            r.unvalidated_inputs@.len() == 0,
    {
        let ghost svs = crate::analyzer::sv_names(contract.state_variables@);
        let mut state_vars: Vec<String> = Vec::new();
        let mut i: usize = 0;
        while i < contract.state_variables.len()
            invariant
                i <= contract.state_variables.len(),
                svs == crate::analyzer::sv_names(contract.state_variables@),
                state_vars@.len() == i,
                forall|j: int| 0 <= j < i ==> names_of(state_vars@)[j] == svs[j],
            decreases contract.state_variables.len() - i,
        {
            let ghost pre = names_of(state_vars@);
            state_vars.push(contract.state_variables[i].name.clone());
            assert(names_of(state_vars@) =~= pre.push(
                contract.state_variables@[i as int].name@,
            ));
            i += 1;
        }
        assert(names_of(state_vars@) =~= svs);

        let mut taint_flows: Vec<TaintFlow> = Vec::new();
        let mut parameter_influences: Vec<ParameterInfluence> = Vec::new();
        assert(tf_of(taint_flows@) =~= Seq::<TaintFlowV>::empty());
        assert(pi_of(parameter_influences@) =~= Seq::<ParameterInfluenceV>::empty());
        let n = contract.functions.len();
        let mut k: usize = 0;
        while k < n
            invariant
                k <= n,
                n == contract.functions@.len(),
                names_of(state_vars@) == svs,
                svs == crate::analyzer::sv_names(contract.state_variables@),
                tf_of(taint_flows@) + contract_flows_spec(
                    contract.functions@,
                    ast.functions@,
                    svs,
                    k as int,
                ) =~= contract_flows_spec(contract.functions@, ast.functions@, svs, 0),
                pi_of(parameter_influences@) + contract_influences_spec(
                    contract.functions@,
                    ast.functions@,
                    svs,
                    k as int,
                ) =~= contract_influences_spec(contract.functions@, ast.functions@, svs, 0),
            decreases n - k,
        {
            if let Some(node) = crate::analyzer::find_function_node(
                &ast.functions,
                &contract.functions[k].name,
            ) {
                let func = &contract.functions[k];
                let sources = identify_taint_sources(func, node);
                let sinks = identify_taint_sinks(func, node, &state_vars);
                let graph = build_variable_flow_graph(node);
                let mut validations: Vec<FlowVar> = Vec::new();
                assert(fv_view(validations@) =~= Seq::<(Seq<char>, Option<Seq<char>>)>::empty());
                if let Some(b) = &node.body {
                    scan_for_validations(b, &mut validations);
                }
                let flows = build_taint_flows(&func.name, &sources, &sinks, &graph, &validations);
                let ghost tf_pre = tf_of(taint_flows@);
                let ghost flowsv = tf_of(flows@);
                let mut flows = flows;
                while flows.len() > 0
                    invariant
                        tf_of(taint_flows@) + tf_of(flows@) =~= tf_pre + flowsv,
                    decreases flows.len(),
                {
                    let ghost fpre = tf_of(flows@);
                    let f0 = flows.remove(0);
                    assert(tf_of(flows@) =~= fpre.skip(1));
                    taint_flows.push(f0);
                }
                assert(tf_of(flows@) =~= Seq::<TaintFlowV>::empty());
                assert(tf_of(taint_flows@) =~= tf_pre + flowsv);

                let infl = analyze_parameter_influence(func, node, &state_vars);
                let ghost pi_pre = pi_of(parameter_influences@);
                let ghost inflv = pi_of(infl@);
                let mut infl = infl;
                while infl.len() > 0
                    invariant
                        pi_of(parameter_influences@) + pi_of(infl@) =~= pi_pre + inflv,
                    decreases infl.len(),
                {
                    let ghost ipre = pi_of(infl@);
                    let i0 = infl.remove(0);
                    assert(pi_of(infl@) =~= ipre.skip(1));
                    parameter_influences.push(i0);
                }
                assert(pi_of(infl@) =~= Seq::<ParameterInfluenceV>::empty());
                assert(pi_of(parameter_influences@) =~= pi_pre + inflv);
            }
            k += 1;
        }
        DataFlowAnalysis { taint_flows, parameter_influences, unvalidated_inputs: Vec::new() }
    }
}

} // verus!
