//! The read-set engine: the record-only mirror of the mutation traversal.
//! It records the state variables whose stored value a body reads: targets of
//! compound assignments and of increments and decrements (read-modify-write),
//! and every reference read elsewhere — right-hand sides, subscript indices
//! on either side of an assignment, conditions, call, emit and revert
//! arguments, return expressions and initializers. The root of a plain
//! assignment's target is a pure write and is not recorded. Storage-local
//! bindings accumulate across the body, as in the field-level scan.

use vstd::prelude::*;
use crate::analyzer::{
    base_var_spec, bind_local, extract_base_variable, is_storage_accessor_call, mapping_view,
    resolve_spec, resolve_to_state_var, StorageTarget, StorageTargetV,
};
use crate::ast::{Expr, FunctionNode, Stmt};
use crate::names::{contains_name, contains_substr, names_of, push_unique, push_unique_spec};

verus! {

broadcast use crate::names::group_names_axioms, crate::analyzer::group_mapping_axioms;

/// Record the root of a read expression when it resolves to a state variable.
pub open spec fn add_read(
    reads: Seq<Seq<char>>,
    root: Option<Seq<char>>,
    svs: Seq<Seq<char>>,
    m: Seq<(Seq<char>, StorageTargetV)>,
) -> Seq<Seq<char>> {
    match root {
        Some(n) => match resolve_spec(n, svs, m) {
            Some(StorageTargetV::State(sv)) => push_unique_spec(reads, sv),
            _ => reads,
        },
        None => reads,
    }
}

/// The read scan over an expression standing in a read position.
pub open spec fn read_expr_spec(
    e: Expr,
    svs: Seq<Seq<char>>,
    reads: Seq<Seq<char>>,
    m: Seq<(Seq<char>, StorageTargetV)>,
) -> Seq<Seq<char>>
    decreases e, 1int,
{
    match e {
        Expr::Variable(v) => add_read(reads, Some(v@), svs, m),
        Expr::MemberAccess(b, _) => read_expr_spec(*b, svs, reads, m),
        Expr::ArraySubscript(b, idx) => {
            let r1 = read_expr_spec(*b, svs, reads, m);
            match idx {
                Some(ix) => read_expr_spec(*ix, svs, r1, m),
                None => r1,
            }
        },
        Expr::FunctionCall(f, args) => read_exprs_spec(
            args@,
            0,
            svs,
            read_expr_spec(*f, svs, reads, m),
            m,
        ),
        Expr::Assign(op, l, r) => {
            let r1 = if op == crate::ast::AssignOp::Assign {
                lvalue_reads_spec(*l, svs, reads, m)
            } else {
                lvalue_reads_spec(*l, svs, add_read(reads, base_var_spec(*l), svs, m), m)
            };
            read_expr_spec(*r, svs, r1, m)
        },
        Expr::PreIncrement(x) => lvalue_reads_spec(*x, svs, add_read(reads, base_var_spec(*x), svs, m), m),
        Expr::PostIncrement(x) => lvalue_reads_spec(*x, svs, add_read(reads, base_var_spec(*x), svs, m), m),
        Expr::PreDecrement(x) => lvalue_reads_spec(*x, svs, add_read(reads, base_var_spec(*x), svs, m), m),
        Expr::PostDecrement(x) => lvalue_reads_spec(*x, svs, add_read(reads, base_var_spec(*x), svs, m), m),
        Expr::Delete(x) => lvalue_reads_spec(*x, svs, reads, m),
        Expr::Binary(_, l, r) => read_expr_spec(*r, svs, read_expr_spec(*l, svs, reads, m), m),
        Expr::Unary(_, x) => read_expr_spec(*x, svs, reads, m),
        Expr::Parenthesis(x) => read_expr_spec(*x, svs, reads, m),
        Expr::Conditional(c, t, f) => read_expr_spec(
            *f,
            svs,
            read_expr_spec(*t, svs, read_expr_spec(*c, svs, reads, m), m),
            m,
        ),
        _ => reads,
    }
}

/// The read scan over a write target: the target's root is not read, but any
/// subscript index inside it is.
pub open spec fn lvalue_reads_spec(
    l: Expr,
    svs: Seq<Seq<char>>,
    reads: Seq<Seq<char>>,
    m: Seq<(Seq<char>, StorageTargetV)>,
) -> Seq<Seq<char>>
    decreases l, 2int,
{
    match l {
        Expr::Variable(_) => reads,
        Expr::MemberAccess(b, _) => lvalue_reads_spec(*b, svs, reads, m),
        Expr::ArraySubscript(b, idx) => {
            let r1 = lvalue_reads_spec(*b, svs, reads, m);
            match idx {
                Some(ix) => read_expr_spec(*ix, svs, r1, m),
                None => r1,
            }
        },
        _ => read_expr_spec(l, svs, reads, m),
    }
}

/// The read scan folded over argument expressions.
pub open spec fn read_exprs_spec(
    es: Seq<Expr>,
    i: int,
    svs: Seq<Seq<char>>,
    reads: Seq<Seq<char>>,
    m: Seq<(Seq<char>, StorageTargetV)>,
) -> Seq<Seq<char>>
    decreases es, es.len() - i,
{
    if i < 0 || i >= es.len() {
        reads
    } else {
        read_exprs_spec(es, i + 1, svs, read_expr_spec(es[i], svs, reads, m), m)
    }
}

/// The read scan over a statement: the recorded reads and the storage-local
/// bindings visible after it.
pub open spec fn read_stmt_spec(
    s: Stmt,
    svs: Seq<Seq<char>>,
    reads: Seq<Seq<char>>,
    m: Seq<(Seq<char>, StorageTargetV)>,
) -> (Seq<Seq<char>>, Seq<(Seq<char>, StorageTargetV)>)
    decreases s, 0int,
{
    match s {
        Stmt::Expression(e) => (read_expr_spec(e, svs, reads, m), m),
        Stmt::Block { statements, .. } => read_stmts_spec(statements@, 0, svs, reads, m),
        Stmt::If(c, t, e) => {
            let r0 = read_expr_spec(c, svs, reads, m);
            let r1 = read_stmt_spec(*t, svs, r0, m);
            match e {
                Some(es) => read_stmt_spec(*es, svs, r1.0, r1.1),
                None => r1,
            }
        },
        Stmt::While(c, b) => read_stmt_spec(*b, svs, read_expr_spec(c, svs, reads, m), m),
        Stmt::DoWhile(b, c) => {
            let r1 = read_stmt_spec(*b, svs, reads, m);
            (read_expr_spec(c, svs, r1.0, r1.1), r1.1)
        },
        Stmt::For(init, cond, update, body) => {
            let r1 = match init {
                Some(s1) => read_stmt_spec(*s1, svs, reads, m),
                None => (reads, m),
            };
            let r2 = match cond {
                Some(c) => read_expr_spec(*c, svs, r1.0, r1.1),
                None => r1.0,
            };
            let r3 = match update {
                Some(u) => read_expr_spec(*u, svs, r2, r1.1),
                None => r2,
            };
            match body {
                Some(b) => read_stmt_spec(*b, svs, r3, r1.1),
                None => (r3, r1.1),
            }
        },
        Stmt::Return(oe) => match oe {
            Some(e) => (read_expr_spec(e, svs, reads, m), m),
            None => (reads, m),
        },
        Stmt::VariableDefinition(name_opt, init_opt) => match init_opt {
            Some(init) => {
                let m1 = match name_opt {
                    Some(n) => bind_local(m, n@, init, svs),
                    None => m,
                };
                (read_expr_spec(init, svs, reads, m1), m1)
            },
            None => (reads, m),
        },
        Stmt::Emit(e) => (read_expr_spec(e, svs, reads, m), m),
        Stmt::Revert(_, args) => (read_exprs_spec(args@, 0, svs, reads, m), m),
        _ => (reads, m),
    }
}

/// The read scan folded over the statements of a block.
pub open spec fn read_stmts_spec(
    ss: Seq<Stmt>,
    i: int,
    svs: Seq<Seq<char>>,
    reads: Seq<Seq<char>>,
    m: Seq<(Seq<char>, StorageTargetV)>,
) -> (Seq<Seq<char>>, Seq<(Seq<char>, StorageTargetV)>)
    decreases ss, ss.len() - i,
{
    if i < 0 || i >= ss.len() {
        (reads, m)
    } else {
        let r = read_stmt_spec(ss[i], svs, reads, m);
        read_stmts_spec(ss, i + 1, svs, r.0, r.1)
    }
}

/// Record the root of a read expression when it resolves to a state variable.
fn record_read(
    target: &Expr,
    state_vars: &Vec<String>,
    reads: &mut Vec<String>,
    mapping: &Vec<(String, StorageTarget)>,
)
    ensures
        names_of(final(reads)@) == add_read(
            names_of(old(reads)@),
            base_var_spec(*target),
            names_of(state_vars@),
            mapping_view(mapping@),
        ),
{
    if let Some(name) = extract_base_variable(target) {
        if let Some(StorageTarget::State(sv)) = resolve_to_state_var(&name, state_vars, mapping) {
            push_unique(reads, sv);
        }
    }
}

/// Scan an expression in read position.
pub fn read_scan_expression(
    e: &Expr,
    state_vars: &Vec<String>,
    reads: &mut Vec<String>,
    mapping: &Vec<(String, StorageTarget)>,
)
    ensures
        names_of(final(reads)@) == read_expr_spec(
            *e,
            names_of(state_vars@),
            names_of(old(reads)@),
            mapping_view(mapping@),
        ),
    decreases *e, 1int,
{
    match e {
        Expr::Variable(_) => record_read(e, state_vars, reads, mapping),
        Expr::MemberAccess(b, _) => read_scan_expression(b, state_vars, reads, mapping),
        Expr::ArraySubscript(b, idx) => {
            read_scan_expression(b, state_vars, reads, mapping);
            if let Some(ix) = idx {
                read_scan_expression(ix, state_vars, reads, mapping);
            }
        },
        Expr::FunctionCall(f, args) => {
            read_scan_expression(f, state_vars, reads, mapping);
            let ghost svs = names_of(state_vars@);
            let ghost mv = mapping_view(mapping@);
            let ghost r1 = names_of(reads@);
            let mut i: usize = 0;
            proof {
                assert(decreases_to!(*e => *args));
            }
            while i < args.len()
                invariant
                    i <= args.len(),
                    decreases_to!(*e => *args),
                    read_exprs_spec(args@, i as int, svs, names_of(reads@), mv) == read_exprs_spec(
                        args@,
                        0,
                        svs,
                        r1,
                        mv,
                    ),
                    svs == names_of(state_vars@),
                    mv == mapping_view(mapping@),
                decreases args.len() - i,
            {
                read_scan_expression(&args[i], state_vars, reads, mapping);
                i += 1;
            }
        },
        Expr::Assign(op, l, r) => {
            if !matches!(op, crate::ast::AssignOp::Assign) {
                record_read(l, state_vars, reads, mapping);
            }
            read_scan_lvalue(l, state_vars, reads, mapping);
            read_scan_expression(r, state_vars, reads, mapping);
        },
        Expr::PreIncrement(x) => {
            record_read(x, state_vars, reads, mapping);
            read_scan_lvalue(x, state_vars, reads, mapping);
        },
        Expr::PostIncrement(x) => {
            record_read(x, state_vars, reads, mapping);
            read_scan_lvalue(x, state_vars, reads, mapping);
        },
        Expr::PreDecrement(x) => {
            record_read(x, state_vars, reads, mapping);
            read_scan_lvalue(x, state_vars, reads, mapping);
        },
        Expr::PostDecrement(x) => {
            record_read(x, state_vars, reads, mapping);
            read_scan_lvalue(x, state_vars, reads, mapping);
        },
        Expr::Delete(x) => read_scan_lvalue(x, state_vars, reads, mapping),
        Expr::Binary(_, l, r) => {
            read_scan_expression(l, state_vars, reads, mapping);
            read_scan_expression(r, state_vars, reads, mapping);
        },
        Expr::Unary(_, x) => read_scan_expression(x, state_vars, reads, mapping),
        Expr::Parenthesis(x) => read_scan_expression(x, state_vars, reads, mapping),
        Expr::Conditional(c, t, f) => {
            read_scan_expression(c, state_vars, reads, mapping);
            read_scan_expression(t, state_vars, reads, mapping);
            read_scan_expression(f, state_vars, reads, mapping);
        },
        _ => {},
    }
}

/// Scan a write target: only its subscript indices are read.
pub fn read_scan_lvalue(
    l: &Expr,
    state_vars: &Vec<String>,
    reads: &mut Vec<String>,
    mapping: &Vec<(String, StorageTarget)>,
)
    ensures
        names_of(final(reads)@) == lvalue_reads_spec(
            *l,
            names_of(state_vars@),
            names_of(old(reads)@),
            mapping_view(mapping@),
        ),
    decreases *l, 2int,
{
    match l {
        Expr::Variable(_) => {},
        Expr::MemberAccess(b, _) => read_scan_lvalue(b, state_vars, reads, mapping),
        Expr::ArraySubscript(b, idx) => {
            read_scan_lvalue(b, state_vars, reads, mapping);
            if let Some(ix) = idx {
                read_scan_expression(ix, state_vars, reads, mapping);
            }
        },
        _ => read_scan_expression(l, state_vars, reads, mapping),
    }
}

/// Scan a statement tree for state-variable reads.
pub fn read_scan_statement(
    s: &Stmt,
    state_vars: &Vec<String>,
    reads: &mut Vec<String>,
    mapping: &mut Vec<(String, StorageTarget)>,
)
    ensures
        (names_of(final(reads)@), mapping_view(final(mapping)@)) == read_stmt_spec(
            *s,
            names_of(state_vars@),
            names_of(old(reads)@),
            mapping_view(old(mapping)@),
        ),
    decreases *s, 0int,
{
    let ghost svs = names_of(state_vars@);
    match s {
        Stmt::Expression(e) => read_scan_expression(e, state_vars, reads, mapping),
        Stmt::Block { statements, .. } => {
            let ghost m0 = mapping_view(mapping@);
            let ghost r0 = names_of(reads@);
            let mut i: usize = 0;
            proof {
                assert(decreases_to!(*s => *statements));
            }
            while i < statements.len()
                invariant
                    i <= statements.len(),
                    decreases_to!(*s => *statements),
                    read_stmts_spec(
                        statements@,
                        i as int,
                        svs,
                        names_of(reads@),
                        mapping_view(mapping@),
                    ) == read_stmts_spec(statements@, 0, svs, r0, m0),
                    svs == names_of(state_vars@),
                decreases statements.len() - i,
            {
                read_scan_statement(&statements[i], state_vars, reads, mapping);
                i += 1;
            }
        },
        Stmt::If(c, t, e) => {
            read_scan_expression(c, state_vars, reads, mapping);
            read_scan_statement(t, state_vars, reads, mapping);
            if let Some(es) = e {
                read_scan_statement(es, state_vars, reads, mapping);
            }
        },
        Stmt::While(c, b) => {
            read_scan_expression(c, state_vars, reads, mapping);
            read_scan_statement(b, state_vars, reads, mapping);
        },
        Stmt::DoWhile(b, c) => {
            read_scan_statement(b, state_vars, reads, mapping);
            read_scan_expression(c, state_vars, reads, mapping);
        },
        Stmt::For(init, cond, update, body) => {
            if let Some(s1) = init {
                read_scan_statement(s1, state_vars, reads, mapping);
            }
            if let Some(c) = cond {
                read_scan_expression(c, state_vars, reads, mapping);
            }
            if let Some(u) = update {
                read_scan_expression(u, state_vars, reads, mapping);
            }
            if let Some(b) = body {
                read_scan_statement(b, state_vars, reads, mapping);
            }
        },
        Stmt::Return(oe) => {
            if let Some(e) = oe {
                read_scan_expression(e, state_vars, reads, mapping);
            }
        },
        Stmt::VariableDefinition(name_opt, init_opt) => {
            if let Some(init) = init_opt {
                if let Some(n) = name_opt {
                    let mut bound = false;
                    if let Expr::FunctionCall(f, _) = init {
                        if let Expr::Variable(fname) = &**f {
                            if contains_substr(fname.as_str(), "get") && contains_substr(
                                fname.as_str(),
                                "Storage",
                            ) {
                                mapping.push((n.clone(), StorageTarget::StorageStructRef));
                                bound = true;
                            }
                        }
                    }
                    if !bound {
                        assert(!is_storage_accessor_call(*init));
                        if let Some(bv) = extract_base_variable(init) {
                            if contains_name(state_vars, &bv) {
                                mapping.push((n.clone(), StorageTarget::State(bv)));
                            }
                        }
                    }
                    assert(mapping_view(mapping@) == bind_local(
                        mapping_view(old(mapping)@),
                        n@,
                        *init,
                        svs,
                    ));
                }
                read_scan_expression(init, state_vars, reads, mapping);
            }
        },
        Stmt::Emit(e) => read_scan_expression(e, state_vars, reads, mapping),
        Stmt::Revert(_, args) => {
            read_scan_expression_list(args, state_vars, reads, mapping);
        },
        _ => {},
    }
}

/// Scan a list of argument expressions in read position.
fn read_scan_expression_list(
    es: &Vec<Expr>,
    state_vars: &Vec<String>,
    reads: &mut Vec<String>,
    mapping: &Vec<(String, StorageTarget)>,
)
    ensures
        names_of(final(reads)@) == read_exprs_spec(
            es@,
            0,
            names_of(state_vars@),
            names_of(old(reads)@),
            mapping_view(mapping@),
        ),
    decreases *es, 3int,
{
    let ghost svs = names_of(state_vars@);
    let ghost mv = mapping_view(mapping@);
    let ghost r0 = names_of(reads@);
    let mut i: usize = 0;
    proof {
        assert(decreases_to!(*es => es@));
    }
    while i < es.len()
        invariant
            i <= es.len(),
            decreases_to!(*es => es@),
            read_exprs_spec(es@, i as int, svs, names_of(reads@), mv) == read_exprs_spec(
                es@,
                0,
                svs,
                r0,
                mv,
            ),
            svs == names_of(state_vars@),
            mv == mapping_view(mapping@),
        decreases es.len() - i,
    {
        read_scan_expression(&es[i], state_vars, reads, mapping);
        i += 1;
    }
}

/// The state variables a function body reads.
pub open spec fn find_state_reads_spec(body: Option<Stmt>, svs: Seq<Seq<char>>) -> Seq<Seq<char>> {
    match body {
        Some(b) => read_stmt_spec(b, svs, Seq::empty(), Seq::empty()).0,
        None => Seq::empty(),
    }
}

/// Find the state variables a function reads.
pub fn find_state_reads(func: &FunctionNode, state_vars: &Vec<String>) -> (r: Vec<String>)
    ensures
        names_of(r@) == find_state_reads_spec(func.body, names_of(state_vars@)),
{
    let mut reads: Vec<String> = Vec::new();
    let mut mapping: Vec<(String, StorageTarget)> = Vec::new();
    assert(names_of(reads@) =~= Seq::<Seq<char>>::empty());
    assert(mapping_view(mapping@) =~= Seq::<(Seq<char>, StorageTargetV)>::empty());
    if let Some(b) = &func.body {
        read_scan_statement(b, state_vars, &mut reads, &mut mapping);
    }
    reads
}

} // verus!
