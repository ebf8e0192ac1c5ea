//! The state-modification analyzer: per-function extraction of mutated state,
//! field-level mutation paths, internal calls, emitted events, raised errors
//! and storage-reference parameters; inter-procedural propagation of mutation
//! facts through storage parameters; and call-graph and modification-chain
//! construction.

use vstd::prelude::*;
use crate::ast::{AssignOp, Expr, FunctionNode, ParamNode, Stmt};
use crate::names::{
    assoc_find, contains_name, contains_substr, is_substr, names_of, push_unique,
    push_unique_spec, view_opt,
};
use crate::models::{
    ContractInfo, FieldPath, FieldPathV, FunctionDef, PathBase, PathBaseV, StorageParamInfo,
    group_paths_axioms, paths_of, push_unique_path, push_unique_path_spec,
};

verus! {

broadcast use crate::names::group_names_axioms;

/// The state-modification and call-graph analyzer. [`Self::analyze`] runs the
/// per-function extraction, the storage-parameter propagation, the
/// namespaced-storage resolution, the modification chains and the reverse
/// lookups over one contract.
#[derive(Debug)]
pub struct StateModificationAnalyzer;

/// What a local variable was found to alias: a state variable, or the
/// contract's namespaced storage struct.
#[derive(Debug, PartialEq, Eq)]
pub enum StorageTarget {
    State(String),
    StorageStructRef,
}

/// Spec-level value of a [`StorageTarget`].
pub enum StorageTargetV {
    State(Seq<char>),
    StorageStructRef,
}

impl View for StorageTarget {
    type V = StorageTargetV;

    open spec fn view(&self) -> StorageTargetV {
        match self {
            StorageTarget::State(s) => StorageTargetV::State(s@),
            StorageTarget::StorageStructRef => StorageTargetV::StorageStructRef,
        }
    }
}

impl StorageTarget {
    /// An equal copy of this target.
    pub fn dup(&self) -> (r: StorageTarget)
        ensures
            r@ == self@,
    {
        match self {
            StorageTarget::State(s) => StorageTarget::State(s.clone()),
            StorageTarget::StorageStructRef => StorageTarget::StorageStructRef,
        }
    }
}

/// The pair views of a storage-alias association list.
pub open spec fn mapping_view(m: Seq<(String, StorageTarget)>) -> Seq<(Seq<char>, StorageTargetV)> {
    m.map_values(|p: (String, StorageTarget)| (p.0@, p.1@))
}

pub broadcast proof fn mapping_view_len(m: Seq<(String, StorageTarget)>)
    ensures
        #[trigger] mapping_view(m).len() == m.len(),
{
}

pub broadcast proof fn mapping_view_index(m: Seq<(String, StorageTarget)>, i: int)
    requires
        0 <= i < m.len(),
    ensures
        #[trigger] mapping_view(m)[i] == (m[i].0@, m[i].1@),
{
}

pub broadcast proof fn mapping_view_push(m: Seq<(String, StorageTarget)>, p: (String, StorageTarget))
    ensures
        #[trigger] mapping_view(m.push(p)) =~= mapping_view(m).push((p.0@, p.1@)),
{
    broadcast use mapping_view_len, mapping_view_index;

}

pub broadcast group group_mapping_axioms {
    mapping_view_len,
    mapping_view_index,
    mapping_view_push,
}

/// The view of an optional storage target.
pub open spec fn target_view_opt(r: Option<StorageTarget>) -> Option<StorageTargetV> {
    match r {
        Some(t) => Some(t@),
        None => None,
    }
}

/// Look a name up in the storage-alias list; the latest binding wins.
pub fn mapping_get<'a>(m: &'a Vec<(String, StorageTarget)>, k: &String) -> (r: Option<
    &'a StorageTarget,
>)
    ensures
        match r {
            Some(t) => assoc_find(mapping_view(m@), k@) == Some(t@),
            None => assoc_find(mapping_view(m@), k@) is None,
        },
{
    broadcast use group_mapping_axioms;

    let mut i: usize = m.len();
    assert(mapping_view(m@).take(i as int) =~= mapping_view(m@));
    while i > 0
        invariant
            i <= m.len(),
            assoc_find(mapping_view(m@), k@) == assoc_find(
                mapping_view(m@).take(i as int),
                k@,
            ),
        decreases i,
    {
        assert(mapping_view(m@).take(i as int).last() == mapping_view(m@)[i - 1]);
        assert(mapping_view(m@).take(i as int).drop_last() =~= mapping_view(m@).take(i - 1));
        if m[i - 1].0.eq(k) {
            return Some(&m[i - 1].1);
        }
        i -= 1;
    }
    assert(mapping_view(m@).take(0) =~= Seq::<(Seq<char>, StorageTargetV)>::empty());
    None
}

/// Resolve a name to its ultimate mutation target: a state variable named
/// directly, or whatever a storage-reference local was bound to.
pub open spec fn resolve_spec(
    name: Seq<char>,
    svs: Seq<Seq<char>>,
    m: Seq<(Seq<char>, StorageTargetV)>,
) -> Option<StorageTargetV> {
    if svs.contains(name) {
        Some(StorageTargetV::State(name))
    } else {
        assoc_find(m, name)
    }
}

/// Resolve a variable name to the state variable or storage struct it
/// denotes, following storage-reference locals.
pub fn resolve_to_state_var(
    var_name: &String,
    state_vars: &Vec<String>,
    mapping: &Vec<(String, StorageTarget)>,
) -> (r: Option<StorageTarget>)
    ensures
        target_view_opt(r) == resolve_spec(var_name@, names_of(state_vars@), mapping_view(mapping@)),
{
    if contains_name(state_vars, var_name) {
        Some(StorageTarget::State(var_name.clone()))
    } else {
        match mapping_get(mapping, var_name) {
            Some(t) => Some(t.dup()),
            None => None,
        }
    }
}

/// The root identifier under a chain of member and index accesses.
pub open spec fn base_var_spec(e: Expr) -> Option<Seq<char>>
    decreases e,
{
    match e {
        Expr::Variable(s) => Some(s@),
        Expr::MemberAccess(b, _) => base_var_spec(*b),
        Expr::ArraySubscript(b, _) => base_var_spec(*b),
        _ => None,
    }
}

/// Extract the root identifier of an expression, unwrapping member and index
/// accesses.
pub fn extract_base_variable(e: &Expr) -> (r: Option<String>)
    ensures
        view_opt(r) == base_var_spec(*e),
    decreases *e,
{
    match e {
        Expr::Variable(s) => Some(s.clone()),
        Expr::MemberAccess(b, _) => extract_base_variable(b),
        Expr::ArraySubscript(b, _) => extract_base_variable(b),
        _ => None,
    }
}

/// The member path of an expression: the root identifier followed by each
/// member name, with index operations passed through.
pub open spec fn member_path_spec(e: Expr) -> Option<Seq<Seq<char>>>
    decreases e,
{
    match e {
        Expr::Variable(s) => Some(seq![s@]),
        Expr::MemberAccess(b, m) => match member_path_spec(*b) {
            Some(p) => Some(p.push(m@)),
            None => None,
        },
        Expr::ArraySubscript(b, _) => member_path_spec(*b),
        _ => None,
    }
}

/// Extract the full member path of an expression (root first), or nothing if
/// it is not a member-access chain over a single root.
pub fn extract_member_path(e: &Expr) -> (r: Option<Vec<String>>)
    ensures
        match r {
            Some(p) => member_path_spec(*e) == Some(names_of(p@)),
            None => member_path_spec(*e) is None,
        },
    decreases *e,
{
    match e {
        Expr::Variable(s) => {
            let mut p: Vec<String> = Vec::new();
            p.push(s.clone());
            assert(names_of(p@) =~= seq![s@]);
            Some(p)
        },
        Expr::MemberAccess(b, m) => match extract_member_path(b) {
            Some(mut p) => {
                p.push(m.clone());
                Some(p)
            },
            None => None,
        },
        Expr::ArraySubscript(b, _) => extract_member_path(b),
        _ => None,
    }
}

/// The method names whose call on a state-variable target counts as a
/// mutation, in the coarse scan and in the field-level scan alike.
pub open spec fn is_mutating_method(s: Seq<char>) -> bool {
    s == "push"@ || s == "pop"@ || s == "add"@ || s == "remove"@ || s == "delete"@
}

/// Record the resolved target of a mutated expression root, when it resolves
/// to a state variable.
pub open spec fn add_mod_target(
    mods: Seq<Seq<char>>,
    root: Option<Seq<char>>,
    svs: Seq<Seq<char>>,
    m: Seq<(Seq<char>, StorageTargetV)>,
) -> Seq<Seq<char>> {
    match root {
        Some(n) => match resolve_spec(n, svs, m) {
            Some(StorageTargetV::State(sv)) => push_unique_spec(mods, sv),
            _ => mods,
        },
        None => mods,
    }
}

/// Whether a local initializer is a call of a namespaced storage-struct
/// accessor: a plain call whose callee name holds both a `get`-like and a
/// `Storage`-like token.
pub open spec fn is_storage_accessor_call(e: Expr) -> bool {
    match e {
        Expr::FunctionCall(f, _) => match *f {
            Expr::Variable(fname) => is_substr(fname@, "get"@) && is_substr(fname@, "Storage"@),
            _ => false,
        },
        _ => false,
    }
}

/// The storage-alias binding a local declaration adds, if any.
pub open spec fn bind_local(
    m: Seq<(Seq<char>, StorageTargetV)>,
    local: Seq<char>,
    init: Expr,
    svs: Seq<Seq<char>>,
) -> Seq<(Seq<char>, StorageTargetV)> {
    if is_storage_accessor_call(init) {
        m.push((local, StorageTargetV::StorageStructRef))
    } else {
        match base_var_spec(init) {
            Some(bv) => if svs.contains(bv) {
                m.push((local, StorageTargetV::State(bv)))
            } else {
                m
            },
            None => m,
        }
    }
}

/// One step of closing a block scope: a binding to a state variable survives
/// into the parent scope unless the parent already binds that name.
pub open spec fn merge_step(
    parent: Seq<(Seq<char>, StorageTargetV)>,
    pair: (Seq<char>, StorageTargetV),
) -> Seq<(Seq<char>, StorageTargetV)> {
    match pair.1 {
        StorageTargetV::State(_) => if assoc_find(parent, pair.0) is None {
            parent.push(pair)
        } else {
            parent
        },
        _ => parent,
    }
}

/// Close a block scope: fold the block's added bindings back into the parent,
/// latest binding first.
pub open spec fn merge_scope_spec(
    parent: Seq<(Seq<char>, StorageTargetV)>,
    added: Seq<(Seq<char>, StorageTargetV)>,
) -> Seq<(Seq<char>, StorageTargetV)>
    decreases added.len(),
{
    if added.len() == 0 {
        parent
    } else {
        merge_scope_spec(merge_step(parent, added.last()), added.drop_last())
    }
}

/// The coarse mutation scan over an expression: which state variables the
/// expression mutates, given the state-variable names and the storage-alias
/// bindings in scope.
pub open spec fn scan_expr_mods_spec(
    e: Expr,
    svs: Seq<Seq<char>>,
    mods: Seq<Seq<char>>,
    m: Seq<(Seq<char>, StorageTargetV)>,
) -> Seq<Seq<char>>
    decreases e, 0int,
{
    match e {
        Expr::Assign(_, l, r) => scan_expr_mods_spec(
            *r,
            svs,
            add_mod_target(mods, base_var_spec(*l), svs, m),
            m,
        ),
        Expr::PreIncrement(x) => add_mod_target(mods, base_var_spec(*x), svs, m),
        Expr::PostIncrement(x) => add_mod_target(mods, base_var_spec(*x), svs, m),
        Expr::PreDecrement(x) => add_mod_target(mods, base_var_spec(*x), svs, m),
        Expr::PostDecrement(x) => add_mod_target(mods, base_var_spec(*x), svs, m),
        Expr::Delete(x) => add_mod_target(mods, base_var_spec(*x), svs, m),
        Expr::FunctionCall(f, args) => {
            let mods1 = match *f {
                Expr::MemberAccess(b, method) => if is_mutating_method(method@) {
                    add_mod_target(mods, base_var_spec(*b), svs, m)
                } else {
                    mods
                },
                _ => mods,
            };
            scan_exprs_mods_spec(args@, 0, svs, mods1, m)
        },
        _ => mods,
    }
}

/// The coarse mutation scan folded over a list of argument expressions.
pub open spec fn scan_exprs_mods_spec(
    es: Seq<Expr>,
    i: int,
    svs: Seq<Seq<char>>,
    mods: Seq<Seq<char>>,
    m: Seq<(Seq<char>, StorageTargetV)>,
) -> Seq<Seq<char>>
    decreases es, es.len() - i,
{
    if i < 0 || i >= es.len() {
        mods
    } else {
        scan_exprs_mods_spec(es, i + 1, svs, scan_expr_mods_spec(es[i], svs, mods, m), m)
    }
}

/// The coarse mutation scan over a statement: the mutated state variables and
/// the storage-alias bindings visible after it.
pub open spec fn scan_stmt_mods_spec(
    s: Stmt,
    svs: Seq<Seq<char>>,
    mods: Seq<Seq<char>>,
    m: Seq<(Seq<char>, StorageTargetV)>,
) -> (Seq<Seq<char>>, Seq<(Seq<char>, StorageTargetV)>)
    decreases s, 0int,
{
    match s {
        Stmt::Expression(e) => (scan_expr_mods_spec(e, svs, mods, m), m),
        Stmt::Block { statements, .. } => {
            let r = scan_stmts_mods_spec(statements@, 0, svs, mods, m);
            (r.0, merge_scope_spec(m, r.1.skip(m.len() as int)))
        },
        Stmt::If(_, t, e) => {
            let r1 = scan_stmt_mods_spec(*t, svs, mods, m);
            match e {
                Some(es) => scan_stmt_mods_spec(*es, svs, r1.0, r1.1),
                None => r1,
            }
        },
        Stmt::While(_, b) => scan_stmt_mods_spec(*b, svs, mods, m),
        Stmt::DoWhile(b, _) => scan_stmt_mods_spec(*b, svs, mods, m),
        Stmt::For(init, _, update, body) => {
            let r1 = match init {
                Some(s1) => scan_stmt_mods_spec(*s1, svs, mods, m),
                None => (mods, m),
            };
            let mods2 = match update {
                Some(u) => scan_expr_mods_spec(*u, svs, r1.0, r1.1),
                None => r1.0,
            };
            match body {
                Some(b) => scan_stmt_mods_spec(*b, svs, mods2, r1.1),
                None => (mods2, r1.1),
            }
        },
        Stmt::Return(oe) => match oe {
            Some(e) => (scan_expr_mods_spec(e, svs, mods, m), m),
            None => (mods, m),
        },
        Stmt::VariableDefinition(name_opt, init_opt) => match init_opt {
            Some(init) => {
                let m1 = match name_opt {
                    Some(n) => bind_local(m, n@, init, svs),
                    None => m,
                };
                (scan_expr_mods_spec(init, svs, mods, m1), m1)
            },
            None => (mods, m),
        },
        _ => (mods, m),
    }
}

/// The coarse mutation scan folded over the statements of a block.
pub open spec fn scan_stmts_mods_spec(
    ss: Seq<Stmt>,
    i: int,
    svs: Seq<Seq<char>>,
    mods: Seq<Seq<char>>,
    m: Seq<(Seq<char>, StorageTargetV)>,
) -> (Seq<Seq<char>>, Seq<(Seq<char>, StorageTargetV)>)
    decreases ss, ss.len() - i,
{
    if i < 0 || i >= ss.len() {
        (mods, m)
    } else {
        let r = scan_stmt_mods_spec(ss[i], svs, mods, m);
        scan_stmts_mods_spec(ss, i + 1, svs, r.0, r.1)
    }
}

/// Closing a scope only appends to the parent bindings.
pub proof fn lemma_merge_scope_prefix(
    parent: Seq<(Seq<char>, StorageTargetV)>,
    added: Seq<(Seq<char>, StorageTargetV)>,
)
    ensures
        merge_scope_spec(parent, added).len() >= parent.len(),
        merge_scope_spec(parent, added).take(parent.len() as int) == parent,
    decreases added.len(),
{
    if added.len() == 0 {
        assert(merge_scope_spec(parent, added).take(parent.len() as int) =~= parent);
    } else {
        let p2 = merge_step(parent, added.last());
        lemma_merge_scope_prefix(p2, added.drop_last());
        assert(p2.take(parent.len() as int) =~= parent);
        assert(merge_scope_spec(parent, added).take(parent.len() as int) =~= merge_scope_spec(
            p2,
            added.drop_last(),
        ).take(p2.len() as int).take(parent.len() as int));
    }
}

/// The statement scan never rewrites the bindings that were in scope when it
/// started: it only appends to them.
pub proof fn lemma_scan_stmt_mods_prefix(
    s: Stmt,
    svs: Seq<Seq<char>>,
    mods: Seq<Seq<char>>,
    m: Seq<(Seq<char>, StorageTargetV)>,
)
    ensures
        scan_stmt_mods_spec(s, svs, mods, m).1.len() >= m.len(),
        scan_stmt_mods_spec(s, svs, mods, m).1.take(m.len() as int) == m,
    decreases s, 0int,
{
    match s {
        Stmt::Expression(_) => {
            assert(scan_stmt_mods_spec(s, svs, mods, m).1.take(m.len() as int) =~= m);
        },
        Stmt::Block { statements, .. } => {
            lemma_scan_stmts_mods_prefix(statements@, 0, svs, mods, m);
            let r = scan_stmts_mods_spec(statements@, 0, svs, mods, m);
            lemma_merge_scope_prefix(m, r.1.skip(m.len() as int));
        },
        Stmt::If(_, t, e) => {
            let r1 = scan_stmt_mods_spec(*t, svs, mods, m);
            lemma_scan_stmt_mods_prefix(*t, svs, mods, m);
            match e {
                Some(es) => {
                    lemma_scan_stmt_mods_prefix(*es, svs, r1.0, r1.1);
                    let r2 = scan_stmt_mods_spec(*es, svs, r1.0, r1.1);
                    assert(r2.1.take(m.len() as int) =~= r2.1.take(r1.1.len() as int).take(
                        m.len() as int,
                    ));
                },
                None => {},
            }
        },
        Stmt::While(_, b) => {
            lemma_scan_stmt_mods_prefix(*b, svs, mods, m);
        },
        Stmt::DoWhile(b, _) => {
            lemma_scan_stmt_mods_prefix(*b, svs, mods, m);
        },
        Stmt::For(init, _, update, body) => {
            let r1 = match init {
                Some(s1) => scan_stmt_mods_spec(*s1, svs, mods, m),
                None => (mods, m),
            };
            match init {
                Some(s1) => lemma_scan_stmt_mods_prefix(*s1, svs, mods, m),
                None => {
                    assert(r1.1.take(m.len() as int) =~= m);
                },
            }
            let mods2 = match update {
                Some(u) => scan_expr_mods_spec(*u, svs, r1.0, r1.1),
                None => r1.0,
            };
            match body {
                Some(b) => {
                    lemma_scan_stmt_mods_prefix(*b, svs, mods2, r1.1);
                    let r2 = scan_stmt_mods_spec(*b, svs, mods2, r1.1);
                    assert(r2.1.take(m.len() as int) =~= r2.1.take(r1.1.len() as int).take(
                        m.len() as int,
                    ));
                },
                None => {},
            }
        },
        Stmt::Return(_) => {
            assert(scan_stmt_mods_spec(s, svs, mods, m).1.take(m.len() as int) =~= m);
        },
        Stmt::VariableDefinition(name_opt, init_opt) => {
            match init_opt {
                Some(init) => {
                    let m1 = match name_opt {
                        Some(n) => bind_local(m, n@, init, svs),
                        None => m,
                    };
                    assert(m1.take(m.len() as int) =~= m);
                },
                None => {
                    assert(scan_stmt_mods_spec(s, svs, mods, m).1.take(m.len() as int) =~= m);
                },
            }
        },
        _ => {
            assert(scan_stmt_mods_spec(s, svs, mods, m).1.take(m.len() as int) =~= m);
        },
    }
}

/// The views of a sequence of storage parameters: position and name.
pub open spec fn sp_view(s: Seq<StorageParamInfo>) -> Seq<(int, Seq<char>)> {
    s.map_values(|p: StorageParamInfo| (p.param_index as int, p.param_name@))
}

pub broadcast proof fn sp_view_len(s: Seq<StorageParamInfo>)
    ensures
        #[trigger] sp_view(s).len() == s.len(),
{
}

pub broadcast proof fn sp_view_index(s: Seq<StorageParamInfo>, i: int)
    requires
        0 <= i < s.len(),
    ensures
        #[trigger] sp_view(s)[i] == (s[i].param_index as int, s[i].param_name@),
{
}

pub broadcast group group_sp_axioms {
    sp_view_len,
    sp_view_index,
}

/// A member path, when an expression has one, holds at least its root.
pub proof fn lemma_member_path_nonempty(e: Expr)
    ensures
        match member_path_spec(e) {
            Some(p) => p.len() >= 1,
            None => true,
        },
    decreases e,
{
    match e {
        Expr::MemberAccess(b, _) => lemma_member_path_nonempty(*b),
        Expr::ArraySubscript(b, _) => lemma_member_path_nonempty(*b),
        _ => {},
    }
}

/// The position of the first storage parameter with the given name.
pub open spec fn param_index_of(params: Seq<(int, Seq<char>)>, name: Seq<char>) -> Option<int>
    decreases params.len(),
{
    if params.len() == 0 {
        None
    } else if params.first().1 == name {
        Some(params.first().0)
    } else {
        param_index_of(params.drop_first(), name)
    }
}

/// Find the position of the storage parameter with the given name, if any.
pub fn find_storage_param(params: &Vec<StorageParamInfo>, name: &String) -> (r: Option<usize>)
    ensures
        match r {
            Some(i) => param_index_of(sp_view(params@), name@) == Some(i as int),
            None => param_index_of(sp_view(params@), name@) is None,
        },
{
    broadcast use group_sp_axioms;

    let mut i: usize = 0;
    assert(sp_view(params@).skip(0) =~= sp_view(params@));
    while i < params.len()
        invariant
            i <= params.len(),
            param_index_of(sp_view(params@), name@) == param_index_of(
                sp_view(params@).skip(i as int),
                name@,
            ),
        decreases params.len() - i,
    {
        assert(sp_view(params@).skip(i as int).first() == sp_view(params@)[i as int]);
        assert(sp_view(params@).skip(i as int).drop_first() =~= sp_view(params@).skip(i + 1));
        if params[i].param_name.eq(name) {
            return Some(params[i].param_index);
        }
        i += 1;
    }
    None
}

/// The fields of a member path after its root.
pub(crate) fn tail_of(segs: &Vec<String>) -> (r: Vec<String>)
    requires
        segs@.len() >= 1,
    ensures
        names_of(r@) == names_of(segs@).skip(1),
{
    let mut out: Vec<String> = Vec::new();
    let mut i: usize = 1;
    assert(names_of(out@) =~= names_of(segs@).subrange(1, 1));
    while i < segs.len()
        invariant
            1 <= i <= segs.len(),
            names_of(out@) == names_of(segs@).subrange(1, i as int),
        decreases segs.len() - i,
    {
        out.push(segs[i].clone());
        assert(names_of(out@) =~= names_of(segs@).subrange(1, i + 1));
        i += 1;
    }
    assert(names_of(segs@).subrange(1, segs@.len() as int) =~= names_of(segs@).skip(1));
    out
}

/// Record the field path of a mutated expression, rooted at a storage
/// parameter, a state variable, or the namespaced storage struct.
pub open spec fn add_field_path(
    paths: Seq<FieldPathV>,
    e: Expr,
    params: Seq<(int, Seq<char>)>,
    svs: Seq<Seq<char>>,
    m: Seq<(Seq<char>, StorageTargetV)>,
) -> Seq<FieldPathV> {
    match member_path_spec(e) {
        Some(segs) => {
            let root = segs[0];
            match param_index_of(params, root) {
                Some(i) => push_unique_path_spec(
                    paths,
                    FieldPathV { base: PathBaseV::PendingParam(i), fields: segs.skip(1) },
                ),
                None => match resolve_spec(root, svs, m) {
                    Some(StorageTargetV::State(sv)) => push_unique_path_spec(
                        paths,
                        FieldPathV { base: PathBaseV::Resolved(sv), fields: segs.skip(1) },
                    ),
                    Some(StorageTargetV::StorageStructRef) => push_unique_path_spec(
                        paths,
                        FieldPathV {
                            base: PathBaseV::PendingStorageStruct,
                            fields: segs.skip(1),
                        },
                    ),
                    None => paths,
                },
            }
        },
        None => paths,
    }
}

/// Record the field path of a mutated expression target.
fn record_field_path(
    target: &Expr,
    params: &Vec<StorageParamInfo>,
    state_vars: &Vec<String>,
    paths: &mut Vec<FieldPath>,
    mapping: &Vec<(String, StorageTarget)>,
)
    ensures
        paths_of(final(paths)@) == add_field_path(
            paths_of(old(paths)@),
            *target,
            sp_view(params@),
            names_of(state_vars@),
            mapping_view(mapping@),
        ),
{
    if let Some(segs) = extract_member_path(target) {
        proof {
            lemma_member_path_nonempty(*target);
        }
        assert(names_of(segs@).len() >= 1);
        assert(segs@.len() >= 1);
        let fields = tail_of(&segs);
        let root = &segs[0];
        assert(root@ == names_of(segs@)[0]);
        if let Some(idx) = find_storage_param(params, root) {
            push_unique_path(paths, FieldPath { base: PathBase::PendingParam(idx), fields });
        } else {
            match resolve_to_state_var(root, state_vars, mapping) {
                Some(StorageTarget::State(sv)) => {
                    push_unique_path(paths, FieldPath { base: PathBase::Resolved(sv), fields });
                },
                Some(StorageTarget::StorageStructRef) => {
                    push_unique_path(
                        paths,
                        FieldPath { base: PathBase::PendingStorageStruct, fields },
                    );
                },
                None => {},
            }
        }
    }
}

/// The field-level mutation scan over an expression.
pub open spec fn scan_expr_fields_spec(
    e: Expr,
    params: Seq<(int, Seq<char>)>,
    svs: Seq<Seq<char>>,
    paths: Seq<FieldPathV>,
    m: Seq<(Seq<char>, StorageTargetV)>,
) -> Seq<FieldPathV>
    decreases e, 0int,
{
    match e {
        Expr::Assign(_, l, r) => scan_expr_fields_spec(
            *r,
            params,
            svs,
            add_field_path(paths, *l, params, svs, m),
            m,
        ),
        Expr::PreIncrement(x) => add_field_path(paths, *x, params, svs, m),
        Expr::PostIncrement(x) => add_field_path(paths, *x, params, svs, m),
        Expr::PreDecrement(x) => add_field_path(paths, *x, params, svs, m),
        Expr::PostDecrement(x) => add_field_path(paths, *x, params, svs, m),
        Expr::Delete(x) => add_field_path(paths, *x, params, svs, m),
        Expr::FunctionCall(f, args) => {
            let paths1 = match *f {
                Expr::MemberAccess(b, method) => if is_mutating_method(method@) {
                    add_field_path(paths, *b, params, svs, m)
                } else {
                    paths
                },
                _ => paths,
            };
            scan_exprs_fields_spec(args@, 0, params, svs, paths1, m)
        },
        _ => paths,
    }
}

/// The field-level mutation scan folded over argument expressions.
pub open spec fn scan_exprs_fields_spec(
    es: Seq<Expr>,
    i: int,
    params: Seq<(int, Seq<char>)>,
    svs: Seq<Seq<char>>,
    paths: Seq<FieldPathV>,
    m: Seq<(Seq<char>, StorageTargetV)>,
) -> Seq<FieldPathV>
    decreases es, es.len() - i,
{
    if i < 0 || i >= es.len() {
        paths
    } else {
        scan_exprs_fields_spec(
            es,
            i + 1,
            params,
            svs,
            scan_expr_fields_spec(es[i], params, svs, paths, m),
            m,
        )
    }
}

/// The field-level mutation scan over a statement. Unlike the coarse scan,
/// storage-alias bindings accumulate across the whole body with no block
/// scoping.
pub open spec fn scan_stmt_fields_spec(
    s: Stmt,
    params: Seq<(int, Seq<char>)>,
    svs: Seq<Seq<char>>,
    paths: Seq<FieldPathV>,
    m: Seq<(Seq<char>, StorageTargetV)>,
) -> (Seq<FieldPathV>, Seq<(Seq<char>, StorageTargetV)>)
    decreases s, 0int,
{
    match s {
        Stmt::Expression(e) => (scan_expr_fields_spec(e, params, svs, paths, m), m),
        Stmt::Block { statements, .. } => scan_stmts_fields_spec(
            statements@,
            0,
            params,
            svs,
            paths,
            m,
        ),
        Stmt::If(_, t, e) => {
            let r1 = scan_stmt_fields_spec(*t, params, svs, paths, m);
            match e {
                Some(es) => scan_stmt_fields_spec(*es, params, svs, r1.0, r1.1),
                None => r1,
            }
        },
        Stmt::While(_, b) => scan_stmt_fields_spec(*b, params, svs, paths, m),
        Stmt::DoWhile(b, _) => scan_stmt_fields_spec(*b, params, svs, paths, m),
        Stmt::For(init, _, update, body) => {
            let r1 = match init {
                Some(s1) => scan_stmt_fields_spec(*s1, params, svs, paths, m),
                None => (paths, m),
            };
            let paths2 = match update {
                Some(u) => scan_expr_fields_spec(*u, params, svs, r1.0, r1.1),
                None => r1.0,
            };
            match body {
                Some(b) => scan_stmt_fields_spec(*b, params, svs, paths2, r1.1),
                None => (paths2, r1.1),
            }
        },
        Stmt::Return(oe) => match oe {
            Some(e) => (scan_expr_fields_spec(e, params, svs, paths, m), m),
            None => (paths, m),
        },
        Stmt::VariableDefinition(name_opt, init_opt) => match init_opt {
            Some(init) => {
                let m1 = match name_opt {
                    Some(n) => bind_local(m, n@, init, svs),
                    None => m,
                };
                (scan_expr_fields_spec(init, params, svs, paths, m1), m1)
            },
            None => (paths, m),
        },
        _ => (paths, m),
    }
}

/// The field-level mutation scan folded over the statements of a block.
pub open spec fn scan_stmts_fields_spec(
    ss: Seq<Stmt>,
    i: int,
    params: Seq<(int, Seq<char>)>,
    svs: Seq<Seq<char>>,
    paths: Seq<FieldPathV>,
    m: Seq<(Seq<char>, StorageTargetV)>,
) -> (Seq<FieldPathV>, Seq<(Seq<char>, StorageTargetV)>)
    decreases ss, ss.len() - i,
{
    if i < 0 || i >= ss.len() {
        (paths, m)
    } else {
        let r = scan_stmt_fields_spec(ss[i], params, svs, paths, m);
        scan_stmts_fields_spec(ss, i + 1, params, svs, r.0, r.1)
    }
}

/// Scan an expression for field-level mutations, recording the full path of
/// each mutated target.
pub fn scan_expression_for_field_modifications(
    e: &Expr,
    params: &Vec<StorageParamInfo>,
    state_vars: &Vec<String>,
    paths: &mut Vec<FieldPath>,
    mapping: &Vec<(String, StorageTarget)>,
)
    ensures
        paths_of(final(paths)@) == scan_expr_fields_spec(
            *e,
            sp_view(params@),
            names_of(state_vars@),
            paths_of(old(paths)@),
            mapping_view(mapping@),
        ),
    decreases *e, 0int,
{
    match e {
        Expr::Assign(_, l, r) => {
            record_field_path(l, params, state_vars, paths, mapping);
            scan_expression_for_field_modifications(r, params, state_vars, paths, mapping);
        },
        Expr::PreIncrement(x) => record_field_path(x, params, state_vars, paths, mapping),
        Expr::PostIncrement(x) => record_field_path(x, params, state_vars, paths, mapping),
        Expr::PreDecrement(x) => record_field_path(x, params, state_vars, paths, mapping),
        Expr::PostDecrement(x) => record_field_path(x, params, state_vars, paths, mapping),
        Expr::Delete(x) => record_field_path(x, params, state_vars, paths, mapping),
        Expr::FunctionCall(f, args) => {
            if let Expr::MemberAccess(b, method) = &**f {
                if crate::names::text_is(method, "push") || crate::names::text_is(method, "pop")
                    || crate::names::text_is(method, "add") || crate::names::text_is(
                    method,
                    "remove",
                ) || crate::names::text_is(method, "delete") {
                    record_field_path(b, params, state_vars, paths, mapping);
                }
            }
            let ghost spv = sp_view(params@);
            let ghost svs = names_of(state_vars@);
            let ghost mv = mapping_view(mapping@);
            let ghost paths1 = paths_of(paths@);
            let mut i: usize = 0;
            proof {
                assert(decreases_to!(*e => *args));
            }
            while i < args.len()
                invariant
                    i <= args.len(),
                    decreases_to!(*e => *args),
                    scan_exprs_fields_spec(args@, i as int, spv, svs, paths_of(paths@), mv)
                        == scan_exprs_fields_spec(args@, 0, spv, svs, paths1, mv),
                    spv == sp_view(params@),
                    svs == names_of(state_vars@),
                    mv == mapping_view(mapping@),
                decreases args.len() - i,
            {
                scan_expression_for_field_modifications(
                    &args[i],
                    params,
                    state_vars,
                    paths,
                    mapping,
                );
                i += 1;
            }
        },
        _ => {},
    }
}

/// Scan a statement tree for field-level mutations, maintaining the
/// storage-alias bindings as local declarations are met.
pub fn scan_statement_for_field_modifications(
    s: &Stmt,
    params: &Vec<StorageParamInfo>,
    state_vars: &Vec<String>,
    paths: &mut Vec<FieldPath>,
    mapping: &mut Vec<(String, StorageTarget)>,
)
    ensures
        (paths_of(final(paths)@), mapping_view(final(mapping)@)) == scan_stmt_fields_spec(
            *s,
            sp_view(params@),
            names_of(state_vars@),
            paths_of(old(paths)@),
            mapping_view(old(mapping)@),
        ),
    decreases *s, 0int,
{
    broadcast use group_mapping_axioms;

    let ghost svs = names_of(state_vars@);
    let ghost spv = sp_view(params@);
    match s {
        Stmt::Expression(e) => {
            scan_expression_for_field_modifications(e, params, state_vars, paths, mapping);
        },
        Stmt::Block { statements, .. } => {
            let ghost m0 = mapping_view(mapping@);
            let ghost paths0 = paths_of(paths@);
            let mut i: usize = 0;
            proof {
                assert(decreases_to!(*s => *statements));
            }
            while i < statements.len()
                invariant
                    i <= statements.len(),
                    decreases_to!(*s => *statements),
                    scan_stmts_fields_spec(
                        statements@,
                        i as int,
                        spv,
                        svs,
                        paths_of(paths@),
                        mapping_view(mapping@),
                    ) == scan_stmts_fields_spec(statements@, 0, spv, svs, paths0, m0),
                    spv == sp_view(params@),
                    svs == names_of(state_vars@),
                decreases statements.len() - i,
            {
                scan_statement_for_field_modifications(
                    &statements[i],
                    params,
                    state_vars,
                    paths,
                    mapping,
                );
                i += 1;
            }
        },
        Stmt::If(_, t, e) => {
            scan_statement_for_field_modifications(t, params, state_vars, paths, mapping);
            if let Some(es) = e {
                scan_statement_for_field_modifications(es, params, state_vars, paths, mapping);
            }
        },
        Stmt::While(_, b) => {
            scan_statement_for_field_modifications(b, params, state_vars, paths, mapping);
        },
        Stmt::DoWhile(b, _) => {
            scan_statement_for_field_modifications(b, params, state_vars, paths, mapping);
        },
        Stmt::For(init, _, update, body) => {
            if let Some(s1) = init {
                scan_statement_for_field_modifications(s1, params, state_vars, paths, mapping);
            }
            if let Some(u) = update {
                scan_expression_for_field_modifications(u, params, state_vars, paths, mapping);
            }
            if let Some(b) = body {
                scan_statement_for_field_modifications(b, params, state_vars, paths, mapping);
            }
        },
        Stmt::Return(oe) => {
            if let Some(e) = oe {
                scan_expression_for_field_modifications(e, params, state_vars, paths, mapping);
            }
        },
        Stmt::VariableDefinition(name_opt, init_opt) => {
            if let Some(init) = init_opt {
                if let Some(n) = name_opt {
                    let mut bound = false;
                    if let Expr::FunctionCall(f, _) = init {
                        if let Expr::Variable(fname) = &**f {
                            if contains_substr(fname.as_str(), "get") && contains_substr(
                                fname.as_str(),
                                "Storage",
                            ) {
                                mapping.push((n.clone(), StorageTarget::StorageStructRef));
                                bound = true;
                            }
                        }
                    }
                    if !bound {
                        assert(!is_storage_accessor_call(*init));
                        if let Some(bv) = extract_base_variable(init) {
                            if contains_name(state_vars, &bv) {
                                mapping.push((n.clone(), StorageTarget::State(bv)));
                            }
                        }
                    }
                    assert(mapping_view(mapping@) == bind_local(
                        mapping_view(old(mapping)@),
                        n@,
                        *init,
                        svs,
                    ));
                }
                scan_expression_for_field_modifications(init, params, state_vars, paths, mapping);
            }
        },
        _ => {},
    }
}

/// The views of a sequence of declared parameters: name and whether the
/// parameter is a storage reference.
pub open spec fn pn_view(s: Seq<ParamNode>) -> Seq<(Seq<char>, bool)> {
    s.map_values(|p: ParamNode| (p.name@, p.is_storage_ref))
}

pub broadcast proof fn pn_view_len(s: Seq<ParamNode>)
    ensures
        #[trigger] pn_view(s).len() == s.len(),
{
}

pub broadcast proof fn pn_view_index(s: Seq<ParamNode>, i: int)
    requires
        0 <= i < s.len(),
    ensures
        #[trigger] pn_view(s)[i] == (s[i].name@, s[i].is_storage_ref),
{
}

pub broadcast group group_pn_axioms {
    pn_view_len,
    pn_view_index,
}

/// The storage-reference parameters of a parameter list, each with its
/// position; a storage parameter without a name is skipped.
pub open spec fn storage_params_spec(ps: Seq<(Seq<char>, bool)>, i: int) -> Seq<(int, Seq<char>)>
    decreases ps.len() - i,
{
    if i < 0 || i >= ps.len() {
        Seq::empty()
    } else {
        let rest = storage_params_spec(ps, i + 1);
        if ps[i].1 && ps[i].0.len() > 0 {
            seq![(i, ps[i].0)] + rest
        } else {
            rest
        }
    }
}

/// Extract the storage-reference parameters of a function, with their
/// positions in the parameter list.
pub fn extract_storage_params(func: &FunctionNode) -> (r: Vec<StorageParamInfo>)
    ensures
        sp_view(r@) == storage_params_spec(pn_view(func.params@), 0),
{
    broadcast use group_pn_axioms, group_sp_axioms;

    let mut out: Vec<StorageParamInfo> = Vec::new();
    let mut i: usize = 0;
    while i < func.params.len()
        invariant
            i <= func.params.len(),
            sp_view(out@) + storage_params_spec(pn_view(func.params@), i as int)
                =~= storage_params_spec(pn_view(func.params@), 0),
        decreases func.params.len() - i,
    {
        let p = &func.params[i];
        if p.is_storage_ref && p.name.unicode_len() > 0 {
            let ghost pre = sp_view(out@);
            out.push(StorageParamInfo { param_index: i, param_name: p.name.clone() });
            assert(sp_view(out@) =~= pre.push((i as int, p.name@)));
        }
        i += 1;
    }
    out
}

/// The names of a storage-parameter list.
pub open spec fn sp_names(params: Seq<(int, Seq<char>)>) -> Seq<Seq<char>> {
    params.map_values(|p: (int, Seq<char>)| p.1)
}

/// The names of the given storage parameters.
pub fn storage_param_names(params: &Vec<StorageParamInfo>) -> (r: Vec<String>)
    ensures
        names_of(r@) == sp_names(sp_view(params@)),
{
    broadcast use group_sp_axioms;

    let mut out: Vec<String> = Vec::new();
    let mut i: usize = 0;
    while i < params.len()
        invariant
            i <= params.len(),
            out@.len() == i,
            forall|j: int| 0 <= j < i ==> names_of(out@)[j] == sp_view(params@)[j].1,
        decreases params.len() - i,
    {
        out.push(params[i].param_name.clone());
        i += 1;
    }
    assert(names_of(out@) =~= sp_names(sp_view(params@)));
    out
}

/// The state variables a function body mutates: the coarse scan over the
/// body, with storage-reference parameters excluded (those are resolved
/// inter-procedurally at call sites).
pub open spec fn find_state_mods_spec(
    body: Option<Stmt>,
    svs: Seq<Seq<char>>,
    params: Seq<(int, Seq<char>)>,
) -> Seq<Seq<char>> {
    crate::names::filter_names(
        match body {
            Some(b) => scan_stmt_mods_spec(b, svs, Seq::empty(), Seq::empty()).0,
            None => Seq::empty(),
        },
        sp_names(params),
    )
}

/// Find the state variables a function mutates directly.
pub fn find_state_modifications(
    func: &FunctionNode,
    state_vars: &Vec<String>,
    storage_params: &Vec<StorageParamInfo>,
) -> (r: Vec<String>)
    ensures
        names_of(r@) == find_state_mods_spec(
            func.body,
            names_of(state_vars@),
            sp_view(storage_params@),
        ),
{
    let mut modified: Vec<String> = Vec::new();
    let mut mapping: Vec<(String, StorageTarget)> = Vec::new();
    assert(names_of(modified@) =~= Seq::<Seq<char>>::empty());
    assert(mapping_view(mapping@) =~= Seq::<(Seq<char>, StorageTargetV)>::empty());
    if let Some(b) = &func.body {
        scan_statement_for_modifications(b, state_vars, &mut modified, &mut mapping);
    }
    let param_names = storage_param_names(storage_params);
    crate::names::retain_not_named(&modified, &param_names)
}

/// The field-level mutation paths of a function body.
pub open spec fn find_field_mods_spec(
    body: Option<Stmt>,
    svs: Seq<Seq<char>>,
    params: Seq<(int, Seq<char>)>,
) -> Seq<FieldPathV> {
    match body {
        Some(b) => scan_stmt_fields_spec(b, params, svs, Seq::empty(), Seq::empty()).0,
        None => Seq::empty(),
    }
}

/// Find the field-level mutation paths of a function.
pub fn find_field_modifications(
    func: &FunctionNode,
    state_vars: &Vec<String>,
    storage_params: &Vec<StorageParamInfo>,
) -> (r: Vec<FieldPath>)
    ensures
        paths_of(r@) == find_field_mods_spec(
            func.body,
            names_of(state_vars@),
            sp_view(storage_params@),
        ),
{
    let mut paths: Vec<FieldPath> = Vec::new();
    let mut mapping: Vec<(String, StorageTarget)> = Vec::new();
    assert(paths_of(paths@) =~= Seq::<FieldPathV>::empty());
    assert(mapping_view(mapping@) =~= Seq::<(Seq<char>, StorageTargetV)>::empty());
    if let Some(b) = &func.body {
        scan_statement_for_field_modifications(b, storage_params, state_vars, &mut paths, &mut mapping);
    }
    paths
}

/// The names of the functions a body calls by plain identifier.
pub open spec fn find_calls_spec(body: Option<Stmt>) -> Seq<Seq<char>> {
    match body {
        Some(b) => scan_stmt_calls_spec(b, Seq::empty()),
        None => Seq::empty(),
    }
}

/// Find the internal calls of a function.
pub fn find_function_calls(func: &FunctionNode) -> (r: Vec<String>)
    ensures
        names_of(r@) == find_calls_spec(func.body),
{
    let mut calls: Vec<String> = Vec::new();
    assert(names_of(calls@) =~= Seq::<Seq<char>>::empty());
    if let Some(b) = &func.body {
        scan_statement_for_calls(b, &mut calls);
    }
    calls
}

/// The declared events a body emits.
pub open spec fn find_events_spec(body: Option<Stmt>, event_names: Seq<Seq<char>>) -> Seq<
    Seq<char>,
> {
    match body {
        Some(b) => scan_stmt_events_spec(b, Seq::empty(), event_names),
        None => Seq::empty(),
    }
}

/// Find the declared events a function emits.
pub fn find_event_emissions(func: &FunctionNode, event_names: &Vec<String>) -> (r: Vec<String>)
    ensures
        names_of(r@) == find_events_spec(func.body, names_of(event_names@)),
{
    let mut emitted: Vec<String> = Vec::new();
    assert(names_of(emitted@) =~= Seq::<Seq<char>>::empty());
    if let Some(b) = &func.body {
        scan_statement_for_events(b, event_names, &mut emitted);
    }
    emitted
}

/// The custom errors a body raises through `revert` statements.
pub open spec fn find_errors_spec(body: Option<Stmt>) -> Seq<Seq<char>> {
    match body {
        Some(b) => scan_stmt_errors_spec(b, Seq::empty()),
        None => Seq::empty(),
    }
}

/// Find the custom errors a function raises.
pub fn find_error_usage(func: &FunctionNode) -> (r: Vec<String>)
    ensures
        names_of(r@) == find_errors_spec(func.body),
{
    let mut used: Vec<String> = Vec::new();
    assert(names_of(used@) =~= Seq::<Seq<char>>::empty());
    if let Some(b) = &func.body {
        scan_statement_for_errors(b, &mut used);
    }
    used
}

/// Whether a function body holds an `unchecked` block.
pub open spec fn has_unchecked_spec(body: Option<Stmt>) -> bool {
    match body {
        Some(b) => stmt_unchecked_spec(b),
        None => false,
    }
}

/// Whether a function holds an `unchecked` block.
pub fn has_unchecked_blocks(func: &FunctionNode) -> (r: bool)
    ensures
        r == has_unchecked_spec(func.body),
{
    match &func.body {
        Some(b) => scan_for_unchecked(b),
        None => false,
    }
}

/// What a call-site argument resolved to: a state variable, one of the
/// caller's own storage-reference parameters, or nothing the propagation can
/// use.
#[derive(Debug, PartialEq, Eq)]
pub enum ArgFact {
    State(String),
    OwnParam(usize),
    Unknown,
}

/// Spec-level value of an [`ArgFact`].
pub enum ArgFactV {
    State(Seq<char>),
    OwnParam(int),
    Unknown,
}

impl View for ArgFact {
    type V = ArgFactV;

    open spec fn view(&self) -> ArgFactV {
        match self {
            ArgFact::State(s) => ArgFactV::State(s@),
            ArgFact::OwnParam(p) => ArgFactV::OwnParam(*p as int),
            ArgFact::Unknown => ArgFactV::Unknown,
        }
    }
}

/// The internal-call scan over an expression: plain-identifier callees are
/// recorded; a member-access callee is an external call and is left to the
/// external-call classifier.
pub open spec fn scan_expr_calls_spec(e: Expr, calls: Seq<Seq<char>>) -> Seq<Seq<char>>
    decreases e, 0int,
{
    match e {
        Expr::FunctionCall(f, args) => {
            let c1 = match *f {
                Expr::Variable(n) => push_unique_spec(calls, n@),
                _ => calls,
            };
            scan_exprs_calls_spec(args@, 0, c1)
        },
        Expr::MemberAccess(b, _) => scan_expr_calls_spec(*b, calls),
        _ => calls,
    }
}

/// The internal-call scan folded over argument expressions.
pub open spec fn scan_exprs_calls_spec(es: Seq<Expr>, i: int, calls: Seq<Seq<char>>) -> Seq<
    Seq<char>,
>
    decreases es, es.len() - i,
{
    if i < 0 || i >= es.len() {
        calls
    } else {
        scan_exprs_calls_spec(es, i + 1, scan_expr_calls_spec(es[i], calls))
    }
}

/// The internal-call scan over a statement.
pub open spec fn scan_stmt_calls_spec(s: Stmt, calls: Seq<Seq<char>>) -> Seq<Seq<char>>
    decreases s, 0int,
{
    match s {
        Stmt::Expression(e) => scan_expr_calls_spec(e, calls),
        Stmt::Block { statements, .. } => scan_stmts_calls_spec(statements@, 0, calls),
        Stmt::If(c, t, e) => {
            let c1 = scan_expr_calls_spec(c, calls);
            let c2 = scan_stmt_calls_spec(*t, c1);
            match e {
                Some(es) => scan_stmt_calls_spec(*es, c2),
                None => c2,
            }
        },
        Stmt::While(c, b) => scan_stmt_calls_spec(*b, scan_expr_calls_spec(c, calls)),
        Stmt::For(init, cond, update, body) => {
            let c1 = match init {
                Some(s1) => scan_stmt_calls_spec(*s1, calls),
                None => calls,
            };
            let c2 = match cond {
                Some(c) => scan_expr_calls_spec(*c, c1),
                None => c1,
            };
            let c3 = match update {
                Some(u) => scan_expr_calls_spec(*u, c2),
                None => c2,
            };
            match body {
                Some(b) => scan_stmt_calls_spec(*b, c3),
                None => c3,
            }
        },
        Stmt::DoWhile(b, c) => scan_expr_calls_spec(c, scan_stmt_calls_spec(*b, calls)),
        Stmt::VariableDefinition(_, init) => match init {
            Some(e) => scan_expr_calls_spec(e, calls),
            None => calls,
        },
        Stmt::Return(oe) => match oe {
            Some(e) => scan_expr_calls_spec(e, calls),
            None => calls,
        },
        Stmt::Emit(e) => match e {
            Expr::FunctionCall(_, args) => scan_exprs_calls_spec(args@, 0, calls),
            _ => scan_expr_calls_spec(e, calls),
        },
        Stmt::Revert(_, args) => scan_exprs_calls_spec(args@, 0, calls),
        _ => calls,
    }
}

/// The internal-call scan folded over the statements of a block.
pub open spec fn scan_stmts_calls_spec(ss: Seq<Stmt>, i: int, calls: Seq<Seq<char>>) -> Seq<
    Seq<char>,
>
    decreases ss, ss.len() - i,
{
    if i < 0 || i >= ss.len() {
        calls
    } else {
        scan_stmts_calls_spec(ss, i + 1, scan_stmt_calls_spec(ss[i], calls))
    }
}

/// Scan an expression for internal function calls.
pub fn scan_expression_for_calls(e: &Expr, calls: &mut Vec<String>)
    ensures
        names_of(final(calls)@) == scan_expr_calls_spec(*e, names_of(old(calls)@)),
    decreases *e, 0int,
{
    match e {
        Expr::FunctionCall(f, args) => {
            if let Expr::Variable(n) = &**f {
                push_unique(calls, n.clone());
            }
            let ghost c1 = names_of(calls@);
            let mut i: usize = 0;
            proof {
                assert(decreases_to!(*e => *args));
            }
            while i < args.len()
                invariant
                    i <= args.len(),
                    decreases_to!(*e => *args),
                    scan_exprs_calls_spec(args@, i as int, names_of(calls@))
                        == scan_exprs_calls_spec(args@, 0, c1),
                decreases args.len() - i,
            {
                scan_expression_for_calls(&args[i], calls);
                i += 1;
            }
        },
        Expr::MemberAccess(b, _) => {
            scan_expression_for_calls(b, calls);
        },
        _ => {},
    }
}


/// Scan the arguments of an emitted event's call for internal calls; the
/// event name itself is not a function call. A non-call expression is
/// scanned whole.
fn scan_emit_for_calls(e: &Expr, calls: &mut Vec<String>)
    ensures
        names_of(final(calls)@) == (match *e {
            Expr::FunctionCall(_, args) => scan_exprs_calls_spec(args@, 0, names_of(old(calls)@)),
            _ => scan_expr_calls_spec(*e, names_of(old(calls)@)),
        }),
    decreases *e, 1int,
{
    if let Expr::FunctionCall(_, args) = e {
        let ghost c0 = names_of(calls@);
        let mut i: usize = 0;
        proof {
            assert(decreases_to!(*e => *args));
        }
        while i < args.len()
            invariant
                i <= args.len(),
                decreases_to!(*e => *args),
                scan_exprs_calls_spec(args@, i as int, names_of(calls@))
                    == scan_exprs_calls_spec(args@, 0, c0),
            decreases args.len() - i,
        {
            scan_expression_for_calls(&args[i], calls);
            i += 1;
        }
    } else {
        scan_expression_for_calls(e, calls);
    }
}

/// Scan a list of argument expressions for internal calls.
fn scan_expression_list_for_calls(es: &Vec<Expr>, calls: &mut Vec<String>)
    ensures
        names_of(final(calls)@) == scan_exprs_calls_spec(es@, 0, names_of(old(calls)@)),
    decreases *es, 1int,
{
    let ghost c0 = names_of(calls@);
    let mut i: usize = 0;
    proof {
        assert(decreases_to!(*es => es@));
    }
    while i < es.len()
        invariant
            i <= es.len(),
            decreases_to!(*es => es@),
            scan_exprs_calls_spec(es@, i as int, names_of(calls@)) == scan_exprs_calls_spec(
                es@,
                0,
                c0,
            ),
        decreases es.len() - i,
    {
        scan_expression_for_calls(&es[i], calls);
        i += 1;
    }
}

/// Scan a statement tree for internal function calls.
#[verifier::spinoff_prover]
#[verifier::rlimit(50)]
pub fn scan_statement_for_calls(s: &Stmt, calls: &mut Vec<String>)
    ensures
        names_of(final(calls)@) == scan_stmt_calls_spec(*s, names_of(old(calls)@)),
    decreases *s, 0int,
{
    match s {
        Stmt::Expression(e) => scan_expression_for_calls(e, calls),
        Stmt::Block { statements, .. } => {
            let ghost c0 = names_of(calls@);
            let mut i: usize = 0;
            proof {
                assert(decreases_to!(*s => *statements));
            }
            while i < statements.len()
                invariant
                    i <= statements.len(),
                    decreases_to!(*s => *statements),
                    scan_stmts_calls_spec(statements@, i as int, names_of(calls@))
                        == scan_stmts_calls_spec(statements@, 0, c0),
                decreases statements.len() - i,
            {
                scan_statement_for_calls(&statements[i], calls);
                i += 1;
            }
        },
        Stmt::If(c, t, e) => {
            scan_expression_for_calls(c, calls);
            scan_statement_for_calls(t, calls);
            if let Some(es) = e {
                scan_statement_for_calls(es, calls);
            }
        },
        Stmt::While(c, b) => {
            scan_expression_for_calls(c, calls);
            scan_statement_for_calls(b, calls);
        },
        Stmt::For(init, cond, update, body) => {
            if let Some(s1) = init {
                scan_statement_for_calls(s1, calls);
            }
            if let Some(c) = cond {
                scan_expression_for_calls(c, calls);
            }
            if let Some(u) = update {
                scan_expression_for_calls(u, calls);
            }
            if let Some(b) = body {
                scan_statement_for_calls(b, calls);
            }
        },
        Stmt::DoWhile(b, c) => {
            scan_statement_for_calls(b, calls);
            scan_expression_for_calls(c, calls);
        },
        Stmt::VariableDefinition(_, init) => {
            if let Some(e) = init {
                scan_expression_for_calls(e, calls);
            }
        },
        Stmt::Return(oe) => {
            if let Some(e) = oe {
                scan_expression_for_calls(e, calls);
            }
        },
        Stmt::Emit(e) => {
            scan_emit_for_calls(e, calls);
        },
        Stmt::Revert(_, args) => {
            scan_expression_list_for_calls(args, calls);
        },
        _ => {},
    }
}

/// The storage-alias bindings a whole body establishes, with no block
/// scoping: the call-site scan resolves arguments against all of them.
pub open spec fn scan_stmt_bsm_spec(
    s: Stmt,
    svs: Seq<Seq<char>>,
    m: Seq<(Seq<char>, StorageTargetV)>,
) -> Seq<(Seq<char>, StorageTargetV)>
    decreases s, 0int,
{
    match s {
        Stmt::VariableDefinition(name_opt, init_opt) => match (name_opt, init_opt) {
            (Some(n), Some(init)) => match base_var_spec(init) {
                Some(bv) => if svs.contains(bv) {
                    m.push((n@, StorageTargetV::State(bv)))
                } else {
                    m
                },
                None => m,
            },
            _ => m,
        },
        Stmt::Block { statements, .. } => scan_stmts_bsm_spec(statements@, 0, svs, m),
        Stmt::If(_, t, e) => {
            let m1 = scan_stmt_bsm_spec(*t, svs, m);
            match e {
                Some(es) => scan_stmt_bsm_spec(*es, svs, m1),
                None => m1,
            }
        },
        Stmt::While(_, b) => scan_stmt_bsm_spec(*b, svs, m),
        Stmt::DoWhile(b, _) => scan_stmt_bsm_spec(*b, svs, m),
        Stmt::For(init, _, _, body) => {
            let m1 = match init {
                Some(s1) => scan_stmt_bsm_spec(*s1, svs, m),
                None => m,
            };
            match body {
                Some(b) => scan_stmt_bsm_spec(*b, svs, m1),
                None => m1,
            }
        },
        _ => m,
    }
}

/// The whole-body binding scan folded over the statements of a block.
pub open spec fn scan_stmts_bsm_spec(
    ss: Seq<Stmt>,
    i: int,
    svs: Seq<Seq<char>>,
    m: Seq<(Seq<char>, StorageTargetV)>,
) -> Seq<(Seq<char>, StorageTargetV)>
    decreases ss, ss.len() - i,
{
    if i < 0 || i >= ss.len() {
        m
    } else {
        scan_stmts_bsm_spec(ss, i + 1, svs, scan_stmt_bsm_spec(ss[i], svs, m))
    }
}

/// Build the storage-alias bindings of a whole statement tree.
pub fn build_storage_mapping(
    s: &Stmt,
    state_vars: &Vec<String>,
    mapping: &mut Vec<(String, StorageTarget)>,
)
    ensures
        mapping_view(final(mapping)@) == scan_stmt_bsm_spec(
            *s,
            names_of(state_vars@),
            mapping_view(old(mapping)@),
        ),
    decreases *s, 0int,
{
    broadcast use group_mapping_axioms;

    let ghost svs = names_of(state_vars@);
    match s {
        Stmt::VariableDefinition(name_opt, init_opt) => {
            if let (Some(n), Some(init)) = (name_opt, init_opt) {
                if let Some(bv) = extract_base_variable(init) {
                    if contains_name(state_vars, &bv) {
                        mapping.push((n.clone(), StorageTarget::State(bv)));
                    }
                }
            }
        },
        Stmt::Block { statements, .. } => {
            let ghost m0 = mapping_view(mapping@);
            let mut i: usize = 0;
            proof {
                assert(decreases_to!(*s => *statements));
            }
            while i < statements.len()
                invariant
                    i <= statements.len(),
                    decreases_to!(*s => *statements),
                    scan_stmts_bsm_spec(statements@, i as int, svs, mapping_view(mapping@))
                        == scan_stmts_bsm_spec(statements@, 0, svs, m0),
                    svs == names_of(state_vars@),
                decreases statements.len() - i,
            {
                build_storage_mapping(&statements[i], state_vars, mapping);
                i += 1;
            }
        },
        Stmt::If(_, t, e) => {
            build_storage_mapping(t, state_vars, mapping);
            if let Some(es) = e {
                build_storage_mapping(es, state_vars, mapping);
            }
        },
        Stmt::While(_, b) => build_storage_mapping(b, state_vars, mapping),
        Stmt::DoWhile(b, _) => build_storage_mapping(b, state_vars, mapping),
        Stmt::For(init, _, _, body) => {
            if let Some(s1) = init {
                build_storage_mapping(s1, state_vars, mapping);
            }
            if let Some(b) = body {
                build_storage_mapping(b, state_vars, mapping);
            }
        },
        _ => {},
    }
}

/// What one call-site argument resolves to.
pub open spec fn arg_fact_of(
    e: Expr,
    svs: Seq<Seq<char>>,
    m: Seq<(Seq<char>, StorageTargetV)>,
    own: Seq<(int, Seq<char>)>,
) -> ArgFactV {
    match base_var_spec(e) {
        Some(nm) => match resolve_spec(nm, svs, m) {
            Some(StorageTargetV::State(sv)) => ArgFactV::State(sv),
            Some(StorageTargetV::StorageStructRef) => ArgFactV::Unknown,
            None => match param_index_of(own, nm) {
                Some(p) => ArgFactV::OwnParam(p),
                None => ArgFactV::Unknown,
            },
        },
        None => ArgFactV::Unknown,
    }
}

/// The facts of all arguments of one call, in order.
pub open spec fn args_facts_spec(
    es: Seq<Expr>,
    svs: Seq<Seq<char>>,
    m: Seq<(Seq<char>, StorageTargetV)>,
    own: Seq<(int, Seq<char>)>,
) -> Seq<ArgFactV> {
    Seq::new(es.len(), |i: int| arg_fact_of(es[i], svs, m, own))
}

/// Resolve each argument of a call to a fact the propagation can use.
fn resolve_call_args(
    args: &Vec<Expr>,
    state_vars: &Vec<String>,
    mapping: &Vec<(String, StorageTarget)>,
    own: &Vec<StorageParamInfo>,
) -> (r: Vec<ArgFact>)
    ensures
        crate::propagate::af_view(r@) == args_facts_spec(
            args@,
            names_of(state_vars@),
            mapping_view(mapping@),
            sp_view(own@),
        ),
{
    broadcast use crate::propagate::group_af_axioms;

    let mut out: Vec<ArgFact> = Vec::new();
    let mut i: usize = 0;
    while i < args.len()
        invariant
            i <= args.len(),
            out@.len() == i,
            forall|j: int|
                0 <= j < i ==> crate::propagate::af_view(out@)[j] == arg_fact_of(
                    args@[j],
                    names_of(state_vars@),
                    mapping_view(mapping@),
                    sp_view(own@),
                ),
        decreases args.len() - i,
    {
        let fact = if let Some(nm) = extract_base_variable(&args[i]) {
            match resolve_to_state_var(&nm, state_vars, mapping) {
                Some(StorageTarget::State(sv)) => ArgFact::State(sv),
                Some(StorageTarget::StorageStructRef) => ArgFact::Unknown,
                None => match find_storage_param(own, &nm) {
                    Some(p) => ArgFact::OwnParam(p),
                    None => ArgFact::Unknown,
                },
            }
        } else {
            ArgFact::Unknown
        };
        assert(fact@ == arg_fact_of(
            args@[i as int],
            names_of(state_vars@),
            mapping_view(mapping@),
            sp_view(own@),
        ));
        let ghost pre = crate::propagate::af_view(out@);
        out.push(fact);
        assert(crate::propagate::af_view(out@) =~= pre.push(fact@));
        i += 1;
    }
    assert(crate::propagate::af_view(out@) =~= args_facts_spec(
        args@,
        names_of(state_vars@),
        mapping_view(mapping@),
        sp_view(own@),
    ));
    out
}

/// The call-site scan over an expression: for each plain-identifier call,
/// the callee name with each argument resolved to a fact.
pub open spec fn scan_expr_cwa_spec(
    e: Expr,
    svs: Seq<Seq<char>>,
    m: Seq<(Seq<char>, StorageTargetV)>,
    own: Seq<(int, Seq<char>)>,
    acc: Seq<(Seq<char>, Seq<ArgFactV>)>,
) -> Seq<(Seq<char>, Seq<ArgFactV>)>
    decreases e, 0int,
{
    match e {
        Expr::FunctionCall(f, args) => {
            let acc1 = match *f {
                Expr::Variable(nm) => acc.push((nm@, args_facts_spec(args@, svs, m, own))),
                _ => acc,
            };
            scan_exprs_cwa_spec(args@, 0, svs, m, own, acc1)
        },
        Expr::MemberAccess(b, _) => scan_expr_cwa_spec(*b, svs, m, own, acc),
        _ => acc,
    }
}

/// The call-site scan folded over argument expressions.
pub open spec fn scan_exprs_cwa_spec(
    es: Seq<Expr>,
    i: int,
    svs: Seq<Seq<char>>,
    m: Seq<(Seq<char>, StorageTargetV)>,
    own: Seq<(int, Seq<char>)>,
    acc: Seq<(Seq<char>, Seq<ArgFactV>)>,
) -> Seq<(Seq<char>, Seq<ArgFactV>)>
    decreases es, es.len() - i,
{
    if i < 0 || i >= es.len() {
        acc
    } else {
        scan_exprs_cwa_spec(es, i + 1, svs, m, own, scan_expr_cwa_spec(es[i], svs, m, own, acc))
    }
}

/// The call-site scan over a statement.
pub open spec fn scan_stmt_cwa_spec(
    s: Stmt,
    svs: Seq<Seq<char>>,
    m: Seq<(Seq<char>, StorageTargetV)>,
    own: Seq<(int, Seq<char>)>,
    acc: Seq<(Seq<char>, Seq<ArgFactV>)>,
) -> Seq<(Seq<char>, Seq<ArgFactV>)>
    decreases s, 0int,
{
    match s {
        Stmt::Expression(e) => scan_expr_cwa_spec(e, svs, m, own, acc),
        Stmt::Block { statements, .. } => scan_stmts_cwa_spec(statements@, 0, svs, m, own, acc),
        Stmt::If(c, t, e) => {
            let a1 = scan_expr_cwa_spec(c, svs, m, own, acc);
            let a2 = scan_stmt_cwa_spec(*t, svs, m, own, a1);
            match e {
                Some(es) => scan_stmt_cwa_spec(*es, svs, m, own, a2),
                None => a2,
            }
        },
        Stmt::While(c, b) => scan_stmt_cwa_spec(
            *b,
            svs,
            m,
            own,
            scan_expr_cwa_spec(c, svs, m, own, acc),
        ),
        Stmt::For(init, cond, update, body) => {
            let a1 = match init {
                Some(s1) => scan_stmt_cwa_spec(*s1, svs, m, own, acc),
                None => acc,
            };
            let a2 = match cond {
                Some(c) => scan_expr_cwa_spec(*c, svs, m, own, a1),
                None => a1,
            };
            let a3 = match update {
                Some(u) => scan_expr_cwa_spec(*u, svs, m, own, a2),
                None => a2,
            };
            match body {
                Some(b) => scan_stmt_cwa_spec(*b, svs, m, own, a3),
                None => a3,
            }
        },
        Stmt::DoWhile(b, c) => scan_expr_cwa_spec(
            c,
            svs,
            m,
            own,
            scan_stmt_cwa_spec(*b, svs, m, own, acc),
        ),
        Stmt::VariableDefinition(_, init) => match init {
            Some(e) => scan_expr_cwa_spec(e, svs, m, own, acc),
            None => acc,
        },
        Stmt::Return(oe) => match oe {
            Some(e) => scan_expr_cwa_spec(e, svs, m, own, acc),
            None => acc,
        },
        Stmt::Emit(e) => match e {
            Expr::FunctionCall(_, args) => scan_exprs_cwa_spec(args@, 0, svs, m, own, acc),
            _ => scan_expr_cwa_spec(e, svs, m, own, acc),
        },
        Stmt::Revert(_, args) => scan_exprs_cwa_spec(args@, 0, svs, m, own, acc),
        _ => acc,
    }
}

/// The call-site scan folded over the statements of a block.
pub open spec fn scan_stmts_cwa_spec(
    ss: Seq<Stmt>,
    i: int,
    svs: Seq<Seq<char>>,
    m: Seq<(Seq<char>, StorageTargetV)>,
    own: Seq<(int, Seq<char>)>,
    acc: Seq<(Seq<char>, Seq<ArgFactV>)>,
) -> Seq<(Seq<char>, Seq<ArgFactV>)>
    decreases ss, ss.len() - i,
{
    if i < 0 || i >= ss.len() {
        acc
    } else {
        scan_stmts_cwa_spec(ss, i + 1, svs, m, own, scan_stmt_cwa_spec(ss[i], svs, m, own, acc))
    }
}

/// Scan an expression for call sites with resolved arguments.
pub fn scan_expr_for_calls_with_args(
    e: &Expr,
    state_vars: &Vec<String>,
    mapping: &Vec<(String, StorageTarget)>,
    own: &Vec<StorageParamInfo>,
    acc: &mut Vec<(String, Vec<ArgFact>)>,
)
    ensures
        crate::propagate::cs_view(final(acc)@) == scan_expr_cwa_spec(
            *e,
            names_of(state_vars@),
            mapping_view(mapping@),
            sp_view(own@),
            crate::propagate::cs_view(old(acc)@),
        ),
    decreases *e, 0int,
{
    broadcast use crate::propagate::group_cs_axioms;

    match e {
        Expr::FunctionCall(f, args) => {
            if let Expr::Variable(nm) = &**f {
                let facts = resolve_call_args(args, state_vars, mapping, own);
                let ghost pre = crate::propagate::cs_view(acc@);
                acc.push((nm.clone(), facts));
                assert(crate::propagate::cs_view(acc@) =~= pre.push(
                    (
                        nm@,
                        args_facts_spec(
                            args@,
                            names_of(state_vars@),
                            mapping_view(mapping@),
                            sp_view(own@),
                        ),
                    ),
                ));
            }
            let ghost a1 = crate::propagate::cs_view(acc@);
            let mut i: usize = 0;
            proof {
                assert(decreases_to!(*e => *args));
            }
            while i < args.len()
                invariant
                    i <= args.len(),
                    decreases_to!(*e => *args),
                    scan_exprs_cwa_spec(
                        args@,
                        i as int,
                        names_of(state_vars@),
                        mapping_view(mapping@),
                        sp_view(own@),
                        crate::propagate::cs_view(acc@),
                    ) == scan_exprs_cwa_spec(
                        args@,
                        0,
                        names_of(state_vars@),
                        mapping_view(mapping@),
                        sp_view(own@),
                        a1,
                    ),
                decreases args.len() - i,
            {
                scan_expr_for_calls_with_args(&args[i], state_vars, mapping, own, acc);
                i += 1;
            }
        },
        Expr::MemberAccess(b, _) => {
            scan_expr_for_calls_with_args(b, state_vars, mapping, own, acc);
        },
        _ => {},
    }
}


/// Scan the arguments of an emitted event's call for call sites; the event
/// name itself is not a call site. A non-call expression is scanned whole.
fn scan_emit_for_calls_with_args(
    e: &Expr,
    state_vars: &Vec<String>,
    mapping: &Vec<(String, StorageTarget)>,
    own: &Vec<StorageParamInfo>,
    acc: &mut Vec<(String, Vec<ArgFact>)>,
)
    ensures
        crate::propagate::cs_view(final(acc)@) == (match *e {
            Expr::FunctionCall(_, args) => scan_exprs_cwa_spec(
                args@,
                0,
                names_of(state_vars@),
                mapping_view(mapping@),
                sp_view(own@),
                crate::propagate::cs_view(old(acc)@),
            ),
            _ => scan_expr_cwa_spec(
                *e,
                names_of(state_vars@),
                mapping_view(mapping@),
                sp_view(own@),
                crate::propagate::cs_view(old(acc)@),
            ),
        }),
    decreases *e, 1int,
{
    if let Expr::FunctionCall(_, args) = e {
        let ghost a0 = crate::propagate::cs_view(acc@);
        let mut i: usize = 0;
        proof {
            assert(decreases_to!(*e => *args));
        }
        while i < args.len()
            invariant
                i <= args.len(),
                decreases_to!(*e => *args),
                scan_exprs_cwa_spec(
                    args@,
                    i as int,
                    names_of(state_vars@),
                    mapping_view(mapping@),
                    sp_view(own@),
                    crate::propagate::cs_view(acc@),
                ) == scan_exprs_cwa_spec(
                    args@,
                    0,
                    names_of(state_vars@),
                    mapping_view(mapping@),
                    sp_view(own@),
                    a0,
                ),
            decreases args.len() - i,
        {
            scan_expr_for_calls_with_args(&args[i], state_vars, mapping, own, acc);
            i += 1;
        }
    } else {
        scan_expr_for_calls_with_args(e, state_vars, mapping, own, acc);
    }
}

/// Scan a list of argument expressions for call sites.
fn scan_expression_list_for_calls_with_args(
    es: &Vec<Expr>,
    state_vars: &Vec<String>,
    mapping: &Vec<(String, StorageTarget)>,
    own: &Vec<StorageParamInfo>,
    acc: &mut Vec<(String, Vec<ArgFact>)>,
)
    ensures
        crate::propagate::cs_view(final(acc)@) == scan_exprs_cwa_spec(
            es@,
            0,
            names_of(state_vars@),
            mapping_view(mapping@),
            sp_view(own@),
            crate::propagate::cs_view(old(acc)@),
        ),
    decreases *es, 1int,
{
    let ghost a0 = crate::propagate::cs_view(acc@);
    let mut i: usize = 0;
    proof {
        assert(decreases_to!(*es => es@));
    }
    while i < es.len()
        invariant
            i <= es.len(),
            decreases_to!(*es => es@),
            scan_exprs_cwa_spec(
                es@,
                i as int,
                names_of(state_vars@),
                mapping_view(mapping@),
                sp_view(own@),
                crate::propagate::cs_view(acc@),
            ) == scan_exprs_cwa_spec(
                es@,
                0,
                names_of(state_vars@),
                mapping_view(mapping@),
                sp_view(own@),
                a0,
            ),
        decreases es.len() - i,
    {
        scan_expr_for_calls_with_args(&es[i], state_vars, mapping, own, acc);
        i += 1;
    }
}

/// Scan a statement tree for call sites with resolved arguments.
pub fn scan_for_calls_with_args(
    s: &Stmt,
    state_vars: &Vec<String>,
    mapping: &Vec<(String, StorageTarget)>,
    own: &Vec<StorageParamInfo>,
    acc: &mut Vec<(String, Vec<ArgFact>)>,
)
    ensures
        crate::propagate::cs_view(final(acc)@) == scan_stmt_cwa_spec(
            *s,
            names_of(state_vars@),
            mapping_view(mapping@),
            sp_view(own@),
            crate::propagate::cs_view(old(acc)@),
        ),
    decreases *s, 0int,
{
    match s {
        Stmt::Expression(e) => scan_expr_for_calls_with_args(e, state_vars, mapping, own, acc),
        Stmt::Block { statements, .. } => {
            let ghost a0 = crate::propagate::cs_view(acc@);
            let mut i: usize = 0;
            proof {
                assert(decreases_to!(*s => *statements));
            }
            while i < statements.len()
                invariant
                    i <= statements.len(),
                    decreases_to!(*s => *statements),
                    scan_stmts_cwa_spec(
                        statements@,
                        i as int,
                        names_of(state_vars@),
                        mapping_view(mapping@),
                        sp_view(own@),
                        crate::propagate::cs_view(acc@),
                    ) == scan_stmts_cwa_spec(
                        statements@,
                        0,
                        names_of(state_vars@),
                        mapping_view(mapping@),
                        sp_view(own@),
                        a0,
                    ),
                decreases statements.len() - i,
            {
                scan_for_calls_with_args(&statements[i], state_vars, mapping, own, acc);
                i += 1;
            }
        },
        Stmt::If(c, t, e) => {
            scan_expr_for_calls_with_args(c, state_vars, mapping, own, acc);
            scan_for_calls_with_args(t, state_vars, mapping, own, acc);
            if let Some(es) = e {
                scan_for_calls_with_args(es, state_vars, mapping, own, acc);
            }
        },
        Stmt::While(c, b) => {
            scan_expr_for_calls_with_args(c, state_vars, mapping, own, acc);
            scan_for_calls_with_args(b, state_vars, mapping, own, acc);
        },
        Stmt::For(init, cond, update, body) => {
            if let Some(s1) = init {
                scan_for_calls_with_args(s1, state_vars, mapping, own, acc);
            }
            if let Some(c) = cond {
                scan_expr_for_calls_with_args(c, state_vars, mapping, own, acc);
            }
            if let Some(u) = update {
                scan_expr_for_calls_with_args(u, state_vars, mapping, own, acc);
            }
            if let Some(b) = body {
                scan_for_calls_with_args(b, state_vars, mapping, own, acc);
            }
        },
        Stmt::DoWhile(b, c) => {
            scan_for_calls_with_args(b, state_vars, mapping, own, acc);
            scan_expr_for_calls_with_args(c, state_vars, mapping, own, acc);
        },
        Stmt::VariableDefinition(_, init) => {
            if let Some(e) = init {
                scan_expr_for_calls_with_args(e, state_vars, mapping, own, acc);
            }
        },
        Stmt::Return(oe) => {
            if let Some(e) = oe {
                scan_expr_for_calls_with_args(e, state_vars, mapping, own, acc);
            }
        },
        Stmt::Emit(e) => {
            scan_emit_for_calls_with_args(e, state_vars, mapping, own, acc);
        },
        Stmt::Revert(_, args) => {
            scan_expression_list_for_calls_with_args(args, state_vars, mapping, own, acc);
        },
        _ => {},
    }
}

/// The call sites of a whole function: the binding scan over the body first,
/// then the call-site scan against those bindings and the function's own
/// storage parameters.
pub open spec fn calls_with_args_spec(
    body: Option<Stmt>,
    svs: Seq<Seq<char>>,
    own: Seq<(int, Seq<char>)>,
) -> Seq<(Seq<char>, Seq<ArgFactV>)> {
    match body {
        Some(b) => scan_stmt_cwa_spec(
            b,
            svs,
            scan_stmt_bsm_spec(b, svs, Seq::empty()),
            own,
            Seq::empty(),
        ),
        None => Seq::empty(),
    }
}

/// Extract the call sites of a function with each argument resolved to a
/// state variable or to one of the caller's own storage parameters.
pub fn extract_function_calls_with_args(
    func: &FunctionNode,
    state_vars: &Vec<String>,
    own: &Vec<StorageParamInfo>,
) -> (r: Vec<(String, Vec<ArgFact>)>)
    ensures
        crate::propagate::cs_view(r@) == calls_with_args_spec(
            func.body,
            names_of(state_vars@),
            sp_view(own@),
        ),
{
    let mut mapping: Vec<(String, StorageTarget)> = Vec::new();
    let mut acc: Vec<(String, Vec<ArgFact>)> = Vec::new();
    assert(mapping_view(mapping@) =~= Seq::<(Seq<char>, StorageTargetV)>::empty());
    assert(crate::propagate::cs_view(acc@) =~= Seq::<(Seq<char>, Seq<ArgFactV>)>::empty());
    if let Some(b) = &func.body {
        build_storage_mapping(b, state_vars, &mut mapping);
        scan_for_calls_with_args(b, state_vars, &mapping, own, &mut acc);
    }
    acc
}

/// The first non-modifier function definition with the given name.
pub open spec fn find_node_spec(nodes: Seq<FunctionNode>, nm: Seq<char>, i: int) -> Option<int>
    decreases nodes.len() - i,
{
    if i < 0 || i >= nodes.len() {
        None
    } else if !nodes[i].is_modifier && nodes[i].name@ == nm {
        Some(i)
    } else {
        find_node_spec(nodes, nm, i + 1)
    }
}

/// Find the first non-modifier function definition with the given name.
pub fn find_function_node<'a>(nodes: &'a Vec<FunctionNode>, nm: &String) -> (r: Option<
    &'a FunctionNode,
>)
    ensures
        match r {
            Some(node) => exists|j: int|
                find_node_spec(nodes@, nm@, 0) == Some(j) && 0 <= j < nodes@.len() && nodes@[j]
                    == *node,
            None => find_node_spec(nodes@, nm@, 0) is None,
        },
{
    let mut i: usize = 0;
    while i < nodes.len()
        invariant
            i <= nodes.len(),
            find_node_spec(nodes@, nm@, 0) == find_node_spec(nodes@, nm@, i as int),
        decreases nodes.len() - i,
    {
        if !nodes[i].is_modifier && nodes[i].name.eq(nm) {
            return Some(&nodes[i]);
        }
        i += 1;
    }
    None
}

/// An equal copy of a name list.
pub fn dup_names(v: &Vec<String>) -> (r: Vec<String>)
    ensures
        names_of(r@) == names_of(v@),
{
    let mut out: Vec<String> = Vec::new();
    let mut i: usize = 0;
    while i < v.len()
        invariant
            i <= v.len(),
            out@.len() == i,
            forall|j: int| 0 <= j < i ==> names_of(out@)[j] == names_of(v@)[j],
        decreases v.len() - i,
    {
        out.push(v[i].clone());
        i += 1;
    }
    assert(names_of(out@) =~= names_of(v@));
    out
}

/// An equal copy of a storage-parameter list.
pub fn dup_storage_params(v: &Vec<StorageParamInfo>) -> (r: Vec<StorageParamInfo>)
    ensures
        sp_view(r@) == sp_view(v@),
{
    broadcast use group_sp_axioms;

    let mut out: Vec<StorageParamInfo> = Vec::new();
    let mut i: usize = 0;
    while i < v.len()
        invariant
            i <= v.len(),
            out@.len() == i,
            forall|j: int| 0 <= j < i ==> sp_view(out@)[j] == sp_view(v@)[j],
        decreases v.len() - i,
    {
        out.push(
            StorageParamInfo {
                param_index: v[i].param_index,
                param_name: v[i].param_name.clone(),
            },
        );
        i += 1;
    }
    assert(sp_view(out@) =~= sp_view(v@));
    out
}

/// The storage-parameter positions a function mutates directly, read off its
/// pending field paths.
pub open spec fn mutp_init_row(paths: Seq<FieldPathV>, j: int, acc: Seq<int>) -> Seq<int>
    decreases paths.len() - j,
{
    if j < 0 || j >= paths.len() {
        acc
    } else {
        let acc1 = match paths[j].base {
            PathBaseV::PendingParam(p) => crate::propagate::push_unique_int_spec(acc, p),
            _ => acc,
        };
        mutp_init_row(paths, j + 1, acc1)
    }
}

/// Collect the storage-parameter positions a function mutates directly.
pub fn collect_mutated_params(paths: &Vec<FieldPath>) -> (r: Vec<usize>)
    ensures
        crate::propagate::iv_view(r@) == mutp_init_row(paths_of(paths@), 0, Seq::empty()),
{
    broadcast use group_paths_axioms;

    let mut out: Vec<usize> = Vec::new();
    assert(crate::propagate::iv_view(out@) =~= Seq::<int>::empty());
    let mut j: usize = 0;
    while j < paths.len()
        invariant
            j <= paths.len(),
            mutp_init_row(paths_of(paths@), j as int, crate::propagate::iv_view(out@))
                == mutp_init_row(paths_of(paths@), 0, Seq::empty()),
        decreases paths.len() - j,
    {
        if let PathBase::PendingParam(p) = paths[j].base {
            crate::propagate::push_unique_pos(&mut out, p);
        }
        j += 1;
    }
    out
}

/// The function names of the analysis records.
pub open spec fn prop_names(fns: Seq<FunctionDef>) -> Seq<Seq<char>> {
    Seq::new(fns.len(), |k: int| fns[k].name@)
}

/// The storage-parameter rows of the analysis records.
pub open spec fn prop_sprows(fns: Seq<FunctionDef>) -> Seq<Seq<(int, Seq<char>)>> {
    Seq::new(fns.len(), |k: int| sp_view(fns[k].storage_params@))
}

/// The initial per-function mutation rows.
pub open spec fn prop_mods0(fns: Seq<FunctionDef>) -> Seq<Seq<Seq<char>>> {
    Seq::new(fns.len(), |k: int| names_of(fns[k].modifies_states@))
}

/// The initial per-function mutated-parameter rows.
pub open spec fn prop_mutp0(fns: Seq<FunctionDef>) -> Seq<Seq<int>> {
    Seq::new(
        fns.len(),
        |k: int| mutp_init_row(paths_of(fns[k].modifies_state_fields@), 0, Seq::empty()),
    )
}

/// The per-function call-site rows, resolved against the matching bodies.
pub open spec fn prop_css(
    fns: Seq<FunctionDef>,
    nodes: Seq<FunctionNode>,
    svs: Seq<Seq<char>>,
) -> Seq<Seq<(Seq<char>, Seq<ArgFactV>)>> {
    Seq::new(
        fns.len(),
        |k: int|
            match find_node_spec(nodes, fns[k].name@, 0) {
                Some(j) => calls_with_args_spec(nodes[j].body, svs, sp_view(fns[k].storage_params@)),
                None => Seq::empty(),
            },
    )
}

/// The mutation rows after propagation: the bounded fixed point of the
/// round function over the extracted facts.
pub open spec fn propagated_mods(
    fns: Seq<FunctionDef>,
    nodes: Seq<FunctionNode>,
    svs: Seq<Seq<char>>,
) -> Seq<Seq<Seq<char>>> {
    crate::propagate::prop_iter(
        crate::propagate::PropStateV { mods: prop_mods0(fns), mutp: prop_mutp0(fns) },
        prop_names(fns),
        prop_sprows(fns),
        prop_css(fns, nodes, svs),
        crate::propagate::MAX_PROPAGATION_ROUNDS as nat,
    ).mods
}

/// Propagate mutation facts through storage-reference parameters across call
/// edges: each function's `modifies_states` gains every state variable it
/// passes, directly or through its own storage parameters, into a callee that
/// mutates the corresponding parameter.
pub fn propagate_storage_param_modifications(
    functions: &mut Vec<FunctionDef>,
    nodes: &Vec<FunctionNode>,
    state_vars: &Vec<String>,
)
    ensures
        final(functions)@.len() == old(functions)@.len(),
        forall|k: int|
            0 <= k < old(functions)@.len() ==> crate::models::same_but_modifies_states(
                old(functions)@[k],
                #[trigger] final(functions)@[k],
            ),
        forall|k: int|
            0 <= k < old(functions)@.len() ==> names_of(
                #[trigger] final(functions)@[k].modifies_states@,
            ) == propagated_mods(old(functions)@, nodes@, names_of(state_vars@))[k],
{
    broadcast use
        crate::propagate::group_mods_axioms,
        crate::propagate::group_mutp_axioms,
        crate::propagate::group_css_axioms,
        crate::propagate::group_sprows_axioms,
    ;

    let ghost fns0 = functions@;
    let ghost svs = names_of(state_vars@);
    let n = functions.len();

    let mut names: Vec<String> = Vec::new();
    let mut sprows: Vec<Vec<StorageParamInfo>> = Vec::new();
    let mut mods: Vec<Vec<String>> = Vec::new();
    let mut mutp: Vec<Vec<usize>> = Vec::new();
    let mut css: Vec<Vec<(String, Vec<ArgFact>)>> = Vec::new();
    let mut k: usize = 0;
    while k < n
        invariant
            k <= n,
            n == functions@.len(),
            functions@ == fns0,
            svs == names_of(state_vars@),
            names@.len() == k,
            sprows@.len() == k,
            mods@.len() == k,
            mutp@.len() == k,
            css@.len() == k,
            forall|j: int| 0 <= j < k ==> names_of(names@)[j] == prop_names(fns0)[j],
            forall|j: int|
                0 <= j < k ==> crate::propagate::sprows_view(sprows@)[j] == prop_sprows(fns0)[j],
            forall|j: int|
                0 <= j < k ==> crate::propagate::mods_view(mods@)[j] == prop_mods0(fns0)[j],
            forall|j: int|
                0 <= j < k ==> crate::propagate::mutp_view(mutp@)[j] == prop_mutp0(fns0)[j],
            forall|j: int|
                0 <= j < k ==> crate::propagate::css_view(css@)[j] == prop_css(fns0, nodes@, svs)[j],
        decreases n - k,
    {
        names.push(functions[k].name.clone());
        sprows.push(dup_storage_params(&functions[k].storage_params));
        mods.push(dup_names(&functions[k].modifies_states));
        mutp.push(collect_mutated_params(&functions[k].modifies_state_fields));
        let row = match find_function_node(nodes, &functions[k].name) {
            Some(node) => extract_function_calls_with_args(
                node,
                state_vars,
                &functions[k].storage_params,
            ),
            None => Vec::new(),
        };
        assert(crate::propagate::cs_view(row@) == prop_css(fns0, nodes@, svs)[k as int]) by {
            assert(crate::propagate::cs_view(Seq::<(String, Vec<ArgFact>)>::empty())
                =~= Seq::<(Seq<char>, Seq<ArgFactV>)>::empty());
        }
        let ghost rowv = crate::propagate::cs_view(row@);
        let ghost css_pre = css@;
        css.push(row);
        assert(crate::propagate::css_view(css@)[k as int] == rowv);
        assert(forall|j: int|
            0 <= j < k ==> css@[j] == css_pre[j] && #[trigger] crate::propagate::css_view(css@)[j]
                == crate::propagate::css_view(css_pre)[j]);
        k += 1;
    }
    assert(names_of(names@) =~= prop_names(fns0));
    assert(crate::propagate::sprows_view(sprows@) =~= prop_sprows(fns0));
    assert(crate::propagate::mods_view(mods@) =~= prop_mods0(fns0));
    assert(crate::propagate::mutp_view(mutp@) =~= prop_mutp0(fns0));
    assert(crate::propagate::css_view(css@) =~= prop_css(fns0, nodes@, svs));

    let (new_mods, _new_mutp) = crate::propagate::run_propagation(mods, mutp, &names, &css, &sprows);
    let ghost fin_mods = propagated_mods(fns0, nodes@, svs);
    assert(crate::propagate::mods_view(new_mods@) == fin_mods);
    proof {
        crate::propagate::lemma_iter_len(
            crate::propagate::PropStateV { mods: prop_mods0(fns0), mutp: prop_mutp0(fns0) },
            prop_names(fns0),
            prop_sprows(fns0),
            prop_css(fns0, nodes@, svs),
            crate::propagate::MAX_PROPAGATION_ROUNDS as nat,
        );
        assert(fin_mods.len() == n);
        assert(new_mods@.len() == n);
        assert(fin_mods.skip(0) =~= fin_mods);
    }
    let mut new_mods = new_mods;
    let mut k: usize = 0;
    while k < n
        invariant
            k <= n,
            n == fns0.len(),
            functions@.len() == n,
            new_mods@.len() == n - k,
            fin_mods.len() == n,
            crate::propagate::mods_view(new_mods@) =~= fin_mods.skip(k as int),
            forall|j: int|
                0 <= j < k ==> crate::models::same_but_modifies_states(
                    fns0[j],
                    #[trigger] functions@[j],
                ),
            forall|j: int|
                0 <= j < k ==> names_of(#[trigger] functions@[j].modifies_states@) == fin_mods[j],
            forall|j: int| k <= j < n ==> functions@[j] == fns0[j],
        decreases n - k,
    {
        let ghost nm_pre = new_mods@;
        let row = new_mods.remove(0);
        assert(names_of(row@) == fin_mods[k as int]) by {
            assert(crate::propagate::mods_view(nm_pre)[0] == names_of(nm_pre[0]@));
            assert(crate::propagate::mods_view(nm_pre)[0] == fin_mods.skip(k as int)[0]);
        }
        assert(new_mods@ =~= nm_pre.skip(1));
        let mut fd = functions.remove(k);
        fd.modifies_states = row;
        functions.insert(k, fd);
        assert(crate::propagate::mods_view(new_mods@) =~= fin_mods.skip(k + 1)) by {
            assert(forall|j: int|
                0 <= j < new_mods@.len() ==> #[trigger] crate::propagate::mods_view(new_mods@)[j]
                    == crate::propagate::mods_view(nm_pre)[j + 1]);
        }
        k += 1;
    }
}

/// The event-emission scan over a statement: `emit E(...)` records `E` when
/// the contract declares that event.
pub open spec fn scan_stmt_events_spec(
    s: Stmt,
    evs: Seq<Seq<char>>,
    event_names: Seq<Seq<char>>,
) -> Seq<Seq<char>>
    decreases s, 0int,
{
    match s {
        Stmt::Emit(e) => match e {
            Expr::FunctionCall(f, _) => match *f {
                Expr::Variable(n) => if event_names.contains(n@) {
                    push_unique_spec(evs, n@)
                } else {
                    evs
                },
                _ => evs,
            },
            _ => evs,
        },
        Stmt::Block { statements, .. } => scan_stmts_events_spec(statements@, 0, evs, event_names),
        Stmt::If(_, t, e) => {
            let e1 = scan_stmt_events_spec(*t, evs, event_names);
            match e {
                Some(es) => scan_stmt_events_spec(*es, e1, event_names),
                None => e1,
            }
        },
        Stmt::While(_, b) => scan_stmt_events_spec(*b, evs, event_names),
        Stmt::DoWhile(b, _) => scan_stmt_events_spec(*b, evs, event_names),
        Stmt::For(init, _, _, body) => {
            let e1 = match init {
                Some(s1) => scan_stmt_events_spec(*s1, evs, event_names),
                None => evs,
            };
            match body {
                Some(b) => scan_stmt_events_spec(*b, e1, event_names),
                None => e1,
            }
        },
        _ => evs,
    }
}

/// The event-emission scan folded over the statements of a block.
pub open spec fn scan_stmts_events_spec(
    ss: Seq<Stmt>,
    i: int,
    evs: Seq<Seq<char>>,
    event_names: Seq<Seq<char>>,
) -> Seq<Seq<char>>
    decreases ss, ss.len() - i,
{
    if i < 0 || i >= ss.len() {
        evs
    } else {
        scan_stmts_events_spec(ss, i + 1, scan_stmt_events_spec(ss[i], evs, event_names), event_names)
    }
}

/// Scan a statement tree for emissions of the contract's events.
pub fn scan_statement_for_events(s: &Stmt, event_names: &Vec<String>, emitted: &mut Vec<String>)
    ensures
        names_of(final(emitted)@) == scan_stmt_events_spec(
            *s,
            names_of(old(emitted)@),
            names_of(event_names@),
        ),
    decreases *s, 0int,
{
    match s {
        Stmt::Emit(e) => {
            if let Expr::FunctionCall(f, _) = e {
                if let Expr::Variable(n) = &**f {
                    if contains_name(event_names, n) {
                        push_unique(emitted, n.clone());
                    }
                }
            }
        },
        Stmt::Block { statements, .. } => {
            let ghost e0 = names_of(emitted@);
            let ghost env = names_of(event_names@);
            let mut i: usize = 0;
            proof {
                assert(decreases_to!(*s => *statements));
            }
            while i < statements.len()
                invariant
                    i <= statements.len(),
                    decreases_to!(*s => *statements),
                    scan_stmts_events_spec(statements@, i as int, names_of(emitted@), env)
                        == scan_stmts_events_spec(statements@, 0, e0, env),
                    env == names_of(event_names@),
                decreases statements.len() - i,
            {
                scan_statement_for_events(&statements[i], event_names, emitted);
                i += 1;
            }
        },
        Stmt::If(_, t, e) => {
            scan_statement_for_events(t, event_names, emitted);
            if let Some(es) = e {
                scan_statement_for_events(es, event_names, emitted);
            }
        },
        Stmt::While(_, b) => scan_statement_for_events(b, event_names, emitted),
        Stmt::DoWhile(b, _) => scan_statement_for_events(b, event_names, emitted),
        Stmt::For(init, _, _, body) => {
            if let Some(s1) = init {
                scan_statement_for_events(s1, event_names, emitted);
            }
            if let Some(b) = body {
                scan_statement_for_events(b, event_names, emitted);
            }
        },
        _ => {},
    }
}

/// The error-usage scan over a statement: a `revert CustomError(...)`
/// statement records the error's (possibly dotted) name, declared here or
/// inherited.
pub open spec fn scan_stmt_errors_spec(s: Stmt, errs: Seq<Seq<char>>) -> Seq<Seq<char>>
    decreases s, 0int,
{
    match s {
        Stmt::Revert(opt_name, _) => match opt_name {
            Some(n) => push_unique_spec(errs, n@),
            None => errs,
        },
        Stmt::Block { statements, .. } => scan_stmts_errors_spec(statements@, 0, errs),
        Stmt::If(_, t, e) => {
            let e1 = scan_stmt_errors_spec(*t, errs);
            match e {
                Some(es) => scan_stmt_errors_spec(*es, e1),
                None => e1,
            }
        },
        Stmt::While(_, b) => scan_stmt_errors_spec(*b, errs),
        Stmt::DoWhile(b, _) => scan_stmt_errors_spec(*b, errs),
        Stmt::For(init, _, _, body) => {
            let e1 = match init {
                Some(s1) => scan_stmt_errors_spec(*s1, errs),
                None => errs,
            };
            match body {
                Some(b) => scan_stmt_errors_spec(*b, e1),
                None => e1,
            }
        },
        _ => errs,
    }
}

/// The error-usage scan folded over the statements of a block.
pub open spec fn scan_stmts_errors_spec(ss: Seq<Stmt>, i: int, errs: Seq<Seq<char>>) -> Seq<
    Seq<char>,
>
    decreases ss, ss.len() - i,
{
    if i < 0 || i >= ss.len() {
        errs
    } else {
        scan_stmts_errors_spec(ss, i + 1, scan_stmt_errors_spec(ss[i], errs))
    }
}

/// Scan a statement tree for custom errors raised by `revert` statements.
pub fn scan_statement_for_errors(s: &Stmt, used: &mut Vec<String>)
    ensures
        names_of(final(used)@) == scan_stmt_errors_spec(*s, names_of(old(used)@)),
    decreases *s, 0int,
{
    match s {
        Stmt::Revert(opt_name, _) => {
            if let Some(n) = opt_name {
                push_unique(used, n.clone());
            }
        },
        Stmt::Block { statements, .. } => {
            let ghost e0 = names_of(used@);
            let mut i: usize = 0;
            proof {
                assert(decreases_to!(*s => *statements));
            }
            while i < statements.len()
                invariant
                    i <= statements.len(),
                    decreases_to!(*s => *statements),
                    scan_stmts_errors_spec(statements@, i as int, names_of(used@))
                        == scan_stmts_errors_spec(statements@, 0, e0),
                decreases statements.len() - i,
            {
                scan_statement_for_errors(&statements[i], used);
                i += 1;
            }
        },
        Stmt::If(_, t, e) => {
            scan_statement_for_errors(t, used);
            if let Some(es) = e {
                scan_statement_for_errors(es, used);
            }
        },
        Stmt::While(_, b) => scan_statement_for_errors(b, used),
        Stmt::DoWhile(b, _) => scan_statement_for_errors(b, used),
        Stmt::For(init, _, _, body) => {
            if let Some(s1) = init {
                scan_statement_for_errors(s1, used);
            }
            if let Some(b) = body {
                scan_statement_for_errors(b, used);
            }
        },
        _ => {},
    }
}

/// Whether a statement tree holds an `unchecked` block.
pub open spec fn stmt_unchecked_spec(s: Stmt) -> bool
    decreases s, 0int,
{
    match s {
        Stmt::Block { unchecked, statements } => unchecked || stmts_unchecked_spec(statements@, 0),
        Stmt::If(_, t, e) => stmt_unchecked_spec(*t) || match e {
            Some(es) => stmt_unchecked_spec(*es),
            None => false,
        },
        Stmt::While(_, b) => stmt_unchecked_spec(*b),
        Stmt::DoWhile(b, _) => stmt_unchecked_spec(*b),
        Stmt::For(_, _, _, body) => match body {
            Some(b) => stmt_unchecked_spec(*b),
            None => false,
        },
        _ => false,
    }
}

/// Whether any statement of a block holds an `unchecked` block.
pub open spec fn stmts_unchecked_spec(ss: Seq<Stmt>, i: int) -> bool
    decreases ss, ss.len() - i,
{
    if i < 0 || i >= ss.len() {
        false
    } else {
        stmt_unchecked_spec(ss[i]) || stmts_unchecked_spec(ss, i + 1)
    }
}

/// Scan a statement tree for an `unchecked` block.
pub fn scan_for_unchecked(s: &Stmt) -> (r: bool)
    ensures
        r == stmt_unchecked_spec(*s),
    decreases *s, 0int,
{
    match s {
        Stmt::Block { unchecked, statements } => {
            if *unchecked {
                return true;
            }
            let mut i: usize = 0;
            proof {
                assert(decreases_to!(*s => *statements));
            }
            while i < statements.len()
                invariant
                    i <= statements.len(),
                    decreases_to!(*s => *statements),
                    stmt_unchecked_spec(*s) == stmts_unchecked_spec(statements@, 0),
                    stmts_unchecked_spec(statements@, 0) == stmts_unchecked_spec(
                        statements@,
                        i as int,
                    ),
                decreases statements.len() - i,
            {
                if scan_for_unchecked(&statements[i]) {
                    assert(stmts_unchecked_spec(statements@, i as int));
                    return true;
                }
                i += 1;
            }
            false
        },
        Stmt::If(_, t, e) => {
            if scan_for_unchecked(t) {
                return true;
            }
            match e {
                Some(es) => scan_for_unchecked(es),
                None => false,
            }
        },
        Stmt::While(_, b) => scan_for_unchecked(b),
        Stmt::DoWhile(b, _) => scan_for_unchecked(b),
        Stmt::For(_, _, _, body) => match body {
            Some(b) => scan_for_unchecked(b),
            None => false,
        },
        _ => false,
    }
}

/// Record the root of a mutated expression into the coarse set when it
/// resolves to a state variable.
fn record_mod_target(
    target: &Expr,
    state_vars: &Vec<String>,
    modified: &mut Vec<String>,
    mapping: &Vec<(String, StorageTarget)>,
)
    ensures
        names_of(final(modified)@) == add_mod_target(
            names_of(old(modified)@),
            base_var_spec(*target),
            names_of(state_vars@),
            mapping_view(mapping@),
        ),
{
    if let Some(name) = extract_base_variable(target) {
        if let Some(StorageTarget::State(sv)) = resolve_to_state_var(&name, state_vars, mapping) {
            push_unique(modified, sv);
        }
    }
}

/// Scan an expression for state-variable mutations: assignments, increment
/// and decrement, `delete`, and mutating method calls, recording the resolved
/// base variable of each.
pub fn scan_expression_for_modifications(
    e: &Expr,
    state_vars: &Vec<String>,
    modified: &mut Vec<String>,
    mapping: &Vec<(String, StorageTarget)>,
)
    ensures
        names_of(final(modified)@) == scan_expr_mods_spec(
            *e,
            names_of(state_vars@),
            names_of(old(modified)@),
            mapping_view(mapping@),
        ),
    decreases *e, 0int,
{
    match e {
        Expr::Assign(_, l, r) => {
            record_mod_target(l, state_vars, modified, mapping);
            scan_expression_for_modifications(r, state_vars, modified, mapping);
        },
        Expr::PreIncrement(x) => record_mod_target(x, state_vars, modified, mapping),
        Expr::PostIncrement(x) => record_mod_target(x, state_vars, modified, mapping),
        Expr::PreDecrement(x) => record_mod_target(x, state_vars, modified, mapping),
        Expr::PostDecrement(x) => record_mod_target(x, state_vars, modified, mapping),
        Expr::Delete(x) => record_mod_target(x, state_vars, modified, mapping),
        Expr::FunctionCall(f, args) => {
            if let Expr::MemberAccess(b, method) = &**f {
                if crate::names::text_is(method, "push") || crate::names::text_is(method, "pop")
                    || crate::names::text_is(method, "add") || crate::names::text_is(
                    method,
                    "remove",
                ) || crate::names::text_is(method, "delete") {
                    record_mod_target(b, state_vars, modified, mapping);
                }
            }
            let ghost svs = names_of(state_vars@);
            let ghost mv = mapping_view(mapping@);
            let ghost mods1 = names_of(modified@);
            let mut i: usize = 0;
            proof {
                assert(decreases_to!(*e => *args));
            }
            while i < args.len()
                invariant
                    i <= args.len(),
                    decreases_to!(*e => *args),
                    scan_exprs_mods_spec(args@, i as int, svs, names_of(modified@), mv)
                        == scan_exprs_mods_spec(args@, 0, svs, mods1, mv),
                    svs == names_of(state_vars@),
                    mv == mapping_view(mapping@),
                decreases args.len() - i,
            {
                scan_expression_for_modifications(&args[i], state_vars, modified, mapping);
                i += 1;
            }
        },
        _ => {},
    }
}

/// Scan a statement tree for state-variable mutations, maintaining the
/// storage-alias bindings as local declarations are met and giving each block
/// its own scope.
pub fn scan_statement_for_modifications(
    s: &Stmt,
    state_vars: &Vec<String>,
    modified: &mut Vec<String>,
    mapping: &mut Vec<(String, StorageTarget)>,
)
    ensures
        (names_of(final(modified)@), mapping_view(final(mapping)@)) == scan_stmt_mods_spec(
            *s,
            names_of(state_vars@),
            names_of(old(modified)@),
            mapping_view(old(mapping)@),
        ),
    decreases *s, 0int,
{
    broadcast use group_mapping_axioms;

    let ghost svs = names_of(state_vars@);
    match s {
        Stmt::Expression(e) => {
            scan_expression_for_modifications(e, state_vars, modified, mapping);
        },
        Stmt::Block { statements, .. } => {
            let ghost m0 = mapping_view(mapping@);
            let ghost mods0 = names_of(modified@);
            let scope_mark = mapping.len();
            let mut i: usize = 0;
            proof {
                assert(decreases_to!(*s => *statements));
            }
            while i < statements.len()
                invariant
                    i <= statements.len(),
                    decreases_to!(*s => *statements),
                    scan_stmts_mods_spec(
                        statements@,
                        i as int,
                        svs,
                        names_of(modified@),
                        mapping_view(mapping@),
                    ) == scan_stmts_mods_spec(statements@, 0, svs, mods0, m0),
                    svs == names_of(state_vars@),
                decreases statements.len() - i,
            {
                scan_statement_for_modifications(&statements[i], state_vars, modified, mapping);
                i += 1;
            }
            proof {
                lemma_scan_stmts_mods_prefix(statements@, 0, svs, mods0, m0);
            }
            let ghost r = scan_stmts_mods_spec(statements@, 0, svs, mods0, m0);
            assert(mapping_view(mapping@) == r.1);
            assert(r.1.len() >= scope_mark);
            let mut added = mapping.split_off(scope_mark);
            assert(mapping_view(mapping@) =~= r.1.take(scope_mark as int));
            assert(mapping_view(mapping@) == m0);
            assert(mapping_view(added@) =~= r.1.skip(scope_mark as int));
            let ghost added0 = mapping_view(added@);
            while added.len() > 0
                invariant
                    merge_scope_spec(mapping_view(mapping@), mapping_view(added@))
                        == merge_scope_spec(m0, added0),
                decreases added.len(),
            {
                let ghost pre_map = mapping_view(mapping@);
                let ghost pre_added = mapping_view(added@);
                let (k, v) = added.pop().unwrap();
                assert(mapping_view(added@) =~= pre_added.drop_last());
                assert((k@, v@) == pre_added.last());
                match v {
                    StorageTarget::State(sv) => {
                        if mapping_get(mapping, &k).is_none() {
                            mapping.push((k, StorageTarget::State(sv)));
                        }
                    },
                    StorageTarget::StorageStructRef => {},
                }
                assert(mapping_view(mapping@) == merge_step(pre_map, pre_added.last()));
            }
            assert(mapping_view(added@) =~= Seq::<(Seq<char>, StorageTargetV)>::empty());
        },
        Stmt::If(_, t, e) => {
            scan_statement_for_modifications(t, state_vars, modified, mapping);
            if let Some(es) = e {
                scan_statement_for_modifications(es, state_vars, modified, mapping);
            }
        },
        Stmt::While(_, b) => {
            scan_statement_for_modifications(b, state_vars, modified, mapping);
        },
        Stmt::DoWhile(b, _) => {
            scan_statement_for_modifications(b, state_vars, modified, mapping);
        },
        Stmt::For(init, _, update, body) => {
            if let Some(s1) = init {
                scan_statement_for_modifications(s1, state_vars, modified, mapping);
            }
            if let Some(u) = update {
                scan_expression_for_modifications(u, state_vars, modified, mapping);
            }
            if let Some(b) = body {
                scan_statement_for_modifications(b, state_vars, modified, mapping);
            }
        },
        Stmt::Return(oe) => {
            if let Some(e) = oe {
                scan_expression_for_modifications(e, state_vars, modified, mapping);
            }
        },
        Stmt::VariableDefinition(name_opt, init_opt) => {
            if let Some(init) = init_opt {
                if let Some(n) = name_opt {
                    let mut bound = false;
                    if let Expr::FunctionCall(f, _) = init {
                        if let Expr::Variable(fname) = &**f {
                            if contains_substr(fname.as_str(), "get") && contains_substr(
                                fname.as_str(),
                                "Storage",
                            ) {
                                mapping.push((n.clone(), StorageTarget::StorageStructRef));
                                bound = true;
                            }
                        }
                    }
                    if !bound {
                        assert(!is_storage_accessor_call(*init));
                        if let Some(bv) = extract_base_variable(init) {
                            if contains_name(state_vars, &bv) {
                                mapping.push((n.clone(), StorageTarget::State(bv)));
                            }
                        }
                    }
                    assert(mapping_view(mapping@) == bind_local(
                        mapping_view(old(mapping)@),
                        n@,
                        *init,
                        svs,
                    ));
                }
                scan_expression_for_modifications(init, state_vars, modified, mapping);
            }
        },
        _ => {},
    }
}

/// The declared names of a contract's state variables.
pub open spec fn sv_names(svars: Seq<crate::models::StateVariable>) -> Seq<Seq<char>> {
    Seq::new(svars.len(), |i: int| svars[i].name@)
}

/// The declared names of a contract's events.
pub open spec fn ev_names(events: Seq<crate::models::EventDef>) -> Seq<Seq<char>> {
    Seq::new(events.len(), |i: int| events[i].name@)
}

/// The declared names of a contract's errors.
pub open spec fn err_names(errors: Seq<crate::models::ErrorDef>) -> Seq<Seq<char>> {
    Seq::new(errors.len(), |i: int| errors[i].name@)
}

/// A function's storage parameters after extraction: from its body when the
/// contract defines one, otherwise whatever the record already held.
pub open spec fn x_sparams(nodes: Seq<FunctionNode>, f: FunctionDef) -> Seq<(int, Seq<char>)> {
    match find_node_spec(nodes, f.name@, 0) {
        Some(j) => storage_params_spec(pn_view(nodes[j].params@), 0),
        None => sp_view(f.storage_params@),
    }
}

/// A function's directly mutated state variables after extraction.
pub open spec fn x_mods0(nodes: Seq<FunctionNode>, f: FunctionDef, svs: Seq<Seq<char>>) -> Seq<
    Seq<char>,
> {
    match find_node_spec(nodes, f.name@, 0) {
        Some(j) => find_state_mods_spec(nodes[j].body, svs, x_sparams(nodes, f)),
        None => names_of(f.modifies_states@),
    }
}

/// A function's field-level mutation paths after extraction.
pub open spec fn x_fields(nodes: Seq<FunctionNode>, f: FunctionDef, svs: Seq<Seq<char>>) -> Seq<
    FieldPathV,
> {
    match find_node_spec(nodes, f.name@, 0) {
        Some(j) => find_field_mods_spec(nodes[j].body, svs, x_sparams(nodes, f)),
        None => paths_of(f.modifies_state_fields@),
    }
}

/// A function's read set after extraction.
pub open spec fn x_reads(nodes: Seq<FunctionNode>, f: FunctionDef, svs: Seq<Seq<char>>) -> Seq<
    Seq<char>,
> {
    match find_node_spec(nodes, f.name@, 0) {
        Some(j) => crate::reads::find_state_reads_spec(nodes[j].body, svs),
        None => names_of(f.reads_states@),
    }
}

/// A function's internal calls after extraction.
pub open spec fn x_calls(nodes: Seq<FunctionNode>, f: FunctionDef) -> Seq<Seq<char>> {
    match find_node_spec(nodes, f.name@, 0) {
        Some(j) => find_calls_spec(nodes[j].body),
        None => names_of(f.calls_functions@),
    }
}

/// A function's emitted events after extraction.
pub open spec fn x_events(nodes: Seq<FunctionNode>, f: FunctionDef, evn: Seq<Seq<char>>) -> Seq<
    Seq<char>,
> {
    match find_node_spec(nodes, f.name@, 0) {
        Some(j) => find_events_spec(nodes[j].body, evn),
        None => names_of(f.emits_events@),
    }
}

/// A function's raised errors after extraction.
pub open spec fn x_errors(nodes: Seq<FunctionNode>, f: FunctionDef) -> Seq<Seq<char>> {
    match find_node_spec(nodes, f.name@, 0) {
        Some(j) => find_errors_spec(nodes[j].body),
        None => names_of(f.uses_errors@),
    }
}

/// Whether a function has an `unchecked` block, after extraction.
pub open spec fn x_unchecked(nodes: Seq<FunctionNode>, f: FunctionDef) -> bool {
    match find_node_spec(nodes, f.name@, 0) {
        Some(j) => has_unchecked_spec(nodes[j].body),
        None => f.has_unchecked,
    }
}

/// The coarse mutation sets after extraction and inter-procedural
/// propagation, one row per function.
pub open spec fn analyzed_mods(
    fns0: Seq<FunctionDef>,
    nodes: Seq<FunctionNode>,
    svs: Seq<Seq<char>>,
) -> Seq<Seq<Seq<char>>> {
    crate::propagate::prop_iter(
        crate::propagate::PropStateV {
            mods: Seq::new(fns0.len(), |k: int| x_mods0(nodes, fns0[k], svs)),
            mutp: Seq::new(
                fns0.len(),
                |k: int| mutp_init_row(x_fields(nodes, fns0[k], svs), 0, Seq::empty()),
            ),
        },
        Seq::new(fns0.len(), |k: int| fns0[k].name@),
        Seq::new(fns0.len(), |k: int| x_sparams(nodes, fns0[k])),
        Seq::new(
            fns0.len(),
            |k: int|
                match find_node_spec(nodes, fns0[k].name@, 0) {
                    Some(j) => calls_with_args_spec(nodes[j].body, svs, x_sparams(nodes, fns0[k])),
                    None => Seq::empty(),
                },
        ),
        crate::propagate::MAX_PROPAGATION_ROUNDS as nat,
    ).mods
}

/// The names of the functions that emit the given event, in declaration
/// order.
pub open spec fn emitters_spec(fns: Seq<FunctionDef>, target: Seq<char>, i: int) -> Seq<Seq<char>>
    decreases fns.len() - i,
{
    if i < 0 || i >= fns.len() {
        Seq::empty()
    } else {
        let rest = emitters_spec(fns, target, i + 1);
        if names_of(fns[i].emits_events@).contains(target) {
            seq![fns[i].name@] + rest
        } else {
            rest
        }
    }
}

/// The names of the functions that apply the given modifier, in declaration
/// order.
pub open spec fn modifier_users_spec(fns: Seq<FunctionDef>, target: Seq<char>, i: int) -> Seq<
    Seq<char>,
>
    decreases fns.len() - i,
{
    if i < 0 || i >= fns.len() {
        Seq::empty()
    } else {
        let rest = modifier_users_spec(fns, target, i + 1);
        if names_of(fns[i].uses_modifiers@).contains(target) {
            seq![fns[i].name@] + rest
        } else {
            rest
        }
    }
}

/// The first modifier definition with the given name.
pub open spec fn find_modifier_node_spec(nodes: Seq<FunctionNode>, nm: Seq<char>, i: int) -> Option<
    int,
>
    decreases nodes.len() - i,
{
    if i < 0 || i >= nodes.len() {
        None
    } else if nodes[i].is_modifier && nodes[i].name@ == nm {
        Some(i)
    } else {
        find_modifier_node_spec(nodes, nm, i + 1)
    }
}

/// The errors the named modifier raises.
pub open spec fn modifier_errors_spec(nodes: Seq<FunctionNode>, m: Seq<char>) -> Seq<Seq<char>> {
    match find_modifier_node_spec(nodes, m, 0) {
        Some(j) => find_errors_spec(nodes[j].body),
        None => Seq::empty(),
    }
}

/// The functions that raise the given error directly.
pub open spec fn error_users_fns(
    fns: Seq<FunctionDef>,
    err: Seq<char>,
    i: int,
    acc: Seq<Seq<char>>,
) -> Seq<Seq<char>>
    decreases fns.len() - i,
{
    if i < 0 || i >= fns.len() {
        acc
    } else {
        let acc1 = if names_of(fns[i].uses_errors@).contains(err) {
            push_unique_spec(acc, fns[i].name@)
        } else {
            acc
        };
        error_users_fns(fns, err, i + 1, acc1)
    }
}

/// The modifiers applied by one function that raise the given error.
pub open spec fn error_users_mods_inner(
    ms: Seq<Seq<char>>,
    nodes: Seq<FunctionNode>,
    err: Seq<char>,
    j: int,
    acc: Seq<Seq<char>>,
) -> Seq<Seq<char>>
    decreases ms.len() - j,
{
    if j < 0 || j >= ms.len() {
        acc
    } else {
        let acc1 = if modifier_errors_spec(nodes, ms[j]).contains(err) {
            push_unique_spec(acc, ms[j])
        } else {
            acc
        };
        error_users_mods_inner(ms, nodes, err, j + 1, acc1)
    }
}

/// The modifiers, applied anywhere, that raise the given error.
pub open spec fn error_users_mods(
    fns: Seq<FunctionDef>,
    nodes: Seq<FunctionNode>,
    err: Seq<char>,
    i: int,
    acc: Seq<Seq<char>>,
) -> Seq<Seq<char>>
    decreases fns.len() - i,
{
    if i < 0 || i >= fns.len() {
        acc
    } else {
        error_users_mods(
            fns,
            nodes,
            err,
            i + 1,
            error_users_mods_inner(names_of(fns[i].uses_modifiers@), nodes, err, 0, acc),
        )
    }
}

/// Every function that raises the error, then every modifier that raises it
/// and is applied by some function.
pub open spec fn error_users_spec(
    fns: Seq<FunctionDef>,
    nodes: Seq<FunctionNode>,
    err: Seq<char>,
) -> Seq<Seq<char>> {
    error_users_mods(fns, nodes, err, 0, error_users_fns(fns, err, 0, Seq::empty()))
}

/// Fold a batch of names into a duplicate-free accumulation.
pub open spec fn add_all_names(acc: Seq<Seq<char>>, names: Seq<Seq<char>>, j: int) -> Seq<Seq<char>>
    decreases names.len() - j,
{
    if j < 0 || j >= names.len() {
        acc
    } else {
        add_all_names(push_unique_spec(acc, names[j]), names, j + 1)
    }
}

/// Every error name raised by some function.
pub open spec fn all_used_fns_spec(fns: Seq<FunctionDef>, i: int, acc: Seq<Seq<char>>) -> Seq<
    Seq<char>,
>
    decreases fns.len() - i,
{
    if i < 0 || i >= fns.len() {
        acc
    } else {
        all_used_fns_spec(fns, i + 1, add_all_names(acc, names_of(fns[i].uses_errors@), 0))
    }
}

/// Every error name raised by some function or modifier.
pub open spec fn all_used_errors_spec(
    fns: Seq<FunctionDef>,
    nodes: Seq<FunctionNode>,
    i: int,
    acc: Seq<Seq<char>>,
) -> Seq<Seq<char>>
    decreases nodes.len() - i,
{
    if i < 0 || i >= nodes.len() {
        acc
    } else {
        let acc1 = if nodes[i].is_modifier {
            add_all_names(acc, find_errors_spec(nodes[i].body), 0)
        } else {
            acc
        };
        all_used_errors_spec(fns, nodes, i + 1, acc1)
    }
}

/// The raised error names that no local declaration defines: those are
/// inherited or imported, and get synthetic records.
pub open spec fn inherited_names_spec(
    fns: Seq<FunctionDef>,
    nodes: Seq<FunctionNode>,
    defined: Seq<Seq<char>>,
) -> Seq<Seq<char>> {
    crate::names::filter_names(
        all_used_errors_spec(fns, nodes, 0, all_used_fns_spec(fns, 0, Seq::empty())),
        defined,
    )
}

/// The statement-list scan never rewrites the bindings in scope at its start.
pub proof fn lemma_scan_stmts_mods_prefix(
    ss: Seq<Stmt>,
    i: int,
    svs: Seq<Seq<char>>,
    mods: Seq<Seq<char>>,
    m: Seq<(Seq<char>, StorageTargetV)>,
)
    ensures
        scan_stmts_mods_spec(ss, i, svs, mods, m).1.len() >= m.len(),
        scan_stmts_mods_spec(ss, i, svs, mods, m).1.take(m.len() as int) == m,
    decreases ss, ss.len() - i,
{
    if i < 0 || i >= ss.len() {
        assert(scan_stmts_mods_spec(ss, i, svs, mods, m).1.take(m.len() as int) =~= m);
    } else {
        let r = scan_stmt_mods_spec(ss[i], svs, mods, m);
        lemma_scan_stmt_mods_prefix(ss[i], svs, mods, m);
        lemma_scan_stmts_mods_prefix(ss, i + 1, svs, r.0, r.1);
        let r2 = scan_stmts_mods_spec(ss, i + 1, svs, r.0, r.1);
        assert(r2.1.take(m.len() as int) =~= r2.1.take(r.1.len() as int).take(m.len() as int));
    }
}

/// Collect the names of the functions that emit the given event.
pub fn collect_emitters(functions: &Vec<FunctionDef>, target: &String) -> (r: Vec<String>)
    ensures
        names_of(r@) == emitters_spec(functions@, target@, 0),
{
    let mut out: Vec<String> = Vec::new();
    let mut i: usize = 0;
    assert(names_of(out@) =~= Seq::<Seq<char>>::empty());
    while i < functions.len()
        invariant
            i <= functions.len(),
            names_of(out@) + emitters_spec(functions@, target@, i as int) =~= emitters_spec(
                functions@,
                target@,
                0,
            ),
        decreases functions.len() - i,
    {
        if contains_name(&functions[i].emits_events, target) {
            let ghost pre = names_of(out@);
            out.push(functions[i].name.clone());
            assert(names_of(out@) =~= pre.push(functions@[i as int].name@));
        }
        i += 1;
    }
    out
}

/// Collect the names of the functions that apply the given modifier.
pub fn collect_modifier_users(functions: &Vec<FunctionDef>, target: &String) -> (r: Vec<String>)
    ensures
        names_of(r@) == modifier_users_spec(functions@, target@, 0),
{
    let mut out: Vec<String> = Vec::new();
    let mut i: usize = 0;
    assert(names_of(out@) =~= Seq::<Seq<char>>::empty());
    while i < functions.len()
        invariant
            i <= functions.len(),
            names_of(out@) + modifier_users_spec(functions@, target@, i as int)
                =~= modifier_users_spec(functions@, target@, 0),
        decreases functions.len() - i,
    {
        if contains_name(&functions[i].uses_modifiers, target) {
            let ghost pre = names_of(out@);
            out.push(functions[i].name.clone());
            assert(names_of(out@) =~= pre.push(functions@[i as int].name@));
        }
        i += 1;
    }
    out
}

/// Find the first modifier definition with the given name.
pub fn find_modifier_node<'a>(nodes: &'a Vec<FunctionNode>, nm: &String) -> (r: Option<
    &'a FunctionNode,
>)
    ensures
        match r {
            Some(node) => exists|j: int|
                find_modifier_node_spec(nodes@, nm@, 0) == Some(j) && 0 <= j < nodes@.len()
                    && nodes@[j] == *node,
            None => find_modifier_node_spec(nodes@, nm@, 0) is None,
        },
{
    let mut i: usize = 0;
    while i < nodes.len()
        invariant
            i <= nodes.len(),
            find_modifier_node_spec(nodes@, nm@, 0) == find_modifier_node_spec(
                nodes@,
                nm@,
                i as int,
            ),
        decreases nodes.len() - i,
    {
        if nodes[i].is_modifier && nodes[i].name.eq(nm) {
            return Some(&nodes[i]);
        }
        i += 1;
    }
    None
}

/// The errors the named modifier raises.
pub fn modifier_errors(nodes: &Vec<FunctionNode>, m: &String) -> (r: Vec<String>)
    ensures
        names_of(r@) == modifier_errors_spec(nodes@, m@),
{
    match find_modifier_node(nodes, m) {
        Some(node) => find_error_usage(node),
        None => {
            let out: Vec<String> = Vec::new();
            assert(names_of(out@) =~= Seq::<Seq<char>>::empty());
            out
        },
    }
}

/// Collect the functions that raise the given error and the modifiers,
/// applied by some function, that raise it.
pub fn collect_error_users(
    functions: &Vec<FunctionDef>,
    nodes: &Vec<FunctionNode>,
    err: &String,
) -> (r: Vec<String>)
    ensures
        names_of(r@) == error_users_spec(functions@, nodes@, err@),
{
    let mut out: Vec<String> = Vec::new();
    assert(names_of(out@) =~= Seq::<Seq<char>>::empty());
    let mut i: usize = 0;
    while i < functions.len()
        invariant
            i <= functions.len(),
            error_users_fns(functions@, err@, i as int, names_of(out@)) == error_users_fns(
                functions@,
                err@,
                0,
                Seq::empty(),
            ),
        decreases functions.len() - i,
    {
        if contains_name(&functions[i].uses_errors, err) {
            push_unique(&mut out, functions[i].name.clone());
        }
        i += 1;
    }
    let mut i: usize = 0;
    while i < functions.len()
        invariant
            i <= functions.len(),
            error_users_mods(functions@, nodes@, err@, i as int, names_of(out@))
                == error_users_mods(
                functions@,
                nodes@,
                err@,
                0,
                error_users_fns(functions@, err@, 0, Seq::empty()),
            ),
        decreases functions.len() - i,
    {
        let ms = &functions[i].uses_modifiers;
        let mut j: usize = 0;
        while j < ms.len()
            invariant
                i < functions.len(),
                j <= ms.len(),
                ms == &functions@[i as int].uses_modifiers,
                error_users_mods(
                    functions@,
                    nodes@,
                    err@,
                    i + 1,
                    error_users_mods_inner(
                        names_of(functions@[i as int].uses_modifiers@),
                        nodes@,
                        err@,
                        j as int,
                        names_of(out@),
                    ),
                ) == error_users_mods(
                    functions@,
                    nodes@,
                    err@,
                    0,
                    error_users_fns(functions@, err@, 0, Seq::empty()),
                ),
            decreases ms.len() - j,
        {
            let merrs = modifier_errors(nodes, &ms[j]);
            if contains_name(&merrs, err) {
                push_unique(&mut out, ms[j].clone());
            }
            j += 1;
        }
        i += 1;
    }
    out
}

/// Fold a batch of names into a duplicate-free accumulation.
pub fn add_all(out: &mut Vec<String>, names: &Vec<String>)
    ensures
        names_of(final(out)@) == add_all_names(names_of(old(out)@), names_of(names@), 0),
{
    let mut j: usize = 0;
    while j < names.len()
        invariant
            j <= names.len(),
            add_all_names(names_of(out@), names_of(names@), j as int) == add_all_names(
                names_of(old(out)@),
                names_of(names@),
                0,
            ),
        decreases names.len() - j,
    {
        push_unique(out, names[j].clone());
        j += 1;
    }
}

/// Collect every error name raised by some function or modifier.
pub fn collect_all_used_errors(
    functions: &Vec<FunctionDef>,
    nodes: &Vec<FunctionNode>,
) -> (r: Vec<String>)
    ensures
        names_of(r@) == all_used_errors_spec(
            functions@,
            nodes@,
            0,
            all_used_fns_spec(functions@, 0, Seq::empty()),
        ),
{
    let mut out: Vec<String> = Vec::new();
    assert(names_of(out@) =~= Seq::<Seq<char>>::empty());
    let mut i: usize = 0;
    while i < functions.len()
        invariant
            i <= functions.len(),
            all_used_fns_spec(functions@, i as int, names_of(out@)) == all_used_fns_spec(
                functions@,
                0,
                Seq::empty(),
            ),
        decreases functions.len() - i,
    {
        add_all(&mut out, &functions[i].uses_errors);
        i += 1;
    }
    let mut i: usize = 0;
    while i < nodes.len()
        invariant
            i <= nodes.len(),
            all_used_errors_spec(functions@, nodes@, i as int, names_of(out@))
                == all_used_errors_spec(
                functions@,
                nodes@,
                0,
                all_used_fns_spec(functions@, 0, Seq::empty()),
            ),
        decreases nodes.len() - i,
    {
        if nodes[i].is_modifier {
            let errs = find_error_usage(&nodes[i]);
            add_all(&mut out, &errs);
        }
        i += 1;
    }
    out
}

/// Whether two function records agree on every field the extraction pass
/// leaves alone.
pub open spec fn extraction_same(a: FunctionDef, b: FunctionDef) -> bool {
    &&& a.name == b.name
    &&& a.visibility == b.visibility
    &&& a.state_mutability == b.state_mutability
    &&& a.parameters == b.parameters
    &&& a.returns == b.returns
    &&& a.line_number == b.line_number
    &&& a.external_calls == b.external_calls
    &&& a.uses_modifiers == b.uses_modifiers
    &&& a.modifier_order == b.modifier_order
    &&& a.return_value_usage == b.return_value_usage
    &&& a.ignored_returns == b.ignored_returns
}


/// Extract every body-derived fact of one function from its definition.
fn extract_function_facts(
    fd: &mut FunctionDef,
    node: &FunctionNode,
    state_var_names: &Vec<String>,
    event_names: &Vec<String>,
)
    ensures
        extraction_same(*old(fd), *final(fd)),
        sp_view(final(fd).storage_params@) == storage_params_spec(pn_view(node.params@), 0),
        names_of(final(fd).modifies_states@) == find_state_mods_spec(
            node.body,
            names_of(state_var_names@),
            storage_params_spec(pn_view(node.params@), 0),
        ),
        names_of(final(fd).reads_states@) == crate::reads::find_state_reads_spec(
            node.body,
            names_of(state_var_names@),
        ),
        paths_of(final(fd).modifies_state_fields@) == find_field_mods_spec(
            node.body,
            names_of(state_var_names@),
            storage_params_spec(pn_view(node.params@), 0),
        ),
        names_of(final(fd).calls_functions@) == find_calls_spec(node.body),
        names_of(final(fd).emits_events@) == find_events_spec(node.body, names_of(event_names@)),
        names_of(final(fd).uses_errors@) == find_errors_spec(node.body),
        final(fd).has_unchecked == has_unchecked_spec(node.body),
{
    fd.storage_params = extract_storage_params(node);
    fd.modifies_states = find_state_modifications(node, state_var_names, &fd.storage_params);
    fd.reads_states = crate::reads::find_state_reads(node, state_var_names);
    fd.modifies_state_fields = find_field_modifications(node, state_var_names, &fd.storage_params);
    fd.calls_functions = find_function_calls(node);
    fd.emits_events = find_event_emissions(node, event_names);
    fd.uses_errors = find_error_usage(node);
    fd.has_unchecked = has_unchecked_blocks(node);
}

/// Whether `f` holds exactly the facts the extraction pass derives for `f0`.
pub open spec fn extracted_ok(
    nodes: Seq<FunctionNode>,
    svs: Seq<Seq<char>>,
    evn: Seq<Seq<char>>,
    f0: FunctionDef,
    f: FunctionDef,
) -> bool {
    &&& extraction_same(f0, f)
    &&& sp_view(f.storage_params@) == x_sparams(nodes, f0)
    &&& names_of(f.modifies_states@) == x_mods0(nodes, f0, svs)
    &&& names_of(f.reads_states@) == x_reads(nodes, f0, svs)
    &&& paths_of(f.modifies_state_fields@) == x_fields(nodes, f0, svs)
    &&& names_of(f.calls_functions@) == x_calls(nodes, f0)
    &&& names_of(f.emits_events@) == x_events(nodes, f0, evn)
    &&& names_of(f.uses_errors@) == x_errors(nodes, f0)
    &&& f.has_unchecked == x_unchecked(nodes, f0)
}

impl StateModificationAnalyzer {
    /// Run the state-modification analysis over one contract: extract each
    /// function's derived facts from its body, propagate mutation facts
    /// through storage-reference parameters, resolve namespaced-storage
    /// paths, build every state variable's modification chains, fill the
    /// reverse lookups for events, errors and modifiers, record inherited
    /// errors, and synthesize the storage struct's virtual state variables.
    #[verifier::rlimit(100)]
    #[verifier::spinoff_prover]
    pub fn analyze(contract_info: &mut ContractInfo, ast: &crate::ast::ContractAst)
        ensures
            final(contract_info).name == old(contract_info).name,
            final(contract_info).file_path == old(contract_info).file_path,
            final(contract_info).structs == old(contract_info).structs,
            final(contract_info).enums == old(contract_info).enums,
            final(contract_info).upgradeable_storage == old(contract_info).upgradeable_storage,
            final(contract_info).dataflow_analysis == old(contract_info).dataflow_analysis,
            final(contract_info).functions@.len() == old(contract_info).functions@.len(),
            forall|k: int|
                0 <= k < old(contract_info).functions@.len() ==> extraction_same(
                    old(contract_info).functions@[k],
                    #[trigger] final(contract_info).functions@[k],
                ),
            forall|k: int|
                0 <= k < old(contract_info).functions@.len() ==> sp_view(
                    #[trigger] final(contract_info).functions@[k].storage_params@,
                ) == x_sparams(ast.functions@, old(contract_info).functions@[k]),
            forall|k: int|
                0 <= k < old(contract_info).functions@.len() ==> names_of(
                    #[trigger] final(contract_info).functions@[k].calls_functions@,
                ) == x_calls(ast.functions@, old(contract_info).functions@[k]),
            forall|k: int|
                0 <= k < old(contract_info).functions@.len() ==> names_of(
                    #[trigger] final(contract_info).functions@[k].reads_states@,
                ) == x_reads(
                    ast.functions@,
                    old(contract_info).functions@[k],
                    sv_names(old(contract_info).state_variables@),
                ),
            forall|k: int|
                0 <= k < old(contract_info).functions@.len() ==> names_of(
                    #[trigger] final(contract_info).functions@[k].emits_events@,
                ) == x_events(
                    ast.functions@,
                    old(contract_info).functions@[k],
                    ev_names(old(contract_info).events@),
                ),
            forall|k: int|
                0 <= k < old(contract_info).functions@.len() ==> names_of(
                    #[trigger] final(contract_info).functions@[k].uses_errors@,
                ) == x_errors(ast.functions@, old(contract_info).functions@[k]),
            forall|k: int|
                0 <= k < old(contract_info).functions@.len()
                    ==> #[trigger] final(contract_info).functions@[k].has_unchecked == x_unchecked(
                    ast.functions@,
                    old(contract_info).functions@[k],
                ),
            old(contract_info).upgradeable_storage is None ==> forall|k: int|
                0 <= k < old(contract_info).functions@.len() ==> paths_of(
                    #[trigger] final(contract_info).functions@[k].modifies_state_fields@,
                ) == x_fields(
                    ast.functions@,
                    old(contract_info).functions@[k],
                    sv_names(old(contract_info).state_variables@),
                ) && names_of(final(contract_info).functions@[k].modifies_states@)
                    == analyzed_mods(
                    old(contract_info).functions@,
                    ast.functions@,
                    sv_names(old(contract_info).state_variables@),
                )[k],
            old(contract_info).upgradeable_storage is Some ==> forall|k: int|
                0 <= k < old(contract_info).functions@.len() ==> paths_of(
                    #[trigger] final(contract_info).functions@[k].modifies_state_fields@,
                ) == crate::upgradeable::resolve_paths_spec(
                    x_fields(
                        ast.functions@,
                        old(contract_info).functions@[k],
                        sv_names(old(contract_info).state_variables@),
                    ),
                ) && names_of(final(contract_info).functions@[k].modifies_states@)
                    == crate::upgradeable::resolved_bases_spec(
                    x_fields(
                        ast.functions@,
                        old(contract_info).functions@[k],
                        sv_names(old(contract_info).state_variables@),
                    ),
                    0,
                    analyzed_mods(
                        old(contract_info).functions@,
                        ast.functions@,
                        sv_names(old(contract_info).state_variables@),
                    )[k],
                ),
            final(contract_info).state_variables@.len() == old(contract_info).state_variables@.len() + (match old(contract_info).upgradeable_storage {
                Some(us) => us.struct_fields@.len(),
                None => 0,
            }),
            forall|v: int|
                0 <= v < old(contract_info).state_variables@.len() ==> {
                    let sv = #[trigger] final(contract_info).state_variables@[v];
                    &&& sv.name == old(contract_info).state_variables@[v].name
                    &&& sv.var_type == old(contract_info).state_variables@[v].var_type
                    &&& sv.visibility == old(contract_info).state_variables@[v].visibility
                    &&& sv.is_constant == old(contract_info).state_variables@[v].is_constant
                    &&& sv.is_immutable == old(contract_info).state_variables@[v].is_immutable
                    &&& sv.line_number == old(contract_info).state_variables@[v].line_number
                    &&& crate::chains::mc_view(sv.read_chains@) == crate::chains::read_chains_spec(
                        final(contract_info).functions@,
                        old(contract_info).state_variables@[v].name@,
                        0,
                    )
                    &&& crate::chains::mc_view(sv.modification_chains@) == (
                    if sv.is_constant || sv.is_immutable {
                        Seq::empty()
                    } else {
                        crate::chains::chains_spec(
                            final(contract_info).functions@,
                            old(contract_info).state_variables@[v].name@,
                            0,
                        )
                    })
                },
            forall|x: int|
                old(contract_info).state_variables@.len() <= x < final(contract_info).state_variables@.len() ==> (#[trigger] final(contract_info).state_variables@[x])@
                    == crate::upgradeable::virtual_vars_spec(
                    old(contract_info).upgradeable_storage->Some_0,
                    final(contract_info).functions@,
                )[x - old(contract_info).state_variables@.len()],
            final(contract_info).events@.len() == old(contract_info).events@.len(),
            forall|e: int|
                0 <= e < old(contract_info).events@.len() ==> {
                    let ev = #[trigger] final(contract_info).events@[e];
                    &&& ev.name == old(contract_info).events@[e].name
                    &&& ev.parameters == old(contract_info).events@[e].parameters
                    &&& ev.line_number == old(contract_info).events@[e].line_number
                    &&& names_of(ev.emitted_in@) == emitters_spec(
                        final(contract_info).functions@,
                        old(contract_info).events@[e].name@,
                        0,
                    )
                },
            final(contract_info).modifiers@.len() == old(contract_info).modifiers@.len(),
            forall|e: int|
                0 <= e < old(contract_info).modifiers@.len() ==> {
                    let md = #[trigger] final(contract_info).modifiers@[e];
                    &&& md.name == old(contract_info).modifiers@[e].name
                    &&& md.parameters == old(contract_info).modifiers@[e].parameters
                    &&& md.line_number == old(contract_info).modifiers@[e].line_number
                    &&& names_of(md.used_in@) == modifier_users_spec(
                        final(contract_info).functions@,
                        old(contract_info).modifiers@[e].name@,
                        0,
                    )
                },
            final(contract_info).errors@.len() == old(contract_info).errors@.len()
                + inherited_names_spec(
                final(contract_info).functions@,
                ast.functions@,
                err_names(old(contract_info).errors@),
            ).len(),
            forall|e: int|
                0 <= e < old(contract_info).errors@.len() ==> {
                    let er = #[trigger] final(contract_info).errors@[e];
                    &&& er.name == old(contract_info).errors@[e].name
                    &&& er.parameters == old(contract_info).errors@[e].parameters
                    &&& er.line_number == old(contract_info).errors@[e].line_number
                    &&& er.is_inherited == old(contract_info).errors@[e].is_inherited
                    &&& names_of(er.used_in@) == error_users_spec(
                        final(contract_info).functions@,
                        ast.functions@,
                        old(contract_info).errors@[e].name@,
                    )
                },
            forall|x: int|
                old(contract_info).errors@.len() <= x < final(contract_info).errors@.len() ==> {
                    let er = #[trigger] final(contract_info).errors@[x];
                    let nm = inherited_names_spec(
                        final(contract_info).functions@,
                        ast.functions@,
                        err_names(old(contract_info).errors@),
                    )[x - old(contract_info).errors@.len()];
                    &&& er.name@ == nm
                    &&& er.parameters@.len() == 0
                    &&& er.line_number == 0
                    &&& er.is_inherited == true
                    &&& names_of(er.used_in@) == error_users_spec(
                        final(contract_info).functions@,
                        ast.functions@,
                        nm,
                    )
                },
    {
        let ghost fns0 = contract_info.functions@;
        let ghost nodes = ast.functions@;
        let ghost svs = sv_names(contract_info.state_variables@);
        let ghost evn = ev_names(contract_info.events@);

        let mut state_var_names: Vec<String> = Vec::new();
        let mut i: usize = 0;
        while i < contract_info.state_variables.len()
            invariant
                i <= contract_info.state_variables.len(),
                svs == sv_names(contract_info.state_variables@),
                state_var_names@.len() == i,
                forall|j: int| 0 <= j < i ==> names_of(state_var_names@)[j] == svs[j],
            decreases contract_info.state_variables.len() - i,
        {
            let ghost pre = names_of(state_var_names@);
            state_var_names.push(contract_info.state_variables[i].name.clone());
            assert(names_of(state_var_names@) =~= pre.push(
                contract_info.state_variables@[i as int].name@,
            ));
            i += 1;
        }
        assert(names_of(state_var_names@) =~= svs);

        let mut event_names: Vec<String> = Vec::new();
        let mut i: usize = 0;
        while i < contract_info.events.len()
            invariant
                i <= contract_info.events.len(),
                evn == ev_names(contract_info.events@),
                event_names@.len() == i,
                forall|j: int| 0 <= j < i ==> names_of(event_names@)[j] == evn[j],
            decreases contract_info.events.len() - i,
        {
            let ghost pre = names_of(event_names@);
            event_names.push(contract_info.events[i].name.clone());
            assert(names_of(event_names@) =~= pre.push(contract_info.events@[i as int].name@));
            i += 1;
        }
        assert(names_of(event_names@) =~= evn);

        let n = contract_info.functions.len();
        let mut k: usize = 0;
        while k < n
            invariant
                k <= n,
                n == fns0.len(),
                contract_info.functions@.len() == n,
                names_of(state_var_names@) == svs,
                names_of(event_names@) == evn,
                nodes == ast.functions@,
                forall|j: int|
                    0 <= j < k ==> extracted_ok(
                        nodes,
                        svs,
                        evn,
                        fns0[j],
                        #[trigger] contract_info.functions@[j],
                    ),
                forall|j: int| k <= j < n ==> contract_info.functions@[j] == fns0[j],
                contract_info.name == old(contract_info).name,
                contract_info.file_path == old(contract_info).file_path,
                contract_info.state_variables == old(contract_info).state_variables,
                contract_info.structs == old(contract_info).structs,
                contract_info.enums == old(contract_info).enums,
                contract_info.events == old(contract_info).events,
                contract_info.modifiers == old(contract_info).modifiers,
                contract_info.errors == old(contract_info).errors,
                contract_info.upgradeable_storage == old(contract_info).upgradeable_storage,
                contract_info.dataflow_analysis == old(contract_info).dataflow_analysis,
            decreases n - k,
        {
            let ghost fpre = contract_info.functions@;
            assert(contract_info.functions@[k as int] == fns0[k as int]);
            if let Some(node) = crate::analyzer::find_function_node(
                &ast.functions,
                &contract_info.functions[k].name,
            ) {
                let mut fd = contract_info.functions.remove(k);
                extract_function_facts(&mut fd, node, &state_var_names, &event_names);
                let ghost fdg = fd;
                contract_info.functions.insert(k, fd);
                assert(contract_info.functions@ =~= fpre.update(k as int, fdg));
                assert(forall|j: int|
                    0 <= j < n && j != k ==> #[trigger] contract_info.functions@[j] == fpre[j]);
                assert(extracted_ok(
                    nodes,
                    svs,
                    evn,
                    fns0[k as int],
                    contract_info.functions@[k as int],
                ));
            } else {
                assert(find_node_spec(nodes, fns0[k as int].name@, 0) is None);
                assert(extracted_ok(
                    nodes,
                    svs,
                    evn,
                    fns0[k as int],
                    contract_info.functions@[k as int],
                ));
            }
            k += 1;
        }

        assert(forall|j: int|
            0 <= j < n ==> extracted_ok(nodes, svs, evn, fns0[j], #[trigger] contract_info.functions@[j]));
        let ghost mid = contract_info.functions@;
        propagate_storage_param_modifications(
            &mut contract_info.functions,
            &ast.functions,
            &state_var_names,
        );
        proof {
            assert(prop_names(mid) =~= Seq::new(fns0.len(), |k: int| fns0[k].name@));
            assert(prop_sprows(mid) =~= Seq::new(fns0.len(), |k: int| x_sparams(nodes, fns0[k])));
            assert(prop_mods0(mid) =~= Seq::new(
                fns0.len(),
                |k: int| x_mods0(nodes, fns0[k], svs),
            ));
            assert(prop_mutp0(mid) =~= Seq::new(
                fns0.len(),
                |k: int| mutp_init_row(x_fields(nodes, fns0[k], svs), 0, Seq::empty()),
            ));
            assert(prop_css(mid, nodes, svs) =~= Seq::new(
                fns0.len(),
                |k: int|
                    match find_node_spec(nodes, fns0[k].name@, 0) {
                        Some(j) => calls_with_args_spec(
                            nodes[j].body,
                            svs,
                            x_sparams(nodes, fns0[k]),
                        ),
                        None => Seq::empty(),
                    },
            ));
            assert(propagated_mods(mid, nodes, svs) == analyzed_mods(fns0, nodes, svs));
        }

        crate::upgradeable::resolve_storage_struct_fields(contract_info);

        let ghost fns_mid = contract_info.functions@;
        let nsv = contract_info.state_variables.len();
        let mut v: usize = 0;
        while v < nsv
            invariant
                v <= nsv,
                nsv == old(contract_info).state_variables@.len(),
                contract_info.state_variables@.len() == nsv,
                contract_info.functions@ == fns_mid,
                contract_info.name == old(contract_info).name,
                contract_info.file_path == old(contract_info).file_path,
                contract_info.structs == old(contract_info).structs,
                contract_info.enums == old(contract_info).enums,
                contract_info.events == old(contract_info).events,
                contract_info.modifiers == old(contract_info).modifiers,
                contract_info.errors == old(contract_info).errors,
                contract_info.upgradeable_storage == old(contract_info).upgradeable_storage,
                contract_info.dataflow_analysis == old(contract_info).dataflow_analysis,
                forall|j: int|
                    0 <= j < v ==> {
                        let sv = #[trigger] contract_info.state_variables@[j];
                        &&& sv.name == old(contract_info).state_variables@[j].name
                        &&& sv.var_type == old(contract_info).state_variables@[j].var_type
                        &&& sv.visibility == old(contract_info).state_variables@[j].visibility
                        &&& sv.is_constant == old(contract_info).state_variables@[j].is_constant
                        &&& sv.is_immutable == old(contract_info).state_variables@[j].is_immutable
                        &&& sv.line_number == old(contract_info).state_variables@[j].line_number
                        &&& crate::chains::mc_view(sv.read_chains@)
                            == crate::chains::read_chains_spec(
                            fns_mid,
                            old(contract_info).state_variables@[j].name@,
                            0,
                        )
                        &&& crate::chains::mc_view(sv.modification_chains@) == (
                        if sv.is_constant || sv.is_immutable {
                            Seq::empty()
                        } else {
                            crate::chains::chains_spec(
                                fns_mid,
                                old(contract_info).state_variables@[j].name@,
                                0,
                            )
                        })
                    },
                forall|j: int|
                    v <= j < nsv ==> contract_info.state_variables@[j] == old(contract_info).state_variables@[j],
            decreases nsv - v,
        {
            let ghost spre = contract_info.state_variables@;
            let mut sv = contract_info.state_variables.remove(v);
            sv.read_chains = crate::chains::build_read_chains(&sv.name, &contract_info.functions);
            if sv.is_constant || sv.is_immutable {
                // a constant or immutable variable has no modifiers by definition
                sv.modification_chains = Vec::new();
                assert(crate::chains::mc_view(sv.modification_chains@) =~= Seq::<
                    (Seq<char>, Seq<char>, Seq<(Seq<char>, Seq<char>)>),
                >::empty());
            } else {
                sv.modification_chains = crate::chains::build_modification_chains(
                    &sv.name,
                    &contract_info.functions,
                );
            }
            let ghost svg = sv;
            contract_info.state_variables.insert(v, sv);
            assert(contract_info.state_variables@ =~= spre.update(v as int, svg));
            v += 1;
        }

        let ghost sv_done = contract_info.state_variables@;

        let nev = contract_info.events.len();
        let mut e: usize = 0;
        while e < nev
            invariant
                e <= nev,
                nev == old(contract_info).events@.len(),
                contract_info.events@.len() == nev,
                contract_info.functions@ == fns_mid,
                contract_info.state_variables@ == sv_done,
                contract_info.name == old(contract_info).name,
                contract_info.file_path == old(contract_info).file_path,
                contract_info.structs == old(contract_info).structs,
                contract_info.enums == old(contract_info).enums,
                contract_info.modifiers == old(contract_info).modifiers,
                contract_info.errors == old(contract_info).errors,
                contract_info.upgradeable_storage == old(contract_info).upgradeable_storage,
                contract_info.dataflow_analysis == old(contract_info).dataflow_analysis,
                forall|j: int|
                    0 <= j < e ==> {
                        let ev = #[trigger] contract_info.events@[j];
                        &&& ev.name == old(contract_info).events@[j].name
                        &&& ev.parameters == old(contract_info).events@[j].parameters
                        &&& ev.line_number == old(contract_info).events@[j].line_number
                        &&& names_of(ev.emitted_in@) == emitters_spec(
                            fns_mid,
                            old(contract_info).events@[j].name@,
                            0,
                        )
                    },
                forall|j: int|
                    e <= j < nev ==> contract_info.events@[j] == old(contract_info).events@[j],
            decreases nev - e,
        {
            let ghost epre = contract_info.events@;
            let mut ev = contract_info.events.remove(e);
            ev.emitted_in = collect_emitters(&contract_info.functions, &ev.name);
            let ghost evg = ev;
            contract_info.events.insert(e, ev);
            assert(contract_info.events@ =~= epre.update(e as int, evg));
            e += 1;
        }
        let ghost ev_done = contract_info.events@;

        let nmd = contract_info.modifiers.len();
        let mut e: usize = 0;
        while e < nmd
            invariant
                e <= nmd,
                nmd == old(contract_info).modifiers@.len(),
                contract_info.modifiers@.len() == nmd,
                contract_info.functions@ == fns_mid,
                contract_info.state_variables@ == sv_done,
                contract_info.events@ == ev_done,
                contract_info.name == old(contract_info).name,
                contract_info.file_path == old(contract_info).file_path,
                contract_info.structs == old(contract_info).structs,
                contract_info.enums == old(contract_info).enums,
                contract_info.errors == old(contract_info).errors,
                contract_info.upgradeable_storage == old(contract_info).upgradeable_storage,
                contract_info.dataflow_analysis == old(contract_info).dataflow_analysis,
                forall|j: int|
                    0 <= j < e ==> {
                        let md = #[trigger] contract_info.modifiers@[j];
                        &&& md.name == old(contract_info).modifiers@[j].name
                        &&& md.parameters == old(contract_info).modifiers@[j].parameters
                        &&& md.line_number == old(contract_info).modifiers@[j].line_number
                        &&& names_of(md.used_in@) == modifier_users_spec(
                            fns_mid,
                            old(contract_info).modifiers@[j].name@,
                            0,
                        )
                    },
                forall|j: int|
                    e <= j < nmd ==> contract_info.modifiers@[j] == old(contract_info).modifiers@[j],
            decreases nmd - e,
        {
            let ghost mpre = contract_info.modifiers@;
            let mut md = contract_info.modifiers.remove(e);
            md.used_in = collect_modifier_users(&contract_info.functions, &md.name);
            let ghost mdg = md;
            contract_info.modifiers.insert(e, md);
            assert(contract_info.modifiers@ =~= mpre.update(e as int, mdg));
            e += 1;
        }
        let ghost md_done = contract_info.modifiers@;

        let nerr = contract_info.errors.len();
        let mut e: usize = 0;
        while e < nerr
            invariant
                e <= nerr,
                nerr == old(contract_info).errors@.len(),
                contract_info.errors@.len() == nerr,
                nodes == ast.functions@,
                contract_info.functions@ == fns_mid,
                contract_info.state_variables@ == sv_done,
                contract_info.events@ == ev_done,
                contract_info.modifiers@ == md_done,
                contract_info.name == old(contract_info).name,
                contract_info.file_path == old(contract_info).file_path,
                contract_info.structs == old(contract_info).structs,
                contract_info.enums == old(contract_info).enums,
                contract_info.upgradeable_storage == old(contract_info).upgradeable_storage,
                contract_info.dataflow_analysis == old(contract_info).dataflow_analysis,
                forall|j: int|
                    0 <= j < e ==> {
                        let er = #[trigger] contract_info.errors@[j];
                        &&& er.name == old(contract_info).errors@[j].name
                        &&& er.parameters == old(contract_info).errors@[j].parameters
                        &&& er.line_number == old(contract_info).errors@[j].line_number
                        &&& er.is_inherited == old(contract_info).errors@[j].is_inherited
                        &&& names_of(er.used_in@) == error_users_spec(
                            fns_mid,
                            nodes,
                            old(contract_info).errors@[j].name@,
                        )
                    },
                forall|j: int|
                    e <= j < nerr ==> contract_info.errors@[j] == old(contract_info).errors@[j],
            decreases nerr - e,
        {
            let ghost rpre = contract_info.errors@;
            let mut er = contract_info.errors.remove(e);
            er.used_in = collect_error_users(&contract_info.functions, &ast.functions, &er.name);
            let ghost erg = er;
            contract_info.errors.insert(e, er);
            assert(contract_info.errors@ =~= rpre.update(e as int, erg));
            e += 1;
        }
        let ghost err_done = contract_info.errors@;

        let mut defined: Vec<String> = Vec::new();
        let mut i: usize = 0;
        while i < contract_info.errors.len()
            invariant
                i <= contract_info.errors.len(),
                contract_info.errors@ == err_done,
                err_done.len() == old(contract_info).errors@.len(),
                forall|j: int| 0 <= j < err_done.len() ==> err_done[j].name == old(contract_info).errors@[j].name,
                defined@.len() == i,
                forall|j: int|
                    0 <= j < i ==> names_of(defined@)[j] == err_names(
                        old(contract_info).errors@,
                    )[j],
            decreases contract_info.errors.len() - i,
        {
            let ghost pre = names_of(defined@);
            defined.push(contract_info.errors[i].name.clone());
            assert(names_of(defined@) =~= pre.push(contract_info.errors@[i as int].name@));
            i += 1;
        }
        assert(names_of(defined@) =~= err_names(old(contract_info).errors@));
        let ghost defnames = err_names(old(contract_info).errors@);

        let all_used = collect_all_used_errors(&contract_info.functions, &ast.functions);
        let ghost all_usedv = names_of(all_used@);
        let ghost inh = inherited_names_spec(fns_mid, nodes, defnames);
        assert(inh == crate::names::filter_names(all_usedv, defnames));
        let mut x: usize = 0;
        assert(crate::names::filter_names(all_usedv.take(0), defnames) =~= Seq::<Seq<char>>::empty())
            by {
            assert(all_usedv.take(0) =~= Seq::<Seq<char>>::empty());
        }
        while x < all_used.len()
            invariant
                x <= all_used.len(),
                all_usedv == names_of(all_used@),
                names_of(defined@) == defnames,
                nodes == ast.functions@,
                contract_info.functions@ == fns_mid,
                contract_info.state_variables@ == sv_done,
                contract_info.events@ == ev_done,
                contract_info.modifiers@ == md_done,
                contract_info.name == old(contract_info).name,
                contract_info.file_path == old(contract_info).file_path,
                contract_info.structs == old(contract_info).structs,
                contract_info.enums == old(contract_info).enums,
                contract_info.upgradeable_storage == old(contract_info).upgradeable_storage,
                contract_info.dataflow_analysis == old(contract_info).dataflow_analysis,
                contract_info.errors@.len() == err_done.len() + crate::names::filter_names(
                    all_usedv.take(x as int),
                    defnames,
                ).len(),
                forall|j: int|
                    0 <= j < err_done.len() ==> #[trigger] contract_info.errors@[j] == err_done[j],
                forall|y: int|
                    err_done.len() <= y < contract_info.errors@.len() ==> {
                        let er = #[trigger] contract_info.errors@[y];
                        let nm = crate::names::filter_names(all_usedv.take(x as int), defnames)[y
                            - err_done.len()];
                        &&& er.name@ == nm
                        &&& er.parameters@.len() == 0
                        &&& er.line_number == 0
                        &&& er.is_inherited == true
                        &&& names_of(er.used_in@) == error_users_spec(fns_mid, nodes, nm)
                    },
            decreases all_used.len() - x,
        {
            assert(all_usedv.take(x + 1).drop_last() =~= all_usedv.take(x as int));
            assert(all_usedv.take(x + 1).last() == all_usedv[x as int]);
            if !crate::names::contains_name(&defined, &all_used[x]) {
                let used_in = collect_error_users(
                    &contract_info.functions,
                    &ast.functions,
                    &all_used[x],
                );
                let er = crate::models::ErrorDef {
                    name: all_used[x].clone(),
                    parameters: Vec::new(),
                    line_number: 0,
                    used_in,
                    is_inherited: true,
                };
                contract_info.errors.push(er);
            }
            x += 1;
        }
        assert(all_usedv.take(all_used@.len() as int) =~= all_usedv);

        crate::upgradeable::create_virtual_state_variables(contract_info);
        proof {
            if old(contract_info).upgradeable_storage is Some {
                let us = old(contract_info).upgradeable_storage->Some_0;
                crate::models::svars_of_len(sv_done);
                assert(forall|v: int|
                    0 <= v < sv_done.len() ==> #[trigger] contract_info.state_variables@[v]
                        == sv_done[v]);
            }
        }
    }
}

} // verus!
