//! The external-call classifier: member-access calls on variables of a known
//! declared type are external calls. The declared type is matched to an
//! analyzed contract, stripping a leading `I` from interface-looking names;
//! the match is a best guess, never ground truth, and an unmatched type keeps
//! the call with an `unknown` mutability.

use vstd::prelude::*;
use crate::ast::{ContractAst, Expr, Stmt, VarDeclNode};
use crate::models::{
    ContractInfo, ExternalCall, ExternalCallV, FunctionDef, ecs_of, group_ecs_axioms,
};
use crate::names::{assoc_find, names_of};

verus! {

broadcast use crate::names::group_names_axioms, group_ecs_axioms;

/// The pair views of a name-to-type association list.
pub open spec fn vt_view(s: Seq<(String, String)>) -> Seq<(Seq<char>, Seq<char>)> {
    s.map_values(|p: (String, String)| (p.0@, p.1@))
}

pub broadcast proof fn vt_view_len(s: Seq<(String, String)>)
    ensures
        #[trigger] vt_view(s).len() == s.len(),
{
}

pub broadcast proof fn vt_view_index(s: Seq<(String, String)>, i: int)
    requires
        0 <= i < s.len(),
    ensures
        #[trigger] vt_view(s)[i] == (s[i].0@, s[i].1@),
{
}

pub broadcast group group_vt_axioms {
    vt_view_len,
    vt_view_index,
}

/// Look a variable's declared type up; the latest declaration wins.
pub fn types_get<'a>(m: &'a Vec<(String, String)>, k: &String) -> (r: Option<&'a String>)
    ensures
        match r {
            Some(t) => assoc_find(vt_view(m@), k@) == Some(t@),
            None => assoc_find(vt_view(m@), k@) is None,
        },
{
    broadcast use group_vt_axioms;

    let mut i: usize = m.len();
    assert(vt_view(m@).take(i as int) =~= vt_view(m@));
    while i > 0
        invariant
            i <= m.len(),
            assoc_find(vt_view(m@), k@) == assoc_find(vt_view(m@).take(i as int), k@),
        decreases i,
    {
        assert(vt_view(m@).take(i as int).last() == vt_view(m@)[i - 1]);
        assert(vt_view(m@).take(i as int).drop_last() =~= vt_view(m@).take(i - 1));
        if m[i - 1].0.eq(k) {
            return Some(&m[i - 1].1);
        }
        i -= 1;
    }
    assert(vt_view(m@).take(0) =~= Seq::<(Seq<char>, Seq<char>)>::empty());
    None
}

/// The names of the analyzed contracts.
pub open spec fn contract_names(contracts: Seq<ContractInfo>) -> Seq<Seq<char>> {
    contracts.map_values(|c: ContractInfo| c.name@)
}

pub broadcast proof fn contract_names_len(s: Seq<ContractInfo>)
    ensures
        #[trigger] contract_names(s).len() == s.len(),
{
}

pub broadcast proof fn contract_names_index(s: Seq<ContractInfo>, i: int)
    requires
        0 <= i < s.len(),
    ensures
        #[trigger] contract_names(s)[i] == s[i].name@,
{
}

pub broadcast group group_cn_axioms {
    contract_names_len,
    contract_names_index,
}

/// Resolve a declared type name to a known contract: a name shaped like an
/// interface (`I` followed by an upper-case letter) first tries its bare
/// name, then any name falls back to an exact match.
pub open spec fn resolve_contract_spec(t: Seq<char>, names: Seq<Seq<char>>) -> Option<Seq<char>> {
    if t.len() > 1 && t[0] == 'I' && 'A' <= t[1] <= 'Z' && names.contains(t.skip(1)) {
        Some(t.skip(1))
    } else if names.contains(t) {
        Some(t)
    } else {
        None
    }
}

/// Resolve a declared type name to one of the given contract names, trying
/// the interface convention first.
pub fn resolve_contract_from_type(var_type: &String, contract_names_list: &Vec<String>) -> (r:
    Option<String>)
    ensures
        crate::names::view_opt(r) == resolve_contract_spec(
            var_type@,
            names_of(contract_names_list@),
        ),
{
    let tl = var_type.as_str().unicode_len();
    if tl > 1 {
        let c0 = var_type.as_str().get_char(0);
        let c1 = var_type.as_str().get_char(1);
        if c0 == 'I' && 'A' <= c1 && c1 <= 'Z' {
            let bare = String::from_str(var_type.as_str().substring_char(1, tl));
            if crate::names::contains_name(contract_names_list, &bare) {
                assert(bare@ =~= var_type@.skip(1));
                return Some(bare);
            }
            assert(!names_of(contract_names_list@).contains(var_type@.skip(1))) by {
                assert(bare@ =~= var_type@.skip(1));
            }
        }
    }
    if crate::names::contains_name(contract_names_list, var_type) {
        Some(var_type.clone())
    } else {
        None
    }
}

/// The first contract with the given name.
pub open spec fn find_contract_spec(contracts: Seq<ContractInfo>, nm: Seq<char>, i: int) -> Option<
    int,
>
    decreases contracts.len() - i,
{
    if i < 0 || i >= contracts.len() {
        None
    } else if contracts[i].name@ == nm {
        Some(i)
    } else {
        find_contract_spec(contracts, nm, i + 1)
    }
}

/// The first function with the given name.
pub open spec fn find_fn_spec(fns: Seq<FunctionDef>, nm: Seq<char>, i: int) -> Option<int>
    decreases fns.len() - i,
{
    if i < 0 || i >= fns.len() {
        None
    } else if fns[i].name@ == nm {
        Some(i)
    } else {
        find_fn_spec(fns, nm, i + 1)
    }
}

/// The declared mutability and access sets of a resolved call target; an
/// unmatched target reports `unknown` and empty sets.
pub open spec fn target_facts_spec(
    contracts: Seq<ContractInfo>,
    tc: Option<Seq<char>>,
    target_fn: Seq<char>,
) -> (Seq<char>, Seq<Seq<char>>, Seq<Seq<char>>) {
    match tc {
        Some(nm) => match find_contract_spec(contracts, nm, 0) {
            Some(ci) => match find_fn_spec(contracts[ci].functions@, target_fn, 0) {
                Some(fi) => (
                    contracts[ci].functions@[fi].state_mutability@,
                    names_of(contracts[ci].functions@[fi].modifies_states@),
                    names_of(contracts[ci].functions@[fi].reads_states@),
                ),
                None => ("unknown"@, Seq::empty(), Seq::empty()),
            },
            None => ("unknown"@, Seq::empty(), Seq::empty()),
        },
        None => ("unknown"@, Seq::empty(), Seq::empty()),
    }
}

/// The record of one classified external call.
pub open spec fn classify_call_spec(
    src_contract: Seq<char>,
    src_function: Seq<char>,
    var_nm: Seq<char>,
    vtype: Seq<char>,
    target_fn: Seq<char>,
    line: int,
    contracts: Seq<ContractInfo>,
) -> ExternalCallV {
    let tc = resolve_contract_spec(vtype, contract_names(contracts));
    let facts = target_facts_spec(contracts, tc, target_fn);
    ExternalCallV {
        source_contract: src_contract,
        source_function: src_function,
        target_variable: var_nm,
        target_type: vtype,
        target_function: target_fn,
        target_contract: tc,
        state_mutability: facts.0,
        line_number: line,
        target_modifies_states: facts.1,
        target_reads_states: facts.2,
    }
}

/// Find the first contract with the given name.
pub(crate) fn find_contract<'a>(contracts: &'a Vec<ContractInfo>, nm: &String) -> (r: Option<
    &'a ContractInfo,
>)
    ensures
        match r {
            Some(c) => exists|j: int|
                find_contract_spec(contracts@, nm@, 0) == Some(j) && 0 <= j < contracts@.len()
                    && contracts@[j] == *c,
            None => find_contract_spec(contracts@, nm@, 0) is None,
        },
{
    let mut i: usize = 0;
    while i < contracts.len()
        invariant
            i <= contracts.len(),
            find_contract_spec(contracts@, nm@, 0) == find_contract_spec(
                contracts@,
                nm@,
                i as int,
            ),
        decreases contracts.len() - i,
    {
        if contracts[i].name.eq(nm) {
            return Some(&contracts[i]);
        }
        i += 1;
    }
    None
}

/// Find the first function with the given name.
pub(crate) fn find_fn<'a>(fns: &'a Vec<FunctionDef>, nm: &String) -> (r: Option<&'a FunctionDef>)
    ensures
        match r {
            Some(f) => exists|j: int|
                find_fn_spec(fns@, nm@, 0) == Some(j) && 0 <= j < fns@.len() && fns@[j] == *f,
            None => find_fn_spec(fns@, nm@, 0) is None,
        },
{
    let mut i: usize = 0;
    while i < fns.len()
        invariant
            i <= fns.len(),
            find_fn_spec(fns@, nm@, 0) == find_fn_spec(fns@, nm@, i as int),
        decreases fns.len() - i,
    {
        if fns[i].name.eq(nm) {
            return Some(&fns[i]);
        }
        i += 1;
    }
    None
}

/// Build the record of one classified external call.
fn classify_call(
    src_contract: &String,
    src_function: &String,
    var_nm: &String,
    vtype: &String,
    target_fn: &String,
    line: usize,
    contracts: &Vec<ContractInfo>,
    contract_names_list: &Vec<String>,
) -> (r: ExternalCall)
    requires
        names_of(contract_names_list@) == contract_names(contracts@),
    ensures
        r@ == classify_call_spec(
            src_contract@,
            src_function@,
            var_nm@,
            vtype@,
            target_fn@,
            line as int,
            contracts@,
        ),
{
    let target_contract = resolve_contract_from_type(vtype, contract_names_list);
    let mut state_mutability: String = String::from_str("unknown");
    let mut target_modifies_states: Vec<String> = Vec::new();
    let mut target_reads_states: Vec<String> = Vec::new();
    assert(names_of(target_modifies_states@) =~= Seq::<Seq<char>>::empty());
    assert(names_of(target_reads_states@) =~= Seq::<Seq<char>>::empty());
    if let Some(tc_name) = &target_contract {
        if let Some(tc) = find_contract(contracts, tc_name) {
            if let Some(tf) = find_fn(&tc.functions, target_fn) {
                state_mutability = tf.state_mutability.clone();
                target_modifies_states = crate::analyzer::dup_names(&tf.modifies_states);
                target_reads_states = crate::analyzer::dup_names(&tf.reads_states);
            }
        }
    }
    ExternalCall {
        source_contract: src_contract.clone(),
        source_function: src_function.clone(),
        target_variable: var_nm.clone(),
        target_type: vtype.clone(),
        target_function: target_fn.clone(),
        target_contract,
        state_mutability,
        line_number: line,
        target_modifies_states,
        target_reads_states,
    }
}

/// The external-call scan over an expression: a call whose callee is a member
/// access on a plain variable of a declared type is classified; its arguments
/// are scanned for nested calls.
pub open spec fn scan_expr_ec_spec(
    e: Expr,
    src_contract: Seq<char>,
    src_function: Seq<char>,
    line: int,
    vt: Seq<(Seq<char>, Seq<char>)>,
    contracts: Seq<ContractInfo>,
    acc: Seq<ExternalCallV>,
) -> Seq<ExternalCallV>
    decreases e, 0int,
{
    match e {
        Expr::FunctionCall(f, args) => {
            let acc1 = match *f {
                Expr::MemberAccess(obj, member) => match *obj {
                    Expr::Variable(var_nm) => match assoc_find(vt, var_nm@) {
                        Some(vtype) => acc.push(
                            classify_call_spec(
                                src_contract,
                                src_function,
                                var_nm@,
                                vtype,
                                member@,
                                line,
                                contracts,
                            ),
                        ),
                        None => acc,
                    },
                    _ => acc,
                },
                _ => acc,
            };
            scan_exprs_ec_spec(args@, 0, src_contract, src_function, line, vt, contracts, acc1)
        },
        Expr::MemberAccess(b, _) => scan_expr_ec_spec(
            *b,
            src_contract,
            src_function,
            line,
            vt,
            contracts,
            acc,
        ),
        _ => acc,
    }
}

/// The external-call scan folded over argument expressions.
pub open spec fn scan_exprs_ec_spec(
    es: Seq<Expr>,
    i: int,
    src_contract: Seq<char>,
    src_function: Seq<char>,
    line: int,
    vt: Seq<(Seq<char>, Seq<char>)>,
    contracts: Seq<ContractInfo>,
    acc: Seq<ExternalCallV>,
) -> Seq<ExternalCallV>
    decreases es, es.len() - i,
{
    if i < 0 || i >= es.len() {
        acc
    } else {
        scan_exprs_ec_spec(
            es,
            i + 1,
            src_contract,
            src_function,
            line,
            vt,
            contracts,
            scan_expr_ec_spec(es[i], src_contract, src_function, line, vt, contracts, acc),
        )
    }
}

/// The external-call scan over a statement.
pub open spec fn scan_stmt_ec_spec(
    s: Stmt,
    src_contract: Seq<char>,
    src_function: Seq<char>,
    line: int,
    vt: Seq<(Seq<char>, Seq<char>)>,
    contracts: Seq<ContractInfo>,
    acc: Seq<ExternalCallV>,
) -> Seq<ExternalCallV>
    decreases s, 0int,
{
    match s {
        Stmt::Expression(e) => scan_expr_ec_spec(
            e,
            src_contract,
            src_function,
            line,
            vt,
            contracts,
            acc,
        ),
        Stmt::Block { statements, .. } => scan_stmts_ec_spec(
            statements@,
            0,
            src_contract,
            src_function,
            line,
            vt,
            contracts,
            acc,
        ),
        Stmt::If(_, t, e) => {
            let a1 = scan_stmt_ec_spec(*t, src_contract, src_function, line, vt, contracts, acc);
            match e {
                Some(es) => scan_stmt_ec_spec(
                    *es,
                    src_contract,
                    src_function,
                    line,
                    vt,
                    contracts,
                    a1,
                ),
                None => a1,
            }
        },
        Stmt::While(_, b) => scan_stmt_ec_spec(
            *b,
            src_contract,
            src_function,
            line,
            vt,
            contracts,
            acc,
        ),
        Stmt::DoWhile(b, _) => scan_stmt_ec_spec(
            *b,
            src_contract,
            src_function,
            line,
            vt,
            contracts,
            acc,
        ),
        Stmt::For(init, _, _, body) => {
            let a1 = match init {
                Some(s1) => scan_stmt_ec_spec(
                    *s1,
                    src_contract,
                    src_function,
                    line,
                    vt,
                    contracts,
                    acc,
                ),
                None => acc,
            };
            match body {
                Some(b) => scan_stmt_ec_spec(*b, src_contract, src_function, line, vt, contracts, a1),
                None => a1,
            }
        },
        _ => acc,
    }
}

/// The external-call scan folded over the statements of a block.
pub open spec fn scan_stmts_ec_spec(
    ss: Seq<Stmt>,
    i: int,
    src_contract: Seq<char>,
    src_function: Seq<char>,
    line: int,
    vt: Seq<(Seq<char>, Seq<char>)>,
    contracts: Seq<ContractInfo>,
    acc: Seq<ExternalCallV>,
) -> Seq<ExternalCallV>
    decreases ss, ss.len() - i,
{
    if i < 0 || i >= ss.len() {
        acc
    } else {
        scan_stmts_ec_spec(
            ss,
            i + 1,
            src_contract,
            src_function,
            line,
            vt,
            contracts,
            scan_stmt_ec_spec(ss[i], src_contract, src_function, line, vt, contracts, acc),
        )
    }
}

/// Scan an expression for external calls.
pub fn scan_expression_for_external_calls(
    e: &Expr,
    src_contract: &String,
    src_function: &String,
    line: usize,
    var_types: &Vec<(String, String)>,
    contracts: &Vec<ContractInfo>,
    contract_names_list: &Vec<String>,
    acc: &mut Vec<ExternalCall>,
)
    requires
        names_of(contract_names_list@) == contract_names(contracts@),
    ensures
        ecs_of(final(acc)@) == scan_expr_ec_spec(
            *e,
            src_contract@,
            src_function@,
            line as int,
            vt_view(var_types@),
            contracts@,
            ecs_of(old(acc)@),
        ),
    decreases *e, 0int,
{
    match e {
        Expr::FunctionCall(f, args) => {
            if let Expr::MemberAccess(obj, member) = &**f {
                if let Expr::Variable(var_nm) = &**obj {
                    if let Some(vtype) = types_get(var_types, var_nm) {
                        let call = classify_call(
                            src_contract,
                            src_function,
                            var_nm,
                            vtype,
                            member,
                            line,
                            contracts,
                            contract_names_list,
                        );
                        acc.push(call);
                    }
                }
            }
            let ghost a1 = ecs_of(acc@);
            let mut i: usize = 0;
            proof {
                assert(decreases_to!(*e => *args));
            }
            while i < args.len()
                invariant
                    i <= args.len(),
                    decreases_to!(*e => *args),
                    scan_exprs_ec_spec(
                        args@,
                        i as int,
                        src_contract@,
                        src_function@,
                        line as int,
                        vt_view(var_types@),
                        contracts@,
                        ecs_of(acc@),
                    ) == scan_exprs_ec_spec(
                        args@,
                        0,
                        src_contract@,
                        src_function@,
                        line as int,
                        vt_view(var_types@),
                        contracts@,
                        a1,
                    ),
                    names_of(contract_names_list@) == contract_names(contracts@),
                decreases args.len() - i,
            {
                scan_expression_for_external_calls(
                    &args[i],
                    src_contract,
                    src_function,
                    line,
                    var_types,
                    contracts,
                    contract_names_list,
                    acc,
                );
                i += 1;
            }
        },
        Expr::MemberAccess(b, _) => {
            scan_expression_for_external_calls(
                b,
                src_contract,
                src_function,
                line,
                var_types,
                contracts,
                contract_names_list,
                acc,
            );
        },
        _ => {},
    }
}

/// Scan a statement tree for external calls.
pub fn scan_for_external_calls(
    s: &Stmt,
    src_contract: &String,
    src_function: &String,
    line: usize,
    var_types: &Vec<(String, String)>,
    contracts: &Vec<ContractInfo>,
    contract_names_list: &Vec<String>,
    acc: &mut Vec<ExternalCall>,
)
    requires
        names_of(contract_names_list@) == contract_names(contracts@),
    ensures
        ecs_of(final(acc)@) == scan_stmt_ec_spec(
            *s,
            src_contract@,
            src_function@,
            line as int,
            vt_view(var_types@),
            contracts@,
            ecs_of(old(acc)@),
        ),
    decreases *s, 0int,
{
    match s {
        Stmt::Expression(e) => {
            scan_expression_for_external_calls(
                e,
                src_contract,
                src_function,
                line,
                var_types,
                contracts,
                contract_names_list,
                acc,
            );
        },
        Stmt::Block { statements, .. } => {
            let ghost a0 = ecs_of(acc@);
            let mut i: usize = 0;
            proof {
                assert(decreases_to!(*s => *statements));
            }
            while i < statements.len()
                invariant
                    i <= statements.len(),
                    decreases_to!(*s => *statements),
                    scan_stmts_ec_spec(
                        statements@,
                        i as int,
                        src_contract@,
                        src_function@,
                        line as int,
                        vt_view(var_types@),
                        contracts@,
                        ecs_of(acc@),
                    ) == scan_stmts_ec_spec(
                        statements@,
                        0,
                        src_contract@,
                        src_function@,
                        line as int,
                        vt_view(var_types@),
                        contracts@,
                        a0,
                    ),
                    names_of(contract_names_list@) == contract_names(contracts@),
                decreases statements.len() - i,
            {
                scan_for_external_calls(
                    &statements[i],
                    src_contract,
                    src_function,
                    line,
                    var_types,
                    contracts,
                    contract_names_list,
                    acc,
                );
                i += 1;
            }
        },
        Stmt::If(_, t, e) => {
            scan_for_external_calls(
                t,
                src_contract,
                src_function,
                line,
                var_types,
                contracts,
                contract_names_list,
                acc,
            );
            if let Some(es) = e {
                scan_for_external_calls(
                    es,
                    src_contract,
                    src_function,
                    line,
                    var_types,
                    contracts,
                    contract_names_list,
                    acc,
                );
            }
        },
        Stmt::While(_, b) => {
            scan_for_external_calls(
                b,
                src_contract,
                src_function,
                line,
                var_types,
                contracts,
                contract_names_list,
                acc,
            );
        },
        Stmt::DoWhile(b, _) => {
            scan_for_external_calls(
                b,
                src_contract,
                src_function,
                line,
                var_types,
                contracts,
                contract_names_list,
                acc,
            );
        },
        Stmt::For(init, _, _, body) => {
            if let Some(s1) = init {
                scan_for_external_calls(
                    s1,
                    src_contract,
                    src_function,
                    line,
                    var_types,
                    contracts,
                    contract_names_list,
                    acc,
                );
            }
            if let Some(b) = body {
                scan_for_external_calls(
                    b,
                    src_contract,
                    src_function,
                    line,
                    var_types,
                    contracts,
                    contract_names_list,
                    acc,
                );
            }
        },
        _ => {},
    }
}

/// An equal copy of a classified call.
pub fn dup_external_call(c: &ExternalCall) -> (r: ExternalCall)
    ensures
        r@ == c@,
{
    ExternalCall {
        source_contract: c.source_contract.clone(),
        source_function: c.source_function.clone(),
        target_variable: c.target_variable.clone(),
        target_type: c.target_type.clone(),
        target_function: c.target_function.clone(),
        target_contract: match &c.target_contract {
            Some(n) => Some(n.clone()),
            None => None,
        },
        state_mutability: c.state_mutability.clone(),
        line_number: c.line_number,
        target_modifies_states: crate::analyzer::dup_names(&c.target_modifies_states),
        target_reads_states: crate::analyzer::dup_names(&c.target_reads_states),
    }
}

/// The external calls of one analyzed function: its matching body scanned
/// against the contract's variable types and the analyzed contracts.
pub open spec fn func_ecs_spec(
    fns0: Seq<FunctionDef>,
    contract_name: Seq<char>,
    nodes: Seq<crate::ast::FunctionNode>,
    vt: Seq<(Seq<char>, Seq<char>)>,
    contracts: Seq<ContractInfo>,
    k: int,
) -> Seq<ExternalCallV> {
    match crate::analyzer::find_node_spec(nodes, fns0[k].name@, 0) {
        Some(j) => match nodes[j].body {
            Some(b) => scan_stmt_ec_spec(
                b,
                contract_name,
                fns0[k].name@,
                fns0[k].line_number as int,
                vt,
                contracts,
                Seq::empty(),
            ),
            None => Seq::empty(),
        },
        None => Seq::empty(),
    }
}

/// All external calls of the contract, function by function in declaration
/// order.
pub open spec fn all_ecs_spec(
    fns0: Seq<FunctionDef>,
    contract_name: Seq<char>,
    nodes: Seq<crate::ast::FunctionNode>,
    vt: Seq<(Seq<char>, Seq<char>)>,
    contracts: Seq<ContractInfo>,
    k: int,
) -> Seq<ExternalCallV>
    decreases fns0.len() - k,
{
    if k < 0 || k >= fns0.len() {
        Seq::empty()
    } else {
        func_ecs_spec(fns0, contract_name, nodes, vt, contracts, k) + all_ecs_spec(
            fns0,
            contract_name,
            nodes,
            vt,
            contracts,
            k + 1,
        )
    }
}

/// Classify every external call of the contract: each function's body is
/// scanned for member-access calls on variables of a declared type; each hit
/// is resolved against the analyzed contracts and recorded both on the
/// function and in the returned list.
pub fn detect_external_calls(
    contract_info: &mut ContractInfo,
    ast: &ContractAst,
    all_contracts: &Vec<ContractInfo>,
) -> (r: Vec<ExternalCall>)
    ensures
        final(contract_info).functions@.len() == old(contract_info).functions@.len(),
        forall|k: int|
            0 <= k < old(contract_info).functions@.len()
                ==> crate::models::same_but_external_calls(
                old(contract_info).functions@[k],
                #[trigger] final(contract_info).functions@[k],
            ),
        forall|k: int|
            0 <= k < old(contract_info).functions@.len() ==> ecs_of(
                #[trigger] final(contract_info).functions@[k].external_calls@,
            ) == func_ecs_spec(
                old(contract_info).functions@,
                old(contract_info).name@,
                ast.functions@,
                var_types_spec(ast.variables@),
                all_contracts@,
                k,
            ),
        ecs_of(r@) == all_ecs_spec(
            old(contract_info).functions@,
            old(contract_info).name@,
            ast.functions@,
            var_types_spec(ast.variables@),
            all_contracts@,
            0,
        ),
        final(contract_info).name == old(contract_info).name,
        final(contract_info).file_path == old(contract_info).file_path,
        final(contract_info).state_variables == old(contract_info).state_variables,
        final(contract_info).structs == old(contract_info).structs,
        final(contract_info).enums == old(contract_info).enums,
        final(contract_info).events == old(contract_info).events,
        final(contract_info).modifiers == old(contract_info).modifiers,
        final(contract_info).errors == old(contract_info).errors,
        final(contract_info).upgradeable_storage == old(contract_info).upgradeable_storage,
        final(contract_info).dataflow_analysis == old(contract_info).dataflow_analysis,
{
    let ghost fns0 = contract_info.functions@;
    let ghost cn = contract_info.name@;
    let ghost vt = var_types_spec(ast.variables@);
    let var_types = build_var_types(ast);
    let mut cnames: Vec<String> = Vec::new();
    let mut i: usize = 0;
    while i < all_contracts.len()
        invariant
            i <= all_contracts.len(),
            cnames@.len() == i,
            forall|j: int| 0 <= j < i ==> names_of(cnames@)[j] == contract_names(all_contracts@)[j],
        decreases all_contracts.len() - i,
    {
        let ghost pre = names_of(cnames@);
        cnames.push(all_contracts[i].name.clone());
        assert(names_of(cnames@) =~= pre.push(all_contracts@[i as int].name@));
        i += 1;
    }
    assert(names_of(cnames@) =~= contract_names(all_contracts@));

    let mut all_calls: Vec<ExternalCall> = Vec::new();
    assert(ecs_of(all_calls@) =~= Seq::<ExternalCallV>::empty());
    let n = contract_info.functions.len();
    let mut k: usize = 0;
    while k < n
        invariant
            k <= n,
            n == fns0.len(),
            contract_info.functions@.len() == n,
            contract_info.name@ == cn,
            vt == var_types_spec(ast.variables@),
            vt_view(var_types@) == vt,
            names_of(cnames@) == contract_names(all_contracts@),
            forall|j: int|
                0 <= j < k ==> crate::models::same_but_external_calls(
                    fns0[j],
                    #[trigger] contract_info.functions@[j],
                ),
            forall|j: int|
                0 <= j < k ==> ecs_of(#[trigger] contract_info.functions@[j].external_calls@)
                    == func_ecs_spec(fns0, cn, ast.functions@, vt, all_contracts@, j),
            forall|j: int| k <= j < n ==> contract_info.functions@[j] == fns0[j],
            ecs_of(all_calls@) + all_ecs_spec(fns0, cn, ast.functions@, vt, all_contracts@, k as int)
                =~= all_ecs_spec(fns0, cn, ast.functions@, vt, all_contracts@, 0),
            contract_info.name == old(contract_info).name,
            contract_info.file_path == old(contract_info).file_path,
            contract_info.state_variables == old(contract_info).state_variables,
            contract_info.structs == old(contract_info).structs,
            contract_info.enums == old(contract_info).enums,
            contract_info.events == old(contract_info).events,
            contract_info.modifiers == old(contract_info).modifiers,
            contract_info.errors == old(contract_info).errors,
            contract_info.upgradeable_storage == old(contract_info).upgradeable_storage,
            contract_info.dataflow_analysis == old(contract_info).dataflow_analysis,
        decreases n - k,
    {
        let mut row: Vec<ExternalCall> = Vec::new();
        assert(ecs_of(row@) =~= Seq::<ExternalCallV>::empty());
        if let Some(node) = crate::analyzer::find_function_node(
            &ast.functions,
            &contract_info.functions[k].name,
        ) {
            if let Some(b) = &node.body {
                scan_for_external_calls(
                    b,
                    &contract_info.name,
                    &contract_info.functions[k].name,
                    contract_info.functions[k].line_number,
                    &var_types,
                    all_contracts,
                    &cnames,
                    &mut row,
                );
            }
        }
        assert(ecs_of(row@) == func_ecs_spec(fns0, cn, ast.functions@, vt, all_contracts@, k as int));
        let ghost all_pre = ecs_of(all_calls@);
        let mut j: usize = 0;
        while j < row.len()
            invariant
                j <= row.len(),
                ecs_of(all_calls@) =~= all_pre + ecs_of(row@).take(j as int),
            decreases row.len() - j,
        {
            let ghost p2 = ecs_of(all_calls@);
            all_calls.push(dup_external_call(&row[j]));
            assert(ecs_of(all_calls@) =~= p2.push(ecs_of(row@)[j as int]));
            assert(ecs_of(all_calls@) =~= all_pre + ecs_of(row@).take(j + 1));
            j += 1;
        }
        assert(ecs_of(row@).take(row@.len() as int) =~= ecs_of(row@));
        let ghost rowv = ecs_of(row@);
        let ghost fpre = contract_info.functions@;
        let mut fd = contract_info.functions.remove(k);
        fd.external_calls = row;
        let ghost fdg = fd;
        contract_info.functions.insert(k, fd);
        assert(contract_info.functions@ =~= fpre.update(k as int, fdg));
        assert(ecs_of(contract_info.functions@[k as int].external_calls@) == rowv);
        k += 1;
    }
    all_calls
}

/// The declared contract-level variables as a name-to-type association.
pub open spec fn var_types_spec(vars: Seq<VarDeclNode>) -> Seq<(Seq<char>, Seq<char>)> {
    vars.map_values(|v: VarDeclNode| (v.name@, v.declared_type@))
}

/// Build the name-to-type association of the contract's variables.
pub fn build_var_types(ast: &ContractAst) -> (r: Vec<(String, String)>)
    ensures
        vt_view(r@) == var_types_spec(ast.variables@),
{
    broadcast use group_vt_axioms;

    let mut out: Vec<(String, String)> = Vec::new();
    let mut i: usize = 0;
    while i < ast.variables.len()
        invariant
            i <= ast.variables.len(),
            out@.len() == i,
            forall|j: int| 0 <= j < i ==> vt_view(out@)[j] == var_types_spec(ast.variables@)[j],
        decreases ast.variables.len() - i,
    {
        let ghost pre = vt_view(out@);
        out.push((ast.variables[i].name.clone(), ast.variables[i].declared_type.clone()));
        assert(vt_view(out@) =~= pre.push(
            (ast.variables@[i as int].name@, ast.variables@[i as int].declared_type@),
        ));
        assert(var_types_spec(ast.variables@)[i as int] == (
            ast.variables@[i as int].name@,
            ast.variables@[i as int].declared_type@,
        ));
        i += 1;
    }
    assert(vt_view(out@) =~= var_types_spec(ast.variables@));
    out
}

} // verus!
