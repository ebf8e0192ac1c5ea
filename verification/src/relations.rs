//! Cross-contract relationships: which analyzed contract an external call
//! lands in, what that target mutates, who else mutates the same state, and
//! the call chain below the target. The markdown rendering of these results
//! lives with the output layer.

use vstd::prelude::*;
use crate::callgraph::{build_call_graph, call_graph_spec, callees_closure, callees_closure_spec};
use crate::models::{ContractInfo, ExternalCall, FieldPath, FieldPathV, FunctionDef, PathBase,
    PathBaseV};
use crate::names::{contains_name, names_of, push_unique, push_unique_spec};

verus! {

broadcast use crate::names::group_names_axioms, crate::models::group_paths_axioms;

/// How one chain step is entered.
#[derive(Debug, Clone, Copy, PartialEq, Eq, Structural)]
pub enum CallType {
    Internal,
    External,
    ExternalUnresolved,
}

/// The resolved target of an external chain step.
#[derive(Debug, Clone, PartialEq, Eq)]
pub struct ExternalCallInfo {
    pub target_variable: String,
    pub target_type: String,
    pub target_contract: Option<String>,
    pub state_mutability: String,
}

/// One step of a call chain, with the state it can mutate.
#[derive(Debug, PartialEq, Eq)]
pub struct CallChainStep {
    pub function_name: String,
    pub call_type: CallType,
    pub modified_variables: Vec<String>,
    pub modified_fields: Vec<FieldPath>,
    pub other_modifiers: Vec<String>,
    pub target_info: Option<ExternalCallInfo>,
}

/// One cross-contract relationship: an external call resolved to an analyzed
/// contract, with everything its target can mutate.
#[derive(Debug, PartialEq, Eq)]
pub struct ContractRelation {
    pub external_call: ExternalCall,
    pub modified_variables: Vec<String>,
    pub modified_fields: Vec<FieldPath>,
    pub other_modifiers: Vec<String>,
    pub full_call_chain: Vec<CallChainStep>,
}

/// The builder of cross-contract relationships.
#[derive(Debug)]
pub struct RelationshipBuilder;

/// Whether a classified call's target resolves to an analyzed contract and a
/// function of it.
pub open spec fn call_resolves(contracts: Seq<ContractInfo>, call: ExternalCall) -> bool {
    match call.target_contract {
        Some(nm) => match crate::extcalls::find_contract_spec(contracts, nm@, 0) {
            Some(ci) => crate::extcalls::find_fn_spec(
                contracts[ci].functions@,
                call.target_function@,
                0,
            ) is Some,
            None => false,
        },
        None => false,
    }
}

/// The calls whose targets resolve, in order.
pub open spec fn resolvable_calls(
    contracts: Seq<ContractInfo>,
    calls: Seq<ExternalCall>,
) -> Seq<ExternalCall>
    decreases calls.len(),
{
    if calls.len() == 0 {
        Seq::empty()
    } else {
        let r = resolvable_calls(contracts, calls.drop_last());
        if call_resolves(contracts, calls.last()) {
            r.push(calls.last())
        } else {
            r
        }
    }
}

/// What one relation promises about its call: the call itself resolves, and
/// the record carries the resolved target's own mutation facts and the other
/// functions of the target contract that touch the same state.
pub open spec fn relation_pinned(
    contracts: Seq<ContractInfo>,
    call: ExternalCall,
    rel: ContractRelation,
) -> bool {
    &&& rel.external_call == call
    &&& call_resolves(contracts, call)
    &&& {
        let ci = crate::extcalls::find_contract_spec(
            contracts,
            call.target_contract->Some_0@,
            0,
        )->Some_0;
        let fi = crate::extcalls::find_fn_spec(
            contracts[ci].functions@,
            call.target_function@,
            0,
        )->Some_0;
        &&& names_of(rel.modified_variables@) == names_of(
            contracts[ci].functions@[fi].modifies_states@,
        )
        &&& crate::models::paths_of(rel.modified_fields@) == crate::models::paths_of(
            contracts[ci].functions@[fi].modifies_state_fields@,
        )
        &&& names_of(rel.other_modifiers@) == other_modifiers_spec(
            contracts[ci].functions@,
            names_of(contracts[ci].functions@[fi].modifies_states@),
            call.target_function@,
            0,
            Seq::empty(),
        )
    }
}

/// The other functions of the contract that mutate one of the given
/// variables, in declaration order.
pub open spec fn other_modifiers_spec(
    fns: Seq<FunctionDef>,
    vars: Seq<Seq<char>>,
    exclude: Seq<char>,
    k: int,
    acc: Seq<Seq<char>>,
) -> Seq<Seq<char>>
    decreases fns.len() - k,
{
    if k < 0 || k >= fns.len() {
        acc
    } else {
        let acc1 = if fns[k].name@ != exclude && exists|v: int|
            0 <= v < vars.len() && names_of(fns[k].modifies_states@).contains(#[trigger] vars[v]) {
            push_unique_spec(acc, fns[k].name@)
        } else {
            acc
        };
        other_modifiers_spec(fns, vars, exclude, k + 1, acc1)
    }
}

/// Collect the other functions that mutate one of the given variables.
pub fn find_other_modifiers(
    vars: &Vec<String>,
    exclude_func: &String,
    contract: &ContractInfo,
) -> (r: Vec<String>)
    ensures
        names_of(r@) == other_modifiers_spec(
            contract.functions@,
            names_of(vars@),
            exclude_func@,
            0,
            Seq::empty(),
        ),
{
    let mut out: Vec<String> = Vec::new();
    assert(names_of(out@) =~= Seq::<Seq<char>>::empty());
    let mut k: usize = 0;
    while k < contract.functions.len()
        invariant
            k <= contract.functions.len(),
            other_modifiers_spec(
                contract.functions@,
                names_of(vars@),
                exclude_func@,
                k as int,
                names_of(out@),
            ) == other_modifiers_spec(
                contract.functions@,
                names_of(vars@),
                exclude_func@,
                0,
                Seq::empty(),
            ),
        decreases contract.functions.len() - k,
    {
        let f = &contract.functions[k];
        let mut any = false;
        let mut v: usize = 0;
        while !any && v < vars.len()
            invariant
                v <= vars.len(),
                k < contract.functions@.len(),
                f == &contract.functions@[k as int],
                any ==> exists|vv: int|
                    0 <= vv < names_of(vars@).len() && names_of(f.modifies_states@).contains(
                        #[trigger] names_of(vars@)[vv],
                    ),
                !any ==> forall|vv: int|
                    0 <= vv < v ==> !names_of(f.modifies_states@).contains(
                        #[trigger] names_of(vars@)[vv],
                    ),
            decreases (if any { 0int } else { 1int }), vars.len() - v,
        {
            if contains_name(&f.modifies_states, &vars[v]) {
                assert(names_of(f.modifies_states@).contains(names_of(vars@)[v as int]));
                any = true;
            } else {
                v += 1;
            }
        }
        if !f.name.eq(exclude_func) && any {
            push_unique(&mut out, f.name.clone());
        }
        k += 1;
    }
    out
}

/// The functions of the contract, other than the excluded one, whose
/// field-level paths hold the given path.
pub open spec fn field_modifiers_spec(
    fns: Seq<FunctionDef>,
    path: crate::models::FieldPathV,
    exclude: Seq<char>,
    k: int,
) -> Seq<Seq<char>>
    decreases fns.len() - k,
{
    if k < 0 || k >= fns.len() {
        Seq::empty()
    } else {
        let rest = field_modifiers_spec(fns, path, exclude, k + 1);
        if fns[k].name@ != exclude && crate::models::paths_of(fns[k].modifies_state_fields@)
            .contains(path) {
            seq![fns[k].name@] + rest
        } else {
            rest
        }
    }
}

/// Whether a function's field paths hold the given path.
fn has_field_path(f: &FunctionDef, path: &FieldPath) -> (b: bool)
    ensures
        b == crate::models::paths_of(f.modifies_state_fields@).contains(path@),
{
    let mut p: usize = 0;
    while p < f.modifies_state_fields.len()
        invariant
            p <= f.modifies_state_fields.len(),
            forall|q: int|
                0 <= q < p ==> #[trigger] crate::models::paths_of(f.modifies_state_fields@)[q]
                    != path@,
        decreases f.modifies_state_fields.len() - p,
    {
        if f.modifies_state_fields[p].same_as(path) {
            assert(crate::models::paths_of(f.modifies_state_fields@)[p as int] == path@);
            return true;
        }
        p += 1;
    }
    false
}

/// The views of an entry-point triple list.
pub open spec fn ep_view(s: Seq<(String, String, String)>) -> Seq<(Seq<char>, Seq<char>, Seq<char>)> {
    s.map_values(|e: (String, String, String)| (e.0@, e.1@, e.2@))
}

pub broadcast proof fn ep_view_len(s: Seq<(String, String, String)>)
    ensures
        #[trigger] ep_view(s).len() == s.len(),
{
}

pub broadcast proof fn ep_view_index(s: Seq<(String, String, String)>, i: int)
    requires
        0 <= i < s.len(),
    ensures
        #[trigger] ep_view(s)[i] == (s[i].0@, s[i].1@, s[i].2@),
{
}

pub broadcast group group_ep_axioms {
    ep_view_len,
    ep_view_index,
}

/// Append an entry-point triple unless an equal one is already present.
fn push_unique_entry(v: &mut Vec<(String, String, String)>, e: (String, String, String))
    ensures
        ep_view(final(v)@) == crate::names::push_unique_gen(ep_view(old(v)@), (e.0@, e.1@, e.2@)),
{
    broadcast use group_ep_axioms;

    let mut i: usize = 0;
    while i < v.len()
        invariant
            i <= v.len(),
            forall|j: int| 0 <= j < i ==> ep_view(v@)[j] != (e.0@, e.1@, e.2@),
        decreases v.len() - i,
    {
        if v[i].0.eq(&e.0) && v[i].1.eq(&e.1) && v[i].2.eq(&e.2) {
            assert(ep_view(v@)[i as int] == (e.0@, e.1@, e.2@));
            return ;
        }
        i += 1;
    }
    assert(!ep_view(v@).contains((e.0@, e.1@, e.2@)));
    let ghost pre = ep_view(v@);
    v.push(e);
    assert(ep_view(v@) =~= pre.push(ep_view(v@).last()));
}

/// Whether a visibility opens a function to outside callers.
pub open spec fn is_entry_visibility(v: Seq<char>) -> bool {
    v == "public"@ || v == "external"@
}

/// The entry points one chain's links contribute: every public or external
/// caller, as a (contract, entry function, direct modifier) triple.
pub open spec fn ep_links_spec(
    cnm: Seq<char>,
    dm: Seq<char>,
    links: Seq<(Seq<char>, Seq<char>)>,
    l: int,
    acc: Seq<(Seq<char>, Seq<char>, Seq<char>)>,
) -> Seq<(Seq<char>, Seq<char>, Seq<char>)>
    decreases links.len() - l,
{
    if l < 0 || l >= links.len() {
        acc
    } else {
        let acc1 = if is_entry_visibility(links[l].1) {
            crate::names::push_unique_gen(acc, (cnm, links[l].0, dm))
        } else {
            acc
        };
        ep_links_spec(cnm, dm, links, l + 1, acc1)
    }
}

/// The entry points of a variable's chains: every public or external link of
/// each chain, and the direct modifier itself when it is public or external.
pub open spec fn ep_chains_spec(
    cnm: Seq<char>,
    chains: Seq<(Seq<char>, Seq<char>, Seq<(Seq<char>, Seq<char>)>)>,
    ch: int,
    acc: Seq<(Seq<char>, Seq<char>, Seq<char>)>,
) -> Seq<(Seq<char>, Seq<char>, Seq<char>)>
    decreases chains.len() - ch,
{
    if ch < 0 || ch >= chains.len() {
        acc
    } else {
        let a1 = ep_links_spec(cnm, chains[ch].0, chains[ch].2, 0, acc);
        let a2 = if is_entry_visibility(chains[ch].1) {
            crate::names::push_unique_gen(a1, (cnm, chains[ch].0, chains[ch].0))
        } else {
            a1
        };
        ep_chains_spec(cnm, chains, ch + 1, a2)
    }
}

/// The entry-point records of one contract's synthesized storage fields:
/// every variable typed as upgradeable storage whose chains expose at least
/// two distinct entry points.
pub open spec fn ep_vars_spec(c: ContractInfo, v: int) -> Seq<
    (Seq<char>, Seq<char>, Seq<(Seq<char>, Seq<char>, Seq<char>)>),
>
    decreases c.state_variables@.len() - v,
{
    if v < 0 || v >= c.state_variables@.len() {
        Seq::empty()
    } else {
        let rest = ep_vars_spec(c, v + 1);
        let sv = c.state_variables@[v];
        if crate::names::is_substr(sv.var_type@, "(upgradeable storage)"@) {
            let eps = ep_chains_spec(
                c.name@,
                crate::chains::mc_view(sv.modification_chains@),
                0,
                Seq::empty(),
            );
            if eps.len() >= 2 {
                seq![(c.name@, sv.name@, eps)] + rest
            } else {
                rest
            }
        } else {
            rest
        }
    }
}

/// The entry-point records of every contract following the namespaced-storage
/// pattern.
pub open spec fn ep_contracts_spec(contracts: Seq<ContractInfo>, ci: int) -> Seq<
    (Seq<char>, Seq<char>, Seq<(Seq<char>, Seq<char>, Seq<char>)>),
>
    decreases contracts.len() - ci,
{
    if ci < 0 || ci >= contracts.len() {
        Seq::empty()
    } else {
        let rest = ep_contracts_spec(contracts, ci + 1);
        if contracts[ci].upgradeable_storage is Some {
            ep_vars_spec(contracts[ci], 0) + rest
        } else {
            rest
        }
    }
}

/// The views of the entry-point records.
pub open spec fn usv_view(s: Seq<(String, String, Vec<(String, String, String)>)>) -> Seq<
    (Seq<char>, Seq<char>, Seq<(Seq<char>, Seq<char>, Seq<char>)>),
> {
    s.map_values(|r: (String, String, Vec<(String, String, String)>)| (r.0@, r.1@, ep_view(r.2@)))
}

pub broadcast proof fn usv_view_len(s: Seq<(String, String, Vec<(String, String, String)>)>)
    ensures
        #[trigger] usv_view(s).len() == s.len(),
{
}

pub broadcast proof fn usv_view_index(
    s: Seq<(String, String, Vec<(String, String, String)>)>,
    i: int,
)
    requires
        0 <= i < s.len(),
    ensures
        #[trigger] usv_view(s)[i] == (s[i].0@, s[i].1@, ep_view(s[i].2@)),
{
}

pub broadcast group group_usv_axioms {
    usv_view_len,
    usv_view_index,
}

impl RelationshipBuilder {
    /// For each field path, which other functions also mutate exactly that
    /// path; paths nobody else touches get no entry.
    pub fn build_field_modifiers_map(
        fields: &Vec<FieldPath>,
        exclude_func: &String,
        contract: &ContractInfo,
    ) -> (r: Vec<(FieldPath, Vec<String>)>)
        ensures
            forall|x: int|
                0 <= x < r@.len() ==> names_of(#[trigger] r@[x].1@) == field_modifiers_spec(
                    contract.functions@,
                    r@[x].0@,
                    exclude_func@,
                    0,
                ) && names_of(r@[x].1@).len() > 0,
    {
        let mut out: Vec<(FieldPath, Vec<String>)> = Vec::new();
        let mut i: usize = 0;
        while i < fields.len()
            invariant
                i <= fields.len(),
                forall|x: int|
                    0 <= x < out@.len() ==> names_of(#[trigger] out@[x].1@) == field_modifiers_spec(
                        contract.functions@,
                        out@[x].0@,
                        exclude_func@,
                        0,
                    ) && names_of(out@[x].1@).len() > 0,
            decreases fields.len() - i,
        {
            let path = &fields[i];
            let mut modifiers: Vec<String> = Vec::new();
            assert(names_of(modifiers@) =~= Seq::<Seq<char>>::empty());
            let mut k: usize = 0;
            while k < contract.functions.len()
                invariant
                    k <= contract.functions.len(),
                    i < fields@.len(),
                    path == &fields@[i as int],
                    names_of(modifiers@) + field_modifiers_spec(
                        contract.functions@,
                        fields@[i as int]@,
                        exclude_func@,
                        k as int,
                    ) =~= field_modifiers_spec(
                        contract.functions@,
                        fields@[i as int]@,
                        exclude_func@,
                        0,
                    ),
                decreases contract.functions.len() - k,
            {
                let f = &contract.functions[k];
                if !f.name.eq(exclude_func) && has_field_path(f, path) {
                    let ghost pre = names_of(modifiers@);
                    modifiers.push(f.name.clone());
                    assert(names_of(modifiers@) =~= pre.push(
                        contract.functions@[k as int].name@,
                    ));
                }
                k += 1;
            }
            if modifiers.len() > 0 {
                let ghost prev = out@;
                out.push((path.dup(), modifiers));
                assert(forall|x: int| 0 <= x < prev.len() ==> out@[x] == prev[x]);
            }
            i += 1;
        }
        out
    }

    /// The coarse mutation sets of every function reachable from the given
    /// one through internal calls, folded in declaration order.
    pub open spec fn all_modifications_spec(
        fns: Seq<FunctionDef>,
        closure: Seq<Seq<char>>,
        k: int,
        acc: Seq<Seq<char>>,
    ) -> Seq<Seq<char>>
        decreases fns.len() - k,
    {
        if k < 0 || k >= fns.len() {
            acc
        } else {
            let acc1 = if closure.contains(fns[k].name@) {
                crate::analyzer::add_all_names(acc, names_of(fns[k].modifies_states@), 0)
            } else {
                acc
            };
            Self::all_modifications_spec(fns, closure, k + 1, acc1)
        }
    }

    /// Collect the state every function reachable from this one can mutate,
    /// on top of what the accumulator already holds.
    pub fn collect_all_modifications(
        func: &FunctionDef,
        contract: &ContractInfo,
        modifications: &mut Vec<String>,
    )
        ensures
            names_of(final(modifications)@) == Self::all_modifications_spec(
                contract.functions@,
                callees_closure_spec(func.name@, call_graph_spec(contract.functions@, 0)),
                0,
                names_of(old(modifications)@),
            ),
    {
        let graph = build_call_graph(&contract.functions);
        let closure = callees_closure(&func.name, &graph);
        let ghost cl = callees_closure_spec(func.name@, call_graph_spec(contract.functions@, 0));
        assert(names_of(closure@) == cl);
        let mut k: usize = 0;
        while k < contract.functions.len()
            invariant
                k <= contract.functions.len(),
                names_of(closure@) == cl,
                Self::all_modifications_spec(
                    contract.functions@,
                    cl,
                    k as int,
                    names_of(modifications@),
                ) == Self::all_modifications_spec(
                    contract.functions@,
                    cl,
                    0,
                    names_of(old(modifications)@),
                ),
            decreases contract.functions.len() - k,
        {
            if contains_name(&closure, &contract.functions[k].name) {
                crate::analyzer::add_all(modifications, &contract.functions[k].modifies_states);
            }
            k += 1;
        }
    }

    /// Resolve pending storage-parameter paths at one call site. The match
    /// is a best guess, never ground truth.

    /// The caller-path strategy: the root of the first resolved caller path
    /// whose fields equal the pending path's fields.
    pub open spec fn matching_caller_path(
        p: FieldPathV,
        cpaths: Seq<FieldPathV>,
        q: int,
    ) -> Option<Seq<char>>
        decreases cpaths.len() - q,
    {
        if q < 0 || q >= cpaths.len() {
            None
        } else {
            match cpaths[q].base {
                PathBaseV::Resolved(b) => if cpaths[q].fields == p.fields {
                    Some(b)
                } else {
                    Self::matching_caller_path(p, cpaths, q + 1)
                },
                _ => Self::matching_caller_path(p, cpaths, q + 1),
            }
        }
    }

    /// Whether the contract declares a mapping-typed state variable of the
    /// given name.
    pub open spec fn is_mapping_state_var(
        svars: Seq<crate::models::StateVariableV>,
        nm: Seq<char>,
    ) -> bool {
        exists|v: int|
            0 <= v < svars.len() && (#[trigger] svars[v]).name == nm && crate::names::is_substr(
                svars[v].var_type,
                "mapping"@,
            )
    }

    /// The fallback strategy: the first mapping-typed state variable the
    /// caller mutates.
    pub open spec fn first_mapping_mod(
        cmods: Seq<Seq<char>>,
        svars: Seq<crate::models::StateVariableV>,
        m: int,
    ) -> Option<Seq<char>>
        decreases cmods.len() - m,
    {
        if m < 0 || m >= cmods.len() {
            None
        } else if Self::is_mapping_state_var(svars, cmods[m]) {
            Some(cmods[m])
        } else {
            Self::first_mapping_mod(cmods, svars, m + 1)
        }
    }

    /// The resolution of one pending path: the caller-path strategy first,
    /// the mapping fallback second, the pending path itself when both fail.
    pub open spec fn resolve_pending_spec(
        p: FieldPathV,
        cpaths: Seq<FieldPathV>,
        cmods: Seq<Seq<char>>,
        svars: Seq<crate::models::StateVariableV>,
    ) -> FieldPathV {
        match Self::matching_caller_path(p, cpaths, 0) {
            Some(b) => FieldPathV { base: PathBaseV::Resolved(b), fields: p.fields },
            None => match Self::first_mapping_mod(cmods, svars, 0) {
                Some(b) => FieldPathV { base: PathBaseV::Resolved(b), fields: p.fields },
                None => p,
            },
        }
    }

    /// Resolve pending storage-parameter paths at one call site: a pending
    /// path whose fields match a resolved path of the caller takes that
    /// path's root; otherwise the first mapping-typed state variable the
    /// caller mutates stands in; otherwise the path stays pending. The match
    /// is a best guess, never ground truth.
    pub fn resolve_storage_param_fields(
        fields: &Vec<FieldPath>,
        caller_func: &FunctionDef,
        contract: &ContractInfo,
    ) -> (r: Vec<FieldPath>)
        ensures
            r@.len() == fields@.len(),
            forall|x: int|
                0 <= x < r@.len() ==> (#[trigger] r@[x]@) == (
                if fields@[x]@.base is PendingParam {
                    Self::resolve_pending_spec(
                        fields@[x]@,
                        crate::models::paths_of(caller_func.modifies_state_fields@),
                        names_of(caller_func.modifies_states@),
                        crate::models::svars_of(contract.state_variables@),
                    )
                } else {
                    fields@[x]@
                }),
    {
        broadcast use crate::models::group_svars_axioms;

        let ghost cpaths = crate::models::paths_of(caller_func.modifies_state_fields@);
        let ghost cmods = names_of(caller_func.modifies_states@);
        let ghost svars = crate::models::svars_of(contract.state_variables@);
        let mut out: Vec<FieldPath> = Vec::new();
        let mut i: usize = 0;
        while i < fields.len()
            invariant
                i <= fields.len(),
                out@.len() == i,
                cpaths == crate::models::paths_of(caller_func.modifies_state_fields@),
                cmods == names_of(caller_func.modifies_states@),
                svars == crate::models::svars_of(contract.state_variables@),
                forall|x: int|
                    0 <= x < i ==> (#[trigger] out@[x]@) == (
                    if fields@[x]@.base is PendingParam {
                        Self::resolve_pending_spec(fields@[x]@, cpaths, cmods, svars)
                    } else {
                        fields@[x]@
                    }),
            decreases fields.len() - i,
        {
            let p = &fields[i];
            let is_pending = matches!(p.base, PathBase::PendingParam(_));
            if is_pending {
                let mut resolved: Option<String> = None;
                let mut q: usize = 0;
                while q < caller_func.modifies_state_fields.len()
                    invariant
                        q <= caller_func.modifies_state_fields.len(),
                        i < fields@.len(),
                        p == &fields@[i as int],
                        cpaths == crate::models::paths_of(caller_func.modifies_state_fields@),
                        match resolved {
                            Some(ref b) => Self::matching_caller_path(fields@[i as int]@, cpaths, 0)
                                == Some(b@),
                            None => Self::matching_caller_path(fields@[i as int]@, cpaths, q as int)
                                == Self::matching_caller_path(fields@[i as int]@, cpaths, 0),
                        },
                    decreases caller_func.modifies_state_fields.len() - q + (match resolved {
                        Some(_) => 0int,
                        None => 1int,
                    }),
                {
                    if resolved.is_none() {
                        let cp = &caller_func.modifies_state_fields[q];
                        if let PathBase::Resolved(b) = &cp.base {
                            if crate::names::names_equal(&cp.fields, &p.fields) {
                                resolved = Some(b.clone());
                            }
                        }
                    }
                    q += 1;
                }
                if resolved.is_none() {
                    assert(Self::matching_caller_path(fields@[i as int]@, cpaths, 0) is None);
                    let mut m: usize = 0;
                    while m < caller_func.modifies_states.len()
                        invariant
                            m <= caller_func.modifies_states.len(),
                            cmods == names_of(caller_func.modifies_states@),
                            svars == crate::models::svars_of(contract.state_variables@),
                            match resolved {
                                Some(ref b) => Self::first_mapping_mod(cmods, svars, 0) == Some(
                                    b@,
                                ),
                                None => Self::first_mapping_mod(cmods, svars, m as int)
                                    == Self::first_mapping_mod(cmods, svars, 0),
                            },
                        decreases caller_func.modifies_states.len() - m + (match resolved {
                            Some(_) => 0int,
                            None => 1int,
                        }),
                    {
                        if resolved.is_none() {
                            let candidate = &caller_func.modifies_states[m];
                            let mut is_mapping = false;
                            let mut sv: usize = 0;
                            while !is_mapping && sv < contract.state_variables.len()
                                invariant
                                    sv <= contract.state_variables.len(),
                                    m < caller_func.modifies_states@.len(),
                                    candidate == &caller_func.modifies_states@[m as int],
                                    svars == crate::models::svars_of(contract.state_variables@),
                                    is_mapping ==> Self::is_mapping_state_var(
                                        svars,
                                        candidate@,
                                    ),
                                    !is_mapping ==> forall|v: int|
                                        0 <= v < sv ==> !((#[trigger] svars[v]).name == candidate@
                                            && crate::names::is_substr(
                                            svars[v].var_type,
                                            "mapping"@,
                                        )),
                                decreases (if is_mapping { 0int } else { 1int }),
                                    contract.state_variables.len() - sv,
                            {
                                if contract.state_variables[sv].name.eq(candidate)
                                    && crate::names::contains_substr(
                                    contract.state_variables[sv].var_type.as_str(),
                                    "mapping",
                                ) {
                                    assert(svars[sv as int].name == candidate@);
                                    is_mapping = true;
                                } else {
                                    sv += 1;
                                }
                            }
                            if is_mapping {
                                assert(names_of(caller_func.modifies_states@)[m as int]
                                    == candidate@);
                                resolved = Some(candidate.clone());
                            } else {
                                assert(!Self::is_mapping_state_var(svars, cmods[m as int])) by {
                                    assert(cmods[m as int] == candidate@);
                                }
                            }
                        }
                        m += 1;
                    }
                }
                match resolved {
                    Some(b) => {
                        out.push(
                            FieldPath {
                                base: PathBase::Resolved(b),
                                fields: crate::analyzer::dup_names(&p.fields),
                            },
                        );
                    },
                    None => {
                        out.push(p.dup());
                    },
                }
                assert(out@[i as int]@ == Self::resolve_pending_spec(
                    fields@[i as int]@,
                    cpaths,
                    cmods,
                    svars,
                ));
            } else {
                out.push(p.dup());
            }
            i += 1;
        }
        out
    }

    /// For the contracts following the namespaced-storage pattern, find the
    /// storage-struct fields reachable through more than one public or
    /// external entry point. Each record names the contract, the field, and
    /// the distinct (contract, entry function, direct modifier) triples its
    /// chains expose; exactly the fields with at least two entry points are
    /// kept, in declaration order.
    pub fn collect_upgradeable_storage_entry_points(
        contracts: &Vec<ContractInfo>,
    ) -> (r: Vec<(String, String, Vec<(String, String, String)>)>)
        ensures
            usv_view(r@) == ep_contracts_spec(contracts@, 0),
    {
        broadcast use group_ep_axioms, group_usv_axioms;

        let mut out: Vec<(String, String, Vec<(String, String, String)>)> = Vec::new();
        assert(usv_view(out@) =~= Seq::<
            (Seq<char>, Seq<char>, Seq<(Seq<char>, Seq<char>, Seq<char>)>),
        >::empty());
        let mut c: usize = 0;
        while c < contracts.len()
            invariant
                c <= contracts.len(),
                usv_view(out@) + ep_contracts_spec(contracts@, c as int) =~= ep_contracts_spec(
                    contracts@,
                    0,
                ),
            decreases contracts.len() - c,
        {
            let contract = &contracts[c];
            if contract.upgradeable_storage.is_some() {
                let mut v: usize = 0;
                while v < contract.state_variables.len()
                    invariant
                        v <= contract.state_variables.len(),
                        c < contracts@.len(),
                        contract == &contracts@[c as int],
                        contract.upgradeable_storage is Some,
                        usv_view(out@) + ep_vars_spec(contracts@[c as int], v as int)
                            + ep_contracts_spec(contracts@, c + 1) =~= ep_contracts_spec(
                            contracts@,
                            0,
                        ),
                    decreases contract.state_variables.len() - v,
                {
                    let var = &contract.state_variables[v];
                    if crate::names::contains_substr(
                        var.var_type.as_str(),
                        "(upgradeable storage)",
                    ) {
                        let mut entries: Vec<(String, String, String)> = Vec::new();
                        assert(ep_view(entries@) =~= Seq::<
                            (Seq<char>, Seq<char>, Seq<char>),
                        >::empty());
                        let mut ch: usize = 0;
                        while ch < var.modification_chains.len()
                            invariant
                                ch <= var.modification_chains.len(),
                                c < contracts@.len(),
                                v < contract.state_variables@.len(),
                                contract == &contracts@[c as int],
                                var == &contracts@[c as int].state_variables@[v as int],
                                ep_chains_spec(
                                    contract.name@,
                                    crate::chains::mc_view(var.modification_chains@),
                                    ch as int,
                                    ep_view(entries@),
                                ) == ep_chains_spec(
                                    contract.name@,
                                    crate::chains::mc_view(var.modification_chains@),
                                    0,
                                    Seq::empty(),
                                ),
                            decreases var.modification_chains.len() - ch,
                        {
                            let chain = &var.modification_chains[ch];
                            let ghost chv = crate::chains::mc_view(
                                var.modification_chains@,
                            )[ch as int];
                            assert(chv == (
                                chain.direct_modifier@,
                                chain.direct_modifier_visibility@,
                                crate::chains::fc_view(chain.call_chain@),
                            ));
                            let ghost e0 = ep_view(entries@);
                            let mut l: usize = 0;
                            while l < chain.call_chain.len()
                                invariant
                                    l <= chain.call_chain.len(),
                                    c < contracts@.len(),
                                    v < contract.state_variables@.len(),
                                    ch < var.modification_chains@.len(),
                                    contract == &contracts@[c as int],
                                    var == &contracts@[c as int].state_variables@[v as int],
                                    chain == &var.modification_chains@[ch as int],
                                    ep_links_spec(
                                        contract.name@,
                                        chain.direct_modifier@,
                                        crate::chains::fc_view(chain.call_chain@),
                                        l as int,
                                        ep_view(entries@),
                                    ) == ep_links_spec(
                                        contract.name@,
                                        chain.direct_modifier@,
                                        crate::chains::fc_view(chain.call_chain@),
                                        0,
                                        e0,
                                    ),
                                decreases chain.call_chain.len() - l,
                            {
                                let link = &chain.call_chain[l];
                                if crate::names::text_is(&link.visibility, "public")
                                    || crate::names::text_is(&link.visibility, "external") {
                                    push_unique_entry(
                                        &mut entries,
                                        (
                                            contract.name.clone(),
                                            link.function_name.clone(),
                                            chain.direct_modifier.clone(),
                                        ),
                                    );
                                }
                                l += 1;
                            }
                            if crate::names::text_is(&chain.direct_modifier_visibility, "public")
                                || crate::names::text_is(
                                &chain.direct_modifier_visibility,
                                "external",
                            ) {
                                push_unique_entry(
                                    &mut entries,
                                    (
                                        contract.name.clone(),
                                        chain.direct_modifier.clone(),
                                        chain.direct_modifier.clone(),
                                    ),
                                );
                            }
                            ch += 1;
                        }
                        if entries.len() >= 2 {
                            let ghost pre = usv_view(out@);
                            let ghost epv = ep_view(entries@);
                            out.push((contract.name.clone(), var.name.clone(), entries));
                            assert(usv_view(out@) =~= pre.push(
                                (
                                    contracts@[c as int].name@,
                                    contracts@[c as int].state_variables@[v as int].name@,
                                    epv,
                                ),
                            ));
                        }
                    }
                    v += 1;
                }
            }
            c += 1;
        }
        out
    }

    /// Build the cross-contract relationships of the classified external
    /// calls: exactly one relation per call whose target resolves to an
    /// analyzed contract and a function of it, in call order, carrying the
    /// target's own mutation facts and the other functions that touch the
    /// same state. A call whose target does not resolve is skipped silently.
    pub fn build_relationships(
        contracts: &Vec<ContractInfo>,
        external_calls: Vec<ExternalCall>,
    ) -> (r: Vec<ContractRelation>)
        ensures
            r@.len() == resolvable_calls(contracts@, external_calls@).len(),
            forall|x: int|
                0 <= x < r@.len() ==> relation_pinned(
                    contracts@,
                    resolvable_calls(contracts@, external_calls@)[x],
                    #[trigger] r@[x],
                ),
    {
        let mut relations: Vec<ContractRelation> = Vec::new();
        let mut calls = external_calls;
        let ghost all0 = calls@;
        let total = calls.len();
        let mut x: usize = 0;
        assert(resolvable_calls(contracts@, all0.take(0)) =~= Seq::<ExternalCall>::empty()) by {
            assert(all0.take(0) =~= Seq::<ExternalCall>::empty());
        }
        while calls.len() > 0
            invariant
                x <= all0.len(),
                total == all0.len(),
                x + calls@.len() == total,
                calls@ =~= all0.skip(x as int),
                relations@.len() == resolvable_calls(contracts@, all0.take(x as int)).len(),
                forall|y: int|
                    0 <= y < relations@.len() ==> relation_pinned(
                        contracts@,
                        resolvable_calls(contracts@, all0.take(x as int))[y],
                        #[trigger] relations@[y],
                    ),
            decreases calls.len(),
        {
            let ghost cpre = calls@;
            let call = calls.remove(0);
            assert(call == all0[x as int]);
            assert(calls@ =~= all0.skip(x + 1));
            assert(all0.take(x + 1).drop_last() =~= all0.take(x as int));
            assert(all0.take(x + 1).last() == all0[x as int]);
            relations = Self::push_relation(relations, call, contracts);
            x += 1;
        }
        assert(all0.take(all0.len() as int) =~= all0);
        relations
    }

    /// Append the relation of one call when its target resolves.
    fn push_relation(
        relations: Vec<ContractRelation>,
        call: ExternalCall,
        contracts: &Vec<ContractInfo>,
    ) -> (r: Vec<ContractRelation>)
        ensures
            forall|x: int| 0 <= x < relations@.len() ==> #[trigger] r@[x] == relations@[x],
            call_resolves(contracts@, call) ==> r@.len() == relations@.len() + 1
                && relation_pinned(contracts@, call, r@[relations@.len() as int]),
            !call_resolves(contracts@, call) ==> r@ == relations@,
    {
        let mut relations = relations;
        let tc_name = match &call.target_contract {
            Some(n) => n.clone(),
            None => {
                return relations;
            },
        };
        let tc = match crate::extcalls::find_contract(contracts, &tc_name) {
            Some(c) => c,
            None => {
                return relations;
            },
        };
        let target_func = match crate::extcalls::find_fn(&tc.functions, &call.target_function) {
            Some(f) => f,
            None => {
                return relations;
            },
        };
        let modified_variables = crate::analyzer::dup_names(&target_func.modifies_states);
        let mut modified_fields: Vec<FieldPath> = Vec::new();
        let mut p: usize = 0;
        while p < target_func.modifies_state_fields.len()
            invariant
                p <= target_func.modifies_state_fields.len(),
                modified_fields@.len() == p,
                forall|q: int|
                    0 <= q < p ==> #[trigger] crate::models::paths_of(modified_fields@)[q]
                        == crate::models::paths_of(target_func.modifies_state_fields@)[q],
            decreases target_func.modifies_state_fields.len() - p,
        {
            let ghost pre = crate::models::paths_of(modified_fields@);
            modified_fields.push(target_func.modifies_state_fields[p].dup());
            assert(crate::models::paths_of(modified_fields@) =~= pre.push(
                target_func.modifies_state_fields@[p as int]@,
            ));
            p += 1;
        }
        assert(crate::models::paths_of(modified_fields@) =~= crate::models::paths_of(
            target_func.modifies_state_fields@,
        ));
        let other_modifiers = find_other_modifiers(
            &modified_variables,
            &call.target_function,
            tc,
        );
        let full_call_chain = Self::build_full_chain_with_modifications(target_func, tc);
        relations.push(
            ContractRelation {
                external_call: call,
                modified_variables,
                modified_fields,
                other_modifiers,
                full_call_chain,
            },
        );
        relations
    }

    /// The names and kinds of the chain's steps: one internal step per
    /// reachable function, in declaration order, then one step per external
    /// call, resolved or not.
    pub open spec fn chain_sketch_internal(
        fns: Seq<FunctionDef>,
        fname: Seq<char>,
        closure: Seq<Seq<char>>,
        k: int,
    ) -> Seq<(Seq<char>, CallType)>
        decreases fns.len() - k,
    {
        if k < 0 || k >= fns.len() {
            Seq::empty()
        } else {
            let rest = Self::chain_sketch_internal(fns, fname, closure, k + 1);
            if fns[k].name@ != fname && closure.contains(fns[k].name@) {
                seq![(fns[k].name@, CallType::Internal)] + rest
            } else {
                rest
            }
        }
    }

    /// The names and kinds of the chain's external steps.
    pub open spec fn chain_sketch_external(calls: Seq<ExternalCall>) -> Seq<(Seq<char>, CallType)> {
        Seq::new(
            calls.len(),
            |e: int|
                (
                    calls[e].target_function@,
                    if calls[e].target_contract is Some {
                        CallType::External
                    } else {
                        CallType::ExternalUnresolved
                    },
                ),
        )
    }

    /// The names and kinds of a chain's steps.
    pub open spec fn steps_sketch(s: Seq<CallChainStep>) -> Seq<(Seq<char>, CallType)> {
        s.map_values(|st: CallChainStep| (st.function_name@, st.call_type))
    }

    /// Build the call chain below one function: one internal step per
    /// function it can reach through internal calls, in declaration order,
    /// each with everything that step and its own callees can mutate; then
    /// one external step per external call the function makes, resolved when
    /// the classifier matched a contract.
    pub fn build_full_chain_with_modifications(
        func: &FunctionDef,
        contract: &ContractInfo,
    ) -> (r: Vec<CallChainStep>)
        ensures
            Self::steps_sketch(r@) == Self::chain_sketch_internal(
                contract.functions@,
                func.name@,
                callees_closure_spec(func.name@, call_graph_spec(contract.functions@, 0)),
                0,
            ) + Self::chain_sketch_external(func.external_calls@),
    {
        let graph = build_call_graph(&contract.functions);
        let closure = callees_closure(&func.name, &graph);
        let ghost clv = callees_closure_spec(func.name@, call_graph_spec(contract.functions@, 0));
        let mut chain: Vec<CallChainStep> = Vec::new();
        assert(Self::steps_sketch(chain@) =~= Seq::<(Seq<char>, CallType)>::empty());
        let mut k: usize = 0;
        while k < contract.functions.len()
            invariant
                k <= contract.functions.len(),
                names_of(closure@) == clv,
                Self::steps_sketch(chain@) + Self::chain_sketch_internal(
                    contract.functions@,
                    func.name@,
                    clv,
                    k as int,
                ) =~= Self::chain_sketch_internal(contract.functions@, func.name@, clv, 0),
            decreases contract.functions.len() - k,
        {
            let g = &contract.functions[k];
            if !g.name.eq(&func.name) && contains_name(&closure, &g.name) {
                let mut all_mods = crate::analyzer::dup_names(&g.modifies_states);
                Self::collect_all_modifications(g, contract, &mut all_mods);
                let other_modifiers = find_other_modifiers(&all_mods, &g.name, contract);
                let modified_fields = Self::resolve_storage_param_fields(
                    &g.modifies_state_fields,
                    func,
                    contract,
                );
                let ghost pre = Self::steps_sketch(chain@);
                chain.push(
                    CallChainStep {
                        function_name: g.name.clone(),
                        call_type: CallType::Internal,
                        modified_variables: all_mods,
                        modified_fields,
                        other_modifiers,
                        target_info: None,
                    },
                );
                assert(Self::steps_sketch(chain@) =~= pre.push(
                    (contract.functions@[k as int].name@, CallType::Internal),
                ));
            }
            k += 1;
        }
        let ghost internal_done = Self::steps_sketch(chain@);
        let mut e: usize = 0;
        while e < func.external_calls.len()
            invariant
                e <= func.external_calls.len(),
                Self::steps_sketch(chain@) =~= internal_done + Self::chain_sketch_external(
                    func.external_calls@,
                ).take(e as int),
                internal_done == Self::chain_sketch_internal(
                    contract.functions@,
                    func.name@,
                    callees_closure_spec(func.name@, call_graph_spec(contract.functions@, 0)),
                    0,
                ),
            decreases func.external_calls.len() - e,
        {
            let ec = &func.external_calls[e];
            let resolved = ec.target_contract.is_some();
            let ghost pre = Self::steps_sketch(chain@);
            chain.push(
                CallChainStep {
                    function_name: ec.target_function.clone(),
                    call_type: if resolved {
                        CallType::External
                    } else {
                        CallType::ExternalUnresolved
                    },
                    modified_variables: crate::analyzer::dup_names(&ec.target_modifies_states),
                    modified_fields: Vec::new(),
                    other_modifiers: Vec::new(),
                    target_info: Some(
                        ExternalCallInfo {
                            target_variable: ec.target_variable.clone(),
                            target_type: ec.target_type.clone(),
                            target_contract: match &ec.target_contract {
                                Some(n) => Some(n.clone()),
                                None => None,
                            },
                            state_mutability: ec.state_mutability.clone(),
                        },
                    ),
                },
            );
            assert(Self::steps_sketch(chain@) =~= pre.push(
                Self::chain_sketch_external(func.external_calls@)[e as int],
            ));
            e += 1;
        }
        assert(Self::chain_sketch_external(func.external_calls@).take(
            func.external_calls@.len() as int,
        ) =~= Self::chain_sketch_external(func.external_calls@));
        chain
    }
}

} // verus!
