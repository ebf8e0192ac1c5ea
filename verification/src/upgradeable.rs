//! The namespaced-storage resolver: once a contract is known to follow the
//! annotated storage-struct convention, mutation paths that were left rooted
//! at the storage struct are rewritten to the struct field they touch, the
//! resolved field names join the coarse mutation sets, and each struct field
//! becomes a synthetic state variable tracked like any declared one.

use vstd::prelude::*;
use crate::models::{
    ContractInfo, FieldPath, FieldPathV, FunctionDef, PathBase, PathBaseV, StateVariable,
    StructMember, UpgradeableStorage, group_paths_axioms, paths_of,
};
use crate::names::{names_of, push_unique, push_unique_spec};

verus! {

broadcast use crate::names::group_names_axioms, group_paths_axioms;

/// Rewrite one pending storage-struct path: its first field becomes the root.
pub open spec fn resolve_path(p: FieldPathV) -> FieldPathV {
    match p.base {
        PathBaseV::PendingStorageStruct => if p.fields.len() > 0 {
            FieldPathV { base: PathBaseV::Resolved(p.fields[0]), fields: p.fields.skip(1) }
        } else {
            p
        },
        _ => p,
    }
}

/// Rewrite every pending storage-struct path of a function; a pending path
/// without fields (a write to the whole struct, naming no field) is dropped,
/// so no storage-struct marker survives the resolution.
pub open spec fn resolve_paths_spec(paths: Seq<FieldPathV>) -> Seq<FieldPathV>
    decreases paths.len(),
{
    if paths.len() == 0 {
        Seq::empty()
    } else {
        let r = resolve_paths_spec(paths.drop_last());
        let p = paths.last();
        match p.base {
            PathBaseV::PendingStorageStruct => if p.fields.len() > 0 {
                r.push(resolve_path(p))
            } else {
                r
            },
            _ => r.push(p),
        }
    }
}

/// No resolved path roots at the storage struct: the resolution rewrites or
/// drops every pending storage-struct path.
pub proof fn lemma_resolved_paths_no_marker(paths: Seq<FieldPathV>, q: int)
    requires
        0 <= q < resolve_paths_spec(paths).len(),
    ensures
        !(resolve_paths_spec(paths)[q].base is PendingStorageStruct),
    decreases paths.len(),
{
    if paths.len() > 0 {
        let r = resolve_paths_spec(paths.drop_last());
        if q < r.len() {
            lemma_resolved_paths_no_marker(paths.drop_last(), q);
        }
    }
}

/// The base names the resolution adds to the coarse mutation set: the first
/// field of every pending storage-struct path, in order, without duplicates.
pub open spec fn resolved_bases_spec(paths: Seq<FieldPathV>, i: int, acc: Seq<Seq<char>>) -> Seq<
    Seq<char>,
>
    decreases paths.len() - i,
{
    if i < 0 || i >= paths.len() {
        acc
    } else {
        let acc1 = match paths[i].base {
            PathBaseV::PendingStorageStruct => if paths[i].fields.len() > 0 {
                push_unique_spec(acc, paths[i].fields[0])
            } else {
                acc
            },
            _ => acc,
        };
        resolved_bases_spec(paths, i + 1, acc1)
    }
}

/// Whether two function records agree on every field except the mutation
/// sets.
pub open spec fn same_but_mutation_sets(a: FunctionDef, b: FunctionDef) -> bool {
    &&& a.name == b.name
    &&& a.visibility == b.visibility
    &&& a.state_mutability == b.state_mutability
    &&& a.parameters == b.parameters
    &&& a.returns == b.returns
    &&& a.line_number == b.line_number
    &&& a.reads_states == b.reads_states
    &&& a.calls_functions == b.calls_functions
    &&& a.external_calls == b.external_calls
    &&& a.storage_params == b.storage_params
    &&& a.uses_modifiers == b.uses_modifiers
    &&& a.modifier_order == b.modifier_order
    &&& a.emits_events == b.emits_events
    &&& a.uses_errors == b.uses_errors
    &&& a.has_unchecked == b.has_unchecked
    &&& a.return_value_usage == b.return_value_usage
    &&& a.ignored_returns == b.ignored_returns
}

/// Resolve the pending storage-struct paths of every function: rewrite each
/// to its field name and add that name to the function's coarse mutation set.
/// A contract without the namespaced-storage pattern is left untouched.
pub fn resolve_storage_struct_fields(contract_info: &mut ContractInfo)
    ensures
        old(contract_info).upgradeable_storage is None ==> *final(contract_info) == *old(contract_info),
        final(contract_info).upgradeable_storage == old(contract_info).upgradeable_storage,
        final(contract_info).name == old(contract_info).name,
        final(contract_info).file_path == old(contract_info).file_path,
        final(contract_info).state_variables == old(contract_info).state_variables,
        final(contract_info).structs == old(contract_info).structs,
        final(contract_info).enums == old(contract_info).enums,
        final(contract_info).events == old(contract_info).events,
        final(contract_info).modifiers == old(contract_info).modifiers,
        final(contract_info).errors == old(contract_info).errors,
        final(contract_info).dataflow_analysis == old(contract_info).dataflow_analysis,
        final(contract_info).functions@.len() == old(contract_info).functions@.len(),
        forall|k: int|
            0 <= k < old(contract_info).functions@.len() ==> same_but_mutation_sets(
                old(contract_info).functions@[k],
                #[trigger] final(contract_info).functions@[k],
            ),
        old(contract_info).upgradeable_storage is Some ==> forall|k: int|
            0 <= k < old(contract_info).functions@.len() ==> paths_of(
                #[trigger] final(contract_info).functions@[k].modifies_state_fields@,
            ) == resolve_paths_spec(paths_of(old(contract_info).functions@[k].modifies_state_fields@))
                && names_of(final(contract_info).functions@[k].modifies_states@)
                == resolved_bases_spec(
                paths_of(old(contract_info).functions@[k].modifies_state_fields@),
                0,
                names_of(old(contract_info).functions@[k].modifies_states@),
            ),
        old(contract_info).upgradeable_storage is None ==> forall|k: int|
            0 <= k < old(contract_info).functions@.len()
                ==> #[trigger] final(contract_info).functions@[k] == old(contract_info).functions@[k],
{
    if contract_info.upgradeable_storage.is_none() {
        return ;
    }
    let n = contract_info.functions.len();
    let mut k: usize = 0;
    while k < n
        invariant
            k <= n,
            contract_info.functions@.len() == n,
            n == old(contract_info).functions@.len(),
            contract_info.name == old(contract_info).name,
            contract_info.file_path == old(contract_info).file_path,
            contract_info.state_variables == old(contract_info).state_variables,
            contract_info.structs == old(contract_info).structs,
            contract_info.enums == old(contract_info).enums,
            contract_info.events == old(contract_info).events,
            contract_info.modifiers == old(contract_info).modifiers,
            contract_info.errors == old(contract_info).errors,
            contract_info.upgradeable_storage == old(contract_info).upgradeable_storage,
            contract_info.dataflow_analysis == old(contract_info).dataflow_analysis,
            forall|j: int|
                0 <= j < k ==> same_but_mutation_sets(
                    old(contract_info).functions@[j],
                    #[trigger] contract_info.functions@[j],
                ),
            forall|j: int|
                0 <= j < k ==> paths_of(
                    #[trigger] contract_info.functions@[j].modifies_state_fields@,
                ) == resolve_paths_spec(
                    paths_of(old(contract_info).functions@[j].modifies_state_fields@),
                ),
            forall|j: int|
                0 <= j < k ==> names_of(#[trigger] contract_info.functions@[j].modifies_states@)
                    == resolved_bases_spec(
                    paths_of(old(contract_info).functions@[j].modifies_state_fields@),
                    0,
                    names_of(old(contract_info).functions@[j].modifies_states@),
                ),
            forall|j: int|
                k <= j < n ==> contract_info.functions@[j] == old(contract_info).functions@[j],
        decreases n - k,
    {
        let ghost fpre = contract_info.functions@;
        let mut fd = contract_info.functions.remove(k);
        let ghost paths0 = paths_of(fd.modifies_state_fields@);
        let ghost mods0 = names_of(fd.modifies_states@);

        let mut new_paths: Vec<FieldPath> = Vec::new();
        let mut i: usize = 0;
        assert(paths_of(new_paths@) =~= resolve_paths_spec(paths0.take(0))) by {
            assert(paths0.take(0) =~= Seq::<FieldPathV>::empty());
        }
        while i < fd.modifies_state_fields.len()
            invariant
                i <= fd.modifies_state_fields.len(),
                k < n,
                n == old(contract_info).functions@.len(),
                same_but_mutation_sets(old(contract_info).functions@[k as int], fd),
                paths0 == paths_of(fd.modifies_state_fields@),
                paths0 == paths_of(old(contract_info).functions@[k as int].modifies_state_fields@),
                mods0 == names_of(old(contract_info).functions@[k as int].modifies_states@),
                paths_of(new_paths@) == resolve_paths_spec(paths0.take(i as int)),
                resolved_bases_spec(paths0, i as int, names_of(fd.modifies_states@))
                    == resolved_bases_spec(paths0, 0, mods0),
            decreases fd.modifies_state_fields.len() - i,
        {
            let p = &fd.modifies_state_fields[i];
            let ghost prepaths = paths_of(new_paths@);
            assert(paths0.take(i + 1).drop_last() =~= paths0.take(i as int));
            assert(paths0.take(i + 1).last() == paths0[i as int]);
            let is_pending = match &p.base {
                PathBase::PendingStorageStruct => true,
                _ => false,
            };
            if is_pending && p.fields.len() > 0 {
                let base_field = p.fields[0].clone();
                let rest = crate::analyzer::tail_of(&p.fields);
                new_paths.push(FieldPath { base: PathBase::Resolved(base_field.clone()), fields: rest });
                push_unique(&mut fd.modifies_states, base_field);
                assert(paths_of(new_paths@) =~= prepaths.push(resolve_path(paths0[i as int])));
            } else if is_pending {
                // a whole-struct write names no field: the marker is dropped
            } else {
                new_paths.push(
                    FieldPath {
                        base: match &p.base {
                            PathBase::Resolved(s) => PathBase::Resolved(s.clone()),
                            PathBase::PendingParam(x) => PathBase::PendingParam(*x),
                            PathBase::PendingStorageStruct => PathBase::PendingStorageStruct,
                        },
                        fields: crate::analyzer::dup_names(&p.fields),
                    },
                );
                assert(paths_of(new_paths@) =~= prepaths.push(paths0[i as int]));
            }
            i += 1;
        }
        assert(paths0.take(fd.modifies_state_fields@.len() as int) =~= paths0);
        assert(paths_of(new_paths@) == resolve_paths_spec(paths0));
        fd.modifies_state_fields = new_paths;
        let ghost fdg = fd;
        contract_info.functions.insert(k, fd);
        assert(contract_info.functions@ =~= fpre.update(k as int, fdg));
        k += 1;
    }
    assert(forall|kk: int|
        0 <= kk < old(contract_info).functions@.len() ==> paths_of(
            #[trigger] contract_info.functions@[kk].modifies_state_fields@,
        ) == resolve_paths_spec(
            paths_of(old(contract_info).functions@[kk].modifies_state_fields@),
        ));
    assert(forall|kk: int|
        0 <= kk < old(contract_info).functions@.len() ==> names_of(
            #[trigger] contract_info.functions@[kk].modifies_states@,
        ) == resolved_bases_spec(
            paths_of(old(contract_info).functions@[kk].modifies_state_fields@),
            0,
            names_of(old(contract_info).functions@[kk].modifies_states@),
        ));
}

/// The synthetic state variables of the storage struct: one per field, typed
/// with an upgradeable-storage marker, private, with the modification chains
/// computed over the final functions.
pub open spec fn virtual_vars_spec(
    us: UpgradeableStorage,
    fns: Seq<FunctionDef>,
) -> Seq<crate::models::StateVariableV> {
    Seq::new(
        us.struct_fields@.len(),
        |i: int|
            crate::models::StateVariableV {
                name: us.struct_fields@[i].name@,
                var_type: us.struct_fields@[i].member_type@ + " (upgradeable storage)"@,
                visibility: "private"@,
                is_constant: false,
                is_immutable: false,
                line_number: us.line_number as int,
                modification_chains: crate::chains::chains_spec(
                    fns,
                    us.struct_fields@[i].name@,
                    0,
                ),
                read_chains: Seq::empty(),
            },
    )
}

/// Synthesize one state variable per storage-struct field, each with its own
/// modification chains, so downstream chain consumers treat the namespaced
/// fields like declared storage.
pub fn create_virtual_state_variables(contract_info: &mut ContractInfo)
    ensures
        final(contract_info).name == old(contract_info).name,
        final(contract_info).file_path == old(contract_info).file_path,
        final(contract_info).functions == old(contract_info).functions,
        final(contract_info).structs == old(contract_info).structs,
        final(contract_info).enums == old(contract_info).enums,
        final(contract_info).events == old(contract_info).events,
        final(contract_info).modifiers == old(contract_info).modifiers,
        final(contract_info).errors == old(contract_info).errors,
        final(contract_info).upgradeable_storage == old(contract_info).upgradeable_storage,
        final(contract_info).dataflow_analysis == old(contract_info).dataflow_analysis,
        match old(contract_info).upgradeable_storage {
            Some(us) => final(contract_info).state_variables@.len() == old(contract_info).state_variables@.len() + us.struct_fields@.len() && (forall|v: int|
                0 <= v < old(contract_info).state_variables@.len()
                    ==> #[trigger] final(contract_info).state_variables@[v] == old(contract_info).state_variables@[v]) && (forall|x: int|
                old(contract_info).state_variables@.len() <= x < final(contract_info).state_variables@.len() ==> (#[trigger] final(contract_info).state_variables@[x])@
                    == virtual_vars_spec(us, old(contract_info).functions@)[x - old(contract_info).state_variables@.len()]),
            None => final(contract_info).state_variables == old(contract_info).state_variables,
        },
{
    broadcast use crate::models::group_svars_axioms;

    let us = match &contract_info.upgradeable_storage {
        Some(us) => us,
        None => {
            return ;
        },
    };
    let nfields = us.struct_fields.len();
    let line = us.line_number;
    let ghost usg = *us;
    let mut i: usize = 0;
    while i < nfields
        invariant
            i <= nfields,
            contract_info.upgradeable_storage == old(contract_info).upgradeable_storage,
            contract_info.upgradeable_storage matches Some(u) && u == usg,
            nfields == usg.struct_fields@.len(),
            line == usg.line_number,
            contract_info.name == old(contract_info).name,
            contract_info.file_path == old(contract_info).file_path,
            contract_info.functions == old(contract_info).functions,
            contract_info.structs == old(contract_info).structs,
            contract_info.enums == old(contract_info).enums,
            contract_info.events == old(contract_info).events,
            contract_info.modifiers == old(contract_info).modifiers,
            contract_info.errors == old(contract_info).errors,
            contract_info.dataflow_analysis == old(contract_info).dataflow_analysis,
            contract_info.state_variables@.len() == old(contract_info).state_variables@.len()
                + i,
            forall|v: int|
                0 <= v < old(contract_info).state_variables@.len()
                    ==> #[trigger] contract_info.state_variables@[v] == old(contract_info).state_variables@[v],
            forall|x: int|
                old(contract_info).state_variables@.len() <= x
                    < contract_info.state_variables@.len()
                    ==> (#[trigger] contract_info.state_variables@[x])@ == virtual_vars_spec(
                    usg,
                    old(contract_info).functions@,
                )[x - old(contract_info).state_variables@.len()],
        decreases nfields - i,
    {
        let (field_name, field_type) = match &contract_info.upgradeable_storage {
            Some(u) => (u.struct_fields[i].name.clone(), u.struct_fields[i].member_type.clone()),
            None => {
                proof {
                    assert(false);
                }
                (String::new(), String::new())
            },
        };
        let chains = crate::chains::build_modification_chains(
            &field_name,
            &contract_info.functions,
        );
        let ghost pre = crate::models::svars_of(contract_info.state_variables@);
        let sv = StateVariable {
            name: field_name,
            var_type: field_type.concat(" (upgradeable storage)"),
            visibility: String::from_str("private"),
            is_constant: false,
            is_immutable: false,
            line_number: line,
            modification_chains: chains,
            read_chains: Vec::new(),
        };
        assert(crate::chains::mc_view(Seq::<crate::models::ModificationChain>::empty())
            =~= Seq::<(Seq<char>, Seq<char>, Seq<(Seq<char>, Seq<char>)>)>::empty());
        let ghost svv = sv@;
        contract_info.state_variables.push(sv);
        assert(svv == virtual_vars_spec(usg, old(contract_info).functions@)[i as int]);
        i += 1;
    }
}

} // verus!
