use sol_analyzer::analyzer::StateModificationAnalyzer;
use sol_analyzer::ast::{AssignOp, ContractAst, Expr, FunctionNode, ParamNode, Stmt, VarDeclNode};
use sol_analyzer::models::{ContractInfo, FieldPath, FunctionDef, PathBase, StateVariable};
use sol_analyzer::parser::SolidityParser;

fn fresh_function(name: &str, visibility: &str) -> FunctionDef {
    FunctionDef {
        name: name.to_string(),
        visibility: visibility.to_string(),
        state_mutability: "nonpayable".to_string(),
        parameters: Vec::new(),
        returns: Vec::new(),
        line_number: 1,
        modifies_states: Vec::new(),
        modifies_state_fields: Vec::new(),
        reads_states: Vec::new(),
        calls_functions: Vec::new(),
        external_calls: Vec::new(),
        storage_params: Vec::new(),
        uses_modifiers: Vec::new(),
        modifier_order: Vec::new(),
        emits_events: Vec::new(),
        uses_errors: Vec::new(),
        has_unchecked: false,
        return_value_usage: Vec::new(),
        ignored_returns: Vec::new(),
    }
}

fn fresh_state_var(name: &str) -> StateVariable {
    StateVariable {
        name: name.to_string(),
        var_type: "uint256".to_string(),
        visibility: "private".to_string(),
        is_constant: false,
        is_immutable: false,
        line_number: 1,
        modification_chains: Vec::new(),
        read_chains: Vec::new(),
    }
}

fn fresh_contract(name: &str) -> ContractInfo {
    ContractInfo {
        name: name.to_string(),
        file_path: "Demo.sol".to_string(),
        state_variables: Vec::new(),
        structs: Vec::new(),
        enums: Vec::new(),
        events: Vec::new(),
        functions: Vec::new(),
        modifiers: Vec::new(),
        errors: Vec::new(),
        upgradeable_storage: None,
        dataflow_analysis: None,
    }
}

fn var(name: &str) -> Expr {
    Expr::Variable(name.to_string())
}

fn assign(lhs: Expr, rhs: Expr) -> Stmt {
    Stmt::Expression(Expr::Assign(AssignOp::Assign, Box::new(lhs), Box::new(rhs)))
}

fn call_stmt(callee: &str, args: Vec<Expr>) -> Stmt {
    Stmt::Expression(Expr::FunctionCall(Box::new(var(callee)), args))
}

fn body(statements: Vec<Stmt>) -> Option<Stmt> {
    Some(Stmt::Block { unchecked: false, statements })
}

fn node(name: &str, params: Vec<ParamNode>, b: Option<Stmt>) -> FunctionNode {
    FunctionNode { name: name.to_string(), is_modifier: false, params, body: b }
}

fn storage_param(name: &str) -> ParamNode {
    ParamNode { name: name.to_string(), is_storage_ref: true }
}

#[test]
fn unconditional_assignment_is_recorded() {
    let mut info = fresh_contract("Counter");
    info.state_variables.push(fresh_state_var("total"));
    info.functions.push(fresh_function("bump", "private"));
    info.functions.push(fresh_function("outer", "public"));
    let ast = ContractAst {
        functions: vec![
            node("bump", Vec::new(), body(vec![assign(var("total"), Expr::Literal)])),
            node("outer", Vec::new(), body(vec![call_stmt("bump", Vec::new())])),
        ],
        variables: Vec::new(),
    };
    StateModificationAnalyzer::analyze(&mut info, &ast);
    assert!(info.functions[0].modifies_states.contains(&"total".to_string()));
    assert!(info.functions[1].calls_functions.contains(&"bump".to_string()));
}

#[test]
fn modification_chain_holds_direct_modifier_and_caller() {
    let mut info = fresh_contract("Counter");
    info.state_variables.push(fresh_state_var("total"));
    info.functions.push(fresh_function("bump", "private"));
    info.functions.push(fresh_function("outer", "public"));
    let ast = ContractAst {
        functions: vec![
            node("bump", Vec::new(), body(vec![assign(var("total"), Expr::Literal)])),
            node("outer", Vec::new(), body(vec![call_stmt("bump", Vec::new())])),
        ],
        variables: Vec::new(),
    };
    StateModificationAnalyzer::analyze(&mut info, &ast);
    let chains = &info.state_variables[0].modification_chains;
    assert_eq!(chains.len(), 1);
    assert_eq!(chains[0].direct_modifier, "bump");
    assert_eq!(chains[0].direct_modifier_visibility, "private");
    assert!(chains[0].call_chain.iter().any(|c| c.function_name == "outer"));
}

#[test]
fn storage_param_mutation_propagates_to_caller() {
    // top passes the state variable `data` into a helper that mutates its
    // storage parameter through one more level of indirection.
    let mut info = fresh_contract("Vault");
    let mut sv = fresh_state_var("data");
    sv.var_type = "Slot".to_string();
    info.state_variables.push(sv);
    info.functions.push(fresh_function("top", "public"));
    info.functions.push(fresh_function("level0", "internal"));
    info.functions.push(fresh_function("level1", "internal"));
    let ast = ContractAst {
        functions: vec![
            node("top", Vec::new(), body(vec![call_stmt("level0", vec![var("data")])])),
            node(
                "level0",
                vec![storage_param("s")],
                body(vec![call_stmt("level1", vec![var("s")])]),
            ),
            node(
                "level1",
                vec![storage_param("s")],
                body(vec![assign(
                    Expr::MemberAccess(Box::new(var("s")), "x".to_string()),
                    Expr::Literal,
                )]),
            ),
        ],
        variables: Vec::new(),
    };
    StateModificationAnalyzer::analyze(&mut info, &ast);
    assert!(info.functions[0].modifies_states.contains(&"data".to_string()));
    // the mutation through the parameter is recorded as a pending path
    assert!(info.functions[2]
        .modifies_state_fields
        .iter()
        .any(|p| matches!(p.base, PathBase::PendingParam(0))));
}

#[test]
fn deep_storage_param_chain_under_approximates() {
    // a chain deeper than the round cap terminates and simply misses the
    // outermost caller, instead of diverging
    let depth = 14usize;
    let mut info = fresh_contract("Deep");
    let mut sv = fresh_state_var("data");
    sv.var_type = "Slot".to_string();
    info.state_variables.push(sv);
    info.functions.push(fresh_function("top", "public"));
    let mut nodes = Vec::new();
    nodes.push(node("top", Vec::new(), body(vec![call_stmt("hop0", vec![var("data")])])));
    for i in 0..depth {
        let name = format!("hop{}", i);
        info.functions.push(fresh_function(&name, "internal"));
        let b = if i + 1 < depth {
            body(vec![call_stmt(&format!("hop{}", i + 1), vec![var("s")])])
        } else {
            body(vec![assign(
                Expr::MemberAccess(Box::new(var("s")), "x".to_string()),
                Expr::Literal,
            )])
        };
        nodes.push(node(&name, vec![storage_param("s")], b));
    }
    let ast = ContractAst { functions: nodes, variables: Vec::new() };
    StateModificationAnalyzer::analyze(&mut info, &ast);
    // hop0 never learns of the mutation 14 levels down within 10 rounds,
    // so top cannot gain `data`
    assert!(!info.functions[0].modifies_states.contains(&"data".to_string()));
}

#[test]
fn upgradeable_storage_fields_become_virtual_state() {
    let mut info = fresh_contract("Vault");
    info.structs.push(sol_analyzer::models::StructDef {
        name: "VaultStorage".to_string(),
        members: vec![
            sol_analyzer::models::StructMember {
                name: "a".to_string(),
                member_type: "uint256".to_string(),
            },
            sol_analyzer::models::StructMember {
                name: "b".to_string(),
                member_type: "uint256".to_string(),
            },
        ],
        line_number: 4,
        storage_location: Some("erc7201:demo.storage.Vault".to_string()),
    });
    info.functions.push(fresh_function("setA", "public"));
    let mut accessor = fresh_function("_getVaultStorage", "private");
    accessor.visibility = "private".to_string();
    info.functions.push(accessor);
    let ast = ContractAst {
        functions: vec![
            node(
                "setA",
                Vec::new(),
                body(vec![
                    Stmt::VariableDefinition(
                        Some("$".to_string()),
                        Some(Expr::FunctionCall(Box::new(var("_getVaultStorage")), Vec::new())),
                    ),
                    assign(
                        Expr::MemberAccess(Box::new(var("$")), "a".to_string()),
                        Expr::Literal,
                    ),
                ]),
            ),
            node("_getVaultStorage", Vec::new(), body(Vec::new())),
        ],
        variables: vec![VarDeclNode {
            name: "VaultStorageLocation".to_string(),
            declared_type: "bytes32".to_string(),
            is_constant: true,
            initializer_value: "0x52c63247e1f47db19d5ce0460030c497f067ca4cebf71ba98eeadabe20bace00"
                .to_string(),
        }],
    };
    let us = SolidityParser::detect_upgradeable_storage(&info, &ast)
        .expect("the annotated struct, constant and accessor are all present");
    assert_eq!(us.namespace, "demo.storage.Vault");
    assert_eq!(us.storage_struct, "VaultStorage");
    assert_eq!(us.accessor_function, "_getVaultStorage");
    assert_eq!(us.storage_location_constant, "VaultStorageLocation");
    info.upgradeable_storage = Some(us);

    StateModificationAnalyzer::analyze(&mut info, &ast);

    // the struct fields became virtual state variables
    let a = info
        .state_variables
        .iter()
        .find(|v| v.name == "a")
        .expect("field a is tracked as state");
    assert!(a.var_type.contains("(upgradeable storage)"));
    assert!(a
        .modification_chains
        .iter()
        .any(|c| c.direct_modifier == "setA"));
    // no residual storage-struct markers anywhere in the final model
    for f in &info.functions {
        for p in &f.modifies_state_fields {
            assert!(!matches!(p.base, PathBase::PendingStorageStruct));
        }
    }
    // the coarse set of setA gained the resolved field
    assert!(info.functions[0].modifies_states.contains(&"a".to_string()));
}

#[test]
fn events_errors_and_modifier_lookups_are_filled() {
    let mut info = fresh_contract("Events");
    info.state_variables.push(fresh_state_var("total"));
    info.events.push(sol_analyzer::models::EventDef {
        name: "Bumped".to_string(),
        parameters: Vec::new(),
        line_number: 2,
        emitted_in: Vec::new(),
    });
    info.functions.push(fresh_function("bump", "public"));
    let ast = ContractAst {
        functions: vec![node(
            "bump",
            Vec::new(),
            body(vec![
                assign(var("total"), Expr::Literal),
                Stmt::Emit(Expr::FunctionCall(Box::new(var("Bumped")), Vec::new())),
                Stmt::Revert(Some("NotAllowed".to_string()), Vec::new()),
            ]),
        )],
        variables: Vec::new(),
    };
    StateModificationAnalyzer::analyze(&mut info, &ast);
    assert_eq!(info.events[0].emitted_in, vec!["bump".to_string()]);
    // NotAllowed is not declared locally, so it is recorded as inherited
    let inherited = info
        .errors
        .iter()
        .find(|e| e.name == "NotAllowed")
        .expect("the raised error is recorded");
    assert!(inherited.is_inherited);
    assert!(inherited.used_in.contains(&"bump".to_string()));
}

#[test]
fn external_call_classification_resolves_interface_names() {
    let mut token = fresh_contract("Token");
    let mut transfer = fresh_function("transfer", "external");
    transfer.state_mutability = "nonpayable".to_string();
    transfer.modifies_states.push("balances".to_string());
    token.functions.push(transfer);

    let mut pool = fresh_contract("Pool");
    pool.functions.push(fresh_function("sweep", "public"));
    let ast = ContractAst {
        functions: vec![node(
            "sweep",
            Vec::new(),
            body(vec![Stmt::Expression(Expr::FunctionCall(
                Box::new(Expr::MemberAccess(
                    Box::new(var("stakingToken")),
                    "transfer".to_string(),
                )),
                vec![var("amount")],
            ))]),
        )],
        variables: vec![VarDeclNode {
            name: "stakingToken".to_string(),
            declared_type: "IToken".to_string(),
            is_constant: false,
            initializer_value: String::new(),
        }],
    };
    let all = vec![token, fresh_contract("Pool")];
    let calls = sol_analyzer::extcalls::detect_external_calls(&mut pool, &ast, &all);
    assert_eq!(calls.len(), 1);
    assert_eq!(calls[0].target_variable, "stakingToken");
    assert_eq!(calls[0].target_type, "IToken");
    assert_eq!(calls[0].target_function, "transfer");
    assert_eq!(calls[0].target_contract, Some("Token".to_string()));
    assert_eq!(calls[0].state_mutability, "nonpayable");
    assert_eq!(calls[0].target_modifies_states, vec!["balances".to_string()]);
    assert_eq!(pool.functions[0].external_calls.len(), 1);
}

#[test]
fn relationships_link_resolved_calls() {
    let mut token = fresh_contract("Token");
    let mut transfer = fresh_function("transfer", "external");
    transfer.modifies_states.push("balances".to_string());
    token.functions.push(transfer);
    let mut mint = fresh_function("mint", "public");
    mint.modifies_states.push("balances".to_string());
    token.functions.push(mint);

    let mut pool = fresh_contract("Pool");
    pool.functions.push(fresh_function("sweep", "public"));
    let ast = ContractAst {
        functions: vec![node(
            "sweep",
            Vec::new(),
            body(vec![Stmt::Expression(Expr::FunctionCall(
                Box::new(Expr::MemberAccess(
                    Box::new(var("stakingToken")),
                    "transfer".to_string(),
                )),
                Vec::new(),
            ))]),
        )],
        variables: vec![VarDeclNode {
            name: "stakingToken".to_string(),
            declared_type: "IToken".to_string(),
            is_constant: false,
            initializer_value: String::new(),
        }],
    };
    let all = vec![token];
    let calls = sol_analyzer::extcalls::detect_external_calls(&mut pool, &ast, &all);
    let relations =
        sol_analyzer::relations::RelationshipBuilder::build_relationships(&all, calls);
    assert_eq!(relations.len(), 1);
    assert_eq!(relations[0].modified_variables, vec!["balances".to_string()]);
    assert!(relations[0].other_modifiers.contains(&"mint".to_string()));
}

#[test]
fn call_graph_queries_find_writers_and_chains() {
    let mut info = fresh_contract("Counter");
    info.state_variables.push(fresh_state_var("total"));
    info.functions.push(fresh_function("bump", "private"));
    info.functions.push(fresh_function("outer", "public"));
    let ast = ContractAst {
        functions: vec![
            node("bump", Vec::new(), body(vec![assign(var("total"), Expr::Literal)])),
            node("outer", Vec::new(), body(vec![call_stmt("bump", Vec::new())])),
        ],
        variables: Vec::new(),
    };
    StateModificationAnalyzer::analyze(&mut info, &ast);
    let graph = sol_analyzer::callgraph::build_call_graph(&info.functions);
    let (direct, indirect) =
        sol_analyzer::callgraph::find_writers(&"total".to_string(), &info.functions, &graph);
    assert_eq!(direct, vec!["bump".to_string()]);
    assert_eq!(indirect.len(), 1);
    assert_eq!(indirect[0].0, "outer");
    assert_eq!(indirect[0].1, vec!["bump".to_string()]);
    assert_eq!(
        sol_analyzer::callgraph::get_func_visibility(&"outer".to_string(), &info.functions),
        "public"
    );
    assert_eq!(
        sol_analyzer::callgraph::get_func_visibility(&"nobody".to_string(), &info.functions),
        "unknown"
    );
}

#[test]
fn field_paths_survive_resolution_without_annotation() {
    // a contract without the namespaced-storage pattern keeps pending
    // storage-struct paths untouched
    let mut info = fresh_contract("Plain");
    info.functions.push(fresh_function("touch", "public"));
    let ast = ContractAst {
        functions: vec![node(
            "touch",
            Vec::new(),
            body(vec![
                Stmt::VariableDefinition(
                    Some("$".to_string()),
                    Some(Expr::FunctionCall(Box::new(var("_getVaultStorage")), Vec::new())),
                ),
                assign(
                    Expr::MemberAccess(Box::new(var("$")), "a".to_string()),
                    Expr::Literal,
                ),
            ]),
        )],
        variables: Vec::new(),
    };
    StateModificationAnalyzer::analyze(&mut info, &ast);
    assert!(info.functions[0]
        .modifies_state_fields
        .iter()
        .any(|p| matches!(p.base, PathBase::PendingStorageStruct)));
    assert!(info.functions[0].modifies_states.is_empty());
}

#[test]
fn upgradeable_fields_with_two_entry_points_are_reported() {
    let mut info = fresh_contract("Vault");
    info.structs.push(sol_analyzer::models::StructDef {
        name: "VaultStorage".to_string(),
        members: vec![sol_analyzer::models::StructMember {
            name: "a".to_string(),
            member_type: "uint256".to_string(),
        }],
        line_number: 4,
        storage_location: Some("erc7201:demo.storage.Vault".to_string()),
    });
    info.functions.push(fresh_function("setA", "public"));
    info.functions.push(fresh_function("adminSetA", "external"));
    info.functions.push(fresh_function("_getVaultStorage", "private"));
    let set_a_body = || {
        body(vec![
            Stmt::VariableDefinition(
                Some("$".to_string()),
                Some(Expr::FunctionCall(Box::new(var("_getVaultStorage")), Vec::new())),
            ),
            assign(Expr::MemberAccess(Box::new(var("$")), "a".to_string()), Expr::Literal),
        ])
    };
    let ast = ContractAst {
        functions: vec![
            node("setA", Vec::new(), set_a_body()),
            node("adminSetA", Vec::new(), body(vec![call_stmt("setA", Vec::new())])),
            node("_getVaultStorage", Vec::new(), body(Vec::new())),
        ],
        variables: vec![VarDeclNode {
            name: "VaultStorageLocation".to_string(),
            declared_type: "bytes32".to_string(),
            is_constant: true,
            initializer_value: "0x01".to_string(),
        }],
    };
    info.upgradeable_storage = SolidityParser::detect_upgradeable_storage(&info, &ast);
    assert!(info.upgradeable_storage.is_some());
    StateModificationAnalyzer::analyze(&mut info, &ast);
    let all = vec![info];
    let entry_points =
        sol_analyzer::relations::RelationshipBuilder::collect_upgradeable_storage_entry_points(
            &all,
        );
    assert_eq!(entry_points.len(), 1);
    assert_eq!(entry_points[0].0, "Vault");
    assert_eq!(entry_points[0].1, "a");
    assert!(entry_points[0].2.len() >= 2);
}

#[test]
fn mutating_method_calls_reach_the_coarse_set() {
    // spec'd trigger set: push, pop, add, remove, delete on a state target
    let mut info = fresh_contract("Registry");
    info.state_variables.push(fresh_state_var("members"));
    info.functions.push(fresh_function("enroll", "public"));
    let ast = ContractAst {
        functions: vec![node(
            "enroll",
            Vec::new(),
            body(vec![Stmt::Expression(Expr::FunctionCall(
                Box::new(Expr::MemberAccess(Box::new(var("members")), "add".to_string())),
                vec![var("who")],
            ))]),
        )],
        variables: Vec::new(),
    };
    StateModificationAnalyzer::analyze(&mut info, &ast);
    assert!(info.functions[0].modifies_states.contains(&"members".to_string()));
    // the field-level path roots at the same variable, so the base invariant holds
    assert!(info.functions[0]
        .modifies_state_fields
        .iter()
        .any(|p| matches!(&p.base, PathBase::Resolved(b) if b == "members")));
}

#[test]
fn call_in_initializer_is_recorded() {
    let mut info = fresh_contract("Counter");
    info.state_variables.push(fresh_state_var("total"));
    info.functions.push(fresh_function("peek", "internal"));
    info.functions.push(fresh_function("outer", "public"));
    let ast = ContractAst {
        functions: vec![
            node("peek", Vec::new(), body(vec![assign(var("total"), Expr::Literal)])),
            node(
                "outer",
                Vec::new(),
                body(vec![Stmt::VariableDefinition(
                    Some("x".to_string()),
                    Some(Expr::FunctionCall(Box::new(var("peek")), Vec::new())),
                )]),
            ),
        ],
        variables: Vec::new(),
    };
    StateModificationAnalyzer::analyze(&mut info, &ast);
    assert!(info.functions[1].calls_functions.contains(&"peek".to_string()));
    // the caller therefore stands in total's modification chain
    assert!(info.state_variables[0].modification_chains[0]
        .call_chain
        .iter()
        .any(|c| c.function_name == "outer"));
}

#[test]
fn reads_are_recorded_and_chained() {
    let mut info = fresh_contract("Counter");
    info.state_variables.push(fresh_state_var("total"));
    info.functions.push(fresh_function("peek", "internal"));
    info.functions.push(fresh_function("outer", "public"));
    let ast = ContractAst {
        functions: vec![
            node("peek", Vec::new(), body(vec![Stmt::Return(Some(var("total")))])),
            node("outer", Vec::new(), body(vec![call_stmt("peek", Vec::new())])),
        ],
        variables: Vec::new(),
    };
    StateModificationAnalyzer::analyze(&mut info, &ast);
    assert_eq!(info.functions[0].reads_states, vec!["total".to_string()]);
    assert!(info.functions[1].reads_states.is_empty());
    let read_chains = &info.state_variables[0].read_chains;
    assert_eq!(read_chains.len(), 1);
    assert_eq!(read_chains[0].direct_modifier, "peek");
    assert!(read_chains[0].call_chain.iter().any(|c| c.function_name == "outer"));
    // a plain-assignment target alone is not a read
    let mut info2 = fresh_contract("Writer");
    info2.state_variables.push(fresh_state_var("total"));
    info2.functions.push(fresh_function("set", "public"));
    let ast2 = ContractAst {
        functions: vec![node("set", Vec::new(), body(vec![assign(var("total"), Expr::Literal)]))],
        variables: Vec::new(),
    };
    StateModificationAnalyzer::analyze(&mut info2, &ast2);
    assert!(info2.functions[0].reads_states.is_empty());
}

#[test]
fn constant_variables_have_empty_chains() {
    let mut info = fresh_contract("Config");
    let mut cv = fresh_state_var("limit");
    cv.is_constant = true;
    info.state_variables.push(cv);
    info.functions.push(fresh_function("touch", "public"));
    let ast = ContractAst {
        functions: vec![node(
            "touch",
            Vec::new(),
            body(vec![assign(var("limit"), Expr::Literal)]),
        )],
        variables: Vec::new(),
    };
    StateModificationAnalyzer::analyze(&mut info, &ast);
    assert!(info.state_variables[0].modification_chains.is_empty());
}

#[test]
fn whole_struct_write_leaves_no_marker() {
    // a write to the storage struct itself names no field and is dropped by
    // the resolution, so no marker survives anywhere
    let mut info = fresh_contract("Vault");
    info.structs.push(sol_analyzer::models::StructDef {
        name: "VaultStorage".to_string(),
        members: vec![sol_analyzer::models::StructMember {
            name: "a".to_string(),
            member_type: "uint256".to_string(),
        }],
        line_number: 4,
        storage_location: Some("erc7201:demo.storage.Vault".to_string()),
    });
    info.functions.push(fresh_function("wipe", "public"));
    info.functions.push(fresh_function("_getVaultStorage", "private"));
    let ast = ContractAst {
        functions: vec![
            node(
                "wipe",
                Vec::new(),
                body(vec![
                    Stmt::VariableDefinition(
                        Some("$".to_string()),
                        Some(Expr::FunctionCall(Box::new(var("_getVaultStorage")), Vec::new())),
                    ),
                    assign(var("$"), Expr::Literal),
                ]),
            ),
            node("_getVaultStorage", Vec::new(), body(Vec::new())),
        ],
        variables: vec![VarDeclNode {
            name: "VaultStorageLocation".to_string(),
            declared_type: "bytes32".to_string(),
            is_constant: true,
            initializer_value: "0x01".to_string(),
        }],
    };
    info.upgradeable_storage = SolidityParser::detect_upgradeable_storage(&info, &ast);
    StateModificationAnalyzer::analyze(&mut info, &ast);
    for f in &info.functions {
        for p in &f.modifies_state_fields {
            assert!(!matches!(p.base, PathBase::PendingStorageStruct));
        }
    }
}

#[test]
fn field_path_equality_compares_roots_and_fields() {
    let a = FieldPath {
        base: PathBase::Resolved("lpInfo".to_string()),
        fields: vec!["shares".to_string()],
    };
    let b = FieldPath {
        base: PathBase::Resolved("lpInfo".to_string()),
        fields: vec!["shares".to_string()],
    };
    let c = FieldPath { base: PathBase::PendingParam(0), fields: vec!["shares".to_string()] };
    assert!(a.same_as(&b));
    assert!(!a.same_as(&c));
}
