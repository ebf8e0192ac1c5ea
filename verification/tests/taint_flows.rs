use sol_analyzer::analyzer::StateModificationAnalyzer;
use sol_analyzer::dataflow::{add_edge, trace_variable_influence, FlowVar};
use sol_analyzer::ast::{AssignOp, BinOp, ContractAst, Expr, FunctionNode, ParamNode, Stmt};
use sol_analyzer::dataflow::{TaintSeverity, TaintSink, TaintSource};
use sol_analyzer::models::{ContractInfo, FunctionDef, StateVariable};
use sol_analyzer::taint::DataFlowAnalyzer;

fn plain_function(name: &str, visibility: &str) -> FunctionDef {
    FunctionDef {
        name: name.to_string(),
        visibility: visibility.to_string(),
        state_mutability: "nonpayable".to_string(),
        parameters: Vec::new(),
        returns: Vec::new(),
        line_number: 1,
        modifies_states: Vec::new(),
        modifies_state_fields: Vec::new(),
        reads_states: Vec::new(),
        calls_functions: Vec::new(),
        external_calls: Vec::new(),
        storage_params: Vec::new(),
        uses_modifiers: Vec::new(),
        modifier_order: Vec::new(),
        emits_events: Vec::new(),
        uses_errors: Vec::new(),
        has_unchecked: false,
        return_value_usage: Vec::new(),
        ignored_returns: Vec::new(),
    }
}

fn plain_state_var(name: &str, var_type: &str) -> StateVariable {
    StateVariable {
        name: name.to_string(),
        var_type: var_type.to_string(),
        visibility: "private".to_string(),
        is_constant: false,
        is_immutable: false,
        line_number: 1,
        modification_chains: Vec::new(),
        read_chains: Vec::new(),
    }
}

fn plain_contract(name: &str) -> ContractInfo {
    ContractInfo {
        name: name.to_string(),
        file_path: "Demo.sol".to_string(),
        state_variables: Vec::new(),
        structs: Vec::new(),
        enums: Vec::new(),
        events: Vec::new(),
        functions: Vec::new(),
        modifiers: Vec::new(),
        errors: Vec::new(),
        upgradeable_storage: None,
        dataflow_analysis: None,
    }
}

fn v(name: &str) -> Expr {
    Expr::Variable(name.to_string())
}

fn bal_assign() -> Stmt {
    // bal[x] = x;
    Stmt::Expression(Expr::Assign(
        AssignOp::Assign,
        Box::new(Expr::ArraySubscript(Box::new(v("bal")), Some(Box::new(v("x"))))),
        Box::new(v("x")),
    ))
}

fn external_fn_node(name: &str, param: &str, statements: Vec<Stmt>) -> FunctionNode {
    FunctionNode {
        name: name.to_string(),
        is_modifier: false,
        params: vec![ParamNode { name: param.to_string(), is_storage_ref: false }],
        body: Some(Stmt::Block { unchecked: false, statements }),
    }
}

fn analyzed(info: &mut ContractInfo, ast: &ContractAst) -> sol_analyzer::dataflow::DataFlowAnalysis {
    StateModificationAnalyzer::analyze(info, ast);
    DataFlowAnalyzer::analyze(info, ast)
}

#[test]
fn parameter_to_state_write_is_a_medium_flow() {
    let mut info = plain_contract("Bank");
    info.state_variables
        .push(plain_state_var("bal", "mapping(uint256 => uint256)"));
    let mut f = plain_function("f", "external");
    f.parameters.push("uint256 x".to_string());
    info.functions.push(f);
    let ast = ContractAst {
        functions: vec![external_fn_node("f", "x", vec![bal_assign()])],
        variables: Vec::new(),
    };
    let dfa = analyzed(&mut info, &ast);
    let hit = dfa.taint_flows.iter().any(|flow| {
        matches!(
            &flow.source,
            TaintSource::FunctionParameter { function_name, param_index: 0, param_name }
                if function_name == "f" && param_name == "x"
        ) && matches!(&flow.sink, TaintSink::StateModification { var_name, .. } if var_name == "bal")
            && flow.severity == TaintSeverity::Medium
            && !flow.is_validated
    });
    assert!(hit, "the parameter must reach the state write unvalidated at medium severity");
}

#[test]
fn require_guard_marks_the_flow_validated() {
    let mut info = plain_contract("Bank");
    info.state_variables
        .push(plain_state_var("bal", "mapping(uint256 => uint256)"));
    let mut f = plain_function("f", "external");
    f.parameters.push("uint256 x".to_string());
    info.functions.push(f);
    let guard = Stmt::Expression(Expr::FunctionCall(
        Box::new(v("require")),
        vec![Expr::Binary(BinOp::More, Box::new(v("x")), Box::new(Expr::Literal))],
    ));
    let ast = ContractAst {
        functions: vec![external_fn_node("f", "x", vec![guard, bal_assign()])],
        variables: Vec::new(),
    };
    let dfa = analyzed(&mut info, &ast);
    let hit = dfa.taint_flows.iter().any(|flow| {
        matches!(&flow.source, TaintSource::FunctionParameter { param_name, .. } if param_name == "x")
            && matches!(&flow.sink, TaintSink::StateModification { var_name, .. } if var_name == "bal")
            && flow.is_validated
    });
    assert!(hit, "the require on x must flip the flow to validated");
}

#[test]
fn parameter_to_delegatecall_is_critical() {
    let mut info = plain_contract("Proxy");
    let mut f = plain_function("f", "external");
    f.parameters.push("address target".to_string());
    info.functions.push(f);
    let delegate = Stmt::Expression(Expr::FunctionCall(
        Box::new(Expr::MemberAccess(Box::new(v("target")), "delegatecall".to_string())),
        vec![v("data")],
    ));
    let ast = ContractAst {
        functions: vec![external_fn_node("f", "target", vec![delegate])],
        variables: Vec::new(),
    };
    let dfa = analyzed(&mut info, &ast);
    let hit = dfa.taint_flows.iter().any(|flow| {
        matches!(&flow.source, TaintSource::FunctionParameter { param_name, .. } if param_name == "target")
            && matches!(&flow.sink, TaintSink::DelegateCall { .. })
            && flow.severity == TaintSeverity::Critical
    });
    assert!(hit, "a user-controlled delegatecall target must be critical");
}

#[test]
fn msg_sender_keyed_write_flows_at_low_severity() {
    let mut info = plain_contract("Bank");
    info.state_variables
        .push(plain_state_var("bal", "mapping(address => uint256)"));
    info.functions.push(plain_function("touch", "public"));
    // bal[msg.sender] = msg.sender's read flows into bal
    let write = Stmt::Expression(Expr::Assign(
        AssignOp::Assign,
        Box::new(Expr::ArraySubscript(
            Box::new(v("bal")),
            Some(Box::new(Expr::MemberAccess(Box::new(v("msg")), "sender".to_string()))),
        )),
        Box::new(Expr::MemberAccess(Box::new(v("msg")), "sender".to_string())),
    ));
    let ast = ContractAst {
        functions: vec![FunctionNode {
            name: "touch".to_string(),
            is_modifier: false,
            params: Vec::new(),
            body: Some(Stmt::Block { unchecked: false, statements: vec![write] }),
        }],
        variables: Vec::new(),
    };
    let dfa = analyzed(&mut info, &ast);
    let hit = dfa.taint_flows.iter().any(|flow| {
        matches!(&flow.source, TaintSource::MsgSender)
            && matches!(&flow.sink, TaintSink::StateModification { var_name, .. } if var_name == "bal")
            && flow.severity == TaintSeverity::Low
    });
    assert!(hit, "a sender-keyed state write is reported at low severity");
}

#[test]
fn parameter_influence_classifies_index_access() {
    let mut info = plain_contract("Bank");
    info.state_variables
        .push(plain_state_var("bal", "mapping(uint256 => uint256)"));
    let mut f = plain_function("f", "external");
    f.parameters.push("uint256 x".to_string());
    info.functions.push(f);
    let ast = ContractAst {
        functions: vec![external_fn_node("f", "x", vec![bal_assign()])],
        variables: Vec::new(),
    };
    let dfa = analyzed(&mut info, &ast);
    let infl = dfa
        .parameter_influences
        .iter()
        .find(|p| p.param_name == "x")
        .expect("the parameter reaches bal");
    assert!(infl.influenced_state_vars.contains(&"bal".to_string()));
    assert_eq!(infl.influence_type, sol_analyzer::dataflow::InfluenceType::IndexAccess);
    assert!(dfa.unvalidated_inputs.is_empty());
}

#[test]
fn arithmetic_influence_is_detected() {
    let mut info = plain_contract("Bank");
    info.state_variables.push(plain_state_var("total", "uint256"));
    let mut f = plain_function("f", "external");
    f.parameters.push("uint256 x".to_string());
    info.functions.push(f);
    // total = total + x;
    let write = Stmt::Expression(Expr::Assign(
        AssignOp::Assign,
        Box::new(v("total")),
        Box::new(Expr::Binary(BinOp::Add, Box::new(v("total")), Box::new(v("x")))),
    ));
    let ast = ContractAst {
        functions: vec![external_fn_node("f", "x", vec![write])],
        variables: Vec::new(),
    };
    let dfa = analyzed(&mut info, &ast);
    let infl = dfa
        .parameter_influences
        .iter()
        .find(|p| p.param_name == "x")
        .expect("the parameter reaches total");
    assert_eq!(infl.influence_type, sol_analyzer::dataflow::InfluenceType::Arithmetic);
}

#[test]
fn influence_trace_filters_to_state_variables() {
    // x -> bal: the trace from x holds bal and nothing else
    let mut graph: Vec<(FlowVar, Vec<FlowVar>)> = Vec::new();
    add_edge(
        &mut graph,
        FlowVar { base: "x".to_string(), member: None },
        FlowVar { base: "bal".to_string(), member: None },
    );
    let svs = vec!["bal".to_string()];
    let src = FlowVar { base: "x".to_string(), member: None };
    let reached = trace_variable_influence(&src, &graph, &svs);
    assert_eq!(reached.len(), 1);
    assert_eq!(reached[0].base, "bal");
    // on an empty graph nothing is influenced, the source included
    let empty: Vec<(FlowVar, Vec<FlowVar>)> = Vec::new();
    let src2 = FlowVar { base: "bal".to_string(), member: None };
    assert!(trace_variable_influence(&src2, &empty, &svs).is_empty());
}

#[test]
fn witness_paths_follow_recorded_edges() {
    // x -> tmp -> bal: the flow's path walks through tmp
    let mut info = plain_contract("Bank");
    info.state_variables.push(plain_state_var("bal", "uint256"));
    let mut f = plain_function("f", "external");
    f.parameters.push("uint256 x".to_string());
    info.functions.push(f);
    let hop = Stmt::VariableDefinition(Some("tmp".to_string()), Some(v("x")));
    let write = Stmt::Expression(Expr::Assign(
        AssignOp::Assign,
        Box::new(v("bal")),
        Box::new(v("tmp")),
    ));
    let ast = ContractAst {
        functions: vec![external_fn_node("f", "x", vec![hop, write])],
        variables: Vec::new(),
    };
    let dfa = analyzed(&mut info, &ast);
    let flow = dfa
        .taint_flows
        .iter()
        .find(|flow| {
            matches!(&flow.source, TaintSource::FunctionParameter { param_name, .. } if param_name == "x")
                && matches!(&flow.sink, TaintSink::StateModification { var_name, .. } if var_name == "bal")
        })
        .expect("the parameter reaches bal through tmp");
    let names: Vec<&str> = flow.path.iter().map(|n| n.base.as_str()).collect();
    assert_eq!(names, vec!["x", "tmp", "bal"]);
}

#[test]
fn nested_assignment_contributes_flow_edges() {
    // require((tmp = x) > 0); bal = tmp; - the inner assignment still flows
    let mut info = plain_contract("Bank");
    info.state_variables.push(plain_state_var("bal", "uint256"));
    let mut f = plain_function("f", "external");
    f.parameters.push("uint256 x".to_string());
    info.functions.push(f);
    let guard = Stmt::Expression(Expr::FunctionCall(
        Box::new(v("require")),
        vec![Expr::Binary(
            BinOp::More,
            Box::new(Expr::Parenthesis(Box::new(Expr::Assign(
                AssignOp::Assign,
                Box::new(v("tmp")),
                Box::new(v("x")),
            )))),
            Box::new(Expr::Literal),
        )],
    ));
    let write = Stmt::Expression(Expr::Assign(
        AssignOp::Assign,
        Box::new(v("bal")),
        Box::new(v("tmp")),
    ));
    let ast = ContractAst {
        functions: vec![external_fn_node("f", "x", vec![guard, write])],
        variables: Vec::new(),
    };
    let dfa = analyzed(&mut info, &ast);
    assert!(dfa.taint_flows.iter().any(|flow| {
        matches!(&flow.source, TaintSource::FunctionParameter { param_name, .. } if param_name == "x")
            && matches!(&flow.sink, TaintSink::StateModification { var_name, .. } if var_name == "bal")
    }));
}

#[test]
fn severity_labels_are_stable() {
    assert_eq!(TaintSeverity::Info.as_str(), "INFO");
    assert_eq!(TaintSeverity::Low.as_str(), "LOW");
    assert_eq!(TaintSeverity::Medium.as_str(), "MEDIUM");
    assert_eq!(TaintSeverity::High.as_str(), "HIGH");
    assert_eq!(TaintSeverity::Critical.as_str(), "CRITICAL");
    assert_eq!(
        sol_analyzer::models::IgnoredReturnSeverity::High.as_str(),
        "HIGH"
    );
    assert_eq!(sol_analyzer::models::IgnoredReturnSeverity::Info.as_str(), "INFO");
}

#[test]
fn severity_table_matches_source_and_sink_kinds() {
    let param = TaintSource::FunctionParameter {
        function_name: "f".to_string(),
        param_index: 0,
        param_name: "x".to_string(),
    };
    let dc = TaintSink::DelegateCall { target_expr: None };
    let sd = TaintSink::SelfDestruct { target_expr: None };
    let vt = TaintSink::ValueTransfer { target_expr: None };
    let sm = TaintSink::StateModification { var_name: "bal".to_string(), field_path: None };
    assert_eq!(sol_analyzer::dataflow::assess_severity(&param, &dc), TaintSeverity::Critical);
    assert_eq!(sol_analyzer::dataflow::assess_severity(&param, &sd), TaintSeverity::Critical);
    assert_eq!(sol_analyzer::dataflow::assess_severity(&param, &vt), TaintSeverity::High);
    assert_eq!(sol_analyzer::dataflow::assess_severity(&param, &sm), TaintSeverity::Medium);
    assert_eq!(
        sol_analyzer::dataflow::assess_severity(&TaintSource::MsgSender, &dc),
        TaintSeverity::Medium
    );
    assert_eq!(
        sol_analyzer::dataflow::assess_severity(&TaintSource::MsgValue, &sm),
        TaintSeverity::Low
    );
}
