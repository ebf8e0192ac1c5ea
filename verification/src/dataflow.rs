//! The taint/data-flow engine's vocabulary: untrusted sources, sensitive
//! sinks, proven flows between them, and parameter-influence facts.

use vstd::prelude::*;
use crate::models::FieldPath;

verus! {

/// A reference to a variable as it appears in a flow graph: a root name and
/// at most one member below it. A deeper or subscripted expression is not a
/// plain variable reference and never names a flow node.
#[derive(Debug, Clone, PartialEq, Eq)]
pub struct FlowVar {
    pub base: String,
    pub member: Option<String>,
}

impl View for FlowVar {
    type V = (Seq<char>, Option<Seq<char>>);

    open spec fn view(&self) -> (Seq<char>, Option<Seq<char>>) {
        (
            self.base@,
            match self.member {
                Some(ref m) => Some(m@),
                None => None,
            },
        )
    }
}

/// A source of potentially attacker-controlled data.
#[derive(Debug, Clone, PartialEq, Eq)]
pub enum TaintSource {
    /// A parameter of an `external` or `public` function.
    FunctionParameter { function_name: String, param_index: usize, param_name: String },
    MsgSender,
    MsgValue,
    MsgData,
    /// The return value of a call on a contract-typed variable.
    ExternalCallReturn { contract_var: String, function_name: String },
    /// An array or mapping read whose index is tainted.
    TaintedArrayAccess { base_var: String },
}

/// A security-sensitive operation.
#[derive(Debug, Clone, PartialEq, Eq)]
pub enum TaintSink {
    /// A write to a state variable, with the field path when one is known.
    StateModification { var_name: String, field_path: Option<FieldPath> },
    /// A call into another contract.
    ExternalCall { target_var: String, function_name: String },
    /// `call`, `staticcall`, `callcode`, `transfer` or `send`.
    ValueTransfer { target_expr: Option<FlowVar> },
    /// `delegatecall`.
    DelegateCall { target_expr: Option<FlowVar> },
    /// `selfdestruct` or `suicide`.
    SelfDestruct { target_expr: Option<FlowVar> },
    /// An array or mapping access used as a write index.
    ArrayIndex { array_var: String },
}

/// Severity classes for taint flows, ordered from least to most severe.
#[derive(Debug, Clone, Copy, PartialEq, Eq, Structural)]
pub enum TaintSeverity {
    Info,
    Low,
    Medium,
    High,
    Critical,
}

impl TaintSeverity {
    /// The display name of this severity level.
    pub fn as_str(&self) -> (r: &'static str)
        ensures
            *self == TaintSeverity::Info ==> r@ == "INFO"@,
            *self == TaintSeverity::Low ==> r@ == "LOW"@,
            *self == TaintSeverity::Medium ==> r@ == "MEDIUM"@,
            *self == TaintSeverity::High ==> r@ == "HIGH"@,
            *self == TaintSeverity::Critical ==> r@ == "CRITICAL"@,
    {
        match self {
            TaintSeverity::Info => "INFO",
            TaintSeverity::Low => "LOW",
            TaintSeverity::Medium => "MEDIUM",
            TaintSeverity::High => "HIGH",
            TaintSeverity::Critical => "CRITICAL",
        }
    }

    /// A pictogram for this severity level.
    pub fn emoji(&self) -> (r: &'static str)
        ensures
            *self == TaintSeverity::Info ==> r@ == "i"@,
            *self == TaintSeverity::Low ==> r@ == "!"@,
            *self == TaintSeverity::Medium ==> r@ == "!!"@,
            *self == TaintSeverity::High ==> r@ == "!!!"@,
            *self == TaintSeverity::Critical ==> r@ == "!!!!"@,
    {
        match self {
            TaintSeverity::Info => "i",
            TaintSeverity::Low => "!",
            TaintSeverity::Medium => "!!",
            TaintSeverity::High => "!!!",
            TaintSeverity::Critical => "!!!!",
        }
    }
}

/// A proven reachability edge from a source to a sink, with a witness path.
#[derive(Debug, Clone, PartialEq, Eq)]
pub struct TaintFlow {
    pub source: TaintSource,
    pub sink: TaintSink,
    pub function_name: String,
    /// The variables the data passes through, source first.
    pub path: Vec<FlowVar>,
    /// Whether some `require`/`assert` condition or revert guard mentions the
    /// source variable somewhere in the function.
    pub is_validated: bool,
    pub severity: TaintSeverity,
}

/// How a parameter affects state, from weakest to strongest evidence.
#[derive(Debug, Clone, PartialEq, Eq, Structural)]
pub enum InfluenceType {
    /// Assigned to a state variable as-is.
    Direct,
    /// Combined arithmetically into a state write.
    Arithmetic,
    /// Guards a branch that writes state.
    Conditional,
    /// Used as an array or mapping index on a state variable.
    IndexAccess,
}

/// Which state variables one parameter of a function can influence, and how.
#[derive(Debug, Clone, PartialEq, Eq)]
pub struct ParameterInfluence {
    pub function_name: String,
    pub param_index: usize,
    pub param_name: String,
    pub influenced_state_vars: Vec<String>,
    pub influence_type: InfluenceType,
}

/// An input reaching a sensitive operation with no validation found.
#[derive(Debug, Clone, PartialEq, Eq)]
pub struct UnvalidatedInput {
    pub source: TaintSource,
    pub sink: TaintSink,
    pub function_name: String,
    pub missing_validations: Vec<String>,
}

/// The complete result of the data-flow analysis over one contract.
#[derive(Debug, Clone, PartialEq, Eq)]
pub struct DataFlowAnalysis {
    pub taint_flows: Vec<TaintFlow>,
    pub parameter_influences: Vec<ParameterInfluence>,
    pub unvalidated_inputs: Vec<UnvalidatedInput>,
}

/// The view of a flow-graph node.
pub open spec fn fv_view(s: Seq<FlowVar>) -> Seq<(Seq<char>, Option<Seq<char>>)> {
    s.map_values(|v: FlowVar| v@)
}

pub broadcast proof fn fv_view_len(s: Seq<FlowVar>)
    ensures
        #[trigger] fv_view(s).len() == s.len(),
{
}

pub broadcast proof fn fv_view_index(s: Seq<FlowVar>, i: int)
    requires
        0 <= i < s.len(),
    ensures
        #[trigger] fv_view(s)[i] == s[i]@,
{
}

pub broadcast proof fn fv_view_push(s: Seq<FlowVar>, v: FlowVar)
    ensures
        #[trigger] fv_view(s.push(v)) =~= fv_view(s).push(v@),
{
    broadcast use fv_view_len, fv_view_index;

}

pub broadcast group group_fv_axioms {
    fv_view_len,
    fv_view_index,
    fv_view_push,
}

impl FlowVar {
    /// An equal copy of this node.
    pub fn dup(&self) -> (r: FlowVar)
        ensures
            r@ == self@,
    {
        FlowVar {
            base: self.base.clone(),
            member: match &self.member {
                Some(m) => Some(m.clone()),
                None => None,
            },
        }
    }

    /// Whether the two nodes name the same variable reference.
    pub fn same_as(&self, other: &FlowVar) -> (r: bool)
        ensures
            r == (self@ == other@),
    {
        if !self.base.eq(&other.base) {
            return false;
        }
        match (&self.member, &other.member) {
            (Some(a), Some(b)) => a.eq(b),
            (None, None) => true,
            _ => false,
        }
    }
}

/// Whether `v` holds a node equal to `x`.
pub fn contains_fv(v: &Vec<FlowVar>, x: &FlowVar) -> (b: bool)
    ensures
        b == fv_view(v@).contains(x@),
{
    broadcast use group_fv_axioms;

    let mut i: usize = 0;
    while i < v.len()
        invariant
            i <= v.len(),
            forall|j: int| 0 <= j < i ==> fv_view(v@)[j] != x@,
        decreases v.len() - i,
    {
        if v[i].same_as(x) {
            assert(fv_view(v@)[i as int] == x@);
            return true;
        }
        i += 1;
    }
    false
}

/// Append a node unless an equal one is already present.
pub fn push_unique_fv(v: &mut Vec<FlowVar>, x: FlowVar)
    ensures
        fv_view(final(v)@) == crate::names::push_unique_gen(fv_view(old(v)@), x@),
{
    broadcast use group_fv_axioms;

    if !contains_fv(v, &x) {
        v.push(x);
    }
}

/// An equal copy of a node list.
pub fn dup_flow_vars(v: &Vec<FlowVar>) -> (r: Vec<FlowVar>)
    ensures
        fv_view(r@) == fv_view(v@),
{
    broadcast use group_fv_axioms;

    let mut out: Vec<FlowVar> = Vec::new();
    let mut i: usize = 0;
    while i < v.len()
        invariant
            i <= v.len(),
            out@.len() == i,
            forall|j: int| 0 <= j < i ==> fv_view(out@)[j] == fv_view(v@)[j],
        decreases v.len() - i,
    {
        out.push(v[i].dup());
        i += 1;
    }
    assert(fv_view(out@) =~= fv_view(v@));
    out
}

/// The pair views of a variable flow graph: node, then the nodes its value
/// flows into.
pub open spec fn fg_view(g: Seq<(FlowVar, Vec<FlowVar>)>) -> Seq<
    ((Seq<char>, Option<Seq<char>>), Seq<(Seq<char>, Option<Seq<char>>)>),
> {
    g.map_values(|p: (FlowVar, Vec<FlowVar>)| (p.0@, fv_view(p.1@)))
}

pub broadcast proof fn fg_view_len(g: Seq<(FlowVar, Vec<FlowVar>)>)
    ensures
        #[trigger] fg_view(g).len() == g.len(),
{
}

pub broadcast proof fn fg_view_index(g: Seq<(FlowVar, Vec<FlowVar>)>, i: int)
    requires
        0 <= i < g.len(),
    ensures
        #[trigger] fg_view(g)[i] == (g[i].0@, fv_view(g[i].1@)),
{
}

pub broadcast proof fn fg_view_push(g: Seq<(FlowVar, Vec<FlowVar>)>, p: (FlowVar, Vec<FlowVar>))
    ensures
        #[trigger] fg_view(g.push(p)) =~= fg_view(g).push((p.0@, fv_view(p.1@))),
{
    broadcast use fg_view_len, fg_view_index;

}

pub broadcast group group_fg_axioms {
    fg_view_len,
    fg_view_index,
    fg_view_push,
}

/// Look a node's outgoing edges up; the latest entry wins.
pub fn flow_graph_get<'a>(g: &'a Vec<(FlowVar, Vec<FlowVar>)>, k: &FlowVar) -> (r: Option<
    &'a Vec<FlowVar>,
>)
    ensures
        match r {
            Some(row) => crate::names::assoc_find(fg_view(g@), k@) == Some(fv_view(row@)),
            None => crate::names::assoc_find(fg_view(g@), k@) is None,
        },
{
    broadcast use group_fg_axioms;

    let mut i: usize = g.len();
    assert(fg_view(g@).take(i as int) =~= fg_view(g@));
    while i > 0
        invariant
            i <= g.len(),
            crate::names::assoc_find(fg_view(g@), k@) == crate::names::assoc_find(
                fg_view(g@).take(i as int),
                k@,
            ),
        decreases i,
    {
        assert(fg_view(g@).take(i as int).last() == fg_view(g@)[i - 1]);
        assert(fg_view(g@).take(i as int).drop_last() =~= fg_view(g@).take(i - 1));
        if g[i - 1].0.same_as(k) {
            return Some(&g[i - 1].1);
        }
        i -= 1;
    }
    assert(fg_view(g@).take(0) =~= Seq::<
        ((Seq<char>, Option<Seq<char>>), Seq<(Seq<char>, Option<Seq<char>>)>),
    >::empty());
    None
}

/// Adding one flow edge: the source's row gains the target unless already
/// present, and a fresh binding for the source is appended.
pub open spec fn add_edge_spec(
    g: Seq<((Seq<char>, Option<Seq<char>>), Seq<(Seq<char>, Option<Seq<char>>)>)>,
    from: (Seq<char>, Option<Seq<char>>),
    to: (Seq<char>, Option<Seq<char>>),
) -> Seq<((Seq<char>, Option<Seq<char>>), Seq<(Seq<char>, Option<Seq<char>>)>)> {
    let row = match crate::names::assoc_find(g, from) {
        Some(r) => r,
        None => Seq::empty(),
    };
    if row.contains(to) {
        g
    } else {
        g.push((from, row.push(to)))
    }
}

/// Record that the value of `from` flows into `to`.
pub fn add_edge(g: &mut Vec<(FlowVar, Vec<FlowVar>)>, from: FlowVar, to: FlowVar)
    ensures
        fg_view(final(g)@) == add_edge_spec(fg_view(old(g)@), from@, to@),
{
    broadcast use group_fg_axioms, group_fv_axioms;

    let mut row: Vec<FlowVar> = match flow_graph_get(g, &from) {
        Some(r) => dup_flow_vars(r),
        None => Vec::new(),
    };
    assert(fv_view(row@) == (match crate::names::assoc_find(fg_view(g@), from@) {
        Some(r) => r,
        None => Seq::empty(),
    })) by {
        assert(fv_view(Seq::<FlowVar>::empty()) =~= Seq::<(Seq<char>, Option<Seq<char>>)>::empty());
    }
    if !contains_fv(&row, &to) {
        let ghost rowv = fv_view(row@);
        row.push(to);
        assert(fv_view(row@) =~= rowv.push(to@));
        let ghost gpre = fg_view(g@);
        let ghost rowv2 = fv_view(row@);
        g.push((from, row));
        assert(fg_view(g@) =~= gpre.push((from@, rowv2)));
    }
}

/// One reachability round: every target of a reached node is reached.
pub open spec fn reach_round(
    r: Seq<(Seq<char>, Option<Seq<char>>)>,
    g: Seq<((Seq<char>, Option<Seq<char>>), Seq<(Seq<char>, Option<Seq<char>>)>)>,
    i: int,
) -> Seq<(Seq<char>, Option<Seq<char>>)>
    decreases g.len() - i,
{
    if i < 0 || i >= g.len() {
        r
    } else {
        let r1 = if r.contains(g[i].0) {
            add_targets(r, g[i].1, 0)
        } else {
            r
        };
        reach_round(r1, g, i + 1)
    }
}

/// Fold a row of targets into the reached set.
pub open spec fn add_targets(
    r: Seq<(Seq<char>, Option<Seq<char>>)>,
    row: Seq<(Seq<char>, Option<Seq<char>>)>,
    j: int,
) -> Seq<(Seq<char>, Option<Seq<char>>)>
    decreases row.len() - j,
{
    if j < 0 || j >= row.len() {
        r
    } else {
        add_targets(crate::names::push_unique_gen(r, row[j]), row, j + 1)
    }
}

/// The reached set after `k` rounds.
pub open spec fn reach_iter(
    r: Seq<(Seq<char>, Option<Seq<char>>)>,
    g: Seq<((Seq<char>, Option<Seq<char>>), Seq<(Seq<char>, Option<Seq<char>>)>)>,
    k: nat,
) -> Seq<(Seq<char>, Option<Seq<char>>)>
    decreases k,
{
    if k == 0 {
        r
    } else {
        reach_iter(reach_round(r, g, 0), g, (k - 1) as nat)
    }
}

/// The nodes reachable from `source` over the flow graph, the source
/// included: the bounded closure, run for one round per graph binding. Every
/// interior node of a simple path is the key of some binding, so that many
/// rounds cover every simple path.
pub open spec fn reachable_spec(
    source: (Seq<char>, Option<Seq<char>>),
    g: Seq<((Seq<char>, Option<Seq<char>>), Seq<(Seq<char>, Option<Seq<char>>)>)>,
) -> Seq<(Seq<char>, Option<Seq<char>>)> {
    reach_iter(seq![source], g, g.len())
}

/// Compute the raw reachable set of a source node: every node its value can
/// flow into, the source itself included as the closure's seed.
pub fn flow_reachable_set(
    source: &FlowVar,
    graph: &Vec<(FlowVar, Vec<FlowVar>)>,
) -> (r: Vec<FlowVar>)
    ensures
        fv_view(r@) == reachable_spec(source@, fg_view(graph@)),
{
    broadcast use group_fg_axioms, group_fv_axioms;

    let mut reached: Vec<FlowVar> = Vec::new();
    reached.push(source.dup());
    assert(fv_view(reached@) =~= seq![source@]);
    let rounds = graph.len();
    let mut k: usize = 0;
    while k < rounds
        invariant
            k <= rounds,
            rounds == graph@.len(),
            reach_iter(fv_view(reached@), fg_view(graph@), (rounds - k) as nat) == reach_iter(
                seq![source@],
                fg_view(graph@),
                rounds as nat,
            ),
        decreases rounds - k,
    {
        let ghost round_start = fv_view(reached@);
        let mut i: usize = 0;
        while i < graph.len()
            invariant
                i <= graph.len(),
                reach_round(fv_view(reached@), fg_view(graph@), i as int) == reach_round(
                    round_start,
                    fg_view(graph@),
                    0,
                ),
            decreases graph.len() - i,
        {
            if contains_fv(&reached, &graph[i].0) {
                let ghost rpre = fv_view(reached@);
                let row = &graph[i].1;
                let mut j: usize = 0;
                while j < row.len()
                    invariant
                        j <= row.len(),
                        i < graph@.len(),
                        row == &graph@[i as int].1,
                        add_targets(fv_view(reached@), fv_view(graph@[i as int].1@), j as int)
                            == add_targets(rpre, fv_view(graph@[i as int].1@), 0),
                    decreases row.len() - j,
                {
                    push_unique_fv(&mut reached, row[j].dup());
                    j += 1;
                }
            }
            i += 1;
        }
        k += 1;
    }
    reached
}

/// Spec-level value of a [`TaintSource`].
pub enum TaintSourceV {
    FunctionParameter { function_name: Seq<char>, param_index: int, param_name: Seq<char> },
    MsgSender,
    MsgValue,
    MsgData,
    ExternalCallReturn { contract_var: Seq<char>, function_name: Seq<char> },
    TaintedArrayAccess { base_var: Seq<char> },
}

impl View for TaintSource {
    type V = TaintSourceV;

    open spec fn view(&self) -> TaintSourceV {
        match self {
            TaintSource::FunctionParameter { function_name, param_index, param_name } =>
                TaintSourceV::FunctionParameter {
                function_name: function_name@,
                param_index: *param_index as int,
                param_name: param_name@,
            },
            TaintSource::MsgSender => TaintSourceV::MsgSender,
            TaintSource::MsgValue => TaintSourceV::MsgValue,
            TaintSource::MsgData => TaintSourceV::MsgData,
            TaintSource::ExternalCallReturn { contract_var, function_name } =>
                TaintSourceV::ExternalCallReturn {
                contract_var: contract_var@,
                function_name: function_name@,
            },
            TaintSource::TaintedArrayAccess { base_var } => TaintSourceV::TaintedArrayAccess {
                base_var: base_var@,
            },
        }
    }
}

/// Spec-level value of a [`TaintSink`].
pub enum TaintSinkV {
    StateModification { var_name: Seq<char>, field_path: Option<crate::models::FieldPathV> },
    ExternalCall { target_var: Seq<char>, function_name: Seq<char> },
    ValueTransfer { target_expr: Option<(Seq<char>, Option<Seq<char>>)> },
    DelegateCall { target_expr: Option<(Seq<char>, Option<Seq<char>>)> },
    SelfDestruct { target_expr: Option<(Seq<char>, Option<Seq<char>>)> },
    ArrayIndex { array_var: Seq<char> },
}

impl View for TaintSink {
    type V = TaintSinkV;

    open spec fn view(&self) -> TaintSinkV {
        match self {
            TaintSink::StateModification { var_name, field_path } => TaintSinkV::StateModification {
                var_name: var_name@,
                field_path: match field_path {
                    Some(p) => Some(p@),
                    None => None,
                },
            },
            TaintSink::ExternalCall { target_var, function_name } => TaintSinkV::ExternalCall {
                target_var: target_var@,
                function_name: function_name@,
            },
            TaintSink::ValueTransfer { target_expr } => TaintSinkV::ValueTransfer {
                target_expr: match target_expr {
                    Some(v) => Some(v@),
                    None => None,
                },
            },
            TaintSink::DelegateCall { target_expr } => TaintSinkV::DelegateCall {
                target_expr: match target_expr {
                    Some(v) => Some(v@),
                    None => None,
                },
            },
            TaintSink::SelfDestruct { target_expr } => TaintSinkV::SelfDestruct {
                target_expr: match target_expr {
                    Some(v) => Some(v@),
                    None => None,
                },
            },
            TaintSink::ArrayIndex { array_var } => TaintSinkV::ArrayIndex {
                array_var: array_var@,
            },
        }
    }
}

/// The views of a source list.
pub open spec fn ts_of(s: Seq<TaintSource>) -> Seq<TaintSourceV> {
    s.map_values(|x: TaintSource| x@)
}

pub broadcast proof fn ts_of_len(s: Seq<TaintSource>)
    ensures
        #[trigger] ts_of(s).len() == s.len(),
{
}

pub broadcast proof fn ts_of_index(s: Seq<TaintSource>, i: int)
    requires
        0 <= i < s.len(),
    ensures
        #[trigger] ts_of(s)[i] == s[i]@,
{
}

pub broadcast proof fn ts_of_push(s: Seq<TaintSource>, x: TaintSource)
    ensures
        #[trigger] ts_of(s.push(x)) =~= ts_of(s).push(x@),
{
    broadcast use ts_of_len, ts_of_index;

}

pub broadcast group group_ts_axioms {
    ts_of_len,
    ts_of_index,
    ts_of_push,
}

/// The views of a sink list.
pub open spec fn tk_of(s: Seq<TaintSink>) -> Seq<TaintSinkV> {
    s.map_values(|x: TaintSink| x@)
}

pub broadcast proof fn tk_of_len(s: Seq<TaintSink>)
    ensures
        #[trigger] tk_of(s).len() == s.len(),
{
}

pub broadcast proof fn tk_of_index(s: Seq<TaintSink>, i: int)
    requires
        0 <= i < s.len(),
    ensures
        #[trigger] tk_of(s)[i] == s[i]@,
{
}

pub broadcast proof fn tk_of_push(s: Seq<TaintSink>, x: TaintSink)
    ensures
        #[trigger] tk_of(s.push(x)) =~= tk_of(s).push(x@),
{
    broadcast use tk_of_len, tk_of_index;

}

pub broadcast group group_tk_axioms {
    tk_of_len,
    tk_of_index,
    tk_of_push,
}

impl TaintSource {
    /// An equal copy of this source.
    pub fn dup(&self) -> (r: TaintSource)
        ensures
            r@ == self@,
    {
        match self {
            TaintSource::FunctionParameter { function_name, param_index, param_name } =>
                TaintSource::FunctionParameter {
                function_name: function_name.clone(),
                param_index: *param_index,
                param_name: param_name.clone(),
            },
            TaintSource::MsgSender => TaintSource::MsgSender,
            TaintSource::MsgValue => TaintSource::MsgValue,
            TaintSource::MsgData => TaintSource::MsgData,
            TaintSource::ExternalCallReturn { contract_var, function_name } =>
                TaintSource::ExternalCallReturn {
                contract_var: contract_var.clone(),
                function_name: function_name.clone(),
            },
            TaintSource::TaintedArrayAccess { base_var } => TaintSource::TaintedArrayAccess {
                base_var: base_var.clone(),
            },
        }
    }
}

impl TaintSink {
    /// An equal copy of this sink.
    pub fn dup(&self) -> (r: TaintSink)
        ensures
            r@ == self@,
    {
        match self {
            TaintSink::StateModification { var_name, field_path } => TaintSink::StateModification {
                var_name: var_name.clone(),
                field_path: match field_path {
                    Some(p) => Some(p.dup()),
                    None => None,
                },
            },
            TaintSink::ExternalCall { target_var, function_name } => TaintSink::ExternalCall {
                target_var: target_var.clone(),
                function_name: function_name.clone(),
            },
            TaintSink::ValueTransfer { target_expr } => TaintSink::ValueTransfer {
                target_expr: match target_expr {
                    Some(v) => Some(v.dup()),
                    None => None,
                },
            },
            TaintSink::DelegateCall { target_expr } => TaintSink::DelegateCall {
                target_expr: match target_expr {
                    Some(v) => Some(v.dup()),
                    None => None,
                },
            },
            TaintSink::SelfDestruct { target_expr } => TaintSink::SelfDestruct {
                target_expr: match target_expr {
                    Some(v) => Some(v.dup()),
                    None => None,
                },
            },
            TaintSink::ArrayIndex { array_var } => TaintSink::ArrayIndex {
                array_var: array_var.clone(),
            },
        }
    }
}

/// The fixed severity table, keyed by the source and sink kinds alone.
pub open spec fn severity_spec(source: TaintSourceV, sink: TaintSinkV) -> TaintSeverity {
    match (source, sink) {
        (TaintSourceV::FunctionParameter { .. }, TaintSinkV::DelegateCall { .. })
            => TaintSeverity::Critical,
        (TaintSourceV::FunctionParameter { .. }, TaintSinkV::SelfDestruct { .. })
            => TaintSeverity::Critical,
        (TaintSourceV::FunctionParameter { .. }, TaintSinkV::ExternalCall { .. })
            => TaintSeverity::High,
        (TaintSourceV::FunctionParameter { .. }, TaintSinkV::ValueTransfer { .. })
            => TaintSeverity::High,
        (TaintSourceV::FunctionParameter { .. }, TaintSinkV::StateModification { .. })
            => TaintSeverity::Medium,
        (TaintSourceV::MsgSender, TaintSinkV::DelegateCall { .. }) => TaintSeverity::Medium,
        _ => TaintSeverity::Low,
    }
}

/// Assign the severity of one flow from the fixed priority table:
/// attacker-controlled `delegatecall` or `selfdestruct` is critical, an
/// attacker-controlled external call or value transfer high, an
/// attacker-controlled state write medium, a sender-keyed `delegatecall`
/// medium, anything else low.
pub fn assess_severity(source: &TaintSource, sink: &TaintSink) -> (r: TaintSeverity)
    ensures
        r == severity_spec(source@, sink@),
{
    match (source, sink) {
        (TaintSource::FunctionParameter { .. }, TaintSink::DelegateCall { .. })
            => TaintSeverity::Critical,
        (TaintSource::FunctionParameter { .. }, TaintSink::SelfDestruct { .. })
            => TaintSeverity::Critical,
        (TaintSource::FunctionParameter { .. }, TaintSink::ExternalCall { .. })
            => TaintSeverity::High,
        (TaintSource::FunctionParameter { .. }, TaintSink::ValueTransfer { .. })
            => TaintSeverity::High,
        (TaintSource::FunctionParameter { .. }, TaintSink::StateModification { .. })
            => TaintSeverity::Medium,
        (TaintSource::MsgSender, TaintSink::DelegateCall { .. }) => TaintSeverity::Medium,
        _ => TaintSeverity::Low,
    }
}

/// Spec-level value of a [`TaintFlow`].
pub struct TaintFlowV {
    pub source: TaintSourceV,
    pub sink: TaintSinkV,
    pub function_name: Seq<char>,
    pub path: Seq<(Seq<char>, Option<Seq<char>>)>,
    pub is_validated: bool,
    pub severity: TaintSeverity,
}

impl View for TaintFlow {
    type V = TaintFlowV;

    open spec fn view(&self) -> TaintFlowV {
        TaintFlowV {
            source: self.source@,
            sink: self.sink@,
            function_name: self.function_name@,
            path: fv_view(self.path@),
            is_validated: self.is_validated,
            severity: self.severity,
        }
    }
}

/// The views of a flow list.
pub open spec fn tf_of(s: Seq<TaintFlow>) -> Seq<TaintFlowV> {
    s.map_values(|x: TaintFlow| x@)
}

pub broadcast proof fn tf_of_len(s: Seq<TaintFlow>)
    ensures
        #[trigger] tf_of(s).len() == s.len(),
{
}

pub broadcast proof fn tf_of_index(s: Seq<TaintFlow>, i: int)
    requires
        0 <= i < s.len(),
    ensures
        #[trigger] tf_of(s)[i] == s[i]@,
{
}

pub broadcast proof fn tf_of_push(s: Seq<TaintFlow>, x: TaintFlow)
    ensures
        #[trigger] tf_of(s.push(x)) =~= tf_of(s).push(x@),
{
    broadcast use tf_of_len, tf_of_index;

}

pub broadcast group group_tf_axioms {
    tf_of_len,
    tf_of_index,
    tf_of_push,
}

/// Spec-level value of a [`ParameterInfluence`].
pub struct ParameterInfluenceV {
    pub function_name: Seq<char>,
    pub param_index: int,
    pub param_name: Seq<char>,
    pub influenced_state_vars: Seq<Seq<char>>,
    pub influence_type: InfluenceType,
}

impl View for ParameterInfluence {
    type V = ParameterInfluenceV;

    open spec fn view(&self) -> ParameterInfluenceV {
        ParameterInfluenceV {
            function_name: self.function_name@,
            param_index: self.param_index as int,
            param_name: self.param_name@,
            influenced_state_vars: crate::names::names_of(self.influenced_state_vars@),
            influence_type: self.influence_type,
        }
    }
}

/// The views of an influence list.
pub open spec fn pi_of(s: Seq<ParameterInfluence>) -> Seq<ParameterInfluenceV> {
    s.map_values(|x: ParameterInfluence| x@)
}

pub broadcast proof fn pi_of_len(s: Seq<ParameterInfluence>)
    ensures
        #[trigger] pi_of(s).len() == s.len(),
{
}

pub broadcast proof fn pi_of_index(s: Seq<ParameterInfluence>, i: int)
    requires
        0 <= i < s.len(),
    ensures
        #[trigger] pi_of(s)[i] == s[i]@,
{
}

pub broadcast proof fn pi_of_push(s: Seq<ParameterInfluence>, x: ParameterInfluence)
    ensures
        #[trigger] pi_of(s.push(x)) =~= pi_of(s).push(x@),
{
    broadcast use pi_of_len, pi_of_index;

}

pub broadcast group group_pi_axioms {
    pi_of_len,
    pi_of_index,
    pi_of_push,
}

/// Whether some recorded edge leads back into the source from a reached node.
pub open spec fn reaches_again_spec(
    source: (Seq<char>, Option<Seq<char>>),
    g: Seq<((Seq<char>, Option<Seq<char>>), Seq<(Seq<char>, Option<Seq<char>>)>)>,
    r: Seq<(Seq<char>, Option<Seq<char>>)>,
) -> bool {
    exists|i: int| 0 <= i < g.len() && r.contains(#[trigger] g[i].0) && g[i].1.contains(source)
}

/// The state-variable nodes among the reached ones: a reached node whose root
/// is a state variable, with the source itself kept only when some edge leads
/// back into it.
pub open spec fn influenced_nodes_spec(
    r: Seq<(Seq<char>, Option<Seq<char>>)>,
    svs: Seq<Seq<char>>,
    source: (Seq<char>, Option<Seq<char>>),
    again: bool,
    j: int,
    acc: Seq<(Seq<char>, Option<Seq<char>>)>,
) -> Seq<(Seq<char>, Option<Seq<char>>)>
    decreases r.len() - j,
{
    if j < 0 || j >= r.len() {
        acc
    } else {
        let acc1 = if svs.contains(r[j].0) && (r[j] != source || again) {
            crate::names::push_unique_gen(acc, r[j])
        } else {
            acc
        };
        influenced_nodes_spec(r, svs, source, again, j + 1, acc1)
    }
}

/// The state-variable nodes the source's value flows into through one or more
/// recorded edges.
pub open spec fn influenced_spec(
    source: (Seq<char>, Option<Seq<char>>),
    g: Seq<((Seq<char>, Option<Seq<char>>), Seq<(Seq<char>, Option<Seq<char>>)>)>,
    svs: Seq<Seq<char>>,
) -> Seq<(Seq<char>, Option<Seq<char>>)> {
    let r = reachable_spec(source, g);
    influenced_nodes_spec(r, svs, source, reaches_again_spec(source, g, r), 0, Seq::empty())
}

/// Trace which state-variable nodes the source's value can flow into through
/// at least one recorded edge: the reached nodes whose root names a state
/// variable, with the source itself counted only when some edge re-enters it.
pub fn trace_variable_influence(
    source: &FlowVar,
    graph: &Vec<(FlowVar, Vec<FlowVar>)>,
    state_vars: &Vec<String>,
) -> (r: Vec<FlowVar>)
    ensures
        fv_view(r@) == influenced_spec(source@, fg_view(graph@), crate::names::names_of(
            state_vars@,
        )),
{
    broadcast use group_fv_axioms, group_fg_axioms, crate::names::group_names_axioms;

    let reached = flow_reachable_set(source, graph);
    let mut again = false;
    let mut i: usize = 0;
    while i < graph.len()
        invariant
            i <= graph.len(),
            fv_view(reached@) == reachable_spec(source@, fg_view(graph@)),
            again ==> reaches_again_spec(source@, fg_view(graph@), fv_view(reached@)),
            !again ==> forall|ii: int|
                0 <= ii < i ==> !(fv_view(reached@).contains(#[trigger] fg_view(graph@)[ii].0)
                    && fg_view(graph@)[ii].1.contains(source@)),
        decreases graph.len() - i,
    {
        if !again && contains_fv(&reached, &graph[i].0) && contains_fv(&graph[i].1, source) {
            proof {
                assert(fg_view(graph@)[i as int] == (graph@[i as int].0@, fv_view(
                    graph@[i as int].1@,
                )));
                assert(fv_view(reached@).contains(fg_view(graph@)[i as int].0));
                assert(fg_view(graph@)[i as int].1.contains(source@));
                assert(reaches_again_spec(source@, fg_view(graph@), fv_view(reached@)));
            }
            again = true;
        }
        i += 1;
    }
    let mut out: Vec<FlowVar> = Vec::new();
    assert(fv_view(out@) =~= Seq::<(Seq<char>, Option<Seq<char>>)>::empty());
    let ghost rv = fv_view(reached@);
    let ghost svs = crate::names::names_of(state_vars@);
    let mut j: usize = 0;
    while j < reached.len()
        invariant
            j <= reached.len(),
            rv == fv_view(reached@),
            svs == crate::names::names_of(state_vars@),
            influenced_nodes_spec(rv, svs, source@, again, j as int, fv_view(out@))
                == influenced_nodes_spec(rv, svs, source@, again, 0, Seq::empty()),
        decreases reached.len() - j,
    {
        let node = &reached[j];
        if crate::names::contains_name(state_vars, &node.base) && (again || !node.same_as(source)) {
            push_unique_fv(&mut out, node.dup());
        }
        j += 1;
    }
    out
}

} // verus!
