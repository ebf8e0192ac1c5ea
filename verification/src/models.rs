//! The contract model: what the parser extracts from one contract and what
//! the analysis passes fill in. Derived fields start empty and are populated
//! in pass order; unresolved mutation targets are explicit variants of
//! [`PathBase`], never marker strings.

use vstd::prelude::*;
use crate::dataflow::DataFlowAnalysis;

verus! {

/// The root a field-level mutation path was resolved to.
///
/// A path through a storage-reference parameter or through a namespaced
/// storage-struct accessor cannot be resolved from the function body alone;
/// those stay pending until a later pass supplies the context.
#[derive(Debug, Clone, PartialEq, Eq)]
pub enum PathBase {
    /// The path is rooted at this state variable (or synthesized field).
    Resolved(String),
    /// The path is rooted at the storage-reference parameter with this
    /// position in the parameter list.
    PendingParam(usize),
    /// The path is rooted at a local obtained from a namespaced
    /// storage-struct accessor.
    PendingStorageStruct,
}

/// A field-level mutation path: a root plus the member names below it.
#[derive(Debug, Clone, PartialEq, Eq)]
pub struct FieldPath {
    pub base: PathBase,
    pub fields: Vec<String>,
}

/// Spec-level value of a [`PathBase`].
pub enum PathBaseV {
    Resolved(Seq<char>),
    PendingParam(int),
    PendingStorageStruct,
}

/// Spec-level value of a [`FieldPath`].
pub struct FieldPathV {
    pub base: PathBaseV,
    pub fields: Seq<Seq<char>>,
}

impl View for PathBase {
    type V = PathBaseV;

    open spec fn view(&self) -> PathBaseV {
        match self {
            PathBase::Resolved(s) => PathBaseV::Resolved(s@),
            PathBase::PendingParam(i) => PathBaseV::PendingParam(*i as int),
            PathBase::PendingStorageStruct => PathBaseV::PendingStorageStruct,
        }
    }
}

impl View for FieldPath {
    type V = FieldPathV;

    open spec fn view(&self) -> FieldPathV {
        FieldPathV { base: self.base@, fields: crate::names::names_of(self.fields@) }
    }
}

/// The views of a sequence of field paths.
pub open spec fn paths_of(s: Seq<FieldPath>) -> Seq<FieldPathV> {
    s.map_values(|p: FieldPath| p@)
}

pub broadcast proof fn paths_of_len(s: Seq<FieldPath>)
    ensures
        #[trigger] paths_of(s).len() == s.len(),
{
}

pub broadcast proof fn paths_of_index(s: Seq<FieldPath>, i: int)
    requires
        0 <= i < s.len(),
    ensures
        #[trigger] paths_of(s)[i] == s[i]@,
{
}

pub broadcast proof fn paths_of_push(s: Seq<FieldPath>, p: FieldPath)
    ensures
        #[trigger] paths_of(s.push(p)) =~= paths_of(s).push(p@),
{
    broadcast use paths_of_len, paths_of_index;

}

pub broadcast group group_paths_axioms {
    paths_of_len,
    paths_of_index,
    paths_of_push,
}

/// Insert a field path unless an equal one is already present.
pub open spec fn push_unique_path_spec(s: Seq<FieldPathV>, p: FieldPathV) -> Seq<FieldPathV> {
    if s.contains(p) {
        s
    } else {
        s.push(p)
    }
}

impl PathBase {
    /// Whether the two roots are the same.
    pub fn same_as(&self, other: &PathBase) -> (r: bool)
        ensures
            r == (self@ == other@),
    {
        match (self, other) {
            (PathBase::Resolved(a), PathBase::Resolved(b)) => a.eq(b),
            (PathBase::PendingParam(a), PathBase::PendingParam(b)) => a == b,
            (PathBase::PendingStorageStruct, PathBase::PendingStorageStruct) => true,
            _ => false,
        }
    }
}

impl FieldPath {
    /// An equal copy of this path.
    pub fn dup(&self) -> (r: FieldPath)
        ensures
            r@ == self@,
    {
        broadcast use crate::names::group_names_axioms;

        let base = match &self.base {
            PathBase::Resolved(s) => PathBase::Resolved(s.clone()),
            PathBase::PendingParam(i) => PathBase::PendingParam(*i),
            PathBase::PendingStorageStruct => PathBase::PendingStorageStruct,
        };
        let mut fields: Vec<String> = Vec::new();
        let mut i: usize = 0;
        while i < self.fields.len()
            invariant
                i <= self.fields.len(),
                fields@.len() == i,
                forall|j: int|
                    0 <= j < i ==> crate::names::names_of(fields@)[j] == crate::names::names_of(
                        self.fields@,
                    )[j],
            decreases self.fields.len() - i,
        {
            let ghost pre = crate::names::names_of(fields@);
            fields.push(self.fields[i].clone());
            assert(crate::names::names_of(fields@) =~= pre.push(self.fields@[i as int]@));
            i += 1;
        }
        assert(crate::names::names_of(fields@) =~= crate::names::names_of(self.fields@));
        FieldPath { base, fields }
    }

    /// Whether the two paths name the same root and fields.
    pub fn same_as(&self, other: &FieldPath) -> (r: bool)
        ensures
            r == (self@ == other@),
    {
        broadcast use crate::names::group_names_axioms;

        if !self.base.same_as(&other.base) {
            return false;
        }
        if self.fields.len() != other.fields.len() {
            assert(self@.fields.len() != other@.fields.len());
            return false;
        }
        let mut i: usize = 0;
        while i < self.fields.len()
            invariant
                i <= self.fields.len(),
                self.fields.len() == other.fields.len(),
                self.base@ == other.base@,
                forall|j: int|
                    0 <= j < i ==> crate::names::names_of(self.fields@)[j] == crate::names::names_of(
                        other.fields@,
                    )[j],
            decreases self.fields.len() - i,
        {
            if !self.fields[i].eq(&other.fields[i]) {
                assert(crate::names::names_of(self.fields@)[i as int] != crate::names::names_of(
                    other.fields@,
                )[i as int]);
                return false;
            }
            i += 1;
        }
        assert(crate::names::names_of(self.fields@) =~= crate::names::names_of(other.fields@));
        true
    }
}

/// Append a field path unless an equal one is already present.
pub fn push_unique_path(v: &mut Vec<FieldPath>, p: FieldPath)
    ensures
        paths_of(final(v)@) == push_unique_path_spec(paths_of(old(v)@), p@),
{
    broadcast use group_paths_axioms;

    let mut i: usize = 0;
    while i < v.len()
        invariant
            i <= v.len(),
            forall|j: int| 0 <= j < i ==> paths_of(v@)[j] != p@,
        decreases v.len() - i,
    {
        if v[i].same_as(&p) {
            assert(paths_of(v@)[i as int] == p@);
            return ;
        }
        i += 1;
    }
    assert(!paths_of(v@).contains(p@));
    v.push(p);
}

/// A storage-reference parameter: its position and its name.
#[derive(Debug, Clone, PartialEq, Eq)]
pub struct StorageParamInfo {
    pub param_index: usize,
    pub param_name: String,
}

/// One link of a call chain: a caller and its visibility.
#[derive(Debug, Clone, PartialEq, Eq)]
pub struct FunctionCall {
    pub function_name: String,
    pub visibility: String,
}

/// A state variable's modification chain: the function holding the literal
/// mutation, and every function that can reach it through internal calls.
#[derive(Debug, Clone, PartialEq, Eq)]
pub struct ModificationChain {
    pub direct_modifier: String,
    pub direct_modifier_visibility: String,
    pub call_chain: Vec<FunctionCall>,
}

/// An external call from one contract into another.
#[derive(Debug, Clone, PartialEq, Eq)]
pub struct ExternalCall {
    pub source_contract: String,
    pub source_function: String,
    pub target_variable: String,
    pub target_type: String,
    pub target_function: String,
    pub target_contract: Option<String>,
    pub state_mutability: String,
    pub line_number: usize,
    pub target_modifies_states: Vec<String>,
    pub target_reads_states: Vec<String>,
}

/// Spec-level value of an [`ExternalCall`].
pub struct ExternalCallV {
    pub source_contract: Seq<char>,
    pub source_function: Seq<char>,
    pub target_variable: Seq<char>,
    pub target_type: Seq<char>,
    pub target_function: Seq<char>,
    pub target_contract: Option<Seq<char>>,
    pub state_mutability: Seq<char>,
    pub line_number: int,
    pub target_modifies_states: Seq<Seq<char>>,
    pub target_reads_states: Seq<Seq<char>>,
}

impl View for ExternalCall {
    type V = ExternalCallV;

    open spec fn view(&self) -> ExternalCallV {
        ExternalCallV {
            source_contract: self.source_contract@,
            source_function: self.source_function@,
            target_variable: self.target_variable@,
            target_type: self.target_type@,
            target_function: self.target_function@,
            target_contract: match self.target_contract {
                Some(ref c) => Some(c@),
                None => None,
            },
            state_mutability: self.state_mutability@,
            line_number: self.line_number as int,
            target_modifies_states: crate::names::names_of(self.target_modifies_states@),
            target_reads_states: crate::names::names_of(self.target_reads_states@),
        }
    }
}

/// The views of a sequence of external calls.
pub open spec fn ecs_of(s: Seq<ExternalCall>) -> Seq<ExternalCallV> {
    s.map_values(|c: ExternalCall| c@)
}

pub broadcast proof fn ecs_of_len(s: Seq<ExternalCall>)
    ensures
        #[trigger] ecs_of(s).len() == s.len(),
{
}

pub broadcast proof fn ecs_of_index(s: Seq<ExternalCall>, i: int)
    requires
        0 <= i < s.len(),
    ensures
        #[trigger] ecs_of(s)[i] == s[i]@,
{
}

pub broadcast proof fn ecs_of_push(s: Seq<ExternalCall>, c: ExternalCall)
    ensures
        #[trigger] ecs_of(s.push(c)) =~= ecs_of(s).push(c@),
{
    broadcast use ecs_of_len, ecs_of_index;

}

pub broadcast group group_ecs_axioms {
    ecs_of_len,
    ecs_of_index,
    ecs_of_push,
}

/// A declared state variable with its derived access chains.
#[derive(Debug, Clone, PartialEq, Eq)]
pub struct StateVariable {
    pub name: String,
    pub var_type: String,
    pub visibility: String,
    pub is_constant: bool,
    pub is_immutable: bool,
    pub line_number: usize,
    pub modification_chains: Vec<ModificationChain>,
    pub read_chains: Vec<ModificationChain>,
}

/// One member of a struct definition.
#[derive(Debug, Clone, PartialEq, Eq)]
pub struct StructMember {
    pub name: String,
    pub member_type: String,
}

/// A struct definition, with the storage-location annotation found in the
/// comment immediately preceding it, when there is one.
#[derive(Debug, Clone, PartialEq, Eq)]
pub struct StructDef {
    pub name: String,
    pub members: Vec<StructMember>,
    pub line_number: usize,
    pub storage_location: Option<String>,
}

/// An enum definition.
#[derive(Debug, Clone, PartialEq, Eq)]
pub struct EnumDef {
    pub name: String,
    pub values: Vec<String>,
    pub line_number: usize,
}

/// One parameter of an event.
#[derive(Debug, Clone, PartialEq, Eq)]
pub struct EventParam {
    pub name: String,
    pub param_type: String,
    pub indexed: bool,
}

/// An event definition, with the functions found to emit it.
#[derive(Debug, Clone, PartialEq, Eq)]
pub struct EventDef {
    pub name: String,
    pub parameters: Vec<EventParam>,
    pub line_number: usize,
    pub emitted_in: Vec<String>,
}

/// A modifier definition, with the functions that apply it.
#[derive(Debug, Clone, PartialEq, Eq)]
pub struct ModifierDef {
    pub name: String,
    pub parameters: Vec<String>,
    pub line_number: usize,
    pub used_in: Vec<String>,
}

/// One parameter of a custom error.
#[derive(Debug, Clone, PartialEq, Eq)]
pub struct ErrorParam {
    pub name: String,
    pub param_type: String,
}

/// A custom error, with the functions and modifiers that raise it. An error
/// raised but not declared in this contract is recorded with
/// `is_inherited` set rather than rejected.
#[derive(Debug, Clone, PartialEq, Eq)]
pub struct ErrorDef {
    pub name: String,
    pub parameters: Vec<ErrorParam>,
    pub line_number: usize,
    pub used_in: Vec<String>,
    pub is_inherited: bool,
}

/// Whether a call whose return value is inspected targets this contract or
/// another one.
#[derive(Debug, Clone, PartialEq, Eq)]
pub enum ReturnCallType {
    Internal,
    External,
}

/// How the return value of a call is consumed.
#[derive(Debug, Clone, PartialEq, Eq)]
pub enum ReturnUsageType {
    Assigned,
    UsedInExpression,
    UsedInCondition,
    Returned,
    PassedAsArgument,
    Ignored,
}

/// A call whose return value is consumed, and how.
#[derive(Debug, Clone, PartialEq, Eq)]
pub struct ReturnValueUsage {
    pub called_function: String,
    pub call_type: ReturnCallType,
    pub usage_type: ReturnUsageType,
    pub assigned_to: Option<String>,
    pub line_number: usize,
}

/// How serious an ignored return value is.
#[derive(Debug, Clone, Copy, PartialEq, Eq, Structural)]
pub enum IgnoredReturnSeverity {
    Info,
    Low,
    Medium,
    High,
}

impl IgnoredReturnSeverity {
    /// A pictogram for this severity level.
    pub fn emoji(&self) -> (r: &'static str)
        ensures
            *self == IgnoredReturnSeverity::Info ==> r@ == "i"@,
            *self == IgnoredReturnSeverity::Low ==> r@ == "!"@,
            *self == IgnoredReturnSeverity::Medium ==> r@ == "!!"@,
            *self == IgnoredReturnSeverity::High ==> r@ == "!!!"@,
    {
        match self {
            IgnoredReturnSeverity::Info => "i",
            IgnoredReturnSeverity::Low => "!",
            IgnoredReturnSeverity::Medium => "!!",
            IgnoredReturnSeverity::High => "!!!",
        }
    }

    /// The display name of this severity level.
    pub fn as_str(&self) -> (r: &'static str)
        ensures
            *self == IgnoredReturnSeverity::Info ==> r@ == "INFO"@,
            *self == IgnoredReturnSeverity::Low ==> r@ == "LOW"@,
            *self == IgnoredReturnSeverity::Medium ==> r@ == "MEDIUM"@,
            *self == IgnoredReturnSeverity::High ==> r@ == "HIGH"@,
    {
        match self {
            IgnoredReturnSeverity::Info => "INFO",
            IgnoredReturnSeverity::Low => "LOW",
            IgnoredReturnSeverity::Medium => "MEDIUM",
            IgnoredReturnSeverity::High => "HIGH",
        }
    }
}

/// A call whose return value the caller discards.
#[derive(Debug, Clone, PartialEq, Eq)]
pub struct IgnoredReturn {
    pub called_function: String,
    pub call_type: ReturnCallType,
    pub is_external_call: bool,
    pub target_contract: Option<String>,
    pub severity: IgnoredReturnSeverity,
    pub line_number: usize,
}

/// A function definition with every derived fact the passes compute.
#[derive(Debug, Clone, PartialEq, Eq)]
pub struct FunctionDef {
    pub name: String,
    pub visibility: String,
    pub state_mutability: String,
    pub parameters: Vec<String>,
    pub returns: Vec<String>,
    pub line_number: usize,
    /// Base names of the state variables this function mutates.
    pub modifies_states: Vec<String>,
    /// Field-level mutation paths, with unresolved roots kept explicit.
    pub modifies_state_fields: Vec<FieldPath>,
    pub reads_states: Vec<String>,
    /// Names of functions of the same contract this function calls.
    pub calls_functions: Vec<String>,
    pub external_calls: Vec<ExternalCall>,
    /// Parameters passed by storage reference.
    pub storage_params: Vec<StorageParamInfo>,
    pub uses_modifiers: Vec<String>,
    pub modifier_order: Vec<String>,
    pub emits_events: Vec<String>,
    pub uses_errors: Vec<String>,
    pub has_unchecked: bool,
    pub return_value_usage: Vec<ReturnValueUsage>,
    pub ignored_returns: Vec<IgnoredReturn>,
}

/// Whether two function records agree on every field except the coarse
/// mutation set.
pub open spec fn same_but_modifies_states(a: FunctionDef, b: FunctionDef) -> bool {
    &&& a.name == b.name
    &&& a.visibility == b.visibility
    &&& a.state_mutability == b.state_mutability
    &&& a.parameters == b.parameters
    &&& a.returns == b.returns
    &&& a.line_number == b.line_number
    &&& a.modifies_state_fields == b.modifies_state_fields
    &&& a.reads_states == b.reads_states
    &&& a.calls_functions == b.calls_functions
    &&& a.external_calls == b.external_calls
    &&& a.storage_params == b.storage_params
    &&& a.uses_modifiers == b.uses_modifiers
    &&& a.modifier_order == b.modifier_order
    &&& a.emits_events == b.emits_events
    &&& a.uses_errors == b.uses_errors
    &&& a.has_unchecked == b.has_unchecked
    &&& a.return_value_usage == b.return_value_usage
    &&& a.ignored_returns == b.ignored_returns
}

/// Whether two function records agree on every field except the external
/// calls.
pub open spec fn same_but_external_calls(a: FunctionDef, b: FunctionDef) -> bool {
    &&& a.name == b.name
    &&& a.visibility == b.visibility
    &&& a.state_mutability == b.state_mutability
    &&& a.parameters == b.parameters
    &&& a.returns == b.returns
    &&& a.line_number == b.line_number
    &&& a.modifies_states == b.modifies_states
    &&& a.modifies_state_fields == b.modifies_state_fields
    &&& a.reads_states == b.reads_states
    &&& a.calls_functions == b.calls_functions
    &&& a.storage_params == b.storage_params
    &&& a.uses_modifiers == b.uses_modifiers
    &&& a.modifier_order == b.modifier_order
    &&& a.emits_events == b.emits_events
    &&& a.uses_errors == b.uses_errors
    &&& a.has_unchecked == b.has_unchecked
    &&& a.return_value_usage == b.return_value_usage
    &&& a.ignored_returns == b.ignored_returns
}

/// Spec-level value of a [`StateVariable`].
pub struct StateVariableV {
    pub name: Seq<char>,
    pub var_type: Seq<char>,
    pub visibility: Seq<char>,
    pub is_constant: bool,
    pub is_immutable: bool,
    pub line_number: int,
    pub modification_chains: Seq<(Seq<char>, Seq<char>, Seq<(Seq<char>, Seq<char>)>)>,
    pub read_chains: Seq<(Seq<char>, Seq<char>, Seq<(Seq<char>, Seq<char>)>)>,
}

impl View for StateVariable {
    type V = StateVariableV;

    open spec fn view(&self) -> StateVariableV {
        StateVariableV {
            name: self.name@,
            var_type: self.var_type@,
            visibility: self.visibility@,
            is_constant: self.is_constant,
            is_immutable: self.is_immutable,
            line_number: self.line_number as int,
            modification_chains: crate::chains::mc_view(self.modification_chains@),
            read_chains: crate::chains::mc_view(self.read_chains@),
        }
    }
}

/// The views of a sequence of state variables.
pub open spec fn svars_of(s: Seq<StateVariable>) -> Seq<StateVariableV> {
    s.map_values(|v: StateVariable| v@)
}

pub broadcast proof fn svars_of_len(s: Seq<StateVariable>)
    ensures
        #[trigger] svars_of(s).len() == s.len(),
{
}

pub broadcast proof fn svars_of_index(s: Seq<StateVariable>, i: int)
    requires
        0 <= i < s.len(),
    ensures
        #[trigger] svars_of(s)[i] == s[i]@,
{
}

pub broadcast group group_svars_axioms {
    svars_of_len,
    svars_of_index,
}

/// The namespaced-storage pattern: an annotated struct, its slot constant,
/// and its private accessor. Its fields become synthetic state variables.
#[derive(Debug, Clone, PartialEq, Eq)]
pub struct UpgradeableStorage {
    pub namespace: String,
    pub storage_struct: String,
    pub storage_location_constant: String,
    pub storage_slot: String,
    pub accessor_function: String,
    pub struct_fields: Vec<StructMember>,
    pub line_number: usize,
}

/// Everything known about one contract after parsing and analysis.
#[derive(Debug, Clone, PartialEq, Eq)]
pub struct ContractInfo {
    pub name: String,
    pub file_path: String,
    pub state_variables: Vec<StateVariable>,
    pub structs: Vec<StructDef>,
    pub enums: Vec<EnumDef>,
    pub events: Vec<EventDef>,
    pub functions: Vec<FunctionDef>,
    pub modifiers: Vec<ModifierDef>,
    pub errors: Vec<ErrorDef>,
    pub upgradeable_storage: Option<UpgradeableStorage>,
    pub dataflow_analysis: Option<DataFlowAnalysis>,
}

} // verus!
