//! Constraint streams: a constraint is built as a list of stream components
//! (a source, filters, joins, and a penalty or reward), with the analyzed
//! lambdas that the filters and joiners refer to by name.
//!
//! The builder methods consume the stream they extend and hand back the
//! extended one.

use vstd::prelude::*;
use crate::classes::ClassRegistry;
use crate::error::AnalysisError;
use crate::lambda::{LambdaCode, LambdaInfo, LambdaNamer, WasmFunction, lambda_name, spec_analyze_lambda};
use crate::score::{HardMediumSoftScore, HardSoftScore, SimpleScore};
use crate::text::{int_to_decimal, nat_digits, push_i64_decimal, push_u64_digits};

verus! {

// ---------------------------------------------------------------------------
// Joiners
// ---------------------------------------------------------------------------

/// How two streams are matched.
#[derive(Debug, Clone)]
pub enum Joiner {
    Equal {
        map: Option<WasmFunction>,
        left_map: Option<WasmFunction>,
        right_map: Option<WasmFunction>,
        relation_predicate: Option<WasmFunction>,
        hasher: Option<WasmFunction>,
    },
    LessThan { map: Option<WasmFunction>, left_map: Option<WasmFunction>, right_map: Option<WasmFunction>, comparator: WasmFunction },
    LessThanOrEqual {
        map: Option<WasmFunction>,
        left_map: Option<WasmFunction>,
        right_map: Option<WasmFunction>,
        comparator: WasmFunction,
    },
    GreaterThan {
        map: Option<WasmFunction>,
        left_map: Option<WasmFunction>,
        right_map: Option<WasmFunction>,
        comparator: WasmFunction,
    },
    GreaterThanOrEqual {
        map: Option<WasmFunction>,
        left_map: Option<WasmFunction>,
        right_map: Option<WasmFunction>,
        comparator: WasmFunction,
    },
    Overlapping {
        start_map: Option<WasmFunction>,
        end_map: Option<WasmFunction>,
        left_start_map: Option<WasmFunction>,
        left_end_map: Option<WasmFunction>,
        right_start_map: Option<WasmFunction>,
        right_end_map: Option<WasmFunction>,
        comparator: Option<WasmFunction>,
    },
    Filtering { filter: WasmFunction },
}

fn clone_function(f: &WasmFunction) -> (res: WasmFunction)
    ensures
        res == *f,
{
    WasmFunction { name: f.name.clone() }
}

fn clone_function_opt(f: &Option<WasmFunction>) -> (res: Option<WasmFunction>)
    ensures
        res == *f,
{
    match f {
        Some(w) => Some(clone_function(w)),
        None => None,
    }
}

/// A copy of a joiner.
pub fn clone_joiner(j: &Joiner) -> (res: Joiner)
    ensures
        res == *j,
{
    match j {
        Joiner::Equal { map, left_map, right_map, relation_predicate, hasher } => Joiner::Equal {
            map: clone_function_opt(map),
            left_map: clone_function_opt(left_map),
            right_map: clone_function_opt(right_map),
            relation_predicate: clone_function_opt(relation_predicate),
            hasher: clone_function_opt(hasher),
        },
        Joiner::LessThan { map, left_map, right_map, comparator } => Joiner::LessThan {
            map: clone_function_opt(map),
            left_map: clone_function_opt(left_map),
            right_map: clone_function_opt(right_map),
            comparator: clone_function(comparator),
        },
        Joiner::LessThanOrEqual { map, left_map, right_map, comparator } => Joiner::LessThanOrEqual {
            map: clone_function_opt(map),
            left_map: clone_function_opt(left_map),
            right_map: clone_function_opt(right_map),
            comparator: clone_function(comparator),
        },
        Joiner::GreaterThan { map, left_map, right_map, comparator } => Joiner::GreaterThan {
            map: clone_function_opt(map),
            left_map: clone_function_opt(left_map),
            right_map: clone_function_opt(right_map),
            comparator: clone_function(comparator),
        },
        Joiner::GreaterThanOrEqual { map, left_map, right_map, comparator } => Joiner::GreaterThanOrEqual {
            map: clone_function_opt(map),
            left_map: clone_function_opt(left_map),
            right_map: clone_function_opt(right_map),
            comparator: clone_function(comparator),
        },
        Joiner::Overlapping {
            start_map,
            end_map,
            left_start_map,
            left_end_map,
            right_start_map,
            right_end_map,
            comparator,
        } => Joiner::Overlapping {
            start_map: clone_function_opt(start_map),
            end_map: clone_function_opt(end_map),
            left_start_map: clone_function_opt(left_start_map),
            left_end_map: clone_function_opt(left_end_map),
            right_start_map: clone_function_opt(right_start_map),
            right_end_map: clone_function_opt(right_end_map),
            comparator: clone_function_opt(comparator),
        },
        Joiner::Filtering { filter } => Joiner::Filtering { filter: clone_function(filter) },
    }
}

/// An analyzed mapping or predicate of a joiner. Joiners are made before the
/// stream they join is known, so their lambdas are analyzed for the class
/// `Entity`.
#[derive(Debug, Clone)]
pub struct JoinerLambda {
    pub info: LambdaInfo,
}

impl JoinerLambda {
    /// Name and analyze a joiner lambda.
    pub fn new(
        namer: &mut LambdaNamer,
        reg: &ClassRegistry,
        code: &LambdaCode,
        prefix: &str,
        param_count: usize,
        fuel: u64,
    ) -> (res: Result<JoinerLambda, AnalysisError>)
        ensures
            final(namer).counter() == next_count(old(namer).counter()),
            match res {
                Ok(l) => joiner_lambda_made(l, *reg, *code, prefix@, old(namer).counter(), param_count, fuel),
                Err(e) => entity_analysis_fails(*reg, *code, fuel, e),
            },
    {
        let hint = String::from_str("Entity");
        match LambdaInfo::new(namer, reg, code, prefix, &hint, param_count, fuel) {
            Ok(info) => {
                assert(entity_analysis_gives(*reg, *code, fuel, info.expression));
                Ok(JoinerLambda { info })
            },
            Err(e) => {
                assert(entity_analysis_fails(*reg, *code, fuel, e));
                Err(e)
            },
        }
    }

    /// The function this lambda is compiled to.
    pub fn to_wasm_function(&self) -> (res: WasmFunction)
        ensures
            res.name == self.info.name,
    {
        self.info.to_wasm_function()
    }
}

/// A joiner with the lambdas it refers to.
#[derive(Debug, Clone)]
pub struct PyJoiner {
    pub inner: Joiner,
    pub lambdas: Vec<JoinerLambda>,
}

impl PyJoiner {
    /// The joiner itself.
    pub fn to_rust(&self) -> (res: Joiner)
        ensures
            res == self.inner,
    {
        clone_joiner(&self.inner)
    }

    /// The text of a joiner: which kind it is, e.g. `Joiner.equal(...)`.
    pub fn repr(&self) -> (res: &'static str)
        ensures
            res@ == joiner_repr(self.inner),
    {
        match &self.inner {
            Joiner::Equal { .. } => "Joiner.equal(...)",
            Joiner::LessThan { .. } => "Joiner.less_than(...)",
            Joiner::LessThanOrEqual { .. } => "Joiner.less_than_or_equal(...)",
            Joiner::GreaterThan { .. } => "Joiner.greater_than(...)",
            Joiner::GreaterThanOrEqual { .. } => "Joiner.greater_than_or_equal(...)",
            Joiner::Overlapping { .. } => "Joiner.overlapping(...)",
            Joiner::Filtering { .. } => "Joiner.filtering(...)",
        }
    }
}

/// The text of a joiner.
pub open spec fn joiner_repr(j: Joiner) -> Seq<char> {
    match j {
        Joiner::Equal { .. } => "Joiner.equal(...)"@,
        Joiner::LessThan { .. } => "Joiner.less_than(...)"@,
        Joiner::LessThanOrEqual { .. } => "Joiner.less_than_or_equal(...)"@,
        Joiner::GreaterThan { .. } => "Joiner.greater_than(...)"@,
        Joiner::GreaterThanOrEqual { .. } => "Joiner.greater_than_or_equal(...)"@,
        Joiner::Overlapping { .. } => "Joiner.overlapping(...)"@,
        Joiner::Filtering { .. } => "Joiner.filtering(...)"@,
    }
}

/// The makers of joiners.
pub struct PyJoiners;

} // verus!

verus! {

/// Whether analyzing `code` for the class `Entity` gives `x`.
pub open spec fn entity_analysis_gives(reg: ClassRegistry, code: LambdaCode, fuel: u64, x: crate::expr::Expression) -> bool {
    exists|h: String| h@ == "Entity"@ && spec_analyze_lambda(reg, code, h, fuel) == Ok::<crate::expr::Expression, AnalysisError>(x)
}

/// Whether analyzing `code` for the class `Entity` is refused with `e`.
pub open spec fn entity_analysis_fails(reg: ClassRegistry, code: LambdaCode, fuel: u64, e: AnalysisError) -> bool {
    exists|h: String| h@ == "Entity"@ && spec_analyze_lambda(reg, code, h, fuel) == Err::<crate::expr::Expression, AnalysisError>(e)
}

/// What a joiner lambda made by `JoinerLambda::new` holds.
pub open spec fn joiner_lambda_made(
    l: JoinerLambda,
    reg: ClassRegistry,
    code: LambdaCode,
    prefix: Seq<char>,
    n: u64,
    param_count: usize,
    fuel: u64,
) -> bool {
    &&& l.info.name@ == lambda_name(prefix, n)
    &&& l.info.class_hint matches Some(h) && h@ == "Entity"@
    &&& l.info.param_count == param_count
    &&& entity_analysis_gives(reg, code, fuel, l.info.expression)
}

/// The counter after one more name.
pub open spec fn next_count(n: u64) -> u64 {
    vstd::wrapping::u64_specs::wrapping_add(n, 1)
}

fn compare_function() -> (res: WasmFunction)
    ensures
        res.name@ == "compare"@,
{
    WasmFunction::new("compare")
}

impl PyJoiners {
    /// `Joiners.equal(mapping)`: entities match when the mapping gives equal
    /// values.
    pub fn equal_joiner(
        namer: &mut LambdaNamer,
        reg: &ClassRegistry,
        mapping: &LambdaCode,
        param_count: usize,
        fuel: u64,
    ) -> (res: Result<PyJoiner, AnalysisError>)
        ensures
            final(namer).counter() == next_count(old(namer).counter()),
            match res {
                Ok(j) => {
                    &&& j.lambdas@.len() == 1
                    &&& joiner_lambda_made(j.lambdas@[0], *reg, *mapping, "equal_map"@, old(namer).counter(), param_count, fuel)
                    &&& j.inner == (Joiner::Equal {
                        map: Some(WasmFunction { name: j.lambdas@[0].info.name }),
                        left_map: None,
                        right_map: None,
                        relation_predicate: None,
                        hasher: None,
                    })
                },
                Err(e) => entity_analysis_fails(*reg, *mapping, fuel, e),
            },
    {
        let lambda = match JoinerLambda::new(namer, reg, mapping, "equal_map", param_count, fuel) {
            Ok(l) => l,
            Err(e) => {
                return Err(e);
            },
        };
        let f = lambda.to_wasm_function();
        let mut lambdas = Vec::new();
        lambdas.push(lambda);
        Ok(PyJoiner {
            inner: Joiner::Equal { map: Some(f), left_map: None, right_map: None, relation_predicate: None, hasher: None },
            lambdas,
        })
    }

    /// `Joiners.less_than(mapping)`: entities match when the left mapping is
    /// below the right one.
    pub fn less_than(
        namer: &mut LambdaNamer,
        reg: &ClassRegistry,
        mapping: &LambdaCode,
        param_count: usize,
        fuel: u64,
    ) -> (res: Result<PyJoiner, AnalysisError>)
        ensures
            final(namer).counter() == next_count(old(namer).counter()),
            match res {
                Ok(j) => {
                    &&& j.lambdas@.len() == 1
                    &&& joiner_lambda_made(j.lambdas@[0], *reg, *mapping, "less_than_map"@, old(namer).counter(), param_count, fuel)
                    &&& j.inner matches Joiner::LessThan { map, left_map, right_map, comparator }
                    &&& map == Some(WasmFunction { name: j.lambdas@[0].info.name })
                    &&& left_map is None && right_map is None
                    &&& comparator.name@ == "compare"@
                },
                Err(e) => entity_analysis_fails(*reg, *mapping, fuel, e),
            },
    {
        let lambda = match JoinerLambda::new(namer, reg, mapping, "less_than_map", param_count, fuel) {
            Ok(l) => l,
            Err(e) => {
                return Err(e);
            },
        };
        let f = lambda.to_wasm_function();
        let mut lambdas = Vec::new();
        lambdas.push(lambda);
        Ok(PyJoiner {
            inner: Joiner::LessThan { map: Some(f), left_map: None, right_map: None, comparator: compare_function() },
            lambdas,
        })
    }

    /// `Joiners.less_than_or_equal(mapping)`.
    pub fn less_than_or_equal(
        namer: &mut LambdaNamer,
        reg: &ClassRegistry,
        mapping: &LambdaCode,
        param_count: usize,
        fuel: u64,
    ) -> (res: Result<PyJoiner, AnalysisError>)
        ensures
            final(namer).counter() == next_count(old(namer).counter()),
            match res {
                Ok(j) => {
                    &&& j.lambdas@.len() == 1
                    &&& joiner_lambda_made(
                        j.lambdas@[0],
                        *reg,
                        *mapping,
                        "less_than_or_equal_map"@,
                        old(namer).counter(),
                        param_count,
                        fuel,
                    )
                    &&& j.inner matches Joiner::LessThanOrEqual { map, left_map, right_map, comparator }
                    &&& map == Some(WasmFunction { name: j.lambdas@[0].info.name })
                    &&& left_map is None && right_map is None
                    &&& comparator.name@ == "compare"@
                },
                Err(e) => entity_analysis_fails(*reg, *mapping, fuel, e),
            },
    {
        let lambda = match JoinerLambda::new(namer, reg, mapping, "less_than_or_equal_map", param_count, fuel) {
            Ok(l) => l,
            Err(e) => {
                return Err(e);
            },
        };
        let f = lambda.to_wasm_function();
        let mut lambdas = Vec::new();
        lambdas.push(lambda);
        Ok(PyJoiner {
            inner: Joiner::LessThanOrEqual { map: Some(f), left_map: None, right_map: None, comparator: compare_function() },
            lambdas,
        })
    }

    /// `Joiners.greater_than(mapping)`.
    pub fn greater_than(
        namer: &mut LambdaNamer,
        reg: &ClassRegistry,
        mapping: &LambdaCode,
        param_count: usize,
        fuel: u64,
    ) -> (res: Result<PyJoiner, AnalysisError>)
        ensures
            final(namer).counter() == next_count(old(namer).counter()),
            match res {
                Ok(j) => {
                    &&& j.lambdas@.len() == 1
                    &&& joiner_lambda_made(j.lambdas@[0], *reg, *mapping, "greater_than_map"@, old(namer).counter(), param_count, fuel)
                    &&& j.inner matches Joiner::GreaterThan { map, left_map, right_map, comparator }
                    &&& map == Some(WasmFunction { name: j.lambdas@[0].info.name })
                    &&& left_map is None && right_map is None
                    &&& comparator.name@ == "compare"@
                },
                Err(e) => entity_analysis_fails(*reg, *mapping, fuel, e),
            },
    {
        let lambda = match JoinerLambda::new(namer, reg, mapping, "greater_than_map", param_count, fuel) {
            Ok(l) => l,
            Err(e) => {
                return Err(e);
            },
        };
        let f = lambda.to_wasm_function();
        let mut lambdas = Vec::new();
        lambdas.push(lambda);
        Ok(PyJoiner {
            inner: Joiner::GreaterThan { map: Some(f), left_map: None, right_map: None, comparator: compare_function() },
            lambdas,
        })
    }

    /// `Joiners.greater_than_or_equal(mapping)`.
    pub fn greater_than_or_equal(
        namer: &mut LambdaNamer,
        reg: &ClassRegistry,
        mapping: &LambdaCode,
        param_count: usize,
        fuel: u64,
    ) -> (res: Result<PyJoiner, AnalysisError>)
        ensures
            final(namer).counter() == next_count(old(namer).counter()),
            match res {
                Ok(j) => {
                    &&& j.lambdas@.len() == 1
                    &&& joiner_lambda_made(
                        j.lambdas@[0],
                        *reg,
                        *mapping,
                        "greater_than_or_equal_map"@,
                        old(namer).counter(),
                        param_count,
                        fuel,
                    )
                    &&& j.inner matches Joiner::GreaterThanOrEqual { map, left_map, right_map, comparator }
                    &&& map == Some(WasmFunction { name: j.lambdas@[0].info.name })
                    &&& left_map is None && right_map is None
                    &&& comparator.name@ == "compare"@
                },
                Err(e) => entity_analysis_fails(*reg, *mapping, fuel, e),
            },
    {
        let lambda = match JoinerLambda::new(namer, reg, mapping, "greater_than_or_equal_map", param_count, fuel) {
            Ok(l) => l,
            Err(e) => {
                return Err(e);
            },
        };
        let f = lambda.to_wasm_function();
        let mut lambdas = Vec::new();
        lambdas.push(lambda);
        Ok(PyJoiner {
            inner: Joiner::GreaterThanOrEqual { map: Some(f), left_map: None, right_map: None, comparator: compare_function() },
            lambdas,
        })
    }

    /// `Joiners.overlapping(start, end)`: entities match when their
    /// intervals overlap. The start mapping is named first.
    pub fn overlapping(
        namer: &mut LambdaNamer,
        reg: &ClassRegistry,
        start_mapping: &LambdaCode,
        start_params: usize,
        end_mapping: &LambdaCode,
        end_params: usize,
        fuel: u64,
    ) -> (res: Result<PyJoiner, AnalysisError>)
        ensures
            match res {
                Ok(j) => {
                    &&& final(namer).counter() == next_count(next_count(old(namer).counter()))
                    &&& j.lambdas@.len() == 2
                    &&& joiner_lambda_made(
                        j.lambdas@[0],
                        *reg,
                        *start_mapping,
                        "overlapping_start"@,
                        old(namer).counter(),
                        start_params,
                        fuel,
                    )
                    &&& joiner_lambda_made(
                        j.lambdas@[1],
                        *reg,
                        *end_mapping,
                        "overlapping_end"@,
                        next_count(old(namer).counter()),
                        end_params,
                        fuel,
                    )
                    &&& j.inner matches Joiner::Overlapping {
                        start_map,
                        end_map,
                        left_start_map,
                        left_end_map,
                        right_start_map,
                        right_end_map,
                        comparator,
                    }
                    &&& start_map == Some(WasmFunction { name: j.lambdas@[0].info.name })
                    &&& end_map == Some(WasmFunction { name: j.lambdas@[1].info.name })
                    &&& left_start_map is None && left_end_map is None
                    &&& right_start_map is None && right_end_map is None
                    &&& comparator matches Some(c) && c.name@ == "compare"@
                },
                Err(e) => entity_analysis_fails(*reg, *start_mapping, fuel, e) || entity_analysis_fails(
                    *reg,
                    *end_mapping,
                    fuel,
                    e,
                ),
            },
    {
        let start = match JoinerLambda::new(namer, reg, start_mapping, "overlapping_start", start_params, fuel) {
            Ok(l) => l,
            Err(e) => {
                return Err(e);
            },
        };
        let end = match JoinerLambda::new(namer, reg, end_mapping, "overlapping_end", end_params, fuel) {
            Ok(l) => l,
            Err(e) => {
                return Err(e);
            },
        };
        let sf = start.to_wasm_function();
        let ef = end.to_wasm_function();
        let mut lambdas = Vec::new();
        lambdas.push(start);
        lambdas.push(end);
        Ok(PyJoiner {
            inner: Joiner::Overlapping {
                start_map: Some(sf),
                end_map: Some(ef),
                left_start_map: None,
                left_end_map: None,
                right_start_map: None,
                right_end_map: None,
                comparator: Some(compare_function()),
            },
            lambdas,
        })
    }

    /// `Joiners.filtering(predicate)`: pairs match when the two-entity
    /// predicate holds.
    pub fn filtering(
        namer: &mut LambdaNamer,
        reg: &ClassRegistry,
        predicate: &LambdaCode,
        param_count: usize,
        fuel: u64,
    ) -> (res: Result<PyJoiner, AnalysisError>)
        ensures
            final(namer).counter() == next_count(old(namer).counter()),
            match res {
                Ok(j) => {
                    &&& j.lambdas@.len() == 1
                    &&& joiner_lambda_made(j.lambdas@[0], *reg, *predicate, "filter"@, old(namer).counter(), param_count, fuel)
                    &&& j.inner == (Joiner::Filtering { filter: WasmFunction { name: j.lambdas@[0].info.name } })
                },
                Err(e) => entity_analysis_fails(*reg, *predicate, fuel, e),
            },
    {
        let lambda = match JoinerLambda::new(namer, reg, predicate, "filter", param_count, fuel) {
            Ok(l) => l,
            Err(e) => {
                return Err(e);
            },
        };
        let f = lambda.to_wasm_function();
        let mut lambdas = Vec::new();
        lambdas.push(lambda);
        Ok(PyJoiner { inner: Joiner::Filtering { filter: f }, lambdas })
    }
}

} // verus!

verus! {

// ---------------------------------------------------------------------------
// Streams and constraints
// ---------------------------------------------------------------------------

/// One step of a constraint stream.
#[derive(Debug, Clone)]
pub enum StreamComponent {
    ForEach { class_name: String },
    ForEachIncludingUnassigned { class_name: String },
    ForEachUniquePair { class_name: String, joiners: Vec<Joiner> },
    Filter { predicate: WasmFunction },
    Join { class_name: String, joiners: Vec<Joiner> },
    IfExists { class_name: String, joiners: Vec<Joiner> },
    IfNotExists { class_name: String, joiners: Vec<Joiner> },
    Penalize { weight: String, scale_by: Option<WasmFunction> },
    Reward { weight: String, scale_by: Option<WasmFunction> },
}

/// A named constraint: its stream components in order.
#[derive(Debug, Clone)]
pub struct Constraint {
    pub name: String,
    pub components: Vec<StreamComponent>,
}

impl Constraint {
    /// A constraint with no components yet.
    pub fn new(name: &str) -> (res: Constraint)
        ensures
            res.name@ == name@,
            res.components@.len() == 0,
    {
        Constraint { name: String::from_str(name), components: Vec::new() }
    }

    /// The constraint with the given components.
    pub fn with_components(self, components: Vec<StreamComponent>) -> (res: Constraint)
        ensures
            res.name == self.name,
            res.components@ == components@,
    {
        Constraint { name: self.name, components }
    }
}

/// Whether `c` is a penalty of the given weight, without scaling.
pub open spec fn is_penalty(c: StreamComponent, weight: Seq<char>) -> bool {
    c matches StreamComponent::Penalize { weight: w, scale_by } && w@ == weight && scale_by is None
}

/// Whether `c` is a reward of the given weight, without scaling.
pub open spec fn is_reward(c: StreamComponent, weight: Seq<char>) -> bool {
    c matches StreamComponent::Reward { weight: w, scale_by } && w@ == weight && scale_by is None
}

/// The components of a stream followed by one more.
pub open spec fn extended(before: Seq<StreamComponent>, after: Seq<StreamComponent>) -> bool {
    after.len() == before.len() + 1 && after.subrange(0, before.len() as int) == before
}

/// The decimal text of a weight followed by a level name.
pub open spec fn weight_text(weight: i32, level: Seq<char>) -> Seq<char> {
    int_to_decimal(weight as int) + level
}

fn weight_string(weight: i32, level: &str) -> (res: String)
    ensures
        res@ == weight_text(weight, level@),
{
    let mut s = String::new();
    push_i64_decimal(&mut s, weight as i64);
    s.append(level);
    assert(s@ =~= weight_text(weight, level@));
    s
}

fn push_component(components: &mut Vec<StreamComponent>, c: StreamComponent)
    ensures
        extended(old(components)@, final(components)@),
        final(components)@.last() == c,
{
    components.push(c);
    assert(final(components)@.subrange(0, old(components)@.len() as int) =~= old(components)@);
}

/// `<prefix><n><suffix>` for the text of a count.
pub open spec fn count_text(prefix: Seq<char>, n: usize, suffix: Seq<char>) -> Seq<char> {
    prefix + nat_digits(n as nat) + suffix
}

fn count_string(prefix: &str, n: usize, suffix: &str) -> (res: String)
    ensures
        res@ == count_text(prefix@, n, suffix@),
{
    let mut s = String::from_str(prefix);
    push_u64_digits(&mut s, n as u64);
    s.append(suffix);
    assert(s@ =~= count_text(prefix@, n, suffix@));
    s
}

/// A stream over one entity class.
#[derive(Debug, Clone)]
pub struct PyUniConstraintStream {
    pub components: Vec<StreamComponent>,
    pub class_name: String,
    /// The analyzed filter lambdas, in order.
    pub predicates: Vec<LambdaInfo>,
}

impl PyUniConstraintStream {
    /// A stream over the entities of a class; with `include_unassigned`,
    /// also over those whose planning variables are not assigned.
    pub fn new(class_name: String, include_unassigned: bool) -> (res: Self)
        ensures
            res.class_name == class_name,
            res.predicates@.len() == 0,
            res.components@.len() == 1,
            include_unassigned ==> res.components@[0] == (StreamComponent::ForEachIncludingUnassigned { class_name }),
            !include_unassigned ==> res.components@[0] == (StreamComponent::ForEach { class_name }),
    {
        let component = if include_unassigned {
            StreamComponent::ForEachIncludingUnassigned { class_name: class_name.clone() }
        } else {
            StreamComponent::ForEach { class_name: class_name.clone() }
        };
        let mut components = Vec::new();
        components.push(component);
        PyUniConstraintStream { components, class_name, predicates: Vec::new() }
    }

    /// The analyzed filter lambdas.
    pub fn predicates(&self) -> (res: &[LambdaInfo])
        ensures
            res@ == self.predicates@,
    {
        self.predicates.as_slice()
    }

    /// Penalize each match by `weight` hard points, as a constraint named
    /// `name`.
    pub fn penalize_weight(self, name: &str, weight: i32) -> (res: PyConstraint)
        ensures
            res.inner.name@ == name@,
            extended(self.components@, res.inner.components@),
            is_penalty(res.inner.components@.last(), weight_text(weight, "hard"@)),
    {
        let mut components = self.components;
        push_component(&mut components, StreamComponent::Penalize { weight: weight_string(weight, "hard"), scale_by: None });
        PyConstraint { inner: Constraint::new(name).with_components(components) }
    }

    /// Reward each match by `weight` soft points, as a constraint named
    /// `name`.
    pub fn reward_weight(self, name: &str, weight: i32) -> (res: PyConstraint)
        ensures
            res.inner.name@ == name@,
            extended(self.components@, res.inner.components@),
            is_reward(res.inner.components@.last(), weight_text(weight, "soft"@)),
    {
        let mut components = self.components;
        push_component(&mut components, StreamComponent::Reward { weight: weight_string(weight, "soft"), scale_by: None });
        PyConstraint { inner: Constraint::new(name).with_components(components) }
    }

    /// Keep the matches a predicate accepts; the predicate is analyzed for
    /// the stream's class and named `filter_<n>`.
    pub fn filter_with(
        self,
        namer: &mut LambdaNamer,
        reg: &ClassRegistry,
        predicate: &LambdaCode,
        param_count: usize,
        fuel: u64,
    ) -> (res: Result<Self, AnalysisError>)
        ensures
            final(namer).counter() == next_count(old(namer).counter()),
            match res {
                Ok(s) => {
                    &&& s.class_name == self.class_name
                    &&& extended(self.components@, s.components@)
                    &&& s.components@.last() == (StreamComponent::Filter { predicate: WasmFunction { name: s.predicates@.last().name } })
                    &&& s.predicates@ == self.predicates@.push(s.predicates@.last())
                    &&& s.predicates@.last().name@ == lambda_name("filter"@, old(namer).counter())
                    &&& s.predicates@.last().param_count == param_count
                    &&& s.predicates@.last().class_hint == Some(self.class_name)
                    &&& spec_analyze_lambda(*reg, *predicate, self.class_name, fuel) == Ok::<
                        crate::expr::Expression,
                        AnalysisError,
                    >(s.predicates@.last().expression)
                },
                Err(e) => spec_analyze_lambda(*reg, *predicate, self.class_name, fuel) == Err::<
                    crate::expr::Expression,
                    AnalysisError,
                >(e),
            },
    {
        let info = match LambdaInfo::new(namer, reg, predicate, "filter", &self.class_name, param_count, fuel) {
            Ok(i) => i,
            Err(e) => {
                return Err(e);
            },
        };
        let f = info.to_wasm_function();
        let mut components = self.components;
        push_component(&mut components, StreamComponent::Filter { predicate: f });
        let mut predicates = self.predicates;
        predicates.push(info);
        Ok(PyUniConstraintStream { components, class_name: self.class_name, predicates })
    }

    /// Join with the entities of another class.
    pub fn join(self, class_name: String, joiners: Vec<Joiner>) -> (res: PyBiConstraintStream)
        ensures
            extended(self.components@, res.components@),
            res.components@.last() matches StreamComponent::Join { class_name: c, joiners: j } && c == class_name && j@ == joiners@,
            res.class_names@ == seq![self.class_name],
            res.predicates@.len() == 0,
    {
        let mut components = self.components;
        push_component(&mut components, StreamComponent::Join { class_name, joiners });
        let mut class_names = Vec::new();
        class_names.push(self.class_name);
        PyBiConstraintStream { components, class_names, predicates: Vec::new() }
    }

    /// Keep the matches for which an entity of another class matches the
    /// joiners.
    pub fn if_exists(self, class_name: String, joiners: Vec<Joiner>) -> (res: Self)
        ensures
            extended(self.components@, res.components@),
            res.components@.last() matches StreamComponent::IfExists { class_name: c, joiners: j } && c == class_name && j@ == joiners@,
            res.class_name == self.class_name,
            res.predicates@ == self.predicates@,
    {
        let mut components = self.components;
        push_component(&mut components, StreamComponent::IfExists { class_name, joiners });
        PyUniConstraintStream { components, class_name: self.class_name, predicates: self.predicates }
    }

    /// Keep the matches for which no entity of another class matches the
    /// joiners.
    pub fn if_not_exists(self, class_name: String, joiners: Vec<Joiner>) -> (res: Self)
        ensures
            extended(self.components@, res.components@),
            res.components@.last() matches StreamComponent::IfNotExists { class_name: c, joiners: j } && c == class_name && j@ == joiners@,
            res.class_name == self.class_name,
            res.predicates@ == self.predicates@,
    {
        let mut components = self.components;
        push_component(&mut components, StreamComponent::IfNotExists { class_name, joiners });
        PyUniConstraintStream { components, class_name: self.class_name, predicates: self.predicates }
    }

    /// Penalize each match by a simple score.
    pub fn penalize_simple(self, score: &SimpleScore) -> (res: PyUniConstraintBuilder)
        ensures
            extended(self.components@, res.components@),
            is_penalty(res.components@.last(), int_to_decimal(score.score as int)),
    {
        let mut components = self.components;
        push_component(&mut components, StreamComponent::Penalize { weight: score.to_display_string(), scale_by: None });
        PyUniConstraintBuilder { components }
    }

    /// Penalize each match by a hard/soft score.
    pub fn penalize(self, score: &HardSoftScore) -> (res: PyUniConstraintBuilder)
        ensures
            extended(self.components@, res.components@),
            is_penalty(res.components@.last(), score.display()),
    {
        let mut components = self.components;
        push_component(&mut components, StreamComponent::Penalize { weight: score.to_display_string(), scale_by: None });
        PyUniConstraintBuilder { components }
    }

    /// Penalize each match by a hard/medium/soft score.
    pub fn penalize_hms(self, score: &HardMediumSoftScore) -> (res: PyUniConstraintBuilder)
        ensures
            extended(self.components@, res.components@),
            is_penalty(res.components@.last(), score.display()),
    {
        let mut components = self.components;
        push_component(&mut components, StreamComponent::Penalize { weight: score.to_display_string(), scale_by: None });
        PyUniConstraintBuilder { components }
    }

    /// Reward each match by a hard/soft score.
    pub fn reward(self, score: &HardSoftScore) -> (res: PyUniConstraintBuilder)
        ensures
            extended(self.components@, res.components@),
            is_reward(res.components@.last(), score.display()),
    {
        let mut components = self.components;
        push_component(&mut components, StreamComponent::Reward { weight: score.to_display_string(), scale_by: None });
        PyUniConstraintBuilder { components }
    }

    /// The text of the stream, e.g. `UniConstraintStream(class='Lesson', components=1)`.
    pub fn repr(&self) -> (res: String)
        ensures
            res@ == "UniConstraintStream(class='"@ + self.class_name@ + count_text("', components="@, self.components@.len() as usize, ")"@),
    {
        let mut s = String::from_str("UniConstraintStream(class='");
        s.append(self.class_name.as_str());
        let tail = count_string("', components=", self.components.len(), ")");
        s.append(tail.as_str());
        s
    }
}

/// A stream over pairs of entities.
#[derive(Debug, Clone)]
pub struct PyBiConstraintStream {
    pub components: Vec<StreamComponent>,
    pub class_names: Vec<String>,
    /// The analyzed filter lambdas, in order.
    pub predicates: Vec<LambdaInfo>,
}

impl PyBiConstraintStream {
    /// A stream over the unique pairs of entities of a class that match the
    /// joiners.
    pub fn from_unique_pair(class_name: String, joiners: Vec<Joiner>) -> (res: Self)
        ensures
            res.components@.len() == 1,
            res.components@[0] matches StreamComponent::ForEachUniquePair { class_name: c, joiners: j } && c == class_name && j@ == joiners@,
            res.class_names@ == seq![class_name],
            res.predicates@.len() == 0,
    {
        let mut components = Vec::new();
        components.push(StreamComponent::ForEachUniquePair { class_name: class_name.clone(), joiners });
        let mut class_names = Vec::new();
        class_names.push(class_name);
        PyBiConstraintStream { components, class_names, predicates: Vec::new() }
    }

    /// The analyzed filter lambdas.
    pub fn predicates(&self) -> (res: &[LambdaInfo])
        ensures
            res@ == self.predicates@,
    {
        self.predicates.as_slice()
    }

    /// Penalize each match by `weight` hard points, as a constraint named
    /// `name`.
    pub fn penalize_weight(self, name: &str, weight: i32) -> (res: PyConstraint)
        ensures
            res.inner.name@ == name@,
            extended(self.components@, res.inner.components@),
            is_penalty(res.inner.components@.last(), weight_text(weight, "hard"@)),
    {
        let mut components = self.components;
        push_component(&mut components, StreamComponent::Penalize { weight: weight_string(weight, "hard"), scale_by: None });
        PyConstraint { inner: Constraint::new(name).with_components(components) }
    }

    /// Reward each match by `weight` soft points, as a constraint named
    /// `name`.
    pub fn reward_weight(self, name: &str, weight: i32) -> (res: PyConstraint)
        ensures
            res.inner.name@ == name@,
            extended(self.components@, res.inner.components@),
            is_reward(res.inner.components@.last(), weight_text(weight, "soft"@)),
    {
        let mut components = self.components;
        push_component(&mut components, StreamComponent::Reward { weight: weight_string(weight, "soft"), scale_by: None });
        PyConstraint { inner: Constraint::new(name).with_components(components) }
    }

    /// Keep the pairs a two-entity predicate accepts; the predicate is
    /// analyzed for the class `Entity` and named `filter_bi_<n>`.
    pub fn filter_with(
        self,
        namer: &mut LambdaNamer,
        reg: &ClassRegistry,
        predicate: &LambdaCode,
        param_count: usize,
        fuel: u64,
    ) -> (res: Result<Self, AnalysisError>)
        ensures
            final(namer).counter() == next_count(old(namer).counter()),
            match res {
                Ok(s) => {
                    &&& s.class_names@ == self.class_names@
                    &&& extended(self.components@, s.components@)
                    &&& s.components@.last() == (StreamComponent::Filter { predicate: WasmFunction { name: s.predicates@.last().name } })
                    &&& s.predicates@ == self.predicates@.push(s.predicates@.last())
                    &&& s.predicates@.last().name@ == lambda_name("filter_bi"@, old(namer).counter())
                    &&& s.predicates@.last().param_count == param_count
                    &&& s.predicates@.last().class_hint matches Some(h) && h@ == "Entity"@
                    &&& entity_analysis_gives(*reg, *predicate, fuel, s.predicates@.last().expression)
                },
                Err(e) => entity_analysis_fails(*reg, *predicate, fuel, e),
            },
    {
        let hint = String::from_str("Entity");
        let info = match LambdaInfo::new(namer, reg, predicate, "filter_bi", &hint, param_count, fuel) {
            Ok(i) => i,
            Err(e) => {
                assert(entity_analysis_fails(*reg, *predicate, fuel, e));
                return Err(e);
            },
        };
        assert(entity_analysis_gives(*reg, *predicate, fuel, info.expression));
        let f = info.to_wasm_function();
        let mut components = self.components;
        push_component(&mut components, StreamComponent::Filter { predicate: f });
        let mut predicates = self.predicates;
        predicates.push(info);
        Ok(PyBiConstraintStream { components, class_names: self.class_names, predicates })
    }

    /// Penalize each match by a hard/soft score.
    pub fn penalize(self, score: &HardSoftScore) -> (res: PyBiConstraintBuilder)
        ensures
            extended(self.components@, res.components@),
            is_penalty(res.components@.last(), score.display()),
    {
        let mut components = self.components;
        push_component(&mut components, StreamComponent::Penalize { weight: score.to_display_string(), scale_by: None });
        PyBiConstraintBuilder { components }
    }

    /// Reward each match by a hard/soft score.
    pub fn reward(self, score: &HardSoftScore) -> (res: PyBiConstraintBuilder)
        ensures
            extended(self.components@, res.components@),
            is_reward(res.components@.last(), score.display()),
    {
        let mut components = self.components;
        push_component(&mut components, StreamComponent::Reward { weight: score.to_display_string(), scale_by: None });
        PyBiConstraintBuilder { components }
    }

    /// The text of the stream, e.g.
    /// `BiConstraintStream(classes=["Lesson"], components=2)`.
    pub fn repr(&self) -> (res: String)
        ensures
            res@ == "BiConstraintStream(classes="@ + crate::annotations::debug_list(
                crate::annotations::strings_view(self.class_names@),
            ) + count_text(", components="@, self.components@.len() as usize, ")"@),
    {
        let mut s = String::from_str("BiConstraintStream(classes=");
        crate::annotations::push_debug_list(&mut s, &self.class_names);
        let tail = count_string(", components=", self.components.len(), ")");
        s.append(tail.as_str());
        s
    }
}

/// A uni-stream with its penalty or reward, waiting for a name.
#[derive(Debug, Clone)]
pub struct PyUniConstraintBuilder {
    pub components: Vec<StreamComponent>,
}

impl PyUniConstraintBuilder {
    /// The constraint, named.
    pub fn as_constraint(self, name: &str) -> (res: PyConstraint)
        ensures
            res.inner.name@ == name@,
            res.inner.components@ == self.components@,
    {
        PyConstraint { inner: Constraint::new(name).with_components(self.components) }
    }

    /// The text of the builder, e.g. `UniConstraintBuilder(components=2)`.
    pub fn repr(&self) -> (res: String)
        ensures
            res@ == count_text("UniConstraintBuilder(components="@, self.components@.len() as usize, ")"@),
    {
        count_string("UniConstraintBuilder(components=", self.components.len(), ")")
    }
}

/// A bi-stream with its penalty or reward, waiting for a name.
#[derive(Debug, Clone)]
pub struct PyBiConstraintBuilder {
    pub components: Vec<StreamComponent>,
}

impl PyBiConstraintBuilder {
    /// The constraint, named.
    pub fn as_constraint(self, name: &str) -> (res: PyConstraint)
        ensures
            res.inner.name@ == name@,
            res.inner.components@ == self.components@,
    {
        PyConstraint { inner: Constraint::new(name).with_components(self.components) }
    }

    /// The text of the builder, e.g. `BiConstraintBuilder(components=2)`.
    pub fn repr(&self) -> (res: String)
        ensures
            res@ == count_text("BiConstraintBuilder(components="@, self.components@.len() as usize, ")"@),
    {
        count_string("BiConstraintBuilder(components=", self.components.len(), ")")
    }
}

/// A finished constraint.
#[derive(Debug, Clone)]
pub struct PyConstraint {
    pub inner: Constraint,
}

impl PyConstraint {
    pub fn from_rust(inner: Constraint) -> (res: Self)
        ensures
            res.inner == inner,
    {
        PyConstraint { inner }
    }

    pub fn to_rust(self) -> (res: Constraint)
        ensures
            res == self.inner,
    {
        self.inner
    }

    /// The constraint's name.
    pub fn name(&self) -> (res: &str)
        ensures
            res@ == self.inner.name@,
    {
        self.inner.name.as_str()
    }

    /// The number of stream components.
    pub fn component_count(&self) -> (res: usize)
        ensures
            res == self.inner.components@.len(),
    {
        self.inner.components.len()
    }

    /// The text of the constraint, e.g. `Constraint(name='x', components=2)`.
    pub fn repr(&self) -> (res: String)
        ensures
            res@ == "Constraint(name='"@ + self.inner.name@ + count_text("', components="@, self.inner.components@.len() as usize, ")"@),
    {
        let mut s = String::from_str("Constraint(name='");
        s.append(self.inner.name.as_str());
        let tail = count_string("', components=", self.inner.components.len(), ")");
        s.append(tail.as_str());
        s
    }
}

/// The starting point of constraint streams.
#[derive(Debug, Clone, Copy)]
pub struct PyConstraintFactory;

impl PyConstraintFactory {
    pub fn create() -> (res: Self) {
        PyConstraintFactory
    }

    /// A stream over the entities of the class named `class_name`.
    pub fn for_each_by_name(&self, class_name: &str) -> (res: PyUniConstraintStream)
        ensures
            res.class_name@ == class_name@,
            res.predicates@.len() == 0,
            res.components@.len() == 1,
            res.components@[0] == (StreamComponent::ForEach { class_name: res.class_name }),
    {
        PyUniConstraintStream::new(String::from_str(class_name), false)
    }

    /// A stream over the entities of a class, assigned or not.
    pub fn for_each_including_unassigned_by_name(&self, class_name: &str) -> (res: PyUniConstraintStream)
        ensures
            res.class_name@ == class_name@,
            res.predicates@.len() == 0,
            res.components@.len() == 1,
            res.components@[0] == (StreamComponent::ForEachIncludingUnassigned { class_name: res.class_name }),
    {
        PyUniConstraintStream::new(String::from_str(class_name), true)
    }

    /// A stream over the unique pairs of entities of a class that match the
    /// joiners.
    pub fn for_each_unique_pair_by_name(&self, class_name: &str, joiners: Vec<PyJoiner>) -> (res: PyBiConstraintStream)
        ensures
            res.components@.len() == 1,
            res.components@[0] matches StreamComponent::ForEachUniquePair { class_name: c, joiners: j }
                && c@ == class_name@ && j@.len() == joiners@.len()
                && forall|i: int| 0 <= i < j@.len() ==> j@[i] == #[trigger] joiners@[i].inner,
            res.class_names@.len() == 1,
            res.class_names@[0]@ == class_name@,
            res.predicates@.len() == 0,
    {
        let js = joiners_of(&joiners);
        PyBiConstraintStream::from_unique_pair(String::from_str(class_name), js)
    }

    /// The text of the factory.
    pub fn repr(&self) -> (res: &'static str)
        ensures
            res@ == "ConstraintFactory()"@,
    {
        "ConstraintFactory()"
    }
}

/// The joiners of a list of joiners with their lambdas.
pub fn joiners_of(joiners: &Vec<PyJoiner>) -> (res: Vec<Joiner>)
    ensures
        res@.len() == joiners@.len(),
        forall|i: int| 0 <= i < res@.len() ==> res@[i] == #[trigger] joiners@[i].inner,
{
    let mut out: Vec<Joiner> = Vec::new();
    let n = joiners.len();
    let mut i: usize = 0;
    while i < n
        invariant
            n == joiners@.len(),
            i <= n,
            out@.len() == i,
            forall|k: int| 0 <= k < i ==> out@[k] == #[trigger] joiners@[k].inner,
        decreases n - i,
    {
        out.push(joiners[i].to_rust());
        i = i + 1;
    }
    out
}

} // verus!
