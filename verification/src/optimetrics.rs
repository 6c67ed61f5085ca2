//! Optimetrics setups (parametric sweeps, optimization, sensitivity,
//! statistical and tuning analyses): their variables and defaults.
use vstd::prelude::*;
use vstd::string::*;

use crate::expression::{is_alphabetic, spec_is_alphabetic};
use crate::text::{spec_trim, str_eq, trim};

verus! {

/// The kinds of optimetrics setup a user can add.
#[derive(Debug, Clone, Copy, PartialEq, Eq, Structural)]
pub enum OptimetricsType {
    ParametricSweep,
    Optimization,
    Sensitivity,
    Statistical,
    Tuning,
}

/// The name of a kind of setup, as listed to the user.
pub open spec fn spec_optimetrics_name(t: OptimetricsType) -> Seq<char> {
    match t {
        OptimetricsType::ParametricSweep => "Parametric Sweep"@,
        OptimetricsType::Optimization => "Optimization"@,
        OptimetricsType::Sensitivity => "Sensitivity"@,
        OptimetricsType::Statistical => "Statistical"@,
        OptimetricsType::Tuning => "Tuning"@,
    }
}

impl OptimetricsType {
    /// The name of this kind of setup.
    pub fn name(&self) -> (r: &'static str)
        ensures
            r@ == spec_optimetrics_name(*self),
    {
        match self {
            OptimetricsType::ParametricSweep => "Parametric Sweep",
            OptimetricsType::Optimization => "Optimization",
            OptimetricsType::Sensitivity => "Sensitivity",
            OptimetricsType::Statistical => "Statistical",
            OptimetricsType::Tuning => "Tuning",
        }
    }
}

/// A variable an optimization may change, with its range and start.
#[derive(Debug, Clone)]
pub struct OptimizationVariable {
    pub variable: String,
    pub min: String,
    pub max: String,
    pub starting: String,
}

/// A frequency range of a goal.
#[derive(Debug, Clone)]
pub struct FrequencyRange {
    pub start: String,
    pub stop: String,
}

/// A variable of a sensitivity or statistical analysis.
#[derive(Debug, Clone)]
pub struct SensitivityVariable {
    pub variable: String,
    /// e.g. `5%`, `±10%`.
    pub variation: String,
    /// `Uniform`, `Gaussian` or `LogNormal`.
    pub distribution: String,
}

/// An optimetrics setup: a parametric sweep, an optimization, a
/// sensitivity or statistical analysis, or interactive tuning, each with
/// its name, whether it is enabled and the analysis setup it runs. `D` is
/// a sweep definition, `G` an optimization goal and `J` a free-form JSON
/// constraint or sweep goal, which hold numbers and JSON that this library
/// does not read.
pub enum OptimetricsSetup<D, G, J> {
    ParametricSweep {
        name: String,
        enabled: bool,
        setup: String,
        sweep_definitions: Vec<D>,
        constraints: Vec<J>,
        goals: Vec<J>,
    },
    Optimization {
        name: String,
        enabled: bool,
        setup: String,
        algorithm: String,
        max_iterations: u32,
        variables: Vec<OptimizationVariable>,
        goals: Vec<G>,
        constraints: Vec<J>,
    },
    Sensitivity {
        name: String,
        enabled: bool,
        setup: String,
        variables: Vec<SensitivityVariable>,
        output: String,
        num_samples: u32,
    },
    Statistical {
        name: String,
        enabled: bool,
        setup: String,
        variables: Vec<SensitivityVariable>,
        num_trials: u32,
    },
    Tuning { name: String, enabled: bool, setup: String, variables: Vec<String> },
}

impl<D, G, J> OptimetricsSetup<D, G, J> {
    /// The kind of this setup.
    pub open spec fn spec_kind(&self) -> OptimetricsType {
        match self {
            OptimetricsSetup::ParametricSweep { .. } => OptimetricsType::ParametricSweep,
            OptimetricsSetup::Optimization { .. } => OptimetricsType::Optimization,
            OptimetricsSetup::Sensitivity { .. } => OptimetricsType::Sensitivity,
            OptimetricsSetup::Statistical { .. } => OptimetricsType::Statistical,
            OptimetricsSetup::Tuning { .. } => OptimetricsType::Tuning,
        }
    }

    /// The name of this setup.
    pub open spec fn spec_name(&self) -> Seq<char> {
        match self {
            OptimetricsSetup::ParametricSweep { name, .. } => name@,
            OptimetricsSetup::Optimization { name, .. } => name@,
            OptimetricsSetup::Sensitivity { name, .. } => name@,
            OptimetricsSetup::Statistical { name, .. } => name@,
            OptimetricsSetup::Tuning { name, .. } => name@,
        }
    }

    /// Whether this setup is enabled.
    pub open spec fn spec_enabled(&self) -> bool {
        match self {
            OptimetricsSetup::ParametricSweep { enabled, .. } => *enabled,
            OptimetricsSetup::Optimization { enabled, .. } => *enabled,
            OptimetricsSetup::Sensitivity { enabled, .. } => *enabled,
            OptimetricsSetup::Statistical { enabled, .. } => *enabled,
            OptimetricsSetup::Tuning { enabled, .. } => *enabled,
        }
    }

    /// The kind of this setup.
    pub fn kind(&self) -> (r: OptimetricsType)
        ensures
            r == self.spec_kind(),
    {
        match self {
            OptimetricsSetup::ParametricSweep { .. } => OptimetricsType::ParametricSweep,
            OptimetricsSetup::Optimization { .. } => OptimetricsType::Optimization,
            OptimetricsSetup::Sensitivity { .. } => OptimetricsType::Sensitivity,
            OptimetricsSetup::Statistical { .. } => OptimetricsType::Statistical,
            OptimetricsSetup::Tuning { .. } => OptimetricsType::Tuning,
        }
    }

    /// The name of this setup.
    pub fn name(&self) -> (r: &str)
        ensures
            r@ == self.spec_name(),
    {
        match self {
            OptimetricsSetup::ParametricSweep { name, .. } => name.as_str(),
            OptimetricsSetup::Optimization { name, .. } => name.as_str(),
            OptimetricsSetup::Sensitivity { name, .. } => name.as_str(),
            OptimetricsSetup::Statistical { name, .. } => name.as_str(),
            OptimetricsSetup::Tuning { name, .. } => name.as_str(),
        }
    }

    /// Whether this setup is enabled.
    pub fn enabled(&self) -> (r: bool)
        ensures
            r == self.spec_enabled(),
    {
        match self {
            OptimetricsSetup::ParametricSweep { enabled, .. } => *enabled,
            OptimetricsSetup::Optimization { enabled, .. } => *enabled,
            OptimetricsSetup::Sensitivity { enabled, .. } => *enabled,
            OptimetricsSetup::Statistical { enabled, .. } => *enabled,
            OptimetricsSetup::Tuning { enabled, .. } => *enabled,
        }
    }
}

/// Whether `s` is the setup of kind `t` that the panel adds under `name`:
/// enabled, running `Setup1`, with no variables, definitions, goals or
/// constraints; an optimization by `PatternSearch` for at most 100
/// iterations, a sensitivity analysis of 50 samples with no output named,
/// a statistical analysis of 1000 trials.
pub open spec fn spec_is_default_setup<D, G, J>(s: OptimetricsSetup<D, G, J>, name: Seq<char>, t: OptimetricsType) -> bool {
    match s {
        OptimetricsSetup::ParametricSweep { name: n, enabled, setup, sweep_definitions, constraints, goals } => {
            &&& t == OptimetricsType::ParametricSweep
            &&& n@ == name && enabled && setup@ == "Setup1"@
            &&& sweep_definitions@.len() == 0 && constraints@.len() == 0 && goals@.len() == 0
        },
        OptimetricsSetup::Optimization {
            name: n,
            enabled,
            setup,
            algorithm,
            max_iterations,
            variables,
            goals,
            constraints,
        } => {
            &&& t == OptimetricsType::Optimization
            &&& n@ == name && enabled && setup@ == "Setup1"@
            &&& algorithm@ == "PatternSearch"@ && max_iterations == 100
            &&& variables@.len() == 0 && goals@.len() == 0 && constraints@.len() == 0
        },
        OptimetricsSetup::Sensitivity { name: n, enabled, setup, variables, output, num_samples } => {
            &&& t == OptimetricsType::Sensitivity
            &&& n@ == name && enabled && setup@ == "Setup1"@
            &&& variables@.len() == 0 && output@.len() == 0 && num_samples == 50
        },
        OptimetricsSetup::Statistical { name: n, enabled, setup, variables, num_trials } => {
            &&& t == OptimetricsType::Statistical
            &&& n@ == name && enabled && setup@ == "Setup1"@
            &&& variables@.len() == 0 && num_trials == 1000
        },
        OptimetricsSetup::Tuning { name: n, enabled, setup, variables } => {
            &&& t == OptimetricsType::Tuning
            &&& n@ == name && enabled && setup@ == "Setup1"@
            &&& variables@.len() == 0
        },
    }
}

/// The setup of kind `t` that the panel adds under `name`.
pub fn create_default_setup<D, G, J>(name: &str, t: OptimetricsType) -> (r: OptimetricsSetup<D, G, J>)
    ensures
        spec_is_default_setup(r, name@, t),
{
    match t {
        OptimetricsType::ParametricSweep => OptimetricsSetup::ParametricSweep {
            name: String::from_str(name),
            enabled: true,
            setup: String::from_str("Setup1"),
            sweep_definitions: Vec::new(),
            constraints: Vec::new(),
            goals: Vec::new(),
        },
        OptimetricsType::Optimization => OptimetricsSetup::Optimization {
            name: String::from_str(name),
            enabled: true,
            setup: String::from_str("Setup1"),
            algorithm: String::from_str("PatternSearch"),
            max_iterations: 100,
            variables: Vec::new(),
            goals: Vec::new(),
            constraints: Vec::new(),
        },
        OptimetricsType::Sensitivity => OptimetricsSetup::Sensitivity {
            name: String::from_str(name),
            enabled: true,
            setup: String::from_str("Setup1"),
            variables: Vec::new(),
            output: String::new(),
            num_samples: 50,
        },
        OptimetricsType::Statistical => OptimetricsSetup::Statistical {
            name: String::from_str(name),
            enabled: true,
            setup: String::from_str("Setup1"),
            variables: Vec::new(),
            num_trials: 1000,
        },
        OptimetricsType::Tuning => OptimetricsSetup::Tuning {
            name: String::from_str(name),
            enabled: true,
            setup: String::from_str("Setup1"),
            variables: Vec::new(),
        },
    }
}

/// A setup is enabled unless said otherwise.
pub fn default_true() -> (r: bool)
    ensures
        r,
{
    true
}

/// The default optimizer: `QuasiNewton`.
pub fn default_quasi_newton() -> (r: String)
    ensures
        r@ == "QuasiNewton"@,
{
    String::from_str("QuasiNewton")
}

/// The default iteration limit of an optimization: 100.
pub fn default_max_iterations() -> (r: u32)
    ensures
        r == 100,
{
    100
}

/// The default number of sensitivity samples: 50.
pub fn default_num_samples() -> (r: u32)
    ensures
        r == 50,
{
    50
}

/// The default number of statistical trials: 1000.
pub fn default_num_trials() -> (r: u32)
    ensures
        r == 1000,
{
    1000
}

/// The default distribution of a varied variable: `Uniform`.
pub fn default_uniform() -> (r: String)
    ensures
        r@ == "Uniform"@,
{
    String::from_str("Uniform")
}


// ---------------------------------------------------------------------------
// Reading the fields of a varied variable
// ---------------------------------------------------------------------------

/// How a variation is given: a percentage of the base value, or an absolute
/// amount (a unit suffix removed). The number itself is kept as text.
#[derive(Debug, Clone)]
pub enum VariationText {
    Percent(String),
    Absolute(String),
}

/// The mathematical value of a `VariationText`.
pub enum VariationModel {
    Percent(Seq<char>),
    Absolute(Seq<char>),
}

impl View for VariationText {
    type V = VariationModel;

    open spec fn view(&self) -> VariationModel {
        match self {
            VariationText::Percent(t) => VariationModel::Percent(t@),
            VariationText::Absolute(t) => VariationModel::Absolute(t@),
        }
    }
}

/// `s` without its leading `c` characters (`trim_start_matches(c)`).
pub open spec fn spec_trim_start_char(s: Seq<char>, c: char) -> Seq<char>
    decreases s.len(),
{
    if s.len() > 0 && s[0] == c {
        spec_trim_start_char(s.drop_first(), c)
    } else {
        s
    }
}

/// `s` without its trailing `c` characters (`trim_end_matches(c)`).
pub open spec fn spec_trim_end_char(s: Seq<char>, c: char) -> Seq<char>
    decreases s.len(),
{
    if s.len() > 0 && s.last() == c {
        spec_trim_end_char(s.drop_last(), c)
    } else {
        s
    }
}

/// `s` without its trailing alphabetic characters.
pub open spec fn spec_trim_end_alphabetic(s: Seq<char>) -> Seq<char>
    decreases s.len(),
{
    if s.len() > 0 && spec_is_alphabetic(s.last()) {
        spec_trim_end_alphabetic(s.drop_last())
    } else {
        s
    }
}

/// A variation without surrounding whitespace and without the leading
/// `±`, then `+`, then `-` signs.
pub open spec fn spec_variation_body(text: Seq<char>) -> Seq<char> {
    spec_trim_start_char(spec_trim_start_char(spec_trim_start_char(spec_trim(text), '±'), '+'), '-')
}

/// How a variation text is read: one that ends in `%` is a percentage (of
/// the number before the `%` signs), any other an absolute amount (of the
/// number before its trailing letters).
pub open spec fn spec_classify_variation(text: Seq<char>) -> VariationModel {
    let b = spec_variation_body(text);
    if b.len() > 0 && b.last() == '%' {
        VariationModel::Percent(spec_trim_end_char(b, '%'))
    } else {
        VariationModel::Absolute(spec_trim_end_alphabetic(b))
    }
}

fn trim_start_char(s: &str, c: char) -> (r: &str)
    ensures
        r@ == spec_trim_start_char(s@, c),
{
    let n = s.unicode_len();
    let mut i: usize = 0;
    assert(s@.subrange(0, n as int) =~= s@);
    while i < n && s.get_char(i) == c
        invariant
            n == s@.len(),
            i <= n,
            spec_trim_start_char(s@, c) == spec_trim_start_char(s@.subrange(i as int, n as int), c),
        decreases n - i,
    {
        assert(s@.subrange(i as int, n as int).drop_first() =~= s@.subrange(i + 1, n as int));
        i = i + 1;
    }
    s.substring_char(i, n)
}

fn trim_end_char(s: &str, c: char) -> (r: &str)
    ensures
        r@ == spec_trim_end_char(s@, c),
{
    let n = s.unicode_len();
    let mut j: usize = n;
    assert(s@.subrange(0, n as int) =~= s@);
    while j > 0 && s.get_char(j - 1) == c
        invariant
            n == s@.len(),
            j <= n,
            spec_trim_end_char(s@, c) == spec_trim_end_char(s@.subrange(0, j as int), c),
        decreases j,
    {
        assert(s@.subrange(0, j as int).drop_last() =~= s@.subrange(0, j - 1));
        j = j - 1;
    }
    s.substring_char(0, j)
}

fn trim_end_alphabetic(s: &str) -> (r: &str)
    ensures
        r@ == spec_trim_end_alphabetic(s@),
{
    let n = s.unicode_len();
    let mut j: usize = n;
    assert(s@.subrange(0, n as int) =~= s@);
    while j > 0 && is_alphabetic(s.get_char(j - 1))
        invariant
            n == s@.len(),
            j <= n,
            spec_trim_end_alphabetic(s@) == spec_trim_end_alphabetic(s@.subrange(0, j as int)),
        decreases j,
    {
        assert(s@.subrange(0, j as int).drop_last() =~= s@.subrange(0, j - 1));
        j = j - 1;
    }
    s.substring_char(0, j)
}

/// Read a variation text such as `5%`, `±10%` or `0.5mm`.
pub fn classify_variation(text: &str) -> (r: VariationText)
    ensures
        r@ == spec_classify_variation(text@),
{
    let b = trim_start_char(trim_start_char(trim_start_char(trim(text), '±'), '+'), '-');
    let n = b.unicode_len();
    if n > 0 && b.get_char(n - 1) == '%' {
        VariationText::Percent(String::from_str(trim_end_char(b, '%')))
    } else {
        VariationText::Absolute(String::from_str(trim_end_alphabetic(b)))
    }
}

/// The distributions a varied variable can be sampled from.
#[derive(Debug, Clone, Copy, PartialEq, Eq, Structural)]
pub enum Distribution {
    Uniform,
    /// Normal, with three standard deviations spanning the variation.
    Gaussian,
    LogNormal,
}

/// The distribution a name selects: `Uniform`, `Gaussian` or `Normal`,
/// `LogNormal`; no other.
pub open spec fn spec_distribution(name: Seq<char>) -> Option<Distribution> {
    if name == "Uniform"@ {
        Some(Distribution::Uniform)
    } else if name == "Gaussian"@ || name == "Normal"@ {
        Some(Distribution::Gaussian)
    } else if name == "LogNormal"@ {
        Some(Distribution::LogNormal)
    } else {
        None
    }
}

impl Distribution {
    /// The distribution a name selects, if any.
    pub fn from_name(name: &str) -> (r: Option<Distribution>)
        ensures
            r == spec_distribution(name@),
    {
        if str_eq(name, "Uniform") {
            Some(Distribution::Uniform)
        } else if str_eq(name, "Gaussian") || str_eq(name, "Normal") {
            Some(Distribution::Gaussian)
        } else if str_eq(name, "LogNormal") {
            Some(Distribution::LogNormal)
        } else {
            None
        }
    }
}

/// The optimization algorithms.
#[derive(Debug, Clone, Copy, PartialEq, Eq, Structural)]
pub enum OptimAlgorithm {
    /// L-BFGS with numerical derivatives.
    QuasiNewton,
    /// Hooke-Jeeves coordinate search.
    PatternSearch,
    /// Real-coded genetic algorithm.
    GeneticAlgorithm,
    /// Sequential nonlinear programming (augmented Lagrangian).
    Snlp,
}

/// The algorithm an optimizer name selects: `QuasiNewton` or `LBFGS`,
/// `GeneticAlgorithm` or `GA`, `SNLP`; pattern search for any other name,
/// `PatternSearch` and `HookeJeeves` among them.
pub open spec fn spec_optim_algorithm(name: Seq<char>) -> OptimAlgorithm {
    if name == "QuasiNewton"@ || name == "LBFGS"@ {
        OptimAlgorithm::QuasiNewton
    } else if name == "GeneticAlgorithm"@ || name == "GA"@ {
        OptimAlgorithm::GeneticAlgorithm
    } else if name == "SNLP"@ {
        OptimAlgorithm::Snlp
    } else {
        OptimAlgorithm::PatternSearch
    }
}

impl OptimAlgorithm {
    /// The algorithm an optimizer name selects.
    pub fn from_name(name: &str) -> (r: OptimAlgorithm)
        ensures
            r == spec_optim_algorithm(name@),
    {
        if str_eq(name, "QuasiNewton") || str_eq(name, "LBFGS") {
            OptimAlgorithm::QuasiNewton
        } else if str_eq(name, "GeneticAlgorithm") || str_eq(name, "GA") {
            OptimAlgorithm::GeneticAlgorithm
        } else if str_eq(name, "SNLP") {
            OptimAlgorithm::Snlp
        } else {
            OptimAlgorithm::PatternSearch
        }
    }
}


/// What an optimization goal asks of its expression.
#[derive(Debug, Clone, Copy, PartialEq, Eq, Structural)]
pub enum GoalCondition {
    Minimize,
    Maximize,
    LessThan,
    GreaterThan,
    EqualTo,
}

/// The condition a goal's condition text names, if it names one.
pub open spec fn spec_goal_condition(name: Seq<char>) -> Option<GoalCondition> {
    if name == "Minimize"@ {
        Some(GoalCondition::Minimize)
    } else if name == "Maximize"@ {
        Some(GoalCondition::Maximize)
    } else if name == "LessThan"@ {
        Some(GoalCondition::LessThan)
    } else if name == "GreaterThan"@ {
        Some(GoalCondition::GreaterThan)
    } else if name == "EqualTo"@ {
        Some(GoalCondition::EqualTo)
    } else {
        None
    }
}

impl GoalCondition {
    /// The condition a goal's condition text names, if it names one.
    pub fn from_name(name: &str) -> (r: Option<GoalCondition>)
        ensures
            r == spec_goal_condition(name@),
    {
        if str_eq(name, "Minimize") {
            Some(GoalCondition::Minimize)
        } else if str_eq(name, "Maximize") {
            Some(GoalCondition::Maximize)
        } else if str_eq(name, "LessThan") {
            Some(GoalCondition::LessThan)
        } else if str_eq(name, "GreaterThan") {
            Some(GoalCondition::GreaterThan)
        } else if str_eq(name, "EqualTo") {
            Some(GoalCondition::EqualTo)
        } else {
            None
        }
    }
}

} // verus!
