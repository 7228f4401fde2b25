//! Shared vocabulary of the pivot calculators: solve steps, their trace text and
//! the static description of a calculator's kinds.
use vstd::prelude::*;
use crate::strings::{join_seq, push_str};

verus! {

/// How an equation step was solved.
#[derive(Debug, Clone, Copy, PartialEq, Eq, Structural)]
pub enum SolveMethod {
    Auto,
    Explicit,
    Numerical,
}

pub open spec fn method_text(method: SolveMethod) -> Seq<char> {
    match method {
        SolveMethod::Auto => "auto"@,
        SolveMethod::Explicit => "explicit"@,
        SolveMethod::Numerical => "numerical"@,
    }
}

/// The lower-case label of a solve method.
pub fn method_label(method: SolveMethod) -> (res: String)
    ensures
        res@ == method_text(method),
{
    match method {
        SolveMethod::Auto => String::from_str("auto"),
        SolveMethod::Explicit => String::from_str("explicit"),
        SolveMethod::Numerical => String::from_str("numerical"),
    }
}

/// One equation solve along a calculator's path; `V` is the numeric value type
/// of the inputs that the step consumed.
#[derive(Debug, Clone)]
pub struct CalcStep<V> {
    pub equation_path_id: String,
    pub solved_for: String,
    pub method: String,
    pub branch: Option<String>,
    pub inputs_used: Vec<(String, V)>,
}

/// `id:solved via method`, followed by ` [branch]` when a branch was used.
pub open spec fn step_text(id: Seq<char>, solved: Seq<char>, method: Seq<char>, branch: Option<Seq<char>>) -> Seq<char> {
    let base = id + ":"@ + solved + " via "@ + method;
    match branch {
        Some(b) => base + " ["@ + b + "]"@,
        None => base,
    }
}

pub open spec fn opt_view(o: Option<String>) -> Option<Seq<char>> {
    match o {
        Some(s) => Some(s@),
        None => None,
    }
}

pub open spec fn calc_step_text<V>(s: CalcStep<V>) -> Seq<char> {
    step_text(s.equation_path_id@, s.solved_for@, s.method@, opt_view(s.branch))
}

pub open spec fn calc_step_texts<V>(path: Seq<CalcStep<V>>) -> Seq<Seq<char>> {
    Seq::new(path.len(), |i: int| calc_step_text(path[i]))
}

/// The trace text of a path: each step's text, joined by ` -> `.
pub open spec fn path_text_seq<V>(path: Seq<CalcStep<V>>) -> Seq<char> {
    join_seq(calc_step_texts(path), " -> "@)
}

/// Renders the text of one step.
pub fn render_step(id: &str, solved: &str, method: &str, branch: Option<&str>) -> (res: String)
    ensures
        res@ == step_text(id@, solved@, method@, match branch { Some(b) => Some(b@), None => None }),
{
    let mut out = String::from_str(id);
    push_str(&mut out, ":");
    push_str(&mut out, solved);
    push_str(&mut out, " via ");
    push_str(&mut out, method);
    match branch {
        Some(b) => {
            push_str(&mut out, " [");
            push_str(&mut out, b);
            push_str(&mut out, "]");
        },
        None => {},
    }
    out
}

/// The compact trace of a calculator path: `id:solved via method [branch] -> ...`.
pub fn path_text<V>(path: &Vec<CalcStep<V>>) -> (res: String)
    ensures
        res@ == path_text_seq(path@),
{
    let ghost all = calc_step_texts(path@);
    let mut out = String::new();
    let mut i: usize = 0;
    while i < path.len()
        invariant
            i <= path@.len(),
            all == calc_step_texts(path@),
            out@ == join_seq(all.take(i as int), " -> "@),
        decreases path.len() - i,
    {
        let s = &path[i];
        let b: Option<&str> = match &s.branch {
            Some(b) => Some(b.as_str()),
            None => None,
        };
        let t = render_step(s.equation_path_id.as_str(), s.solved_for.as_str(), s.method.as_str(), b);
        assert(t@ == all[i as int]);
        assert(all.take(i + 1).drop_last() == all.take(i as int));
        if i != 0 {
            push_str(&mut out, " -> ");
        } else {
            assert(all.take(1) == seq![all[0]]);
        }
        push_str(&mut out, t.as_str());
        i = i + 1;
    }
    assert(all.take(path@.len() as int) == all);
    out
}

/// What a pivot calculation gives back: the target value, the pivot value it
/// went through, the equation steps it ran, and its warnings.
#[derive(Debug, Clone)]
pub struct PivotCalcResponse<V> {
    pub value_si: V,
    pub pivot_value: V,
    pub path: Vec<CalcStep<V>>,
    pub warnings: Vec<String>,
}

/// A calculator that reaches its target through a pivot value. A run checks
/// the request, resolves the pivot, checks the pivot, then solves the target
/// from it; the two solving stages add the equation steps they ran to the path.
/// The methods are each calculator's own and carry no contract here: what a
/// run hands to them and gives back is stated over the answers each may give
/// (`call_ensures`), whatever they are.
pub trait PivotCalcSpec {
    type Request;
    type Value: Copy;
    type Error;

    /// Checks a request before anything is solved; every request passes
    /// unless the calculator says otherwise.
    fn validate_request(&self, req: &Self::Request) -> Result<(), Self::Error> {
        Ok(())
    }

    fn resolve_pivot(&self, req: &Self::Request, path: &mut Vec<CalcStep<Self::Value>>) -> Result<
        Self::Value,
        Self::Error,
    >;

    fn validate_pivot(&self, pivot_value: Self::Value) -> Result<(), Self::Error>;

    fn solve_target(
        &self,
        req: &Self::Request,
        pivot_value: Self::Value,
        path: &mut Vec<CalcStep<Self::Value>>,
    ) -> Result<Self::Value, Self::Error>;
}

/// The response of a run whose four stages all succeeded: the target value,
/// the pivot, the path as the stages left it, and no warnings.
pub fn pivot_response<V>(value_si: V, pivot_value: V, path: Vec<CalcStep<V>>) -> (r: PivotCalcResponse<V>)
    ensures
        r.value_si == value_si,
        r.pivot_value == pivot_value,
        r.path@ == path@,
        r.warnings@.len() == 0,
{
    PivotCalcResponse { value_si, pivot_value, path, warnings: Vec::new() }
}

/// `r` is an answer that `validate_request` may give for `req`.
pub open spec fn request_answer<S: PivotCalcSpec>(spec: &S, req: &S::Request, r: Result<(), S::Error>) -> bool {
    call_ensures(S::validate_request, (spec, req), r)
}

/// `r` is an answer that `validate_pivot` may give for the pivot `p`.
pub open spec fn pivot_check_answer<S: PivotCalcSpec>(spec: &S, p: S::Value, r: Result<(), S::Error>) -> bool {
    call_ensures(S::validate_pivot, (spec, p), r)
}

/// Runs a pivot calculation: the request check, the pivot, the pivot check
/// and the target, in that order, each on `req`, on one path that starts
/// empty, with the pivot that the pivot stage gave passed to the pivot check
/// and the target stage. The first stage that fails ends the run with its
/// error; when all succeed the response carries the target value, the pivot,
/// the path as the two solving stages left it, and no warnings.
pub fn run_pivot_calculation<S: PivotCalcSpec>(spec: &S, req: S::Request) -> (res: Result<
    PivotCalcResponse<S::Value>,
    S::Error,
>)
    ensures
        match res {
            Ok(r) => {
                &&& r.warnings@.len() == 0
                &&& request_answer(spec, &req, Ok(()))
                &&& pivot_check_answer(spec, r.pivot_value, Ok(()))
                &&& exists|
                    m1: &mut Vec<CalcStep<S::Value>>,
                    r1: Result<S::Value, S::Error>,
                    m2: &mut Vec<CalcStep<S::Value>>,
                    r2: Result<S::Value, S::Error>,
                |
                    #![trigger call_ensures(S::resolve_pivot, (spec, &req, m1), r1), call_ensures(S::solve_target, (spec, &req, r.pivot_value, m2), r2)]
                    {
                        &&& (*m1)@ == Seq::<CalcStep<S::Value>>::empty()
                        &&& call_ensures(S::resolve_pivot, (spec, &req, m1), r1)
                        &&& r1 == Ok::<S::Value, S::Error>(r.pivot_value)
                        &&& (*m2)@ == (*final(m1))@
                        &&& call_ensures(S::solve_target, (spec, &req, r.pivot_value, m2), r2)
                        &&& r2 == Ok::<S::Value, S::Error>(r.value_si)
                        &&& (*final(m2))@ == r.path@
                    }
            },
            Err(e) => {
                ||| request_answer(spec, &req, Err(e))
                ||| request_answer(spec, &req, Ok(())) && exists|m1: &mut Vec<CalcStep<S::Value>>, r1: Result<S::Value, S::Error>|
                    #![trigger call_ensures(S::resolve_pivot, (spec, &req, m1), r1)]
                    (*m1)@ == Seq::<CalcStep<S::Value>>::empty() && call_ensures(S::resolve_pivot, (spec, &req, m1), r1) && r1
                        == Err::<S::Value, S::Error>(e)
                ||| request_answer(spec, &req, Ok(())) && exists|m1: &mut Vec<CalcStep<S::Value>>, r1: Result<S::Value, S::Error>|
                    #![trigger call_ensures(S::resolve_pivot, (spec, &req, m1), r1)]
                    (*m1)@ == Seq::<CalcStep<S::Value>>::empty() && call_ensures(S::resolve_pivot, (spec, &req, m1), r1) && r1 is Ok
                        && pivot_check_answer(spec, r1->Ok_0, Err(e))
                ||| request_answer(spec, &req, Ok(())) && exists|
                    m1: &mut Vec<CalcStep<S::Value>>,
                    r1: Result<S::Value, S::Error>,
                    m2: &mut Vec<CalcStep<S::Value>>,
                    r2: Result<S::Value, S::Error>,
                |
                    #![trigger call_ensures(S::resolve_pivot, (spec, &req, m1), r1), call_ensures(S::solve_target, (spec, &req, r1->Ok_0, m2), r2)]
                    {
                        &&& (*m1)@ == Seq::<CalcStep<S::Value>>::empty()
                        &&& call_ensures(S::resolve_pivot, (spec, &req, m1), r1)
                        &&& r1 is Ok
                        &&& pivot_check_answer(spec, r1->Ok_0, Ok(()))
                        &&& (*m2)@ == (*final(m1))@
                        &&& call_ensures(S::solve_target, (spec, &req, r1->Ok_0, m2), r2)
                        &&& r2 == Err::<S::Value, S::Error>(e)
                    }
            },
        },
{
    let checked = spec.validate_request(&req);
    assert(request_answer(spec, &req, checked));
    match checked {
        Ok(unit) => {
            assert(checked == Ok::<(), S::Error>(unit));
        },
        Err(e) => {
            return Err(e);
        },
    }
    let mut path: Vec<CalcStep<S::Value>> = Vec::new();
    let resolved = spec.resolve_pivot(&req, &mut path);
    let pivot_value = match resolved {
        Ok(v) => v,
        Err(e) => {
            return Err(e);
        },
    };
    let pivot_checked = spec.validate_pivot(pivot_value);
    assert(pivot_check_answer(spec, pivot_value, pivot_checked));
    match pivot_checked {
        Ok(unit) => {
            assert(pivot_checked == Ok::<(), S::Error>(unit));
        },
        Err(e) => {
            return Err(e);
        },
    }
    let solved = spec.solve_target(&req, pivot_value, &mut path);
    let value_si = match solved {
        Ok(v) => v,
        Err(e) => {
            return Err(e);
        },
    };
    Ok(pivot_response(value_si, pivot_value, path))
}

/// One input or output kind a calculator offers: its key and display label.
#[derive(Debug, Clone, Copy)]
pub struct CalculatorKindSpec {
    pub key: &'static str,
    pub label: &'static str,
}

/// The static description of a pivot calculator.
#[derive(Debug, Clone)]
pub struct CalculatorDeviceSpec {
    pub key: &'static str,
    pub name: &'static str,
    pub summary: &'static str,
    pub route: &'static str,
    pub pivot_label: &'static str,
    pub input_kinds: Vec<CalculatorKindSpec>,
    pub output_kinds: Vec<CalculatorKindSpec>,
    pub branches: Vec<&'static str>,
}

pub open spec fn kind_keys(kinds: Seq<CalculatorKindSpec>) -> Seq<Seq<char>> {
    Seq::new(kinds.len(), |i: int| kinds[i].key@)
}

pub open spec fn kind_labels(kinds: Seq<CalculatorKindSpec>) -> Seq<Seq<char>> {
    Seq::new(kinds.len(), |i: int| kinds[i].label@)
}

/// A kind entry.
pub fn kind(key: &'static str, label: &'static str) -> (res: CalculatorKindSpec)
    ensures
        res.key == key,
        res.label == label,
{
    CalculatorKindSpec { key, label }
}

/// The labels of the given kinds joined by `, `.
pub fn kind_labels_text(kinds: &Vec<CalculatorKindSpec>) -> (res: String)
    ensures
        res@ == join_seq(kind_labels(kinds@), ", "@),
{
    let ghost all = kind_labels(kinds@);
    let mut out = String::new();
    let mut i: usize = 0;
    while i < kinds.len()
        invariant
            i <= kinds@.len(),
            all == kind_labels(kinds@),
            out@ == join_seq(all.take(i as int), ", "@),
        decreases kinds.len() - i,
    {
        assert(all.take(i + 1).drop_last() == all.take(i as int));
        if i != 0 {
            push_str(&mut out, ", ");
        } else {
            assert(all.take(1) == seq![all[0]]);
        }
        push_str(&mut out, kinds[i].label);
        i = i + 1;
    }
    assert(all.take(kinds@.len() as int) == all);
    out
}

} // verus!

verus! {

/// How a planned step is carried out.
#[derive(Debug, Clone, Copy, PartialEq, Eq, Structural)]
pub enum StepKind {
    /// A registry equation solved by the equation engine (method and branch as it reports them).
    Equation,
    /// A numerical inversion run by the device itself (recorded as `numerical`, with the branch).
    Inversion,
    /// An explicit scaling of a ratio by a stagnation reference (recorded as `explicit`).
    Scale,
}

/// One step a calculator will run: the equation, the variable it solves for,
/// the names of the inputs it passes, and the branch it requests.
#[derive(Debug, Clone)]
pub struct PlannedStep {
    pub kind: StepKind,
    pub equation_path_id: &'static str,
    pub solved_for: &'static str,
    pub inputs: Vec<&'static str>,
    pub branch: Option<&'static str>,
}

/// Why a calculator cannot be routed before any numeric work starts.
#[derive(Debug, Clone, Copy)]
pub enum RouteError {
    /// The input kind has two roots and no branch was chosen.
    MissingBranch { kind: &'static str },
    /// A static output needs a stagnation reference that was not supplied.
    MissingReference { target: &'static str, reference: &'static str },
}

/// The mathematical image of a planned step.
pub struct StepView {
    pub kind: StepKind,
    pub id: Seq<char>,
    pub solved: Seq<char>,
    pub inputs: Seq<Seq<char>>,
    pub branch: Option<Seq<char>>,
}

/// The mathematical image of a routing failure.
pub enum RouteFailure {
    MissingBranch(Seq<char>),
    MissingReference(Seq<char>, Seq<char>),
}

pub open spec fn step_view(s: PlannedStep) -> StepView {
    StepView {
        kind: s.kind,
        id: s.equation_path_id@,
        solved: s.solved_for@,
        inputs: crate::strings::str_views(s.inputs@),
        branch: match s.branch { Some(b) => Some(b@), None => None },
    }
}

pub open spec fn failure_view(e: RouteError) -> RouteFailure {
    match e {
        RouteError::MissingBranch { kind } => RouteFailure::MissingBranch(kind@),
        RouteError::MissingReference { target, reference } => RouteFailure::MissingReference(target@, reference@),
    }
}

pub open spec fn plan_view(p: Seq<PlannedStep>) -> Seq<StepView> {
    Seq::new(p.len(), |i: int| step_view(p[i]))
}

pub open spec fn route_view(r: Result<Vec<PlannedStep>, RouteError>) -> Result<Seq<StepView>, RouteFailure> {
    match r {
        Ok(p) => Ok(plan_view(p@)),
        Err(e) => Err(failure_view(e)),
    }
}

} // verus!

verus! {

pub open spec fn opt_str_view(o: Option<&'static str>) -> Option<Seq<char>> {
    match o {
        Some(s) => Some(s@),
        None => None,
    }
}

/// A step image built from its parts.
pub open spec fn sv(kind: StepKind, id: Seq<char>, solved: Seq<char>, inputs: Seq<Seq<char>>, branch: Option<Seq<char>>) -> StepView {
    StepView { kind, id, solved, inputs, branch }
}

/// The zero- or one-element sequence of an optional step.
pub open spec fn opt_seq(o: Option<StepView>) -> Seq<StepView> {
    match o {
        Some(s) => seq![s],
        None => Seq::empty(),
    }
}

/// Builds a planned step.
pub fn planned(
    kind: StepKind,
    id: &'static str,
    solved: &'static str,
    inputs: Vec<&'static str>,
    branch: Option<&'static str>,
) -> (res: PlannedStep)
    ensures
        step_view(res) == sv(kind, id@, solved@, crate::strings::str_views(inputs@), opt_str_view(branch)),
{
    PlannedStep { kind, equation_path_id: id, solved_for: solved, inputs, branch }
}

/// A one-input list of names.
pub fn names1(a: &'static str) -> (res: Vec<&'static str>)
    ensures
        crate::strings::str_views(res@) == seq![a@],
{
    let v = vec![a];
    assert(crate::strings::str_views(v@) =~= seq![a@]);
    v
}

/// A two-input list of names.
pub fn names2(a: &'static str, b: &'static str) -> (res: Vec<&'static str>)
    ensures
        crate::strings::str_views(res@) == seq![a@, b@],
{
    let v = vec![a, b];
    assert(crate::strings::str_views(v@) =~= seq![a@, b@]);
    v
}

/// A three-input list of names.
pub fn names3(a: &'static str, b: &'static str, c: &'static str) -> (res: Vec<&'static str>)
    ensures
        crate::strings::str_views(res@) == seq![a@, b@, c@],
{
    let v = vec![a, b, c];
    assert(crate::strings::str_views(v@) =~= seq![a@, b@, c@]);
    v
}

pub open spec fn opt_step_view(o: Option<PlannedStep>) -> Option<StepView> {
    match o {
        Some(s) => Some(step_view(s)),
        None => None,
    }
}

/// The steps of an optional pivot step followed by an optional target step.
pub fn chain(first: Option<PlannedStep>, second: Option<PlannedStep>) -> (res: Vec<PlannedStep>)
    ensures
        plan_view(res@) == opt_seq(opt_step_view(first)) + opt_seq(opt_step_view(second)),
{
    let ghost a = opt_seq(opt_step_view(first));
    let ghost b = opt_seq(opt_step_view(second));
    let mut v: Vec<PlannedStep> = Vec::new();
    match first {
        Some(s) => v.push(s),
        None => {},
    }
    match second {
        Some(s) => v.push(s),
        None => {},
    }
    assert(plan_view(v@) =~= a + b);
    v
}

} // verus!

verus! {

pub open spec fn step_result_view(r: Result<Option<PlannedStep>, RouteError>) -> Result<Option<StepView>, RouteFailure> {
    match r {
        Ok(o) => Ok(opt_step_view(o)),
        Err(e) => Err(failure_view(e)),
    }
}

/// A pivot route followed by an optional target step.
pub open spec fn assemble(pivot: Result<Option<StepView>, RouteFailure>, target: Option<StepView>) -> Result<Seq<StepView>, RouteFailure> {
    match pivot {
        Err(e) => Err(e),
        Ok(p) => Ok(opt_seq(p) + opt_seq(target)),
    }
}

/// Runs the pivot routing, then appends the target step.
pub fn assemble_route(pivot: Result<Option<PlannedStep>, RouteError>, target: Option<PlannedStep>) -> (res: Result<Vec<PlannedStep>, RouteError>)
    ensures
        route_view(res) == assemble(step_result_view(pivot), opt_step_view(target)),
{
    match pivot {
        Err(e) => Err(e),
        Ok(p) => Ok(chain(p, target)),
    }
}

} // verus!
