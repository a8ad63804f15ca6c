//! The evaluator: walks a program against a program memory, binds
//! declarations, dispatches calls, threads the pipeline value, and drives
//! the engine through the host.

use vstd::prelude::*;
use std::rc::Rc;
use crate::ast::{
    BodyItem, Expr, FunctionExpression, KclNone, LiteralIdentifier, MemberObject, Parameter,
    Program, required_param_count,
};
use crate::errors::{KclError, KclErrorDetails};
use crate::host::{Args, Host, ModelingCommand, UnitLength};
use crate::json::{JNumber, JValue, Real};
use crate::memory::{ProgramMemory, ProgramReturn};
use crate::source_range::{Metadata, SourceRange};
use crate::util::{concat2, concat3, dec_str, rc_dup, str_eq, usize_to_string};
use crate::values::{MemoryItem, UserVal};

verus! {

/// The pipeline state: the previous stage's result, if a pipeline is
/// underway.
#[derive(Debug, Clone, PartialEq)]
pub struct PipeInfo {
    /// What the pipeline-substitution marker resolves to.
    pub previous_results: Option<Rc<MemoryItem>>,
}

impl PipeInfo {
    /// A pipe state with no previous result.
    pub fn new() -> (r: Self)
        ensures
            r.previous_results is None,
    {
        PipeInfo { previous_results: Option::None }
    }
}

impl Default for PipeInfo {
    /// A pipe state with no previous result.
    fn default() -> (r: Self)
        ensures
            r.previous_results is None,
    {
        PipeInfo::new()
    }
}

/// What kind of body is being executed.
#[derive(Debug, Clone, Copy, PartialEq, Eq, Structural)]
pub enum BodyType {
    /// The top level of a program.
    Root,
    /// A sketch body.
    Sketch,
    /// A nested block, such as a function body.
    Block,
}

/// The evaluator's configuration.
#[derive(Debug, Clone, Copy, PartialEq, Eq, Structural)]
pub struct ExecutorSettings {
    /// The unit to use in modeling dimensions.
    pub units: UnitLength,
    /// Highlight edges of 3D objects?
    pub highlight_edges: bool,
    /// Whether Screen Space Ambient Occlusion is enabled.
    pub enable_ssao: bool,
}

impl Default for ExecutorSettings {
    /// Millimeter units, highlighted edges, no ambient occlusion.
    fn default() -> (r: Self)
        ensures
            r.units == UnitLength::Mm,
            r.highlight_edges,
            !r.enable_ssao,
    {
        ExecutorSettings { units: UnitLength::Mm, highlight_edges: true, enable_ssao: false }
    }
}

/// The verified segment primitives, as callee names classify to them.
#[derive(Debug, Clone, Copy, PartialEq, Eq, Structural)]
pub enum SegmentFn {
    SegEndX,
    SegEndY,
    LastSegX,
    LastSegY,
    SegLen,
    SegAng,
    AngleToMatchLengthX,
    AngleToMatchLengthY,
}

/// A builtin of the standard library.
#[derive(Debug, Clone, Copy, PartialEq, Eq, Structural)]
pub enum CoreFn {
    /// One of the verified segment primitives.
    Segment(SegmentFn),
    /// A builtin the host implements.
    Hosted,
}

/// How a callee name classifies.
#[derive(Debug, Clone, PartialEq)]
pub enum FunctionKind {
    /// A builtin: a segment primitive or a host-implemented function.
    Core(CoreFn),
    /// A library function implemented in the language itself; its body is
    /// stored.
    Std(Rc<Program>),
    /// Anything else: the name resolves through program memory.
    UserDefined,
}

/// The segment primitive a name denotes, if any.
pub open spec fn segment_fn_of(name: Seq<char>) -> Option<SegmentFn> {
    if name == "segEndX"@ {
        Option::Some(SegmentFn::SegEndX)
    } else if name == "segEndY"@ {
        Option::Some(SegmentFn::SegEndY)
    } else if name == "lastSegX"@ {
        Option::Some(SegmentFn::LastSegX)
    } else if name == "lastSegY"@ {
        Option::Some(SegmentFn::LastSegY)
    } else if name == "segLen"@ {
        Option::Some(SegmentFn::SegLen)
    } else if name == "segAng"@ {
        Option::Some(SegmentFn::SegAng)
    } else if name == "angleToMatchLengthX"@ {
        Option::Some(SegmentFn::AngleToMatchLengthX)
    } else if name == "angleToMatchLengthY"@ {
        Option::Some(SegmentFn::AngleToMatchLengthY)
    } else {
        Option::None
    }
}

fn segment_fn_for(name: &str) -> (r: Option<SegmentFn>)
    ensures
        r == segment_fn_of(name@),
{
    if str_eq(name, "segEndX") {
        Option::Some(SegmentFn::SegEndX)
    } else if str_eq(name, "segEndY") {
        Option::Some(SegmentFn::SegEndY)
    } else if str_eq(name, "lastSegX") {
        Option::Some(SegmentFn::LastSegX)
    } else if str_eq(name, "lastSegY") {
        Option::Some(SegmentFn::LastSegY)
    } else if str_eq(name, "segLen") {
        Option::Some(SegmentFn::SegLen)
    } else if str_eq(name, "segAng") {
        Option::Some(SegmentFn::SegAng)
    } else if str_eq(name, "angleToMatchLengthX") {
        Option::Some(SegmentFn::AngleToMatchLengthX)
    } else if str_eq(name, "angleToMatchLengthY") {
        Option::Some(SegmentFn::AngleToMatchLengthY)
    } else {
        Option::None
    }
}

/// Whether `name` occurs in the list.
pub open spec fn name_in_list(list: Seq<String>, name: Seq<char>) -> bool {
    exists|i: int| 0 <= i < list.len() && list[i]@ == name
}

/// The program of the first library function carrying `name`.
pub open spec fn lib_lookup(entries: Seq<(String, Rc<Program>)>, name: Seq<char>) -> Option<
    Rc<Program>,
>
    decreases entries.len(),
{
    if entries.len() == 0 {
        Option::None
    } else if entries[0].0@ == name {
        Option::Some(entries[0].1)
    } else {
        lib_lookup(entries.drop_first(), name)
    }
}

proof fn lemma_lib_lookup_skip(entries: Seq<(String, Rc<Program>)>, name: Seq<char>, i: int)
    requires
        0 <= i <= entries.len(),
        forall|j: int| 0 <= j < i ==> entries[j].0@ != name,
    ensures
        lib_lookup(entries, name) == lib_lookup(entries.subrange(i, entries.len() as int), name),
    decreases i,
{
    if i > 0 {
        lemma_lib_lookup_skip(entries, name, i - 1);
        let tail = entries.subrange(i - 1, entries.len() as int);
        assert(tail[0] == entries[i - 1]);
        assert(tail.drop_first() =~= entries.subrange(i, entries.len() as int));
    } else {
        assert(entries.subrange(0, entries.len() as int) =~= entries);
    }
}

/// Whether a builtin-name list carries every compatibility-critical
/// builtin of the language surface that is not a segment primitive.
pub open spec fn standard_builtins(list: Seq<String>) -> bool {
    &&& name_in_list(list, "startSketchOn"@)
    &&& name_in_list(list, "startProfileAt"@)
    &&& name_in_list(list, "line"@)
    &&& name_in_list(list, "lineTo"@)
    &&& name_in_list(list, "xLine"@)
    &&& name_in_list(list, "yLineTo"@)
    &&& name_in_list(list, "angledLine"@)
    &&& name_in_list(list, "angledLineToX"@)
    &&& name_in_list(list, "angledLineThatIntersects"@)
    &&& name_in_list(list, "close"@)
    &&& name_in_list(list, "extrude"@)
    &&& name_in_list(list, "min"@)
    &&& name_in_list(list, "legLen"@)
    &&& name_in_list(list, "pi"@)
}

/// The standard-library registry: which names are builtins, and which are
/// library functions written in the language.
#[derive(Debug, Clone, PartialEq)]
pub struct StdLib {
    /// Names of builtins the host implements.
    pub host_builtins: Vec<String>,
    /// Library functions implemented in the language, by name.
    pub lib_fns: Vec<(String, Rc<Program>)>,
}

impl StdLib {
    /// The registry with the standard builtin names and no library
    /// functions.
    pub fn new() -> (r: StdLib)
        ensures
            r.lib_fns@.len() == 0,
            standard_builtins(r.host_builtins@),
    {
        let mut host_builtins: Vec<String> = Vec::new();
        host_builtins.push("startSketchAt".to_owned());
        host_builtins.push("startSketchOn".to_owned());
        host_builtins.push("startProfileAt".to_owned());
        host_builtins.push("line".to_owned());
        host_builtins.push("lineTo".to_owned());
        host_builtins.push("xLine".to_owned());
        host_builtins.push("xLineTo".to_owned());
        host_builtins.push("yLine".to_owned());
        host_builtins.push("yLineTo".to_owned());
        host_builtins.push("angledLine".to_owned());
        host_builtins.push("angledLineOfXLength".to_owned());
        host_builtins.push("angledLineOfYLength".to_owned());
        host_builtins.push("angledLineToX".to_owned());
        host_builtins.push("angledLineToY".to_owned());
        host_builtins.push("angledLineThatIntersects".to_owned());
        host_builtins.push("tangentialArc".to_owned());
        host_builtins.push("tangentialArcTo".to_owned());
        host_builtins.push("arc".to_owned());
        host_builtins.push("bezierCurve".to_owned());
        host_builtins.push("close".to_owned());
        host_builtins.push("extrude".to_owned());
        host_builtins.push("hole".to_owned());
        host_builtins.push("import".to_owned());
        host_builtins.push("min".to_owned());
        host_builtins.push("max".to_owned());
        host_builtins.push("legLen".to_owned());
        host_builtins.push("legAngX".to_owned());
        host_builtins.push("legAngY".to_owned());
        host_builtins.push("pi".to_owned());
        host_builtins.push("e".to_owned());
        host_builtins.push("tau".to_owned());
        host_builtins.push("abs".to_owned());
        host_builtins.push("floor".to_owned());
        host_builtins.push("ceil".to_owned());
        host_builtins.push("sqrt".to_owned());
        host_builtins.push("sin".to_owned());
        host_builtins.push("cos".to_owned());
        host_builtins.push("tan".to_owned());
        host_builtins.push("asin".to_owned());
        host_builtins.push("acos".to_owned());
        host_builtins.push("atan".to_owned());
        host_builtins.push("ln".to_owned());
        host_builtins.push("log2".to_owned());
        host_builtins.push("log10".to_owned());
        host_builtins.push("toDegrees".to_owned());
        host_builtins.push("toRadians".to_owned());
        let r = StdLib { host_builtins, lib_fns: Vec::new() };
        proof {
            let hb = r.host_builtins@;
            assert(name_in_list(hb, "startSketchOn"@)) by {
                assert(hb[1]@ == "startSketchOn"@);
            }
            assert(name_in_list(hb, "startProfileAt"@)) by {
                assert(hb[2]@ == "startProfileAt"@);
            }
            assert(name_in_list(hb, "line"@)) by {
                assert(hb[3]@ == "line"@);
            }
            assert(name_in_list(hb, "lineTo"@)) by {
                assert(hb[4]@ == "lineTo"@);
            }
            assert(name_in_list(hb, "xLine"@)) by {
                assert(hb[5]@ == "xLine"@);
            }
            assert(name_in_list(hb, "yLineTo"@)) by {
                assert(hb[8]@ == "yLineTo"@);
            }
            assert(name_in_list(hb, "angledLine"@)) by {
                assert(hb[9]@ == "angledLine"@);
            }
            assert(name_in_list(hb, "angledLineToX"@)) by {
                assert(hb[12]@ == "angledLineToX"@);
            }
            assert(name_in_list(hb, "angledLineThatIntersects"@)) by {
                assert(hb[14]@ == "angledLineThatIntersects"@);
            }
            assert(name_in_list(hb, "close"@)) by {
                assert(hb[19]@ == "close"@);
            }
            assert(name_in_list(hb, "extrude"@)) by {
                assert(hb[20]@ == "extrude"@);
            }
            assert(name_in_list(hb, "min"@)) by {
                assert(hb[23]@ == "min"@);
            }
            assert(name_in_list(hb, "legLen"@)) by {
                assert(hb[25]@ == "legLen"@);
            }
            assert(name_in_list(hb, "pi"@)) by {
                assert(hb[28]@ == "pi"@);
            }
        }
        r
    }

    /// Classify a callee name: segment primitives and host builtins are
    /// `Core`, stored library functions are `Std`, and everything else
    /// falls back to the program memory.
    #[verifier::loop_isolation(false)]
    pub fn get_either(&self, name: &str) -> (r: FunctionKind)
        ensures
            match segment_fn_of(name@) {
                Option::Some(f) => r == FunctionKind::Core(CoreFn::Segment(f)),
                Option::None => {
                    if name_in_list(self.host_builtins@, name@) {
                        r == FunctionKind::Core(CoreFn::Hosted)
                    } else {
                        match lib_lookup(self.lib_fns@, name@) {
                            Option::Some(p) => r == FunctionKind::Std(p),
                            Option::None => r == FunctionKind::UserDefined,
                        }
                    }
                },
            },
    {
        if let Option::Some(f) = segment_fn_for(name) {
            return FunctionKind::Core(CoreFn::Segment(f));
        }
        let n = self.host_builtins.len();
        let mut i: usize = 0;
        while i < n
            invariant
                i <= n,
                forall|j: int| 0 <= j < i ==> self.host_builtins@[j]@ != name@,
            decreases n - i,
        {
            if str_eq(self.host_builtins[i].as_str(), name) {
                return FunctionKind::Core(CoreFn::Hosted);
            }
            i = i + 1;
        }
        let m = self.lib_fns.len();
        let mut i: usize = 0;
        while i < m
            invariant
                i <= m,
                forall|j: int| 0 <= j < i ==> self.lib_fns@[j].0@ != name@,
            decreases m - i,
        {
            if str_eq(self.lib_fns[i].0.as_str(), name) {
                proof {
                    lemma_lib_lookup_skip(self.lib_fns@, name@, i as int);
                    let tail = self.lib_fns@.subrange(i as int, self.lib_fns@.len() as int);
                    assert(tail[0] == self.lib_fns@[i as int]);
                }
                return FunctionKind::Std(rc_dup(&self.lib_fns[i].1));
            }
            i = i + 1;
        }
        proof {
            lemma_lib_lookup_skip(self.lib_fns@, name@, m as int);
        }
        FunctionKind::UserDefined
    }
}

impl Default for StdLib {
    /// The registry as [`StdLib::new`] builds it.
    fn default() -> (r: Self)
        ensures
            r.lib_fns@.len() == 0,
            standard_builtins(r.host_builtins@),
    {
        StdLib::new()
    }
}

/// The message an arity failure reports: `Expected {min} arguments, got
/// {n}` when the counts agree, `Expected {min}-{max} arguments, got {n}`
/// otherwise.
pub open spec fn arity_message(min: nat, max: nat, n: nat) -> Seq<char> {
    if min == max {
        "Expected "@ + dec_str(min) + " arguments, got "@ + dec_str(n)
    } else {
        "Expected "@ + dec_str(min) + "-"@ + dec_str(max) + " arguments, got "@ + dec_str(n)
    }
}

fn arity_error(min: usize, max: usize, n: usize, source_range: SourceRange) -> (r: KclError)
    ensures
        r matches KclError::Semantic(d) && d.message@ == arity_message(
            min as nat,
            max as nat,
            n as nat,
        ) && d.source_ranges@ =~= seq![source_range],
{
    let mut message = concat2("Expected ", usize_to_string(min).as_str());
    if min == max {
        message.append(" arguments, got ");
    } else {
        message.append("-");
        message.append(usize_to_string(max).as_str());
        message.append(" arguments, got ");
    }
    message.append(usize_to_string(n).as_str());
    let mut ranges: Vec<SourceRange> = Vec::new();
    ranges.push(source_range);
    KclError::Semantic(KclErrorDetails { message, source_ranges: ranges })
}

/// Whether required parameters all precede optional ones.
pub open spec fn params_order_ok(params: Seq<Parameter>) -> bool {
    forall|i: int, j: int|
        0 <= i < j < params.len() ==> (params[i].optional ==> params[j].optional)
}

/// Whether the parameters can all be bound against `mem`: names pairwise
/// distinct and none already bound.
pub open spec fn params_bindable(params: Seq<Parameter>, mem: ProgramMemory) -> bool {
    &&& forall|i: int| 0 <= i < params.len() ==> !mem.contains(params[i].identifier.name@)
    &&& forall|i: int, j: int|
        0 <= i < j < params.len() ==> params[i].identifier.name@ != params[j].identifier.name@
}

/// Under the prefix ordering, a parameter is required exactly when its
/// index falls below the required count.
proof fn lemma_required_prefix(params: Seq<Parameter>)
    requires
        params_order_ok(params),
    ensures
        forall|i: int|
            0 <= i < params.len() ==> (!params[i].optional <==> i < required_param_count(params)),
        required_param_count(params) <= params.len(),
    decreases params.len(),
{
    if params.len() > 0 {
        let head = params.drop_last();
        let last_at = params.len() - 1;
        assert(params_order_ok(head)) by {
            assert forall|i: int, j: int| 0 <= i < j < head.len() implies (head[i].optional
                ==> head[j].optional) by {
                assert(head[i] == params[i]);
                assert(head[j] == params[j]);
            }
        }
        lemma_required_prefix(head);
        let rc_head = required_param_count(head);
        if params.last().optional {
            assert(required_param_count(params) == rc_head);
            assert forall|i: int| 0 <= i < params.len() implies (!params[i].optional <==> i
                < rc_head) by {
                if i < last_at {
                    assert(params[i] == head[i]);
                } else {
                    assert(params[i] == params.last());
                    assert(rc_head <= last_at);
                }
            }
        } else {
            assert forall|i: int| 0 <= i < params.len() implies !params[i].optional by {
                if i < last_at && params[i].optional {
                    assert(params[last_at].optional);
                }
            }
            assert(rc_head == head.len()) by {
                if rc_head < head.len() {
                    assert(!head[rc_head as int].optional <==> rc_head < rc_head);
                    assert(head[rc_head as int] == params[rc_head as int]);
                    assert(!params[rc_head as int].optional);
                }
            }
            assert(required_param_count(params) == rc_head + 1);
        }
    }
}

/// Bind call-site arguments to a function's parameters in a scoped
/// memory.
///
/// For a [`params_well_formed`] parameter list whose names are not
/// already bound, the call is accepted exactly when the argument count
/// falls in the accepted range `min ..= max` (`min` required parameters,
/// `max` parameters in all); a rejected call reports the arity message
/// and the function expression's range, and a parameter name that is
/// already bound reports `ValueAlreadyDefined`.  An omitted optional
/// parameter is bound to the distinguished "none" sentinel carrying the
/// parameter's offsets.
#[verifier::loop_isolation(false)]
pub fn assign_args_to_params(
    function_expression: &FunctionExpression,
    args: Vec<Rc<MemoryItem>>,
    fn_memory: ProgramMemory,
) -> (r: Result<ProgramMemory, KclError>)
    ensures
        ({
            let params = function_expression.params@;
            let min = required_param_count(params);
            let max = params.len();
            let n = args@.len();
            &&& (n > max ==> (r matches Result::Err(e) && e matches KclError::Semantic(d)
                && d.message@ == arity_message(min, max as nat, n as nat) && d.source_ranges@.len()
                == 1 && d.source_ranges@[0].spec_start() == function_expression.start
                && d.source_ranges@[0].spec_end() == function_expression.end))
            &&& (n <= max && n < min && params_order_ok(params) && params_bindable(
                params,
                fn_memory,
            ) ==> (r matches Result::Err(e) && e matches KclError::Semantic(d) && d.message@
                == arity_message(min, max as nat, n as nat) && d.source_ranges@.len() == 1
                && d.source_ranges@[0].spec_start() == function_expression.start
                && d.source_ranges@[0].spec_end() == function_expression.end))
            &&& (min <= n <= max && params_order_ok(params) && params_bindable(params, fn_memory)
                ==> (r matches Result::Ok(m) && m.return_ == fn_memory.return_ && (forall|i: int|
                0 <= i < n && i < params.len() ==> m.lookup(params[i].identifier.name@)
                    == Option::Some(args@[i])) && (forall|i: int|
                n <= i < params.len() ==> ((#[trigger] m.lookup(params[i].identifier.name@))
                    matches Option::Some(v) && *v matches MemoryItem::UserVal(u)
                    && crate::serialize::is_kcl_none_at(
                    u.value,
                    params[i].identifier.start,
                    params[i].identifier.end,
                ) && u.meta@.len() == 1 && u.meta@[0].source_range.spec_start()
                    == params[i].identifier.start && u.meta@[0].source_range.spec_end()
                    == params[i].identifier.end)) && (forall|k: Seq<char>|
                (forall|i: int|
                    0 <= i < params.len() ==> (#[trigger] params[i].identifier.name@) != k) ==> m.lookup(
                    k,
                ) == fn_memory.lookup(k))))
            &&& (min <= n <= max && params_order_ok(params) && !params_bindable(params, fn_memory)
                ==> (r matches Result::Err(e) && e is ValueAlreadyDefined))
        }),
{
    let params_len = function_expression.params.len();
    let (min_params, max_params) = function_expression.number_of_args();
    let n = args.len();
    if n > max_params {
        return Result::Err(
            arity_error(min_params, max_params, n, function_expression.source_range()),
        );
    }
    proof {
        if params_order_ok(function_expression.params@) {
            lemma_required_prefix(function_expression.params@);
        }
    }
    let mut mem = fn_memory;
    let ghost orig = mem;
    let mut i: usize = 0;
    while i < params_len
        invariant
            i <= params_len,
            params_len == function_expression.params@.len(),
            n == args@.len(),
            n <= params_len,
            mem.return_ == orig.return_,
            forall|j: int|
                0 <= j < i && j < n ==> mem.lookup(function_expression.params@[j].identifier.name@)
                    == Option::Some(args@[j]),
            forall|j: int|
                n <= j < i ==> ((#[trigger] mem.lookup(
                    function_expression.params@[j].identifier.name@,
                )) matches Option::Some(v) && *v matches MemoryItem::UserVal(u)
                    && crate::serialize::is_kcl_none_at(
                    u.value,
                    function_expression.params@[j].identifier.start,
                    function_expression.params@[j].identifier.end,
                ) && u.meta@.len() == 1 && u.meta@[0].source_range.spec_start()
                    == function_expression.params@[j].identifier.start
                    && u.meta@[0].source_range.spec_end()
                    == function_expression.params@[j].identifier.end),
            forall|j: int|
                0 <= j < i ==> !orig.contains(
                    #[trigger] function_expression.params@[j].identifier.name@,
                ),
            forall|j1: int, j2: int|
                0 <= j1 < j2 < i ==> (#[trigger] function_expression.params@[j1].identifier.name@)
                    != (#[trigger] function_expression.params@[j2].identifier.name@),
            forall|k: Seq<char>|
                (forall|j: int|
                    0 <= j < i ==> (#[trigger] function_expression.params@[j].identifier.name@)
                        != k) ==> mem.lookup(k) == orig.lookup(k),
            params_order_ok(function_expression.params@) && params_bindable(
                function_expression.params@,
                orig,
            ) && n < required_param_count(function_expression.params@) ==> i <= n,
        decreases params_len - i,
    {
        let param = &function_expression.params[i];
        let param_range = param.identifier.source_range();
        let ghost pre_add_mem = mem;
        if i < n {
            let arg = rc_dup(&args[i]);
            match mem.add_handle(param.identifier.name.as_str(), arg, param_range) {
                Result::Ok(()) => {},
                Result::Err(e) => {
                    proof {
                        if params_bindable(function_expression.params@, orig) {
                            assert(false);
                        }
                    }
                    return Result::Err(e);
                },
            }
        } else if param.optional {
            let none = KclNone { start: param.identifier.start, end: param.identifier.end };
            let value = crate::serialize::kcl_none_json(&none);
            let mut meta: Vec<Metadata> = Vec::new();
            meta.push(Metadata { source_range: param_range });
            let item = MemoryItem::UserVal(UserVal { value, meta });
            match mem.add_handle(param.identifier.name.as_str(), Rc::new(item), param_range) {
                Result::Ok(()) => {},
                Result::Err(e) => {
                    proof {
                        if params_bindable(function_expression.params@, orig) {
                            assert(false);
                        }
                    }
                    return Result::Err(e);
                },
            }
        } else {
            proof {
                if params_order_ok(function_expression.params@) && params_bindable(
                    function_expression.params@,
                    orig,
                ) {
                    assert(i >= n);
                    assert(!function_expression.params@[i as int].optional);
                    assert((i as int) < required_param_count(function_expression.params@));
                    assert(n < min_params);
                }
            }
            return Result::Err(
                arity_error(min_params, max_params, n, function_expression.source_range()),
            );
        }
        proof {
            // the add succeeded, so this parameter's name was bound neither
            // in the seed memory nor by an earlier parameter
            let params = function_expression.params@;
            let name_i = params[i as int].identifier.name@;
            assert(!pre_add_mem.contains(name_i));
            assert forall|j: int| 0 <= j < i implies params[j].identifier.name@ != name_i by {
                if j < n {
                    assert(pre_add_mem.lookup(params[j].identifier.name@) == Option::Some(
                        args@[j],
                    ));
                } else {
                    assert((#[trigger] pre_add_mem.lookup(params[j].identifier.name@)) is Some);
                }
                if params[j].identifier.name@ == name_i {
                    assert(pre_add_mem.contains(name_i));
                }
            }
            assert(!orig.contains(name_i)) by {
                assert(pre_add_mem.lookup(name_i) == orig.lookup(name_i));
            }
        }
        i = i + 1;
    }
    proof {
        if params_order_ok(function_expression.params@) && !params_bindable(
            function_expression.params@,
            orig,
        ) {
            assert(params_bindable(function_expression.params@, orig));
        }
    }
    Result::Ok(mem)
}

} // verus!

verus! {

/// One program memory preserves another's bindings: every name bound
/// before is still bound to the same value.
pub open spec fn preserves_bindings(before: ProgramMemory, after: ProgramMemory) -> bool {
    forall|k: Seq<char>| before.contains(k) ==> after.lookup(k) == #[trigger] before.lookup(k)
}

/// Preservation composes: bindings kept across one step stay kept across
/// the next.
pub proof fn lemma_preserves_bindings_trans(a: ProgramMemory, b: ProgramMemory, c: ProgramMemory)
    requires
        preserves_bindings(a, b),
        preserves_bindings(b, c),
    ensures
        preserves_bindings(a, c),
{
    assert forall|k: Seq<char>| a.contains(k) implies c.lookup(k) == #[trigger] a.lookup(k) by {
        assert(b.lookup(k) == a.lookup(k));
        assert(b.contains(k));
    }
}

/// Every binding a program inserts reads back unchanged: once a name is
/// bound to a value, any evaluation step that preserves bindings still
/// answers that name with the same value.
pub proof fn lemma_inserted_binding_survives(
    before: ProgramMemory,
    after: ProgramMemory,
    key: Seq<char>,
    value: Rc<MemoryItem>,
)
    requires
        before.lookup(key) == Option::Some(value),
        preserves_bindings(before, after),
    ensures
        after.lookup(key) == Option::Some(value),
{
}

/// The binding a declarator with a literal initializer makes: the bound
/// name and the literal's JSON.
pub open spec fn literal_binding_of(item: BodyItem, d: int) -> Option<(Seq<char>, JValue)> {
    match item {
        BodyItem::VariableDeclaration(decl) => {
            if 0 <= d < decl.declarations@.len() {
                match decl.declarations@[d].init {
                    Expr::Literal(lit) => Option::Some(
                        (decl.declarations@[d].id.name@, lit.value),
                    ),
                    _ => Option::None,
                }
            } else {
                Option::None
            }
        },
        _ => Option::None,
    }
}

/// Every literal-initialized declaration among the first `upto`
/// statements reads back as a user value holding exactly its literal.
pub open spec fn literal_bindings_present(
    body: Seq<BodyItem>,
    upto: int,
    mem: ProgramMemory,
) -> bool {
    forall|s: int, d: int|
        0 <= s < upto ==> ((#[trigger] literal_binding_of(body[s], d)) matches Option::Some(b)
            ==> (mem.lookup(b.0) matches Option::Some(v) && *v matches MemoryItem::UserVal(u)
            && u.value == b.1))
}

/// The name a declarator binds, whatever its initializer.
pub open spec fn declared_name_of(item: BodyItem, d: int) -> Option<Seq<char>> {
    match item {
        BodyItem::VariableDeclaration(decl) => {
            if 0 <= d < decl.declarations@.len() {
                Option::Some(decl.declarations@[d].id.name@)
            } else {
                Option::None
            }
        },
        _ => Option::None,
    }
}

/// Lexicographic order on (statement, declarator) positions.
pub open spec fn decl_before(s2: int, d2: int, s: int, d: int) -> bool {
    s2 < s || (s2 == s && d2 < d)
}

/// What a successful body leaves of its declarations: every declared name
/// is bound, none was bound before the body ran, and no two declarators
/// share a name — a name, once bound, is never rebound.
pub open spec fn declarations_wf(body: Seq<BodyItem>, before: ProgramMemory, mem: ProgramMemory) -> bool {
    &&& forall|s2: int, d2: int|
        0 <= s2 < body.len() ==> ((#[trigger] declared_name_of(body[s2], d2)) matches
            Option::Some(nm) ==> (mem.lookup(nm) is Some && !before.contains(nm)))
    &&& forall|s2: int, d2: int, s3: int, d3: int|
        0 <= s2 < body.len() && 0 <= s3 < body.len() && decl_before(s2, d2, s3, d3) ==> ((
        #[trigger] declared_name_of(body[s2], d2)) matches Option::Some(nm2) ==> ((#[trigger] declared_name_of(
            body[s3],
            d3,
        )) matches Option::Some(nm3) ==> nm2 != nm3))
}

/// Whether every statement is a declaration binding only literals.
pub open spec fn all_literal_decls(body: Seq<BodyItem>) -> bool {
    forall|s: int|
        0 <= s < body.len() ==> ((#[trigger] body[s]) matches BodyItem::VariableDeclaration(decl)
            && (forall|d: int|
            0 <= d < decl.declarations@.len() ==> (#[trigger] decl.declarations@[d].init)
                is Literal))
}

/// Whether the body's declared names are pairwise distinct and none is
/// already bound in `before`.
pub open spec fn decl_names_ok(body: Seq<BodyItem>, before: ProgramMemory) -> bool {
    &&& forall|s2: int, d2: int|
        0 <= s2 < body.len() ==> ((#[trigger] declared_name_of(body[s2], d2)) matches
            Option::Some(nm) ==> !before.contains(nm))
    &&& forall|s2: int, d2: int, s3: int, d3: int|
        0 <= s2 < body.len() && 0 <= s3 < body.len() && decl_before(s2, d2, s3, d3) ==> ((
        #[trigger] declared_name_of(body[s2], d2)) matches Option::Some(nm2) ==> ((
        #[trigger] declared_name_of(body[s3], d3)) matches Option::Some(nm3) ==> nm2 != nm3))
}

/// Whether the body opens with a declaration whose first initializer is
/// the pipeline-substitution marker.
pub open spec fn first_decl_is_marker(body: Seq<BodyItem>) -> bool {
    &&& body.len() > 0
    &&& body[0] matches BodyItem::VariableDeclaration(decl) && decl.declarations@.len() > 0
        && decl.declarations@[0].init is PipeSubstitution
}

/// Whether the body opens with a statement-level call whose callee
/// classifies nowhere and is unbound, with arguments that cannot fail.
pub open spec fn first_call_unresolvable(
    body: Seq<BodyItem>,
    stdlib: StdLib,
    mem: ProgramMemory,
) -> bool {
    &&& body.len() > 0
    &&& body[0] matches BodyItem::ExpressionStatement(st) && st.expression matches
        Expr::CallExpression(c) && args_infallible(c.arguments@) && segment_fn_of(c.callee.name@)
        is None && !name_in_list(stdlib.host_builtins@, c.callee.name@) && lib_lookup(
        stdlib.lib_fns@,
        c.callee.name@,
    ) is None && !mem.contains(c.callee.name@)
}

/// Whether the body opens with a statement-level call whose callee is
/// bound to a non-function value, with arguments that cannot fail.
pub open spec fn first_call_not_callable(
    body: Seq<BodyItem>,
    stdlib: StdLib,
    mem: ProgramMemory,
) -> bool {
    &&& body.len() > 0
    &&& body[0] matches BodyItem::ExpressionStatement(st) && st.expression matches
        Expr::CallExpression(c) && args_infallible(c.arguments@) && segment_fn_of(c.callee.name@)
        is None && !name_in_list(stdlib.host_builtins@, c.callee.name@) && lib_lookup(
        stdlib.lib_fns@,
        c.callee.name@,
    ) is None && (mem.lookup(c.callee.name@) matches Option::Some(v) && !(*v is Function))
}

/// The declarator at position `d` of a statement, if the statement is a
/// declaration with that many declarators.
pub open spec fn declarator_of(item: BodyItem, d: int) -> Option<crate::ast::VariableDeclarator> {
    match item {
        BodyItem::VariableDeclaration(decl) => {
            if 0 <= d < decl.declarations@.len() {
                Option::Some(decl.declarations@[d])
            } else {
                Option::None
            }
        },
        _ => Option::None,
    }
}

/// A declaration initializer whose bound value the contracts pin: a
/// literal, or arithmetic over a pure numeric expression.
pub open spec fn pure_decl_init(e: Expr) -> bool {
    ||| e is Literal
    ||| (e is BinaryExpression || e is UnaryExpression) && pure_numeric_expr(e)
}

/// Whether every statement is a declaration with pinnable initializers.
pub open spec fn body_pure_decls(body: Seq<BodyItem>) -> bool {
    forall|s: int|
        0 <= s < body.len() ==> ((#[trigger] body[s]) matches BodyItem::VariableDeclaration(decl)
            && (forall|d: int|
            0 <= d < decl.declarations@.len() ==> pure_decl_init(
                #[trigger] decl.declarations@[d].init,
            )))
}

/// Every arithmetic-initialized declaration of the body reads back as the
/// host kernel's composition of its initializer, evaluated over the final
/// bindings (bindings never change once made, so the final memory agrees
/// with the memory each initializer actually saw).
pub open spec fn numeric_bindings_present<H: Host>(
    body: Seq<BodyItem>,
    upto: int,
    mem: ProgramMemory,
) -> bool {
    forall|s: int, d: int|
        0 <= s < upto ==> ((#[trigger] declarator_of(body[s], d)) matches Option::Some(dc) ==> ((
        dc.init is BinaryExpression || dc.init is UnaryExpression) ==> (spec_numeric_value::<H>(
            dc.init,
            mem,
        ) matches Option::Some(x) && (mem.lookup(dc.id.name@) matches Option::Some(v) && *v
            matches MemoryItem::UserVal(u) && u.value == JValue::Num(JNumber::Real(x))))))
}

/// The JSON a key holds after an object expression's literal properties
/// are bound in order: the last literal property carrying the key wins.
pub open spec fn last_literal_property(
    props: Seq<crate::ast::ObjectProperty>,
    upto: int,
    k: Seq<char>,
) -> Option<JValue>
    decreases upto,
{
    if upto <= 0 || upto > props.len() {
        Option::None
    } else if props[upto - 1].key.name@ == k {
        match props[upto - 1].value {
            Expr::Literal(lit) => Option::Some(lit.value),
            _ => Option::None,
        }
    } else {
        last_literal_property(props, upto - 1, k)
    }
}

/// Every name the body never declares keeps exactly its old binding.
pub open spec fn undeclared_names_untouched(
    body: Seq<BodyItem>,
    before: ProgramMemory,
    mem: ProgramMemory,
) -> bool {
    forall|k: Seq<char>|
        (forall|s2: int, d2: int|
            0 <= s2 < body.len() ==> (#[trigger] declared_name_of(body[s2], d2))
                != Option::Some(k)) ==> mem.lookup(k) == #[trigger] before.lookup(k)
}

/// The well-formedness of a function expression's parameter list: required
/// parameters precede optional ones, and names are pairwise distinct.
/// The binder's acceptance range is exact for well-formed lists whose
/// names are not already bound.
pub open spec fn params_well_formed(params: Seq<Parameter>) -> bool {
    &&& params_order_ok(params)
    &&& forall|i: int, j: int|
        0 <= i < j < params.len() ==> (#[trigger] params[i].identifier.name@) != (
        #[trigger] params[j].identifier.name@)
}

/// Whether a call's arguments cannot fail to evaluate: literals and the
/// none sentinel always evaluate, and function or pipe expressions in
/// argument position are skipped.
pub open spec fn args_infallible(arguments: Seq<Expr>) -> bool {
    forall|i: int|
        0 <= i < arguments.len() ==> ((#[trigger] arguments[i]) is Literal || arguments[i]
            is NoneValue || arguments[i] is FunctionExpression || arguments[i] is PipeExpression)
}

/// The double a value coerces to for arithmetic: an integer is converted
/// by the host's kernel, a double is taken as it is, anything else does
/// not coerce.
pub open spec fn spec_coerce_real<H: Host>(item: MemoryItem) -> Option<Real> {
    match item {
        MemoryItem::UserVal(u) => match u.value {
            JValue::Num(JNumber::Int(i)) => Option::Some(H::from_int_spec(i)),
            JValue::Num(JNumber::Real(x)) => Option::Some(x),
            _ => Option::None,
        },
        _ => Option::None,
    }
}

/// Coerce a value to a double for arithmetic.
pub fn coerce_real<H: Host>(h: &H, item: &MemoryItem) -> (r: Option<Real>)
    ensures
        r == spec_coerce_real::<H>(*item),
{
    match item {
        MemoryItem::UserVal(u) => match &u.value {
            JValue::Num(JNumber::Int(i)) => Option::Some(h.real_from_int(*i)),
            JValue::Num(JNumber::Real(x)) => Option::Some(*x),
            _ => Option::None,
        },
        _ => Option::None,
    }
}

/// A pure numeric expression: literals and identifiers combined by the
/// arithmetic operators, with nothing that could reach a call, a
/// pipeline, or a container.
pub open spec fn pure_numeric_expr(e: Expr) -> bool
    decreases e,
{
    match e {
        Expr::Literal(_) => true,
        Expr::Identifier(_) => true,
        Expr::UnaryExpression(u) => pure_numeric_expr(u.argument),
        Expr::BinaryExpression(b) => pure_numeric_expr(b.left) && pure_numeric_expr(b.right),
        _ => false,
    }
}

/// The double a pure numeric expression denotes under host `h` and
/// memory `mem`: literals coerce by the kernel, identifiers read their
/// binding, and the operators compose through the kernel.
pub open spec fn spec_numeric_value<H: Host>(e: Expr, mem: ProgramMemory) -> Option<Real>
    decreases e,
{
    match e {
        Expr::Literal(lit) => match lit.value {
            JValue::Num(JNumber::Int(i)) => Option::Some(H::from_int_spec(i)),
            JValue::Num(JNumber::Real(x)) => Option::Some(x),
            _ => Option::None,
        },
        Expr::Identifier(id) => match mem.lookup(id.name@) {
            Option::Some(v) => spec_coerce_real::<H>(*v),
            Option::None => Option::None,
        },
        Expr::UnaryExpression(u) => match spec_numeric_value::<H>(u.argument, mem) {
            Option::Some(a) => Option::Some(H::neg_spec(a)),
            Option::None => Option::None,
        },
        Expr::BinaryExpression(b) => match spec_numeric_value::<H>(b.left, mem) {
            Option::Some(a) => match spec_numeric_value::<H>(b.right, mem) {
                Option::Some(a2) => Option::Some(spec_binary_op::<H>(b.operator, a, a2)),
                Option::None => Option::None,
            },
            Option::None => Option::None,
        },
        _ => Option::None,
    }
}

/// A pure numeric value survives binding growth: once it denotes under a
/// memory, it denotes the same under any memory that preserves the
/// bindings.
pub proof fn lemma_numeric_value_stable<H: Host>(e: Expr, m1: ProgramMemory, m2: ProgramMemory)
    requires
        preserves_bindings(m1, m2),
        spec_numeric_value::<H>(e, m1) is Some,
    ensures
        spec_numeric_value::<H>(e, m2) == spec_numeric_value::<H>(e, m1),
    decreases e,
{
    match e {
        Expr::Identifier(id) => {
            assert(m1.contains(id.name@));
        },
        Expr::UnaryExpression(u) => {
            lemma_numeric_value_stable::<H>(u.argument, m1, m2);
        },
        Expr::BinaryExpression(b) => {
            lemma_numeric_value_stable::<H>(b.left, m1, m2);
            lemma_numeric_value_stable::<H>(b.right, m1, m2);
        },
        _ => {},
    }
}

/// What the host's kernel returns for one arithmetic operator.
pub open spec fn spec_binary_op<H: Host>(op: crate::ast::BinaryOperator, a: Real, b: Real) -> Real {
    match op {
        crate::ast::BinaryOperator::Add => H::add_spec(a, b),
        crate::ast::BinaryOperator::Sub => H::sub_spec(a, b),
        crate::ast::BinaryOperator::Mul => H::mul_spec(a, b),
        crate::ast::BinaryOperator::Div => H::div_spec(a, b),
        crate::ast::BinaryOperator::Mod => H::mod_spec(a, b),
        crate::ast::BinaryOperator::Pow => H::pow_spec(a, b),
    }
}

fn number_error(source_range: SourceRange) -> (r: KclError)
    ensures
        r matches KclError::Type(d) && d.message@ == "Invalid number"@ && d.source_ranges@
            =~= seq![source_range],
{
    let mut ranges: Vec<SourceRange> = Vec::new();
    ranges.push(source_range);
    KclError::Type(KclErrorDetails { message: "Invalid number".to_owned(), source_ranges: ranges })
}

fn semantic_error(message: String, source_range: SourceRange) -> (r: KclError)
    ensures
        r matches KclError::Semantic(d) && d.message@ == message@ && d.source_ranges@
            =~= seq![source_range],
{
    let mut ranges: Vec<SourceRange> = Vec::new();
    ranges.push(source_range);
    KclError::Semantic(KclErrorDetails { message, source_ranges: ranges })
}

/// A user value holding one double, with the given provenance.
pub fn user_val_from_real(x: Real, source_range: SourceRange) -> (r: MemoryItem)
    ensures
        r matches MemoryItem::UserVal(u) && u.value == JValue::Num(JNumber::Real(x))
            && u.meta@.len() == 1 && u.meta@[0].source_range == source_range,
{
    let mut meta: Vec<Metadata> = Vec::new();
    meta.push(Metadata { source_range });
    MemoryItem::UserVal(UserVal { value: JValue::from_real(x), meta })
}

/// Combine two values with an arithmetic operator: both operands coerce
/// to doubles — every arithmetic result is a double, even between integer
/// literals — and the host's kernel computes; an operand that is not a
/// number is a `Type` error.
pub fn apply_binary_op<H: Host>(
    h: &H,
    op: crate::ast::BinaryOperator,
    left: &MemoryItem,
    right: &MemoryItem,
    source_range: SourceRange,
) -> (r: Result<MemoryItem, KclError>)
    ensures
        spec_coerce_real::<H>(*left) matches Option::Some(a) ==> spec_coerce_real::<H>(*right)
            matches Option::Some(b) ==> (r matches Result::Ok(v) && v matches
            MemoryItem::UserVal(u) && u.value == JValue::Num(
            JNumber::Real(spec_binary_op::<H>(op, a, b)),
        ) && u.meta@.len() == 1 && u.meta@[0].source_range == source_range),
        (spec_coerce_real::<H>(*left) is None || spec_coerce_real::<H>(*right) is None) ==> (r
            matches Result::Err(e) && e matches KclError::Type(d) && d.message@
            == "Invalid number"@ && d.source_ranges@ =~= seq![source_range]),
{
    let a = match coerce_real(h, left) {
        Option::Some(a) => a,
        Option::None => {
            return Result::Err(number_error(source_range));
        },
    };
    let b = match coerce_real(h, right) {
        Option::Some(b) => b,
        Option::None => {
            return Result::Err(number_error(source_range));
        },
    };
    let value = match op {
        crate::ast::BinaryOperator::Add => h.real_add(a, b),
        crate::ast::BinaryOperator::Sub => h.real_sub(a, b),
        crate::ast::BinaryOperator::Mul => h.real_mul(a, b),
        crate::ast::BinaryOperator::Div => h.real_div(a, b),
        crate::ast::BinaryOperator::Mod => h.real_mod(a, b),
        crate::ast::BinaryOperator::Pow => h.real_pow(a, b),
    };
    Result::Ok(user_val_from_real(value, source_range))
}

/// Negate a value: the operand coerces to a double and the host's kernel
/// negates it; an operand that is not a number is a `Type` error.
pub fn apply_unary_minus<H: Host>(h: &H, operand: &MemoryItem, source_range: SourceRange) -> (r:
    Result<MemoryItem, KclError>)
    ensures
        spec_coerce_real::<H>(*operand) matches Option::Some(a) ==> (r matches Result::Ok(v) && v
            matches MemoryItem::UserVal(u) && u.value == JValue::Num(
            JNumber::Real(H::neg_spec(a)),
        ) && u.meta@.len() == 1 && u.meta@[0].source_range == source_range),
        spec_coerce_real::<H>(*operand) is None ==> (r matches Result::Err(e) && e matches
            KclError::Type(d) && d.message@ == "Invalid number"@ && d.source_ranges@
            =~= seq![source_range]),
{
    match coerce_real(h, operand) {
        Option::Some(a) => Result::Ok(user_val_from_real(h.real_neg(a), source_range)),
        Option::None => Result::Err(number_error(source_range)),
    }
}

/// The value under `key` in a JSON object; a missing key, or a value that
/// is not an object, is a `Semantic` error naming the key.
pub fn json_property(v: &JValue, key: &str, source_range: SourceRange) -> (r: Result<
    JValue,
    KclError,
>)
    ensures
        v matches JValue::Object(entries) ==> crate::json::obj_lookup(entries@, key@)
            matches Option::Some(found) ==> (r matches Result::Ok(got) && got == found),
        !(v matches JValue::Object(entries) && crate::json::obj_lookup(entries@, key@) is Some)
            ==> (r matches Result::Err(e) && e is Semantic),
{
    match v {
        JValue::Object(entries) => match crate::json::obj_get(entries, key) {
            Option::Some(found) => Result::Ok(found.duplicate()),
            Option::None => Result::Err(
                semantic_error(
                    concat3("Property '", key, "' not found in object"),
                    source_range,
                ),
            ),
        },
        _ => Result::Err(
            semantic_error(concat3("Cannot read property '", key, "' of a non-object"), source_range),
        ),
    }
}

/// The element at `index` in a JSON array; a negative or out-of-bounds
/// index, or a value that is not an array, is a `Semantic` error.
pub fn json_index(v: &JValue, index: i64, source_range: SourceRange) -> (r: Result<
    JValue,
    KclError,
>)
    ensures
        v matches JValue::Array(elements) ==> ((0 <= index < elements@.len() ==> (r
            matches Result::Ok(got) && got == elements@[index as int])) && ((index < 0 || index
            >= elements@.len()) ==> (r matches Result::Err(e) && e is Semantic))),
        !(v is Array) ==> (r matches Result::Err(e) && e is Semantic),
{
    match v {
        JValue::Array(elements) => {
            if index >= 0 && (index as u64) < (elements.len() as u64) {
                Result::Ok(elements[index as usize].duplicate())
            } else {
                Result::Err(
                    semantic_error("Array index out of bounds".to_owned(), source_range),
                )
            }
        },
        _ => Result::Err(semantic_error("Cannot index a non-array".to_owned(), source_range)),
    }
}

} // verus!

verus! {

/// How deep evaluation may nest before it is abandoned.  The budget is
/// consumed one unit per nested evaluation step, so it is effectively
/// unreachable before the call stack itself would overflow.
pub const MAX_EVAL_DEPTH: u64 = 4194304;

fn depth_error(source_range: SourceRange) -> (r: KclError)
    ensures
        r matches KclError::Semantic(d) && d.message@ == "maximum evaluation depth exceeded"@
            && d.source_ranges@ =~= seq![source_range],
{
    semantic_error("maximum evaluation depth exceeded".to_owned(), source_range)
}

/// A user value carrying a literal's embedded JSON, with the literal's
/// provenance.
pub fn literal_user_val(lit: &crate::ast::Literal) -> (r: MemoryItem)
    ensures
        r matches MemoryItem::UserVal(u) && u.value == lit.value && u.meta@.len() == 1
            && u.meta@[0].source_range.spec_start() == lit.start
            && u.meta@[0].source_range.spec_end() == lit.end,
{
    let mut meta: Vec<Metadata> = Vec::new();
    meta.push(Metadata { source_range: SourceRange::new(lit.start, lit.end) });
    MemoryItem::UserVal(UserVal { value: lit.value.duplicate(), meta })
}

/// The "none" sentinel as a user value, carrying the marker's offsets in
/// its JSON and its provenance.
pub fn none_user_val(none: &KclNone) -> (r: MemoryItem)
    ensures
        r matches MemoryItem::UserVal(u) && crate::json::spec_is_kcl_none(u.value)
            && crate::serialize::is_kcl_none_at(u.value, none.start, none.end) && u.meta@.len()
            == 1 && u.meta@[0].source_range.spec_start() == none.start
            && u.meta@[0].source_range.spec_end() == none.end,
{
    let mut meta: Vec<Metadata> = Vec::new();
    meta.push(Metadata { source_range: SourceRange::new(none.start, none.end) });
    MemoryItem::UserVal(UserVal { value: crate::serialize::kcl_none_json(none), meta })
}

/// Bind `key` to `value` in an object's entry list: the first entry
/// already carrying the key is replaced, else the entry is appended, so
/// a repeated key keeps the later value.
#[verifier::loop_isolation(false)]
fn obj_set(entries: &mut Vec<(String, JValue)>, key: String, value: JValue)
    ensures
        forall|k: Seq<char>|
            crate::json::obj_lookup(final(entries)@, k) == if k == key@ {
                Option::Some(value)
            } else {
                crate::json::obj_lookup(old(entries)@, k)
            },
{
    let n = entries.len();
    let mut i: usize = 0;
    while i < n
        invariant
            i <= n,
            n == entries@.len(),
            *entries == *old(entries),
            forall|j: int| 0 <= j < i ==> entries@[j].0@ != key@,
        decreases n - i,
    {
        if str_eq(entries[i].0.as_str(), key.as_str()) {
            let ghost pre = entries@;
            let pair = (key, value);
            let ghost pair_snapshot = pair;
            entries.set(i, pair);
            proof {
                assert forall|k: Seq<char>|
                    crate::json::obj_lookup(entries@, k) == if k == pair_snapshot.0@ {
                        Option::Some(pair_snapshot.1)
                    } else {
                        crate::json::obj_lookup(pre, k)
                    } by {
                    crate::json::lemma_obj_lookup_update_first(pre, i as int, pair_snapshot, k);
                }
            }
            return ;
        }
        i = i + 1;
    }
    let ghost pre = entries@;
    let pair = (key, value);
    let ghost pair_snapshot = pair;
    entries.push(pair);
    proof {
        crate::json::lemma_obj_lookup_step(pre, pair_snapshot.0@, n as int);
        assert(crate::json::obj_lookup(pre, pair_snapshot.0@) is None);
        assert forall|k: Seq<char>|
            crate::json::obj_lookup(entries@, k) == if k == pair_snapshot.0@ {
                Option::Some(pair_snapshot.1)
            } else {
                crate::json::obj_lookup(pre, k)
            } by {
            crate::json::lemma_obj_lookup_push(pre, pair_snapshot, k);
        }
    }
}

/// Read a property or index out of a user value's JSON, resolving the
/// member expression against the program memory.
fn member_json(m: &crate::ast::MemberExpression, memory: &ProgramMemory) -> (r: Result<
    JValue,
    KclError,
>)
    ensures
        m.object matches MemberObject::Identifier(id) ==> (!memory.contains(id.name@) ==> (r
            matches Result::Err(e) && e is UndefinedValue)),
        m.object matches MemberObject::Identifier(id) ==> m.property matches
            LiteralIdentifier::Identifier(pid) ==> memory.lookup(id.name@) matches
            Option::Some(v) ==> *v matches MemoryItem::UserVal(u) ==> u.value matches
            JValue::Object(entries) ==> (!m.computed ==> match crate::json::obj_lookup(
            entries@,
            pid.name@,
        ) {
            Option::Some(found) => r == Result::<JValue, KclError>::Ok(found),
            Option::None => r matches Result::Err(e) && e is Semantic,
        }),
        m.object matches MemberObject::Identifier(id) ==> m.property matches
            LiteralIdentifier::Literal(plit) ==> plit.value matches JValue::Str(key) ==> memory.lookup(
            id.name@,
        ) matches Option::Some(v) ==> *v matches MemoryItem::UserVal(u) ==> u.value matches
            JValue::Object(entries) ==> match crate::json::obj_lookup(entries@, key@) {
            Option::Some(found) => r == Result::<JValue, KclError>::Ok(found),
            Option::None => r matches Result::Err(e) && e is Semantic,
        },
        m.object matches MemberObject::Identifier(id) ==> m.property matches
            LiteralIdentifier::Literal(plit) ==> plit.value matches JValue::Num(pn) ==> pn matches
            JNumber::Int(pi) ==> memory.lookup(id.name@) matches Option::Some(v) ==> *v matches
            MemoryItem::UserVal(u) ==> u.value matches JValue::Array(elements) ==> (0 <= pi
            ==> (pi < elements@.len() ==> (r matches Result::Ok(got) && got
            == elements@[pi as int])) && (pi >= elements@.len() ==> (r matches Result::Err(e)
            && e is Semantic))),
    decreases *m,
{
    let range = SourceRange::new(m.start, m.end);
    let object_json = match &m.object {
        MemberObject::MemberExpression(inner) => {
            proof {
                assert(decreases_to!(*m => **inner));
            }
            member_json(inner, memory)?
        },
        MemberObject::Identifier(id) => {
            let item = memory.get(id.name.as_str(), id.source_range())?;
            item.get_json_value()?
        },
    };
    match &m.property {
        LiteralIdentifier::Identifier(id) => {
            if m.computed {
                // bracket form with a variable: the variable names the key
                // or holds the index
                let item = memory.get(id.name.as_str(), id.source_range())?;
                let property_json = item.get_json_value()?;
                match &property_json {
                    JValue::Str(s) => json_property(&object_json, s.as_str(), range),
                    JValue::Num(JNumber::Int(i)) => json_index(&object_json, *i, range),
                    _ => Result::Err(
                        semantic_error(
                            "Only strings or ints can access properties of an object".to_owned(),
                            range,
                        ),
                    ),
                }
            } else {
                json_property(&object_json, id.name.as_str(), range)
            }
        },
        LiteralIdentifier::Literal(lit) => match &lit.value {
            JValue::Str(s) => json_property(&object_json, s.as_str(), range),
            JValue::Num(JNumber::Int(i)) => json_index(&object_json, *i, range),
            _ => Result::Err(
                semantic_error(
                    "Only strings or ints can access properties of an object".to_owned(),
                    range,
                ),
            ),
        },
    }
}

/// Evaluate a member expression: the resolved JSON becomes a user value
/// with the expression's provenance.
pub fn eval_member_expression(m: &crate::ast::MemberExpression, memory: &ProgramMemory) -> (r:
    Result<Rc<MemoryItem>, KclError>)
    ensures
        r matches Result::Ok(v) ==> *v is UserVal,
        m.object matches MemberObject::Identifier(id) ==> (!memory.contains(id.name@) ==> (r
            matches Result::Err(e) && e is UndefinedValue)),
        m.object matches MemberObject::Identifier(id) ==> m.property matches
            LiteralIdentifier::Identifier(pid) ==> memory.lookup(id.name@) matches
            Option::Some(v) ==> *v matches MemoryItem::UserVal(u) ==> u.value matches
            JValue::Object(entries) ==> (!m.computed ==> match crate::json::obj_lookup(
            entries@,
            pid.name@,
        ) {
            Option::Some(found) => r matches Result::Ok(rv) && *rv matches MemoryItem::UserVal(ru)
                && ru.value == found,
            Option::None => r matches Result::Err(e) && e is Semantic,
        }),
        m.object matches MemberObject::Identifier(id) ==> m.property matches
            LiteralIdentifier::Literal(plit) ==> plit.value matches JValue::Str(key) ==> memory.lookup(
            id.name@,
        ) matches Option::Some(v) ==> *v matches MemoryItem::UserVal(u) ==> u.value matches
            JValue::Object(entries) ==> match crate::json::obj_lookup(entries@, key@) {
            Option::Some(found) => r matches Result::Ok(rv) && *rv matches MemoryItem::UserVal(ru)
                && ru.value == found,
            Option::None => r matches Result::Err(e) && e is Semantic,
        },
        m.object matches MemberObject::Identifier(id) ==> m.property matches
            LiteralIdentifier::Literal(plit) ==> plit.value matches JValue::Num(pn) ==> pn matches
            JNumber::Int(pi) ==> memory.lookup(id.name@) matches Option::Some(v) ==> *v matches
            MemoryItem::UserVal(u) ==> u.value matches JValue::Array(elements) ==> (0 <= pi
            ==> (pi < elements@.len() ==> (r matches Result::Ok(rv) && *rv matches
            MemoryItem::UserVal(ru) && ru.value == elements@[pi as int])) && (pi
            >= elements@.len() ==> (r matches Result::Err(e) && e is Semantic))),
{
    let json = member_json(m, memory)?;
    let mut meta: Vec<Metadata> = Vec::new();
    meta.push(Metadata { source_range: SourceRange::new(m.start, m.end) });
    Result::Ok(Rc::new(MemoryItem::UserVal(UserVal { value: json, meta })))
}

/// The evaluator: a host handle, the standard-library registry, and the
/// settings evaluation runs under.
#[derive(Debug)]
pub struct ExecutorContext<H: Host> {
    /// The embedder: engine transport, hosted builtins, numeric kernel.
    pub host: H,
    /// The standard-library registry.
    pub stdlib: StdLib,
    /// The settings.
    pub settings: ExecutorSettings,
    /// Whether engine effects are mocked by the embedder.
    pub is_mock: bool,
}

impl<H: Host> ExecutorContext<H> {
    /// Wire up an evaluator over a host: the standard registry, the given
    /// settings, and the edge-visibility choice submitted to the engine
    /// up front.
    pub fn new(host: H, settings: ExecutorSettings) -> (r: Result<ExecutorContext<H>, KclError>)
        ensures
            r matches Result::Ok(ctx) ==> crate::host::log_extends(host.cmds(), ctx.host.cmds())
                && ctx.host.cmds().len() == host.cmds().len() + 1 && ctx.host.cmds().last().2
                == (ModelingCommand::EdgeLinesVisible { hidden: !settings.highlight_edges })
                && ctx.settings == settings && !ctx.is_mock && ctx.stdlib.lib_fns@.len() == 0
                && standard_builtins(ctx.stdlib.host_builtins@),
    {
        let mut ctx = ExecutorContext { host, stdlib: StdLib::new(), settings, is_mock: false };
        let id = crate::host::new_uuid_v4();
        ctx.host.send_modeling_cmd(
            id,
            SourceRange::new(0, 0),
            ModelingCommand::EdgeLinesVisible { hidden: !settings.highlight_edges },
        )?;
        Result::Ok(ctx)
    }

    /// Update the units for the executor.
    pub fn update_units(&mut self, units: UnitLength)
        ensures
            final(self).settings.units == units,
            final(self).settings.highlight_edges == old(self).settings.highlight_edges,
            final(self).settings.enable_ssao == old(self).settings.enable_ssao,
            final(self).host == old(self).host,
            final(self).stdlib == old(self).stdlib,
            final(self).is_mock == old(self).is_mock,
    {
        self.settings.units = units;
    }

    /// Evaluate a whole program against a memory.  The given memory seeds
    /// evaluation (callers use this for partial re-execution); without one
    /// a fresh memory is used.  Before the body runs, the scene units are
    /// submitted to the engine; every binding the seed memory held is
    /// still readable, unchanged, in the returned memory; on success every
    /// literal-initialized declaration of the program reads back exactly
    /// its literal, a trailing `return` of a literal sits in the return
    /// slot, and the batch was flushed at the program's end offset.
    pub fn run(&mut self, program: &Program, memory: Option<ProgramMemory>) -> (r: Result<
        ProgramMemory,
        KclError,
    >)
        ensures
            crate::host::log_extends(old(self).host.cmds(), final(self).host.cmds()),
            final(self).stdlib == old(self).stdlib,
            r is Ok ==> old(self).host.cmds().len() < final(self).host.cmds().len()
                && final(self).host.cmds()[old(self).host.cmds().len() as int].2
                == (ModelingCommand::SetSceneUnits { unit: old(self).settings.units }),
            memory matches Option::Some(m0) ==> (r matches Result::Ok(m) ==> preserves_bindings(
                m0,
                m,
            )),
            memory is None ==> (r matches Result::Ok(m) ==> (m.lookup("ZERO"@) matches
                Option::Some(v0) && crate::memory::is_plain_int(v0, 0)) && (m.lookup(
                "QUARTER_TURN"@,
            ) matches Option::Some(v1) && crate::memory::is_plain_int(v1, 90)) && (m.lookup(
                "HALF_TURN"@,
            ) matches Option::Some(v2) && crate::memory::is_plain_int(v2, 180)) && (m.lookup(
                "THREE_QUARTER_TURN"@,
            ) matches Option::Some(v3) && crate::memory::is_plain_int(v3, 270))),
            r matches Result::Ok(m) ==> literal_bindings_present(
                program.body@,
                program.body@.len() as int,
                m,
            ),
            r matches Result::Ok(m) ==> (body_pure_decls(program.body@)
                ==> numeric_bindings_present::<H>(
                program.body@,
                program.body@.len() as int,
                m,
            )),
            r is Ok ==> (final(self).host.flush_log().len() > 0
                && final(self).host.flush_log().last().spec_start() == program.end
                && final(self).host.flush_log().last().spec_end() == program.end),
            r matches Result::Ok(m) ==> (program.body@.len() > 0 ==> (program.body@.last()
                matches BodyItem::ReturnStatement(st) ==> st.argument matches Expr::Literal(lit)
                ==> (m.return_ matches Option::Some(pr) && pr matches ProgramReturn::Value(v)
                && *v matches MemoryItem::UserVal(u) && u.value == lit.value))),
            memory matches Option::Some(m0) ==> (r matches Result::Ok(m) ==> declarations_wf(
                program.body@,
                m0,
                m,
            ) && undeclared_names_untouched(program.body@, m0, m)),
            memory is None ==> (r matches Result::Ok(m) ==> (forall|
                s2: int,
                d2: int,
                s3: int,
                d3: int,
            |
                0 <= s2 < program.body@.len() && 0 <= s3 < program.body@.len() && decl_before(
                    s2,
                    d2,
                    s3,
                    d3,
                ) ==> ((#[trigger] declared_name_of(program.body@[s2], d2)) matches Option::Some(
                    nm2,
                ) ==> ((#[trigger] declared_name_of(program.body@[s3], d3)) matches Option::Some(
                    nm3,
                ) ==> nm2 != nm3))) && (forall|s2: int, d2: int|
                0 <= s2 < program.body@.len() ==> ((#[trigger] declared_name_of(
                    program.body@[s2],
                    d2,
                )) matches Option::Some(nm) ==> nm != "ZERO"@ && nm != "QUARTER_TURN"@ && nm
                    != "HALF_TURN"@ && nm != "THREE_QUARTER_TURN"@))),
            r matches Result::Ok(m) ==> (program.body@.len() > 0 ==> (program.body@.last()
                matches BodyItem::ReturnStatement(st) ==> st.argument matches Expr::Identifier(id)
                ==> (m.lookup(id.name@) matches Option::Some(v) && m.return_ == Option::Some(
                ProgramReturn::Value(v),
            )))),
    {
        let id = crate::host::new_uuid_v4();
        self.host.send_modeling_cmd(
            id,
            SourceRange::new(0, 0),
            ModelingCommand::SetSceneUnits { unit: self.settings.units },
        )?;
        let mut mem = match memory {
            Option::Some(m) => m,
            Option::None => ProgramMemory::new(),
        };
        self.inner_execute(program, &mut mem, BodyType::Root, MAX_EVAL_DEPTH)?;
        Result::Ok(mem)
    }

    /// Execute a program body: statements in source order, then a batch
    /// flush at the body's end.  Bindings already present when the body
    /// starts are never rebound or dropped; on success every
    /// literal-initialized declaration of the body reads back exactly its
    /// literal, a trailing `return` of a literal sits in the return slot,
    /// and the last flush covers the body's end offset.
    #[verifier::loop_isolation(false)]
    pub fn inner_execute(
        &mut self,
        program: &Program,
        memory: &mut ProgramMemory,
        _body_type: BodyType,
        depth: u64,
    ) -> (r: Result<(), KclError>)
        ensures
            crate::host::log_extends(old(self).host.cmds(), final(self).host.cmds()),
            final(self).stdlib == old(self).stdlib,
            preserves_bindings(*old(memory), *final(memory)),
            r is Ok ==> literal_bindings_present(
                program.body@,
                program.body@.len() as int,
                *final(memory),
            ),
            r is Ok ==> (final(self).host.flush_log().len() > 0
                && final(self).host.flush_log().last().spec_start() == program.end
                && final(self).host.flush_log().last().spec_end() == program.end),
            r is Ok && program.body@.len() > 0 ==> (program.body@.last() matches
                BodyItem::ReturnStatement(st) ==> st.argument matches Expr::Literal(lit) ==> (
            final(memory).return_ matches Option::Some(pr) && pr matches ProgramReturn::Value(v)
                && *v matches MemoryItem::UserVal(u) && u.value == lit.value)),
            r is Ok ==> declarations_wf(program.body@, *old(memory), *final(memory)),
            r is Ok ==> undeclared_names_untouched(program.body@, *old(memory), *final(memory)),
            r is Ok && program.body@.len() == 0 ==> (*final(memory) == *old(memory)
                && final(self).host.cmds() == old(self).host.cmds()
                && final(self).host.flush_log().len() == old(self).host.flush_log().len() + 1),
            r is Ok && program.body@.len() > 0 ==> (program.body@.last() matches
                BodyItem::ReturnStatement(st) ==> st.argument matches Expr::Identifier(id) ==> (
            final(memory).lookup(id.name@) matches Option::Some(v) && final(memory).return_
                == Option::Some(ProgramReturn::Value(v)))),
            r is Ok && program.body@.len() == 1 ==> (program.body@[0] matches
                BodyItem::ReturnStatement(st) ==> ((st.argument is PipeSubstitution || st.argument
                is FunctionExpression) ==> *final(memory) == *old(memory))),
            r is Ok && body_pure_decls(program.body@) ==> (numeric_bindings_present::<H>(
                program.body@,
                program.body@.len() as int,
                *final(memory),
            ) && final(self).host.cmds() == old(self).host.cmds()
                && final(self).host.flush_log().len() == old(self).host.flush_log().len() + 1),
            depth > 0 && all_literal_decls(program.body@) && !decl_names_ok(
                program.body@,
                *old(memory),
            ) ==> (r matches Result::Err(e) && e is ValueAlreadyDefined),
            depth > 0 && first_decl_is_marker(program.body@) ==> (program.body@[0] matches
                BodyItem::VariableDeclaration(decl) ==> (decl.declarations@[0].init matches
                Expr::PipeSubstitution(ps) ==> (r matches Result::Err(e) && e matches
                KclError::Semantic(d) && d.message@
                == "pipe substitution not implemented for declaration of variable "@
                + decl.declarations@[0].id.name@ && d.source_ranges@.len() == 1
                && d.source_ranges@[0].spec_start() == ps.start && d.source_ranges@[0].spec_end()
                == ps.end))),
            depth > 1 && first_call_unresolvable(program.body@, old(self).stdlib, *old(memory))
                ==> (program.body@[0] matches BodyItem::ExpressionStatement(st) ==> (st.expression
                matches Expr::CallExpression(c) ==> (r matches Result::Err(e) && e matches
                KclError::Semantic(d) && d.message@ == "No such name "@ + c.callee.name@
                + " defined"@ && d.source_ranges@.len() == 1 && d.source_ranges@[0].spec_start()
                == c.start && d.source_ranges@[0].spec_end() == c.end))),
            depth > 1 && first_call_not_callable(program.body@, old(self).stdlib, *old(memory))
                ==> (program.body@[0] matches BodyItem::ExpressionStatement(st) ==> (st.expression
                matches Expr::CallExpression(c) ==> (r matches Result::Err(e) && e matches
                KclError::Semantic(d) && d.message@ == "not a in memory function"@
                && d.source_ranges@.len() == 1 && d.source_ranges@[0].spec_start() == c.start
                && d.source_ranges@[0].spec_end() == c.end))),
        decreases depth, 2int,
    {
        if depth == 0 {
            return Result::Err(depth_error(SourceRange::new(program.start, program.end)));
        }
        let pipe_info = PipeInfo::new();
        let n = program.body.len();
        let mut s: usize = 0;
        while s < n
            invariant
                s <= n,
                crate::host::log_extends(old(self).host.cmds(), self.host.cmds()),
                self.stdlib == old(self).stdlib,
                preserves_bindings(*old(memory), *memory),
                literal_bindings_present(program.body@, s as int, *memory),
                s == n && n > 0 ==> (program.body@.last() matches BodyItem::ReturnStatement(st)
                    ==> st.argument matches Expr::Literal(lit) ==> (memory.return_ matches
                    Option::Some(pr) && pr matches ProgramReturn::Value(v) && *v matches
                    MemoryItem::UserVal(u) && u.value == lit.value)),
                s == n && n > 0 ==> (program.body@.last() matches BodyItem::ReturnStatement(st)
                    ==> st.argument matches Expr::Identifier(id) ==> (memory.lookup(id.name@)
                    matches Option::Some(v) && memory.return_ == Option::Some(
                    ProgramReturn::Value(v),
                ))),
                n == 1 ==> (program.body@[0] matches BodyItem::ReturnStatement(st) ==> ((
                st.argument is PipeSubstitution || st.argument is FunctionExpression) ==> *memory
                    == *old(memory))),
                n == 0 ==> *memory == *old(memory),
                n == 0 ==> *self == *old(self),
                body_pure_decls(program.body@) ==> *self == *old(self),
                body_pure_decls(program.body@) ==> numeric_bindings_present::<H>(
                    program.body@,
                    s as int,
                    *memory,
                ),
                first_decl_is_marker(program.body@) ==> s == 0,
                depth > 1 && first_call_unresolvable(program.body@, old(self).stdlib, *old(memory))
                    ==> s == 0,
                depth > 1 && first_call_not_callable(program.body@, old(self).stdlib, *old(memory))
                    ==> s == 0,
                forall|s2: int, d2: int|
                    0 <= s2 && decl_before(s2, d2, s as int, 0) ==> ((
                    #[trigger] declared_name_of(program.body@[s2], d2)) matches Option::Some(nm)
                        ==> (memory.lookup(nm) is Some && !old(memory).contains(nm))),
                forall|s2: int, d2: int, s3: int, d3: int|
                    0 <= s2 && 0 <= s3 && decl_before(s2, d2, s3, d3) && decl_before(
                        s3,
                        d3,
                        s as int,
                        0,
                    ) ==> ((#[trigger] declared_name_of(program.body@[s2], d2)) matches
                        Option::Some(nm2) ==> ((#[trigger] declared_name_of(program.body@[s3], d3))
                        matches Option::Some(nm3) ==> nm2 != nm3)),
                forall|k: Seq<char>|
                    (forall|s2: int, d2: int|
                        0 <= s2 && decl_before(s2, d2, s as int, 0) ==> (
                        #[trigger] declared_name_of(program.body@[s2], d2)) != Option::Some(k))
                        ==> memory.lookup(k) == old(memory).lookup(k),
            decreases n - s,
        {
            match &program.body[s] {
                BodyItem::ExpressionStatement(statement) => {
                    match &statement.expression {
                        Expr::PipeExpression(pipe_expr) => {
                            let _ = self.eval_pipe_expression(pipe_expr, memory, depth - 1)?;
                        },
                        Expr::CallExpression(call_expr) => {
                            let ret = self.exec_call(
                                call_expr,
                                memory,
                                &pipe_info,
                                true,
                                depth - 1,
                            )?;
                            memory.return_ = ret;
                        },
                        _ => {},
                    }
                },
                BodyItem::VariableDeclaration(declaration) => {
                    let m = declaration.declarations.len();
                    let mut d: usize = 0;
                    while d < m
                        invariant
                            d <= m,
                            crate::host::log_extends(old(self).host.cmds(), self.host.cmds()),
                            self.stdlib == old(self).stdlib,
                            preserves_bindings(*old(memory), *memory),
                            literal_bindings_present(program.body@, s as int, *memory),
                            program.body@[s as int] == BodyItem::VariableDeclaration(
                                *declaration,
                            ),
                            m == declaration.declarations@.len(),
                            forall|j: int|
                                j < d ==> ((#[trigger] literal_binding_of(
                                    program.body@[s as int],
                                    j,
                                )) matches Option::Some(b) ==> (memory.lookup(b.0) matches
                                    Option::Some(v) && *v matches MemoryItem::UserVal(u)
                                    && u.value == b.1)),
                            forall|s2: int, d2: int|
                                0 <= s2 && decl_before(s2, d2, s as int, d as int) ==> ((
                                #[trigger] declared_name_of(program.body@[s2], d2)) matches
                                    Option::Some(nm) ==> (memory.lookup(nm) is Some && !old(
                                    memory,
                                ).contains(nm))),
                            forall|s2: int, d2: int, s3: int, d3: int|
                                0 <= s2 && 0 <= s3 && decl_before(s2, d2, s3, d3) && decl_before(
                                    s3,
                                    d3,
                                    s as int,
                                    d as int,
                                ) ==> ((#[trigger] declared_name_of(program.body@[s2], d2))
                                    matches Option::Some(nm2) ==> ((#[trigger] declared_name_of(
                                    program.body@[s3],
                                    d3,
                                )) matches Option::Some(nm3) ==> nm2 != nm3)),
                            forall|k: Seq<char>|
                                (forall|s2: int, d2: int|
                                    0 <= s2 && decl_before(s2, d2, s as int, d as int) ==> (
                                    #[trigger] declared_name_of(program.body@[s2], d2))
                                        != Option::Some(k)) ==> memory.lookup(k) == old(
                                    memory,
                                ).lookup(k),
                            first_decl_is_marker(program.body@) ==> s == 0 && d == 0,
                            body_pure_decls(program.body@) ==> *self == *old(self),
                            body_pure_decls(program.body@) ==> numeric_bindings_present::<H>(
                                program.body@,
                                s as int,
                                *memory,
                            ),
                            body_pure_decls(program.body@) ==> (forall|j: int|
                                j < d ==> ((#[trigger] declarator_of(program.body@[s as int], j))
                                    matches Option::Some(dc) ==> ((dc.init is BinaryExpression
                                    || dc.init is UnaryExpression) ==> (spec_numeric_value::<H>(
                                    dc.init,
                                    *memory,
                                ) matches Option::Some(x) && (memory.lookup(dc.id.name@) matches
                                    Option::Some(v) && *v matches MemoryItem::UserVal(u)
                                    && u.value == JValue::Num(JNumber::Real(x))))))),
                        decreases m - d,
                    {
                        let declarator = &declaration.declarations[d];
                        let var_name = &declarator.id.name;
                        let source_range = declarator.init.source_range();
                        let value: Rc<MemoryItem> = match &declarator.init {
                            Expr::NoneValue(none) => Rc::new(none_user_val(none)),
                            Expr::Literal(lit) => Rc::new(literal_user_val(lit)),
                            Expr::FunctionExpression(fe) => Rc::new(
                                MemoryItem::Function {
                                    expression: rc_dup(fe),
                                    meta: {
                                        let mut meta: Vec<Metadata> = Vec::new();
                                        meta.push(Metadata { source_range });
                                        meta
                                    },
                                },
                            ),
                            Expr::PipeSubstitution(ps) => {
                                return Result::Err(
                                    semantic_error(
                                        concat2(
                                            "pipe substitution not implemented for declaration of variable ",
                                            var_name.as_str(),
                                        ),
                                        SourceRange::new(ps.start, ps.end),
                                    ),
                                );
                            },
                            other => self.eval_expr(other, memory, &pipe_info, depth - 1)?,
                        };
                        proof {
                            assert(declarator.init matches Expr::Literal(lit)
                                ==> literal_binding_of(program.body@[s as int], d as int)
                                == Option::Some((declarator.id.name@, lit.value)));
                            assert(declared_name_of(program.body@[s as int], d as int)
                                == Option::Some(declarator.id.name@));
                        }
                        let ghost pre_add = *memory;
                        memory.add_handle(var_name.as_str(), value, source_range)?;
                        proof {
                            // the add succeeded, so the declared name was fresh: bound
                            // neither before the body ran nor by an earlier declarator
                            let name_d = declarator.id.name@;
                            assert(!pre_add.contains(name_d));
                            assert forall|s2: int, d2: int|
                                0 <= s2 && decl_before(s2, d2, s as int, d as int) implies ((
                            #[trigger] declared_name_of(program.body@[s2], d2)) matches
                                Option::Some(nm) ==> nm != name_d) by {
                                if declared_name_of(program.body@[s2], d2) == Option::Some(
                                    name_d,
                                ) {
                                    assert(pre_add.lookup(name_d) is Some);
                                }
                            }
                            assert(!old(memory).contains(name_d)) by {
                                assert(pre_add.lookup(name_d) == old(memory).lookup(name_d));
                            }
                            if body_pure_decls(program.body@) {
                                assert(preserves_bindings(pre_add, *memory));
                                assert forall|s2: int, d2: int| true implies ((
                                #[trigger] declarator_of(program.body@[s2], d2)) matches
                                    Option::Some(dc) ==> ((dc.init is BinaryExpression || dc.init
                                    is UnaryExpression) && spec_numeric_value::<H>(
                                    dc.init,
                                    pre_add,
                                ) is Some ==> spec_numeric_value::<H>(dc.init, *memory)
                                    == spec_numeric_value::<H>(dc.init, pre_add))) by {
                                    match declarator_of(program.body@[s2], d2) {
                                        Option::Some(dc) => {
                                            if (dc.init is BinaryExpression || dc.init
                                                is UnaryExpression) && spec_numeric_value::<H>(
                                                dc.init,
                                                pre_add,
                                            ) is Some {
                                                lemma_numeric_value_stable::<H>(
                                                    dc.init,
                                                    pre_add,
                                                    *memory,
                                                );
                                            }
                                        },
                                        Option::None => {},
                                    }
                                }
                            }
                        }
                        d = d + 1;
                    }
                    proof {
                        assert forall|s2: int, d2: int|
                            0 <= s2 && decl_before(s2, d2, s as int + 1, 0) implies decl_before(
                            s2,
                            d2,
                            s as int,
                            m as int,
                        ) || (#[trigger] declared_name_of(program.body@[s2], d2)) is None by {
                            if s2 == s as int && d2 >= m {
                                assert(declared_name_of(program.body@[s2], d2) is None);
                            }
                        }
                        assert(literal_bindings_present(program.body@, s as int + 1, *memory))
                            by {
                            assert forall|s2: int, d2: int| 0 <= s2 < s as int + 1 implies ((
                            #[trigger] literal_binding_of(program.body@[s2], d2)) matches
                                Option::Some(b) ==> (memory.lookup(b.0) matches Option::Some(v)
                                && *v matches MemoryItem::UserVal(u) && u.value == b.1)) by {
                                if s2 == s as int {
                                    assert(literal_binding_of(program.body@[s2], d2) is Some
                                        ==> 0 <= d2 < m);
                                }
                            }
                        }
                    }
                },
                BodyItem::ReturnStatement(statement) => {
                    match &statement.argument {
                        Expr::PipeSubstitution(_) => {},
                        Expr::FunctionExpression(_) => {},
                        other => {
                            let value = self.eval_expr(other, memory, &pipe_info, depth - 1)?;
                            memory.return_ = Option::Some(ProgramReturn::Value(value));
                        },
                    }
                },
            }
            s = s + 1;
        }
        self.host.flush_batch(SourceRange::new(program.end, program.end))?;
        proof {
            assert forall|k: Seq<char>|
                (forall|s2: int, d2: int|
                    0 <= s2 < program.body@.len() ==> (#[trigger] declared_name_of(
                        program.body@[s2],
                        d2,
                    )) != Option::Some(k)) implies memory.lookup(k) == #[trigger] old(
                memory,
            ).lookup(k) by {
                assert(forall|s2: int, d2: int|
                    0 <= s2 && decl_before(s2, d2, program.body@.len() as int, 0) ==> (
                    #[trigger] declared_name_of(program.body@[s2], d2)) != Option::Some(k));
            }
        }
        Result::Ok(())
    }

    /// Evaluate one expression to a value.
    ///
    /// A literal always evaluates to a user value holding its JSON; an
    /// identifier reads the memory, and a name never bound is the
    /// `UndefinedValue` error; the pipeline-substitution marker takes the
    /// previous stage's result, and is a `Semantic` error when no pipeline
    /// value is at hand.
    pub fn eval_expr(
        &mut self,
        expr: &Expr,
        memory: &mut ProgramMemory,
        pipe: &PipeInfo,
        depth: u64,
    ) -> (r: Result<Rc<MemoryItem>, KclError>)
        ensures
            crate::host::log_extends(old(self).host.cmds(), final(self).host.cmds()),
            final(self).stdlib == old(self).stdlib,
            *final(memory) == *old(memory),
            expr matches Expr::Literal(lit) ==> (*final(self) == *old(self) && *final(memory)
                == *old(memory) && (r matches Result::Ok(v) && *v matches MemoryItem::UserVal(u)
                && u.value == lit.value && u.meta@.len() == 1
                && u.meta@[0].source_range.spec_start() == lit.start
                && u.meta@[0].source_range.spec_end() == lit.end)),
            expr matches Expr::Identifier(id) ==> (*final(self) == *old(self) && *final(memory)
                == *old(memory) && (old(memory).contains(id.name@) ==> (r matches Result::Ok(v)
                && old(memory).lookup(id.name@) == Option::Some(v))) && (!old(memory).contains(
                id.name@,
            ) ==> (r matches Result::Err(e) && e is UndefinedValue))),
            expr is PipeSubstitution ==> (*final(self) == *old(self) && *final(memory) == *old(
                memory,
            ) && (pipe.previous_results matches Option::Some(v) ==> (r matches Result::Ok(got)
                && got == v)) && (pipe.previous_results is None ==> (r matches Result::Err(e) && e
                is Semantic))),
            expr matches Expr::NoneValue(none) ==> (*final(self) == *old(self) && *final(memory)
                == *old(memory) && (r matches Result::Ok(v) && *v matches MemoryItem::UserVal(u)
                && crate::json::spec_is_kcl_none(u.value))),
            expr matches Expr::FunctionExpression(fe) ==> (*final(self) == *old(self) && (r
                matches Result::Ok(v) && *v matches MemoryItem::Function { expression, .. }
                && expression == fe)),
            (expr is BinaryExpression || expr is UnaryExpression) && pure_numeric_expr(*expr)
                ==> (*final(self) == *old(self) && match spec_numeric_value::<H>(
                *expr,
                *old(memory),
            ) {
                Option::Some(x) => r matches Result::Ok(v) && *v matches MemoryItem::UserVal(u)
                    && u.value == JValue::Num(JNumber::Real(x)),
                Option::None => r is Err,
            }),
        decreases depth, 0int, *expr,
    {
        match expr {
            Expr::Literal(lit) => Result::Ok(Rc::new(literal_user_val(lit))),
            Expr::Identifier(id) => {
                match memory.get_handle(id.name.as_str()) {
                    Option::Some(handle) => Result::Ok(rc_dup(handle)),
                    Option::None => Result::Err(
                        ProgramMemory::undefined_value_error(id.name.as_str(), id.source_range()),
                    ),
                }
            },
            Expr::PipeSubstitution(ps) => {
                match &pipe.previous_results {
                    Option::Some(v) => Result::Ok(rc_dup(v)),
                    Option::None => Result::Err(
                        semantic_error(
                            "pipe substitution used outside of a pipeline".to_owned(),
                            SourceRange::new(ps.start, ps.end),
                        ),
                    ),
                }
            },
            Expr::NoneValue(none) => Result::Ok(Rc::new(none_user_val(none))),
            Expr::FunctionExpression(fe) => {
                let mut meta: Vec<Metadata> = Vec::new();
                meta.push(Metadata { source_range: SourceRange::new(fe.start, fe.end) });
                Result::Ok(Rc::new(MemoryItem::Function { expression: rc_dup(fe), meta }))
            },
            Expr::MemberExpression(m) => eval_member_expression(m, memory),
            Expr::BinaryExpression(b) => {
                proof {
                    assert(decreases_to!(*expr => **b));
                }
                self.eval_binary_expression(b, memory, pipe, depth)
            },
            Expr::UnaryExpression(u) => {
                proof {
                    assert(decreases_to!(*expr => **u));
                }
                self.eval_unary_expression(u, memory, pipe, depth)
            },
            Expr::CallExpression(c) => {
                if depth == 0 {
                    return Result::Err(depth_error(SourceRange::new(c.start, c.end)));
                }
                self.eval_call_expression(c, memory, pipe, depth - 1)
            },
            Expr::PipeExpression(p) => {
                if depth == 0 {
                    return Result::Err(depth_error(SourceRange::new(p.start, p.end)));
                }
                self.eval_pipe_expression(p, memory, depth - 1)
            },
            Expr::ArrayExpression(a) => {
                if depth == 0 {
                    return Result::Err(depth_error(SourceRange::new(a.start, a.end)));
                }
                self.eval_array_expression(a, memory, pipe, depth - 1)
            },
            Expr::ObjectExpression(o) => {
                if depth == 0 {
                    return Result::Err(depth_error(SourceRange::new(o.start, o.end)));
                }
                self.eval_object_expression(o, memory, pipe, depth - 1)
            },
        }
    }

    /// Evaluate both operands, then combine them with the host's kernel.
    pub fn eval_binary_expression(
        &mut self,
        b: &crate::ast::BinaryExpression,
        memory: &mut ProgramMemory,
        pipe: &PipeInfo,
        depth: u64,
    ) -> (r: Result<Rc<MemoryItem>, KclError>)
        ensures
            crate::host::log_extends(old(self).host.cmds(), final(self).host.cmds()),
            final(self).stdlib == old(self).stdlib,
            *final(memory) == *old(memory),
            r matches Result::Ok(v) ==> (*v matches MemoryItem::UserVal(u) && u.value matches
                JValue::Num(n) && n is Real && u.meta@.len() == 1
                && u.meta@[0].source_range.spec_start() == b.start
                && u.meta@[0].source_range.spec_end() == b.end),
            pure_numeric_expr(b.left) && pure_numeric_expr(b.right) ==> (*final(self) == *old(
                self,
            ) && (spec_numeric_value::<H>(b.left, *old(memory)) matches Option::Some(a)
                ==> spec_numeric_value::<H>(b.right, *old(memory)) matches Option::Some(a2) ==> (r
                matches Result::Ok(v) && *v matches MemoryItem::UserVal(u) && u.value
                == JValue::Num(JNumber::Real(spec_binary_op::<H>(b.operator, a, a2))))) && ((
            spec_numeric_value::<H>(b.left, *old(memory)) is None || spec_numeric_value::<H>(
                b.right,
                *old(memory),
            ) is None) ==> r is Err)),
        decreases depth, 0int, *b,
    {
        proof {
            assert(decreases_to!(*b => b.left));
            assert(decreases_to!(*b => b.right));
        }
        let left = self.eval_expr(&b.left, memory, pipe, depth)?;
        let right = self.eval_expr(&b.right, memory, pipe, depth)?;
        let result = apply_binary_op(
            &self.host,
            b.operator,
            &left,
            &right,
            SourceRange::new(b.start, b.end),
        )?;
        Result::Ok(Rc::new(result))
    }

    /// Evaluate the operand, then negate it with the host's kernel.
    pub fn eval_unary_expression(
        &mut self,
        u: &crate::ast::UnaryExpression,
        memory: &mut ProgramMemory,
        pipe: &PipeInfo,
        depth: u64,
    ) -> (r: Result<Rc<MemoryItem>, KclError>)
        ensures
            crate::host::log_extends(old(self).host.cmds(), final(self).host.cmds()),
            final(self).stdlib == old(self).stdlib,
            *final(memory) == *old(memory),
            r matches Result::Ok(v) ==> (*v matches MemoryItem::UserVal(uv) && uv.value matches
                JValue::Num(n) && n is Real && uv.meta@.len() == 1
                && uv.meta@[0].source_range.spec_start() == u.start
                && uv.meta@[0].source_range.spec_end() == u.end),
            pure_numeric_expr(u.argument) ==> (*final(self) == *old(self) && (
            spec_numeric_value::<H>(u.argument, *old(memory)) matches Option::Some(a) ==> (r
                matches Result::Ok(v) && *v matches MemoryItem::UserVal(uv) && uv.value
                == JValue::Num(JNumber::Real(H::neg_spec(a))))) && (spec_numeric_value::<H>(
                u.argument,
                *old(memory),
            ) is None ==> r is Err)),
        decreases depth, 0int, *u,
    {
        proof {
            assert(decreases_to!(*u => u.argument));
        }
        let operand = self.eval_expr(&u.argument, memory, pipe, depth)?;
        let result = apply_unary_minus(&self.host, &operand, SourceRange::new(u.start, u.end))?;
        Result::Ok(Rc::new(result))
    }

    /// Evaluate each element; the array of their JSON forms becomes one
    /// user value.
    #[verifier::loop_isolation(false)]
    pub fn eval_array_expression(
        &mut self,
        a: &crate::ast::ArrayExpression,
        memory: &mut ProgramMemory,
        pipe: &PipeInfo,
        depth: u64,
    ) -> (r: Result<Rc<MemoryItem>, KclError>)
        ensures
            crate::host::log_extends(old(self).host.cmds(), final(self).host.cmds()),
            final(self).stdlib == old(self).stdlib,
            *final(memory) == *old(memory),
            r matches Result::Ok(v) ==> (*v matches MemoryItem::UserVal(u) && u.value is Array
                && u.meta@.len() == 1 && u.meta@[0].source_range.spec_start() == a.start
                && u.meta@[0].source_range.spec_end() == a.end),
            depth > 0 && (forall|i: int|
                0 <= i < a.elements@.len() ==> (#[trigger] a.elements@[i]) is Literal) ==> (r
                matches Result::Ok(v) && *v matches MemoryItem::UserVal(u) && u.value matches
                JValue::Array(items) && items@.len() == a.elements@.len() && (forall|i: int|
                0 <= i < a.elements@.len() ==> ((#[trigger] a.elements@[i]) matches Expr::Literal(
                    lit,
                ) ==> items@[i] == lit.value))),
        decreases depth,
    {
        if depth == 0 {
            return Result::Err(depth_error(SourceRange::new(a.start, a.end)));
        }
        let n = a.elements.len();
        let mut items: Vec<JValue> = Vec::new();
        let mut i: usize = 0;
        while i < n
            invariant
                i <= n,
                crate::host::log_extends(old(self).host.cmds(), self.host.cmds()),
                self.stdlib == old(self).stdlib,
                *memory == *old(memory),
                items@.len() == i as int,
                forall|j: int|
                    0 <= j < i ==> ((#[trigger] a.elements@[j]) matches Expr::Literal(lit)
                        ==> items@[j] == lit.value),
            decreases n - i,
        {
            let value = self.eval_expr(&a.elements[i], memory, pipe, depth - 1)?;
            let json = value.get_json_value()?;
            items.push(json);
            i = i + 1;
        }
        let mut meta: Vec<Metadata> = Vec::new();
        meta.push(Metadata { source_range: SourceRange::new(a.start, a.end) });
        Result::Ok(
            Rc::new(
                MemoryItem::UserVal(UserVal { value: JValue::Array(Rc::new(items)), meta }),
            ),
        )
    }

    /// Evaluate each property; the object of their JSON forms becomes one
    /// user value.  A repeated key keeps the later value.
    #[verifier::loop_isolation(false)]
    pub fn eval_object_expression(
        &mut self,
        o: &crate::ast::ObjectExpression,
        memory: &mut ProgramMemory,
        pipe: &PipeInfo,
        depth: u64,
    ) -> (r: Result<Rc<MemoryItem>, KclError>)
        ensures
            crate::host::log_extends(old(self).host.cmds(), final(self).host.cmds()),
            final(self).stdlib == old(self).stdlib,
            *final(memory) == *old(memory),
            r matches Result::Ok(v) ==> (*v matches MemoryItem::UserVal(u) && u.value is Object
                && u.meta@.len() == 1 && u.meta@[0].source_range.spec_start() == o.start
                && u.meta@[0].source_range.spec_end() == o.end),
            depth > 0 && (forall|i: int|
                0 <= i < o.properties@.len() ==> (#[trigger] o.properties@[i].value) is Literal)
                ==> (r matches Result::Ok(v) && *v matches MemoryItem::UserVal(u) && u.value
                matches JValue::Object(entries) && (forall|k: Seq<char>|
                crate::json::obj_lookup(entries@, k) == last_literal_property(
                    o.properties@,
                    o.properties@.len() as int,
                    k,
                ))),
        decreases depth,
    {
        if depth == 0 {
            return Result::Err(depth_error(SourceRange::new(o.start, o.end)));
        }
        let n = o.properties.len();
        let mut entries: Vec<(String, JValue)> = Vec::new();
        let mut i: usize = 0;
        while i < n
            invariant
                i <= n,
                crate::host::log_extends(old(self).host.cmds(), self.host.cmds()),
                self.stdlib == old(self).stdlib,
                *memory == *old(memory),
                (forall|j: int|
                    0 <= j < n ==> (#[trigger] o.properties@[j].value) is Literal) ==> (forall|
                    k: Seq<char>,
                |
                    crate::json::obj_lookup(entries@, k) == last_literal_property(
                        o.properties@,
                        i as int,
                        k,
                    )),
            decreases n - i,
        {
            let value = self.eval_expr(&o.properties[i].value, memory, pipe, depth - 1)?;
            let json = value.get_json_value()?;
            obj_set(&mut entries, o.properties[i].key.name.clone(), json);
            i = i + 1;
        }
        let mut meta: Vec<Metadata> = Vec::new();
        meta.push(Metadata { source_range: SourceRange::new(o.start, o.end) });
        Result::Ok(
            Rc::new(
                MemoryItem::UserVal(UserVal { value: JValue::Object(Rc::new(entries)), meta }),
            ),
        )
    }

    /// Evaluate a pipeline: stages left to right, each stage seeing the
    /// previous stage's result as the substitution value; the pipeline's
    /// value is the last stage's result.  In the simplest observable
    /// shape — a literal first stage threaded through any number of
    /// substitution-marker stages — the pipeline provably succeeds with
    /// the literal's value, however many stages it has.
    #[verifier::loop_isolation(false)]
    pub fn eval_pipe_expression(
        &mut self,
        p: &crate::ast::PipeExpression,
        memory: &mut ProgramMemory,
        depth: u64,
    ) -> (r: Result<Rc<MemoryItem>, KclError>)
        ensures
            crate::host::log_extends(old(self).host.cmds(), final(self).host.cmds()),
            final(self).stdlib == old(self).stdlib,
            *final(memory) == *old(memory),
            ({
                &&& p.body@.len() > 0
                &&& p.body@[0] is Literal
                &&& forall|i: int| 1 <= i < p.body@.len() ==> (#[trigger] p.body@[i])
                    is PipeSubstitution
            }) ==> (p.body@[0] matches Expr::Literal(lit) ==> (r matches Result::Ok(v) && *v
                matches MemoryItem::UserVal(u) && u.value == lit.value)),
        decreases depth, 2int,
    {
        let n = p.body.len();
        if n == 0 {
            return Result::Err(
                semantic_error(
                    "pipe expression has no stages".to_owned(),
                    SourceRange::new(p.start, p.end),
                ),
            );
        }
        let mut pipe = PipeInfo::new();
        let mut last: Option<Rc<MemoryItem>> = Option::None;
        let ghost threaded = p.body@[0] is Literal && forall|j: int|
            1 <= j < p.body@.len() ==> (#[trigger] p.body@[j]) is PipeSubstitution;
        let mut i: usize = 0;
        while i < n
            invariant
                i <= n,
                i > 0 ==> last is Some,
                crate::host::log_extends(old(self).host.cmds(), self.host.cmds()),
                self.stdlib == old(self).stdlib,
                *memory == *old(memory),
                threaded && i > 0 ==> (p.body@[0] matches Expr::Literal(lit) ==> (last matches
                    Option::Some(v) && *v matches MemoryItem::UserVal(u)
                    && pipe.previous_results == Option::Some(v) && u.value == lit.value)),
            decreases n - i,
        {
            let value = self.eval_pipe_stage(&p.body[i], memory, &mut pipe, depth)?;
            last = Option::Some(value);
            i = i + 1;
        }
        match last {
            Option::Some(value) => Result::Ok(value),
            Option::None => vstd::pervasive::unreached(),
        }
    }

    /// Evaluate one pipeline stage: the stage sees the pipe state as it
    /// stands, and afterwards the pipe state carries exactly this stage's
    /// result for the next stage to observe.  A literal stage always
    /// succeeds with its own value; a substitution-marker stage yields
    /// exactly the previous stage's result, and fails without one.
    pub fn eval_pipe_stage(
        &mut self,
        stage: &Expr,
        memory: &mut ProgramMemory,
        pipe: &mut PipeInfo,
        depth: u64,
    ) -> (r: Result<Rc<MemoryItem>, KclError>)
        ensures
            crate::host::log_extends(old(self).host.cmds(), final(self).host.cmds()),
            final(self).stdlib == old(self).stdlib,
            *final(memory) == *old(memory),
            r matches Result::Ok(v) ==> final(pipe).previous_results == Option::Some(v),
            stage matches Expr::Literal(lit) ==> (r matches Result::Ok(v) && *v matches
                MemoryItem::UserVal(u) && u.value == lit.value),
            stage is PipeSubstitution ==> ((old(pipe).previous_results matches Option::Some(v)
                ==> (r matches Result::Ok(got) && got == v)) && (old(pipe).previous_results
                is None ==> r is Err)),
        decreases depth, 1int,
    {
        let value = self.eval_expr(stage, memory, pipe, depth)?;
        pipe.previous_results = Option::Some(rc_dup(&value));
        Result::Ok(value)
    }

    /// Evaluate a call's arguments positionally.  Argument kinds with no
    /// value form (function expressions and nested pipelines) are silently
    /// skipped, preserving the language's observed behavior.
    #[verifier::loop_isolation(false)]
    /// Dispatch a call and hand back what it left for the return slot:
    /// builtins always produce a value; a library or user-defined function
    /// yields whatever its body returned.  At statement level the
    /// argument kinds the language leaves without a value form there
    /// (member reads, the substitution marker, the none sentinel) are
    /// silently skipped.  A callee that classifies nowhere and is unbound
    /// in memory is the `No such name … defined` error; a bound
    /// non-function callee is the `not a in memory function` error.
    fn exec_call(
        &mut self,
        call: &crate::ast::CallExpression,
        memory: &mut ProgramMemory,
        pipe: &PipeInfo,
        statement_level: bool,
        depth: u64,
    ) -> (r: Result<Option<ProgramReturn>, KclError>)
        ensures
            crate::host::log_extends(old(self).host.cmds(), final(self).host.cmds()),
            final(self).stdlib == old(self).stdlib,
            *final(memory) == *old(memory),
            ({
                let name = call.callee.name@;
                segment_fn_of(name) is None && !name_in_list(old(self).stdlib.host_builtins@, name)
                    && lib_lookup(old(self).stdlib.lib_fns@, name) is None && !old(memory).contains(
                    name,
                )
            }) ==> r is Err,
            ({
                let name = call.callee.name@;
                depth > 0 && args_infallible(call.arguments@) && segment_fn_of(name) is None
                    && !name_in_list(old(self).stdlib.host_builtins@, name) && lib_lookup(
                    old(self).stdlib.lib_fns@,
                    name,
                ) is None && !old(memory).contains(name)
            }) ==> (r matches Result::Err(e) && e matches KclError::Semantic(d) && d.message@
                == "No such name "@ + call.callee.name@ + " defined"@ && d.source_ranges@.len()
                == 1 && d.source_ranges@[0].spec_start() == call.start
                && d.source_ranges@[0].spec_end() == call.end),
            ({
                let name = call.callee.name@;
                &&& depth > 0
                &&& args_infallible(call.arguments@)
                &&& segment_fn_of(name) is None
                &&& !name_in_list(old(self).stdlib.host_builtins@, name)
                &&& lib_lookup(old(self).stdlib.lib_fns@, name) is None
                &&& old(memory).lookup(name) matches Option::Some(v) && !(*v is Function)
            }) ==> (r matches Result::Err(e) && e matches KclError::Semantic(d) && d.message@
                == "not a in memory function"@ && d.source_ranges@.len() == 1
                && d.source_ranges@[0].spec_start() == call.start
                && d.source_ranges@[0].spec_end() == call.end),
        decreases depth, 0int,
    {
        if depth == 0 {
            return Result::Err(depth_error(SourceRange::new(call.start, call.end)));
        }
        let call_range = SourceRange::new(call.start, call.end);
        let n = call.arguments.len();
        let mut args_vec: Vec<Rc<MemoryItem>> = Vec::new();
        let mut i: usize = 0;
        while i < n
            invariant
                i <= n,
                crate::host::log_extends(old(self).host.cmds(), self.host.cmds()),
                self.stdlib == old(self).stdlib,
                *memory == *old(memory),
                args_infallible(call.arguments@) ==> *self == *old(self),
            decreases n - i,
        {
            match &call.arguments[i] {
                Expr::MemberExpression(_) | Expr::PipeSubstitution(_) | Expr::NoneValue(_) => {
                    if !statement_level {
                        let value = self.eval_expr(&call.arguments[i], memory, pipe, depth - 1)?;
                        args_vec.push(value);
                    }
                },
                Expr::Literal(_) | Expr::Identifier(_) | Expr::BinaryExpression(_)
                    | Expr::UnaryExpression(_) | Expr::CallExpression(_)
                    | Expr::ArrayExpression(_) | Expr::ObjectExpression(_) => {
                    let value = self.eval_expr(&call.arguments[i], memory, pipe, depth - 1)?;
                    args_vec.push(value);
                },
                _ => {},
            }
            i = i + 1;
        }
        let fn_name = &call.callee.name;
        match self.stdlib.get_either(fn_name.as_str()) {
            FunctionKind::Core(CoreFn::Segment(f)) => {
                let args = Args { args: args_vec, source_range: call_range };
                let result = crate::segment::call_segment_fn(&self.host, f, &args)?;
                Result::Ok(Option::Some(ProgramReturn::Value(Rc::new(result))))
            },
            FunctionKind::Core(CoreFn::Hosted) => {
                let args = Args { args: args_vec, source_range: call_range };
                let result = self.host.call_core(fn_name.as_str(), &args)?;
                Result::Ok(Option::Some(ProgramReturn::Value(result)))
            },
            FunctionKind::Std(program) => {
                let mut newmem = memory.duplicate();
                self.inner_execute(&program, &mut newmem, BodyType::Block, depth - 1)?;
                Result::Ok(newmem.return_)
            },
            FunctionKind::UserDefined => {
                let func: Rc<MemoryItem> = match memory.get_handle(fn_name.as_str()) {
                    Option::Some(handle) => rc_dup(handle),
                    Option::None => {
                        return Result::Err(
                            semantic_error(
                                concat3("No such name ", fn_name.as_str(), " defined"),
                                call_range,
                            ),
                        );
                    },
                };
                match &*func {
                    MemoryItem::Function { expression, .. } => {
                        let fe = rc_dup(expression);
                        self.call_user_function(args_vec, &fe, memory, depth - 1)
                    },
                    _ => Result::Err(
                        semantic_error("not a in memory function".to_owned(), call_range),
                    ),
                }
            },
        }
    }

    /// Evaluate a call in value position: its return value.  A callee
    /// that classifies nowhere and is unbound in memory never succeeds;
    /// what a call's outcome realizes to is fixed by
    /// [`realize_call_result`].
    pub fn eval_call_expression(
        &mut self,
        call: &crate::ast::CallExpression,
        memory: &mut ProgramMemory,
        pipe: &PipeInfo,
        depth: u64,
    ) -> (r: Result<Rc<MemoryItem>, KclError>)
        ensures
            crate::host::log_extends(old(self).host.cmds(), final(self).host.cmds()),
            final(self).stdlib == old(self).stdlib,
            *final(memory) == *old(memory),
            ({
                let name = call.callee.name@;
                segment_fn_of(name) is None && !name_in_list(old(self).stdlib.host_builtins@, name)
                    && lib_lookup(old(self).stdlib.lib_fns@, name) is None && !old(memory).contains(
                    name,
                )
            }) ==> r is Err,
            ({
                let name = call.callee.name@;
                depth > 0 && args_infallible(call.arguments@) && segment_fn_of(name) is None
                    && !name_in_list(old(self).stdlib.host_builtins@, name) && lib_lookup(
                    old(self).stdlib.lib_fns@,
                    name,
                ) is None && !old(memory).contains(name)
            }) ==> (r matches Result::Err(e) && e matches KclError::Semantic(d) && d.message@
                == "No such name "@ + call.callee.name@ + " defined"@ && d.source_ranges@.len()
                == 1 && d.source_ranges@[0].spec_start() == call.start
                && d.source_ranges@[0].spec_end() == call.end),
            ({
                let name = call.callee.name@;
                &&& depth > 0
                &&& args_infallible(call.arguments@)
                &&& segment_fn_of(name) is None
                &&& !name_in_list(old(self).stdlib.host_builtins@, name)
                &&& lib_lookup(old(self).stdlib.lib_fns@, name) is None
                &&& old(memory).lookup(name) matches Option::Some(v) && !(*v is Function)
            }) ==> (r matches Result::Err(e) && e matches KclError::Semantic(d) && d.message@
                == "not a in memory function"@ && d.source_ranges@.len() == 1
                && d.source_ranges@[0].spec_start() == call.start
                && d.source_ranges@[0].spec_end() == call.end),
        decreases depth, 1int,
    {
        let ret = self.exec_call(call, memory, pipe, false, depth)?;
        realize_call_result(ret, call.callee.name.as_str(), SourceRange::new(call.start, call.end))
    }

    /// Invoke a function value: its parameters are bound in a scoped copy
    /// of the caller's memory, the body runs there, and the callee's
    /// return slot is handed back; the caller's memory is untouched.
    pub fn call_user_function(
        &mut self,
        args: Vec<Rc<MemoryItem>>,
        function_expression: &Rc<FunctionExpression>,
        memory: &ProgramMemory,
        depth: u64,
    ) -> (r: Result<Option<ProgramReturn>, KclError>)
        ensures
            crate::host::log_extends(old(self).host.cmds(), final(self).host.cmds()),
            final(self).stdlib == old(self).stdlib,
            ({
                let params = function_expression.params@;
                depth > 0 && args@.len() > params.len()
            }) ==> (r matches Result::Err(e) && e matches KclError::Semantic(d) && d.message@
                == arity_message(
                required_param_count(function_expression.params@),
                function_expression.params@.len() as nat,
                args@.len() as nat,
            ) && d.source_ranges@.len() == 1 && d.source_ranges@[0].spec_start()
                == function_expression.start && d.source_ranges@[0].spec_end()
                == function_expression.end),
            ({
                let params = function_expression.params@;
                depth > 0 && args@.len() <= params.len() && args@.len() < required_param_count(
                    params,
                ) && params_order_ok(params) && params_bindable(params, *memory)
            }) ==> (r matches Result::Err(e) && e matches KclError::Semantic(d) && d.message@
                == arity_message(
                required_param_count(function_expression.params@),
                function_expression.params@.len() as nat,
                args@.len() as nat,
            ) && d.source_ranges@.len() == 1 && d.source_ranges@[0].spec_start()
                == function_expression.start && d.source_ranges@[0].spec_end()
                == function_expression.end),
            depth > 0 && function_expression.body.body@.len() > 0 ==> (
            function_expression.body.body@.last() matches BodyItem::ReturnStatement(st)
                ==> st.argument matches Expr::Literal(lit) ==> (r matches Result::Ok(ret) ==> (ret
                matches Option::Some(pr) && pr matches ProgramReturn::Value(v) && *v matches
                MemoryItem::UserVal(u) && u.value == lit.value))),
            ({
                let params = function_expression.params@;
                let body = function_expression.body.body@;
                &&& depth > 0
                &&& body.len() == 1
                &&& params.len() >= 1
                &&& 1 <= args@.len() <= params.len()
                &&& required_param_count(params) <= args@.len()
                &&& params_order_ok(params)
                &&& params_bindable(params, *memory)
            }) ==> (function_expression.body.body@[0] matches BodyItem::ReturnStatement(st)
                ==> st.argument matches Expr::Identifier(id) ==> (id.name@
                == function_expression.params@[0].identifier.name@ ==> (r matches Result::Ok(ret)
                ==> (ret matches Option::Some(pr) && pr matches ProgramReturn::Value(v) && v
                == args@[0])))),
        decreases depth, 2int,
    {
        if depth == 0 {
            return Result::Err(
                depth_error(
                    SourceRange::new(function_expression.start, function_expression.end),
                ),
            );
        }
        let mut fn_memory = assign_args_to_params(function_expression, args, memory.duplicate())?;
        self.inner_execute(&function_expression.body, &mut fn_memory, BodyType::Block, depth - 1)?;
        Result::Ok(fn_memory.return_)
    }
}

} // verus!

verus! {

/// Realize a dispatched call's outcome in value position: a returned
/// value is handed through; the arguments sentinel cannot be realized;
/// a body that never returned is the `Result of user-defined function …
/// is undefined` error.
fn realize_call_result(ret: Option<ProgramReturn>, name: &str, call_range: SourceRange) -> (r:
    Result<Rc<MemoryItem>, KclError>)
    ensures
        ret matches Option::Some(pr) ==> (pr matches ProgramReturn::Value(v) ==> (r matches
            Result::Ok(got) && got == v)),
        ret matches Option::Some(pr) ==> (pr is Arguments ==> (r matches Result::Err(e) && e
            matches KclError::Semantic(d) && d.message@ == "Cannot get value from arguments"@)),
        ret is None ==> (r matches Result::Err(e) && e matches KclError::Semantic(d) && d.message@
            == "Result of user-defined function "@ + name@ + " is undefined"@
            && d.source_ranges@ =~= seq![call_range]),
{
    match ret {
        Option::Some(pr) => pr.get_value(),
        Option::None => Result::Err(
            semantic_error(
                crate::util::concat3("Result of user-defined function ", name, " is undefined"),
                call_range,
            ),
        ),
    }
}

} // verus!
