//! End-to-end tests: the evaluator against an IEEE-754 host, the ported
//! binder cases, the JSON form, and the segment primitives.

use std::rc::Rc;

use kcl_lib::ast::{
    ArrayExpression, BinaryExpression, BinaryOperator, BodyItem, CallExpression, Expr,
    FunctionExpression, Identifier, KclNone, Literal, LiteralIdentifier,
    MemberExpression, MemberObject, ObjectExpression, ObjectProperty, Parameter, PipeExpression,
    PipeSubstitution, Program, ReturnStatement, UnaryExpression, UnaryOperator,
    VariableDeclaration, VariableDeclarator, VariableKind,
};
use kcl_lib::errors::{KclError, KclErrorDetails};
use kcl_lib::executor::{
    assign_args_to_params, none_user_val, user_val_from_real, BodyType, CoreFn, ExecutorContext,
    ExecutorSettings, FunctionKind, SegmentFn, StdLib,
};
use kcl_lib::host::{Args, Host, MockHost, ModelingCommand, UnitLength};
use kcl_lib::json::{JNumber, JValue, Real};
use kcl_lib::memory::ProgramMemory;
use kcl_lib::serialize::{json_to_string, uuid_to_string};
use kcl_lib::source_range::{Metadata, SourceRange};
use kcl_lib::values::{
    BasePath, GeoMeta, MemoryItem, Path, Plane, PlaneType, Point2d, Point3d, Position, Rotation,
    SketchGroup, SketchSurface, UserVal, Uuid,
};

// ---------------------------------------------------------------------
// an engine-faithful host: IEEE-754 doubles, a few hosted builtins
// ---------------------------------------------------------------------

fn rb(x: f64) -> Real {
    Real { bits: x.to_bits() }
}

fn fb(r: Real) -> f64 {
    f64::from_bits(r.bits)
}

struct IeeeHost {
    commands: Vec<(Uuid, SourceRange, ModelingCommand)>,
}

impl IeeeHost {
    fn new() -> Self {
        IeeeHost { commands: Vec::new() }
    }

    fn arg_f64(args: &Args, i: usize) -> Option<f64> {
        match args.args.get(i).map(|rc| rc.as_ref()) {
            Some(MemoryItem::UserVal(u)) => match &u.value {
                JValue::Num(JNumber::Int(n)) => Some(*n as f64),
                JValue::Num(JNumber::Real(x)) => Some(fb(*x)),
                _ => None,
            },
            _ => None,
        }
    }
}

impl Host for IeeeHost {
    // the ghost members of the trait are erased at run time and never
    // called; the bodies below only satisfy the type checker
    fn cmds(&self) -> vstd::seq::Seq<(Uuid, SourceRange, ModelingCommand)> {
        panic!("ghost function")
    }
    fn flush_log(&self) -> vstd::seq::Seq<SourceRange> {
        panic!("ghost function")
    }
    fn add_spec(_: Real, _: Real) -> Real {
        panic!("ghost function")
    }
    fn sub_spec(_: Real, _: Real) -> Real {
        panic!("ghost function")
    }
    fn mul_spec(_: Real, _: Real) -> Real {
        panic!("ghost function")
    }
    fn div_spec(_: Real, _: Real) -> Real {
        panic!("ghost function")
    }
    fn mod_spec(_: Real, _: Real) -> Real {
        panic!("ghost function")
    }
    fn pow_spec(_: Real, _: Real) -> Real {
        panic!("ghost function")
    }
    fn neg_spec(_: Real) -> Real {
        panic!("ghost function")
    }
    fn abs_spec(_: Real) -> Real {
        panic!("ghost function")
    }
    fn sqrt_spec(_: Real) -> Real {
        panic!("ghost function")
    }
    fn acos_deg_spec(_: Real) -> Real {
        panic!("ghost function")
    }
    fn asin_deg_spec(_: Real) -> Real {
        panic!("ghost function")
    }
    fn atan2_deg_spec(_: Real, _: Real) -> Real {
        panic!("ghost function")
    }
    fn gt_spec(_: Real, _: Real) -> bool {
        panic!("ghost function")
    }
    fn from_int_spec(_: i64) -> Real {
        panic!("ghost function")
    }
    fn real_text_spec(_: Real) -> vstd::seq::Seq<char> {
        panic!("ghost function")
    }
    fn real_add(&self, a: Real, b: Real) -> Real {
        rb(fb(a) + fb(b))
    }
    fn real_sub(&self, a: Real, b: Real) -> Real {
        rb(fb(a) - fb(b))
    }
    fn real_mul(&self, a: Real, b: Real) -> Real {
        rb(fb(a) * fb(b))
    }
    fn real_div(&self, a: Real, b: Real) -> Real {
        rb(fb(a) / fb(b))
    }
    fn real_mod(&self, a: Real, b: Real) -> Real {
        rb(fb(a) % fb(b))
    }
    fn real_pow(&self, a: Real, b: Real) -> Real {
        rb(fb(a).powf(fb(b)))
    }
    fn real_neg(&self, a: Real) -> Real {
        rb(-fb(a))
    }
    fn real_abs(&self, a: Real) -> Real {
        rb(fb(a).abs())
    }
    fn real_sqrt(&self, a: Real) -> Real {
        rb(fb(a).sqrt())
    }
    fn real_acos_deg(&self, a: Real) -> Real {
        rb(fb(a).acos().to_degrees())
    }
    fn real_asin_deg(&self, a: Real) -> Real {
        rb(fb(a).asin().to_degrees())
    }
    fn real_atan2_deg(&self, y: Real, x: Real) -> Real {
        rb(fb(y).atan2(fb(x)).to_degrees())
    }
    fn real_gt(&self, a: Real, b: Real) -> bool {
        fb(a) > fb(b)
    }
    fn real_from_int(&self, i: i64) -> Real {
        rb(i as f64)
    }
    fn real_to_text(&self, a: Real) -> String {
        format!("{}", fb(a))
    }
    fn send_modeling_cmd(
        &mut self,
        id: Uuid,
        range: SourceRange,
        cmd: ModelingCommand,
    ) -> Result<(), KclError> {
        self.commands.push((id, range, cmd));
        Ok(())
    }
    fn flush_batch(&mut self, _range: SourceRange) -> Result<(), KclError> {
        Ok(())
    }
    fn call_core(&mut self, name: &str, args: &Args) -> Result<Rc<MemoryItem>, KclError> {
        let result = match name {
            "min" => {
                let a = Self::arg_f64(args, 0).unwrap();
                let b = Self::arg_f64(args, 1).unwrap();
                a.min(b)
            }
            "legLen" => {
                let hyp = Self::arg_f64(args, 0).unwrap();
                let leg = Self::arg_f64(args, 1).unwrap();
                (hyp * hyp - leg * leg).sqrt()
            }
            "pi" => std::f64::consts::PI,
            "startSketchOn" => return host_start_sketch_on(args),
            "startProfileAt" => return host_start_profile_at(args),
            "line" => return host_line(args, LineMode::Relative),
            "lineTo" => return host_line(args, LineMode::Absolute),
            "xLine" => return host_axis_line(args, true),
            "yLineTo" => return host_axis_line_to(args, false),
            "angledLine" => return host_angled_line(args),
            "close" => return host_close(args),
            "extrude" => return host_extrude(args),
            _ => {
                return Err(KclError::Semantic(KclErrorDetails {
                    message: format!("no host builtin named {}", name),
                    source_ranges: vec![args.source_range],
                }))
            }
        };
        Ok(Rc::new(user_val_from_real(rb(result), args.source_range)))
    }
}

// ---------------------------------------------------------------------
// sketch builtins for the test host: geometry bookkeeping only
// ---------------------------------------------------------------------

enum LineMode {
    Relative,
    Absolute,
}

fn arg_point(args: &Args, i: usize) -> (f64, f64) {
    match args.args[i].as_ref() {
        MemoryItem::UserVal(u) => match &u.value {
            JValue::Array(items) => {
                let x = match &items[0] {
                    JValue::Num(JNumber::Int(n)) => *n as f64,
                    JValue::Num(JNumber::Real(r)) => fb(*r),
                    other => panic!("expected a number, got {:?}", other),
                };
                let y = match &items[1] {
                    JValue::Num(JNumber::Int(n)) => *n as f64,
                    JValue::Num(JNumber::Real(r)) => fb(*r),
                    other => panic!("expected a number, got {:?}", other),
                };
                (x, y)
            }
            other => panic!("expected an array, got {:?}", other),
        },
        other => panic!("expected a user value, got {:?}", other),
    }
}

fn arg_pair(args: &Args, i: usize) -> (f64, f64) {
    arg_point(args, i)
}

fn arg_sketch(args: &Args, i: usize) -> SketchGroup {
    match args.args[i].as_ref() {
        MemoryItem::SketchGroup(sg) => (**sg).clone(),
        other => panic!("expected a sketch group, got {:?}", other),
    }
}

fn arg_tag(args: &Args, i: usize) -> String {
    match args.args.get(i).map(|rc| rc.as_ref()) {
        Some(MemoryItem::UserVal(u)) => match &u.value {
            JValue::Str(s) => (**s).clone(),
            _ => String::new(),
        },
        _ => String::new(),
    }
}

fn current_point(sg: &SketchGroup) -> (f64, f64) {
    match sg.value.last() {
        Some(path) => {
            let to = path.get_base().to;
            (fb(to.x), fb(to.y))
        }
        None => (fb(sg.start.to.x), fb(sg.start.to.y)),
    }
}

fn sketch_result(sg: SketchGroup) -> Result<Rc<MemoryItem>, KclError> {
    Ok(Rc::new(MemoryItem::SketchGroup(Box::new(sg))))
}

fn host_start_sketch_on(args: &Args) -> Result<Rc<MemoryItem>, KclError> {
    let _plane = arg_tag(args, 0);
    Ok(Rc::new(MemoryItem::SketchGroup(Box::new(sample_sketch_group(vec![])))))
}

fn host_start_profile_at(args: &Args) -> Result<Rc<MemoryItem>, KclError> {
    let (x, y) = arg_point(args, 0);
    let mut sg = arg_sketch(args, 1);
    sg.start = base_path((x, y), (x, y), "");
    sketch_result(sg)
}

fn host_line(args: &Args, mode: LineMode) -> Result<Rc<MemoryItem>, KclError> {
    let (px, py) = arg_pair(args, 0);
    let mut sg = arg_sketch(args, 1);
    let tag = arg_tag(args, 2);
    let (cx, cy) = current_point(&sg);
    let to = match mode {
        LineMode::Relative => (cx + px, cy + py),
        LineMode::Absolute => (px, py),
    };
    sg.value.push(segment((cx, cy), to, &tag));
    sketch_result(sg)
}

fn host_axis_line(args: &Args, horizontal: bool) -> Result<Rc<MemoryItem>, KclError> {
    let delta = IeeeHost::arg_f64(args, 0).unwrap();
    let mut sg = arg_sketch(args, 1);
    let (cx, cy) = current_point(&sg);
    let to = if horizontal { (cx + delta, cy) } else { (cx, cy + delta) };
    sg.value.push(segment((cx, cy), to, ""));
    sketch_result(sg)
}

fn host_axis_line_to(args: &Args, horizontal: bool) -> Result<Rc<MemoryItem>, KclError> {
    let target = IeeeHost::arg_f64(args, 0).unwrap();
    let mut sg = arg_sketch(args, 1);
    let (cx, cy) = current_point(&sg);
    let to = if horizontal { (target, cy) } else { (cx, target) };
    sg.value.push(segment((cx, cy), to, ""));
    sketch_result(sg)
}

fn host_angled_line(args: &Args) -> Result<Rc<MemoryItem>, KclError> {
    let (angle_deg, length) = arg_pair(args, 0);
    let mut sg = arg_sketch(args, 1);
    let tag = arg_tag(args, 2);
    let (cx, cy) = current_point(&sg);
    let to = (
        cx + angle_deg.to_radians().cos() * length,
        cy + angle_deg.to_radians().sin() * length,
    );
    sg.value.push(segment((cx, cy), to, &tag));
    sketch_result(sg)
}

fn host_close(args: &Args) -> Result<Rc<MemoryItem>, KclError> {
    let mut sg = arg_sketch(args, 0);
    let (cx, cy) = current_point(&sg);
    let home = (fb(sg.start.from.x), fb(sg.start.from.y));
    sg.value.push(segment((cx, cy), home, ""));
    sketch_result(sg)
}

fn host_extrude(args: &Args) -> Result<Rc<MemoryItem>, KclError> {
    let height = IeeeHost::arg_f64(args, 0).unwrap();
    let sg = arg_sketch(args, 1);
    Ok(Rc::new(MemoryItem::ExtrudeGroup(Box::new(kcl_lib::values::ExtrudeGroup {
        id: sg.id,
        value: vec![],
        sketch_group_values: sg.value.clone(),
        height: rb(height),
        position: sg.position,
        rotation: sg.rotation,
        x_axis: sg.x_axis,
        y_axis: sg.y_axis,
        z_axis: sg.z_axis,
        start_cap_id: None,
        end_cap_id: None,
        meta: vec![],
    }))))
}

// ---------------------------------------------------------------------
// syntax-tree builders
// ---------------------------------------------------------------------

fn name_of(s: &str) -> Identifier {
    Identifier { start: 0, end: 0, name: s.to_owned() }
}

fn lit_int(n: i64) -> Expr {
    Expr::Literal(Box::new(Literal { start: 0, end: 0, value: JValue::Num(JNumber::Int(n)) }))
}

fn lit_real(x: f64) -> Expr {
    Expr::Literal(Box::new(Literal { start: 0, end: 0, value: JValue::Num(JNumber::Real(rb(x))) }))
}

fn lit_str(s: &str) -> Expr {
    Expr::Literal(Box::new(Literal {
        start: 0,
        end: 0,
        value: JValue::Str(Rc::new(s.to_owned())),
    }))
}

fn read_var(s: &str) -> Expr {
    Expr::Identifier(Box::new(name_of(s)))
}

fn binary(op: BinaryOperator, left: Expr, right: Expr) -> Expr {
    Expr::BinaryExpression(Box::new(BinaryExpression {
        start: 0,
        end: 0,
        operator: op,
        left,
        right,
    }))
}

fn negate(argument: Expr) -> Expr {
    Expr::UnaryExpression(Box::new(UnaryExpression {
        start: 0,
        end: 0,
        operator: UnaryOperator::Neg,
        argument,
    }))
}

fn call(name: &str, arguments: Vec<Expr>) -> Expr {
    Expr::CallExpression(Box::new(CallExpression {
        start: 0,
        end: 0,
        callee: name_of(name),
        arguments,
    }))
}

fn pipe(stages: Vec<Expr>) -> Expr {
    Expr::PipeExpression(Box::new(PipeExpression { start: 0, end: 0, body: stages }))
}

fn pipe_marker() -> Expr {
    Expr::PipeSubstitution(Box::new(PipeSubstitution { start: 0, end: 0 }))
}

fn declare(name: &str, init: Expr) -> BodyItem {
    BodyItem::VariableDeclaration(VariableDeclaration {
        start: 0,
        end: 0,
        declarations: vec![VariableDeclarator { id: name_of(name), init }],
        kind: VariableKind::Const,
    })
}

fn ret(argument: Expr) -> BodyItem {
    BodyItem::ReturnStatement(ReturnStatement { start: 0, end: 0, argument })
}

fn fn_expr(params: Vec<Parameter>, body: Vec<BodyItem>) -> Expr {
    Expr::FunctionExpression(Rc::new(FunctionExpression {
        start: 0,
        end: 0,
        params,
        body: Program { start: 0, end: 0, body },
    }))
}

fn req_param(s: &str) -> Parameter {
    Parameter { identifier: name_of(s), optional: false }
}

fn opt_param(s: &str) -> Parameter {
    Parameter { identifier: name_of(s), optional: true }
}

fn program(body: Vec<BodyItem>) -> Program {
    Program { start: 0, end: 0, body }
}

fn run_program(body: Vec<BodyItem>) -> Result<ProgramMemory, KclError> {
    let mut ctx = ExecutorContext {
        host: IeeeHost::new(),
        stdlib: StdLib::new(),
        settings: ExecutorSettings::default(),
        is_mock: false,
    };
    ctx.run(&program(body), None)
}

fn json_of(memory: &ProgramMemory, key: &str) -> JValue {
    memory
        .get(key, SourceRange([0, 0]))
        .unwrap()
        .get_json_value()
        .unwrap()
}

// ---------------------------------------------------------------------
// evaluator scenarios
// ---------------------------------------------------------------------

#[test]
fn test_execute_assign_two_variables() {
    // const myVar = 5
    // const newVar = myVar + 1
    let memory = run_program(vec![
        declare("myVar", lit_int(5)),
        declare("newVar", binary(BinaryOperator::Add, read_var("myVar"), lit_int(1))),
    ])
    .unwrap();
    assert_eq!(json_of(&memory, "myVar"), JValue::Num(JNumber::Int(5)));
    assert_eq!(json_of(&memory, "newVar"), JValue::Num(JNumber::Real(rb(6.0))));
}

#[test]
fn test_math_execute() {
    // const myVar = 1 + 2 * (3 - 4) / -5 + 6
    let inner = binary(
        BinaryOperator::Div,
        binary(
            BinaryOperator::Mul,
            lit_int(2),
            binary(BinaryOperator::Sub, lit_int(3), lit_int(4)),
        ),
        negate(lit_int(5)),
    );
    let expr = binary(
        BinaryOperator::Add,
        binary(BinaryOperator::Add, lit_int(1), inner),
        lit_int(6),
    );
    let memory = run_program(vec![declare("myVar", expr)]).unwrap();
    assert_eq!(json_of(&memory, "myVar"), JValue::Num(JNumber::Real(rb(7.4))));
}

#[test]
fn test_math_execute_start_negative() {
    // const myVar = -5 + 6
    let memory = run_program(vec![declare(
        "myVar",
        binary(BinaryOperator::Add, negate(lit_int(5)), lit_int(6)),
    )])
    .unwrap();
    assert_eq!(json_of(&memory, "myVar"), JValue::Num(JNumber::Real(rb(1.0))));
}

#[test]
fn test_math_execute_with_pi() {
    // const myVar = pi() * 2
    let memory = run_program(vec![declare(
        "myVar",
        binary(BinaryOperator::Mul, call("pi", vec![]), lit_int(2)),
    )])
    .unwrap();
    assert_eq!(
        json_of(&memory, "myVar"),
        JValue::Num(JNumber::Real(rb(std::f64::consts::TAU)))
    );
}

#[test]
fn test_math_define_decimal_without_leading_zero() {
    // let thing = .4 + 7
    let memory = run_program(vec![declare(
        "thing",
        binary(BinaryOperator::Add, lit_real(0.4), lit_int(7)),
    )])
    .unwrap();
    assert_eq!(json_of(&memory, "thing"), JValue::Num(JNumber::Real(rb(7.4))));
}

#[test]
fn test_math_execute_with_functions() {
    // const myVar = 2 + min(100, -1 + legLen(5, 3))
    let leg = call("legLen", vec![lit_int(5), lit_int(3)]);
    let min_call = call(
        "min",
        vec![lit_int(100), binary(BinaryOperator::Add, negate(lit_int(1)), leg)],
    );
    let memory =
        run_program(vec![declare("myVar", binary(BinaryOperator::Add, lit_int(2), min_call))])
            .unwrap();
    assert_eq!(json_of(&memory, "myVar"), JValue::Num(JNumber::Real(rb(5.0))));
}

#[test]
fn test_redefining_a_name_fails() {
    let result = run_program(vec![declare("myVar", lit_int(5)), declare("myVar", lit_int(6))]);
    match result {
        Err(KclError::ValueAlreadyDefined(d)) => {
            assert_eq!(d.message, "Cannot redefine myVar");
        }
        other => panic!("expected ValueAlreadyDefined, got {:?}", other),
    }
}

#[test]
fn test_reading_an_unbound_name_fails() {
    let result = run_program(vec![declare("a", read_var("b"))]);
    match result {
        Err(KclError::UndefinedValue(d)) => {
            assert_eq!(d.message, "memory item key `b` is not defined");
        }
        other => panic!("expected UndefinedValue, got {:?}", other),
    }
}

#[test]
fn test_empty_program_body() {
    let memory = run_program(vec![]).unwrap();
    assert_eq!(json_of(&memory, "ZERO"), JValue::Num(JNumber::Int(0)));
    assert_eq!(json_of(&memory, "QUARTER_TURN"), JValue::Num(JNumber::Int(90)));
    assert_eq!(json_of(&memory, "HALF_TURN"), JValue::Num(JNumber::Int(180)));
    assert_eq!(json_of(&memory, "THREE_QUARTER_TURN"), JValue::Num(JNumber::Int(270)));
}

#[test]
fn test_user_function_call() {
    // fn dbl = (x) => { return x + x }
    // const out = dbl(21)
    let body = vec![ret(binary(BinaryOperator::Add, read_var("x"), read_var("x")))];
    let memory = run_program(vec![
        declare("dbl", fn_expr(vec![req_param("x")], body)),
        declare("out", call("dbl", vec![lit_int(21)])),
    ])
    .unwrap();
    assert_eq!(json_of(&memory, "out"), JValue::Num(JNumber::Real(rb(42.0))));
}

#[test]
fn test_user_function_does_not_leak_bindings() {
    // fn f = (x) => { return x }; const out = f(1); reading x afterwards fails
    let memory = run_program(vec![
        declare("f", fn_expr(vec![req_param("x")], vec![ret(read_var("x"))])),
        declare("out", call("f", vec![lit_int(1)])),
    ])
    .unwrap();
    assert!(matches!(
        memory.get("x", SourceRange([0, 0])),
        Err(KclError::UndefinedValue(_))
    ));
    assert_eq!(json_of(&memory, "out"), JValue::Num(JNumber::Int(1)));
}

#[test]
fn test_pipeline_threads_previous_result() {
    // const r = 5 |> % |> %
    let memory = run_program(vec![declare(
        "r",
        pipe(vec![lit_int(5), pipe_marker(), pipe_marker()]),
    )])
    .unwrap();
    assert_eq!(json_of(&memory, "r"), JValue::Num(JNumber::Int(5)));
}

#[test]
fn test_pipeline_through_user_function() {
    // fn inc = (x) => { return x + 1 }; const r = 5 |> inc(%) |> inc(%)
    let inc_body = vec![ret(binary(BinaryOperator::Add, read_var("x"), lit_int(1)))];
    let memory = run_program(vec![
        declare("inc", fn_expr(vec![req_param("x")], inc_body)),
        declare(
            "r",
            pipe(vec![
                lit_int(5),
                call("inc", vec![pipe_marker()]),
                call("inc", vec![pipe_marker()]),
            ]),
        ),
    ])
    .unwrap();
    assert_eq!(json_of(&memory, "r"), JValue::Num(JNumber::Real(rb(7.0))));
}

#[test]
fn test_pipe_substitution_outside_pipeline_fails() {
    let result = run_program(vec![declare("r", pipe_marker())]);
    assert!(matches!(result, Err(KclError::Semantic(_))));
}

#[test]
fn test_return_of_function_expression_is_ignored() {
    // fn f = () => { return (fn) } leaves no return value, so calling f in
    // value position reports an undefined result
    let inner = fn_expr(vec![], vec![ret(lit_int(1))]);
    let f = fn_expr(vec![], vec![ret(inner)]);
    let result = run_program(vec![declare("f", f), declare("r", call("f", vec![]))]);
    match result {
        Err(KclError::Semantic(d)) => {
            assert_eq!(d.message, "Result of user-defined function f is undefined");
        }
        other => panic!("expected Semantic, got {:?}", other),
    }
}

#[test]
fn test_member_access_dot_and_bracket() {
    // const obj = {a: 1, b: 2}; const x = obj.a; const y = obj["b"]
    let obj = Expr::ObjectExpression(Box::new(ObjectExpression {
        start: 0,
        end: 0,
        properties: vec![
            ObjectProperty { start: 0, end: 0, key: name_of("a"), value: lit_int(1) },
            ObjectProperty { start: 0, end: 0, key: name_of("b"), value: lit_int(2) },
        ],
    }));
    let dot = Expr::MemberExpression(Box::new(MemberExpression {
        start: 0,
        end: 0,
        object: MemberObject::Identifier(Box::new(name_of("obj"))),
        property: LiteralIdentifier::Identifier(Box::new(name_of("a"))),
        computed: false,
    }));
    let bracket = Expr::MemberExpression(Box::new(MemberExpression {
        start: 0,
        end: 0,
        object: MemberObject::Identifier(Box::new(name_of("obj"))),
        property: LiteralIdentifier::Literal(Box::new(Literal {
            start: 0,
            end: 0,
            value: JValue::Str(Rc::new("b".to_owned())),
        })),
        computed: true,
    }));
    let memory = run_program(vec![
        declare("obj", obj),
        declare("x", dot),
        declare("y", bracket),
    ])
    .unwrap();
    assert_eq!(json_of(&memory, "x"), JValue::Num(JNumber::Int(1)));
    assert_eq!(json_of(&memory, "y"), JValue::Num(JNumber::Int(2)));
}

#[test]
fn test_array_index_access() {
    // const arr = [1, 2, 3]; const z = arr[2]
    let arr = Expr::ArrayExpression(Box::new(ArrayExpression {
        start: 0,
        end: 0,
        elements: vec![lit_int(1), lit_int(2), lit_int(3)],
    }));
    let index = Expr::MemberExpression(Box::new(MemberExpression {
        start: 0,
        end: 0,
        object: MemberObject::Identifier(Box::new(name_of("arr"))),
        property: LiteralIdentifier::Literal(Box::new(Literal {
            start: 0,
            end: 0,
            value: JValue::Num(JNumber::Int(2)),
        })),
        computed: true,
    }));
    let memory = run_program(vec![declare("arr", arr), declare("z", index)]).unwrap();
    assert_eq!(json_of(&memory, "z"), JValue::Num(JNumber::Int(3)));
}

#[test]
fn test_negative_identifier_in_binary_expression() {
    // const a = 5; const b = -a + 6
    let memory = run_program(vec![
        declare("a", lit_int(5)),
        declare("b", binary(BinaryOperator::Add, negate(read_var("a")), lit_int(6))),
    ])
    .unwrap();
    assert_eq!(json_of(&memory, "b"), JValue::Num(JNumber::Real(rb(1.0))));
}

#[test]
fn test_arithmetic_on_a_string_fails() {
    let result = run_program(vec![declare(
        "bad",
        binary(BinaryOperator::Add, lit_str("x"), lit_int(1)),
    )]);
    match result {
        Err(KclError::Type(d)) => assert_eq!(d.message, "Invalid number"),
        other => panic!("expected Type error, got {:?}", other),
    }
}

#[test]
fn test_scene_units_submitted_first() {
    let mut ctx = ExecutorContext {
        host: MockHost::new(),
        stdlib: StdLib::new(),
        settings: ExecutorSettings::default(),
        is_mock: true,
    };
    ctx.run(&program(vec![]), None).unwrap();
    assert_eq!(
        ctx.host.commands[0].2,
        ModelingCommand::SetSceneUnits { unit: UnitLength::Mm }
    );
    assert_eq!(ctx.host.flushes.len(), 1);
    assert_eq!(ctx.host.flushes[0], SourceRange([0, 0]));
}

#[test]
fn test_seeded_memory_is_preserved() {
    let mut seeded = ProgramMemory::new();
    seeded
        .add("seeded", MemoryItem::UserVal(UserVal {
            value: JValue::Num(JNumber::Int(11)),
            meta: vec![],
        }), SourceRange([0, 0]))
        .unwrap();
    let mut ctx = ExecutorContext {
        host: IeeeHost::new(),
        stdlib: StdLib::new(),
        settings: ExecutorSettings::default(),
        is_mock: false,
    };
    let memory = ctx
        .run(&program(vec![declare("fresh", read_var("seeded"))]), Some(seeded))
        .unwrap();
    assert_eq!(json_of(&memory, "seeded"), JValue::Num(JNumber::Int(11)));
    assert_eq!(json_of(&memory, "fresh"), JValue::Num(JNumber::Int(11)));
}

// ---------------------------------------------------------------------
// the argument binder, ported case by case
// ---------------------------------------------------------------------

#[test]
fn test_assign_args_to_params() {
    fn mem(number: i64) -> MemoryItem {
        MemoryItem::UserVal(UserVal { value: JValue::Num(JNumber::Int(number)), meta: vec![] })
    }
    fn additional_program_memory(items: &[(String, MemoryItem)]) -> ProgramMemory {
        let mut program_memory = ProgramMemory::new();
        for (name, item) in items {
            program_memory.root.push((name.clone(), Rc::new(item.clone())));
        }
        program_memory
    }
    let cases: Vec<(
        &str,
        Vec<Parameter>,
        Vec<MemoryItem>,
        Result<ProgramMemory, KclError>,
    )> = vec![
        ("empty", Vec::new(), Vec::new(), Ok(ProgramMemory::new())),
        (
            "all params required, and all given, should be OK",
            vec![req_param("x")],
            vec![mem(1)],
            Ok(additional_program_memory(&[("x".to_owned(), mem(1))])),
        ),
        (
            "all params required, none given, should error",
            vec![req_param("x")],
            vec![],
            Err(KclError::Semantic(KclErrorDetails {
                source_ranges: vec![SourceRange([0, 0])],
                message: "Expected 1 arguments, got 0".to_owned(),
            })),
        ),
        (
            "all params optional, none given, should be OK",
            vec![opt_param("x")],
            vec![],
            Ok(additional_program_memory(&[(
                "x".to_owned(),
                none_user_val(&KclNone::default()),
            )])),
        ),
        (
            "mixed params, too few given",
            vec![req_param("x"), opt_param("y")],
            vec![],
            Err(KclError::Semantic(KclErrorDetails {
                source_ranges: vec![SourceRange([0, 0])],
                message: "Expected 1-2 arguments, got 0".to_owned(),
            })),
        ),
        (
            "mixed params, minimum given, should be OK",
            vec![req_param("x"), opt_param("y")],
            vec![mem(1)],
            Ok(additional_program_memory(&[
                ("x".to_owned(), mem(1)),
                ("y".to_owned(), none_user_val(&KclNone::default())),
            ])),
        ),
        (
            "mixed params, maximum given, should be OK",
            vec![req_param("x"), opt_param("y")],
            vec![mem(1), mem(2)],
            Ok(additional_program_memory(&[
                ("x".to_owned(), mem(1)),
                ("y".to_owned(), mem(2)),
            ])),
        ),
        (
            "mixed params, too many given",
            vec![req_param("x"), opt_param("y")],
            vec![mem(1), mem(2), mem(3)],
            Err(KclError::Semantic(KclErrorDetails {
                source_ranges: vec![SourceRange([0, 0])],
                message: "Expected 1-2 arguments, got 3".to_owned(),
            })),
        ),
    ];
    for (test_name, params, args, expected) in cases {
        let func_expr = FunctionExpression {
            start: 0,
            end: 0,
            params,
            body: Program { start: 0, end: 0, body: Vec::new() },
        };
        let args: Vec<Rc<MemoryItem>> = args.into_iter().map(Rc::new).collect();
        let actual = assign_args_to_params(&func_expr, args, ProgramMemory::new());
        assert_eq!(
            actual, expected,
            "failed test '{test_name}':\ngot {actual:?}\nbut expected\n{expected:?}"
        );
    }
}

// ---------------------------------------------------------------------
// the JSON form
// ---------------------------------------------------------------------

#[test]
fn test_serialize_memory_item() {
    let mem = MemoryItem::ExtrudeGroups { value: Default::default() };
    let json = mem.get_json_value().unwrap();
    let host = MockHost::new();
    let text = json_to_string(&host, &json).unwrap();
    assert_eq!(text, r#"{"type":"ExtrudeGroups","value":[]}"#);
}

#[test]
fn test_user_val_json_is_verbatim() {
    let embedded = JValue::Array(Rc::new(vec![
        JValue::Num(JNumber::Int(1)),
        JValue::Str(Rc::new("two".to_owned())),
        JValue::Null,
    ]));
    let item = MemoryItem::UserVal(UserVal { value: embedded.clone(), meta: vec![] });
    assert_eq!(item.get_json_value().unwrap(), embedded);
}

#[test]
fn test_json_writer_escapes_strings() {
    let host = MockHost::new();
    let value = JValue::Object(Rc::new(vec![
        ("a".to_owned(), JValue::Str(Rc::new("x\"y\\z\n".to_owned()))),
        (
            "b".to_owned(),
            JValue::Array(Rc::new(vec![
                JValue::Num(JNumber::Int(-5)),
                JValue::Bool(true),
                JValue::Null,
            ])),
        ),
    ]));
    let text = json_to_string(&host, &value).unwrap();
    assert_eq!(text, "{\"a\":\"x\\\"y\\\\z\\n\",\"b\":[-5,true,null]}");
    // and it parses back as JSON
    let parsed: serde_json::Value = serde_json::from_str(&text).unwrap();
    assert_eq!(parsed["b"][0], serde_json::Value::from(-5));
}

#[test]
fn test_json_writer_renders_doubles_via_host() {
    let host = IeeeHost::new();
    let value = JValue::Num(JNumber::Real(rb(7.4)));
    let text = json_to_string(&host, &value).unwrap();
    assert_eq!(text, "7.4");
    let parsed: serde_json::Value = serde_json::from_str(&text).unwrap();
    assert_eq!(parsed.as_f64().unwrap(), 7.4);
}

#[test]
fn test_uuid_renders_hyphenated() {
    let id = Uuid { bits: 0x0123_4567_89ab_cdef_0123_4567_89ab_cdef };
    assert_eq!(uuid_to_string(&id), "01234567-89ab-cdef-0123-456789abcdef");
}

#[test]
fn test_plane_type_text_round_trip() {
    assert_eq!(PlaneType::from_text("XY"), Some(PlaneType::XY));
    assert_eq!(PlaneType::from_text("XZ"), Some(PlaneType::XZ));
    assert_eq!(PlaneType::from_text("YZ"), Some(PlaneType::YZ));
    assert_eq!(PlaneType::from_text("Custom"), Some(PlaneType::Custom));
    assert_eq!(PlaneType::from_text("diagonal"), None);
    assert_eq!(PlaneType::Custom.as_text(), "Custom");
}

#[test]
fn test_sketch_group_serializes_tagged() {
    let sg = sample_sketch_group(vec![segment((0.0, 0.0), (3.0, 4.0), "seg01")]);
    let item = MemoryItem::SketchGroup(Box::new(sg));
    let json = item.get_json_value().unwrap();
    let host = IeeeHost::new();
    let text = json_to_string(&host, &json).unwrap();
    let parsed: serde_json::Value = serde_json::from_str(&text).unwrap();
    assert_eq!(parsed["type"], serde_json::Value::from("SketchGroup"));
    assert_eq!(parsed["value"][0]["type"], serde_json::Value::from("ToPoint"));
    assert_eq!(parsed["value"][0]["name"], serde_json::Value::from("seg01"));
    assert_eq!(parsed["on"]["type"], serde_json::Value::from("plane"));
}

// ---------------------------------------------------------------------
// segment primitives
// ---------------------------------------------------------------------

fn zero_uuid() -> Uuid {
    Uuid { bits: 7 }
}

fn geo() -> GeoMeta {
    GeoMeta { id: zero_uuid(), metadata: Metadata { source_range: SourceRange([0, 0]) } }
}

fn base_path(from: (f64, f64), to: (f64, f64), name: &str) -> BasePath {
    BasePath {
        from: Point2d { x: rb(from.0), y: rb(from.1) },
        to: Point2d { x: rb(to.0), y: rb(to.1) },
        name: name.to_owned(),
        geo_meta: geo(),
    }
}

fn segment(from: (f64, f64), to: (f64, f64), name: &str) -> Path {
    Path::ToPoint { base: base_path(from, to, name) }
}

fn axis(x: f64, y: f64, z: f64) -> Point3d {
    Point3d { x: rb(x), y: rb(y), z: rb(z) }
}

fn sample_sketch_group(paths: Vec<Path>) -> SketchGroup {
    SketchGroup {
        id: zero_uuid(),
        value: paths,
        on: SketchSurface::Plane(Box::new(Plane {
            id: zero_uuid(),
            value: PlaneType::XY,
            origin: axis(0.0, 0.0, 0.0),
            x_axis: axis(1.0, 0.0, 0.0),
            y_axis: axis(0.0, 1.0, 0.0),
            z_axis: axis(0.0, 0.0, 1.0),
            meta: vec![],
        })),
        start: base_path((0.0, 0.0), (0.0, 0.0), "start"),
        position: Position { x: rb(0.0), y: rb(0.0), z: rb(0.0) },
        rotation: Rotation { x: rb(0.0), y: rb(0.0), z: rb(0.0), w: rb(1.0) },
        x_axis: axis(1.0, 0.0, 0.0),
        y_axis: axis(0.0, 1.0, 0.0),
        z_axis: axis(0.0, 0.0, 1.0),
        entity_id: None,
        meta: vec![],
    }
}

fn seg_args(items: Vec<MemoryItem>) -> Args {
    Args {
        args: items.into_iter().map(Rc::new).collect(),
        source_range: SourceRange([0, 0]),
    }
}

fn string_item(s: &str) -> MemoryItem {
    MemoryItem::UserVal(UserVal { value: JValue::Str(Rc::new(s.to_owned())), meta: vec![] })
}

fn number_item(x: f64) -> MemoryItem {
    MemoryItem::UserVal(UserVal { value: JValue::Num(JNumber::Real(rb(x))), meta: vec![] })
}

fn real_of(item: &MemoryItem) -> f64 {
    match item {
        MemoryItem::UserVal(u) => match &u.value {
            JValue::Num(JNumber::Real(x)) => fb(*x),
            other => panic!("expected a double, got {:?}", other),
        },
        other => panic!("expected a user value, got {:?}", other),
    }
}

#[test]
fn test_segment_end_coordinates() {
    let sg = sample_sketch_group(vec![segment((1.0, 2.0), (3.0, 5.0), "seg01")]);
    let args = seg_args(vec![string_item("seg01"), MemoryItem::SketchGroup(Box::new(sg))]);
    let x = kcl_lib::segment::segment_end_x(&args).unwrap();
    let y = kcl_lib::segment::segment_end_y(&args).unwrap();
    assert_eq!(real_of(&x), 3.0);
    assert_eq!(real_of(&y), 5.0);
}

#[test]
fn test_segment_end_resolves_start_name() {
    let sg = sample_sketch_group(vec![segment((1.0, 2.0), (3.0, 5.0), "seg01")]);
    let args = seg_args(vec![string_item("start"), MemoryItem::SketchGroup(Box::new(sg))]);
    let x = kcl_lib::segment::segment_end_x(&args).unwrap();
    assert_eq!(real_of(&x), 0.0);
}

#[test]
fn test_segment_end_missing_name() {
    let sg = sample_sketch_group(vec![segment((1.0, 2.0), (3.0, 5.0), "seg01")]);
    let args = seg_args(vec![string_item("nope"), MemoryItem::SketchGroup(Box::new(sg))]);
    match kcl_lib::segment::segment_end_x(&args) {
        Err(KclError::Type(d)) => assert_eq!(
            d.message,
            "Expected a segment name that exists in the given SketchGroup, found `nope`"
        ),
        other => panic!("expected Type error, got {:?}", other),
    }
}

#[test]
fn test_last_segment_of_single_segment_group() {
    let sg = sample_sketch_group(vec![segment((1.0, 2.0), (3.0, 5.0), "seg01")]);
    let args = seg_args(vec![MemoryItem::SketchGroup(Box::new(sg))]);
    let x = kcl_lib::segment::last_segment_x(&args).unwrap();
    let sg = sample_sketch_group(vec![segment((1.0, 2.0), (3.0, 5.0), "seg01")]);
    let args = seg_args(vec![MemoryItem::SketchGroup(Box::new(sg))]);
    let y = kcl_lib::segment::last_segment_y(&args).unwrap();
    assert_eq!(real_of(&x), 3.0);
    assert_eq!(real_of(&y), 5.0);
}

#[test]
fn test_last_segment_of_empty_group_fails() {
    let sg = sample_sketch_group(vec![]);
    let args = seg_args(vec![MemoryItem::SketchGroup(Box::new(sg))]);
    match kcl_lib::segment::last_segment_x(&args) {
        Err(KclError::Type(d)) => {
            assert_eq!(d.message, "Expected a SketchGroup with at least one segment")
        }
        other => panic!("expected Type error, got {:?}", other),
    }
}

#[test]
fn test_segment_length_three_four_five() {
    let host = IeeeHost::new();
    let sg = sample_sketch_group(vec![segment((0.0, 0.0), (3.0, 4.0), "seg01")]);
    let args = seg_args(vec![string_item("seg01"), MemoryItem::SketchGroup(Box::new(sg))]);
    let len = kcl_lib::segment::segment_length(&host, &args).unwrap();
    assert_eq!(real_of(&len), 5.0);
}

#[test]
fn test_segment_angle_forty_five_degrees() {
    let host = IeeeHost::new();
    let sg = sample_sketch_group(vec![segment((0.0, 0.0), (1.0, 1.0), "seg01")]);
    let args = seg_args(vec![string_item("seg01"), MemoryItem::SketchGroup(Box::new(sg))]);
    let ang = kcl_lib::segment::segment_angle(&host, &args).unwrap();
    assert_eq!(real_of(&ang), 45.0);
}

#[test]
fn test_angle_to_match_length_x_distance_exceeds_length() {
    // d = |100 - 3| far exceeds the segment length 5, so the angle is 0
    let host = IeeeHost::new();
    let sg = sample_sketch_group(vec![segment((0.0, 0.0), (3.0, 4.0), "seg01")]);
    let args = seg_args(vec![
        string_item("seg01"),
        number_item(100.0),
        MemoryItem::SketchGroup(Box::new(sg)),
    ]);
    let ang = kcl_lib::segment::angle_to_match_length_x(&host, &args).unwrap();
    assert_eq!(real_of(&ang), 0.0);
}

#[test]
fn test_angle_to_match_length_x_zero_distance() {
    // the target equals the last end X, so acos(0 / 5) is 90 degrees
    let host = IeeeHost::new();
    let sg = sample_sketch_group(vec![segment((0.0, 0.0), (3.0, 4.0), "seg01")]);
    let args = seg_args(vec![
        string_item("seg01"),
        number_item(3.0),
        MemoryItem::SketchGroup(Box::new(sg)),
    ]);
    let ang = kcl_lib::segment::angle_to_match_length_x(&host, &args).unwrap();
    assert_eq!(real_of(&ang), 90.0);
}

#[test]
fn test_angle_to_match_length_y_zero_distance() {
    // the target equals the last end Y, so asin(0 / 5) is 0 degrees
    let host = IeeeHost::new();
    let sg = sample_sketch_group(vec![segment((0.0, 0.0), (3.0, 4.0), "seg01")]);
    let args = seg_args(vec![
        string_item("seg01"),
        number_item(4.0),
        MemoryItem::SketchGroup(Box::new(sg)),
    ]);
    let ang = kcl_lib::segment::angle_to_match_length_y(&host, &args).unwrap();
    assert_eq!(real_of(&ang), 0.0);
}

// ---------------------------------------------------------------------
// registry, memory, ranges
// ---------------------------------------------------------------------

#[test]
fn test_stdlib_classification() {
    let stdlib = StdLib::new();
    assert!(matches!(
        stdlib.get_either("segLen"),
        FunctionKind::Core(CoreFn::Segment(SegmentFn::SegLen))
    ));
    assert!(matches!(stdlib.get_either("min"), FunctionKind::Core(CoreFn::Hosted)));
    assert!(matches!(stdlib.get_either("startSketchOn"), FunctionKind::Core(CoreFn::Hosted)));
    assert!(matches!(stdlib.get_either("frobnicate"), FunctionKind::UserDefined));
}

#[test]
fn test_library_function_dispatch() {
    // a library function whose body is written in the language: it returns 3
    let mut stdlib = StdLib::new();
    stdlib.lib_fns.push((
        "three".to_owned(),
        Rc::new(Program { start: 0, end: 0, body: vec![ret(lit_int(3))] }),
    ));
    let mut ctx = ExecutorContext {
        host: IeeeHost::new(),
        stdlib,
        settings: ExecutorSettings::default(),
        is_mock: false,
    };
    let memory = ctx
        .run(&program(vec![declare("r", call("three", vec![]))]), None)
        .unwrap();
    assert_eq!(json_of(&memory, "r"), JValue::Num(JNumber::Int(3)));
}

#[test]
fn test_memory_read_back_is_stable() {
    let mut memory = ProgramMemory::new();
    let item = MemoryItem::UserVal(UserVal {
        value: JValue::Str(Rc::new("payload".to_owned())),
        meta: vec![],
    });
    memory.add("k", item.clone(), SourceRange([3, 9])).unwrap();
    let first = memory.get("k", SourceRange([0, 0])).unwrap().clone();
    let second = memory.get("k", SourceRange([0, 0])).unwrap().clone();
    assert_eq!(first, item);
    assert_eq!(second, item);
}

#[test]
fn test_source_range_accessors() {
    let range = SourceRange::new(4, 10);
    assert_eq!(range.start(), 4);
    assert_eq!(range.end(), 10);
    assert!(range.contains(4));
    assert!(range.contains(7));
    assert!(range.contains(10));
    assert!(!range.contains(11));
    assert!(!range.contains(3));
}

#[test]
fn test_update_units() {
    let mut ctx = ExecutorContext {
        host: MockHost::new(),
        stdlib: StdLib::new(),
        settings: ExecutorSettings::default(),
        is_mock: true,
    };
    ctx.update_units(UnitLength::In);
    assert_eq!(ctx.settings.units, UnitLength::In);
    ctx.run(&program(vec![]), None).unwrap();
    assert_eq!(
        ctx.host.commands[0].2,
        ModelingCommand::SetSceneUnits { unit: UnitLength::In }
    );
}

#[test]
fn test_executor_context_run_declares_function_value() {
    // a bound function value carries its expression and can be read back
    let memory = run_program(vec![declare("f", fn_expr(vec![], vec![ret(lit_int(1))]))]).unwrap();
    let item = memory.get("f", SourceRange([0, 0])).unwrap();
    assert!(matches!(item, MemoryItem::Function { .. }));
}

#[test]
fn test_body_type_values_exist() {
    // the three body kinds are distinct
    assert_ne!(BodyType::Root, BodyType::Sketch);
    assert_ne!(BodyType::Sketch, BodyType::Block);
}

#[test]
fn test_get_json_opt_maps_none_sentinel_to_absence() {
    let sentinel = none_user_val(&KclNone::default());
    assert_eq!(sentinel.get_json_opt().unwrap(), None);
    let plain = MemoryItem::UserVal(UserVal { value: JValue::Num(JNumber::Int(3)), meta: vec![] });
    assert_eq!(plain.get_json_opt().unwrap(), Some(JValue::Num(JNumber::Int(3))));
}

#[test]
fn test_point2d_scale() {
    let host = IeeeHost::new();
    let p = Point2d { x: rb(1.5), y: rb(-2.0) };
    let scaled = p.scale(rb(2.0), &host);
    assert_eq!(fb(scaled.x), 3.0);
    assert_eq!(fb(scaled.y), -4.0);
}

#[test]
fn test_executor_context_new_sets_edge_visibility() {
    let ctx = ExecutorContext::new(MockHost::new(), ExecutorSettings::default()).unwrap();
    assert_eq!(
        ctx.host.commands[0].2,
        ModelingCommand::EdgeLinesVisible { hidden: false }
    );
}

#[test]
fn test_return_slot_helpers() {
    let mut memory = ProgramMemory::new();
    assert_eq!(memory.return_, None);
    memory.set_arguments_sentinel();
    assert!(memory.return_.is_some());
    let value = Rc::new(MemoryItem::UserVal(UserVal {
        value: JValue::Num(JNumber::Int(8)),
        meta: vec![],
    }));
    memory.set_return(value.clone());
    let got = memory.return_.clone().unwrap().get_value().unwrap();
    assert_eq!(got, value);
}

#[test]
fn test_calling_an_unknown_name_fails() {
    let result = run_program(vec![declare("r", call("mystery", vec![lit_int(1)]))]);
    match result {
        Err(KclError::Semantic(d)) => assert_eq!(d.message, "No such name mystery defined"),
        other => panic!("expected Semantic, got {:?}", other),
    }
}

#[test]
fn test_calling_a_non_function_value_fails() {
    let result = run_program(vec![
        declare("a", lit_int(5)),
        declare("r", call("a", vec![lit_int(1)])),
    ]);
    match result {
        Err(KclError::Semantic(d)) => assert_eq!(d.message, "not a in memory function"),
        other => panic!("expected Semantic, got {:?}", other),
    }
}

#[test]
fn test_member_access_of_missing_property_fails() {
    let obj = Expr::ObjectExpression(Box::new(ObjectExpression {
        start: 0,
        end: 0,
        properties: vec![ObjectProperty {
            start: 0,
            end: 0,
            key: name_of("a"),
            value: lit_int(1),
        }],
    }));
    let dot = Expr::MemberExpression(Box::new(MemberExpression {
        start: 0,
        end: 0,
        object: MemberObject::Identifier(Box::new(name_of("obj"))),
        property: LiteralIdentifier::Identifier(Box::new(name_of("missing"))),
        computed: false,
    }));
    let result = run_program(vec![declare("obj", obj), declare("x", dot)]);
    assert!(matches!(result, Err(KclError::Semantic(_))));
}

// ---------------------------------------------------------------------
// the original evaluator suite: sketch pipelines and function calls
// ---------------------------------------------------------------------

fn arr(elements: Vec<Expr>) -> Expr {
    Expr::ArrayExpression(Box::new(ArrayExpression { start: 0, end: 0, elements }))
}

fn obj_lit(pairs: Vec<(&str, Expr)>) -> Expr {
    Expr::ObjectExpression(Box::new(ObjectExpression {
        start: 0,
        end: 0,
        properties: pairs
            .into_iter()
            .map(|(k, value)| ObjectProperty { start: 0, end: 0, key: name_of(k), value })
            .collect(),
    }))
}

fn dot(object: &str, key: &str) -> Expr {
    Expr::MemberExpression(Box::new(MemberExpression {
        start: 0,
        end: 0,
        object: MemberObject::Identifier(Box::new(name_of(object))),
        property: LiteralIdentifier::Identifier(Box::new(name_of(key))),
        computed: false,
    }))
}

fn idx_str(object: &str, key: &str) -> Expr {
    Expr::MemberExpression(Box::new(MemberExpression {
        start: 0,
        end: 0,
        object: MemberObject::Identifier(Box::new(name_of(object))),
        property: LiteralIdentifier::Literal(Box::new(Literal {
            start: 0,
            end: 0,
            value: JValue::Str(Rc::new(key.to_owned())),
        })),
        computed: true,
    }))
}

fn idx_int(object: &str, i: i64) -> Expr {
    Expr::MemberExpression(Box::new(MemberExpression {
        start: 0,
        end: 0,
        object: MemberObject::Identifier(Box::new(name_of(object))),
        property: LiteralIdentifier::Literal(Box::new(Literal {
            start: 0,
            end: 0,
            value: JValue::Num(JNumber::Int(i)),
        })),
        computed: true,
    }))
}

fn identity_fn(param: &str) -> Expr {
    fn_expr(vec![req_param(param)], vec![ret(read_var(param))])
}

#[test]
fn test_execute_fn_definitions() {
    // four identity functions, constants, and a sketch pipeline calling them
    let pipeline = pipe(vec![
        call("startSketchOn", vec![lit_str("XY")]),
        call("startProfileAt", vec![arr(vec![lit_real(-1.2), lit_real(4.83)]), pipe_marker()]),
        call("line", vec![arr(vec![lit_real(2.8), lit_int(0)]), pipe_marker()]),
        call(
            "angledLine",
            vec![
                arr(vec![
                    binary(BinaryOperator::Add, lit_int(100), lit_int(100)),
                    lit_real(3.01),
                ]),
                pipe_marker(),
            ],
        ),
        call("angledLine", vec![arr(vec![read_var("abc"), lit_real(3.02)]), pipe_marker()]),
        call(
            "angledLine",
            vec![arr(vec![call("def", vec![read_var("yo")]), lit_real(3.03)]), pipe_marker()],
        ),
        call(
            "angledLine",
            vec![arr(vec![call("ghi", vec![lit_int(2)]), lit_real(3.04)]), pipe_marker()],
        ),
        call(
            "angledLine",
            vec![
                arr(vec![
                    binary(BinaryOperator::Add, call("jkl", vec![read_var("yo")]), lit_int(2)),
                    lit_real(3.05),
                ]),
                pipe_marker(),
            ],
        ),
        call("close", vec![pipe_marker()]),
    ]);
    run_program(vec![
        declare("def", identity_fn("x")),
        declare("ghi", identity_fn("x")),
        declare("jkl", identity_fn("x")),
        declare("hmm", identity_fn("x")),
        declare("yo", binary(BinaryOperator::Add, lit_int(5), lit_int(6))),
        declare("abc", lit_int(3)),
        declare("identifierGuy", lit_int(5)),
        declare("part001", pipeline),
        declare(
            "yo2",
            call(
                "hmm",
                vec![arr(vec![binary(
                    BinaryOperator::Add,
                    read_var("identifierGuy"),
                    lit_int(5),
                )])],
            ),
        ),
    ])
    .unwrap();
}

fn pipe_substitution_sketch(second_leg_negated: bool) -> Vec<BodyItem> {
    // const myVar = 3
    // part001 = startSketchOn('XY') |> startProfileAt([0,0], %)
    //   |> line([3,4], %, 'seg01')
    //   |> line([min(segLen('seg01', %), myVar), ±legLen(segLen('seg01', %), myVar)], %)
    let seg_len = || call("segLen", vec![lit_str("seg01"), pipe_marker()]);
    let leg = call("legLen", vec![seg_len(), read_var("myVar")]);
    let second = if second_leg_negated { negate(leg) } else { leg };
    vec![
        declare("myVar", lit_int(3)),
        declare(
            "part001",
            pipe(vec![
                call("startSketchOn", vec![lit_str("XY")]),
                call("startProfileAt", vec![arr(vec![lit_int(0), lit_int(0)]), pipe_marker()]),
                call(
                    "line",
                    vec![arr(vec![lit_int(3), lit_int(4)]), pipe_marker(), lit_str("seg01")],
                ),
                call(
                    "line",
                    vec![
                        arr(vec![
                            call("min", vec![seg_len(), read_var("myVar")]),
                            second,
                        ]),
                        pipe_marker(),
                    ],
                ),
            ]),
        ),
    ]
}

#[test]
fn test_execute_with_pipe_substitutions_unary() {
    run_program(pipe_substitution_sketch(true)).unwrap();
}

#[test]
fn test_execute_with_pipe_substitutions() {
    run_program(pipe_substitution_sketch(false)).unwrap();
}

#[test]
fn test_execute_with_inline_comment() {
    run_program(vec![
        declare("baseThick", lit_int(1)),
        declare("armAngle", lit_int(60)),
        declare(
            "baseThickHalf",
            binary(BinaryOperator::Div, read_var("baseThick"), lit_int(2)),
        ),
        declare("halfArmAngle", binary(BinaryOperator::Div, read_var("armAngle"), lit_int(2))),
        declare(
            "arrExpShouldNotBeIncluded",
            arr(vec![lit_int(1), lit_int(2), lit_int(3)]),
        ),
        declare(
            "objExpShouldNotBeIncluded",
            obj_lit(vec![("a", lit_int(1)), ("b", lit_int(2)), ("c", lit_int(3))]),
        ),
        declare(
            "part001",
            pipe(vec![
                call("startSketchOn", vec![lit_str("XY")]),
                call("startProfileAt", vec![arr(vec![lit_int(0), lit_int(0)]), pipe_marker()]),
                call("yLineTo", vec![lit_int(1), pipe_marker()]),
                call("xLine", vec![lit_real(3.84), pipe_marker()]),
            ]),
        ),
        declare("variableBelowShouldNotBeIncluded", lit_int(3)),
    ])
    .unwrap();
}

fn extrude_box_pipeline(third_leg: Expr) -> Expr {
    pipe(vec![
        call("startSketchOn", vec![lit_str("XY")]),
        call("startProfileAt", vec![arr(vec![lit_int(0), lit_int(0)]), pipe_marker()]),
        call("line", vec![arr(vec![lit_int(0), read_var("l")]), pipe_marker()]),
        call("line", vec![arr(vec![read_var("w"), lit_int(0)]), pipe_marker()]),
        call("line", vec![third_leg, pipe_marker()]),
        call("close", vec![pipe_marker()]),
        call("extrude", vec![read_var("h"), pipe_marker()]),
    ])
}

#[test]
fn test_execute_with_function_literal_in_pipe() {
    // fn thing = () => { return -8 }
    let thing = fn_expr(vec![], vec![ret(negate(lit_int(8)))]);
    run_program(vec![
        declare("w", lit_int(20)),
        declare("l", lit_int(8)),
        declare("h", lit_int(10)),
        declare("thing", thing),
        declare(
            "firstExtrude",
            extrude_box_pipeline(arr(vec![lit_int(0), call("thing", vec![])])),
        ),
    ])
    .unwrap();
}

#[test]
fn test_execute_with_function_unary_in_pipe() {
    // fn thing = (x) => { return -x }
    let thing = fn_expr(vec![req_param("x")], vec![ret(negate(read_var("x")))]);
    run_program(vec![
        declare("w", lit_int(20)),
        declare("l", lit_int(8)),
        declare("h", lit_int(10)),
        declare("thing", thing),
        declare(
            "firstExtrude",
            extrude_box_pipeline(arr(vec![lit_int(0), call("thing", vec![lit_int(8)])])),
        ),
    ])
    .unwrap();
}

#[test]
fn test_execute_with_function_array_in_pipe() {
    // fn thing = (x) => { return [0, -x] }
    let thing = fn_expr(
        vec![req_param("x")],
        vec![ret(arr(vec![lit_int(0), negate(read_var("x"))]))],
    );
    run_program(vec![
        declare("w", lit_int(20)),
        declare("l", lit_int(8)),
        declare("h", lit_int(10)),
        declare("thing", thing),
        declare(
            "firstExtrude",
            extrude_box_pipeline(call("thing", vec![lit_int(8)])),
        ),
    ])
    .unwrap();
}

#[test]
fn test_execute_with_function_call_in_pipe() {
    // fn other_thing = (y) => { return -y }; fn thing = (x) => { return other_thing(x) }
    let other_thing = fn_expr(vec![req_param("y")], vec![ret(negate(read_var("y")))]);
    let thing = fn_expr(
        vec![req_param("x")],
        vec![ret(call("other_thing", vec![read_var("x")]))],
    );
    run_program(vec![
        declare("w", lit_int(20)),
        declare("l", lit_int(8)),
        declare("h", lit_int(10)),
        declare("other_thing", other_thing),
        declare("thing", thing),
        declare(
            "firstExtrude",
            extrude_box_pipeline(arr(vec![lit_int(0), call("thing", vec![lit_int(8)])])),
        ),
    ])
    .unwrap();
}

#[test]
fn test_execute_with_function_sketch() {
    // fn box = (h, l, w) => { … sketch, close, extrude … return myBox }
    let body = vec![
        declare(
            "myBox",
            pipe(vec![
                call("startSketchOn", vec![lit_str("XY")]),
                call("startProfileAt", vec![arr(vec![lit_int(0), lit_int(0)]), pipe_marker()]),
                call("line", vec![arr(vec![lit_int(0), read_var("l")]), pipe_marker()]),
                call("line", vec![arr(vec![read_var("w"), lit_int(0)]), pipe_marker()]),
                call(
                    "line",
                    vec![arr(vec![lit_int(0), negate(read_var("l"))]), pipe_marker()],
                ),
                call("close", vec![pipe_marker()]),
                call("extrude", vec![read_var("h"), pipe_marker()]),
            ]),
        ),
        ret(read_var("myBox")),
    ];
    let box_fn = fn_expr(vec![req_param("h"), req_param("l"), req_param("w")], body);
    let memory = run_program(vec![
        declare("box", box_fn),
        declare("fnBox", call("box", vec![lit_int(3), lit_int(6), lit_int(10)])),
    ])
    .unwrap();
    assert!(matches!(
        memory.get("fnBox", SourceRange([0, 0])).unwrap(),
        MemoryItem::ExtrudeGroup(_)
    ));
}

fn member_box_body(l: Expr, w: Expr, neg_l: Expr, h: Expr, start: Expr) -> Vec<BodyItem> {
    vec![
        declare(
            "myBox",
            pipe(vec![
                call("startSketchOn", vec![lit_str("XY")]),
                call("startProfileAt", vec![start, pipe_marker()]),
                call("line", vec![arr(vec![lit_int(0), l]), pipe_marker()]),
                call("line", vec![arr(vec![w, lit_int(0)]), pipe_marker()]),
                call("line", vec![arr(vec![lit_int(0), neg_l]), pipe_marker()]),
                call("close", vec![pipe_marker()]),
                call("extrude", vec![h, pipe_marker()]),
            ]),
        ),
        ret(read_var("myBox")),
    ]
}

fn box_arg_object() -> Expr {
    obj_lit(vec![
        ("start", arr(vec![lit_int(0), lit_int(0)])),
        ("l", lit_int(6)),
        ("w", lit_int(10)),
        ("h", lit_int(3)),
    ])
}

#[test]
fn test_get_member_of_object_with_function_period() {
    let body = member_box_body(
        dot("obj", "l"),
        dot("obj", "w"),
        negate(dot("obj", "l")),
        dot("obj", "h"),
        dot("obj", "start"),
    );
    run_program(vec![
        declare("box", fn_expr(vec![req_param("obj")], body)),
        declare("thisBox", call("box", vec![box_arg_object()])),
    ])
    .unwrap();
}

#[test]
fn test_get_member_of_object_with_function_brace() {
    let body = member_box_body(
        idx_str("obj", "l"),
        idx_str("obj", "w"),
        negate(idx_str("obj", "l")),
        idx_str("obj", "h"),
        idx_str("obj", "start"),
    );
    run_program(vec![
        declare("box", fn_expr(vec![req_param("obj")], body)),
        declare("thisBox", call("box", vec![box_arg_object()])),
    ])
    .unwrap();
}

#[test]
fn test_get_member_of_object_with_function_mix_period_brace() {
    let body = member_box_body(
        idx_str("obj", "l"),
        idx_str("obj", "w"),
        binary(
            BinaryOperator::Sub,
            lit_int(10),
            binary(BinaryOperator::Add, idx_str("obj", "w"), negate(dot("obj", "l"))),
        ),
        idx_str("obj", "h"),
        idx_str("obj", "start"),
    );
    run_program(vec![
        declare("box", fn_expr(vec![req_param("obj")], body)),
        declare("thisBox", call("box", vec![box_arg_object()])),
    ])
    .unwrap();
}

#[test]
fn test_get_member_of_array_with_function() {
    let body = member_box_body(
        idx_int("array", 1),
        idx_int("array", 2),
        negate(idx_int("array", 1)),
        idx_int("array", 3),
        idx_int("array", 0),
    );
    run_program(vec![
        declare("box", fn_expr(vec![req_param("array")], body)),
        declare(
            "thisBox",
            call(
                "box",
                vec![arr(vec![
                    arr(vec![lit_int(0), lit_int(0)]),
                    lit_int(6),
                    lit_int(10),
                    lit_int(3),
                ])],
            ),
        ),
    ])
    .unwrap();
}

#[test]
fn test_zero_param_fn() {
    // fn thickness = () => { return 0.56 }
    let thickness = fn_expr(vec![], vec![ret(lit_real(0.56))]);
    run_program(vec![
        declare("sigmaAllow", lit_int(35000)),
        declare("leg1", lit_int(5)),
        declare("leg2", lit_int(8)),
        declare("thickness", thickness),
        declare(
            "bracket",
            pipe(vec![
                call("startSketchOn", vec![lit_str("XY")]),
                call("startProfileAt", vec![arr(vec![lit_int(0), lit_int(0)]), pipe_marker()]),
                call("line", vec![arr(vec![lit_int(0), read_var("leg1")]), pipe_marker()]),
                call("line", vec![arr(vec![read_var("leg2"), lit_int(0)]), pipe_marker()]),
                call(
                    "line",
                    vec![
                        arr(vec![lit_int(0), negate(call("thickness", vec![]))]),
                        pipe_marker(),
                    ],
                ),
                call(
                    "line",
                    vec![
                        arr(vec![
                            binary(
                                BinaryOperator::Add,
                                negate(read_var("leg2")),
                                call("thickness", vec![]),
                            ),
                            lit_int(0),
                        ]),
                        pipe_marker(),
                    ],
                ),
            ]),
        ),
    ])
    .unwrap();
}

#[test]
fn test_math_negative_variable_in_binary_expression() {
    run_program(vec![
        declare("sigmaAllow", lit_int(35000)),
        declare("width", lit_int(1)),
        declare("p", lit_int(150)),
        declare("distance", lit_int(6)),
        declare("FOS", lit_int(2)),
        declare("leg1", lit_int(5)),
        declare("leg2", lit_int(8)),
        declare(
            "thickness_squared",
            binary(
                BinaryOperator::Div,
                binary(
                    BinaryOperator::Mul,
                    binary(
                        BinaryOperator::Mul,
                        binary(BinaryOperator::Mul, read_var("distance"), read_var("p")),
                        read_var("FOS"),
                    ),
                    lit_int(6),
                ),
                read_var("sigmaAllow"),
            ),
        ),
        declare("thickness", lit_real(0.56)),
        declare(
            "bracket",
            pipe(vec![
                call("startSketchOn", vec![lit_str("XY")]),
                call("startProfileAt", vec![arr(vec![lit_int(0), lit_int(0)]), pipe_marker()]),
                call("line", vec![arr(vec![lit_int(0), read_var("leg1")]), pipe_marker()]),
                call("line", vec![arr(vec![read_var("leg2"), lit_int(0)]), pipe_marker()]),
                call(
                    "line",
                    vec![
                        arr(vec![lit_int(0), negate(read_var("thickness"))]),
                        pipe_marker(),
                    ],
                ),
                call(
                    "line",
                    vec![
                        arr(vec![
                            binary(
                                BinaryOperator::Add,
                                negate(read_var("leg2")),
                                read_var("thickness"),
                            ),
                            lit_int(0),
                        ]),
                        pipe_marker(),
                    ],
                ),
            ]),
        ),
    ])
    .unwrap();
}

fn nested_parens_program() -> Vec<BodyItem> {
    // thickness_squared = distance * p * FOS * 6 / (sigmaAllow - width);
    // an extra pair of parentheses around the quotient changes no tree shape,
    // so both parenthesization tests share this program
    let quotient = binary(
        BinaryOperator::Div,
        binary(
            BinaryOperator::Mul,
            binary(
                BinaryOperator::Mul,
                binary(BinaryOperator::Mul, read_var("distance"), read_var("p")),
                read_var("FOS"),
            ),
            lit_int(6),
        ),
        binary(BinaryOperator::Sub, read_var("sigmaAllow"), read_var("width")),
    );
    vec![
        declare("sigmaAllow", lit_int(35000)),
        declare("width", lit_int(4)),
        declare("p", lit_int(150)),
        declare("distance", lit_int(6)),
        declare("FOS", lit_int(2)),
        declare("leg1", lit_int(5)),
        declare("leg2", lit_int(8)),
        declare("thickness_squared", quotient),
        declare("thickness", lit_real(0.32)),
        declare(
            "bracket",
            pipe(vec![
                call("startSketchOn", vec![lit_str("XY")]),
                call("startProfileAt", vec![arr(vec![lit_int(0), lit_int(0)]), pipe_marker()]),
                call("line", vec![arr(vec![lit_int(0), read_var("leg1")]), pipe_marker()]),
                call("line", vec![arr(vec![read_var("leg2"), lit_int(0)]), pipe_marker()]),
                call(
                    "line",
                    vec![
                        arr(vec![lit_int(0), negate(read_var("thickness"))]),
                        pipe_marker(),
                    ],
                ),
                call(
                    "line",
                    vec![
                        arr(vec![
                            binary(
                                BinaryOperator::Add,
                                binary(
                                    BinaryOperator::Mul,
                                    negate(lit_int(1)),
                                    read_var("leg2"),
                                ),
                                read_var("thickness"),
                            ),
                            lit_int(0),
                        ]),
                        pipe_marker(),
                    ],
                ),
                call(
                    "line",
                    vec![
                        arr(vec![
                            lit_int(0),
                            binary(
                                BinaryOperator::Add,
                                binary(
                                    BinaryOperator::Mul,
                                    negate(lit_int(1)),
                                    read_var("leg1"),
                                ),
                                read_var("thickness"),
                            ),
                        ]),
                        pipe_marker(),
                    ],
                ),
                call("close", vec![pipe_marker()]),
                call("extrude", vec![read_var("width"), pipe_marker()]),
            ]),
        ),
    ]
}

#[test]
fn test_math_doubly_nested_parens() {
    let memory = run_program(nested_parens_program()).unwrap();
    assert_eq!(
        json_of(&memory, "thickness_squared"),
        JValue::Num(JNumber::Real(rb(6.0 * 150.0 * 2.0 * 6.0 / (35000.0 - 4.0))))
    );
}

#[test]
fn test_math_nested_parens_one_less() {
    let memory = run_program(nested_parens_program()).unwrap();
    assert_eq!(
        json_of(&memory, "thickness_squared"),
        JValue::Num(JNumber::Real(rb(6.0 * 150.0 * 2.0 * 6.0 / (35000.0 - 4.0))))
    );
}

#[test]
fn test_statement_level_call_skips_marker_and_member_arguments() {
    // at statement level the substitution marker is silently skipped, so a
    // one-required-parameter function sees zero arguments
    let f = fn_expr(vec![req_param("x")], vec![ret(read_var("x"))]);
    let statement = BodyItem::ExpressionStatement(kcl_lib::ast::ExpressionStatement {
        start: 0,
        end: 0,
        expression: call("f", vec![pipe_marker()]),
    });
    let result = run_program(vec![declare("f", f), statement]);
    match result {
        Err(KclError::Semantic(d)) => assert_eq!(d.message, "Expected 1 arguments, got 0"),
        other => panic!("expected the arity error, got {:?}", other),
    }
}

#[test]
fn test_parameter_shadowing_a_constant_is_rejected() {
    // binding a parameter named like a pre-bound constant is a redefinition
    let f = fn_expr(vec![req_param("ZERO")], vec![ret(lit_int(1))]);
    let result = run_program(vec![
        declare("f", f),
        declare("r", call("f", vec![lit_int(2)])),
    ]);
    match result {
        Err(KclError::ValueAlreadyDefined(d)) => {
            assert_eq!(d.message, "Cannot redefine ZERO");
        }
        other => panic!("expected ValueAlreadyDefined, got {:?}", other),
    }
}

#[test]
fn test_optional_sentinel_carries_parameter_offsets() {
    // an omitted optional parameter binds the none sentinel carrying the
    // parameter identifier's offsets
    let param = Parameter {
        identifier: Identifier { start: 7, end: 9, name: "y".to_owned() },
        optional: true,
    };
    let func_expr = FunctionExpression {
        start: 0,
        end: 0,
        params: vec![param],
        body: Program { start: 0, end: 0, body: Vec::new() },
    };
    let bound = assign_args_to_params(&func_expr, vec![], ProgramMemory::new()).unwrap();
    let item = bound.get("y", SourceRange([0, 0])).unwrap();
    let json = item.get_json_value().unwrap();
    match &json {
        JValue::Object(entries) => {
            let start = entries.iter().find(|e| e.0 == "start").unwrap();
            let end = entries.iter().find(|e| e.0 == "end").unwrap();
            assert_eq!(start.1, JValue::Num(JNumber::Int(7)));
            assert_eq!(end.1, JValue::Num(JNumber::Int(9)));
        }
        other => panic!("expected the sentinel object, got {:?}", other),
    }
}

#[test]
fn test_object_expression_repeated_key_keeps_last() {
    // { a: 1, a: 2 } binds a to 2, as a map insert would
    let obj = Expr::ObjectExpression(Box::new(ObjectExpression {
        start: 0,
        end: 0,
        properties: vec![
            ObjectProperty { start: 0, end: 0, key: name_of("a"), value: lit_int(1) },
            ObjectProperty { start: 0, end: 0, key: name_of("a"), value: lit_int(2) },
        ],
    }));
    let dot = Expr::MemberExpression(Box::new(MemberExpression {
        start: 0,
        end: 0,
        object: MemberObject::Identifier(Box::new(name_of("obj"))),
        property: LiteralIdentifier::Identifier(Box::new(name_of("a"))),
        computed: false,
    }));
    let memory = run_program(vec![declare("obj", obj), declare("x", dot)]).unwrap();
    assert_eq!(json_of(&memory, "x"), JValue::Num(JNumber::Int(2)));
}

#[test]
fn test_plane_serializes_with_camel_case_fields() {
    let plane = kcl_lib::values::Plane {
        id: Uuid { bits: 1 },
        value: PlaneType::XY,
        origin: axis(0.0, 0.0, 0.0),
        x_axis: axis(1.0, 0.0, 0.0),
        y_axis: axis(0.0, 1.0, 0.0),
        z_axis: axis(0.0, 0.0, 1.0),
        meta: vec![Metadata { source_range: SourceRange([3, 9]) }],
    };
    let item = MemoryItem::Plane(Box::new(plane));
    let json = item.get_json_value().unwrap();
    let host = IeeeHost::new();
    let text = json_to_string(&host, &json).unwrap();
    let parsed: serde_json::Value = serde_json::from_str(&text).unwrap();
    assert_eq!(parsed["type"], serde_json::Value::from("Plane"));
    assert_eq!(
        parsed["id"],
        serde_json::Value::from("00000000-0000-0000-0000-000000000001")
    );
    assert_eq!(parsed["value"], serde_json::Value::from("XY"));
    assert_eq!(parsed["xAxis"]["x"].as_f64().unwrap(), 1.0);
    assert_eq!(parsed["__meta"][0]["sourceRange"][0], serde_json::Value::from(3));
    assert_eq!(parsed["__meta"][0]["sourceRange"][1], serde_json::Value::from(9));
}

#[test]
fn test_base_path_serializes_geo_meta() {
    let sg = sample_sketch_group(vec![segment((0.0, 0.0), (1.0, 2.0), "seg01")]);
    let item = MemoryItem::SketchGroup(Box::new(sg));
    let json = item.get_json_value().unwrap();
    let host = IeeeHost::new();
    let text = json_to_string(&host, &json).unwrap();
    let parsed: serde_json::Value = serde_json::from_str(&text).unwrap();
    assert!(parsed["value"][0]["__geoMeta"]["id"].is_string());
    assert!(parsed["value"][0]["__geoMeta"]["sourceRange"].is_array());
    assert_eq!(parsed["start"]["from"][0].as_f64().unwrap(), 0.0);
    assert_eq!(parsed["entityId"], serde_json::Value::Null);
}
