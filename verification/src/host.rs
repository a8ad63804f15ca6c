//! What the interpreter requires of its embedder.
//!
//! Three capabilities sit outside the verified core and are reached through
//! the [`Host`] trait: the engine transport (submit a modeling command,
//! flush the batch), the host-implemented builtin functions beyond the
//! segment primitives, and the IEEE-754 numeric kernel that computes with
//! the doubles the core carries as bit patterns.  Each implementation fixes
//! the meaning of its kernel through the trait's spec functions — a
//! property of the host type, independent of the host's state — and every
//! exec method is bound to them, so the evaluator's contracts speak of the
//! host's own arithmetic.
//!
//! [`MockHost`] is the in-crate test double: a no-op engine that records
//! submitted commands, no builtins, and a deterministic stand-in kernel
//! (saturating integer arithmetic on the bit patterns — not IEEE
//! arithmetic; engine-faithful kernels live with the embedder).

use vstd::prelude::*;
use std::rc::Rc;
use crate::errors::KclError;
use crate::json::Real;
use crate::source_range::SourceRange;
use crate::util::u64_to_string;
use crate::util::dec_str;
use crate::values::{MemoryItem, Uuid};

verus! {

/// The unit lengths a scene can be set to.
#[derive(Debug, Clone, Copy, PartialEq, Eq, Structural)]
pub enum UnitLength {
    Cm,
    Ft,
    In,
    M,
    Mm,
    Yd,
}

impl Default for UnitLength {
    /// Millimeters, as the modeling defaults assume.
    fn default() -> (r: Self)
        ensures
            r == UnitLength::Mm,
    {
        UnitLength::Mm
    }
}

/// The modeling commands the evaluator itself issues.  Commands of the
/// out-of-scope builtins travel through [`Host::call_core`] instead.
#[derive(Debug, Clone, Copy, PartialEq, Eq, Structural)]
pub enum ModelingCommand {
    /// Set the scene units before evaluation begins.
    SetSceneUnits { unit: UnitLength },
    /// Choose whether edge lines are hidden.
    EdgeLinesVisible { hidden: bool },
}

/// Positional arguments packed for a builtin call, with the call's
/// provenance.
#[derive(Debug, Clone)]
pub struct Args {
    /// The evaluated positional arguments.
    pub args: Vec<Rc<MemoryItem>>,
    /// The source range of the call expression.
    pub source_range: SourceRange,
}

/// One command log extends another: nothing already submitted is dropped
/// or reordered.
pub open spec fn log_extends(
    before: Seq<(Uuid, SourceRange, ModelingCommand)>,
    after: Seq<(Uuid, SourceRange, ModelingCommand)>,
) -> bool {
    &&& before.len() <= after.len()
    &&& forall|i: int| 0 <= i < before.len() ==> after[i] == before[i]
}

/// The embedder of the interpreter.
///
/// The numeric kernel methods are pure: each implementation names its own
/// functions through the spec members, and the exec methods must return
/// exactly those.  The engine methods keep an append-only command log, so
/// commands are applied in submission order.  `call_core` runs a
/// host-implemented builtin; nothing is promised of its outcome, and the
/// evaluator treats every outcome alike.
pub trait Host: Sized {
    /// The command log: everything submitted so far, in order.
    spec fn cmds(&self) -> Seq<(Uuid, SourceRange, ModelingCommand)>;

    /// The flush log: the source range of every completed batch flush, in
    /// order.
    spec fn flush_log(&self) -> Seq<SourceRange>;

    /// What the kernel's addition returns.
    spec fn add_spec(a: Real, b: Real) -> Real;

    /// What the kernel's subtraction returns.
    spec fn sub_spec(a: Real, b: Real) -> Real;

    /// What the kernel's multiplication returns.
    spec fn mul_spec(a: Real, b: Real) -> Real;

    /// What the kernel's division returns.
    spec fn div_spec(a: Real, b: Real) -> Real;

    /// What the kernel's remainder returns.
    spec fn mod_spec(a: Real, b: Real) -> Real;

    /// What the kernel's exponentiation returns.
    spec fn pow_spec(a: Real, b: Real) -> Real;

    /// What the kernel's negation returns.
    spec fn neg_spec(a: Real) -> Real;

    /// What the kernel's absolute value returns.
    spec fn abs_spec(a: Real) -> Real;

    /// What the kernel's square root returns.
    spec fn sqrt_spec(a: Real) -> Real;

    /// What the kernel's arc cosine, in degrees, returns.
    spec fn acos_deg_spec(a: Real) -> Real;

    /// What the kernel's arc sine, in degrees, returns.
    spec fn asin_deg_spec(a: Real) -> Real;

    /// What the kernel's two-argument arc tangent, in degrees in
    /// `(-180, 180]`, returns.
    spec fn atan2_deg_spec(y: Real, x: Real) -> Real;

    /// What the kernel's strict greater-than returns.
    spec fn gt_spec(a: Real, b: Real) -> bool;

    /// How the kernel converts an integer to a double.
    spec fn from_int_spec(i: i64) -> Real;

    /// How the kernel renders a double as text.
    spec fn real_text_spec(a: Real) -> Seq<char>;

    /// Add two doubles.
    fn real_add(&self, a: Real, b: Real) -> (r: Real)
        ensures
            r == Self::add_spec(a, b),
    ;

    /// Subtract two doubles.
    fn real_sub(&self, a: Real, b: Real) -> (r: Real)
        ensures
            r == Self::sub_spec(a, b),
    ;

    /// Multiply two doubles.
    fn real_mul(&self, a: Real, b: Real) -> (r: Real)
        ensures
            r == Self::mul_spec(a, b),
    ;

    /// Divide two doubles.
    fn real_div(&self, a: Real, b: Real) -> (r: Real)
        ensures
            r == Self::div_spec(a, b),
    ;

    /// The remainder of two doubles.
    fn real_mod(&self, a: Real, b: Real) -> (r: Real)
        ensures
            r == Self::mod_spec(a, b),
    ;

    /// Raise a double to a power.
    fn real_pow(&self, a: Real, b: Real) -> (r: Real)
        ensures
            r == Self::pow_spec(a, b),
    ;

    /// Negate a double.
    fn real_neg(&self, a: Real) -> (r: Real)
        ensures
            r == Self::neg_spec(a),
    ;

    /// The absolute value of a double.
    fn real_abs(&self, a: Real) -> (r: Real)
        ensures
            r == Self::abs_spec(a),
    ;

    /// The square root of a double.
    fn real_sqrt(&self, a: Real) -> (r: Real)
        ensures
            r == Self::sqrt_spec(a),
    ;

    /// The arc cosine of a double, in degrees.
    fn real_acos_deg(&self, a: Real) -> (r: Real)
        ensures
            r == Self::acos_deg_spec(a),
    ;

    /// The arc sine of a double, in degrees.
    fn real_asin_deg(&self, a: Real) -> (r: Real)
        ensures
            r == Self::asin_deg_spec(a),
    ;

    /// The angle of the vector `(x, y)`, in degrees in `(-180, 180]`.
    fn real_atan2_deg(&self, y: Real, x: Real) -> (r: Real)
        ensures
            r == Self::atan2_deg_spec(y, x),
    ;

    /// Whether `a` is strictly greater than `b`.
    fn real_gt(&self, a: Real, b: Real) -> (r: bool)
        ensures
            r == Self::gt_spec(a, b),
    ;

    /// The double nearest to an integer.
    fn real_from_int(&self, i: i64) -> (r: Real)
        ensures
            r == Self::from_int_spec(i),
    ;

    /// Render a double as text, for the JSON form.
    fn real_to_text(&self, a: Real) -> (r: String)
        ensures
            r@ == Self::real_text_spec(a),
    ;

    /// Submit one modeling command.  On success it is appended to the
    /// command log, so commands apply in submission order; whatever the
    /// outcome, the log is only ever extended.
    fn send_modeling_cmd(&mut self, id: Uuid, range: SourceRange, cmd: ModelingCommand) -> (r:
        Result<(), KclError>)
        ensures
            r is Ok ==> final(self).cmds() == old(self).cmds().push((id, range, cmd)),
            log_extends(old(self).cmds(), final(self).cmds()),
    ;

    /// Wait until every submitted command is acknowledged.  The command
    /// log is neither reordered nor truncated, and the flush is recorded.
    fn flush_batch(&mut self, range: SourceRange) -> (r: Result<(), KclError>)
        ensures
            r is Ok ==> final(self).cmds() == old(self).cmds(),
            log_extends(old(self).cmds(), final(self).cmds()),
            r is Ok ==> final(self).flush_log() == old(self).flush_log().push(range),
    ;

    /// Run a host-implemented builtin.  Nothing is promised of the result
    /// — callers must cope with every outcome — except that the command
    /// log is only ever extended.
    fn call_core(&mut self, name: &str, args: &Args) -> (r: Result<Rc<MemoryItem>, KclError>)
        ensures
            log_extends(old(self).cmds(), final(self).cmds()),
    ;
}

impl crate::values::Point2d {
    /// Scale both coordinates by the host's multiplication.
    pub fn scale<H: Host>(self, scalar: Real, h: &H) -> (r: crate::values::Point2d)
        ensures
            r.x == H::mul_spec(self.x, scalar),
            r.y == H::mul_spec(self.y, scalar),
    {
        crate::values::Point2d { x: h.real_mul(self.x, scalar), y: h.real_mul(self.y, scalar) }
    }
}

/// Relies on `uuid::Uuid::new_v4`: a freshly generated random identifier.
/// Nothing is promised of the value.  The call reaches the operating
/// system's random source and aborts if that source fails — an
/// environmental failure on no particular input, akin to allocation
/// failure.
#[verifier::external_body]
pub fn new_uuid_v4() -> (r: Uuid) {
    Uuid { bits: uuid::Uuid::new_v4().as_u128() }
}

/// The in-crate test double for the embedder: records commands, offers no
/// builtins, and computes with saturating integer arithmetic on the bit
/// patterns in place of an IEEE kernel.
#[derive(Debug)]
pub struct MockHost {
    /// Every command submitted so far, in submission order.
    pub commands: Vec<(Uuid, SourceRange, ModelingCommand)>,
    /// The source range of every batch flush, in order.
    pub flushes: Vec<SourceRange>,
}

impl MockHost {
    /// A fresh mock with an empty command log.
    pub fn new() -> (r: MockHost)
        ensures
            r.cmds() == Seq::<(Uuid, SourceRange, ModelingCommand)>::empty(),
            r.flush_log() == Seq::<SourceRange>::empty(),
    {
        let r = MockHost { commands: Vec::new(), flushes: Vec::new() };
        proof {
            assert(r.commands@ =~= Seq::<(Uuid, SourceRange, ModelingCommand)>::empty());
            assert(r.flushes@ =~= Seq::<SourceRange>::empty());
        }
        r
    }
}

impl Host for MockHost {
    open spec fn cmds(&self) -> Seq<(Uuid, SourceRange, ModelingCommand)> {
        self.commands@
    }

    open spec fn flush_log(&self) -> Seq<SourceRange> {
        self.flushes@
    }

    open spec fn add_spec(a: Real, b: Real) -> Real {
        if a.bits + b.bits <= u64::MAX {
            Real { bits: (a.bits + b.bits) as u64 }
        } else {
            Real { bits: u64::MAX }
        }
    }

    open spec fn sub_spec(a: Real, b: Real) -> Real {
        if a.bits >= b.bits {
            Real { bits: (a.bits - b.bits) as u64 }
        } else {
            Real { bits: 0 }
        }
    }

    open spec fn mul_spec(a: Real, b: Real) -> Real {
        if a.bits * b.bits <= u64::MAX {
            Real { bits: (a.bits * b.bits) as u64 }
        } else {
            Real { bits: u64::MAX }
        }
    }

    open spec fn div_spec(a: Real, b: Real) -> Real {
        if b.bits == 0 {
            Real { bits: 0 }
        } else {
            Real { bits: (a.bits / b.bits) as u64 }
        }
    }

    open spec fn mod_spec(a: Real, b: Real) -> Real {
        if b.bits == 0 {
            Real { bits: 0 }
        } else {
            Real { bits: (a.bits % b.bits) as u64 }
        }
    }

    open spec fn pow_spec(a: Real, b: Real) -> Real {
        a
    }

    open spec fn neg_spec(a: Real) -> Real {
        a
    }

    open spec fn abs_spec(a: Real) -> Real {
        a
    }

    open spec fn sqrt_spec(a: Real) -> Real {
        a
    }

    open spec fn acos_deg_spec(a: Real) -> Real {
        Real { bits: 0 }
    }

    open spec fn asin_deg_spec(a: Real) -> Real {
        Real { bits: 0 }
    }

    open spec fn atan2_deg_spec(y: Real, x: Real) -> Real {
        Real { bits: 0 }
    }

    open spec fn gt_spec(a: Real, b: Real) -> bool {
        a.bits > b.bits
    }

    open spec fn from_int_spec(i: i64) -> Real {
        if i >= 0 {
            Real { bits: i as u64 }
        } else {
            Real { bits: 0 }
        }
    }

    open spec fn real_text_spec(a: Real) -> Seq<char> {
        dec_str(a.bits as nat)
    }

    fn real_add(&self, a: Real, b: Real) -> (r: Real) {
        match a.bits.checked_add(b.bits) {
            Option::Some(s) => Real { bits: s },
            Option::None => Real { bits: u64::MAX },
        }
    }

    fn real_sub(&self, a: Real, b: Real) -> (r: Real) {
        if a.bits >= b.bits {
            Real { bits: a.bits - b.bits }
        } else {
            Real { bits: 0 }
        }
    }

    fn real_mul(&self, a: Real, b: Real) -> (r: Real) {
        match a.bits.checked_mul(b.bits) {
            Option::Some(p) => Real { bits: p },
            Option::None => Real { bits: u64::MAX },
        }
    }

    fn real_div(&self, a: Real, b: Real) -> (r: Real) {
        if b.bits == 0 {
            Real { bits: 0 }
        } else {
            Real { bits: a.bits / b.bits }
        }
    }

    fn real_mod(&self, a: Real, b: Real) -> (r: Real) {
        if b.bits == 0 {
            Real { bits: 0 }
        } else {
            Real { bits: a.bits % b.bits }
        }
    }

    fn real_pow(&self, a: Real, b: Real) -> (r: Real) {
        a
    }

    fn real_neg(&self, a: Real) -> (r: Real) {
        a
    }

    fn real_abs(&self, a: Real) -> (r: Real) {
        a
    }

    fn real_sqrt(&self, a: Real) -> (r: Real) {
        a
    }

    fn real_acos_deg(&self, a: Real) -> (r: Real) {
        Real { bits: 0 }
    }

    fn real_asin_deg(&self, a: Real) -> (r: Real) {
        Real { bits: 0 }
    }

    fn real_atan2_deg(&self, y: Real, x: Real) -> (r: Real) {
        Real { bits: 0 }
    }

    fn real_gt(&self, a: Real, b: Real) -> (r: bool) {
        a.bits > b.bits
    }

    fn real_from_int(&self, i: i64) -> (r: Real) {
        if i >= 0 {
            Real { bits: i as u64 }
        } else {
            Real { bits: 0 }
        }
    }

    fn real_to_text(&self, a: Real) -> (r: String) {
        u64_to_string(a.bits)
    }

    fn send_modeling_cmd(&mut self, id: Uuid, range: SourceRange, cmd: ModelingCommand) -> (r:
        Result<(), KclError>) {
        self.commands.push((id, range, cmd));
        Result::Ok(())
    }

    fn flush_batch(&mut self, range: SourceRange) -> (r: Result<(), KclError>) {
        self.flushes.push(range);
        Result::Ok(())
    }

    fn call_core(&mut self, name: &str, args: &Args) -> (r: Result<Rc<MemoryItem>, KclError>) {
        Result::Err(
            KclError::Semantic(
                crate::errors::KclErrorDetails {
                    message: crate::util::concat2("no host builtin named ", name),
                    source_ranges: {
                        let mut v: Vec<SourceRange> = Vec::new();
                        v.push(args.source_range);
                        v
                    },
                },
            ),
        )
    }
}

} // verus!
