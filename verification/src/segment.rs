//! The segment query primitives: builtins that read a sketch group's
//! geometry and return one number.
//!
//! Each primitive resolves a segment (by name, or the last one), reads its
//! endpoints, and hands the arithmetic to the host's numeric kernel.  No
//! primitive mutates the sketch group.

use vstd::prelude::*;
use crate::errors::{KclError, KclErrorDetails};
use crate::host::{Args, Host};
use crate::json::Real;
use crate::source_range::SourceRange;
use crate::util::concat3;
use crate::values::{BasePath, MemoryItem, SketchGroup, find_path_by_name};

verus! {

/// The segment name in argument position `i`, when that argument is a
/// user string.
pub open spec fn arg_string(args: Args, i: int) -> Option<Seq<char>> {
    if 0 <= i < args.args@.len() {
        match *args.args@[i] {
            MemoryItem::UserVal(u) => match u.value {
                crate::json::JValue::Str(s) => Option::Some(s@),
                _ => Option::None,
            },
            _ => Option::None,
        }
    } else {
        Option::None
    }
}

/// The sketch group in argument position `i`, when that argument is one.
pub open spec fn arg_sketch_group(args: Args, i: int) -> Option<SketchGroup> {
    if 0 <= i < args.args@.len() {
        match *args.args@[i] {
            MemoryItem::SketchGroup(sg) => Option::Some(*sg),
            _ => Option::None,
        }
    } else {
        Option::None
    }
}

/// The double in argument position `i`, when that argument is a number,
/// coerced by host `h`.
pub open spec fn arg_real<H: Host>(args: Args, i: int) -> Option<Real> {
    if 0 <= i < args.args@.len() {
        crate::executor::spec_coerce_real::<H>(*args.args@[i])
    } else {
        Option::None
    }
}

/// The error reported when a named segment does not exist.
pub open spec fn missing_segment_error(e: KclError, name: Seq<char>, range: SourceRange) -> bool {
    &&& e matches KclError::Type(d)
    &&& d.message@ == "Expected a segment name that exists in the given SketchGroup, found `"@
        + name + "`"@
    &&& d.source_ranges@ == seq![range]
}

fn missing_segment(name: &str, range: SourceRange) -> (e: KclError)
    ensures
        missing_segment_error(e, name@, range),
{
    let mut ranges: Vec<SourceRange> = Vec::new();
    ranges.push(range);
    proof {
        assert(ranges@ =~= seq![range]);
    }
    KclError::Type(
        KclErrorDetails {
            message: concat3(
                "Expected a segment name that exists in the given SketchGroup, found `",
                name,
                "`",
            ),
            source_ranges: ranges,
        },
    )
}

/// The error reported when the sketch group has no segments yet.
pub open spec fn empty_sketch_group_error(e: KclError, range: SourceRange) -> bool {
    &&& e matches KclError::Type(d)
    &&& d.message@ == "Expected a SketchGroup with at least one segment"@
    &&& d.source_ranges@ == seq![range]
}

fn empty_sketch_group(range: SourceRange) -> (e: KclError)
    ensures
        empty_sketch_group_error(e, range),
{
    let mut ranges: Vec<SourceRange> = Vec::new();
    ranges.push(range);
    proof {
        assert(ranges@ =~= seq![range]);
    }
    KclError::Type(
        KclErrorDetails {
            message: "Expected a SketchGroup with at least one segment".to_owned(),
            source_ranges: ranges,
        },
    )
}

/// The error reported when a primitive's arguments are not a segment name
/// and a sketch group (with, where called for, a number) in order.
pub open spec fn bad_arguments_error(e: KclError, range: SourceRange) -> bool {
    &&& e matches KclError::Type(d)
    &&& d.message@ == "Expected a segment name, a number where called for, and a sketch group"@
    &&& d.source_ranges@ == seq![range]
}

fn bad_arguments(range: SourceRange) -> (e: KclError)
    ensures
        bad_arguments_error(e, range),
{
    let mut ranges: Vec<SourceRange> = Vec::new();
    ranges.push(range);
    proof {
        assert(ranges@ =~= seq![range]);
    }
    KclError::Type(
        KclErrorDetails {
            message: "Expected a segment name, a number where called for, and a sketch group"
                .to_owned(),
            source_ranges: ranges,
        },
    )
}

/// Whether a value is a real-number user value holding exactly `x`, with
/// the given range as its only provenance.
pub open spec fn is_real_user_val(v: MemoryItem, x: Real, range: SourceRange) -> bool {
    &&& v matches MemoryItem::UserVal(u)
    &&& u.value == crate::json::JValue::Num(crate::json::JNumber::Real(x))
    &&& u.meta@.len() == 1
    &&& u.meta@[0].source_range == range
}

/// The squared-sum-then-root length of a segment, as host `h` computes
/// it.
pub open spec fn seg_len_spec<H: Host>(base: BasePath) -> Real {
    let dy = H::sub_spec(base.from.y, base.to.y);
    let dx = H::sub_spec(base.from.x, base.to.x);
    H::sqrt_spec(H::add_spec(H::mul_spec(dy, dy), H::mul_spec(dx, dx)))
}

fn seg_len<H: Host>(h: &H, base: &BasePath) -> (r: Real)
    ensures
        r == seg_len_spec::<H>(*base),
{
    let dy = h.real_sub(base.from.y, base.to.y);
    let dx = h.real_sub(base.from.x, base.to.x);
    h.real_sqrt(h.real_add(h.real_mul(dy, dy), h.real_mul(dx, dx)))
}

/// The angle from a segment's start to its end, in degrees in
/// `(-180, 180]`, as host `h` computes it.
pub open spec fn seg_ang_spec<H: Host>(base: BasePath) -> Real {
    H::atan2_deg_spec(H::sub_spec(base.to.y, base.from.y), H::sub_spec(base.to.x, base.from.x))
}

/// The end X coordinate of the named segment.  A name that resolves
/// neither to the starting path nor to a segment is a `Type` error.
pub fn inner_segment_end_x(segment_name: &str, sketch_group: &SketchGroup, args: &Args) -> (r:
    Result<Real, KclError>)
    ensures
        match sketch_group.spec_base_by_name_or_start(segment_name@) {
            Option::Some(base) => r == Result::<Real, KclError>::Ok(base.to.x),
            Option::None => r matches Result::Err(e) && missing_segment_error(
                e,
                segment_name@,
                args.source_range,
            ),
        },
{
    match sketch_group.get_base_by_name_or_start(segment_name) {
        Option::Some(line) => Result::Ok(line.to.x),
        Option::None => Result::Err(missing_segment(segment_name, args.source_range)),
    }
}

/// The end Y coordinate of the named segment.
pub fn inner_segment_end_y(segment_name: &str, sketch_group: &SketchGroup, args: &Args) -> (r:
    Result<Real, KclError>)
    ensures
        match sketch_group.spec_base_by_name_or_start(segment_name@) {
            Option::Some(base) => r == Result::<Real, KclError>::Ok(base.to.y),
            Option::None => r matches Result::Err(e) && missing_segment_error(
                e,
                segment_name@,
                args.source_range,
            ),
        },
{
    match sketch_group.get_base_by_name_or_start(segment_name) {
        Option::Some(line) => Result::Ok(line.to.y),
        Option::None => Result::Err(missing_segment(segment_name, args.source_range)),
    }
}

/// The end X coordinate of the last segment.  A sketch group without
/// segments is a `Type` error.
pub fn inner_last_segment_x(sketch_group: &SketchGroup, args: &Args) -> (r: Result<Real, KclError>)
    ensures
        sketch_group.value@.len() > 0 ==> r == Result::<Real, KclError>::Ok(
            sketch_group.value@.last().spec_base().to.x,
        ),
        sketch_group.value@.len() == 0 ==> (r matches Result::Err(e) && empty_sketch_group_error(
            e,
            args.source_range,
        )),
{
    if sketch_group.value.len() == 0 {
        Result::Err(empty_sketch_group(args.source_range))
    } else {
        let base = sketch_group.value[sketch_group.value.len() - 1].get_base();
        Result::Ok(base.to.x)
    }
}

/// The end Y coordinate of the last segment.
pub fn inner_last_segment_y(sketch_group: &SketchGroup, args: &Args) -> (r: Result<Real, KclError>)
    ensures
        sketch_group.value@.len() > 0 ==> r == Result::<Real, KclError>::Ok(
            sketch_group.value@.last().spec_base().to.y,
        ),
        sketch_group.value@.len() == 0 ==> (r matches Result::Err(e) && empty_sketch_group_error(
            e,
            args.source_range,
        )),
{
    if sketch_group.value.len() == 0 {
        Result::Err(empty_sketch_group(args.source_range))
    } else {
        let base = sketch_group.value[sketch_group.value.len() - 1].get_base();
        Result::Ok(base.to.y)
    }
}

/// The Euclidean distance between the named segment's endpoints, by the
/// host's kernel.
pub fn inner_segment_length<H: Host>(
    h: &H,
    segment_name: &str,
    sketch_group: &SketchGroup,
    args: &Args,
) -> (r: Result<Real, KclError>)
    ensures
        match find_path_by_name(sketch_group.value@, segment_name@) {
            Option::Some(path) => r == Result::<Real, KclError>::Ok(
                seg_len_spec::<H>(path.spec_base()),
            ),
            Option::None => r matches Result::Err(e) && missing_segment_error(
                e,
                segment_name@,
                args.source_range,
            ),
        },
{
    match sketch_group.get_path_by_name(segment_name) {
        Option::Some(path) => Result::Ok(seg_len(h, path.get_base())),
        Option::None => Result::Err(missing_segment(segment_name, args.source_range)),
    }
}

/// The angle of the named segment in degrees in `(-180, 180]`, by the
/// host's kernel.
pub fn inner_segment_angle<H: Host>(
    h: &H,
    segment_name: &str,
    sketch_group: &SketchGroup,
    args: &Args,
) -> (r: Result<Real, KclError>)
    ensures
        match find_path_by_name(sketch_group.value@, segment_name@) {
            Option::Some(path) => r == Result::<Real, KclError>::Ok(
                seg_ang_spec::<H>(path.spec_base()),
            ),
            Option::None => r matches Result::Err(e) && missing_segment_error(
                e,
                segment_name@,
                args.source_range,
            ),
        },
{
    match sketch_group.get_path_by_name(segment_name) {
        Option::Some(path) => {
            let base = path.get_base();
            let dy = h.real_sub(base.to.y, base.from.y);
            let dx = h.real_sub(base.to.x, base.from.x);
            Result::Ok(h.real_atan2_deg(dy, dx))
        },
        Option::None => Result::Err(missing_segment(segment_name, args.source_range)),
    }
}

/// The angle whose cosine matches `|target − last end X| / L` for the
/// named segment's length `L`, in degrees; `0` when the distance exceeds
/// the length.
pub open spec fn angle_to_match_length_spec<H: Host>(diff: Real, length: Real, acos: bool) -> Real {
    if H::gt_spec(diff, length) {
        Real { bits: 0 }
    } else if acos {
        H::acos_deg_spec(H::div_spec(diff, length))
    } else {
        H::asin_deg_spec(H::div_spec(diff, length))
    }
}

/// The angle that matches a target X coordinate against the named
/// segment's length.
pub fn inner_angle_to_match_length_x<H: Host>(
    h: &H,
    segment_name: &str,
    to: Real,
    sketch_group: &SketchGroup,
    args: &Args,
) -> (r: Result<Real, KclError>)
    ensures
        match find_path_by_name(sketch_group.value@, segment_name@) {
            Option::Some(path) => {
                if sketch_group.value@.len() == 0 {
                    r matches Result::Err(e) && empty_sketch_group_error(e, args.source_range)
                } else {
                    r == Result::<Real, KclError>::Ok(
                        angle_to_match_length_spec::<H>(
                            H::abs_spec(
                                H::sub_spec(to, sketch_group.value@.last().spec_base().to.x),
                            ),
                            seg_len_spec::<H>(path.spec_base()),
                            true,
                        ),
                    )
                }
            },
            Option::None => r matches Result::Err(e) && missing_segment_error(
                e,
                segment_name@,
                args.source_range,
            ),
        },
{
    let path = match sketch_group.get_path_by_name(segment_name) {
        Option::Some(path) => path,
        Option::None => {
            return Result::Err(missing_segment(segment_name, args.source_range));
        },
    };
    let length = seg_len(h, path.get_base());
    if sketch_group.value.len() == 0 {
        return Result::Err(empty_sketch_group(args.source_range));
    }
    let last_base = sketch_group.value[sketch_group.value.len() - 1].get_base();
    let diff = h.real_abs(h.real_sub(to, last_base.to.x));
    if h.real_gt(diff, length) {
        Result::Ok(Real::zero())
    } else {
        Result::Ok(h.real_acos_deg(h.real_div(diff, length)))
    }
}

/// The angle that matches a target Y coordinate against the named
/// segment's length.
pub fn inner_angle_to_match_length_y<H: Host>(
    h: &H,
    segment_name: &str,
    to: Real,
    sketch_group: &SketchGroup,
    args: &Args,
) -> (r: Result<Real, KclError>)
    ensures
        match find_path_by_name(sketch_group.value@, segment_name@) {
            Option::Some(path) => {
                if sketch_group.value@.len() == 0 {
                    r matches Result::Err(e) && empty_sketch_group_error(e, args.source_range)
                } else {
                    r == Result::<Real, KclError>::Ok(
                        angle_to_match_length_spec::<H>(
                            H::abs_spec(
                                H::sub_spec(to, sketch_group.value@.last().spec_base().to.y),
                            ),
                            seg_len_spec::<H>(path.spec_base()),
                            false,
                        ),
                    )
                }
            },
            Option::None => r matches Result::Err(e) && missing_segment_error(
                e,
                segment_name@,
                args.source_range,
            ),
        },
{
    let path = match sketch_group.get_path_by_name(segment_name) {
        Option::Some(path) => path,
        Option::None => {
            return Result::Err(missing_segment(segment_name, args.source_range));
        },
    };
    let length = seg_len(h, path.get_base());
    if sketch_group.value.len() == 0 {
        return Result::Err(empty_sketch_group(args.source_range));
    }
    let last_base = sketch_group.value[sketch_group.value.len() - 1].get_base();
    let diff = h.real_abs(h.real_sub(to, last_base.to.y));
    if h.real_gt(diff, length) {
        Result::Ok(Real::zero())
    } else {
        Result::Ok(h.real_asin_deg(h.real_div(diff, length)))
    }
}

/// Unpack a segment name and a sketch group from the first two arguments.
fn get_segment_name_sketch_group<'a>(args: &'a Args) -> (r: Result<
    (&'a String, &'a SketchGroup),
    KclError,
>)
    ensures
        arg_string(*args, 0) matches Option::Some(name) ==> arg_sketch_group(*args, 1) is Some
            ==> (r matches Result::Ok(p) && p.0@ == name && arg_sketch_group(*args, 1)
            == Option::Some(*p.1)),
        !(arg_string(*args, 0) is Some && arg_sketch_group(*args, 1) is Some) ==> (r
            matches Result::Err(e) && bad_arguments_error(e, args.source_range)),
{
    if args.args.len() < 2 {
        return Result::Err(bad_arguments(args.source_range));
    }
    let first: &MemoryItem = &args.args[0];
    let second: &MemoryItem = &args.args[1];
    match (first, second) {
        (MemoryItem::UserVal(u), MemoryItem::SketchGroup(sg)) => match &u.value {
            crate::json::JValue::Str(s) => Result::Ok((s, sg)),
            _ => Result::Err(bad_arguments(args.source_range)),
        },
        _ => Result::Err(bad_arguments(args.source_range)),
    }
}

/// Unpack a sketch group from the first argument.
fn get_sketch_group<'a>(args: &'a Args) -> (r: Result<&'a SketchGroup, KclError>)
    ensures
        arg_sketch_group(*args, 0) matches Option::Some(sg) ==> (r matches Result::Ok(got) && sg
            == *got),
        arg_sketch_group(*args, 0) is None ==> (r matches Result::Err(e) && bad_arguments_error(
            e,
            args.source_range,
        )),
{
    if args.args.len() < 1 {
        return Result::Err(bad_arguments(args.source_range));
    }
    let first: &MemoryItem = &args.args[0];
    match first {
        MemoryItem::SketchGroup(sg) => Result::Ok(sg),
        _ => Result::Err(bad_arguments(args.source_range)),
    }
}

/// Unpack a segment name, a target number and a sketch group from the
/// first three arguments.
fn get_segment_name_to_number_sketch_group<'a, H: Host>(h: &H, args: &'a Args) -> (r: Result<
    (&'a String, Real, &'a SketchGroup),
    KclError,
>)
    ensures
        arg_string(*args, 0) matches Option::Some(name) ==> arg_real::<H>(*args, 1)
            matches Option::Some(to) ==> arg_sketch_group(*args, 2) is Some ==> (r
            matches Result::Ok(p) && p.0@ == name && p.1 == to && arg_sketch_group(*args, 2)
            == Option::Some(*p.2)),
        !(arg_string(*args, 0) is Some && arg_real::<H>(*args, 1) is Some && arg_sketch_group(
            *args,
            2,
        ) is Some) ==> (r matches Result::Err(e) && bad_arguments_error(e, args.source_range)),
{
    if args.args.len() < 3 {
        return Result::Err(bad_arguments(args.source_range));
    }
    let first: &MemoryItem = &args.args[0];
    let second: &MemoryItem = &args.args[1];
    let third: &MemoryItem = &args.args[2];
    let name = match first {
        MemoryItem::UserVal(u) => match &u.value {
            crate::json::JValue::Str(s) => s,
            _ => {
                return Result::Err(bad_arguments(args.source_range));
            },
        },
        _ => {
            return Result::Err(bad_arguments(args.source_range));
        },
    };
    let to = match crate::executor::coerce_real(h, second) {
        Option::Some(x) => x,
        Option::None => {
            return Result::Err(bad_arguments(args.source_range));
        },
    };
    match third {
        MemoryItem::SketchGroup(sg) => Result::Ok((name, to, sg)),
        _ => Result::Err(bad_arguments(args.source_range)),
    }
}

/// What the `segEndX` builtin returns: the named segment's end X as a
/// real-number user value, the missing-segment error when the name does
/// not resolve, and the bad-arguments error when the arguments are not a
/// string and a sketch group.
pub open spec fn seg_end_x_post(args: Args, r: Result<MemoryItem, KclError>) -> bool {
    &&& (arg_string(args, 0) matches Option::Some(name) ==> arg_sketch_group(args, 1) matches
        Option::Some(sg) ==> match sg.spec_base_by_name_or_start(name) {
        Option::Some(base) => r matches Result::Ok(v) && is_real_user_val(
            v,
            base.to.x,
            args.source_range,
        ),
        Option::None => r matches Result::Err(e) && missing_segment_error(
            e,
            name,
            args.source_range,
        ),
    })
    &&& (!(arg_string(args, 0) is Some && arg_sketch_group(args, 1) is Some) ==> (r matches
        Result::Err(e) && bad_arguments_error(e, args.source_range)))
}

/// The `segEndX` builtin.
pub fn segment_end_x(args: &Args) -> (r: Result<MemoryItem, KclError>)
    ensures
        seg_end_x_post(*args, r),
{
    let (segment_name, sketch_group) = get_segment_name_sketch_group(args)?;
    let result = inner_segment_end_x(segment_name.as_str(), sketch_group, args)?;
    Result::Ok(crate::executor::user_val_from_real(result, args.source_range))
}

/// What the `segEndY` builtin returns, as [`seg_end_x_post`] with the
/// end Y coordinate.
pub open spec fn seg_end_y_post(args: Args, r: Result<MemoryItem, KclError>) -> bool {
    &&& (arg_string(args, 0) matches Option::Some(name) ==> arg_sketch_group(args, 1) matches
        Option::Some(sg) ==> match sg.spec_base_by_name_or_start(name) {
        Option::Some(base) => r matches Result::Ok(v) && is_real_user_val(
            v,
            base.to.y,
            args.source_range,
        ),
        Option::None => r matches Result::Err(e) && missing_segment_error(
            e,
            name,
            args.source_range,
        ),
    })
    &&& (!(arg_string(args, 0) is Some && arg_sketch_group(args, 1) is Some) ==> (r matches
        Result::Err(e) && bad_arguments_error(e, args.source_range)))
}

/// The `segEndY` builtin.
pub fn segment_end_y(args: &Args) -> (r: Result<MemoryItem, KclError>)
    ensures
        seg_end_y_post(*args, r),
{
    let (segment_name, sketch_group) = get_segment_name_sketch_group(args)?;
    let result = inner_segment_end_y(segment_name.as_str(), sketch_group, args)?;
    Result::Ok(crate::executor::user_val_from_real(result, args.source_range))
}

/// What the `lastSegX` builtin returns: the last segment's end X as a
/// real-number user value, the empty-group error when nothing is drawn
/// yet, and the bad-arguments error when the argument is not a sketch
/// group.
pub open spec fn last_seg_x_post(args: Args, r: Result<MemoryItem, KclError>) -> bool {
    &&& (arg_sketch_group(args, 0) matches Option::Some(sg) ==> if sg.value.len() == 0 {
        r matches Result::Err(e) && empty_sketch_group_error(e, args.source_range)
    } else {
        r matches Result::Ok(v) && is_real_user_val(
            v,
            sg.value@.last().spec_base().to.x,
            args.source_range,
        )
    })
    &&& (arg_sketch_group(args, 0) is None ==> (r matches Result::Err(e) && bad_arguments_error(
        e,
        args.source_range,
    )))
}

/// The `lastSegX` builtin.
pub fn last_segment_x(args: &Args) -> (r: Result<MemoryItem, KclError>)
    ensures
        last_seg_x_post(*args, r),
{
    let sketch_group = get_sketch_group(args)?;
    let result = inner_last_segment_x(sketch_group, args)?;
    Result::Ok(crate::executor::user_val_from_real(result, args.source_range))
}

/// What the `lastSegY` builtin returns, as [`last_seg_x_post`] with the
/// end Y coordinate.
pub open spec fn last_seg_y_post(args: Args, r: Result<MemoryItem, KclError>) -> bool {
    &&& (arg_sketch_group(args, 0) matches Option::Some(sg) ==> if sg.value.len() == 0 {
        r matches Result::Err(e) && empty_sketch_group_error(e, args.source_range)
    } else {
        r matches Result::Ok(v) && is_real_user_val(
            v,
            sg.value@.last().spec_base().to.y,
            args.source_range,
        )
    })
    &&& (arg_sketch_group(args, 0) is None ==> (r matches Result::Err(e) && bad_arguments_error(
        e,
        args.source_range,
    )))
}

/// The `lastSegY` builtin.
pub fn last_segment_y(args: &Args) -> (r: Result<MemoryItem, KclError>)
    ensures
        last_seg_y_post(*args, r),
{
    let sketch_group = get_sketch_group(args)?;
    let result = inner_last_segment_y(sketch_group, args)?;
    Result::Ok(crate::executor::user_val_from_real(result, args.source_range))
}

/// What the `segLen` builtin returns: the named segment's length by
/// host `h`, the missing-segment error when the name does not resolve,
/// and the bad-arguments error otherwise.
pub open spec fn seg_len_post<H: Host>(args: Args, r: Result<MemoryItem, KclError>) -> bool {
    &&& (arg_string(args, 0) matches Option::Some(name) ==> arg_sketch_group(args, 1) matches
        Option::Some(sg) ==> match find_path_by_name(sg.value@, name) {
        Option::Some(path) => r matches Result::Ok(v) && is_real_user_val(
            v,
            seg_len_spec::<H>(path.spec_base()),
            args.source_range,
        ),
        Option::None => r matches Result::Err(e) && missing_segment_error(
            e,
            name,
            args.source_range,
        ),
    })
    &&& (!(arg_string(args, 0) is Some && arg_sketch_group(args, 1) is Some) ==> (r matches
        Result::Err(e) && bad_arguments_error(e, args.source_range)))
}

/// The `segLen` builtin.
pub fn segment_length<H: Host>(h: &H, args: &Args) -> (r: Result<MemoryItem, KclError>)
    ensures
        seg_len_post::<H>(*args, r),
{
    let (segment_name, sketch_group) = get_segment_name_sketch_group(args)?;
    let result = inner_segment_length(h, segment_name.as_str(), sketch_group, args)?;
    Result::Ok(crate::executor::user_val_from_real(result, args.source_range))
}

/// What the `segAng` builtin returns, as [`seg_len_post`] with the
/// segment's angle in degrees.
pub open spec fn seg_ang_post<H: Host>(args: Args, r: Result<MemoryItem, KclError>) -> bool {
    &&& (arg_string(args, 0) matches Option::Some(name) ==> arg_sketch_group(args, 1) matches
        Option::Some(sg) ==> match find_path_by_name(sg.value@, name) {
        Option::Some(path) => r matches Result::Ok(v) && is_real_user_val(
            v,
            seg_ang_spec::<H>(path.spec_base()),
            args.source_range,
        ),
        Option::None => r matches Result::Err(e) && missing_segment_error(
            e,
            name,
            args.source_range,
        ),
    })
    &&& (!(arg_string(args, 0) is Some && arg_sketch_group(args, 1) is Some) ==> (r matches
        Result::Err(e) && bad_arguments_error(e, args.source_range)))
}

/// The `segAng` builtin.
pub fn segment_angle<H: Host>(h: &H, args: &Args) -> (r: Result<MemoryItem, KclError>)
    ensures
        seg_ang_post::<H>(*args, r),
{
    let (segment_name, sketch_group) = get_segment_name_sketch_group(args)?;
    let result = inner_segment_angle(h, segment_name.as_str(), sketch_group, args)?;
    Result::Ok(crate::executor::user_val_from_real(result, args.source_range))
}

/// What the `angleToMatchLengthX` builtin returns: the matching angle by
/// host `h` against the last end X, the missing-segment or empty-group
/// error where they apply, and the bad-arguments error otherwise.
pub open spec fn angle_to_match_length_x_post<H: Host>(
    args: Args,
    r: Result<MemoryItem, KclError>,
) -> bool {
    &&& (arg_string(args, 0) matches Option::Some(name) ==> arg_real::<H>(args, 1) matches
        Option::Some(to) ==> arg_sketch_group(args, 2) matches Option::Some(sg)
        ==> match find_path_by_name(sg.value@, name) {
        Option::Some(path) => {
            if sg.value@.len() == 0 {
                r matches Result::Err(e) && empty_sketch_group_error(e, args.source_range)
            } else {
                r matches Result::Ok(v) && is_real_user_val(
                    v,
                    angle_to_match_length_spec::<H>(
                        H::abs_spec(H::sub_spec(to, sg.value@.last().spec_base().to.x)),
                        seg_len_spec::<H>(path.spec_base()),
                        true,
                    ),
                    args.source_range,
                )
            }
        },
        Option::None => r matches Result::Err(e) && missing_segment_error(
            e,
            name,
            args.source_range,
        ),
    })
    &&& (!(arg_string(args, 0) is Some && arg_real::<H>(args, 1) is Some && arg_sketch_group(
        args,
        2,
    ) is Some) ==> (r matches Result::Err(e) && bad_arguments_error(e, args.source_range)))
}

/// The `angleToMatchLengthX` builtin.
pub fn angle_to_match_length_x<H: Host>(h: &H, args: &Args) -> (r: Result<MemoryItem, KclError>)
    ensures
        angle_to_match_length_x_post::<H>(*args, r),
{
    let (segment_name, to, sketch_group) = get_segment_name_to_number_sketch_group(h, args)?;
    let result = inner_angle_to_match_length_x(h, segment_name.as_str(), to, sketch_group, args)?;
    Result::Ok(crate::executor::user_val_from_real(result, args.source_range))
}

/// What the `angleToMatchLengthY` builtin returns, as
/// [`angle_to_match_length_x_post`] against the last end Y.
pub open spec fn angle_to_match_length_y_post<H: Host>(
    args: Args,
    r: Result<MemoryItem, KclError>,
) -> bool {
    &&& (arg_string(args, 0) matches Option::Some(name) ==> arg_real::<H>(args, 1) matches
        Option::Some(to) ==> arg_sketch_group(args, 2) matches Option::Some(sg)
        ==> match find_path_by_name(sg.value@, name) {
        Option::Some(path) => {
            if sg.value@.len() == 0 {
                r matches Result::Err(e) && empty_sketch_group_error(e, args.source_range)
            } else {
                r matches Result::Ok(v) && is_real_user_val(
                    v,
                    angle_to_match_length_spec::<H>(
                        H::abs_spec(H::sub_spec(to, sg.value@.last().spec_base().to.y)),
                        seg_len_spec::<H>(path.spec_base()),
                        false,
                    ),
                    args.source_range,
                )
            }
        },
        Option::None => r matches Result::Err(e) && missing_segment_error(
            e,
            name,
            args.source_range,
        ),
    })
    &&& (!(arg_string(args, 0) is Some && arg_real::<H>(args, 1) is Some && arg_sketch_group(
        args,
        2,
    ) is Some) ==> (r matches Result::Err(e) && bad_arguments_error(e, args.source_range)))
}

/// The `angleToMatchLengthY` builtin.
pub fn angle_to_match_length_y<H: Host>(h: &H, args: &Args) -> (r: Result<MemoryItem, KclError>)
    ensures
        angle_to_match_length_y_post::<H>(*args, r),
{
    let (segment_name, to, sketch_group) = get_segment_name_to_number_sketch_group(h, args)?;
    let result = inner_angle_to_match_length_y(h, segment_name.as_str(), to, sketch_group, args)?;
    Result::Ok(crate::executor::user_val_from_real(result, args.source_range))
}

/// Route a classified segment call to its implementation; the result is
/// exactly what the routed builtin's postcondition fixes.
pub(crate) fn call_segment_fn<H: Host>(
    h: &H,
    f: crate::executor::SegmentFn,
    args: &Args,
) -> (r: Result<MemoryItem, KclError>)
    ensures
        match f {
            crate::executor::SegmentFn::SegEndX => seg_end_x_post(*args, r),
            crate::executor::SegmentFn::SegEndY => seg_end_y_post(*args, r),
            crate::executor::SegmentFn::LastSegX => last_seg_x_post(*args, r),
            crate::executor::SegmentFn::LastSegY => last_seg_y_post(*args, r),
            crate::executor::SegmentFn::SegLen => seg_len_post::<H>(*args, r),
            crate::executor::SegmentFn::SegAng => seg_ang_post::<H>(*args, r),
            crate::executor::SegmentFn::AngleToMatchLengthX => angle_to_match_length_x_post::<
                H,
            >(*args, r),
            crate::executor::SegmentFn::AngleToMatchLengthY => angle_to_match_length_y_post::<
                H,
            >(*args, r),
        },
{
    match f {
        crate::executor::SegmentFn::SegEndX => segment_end_x(args),
        crate::executor::SegmentFn::SegEndY => segment_end_y(args),
        crate::executor::SegmentFn::LastSegX => last_segment_x(args),
        crate::executor::SegmentFn::LastSegY => last_segment_y(args),
        crate::executor::SegmentFn::SegLen => segment_length(h, args),
        crate::executor::SegmentFn::SegAng => segment_angle(h, args),
        crate::executor::SegmentFn::AngleToMatchLengthX => angle_to_match_length_x(h, args),
        crate::executor::SegmentFn::AngleToMatchLengthY => angle_to_match_length_y(h, args),
    }
}

} // verus!
