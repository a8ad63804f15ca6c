//! The portable JSON form of runtime values.
//!
//! Every value serializes to a tagged JSON object (`"type"` discriminant,
//! camelCase field names, provenance under `"__meta"`); a user value
//! serializes to its embedded JSON verbatim.  The writer renders JSON as
//! UTF-8 bytes: strings pass through with `"`, `\` and control characters
//! escaped, and a double is rendered by the host's kernel, since the core
//! holds only its bit pattern.

use vstd::prelude::*;
use std::rc::Rc;
use crate::ast::{
    BodyItem, Expr, FunctionExpression, LiteralIdentifier, MemberObject, Program,
};
use crate::errors::KclError;
use crate::host::Host;
use crate::json::{JNumber, JValue, Real};
use crate::source_range::{Metadata, SourceRange};
use crate::util::{dec_str_signed, i64_to_string};
use crate::values::{
    BasePath, ExtrudeGroup, ExtrudeSurface, Face, GeoMeta, MemoryItem, Path, Plane, Point2d,
    Point3d, Position, Rotation, SketchGroup, SketchSurface, Uuid,
};
use vstd::string::StringSliceAdditionalSpecFns;

verus! {

/// The hexadecimal digit character for `d`.
pub open spec fn hex_digit_char(d: int) -> char {
    if d < 10 {
        crate::util::dec_digit_char(d)
    } else if d == 10 {
        'a'
    } else if d == 11 {
        'b'
    } else if d == 12 {
        'c'
    } else if d == 13 {
        'd'
    } else if d == 14 {
        'e'
    } else {
        'f'
    }
}

/// `width` hexadecimal digits of `n`, most significant first.
pub open spec fn hex_fixed(n: nat, width: nat) -> Seq<char>
    decreases width,
{
    if width == 0 {
        Seq::empty()
    } else {
        hex_fixed(n / 16, (width - 1) as nat).push(hex_digit_char((n % 16) as int))
    }
}

/// The canonical hyphenated text of a 128-bit identifier.
pub open spec fn uuid_text(bits: u128) -> Seq<char> {
    hex_fixed((bits >> 96) as nat, 8) + seq!['-'] + hex_fixed(((bits >> 80) & 0xffff) as nat, 4)
        + seq!['-'] + hex_fixed(((bits >> 64) & 0xffff) as nat, 4) + seq!['-'] + hex_fixed(
        ((bits >> 48) & 0xffff) as nat,
        4,
    ) + seq!['-'] + hex_fixed((bits & 0xffff_ffff_ffff) as nat, 12)
}

fn hex_digit_str(d: u64) -> (r: &'static str)
    requires
        d < 16,
    ensures
        r@ == seq![hex_digit_char(d as int)],
{
    proof {
        reveal_strlit("a");
        reveal_strlit("b");
        reveal_strlit("c");
        reveal_strlit("d");
        reveal_strlit("e");
        reveal_strlit("f");
    }
    if d < 10 {
        crate::util::dec_digit_str(d)
    } else {
        match d {
            10 => "a",
            11 => "b",
            12 => "c",
            13 => "d",
            14 => "e",
            _ => "f",
        }
    }
}

/// Render `width` hexadecimal digits of `n`.
fn hex_fixed_string(n: u64, width: u64) -> (s: String)
    ensures
        s@ == hex_fixed(n as nat, width as nat),
    decreases width,
{
    if width == 0 {
        String::new()
    } else {
        let mut s = hex_fixed_string(n / 16, width - 1);
        s.append(hex_digit_str(n % 16));
        s
    }
}

/// Render the canonical hyphenated text of an identifier.
pub fn uuid_to_string(id: &Uuid) -> (s: String)
    ensures
        s@ == uuid_text(id.bits),
{
    proof {
        reveal_strlit("-");
    }
    let bits = id.bits;
    let mut s = hex_fixed_string((bits >> 96) as u64, 8);
    s.append("-");
    let part = hex_fixed_string(((bits >> 80) & 0xffff) as u64, 4);
    s.append(part.as_str());
    s.append("-");
    let part = hex_fixed_string(((bits >> 64) & 0xffff) as u64, 4);
    s.append(part.as_str());
    s.append("-");
    let part = hex_fixed_string(((bits >> 48) & 0xffff) as u64, 4);
    s.append(part.as_str());
    s.append("-");
    let part = hex_fixed_string((bits & 0xffff_ffff_ffff) as u64, 12);
    s.append(part.as_str());
    assert(((bits >> 80) & 0xffff) <= 0xffff) by (bit_vector);
    assert(((bits >> 64) & 0xffff) <= 0xffff) by (bit_vector);
    assert(((bits >> 48) & 0xffff) <= 0xffff) by (bit_vector);
    assert((bits & 0xffff_ffff_ffff) <= 0xffff_ffff_ffff) by (bit_vector);
    assert((bits >> 96) <= 0xffff_ffff) by (bit_vector);
    s
}

/// How one byte of a JSON string is written: quote and backslash get a
/// backslash escape, the named control characters their short escapes,
/// other control bytes a `\u00XX` escape, and everything else passes
/// through.
pub open spec fn escape_byte(b: u8) -> Seq<u8> {
    if b == 0x22 {
        seq![0x5cu8, 0x22u8]
    } else if b == 0x5c {
        seq![0x5cu8, 0x5cu8]
    } else if b == 0x08 {
        seq![0x5cu8, 0x62u8]
    } else if b == 0x09 {
        seq![0x5cu8, 0x74u8]
    } else if b == 0x0a {
        seq![0x5cu8, 0x6eu8]
    } else if b == 0x0c {
        seq![0x5cu8, 0x66u8]
    } else if b == 0x0d {
        seq![0x5cu8, 0x72u8]
    } else if b < 0x20 {
        seq![
            0x5cu8,
            0x75u8,
            0x30u8,
            0x30u8,
            hex_digit_byte((b / 16) as int),
            hex_digit_byte((b % 16) as int),
        ]
    } else {
        seq![b]
    }
}

/// The ASCII byte of the hexadecimal digit `d`.
pub open spec fn hex_digit_byte(d: int) -> u8 {
    if d < 10 {
        (0x30 + d) as u8
    } else {
        (0x57 + d) as u8
    }
}

/// A whole string's bytes, escaped.
pub open spec fn escape_bytes(s: Seq<u8>) -> Seq<u8>
    decreases s.len(),
{
    if s.len() == 0 {
        Seq::empty()
    } else {
        escape_bytes(s.drop_last()) + escape_byte(s.last())
    }
}

fn push_escaped_byte(out: &mut Vec<u8>, b: u8)
    ensures
        final(out)@ == old(out)@ + escape_byte(b),
{
    if b == 0x22 {
        out.push(0x5c);
        out.push(0x22);
    } else if b == 0x5c {
        out.push(0x5c);
        out.push(0x5c);
    } else if b == 0x08 {
        out.push(0x5c);
        out.push(0x62);
    } else if b == 0x09 {
        out.push(0x5c);
        out.push(0x74);
    } else if b == 0x0a {
        out.push(0x5c);
        out.push(0x6e);
    } else if b == 0x0c {
        out.push(0x5c);
        out.push(0x66);
    } else if b == 0x0d {
        out.push(0x5c);
        out.push(0x72);
    } else if b < 0x20 {
        out.push(0x5c);
        out.push(0x75);
        out.push(0x30);
        out.push(0x30);
        let hi = hex_digit_ascii(b / 16);
        out.push(hi);
        let lo = hex_digit_ascii(b % 16);
        out.push(lo);
    } else {
        out.push(b);
    }
    proof {
        assert(out@ =~= old(out)@ + escape_byte(b));
    }
}

fn hex_digit_ascii(d: u8) -> (r: u8)
    requires
        d < 16,
    ensures
        r == hex_digit_byte(d as int),
{
    if d < 10 {
        0x30 + d
    } else {
        0x61 + (d - 10)
    }
}

/// Append a quoted, escaped JSON string.
#[verifier::loop_isolation(false)]
fn push_json_string(out: &mut Vec<u8>, s: &str)
    ensures
        final(out)@ == old(out)@ + seq![0x22u8] + escape_bytes(s.spec_bytes()) + seq![0x22u8],
{
    out.push(0x22);
    let bytes = s.as_bytes();
    let mut i: usize = 0;
    while i < bytes.len()
        invariant
            i <= bytes@.len(),
            out@ =~= old(out)@ + seq![0x22u8] + escape_bytes(bytes@.subrange(0, i as int)),
        decreases bytes@.len() - i,
    {
        push_escaped_byte(out, bytes[i]);
        proof {
            assert(bytes@.subrange(0, i as int + 1).drop_last() =~= bytes@.subrange(0, i as int));
        }
        i = i + 1;
    }
    proof {
        assert(bytes@.subrange(0, bytes@.len() as int) =~= bytes@);
    }
    out.push(0x22);
    proof {
        assert(out@ =~= old(out)@ + seq![0x22u8] + escape_bytes(s.spec_bytes()) + seq![0x22u8]);
    }
}

/// The UTF-8 bytes of a JSON value's canonical rendering under host `h`.
pub open spec fn json_bytes<H: Host>(h: &H, v: JValue) -> Seq<u8>
    decreases v,
{
    match v {
        JValue::Null => vstd::utf8::encode_utf8("null"@),
        JValue::Bool(b) => if b {
            vstd::utf8::encode_utf8("true"@)
        } else {
            vstd::utf8::encode_utf8("false"@)
        },
        JValue::Num(JNumber::Int(i)) => vstd::utf8::encode_utf8(dec_str_signed(i as int)),
        JValue::Num(JNumber::Real(x)) => vstd::utf8::encode_utf8(H::real_text_spec(x)),
        JValue::Str(s) => seq![0x22u8] + escape_bytes(vstd::utf8::encode_utf8(s@)) + seq![
            0x22u8,
        ],
        JValue::Array(elements) => seq![0x5bu8] + json_list_bytes(h, elements@) + seq![0x5du8],
        JValue::Object(entries) => seq![0x7bu8] + json_entries_bytes(h, entries@) + seq![0x7du8],
    }
}

/// The bytes of an array's comma-separated elements.
pub open spec fn json_list_bytes<H: Host>(h: &H, s: Seq<JValue>) -> Seq<u8>
    decreases s,
{
    if s.len() == 0 {
        Seq::empty()
    } else if s.len() == 1 {
        json_bytes(h, s[0])
    } else {
        json_list_bytes(h, s.drop_last()) + seq![0x2cu8] + json_bytes(h, s.last())
    }
}

/// The bytes of an object's comma-separated `"key":value` entries.
pub open spec fn json_entries_bytes<H: Host>(h: &H, s: Seq<(String, JValue)>) -> Seq<u8>
    decreases s,
{
    if s.len() == 0 {
        Seq::empty()
    } else if s.len() == 1 {
        seq![0x22u8] + escape_bytes(vstd::utf8::encode_utf8(s[0].0@)) + seq![0x22u8, 0x3au8]
            + json_bytes(h, s[0].1)
    } else {
        json_entries_bytes(h, s.drop_last()) + seq![0x2cu8] + seq![0x22u8] + escape_bytes(
            vstd::utf8::encode_utf8(s.last().0@),
        ) + seq![0x22u8, 0x3au8] + json_bytes(h, s.last().1)
    }
}

/// Render a JSON value as UTF-8 bytes.
#[verifier::loop_isolation(false)]
#[verifier::rlimit(30)]
pub fn json_to_bytes<H: Host>(h: &H, v: &JValue, out: &mut Vec<u8>)
    ensures
        final(out)@ == old(out)@ + json_bytes(h, *v),
    decreases *v,
{
    match v {
        JValue::Null => {
            let bytes = "null".as_bytes();
            append_bytes(out, bytes);
        },
        JValue::Bool(b) => {
            let bytes = if *b {
                "true".as_bytes()
            } else {
                "false".as_bytes()
            };
            append_bytes(out, bytes);
        },
        JValue::Num(JNumber::Int(i)) => {
            let text = i64_to_string(*i);
            let bytes = text.as_str().as_bytes();
            append_bytes(out, bytes);
        },
        JValue::Num(JNumber::Real(x)) => {
            let text = h.real_to_text(*x);
            let bytes = text.as_str().as_bytes();
            append_bytes(out, bytes);
        },
        JValue::Str(s) => {
            push_json_string(out, s.as_str());
        },
        JValue::Array(elements) => {
            out.push(0x5b);
            let n = elements.len();
            let mut i: usize = 0;
            while i < n
                invariant
                    i <= n,
                    out@ =~= old(out)@ + seq![0x5bu8] + json_list_bytes(
                        h,
                        elements@.subrange(0, i as int),
                    ),
                decreases n - i,
            {
                if i > 0 {
                    out.push(0x2c);
                }
                proof {
                    assert(decreases_to!(*v => elements@[i as int]));
                    assert(elements@.subrange(0, i as int + 1).drop_last() =~= elements@.subrange(
                        0,
                        i as int,
                    ));
                    assert(elements@.subrange(0, i as int + 1).last() == elements@[i as int]);
                }
                json_to_bytes(h, &elements[i], out);
                i = i + 1;
            }
            proof {
                assert(elements@.subrange(0, n as int) =~= elements@);
            }
            out.push(0x5d);
            proof {
                assert(out@ =~= old(out)@ + json_bytes(h, *v));
            }
        },
        JValue::Object(entries) => {
            out.push(0x7b);
            let n = entries.len();
            let mut i: usize = 0;
            while i < n
                invariant
                    i <= n,
                    out@ =~= old(out)@ + seq![0x7bu8] + json_entries_bytes(
                        h,
                        entries@.subrange(0, i as int),
                    ),
                decreases n - i,
            {
                if i > 0 {
                    out.push(0x2c);
                }
                push_json_string(out, entries[i].0.as_str());
                out.push(0x3a);
                proof {
                    assert(decreases_to!(*v => entries@[i as int].1));
                    assert(entries@.subrange(0, i as int + 1).drop_last() =~= entries@.subrange(
                        0,
                        i as int,
                    ));
                    assert(entries@.subrange(0, i as int + 1).last() == entries@[i as int]);
                }
                json_to_bytes(h, &entries[i].1, out);
                i = i + 1;
            }
            proof {
                assert(entries@.subrange(0, n as int) =~= entries@);
            }
            out.push(0x7d);
            proof {
                assert(out@ =~= old(out)@ + json_bytes(h, *v));
            }
        },
    }
}

fn append_bytes(out: &mut Vec<u8>, bytes: &[u8])
    ensures
        final(out)@ == old(out)@ + bytes@,
{
    let mut i: usize = 0;
    while i < bytes.len()
        invariant
            i <= bytes@.len(),
            out@ =~= old(out)@ + bytes@.subrange(0, i as int),
        decreases bytes@.len() - i,
    {
        out.push(bytes[i]);
        proof {
            assert(bytes@.subrange(0, i as int + 1).drop_last() =~= bytes@.subrange(0, i as int));
        }
        i = i + 1;
    }
    proof {
        assert(bytes@.subrange(0, bytes@.len() as int) =~= bytes@);
    }
}

/// Relies on `String::from_utf8`: it succeeds exactly on valid UTF-8,
/// and the returned string encodes exactly the given bytes.
#[verifier::external_body]
fn string_from_utf8(bytes: Vec<u8>) -> (r: Option<String>)
    ensures
        r matches Option::Some(s) ==> vstd::utf8::encode_utf8(s@) == bytes@,
        vstd::utf8::valid_utf8(bytes@) ==> r is Some,
{
    String::from_utf8(bytes).ok()
}

/// Render a JSON value as text.  The bytes produced by the writer came
/// from well-formed strings, so decoding only fails if the host's number
/// rendering was malformed; that case surfaces as `None`.
pub fn json_to_string<H: Host>(h: &H, v: &JValue) -> (r: Option<String>)
    ensures
        r matches Option::Some(s) ==> vstd::utf8::encode_utf8(s@) == json_bytes(h, *v),
{
    let mut out: Vec<u8> = Vec::new();
    json_to_bytes(h, v, &mut out);
    proof {
        assert(out@ =~= json_bytes(h, *v));
    }
    string_from_utf8(out)
}

} // verus!

verus! {

/// The `"type"` discriminant a value serializes under.
pub open spec fn spec_type_tag(item: MemoryItem) -> Seq<char> {
    match item {
        MemoryItem::UserVal(_) => "UserVal"@,
        MemoryItem::Plane(_) => "Plane"@,
        MemoryItem::Face(_) => "Face"@,
        MemoryItem::SketchGroup(_) => "SketchGroup"@,
        MemoryItem::SketchGroups { .. } => "SketchGroups"@,
        MemoryItem::ExtrudeGroup(_) => "ExtrudeGroup"@,
        MemoryItem::ExtrudeGroups { .. } => "ExtrudeGroups"@,
        MemoryItem::ImportedGeometry(_) => "ImportedGeometry"@,
        MemoryItem::Function { .. } => "Function"@,
    }
}

/// The canonical text of a plane type.
pub open spec fn plane_type_text(pt: crate::values::PlaneType) -> Seq<char> {
    match pt {
        crate::values::PlaneType::XY => "XY"@,
        crate::values::PlaneType::XZ => "XZ"@,
        crate::values::PlaneType::YZ => "YZ"@,
        crate::values::PlaneType::Custom => "Custom"@,
    }
}

/// A JSON value that is the hyphenated text of an identifier.
pub open spec fn is_uuid_json(v: JValue, id: Uuid) -> bool {
    v matches JValue::Str(s) && s@ == uuid_text(id.bits)
}

/// A JSON value that is an identifier or `null`.
pub open spec fn is_opt_uuid_json(v: JValue, id: Option<Uuid>) -> bool {
    match id {
        Option::Some(u) => is_uuid_json(v, u),
        Option::None => v is Null,
    }
}

/// A JSON value that is a double or `null`.
pub open spec fn is_opt_real_json(v: JValue, x: Option<Real>) -> bool {
    match x {
        Option::Some(r) => v == JValue::Num(JNumber::Real(r)),
        Option::None => v is Null,
    }
}

/// A JSON value that is a `[start, end]` source-range array.
pub open spec fn is_range_json(v: JValue, sr: SourceRange) -> bool {
    &&& v matches JValue::Array(a)
    &&& a@.len() == 2
    &&& a@[0] == JValue::Num(JNumber::Int(i64_of_usize(sr.spec_start())))
    &&& a@[1] == JValue::Num(JNumber::Int(i64_of_usize(sr.spec_end())))
}

/// A JSON value that is one metadata record.
pub open spec fn is_metadata_json(v: JValue, m: Metadata) -> bool {
    &&& v matches JValue::Object(e)
    &&& e@.len() == 1
    &&& e@[0].0@ == "sourceRange"@
    &&& is_range_json(e@[0].1, m.source_range)
}

/// A JSON value that is a metadata list.
pub open spec fn is_meta_list_json(v: JValue, meta: Seq<Metadata>) -> bool {
    &&& v matches JValue::Array(a)
    &&& a@.len() == meta.len()
    &&& forall|i: int| 0 <= i < meta.len() ==> is_metadata_json(#[trigger] a@[i], meta[i])
}

/// A JSON value that is an `[x, y]` point.
pub open spec fn is_point2d_json(v: JValue, p: Point2d) -> bool {
    &&& v matches JValue::Array(a)
    &&& a@.len() == 2
    &&& a@[0] == JValue::Num(JNumber::Real(p.x))
    &&& a@[1] == JValue::Num(JNumber::Real(p.y))
}

/// A JSON value that is an `{x, y, z}` point object.
pub open spec fn is_point3d_json(v: JValue, p: Point3d) -> bool {
    &&& v matches JValue::Object(e)
    &&& e@.len() == 3
    &&& e@[0].0@ == "x"@ && e@[0].1 == JValue::Num(JNumber::Real(p.x))
    &&& e@[1].0@ == "y"@ && e@[1].1 == JValue::Num(JNumber::Real(p.y))
    &&& e@[2].0@ == "z"@ && e@[2].1 == JValue::Num(JNumber::Real(p.z))
}

/// A JSON value that is an `[x, y, z]` position array.
pub open spec fn is_position_json(v: JValue, p: Position) -> bool {
    &&& v matches JValue::Array(a)
    &&& a@.len() == 3
    &&& a@[0] == JValue::Num(JNumber::Real(p.x))
    &&& a@[1] == JValue::Num(JNumber::Real(p.y))
    &&& a@[2] == JValue::Num(JNumber::Real(p.z))
}

/// A JSON value that is an `[x, y, z, w]` rotation array.
pub open spec fn is_rotation_json(v: JValue, p: Rotation) -> bool {
    &&& v matches JValue::Array(a)
    &&& a@.len() == 4
    &&& a@[0] == JValue::Num(JNumber::Real(p.x))
    &&& a@[1] == JValue::Num(JNumber::Real(p.y))
    &&& a@[2] == JValue::Num(JNumber::Real(p.z))
    &&& a@[3] == JValue::Num(JNumber::Real(p.w))
}

/// A JSON value that is a geometry-metadata object: the id and the
/// flattened source range.
pub open spec fn is_geo_meta_json(v: JValue, g: GeoMeta) -> bool {
    &&& v matches JValue::Object(e)
    &&& e@.len() == 2
    &&& e@[0].0@ == "id"@ && is_uuid_json(e@[0].1, g.id)
    &&& e@[1].0@ == "sourceRange"@ && is_range_json(e@[1].1, g.metadata.source_range)
}

/// The four flattened base-path entries, starting at position `at`.
pub open spec fn base_path_fields(entries: Seq<(String, JValue)>, at: int, b: BasePath) -> bool {
    &&& 0 <= at && at + 4 <= entries.len()
    &&& entries[at].0@ == "from"@ && is_point2d_json(entries[at].1, b.from)
    &&& entries[at + 1].0@ == "to"@ && is_point2d_json(entries[at + 1].1, b.to)
    &&& entries[at + 2].0@ == "name"@ && (entries[at + 2].1 matches JValue::Str(s) && s@
        == b.name@)
    &&& entries[at + 3].0@ == "__geoMeta"@ && is_geo_meta_json(entries[at + 3].1, b.geo_meta)
}

/// A JSON value that is one path segment in its tagged form.
pub open spec fn is_path_json(v: JValue, path: Path) -> bool {
    &&& v matches JValue::Object(e)
    &&& e@[0].0@ == "type"@
    &&& match path {
        Path::ToPoint { base } => e@.len() == 5 && (e@[0].1 matches JValue::Str(t) && t@
            == "ToPoint"@) && base_path_fields(e@, 1, base),
        Path::TangentialArcTo { base, center, ccw } => e@.len() == 7 && (e@[0].1 matches
            JValue::Str(t) && t@ == "TangentialArcTo"@) && base_path_fields(e@, 1, base)
            && e@[5].0@ == "center"@ && is_point2d_json(e@[5].1, center) && e@[6].0@ == "ccw"@
            && e@[6].1 == JValue::Bool(ccw),
        Path::TangentialArc { base } => e@.len() == 5 && (e@[0].1 matches JValue::Str(t) && t@
            == "TangentialArc"@) && base_path_fields(e@, 1, base),
        Path::Horizontal { base, x } => e@.len() == 6 && (e@[0].1 matches JValue::Str(t) && t@
            == "Horizontal"@) && base_path_fields(e@, 1, base) && e@[5].0@ == "x"@ && e@[5].1
            == JValue::Num(JNumber::Real(x)),
        Path::AngledLineTo { base, x, y } => e@.len() == 7 && (e@[0].1 matches JValue::Str(t)
            && t@ == "AngledLineTo"@) && base_path_fields(e@, 1, base) && e@[5].0@ == "x"@
            && is_opt_real_json(e@[5].1, x) && e@[6].0@ == "y"@ && is_opt_real_json(e@[6].1, y),
        Path::Base { base } => e@.len() == 5 && (e@[0].1 matches JValue::Str(t) && t@ == "Base"@)
            && base_path_fields(e@, 1, base),
    }
}

/// A JSON value that is a path list.
pub open spec fn is_path_list_json(v: JValue, paths: Seq<Path>) -> bool {
    &&& v matches JValue::Array(a)
    &&& a@.len() == paths.len()
    &&& forall|i: int| 0 <= i < paths.len() ==> is_path_json(#[trigger] a@[i], paths[i])
}

/// The common payload entries of a plane, starting after the tag.
pub open spec fn plane_payload_fields(entries: Seq<(String, JValue)>, p: Plane) -> bool {
    &&& entries.len() == 8
    &&& entries[1].0@ == "id"@ && is_uuid_json(entries[1].1, p.id)
    &&& entries[2].0@ == "value"@ && (entries[2].1 matches JValue::Str(t) && t@
        == plane_type_text(p.value))
    &&& entries[3].0@ == "origin"@ && is_point3d_json(entries[3].1, p.origin)
    &&& entries[4].0@ == "xAxis"@ && is_point3d_json(entries[4].1, p.x_axis)
    &&& entries[5].0@ == "yAxis"@ && is_point3d_json(entries[5].1, p.y_axis)
    &&& entries[6].0@ == "zAxis"@ && is_point3d_json(entries[6].1, p.z_axis)
    &&& entries[7].0@ == "__meta"@ && is_meta_list_json(entries[7].1, p.meta@)
}

/// The common payload entries of a face, starting after the tag.
pub open spec fn face_payload_fields(entries: Seq<(String, JValue)>, f: Face) -> bool {
    &&& entries.len() == 9
    &&& entries[1].0@ == "id"@ && is_uuid_json(entries[1].1, f.id)
    &&& entries[2].0@ == "value"@ && (entries[2].1 matches JValue::Str(t) && t@ == f.value@)
    &&& entries[3].0@ == "sketchGroupId"@ && is_uuid_json(entries[3].1, f.sketch_group_id)
    &&& entries[4].0@ == "xAxis"@ && is_point3d_json(entries[4].1, f.x_axis)
    &&& entries[5].0@ == "yAxis"@ && is_point3d_json(entries[5].1, f.y_axis)
    &&& entries[6].0@ == "zAxis"@ && is_point3d_json(entries[6].1, f.z_axis)
    &&& entries[7].0@ == "faceId"@ && is_uuid_json(entries[7].1, f.face_id)
    &&& entries[8].0@ == "__meta"@ && is_meta_list_json(entries[8].1, f.meta@)
}

/// A JSON value that is the sketch surface in its tagged form.
pub open spec fn is_surface_json(v: JValue, on: SketchSurface) -> bool {
    &&& v matches JValue::Object(e)
    &&& e@[0].0@ == "type"@
    &&& match on {
        SketchSurface::Plane(p) => (e@[0].1 matches JValue::Str(t) && t@ == "plane"@)
            && plane_payload_fields(e@, *p),
        SketchSurface::Face(f) => (e@[0].1 matches JValue::Str(t) && t@ == "face"@)
            && face_payload_fields(e@, *f),
    }
}

/// A JSON value that is a whole base path object.
pub open spec fn is_base_path_json(v: JValue, b: BasePath) -> bool {
    &&& v matches JValue::Object(e)
    &&& e@.len() == 4
    &&& base_path_fields(e@, 0, b)
}

/// The entry list a sketch group serializes to.
pub open spec fn sketch_group_fields(entries: Seq<(String, JValue)>, sg: SketchGroup) -> bool {
    &&& entries.len() == 12
    &&& entries[0].0@ == "type"@ && (entries[0].1 matches JValue::Str(t) && t@ == "SketchGroup"@)
    &&& entries[1].0@ == "id"@ && is_uuid_json(entries[1].1, sg.id)
    &&& entries[2].0@ == "value"@ && is_path_list_json(entries[2].1, sg.value@)
    &&& entries[3].0@ == "on"@ && is_surface_json(entries[3].1, sg.on)
    &&& entries[4].0@ == "start"@ && is_base_path_json(entries[4].1, sg.start)
    &&& entries[5].0@ == "position"@ && is_position_json(entries[5].1, sg.position)
    &&& entries[6].0@ == "rotation"@ && is_rotation_json(entries[6].1, sg.rotation)
    &&& entries[7].0@ == "xAxis"@ && is_point3d_json(entries[7].1, sg.x_axis)
    &&& entries[8].0@ == "yAxis"@ && is_point3d_json(entries[8].1, sg.y_axis)
    &&& entries[9].0@ == "zAxis"@ && is_point3d_json(entries[9].1, sg.z_axis)
    &&& entries[10].0@ == "entityId"@ && is_opt_uuid_json(entries[10].1, sg.entity_id)
    &&& entries[11].0@ == "__meta"@ && is_meta_list_json(entries[11].1, sg.meta@)
}

/// A JSON value that is one extrude surface in its tagged form.
pub open spec fn is_extrude_surface_json(v: JValue, surface: ExtrudeSurface) -> bool {
    &&& v matches JValue::Object(e)
    &&& e@.len() == 7
    &&& e@[0].0@ == "type"@
    &&& match surface {
        ExtrudeSurface::ExtrudePlane(p) => (e@[0].1 matches JValue::Str(t) && t@
            == "extrudePlane"@) && e@[1].0@ == "position"@ && is_position_json(e@[1].1, p.position)
            && e@[2].0@ == "rotation"@ && is_rotation_json(e@[2].1, p.rotation) && e@[3].0@
            == "faceId"@ && is_uuid_json(e@[3].1, p.face_id) && e@[4].0@ == "name"@ && (e@[4].1
            matches JValue::Str(nm) && nm@ == p.name@) && e@[5].0@ == "id"@ && is_uuid_json(
            e@[5].1,
            p.geo_meta.id,
        ) && e@[6].0@ == "sourceRange"@ && is_range_json(e@[6].1, p.geo_meta.metadata.source_range),
        ExtrudeSurface::ExtrudeArc(a) => (e@[0].1 matches JValue::Str(t) && t@ == "extrudeArc"@)
            && e@[1].0@ == "position"@ && is_position_json(e@[1].1, a.position) && e@[2].0@
            == "rotation"@ && is_rotation_json(e@[2].1, a.rotation) && e@[3].0@ == "faceId"@
            && is_uuid_json(e@[3].1, a.face_id) && e@[4].0@ == "name"@ && (e@[4].1 matches
            JValue::Str(nm) && nm@ == a.name@) && e@[5].0@ == "id"@ && is_uuid_json(
            e@[5].1,
            a.geo_meta.id,
        ) && e@[6].0@ == "sourceRange"@ && is_range_json(e@[6].1, a.geo_meta.metadata.source_range),
    }
}

/// The entry list an extrude group serializes to.
pub open spec fn extrude_group_fields(entries: Seq<(String, JValue)>, eg: ExtrudeGroup) -> bool {
    &&& entries.len() == 13
    &&& entries[0].0@ == "type"@ && (entries[0].1 matches JValue::Str(t) && t@ == "ExtrudeGroup"@)
    &&& entries[1].0@ == "id"@ && is_uuid_json(entries[1].1, eg.id)
    &&& entries[2].0@ == "value"@ && (entries[2].1 matches JValue::Array(a) && a@.len()
        == eg.value@.len() && (forall|i: int|
        0 <= i < eg.value@.len() ==> is_extrude_surface_json(#[trigger] a@[i], eg.value@[i])))
    &&& entries[3].0@ == "sketchGroupValues"@ && is_path_list_json(
        entries[3].1,
        eg.sketch_group_values@,
    )
    &&& entries[4].0@ == "height"@ && entries[4].1 == JValue::Num(JNumber::Real(eg.height))
    &&& entries[5].0@ == "position"@ && is_position_json(entries[5].1, eg.position)
    &&& entries[6].0@ == "rotation"@ && is_rotation_json(entries[6].1, eg.rotation)
    &&& entries[7].0@ == "xAxis"@ && is_point3d_json(entries[7].1, eg.x_axis)
    &&& entries[8].0@ == "yAxis"@ && is_point3d_json(entries[8].1, eg.y_axis)
    &&& entries[9].0@ == "zAxis"@ && is_point3d_json(entries[9].1, eg.z_axis)
    &&& entries[10].0@ == "startCapId"@ && is_opt_uuid_json(entries[10].1, eg.start_cap_id)
    &&& entries[11].0@ == "endCapId"@ && is_opt_uuid_json(entries[11].1, eg.end_cap_id)
    &&& entries[12].0@ == "__meta"@ && is_meta_list_json(entries[12].1, eg.meta@)
}

/// Whether a JSON value is an object carrying an extrude group's entry
/// list.
pub open spec fn extrude_group_fields_of(v: JValue, eg: ExtrudeGroup) -> bool {
    v matches JValue::Object(e) && extrude_group_fields(e@, eg)
}

/// Whether a JSON value is a tagged object whose `"value"` key holds an
/// array of exactly `n` objects, each tagged `member_tag`.
pub open spec fn group_list_json(v: JValue, member_tag: Seq<char>, n: int) -> bool {
    &&& v matches JValue::Object(entries)
    &&& crate::json::obj_lookup(entries@, "value"@) matches Option::Some(items)
    &&& items matches JValue::Array(arr)
    &&& arr@.len() == n
    &&& forall|k: int| 0 <= k < n ==> has_type_tag(#[trigger] arr@[k], member_tag)
}

/// Whether a JSON value is a tagged object whose `"type"` key holds `tag`.
pub open spec fn has_type_tag(v: JValue, tag: Seq<char>) -> bool {
    &&& v matches JValue::Object(entries)
    &&& crate::json::obj_lookup(entries@, "type"@) matches Option::Some(t)
    &&& t matches JValue::Str(s)
    &&& s@ == tag
}

fn jstr(s: &str) -> (r: JValue)
    ensures
        r matches JValue::Str(p) && p@ == s@,
{
    JValue::Str(Rc::new(s.to_owned()))
}

/// A byte offset as a JSON integer; offsets beyond the signed range are
/// pinned to the largest representable value.
pub open spec fn i64_of_usize(n: usize) -> i64 {
    if n > i64::MAX {
        i64::MAX
    } else {
        n as i64
    }
}

fn jint_from_usize(n: usize) -> (r: JValue)
    ensures
        r == JValue::Num(JNumber::Int(i64_of_usize(n))),
{
    if (n as u64) > 0x7fff_ffff_ffff_ffffu64 {
        JValue::from_i64(i64::MAX)
    } else {
        JValue::from_i64(n as i64)
    }
}

/// Entries opened with the `"type"` discriminant.
fn tagged_entries(tag: &str) -> (r: Vec<(String, JValue)>)
    ensures
        r@.len() == 1,
        r@[0].0@ == "type"@,
        r@[0].1 matches JValue::Str(t) && t@ == tag@,
{
    let mut entries: Vec<(String, JValue)> = Vec::new();
    entries.push(("type".to_owned(), jstr(tag)));
    entries
}

fn source_range_json(sr: &SourceRange) -> (r: JValue)
    ensures
        is_range_json(r, *sr),
{
    let mut items: Vec<JValue> = Vec::new();
    items.push(jint_from_usize(sr.start()));
    items.push(jint_from_usize(sr.end()));
    JValue::Array(Rc::new(items))
}

fn metadata_json(m: &Metadata) -> (r: JValue)
    ensures
        is_metadata_json(r, *m),
{
    let mut entries: Vec<(String, JValue)> = Vec::new();
    entries.push(("sourceRange".to_owned(), source_range_json(&m.source_range)));
    JValue::Object(Rc::new(entries))
}

#[verifier::loop_isolation(false)]
fn meta_list_json(meta: &Vec<Metadata>) -> (r: JValue)
    ensures
        is_meta_list_json(r, meta@),
{
    let mut items: Vec<JValue> = Vec::new();
    let mut i: usize = 0;
    while i < meta.len()
        invariant
            i <= meta@.len(),
            items@.len() == i as int,
            forall|k: int| 0 <= k < i ==> is_metadata_json(#[trigger] items@[k], meta@[k]),
        decreases meta@.len() - i,
    {
        items.push(metadata_json(&meta[i]));
        i = i + 1;
    }
    JValue::Array(Rc::new(items))
}

fn uuid_json(id: &Uuid) -> (r: JValue)
    ensures
        is_uuid_json(r, *id),
{
    JValue::Str(Rc::new(uuid_to_string(id)))
}

fn option_uuid_json(id: &Option<Uuid>) -> (r: JValue)
    ensures
        is_opt_uuid_json(r, *id),
{
    match id {
        Option::Some(u) => uuid_json(u),
        Option::None => JValue::Null,
    }
}

fn real_json(x: Real) -> (r: JValue)
    ensures
        r == JValue::Num(JNumber::Real(x)),
{
    JValue::from_real(x)
}

fn option_real_json(x: &Option<Real>) -> (r: JValue)
    ensures
        is_opt_real_json(r, *x),
{
    match x {
        Option::Some(v) => real_json(*v),
        Option::None => JValue::Null,
    }
}

fn point2d_json(p: &Point2d) -> (r: JValue)
    ensures
        is_point2d_json(r, *p),
{
    let mut items: Vec<JValue> = Vec::new();
    items.push(real_json(p.x));
    items.push(real_json(p.y));
    JValue::Array(Rc::new(items))
}

fn point3d_json(p: &Point3d) -> (r: JValue)
    ensures
        is_point3d_json(r, *p),
{
    let mut entries: Vec<(String, JValue)> = Vec::new();
    entries.push(("x".to_owned(), real_json(p.x)));
    entries.push(("y".to_owned(), real_json(p.y)));
    entries.push(("z".to_owned(), real_json(p.z)));
    JValue::Object(Rc::new(entries))
}

fn position_json(p: &Position) -> (r: JValue)
    ensures
        is_position_json(r, *p),
{
    let mut items: Vec<JValue> = Vec::new();
    items.push(real_json(p.x));
    items.push(real_json(p.y));
    items.push(real_json(p.z));
    JValue::Array(Rc::new(items))
}

fn rotation_json(p: &Rotation) -> (r: JValue)
    ensures
        is_rotation_json(r, *p),
{
    let mut items: Vec<JValue> = Vec::new();
    items.push(real_json(p.x));
    items.push(real_json(p.y));
    items.push(real_json(p.z));
    items.push(real_json(p.w));
    JValue::Array(Rc::new(items))
}

fn geo_meta_json(g: &GeoMeta) -> (r: JValue)
    ensures
        is_geo_meta_json(r, *g),
{
    let mut entries: Vec<(String, JValue)> = Vec::new();
    entries.push(("id".to_owned(), uuid_json(&g.id)));
    entries.push(("sourceRange".to_owned(), source_range_json(&g.metadata.source_range)));
    JValue::Object(Rc::new(entries))
}

fn push_base_path_entries(entries: &mut Vec<(String, JValue)>, base: &BasePath)
    ensures
        final(entries)@.len() == old(entries)@.len() + 4,
        final(entries)@.subrange(0, old(entries)@.len() as int) == old(entries)@,
        base_path_fields(final(entries)@, old(entries)@.len() as int, *base),
{
    entries.push(("from".to_owned(), point2d_json(&base.from)));
    entries.push(("to".to_owned(), point2d_json(&base.to)));
    entries.push(("name".to_owned(), jstr(base.name.as_str())));
    entries.push(("__geoMeta".to_owned(), geo_meta_json(&base.geo_meta)));
}

fn base_path_json(base: &BasePath) -> (r: JValue)
    ensures
        is_base_path_json(r, *base),
{
    let mut entries: Vec<(String, JValue)> = Vec::new();
    push_base_path_entries(&mut entries, base);
    JValue::Object(Rc::new(entries))
}

fn path_json(path: &Path) -> (r: JValue)
    ensures
        is_path_json(r, *path),
{
    match path {
        Path::ToPoint { base } => {
            let mut entries = tagged_entries("ToPoint");
            push_base_path_entries(&mut entries, base);
            JValue::Object(Rc::new(entries))
        },
        Path::TangentialArcTo { base, center, ccw } => {
            let mut entries = tagged_entries("TangentialArcTo");
            push_base_path_entries(&mut entries, base);
            entries.push(("center".to_owned(), point2d_json(center)));
            entries.push(("ccw".to_owned(), JValue::Bool(*ccw)));
            JValue::Object(Rc::new(entries))
        },
        Path::TangentialArc { base } => {
            let mut entries = tagged_entries("TangentialArc");
            push_base_path_entries(&mut entries, base);
            JValue::Object(Rc::new(entries))
        },
        Path::Horizontal { base, x } => {
            let mut entries = tagged_entries("Horizontal");
            push_base_path_entries(&mut entries, base);
            entries.push(("x".to_owned(), real_json(*x)));
            JValue::Object(Rc::new(entries))
        },
        Path::AngledLineTo { base, x, y } => {
            let mut entries = tagged_entries("AngledLineTo");
            push_base_path_entries(&mut entries, base);
            entries.push(("x".to_owned(), option_real_json(x)));
            entries.push(("y".to_owned(), option_real_json(y)));
            JValue::Object(Rc::new(entries))
        },
        Path::Base { base } => {
            let mut entries = tagged_entries("Base");
            push_base_path_entries(&mut entries, base);
            JValue::Object(Rc::new(entries))
        },
    }
}

#[verifier::loop_isolation(false)]
fn path_list_json(paths: &Vec<Path>) -> (r: JValue)
    ensures
        is_path_list_json(r, paths@),
{
    let mut items: Vec<JValue> = Vec::new();
    let mut i: usize = 0;
    while i < paths.len()
        invariant
            i <= paths@.len(),
            items@.len() == i as int,
            forall|k: int| 0 <= k < i ==> is_path_json(#[trigger] items@[k], paths@[k]),
        decreases paths@.len() - i,
    {
        items.push(path_json(&paths[i]));
        i = i + 1;
    }
    JValue::Array(Rc::new(items))
}

fn plane_entries(p: &Plane) -> (r: Vec<(String, JValue)>)
    ensures
        r@[0].0@ == "type"@,
        r@[0].1 matches JValue::Str(t) && t@ == "Plane"@,
        plane_payload_fields(r@, *p),
{
    let mut entries = tagged_entries("Plane");
    entries.push(("id".to_owned(), uuid_json(&p.id)));
    entries.push(("value".to_owned(), jstr(p.value.as_text())));
    entries.push(("origin".to_owned(), point3d_json(&p.origin)));
    entries.push(("xAxis".to_owned(), point3d_json(&p.x_axis)));
    entries.push(("yAxis".to_owned(), point3d_json(&p.y_axis)));
    entries.push(("zAxis".to_owned(), point3d_json(&p.z_axis)));
    entries.push(("__meta".to_owned(), meta_list_json(&p.meta)));
    entries
}

fn face_entries(f: &Face) -> (r: Vec<(String, JValue)>)
    ensures
        r@[0].0@ == "type"@,
        r@[0].1 matches JValue::Str(t) && t@ == "Face"@,
        face_payload_fields(r@, *f),
{
    let mut entries = tagged_entries("Face");
    entries.push(("id".to_owned(), uuid_json(&f.id)));
    entries.push(("value".to_owned(), jstr(f.value.as_str())));
    entries.push(("sketchGroupId".to_owned(), uuid_json(&f.sketch_group_id)));
    entries.push(("xAxis".to_owned(), point3d_json(&f.x_axis)));
    entries.push(("yAxis".to_owned(), point3d_json(&f.y_axis)));
    entries.push(("zAxis".to_owned(), point3d_json(&f.z_axis)));
    entries.push(("faceId".to_owned(), uuid_json(&f.face_id)));
    entries.push(("__meta".to_owned(), meta_list_json(&f.meta)));
    entries
}

fn sketch_surface_json(on: &SketchSurface) -> (r: JValue)
    ensures
        is_surface_json(r, *on),
{
    match on {
        SketchSurface::Plane(p) => {
            let mut entries = tagged_entries("plane");
            entries.push(("id".to_owned(), uuid_json(&p.id)));
            entries.push(("value".to_owned(), jstr(p.value.as_text())));
            entries.push(("origin".to_owned(), point3d_json(&p.origin)));
            entries.push(("xAxis".to_owned(), point3d_json(&p.x_axis)));
            entries.push(("yAxis".to_owned(), point3d_json(&p.y_axis)));
            entries.push(("zAxis".to_owned(), point3d_json(&p.z_axis)));
            entries.push(("__meta".to_owned(), meta_list_json(&p.meta)));
            JValue::Object(Rc::new(entries))
        },
        SketchSurface::Face(f) => {
            let mut entries = tagged_entries("face");
            entries.push(("id".to_owned(), uuid_json(&f.id)));
            entries.push(("value".to_owned(), jstr(f.value.as_str())));
            entries.push(("sketchGroupId".to_owned(), uuid_json(&f.sketch_group_id)));
            entries.push(("xAxis".to_owned(), point3d_json(&f.x_axis)));
            entries.push(("yAxis".to_owned(), point3d_json(&f.y_axis)));
            entries.push(("zAxis".to_owned(), point3d_json(&f.z_axis)));
            entries.push(("faceId".to_owned(), uuid_json(&f.face_id)));
            entries.push(("__meta".to_owned(), meta_list_json(&f.meta)));
            JValue::Object(Rc::new(entries))
        },
    }
}

fn sketch_group_entries(sg: &SketchGroup) -> (r: Vec<(String, JValue)>)
    ensures
        sketch_group_fields(r@, *sg),
{
    let mut entries = tagged_entries("SketchGroup");
    entries.push(("id".to_owned(), uuid_json(&sg.id)));
    entries.push(("value".to_owned(), path_list_json(&sg.value)));
    entries.push(("on".to_owned(), sketch_surface_json(&sg.on)));
    entries.push(("start".to_owned(), base_path_json(&sg.start)));
    entries.push(("position".to_owned(), position_json(&sg.position)));
    entries.push(("rotation".to_owned(), rotation_json(&sg.rotation)));
    entries.push(("xAxis".to_owned(), point3d_json(&sg.x_axis)));
    entries.push(("yAxis".to_owned(), point3d_json(&sg.y_axis)));
    entries.push(("zAxis".to_owned(), point3d_json(&sg.z_axis)));
    entries.push(("entityId".to_owned(), option_uuid_json(&sg.entity_id)));
    entries.push(("__meta".to_owned(), meta_list_json(&sg.meta)));
    entries
}

fn extrude_surface_json(surface: &ExtrudeSurface) -> (r: JValue)
    ensures
        is_extrude_surface_json(r, *surface),
{
    match surface {
        ExtrudeSurface::ExtrudePlane(p) => {
            let mut entries = tagged_entries("extrudePlane");
            entries.push(("position".to_owned(), position_json(&p.position)));
            entries.push(("rotation".to_owned(), rotation_json(&p.rotation)));
            entries.push(("faceId".to_owned(), uuid_json(&p.face_id)));
            entries.push(("name".to_owned(), jstr(p.name.as_str())));
            entries.push(("id".to_owned(), uuid_json(&p.geo_meta.id)));
            entries.push((
                "sourceRange".to_owned(),
                source_range_json(&p.geo_meta.metadata.source_range),
            ));
            JValue::Object(Rc::new(entries))
        },
        ExtrudeSurface::ExtrudeArc(a) => {
            let mut entries = tagged_entries("extrudeArc");
            entries.push(("position".to_owned(), position_json(&a.position)));
            entries.push(("rotation".to_owned(), rotation_json(&a.rotation)));
            entries.push(("faceId".to_owned(), uuid_json(&a.face_id)));
            entries.push(("name".to_owned(), jstr(a.name.as_str())));
            entries.push(("id".to_owned(), uuid_json(&a.geo_meta.id)));
            entries.push((
                "sourceRange".to_owned(),
                source_range_json(&a.geo_meta.metadata.source_range),
            ));
            JValue::Object(Rc::new(entries))
        },
    }
}

#[verifier::loop_isolation(false)]
fn extrude_group_entries(eg: &ExtrudeGroup) -> (r: Vec<(String, JValue)>)
    ensures
        extrude_group_fields(r@, *eg),
{
    let mut entries = tagged_entries("ExtrudeGroup");
    entries.push(("id".to_owned(), uuid_json(&eg.id)));
    let mut surfaces: Vec<JValue> = Vec::new();
    let mut i: usize = 0;
    while i < eg.value.len()
        invariant
            i <= eg.value@.len(),
            surfaces@.len() == i as int,
            forall|k: int|
                0 <= k < i ==> is_extrude_surface_json(#[trigger] surfaces@[k], eg.value@[k]),
        decreases eg.value@.len() - i,
    {
        surfaces.push(extrude_surface_json(&eg.value[i]));
        i = i + 1;
    }
    entries.push(("value".to_owned(), JValue::Array(Rc::new(surfaces))));
    entries.push(("sketchGroupValues".to_owned(), path_list_json(&eg.sketch_group_values)));
    entries.push(("height".to_owned(), real_json(eg.height)));
    entries.push(("position".to_owned(), position_json(&eg.position)));
    entries.push(("rotation".to_owned(), rotation_json(&eg.rotation)));
    entries.push(("xAxis".to_owned(), point3d_json(&eg.x_axis)));
    entries.push(("yAxis".to_owned(), point3d_json(&eg.y_axis)));
    entries.push(("zAxis".to_owned(), point3d_json(&eg.z_axis)));
    entries.push(("startCapId".to_owned(), option_uuid_json(&eg.start_cap_id)));
    entries.push(("endCapId".to_owned(), option_uuid_json(&eg.end_cap_id)));
    entries.push(("__meta".to_owned(), meta_list_json(&eg.meta)));
    entries
}

} // verus!

verus! {

fn identifier_json(id: &crate::ast::Identifier) -> JValue {
    let mut entries: Vec<(String, JValue)> = Vec::new();
    entries.push(("start".to_owned(), jint_from_usize(id.start)));
    entries.push(("end".to_owned(), jint_from_usize(id.end)));
    entries.push(("name".to_owned(), jstr(id.name.as_str())));
    JValue::Object(Rc::new(entries))
}

fn literal_json(lit: &crate::ast::Literal) -> JValue {
    let mut entries = tagged_entries("Literal");
    entries.push(("start".to_owned(), jint_from_usize(lit.start)));
    entries.push(("end".to_owned(), jint_from_usize(lit.end)));
    entries.push(("value".to_owned(), lit.value.duplicate()));
    JValue::Object(Rc::new(entries))
}

#[verifier::loop_isolation(false)]
fn expr_json(e: &Expr) -> JValue
    decreases *e,
{
    match e {
        Expr::Literal(lit) => literal_json(lit),
        Expr::Identifier(id) => {
            let mut entries = tagged_entries("Identifier");
            entries.push(("start".to_owned(), jint_from_usize(id.start)));
            entries.push(("end".to_owned(), jint_from_usize(id.end)));
            entries.push(("name".to_owned(), jstr(id.name.as_str())));
            JValue::Object(Rc::new(entries))
        },
        Expr::BinaryExpression(b) => {
            let mut entries = tagged_entries("BinaryExpression");
            entries.push(("start".to_owned(), jint_from_usize(b.start)));
            entries.push(("end".to_owned(), jint_from_usize(b.end)));
            let op = match b.operator {
                crate::ast::BinaryOperator::Add => "+",
                crate::ast::BinaryOperator::Sub => "-",
                crate::ast::BinaryOperator::Mul => "*",
                crate::ast::BinaryOperator::Div => "/",
                crate::ast::BinaryOperator::Mod => "%",
                crate::ast::BinaryOperator::Pow => "^",
            };
            entries.push(("operator".to_owned(), jstr(op)));
            proof {
                assert(decreases_to!(*e => b.left));
                assert(decreases_to!(*e => b.right));
            }
            entries.push(("left".to_owned(), expr_json(&b.left)));
            entries.push(("right".to_owned(), expr_json(&b.right)));
            JValue::Object(Rc::new(entries))
        },
        Expr::UnaryExpression(u) => {
            let mut entries = tagged_entries("UnaryExpression");
            entries.push(("start".to_owned(), jint_from_usize(u.start)));
            entries.push(("end".to_owned(), jint_from_usize(u.end)));
            entries.push(("operator".to_owned(), jstr("-")));
            proof {
                assert(decreases_to!(*e => u.argument));
            }
            entries.push(("argument".to_owned(), expr_json(&u.argument)));
            JValue::Object(Rc::new(entries))
        },
        Expr::CallExpression(c) => {
            let mut entries = tagged_entries("CallExpression");
            entries.push(("start".to_owned(), jint_from_usize(c.start)));
            entries.push(("end".to_owned(), jint_from_usize(c.end)));
            entries.push(("callee".to_owned(), identifier_json(&c.callee)));
            let mut items: Vec<JValue> = Vec::new();
            let mut i: usize = 0;
            while i < c.arguments.len()
                decreases c.arguments@.len() - i,
            {
                proof {
                    assert(decreases_to!(*e => c.arguments@[i as int]));
                }
                items.push(expr_json(&c.arguments[i]));
                i = i + 1;
            }
            entries.push(("arguments".to_owned(), JValue::Array(Rc::new(items))));
            JValue::Object(Rc::new(entries))
        },
        Expr::PipeExpression(p) => {
            let mut entries = tagged_entries("PipeExpression");
            entries.push(("start".to_owned(), jint_from_usize(p.start)));
            entries.push(("end".to_owned(), jint_from_usize(p.end)));
            let mut items: Vec<JValue> = Vec::new();
            let mut i: usize = 0;
            while i < p.body.len()
                decreases p.body@.len() - i,
            {
                proof {
                    assert(decreases_to!(*e => p.body@[i as int]));
                }
                items.push(expr_json(&p.body[i]));
                i = i + 1;
            }
            entries.push(("body".to_owned(), JValue::Array(Rc::new(items))));
            JValue::Object(Rc::new(entries))
        },
        Expr::PipeSubstitution(p) => {
            let mut entries = tagged_entries("PipeSubstitution");
            entries.push(("start".to_owned(), jint_from_usize(p.start)));
            entries.push(("end".to_owned(), jint_from_usize(p.end)));
            JValue::Object(Rc::new(entries))
        },
        Expr::ArrayExpression(a) => {
            let mut entries = tagged_entries("ArrayExpression");
            entries.push(("start".to_owned(), jint_from_usize(a.start)));
            entries.push(("end".to_owned(), jint_from_usize(a.end)));
            let mut items: Vec<JValue> = Vec::new();
            let mut i: usize = 0;
            while i < a.elements.len()
                decreases a.elements@.len() - i,
            {
                proof {
                    assert(decreases_to!(*e => a.elements@[i as int]));
                }
                items.push(expr_json(&a.elements[i]));
                i = i + 1;
            }
            entries.push(("elements".to_owned(), JValue::Array(Rc::new(items))));
            JValue::Object(Rc::new(entries))
        },
        Expr::ObjectExpression(o) => {
            let mut entries = tagged_entries("ObjectExpression");
            entries.push(("start".to_owned(), jint_from_usize(o.start)));
            entries.push(("end".to_owned(), jint_from_usize(o.end)));
            let mut items: Vec<JValue> = Vec::new();
            let mut i: usize = 0;
            while i < o.properties.len()
                decreases o.properties@.len() - i,
            {
                let mut prop: Vec<(String, JValue)> = Vec::new();
                prop.push(("start".to_owned(), jint_from_usize(o.properties[i].start)));
                prop.push(("end".to_owned(), jint_from_usize(o.properties[i].end)));
                prop.push(("key".to_owned(), identifier_json(&o.properties[i].key)));
                proof {
                    assert(decreases_to!(*e => o.properties@[i as int].value));
                }
                prop.push(("value".to_owned(), expr_json(&o.properties[i].value)));
                items.push(JValue::Object(Rc::new(prop)));
                i = i + 1;
            }
            entries.push(("properties".to_owned(), JValue::Array(Rc::new(items))));
            JValue::Object(Rc::new(entries))
        },
        Expr::MemberExpression(m) => member_expression_json(m),
        Expr::FunctionExpression(f) => {
            proof {
                assert(decreases_to!(*e => **f));
            }
            function_expression_json(f)
        },
        Expr::NoneValue(n) => kcl_none_json(n),
    }
}

fn member_expression_json(m: &crate::ast::MemberExpression) -> JValue
    decreases *m,
{
    let mut entries = tagged_entries("MemberExpression");
    entries.push(("start".to_owned(), jint_from_usize(m.start)));
    entries.push(("end".to_owned(), jint_from_usize(m.end)));
    let object = match &m.object {
        MemberObject::MemberExpression(inner) => {
            proof {
                assert(decreases_to!(*m => **inner));
            }
            member_expression_json(inner)
        },
        MemberObject::Identifier(id) => {
            let mut inner = tagged_entries("Identifier");
            inner.push(("start".to_owned(), jint_from_usize(id.start)));
            inner.push(("end".to_owned(), jint_from_usize(id.end)));
            inner.push(("name".to_owned(), jstr(id.name.as_str())));
            JValue::Object(Rc::new(inner))
        },
    };
    entries.push(("object".to_owned(), object));
    let property = match &m.property {
        LiteralIdentifier::Identifier(id) => {
            let mut inner = tagged_entries("Identifier");
            inner.push(("start".to_owned(), jint_from_usize(id.start)));
            inner.push(("end".to_owned(), jint_from_usize(id.end)));
            inner.push(("name".to_owned(), jstr(id.name.as_str())));
            JValue::Object(Rc::new(inner))
        },
        LiteralIdentifier::Literal(lit) => literal_json(lit),
    };
    entries.push(("property".to_owned(), property));
    entries.push(("computed".to_owned(), JValue::Bool(m.computed)));
    JValue::Object(Rc::new(entries))
}

/// Whether a value is the "none" sentinel carrying exactly the given
/// source offsets under its `"start"` and `"end"` keys.
pub open spec fn is_kcl_none_at(v: JValue, start: usize, end: usize) -> bool {
    &&& crate::json::spec_is_kcl_none(v)
    &&& v matches JValue::Object(entries)
    &&& crate::json::obj_lookup(entries@, "start"@) == Option::Some(
        JValue::Num(JNumber::Int(i64_of_usize(start))),
    )
    &&& crate::json::obj_lookup(entries@, "end"@) == Option::Some(
        JValue::Num(JNumber::Int(i64_of_usize(end))),
    )
}

/// The `"KclNone"`-tagged sentinel object for an absent optional
/// argument, carrying the marker's source offsets.
pub fn kcl_none_json(n: &crate::ast::KclNone) -> (r: JValue)
    ensures
        crate::json::spec_is_kcl_none(r),
        is_kcl_none_at(r, n.start, n.end),
{
    let mut entries = tagged_entries("KclNone");
    entries.push(("start".to_owned(), jint_from_usize(n.start)));
    entries.push(("end".to_owned(), jint_from_usize(n.end)));
    proof {
        reveal_with_fuel(crate::json::obj_lookup, 4);
        reveal_strlit("type");
        reveal_strlit("KclNone");
        reveal_strlit("start");
        reveal_strlit("end");
        assert("type"@.len() == 4);
        assert("start"@.len() == 5);
        assert("end"@.len() == 3);
        assert("type"@ != "start"@ && "type"@ != "end"@ && "start"@ != "end"@);
        assert(entries@.len() == 3);
        assert(entries@[0].0@ == "type"@);
        assert(entries@[1].0@ == "start"@);
        assert(entries@[2].0@ == "end"@);
    }
    JValue::Object(Rc::new(entries))
}

#[verifier::loop_isolation(false)]
fn program_json(p: &Program) -> JValue
    decreases *p,
{
    let mut entries: Vec<(String, JValue)> = Vec::new();
    entries.push(("start".to_owned(), jint_from_usize(p.start)));
    entries.push(("end".to_owned(), jint_from_usize(p.end)));
    let mut items: Vec<JValue> = Vec::new();
    let mut i: usize = 0;
    while i < p.body.len()
        decreases p.body@.len() - i,
    {
        proof {
            assert(decreases_to!(*p => p.body@[i as int]));
        }
        items.push(body_item_json(&p.body[i]));
        i = i + 1;
    }
    entries.push(("body".to_owned(), JValue::Array(Rc::new(items))));
    JValue::Object(Rc::new(entries))
}

#[verifier::loop_isolation(false)]
fn body_item_json(item: &BodyItem) -> JValue
    decreases *item,
{
    match item {
        BodyItem::ExpressionStatement(st) => {
            let mut entries = tagged_entries("ExpressionStatement");
            entries.push(("start".to_owned(), jint_from_usize(st.start)));
            entries.push(("end".to_owned(), jint_from_usize(st.end)));
            proof {
                assert(decreases_to!(*item => st.expression));
            }
            entries.push(("expression".to_owned(), expr_json(&st.expression)));
            JValue::Object(Rc::new(entries))
        },
        BodyItem::VariableDeclaration(decl) => {
            let mut entries = tagged_entries("VariableDeclaration");
            entries.push(("start".to_owned(), jint_from_usize(decl.start)));
            entries.push(("end".to_owned(), jint_from_usize(decl.end)));
            let kind = match decl.kind {
                crate::ast::VariableKind::Const => "const",
                crate::ast::VariableKind::Let => "let",
                crate::ast::VariableKind::Fn => "fn",
            };
            entries.push(("kind".to_owned(), jstr(kind)));
            let mut items: Vec<JValue> = Vec::new();
            let mut i: usize = 0;
            while i < decl.declarations.len()
                decreases decl.declarations@.len() - i,
            {
                let mut one: Vec<(String, JValue)> = Vec::new();
                one.push(("id".to_owned(), identifier_json(&decl.declarations[i].id)));
                proof {
                    assert(decreases_to!(*item => decl.declarations@[i as int].init));
                }
                one.push(("init".to_owned(), expr_json(&decl.declarations[i].init)));
                items.push(JValue::Object(Rc::new(one)));
                i = i + 1;
            }
            entries.push(("declarations".to_owned(), JValue::Array(Rc::new(items))));
            JValue::Object(Rc::new(entries))
        },
        BodyItem::ReturnStatement(st) => {
            let mut entries = tagged_entries("ReturnStatement");
            entries.push(("start".to_owned(), jint_from_usize(st.start)));
            entries.push(("end".to_owned(), jint_from_usize(st.end)));
            proof {
                assert(decreases_to!(*item => st.argument));
            }
            entries.push(("argument".to_owned(), expr_json(&st.argument)));
            JValue::Object(Rc::new(entries))
        },
    }
}

#[verifier::loop_isolation(false)]
fn function_expression_json(fe: &FunctionExpression) -> (r: JValue)
    ensures
        r is Object,
    decreases *fe,
{
    let mut entries: Vec<(String, JValue)> = Vec::new();
    entries.push(("start".to_owned(), jint_from_usize(fe.start)));
    entries.push(("end".to_owned(), jint_from_usize(fe.end)));
    let mut items: Vec<JValue> = Vec::new();
    let mut i: usize = 0;
    while i < fe.params.len()
        decreases fe.params@.len() - i,
    {
        let mut one: Vec<(String, JValue)> = Vec::new();
        one.push(("identifier".to_owned(), identifier_json(&fe.params[i].identifier)));
        one.push(("optional".to_owned(), JValue::Bool(fe.params[i].optional)));
        items.push(JValue::Object(Rc::new(one)));
        i = i + 1;
    }
    entries.push(("params".to_owned(), JValue::Array(Rc::new(items))));
    proof {
        assert(decreases_to!(*fe => fe.body));
    }
    entries.push(("body".to_owned(), program_json(&fe.body)));
    JValue::Object(Rc::new(entries))
}

impl MemoryItem {
    /// The portable JSON form, with the "none" sentinel mapped to absence:
    /// a user value holding the sentinel yields nothing, every other value
    /// yields its JSON form.
    pub fn get_json_opt(&self) -> (r: Result<Option<JValue>, KclError>)
        ensures
            r is Ok,
            self matches MemoryItem::UserVal(u) ==> ((crate::json::spec_is_kcl_none(u.value)
                ==> r == Result::<Option<JValue>, KclError>::Ok(Option::None)) && (
            !crate::json::spec_is_kcl_none(u.value) ==> (r matches Result::Ok(o) && o
                == Option::Some(u.value)))),
            !(self is UserVal) ==> (r matches Result::Ok(o) && o matches Option::Some(v)
                && has_type_tag(v, spec_type_tag(*self))),
    {
        let json = self.get_json_value()?;
        if crate::json::is_kcl_none(&json) {
            match self {
                MemoryItem::UserVal(_) => Result::Ok(Option::None),
                _ => Result::Ok(Option::Some(json)),
            }
        } else {
            Result::Ok(Option::Some(json))
        }
    }

    /// The portable JSON form of the value: the embedded JSON verbatim for
    /// a user value, and a `"type"`-tagged object for every other variant.
    pub fn get_json_value(&self) -> (r: Result<JValue, KclError>)
        ensures
            r matches Result::Ok(v),
            self matches MemoryItem::UserVal(u) ==> (r matches Result::Ok(v) && v == u.value),
            !(self is UserVal) ==> (r matches Result::Ok(v) && has_type_tag(
                v,
                spec_type_tag(*self),
            )),
            self matches MemoryItem::SketchGroups { value } ==> (r matches Result::Ok(v)
                && group_list_json(v, "SketchGroup"@, value@.len() as int)),
            self matches MemoryItem::ExtrudeGroups { value } ==> (r matches Result::Ok(v)
                && group_list_json(v, "ExtrudeGroup"@, value@.len() as int)),
            self matches MemoryItem::Plane(p) ==> (r matches Result::Ok(v) && v matches
                JValue::Object(e) && e@[0].0@ == "type"@ && (e@[0].1 matches JValue::Str(t) && t@
                == "Plane"@) && plane_payload_fields(e@, **p)),
            self matches MemoryItem::Face(f) ==> (r matches Result::Ok(v) && v matches
                JValue::Object(e) && e@[0].0@ == "type"@ && (e@[0].1 matches JValue::Str(t) && t@
                == "Face"@) && face_payload_fields(e@, **f)),
            self matches MemoryItem::SketchGroup(sg) ==> (r matches Result::Ok(v) && v matches
                JValue::Object(e) && sketch_group_fields(e@, **sg)),
            self matches MemoryItem::ExtrudeGroup(eg) ==> (r matches Result::Ok(v) && v matches
                JValue::Object(e) && extrude_group_fields(e@, **eg)),
            self matches MemoryItem::SketchGroups { value } ==> (r matches Result::Ok(v) && v
                matches JValue::Object(e) && e@.len() == 2 && (e@[1].1 matches JValue::Array(a)
                && a@.len() == value@.len() && (forall|k: int|
                0 <= k < value@.len() ==> ((#[trigger] a@[k]) matches JValue::Object(ee)
                    && sketch_group_fields(ee@, *value@[k]))))),
            self matches MemoryItem::ExtrudeGroups { value } ==> (r matches Result::Ok(v) && v
                matches JValue::Object(e) && e@.len() == 2 && (e@[1].1 matches JValue::Array(a)
                && a@.len() == value@.len() && (forall|k: int|
                0 <= k < value@.len() ==> extrude_group_fields_of(#[trigger] a@[k], *value@[k])))),
            self matches MemoryItem::ImportedGeometry(g) ==> (r matches Result::Ok(v) && v
                matches JValue::Object(e) && e@.len() == 4 && e@[1].0@ == "id"@ && is_uuid_json(
                e@[1].1,
                g.id,
            ) && e@[2].0@ == "value"@ && (e@[2].1 matches JValue::Array(a) && a@.len()
                == g.value@.len() && (forall|k: int|
                0 <= k < g.value@.len() ==> ((#[trigger] a@[k]) matches JValue::Str(pth) && pth@
                    == g.value@[k]@))) && e@[3].0@ == "__meta"@ && is_meta_list_json(
                e@[3].1,
                g.meta@,
            )),
            self matches MemoryItem::Function { expression, meta } ==> (r matches Result::Ok(v)
                && v matches JValue::Object(e) && e@.len() == 3 && e@[1].0@ == "expression"@
                && e@[1].1 is Object && e@[2].0@ == "__meta"@ && is_meta_list_json(
                e@[2].1,
                meta@,
            )),
    {
        let r = match self {
            MemoryItem::UserVal(u) => u.value.duplicate(),
            MemoryItem::Plane(p) => {
                let entries = plane_entries(p);
                proof {
                    assert(crate::json::obj_lookup(entries@, "type"@) == Option::Some(
                        entries@[0].1,
                    ));
                }
                JValue::Object(Rc::new(entries))
            },
            MemoryItem::Face(f) => {
                let entries = face_entries(f);
                proof {
                    assert(crate::json::obj_lookup(entries@, "type"@) == Option::Some(
                        entries@[0].1,
                    ));
                }
                JValue::Object(Rc::new(entries))
            },
            MemoryItem::SketchGroup(sg) => {
                let entries = sketch_group_entries(sg);
                proof {
                    assert(crate::json::obj_lookup(entries@, "type"@) == Option::Some(
                        entries@[0].1,
                    ));
                }
                JValue::Object(Rc::new(entries))
            },
            MemoryItem::SketchGroups { value } => {
                let mut entries = tagged_entries("SketchGroups");
                let mut items: Vec<JValue> = Vec::new();
                let mut i: usize = 0;
                #[verifier::loop_isolation(false)]
                while i < value.len()
                    invariant
                        i <= value@.len(),
                        items@.len() == i as int,
                        forall|k: int|
                            0 <= k < i ==> has_type_tag(#[trigger] items@[k], "SketchGroup"@),
                        forall|k: int|
                            0 <= k < i ==> ((#[trigger] items@[k]) matches JValue::Object(ee)
                                && sketch_group_fields(ee@, *value@[k])),
                    decreases value@.len() - i,
                {
                    let member = sketch_group_entries(&value[i]);
                    proof {
                        assert(crate::json::obj_lookup(member@, "type"@) == Option::Some(
                            member@[0].1,
                        ));
                    }
                    items.push(JValue::Object(Rc::new(member)));
                    i = i + 1;
                }
                entries.push(("value".to_owned(), JValue::Array(Rc::new(items))));
                proof {
                    reveal_with_fuel(crate::json::obj_lookup, 3);
                    reveal_strlit("type");
                    reveal_strlit("value");
                    assert("type"@.len() == 4 && "value"@.len() == 5);
                    assert(entries@.len() == 2 && entries@[0].0@ == "type"@ && entries@[1].0@
                        == "value"@);
                    assert(crate::json::obj_lookup(entries@, "type"@) == Option::Some(
                        entries@[0].1,
                    ));
                    assert(crate::json::obj_lookup(entries@, "value"@) == Option::Some(
                        entries@[1].1,
                    ));
                }
                JValue::Object(Rc::new(entries))
            },
            MemoryItem::ExtrudeGroup(eg) => {
                let entries = extrude_group_entries(eg);
                proof {
                    assert(crate::json::obj_lookup(entries@, "type"@) == Option::Some(
                        entries@[0].1,
                    ));
                }
                JValue::Object(Rc::new(entries))
            },
            MemoryItem::ExtrudeGroups { value } => {
                let mut entries = tagged_entries("ExtrudeGroups");
                let mut items: Vec<JValue> = Vec::new();
                let mut i: usize = 0;
                #[verifier::loop_isolation(false)]
                while i < value.len()
                    invariant
                        i <= value@.len(),
                        items@.len() == i as int,
                        forall|k: int|
                            0 <= k < i ==> has_type_tag(#[trigger] items@[k], "ExtrudeGroup"@),
                        forall|k: int|
                            0 <= k < i ==> extrude_group_fields_of(#[trigger] items@[k], *value@[k]),
                    decreases value@.len() - i,
                {
                    let member = extrude_group_entries(&value[i]);
                    proof {
                        assert(crate::json::obj_lookup(member@, "type"@) == Option::Some(
                            member@[0].1,
                        ));
                    }
                    items.push(JValue::Object(Rc::new(member)));
                    i = i + 1;
                }
                entries.push(("value".to_owned(), JValue::Array(Rc::new(items))));
                proof {
                    reveal_with_fuel(crate::json::obj_lookup, 3);
                    reveal_strlit("type");
                    reveal_strlit("value");
                    assert("type"@.len() == 4 && "value"@.len() == 5);
                    assert(entries@.len() == 2 && entries@[0].0@ == "type"@ && entries@[1].0@
                        == "value"@);
                    assert(crate::json::obj_lookup(entries@, "type"@) == Option::Some(
                        entries@[0].1,
                    ));
                    assert(crate::json::obj_lookup(entries@, "value"@) == Option::Some(
                        entries@[1].1,
                    ));
                }
                JValue::Object(Rc::new(entries))
            },
            MemoryItem::ImportedGeometry(g) => {
                let mut entries = tagged_entries("ImportedGeometry");
                entries.push(("id".to_owned(), uuid_json(&g.id)));
                let mut items: Vec<JValue> = Vec::new();
                let mut i: usize = 0;
                #[verifier::loop_isolation(false)]
                while i < g.value.len()
                    invariant
                        i <= g.value@.len(),
                        items@.len() == i as int,
                        forall|k: int|
                            0 <= k < i ==> ((#[trigger] items@[k]) matches JValue::Str(pth)
                                && pth@ == g.value@[k]@),
                    decreases g.value@.len() - i,
                {
                    items.push(jstr(g.value[i].as_str()));
                    i = i + 1;
                }
                entries.push(("value".to_owned(), JValue::Array(Rc::new(items))));
                entries.push(("__meta".to_owned(), meta_list_json(&g.meta)));
                proof {
                    assert(crate::json::obj_lookup(entries@, "type"@) == Option::Some(
                        entries@[0].1,
                    ));
                }
                JValue::Object(Rc::new(entries))
            },
            MemoryItem::Function { expression, meta } => {
                let mut entries = tagged_entries("Function");
                entries.push(("expression".to_owned(), function_expression_json(expression)));
                entries.push(("__meta".to_owned(), meta_list_json(meta)));
                proof {
                    assert(crate::json::obj_lookup(entries@, "type"@) == Option::Some(
                        entries@[0].1,
                    ));
                }
                JValue::Object(Rc::new(entries))
            },
        };
        Result::Ok(r)
    }
}

} // verus!
