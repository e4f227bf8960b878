//! Conversions between native argument types and wire values.
//!
//! Primitive types convert identically in both directions and need no
//! context. Structured records travel as wire maps from field name to
//! variant-tagged value; the helpers here look fields up and report the
//! exact decode fault the calling peer is told about.

use vstd::prelude::*;

use crate::wire::{DecodeError, WireType, WireValue, wire_type_of};

verus! {

/// Compares two pieces of text character by character.
pub fn str_eq(a: &str, b: &str) -> (r: bool)
    ensures
        r == (a@ == b@),
{
    let alen = a.unicode_len();
    if alen != b.unicode_len() {
        return false;
    }
    let mut i: usize = 0;
    while i < alen
        invariant
            a@.len() == alen,
            b@.len() == alen,
            0 <= i <= alen,
            forall|j: int| 0 <= j < i ==> a@[j] == b@[j],
        decreases alen - i,
    {
        if a.get_char(i) != b.get_char(i) {
            return false;
        }
        i = i + 1;
    }
    proof {
        assert(a@ =~= b@);
    }
    true
}

/// The wire value a structured record's map holds for `key`: the value of
/// the first entry so named, or `None` when no entry is.
pub open spec fn spec_propmap_get(m: Seq<(String, WireValue)>, key: Seq<char>) -> Option<
    WireValue,
>
    decreases m.len(),
{
    if m.len() == 0 {
        None
    } else if m[0].0@ == key {
        Some(m[0].1)
    } else {
        spec_propmap_get(m.drop_first(), key)
    }
}

/// How a field lookup inside a structured record's wire map ended.
pub enum FieldLookup {
    /// No entry carries the field's name.
    Missing,
    /// The entry is present but its value is not variant-tagged.
    NotVariant,
    /// The entry is present and variant-tagged; the payload is given.
    Present(WireValue),
}

/// The variant-tagged payload stored under `key`, or how the lookup failed.
pub open spec fn spec_variant_field(m: Seq<(String, WireValue)>, key: Seq<char>) -> FieldLookup {
    match spec_propmap_get(m, key) {
        None => FieldLookup::Missing,
        Some(v) => match v {
            WireValue::Variant(b) => FieldLookup::Present(*b),
            _ => FieldLookup::NotVariant,
        },
    }
}

/// Looks `key` up in a structured record's wire map.
pub fn propmap_get<'a>(m: &'a Vec<(String, WireValue)>, key: &str) -> (r: Option<&'a WireValue>)
    ensures
        match r {
            Some(v) => spec_propmap_get(m@, key@) == Some(*v),
            None => spec_propmap_get(m@, key@) is None,
        },
{
    let ghost whole = m@;
    proof {
        assert(m@.skip(0) =~= m@);
    }
    let mut i: usize = 0;
    while i < m.len()
        invariant
            0 <= i <= m@.len(),
            whole == m@,
            spec_propmap_get(m@.skip(i as int), key@) == spec_propmap_get(m@, key@),
        decreases m@.len() - i,
    {
        proof {
            assert(m@.skip(i as int)[0] == m@[i as int]);
        }
        if str_eq(m[i].0.as_str(), key) {
            return Some(&m[i].1);
        }
        proof {
            assert(m@.skip(i as int).drop_first() =~= m@.skip(i as int + 1));
        }
        i = i + 1;
    }
    proof {
        assert(m@.skip(m@.len() as int) =~= Seq::<(String, WireValue)>::empty());
    }
    None
}

/// True when `e` is the fault decoding would report for a lookup `l` of the
/// field named `key` whose payload was expected to carry the wire type
/// `expected`.
pub open spec fn spec_field_fault(
    l: FieldLookup,
    key: Seq<char>,
    expected: WireType,
    e: DecodeError,
) -> bool {
    match l {
        FieldLookup::Missing => e matches DecodeError::MissingField(f) && f@ == key,
        FieldLookup::NotVariant => e matches DecodeError::NotAVariant(f) && f@ == key,
        FieldLookup::Present(v) => wire_type_of(v) != expected && (e matches DecodeError::TypeMismatch {
            field,
            expected: ex,
            found,
        } && field@ == key && ex == expected && found == wire_type_of(v)),
    }
}

/// Unwraps the variant-tagged payload of the field named `field`, reporting
/// a missing entry or a bare (untagged) value as the decode fault the
/// caller is told about.
pub fn variant_field<'a>(m: &'a Vec<(String, WireValue)>, field: &str) -> (r: Result<
    &'a WireValue,
    DecodeError,
>)
    ensures
        match r {
            Ok(v) => spec_variant_field(m@, field@) == FieldLookup::Present(*v),
            Err(e) => match spec_variant_field(m@, field@) {
                FieldLookup::Missing => e matches DecodeError::MissingField(f) && f@ == field@,
                FieldLookup::NotVariant => e matches DecodeError::NotAVariant(f) && f@ == field@,
                FieldLookup::Present(_) => false,
            },
        },
{
    match propmap_get(m, field) {
        None => Err(DecodeError::MissingField(field.to_owned())),
        Some(v) => match v {
            WireValue::Variant(b) => Ok(&**b),
            _ => Err(DecodeError::NotAVariant(field.to_owned())),
        },
    }
}

/// Decodes the payload of the field named `field` as a native `bool`.
pub fn field_as_bool(v: &WireValue, field: &str) -> (r: Result<bool, DecodeError>)
    ensures
        match r {
            Ok(x) => *v == WireValue::Bool(x),
            Err(e) => !(*v is Bool) && spec_field_fault(
                FieldLookup::Present(*v),
                field@,
                WireType::Bool,
                e,
            ),
        },
{
    match v {
        WireValue::Bool(x) => Ok(*x),
        _ => Err(
            DecodeError::TypeMismatch {
                field: field.to_owned(),
                expected: WireType::Bool,
                found: v.wire_type(),
            },
        ),
    }
}

/// Decodes the payload of the field named `field` as a native `i32`.
pub fn field_as_i32(v: &WireValue, field: &str) -> (r: Result<i32, DecodeError>)
    ensures
        match r {
            Ok(x) => *v == WireValue::Int32(x),
            Err(e) => !(*v is Int32) && spec_field_fault(
                FieldLookup::Present(*v),
                field@,
                WireType::Int32,
                e,
            ),
        },
{
    match v {
        WireValue::Int32(x) => Ok(*x),
        _ => Err(
            DecodeError::TypeMismatch {
                field: field.to_owned(),
                expected: WireType::Int32,
                found: v.wire_type(),
            },
        ),
    }
}

/// Decodes the payload of the field named `field` as a native `u32`.
pub fn field_as_u32(v: &WireValue, field: &str) -> (r: Result<u32, DecodeError>)
    ensures
        match r {
            Ok(x) => *v == WireValue::Uint32(x),
            Err(e) => !(*v is Uint32) && spec_field_fault(
                FieldLookup::Present(*v),
                field@,
                WireType::Uint32,
                e,
            ),
        },
{
    match v {
        WireValue::Uint32(x) => Ok(*x),
        _ => Err(
            DecodeError::TypeMismatch {
                field: field.to_owned(),
                expected: WireType::Uint32,
                found: v.wire_type(),
            },
        ),
    }
}

/// Decodes the payload of the field named `field` as native text.
pub fn field_as_text(v: &WireValue, field: &str) -> (r: Result<String, DecodeError>)
    ensures
        match r {
            Ok(x) => *v matches WireValue::Text(t) && t@ == x@,
            Err(e) => !(*v is Text) && spec_field_fault(
                FieldLookup::Present(*v),
                field@,
                WireType::Text,
                e,
            ),
        },
{
    match v {
        WireValue::Text(x) => Ok(x.clone()),
        _ => Err(
            DecodeError::TypeMismatch {
                field: field.to_owned(),
                expected: WireType::Text,
                found: v.wire_type(),
            },
        ),
    }
}

/// Decodes the payload of the field named `field` as a remote-object path
/// handle.
pub fn field_as_object_path(v: &WireValue, field: &str) -> (r: Result<String, DecodeError>)
    ensures
        match r {
            Ok(x) => *v matches WireValue::ObjectPath(t) && t@ == x@,
            Err(e) => !(*v is ObjectPath) && spec_field_fault(
                FieldLookup::Present(*v),
                field@,
                WireType::ObjectPath,
                e,
            ),
        },
{
    match v {
        WireValue::ObjectPath(x) => Ok(x.clone()),
        _ => Err(
            DecodeError::TypeMismatch {
                field: field.to_owned(),
                expected: WireType::ObjectPath,
                found: v.wire_type(),
            },
        ),
    }
}

/// Round trip for a primitive `bool`: the identity encoding decodes back to
/// the value itself, whatever field name the decode reports under.
pub proof fn lemma_bool_round_trip(x: bool, field: Seq<char>, r: Result<bool, DecodeError>)
    requires
        match r {
            Ok(y) => WireValue::Bool(x) == WireValue::Bool(y),
            Err(e) => !(WireValue::Bool(x) is Bool) && spec_field_fault(
                FieldLookup::Present(WireValue::Bool(x)),
                field,
                WireType::Bool,
                e,
            ),
        },
    ensures
        r == Ok::<bool, DecodeError>(x),
{
}

/// Round trip for a primitive `i32`.
pub proof fn lemma_i32_round_trip(x: i32, field: Seq<char>, r: Result<i32, DecodeError>)
    requires
        match r {
            Ok(y) => WireValue::Int32(x) == WireValue::Int32(y),
            Err(e) => !(WireValue::Int32(x) is Int32) && spec_field_fault(
                FieldLookup::Present(WireValue::Int32(x)),
                field,
                WireType::Int32,
                e,
            ),
        },
    ensures
        r == Ok::<i32, DecodeError>(x),
{
}

/// Round trip for a primitive `u32`.
pub proof fn lemma_u32_round_trip(x: u32, field: Seq<char>, r: Result<u32, DecodeError>)
    requires
        match r {
            Ok(y) => WireValue::Uint32(x) == WireValue::Uint32(y),
            Err(e) => !(WireValue::Uint32(x) is Uint32) && spec_field_fault(
                FieldLookup::Present(WireValue::Uint32(x)),
                field,
                WireType::Uint32,
                e,
            ),
        },
    ensures
        r == Ok::<u32, DecodeError>(x),
{
}

/// Round trip for primitive text: any decode outcome the codec contract
/// allows on the identity encoding of `x` carries exactly the characters
/// of `x`.
pub proof fn lemma_text_round_trip(x: String, field: Seq<char>, r: Result<String, DecodeError>)
    requires
        match r {
            Ok(y) => WireValue::Text(x) matches WireValue::Text(t) && t@ == y@,
            Err(e) => !(WireValue::Text(x) is Text) && spec_field_fault(
                FieldLookup::Present(WireValue::Text(x)),
                field,
                WireType::Text,
                e,
            ),
        },
    ensures
        r matches Ok(y) && y@ == x@,
{
}

/// Round trip for a remote-object path handle.
pub proof fn lemma_object_path_round_trip(
    x: String,
    field: Seq<char>,
    r: Result<String, DecodeError>,
)
    requires
        match r {
            Ok(y) => WireValue::ObjectPath(x) matches WireValue::ObjectPath(t) && t@ == y@,
            Err(e) => !(WireValue::ObjectPath(x) is ObjectPath) && spec_field_fault(
                FieldLookup::Present(WireValue::ObjectPath(x)),
                field,
                WireType::ObjectPath,
                e,
            ),
        },
    ensures
        r matches Ok(y) && y@ == x@,
{
}

} // verus!
