//! Wire projection of the GATT control interface's structured records.
//!
//! Each record travels as a wire map from declared field name to a
//! variant-tagged value. Decoding requires every declared field to be
//! present and to carry exactly the declared dynamic type; unknown extra
//! fields are ignored. The round-trip, missing-field and type-mismatch
//! laws beside each codec pin it down.

use vstd::prelude::*;

use crate::marshal::{
    FieldLookup, field_as_i32, field_as_u32, spec_field_fault, spec_variant_field, variant_field,
};
use crate::wire::{DecodeError, WireType, WireValue, wire_type_of};

verus! {

/// Thresholds for RSSI reporting during a scan.
#[derive(Clone, Copy, Debug, PartialEq, Eq, Structural)]
pub struct RSSISettings {
    pub low_threshold: i32,
    pub high_threshold: i32,
}

/// Declared wire field layout of [`RSSISettings`]: the names under which
/// its fields travel in a wire map.
#[derive(Clone, Copy, Debug, PartialEq, Eq, Structural)]
pub struct RSSISettingsDBus {
    pub low_threshold: i32,
    pub high_threshold: i32,
}

impl RSSISettingsDBus {
    /// The native record this wire layout carries.
    pub fn into_settings(self) -> (r: RSSISettings)
        ensures
            r.low_threshold == self.low_threshold,
            r.high_threshold == self.high_threshold,
    {
        RSSISettings { low_threshold: self.low_threshold, high_threshold: self.high_threshold }
    }

    /// The wire layout of a native record.
    pub fn from_settings(s: RSSISettings) -> (r: RSSISettingsDBus)
        ensures
            r.low_threshold == s.low_threshold,
            r.high_threshold == s.high_threshold,
    {
        RSSISettingsDBus { low_threshold: s.low_threshold, high_threshold: s.high_threshold }
    }
}

/// True when `m` is exactly the wire map that encoding `s` produces: both
/// fields in declared order, each variant-tagged.
pub open spec fn rssi_settings_encoding(m: Seq<(String, WireValue)>, s: RSSISettings) -> bool {
    &&& m.len() == 2
    &&& m[0].0@ == "low_threshold"@
    &&& (m[0].1 matches WireValue::Variant(b) && *b == WireValue::Int32(s.low_threshold))
    &&& m[1].0@ == "high_threshold"@
    &&& (m[1].1 matches WireValue::Variant(b) && *b == WireValue::Int32(s.high_threshold))
}

/// True when the lookup found a variant-tagged `i32` payload.
pub open spec fn field_i32_ok(l: FieldLookup) -> bool {
    l matches FieldLookup::Present(v) && v is Int32
}

/// True when `r` is the outcome decoding a [`RSSISettings`] record from the
/// wire map `m` must have: the decoded record exactly when both declared
/// fields are present, variant-tagged and of the declared type, else the
/// fault of the first field in declared order that is not.
pub open spec fn rssi_settings_decoding(
    m: Seq<(String, WireValue)>,
    r: Result<RSSISettings, DecodeError>,
) -> bool {
    let low = spec_variant_field(m, "low_threshold"@);
    let high = spec_variant_field(m, "high_threshold"@);
    match r {
        Ok(s) => {
            &&& low == FieldLookup::Present(WireValue::Int32(s.low_threshold))
            &&& high == FieldLookup::Present(WireValue::Int32(s.high_threshold))
        },
        Err(e) => {
            ||| spec_field_fault(low, "low_threshold"@, WireType::Int32, e)
            ||| (field_i32_ok(low) && spec_field_fault(high, "high_threshold"@, WireType::Int32, e))
        },
    }
}

impl RSSISettings {
    /// Encodes this record as a wire map in declared field order.
    pub fn to_dbus(&self) -> (m: Vec<(String, WireValue)>)
        ensures
            rssi_settings_encoding(m@, *self),
    {
        let mut m: Vec<(String, WireValue)> = Vec::new();
        m.push(
            (
                String::from_str("low_threshold"),
                WireValue::Variant(Box::new(WireValue::Int32(self.low_threshold))),
            ),
        );
        m.push(
            (
                String::from_str("high_threshold"),
                WireValue::Variant(Box::new(WireValue::Int32(self.high_threshold))),
            ),
        );
        m
    }

    /// Decodes a record from a wire map, reporting the first missing,
    /// untagged or wrongly typed declared field.
    pub fn from_dbus(map: &Vec<(String, WireValue)>) -> (r: Result<RSSISettings, DecodeError>)
        ensures
            rssi_settings_decoding(map@, r),
    {
        let lowv = match variant_field(map, "low_threshold") {
            Ok(v) => v,
            Err(e) => {
                return Err(e);
            },
        };
        let low = match field_as_i32(lowv, "low_threshold") {
            Ok(x) => x,
            Err(e) => {
                return Err(e);
            },
        };
        let highv = match variant_field(map, "high_threshold") {
            Ok(v) => v,
            Err(e) => {
                return Err(e);
            },
        };
        let high = match field_as_i32(highv, "high_threshold") {
            Ok(x) => x,
            Err(e) => {
                return Err(e);
            },
        };
        let d = RSSISettingsDBus { low_threshold: low, high_threshold: high };
        Ok(d.into_settings())
    }
}

/// Round trip: any decode outcome that the codec contract allows on a wire
/// map produced by encoding a record is exactly that record.
pub proof fn lemma_rssi_settings_round_trip(
    m: Seq<(String, WireValue)>,
    s: RSSISettings,
    r: Result<RSSISettings, DecodeError>,
)
    requires
        rssi_settings_encoding(m, s),
        rssi_settings_decoding(m, r),
    ensures
        r == Ok::<RSSISettings, DecodeError>(s),
{
    reveal_strlit("low_threshold");
    reveal_strlit("high_threshold");
    assert("low_threshold"@.len() == 13);
    assert("high_threshold"@.len() == 14);
    assert(m[0].0@ != "high_threshold"@);
    assert(crate::marshal::spec_propmap_get(m, "low_threshold"@) == Some(m[0].1));
    assert(m.drop_first()[0] == m[1]);
    assert(crate::marshal::spec_propmap_get(m.drop_first(), "high_threshold"@) == Some(m[1].1));
    assert(crate::marshal::spec_propmap_get(m, "high_threshold"@) == Some(m[1].1));
    assert(spec_variant_field(m, "low_threshold"@) == FieldLookup::Present(
        WireValue::Int32(s.low_threshold),
    ));
    assert(spec_variant_field(m, "high_threshold"@) == FieldLookup::Present(
        WireValue::Int32(s.high_threshold),
    ));
}

/// A record with a required field omitted from the wire map decodes to the
/// missing-field fault naming that field.
pub proof fn lemma_rssi_settings_missing_field(
    m: Seq<(String, WireValue)>,
    r: Result<RSSISettings, DecodeError>,
)
    requires
        crate::marshal::spec_propmap_get(m, "low_threshold"@) is None,
        rssi_settings_decoding(m, r),
    ensures
        r matches Err(e) && (e matches DecodeError::MissingField(f) && f@ == "low_threshold"@),
{
}

/// A wire value of the wrong declared dynamic type in a record's field
/// decodes to the type-mismatch fault naming the field, the declared type
/// and the type found.
pub proof fn lemma_rssi_settings_type_mismatch(
    m: Seq<(String, WireValue)>,
    v: WireValue,
    r: Result<RSSISettings, DecodeError>,
)
    requires
        spec_variant_field(m, "low_threshold"@) == FieldLookup::Present(v),
        !(v is Int32),
        rssi_settings_decoding(m, r),
    ensures
        r matches Err(e) && (e matches DecodeError::TypeMismatch { field, expected, found }
            && field@ == "low_threshold"@ && expected == WireType::Int32 && found == wire_type_of(
            v,
        )),
{
}

/// How a scan is performed.
#[derive(Clone, Copy, Debug, PartialEq, Eq, Structural)]
pub enum ScanType {
    Active,
    Passive,
}

/// The wire integer a scan type travels as.
pub open spec fn scan_type_to_u32(t: ScanType) -> u32 {
    match t {
        ScanType::Active => 0,
        ScanType::Passive => 1,
    }
}

/// The scan type a wire integer names, if any.
pub open spec fn scan_type_from_u32(v: u32) -> Option<ScanType> {
    if v == 0 {
        Some(ScanType::Active)
    } else if v == 1 {
        Some(ScanType::Passive)
    } else {
        None
    }
}

impl ScanType {
    /// Encodes this scan type as its wire integer.
    pub fn to_dbus(&self) -> (r: u32)
        ensures
            r == scan_type_to_u32(*self),
    {
        match self {
            ScanType::Active => 0,
            ScanType::Passive => 1,
        }
    }

    /// Decodes a scan type from its wire integer; an integer naming no
    /// variant is a decode fault.
    pub fn from_dbus(v: u32) -> (r: Result<ScanType, DecodeError>)
        ensures
            match scan_type_from_u32(v) {
                Some(t) => r == Ok::<ScanType, DecodeError>(t),
                None => r == Err::<ScanType, DecodeError>(DecodeError::BadEnumValue(v)),
            },
    {
        if v == 0 {
            Ok(ScanType::Active)
        } else if v == 1 {
            Ok(ScanType::Passive)
        } else {
            Err(DecodeError::BadEnumValue(v))
        }
    }
}

/// Parameters of a scan session.
#[derive(Clone, Copy, Debug, PartialEq, Eq, Structural)]
pub struct ScanSettings {
    pub interval: i32,
    pub window: i32,
    pub scan_type: ScanType,
    pub rssi_settings: RSSISettings,
}

/// A filter restricting which advertisements a scan reports. The record
/// declares no fields yet; it travels as an empty wire map.
#[derive(Clone, Copy, Debug, PartialEq, Eq, Structural)]
pub struct ScanFilter {}

/// True when the scan-type field's lookup `l` ends in the fault `e`:
/// the field is missing, untagged or not a wire integer, or its integer
/// names no variant.
pub open spec fn field_scan_type_fault(l: FieldLookup, e: DecodeError) -> bool {
    ||| spec_field_fault(l, "scan_type"@, WireType::Uint32, e)
    ||| (l matches FieldLookup::Present(v) && v matches WireValue::Uint32(x)
        && scan_type_from_u32(x) is None && e == DecodeError::BadEnumValue(x))
}

/// True when the scan-type field's lookup `l` decodes to `t`.
pub open spec fn field_scan_type_ok(l: FieldLookup, t: ScanType) -> bool {
    l matches FieldLookup::Present(v) && v matches WireValue::Uint32(x) && scan_type_from_u32(x)
        == Some(t)
}

/// True when the nested RSSI-settings field's lookup `l` ends in the fault
/// `e`: the field is missing, untagged or not a wire map, or the nested
/// record fails to decode.
pub open spec fn field_rssi_fault(l: FieldLookup, e: DecodeError) -> bool {
    ||| spec_field_fault(l, "rssi_settings"@, WireType::PropMap, e)
    ||| (l matches FieldLookup::Present(v) && v matches WireValue::PropMap(inner)
        && rssi_settings_decoding(inner@, Err(e)))
}

/// True when the nested RSSI-settings field's lookup `l` decodes to `s`.
pub open spec fn field_rssi_ok(l: FieldLookup, s: RSSISettings) -> bool {
    l matches FieldLookup::Present(v) && v matches WireValue::PropMap(inner)
        && rssi_settings_decoding(inner@, Ok(s))
}

/// True when `m` is exactly the wire map that encoding `s` produces: all
/// four declared fields in order, each variant-tagged, the scan type as
/// its wire integer and the RSSI settings as a nested wire map.
pub open spec fn scan_settings_encoding(m: Seq<(String, WireValue)>, s: ScanSettings) -> bool {
    &&& m.len() == 4
    &&& m[0].0@ == "interval"@
    &&& (m[0].1 matches WireValue::Variant(b) && *b == WireValue::Int32(s.interval))
    &&& m[1].0@ == "window"@
    &&& (m[1].1 matches WireValue::Variant(b) && *b == WireValue::Int32(s.window))
    &&& m[2].0@ == "scan_type"@
    &&& (m[2].1 matches WireValue::Variant(b) && *b == WireValue::Uint32(
        scan_type_to_u32(s.scan_type),
    ))
    &&& m[3].0@ == "rssi_settings"@
    &&& (m[3].1 matches WireValue::Variant(b) && *b matches WireValue::PropMap(inner)
        && rssi_settings_encoding(inner@, s.rssi_settings))
}

/// True when `r` is the outcome decoding a [`ScanSettings`] record from
/// the wire map `m` must have: the decoded record exactly when every
/// declared field is present, variant-tagged and of the declared type,
/// else the fault of the first field in declared order that is not.
pub open spec fn scan_settings_decoding(
    m: Seq<(String, WireValue)>,
    r: Result<ScanSettings, DecodeError>,
) -> bool {
    let interval = spec_variant_field(m, "interval"@);
    let window = spec_variant_field(m, "window"@);
    let st = spec_variant_field(m, "scan_type"@);
    let rs = spec_variant_field(m, "rssi_settings"@);
    match r {
        Ok(s) => {
            &&& interval == FieldLookup::Present(WireValue::Int32(s.interval))
            &&& window == FieldLookup::Present(WireValue::Int32(s.window))
            &&& field_scan_type_ok(st, s.scan_type)
            &&& field_rssi_ok(rs, s.rssi_settings)
        },
        Err(e) => {
            ||| spec_field_fault(interval, "interval"@, WireType::Int32, e)
            ||| (field_i32_ok(interval) && spec_field_fault(window, "window"@, WireType::Int32, e))
            ||| (field_i32_ok(interval) && field_i32_ok(window) && field_scan_type_fault(st, e))
            ||| (field_i32_ok(interval) && field_i32_ok(window) && (exists|t: ScanType|
                field_scan_type_ok(st, t)) && field_rssi_fault(rs, e))
        },
    }
}

impl ScanSettings {
    /// Encodes this record as a wire map in declared field order.
    pub fn to_dbus(&self) -> (m: Vec<(String, WireValue)>)
        ensures
            scan_settings_encoding(m@, *self),
    {
        let mut m: Vec<(String, WireValue)> = Vec::new();
        m.push(
            (
                String::from_str("interval"),
                WireValue::Variant(Box::new(WireValue::Int32(self.interval))),
            ),
        );
        m.push(
            (
                String::from_str("window"),
                WireValue::Variant(Box::new(WireValue::Int32(self.window))),
            ),
        );
        m.push(
            (
                String::from_str("scan_type"),
                WireValue::Variant(Box::new(WireValue::Uint32(self.scan_type.to_dbus()))),
            ),
        );
        m.push(
            (
                String::from_str("rssi_settings"),
                WireValue::Variant(Box::new(WireValue::PropMap(self.rssi_settings.to_dbus()))),
            ),
        );
        m
    }

    /// Decodes a record from a wire map, reporting the first missing,
    /// untagged or wrongly typed declared field, or the first fault inside
    /// the nested RSSI-settings record.
    pub fn from_dbus(map: &Vec<(String, WireValue)>) -> (r: Result<ScanSettings, DecodeError>)
        ensures
            scan_settings_decoding(map@, r),
    {
        let intervalv = match variant_field(map, "interval") {
            Ok(v) => v,
            Err(e) => {
                return Err(e);
            },
        };
        let interval = match field_as_i32(intervalv, "interval") {
            Ok(x) => x,
            Err(e) => {
                return Err(e);
            },
        };
        let windowv = match variant_field(map, "window") {
            Ok(v) => v,
            Err(e) => {
                return Err(e);
            },
        };
        let window = match field_as_i32(windowv, "window") {
            Ok(x) => x,
            Err(e) => {
                return Err(e);
            },
        };
        let stv = match variant_field(map, "scan_type") {
            Ok(v) => v,
            Err(e) => {
                return Err(e);
            },
        };
        let stx = match field_as_u32(stv, "scan_type") {
            Ok(x) => x,
            Err(e) => {
                return Err(e);
            },
        };
        let scan_type = match ScanType::from_dbus(stx) {
            Ok(t) => t,
            Err(e) => {
                return Err(e);
            },
        };
        let rsv = match variant_field(map, "rssi_settings") {
            Ok(v) => v,
            Err(e) => {
                proof {
                    assert(field_scan_type_ok(
                        spec_variant_field(map@, "scan_type"@),
                        scan_type,
                    ));
                }
                return Err(e);
            },
        };
        let inner = match rsv {
            WireValue::PropMap(inner) => inner,
            _ => {
                proof {
                    assert(field_scan_type_ok(
                        spec_variant_field(map@, "scan_type"@),
                        scan_type,
                    ));
                }
                return Err(
                    DecodeError::TypeMismatch {
                        field: "rssi_settings".to_owned(),
                        expected: WireType::PropMap,
                        found: rsv.wire_type(),
                    },
                );
            },
        };
        let rssi_settings = match RSSISettings::from_dbus(inner) {
            Ok(s) => s,
            Err(e) => {
                proof {
                    assert(field_scan_type_ok(
                        spec_variant_field(map@, "scan_type"@),
                        scan_type,
                    ));
                }
                return Err(e);
            },
        };
        Ok(ScanSettings { interval, window, scan_type, rssi_settings })
    }
}

/// True when `m` is the empty wire map that encoding a [`ScanFilter`]
/// produces.
pub open spec fn scan_filter_encoding(m: Seq<(String, WireValue)>) -> bool {
    m.len() == 0
}

impl ScanFilter {
    /// Encodes this record as an empty wire map.
    pub fn to_dbus(&self) -> (m: Vec<(String, WireValue)>)
        ensures
            scan_filter_encoding(m@),
    {
        Vec::new()
    }

    /// Decodes a record from a wire map. The record declares no fields, so
    /// any wire map decodes; extra fields are ignored.
    pub fn from_dbus(map: &Vec<(String, WireValue)>) -> (r: Result<ScanFilter, DecodeError>)
        ensures
            r == Ok::<ScanFilter, DecodeError>(ScanFilter {  }),
    {
        let _ = map;
        Ok(ScanFilter {  })
    }
}

/// True when `r` is the outcome decoding a wire sequence of scan filters
/// must have: one filter per element exactly when every element is a wire
/// map, else the element fault naming the first element that is not.
pub open spec fn scan_filter_seq_decoding(
    s: Seq<WireValue>,
    r: Result<Vec<ScanFilter>, DecodeError>,
) -> bool {
    match r {
        Ok(fs) => fs@.len() == s.len() && (forall|i: int| 0 <= i < s.len() ==> s[i] is PropMap),
        Err(e) => exists|i: int|
            0 <= i < s.len() && !(s[i] is PropMap) && (forall|j: int|
                0 <= j < i ==> s[j] is PropMap) && e == DecodeError::ElementInvalid(i as usize),
    }
}

/// Encodes a native sequence of scan filters as a wire sequence, one wire
/// map per element.
pub fn scan_filters_to_dbus(fs: &Vec<ScanFilter>) -> (s: Vec<WireValue>)
    ensures
        s@.len() == fs@.len(),
        forall|i: int|
            0 <= i < s@.len() ==> (#[trigger] s@[i] matches WireValue::PropMap(inner)
                && inner@.len() == 0),
{
    let mut s: Vec<WireValue> = Vec::new();
    let mut i: usize = 0;
    while i < fs.len()
        invariant
            0 <= i <= fs@.len(),
            s@.len() == i,
            forall|j: int|
                0 <= j < i ==> (#[trigger] s@[j] matches WireValue::PropMap(inner) && inner@.len()
                    == 0),
        decreases fs@.len() - i,
    {
        s.push(WireValue::PropMap(fs[i].to_dbus()));
        i = i + 1;
    }
    s
}

/// Decodes a wire sequence of scan filters element-wise, reporting the
/// index of the first element that is not a wire map.
pub fn scan_filters_from_dbus(s: &Vec<WireValue>) -> (r: Result<Vec<ScanFilter>, DecodeError>)
    ensures
        scan_filter_seq_decoding(s@, r),
{
    let mut fs: Vec<ScanFilter> = Vec::new();
    let mut i: usize = 0;
    while i < s.len()
        invariant
            0 <= i <= s@.len(),
            fs@.len() == i,
            forall|j: int| 0 <= j < i ==> s@[j] is PropMap,
        decreases s@.len() - i,
    {
        let f = match &s[i] {
            WireValue::PropMap(inner) => {
                match ScanFilter::from_dbus(inner) {
                    Ok(f) => f,
                    Err(_) => {
                        return Err(DecodeError::ElementInvalid(i));
                    },
                }
            },
            _ => {
                return Err(DecodeError::ElementInvalid(i));
            },
        };
        fs.push(f);
        i = i + 1;
    }
    Ok(fs)
}

/// Round trip for scan settings: any decode outcome the codec contract
/// allows on a wire map produced by encoding a record is exactly that
/// record.
pub proof fn lemma_scan_settings_round_trip(
    m: Seq<(String, WireValue)>,
    s: ScanSettings,
    r: Result<ScanSettings, DecodeError>,
)
    requires
        scan_settings_encoding(m, s),
        scan_settings_decoding(m, r),
    ensures
        r == Ok::<ScanSettings, DecodeError>(s),
{
    reveal_with_fuel(crate::marshal::spec_propmap_get, 5);
    reveal_strlit("interval");
    reveal_strlit("window");
    reveal_strlit("scan_type");
    reveal_strlit("rssi_settings");
    assert("interval"@.len() == 8);
    assert("window"@.len() == 6);
    assert("scan_type"@.len() == 9);
    assert("rssi_settings"@.len() == 13);
    assert("interval"@[0] == 'i' && "window"@[0] == 'w' && "scan_type"@[0] == 's'
        && "rssi_settings"@[0] == 'r');
    let m1 = m.drop_first();
    let m2 = m1.drop_first();
    let m3 = m2.drop_first();
    assert(m1[0] == m[1] && m1[1] == m[2] && m1[2] == m[3]);
    assert(m2[0] == m[2] && m2[1] == m[3]);
    assert(m3[0] == m[3]);
    assert(crate::marshal::spec_propmap_get(m, "interval"@) == Some(m[0].1));
    assert(crate::marshal::spec_propmap_get(m, "window"@) == Some(m[1].1));
    assert(crate::marshal::spec_propmap_get(m, "scan_type"@) == Some(m[2].1));
    assert(crate::marshal::spec_propmap_get(m, "rssi_settings"@) == Some(m[3].1));
    assert(spec_variant_field(m, "interval"@) == FieldLookup::Present(
        WireValue::Int32(s.interval),
    ));
    assert(spec_variant_field(m, "window"@) == FieldLookup::Present(WireValue::Int32(s.window)));
    assert(field_scan_type_ok(spec_variant_field(m, "scan_type"@), s.scan_type));
    let rsl = spec_variant_field(m, "rssi_settings"@);
    assert(rsl matches FieldLookup::Present(v) && v matches WireValue::PropMap(inner)
        && rssi_settings_encoding(inner@, s.rssi_settings));
    assert(scan_type_from_u32(scan_type_to_u32(s.scan_type)) == Some(s.scan_type));
    match m[3].1 {
        WireValue::Variant(b) => match *b {
            WireValue::PropMap(inner) => {
                match r {
                    Ok(s2) => {
                        assert(field_rssi_ok(rsl, s2.rssi_settings));
                        lemma_rssi_settings_round_trip(
                            inner@,
                            s.rssi_settings,
                            Ok(s2.rssi_settings),
                        );
                    },
                    Err(e) => {
                        if field_rssi_fault(rsl, e) {
                            if !spec_field_fault(rsl, "rssi_settings"@, WireType::PropMap, e) {
                                lemma_rssi_settings_round_trip(inner@, s.rssi_settings, Err(e));
                            }
                        }
                        assert(false);
                    },
                }
            },
            _ => {
                assert(false);
            },
        },
        _ => {
            assert(false);
        },
    }
}

/// Round trip for a sequence of scan filters: decoding an encoded sequence
/// yields one filter per encoded element.
pub proof fn lemma_scan_filters_round_trip(
    s: Seq<WireValue>,
    n: nat,
    r: Result<Vec<ScanFilter>, DecodeError>,
)
    requires
        s.len() == n,
        forall|i: int|
            0 <= i < s.len() ==> (#[trigger] s[i] matches WireValue::PropMap(inner) && inner@.len()
                == 0),
        scan_filter_seq_decoding(s, r),
    ensures
        r matches Ok(fs) && fs@.len() == n,
{
}

} // verus!

