//! The primitive value encoder: one cell of one column to its escaped
//! textual wire representation.

use vstd::prelude::*;

use crate::calendar::{
    date_only_text, day_of_secs, div_floor_i64, encode_date, encode_date_time,
    encode_date_time_naive, in_day_range, split_secs, timestamp_text,
};
use crate::digits::{dec_of, dec_signed_of, push_dec_i64, push_dec_u64};
use crate::escape::{escape, escape_of};
use crate::types::{CellValue, FieldType, TimeUnit, UnsupportedDataType};

verus! {

/// Whether a present cell of this field type has a wire representation: the
/// cell is well-typed for a supported field type and, for temporal types, in
/// the convertible calendar range.
pub open spec fn cell_ok(ft: FieldType, c: CellValue) -> bool {
    match (ft, c) {
        (FieldType::Boolean, CellValue::Bool(_)) => true,
        (FieldType::Int8, CellValue::Int8(_)) => true,
        (FieldType::Int16, CellValue::Int16(_)) => true,
        (FieldType::Int32, CellValue::Int32(_)) => true,
        (FieldType::Int64, CellValue::Int64(_)) => true,
        (FieldType::UInt8, CellValue::UInt8(_)) => true,
        (FieldType::UInt16, CellValue::UInt16(_)) => true,
        (FieldType::UInt32, CellValue::UInt32(_)) => true,
        (FieldType::UInt64, CellValue::UInt64(_)) => true,
        (FieldType::Float16, CellValue::Float(_)) => true,
        (FieldType::Float32, CellValue::Float(_)) => true,
        (FieldType::Float64, CellValue::Float(_)) => true,
        (FieldType::Utf8, CellValue::Text(_)) => true,
        (FieldType::LargeUtf8, CellValue::Text(_)) => true,
        (FieldType::Utf8View, CellValue::Text(_)) => true,
        (FieldType::Null, CellValue::Text(_)) => true,
        (FieldType::Date32, CellValue::Int32(d)) => in_day_range(d as int),
        (FieldType::Date64, CellValue::Int64(ms)) => in_day_range((ms as int) / 86400000),
        (FieldType::Timestamp(unit, _), CellValue::Int64(v)) => in_day_range(
            day_of_secs(split_secs(v as int, unit).0),
        ),
        _ => false,
    }
}

/// The escaped textual wire representation of a present cell.
pub open spec fn cell_text(ft: FieldType, c: CellValue) -> Seq<char> {
    match (ft, c) {
        (FieldType::Boolean, CellValue::Bool(b)) => if b {
            "true"@
        } else {
            "false"@
        },
        (FieldType::Int8, CellValue::Int8(i)) => dec_signed_of(i as int),
        (FieldType::Int16, CellValue::Int16(i)) => dec_signed_of(i as int),
        (FieldType::Int32, CellValue::Int32(i)) => dec_signed_of(i as int),
        (FieldType::Int64, CellValue::Int64(i)) => dec_signed_of(i as int),
        (FieldType::UInt8, CellValue::UInt8(i)) => dec_of(i as int),
        (FieldType::UInt16, CellValue::UInt16(i)) => dec_of(i as int),
        (FieldType::UInt32, CellValue::UInt32(i)) => dec_of(i as int),
        (FieldType::UInt64, CellValue::UInt64(i)) => dec_of(i as int),
        (FieldType::Float16, CellValue::Float(s)) => escape_of(s@),
        (FieldType::Float32, CellValue::Float(s)) => escape_of(s@),
        (FieldType::Float64, CellValue::Float(s)) => escape_of(s@),
        (FieldType::Utf8, CellValue::Text(s)) => escape_of(s@),
        (FieldType::LargeUtf8, CellValue::Text(s)) => escape_of(s@),
        (FieldType::Utf8View, CellValue::Text(s)) => escape_of(s@),
        (FieldType::Null, CellValue::Text(s)) => escape_of(s@),
        (FieldType::Date32, CellValue::Int32(d)) => date_only_text(d as int),
        (FieldType::Date64, CellValue::Int64(ms)) => date_only_text((ms as int) / 86400000),
        (FieldType::Timestamp(unit, tz), CellValue::Int64(v)) => timestamp_text(
            v as int,
            unit,
            tz,
        ),
        _ => Seq::empty(),
    }
}

/// Splits a tick count into whole seconds and the nanosecond fraction.
fn split_ticks(v: i64, unit: TimeUnit) -> (r: (i64, u64))
    ensures
        (r.0 as int, r.1 as int) == split_secs(v as int, unit),
        r.1 < 1000000000,
{
    match unit {
        TimeUnit::Second => (v, 0u64),
        TimeUnit::Millisecond => {
            let (q, rem) = div_floor_i64(v, 1000);
            (q, rem * 1000000)
        },
        TimeUnit::Microsecond => {
            let (q, rem) = div_floor_i64(v, 1000000);
            (q, rem * 1000)
        },
        TimeUnit::Nanosecond => {
            let (q, rem) = div_floor_i64(v, 1000000000);
            (q, rem)
        },
    }
}

/// Renders a timestamp tick count: UTC-normalized with `Z` when a zone is
/// attached to the field, zone-less otherwise. An out-of-range tick is an
/// unsupported-type failure carrying the timestamp type, not a panic.
pub fn encode_timestamp(v: i64, unit: TimeUnit, tz: bool) -> (r: Result<String, UnsupportedDataType>)
    ensures
        in_day_range(day_of_secs(split_secs(v as int, unit).0)) ==> (r matches Ok(s) && s@
            == timestamp_text(v as int, unit, tz)),
        !in_day_range(day_of_secs(split_secs(v as int, unit).0)) ==> r
            == Err::<String, UnsupportedDataType>(
            (UnsupportedDataType { data_type: FieldType::Timestamp(unit, tz) }),
        ),
{
    let (secs, nanos) = split_ticks(v, unit);
    let (days, _sod) = div_floor_i64(secs, 86400);
    if days < -95000000 || days > 95000000 {
        Err(UnsupportedDataType { data_type: FieldType::Timestamp(unit, tz) })
    } else if tz {
        Ok(encode_date_time(secs, nanos))
    } else {
        Ok(encode_date_time_naive(secs, nanos))
    }
}

/// Encodes one present cell of one column. A field type with no protocol
/// counterpart, a cell that does not belong to the column's type, and a
/// temporal value outside the calendar range are all unsupported-type
/// failures carrying the field type.
pub fn encode_primitive_dyn(ft: FieldType, c: &CellValue) -> (r: Result<
    String,
    UnsupportedDataType,
>)
    ensures
        cell_ok(ft, *c) ==> (r matches Ok(s) && s@ == cell_text(ft, *c)),
        !cell_ok(ft, *c) ==> r == Err::<String, UnsupportedDataType>(
            (UnsupportedDataType { data_type: ft }),
        ),
{
    match (ft, c) {
        (FieldType::Boolean, CellValue::Bool(b)) => Ok(
            if *b {
                "true".to_owned()
            } else {
                "false".to_owned()
            },
        ),
        (FieldType::Int8, CellValue::Int8(i)) => {
            let mut s = String::new();
            push_dec_i64(&mut s, *i as i64);
            proof {
                assert(s@ =~= cell_text(ft, *c));
            }
            Ok(s)
        },
        (FieldType::Int16, CellValue::Int16(i)) => {
            let mut s = String::new();
            push_dec_i64(&mut s, *i as i64);
            proof {
                assert(s@ =~= cell_text(ft, *c));
            }
            Ok(s)
        },
        (FieldType::Int32, CellValue::Int32(i)) => {
            let mut s = String::new();
            push_dec_i64(&mut s, *i as i64);
            proof {
                assert(s@ =~= cell_text(ft, *c));
            }
            Ok(s)
        },
        (FieldType::Int64, CellValue::Int64(i)) => {
            let mut s = String::new();
            push_dec_i64(&mut s, *i);
            proof {
                assert(s@ =~= cell_text(ft, *c));
            }
            Ok(s)
        },
        (FieldType::UInt8, CellValue::UInt8(i)) => {
            let mut s = String::new();
            push_dec_u64(&mut s, *i as u64);
            proof {
                assert(s@ =~= cell_text(ft, *c));
            }
            Ok(s)
        },
        (FieldType::UInt16, CellValue::UInt16(i)) => {
            let mut s = String::new();
            push_dec_u64(&mut s, *i as u64);
            proof {
                assert(s@ =~= cell_text(ft, *c));
            }
            Ok(s)
        },
        (FieldType::UInt32, CellValue::UInt32(i)) => {
            let mut s = String::new();
            push_dec_u64(&mut s, *i as u64);
            proof {
                assert(s@ =~= cell_text(ft, *c));
            }
            Ok(s)
        },
        (FieldType::UInt64, CellValue::UInt64(i)) => {
            let mut s = String::new();
            push_dec_u64(&mut s, *i);
            proof {
                assert(s@ =~= cell_text(ft, *c));
            }
            Ok(s)
        },
        (FieldType::Float16, CellValue::Float(s)) => Ok(escape(s.as_str())),
        (FieldType::Float32, CellValue::Float(s)) => Ok(escape(s.as_str())),
        (FieldType::Float64, CellValue::Float(s)) => Ok(escape(s.as_str())),
        (FieldType::Utf8, CellValue::Text(s)) => Ok(escape(s.as_str())),
        (FieldType::LargeUtf8, CellValue::Text(s)) => Ok(escape(s.as_str())),
        (FieldType::Utf8View, CellValue::Text(s)) => Ok(escape(s.as_str())),
        (FieldType::Null, CellValue::Text(s)) => Ok(escape(s.as_str())),
        (FieldType::Date32, CellValue::Int32(d)) => {
            if *d < -95000000 || *d > 95000000 {
                Err(UnsupportedDataType { data_type: ft })
            } else {
                Ok(encode_date(*d as i64))
            }
        },
        (FieldType::Date64, CellValue::Int64(ms)) => {
            let (days, _rem) = div_floor_i64(*ms, 86400000);
            if days < -95000000 || days > 95000000 {
                Err(UnsupportedDataType { data_type: ft })
            } else {
                Ok(encode_date(days))
            }
        },
        (FieldType::Timestamp(unit, tz), CellValue::Int64(v)) => {
            match encode_timestamp(*v, unit, tz) {
                Ok(s) => Ok(s),
                Err(_) => Err(UnsupportedDataType { data_type: ft }),
            }
        },
        _ => Err(UnsupportedDataType { data_type: ft }),
    }
}

} // verus!
