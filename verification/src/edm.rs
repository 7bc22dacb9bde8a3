//! The type mapper: columnar field type to protocol primitive type, and the
//! wire-level names of the protocol types. Both the document encoders and
//! the metadata generator go through this one table, so data responses and
//! the advertised schema cannot diverge.

use vstd::prelude::*;

use crate::types::{EdmType, FieldType, UnsupportedDataType};

verus! {

/// The mapping table: the protocol counterpart of a field type, or `None`
/// for the composite/exotic kinds that have none.
pub open spec fn edm_of(ft: FieldType) -> Option<EdmType> {
    match ft {
        FieldType::Boolean => Some(EdmType::Boolean),
        FieldType::Int8 => Some(EdmType::SByte),
        FieldType::Int16 => Some(EdmType::Int16),
        FieldType::Int32 => Some(EdmType::Int32),
        FieldType::Int64 => Some(EdmType::Int64),
        FieldType::UInt8 => Some(EdmType::Byte),
        FieldType::UInt16 => Some(EdmType::UInt16),
        FieldType::UInt32 => Some(EdmType::UInt32),
        FieldType::UInt64 => Some(EdmType::UInt64),
        FieldType::Float16 => Some(EdmType::Single),
        FieldType::Float32 => Some(EdmType::Single),
        FieldType::Float64 => Some(EdmType::Double),
        FieldType::Utf8 => Some(EdmType::Text),
        FieldType::LargeUtf8 => Some(EdmType::Text),
        FieldType::Utf8View => Some(EdmType::Text),
        FieldType::Null => Some(EdmType::Text),
        FieldType::Date32 => Some(EdmType::DateTime),
        FieldType::Date64 => Some(EdmType::DateTime),
        FieldType::Timestamp(_, _) => Some(EdmType::DateTime),
        _ => None,
    }
}

/// The wire-level name of a protocol primitive type.
pub open spec fn edm_name_of(t: EdmType) -> Seq<char> {
    match t {
        EdmType::Boolean => "Edm.Boolean"@,
        EdmType::SByte => "Edm.SByte"@,
        EdmType::Int16 => "Edm.Int16"@,
        EdmType::Int32 => "Edm.Int32"@,
        EdmType::Int64 => "Edm.Int64"@,
        EdmType::Byte => "Edm.Byte"@,
        EdmType::UInt16 => "Edm.UInt16"@,
        EdmType::UInt32 => "Edm.UInt32"@,
        EdmType::UInt64 => "Edm.UInt64"@,
        EdmType::Single => "Edm.Single"@,
        EdmType::Double => "Edm.Double"@,
        EdmType::Text => "Edm.String"@,
        EdmType::DateTime => "Edm.DateTime"@,
    }
}

/// Maps a field type to its protocol counterpart; deterministic and total
/// over the field-type domain. A field type without a counterpart comes back
/// as an error carrying that type.
pub fn to_edm_type(ft: FieldType) -> (r: Result<EdmType, UnsupportedDataType>)
    ensures
        match edm_of(ft) {
            Some(t) => r == Ok::<EdmType, UnsupportedDataType>(t),
            None => r == Err::<EdmType, UnsupportedDataType>(
                (UnsupportedDataType { data_type: ft }),
            ),
        },
{
    match ft {
        FieldType::Boolean => Ok(EdmType::Boolean),
        FieldType::Int8 => Ok(EdmType::SByte),
        FieldType::Int16 => Ok(EdmType::Int16),
        FieldType::Int32 => Ok(EdmType::Int32),
        FieldType::Int64 => Ok(EdmType::Int64),
        FieldType::UInt8 => Ok(EdmType::Byte),
        FieldType::UInt16 => Ok(EdmType::UInt16),
        FieldType::UInt32 => Ok(EdmType::UInt32),
        FieldType::UInt64 => Ok(EdmType::UInt64),
        FieldType::Float16 => Ok(EdmType::Single),
        FieldType::Float32 => Ok(EdmType::Single),
        FieldType::Float64 => Ok(EdmType::Double),
        FieldType::Utf8 => Ok(EdmType::Text),
        FieldType::LargeUtf8 => Ok(EdmType::Text),
        FieldType::Utf8View => Ok(EdmType::Text),
        FieldType::Null => Ok(EdmType::Text),
        FieldType::Date32 => Ok(EdmType::DateTime),
        FieldType::Date64 => Ok(EdmType::DateTime),
        FieldType::Timestamp(_, _) => Ok(EdmType::DateTime),
        _ => Err(UnsupportedDataType { data_type: ft }),
    }
}

/// The wire-level name of a protocol type, as a fresh string.
pub fn edm_type_name(t: EdmType) -> (r: String)
    ensures
        r@ == edm_name_of(t),
{
    match t {
        EdmType::Boolean => "Edm.Boolean".to_owned(),
        EdmType::SByte => "Edm.SByte".to_owned(),
        EdmType::Int16 => "Edm.Int16".to_owned(),
        EdmType::Int32 => "Edm.Int32".to_owned(),
        EdmType::Int64 => "Edm.Int64".to_owned(),
        EdmType::Byte => "Edm.Byte".to_owned(),
        EdmType::UInt16 => "Edm.UInt16".to_owned(),
        EdmType::UInt32 => "Edm.UInt32".to_owned(),
        EdmType::UInt64 => "Edm.UInt64".to_owned(),
        EdmType::Single => "Edm.Single".to_owned(),
        EdmType::Double => "Edm.Double".to_owned(),
        EdmType::Text => "Edm.String".to_owned(),
        EdmType::DateTime => "Edm.DateTime".to_owned(),
    }
}

} // verus!
