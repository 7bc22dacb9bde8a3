//! Data model: columnar field types, cell values, schemas, row batches, the
//! protocol (EDM) primitive types, the per-collection context and the error
//! kinds.

use vstd::prelude::*;

verus! {

/// Resolution of a stored timestamp tick count.
#[derive(Clone, Copy, Debug, PartialEq, Eq, Structural)]
pub enum TimeUnit {
    Second,
    Millisecond,
    Microsecond,
    Nanosecond,
}

/// The closed set of columnar field types. The trailing group has no protocol
/// counterpart and is always rejected by the type mapper.
#[derive(Clone, Copy, Debug, PartialEq, Eq, Structural)]
pub enum FieldType {
    Boolean,
    Int8,
    Int16,
    Int32,
    Int64,
    UInt8,
    UInt16,
    UInt32,
    UInt64,
    Float16,
    Float32,
    Float64,
    /// UTF-8 text.
    Utf8,
    /// UTF-8 text with 64-bit offsets.
    LargeUtf8,
    /// UTF-8 text in view layout.
    Utf8View,
    /// The untyped/null field type; cells are read as text.
    Null,
    /// Days since 1970-01-01.
    Date32,
    /// Milliseconds since 1970-01-01.
    Date64,
    /// Tick count in the given unit since the epoch; the flag says whether a
    /// time-zone is attached to the field.
    Timestamp(TimeUnit, bool),
    // Unsupported composite/exotic kinds.
    Binary,
    List,
    Struct,
    Union,
    Dictionary,
    Decimal,
    Mapping,
    Time,
    Duration,
    Interval,
    RunEndEncoded,
}

/// The wire-level protocol primitive types.
#[derive(Clone, Copy, Debug, PartialEq, Eq, Structural)]
pub enum EdmType {
    Boolean,
    SByte,
    Int16,
    Int32,
    Int64,
    Byte,
    UInt16,
    UInt32,
    UInt64,
    Single,
    Double,
    Text,
    DateTime,
}

/// One cell of one column. `Null` stands for an absent value of any type;
/// float cells carry their canonical round-trip decimal text, produced where
/// the column was materialized.
#[derive(Debug, Clone)]
pub enum CellValue {
    Null,
    Bool(bool),
    Int8(i8),
    Int16(i16),
    Int32(i32),
    Int64(i64),
    UInt8(u8),
    UInt16(u16),
    UInt32(u32),
    UInt64(u64),
    Float(String),
    Text(String),
}

/// One field of a schema.
#[derive(Debug, Clone)]
pub struct Field {
    pub name: String,
    pub data_type: FieldType,
    pub nullable: bool,
}

/// An ordered sequence of fields; insertion order determines property order
/// in every output document.
#[derive(Debug, Clone)]
pub struct Schema {
    pub fields: Vec<Field>,
}

/// One column of a batch: its cells, in row order.
#[derive(Debug, Clone)]
pub struct Column {
    pub cells: Vec<CellValue>,
}

/// An immutable batch of rows aligned to a schema: one column per field, all
/// of the same length.
#[derive(Debug, Clone)]
pub struct RecordBatch {
    pub columns: Vec<Column>,
}

/// Policy for fields whose type has no protocol counterpart.
#[derive(Clone, Copy, Debug, PartialEq, Eq, Structural)]
pub enum OnUnsupported {
    /// Reject the whole operation on the first unmapped field.
    Error,
    /// Omit the field from every output.
    Warn,
}

/// The per-collection, per-request descriptor: identity, base URLs, the key
/// column and the unsupported-field policy. Read-only for one request.
#[derive(Debug, Clone)]
pub struct CollectionContext {
    pub service_base_url: String,
    pub collection_base_url: String,
    pub collection_name: String,
    pub collection_namespace: String,
    pub key_column_name: String,
    pub on_unsupported: OnUnsupported,
}

/// A field type without a protocol counterpart, or a temporal cell whose
/// value cannot be converted to a valid calendar instant; carries the
/// offending type.
#[derive(Debug, Clone, PartialEq, Eq, Structural)]
pub struct UnsupportedDataType {
    pub data_type: FieldType,
}

/// The failures an encoding operation can surface.
#[derive(Debug, Clone)]
pub enum ODataError {
    /// A field type with no protocol counterpart under the fail-fast policy,
    /// or an out-of-range temporal value.
    UnsupportedDataType(UnsupportedDataType),
    /// A configured base URL without an HTTP(S) scheme; carries the URL.
    UnsupportedNetProtocol(String),
}

/// Spec-level image of an `ODataError`, over plain values.
pub enum ErrV {
    Unsupported(FieldType),
    BadUrl(Seq<char>),
}

/// How an executable error relates to its spec-level image.
pub open spec fn err_matches(e: ODataError, v: ErrV) -> bool {
    match (e, v) {
        (ODataError::UnsupportedDataType(u), ErrV::Unsupported(ft)) => u.data_type == ft,
        (ODataError::UnsupportedNetProtocol(s), ErrV::BadUrl(u)) => s@ == u,
        _ => false,
    }
}

/// How an executable document result relates to its spec-level image.
pub open spec fn res_matches(r: Result<String, ODataError>, s: Result<Seq<char>, ErrV>) -> bool {
    match (r, s) {
        (Ok(doc), Ok(t)) => doc@ == t,
        (Err(e), Err(v)) => err_matches(e, v),
        _ => false,
    }
}

/// Whether a cell is a well-typed, present value of the given field type.
/// `Null` cells match every type; columns of a type in the unsupported group
/// hold only `Null` cells.
pub open spec fn cell_matches(ft: FieldType, c: CellValue) -> bool {
    match c {
        CellValue::Null => true,
        CellValue::Bool(_) => ft == FieldType::Boolean,
        CellValue::Int8(_) => ft == FieldType::Int8,
        CellValue::Int16(_) => ft == FieldType::Int16,
        CellValue::Int32(_) => ft == FieldType::Int32 || ft == FieldType::Date32,
        CellValue::Int64(_) => ft == FieldType::Int64 || ft == FieldType::Date64 || (ft matches
        FieldType::Timestamp(_, _)),
        CellValue::UInt8(_) => ft == FieldType::UInt8,
        CellValue::UInt16(_) => ft == FieldType::UInt16,
        CellValue::UInt32(_) => ft == FieldType::UInt32,
        CellValue::UInt64(_) => ft == FieldType::UInt64,
        CellValue::Float(_) => ft == FieldType::Float16 || ft == FieldType::Float32 || ft
            == FieldType::Float64,
        CellValue::Text(_) => ft == FieldType::Utf8 || ft == FieldType::LargeUtf8 || ft
            == FieldType::Utf8View || ft == FieldType::Null,
    }
}

/// The number of rows of a batch: the common length of its columns.
pub open spec fn spec_num_rows(b: RecordBatch) -> nat {
    if b.columns@.len() == 0 {
        0
    } else {
        b.columns@[0].cells@.len()
    }
}

/// A batch is aligned to a schema: one column per field, all columns of equal
/// length, every cell well-typed for its field.
pub open spec fn wf_batch(fields: Seq<Field>, b: RecordBatch) -> bool {
    &&& b.columns@.len() == fields.len()
    &&& forall|j: int|
        0 <= j < b.columns@.len() ==> #[trigger] b.columns@[j].cells@.len() == spec_num_rows(b)
    &&& forall|j: int, r: int|
        0 <= j < b.columns@.len() && 0 <= r < spec_num_rows(b) ==> cell_matches(
            fields[j].data_type,
            #[trigger] b.columns@[j].cells@[r],
        )
}

/// Every batch of a feed is aligned to the schema.
pub open spec fn wf_batches(fields: Seq<Field>, batches: Seq<RecordBatch>) -> bool {
    forall|i: int| 0 <= i < batches.len() ==> wf_batch(fields, #[trigger] batches[i])
}

/// Whether some field of the schema is named `key`.
pub open spec fn key_exists(fields: Seq<Field>, key: Seq<char>) -> bool {
    exists|i: int| 0 <= i < fields.len() && #[trigger] fields[i].name@ == key
}

/// The index the key lookup resolves to: the last field named `key`, scanning
/// the whole schema.
pub open spec fn key_index_upto(fields: Seq<Field>, key: Seq<char>, n: int) -> Option<int>
    decreases n,
{
    if n <= 0 {
        None
    } else if fields[n - 1].name@ == key {
        Some(n - 1)
    } else {
        key_index_upto(fields, key, n - 1)
    }
}

/// The resolved key column index over the whole schema.
pub open spec fn key_index(fields: Seq<Field>, key: Seq<char>) -> Option<int> {
    key_index_upto(fields, key, fields.len() as int)
}

/// The resolved key column index, defaulting to the first column where no
/// field carries the key name.
pub open spec fn key_index_val(fields: Seq<Field>, key: Seq<char>) -> int {
    match key_index(fields, key) {
        Some(i) => i,
        None => 0,
    }
}

pub proof fn lemma_key_index_upto_props(fields: Seq<Field>, key: Seq<char>, n: int)
    requires
        0 <= n <= fields.len(),
    ensures
        match key_index_upto(fields, key, n) {
            Some(i) => 0 <= i < n && fields[i].name@ == key,
            None => forall|i: int| 0 <= i < n ==> fields[i].name@ != key,
        },
    decreases n,
{
    if n > 0 {
        lemma_key_index_upto_props(fields, key, n - 1);
    }
}

/// A schema that contains the key resolves it to an in-bounds field of that
/// name.
pub proof fn lemma_key_exists_some(fields: Seq<Field>, key: Seq<char>)
    requires
        key_exists(fields, key),
    ensures
        key_index(fields, key) matches Some(i) && 0 <= i < fields.len() && fields[i].name@ == key,
        key_index(fields, key) == Some(key_index_val(fields, key)),
{
    lemma_key_index_upto_props(fields, key, fields.len() as int);
    if key_index(fields, key) is None {
        let w = choose|i: int| 0 <= i < fields.len() && #[trigger] fields[i].name@ == key;
        assert(fields[w].name@ == key);
        assert(false);
    }
}

impl RecordBatch {
    /// The number of rows available in this batch.
    pub fn num_rows(&self) -> (r: usize)
        ensures
            r == spec_num_rows(*self),
    {
        if self.columns.len() == 0 {
            0
        } else {
            self.columns[0].cells.len()
        }
    }
}

/// Whether a cell is a well-typed, present-or-null value of the given field
/// type; the executable form of `cell_matches`.
pub fn cell_matches_type(ft: FieldType, c: &CellValue) -> (r: bool)
    ensures
        r == cell_matches(ft, *c),
{
    match c {
        CellValue::Null => true,
        CellValue::Bool(_) => matches!(ft, FieldType::Boolean),
        CellValue::Int8(_) => matches!(ft, FieldType::Int8),
        CellValue::Int16(_) => matches!(ft, FieldType::Int16),
        CellValue::Int32(_) => matches!(ft, FieldType::Int32 | FieldType::Date32),
        CellValue::Int64(_) => matches!(
            ft,
            FieldType::Int64 | FieldType::Date64 | FieldType::Timestamp(_, _)
        ),
        CellValue::UInt8(_) => matches!(ft, FieldType::UInt8),
        CellValue::UInt16(_) => matches!(ft, FieldType::UInt16),
        CellValue::UInt32(_) => matches!(ft, FieldType::UInt32),
        CellValue::UInt64(_) => matches!(ft, FieldType::UInt64),
        CellValue::Float(_) => matches!(
            ft,
            FieldType::Float16 | FieldType::Float32 | FieldType::Float64
        ),
        CellValue::Text(_) => matches!(
            ft,
            FieldType::Utf8 | FieldType::LargeUtf8 | FieldType::Utf8View | FieldType::Null
        ),
    }
}

/// Whether a batch is aligned to the schema: one column per field, all
/// columns of one length, every cell well-typed; the executable form of
/// `wf_batch`.
pub fn batch_is_aligned(schema: &Schema, b: &RecordBatch) -> (r: bool)
    ensures
        r == wf_batch(schema.fields@, *b),
{
    if b.columns.len() != schema.fields.len() {
        return false;
    }
    let rows = b.num_rows();
    let n = b.columns.len();
    let mut j: usize = 0;
    while j < n
        invariant
            n == b.columns@.len(),
            n == schema.fields@.len(),
            j <= n,
            rows == spec_num_rows(*b),
            forall|a: int| 0 <= a < j ==> #[trigger] b.columns@[a].cells@.len() == rows,
            forall|a: int, r2: int|
                0 <= a < j && 0 <= r2 < rows ==> cell_matches(
                    schema.fields@[a].data_type,
                    #[trigger] b.columns@[a].cells@[r2],
                ),
        decreases n - j,
    {
        let col = &b.columns[j];
        if col.cells.len() != rows {
            return false;
        }
        let mut r2: usize = 0;
        while r2 < rows
            invariant
                rows == col.cells@.len(),
                col == &b.columns@[j as int],
                j < n,
                n == schema.fields@.len(),
                n == b.columns@.len(),
                r2 <= rows,
                forall|k: int|
                    0 <= k < r2 ==> cell_matches(
                        schema.fields@[j as int].data_type,
                        #[trigger] col.cells@[k],
                    ),
            decreases rows - r2,
        {
            if !cell_matches_type(schema.fields[j].data_type, &col.cells[r2]) {
                return false;
            }
            r2 = r2 + 1;
        }
        j = j + 1;
    }
    true
}

/// Whether every batch is aligned to the schema; the executable form of
/// `wf_batches`.
pub fn batches_are_aligned(schema: &Schema, batches: &Vec<RecordBatch>) -> (r: bool)
    ensures
        r == wf_batches(schema.fields@, batches@),
{
    let n = batches.len();
    let mut i: usize = 0;
    while i < n
        invariant
            n == batches@.len(),
            i <= n,
            forall|k: int| 0 <= k < i ==> wf_batch(schema.fields@, #[trigger] batches@[k]),
        decreases n - i,
    {
        if !batch_is_aligned(schema, &batches[i]) {
            return false;
        }
        i = i + 1;
    }
    true
}

/// Whether the schema contains a field of the given name; the executable
/// form of `key_exists`.
pub fn schema_has_key(schema: &Schema, key: &String) -> (r: bool)
    ensures
        r == key_exists(schema.fields@, key@),
{
    let n = schema.fields.len();
    let mut i: usize = 0;
    while i < n
        invariant
            n == schema.fields@.len(),
            i <= n,
            forall|k: int| 0 <= k < i ==> #[trigger] schema.fields@[k].name@ != key@,
        decreases n - i,
    {
        if schema.fields[i].name == *key {
            return true;
        }
        i = i + 1;
    }
    false
}

/// The namespace used when a collection does not specify one, and the name of
/// the default schema and container of the metadata document.
pub fn default_namespace() -> (r: String)
    ensures
        r@ == "default"@,
{
    "default".to_owned()
}

} // verus!
