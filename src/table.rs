use crate::error::{DataType, Error};
use vstd::prelude::*;

verus! {

/// The cells of one column; a `None` cell is null.
pub enum ColumnValues {
    Boolean(Vec<Option<bool>>),
    UInt8(Vec<Option<u8>>),
    UInt16(Vec<Option<u16>>),
    UInt32(Vec<Option<u32>>),
    Int32(Vec<Option<i32>>),
    Utf8(Vec<Option<String>>),
    Struct(Vec<Column>),
    Other,
}

/// A named column of a table, or a child of a struct column.
pub struct Column {
    pub name: String,
    pub values: ColumnValues,
}

/// A columnar table: its columns and its number of rows.
pub struct Table {
    pub num_rows: usize,
    pub columns: Vec<Column>,
}

/// Physical type of a column's values.
pub open spec fn type_of(v: ColumnValues) -> DataType {
    match v {
        ColumnValues::Boolean(_) => DataType::Boolean,
        ColumnValues::UInt8(_) => DataType::UInt8,
        ColumnValues::UInt16(_) => DataType::UInt16,
        ColumnValues::UInt32(_) => DataType::UInt32,
        ColumnValues::Int32(_) => DataType::Int32,
        ColumnValues::Utf8(_) => DataType::Utf8,
        ColumnValues::Struct(_) => DataType::Struct,
        ColumnValues::Other => DataType::Other,
    }
}

/// Column `i` is the first one named `name`.
pub open spec fn is_first_named(cols: Seq<Column>, name: Seq<char>, i: int) -> bool {
    &&& 0 <= i < cols.len()
    &&& cols[i].name@ == name
    &&& forall|j: int| 0 <= j < i ==> (#[trigger] cols[j]).name@ != name
}

/// No column is named `name`.
pub open spec fn has_no_column(cols: Seq<Column>, name: Seq<char>) -> bool {
    forall|j: int| 0 <= j < cols.len() ==> (#[trigger] cols[j]).name@ != name
}

/// Index of the first column named `name`, when there is one.
pub open spec fn first_index(cols: Seq<Column>, name: Seq<char>) -> int {
    choose|i: int| is_first_named(cols, name, i)
}

/// Binding column `name` with expected type `expect` fails: no column has
/// that name, or the first one of that name has another type.
pub open spec fn bind_fails(cols: Seq<Column>, name: Seq<char>, expect: DataType) -> bool {
    has_no_column(cols, name) || type_of(cols[first_index(cols, name)].values) != expect
}

/// `e` is the error of binding column `name` with expected type `expect`.
pub open spec fn is_bind_error(cols: Seq<Column>, name: Seq<char>, expect: DataType, e: Error) -> bool {
if has_no_column(cols, name) {
    e matches Error::ColumnNotFound { name: n } && n@ == name
} else {
    let i = first_index(cols, name);
    e == (Error::ColumnDataTypeMismatch {
        name: cols[i].name,
        expect,
        actual: type_of(cols[i].values),
    })
}
}

/// The children of the first column named `name`, when it is a struct.
pub open spec fn struct_of(cols: Seq<Column>, name: Seq<char>) -> Seq<Column> {
    match cols[first_index(cols, name)].values {
        ColumnValues::Struct(c) => c@,
        _ => Seq::empty(),
    }
}

/// There is one first column of each name.
pub proof fn lemma_first_index(cols: Seq<Column>, name: Seq<char>, i: int)
    requires
        is_first_named(cols, name, i),
    ensures
        first_index(cols, name) == i,
        !has_no_column(cols, name),
{
    let k = first_index(cols, name);
    assert(is_first_named(cols, name, k));
    if k < i {
        assert(cols[k].name@ != name);
    } else if i < k {
        assert(cols[i].name@ != name);
    }
}

/// Number of cells of a flat column; struct and unsupported columns have none.
pub open spec fn flat_len(v: ColumnValues) -> int {
    match v {
        ColumnValues::Boolean(x) => x@.len() as int,
        ColumnValues::UInt8(x) => x@.len() as int,
        ColumnValues::UInt16(x) => x@.len() as int,
        ColumnValues::UInt32(x) => x@.len() as int,
        ColumnValues::Int32(x) => x@.len() as int,
        ColumnValues::Utf8(x) => x@.len() as int,
        _ => -1,
    }
}

/// Every flat column, and every flat child of a struct column, has
/// `n` cells.
pub open spec fn column_fits(v: ColumnValues, n: int) -> bool {
    match v {
        ColumnValues::Struct(c) => forall|j: int|
            0 <= j < c@.len() && flat_len(#[trigger] c@[j].values) >= 0 ==> flat_len(c@[j].values) == n,
        ColumnValues::Other => true,
        _ => flat_len(v) == n,
    }
}

impl Table {
    /// Each column holds one cell per row.
    pub open spec fn wf(&self) -> bool {
        forall|i: int|
            0 <= i < self.columns@.len() ==> column_fits(#[trigger] self.columns@[i].values, self.num_rows as int)
    }
}

impl ColumnValues {
    pub fn data_type(&self) -> (r: DataType)
        ensures
            r == type_of(*self),
    {
        match self {
            ColumnValues::Boolean(_) => DataType::Boolean,
            ColumnValues::UInt8(_) => DataType::UInt8,
            ColumnValues::UInt16(_) => DataType::UInt16,
            ColumnValues::UInt32(_) => DataType::UInt32,
            ColumnValues::Int32(_) => DataType::Int32,
            ColumnValues::Utf8(_) => DataType::Utf8,
            ColumnValues::Struct(_) => DataType::Struct,
            ColumnValues::Other => DataType::Other,
        }
    }
}

/// Finds the first column named `name`.
pub fn column_by_name(cols: &Vec<Column>, name: &String) -> (r: Option<usize>)
    ensures
        r matches Some(i) ==> is_first_named(cols@, name@, i as int),
        r is None <==> has_no_column(cols@, name@),
{
    let mut i: usize = 0;
    while i < cols.len()
        invariant
            0 <= i <= cols@.len(),
            forall|j: int| 0 <= j < i ==> (#[trigger] cols@[j]).name@ != name@,
        decreases cols@.len() - i,
    {
        if cols[i].name == *name {
            return Some(i);
        }
        i = i + 1;
    }
    None
}

/// Locates column `name`, or fails with `ColumnNotFound`.
fn locate(cols: &Vec<Column>, name: &String) -> (r: Result<usize, Error>)
    ensures
        r matches Ok(i) ==> is_first_named(cols@, name@, i as int),
        r is Err <==> has_no_column(cols@, name@),
        r matches Err(e) ==> e == (Error::ColumnNotFound { name: *name }),
{
    match column_by_name(cols, name) {
        Some(i) => Ok(i),
        None => Err(Error::ColumnNotFound { name: name.clone() }),
    }
}

/// The mismatch error for column `i`.
fn mismatch(cols: &Vec<Column>, i: usize, expect: DataType) -> (e: Error)
    requires
        i < cols@.len(),
    ensures
        e == (Error::ColumnDataTypeMismatch {
            name: cols@[i as int].name,
            expect,
            actual: type_of(cols@[i as int].values),
        }),
{
    Error::ColumnDataTypeMismatch {
        name: cols[i].name.clone(),
        expect,
        actual: cols[i].values.data_type(),
    }
}

/// Binds column `name` as a Boolean column.
pub fn get_bool_array<'a>(cols: &'a Vec<Column>, name: &String) -> (r: Result<&'a Vec<Option<bool>>, Error>)
    ensures
        r is Err <==> bind_fails(cols@, name@, DataType::Boolean),
        r matches Ok(v) ==> cols@[first_index(cols@, name@)].values == ColumnValues::Boolean(*v),
        r matches Err(e) ==> is_bind_error(cols@, name@, DataType::Boolean, e),
{
    let i = locate(cols, name)?;
    proof { lemma_first_index(cols@, name@, i as int); }
    match &cols[i].values {
        ColumnValues::Boolean(v) => Ok(v),
        _ => Err(mismatch(cols, i, DataType::Boolean)),
    }
}

/// Binds column `name` as a UInt8 column.
pub fn get_u8_array<'a>(cols: &'a Vec<Column>, name: &String) -> (r: Result<&'a Vec<Option<u8>>, Error>)
    ensures
        r is Err <==> bind_fails(cols@, name@, DataType::UInt8),
        r matches Ok(v) ==> cols@[first_index(cols@, name@)].values == ColumnValues::UInt8(*v),
        r matches Err(e) ==> is_bind_error(cols@, name@, DataType::UInt8, e),
{
    let i = locate(cols, name)?;
    proof { lemma_first_index(cols@, name@, i as int); }
    match &cols[i].values {
        ColumnValues::UInt8(v) => Ok(v),
        _ => Err(mismatch(cols, i, DataType::UInt8)),
    }
}

/// Binds column `name` as a UInt16 column.
pub fn get_u16_array<'a>(cols: &'a Vec<Column>, name: &String) -> (r: Result<&'a Vec<Option<u16>>, Error>)
    ensures
        r is Err <==> bind_fails(cols@, name@, DataType::UInt16),
        r matches Ok(v) ==> cols@[first_index(cols@, name@)].values == ColumnValues::UInt16(*v),
        r matches Err(e) ==> is_bind_error(cols@, name@, DataType::UInt16, e),
{
    let i = locate(cols, name)?;
    proof { lemma_first_index(cols@, name@, i as int); }
    match &cols[i].values {
        ColumnValues::UInt16(v) => Ok(v),
        _ => Err(mismatch(cols, i, DataType::UInt16)),
    }
}

/// Binds column `name` as a UInt32 column.
pub fn get_u32_array<'a>(cols: &'a Vec<Column>, name: &String) -> (r: Result<&'a Vec<Option<u32>>, Error>)
    ensures
        r is Err <==> bind_fails(cols@, name@, DataType::UInt32),
        r matches Ok(v) ==> cols@[first_index(cols@, name@)].values == ColumnValues::UInt32(*v),
        r matches Err(e) ==> is_bind_error(cols@, name@, DataType::UInt32, e),
{
    let i = locate(cols, name)?;
    proof { lemma_first_index(cols@, name@, i as int); }
    match &cols[i].values {
        ColumnValues::UInt32(v) => Ok(v),
        _ => Err(mismatch(cols, i, DataType::UInt32)),
    }
}

/// Binds column `name` as a Int32 column.
pub fn get_i32_array<'a>(cols: &'a Vec<Column>, name: &String) -> (r: Result<&'a Vec<Option<i32>>, Error>)
    ensures
        r is Err <==> bind_fails(cols@, name@, DataType::Int32),
        r matches Ok(v) ==> cols@[first_index(cols@, name@)].values == ColumnValues::Int32(*v),
        r matches Err(e) ==> is_bind_error(cols@, name@, DataType::Int32, e),
{
    let i = locate(cols, name)?;
    proof { lemma_first_index(cols@, name@, i as int); }
    match &cols[i].values {
        ColumnValues::Int32(v) => Ok(v),
        _ => Err(mismatch(cols, i, DataType::Int32)),
    }
}

/// Binds column `name` as a Utf8 column.
pub fn get_string_array<'a>(cols: &'a Vec<Column>, name: &String) -> (r: Result<&'a Vec<Option<String>>, Error>)
    ensures
        r is Err <==> bind_fails(cols@, name@, DataType::Utf8),
        r matches Ok(v) ==> cols@[first_index(cols@, name@)].values == ColumnValues::Utf8(*v),
        r matches Err(e) ==> is_bind_error(cols@, name@, DataType::Utf8, e),
{
    let i = locate(cols, name)?;
    proof { lemma_first_index(cols@, name@, i as int); }
    match &cols[i].values {
        ColumnValues::Utf8(v) => Ok(v),
        _ => Err(mismatch(cols, i, DataType::Utf8)),
    }
}

/// Binds column `name` as a Struct column.
pub fn get_struct_array<'a>(cols: &'a Vec<Column>, name: &String) -> (r: Result<&'a Vec<Column>, Error>)
    ensures
        r is Err <==> bind_fails(cols@, name@, DataType::Struct),
        r matches Ok(v) ==> cols@[first_index(cols@, name@)].values == ColumnValues::Struct(*v),
        r matches Err(e) ==> is_bind_error(cols@, name@, DataType::Struct, e),
{
    let i = locate(cols, name)?;
    proof { lemma_first_index(cols@, name@, i as int); }
    match &cols[i].values {
        ColumnValues::Struct(v) => Ok(v),
        _ => Err(mismatch(cols, i, DataType::Struct)),
    }
}


/// Binding the metrics group fails.
pub open spec fn metrics_bind_fails(cols: Seq<Column>) -> bool {
    ||| bind_fails(cols, "id"@, DataType::UInt16)
    ||| bind_fails(cols, "metric_type"@, DataType::UInt8)
    ||| bind_fails(cols, "name"@, DataType::Utf8)
    ||| bind_fails(cols, "description"@, DataType::Utf8)
    ||| bind_fails(cols, "schema_url"@, DataType::Utf8)
    ||| bind_fails(cols, "unit"@, DataType::Utf8)
    ||| bind_fails(cols, "aggregation_temporality"@, DataType::Int32)
    ||| bind_fails(cols, "is_monotonic"@, DataType::Boolean)
}

/// `e` is the error of binding the metrics group: that of its first
/// step that fails.
pub open spec fn metrics_bind_error(cols: Seq<Column>, e: Error) -> bool {
    ||| (bind_fails(cols, "id"@, DataType::UInt16)
        && is_bind_error(cols, "id"@, DataType::UInt16, e))
    ||| (!bind_fails(cols, "id"@, DataType::UInt16)
        && bind_fails(cols, "metric_type"@, DataType::UInt8)
        && is_bind_error(cols, "metric_type"@, DataType::UInt8, e))
    ||| (!bind_fails(cols, "id"@, DataType::UInt16)
        && !bind_fails(cols, "metric_type"@, DataType::UInt8)
        && bind_fails(cols, "name"@, DataType::Utf8)
        && is_bind_error(cols, "name"@, DataType::Utf8, e))
    ||| (!bind_fails(cols, "id"@, DataType::UInt16)
        && !bind_fails(cols, "metric_type"@, DataType::UInt8)
        && !bind_fails(cols, "name"@, DataType::Utf8)
        && bind_fails(cols, "description"@, DataType::Utf8)
        && is_bind_error(cols, "description"@, DataType::Utf8, e))
    ||| (!bind_fails(cols, "id"@, DataType::UInt16)
        && !bind_fails(cols, "metric_type"@, DataType::UInt8)
        && !bind_fails(cols, "name"@, DataType::Utf8)
        && !bind_fails(cols, "description"@, DataType::Utf8)
        && bind_fails(cols, "schema_url"@, DataType::Utf8)
        && is_bind_error(cols, "schema_url"@, DataType::Utf8, e))
    ||| (!bind_fails(cols, "id"@, DataType::UInt16)
        && !bind_fails(cols, "metric_type"@, DataType::UInt8)
        && !bind_fails(cols, "name"@, DataType::Utf8)
        && !bind_fails(cols, "description"@, DataType::Utf8)
        && !bind_fails(cols, "schema_url"@, DataType::Utf8)
        && bind_fails(cols, "unit"@, DataType::Utf8)
        && is_bind_error(cols, "unit"@, DataType::Utf8, e))
    ||| (!bind_fails(cols, "id"@, DataType::UInt16)
        && !bind_fails(cols, "metric_type"@, DataType::UInt8)
        && !bind_fails(cols, "name"@, DataType::Utf8)
        && !bind_fails(cols, "description"@, DataType::Utf8)
        && !bind_fails(cols, "schema_url"@, DataType::Utf8)
        && !bind_fails(cols, "unit"@, DataType::Utf8)
        && bind_fails(cols, "aggregation_temporality"@, DataType::Int32)
        && is_bind_error(cols, "aggregation_temporality"@, DataType::Int32, e))
    ||| (!bind_fails(cols, "id"@, DataType::UInt16)
        && !bind_fails(cols, "metric_type"@, DataType::UInt8)
        && !bind_fails(cols, "name"@, DataType::Utf8)
        && !bind_fails(cols, "description"@, DataType::Utf8)
        && !bind_fails(cols, "schema_url"@, DataType::Utf8)
        && !bind_fails(cols, "unit"@, DataType::Utf8)
        && !bind_fails(cols, "aggregation_temporality"@, DataType::Int32)
        && bind_fails(cols, "is_monotonic"@, DataType::Boolean)
        && is_bind_error(cols, "is_monotonic"@, DataType::Boolean, e))
}

/// Binding the resource group fails.
pub open spec fn resource_bind_fails(cols: Seq<Column>) -> bool {
    ||| bind_fails(cols, "resource"@, DataType::Struct)
    ||| bind_fails(struct_of(cols, "resource"@), "id"@, DataType::UInt16)
    ||| bind_fails(struct_of(cols, "resource"@), "dropped_attributes_count"@, DataType::UInt32)
    ||| bind_fails(struct_of(cols, "resource"@), "schema_url"@, DataType::Utf8)
}

/// `e` is the error of binding the resource group: that of its first
/// step that fails.
pub open spec fn resource_bind_error(cols: Seq<Column>, e: Error) -> bool {
    ||| (bind_fails(cols, "resource"@, DataType::Struct)
        && is_bind_error(cols, "resource"@, DataType::Struct, e))
    ||| (!bind_fails(cols, "resource"@, DataType::Struct)
        && bind_fails(struct_of(cols, "resource"@), "id"@, DataType::UInt16)
        && is_bind_error(struct_of(cols, "resource"@), "id"@, DataType::UInt16, e))
    ||| (!bind_fails(cols, "resource"@, DataType::Struct)
        && !bind_fails(struct_of(cols, "resource"@), "id"@, DataType::UInt16)
        && bind_fails(struct_of(cols, "resource"@), "dropped_attributes_count"@, DataType::UInt32)
        && is_bind_error(struct_of(cols, "resource"@), "dropped_attributes_count"@, DataType::UInt32, e))
    ||| (!bind_fails(cols, "resource"@, DataType::Struct)
        && !bind_fails(struct_of(cols, "resource"@), "id"@, DataType::UInt16)
        && !bind_fails(struct_of(cols, "resource"@), "dropped_attributes_count"@, DataType::UInt32)
        && bind_fails(struct_of(cols, "resource"@), "schema_url"@, DataType::Utf8)
        && is_bind_error(struct_of(cols, "resource"@), "schema_url"@, DataType::Utf8, e))
}

/// Binding the scope group fails.
pub open spec fn scope_bind_fails(cols: Seq<Column>) -> bool {
    ||| bind_fails(cols, "scope"@, DataType::Struct)
    ||| bind_fails(struct_of(cols, "scope"@), "name"@, DataType::Utf8)
    ||| bind_fails(struct_of(cols, "scope"@), "version"@, DataType::Utf8)
    ||| bind_fails(struct_of(cols, "scope"@), "dropped_attributes_count"@, DataType::UInt32)
    ||| bind_fails(struct_of(cols, "scope"@), "id"@, DataType::UInt16)
}

/// `e` is the error of binding the scope group: that of its first
/// step that fails.
pub open spec fn scope_bind_error(cols: Seq<Column>, e: Error) -> bool {
    ||| (bind_fails(cols, "scope"@, DataType::Struct)
        && is_bind_error(cols, "scope"@, DataType::Struct, e))
    ||| (!bind_fails(cols, "scope"@, DataType::Struct)
        && bind_fails(struct_of(cols, "scope"@), "name"@, DataType::Utf8)
        && is_bind_error(struct_of(cols, "scope"@), "name"@, DataType::Utf8, e))
    ||| (!bind_fails(cols, "scope"@, DataType::Struct)
        && !bind_fails(struct_of(cols, "scope"@), "name"@, DataType::Utf8)
        && bind_fails(struct_of(cols, "scope"@), "version"@, DataType::Utf8)
        && is_bind_error(struct_of(cols, "scope"@), "version"@, DataType::Utf8, e))
    ||| (!bind_fails(cols, "scope"@, DataType::Struct)
        && !bind_fails(struct_of(cols, "scope"@), "name"@, DataType::Utf8)
        && !bind_fails(struct_of(cols, "scope"@), "version"@, DataType::Utf8)
        && bind_fails(struct_of(cols, "scope"@), "dropped_attributes_count"@, DataType::UInt32)
        && is_bind_error(struct_of(cols, "scope"@), "dropped_attributes_count"@, DataType::UInt32, e))
    ||| (!bind_fails(cols, "scope"@, DataType::Struct)
        && !bind_fails(struct_of(cols, "scope"@), "name"@, DataType::Utf8)
        && !bind_fails(struct_of(cols, "scope"@), "version"@, DataType::Utf8)
        && !bind_fails(struct_of(cols, "scope"@), "dropped_attributes_count"@, DataType::UInt32)
        && bind_fails(struct_of(cols, "scope"@), "id"@, DataType::UInt16)
        && is_bind_error(struct_of(cols, "scope"@), "id"@, DataType::UInt16, e))
}

/// Typed views over the flat metric columns of a table.
pub struct MetricsArrays<'a> {
    pub id: &'a Vec<Option<u16>>,
    pub metric_type: &'a Vec<Option<u8>>,
    pub schema_url: &'a Vec<Option<String>>,
    pub name: &'a Vec<Option<String>>,
    pub description: &'a Vec<Option<String>>,
    pub unit: &'a Vec<Option<String>>,
    pub aggregation_temporality: &'a Vec<Option<i32>>,
    pub is_monotonic: &'a Vec<Option<bool>>,
}

impl<'a> MetricsArrays<'a> {
    /// Binds the eight flat metric columns, in order, and fails with the
    /// error of the first that is missing or of another type.
    pub fn bind(table: &'a Table) -> (r: Result<MetricsArrays<'a>, Error>)
        ensures
            r is Err <==> metrics_bind_fails(table.columns@),
            r matches Err(e) ==> metrics_bind_error(table.columns@, e),
            r matches Ok(a) ==> {
                &&& table.columns@[first_index(table.columns@, "id"@)].values == ColumnValues::UInt16(*a.id)
                &&& table.columns@[first_index(table.columns@, "metric_type"@)].values == ColumnValues::UInt8(*a.metric_type)
                &&& table.columns@[first_index(table.columns@, "name"@)].values == ColumnValues::Utf8(*a.name)
                &&& table.columns@[first_index(table.columns@, "description"@)].values == ColumnValues::Utf8(*a.description)
                &&& table.columns@[first_index(table.columns@, "schema_url"@)].values == ColumnValues::Utf8(*a.schema_url)
                &&& table.columns@[first_index(table.columns@, "unit"@)].values == ColumnValues::Utf8(*a.unit)
                &&& table.columns@[first_index(table.columns@, "aggregation_temporality"@)].values == ColumnValues::Int32(*a.aggregation_temporality)
                &&& table.columns@[first_index(table.columns@, "is_monotonic"@)].values == ColumnValues::Boolean(*a.is_monotonic)
            },
    {
        let cols = &table.columns;
        let id = get_u16_array(cols, &"id".to_owned())?;
        let metric_type = get_u8_array(cols, &"metric_type".to_owned())?;
        let name = get_string_array(cols, &"name".to_owned())?;
        let description = get_string_array(cols, &"description".to_owned())?;
        let schema_url = get_string_array(cols, &"schema_url".to_owned())?;
        let unit = get_string_array(cols, &"unit".to_owned())?;
        let aggregation_temporality = get_i32_array(cols, &"aggregation_temporality".to_owned())?;
        let is_monotonic = get_bool_array(cols, &"is_monotonic".to_owned())?;
        Ok(MetricsArrays {
            id,
            metric_type,
            schema_url,
            name,
            description,
            unit,
            aggregation_temporality,
            is_monotonic,
        })
    }
}

/// Typed views over the children of the `resource` struct column.
pub struct ResourceArrays<'a> {
    pub id: &'a Vec<Option<u16>>,
    pub dropped_attributes_count: &'a Vec<Option<u32>>,
    pub schema_url: &'a Vec<Option<String>>,
}

/// Typed views over the children of the `scope` struct column.
pub struct ScopeArrays<'a> {
    pub name: &'a Vec<Option<String>>,
    pub version: &'a Vec<Option<String>>,
    pub dropped_attributes_count: &'a Vec<Option<u32>>,
    pub id: &'a Vec<Option<u16>>,
}

impl<'a> ResourceArrays<'a> {
    /// Binds the `resource` struct column and its `id`,
    /// `dropped_attributes_count` and `schema_url` children, in that order,
    /// failing with the error of the first step that fails.
    pub fn bind(table: &'a Table) -> (r: Result<ResourceArrays<'a>, Error>)
        ensures
            r is Err <==> resource_bind_fails(table.columns@),
            r matches Err(e) ==> resource_bind_error(table.columns@, e),
            r matches Ok(a) ==> {
                &&& struct_of(table.columns@, "resource"@)[first_index(struct_of(table.columns@, "resource"@), "id"@)].values == ColumnValues::UInt16(*a.id)
                &&& struct_of(table.columns@, "resource"@)[first_index(struct_of(table.columns@, "resource"@), "dropped_attributes_count"@)].values == ColumnValues::UInt32(*a.dropped_attributes_count)
                &&& struct_of(table.columns@, "resource"@)[first_index(struct_of(table.columns@, "resource"@), "schema_url"@)].values == ColumnValues::Utf8(*a.schema_url)
            },
    {
        let children = get_struct_array(&table.columns, &"resource".to_owned())?;
        assert(children@ == struct_of(table.columns@, "resource"@));
        let id = get_u16_array(children, &"id".to_owned())?;
        let dropped_attributes_count = get_u32_array(children, &"dropped_attributes_count".to_owned())?;
        let schema_url = get_string_array(children, &"schema_url".to_owned())?;
        Ok(ResourceArrays { id, dropped_attributes_count, schema_url })
    }
}

impl<'a> ScopeArrays<'a> {
    /// Binds the `scope` struct column and its `name`, `version`,
    /// `dropped_attributes_count` and `id` children, in that order,
    /// failing with the error of the first step that fails.
    pub fn bind(table: &'a Table) -> (r: Result<ScopeArrays<'a>, Error>)
        ensures
            r is Err <==> scope_bind_fails(table.columns@),
            r matches Err(e) ==> scope_bind_error(table.columns@, e),
            r matches Ok(a) ==> {
                &&& struct_of(table.columns@, "scope"@)[first_index(struct_of(table.columns@, "scope"@), "name"@)].values == ColumnValues::Utf8(*a.name)
                &&& struct_of(table.columns@, "scope"@)[first_index(struct_of(table.columns@, "scope"@), "version"@)].values == ColumnValues::Utf8(*a.version)
                &&& struct_of(table.columns@, "scope"@)[first_index(struct_of(table.columns@, "scope"@), "dropped_attributes_count"@)].values == ColumnValues::UInt32(*a.dropped_attributes_count)
                &&& struct_of(table.columns@, "scope"@)[first_index(struct_of(table.columns@, "scope"@), "id"@)].values == ColumnValues::UInt16(*a.id)
            },
    {
        let children = get_struct_array(&table.columns, &"scope".to_owned())?;
        assert(children@ == struct_of(table.columns@, "scope"@));
        let name = get_string_array(children, &"name".to_owned())?;
        let version = get_string_array(children, &"version".to_owned())?;
        let dropped_attributes_count = get_u32_array(children, &"dropped_attributes_count".to_owned())?;
        let id = get_u16_array(children, &"id".to_owned())?;
        Ok(ScopeArrays { name, version, dropped_attributes_count, id })
    }
}

/// Cell `i`, or 0 when it is null or past the end.
pub fn u8_at_or_default(values: &Vec<Option<u8>>, i: usize) -> (r: u8)
    ensures
        r == if i < values@.len() && values@[i as int] is Some {
            values@[i as int]->Some_0
        } else {
            0u8
        },
{
    if i < values.len() {
        match values[i] {
            Some(v) => v,
            None => 0u8,
        }
    } else {
        0u8
    }
}

/// Cell `i`, or 0 when it is null or past the end.
pub fn u16_at_or_default(values: &Vec<Option<u16>>, i: usize) -> (r: u16)
    ensures
        r == if i < values@.len() && values@[i as int] is Some {
            values@[i as int]->Some_0
        } else {
            0u16
        },
{
    if i < values.len() {
        match values[i] {
            Some(v) => v,
            None => 0u16,
        }
    } else {
        0u16
    }
}

/// Cell `i`, or 0 when it is null or past the end.
pub fn u32_at_or_default(values: &Vec<Option<u32>>, i: usize) -> (r: u32)
    ensures
        r == if i < values@.len() && values@[i as int] is Some {
            values@[i as int]->Some_0
        } else {
            0u32
        },
{
    if i < values.len() {
        match values[i] {
            Some(v) => v,
            None => 0u32,
        }
    } else {
        0u32
    }
}

/// Cell `i`, or 0 when it is null or past the end.
pub fn i32_at_or_default(values: &Vec<Option<i32>>, i: usize) -> (r: i32)
    ensures
        r == if i < values@.len() && values@[i as int] is Some {
            values@[i as int]->Some_0
        } else {
            0i32
        },
{
    if i < values.len() {
        match values[i] {
            Some(v) => v,
            None => 0i32,
        }
    } else {
        0i32
    }
}

/// Cell `i`, or false when it is null or past the end.
pub fn bool_at_or_default(values: &Vec<Option<bool>>, i: usize) -> (r: bool)
    ensures
        r == if i < values@.len() && values@[i as int] is Some {
            values@[i as int]->Some_0
        } else {
            false
        },
{
    if i < values.len() {
        match values[i] {
            Some(v) => v,
            None => false,
        }
    } else {
        false
    }
}

/// Cell `i`, or the empty string when it is null or past the end.
pub fn string_at_or_default(values: &Vec<Option<String>>, i: usize) -> (r: String)
    ensures
        r@ == if i < values@.len() && values@[i as int] is Some {
            (values@[i as int]->Some_0)@
        } else {
            Seq::<char>::empty()
        },
{
    if i < values.len() {
        match &values[i] {
            Some(v) => v.clone(),
            None => String::new(),
        }
    } else {
        String::new()
    }
}

} // verus!
