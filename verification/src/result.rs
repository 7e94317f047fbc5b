//! Tagged result values and the conversion of raw result rows into them.
//!
//! A raw row is what the driver hands back once its wire work is done: per
//! column a name, the declared column type's name, and the decoded scalar
//! as a plain value (types rendered to canonical string form arrive as that
//! canonical string). The conversion into tagged [`Value`]s preserves the
//! server's column order, maps each declared type to a fixed variant,
//! turns a true NULL into `Nil` whatever the declared type, and fails the
//! whole row on a non-null cell of the one explicitly unsupported type.

use vstd::prelude::*;
use crate::text::str_eq;

verus! {

/// A tagged scalar as delivered to the host. Floating-point values are
/// carried as their IEEE 754 bit patterns; byte strings carry text, blobs
/// and everything rendered to canonical string form.
#[derive(Clone, Debug, PartialEq, Eq)]
pub enum Value {
    Nil,
    Bool(bool),
    I8(i8),
    I16(i16),
    I32(i32),
    I64(i64),
    U8(u8),
    U16(u16),
    U32(u32),
    U64(u64),
    F32Bits(u32),
    F64Bits(u64),
    String(Vec<u8>),
}

/// The mathematical value of a [`Value`].
pub enum ValueView {
    Nil,
    Bool(bool),
    I8(i8),
    I16(i16),
    I32(i32),
    I64(i64),
    U8(u8),
    U16(u16),
    U32(u32),
    U64(u64),
    F32Bits(u32),
    F64Bits(u64),
    String(Seq<u8>),
}

impl View for Value {
    type V = ValueView;

    open spec fn view(&self) -> ValueView {
        match *self {
            Value::Nil => ValueView::Nil,
            Value::Bool(b) => ValueView::Bool(b),
            Value::I8(x) => ValueView::I8(x),
            Value::I16(x) => ValueView::I16(x),
            Value::I32(x) => ValueView::I32(x),
            Value::I64(x) => ValueView::I64(x),
            Value::U8(x) => ValueView::U8(x),
            Value::U16(x) => ValueView::U16(x),
            Value::U32(x) => ValueView::U32(x),
            Value::U64(x) => ValueView::U64(x),
            Value::F32Bits(x) => ValueView::F32Bits(x),
            Value::F64Bits(x) => ValueView::F64Bits(x),
            Value::String(b) => ValueView::String(b@),
        }
    }
}

/// One converted column: the column's name and its tagged value. Column
/// names are not required to be unique within a row.
#[derive(Clone, Debug, PartialEq, Eq)]
pub struct ColumnValue {
    pub column_name: String,
    pub value: Value,
}

/// The mathematical value of a [`ColumnValue`].
pub struct ColumnValueView {
    pub column_name: Seq<char>,
    pub value: ValueView,
}

impl View for ColumnValue {
    type V = ColumnValueView;

    open spec fn view(&self) -> ColumnValueView {
        ColumnValueView { column_name: self.column_name@, value: self.value@ }
    }
}

/// The decoded scalar of one raw column, before conversion. `Canonical`
/// holds the canonical string rendering of a decimal, date, time, datetime
/// or timestamp; `Bytes` holds a binary or text payload.
#[derive(Clone, Debug, PartialEq, Eq)]
pub enum RawCell {
    Null,
    Bool(bool),
    I8(i8),
    I16(i16),
    I32(i32),
    I64(i64),
    U8(u8),
    U16(u16),
    U32(u32),
    U64(u64),
    F32Bits(u32),
    F64Bits(u64),
    Canonical(Vec<u8>),
    Bytes(Vec<u8>),
}

/// The mathematical value of a [`RawCell`].
pub enum RawCellView {
    Null,
    Bool(bool),
    I8(i8),
    I16(i16),
    I32(i32),
    I64(i64),
    U8(u8),
    U16(u16),
    U32(u32),
    U64(u64),
    F32Bits(u32),
    F64Bits(u64),
    Canonical(Seq<u8>),
    Bytes(Seq<u8>),
}

impl View for RawCell {
    type V = RawCellView;

    open spec fn view(&self) -> RawCellView {
        match *self {
            RawCell::Null => RawCellView::Null,
            RawCell::Bool(b) => RawCellView::Bool(b),
            RawCell::I8(x) => RawCellView::I8(x),
            RawCell::I16(x) => RawCellView::I16(x),
            RawCell::I32(x) => RawCellView::I32(x),
            RawCell::I64(x) => RawCellView::I64(x),
            RawCell::U8(x) => RawCellView::U8(x),
            RawCell::U16(x) => RawCellView::U16(x),
            RawCell::U32(x) => RawCellView::U32(x),
            RawCell::U64(x) => RawCellView::U64(x),
            RawCell::F32Bits(x) => RawCellView::F32Bits(x),
            RawCell::F64Bits(x) => RawCellView::F64Bits(x),
            RawCell::Canonical(s) => RawCellView::Canonical(s@),
            RawCell::Bytes(b) => RawCellView::Bytes(b@),
        }
    }
}

/// One raw column of a result row.
#[derive(Debug, Clone, PartialEq, Eq)]
pub struct RawColumn {
    pub name: String,
    pub declared_type: String,
    pub cell: RawCell,
}

/// The mathematical value of a [`RawColumn`].
pub struct RawColumnView {
    pub name: Seq<char>,
    pub declared_type: Seq<char>,
    pub cell: RawCellView,
}

impl View for RawColumn {
    type V = RawColumnView;

    open spec fn view(&self) -> RawColumnView {
        RawColumnView {
            name: self.name@,
            declared_type: self.declared_type@,
            cell: self.cell@,
        }
    }
}

/// The fixed value shape a supported declared column type maps to.
#[derive(Clone, Copy, Debug, PartialEq, Eq, Structural)]
pub enum ColumnKind {
    Null,
    Bool,
    I8,
    I16,
    I32,
    I64,
    U8,
    U16,
    U32,
    U64,
    F32,
    F64,
    Canonical,
    Bytes,
}

/// How a declared column type is classified: a supported kind, the one
/// explicitly unsupported type, or a type name this library does not know.
#[derive(Clone, Copy, Debug, PartialEq, Eq, Structural)]
pub enum ColumnClass {
    Supported(ColumnKind),
    Bit,
    Unknown,
}

/// The fixed mapping from a declared column type's name to its class.
pub open spec fn spec_column_class(t: Seq<char>) -> ColumnClass {
    if t == "NULL"@ {
        ColumnClass::Supported(ColumnKind::Null)
    } else if t == "BOOLEAN"@ || t == "BOOL"@ {
        ColumnClass::Supported(ColumnKind::Bool)
    } else if t == "TINYINT"@ {
        ColumnClass::Supported(ColumnKind::I8)
    } else if t == "SMALLINT"@ {
        ColumnClass::Supported(ColumnKind::I16)
    } else if t == "INT"@ || t == "INTEGER"@ || t == "MEDIUMINT"@ {
        ColumnClass::Supported(ColumnKind::I32)
    } else if t == "BIGINT"@ {
        ColumnClass::Supported(ColumnKind::I64)
    } else if t == "TINYINT UNSIGNED"@ {
        ColumnClass::Supported(ColumnKind::U8)
    } else if t == "SMALLINT UNSIGNED"@ {
        ColumnClass::Supported(ColumnKind::U16)
    } else if t == "INT UNSIGNED"@ || t == "MEDIUMINT UNSIGNED"@ {
        ColumnClass::Supported(ColumnKind::U32)
    } else if t == "BIGINT UNSIGNED"@ {
        ColumnClass::Supported(ColumnKind::U64)
    } else if t == "FLOAT"@ {
        ColumnClass::Supported(ColumnKind::F32)
    } else if t == "DOUBLE"@ || t == "REAL"@ {
        ColumnClass::Supported(ColumnKind::F64)
    } else if t == "DECIMAL"@ || t == "TIME"@ || t == "DATE"@ || t == "DATETIME"@ || t
        == "TIMESTAMP"@ {
        ColumnClass::Supported(ColumnKind::Canonical)
    } else if t == "YEAR"@ {
        ColumnClass::Supported(ColumnKind::I32)
    } else if t == "BINARY"@ || t == "VARBINARY"@ || t == "TINYBLOB"@ || t == "BLOB"@ || t
        == "MEDIUMBLOB"@ || t == "LONGBLOB"@ || t == "CHAR"@ || t == "VARCHAR"@ || t == "TEXT"@
        || t == "TINYTEXT"@ || t == "MEDIUMTEXT"@ || t == "LONGTEXT"@ || t == "JSON"@ || t
        == "ENUM"@ || t == "SET"@ {
        ColumnClass::Supported(ColumnKind::Bytes)
    } else if t == "BIT"@ {
        ColumnClass::Bit
    } else {
        ColumnClass::Unknown
    }
}

/// Classifies a declared column type's name, exact against
/// [`spec_column_class`].
pub fn column_class(declared_type: &str) -> (r: ColumnClass)
    ensures
        r == spec_column_class(declared_type@),
{
    let t = declared_type;
    if str_eq(t, "NULL") {
        ColumnClass::Supported(ColumnKind::Null)
    } else if str_eq(t, "BOOLEAN") || str_eq(t, "BOOL") {
        ColumnClass::Supported(ColumnKind::Bool)
    } else if str_eq(t, "TINYINT") {
        ColumnClass::Supported(ColumnKind::I8)
    } else if str_eq(t, "SMALLINT") {
        ColumnClass::Supported(ColumnKind::I16)
    } else if str_eq(t, "INT") || str_eq(t, "INTEGER") || str_eq(t, "MEDIUMINT") {
        ColumnClass::Supported(ColumnKind::I32)
    } else if str_eq(t, "BIGINT") {
        ColumnClass::Supported(ColumnKind::I64)
    } else if str_eq(t, "TINYINT UNSIGNED") {
        ColumnClass::Supported(ColumnKind::U8)
    } else if str_eq(t, "SMALLINT UNSIGNED") {
        ColumnClass::Supported(ColumnKind::U16)
    } else if str_eq(t, "INT UNSIGNED") || str_eq(t, "MEDIUMINT UNSIGNED") {
        ColumnClass::Supported(ColumnKind::U32)
    } else if str_eq(t, "BIGINT UNSIGNED") {
        ColumnClass::Supported(ColumnKind::U64)
    } else if str_eq(t, "FLOAT") {
        ColumnClass::Supported(ColumnKind::F32)
    } else if str_eq(t, "DOUBLE") || str_eq(t, "REAL") {
        ColumnClass::Supported(ColumnKind::F64)
    } else if str_eq(t, "DECIMAL") || str_eq(t, "TIME") || str_eq(t, "DATE") || str_eq(
        t,
        "DATETIME",
    ) || str_eq(t, "TIMESTAMP") {
        ColumnClass::Supported(ColumnKind::Canonical)
    } else if str_eq(t, "YEAR") {
        ColumnClass::Supported(ColumnKind::I32)
    } else if str_eq(t, "BINARY") || str_eq(t, "VARBINARY") || str_eq(t, "TINYBLOB") || str_eq(
        t,
        "BLOB",
    ) || str_eq(t, "MEDIUMBLOB") || str_eq(t, "LONGBLOB") || str_eq(t, "CHAR") || str_eq(
        t,
        "VARCHAR",
    ) || str_eq(t, "TEXT") || str_eq(t, "TINYTEXT") || str_eq(t, "MEDIUMTEXT") || str_eq(
        t,
        "LONGTEXT",
    ) || str_eq(t, "JSON") || str_eq(t, "ENUM") || str_eq(t, "SET") {
        ColumnClass::Supported(ColumnKind::Bytes)
    } else if str_eq(t, "BIT") {
        ColumnClass::Bit
    } else {
        ColumnClass::Unknown
    }
}

/// The kind a supported type name maps to (immaterial for unsupported
/// names).
pub open spec fn spec_kind_of(t: Seq<char>) -> ColumnKind {
    match spec_column_class(t) {
        ColumnClass::Supported(k) => k,
        _ => ColumnKind::Bytes,
    }
}

/// The message attached to a failed column conversion.
pub open spec fn spec_col_error_msg(t: Seq<char>) -> Seq<char> {
    if spec_column_class(t) == ColumnClass::Bit {
        "BIT type is not supported, if you need it, please open an issue explaining how it should be handled"@
    } else {
        "unsupported column type: "@ + t
    }
}

/// Classifies a declared column type and, for an unsupported one, builds
/// the failure message for that row's conversion.
pub fn column_kind(declared_type: &str) -> (r: Result<ColumnKind, String>)
    ensures
        match r {
            Ok(k) => spec_column_class(declared_type@) == ColumnClass::Supported(k),
            Err(m) => !(spec_column_class(declared_type@) is Supported) && m@
                == spec_col_error_msg(declared_type@),
        },
{
    match column_class(declared_type) {
        ColumnClass::Supported(k) => Ok(k),
        ColumnClass::Bit => Err(
            "BIT type is not supported, if you need it, please open an issue explaining how it should be handled".to_owned(),
        ),
        ColumnClass::Unknown => {
            let mut m = "unsupported column type: ".to_owned();
            m.append(declared_type);
            Err(m)
        },
    }
}

/// A decoded cell agrees with the kind its declared type maps to. A true
/// NULL may arrive for any declared type.
pub open spec fn cell_matches(kind: ColumnKind, cell: RawCellView) -> bool {
    match kind {
        ColumnKind::Null => cell is Null,
        ColumnKind::Bool => cell is Null || cell is Bool,
        ColumnKind::I8 => cell is Null || cell is I8,
        ColumnKind::I16 => cell is Null || cell is I16,
        ColumnKind::I32 => cell is Null || cell is I32,
        ColumnKind::I64 => cell is Null || cell is I64,
        ColumnKind::U8 => cell is Null || cell is U8,
        ColumnKind::U16 => cell is Null || cell is U16,
        ColumnKind::U32 => cell is Null || cell is U32,
        ColumnKind::U64 => cell is Null || cell is U64,
        ColumnKind::F32 => cell is Null || cell is F32Bits,
        ColumnKind::F64 => cell is Null || cell is F64Bits,
        ColumnKind::Canonical => cell is Null || cell is Canonical,
        ColumnKind::Bytes => cell is Null || cell is Bytes,
    }
}

/// The fixed conversion of one decoded cell: a true NULL becomes `Nil`
/// regardless of the declared type; every other scalar keeps its payload,
/// with canonical strings and byte payloads both carried as byte strings.
pub open spec fn spec_encode(kind: ColumnKind, cell: RawCellView) -> ValueView {
    if kind == ColumnKind::Null {
        ValueView::Nil
    } else {
        match cell {
            RawCellView::Null => ValueView::Nil,
            RawCellView::Bool(b) => ValueView::Bool(b),
            RawCellView::I8(x) => ValueView::I8(x),
            RawCellView::I16(x) => ValueView::I16(x),
            RawCellView::I32(x) => ValueView::I32(x),
            RawCellView::I64(x) => ValueView::I64(x),
            RawCellView::U8(x) => ValueView::U8(x),
            RawCellView::U16(x) => ValueView::U16(x),
            RawCellView::U32(x) => ValueView::U32(x),
            RawCellView::U64(x) => ValueView::U64(x),
            RawCellView::F32Bits(x) => ValueView::F32Bits(x),
            RawCellView::F64Bits(x) => ValueView::F64Bits(x),
            RawCellView::Canonical(s) => ValueView::String(s),
            RawCellView::Bytes(b) => ValueView::String(b),
        }
    }
}

/// Converts one decoded cell, exact against [`spec_encode`].
pub fn encode_cell(kind: ColumnKind, cell: &RawCell) -> (v: Value)
    ensures
        v@ == spec_encode(kind, cell@),
{
    if kind == ColumnKind::Null {
        return Value::Nil;
    }
    match cell {
        RawCell::Null => Value::Nil,
        RawCell::Bool(b) => Value::Bool(*b),
        RawCell::I8(x) => Value::I8(*x),
        RawCell::I16(x) => Value::I16(*x),
        RawCell::I32(x) => Value::I32(*x),
        RawCell::I64(x) => Value::I64(*x),
        RawCell::U8(x) => Value::U8(*x),
        RawCell::U16(x) => Value::U16(*x),
        RawCell::U32(x) => Value::U32(*x),
        RawCell::U64(x) => Value::U64(*x),
        RawCell::F32Bits(x) => Value::F32Bits(*x),
        RawCell::F64Bits(x) => Value::F64Bits(*x),
        RawCell::Canonical(s) => Value::String(clone_bytes(s)),
        RawCell::Bytes(b) => Value::String(clone_bytes(b)),
    }
}

/// The inverse reading of a tagged value back into the decoded cell a
/// column of the given kind would have produced.
pub open spec fn spec_decode(kind: ColumnKind, v: ValueView) -> Option<RawCellView> {
    match v {
        ValueView::Nil => Some(RawCellView::Null),
        ValueView::Bool(b) => if kind == ColumnKind::Bool {
            Some(RawCellView::Bool(b))
        } else {
            None
        },
        ValueView::I8(x) => if kind == ColumnKind::I8 {
            Some(RawCellView::I8(x))
        } else {
            None
        },
        ValueView::I16(x) => if kind == ColumnKind::I16 {
            Some(RawCellView::I16(x))
        } else {
            None
        },
        ValueView::I32(x) => if kind == ColumnKind::I32 {
            Some(RawCellView::I32(x))
        } else {
            None
        },
        ValueView::I64(x) => if kind == ColumnKind::I64 {
            Some(RawCellView::I64(x))
        } else {
            None
        },
        ValueView::U8(x) => if kind == ColumnKind::U8 {
            Some(RawCellView::U8(x))
        } else {
            None
        },
        ValueView::U16(x) => if kind == ColumnKind::U16 {
            Some(RawCellView::U16(x))
        } else {
            None
        },
        ValueView::U32(x) => if kind == ColumnKind::U32 {
            Some(RawCellView::U32(x))
        } else {
            None
        },
        ValueView::U64(x) => if kind == ColumnKind::U64 {
            Some(RawCellView::U64(x))
        } else {
            None
        },
        ValueView::F32Bits(x) => if kind == ColumnKind::F32 {
            Some(RawCellView::F32Bits(x))
        } else {
            None
        },
        ValueView::F64Bits(x) => if kind == ColumnKind::F64 {
            Some(RawCellView::F64Bits(x))
        } else {
            None
        },
        ValueView::String(s) => if kind == ColumnKind::Canonical {
            Some(RawCellView::Canonical(s))
        } else if kind == ColumnKind::Bytes {
            Some(RawCellView::Bytes(s))
        } else {
            None
        },
    }
}

/// Reads a tagged value back, exact against [`spec_decode`].
pub fn decode_cell(kind: ColumnKind, v: &Value) -> (r: Option<RawCell>)
    ensures
        match r {
            Some(c) => spec_decode(kind, v@) == Some(c@),
            None => spec_decode(kind, v@) is None,
        },
{
    match v {
        Value::Nil => Some(RawCell::Null),
        Value::Bool(b) => if kind == ColumnKind::Bool {
            Some(RawCell::Bool(*b))
        } else {
            None
        },
        Value::I8(x) => if kind == ColumnKind::I8 {
            Some(RawCell::I8(*x))
        } else {
            None
        },
        Value::I16(x) => if kind == ColumnKind::I16 {
            Some(RawCell::I16(*x))
        } else {
            None
        },
        Value::I32(x) => if kind == ColumnKind::I32 {
            Some(RawCell::I32(*x))
        } else {
            None
        },
        Value::I64(x) => if kind == ColumnKind::I64 {
            Some(RawCell::I64(*x))
        } else {
            None
        },
        Value::U8(x) => if kind == ColumnKind::U8 {
            Some(RawCell::U8(*x))
        } else {
            None
        },
        Value::U16(x) => if kind == ColumnKind::U16 {
            Some(RawCell::U16(*x))
        } else {
            None
        },
        Value::U32(x) => if kind == ColumnKind::U32 {
            Some(RawCell::U32(*x))
        } else {
            None
        },
        Value::U64(x) => if kind == ColumnKind::U64 {
            Some(RawCell::U64(*x))
        } else {
            None
        },
        Value::F32Bits(x) => if kind == ColumnKind::F32 {
            Some(RawCell::F32Bits(*x))
        } else {
            None
        },
        Value::F64Bits(x) => if kind == ColumnKind::F64 {
            Some(RawCell::F64Bits(*x))
        } else {
            None
        },
        Value::String(s) => if kind == ColumnKind::Canonical {
            Some(RawCell::Canonical(clone_bytes(s)))
        } else if kind == ColumnKind::Bytes {
            Some(RawCell::Bytes(clone_bytes(s)))
        } else {
            None
        },
    }
}

/// Converting a cell and reading it back returns the very cell: in
/// particular, a value carried as a canonical string keeps that canonical
/// string unchanged.
pub proof fn lemma_cell_round_trip(kind: ColumnKind, cell: RawCellView)
    requires
        cell_matches(kind, cell),
    ensures
        spec_decode(kind, spec_encode(kind, cell)) == Some(cell),
{
}

/// A value rendered to canonical string form — a decimal, date, time,
/// datetime or timestamp — keeps exactly that canonical string across a
/// conversion and the reading back.
pub proof fn lemma_canonical_round_trip(s: Seq<u8>)
    ensures
        spec_encode(ColumnKind::Canonical, RawCellView::Canonical(s)) == ValueView::String(s),
        spec_decode(ColumnKind::Canonical, ValueView::String(s)) == Some(RawCellView::Canonical(s)),
{
}

/// An exact copy of a byte payload.
pub fn clone_bytes(v: &Vec<u8>) -> (r: Vec<u8>)
    ensures
        r@ == v@,
{
    let mut out: Vec<u8> = Vec::new();
    let mut i: usize = 0;
    while i < v.len()
        invariant
            i <= v@.len(),
            out@ == v@.subrange(0, i as int),
        decreases v@.len() - i,
    {
        out.push(v[i]);
        proof {
            assert(out@ =~= v@.subrange(0, i + 1));
        }
        i += 1;
    }
    proof {
        assert(out@ =~= v@);
    }
    out
}

/// A raw column's cell agrees with its declared type.
pub open spec fn spec_column_wf(c: RawColumnView) -> bool {
    match spec_column_class(c.declared_type) {
        ColumnClass::Supported(k) => cell_matches(k, c.cell),
        _ => true,
    }
}

/// Every cell of the row agrees with its declared type.
pub open spec fn spec_row_wf(row: Seq<RawColumn>) -> bool {
    forall|i: int| 0 <= i < row.len() ==> spec_column_wf((#[trigger] row[i])@)
}

/// A column fails conversion: its declared type is unsupported and its
/// cell actually holds a value. A true NULL converts to `Nil` whatever the
/// declared type, so it never fails a row.
pub open spec fn spec_column_fails(c: RawColumnView) -> bool {
    !(c.cell is Null) && !(spec_column_class(c.declared_type) is Supported)
}

/// Some column of the row fails conversion.
pub open spec fn spec_row_has_error(row: Seq<RawColumn>) -> bool {
    exists|i: int| 0 <= i < row.len() && spec_column_fails((#[trigger] row[i])@)
}

/// The message of the first failing column of the row.
pub open spec fn spec_row_error_msg(row: Seq<RawColumn>) -> Seq<char>
    decreases row.len(),
{
    if row.len() == 0 {
        Seq::empty()
    } else if spec_column_fails(row[0]@) {
        spec_col_error_msg(row[0]@.declared_type)
    } else {
        spec_row_error_msg(row.subrange(1, row.len() as int))
    }
}

/// The view of one converted row.
pub open spec fn row_view(vals: Seq<ColumnValue>) -> Seq<ColumnValueView> {
    vals.map_values(|c: ColumnValue| c@)
}

/// The view of a converted result set.
pub open spec fn rows_view(rows: Seq<Vec<ColumnValue>>) -> Seq<Seq<ColumnValueView>> {
    rows.map_values(|r: Vec<ColumnValue>| row_view(r@))
}

/// The conversion of a whole row, column by column in server order.
pub open spec fn spec_row_values(row: Seq<RawColumn>) -> Seq<ColumnValueView> {
    Seq::new(
        row.len(),
        |i: int|
            ColumnValueView {
                column_name: row[i]@.name,
                value: spec_encode(spec_kind_of(row[i]@.declared_type), row[i]@.cell),
            },
    )
}

/// What converting one raw row yields: the converted columns, or the first
/// failing column's message.
pub open spec fn spec_convert_row(row: Seq<RawColumn>) -> Result<Seq<ColumnValueView>, Seq<char>> {
    if spec_row_has_error(row) {
        Err(spec_row_error_msg(row))
    } else {
        Ok(spec_row_values(row))
    }
}

proof fn lemma_row_error_msg_at(row: Seq<RawColumn>, i: int)
    requires
        0 <= i < row.len(),
        forall|j: int| 0 <= j < i ==> !spec_column_fails((#[trigger] row[j])@),
        spec_column_fails(row[i]@),
    ensures
        spec_row_error_msg(row) == spec_col_error_msg(row[i]@.declared_type),
    decreases i,
{
    if i == 0 {
    } else {
        let tail = row.subrange(1, row.len() as int);
        assert(forall|j: int| 0 <= j < i - 1 ==> !spec_column_fails((#[trigger] tail[j])@)) by {
            assert(forall|j: int| 0 <= j < i - 1 ==> tail[j] == row[j + 1]);
        }
        assert(tail[i - 1] == row[i]);
        lemma_row_error_msg_at(tail, i - 1);
    }
}

/// Converts one raw row into an ordered column-name/value list, preserving
/// the server's column order. A true NULL cell converts to `Nil` whatever
/// its declared type; the first non-null cell of an unsupported declared
/// type fails the whole row with that column's message, so no partial row
/// is ever produced.
pub fn convert_row(row: &Vec<RawColumn>) -> (r: Result<Vec<ColumnValue>, String>)
    requires
        spec_row_wf(row@),
    ensures
        match r {
            Ok(vals) => spec_convert_row(row@) == Ok::<Seq<ColumnValueView>, Seq<char>>(
                row_view(vals@),
            ),
            Err(m) => spec_row_has_error(row@) && m@ == spec_row_error_msg(row@),
        },
{
    let mut vals: Vec<ColumnValue> = Vec::new();
    let mut i: usize = 0;
    while i < row.len()
        invariant
            spec_row_wf(row@),
            i <= row@.len(),
            vals@.len() == i,
            forall|j: int| 0 <= j < i ==> !spec_column_fails((#[trigger] row@[j])@),
            forall|j: int| 0 <= j < i ==> (#[trigger] vals@[j])@ == spec_row_values(row@)[j],
        decreases row@.len() - i,
    {
        let col = &row[i];
        let cell_is_null = match &col.cell {
            RawCell::Null => true,
            _ => false,
        };
        if cell_is_null {
            vals.push(ColumnValue { column_name: col.name.clone(), value: Value::Nil });
        } else {
            match column_kind(col.declared_type.as_str()) {
                Err(m) => {
                    proof {
                        lemma_row_error_msg_at(row@, i as int);
                    }
                    return Err(m);
                },
                Ok(kind) => {
                    let value = encode_cell(kind, &col.cell);
                    vals.push(ColumnValue { column_name: col.name.clone(), value });
                },
            }
        }
        i += 1;
    }
    proof {
        assert(row_view(vals@) =~= spec_row_values(row@));
    }
    Ok(vals)
}

/// Some row of the set has a failing column.
pub open spec fn spec_rows_have_error(rows: Seq<Vec<RawColumn>>) -> bool {
    exists|i: int| 0 <= i < rows.len() && spec_row_has_error((#[trigger] rows[i])@)
}

/// The message of the first failing row of the set.
pub open spec fn spec_rows_error_msg(rows: Seq<Vec<RawColumn>>) -> Seq<char>
    decreases rows.len(),
{
    if rows.len() == 0 {
        Seq::empty()
    } else if spec_row_has_error(rows[0]@) {
        spec_row_error_msg(rows[0]@)
    } else {
        spec_rows_error_msg(rows.subrange(1, rows.len() as int))
    }
}

/// Every cell of every row agrees with its declared type.
pub open spec fn spec_rows_wf(rows: Seq<Vec<RawColumn>>) -> bool {
    forall|i: int| 0 <= i < rows.len() ==> spec_row_wf((#[trigger] rows[i])@)
}

/// The conversion of a whole result set, row by row in server order.
pub open spec fn spec_rows_values(rows: Seq<Vec<RawColumn>>) -> Seq<Seq<ColumnValueView>> {
    Seq::new(rows.len(), |i: int| spec_row_values(rows[i]@))
}

/// What converting a result set yields: every row converted, or the first
/// failing row's message.
pub open spec fn spec_convert_rows(rows: Seq<Vec<RawColumn>>) -> Result<
    Seq<Seq<ColumnValueView>>,
    Seq<char>,
> {
    if spec_rows_have_error(rows) {
        Err(spec_rows_error_msg(rows))
    } else {
        Ok(spec_rows_values(rows))
    }
}

proof fn lemma_rows_error_msg_at(rows: Seq<Vec<RawColumn>>, i: int)
    requires
        0 <= i < rows.len(),
        forall|j: int| 0 <= j < i ==> !spec_row_has_error((#[trigger] rows[j])@),
        spec_row_has_error(rows[i]@),
    ensures
        spec_rows_error_msg(rows) == spec_row_error_msg(rows[i]@),
    decreases i,
{
    if i == 0 {
    } else {
        let tail = rows.subrange(1, rows.len() as int);
        assert(forall|j: int| 0 <= j < i - 1 ==> !spec_row_has_error((#[trigger] tail[j])@)) by {
            assert(forall|j: int| 0 <= j < i - 1 ==> tail[j] == rows[j + 1]);
        }
        assert(tail[i - 1] == rows[i]);
        lemma_rows_error_msg_at(tail, i - 1);
    }
}

/// Converts a whole result set in server order; the first failing row
/// fails the conversion with its message, and on success every row is
/// converted, so the caller sees either a full success or an error.
pub fn convert_rows(rows: &Vec<Vec<RawColumn>>) -> (r: Result<Vec<Vec<ColumnValue>>, String>)
    requires
        spec_rows_wf(rows@),
    ensures
        match r {
            Ok(out) => spec_convert_rows(rows@) == Ok::<Seq<Seq<ColumnValueView>>, Seq<char>>(
                rows_view(out@),
            ),
            Err(m) => spec_rows_have_error(rows@) && m@ == spec_rows_error_msg(rows@),
        },
{
    let mut out: Vec<Vec<ColumnValue>> = Vec::new();
    let mut i: usize = 0;
    while i < rows.len()
        invariant
            spec_rows_wf(rows@),
            i <= rows@.len(),
            out@.len() == i,
            forall|j: int| 0 <= j < i ==> !spec_row_has_error((#[trigger] rows@[j])@),
            forall|j: int|
                0 <= j < i ==> row_view((#[trigger] out@[j])@) == spec_row_values(rows@[j]@),
        decreases rows@.len() - i,
    {
        match convert_row(&rows[i]) {
            Err(m) => {
                proof {
                    lemma_rows_error_msg_at(rows@, i as int);
                }
                return Err(m);
            },
            Ok(vals) => {
                out.push(vals);
            },
        }
        i += 1;
    }
    proof {
        assert(rows_view(out@) =~= spec_rows_values(rows@));
    }
    Ok(out)
}

/// The typed result of one executed command.
#[derive(Debug, PartialEq, Eq)]
pub enum QueryResult {
    /// Executed with metadata discarded.
    Run,
    /// Executed, with the affected-row count and the last insert id.
    Execute { rows_affected: u64, last_insert_id: u64 },
    /// All matching rows in server order, or the conversion failure.
    Rows(Result<Vec<Vec<ColumnValue>>, String>),
    /// At most one matching row, or the conversion failure.
    Row(Result<Option<Vec<ColumnValue>>, String>),
}

/// The mathematical value of a [`QueryResult`].
pub enum QueryResultView {
    Run,
    Execute { rows_affected: u64, last_insert_id: u64 },
    Rows(Result<Seq<Seq<ColumnValueView>>, Seq<char>>),
    Row(Result<Option<Seq<ColumnValueView>>, Seq<char>>),
}

impl View for QueryResult {
    type V = QueryResultView;

    open spec fn view(&self) -> QueryResultView {
        match self {
            QueryResult::Run => QueryResultView::Run,
            QueryResult::Execute { rows_affected, last_insert_id } => QueryResultView::Execute {
                rows_affected: *rows_affected,
                last_insert_id: *last_insert_id,
            },
            QueryResult::Rows(res) => QueryResultView::Rows(
                match res {
                    Ok(rows) => Ok(rows_view(rows@)),
                    Err(m) => Err(m@),
                },
            ),
            QueryResult::Row(res) => QueryResultView::Row(
                match res {
                    Ok(Some(vals)) => Ok(Some(row_view(vals@))),
                    Ok(None) => Ok(None),
                    Err(m) => Err(m@),
                },
            ),
        }
    }
}

} // verus!
