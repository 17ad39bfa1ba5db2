//! The abstract schema model consumed by the renderer, and the errors the
//! renderer can report.
//!
//! All of these values are built by the caller and are read-only to the
//! renderer: rendering never mutates its input.

use vstd::prelude::*;

verus! {

/// The size class of a binary column.
#[derive(Debug, Clone)]
pub enum BlobSize {
    Tiny,
    /// A blob with an optional byte length.
    Blob(Option<u32>),
    Medium,
    Long,
}

/// A logical, dialect-neutral column type. A variant may carry an optional
/// numeric parameter: a length, a precision, or a precision and scale pair.
///
/// Several variants are meaningful only to other dialects; this renderer
/// rejects those with [`RenderError::UnsupportedType`] rather than emit SQL
/// with the wrong semantics.
#[derive(Debug, Clone)]
pub enum ColumnType {
    Char(Option<u32>),
    Varchar(Option<u32>),
    Text,
    TinyInteger(Option<u32>),
    SmallInteger(Option<u32>),
    Integer(Option<u32>),
    BigInteger(Option<u32>),
    TinyUnsigned(Option<u32>),
    SmallUnsigned(Option<u32>),
    Unsigned(Option<u32>),
    BigUnsigned(Option<u32>),
    Float(Option<u32>),
    Double(Option<u32>),
    Decimal(Option<(u32, u32)>),
    DateTime(Option<u32>),
    Timestamp(Option<u32>),
    TimestampWithTimeZone(Option<u32>),
    Time(Option<u32>),
    Date,
    /// Accepted syntactically, but the engine has no interval type: it is
    /// rendered as a literal marker, never as working SQL.
    Interval,
    Binary(BlobSize),
    VarBinary(u32),
    Boolean,
    Money(Option<(u32, u32)>),
    Json,
    JsonBinary,
    Uuid,
    /// An opaque type name, emitted verbatim and unquoted.
    Custom(String),
    /// An enumeration; its member values are the model builder's concern and
    /// are not carried here.
    Enumeration(String),
    Array,
    Cidr,
    Inet,
    MacAddr,
    Year,
    Bit(Option<u32>),
    VarBit(u32),
}

/// A modifier attached to a column definition. The attachment order is kept
/// in the rendered output, except that `PrimaryKey` and `AutoIncrement` are
/// deferred to the end (see the column definition renderer).
#[derive(Debug, Clone)]
pub enum ColumnSpec {
    Null,
    NotNull,
    /// A default value, already rendered as an SQL expression by the caller.
    Default(String),
    AutoIncrement,
    UniqueKey,
    PrimaryKey,
    /// A check constraint body, already rendered as an SQL expression by the
    /// caller.
    Check(String),
    /// A dialect-independent extension, emitted verbatim.
    Extra(String),
}

/// A column definition: a name, an optional type, and an ordered sequence of
/// modifiers.
#[derive(Debug, Clone)]
pub struct ColumnDef {
    pub name: String,
    pub types: Option<ColumnType>,
    pub spec: Vec<ColumnSpec>,
}

/// One action of an ALTER TABLE statement.
#[derive(Debug, Clone)]
pub enum TableAlterOption {
    AddColumn(AddColumnOption),
    /// In-place column retyping; the engine has no syntax for it.
    ModifyColumn(ColumnDef),
    RenameColumn(String, String),
    DropColumn(String),
    /// Carries the constraint's name; the engine cannot add a foreign key to
    /// an existing table.
    AddForeignKey(String),
    /// Carries the constraint's name; the engine cannot drop a foreign key
    /// from an existing table.
    DropForeignKey(String),
}

/// An add-column action: the column to add, and whether the caller asked for
/// an existence guard (which this dialect does not render).
#[derive(Debug, Clone)]
pub struct AddColumnOption {
    pub column: ColumnDef,
    pub if_not_exists: bool,
}

/// An ALTER TABLE statement: an optional target table and an ordered
/// sequence of actions, of which this renderer honors exactly the first.
#[derive(Debug, Clone)]
pub struct TableAlterStatement {
    pub table: Option<String>,
    pub options: Vec<TableAlterOption>,
}

/// A RENAME TABLE statement. Either side may be absent; the renderer then
/// omits that clause rather than failing.
#[derive(Debug, Clone)]
pub struct TableRenameStatement {
    pub from_name: Option<String>,
    pub to_name: Option<String>,
}

/// A drop-behavior modifier. The engine has no drop-option syntax, so these
/// are accepted and rendered as nothing.
#[derive(Debug, Clone, Copy, PartialEq, Eq)]
pub enum TableDropOpt {
    Restrict,
    Cascade,
}

/// Names a logical column type that this dialect cannot represent.
#[derive(Debug, Clone, Copy, PartialEq, Eq)]
pub enum UnsupportedColumnType {
    Array,
    Cidr,
    Inet,
    MacAddr,
    Year,
    Bit,
    VarBit,
}

/// Names an alter-table capability that this dialect cannot express.
#[derive(Debug, Clone, Copy, PartialEq, Eq)]
pub enum UnsupportedCapability {
    ModifyColumn,
    AddForeignKey,
    DropForeignKey,
}

/// A fatal rendering error. None of these is recoverable by the renderer:
/// when one is returned, no SQL text is produced at all, so a caller never
/// sees truncated output.
#[derive(Debug, Clone, Copy, PartialEq, Eq)]
pub enum RenderError {
    /// The named logical type has no representation in this dialect.
    UnsupportedType(UnsupportedColumnType),
    /// The named alter action cannot be expressed by this dialect.
    UnsupportedCapability(UnsupportedCapability),
    /// A structural invariant of the statement is violated (an empty
    /// alter-action sequence).
    MalformedStatement,
}

} // verus!
