//! The dialect renderer: spec functions that pin down the exact SQL text of
//! every schema node, and the executable builder that produces it.
//!
//! Each entry point is a pure, stateless transformation. A node the engine
//! cannot express yields a [`RenderError`] and no text at all, so a caller
//! never receives truncated SQL.

use vstd::prelude::*;

use crate::text::{quote_iden, spec_dec, spec_quote_iden, u32_to_dec};
use crate::types::{
    BlobSize, ColumnDef, ColumnSpec, ColumnType, RenderError, TableAlterOption,
    TableAlterStatement, TableDropOpt, TableRenameStatement, UnsupportedCapability,
    UnsupportedColumnType,
};

verus! {

/// A keyword with an optional parenthesized numeric parameter.
pub open spec fn spec_opt_num(kw: Seq<char>, n: Option<u32>) -> Seq<char> {
    match n {
        Some(v) => kw + "("@ + spec_dec(v as nat) + ")"@,
        None => kw,
    }
}

/// A keyword with a parenthesized precision and scale pair.
pub open spec fn spec_num_pair(kw: Seq<char>, p: u32, s: u32) -> Seq<char> {
    kw + "("@ + spec_dec(p as nat) + ", "@ + spec_dec(s as nat) + ")"@
}

/// Which unsupported-type error a rejected column type carries.
pub open spec fn spec_unsupported_kind(t: ColumnType) -> UnsupportedColumnType {
    match t {
        ColumnType::Array => UnsupportedColumnType::Array,
        ColumnType::Cidr => UnsupportedColumnType::Cidr,
        ColumnType::Inet => UnsupportedColumnType::Inet,
        ColumnType::MacAddr => UnsupportedColumnType::MacAddr,
        ColumnType::Year => UnsupportedColumnType::Year,
        ColumnType::Bit(_) => UnsupportedColumnType::Bit,
        _ => UnsupportedColumnType::VarBit,
    }
}

/// The dialect's lowering of a logical column type: the storage-class
/// keyword with its optional parameter, or the error for a type this
/// dialect cannot represent.
pub open spec fn spec_column_type(t: ColumnType) -> Result<Seq<char>, RenderError> {
    match t {
        ColumnType::Char(l) => Ok(spec_opt_num("text"@, l)),
        ColumnType::Varchar(l) => Ok(spec_opt_num("text"@, l)),
        ColumnType::Text => Ok("text"@),
        ColumnType::TinyInteger(l) => Ok(spec_opt_num("integer"@, l)),
        ColumnType::SmallInteger(l) => Ok(spec_opt_num("integer"@, l)),
        ColumnType::Integer(l) => Ok(spec_opt_num("integer"@, l)),
        ColumnType::BigInteger(l) => Ok(spec_opt_num("integer"@, l)),
        ColumnType::TinyUnsigned(l) => Ok(spec_opt_num("integer"@, l)),
        ColumnType::SmallUnsigned(l) => Ok(spec_opt_num("integer"@, l)),
        ColumnType::Unsigned(l) => Ok(spec_opt_num("integer"@, l)),
        ColumnType::BigUnsigned(l) => Ok(spec_opt_num("integer"@, l)),
        ColumnType::Float(p) => Ok(spec_opt_num("real"@, p)),
        ColumnType::Double(p) => Ok(spec_opt_num("real"@, p)),
        ColumnType::Decimal(p) => match p {
            Some((pr, sc)) => Ok(spec_num_pair("real"@, pr, sc)),
            None => Ok("real"@),
        },
        ColumnType::DateTime(p) => Ok(spec_opt_num("text"@, p)),
        ColumnType::Timestamp(p) => Ok(spec_opt_num("text"@, p)),
        ColumnType::TimestampWithTimeZone(p) => Ok(spec_opt_num("text"@, p)),
        ColumnType::Time(p) => Ok(spec_opt_num("text"@, p)),
        ColumnType::Date => Ok("text"@),
        ColumnType::Interval => Ok("unsupported"@),
        ColumnType::Binary(bs) => match bs {
            BlobSize::Blob(Some(l)) => Ok(spec_opt_num("binary"@, Some(l))),
            _ => Ok("blob"@),
        },
        ColumnType::VarBinary(l) => Ok(spec_opt_num("binary"@, Some(l))),
        ColumnType::Boolean => Ok("boolean"@),
        ColumnType::Money(p) => match p {
            Some((pr, sc)) => Ok(spec_num_pair("integer"@, pr, sc)),
            None => Ok("integer"@),
        },
        ColumnType::Json => Ok("text"@),
        ColumnType::JsonBinary => Ok("text"@),
        ColumnType::Uuid => Ok("text(36)"@),
        ColumnType::Custom(name) => Ok(name@),
        ColumnType::Enumeration(_) => Ok("text"@),
        ColumnType::Array => Err(RenderError::UnsupportedType(spec_unsupported_kind(t))),
        ColumnType::Cidr => Err(RenderError::UnsupportedType(spec_unsupported_kind(t))),
        ColumnType::Inet => Err(RenderError::UnsupportedType(spec_unsupported_kind(t))),
        ColumnType::MacAddr => Err(RenderError::UnsupportedType(spec_unsupported_kind(t))),
        ColumnType::Year => Err(RenderError::UnsupportedType(spec_unsupported_kind(t))),
        ColumnType::Bit(_) => Err(RenderError::UnsupportedType(spec_unsupported_kind(t))),
        ColumnType::VarBit(_) => Err(RenderError::UnsupportedType(spec_unsupported_kind(t))),
    }
}

/// Relates an executable rendering result to its spec-level description:
/// the same success or failure, and on success the same text.
pub open spec fn result_view_is(r: Result<String, RenderError>, m: Result<
    Seq<char>,
    RenderError,
>) -> bool {
    match m {
        Ok(s) => r matches Ok(t) && t@ == s,
        Err(e) => r matches Err(e2) && e2 == e,
    }
}

fn keyword_opt_num(kw: &str, n: &Option<u32>) -> (r: String)
    ensures
        r@ == spec_opt_num(kw@, *n),
{
    match n {
        Some(v) => {
            let mut s = String::from_str(kw);
            s.append("(");
            let d = u32_to_dec(*v);
            s.append(d.as_str());
            s.append(")");
            proof {
                assert(s@ =~= spec_opt_num(kw@, *n));
            }
            s
        },
        None => String::from_str(kw),
    }
}

fn keyword_num_pair(kw: &str, p: u32, sc: u32) -> (r: String)
    ensures
        r@ == spec_num_pair(kw@, p, sc),
{
    let mut s = String::from_str(kw);
    s.append("(");
    let dp = u32_to_dec(p);
    s.append(dp.as_str());
    s.append(", ");
    let ds = u32_to_dec(sc);
    s.append(ds.as_str());
    s.append(")");
    proof {
        assert(s@ =~= spec_num_pair(kw@, p, sc));
    }
    s
}

/// The query builder for this dialect. It holds no state: every method is a
/// pure function of its arguments.
pub struct SqliteQueryBuilder;

impl SqliteQueryBuilder {
    /// Lowers a logical column type to the dialect's type keyword, exactly
    /// as [`spec_column_type`] describes: the storage-class keyword with its
    /// optional parameter on success, and `UnsupportedType` naming the
    /// offending type for the variants this dialect cannot represent.
    pub fn prepare_column_type(&self, column_type: &ColumnType) -> (r: Result<String, RenderError>)
        ensures
            result_view_is(r, spec_column_type(*column_type)),
    {
        match column_type {
            ColumnType::Char(l) => Ok(keyword_opt_num("text", l)),
            ColumnType::Varchar(l) => Ok(keyword_opt_num("text", l)),
            ColumnType::Text => Ok(String::from_str("text")),
            ColumnType::TinyInteger(l) => Ok(keyword_opt_num("integer", l)),
            ColumnType::SmallInteger(l) => Ok(keyword_opt_num("integer", l)),
            ColumnType::Integer(l) => Ok(keyword_opt_num("integer", l)),
            ColumnType::BigInteger(l) => Ok(keyword_opt_num("integer", l)),
            ColumnType::TinyUnsigned(l) => Ok(keyword_opt_num("integer", l)),
            ColumnType::SmallUnsigned(l) => Ok(keyword_opt_num("integer", l)),
            ColumnType::Unsigned(l) => Ok(keyword_opt_num("integer", l)),
            ColumnType::BigUnsigned(l) => Ok(keyword_opt_num("integer", l)),
            ColumnType::Float(p) => Ok(keyword_opt_num("real", p)),
            ColumnType::Double(p) => Ok(keyword_opt_num("real", p)),
            ColumnType::Decimal(p) => match p {
                Some((pr, sc)) => Ok(keyword_num_pair("real", *pr, *sc)),
                None => Ok(String::from_str("real")),
            },
            ColumnType::DateTime(p) => Ok(keyword_opt_num("text", p)),
            ColumnType::Timestamp(p) => Ok(keyword_opt_num("text", p)),
            ColumnType::TimestampWithTimeZone(p) => Ok(keyword_opt_num("text", p)),
            ColumnType::Time(p) => Ok(keyword_opt_num("text", p)),
            ColumnType::Date => Ok(String::from_str("text")),
            ColumnType::Interval => Ok(String::from_str("unsupported")),
            ColumnType::Binary(bs) => match bs {
                BlobSize::Blob(Some(l)) => Ok(keyword_opt_num("binary", &Some(*l))),
                _ => Ok(String::from_str("blob")),
            },
            ColumnType::VarBinary(l) => Ok(keyword_opt_num("binary", &Some(*l))),
            ColumnType::Boolean => Ok(String::from_str("boolean")),
            ColumnType::Money(p) => match p {
                Some((pr, sc)) => Ok(keyword_num_pair("integer", *pr, *sc)),
                None => Ok(String::from_str("integer")),
            },
            ColumnType::Json => Ok(String::from_str("text")),
            ColumnType::JsonBinary => Ok(String::from_str("text")),
            ColumnType::Uuid => Ok(String::from_str("text(36)")),
            ColumnType::Custom(name) => Ok(name.clone()),
            ColumnType::Enumeration(_) => Ok(String::from_str("text")),
            ColumnType::Array => Err(
                RenderError::UnsupportedType(UnsupportedColumnType::Array),
            ),
            ColumnType::Cidr => Err(RenderError::UnsupportedType(UnsupportedColumnType::Cidr)),
            ColumnType::Inet => Err(RenderError::UnsupportedType(UnsupportedColumnType::Inet)),
            ColumnType::MacAddr => Err(
                RenderError::UnsupportedType(UnsupportedColumnType::MacAddr),
            ),
            ColumnType::Year => Err(RenderError::UnsupportedType(UnsupportedColumnType::Year)),
            ColumnType::Bit(_) => Err(RenderError::UnsupportedType(UnsupportedColumnType::Bit)),
            ColumnType::VarBit(_) => Err(
                RenderError::UnsupportedType(UnsupportedColumnType::VarBit),
            ),
        }
    }
}

/// The rendered text of one column modifier.
pub open spec fn spec_column_spec(s: ColumnSpec) -> Seq<char> {
    match s {
        ColumnSpec::Null => "NULL"@,
        ColumnSpec::NotNull => "NOT NULL"@,
        ColumnSpec::Default(v) => "DEFAULT "@ + v@,
        ColumnSpec::AutoIncrement => "AUTOINCREMENT"@,
        ColumnSpec::UniqueKey => "UNIQUE"@,
        ColumnSpec::PrimaryKey => "PRIMARY KEY"@,
        ColumnSpec::Check(e) => "CHECK ("@ + e@ + ")"@,
        ColumnSpec::Extra(x) => x@,
    }
}

/// Whether a modifier is deferred: written at the end of the column
/// definition, out of its attachment position.
pub open spec fn is_deferred(s: ColumnSpec) -> bool {
    s is PrimaryKey || s is AutoIncrement
}

/// The non-deferred modifiers of a column, in their attachment order.
pub open spec fn nondeferred_specs(s: Seq<ColumnSpec>) -> Seq<ColumnSpec>
    decreases s.len(),
{
    if s.len() == 0 {
        Seq::empty()
    } else {
        nondeferred_specs(s.drop_last()) + (if is_deferred(s.last()) {
            Seq::empty()
        } else {
            seq![s.last()]
        })
    }
}

/// The rendered modifiers, each preceded by one space, in sequence order.
pub open spec fn spec_specs_join(q: Seq<ColumnSpec>) -> Seq<char>
    decreases q.len(),
{
    if q.len() == 0 {
        Seq::empty()
    } else {
        spec_specs_join(q.drop_last()) + " "@ + spec_column_spec(q.last())
    }
}

/// The in-position part of a column's modifier text: the non-deferred
/// modifiers in attachment order, the deferred ones left out.
pub open spec fn spec_specs_text(s: Seq<ColumnSpec>) -> Seq<char> {
    spec_specs_join(nondeferred_specs(s))
}

/// Whether a primary-key modifier is attached anywhere in the sequence.
pub open spec fn contains_primary_key(s: Seq<ColumnSpec>) -> bool {
    exists|i: int| 0 <= i < s.len() && s[i] is PrimaryKey
}

/// Whether an auto-increment modifier is attached anywhere in the sequence.
pub open spec fn contains_auto_increment(s: Seq<ColumnSpec>) -> bool {
    exists|i: int| 0 <= i < s.len() && s[i] is AutoIncrement
}

proof fn lemma_nondeferred_snoc(s: Seq<ColumnSpec>, i: int)
    requires
        0 <= i < s.len(),
    ensures
        nondeferred_specs(s.take(i + 1)) == nondeferred_specs(s.take(i)) + (if is_deferred(s[i]) {
            Seq::<ColumnSpec>::empty()
        } else {
            seq![s[i]]
        }),
{
    assert(s.take(i + 1).drop_last() =~= s.take(i));
    assert(s.take(i + 1).last() == s[i]);
}

proof fn lemma_specs_join_snoc(q: Seq<ColumnSpec>, x: ColumnSpec)
    ensures
        spec_specs_join(q + seq![x]) == spec_specs_join(q) + " "@ + spec_column_spec(x),
{
    assert((q + seq![x]).drop_last() =~= q);
    assert((q + seq![x]).last() == x);
}

proof fn lemma_contains_primary_key_snoc(s: Seq<ColumnSpec>, i: int)
    requires
        0 <= i < s.len(),
    ensures
        contains_primary_key(s.take(i + 1)) == (contains_primary_key(s.take(i))
            || s[i] is PrimaryKey),
{
    if s[i] is PrimaryKey {
        assert(s.take(i + 1)[i] is PrimaryKey);
    } else if contains_primary_key(s.take(i))  {
        let j = choose|j: int| 0 <= j < s.take(i).len() && (#[trigger] s.take(i)[j]) is PrimaryKey;
        assert(s.take(i + 1)[j] is PrimaryKey);
    } else if contains_primary_key(s.take(i + 1))  {
        let j = choose|j: int| 0 <= j < s.take(i + 1).len() && (#[trigger] s.take(i + 1)[j]) is PrimaryKey;
        assert(j < i);
        assert(s.take(i)[j] is PrimaryKey);
    }
}

proof fn lemma_contains_auto_increment_snoc(s: Seq<ColumnSpec>, i: int)
    requires
        0 <= i < s.len(),
    ensures
        contains_auto_increment(s.take(i + 1)) == (contains_auto_increment(s.take(i))
            || s[i] is AutoIncrement),
{
    if s[i] is AutoIncrement {
        assert(s.take(i + 1)[i] is AutoIncrement);
    } else if contains_auto_increment(s.take(i))  {
        let j = choose|j: int| 0 <= j < s.take(i).len() && (#[trigger] s.take(i)[j]) is AutoIncrement;
        assert(s.take(i + 1)[j] is AutoIncrement);
    } else if contains_auto_increment(s.take(i + 1))  {
        let j = choose|j: int| 0 <= j < s.take(i + 1).len() && (#[trigger] s.take(i + 1)[j]) is AutoIncrement;
        assert(j < i);
        assert(s.take(i)[j] is AutoIncrement);
    }
}

/// The head of a rendered column definition: the quoted name, then the type
/// keyword when a type is present. Meaningful only where the type lowers
/// successfully.
pub open spec fn spec_column_def_head(d: ColumnDef) -> Seq<char> {
    match d.types {
        Some(t) => spec_quote_iden(d.name@) + " "@ + (match spec_column_type(t) {
            Ok(ts) => ts,
            Err(_) => Seq::empty(),
        }),
        None => spec_quote_iden(d.name@),
    }
}

/// The deferred tail of a rendered column definition: the primary-key
/// clause when one is attached, then the auto-increment clause when one is
/// attached, in that fixed order.
pub open spec fn spec_deferred_tail(s: Seq<ColumnSpec>) -> Seq<char> {
    (if contains_primary_key(s) {
        " "@ + spec_column_spec(ColumnSpec::PrimaryKey)
    } else {
        Seq::<char>::empty()
    }) + (if contains_auto_increment(s) {
        " "@ + spec_column_spec(ColumnSpec::AutoIncrement)
    } else {
        Seq::<char>::empty()
    })
}

/// The rendered column definition: `<quoted-name> [<type>] [<spec> ...]`,
/// with primary-key and auto-increment deferred to the very end; or the
/// error of its column type.
pub open spec fn spec_column_def(d: ColumnDef) -> Result<Seq<char>, RenderError> {
    match d.types {
        Some(t) => match spec_column_type(t) {
            Ok(_) => Ok(spec_column_def_head(d) + spec_specs_text(d.spec@) + spec_deferred_tail(d.spec@)),
            Err(e) => Err(e),
        },
        None => Ok(spec_column_def_head(d) + spec_specs_text(d.spec@) + spec_deferred_tail(d.spec@)),
    }
}

impl SqliteQueryBuilder {
    /// Renders one column modifier, exactly as [`spec_column_spec`]
    /// describes.
    pub fn prepare_column_spec(&self, column_spec: &ColumnSpec) -> (r: String)
        ensures
            r@ == spec_column_spec(*column_spec),
    {
        match column_spec {
            ColumnSpec::Null => String::from_str("NULL"),
            ColumnSpec::NotNull => String::from_str("NOT NULL"),
            ColumnSpec::Default(v) => {
                let mut s = String::from_str("DEFAULT ");
                s.append(v.as_str());
                s
            },
            ColumnSpec::AutoIncrement => String::from_str(self.column_spec_auto_increment_keyword()),
            ColumnSpec::UniqueKey => String::from_str("UNIQUE"),
            ColumnSpec::PrimaryKey => String::from_str("PRIMARY KEY"),
            ColumnSpec::Check(e) => {
                let mut s = String::from_str("CHECK (");
                s.append(e.as_str());
                s.append(")");
                proof {
                    assert(s@ =~= spec_column_spec(*column_spec));
                }
                s
            },
            ColumnSpec::Extra(x) => x.clone(),
        }
    }

    /// The keyword this dialect uses for the auto-increment modifier.
    pub fn column_spec_auto_increment_keyword(&self) -> (r: &'static str)
        ensures
            r@ == spec_column_spec(ColumnSpec::AutoIncrement),
    {
        "AUTOINCREMENT"
    }

    /// Renders a column definition, exactly as [`spec_column_def`]
    /// describes: the quoted name, the optional type keyword, then the
    /// modifiers in attachment order — except that a primary-key modifier is
    /// written once after all non-deferred modifiers, and an auto-increment
    /// modifier once after that, wherever the caller attached them. Fails
    /// with `UnsupportedType` exactly where the column's type does, and
    /// yields no text at all in that case.
    pub fn prepare_column_def(&self, column_def: &ColumnDef) -> (r: Result<String, RenderError>)
        ensures
            result_view_is(r, spec_column_def(*column_def)),
    {
        let mut out = quote_iden(column_def.name.as_str());
        match &column_def.types {
            Some(t) => {
                match self.prepare_column_type(t) {
                    Ok(ts) => {
                        out.append(" ");
                        out.append(ts.as_str());
                    },
                    Err(e) => {
                        return Err(e);
                    },
                }
            },
            None => {},
        }
        proof {
            assert(out@ =~= spec_column_def_head(*column_def));
        }
        let ghost head = out@;
        let ghost all = column_def.spec@;

        let mut is_primary_key = false;
        let mut is_auto_increment = false;
        let n = column_def.spec.len();
        let mut i: usize = 0;
        while i < n
            invariant
                n == all.len(),
                all == column_def.spec@,
                i <= n,
                out@ == head + spec_specs_text(all.take(i as int)),
                is_primary_key == contains_primary_key(all.take(i as int)),
                is_auto_increment == contains_auto_increment(all.take(i as int)),
            decreases n - i,
        {
            let column_spec = &column_def.spec[i];
            proof {
                lemma_nondeferred_snoc(all, i as int);
                lemma_contains_primary_key_snoc(all, i as int);
                lemma_contains_auto_increment_snoc(all, i as int);
            }
            match column_spec {
                ColumnSpec::PrimaryKey => {
                    is_primary_key = true;
                    proof {
                        assert(nondeferred_specs(all.take(i + 1)) =~= nondeferred_specs(
                            all.take(i as int),
                        ));
                    }
                },
                ColumnSpec::AutoIncrement => {
                    is_auto_increment = true;
                    proof {
                        assert(nondeferred_specs(all.take(i + 1)) =~= nondeferred_specs(
                            all.take(i as int),
                        ));
                    }
                },
                _ => {
                    out.append(" ");
                    let rendered = self.prepare_column_spec(column_spec);
                    out.append(rendered.as_str());
                    proof {
                        lemma_specs_join_snoc(nondeferred_specs(all.take(i as int)), all[i as int]);
                        assert(nondeferred_specs(all.take(i + 1)) =~= nondeferred_specs(
                            all.take(i as int),
                        ) + seq![all[i as int]]);
                        assert(out@ =~= head + spec_specs_text(all.take(i + 1)));
                    }
                },
            }
            i = i + 1;
        }
        proof {
            assert(all.take(n as int) =~= all);
        }
        if is_primary_key {
            out.append(" ");
            out.append("PRIMARY KEY");
        }
        if is_auto_increment {
            out.append(" ");
            out.append(self.column_spec_auto_increment_keyword());
        }
        proof {
            assert(out@ =~= head + spec_specs_text(all) + spec_deferred_tail(all));
        }
        Ok(out)
    }
}

/// The rendered text of one alter-table action, or the error naming the
/// capability this dialect lacks.
pub open spec fn spec_alter_option(o: TableAlterOption) -> Result<Seq<char>, RenderError> {
    match o {
        TableAlterOption::AddColumn(a) => match spec_column_def(a.column) {
            Ok(c) => Ok("ADD COLUMN "@ + c),
            Err(e) => Err(e),
        },
        TableAlterOption::ModifyColumn(_) => Err(
            RenderError::UnsupportedCapability(UnsupportedCapability::ModifyColumn),
        ),
        TableAlterOption::RenameColumn(from_name, to_name) => Ok(
            "RENAME COLUMN "@ + spec_quote_iden(from_name@) + " TO "@ + spec_quote_iden(to_name@),
        ),
        TableAlterOption::DropColumn(name) => Ok("DROP COLUMN "@ + spec_quote_iden(name@)),
        TableAlterOption::AddForeignKey(_) => Err(
            RenderError::UnsupportedCapability(UnsupportedCapability::AddForeignKey),
        ),
        TableAlterOption::DropForeignKey(_) => Err(
            RenderError::UnsupportedCapability(UnsupportedCapability::DropForeignKey),
        ),
    }
}

/// The rendered ALTER TABLE statement: `ALTER TABLE [<table> ]<action>`,
/// honoring exactly the first action. An empty action sequence is a
/// malformed statement; a statement whose first action fails yields that
/// error and no text.
pub open spec fn spec_table_alter(s: TableAlterStatement) -> Result<Seq<char>, RenderError> {
    if s.options@.len() == 0 {
        Err(RenderError::MalformedStatement)
    } else {
        match spec_alter_option(s.options@[0]) {
            Ok(opt) => Ok(
                "ALTER TABLE "@ + (match s.table {
                    Some(t) => spec_quote_iden(t@) + " "@,
                    None => Seq::<char>::empty(),
                }) + opt,
            ),
            Err(e) => Err(e),
        }
    }
}

/// The rendered RENAME TABLE statement: `ALTER TABLE <from> RENAME TO <to>`,
/// with an absent side simply omitted.
pub open spec fn spec_table_rename(s: TableRenameStatement) -> Seq<char> {
    "ALTER TABLE "@ + (match s.from_name {
        Some(f) => spec_quote_iden(f@),
        None => Seq::<char>::empty(),
    }) + " RENAME TO "@ + (match s.to_name {
        Some(t) => spec_quote_iden(t@),
        None => Seq::<char>::empty(),
    })
}

/// The rendered text of a drop-behavior modifier: always empty, since the
/// engine has no drop-option syntax and omitting a no-op modifier changes
/// nothing observable.
pub open spec fn spec_table_drop_opt(o: TableDropOpt) -> Seq<char> {
    Seq::empty()
}

impl SqliteQueryBuilder {
    /// Renders a drop-behavior modifier, exactly as [`spec_table_drop_opt`]
    /// describes: this dialect accepts it and writes nothing.
    pub fn prepare_table_drop_opt(&self, drop_opt: &TableDropOpt) -> (r: String)
        ensures
            r@ == spec_table_drop_opt(*drop_opt),
    {
        String::new()
    }

    /// Renders an ALTER TABLE statement, exactly as [`spec_table_alter`]
    /// describes. It fails with `MalformedStatement` if and only if the
    /// action sequence is empty, with `UnsupportedCapability` naming the
    /// action if and only if the first action is a column modification or a
    /// foreign-key change, and with the column's own error if and only if an
    /// added column fails; on any failure no text is produced at all.
    pub fn prepare_table_alter_statement(&self, alter: &TableAlterStatement) -> (r: Result<
        String,
        RenderError,
    >)
        ensures
            result_view_is(r, spec_table_alter(*alter)),
    {
        if alter.options.len() == 0 {
            return Err(RenderError::MalformedStatement);
        }
        let option_text: String = match &alter.options[0] {
            TableAlterOption::AddColumn(add) => {
                match self.prepare_column_def(&add.column) {
                    Ok(c) => {
                        let mut s = String::from_str("ADD COLUMN ");
                        s.append(c.as_str());
                        s
                    },
                    Err(e) => {
                        return Err(e);
                    },
                }
            },
            TableAlterOption::ModifyColumn(_) => {
                return Err(RenderError::UnsupportedCapability(UnsupportedCapability::ModifyColumn));
            },
            TableAlterOption::RenameColumn(from_name, to_name) => {
                let mut s = String::from_str("RENAME COLUMN ");
                let f = quote_iden(from_name.as_str());
                s.append(f.as_str());
                s.append(" TO ");
                let t = quote_iden(to_name.as_str());
                s.append(t.as_str());
                proof {
                    assert(s@ =~= spec_alter_option(alter.options@[0]) ->Ok_0);
                }
                s
            },
            TableAlterOption::DropColumn(name) => {
                let mut s = String::from_str("DROP COLUMN ");
                let q = quote_iden(name.as_str());
                s.append(q.as_str());
                s
            },
            TableAlterOption::AddForeignKey(_) => {
                return Err(
                    RenderError::UnsupportedCapability(UnsupportedCapability::AddForeignKey),
                );
            },
            TableAlterOption::DropForeignKey(_) => {
                return Err(
                    RenderError::UnsupportedCapability(UnsupportedCapability::DropForeignKey),
                );
            },
        };
        let mut out = String::from_str("ALTER TABLE ");
        match &alter.table {
            Some(table) => {
                let q = quote_iden(table.as_str());
                out.append(q.as_str());
                out.append(" ");
            },
            None => {},
        }
        out.append(option_text.as_str());
        proof {
            assert(out@ =~= spec_table_alter(*alter)->Ok_0);
        }
        Ok(out)
    }

    /// Renders a RENAME TABLE statement, exactly as [`spec_table_rename`]
    /// describes: `ALTER TABLE <from> RENAME TO <to>`, omitting either
    /// clause whose field is absent. It never fails.
    pub fn prepare_table_rename_statement(&self, rename: &TableRenameStatement) -> (r: String)
        ensures
            r@ == spec_table_rename(*rename),
    {
        let mut out = String::from_str("ALTER TABLE ");
        match &rename.from_name {
            Some(from_name) => {
                let q = quote_iden(from_name.as_str());
                out.append(q.as_str());
            },
            None => {},
        }
        out.append(" RENAME TO ");
        match &rename.to_name {
            Some(to_name) => {
                let q = quote_iden(to_name.as_str());
                out.append(q.as_str());
            },
            None => {},
        }
        proof {
            assert(out@ =~= spec_table_rename(*rename));
        }
        out
    }
}

} // verus!
