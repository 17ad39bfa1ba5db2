//! The laws this library states of its renderer, proved once and for all
//! inputs: the deferred-clause reordering of column definitions, the purity
//! of type lowering, and the rejection of types this dialect cannot
//! represent.

use vstd::prelude::*;

use crate::render::{
    contains_auto_increment, contains_primary_key, is_deferred, nondeferred_specs,
    spec_column_def, spec_column_def_head, spec_column_spec, spec_column_type, spec_specs_text,
    spec_unsupported_kind,
};
use crate::types::{ColumnDef, ColumnSpec, ColumnType, RenderError};

verus! {

/// Every modifier of the non-deferred sequence is non-deferred: no
/// primary-key or auto-increment clause ever stands among the in-position
/// modifiers.
pub proof fn lemma_nondeferred_only_nondeferred(s: Seq<ColumnSpec>)
    ensures
        forall|i: int|
            0 <= i < nondeferred_specs(s).len() ==> !is_deferred(#[trigger] nondeferred_specs(s)[i]),
    decreases s.len(),
{
    if s.len() > 0 {
        lemma_nondeferred_only_nondeferred(s.drop_last());
        let nd = nondeferred_specs(s.drop_last());
        assert forall|i: int|
            0 <= i < nondeferred_specs(s).len() implies !is_deferred(
            #[trigger] nondeferred_specs(s)[i],
        ) by {
            if i < nd.len() {
                assert(nondeferred_specs(s)[i] == nd[i]);
            } else {
                assert(!is_deferred(s.last()));
                assert(nondeferred_specs(s)[i] == s.last());
            }
        }
    }
}

/// The non-deferred sequence is exactly the attachment sequence filtered by
/// "not deferred": the deferred modifiers are the only ones removed, and all
/// other modifiers keep their original relative order.
pub proof fn lemma_nondeferred_is_filter(s: Seq<ColumnSpec>)
    ensures
        nondeferred_specs(s) == s.filter(|x: ColumnSpec| !is_deferred(x)),
    decreases s.len(),
{
    reveal_with_fuel(Seq::<ColumnSpec>::filter, 2);
    if s.len() == 0 {
        assert(nondeferred_specs(s) =~= s.filter(|x: ColumnSpec| !is_deferred(x)));
    } else {
        lemma_nondeferred_is_filter(s.drop_last());
        assert(nondeferred_specs(s) =~= s.filter(|x: ColumnSpec| !is_deferred(x)));
    }
}

/// Deferred-clause law: for every column definition whose modifiers contain
/// both a primary-key and an auto-increment modifier — attached anywhere, in
/// any order — the rendered text is the head, then every non-deferred
/// modifier in attachment order, then the primary-key clause, then the
/// auto-increment clause. Together with
/// [`lemma_nondeferred_only_nondeferred`], the primary-key clause stands
/// strictly after all non-deferred modifiers and the auto-increment clause
/// strictly after it.
pub proof fn lemma_deferred_clauses_last(d: ColumnDef)
    requires
        contains_primary_key(d.spec@),
        contains_auto_increment(d.spec@),
        spec_column_def(d) is Ok,
    ensures
        spec_column_def(d)->Ok_0 == spec_column_def_head(d) + spec_specs_text(d.spec@) + " "@
            + spec_column_spec(ColumnSpec::PrimaryKey) + " "@ + spec_column_spec(
            ColumnSpec::AutoIncrement,
        ),
{
    assert(spec_column_def(d)->Ok_0 =~= spec_column_def_head(d) + spec_specs_text(d.spec@) + " "@
        + spec_column_spec(ColumnSpec::PrimaryKey) + " "@ + spec_column_spec(
        ColumnSpec::AutoIncrement,
    ));
}

/// Reordering law: the rendered column definition depends only on the name,
/// the type, the non-deferred modifiers in their order, and whether a
/// primary-key and an auto-increment modifier are attached at all — never on
/// where in the sequence the deferred modifiers were attached.
pub proof fn lemma_column_def_order_irrelevant(d1: ColumnDef, d2: ColumnDef)
    requires
        d1.name == d2.name,
        d1.types == d2.types,
        nondeferred_specs(d1.spec@) == nondeferred_specs(d2.spec@),
        contains_primary_key(d1.spec@) == contains_primary_key(d2.spec@),
        contains_auto_increment(d1.spec@) == contains_auto_increment(d2.spec@),
    ensures
        spec_column_def(d1) == spec_column_def(d2),
{
}

/// Purity law: lowering a column type is deterministic — the result is a
/// function of the type alone, so equal inputs give equal output, success
/// and failure included.
pub proof fn lemma_column_type_deterministic(t1: ColumnType, t2: ColumnType)
    requires
        t1 == t2,
    ensures
        spec_column_type(t1) == spec_column_type(t2),
{
}

/// Rejection law: every type of the explicitly unsupported set fails with
/// `UnsupportedType` naming that type; none is ever silently substituted by
/// a storage class.
pub proof fn lemma_unsupported_types_rejected(t: ColumnType)
    requires
        t is Array || t is Cidr || t is Inet || t is MacAddr || t is Year || t is Bit
            || t is VarBit,
    ensures
        spec_column_type(t) == Err::<Seq<char>, RenderError>(
            RenderError::UnsupportedType(spec_unsupported_kind(t)),
        ),
{
}

} // verus!
