//! Properties that hold of every rendered statement.
use vstd::prelude::*;
use crate::builder::SqlBuilder;
use crate::clauses::{fields_without, other_than, returning_sql, where_sql, ReturningSpec};
use crate::dialect::{decimal, placeholder_text, placeholders, Dialect};
use crate::repository::{repository_spec, valid_facts, StructDataSpec};
use crate::statements::{
    assignments, insert_sql, returning_tail, select_sql, InsertSpec, SelectSpec,
};
use crate::text::comma_join;

verus! {

/// Each part preceded by a comma.
pub open spec fn comma_prefixed(parts: Seq<Seq<char>>) -> Seq<Seq<char>> {
    parts.map_values(|f: Seq<char>| seq![','] + f)
}

/// A comma-joined list is its first part followed by each other part after a
/// single comma.
pub proof fn lemma_comma_join_unfolds(parts: Seq<Seq<char>>)
    requires
        parts.len() > 0,
    ensures
        comma_join(parts) == parts[0] + comma_prefixed(parts.drop_first()).flatten(),
    decreases parts.len(),
{
    if parts.len() == 1 {
        assert(comma_prefixed(parts.drop_first()) =~= Seq::<Seq<char>>::empty());
        assert(comma_join(parts) =~= parts[0] + comma_prefixed(parts.drop_first()).flatten());
    } else {
        let init = parts.drop_last();
        lemma_comma_join_unfolds(init);
        let rest = comma_prefixed(init.drop_first());
        assert(comma_prefixed(parts.drop_first()) =~= rest.push(seq![','] + parts.last()));
        rest.lemma_flatten_push(seq![','] + parts.last());
        assert(init[0] == parts[0]);
        assert(comma_join(parts) =~= parts[0] + comma_prefixed(parts.drop_first()).flatten());
    }
}

/// A rendered `SELECT` lists every field in order: the first, then each other
/// after a single comma, with no comma after the last.
pub proof fn lemma_select_lists_fields(
    fields: Seq<Seq<char>>,
    table: Seq<char>,
    where_clause: Option<Seq<Seq<char>>>,
)
    requires
        fields.len() > 0,
    ensures
        select_sql(SelectSpec { fields, table, where_clause }) == "SELECT "@ + fields[0]
            + comma_prefixed(fields.drop_first()).flatten() + " FROM "@ + table + " "@
            + match where_clause {
            Some(c) => where_sql(c),
            None => Seq::empty(),
        },
{
    lemma_comma_join_unfolds(fields);
}

/// A rendered `INSERT` of `n` fields holds `n` placeholders, in field order:
/// `$1` to `$n` in the numbered dialect, `?` each time in the positional one.
pub proof fn lemma_insert_placeholders(s: InsertSpec)
    ensures
        insert_sql(s) == "INSERT INTO "@ + s.table + " ("@ + comma_join(s.fields) + ") VALUES ("@
            + comma_join(placeholders(s.dialect, s.fields.len())) + ")"@ + returning_tail(
            s.returning,
        ),
        placeholders(s.dialect, s.fields.len()).len() == s.fields.len(),
        forall|i: int|
            0 <= i < s.fields.len() ==> #[trigger] placeholders(s.dialect, s.fields.len())[i] == (
            match s.dialect {
                Dialect::Numbered => seq!['$'] + decimal((i + 1) as nat),
                Dialect::Positional => seq!['?'],
            }),
{
}

/// A rendered `RETURNING` clause that lists some field other than the id
/// starts with the id and a comma, and never lists the id again.
pub proof fn lemma_returning_leads_with_id(fields: Seq<Seq<char>>, id: Seq<char>)
    requires
        exists|i: int| 0 <= i < fields.len() && fields[i] != id,
    ensures
        returning_sql(fields, id) == "RETURNING "@ + id + seq![','] + comma_join(
            fields_without(fields, id),
        ),
        forall|i: int|
            0 <= i < fields_without(fields, id).len() ==> #[trigger] fields_without(fields, id)[i]
                != id,
{
    let i = choose|i: int| 0 <= i < fields.len() && fields[i] != id;
    assert(fields.contains(fields[i]));
    fields.lemma_filter_contains_rev(other_than(id), fields[i]);
    assert(fields_without(fields, id).contains(fields[i]));
    assert(fields_without(fields, id).len() > 0);
    assert forall|j: int| 0 <= j < fields_without(fields, id).len() implies #[trigger] fields_without(
        fields,
        id,
    )[j] != id by {
        fields.lemma_filter_pred(other_than(id), j);
    }
}

/// In a generated `UPDATE` of `k` fields in the numbered dialect, the
/// assignments take parameters `$1` to `$k` in field order and the id
/// condition takes `$k+1`.
pub proof fn lemma_update_numbering(d: StructDataSpec)
    requires
        valid_facts(d),
    ensures
        repository_spec(d, Dialect::Numbered).update == "UPDATE "@ + d.table_name + " SET "@
            + comma_join(assignments(d.fields, Dialect::Numbered)) + " "@ + "WHERE "@ + d.id_table
            + " = "@ + seq!['$'] + decimal((d.fields.len() + 1) as nat) + returning_tail(
            Some(ReturningSpec { fields: d.fields, id: d.id_table }),
        ),
        forall|i: int|
            0 <= i < d.fields.len() ==> #[trigger] assignments(d.fields, Dialect::Numbered)[i]
                == d.fields[i] + " = "@ + seq!['$'] + decimal((i + 1) as nat),
{
    let k = d.fields.len();
    let condition = d.id_table + " = "@ + placeholder_text(Dialect::Numbered, (k + 1) as nat);
    seq![condition].lemma_flatten_one_element();
    assert(where_sql(seq![condition]) == "WHERE "@ + condition);
    assert forall|i: int| 0 <= i < d.fields.len() implies #[trigger] assignments(
        d.fields,
        Dialect::Numbered,
    )[i] == d.fields[i] + " = "@ + seq!['$'] + decimal((i + 1) as nat) by {
        assert(assignments(d.fields, Dialect::Numbered)[i] =~= d.fields[i] + " = "@ + seq!['$']
            + decimal((i + 1) as nat));
    }
    assert(repository_spec(d, Dialect::Numbered).update =~= "UPDATE "@ + d.table_name + " SET "@
        + comma_join(assignments(d.fields, Dialect::Numbered)) + " "@ + "WHERE "@ + d.id_table
        + " = "@ + seq!['$'] + decimal((k + 1) as nat) + returning_tail(
        Some(ReturningSpec { fields: d.fields, id: d.id_table }),
    ));
}

/// Rendering is a function of the configured state alone: two builders
/// configured alike render the same text.
pub proof fn lemma_render_deterministic<B: SqlBuilder>(a: B, b: B)
    requires
        a@ == b@,
    ensures
        B::sql_of(a@) == B::sql_of(b@),
{
}

/// Two repositories generated from the same facts in the same dialect hold
/// the same statements.
pub proof fn lemma_repository_deterministic(d: StructDataSpec, e: StructDataSpec, dialect: Dialect)
    requires
        d == e,
    ensures
        repository_spec(d, dialect) == repository_spec(e, dialect),
{
}

} // verus!
