//! The `WHERE`, `RETURNING` and join clauses.
use vstd::prelude::*;
use crate::builder::SqlBuilder;
use crate::text::{comma_join, lemma_texts_take_succ, push_comma_joined, texts};

verus! {

/// `WHERE ` followed by the concatenated condition fragments.
pub open spec fn where_sql(conditions: Seq<Seq<char>>) -> Seq<char> {
    "WHERE "@ + conditions.flatten()
}

/// Holds of every field name but `id`.
pub open spec fn other_than(id: Seq<char>) -> spec_fn(Seq<char>) -> bool {
    |f: Seq<char>| f != id
}

/// The fields that a `RETURNING` clause lists after the id column.
pub open spec fn fields_without(fields: Seq<Seq<char>>, id: Seq<char>) -> Seq<Seq<char>> {
    fields.filter(other_than(id))
}

/// `RETURNING id` followed by `,` and the other fields, comma-separated.
pub open spec fn returning_sql(fields: Seq<Seq<char>>, id: Seq<char>) -> Seq<char> {
    let rest = fields_without(fields, id);
    if rest.len() == 0 {
        "RETURNING "@ + id
    } else {
        "RETURNING "@ + id + seq![','] + comma_join(rest)
    }
}

/// The conditions of a `WHERE` clause, each a complete boolean expression.
///
/// Fragments are rendered one after the other with nothing put between them.
pub struct WhereClause {
    conditions: Vec<String>,
}

impl View for WhereClause {
    type V = Seq<Seq<char>>;

    closed spec fn view(&self) -> Seq<Seq<char>> {
        texts(self.conditions@)
    }
}

impl WhereClause {
    /// Replaces all conditions.
    pub fn set_conditions(&mut self, conditions: Vec<String>) -> (r: &mut Self)
        ensures
            r@ == texts(conditions@),
            *final(self) == *final(r),
    {
        self.conditions = conditions;
        self
    }

    /// A clause with a single empty condition.
    pub fn new() -> (r: Self)
        ensures
            r@ == seq![Seq::<char>::empty()],
    {
        let r = WhereClause { conditions: vec![String::new()] };
        assert(r@ =~= seq![Seq::<char>::empty()]);
        r
    }
}

impl SqlBuilder for WhereClause {
    open spec fn sql_of(state: Seq<Seq<char>>) -> Seq<char> {
        where_sql(state)
    }

    fn build_sql(self) -> (r: String) {
        let mut out = String::from_str("WHERE ");
        let ghost start = out@;
        let mut i: usize = 0;
        while i < self.conditions.len()
            invariant
                i <= self.conditions.len(),
                out@ == start + texts(self.conditions@.take(i as int)).flatten(),
            decreases self.conditions.len() - i,
        {
            proof {
                lemma_texts_take_succ(self.conditions@, i as int);
                texts(self.conditions@.take(i as int)).lemma_flatten_push(self.conditions@[i as int]@);
            }
            out.append(self.conditions[i].as_str());
            assert(out@ =~= start + texts(self.conditions@.take(i + 1)).flatten());
            i += 1;
        }
        assert(self.conditions@.take(self.conditions.len() as int) =~= self.conditions@);
        out
    }
}

/// The state of a `RETURNING` clause: the listed fields and the id column.
pub struct ReturningSpec {
    pub fields: Seq<Seq<char>>,
    pub id: Seq<char>,
}

/// A `RETURNING` clause: the id column first, then the other fields.
pub struct ReturningClause {
    id_table: String,
    fields: Vec<String>,
}

impl View for ReturningClause {
    type V = ReturningSpec;

    closed spec fn view(&self) -> ReturningSpec {
        ReturningSpec { fields: texts(self.fields@), id: self.id_table@ }
    }
}

impl ReturningClause {
    /// A clause over `fields` whose id column is `id_table`.
    pub fn new(fields: &Vec<String>, id_table: &str) -> (r: Self)
        requires
            id_table@.len() > 0,
        ensures
            r@ == (ReturningSpec { fields: texts(fields@), id: id_table@ }),
    {
        let copied = fields.clone();
        assert(copied@ =~= fields@);
        ReturningClause { id_table: id_table.to_owned(), fields: copied }
    }
}

impl SqlBuilder for ReturningClause {
    open spec fn sql_of(state: ReturningSpec) -> Seq<char> {
        returning_sql(state.fields, state.id)
    }

    fn build_sql(self) -> (r: String) {
        let ghost all = texts(self.fields@);
        let ghost id = self.id_table@;
        let mut rest: Vec<String> = Vec::new();
        let mut i: usize = 0;
        while i < self.fields.len()
            invariant
                i <= self.fields.len(),
                all == texts(self.fields@),
                id == self.id_table@,
                texts(rest@) == fields_without(all.take(i as int), id),
            decreases self.fields.len() - i,
        {
            proof {
                lemma_texts_take_succ(self.fields@, i as int);
                all.take(i as int).lemma_filter_push(all[i as int], other_than(id));
                assert(all.take(i + 1) == all.take(i as int).push(all[i as int]));
            }
            if !(self.fields[i] == self.id_table) {
                rest.push(self.fields[i].clone());
                assert(texts(rest@) =~= fields_without(all.take(i + 1), id));
            } else {
                assert(texts(rest@) =~= fields_without(all.take(i + 1), id));
            }
            i += 1;
        }
        assert(all.take(self.fields.len() as int) =~= all);
        let mut out = String::from_str("RETURNING ");
        out.append(self.id_table.as_str());
        if rest.len() > 0 {
            proof {
                reveal_strlit(",");
            }
            out.append(",");
            push_comma_joined(&mut out, &rest);
        }
        assert(out@ =~= returning_sql(all, id));
        out
    }
}

/// A join clause; for now it renders its keyword alone.
pub struct JoinsClause {}

impl View for JoinsClause {
    type V = ();

    closed spec fn view(&self) -> () {
        ()
    }
}

impl JoinsClause {
    /// An inner join.
    pub fn new() -> (r: Self) {
        JoinsClause {  }
    }
}

impl SqlBuilder for JoinsClause {
    open spec fn sql_of(state: ()) -> Seq<char> {
        "INNER JOIN"@
    }

    fn build_sql(self) -> (r: String) {
        String::from_str("INNER JOIN")
    }
}

} // verus!
