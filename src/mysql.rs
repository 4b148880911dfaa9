//! A minimal select builder named after a table: `SELECT * FROM <table>`, or
//! given fragments written one after the other.
use vstd::prelude::*;

verus! {

/// `SELECT * FROM <table>`
pub open spec fn simple_select_sql(table: Seq<char>) -> Seq<char> {
    "SELECT * FROM "@ + table
}

/// `SELECT `, the fragments with nothing between them, `FROM <table>`.
pub open spec fn fragments_select_sql(fragments: Seq<Seq<char>>, table: Seq<char>) -> Seq<char> {
    "SELECT "@ + fragments.flatten() + "FROM "@ + table
}

/// The character sequences of a list of string slices.
pub open spec fn str_texts(items: Seq<&str>) -> Seq<Seq<char>> {
    items.map_values(|s: &str| s@)
}

/// A select builder for one table; it starts with an empty table name.
pub struct MysqlBuilder {
    table_name: String,
}

impl View for MysqlBuilder {
    type V = Seq<char>;

    closed spec fn view(&self) -> Seq<char> {
        self.table_name@
    }
}

impl Default for MysqlBuilder {
    fn default() -> (r: Self)
        ensures
            r@ == Seq::<char>::empty(),
    {
        MysqlBuilder { table_name: String::new() }
    }
}

impl MysqlBuilder {
    /// Sets the table that statements select from.
    pub fn set_table_name(&mut self, entity_name: String) -> (r: &mut Self)
        ensures
            r@ == entity_name@,
            *final(self) == *final(r),
    {
        self.table_name = entity_name;
        self
    }

    /// `SELECT ` and the fragments, written one after the other, then
    /// `FROM <table>`; callers put the separators and spaces in the fragments.
    pub fn generate_select_statement_with_fields(&self, fields: Vec<&str>) -> (r: String)
        ensures
            r@ == fragments_select_sql(str_texts(fields@), self@),
    {
        let mut select_statement = String::from_str("SELECT ");
        let ghost start = select_statement@;
        let mut i: usize = 0;
        while i < fields.len()
            invariant
                i <= fields.len(),
                select_statement@ == start + str_texts(fields@.take(i as int)).flatten(),
            decreases fields.len() - i,
        {
            proof {
                assert(str_texts(fields@.take(i + 1)) =~= str_texts(fields@.take(i as int)).push(
                    fields@[i as int]@,
                ));
                str_texts(fields@.take(i as int)).lemma_flatten_push(fields@[i as int]@);
            }
            select_statement.append(fields[i]);
            assert(select_statement@ =~= start + str_texts(fields@.take(i + 1)).flatten());
            i += 1;
        }
        assert(fields@.take(fields.len() as int) =~= fields@);
        select_statement.append("FROM ");
        select_statement.append(self.table_name.as_str());
        assert(select_statement@ =~= fragments_select_sql(str_texts(fields@), self@));
        select_statement
    }

    /// `SELECT * FROM <table>`
    pub fn generate_simple_select_statement(&self) -> (r: String)
        ensures
            r@ == simple_select_sql(self@),
    {
        let mut r = String::from_str("SELECT * FROM ");
        r.append(self.table_name.as_str());
        r
    }
}

} // verus!
