//! The `SELECT`, `INSERT`, `UPDATE` and `DELETE` statement builders.
use vstd::prelude::*;
use crate::builder::SqlBuilder;
use crate::clauses::{returning_sql, where_sql, JoinsClause, ReturningClause, ReturningSpec, WhereClause};
use crate::dialect::{placeholder_text, placeholders, push_placeholder, Dialect};
use crate::text::{comma_join, push_comma_joined, texts};

verus! {

/// ` ` and the rendered `RETURNING` clause, when there is one.
pub open spec fn returning_tail(returning: Option<ReturningSpec>) -> Seq<char> {
    match returning {
        Some(r) => " "@ + returning_sql(r.fields, r.id),
        None => Seq::empty(),
    }
}

/// The `SET` assignments `field = placeholder`, numbered from 1 in list order.
pub open spec fn assignments(fields: Seq<Seq<char>>, dialect: Dialect) -> Seq<Seq<char>> {
    Seq::new(fields.len(), |i: int| fields[i] + " = "@ + placeholder_text(dialect, (i + 1) as nat))
}

/// The state of a `SELECT` statement.
pub struct SelectSpec {
    pub fields: Seq<Seq<char>>,
    pub table: Seq<char>,
    pub where_clause: Option<Seq<Seq<char>>>,
}

/// `SELECT <fields> FROM <table> ` followed by the `WHERE` clause, if any.
pub open spec fn select_sql(s: SelectSpec) -> Seq<char> {
    "SELECT "@ + comma_join(s.fields) + " FROM "@ + s.table + " "@ + match s.where_clause {
        Some(c) => where_sql(c),
        None => Seq::empty(),
    }
}

/// The state of an `INSERT` statement.
pub struct InsertSpec {
    pub table: Seq<char>,
    pub fields: Seq<Seq<char>>,
    pub dialect: Dialect,
    pub returning: Option<ReturningSpec>,
}

/// `INSERT INTO <table> (<fields>) VALUES (<placeholders>)`, then the
/// `RETURNING` clause, if any; one placeholder per field, numbered from 1.
pub open spec fn insert_sql(s: InsertSpec) -> Seq<char> {
    "INSERT INTO "@ + s.table + " ("@ + comma_join(s.fields) + ") VALUES ("@ + comma_join(
        placeholders(s.dialect, s.fields.len()),
    ) + ")"@ + returning_tail(s.returning)
}

/// The state of an `UPDATE` statement; `set_list` is the rendered assignments.
pub struct UpdateSpec {
    pub table: Seq<char>,
    pub set_list: Seq<char>,
    pub dialect: Dialect,
    pub conditions: Seq<Seq<char>>,
    pub returning: Option<ReturningSpec>,
}

/// `UPDATE <table> SET <assignments> <where>`, then the `RETURNING` clause, if any.
pub open spec fn update_sql(s: UpdateSpec) -> Seq<char> {
    "UPDATE "@ + s.table + " SET "@ + s.set_list + " "@ + where_sql(s.conditions) + returning_tail(
        s.returning,
    )
}

/// The state of a `DELETE` statement.
pub struct DeleteSpec {
    pub table: Seq<char>,
    pub conditions: Seq<Seq<char>>,
    pub returning: Option<ReturningSpec>,
}

/// `DELETE FROM <table> <where>`, then the `RETURNING` clause, if any.
pub open spec fn delete_sql(s: DeleteSpec) -> Seq<char> {
    "DELETE FROM "@ + s.table + " "@ + where_sql(s.conditions) + returning_tail(s.returning)
}

/// The state of an optional `RETURNING` clause.
pub open spec fn returning_view(r: Option<ReturningClause>) -> Option<ReturningSpec> {
    match r {
        Some(c) => Some(c@),
        None => None,
    }
}

/// Appends the optional `RETURNING` clause, preceded by a space.
fn push_returning(out: &mut String, returning: Option<ReturningClause>)
    ensures
        final(out)@ == old(out)@ + returning_tail(returning_view(returning)),
{
    match returning {
        Some(clause) => {
            proof {
                reveal_strlit(" ");
            }
            out.append(" ");
            let text = clause.build_sql();
            out.append(text.as_str());
            assert(final(out)@ =~= old(out)@ + returning_tail(returning_view(returning)));
        },
        None => {
            assert(final(out)@ =~= old(out)@ + returning_tail(returning_view(returning)));
        },
    }
}

/// Appends the placeholders of parameters `1..=n`, comma-separated.
fn push_placeholder_list(out: &mut String, dialect: Dialect, n: usize)
    ensures
        final(out)@ == old(out)@ + comma_join(placeholders(dialect, n as nat)),
{
    let ghost start = out@;
    let ghost all = placeholders(dialect, n as nat);
    let mut i: usize = 0;
    while i < n
        invariant
            i <= n,
            all == placeholders(dialect, n as nat),
            out@ == start + comma_join(all.take(i as int)),
        decreases n - i,
    {
        proof {
            reveal_strlit(",");
        }
        if i > 0 {
            out.append(",");
        }
        push_placeholder(out, dialect, i + 1);
        proof {
            let next = all.take(i + 1);
            assert(next.drop_last() =~= all.take(i as int));
            assert(out@ =~= start + comma_join(next));
        }
        i += 1;
    }
    assert(all.take(n as int) =~= all);
}

/// Appends the assignments `field = placeholder`, comma-separated.
fn push_assignments(out: &mut String, fields: &Vec<String>, dialect: Dialect)
    ensures
        final(out)@ == old(out)@ + comma_join(assignments(texts(fields@), dialect)),
{
    let ghost start = out@;
    let ghost all = assignments(texts(fields@), dialect);
    let mut i: usize = 0;
    while i < fields.len()
        invariant
            i <= fields.len(),
            all == assignments(texts(fields@), dialect),
            out@ == start + comma_join(all.take(i as int)),
        decreases fields.len() - i,
    {
        proof {
            reveal_strlit(",");
            reveal_strlit(" = ");
        }
        if i > 0 {
            out.append(",");
        }
        let ghost before = out@;
        out.append(fields[i].as_str());
        out.append(" = ");
        push_placeholder(out, dialect, i + 1);
        proof {
            assert(out@ =~= before + all[i as int]);
            let next = all.take(i + 1);
            assert(next.drop_last() =~= all.take(i as int));
            assert(out@ =~= start + comma_join(next));
        }
        i += 1;
    }
    assert(all.take(fields.len() as int) =~= all);
}

/// A `SELECT` statement over a list of fields of one table.
pub struct SelectStatement {
    select_fields: Vec<String>,
    from_table: String,
    joins: Option<JoinsClause>,
    where_clause: Option<WhereClause>,
}

impl View for SelectStatement {
    type V = SelectSpec;

    closed spec fn view(&self) -> SelectSpec {
        SelectSpec {
            fields: texts(self.select_fields@),
            table: self.from_table@,
            where_clause: match self.where_clause {
                Some(w) => Some(w@),
                None => None,
            },
        }
    }
}

impl SelectStatement {
    /// Attaches a `WHERE` clause, replacing any earlier one.
    pub fn set_where(&mut self, where_clause: WhereClause) -> (r: &mut Self)
        ensures
            r@ == (SelectSpec { where_clause: Some(where_clause@), ..old(self)@ }),
            *final(self) == *final(r),
    {
        self.where_clause = Some(where_clause);
        self
    }

    /// A statement selecting `select_fields`, in order, from `from_table`.
    pub fn new(select_fields: &Vec<String>, from_table: &str) -> (r: Self)
        requires
            select_fields.len() > 0,
            from_table@.len() > 0,
        ensures
            r@ == (SelectSpec { fields: texts(select_fields@), table: from_table@, where_clause: None }),
    {
        let copied = select_fields.clone();
        assert(copied@ =~= select_fields@);
        SelectStatement {
            select_fields: copied,
            from_table: from_table.to_owned(),
            joins: None,
            where_clause: None,
        }
    }
}

impl SqlBuilder for SelectStatement {
    open spec fn sql_of(state: SelectSpec) -> Seq<char> {
        select_sql(state)
    }

    fn build_sql(self) -> (r: String) {
        proof {
            reveal_strlit(" FROM ");
            reveal_strlit(" ");
        }
        let mut out = String::from_str("SELECT ");
        push_comma_joined(&mut out, &self.select_fields);
        out.append(" FROM ");
        out.append(self.from_table.as_str());
        out.append(" ");
        match self.where_clause {
            Some(w) => {
                let text = w.build_sql();
                out.append(text.as_str());
            },
            None => {},
        }
        assert(out@ =~= select_sql(self@));
        out
    }
}

/// An `INSERT` statement of one row; each field gets a placeholder.
pub struct InsertStatement {
    table_name: String,
    insert_fields: Vec<String>,
    values: Vec<String>,
    dialect: Dialect,
    returning_clause: Option<ReturningClause>,
}

impl View for InsertStatement {
    type V = InsertSpec;

    closed spec fn view(&self) -> InsertSpec {
        InsertSpec {
            table: self.table_name@,
            fields: texts(self.insert_fields@),
            dialect: self.dialect,
            returning: returning_view(self.returning_clause),
        }
    }
}

impl InsertStatement {
    /// A statement inserting `insert_fields` into `table_name`.
    ///
    /// The values are bound parameters: `values` is kept, and the rendered
    /// statement holds one placeholder per field in `dialect`.
    pub fn new(table_name: &str, insert_fields: &Vec<String>, values: Vec<String>, dialect: Dialect) -> (r: Self)
        requires
            table_name@.len() > 0,
            insert_fields.len() > 0,
        ensures
            r@ == (InsertSpec {
                table: table_name@,
                fields: texts(insert_fields@),
                dialect,
                returning: None,
            }),
    {
        let copied = insert_fields.clone();
        assert(copied@ =~= insert_fields@);
        InsertStatement {
            table_name: table_name.to_owned(),
            insert_fields: copied,
            values,
            dialect,
            returning_clause: None,
        }
    }

    /// Attaches a `RETURNING` clause, replacing any earlier one.
    pub fn set_returning_clause(&mut self, returning_clause: ReturningClause) -> (r: &mut Self)
        ensures
            r@ == (InsertSpec { returning: Some(returning_clause@), ..old(self)@ }),
            *final(self) == *final(r),
    {
        self.returning_clause = Some(returning_clause);
        self
    }
}

impl SqlBuilder for InsertStatement {
    open spec fn sql_of(state: InsertSpec) -> Seq<char> {
        insert_sql(state)
    }

    fn build_sql(self) -> (r: String) {
        proof {
            reveal_strlit(" (");
            reveal_strlit(") VALUES (");
            reveal_strlit(")");
        }
        let ghost state = self@;
        let mut out = String::from_str("INSERT INTO ");
        out.append(self.table_name.as_str());
        out.append(" (");
        push_comma_joined(&mut out, &self.insert_fields);
        out.append(") VALUES (");
        push_placeholder_list(&mut out, self.dialect, self.insert_fields.len());
        out.append(")");
        push_returning(&mut out, self.returning_clause);
        assert(out@ =~= insert_sql(state));
        out
    }
}

/// An `UPDATE` statement; its `WHERE` clause is required.
pub struct UpdateStatement {
    set_fields: String,
    update_table_name: String,
    dialect: Dialect,
    where_clause: WhereClause,
    returning_clause: Option<ReturningClause>,
}

impl View for UpdateStatement {
    type V = UpdateSpec;

    closed spec fn view(&self) -> UpdateSpec {
        UpdateSpec {
            table: self.update_table_name@,
            set_list: self.set_fields@,
            dialect: self.dialect,
            conditions: self.where_clause@,
            returning: returning_view(self.returning_clause),
        }
    }
}

impl UpdateStatement {
    /// A statement updating `update_table_name` where `where_clause` holds,
    /// with no assignments yet; placeholders are written in `dialect`.
    pub fn new(update_table_name: &str, where_clause: WhereClause, dialect: Dialect) -> (r: Self)
        requires
            update_table_name@.len() > 0,
        ensures
            r@ == (UpdateSpec {
                table: update_table_name@,
                set_list: Seq::empty(),
                dialect,
                conditions: where_clause@,
                returning: None,
            }),
    {
        UpdateStatement {
            set_fields: String::new(),
            update_table_name: update_table_name.to_owned(),
            dialect,
            where_clause,
            returning_clause: None,
        }
    }

    /// Replaces the conditions of the `WHERE` clause.
    pub fn set_where(&mut self, conditions: Vec<String>) -> (r: &mut Self)
        ensures
            r@ == (UpdateSpec { conditions: texts(conditions@), ..old(self)@ }),
            *final(self) == *final(r),
    {
        self.where_clause.set_conditions(conditions);
        self
    }

    /// Attaches a `RETURNING` clause, replacing any earlier one.
    pub fn set_returning_clause(&mut self, returning_clause: ReturningClause) -> (r: &mut Self)
        ensures
            r@ == (UpdateSpec { returning: Some(returning_clause@), ..old(self)@ }),
            *final(self) == *final(r),
    {
        self.returning_clause = Some(returning_clause);
        self
    }

    /// Sets the assignments: `field = placeholder` for each of `fields`, with
    /// placeholders numbered from 1 in list order.
    pub fn set_fields(&mut self, fields: Vec<String>) -> (r: &mut Self)
        ensures
            r@ == (UpdateSpec {
                set_list: comma_join(assignments(texts(fields@), old(self)@.dialect)),
                ..old(self)@
            }),
            *final(self) == *final(r),
    {
        let mut list = String::new();
        push_assignments(&mut list, &fields, self.dialect);
        assert(list@ =~= comma_join(assignments(texts(fields@), self.dialect)));
        self.set_fields = list;
        self
    }
}

impl SqlBuilder for UpdateStatement {
    open spec fn sql_of(state: UpdateSpec) -> Seq<char> {
        update_sql(state)
    }

    fn build_sql(self) -> (r: String) {
        proof {
            reveal_strlit(" SET ");
            reveal_strlit(" ");
        }
        let ghost state = self@;
        let mut out = String::from_str("UPDATE ");
        out.append(self.update_table_name.as_str());
        out.append(" SET ");
        out.append(self.set_fields.as_str());
        out.append(" ");
        let where_text = self.where_clause.build_sql();
        out.append(where_text.as_str());
        push_returning(&mut out, self.returning_clause);
        assert(out@ =~= update_sql(state));
        out
    }
}

/// A `DELETE` statement; its `WHERE` clause is required.
pub struct DeleteStatement {
    table_name: String,
    where_clause: WhereClause,
    returning_clause: Option<ReturningClause>,
}

impl View for DeleteStatement {
    type V = DeleteSpec;

    closed spec fn view(&self) -> DeleteSpec {
        DeleteSpec {
            table: self.table_name@,
            conditions: self.where_clause@,
            returning: returning_view(self.returning_clause),
        }
    }
}

impl DeleteStatement {
    /// A statement deleting from `table_name` where `where_clause` holds.
    pub fn new(table_name: &str, where_clause: WhereClause) -> (r: Self)
        requires
            table_name@.len() > 0,
        ensures
            r@ == (DeleteSpec { table: table_name@, conditions: where_clause@, returning: None }),
    {
        DeleteStatement { table_name: table_name.to_owned(), where_clause, returning_clause: None }
    }

    /// Attaches a `RETURNING` clause, replacing any earlier one.
    pub fn set_returning_clause(&mut self, returning_clause: ReturningClause) -> (r: &mut Self)
        ensures
            r@ == (DeleteSpec { returning: Some(returning_clause@), ..old(self)@ }),
            *final(self) == *final(r),
    {
        self.returning_clause = Some(returning_clause);
        self
    }

    /// Replaces the `WHERE` clause.
    pub fn set_where_clause(&mut self, wheresqlclause: WhereClause) -> (r: &mut Self)
        ensures
            r@ == (DeleteSpec { conditions: wheresqlclause@, ..old(self)@ }),
            *final(self) == *final(r),
    {
        self.where_clause = wheresqlclause;
        self
    }
}

impl SqlBuilder for DeleteStatement {
    open spec fn sql_of(state: DeleteSpec) -> Seq<char> {
        delete_sql(state)
    }

    fn build_sql(self) -> (r: String) {
        proof {
            reveal_strlit(" ");
        }
        let ghost state = self@;
        let mut out = String::from_str("DELETE FROM ");
        out.append(self.table_name.as_str());
        out.append(" ");
        let where_text = self.where_clause.build_sql();
        out.append(where_text.as_str());
        push_returning(&mut out, self.returning_clause);
        assert(out@ =~= delete_sql(state));
        out
    }
}

} // verus!
