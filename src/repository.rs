//! The statements generated for an entity: its structural facts (table, id
//! column, fields) in, the rendered `find`, `find_by_id`, `create`, `update`
//! and `delete` statements out.
use vstd::prelude::*;
use crate::builder::SqlBuilder;
use crate::clauses::{ReturningClause, ReturningSpec, WhereClause};
use crate::dialect::{placeholder_text, push_placeholder, Dialect};
use crate::statements::{
    assignments, delete_sql, insert_sql, select_sql, update_sql, DeleteSpec, DeleteStatement,
    InsertSpec, InsertStatement, SelectSpec, SelectStatement, UpdateSpec, UpdateStatement,
};
use crate::text::{comma_join, texts};

verus! {

/// The structural facts of an entity.
pub struct StructDataSpec {
    pub fields: Seq<Seq<char>>,
    pub struct_name: Seq<char>,
    pub table_name: Seq<char>,
    pub id_table: Seq<char>,
}

/// Facts from which statements can be generated: a table name, an id column
/// and at least one field.
pub open spec fn valid_facts(d: StructDataSpec) -> bool {
    &&& d.table_name.len() > 0
    &&& d.id_table.len() > 0
    &&& d.fields.len() > 0
    &&& d.fields.len() < usize::MAX
}

/// The structural facts of an entity: its ordered field names, the name of the
/// generated repository type, its table and its id column.
pub struct StructData {
    fields: Vec<String>,
    struct_name: String,
    table_name: String,
    id_table: String,
}

impl View for StructData {
    type V = StructDataSpec;

    closed spec fn view(&self) -> StructDataSpec {
        StructDataSpec {
            fields: texts(self.fields@),
            struct_name: self.struct_name@,
            table_name: self.table_name@,
            id_table: self.id_table@,
        }
    }
}

impl StructData {
    pub fn new(fields: Vec<String>, struct_name: String, table_name: String, id_table: String) -> (r: Self)
        requires
            table_name@.len() > 0,
            id_table@.len() > 0,
            fields.len() > 0,
            fields.len() < usize::MAX,
        ensures
            r@ == (StructDataSpec {
                fields: texts(fields@),
                struct_name: struct_name@,
                table_name: table_name@,
                id_table: id_table@,
            }),
            valid_facts(r@),
    {
        StructData { fields, struct_name, table_name, id_table }
    }
}

/// `<id> = <placeholder>`: the id column bound to parameter `index`.
pub open spec fn id_condition(id: Seq<char>, dialect: Dialect, index: nat) -> Seq<char> {
    id + " = "@ + placeholder_text(dialect, index)
}

/// The rendered statements of an entity and the names they are emitted under.
pub struct RepositorySpec {
    pub struct_name: Seq<char>,
    pub find_by_id_method: Seq<char>,
    pub find: Seq<char>,
    pub find_by_id: Seq<char>,
    pub create: Seq<char>,
    pub update: Seq<char>,
    pub delete: Seq<char>,
}

/// The statements generated for the entity `d` in `dialect`.
///
/// Every mutation returns the id column and the fields; `update` assigns every
/// field from parameters `1..=n` and binds the id to parameter `n + 1`; the
/// other statements bind the id to parameter 1.
pub open spec fn repository_spec(d: StructDataSpec, dialect: Dialect) -> RepositorySpec {
    let returning = Some(ReturningSpec { fields: d.fields, id: d.id_table });
    let by_id = seq![id_condition(d.id_table, dialect, 1)];
    RepositorySpec {
        struct_name: d.struct_name,
        find_by_id_method: "find_by_"@ + d.id_table,
        find: select_sql(SelectSpec { fields: d.fields, table: d.table_name, where_clause: None }),
        find_by_id: select_sql(
            SelectSpec { fields: d.fields, table: d.table_name, where_clause: Some(by_id) },
        ),
        create: insert_sql(
            InsertSpec { table: d.table_name, fields: d.fields, dialect, returning },
        ),
        update: update_sql(
            UpdateSpec {
                table: d.table_name,
                set_list: comma_join(assignments(d.fields, dialect)),
                dialect,
                conditions: seq![id_condition(d.id_table, dialect, d.fields.len() + 1)],
                returning,
            },
        ),
        delete: delete_sql(DeleteSpec { table: d.table_name, conditions: by_id, returning }),
    }
}

/// The statements that a repository type answers with.
pub trait OrmRepository {
    spec fn find_text(&self) -> Seq<char>;

    spec fn create_text(&self) -> Seq<char>;

    spec fn update_text(&self) -> Seq<char>;

    spec fn delete_text(&self) -> Seq<char>;

    /// `SELECT <fields> FROM <table> `
    fn find(&self) -> (r: &str)
        ensures
            r@ == self.find_text(),
    ;

    /// `INSERT INTO <table> (<fields>) VALUES (<placeholders>) RETURNING <id>,<fields>`
    fn create(&self) -> (r: &str)
        ensures
            r@ == self.create_text(),
    ;

    /// `UPDATE <table> SET <field> = <placeholder>,... WHERE <id> = <placeholder> RETURNING <id>,<fields>`
    fn update(&self) -> (r: &str)
        ensures
            r@ == self.update_text(),
    ;

    /// `DELETE FROM <table> WHERE <id> = <placeholder> RETURNING <id>,<fields>`
    fn delete(&self) -> (r: &str)
        ensures
            r@ == self.delete_text(),
    ;
}

/// The statements generated for one entity.
pub struct Repository {
    struct_name: String,
    find_by_id_method: String,
    find_sql: String,
    find_by_id_sql: String,
    create_sql: String,
    update_sql: String,
    delete_sql: String,
}

impl View for Repository {
    type V = RepositorySpec;

    closed spec fn view(&self) -> RepositorySpec {
        RepositorySpec {
            struct_name: self.struct_name@,
            find_by_id_method: self.find_by_id_method@,
            find: self.find_sql@,
            find_by_id: self.find_by_id_sql@,
            create: self.create_sql@,
            update: self.update_sql@,
            delete: self.delete_sql@,
        }
    }
}

impl Repository {
    /// `SELECT <fields> FROM <table> WHERE <id> = <placeholder>`
    pub fn find_by_id(&self) -> (r: &str)
        ensures
            r@ == self@.find_by_id,
    {
        self.find_by_id_sql.as_str()
    }

    /// The name of the generated repository type.
    pub fn struct_name(&self) -> (r: &str)
        ensures
            r@ == self@.struct_name,
    {
        self.struct_name.as_str()
    }

    /// The name of the method that answers with `find_by_id`: `find_by_<id>`.
    pub fn find_by_id_method(&self) -> (r: &str)
        ensures
            r@ == self@.find_by_id_method,
    {
        self.find_by_id_method.as_str()
    }
}

impl OrmRepository for Repository {
    open spec fn find_text(&self) -> Seq<char> {
        self@.find
    }

    open spec fn create_text(&self) -> Seq<char> {
        self@.create
    }

    open spec fn update_text(&self) -> Seq<char> {
        self@.update
    }

    open spec fn delete_text(&self) -> Seq<char> {
        self@.delete
    }

    fn find(&self) -> (r: &str) {
        self.find_sql.as_str()
    }

    fn create(&self) -> (r: &str) {
        self.create_sql.as_str()
    }

    fn update(&self) -> (r: &str) {
        self.update_sql.as_str()
    }

    fn delete(&self) -> (r: &str) {
        self.delete_sql.as_str()
    }
}

/// `<id> = <placeholder>` as a one-condition list.
fn id_conditions(id: &String, dialect: Dialect, index: usize) -> (r: Vec<String>)
    ensures
        texts(r@) == seq![id_condition(id@, dialect, index as nat)],
{
    proof {
        reveal_strlit(" = ");
    }
    let mut condition = id.clone();
    condition.append(" = ");
    push_placeholder(&mut condition, dialect, index);
    assert(condition@ =~= id_condition(id@, dialect, index as nat));
    let r = vec![condition];
    assert(texts(r@) =~= seq![id_condition(id@, dialect, index as nat)]);
    r
}

/// Generates the statements of the entity `data` in `dialect`.
pub fn build_repository(data: &StructData, dialect: Dialect) -> (r: Repository)
    requires
        valid_facts(data@),
    ensures
        r@ == repository_spec(data@, dialect),
{
    let fields = &data.fields;
    let table = data.table_name.as_str();
    let id = data.id_table.as_str();
    let ghost d = data@;

    let mut update_builder = UpdateStatement::new(table, WhereClause::new(), dialect);
    update_builder.set_fields(fields.clone()).set_where(
        id_conditions(&data.id_table, dialect, fields.len() + 1),
    ).set_returning_clause(ReturningClause::new(fields, id));

    let select_builder = SelectStatement::new(fields, table);

    let mut where_clause_delete = WhereClause::new();
    where_clause_delete.set_conditions(id_conditions(&data.id_table, dialect, 1));
    let mut delete_builder = DeleteStatement::new(table, WhereClause::new());
    delete_builder.set_where_clause(where_clause_delete);
    delete_builder.set_returning_clause(ReturningClause::new(fields, id));

    let mut insert_builder = InsertStatement::new(table, fields, fields.clone(), dialect);
    insert_builder.set_returning_clause(ReturningClause::new(fields, id));

    let mut where_find_by_id = WhereClause::new();
    where_find_by_id.set_conditions(id_conditions(&data.id_table, dialect, 1));
    let mut find_by_id_builder = SelectStatement::new(fields, table);
    find_by_id_builder.set_where(where_find_by_id);

    proof {
        reveal_strlit("find_by_");
    }
    let mut find_by_id_method = String::from_str("find_by_");
    find_by_id_method.append(id);

    let r = Repository {
        struct_name: data.struct_name.clone(),
        find_by_id_method,
        find_sql: select_builder.build_sql(),
        find_by_id_sql: find_by_id_builder.build_sql(),
        create_sql: insert_builder.build_sql(),
        update_sql: update_builder.build_sql(),
        delete_sql: delete_builder.build_sql(),
    };
    assert(r@ == repository_spec(d, dialect));
    r
}

} // verus!
