use orm_sql::{
    placeholder, DeleteStatement, Dialect, InsertStatement, JoinsClause, ReturningClause,
    SelectStatement, SqlBuilder, UpdateStatement, WhereClause,
};

fn strings(items: &[&str]) -> Vec<String> {
    items.iter().map(|s| s.to_string()).collect()
}

fn where_of(conditions: &[&str]) -> WhereClause {
    let mut w = WhereClause::new();
    w.set_conditions(strings(conditions));
    w
}

#[test]
fn numbered_placeholders_write_the_position() {
    assert_eq!("$1", placeholder(Dialect::Numbered, 1));
    assert_eq!("$9", placeholder(Dialect::Numbered, 9));
    assert_eq!("$10", placeholder(Dialect::Numbered, 10));
    assert_eq!("$307", placeholder(Dialect::Numbered, 307));
}

#[test]
fn positional_placeholders_ignore_the_position() {
    assert_eq!("?", placeholder(Dialect::Positional, 1));
    assert_eq!("?", placeholder(Dialect::Positional, 42));
}

#[test]
fn new_where_clause_has_no_predicate() {
    assert_eq!("WHERE ", WhereClause::new().build_sql());
}

#[test]
fn where_clause_concatenates_fragments() {
    assert_eq!(
        "WHERE a = $1 AND b = $2",
        where_of(&["a = $1", " AND b = $2"]).build_sql()
    );
}

#[test]
fn where_clause_with_no_conditions_has_no_predicate() {
    assert_eq!("WHERE ", where_of(&[]).build_sql());
}

#[test]
fn set_conditions_replaces_earlier_ones() {
    let mut w = where_of(&["a = 1"]);
    w.set_conditions(strings(&["b = 2"]));
    assert_eq!("WHERE b = 2", w.build_sql());
}

#[test]
fn returning_leads_with_id_and_excludes_it() {
    let r = ReturningClause::new(&strings(&["title", "id", "description"]), "id");
    assert_eq!("RETURNING id,title,description", r.build_sql());
}

#[test]
fn returning_prepends_an_absent_id() {
    let r = ReturningClause::new(&strings(&["title", "description"]), "id");
    assert_eq!("RETURNING id,title,description", r.build_sql());
}

#[test]
fn returning_with_only_the_id_has_no_dangling_comma() {
    assert_eq!("RETURNING id", ReturningClause::new(&strings(&["id"]), "id").build_sql());
    assert_eq!("RETURNING id", ReturningClause::new(&strings(&[]), "id").build_sql());
}

#[test]
fn returning_drops_every_repetition_of_the_id() {
    let r = ReturningClause::new(&strings(&["id", "a", "id", "a"]), "id");
    assert_eq!("RETURNING id,a,a", r.build_sql());
}

#[test]
fn joins_clause_renders_its_keyword() {
    assert_eq!("INNER JOIN", JoinsClause::new().build_sql());
}

#[test]
fn select_scenario() {
    let s = SelectStatement::new(&strings(&["title", "others"]), "entity");
    assert_eq!("SELECT title,others FROM entity ", s.build_sql());
}

#[test]
fn select_single_field_has_no_comma() {
    let s = SelectStatement::new(&strings(&["title"]), "entity");
    assert_eq!("SELECT title FROM entity ", s.build_sql());
}

#[test]
fn select_with_where() {
    let mut s = SelectStatement::new(&strings(&["a", "b", "c"]), "t");
    s.set_where(where_of(&["a = ?"]));
    assert_eq!("SELECT a,b,c FROM t WHERE a = ?", s.build_sql());
}

#[test]
fn select_keeps_duplicate_fields() {
    let s = SelectStatement::new(&strings(&["a", "a"]), "t");
    assert_eq!("SELECT a,a FROM t ", s.build_sql());
}

#[test]
fn insert_scenario() {
    let fields = strings(&["description"]);
    let mut s = InsertStatement::new("entity", &fields, fields.clone(), Dialect::Numbered);
    s.set_returning_clause(ReturningClause::new(&fields, "id"));
    assert_eq!(
        "INSERT INTO entity (description) VALUES ($1) RETURNING id,description",
        s.build_sql()
    );
}

#[test]
fn insert_numbers_every_field() {
    let fields = strings(&["a", "b", "c", "d", "e", "f", "g", "h", "i", "j", "k"]);
    let s = InsertStatement::new("t", &fields, Vec::new(), Dialect::Numbered);
    assert_eq!(
        "INSERT INTO t (a,b,c,d,e,f,g,h,i,j,k) VALUES ($1,$2,$3,$4,$5,$6,$7,$8,$9,$10,$11)",
        s.build_sql()
    );
}

#[test]
fn insert_positional_writes_one_mark_per_field() {
    let fields = strings(&["a", "b", "c"]);
    let s = InsertStatement::new("t", &fields, Vec::new(), Dialect::Positional);
    assert_eq!("INSERT INTO t (a,b,c) VALUES (?,?,?)", s.build_sql());
}

#[test]
fn update_scenario() {
    let mut s = UpdateStatement::new("entity", where_of(&["id = $3"]), Dialect::Numbered);
    s.set_fields(strings(&["title", "description"]));
    assert_eq!(
        "UPDATE entity SET title = $1,description = $2 WHERE id = $3",
        s.build_sql()
    );
}

#[test]
fn update_chained_configuration() {
    let fields = strings(&["title", "description"]);
    let mut s = UpdateStatement::new("entity", WhereClause::new(), Dialect::Positional);
    s.set_fields(fields.clone())
        .set_where(strings(&["id = ?"]))
        .set_returning_clause(ReturningClause::new(&fields, "id"));
    assert_eq!(
        "UPDATE entity SET title = ?,description = ? WHERE id = ? RETURNING id,title,description",
        s.build_sql()
    );
}

#[test]
fn update_set_fields_replaces_earlier_ones() {
    let mut s = UpdateStatement::new("t", where_of(&["id = $2"]), Dialect::Numbered);
    s.set_fields(strings(&["a", "b"]));
    s.set_fields(strings(&["c"]));
    assert_eq!("UPDATE t SET c = $1 WHERE id = $2", s.build_sql());
}

#[test]
fn delete_scenario() {
    let mut s = DeleteStatement::new("entity", where_of(&["id = $1"]));
    s.set_returning_clause(ReturningClause::new(&strings(&["title", "description"]), "id"));
    assert_eq!(
        "DELETE FROM entity WHERE id = $1 RETURNING id,title,description",
        s.build_sql()
    );
}

#[test]
fn delete_without_returning() {
    let s = DeleteStatement::new("entity", where_of(&["id = ?"]));
    assert_eq!("DELETE FROM entity WHERE id = ?", s.build_sql());
}

#[test]
fn delete_set_where_clause_replaces_the_clause() {
    let mut s = DeleteStatement::new("entity", WhereClause::new());
    s.set_where_clause(where_of(&["title = ?"]));
    assert_eq!("DELETE FROM entity WHERE title = ?", s.build_sql());
}

#[test]
fn builders_configured_alike_render_alike() {
    let make = || {
        let fields = strings(&["a", "b"]);
        let mut s = InsertStatement::new("t", &fields, Vec::new(), Dialect::Numbered);
        s.set_returning_clause(ReturningClause::new(&fields, "id"));
        s
    };
    assert_eq!(make().build_sql(), make().build_sql());
}
