use orm_sql::{build_repository, Dialect, OrmRepository, Repository, StructData};

fn names(items: &[&str]) -> Vec<String> {
    items.iter().map(|s| s.to_string()).collect()
}

fn entity(struct_name: &str, fields: &[&str]) -> StructData {
    StructData::new(
        names(fields),
        struct_name.to_string(),
        "entity".to_string(),
        "id".to_string(),
    )
}

fn entity_orm(dialect: Dialect) -> Repository {
    build_repository(
        &entity("EntityOrm", &["id", "title", "description", "others", "another_property"]),
        dialect,
    )
}

fn entity_update_dto_orm(dialect: Dialect) -> Repository {
    build_repository(&entity("EntityUpdateDtoOrm", &["title", "description"]), dialect)
}

fn entity_find_dto_orm(dialect: Dialect) -> Repository {
    build_repository(&entity("EntityFindDtoOrm", &["title", "others"]), dialect)
}

fn entity_create_dto_orm(dialect: Dialect) -> Repository {
    build_repository(&entity("EntityCreateDtoOrm", &["description"]), dialect)
}

#[test]
fn find_method_build_select_sql() {
    assert_eq!(
        "SELECT title,others FROM entity ",
        entity_find_dto_orm(Dialect::Positional).find()
    )
}

#[test]
fn find_by_id_method_builds_sql_postgres() {
    assert_eq!(
        "SELECT title,others FROM entity WHERE id = $1",
        entity_find_dto_orm(Dialect::Numbered).find_by_id()
    )
}

#[test]
fn find_by_id_method_builds_sql() {
    assert_eq!(
        "SELECT title,others FROM entity WHERE id = ?",
        entity_find_dto_orm(Dialect::Positional).find_by_id()
    )
}

#[test]
fn find_method_build_select_sql_with_main() {
    assert_eq!(
        "SELECT id,title,description,others,another_property FROM entity ",
        entity_orm(Dialect::Positional).find()
    )
}

#[test]
fn create_method_build_insert_sql() {
    assert_eq!(
        "INSERT INTO entity (description) VALUES ($1) RETURNING id,description",
        entity_create_dto_orm(Dialect::Numbered).create()
    )
}

#[test]
fn create_method_build_insert_mysql_bindings() {
    assert_eq!(
        "INSERT INTO entity (description) VALUES (?) RETURNING id,description",
        entity_create_dto_orm(Dialect::Positional).create()
    )
}

#[test]
fn delete_method_build_delete_sql() {
    assert_eq!(
        "DELETE FROM entity WHERE id = $1 RETURNING id,title,description,others,another_property",
        entity_orm(Dialect::Numbered).delete()
    )
}

#[test]
fn delete_method_build_delete_sql_mysql_bindings() {
    assert_eq!(
        "DELETE FROM entity WHERE id = ? RETURNING id,title,description,others,another_property",
        entity_orm(Dialect::Positional).delete()
    )
}

#[test]
fn update_method_builds_sql() {
    assert_eq!(
        "UPDATE entity SET title = $1,description = $2 WHERE id = $3 RETURNING id,title,description",
        entity_update_dto_orm(Dialect::Numbered).update()
    )
}

#[test]
fn update_method_builds_sql_mysql_bindings() {
    assert_eq!(
        "UPDATE entity SET title = ?,description = ? WHERE id = ? RETURNING id,title,description",
        entity_update_dto_orm(Dialect::Positional).update()
    )
}

#[test]
fn update_method_builds_sql_with_main() {
    assert_eq!(
        "UPDATE entity SET id = $1,title = $2,description = $3,others = $4,another_property = $5 WHERE id = $6 RETURNING id,title,description,others,another_property",
        entity_orm(Dialect::Numbered).update()
    )
}

#[test]
fn test_update_query_with_mysql_binding() {
    assert_eq!(
        "UPDATE entity SET id = ?,title = ?,description = ?,others = ?,another_property = ? WHERE id = ? RETURNING id,title,description,others,another_property",
        entity_orm(Dialect::Positional).update()
    )
}

#[test]
fn repository_names_follow_the_entity() {
    let repo = entity_orm(Dialect::Numbered);
    assert_eq!("EntityOrm", repo.struct_name());
    assert_eq!("find_by_id", repo.find_by_id_method());
}

#[test]
fn update_id_placeholder_follows_the_last_assignment() {
    let fields: Vec<&str> = vec![
        "a", "b", "c", "d", "e", "f", "g", "h", "i", "j", "k",
    ];
    let repo = build_repository(&entity("WideOrm", &fields), Dialect::Numbered);
    assert_eq!(
        "UPDATE entity SET a = $1,b = $2,c = $3,d = $4,e = $5,f = $6,g = $7,h = $8,i = $9,j = $10,k = $11 WHERE id = $12 RETURNING id,a,b,c,d,e,f,g,h,i,j,k",
        repo.update()
    );
}

#[test]
fn repositories_from_equal_facts_are_equal() {
    let a = entity_orm(Dialect::Numbered);
    let b = entity_orm(Dialect::Numbered);
    assert_eq!(a.find(), b.find());
    assert_eq!(a.find_by_id(), b.find_by_id());
    assert_eq!(a.create(), b.create());
    assert_eq!(a.update(), b.update());
    assert_eq!(a.delete(), b.delete());
}

#[test]
fn find_by_id_uses_the_id_column_name() {
    let data = StructData::new(
        names(&["name"]),
        "UserOrm".to_string(),
        "users".to_string(),
        "user_id".to_string(),
    );
    let repo = build_repository(&data, Dialect::Numbered);
    assert_eq!("SELECT name FROM users WHERE user_id = $1", repo.find_by_id());
    assert_eq!("find_by_user_id", repo.find_by_id_method());
    assert_eq!(
        "INSERT INTO users (name) VALUES ($1) RETURNING user_id,name",
        repo.create()
    );
}
