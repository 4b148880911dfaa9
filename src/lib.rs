//! A small SQL statement builder: `SELECT`, `INSERT`, `UPDATE` and `DELETE`
//! statements with optional `WHERE` and `RETURNING` clauses, rendered in one of
//! two placeholder dialects, and the statement set generated for an entity.
pub mod text;
pub mod dialect;
pub mod builder;
pub mod clauses;
pub mod statements;
pub mod repository;
pub mod attributes;
pub mod mysql;
pub mod laws;

pub use attributes::{extract_string_atribute, struct_data_from_attributes, ShapeError};
pub use builder::SqlBuilder;
pub use clauses::{JoinsClause, ReturningClause, WhereClause};
pub use dialect::{placeholder, Dialect};
pub use mysql::MysqlBuilder;
pub use repository::{build_repository, OrmRepository, Repository, StructData};
pub use statements::{DeleteStatement, InsertStatement, SelectStatement, UpdateStatement};
