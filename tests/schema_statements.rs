use sea_query::{
    Alias, ColumnDef, Index, MysqlQueryBuilder, PostgresQueryBuilder, SqliteQueryBuilder, Table,
};
use session_migration::create_sessions_table::{
    create_sessions_session_id_idx_stmnt, create_sessions_table_statement,
    delete_all_sessions_statement, drop_sessions_session_id_idx_stmnt,
    drop_sessions_table_statement, get_text_type, quote_ident, Dialect, Migration, SchemaStep,
};

fn collapse(s: &str) -> String {
    s.split_whitespace().collect::<Vec<&str>>().join(" ")
}

#[test]
fn postgres() {
    assert_eq!(
        collapse(&create_sessions_table_statement(Dialect::Postgres, "text")),
        collapse(
            r#"
                CREATE TABLE IF NOT EXISTS "sessions" (
                "id" bigserial NOT NULL PRIMARY KEY,
                "session_id" varchar(36) NOT NULL,
                "access_token" text NOT NULL,
                "created_at" bigint NOT NULL,
                "updated_at" bigint NOT NULL
            )"#
        )
    );
    assert_eq!(
        &create_sessions_session_id_idx_stmnt(Dialect::Postgres),
        r#"CREATE UNIQUE INDEX IF NOT EXISTS "sessions_session_id_idx" ON "sessions" ("session_id")"#
    );
}

#[test]
fn mysql() {
    assert_eq!(
        collapse(&create_sessions_table_statement(Dialect::Mysql, "text")),
        collapse(
            r#"
                CREATE TABLE IF NOT EXISTS `sessions` (
                `id` bigint NOT NULL AUTO_INCREMENT PRIMARY KEY,
                `session_id` varchar(36) NOT NULL,
                `access_token` text NOT NULL,
                `created_at` bigint NOT NULL,
                `updated_at` bigint NOT NULL
            )"#
        )
    );
    assert_eq!(
        &create_sessions_session_id_idx_stmnt(Dialect::Mysql),
        r#"CREATE UNIQUE INDEX `sessions_session_id_idx` ON `sessions` (`session_id`)"#
    );
}

#[test]
fn sqlite() {
    assert_eq!(
        collapse(&create_sessions_table_statement(Dialect::Sqlite, "text")),
        collapse(
            r#"
                CREATE TABLE IF NOT EXISTS "sessions" (
                "id" integer NOT NULL PRIMARY KEY AUTOINCREMENT,
                "session_id" varchar(36) NOT NULL,
                "access_token" text NOT NULL,
                "created_at" bigint NOT NULL,
                "updated_at" bigint NOT NULL
            )"#
        )
    );
    assert_eq!(
        &create_sessions_session_id_idx_stmnt(Dialect::Sqlite),
        r#"CREATE UNIQUE INDEX IF NOT EXISTS "sessions_session_id_idx" ON "sessions" ("session_id")"#
    );
}

fn sea_query_table(text_type: &str) -> sea_query::TableCreateStatement {
    Table::create()
        .table(Alias::new("sessions"))
        .if_not_exists()
        .col(
            ColumnDef::new(Alias::new("id"))
                .big_integer()
                .not_null()
                .auto_increment()
                .primary_key(),
        )
        .col(ColumnDef::new(Alias::new("session_id")).string_len(36).not_null())
        .col(
            ColumnDef::new(Alias::new("access_token"))
                .custom(Alias::new(text_type))
                .not_null(),
        )
        .col(ColumnDef::new(Alias::new("created_at")).big_integer().not_null())
        .col(ColumnDef::new(Alias::new("updated_at")).big_integer().not_null())
        .to_owned()
}

fn sea_query_index() -> sea_query::IndexCreateStatement {
    Index::create()
        .if_not_exists()
        .name("sessions_session_id_idx")
        .table(Alias::new("sessions"))
        .unique()
        .col(Alias::new("session_id"))
        .to_owned()
}

#[test]
fn statements_agree_with_sea_query() {
    for text_type in ["text", "longtext"] {
        assert_eq!(
            collapse(&create_sessions_table_statement(Dialect::Postgres, text_type)),
            collapse(&sea_query_table(text_type).to_string(PostgresQueryBuilder))
        );
        assert_eq!(
            collapse(&create_sessions_table_statement(Dialect::Mysql, text_type)),
            collapse(&sea_query_table(text_type).to_string(MysqlQueryBuilder))
        );
        assert_eq!(
            collapse(&create_sessions_table_statement(Dialect::Sqlite, text_type)),
            collapse(&sea_query_table(text_type).to_string(SqliteQueryBuilder))
        );
    }
    assert_eq!(
        create_sessions_session_id_idx_stmnt(Dialect::Postgres),
        sea_query_index().to_string(PostgresQueryBuilder)
    );
    assert_eq!(
        create_sessions_session_id_idx_stmnt(Dialect::Mysql),
        sea_query_index().to_string(MysqlQueryBuilder)
    );
    assert_eq!(
        create_sessions_session_id_idx_stmnt(Dialect::Sqlite),
        sea_query_index().to_string(SqliteQueryBuilder)
    );
}

#[test]
fn drop_statements_agree_with_sea_query() {
    let idx = Index::drop()
        .name("sessions_session_id_idx")
        .if_exists()
        .to_owned();
    assert_eq!(
        drop_sessions_session_id_idx_stmnt(Dialect::Postgres),
        idx.to_string(PostgresQueryBuilder)
    );
    assert_eq!(
        drop_sessions_session_id_idx_stmnt(Dialect::Sqlite),
        idx.to_string(SqliteQueryBuilder)
    );
    let idx_mysql = Index::drop()
        .name("sessions_session_id_idx")
        .table(Alias::new("sessions"))
        .to_owned();
    assert_eq!(
        drop_sessions_session_id_idx_stmnt(Dialect::Mysql),
        idx_mysql.to_string(MysqlQueryBuilder)
    );
    let table = Table::drop()
        .table(Alias::new("sessions"))
        .if_exists()
        .to_owned();
    assert_eq!(
        drop_sessions_table_statement(Dialect::Postgres),
        table.to_string(PostgresQueryBuilder)
    );
    assert_eq!(
        drop_sessions_table_statement(Dialect::Mysql),
        table.to_string(MysqlQueryBuilder)
    );
    assert_eq!(
        drop_sessions_table_statement(Dialect::Sqlite),
        table.to_string(SqliteQueryBuilder)
    );
}

#[test]
fn drop_statements_exact() {
    assert_eq!(
        drop_sessions_session_id_idx_stmnt(Dialect::Postgres),
        r#"DROP INDEX IF EXISTS "sessions_session_id_idx""#
    );
    assert_eq!(
        drop_sessions_session_id_idx_stmnt(Dialect::Mysql),
        "DROP INDEX `sessions_session_id_idx` ON `sessions`"
    );
    assert_eq!(
        drop_sessions_table_statement(Dialect::Sqlite),
        r#"DROP TABLE IF EXISTS "sessions""#
    );
    assert_eq!(delete_all_sessions_statement(Dialect::Postgres), r#"DELETE FROM "sessions""#);
    assert_eq!(delete_all_sessions_statement(Dialect::Mysql), "DELETE FROM `sessions`");
}

#[test]
fn text_type_per_dialect() {
    assert_eq!(get_text_type(Dialect::Mysql), "longtext");
    assert_eq!(get_text_type(Dialect::Postgres), "text");
    assert_eq!(get_text_type(Dialect::Sqlite), "text");
    assert_eq!(quote_ident(Dialect::Mysql, "a"), "`a`");
    assert_eq!(quote_ident(Dialect::Postgres, "a"), "\"a\"");
}

#[test]
fn up_creates_table_before_index_and_down_reverses() {
    let m = Migration;
    for d in [Dialect::Postgres, Dialect::Mysql, Dialect::Sqlite] {
        assert_eq!(m.up_steps(d, false), vec![SchemaStep::CreateTable, SchemaStep::CreateIndex]);
        assert_eq!(m.down_steps(d, true), vec![SchemaStep::DropIndex, SchemaStep::DropTable]);
    }
    for d in [Dialect::Postgres, Dialect::Sqlite] {
        assert_eq!(m.up_steps(d, true), vec![SchemaStep::CreateTable, SchemaStep::CreateIndex]);
        assert_eq!(m.down_steps(d, false), vec![SchemaStep::DropIndex, SchemaStep::DropTable]);
    }
    // MySQL cannot guard the index statements: they are left out when they
    // would fail.
    assert_eq!(m.up_steps(Dialect::Mysql, true), vec![SchemaStep::CreateTable]);
    assert_eq!(m.down_steps(Dialect::Mysql, false), vec![SchemaStep::DropTable]);
    assert_eq!(
        m.statement(SchemaStep::DropTable, Dialect::Postgres, "text"),
        r#"DROP TABLE IF EXISTS "sessions""#
    );
    assert_eq!(
        m.statement(SchemaStep::CreateIndex, Dialect::Sqlite, "text"),
        create_sessions_session_id_idx_stmnt(Dialect::Sqlite)
    );
    assert_eq!(
        m.statement(SchemaStep::CreateTable, Dialect::Mysql, "longtext"),
        create_sessions_table_statement(Dialect::Mysql, "longtext")
    );
}
