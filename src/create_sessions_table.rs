//! The `sessions` table and its unique index on `session_id`: the statements
//! that create and drop them in each SQL dialect, and the order in which a
//! migration applies them.
use vstd::prelude::*;
use vstd::string::StringExecFns;

verus! {

/// Name of the table that holds migrated sessions.
pub const SESSIONS_TABLE: &'static str = "sessions";

/// Name of the unique index on `sessions.session_id`.
pub const SESSION_ID_IDX: &'static str = "sessions_session_id_idx";

/// The SQL dialects that the statements are written for.
#[derive(Clone, Copy, Debug, PartialEq, Eq, Structural)]
pub enum Dialect {
    Postgres,
    Mysql,
    Sqlite,
}

/// The quote character around identifiers.
pub open spec fn quote(d: Dialect) -> Seq<char> {
    if d == Dialect::Mysql {
        "`"@
    } else {
        "\""@
    }
}

/// An identifier, quoted for the dialect.
pub open spec fn quoted(d: Dialect, name: Seq<char>) -> Seq<char> {
    quote(d) + name + quote(d)
}

/// A column definition: the quoted name, then its type and constraints.
pub open spec fn column(d: Dialect, name: Seq<char>, def: Seq<char>) -> Seq<char> {
    quoted(d, name) + " "@ + def
}

/// Type and constraints of the auto-incrementing primary key.
pub open spec fn id_column_def(d: Dialect) -> Seq<char> {
    match d {
        Dialect::Postgres => "bigserial NOT NULL PRIMARY KEY"@,
        Dialect::Mysql => "bigint NOT NULL AUTO_INCREMENT PRIMARY KEY"@,
        Dialect::Sqlite => "integer NOT NULL PRIMARY KEY AUTOINCREMENT"@,
    }
}

/// `CREATE TABLE` for `sessions`, with `text_type` as the type of the token
/// column.
pub open spec fn create_table_sql(d: Dialect, text_type: Seq<char>) -> Seq<char> {
    "CREATE TABLE IF NOT EXISTS "@ + quoted(d, SESSIONS_TABLE@) + " ( "@ + column(
        d,
        "id"@,
        id_column_def(d),
    ) + ", "@ + column(d, "session_id"@, "varchar(36) NOT NULL"@) + ", "@ + column(
        d,
        "access_token"@,
        text_type + " NOT NULL"@,
    ) + ", "@ + column(d, "created_at"@, "bigint NOT NULL"@) + ", "@ + column(
        d,
        "updated_at"@,
        "bigint NOT NULL"@,
    ) + " )"@
}

/// The guard that makes an index creation a no-op when the index exists;
/// MySQL has none.
pub open spec fn index_guard(d: Dialect) -> Seq<char> {
    if d == Dialect::Mysql {
        ""@
    } else {
        "IF NOT EXISTS "@
    }
}

/// `CREATE UNIQUE INDEX` on `sessions.session_id`.
pub open spec fn create_index_sql(d: Dialect) -> Seq<char> {
    "CREATE UNIQUE INDEX "@ + index_guard(d) + quoted(d, SESSION_ID_IDX@) + " ON "@ + quoted(
        d,
        SESSIONS_TABLE@,
    ) + " ("@ + quoted(d, "session_id"@) + ")"@
}

/// `DROP INDEX` for the unique index: guarded by `IF EXISTS` where the
/// dialect has it; MySQL names the table instead.
pub open spec fn drop_index_sql(d: Dialect) -> Seq<char> {
    if d == Dialect::Mysql {
        "DROP INDEX "@ + quoted(d, SESSION_ID_IDX@) + " ON "@ + quoted(d, SESSIONS_TABLE@)
    } else {
        "DROP INDEX IF EXISTS "@ + quoted(d, SESSION_ID_IDX@)
    }
}

/// `DROP TABLE` for `sessions`, a no-op when it is absent.
pub open spec fn drop_table_sql(d: Dialect) -> Seq<char> {
    "DROP TABLE IF EXISTS "@ + quoted(d, SESSIONS_TABLE@)
}

/// `DELETE` of every row of `sessions`.
pub open spec fn delete_all_sql(d: Dialect) -> Seq<char> {
    "DELETE FROM "@ + quoted(d, SESSIONS_TABLE@)
}

/// The text type of the token column for a metadata store of dialect `d`.
pub open spec fn text_type_of(d: Dialect) -> Seq<char> {
    if d == Dialect::Mysql {
        "longtext"@
    } else {
        "text"@
    }
}

fn quote_str(d: Dialect) -> (r: &'static str)
    ensures
        r@ == quote(d),
{
    if d == Dialect::Mysql {
        "`"
    } else {
        "\""
    }
}

/// Quotes an identifier for the dialect.
pub fn quote_ident(d: Dialect, name: &str) -> (r: String)
    ensures
        r@ == quoted(d, name@),
{
    let q = quote_str(d);
    let mut r = String::from_str(q);
    r.append(name);
    r.append(q);
    r
}

fn column_sql(d: Dialect, name: &str, def: &str) -> (r: String)
    ensures
        r@ == column(d, name@, def@),
{
    let mut r = quote_ident(d, name);
    r.append(" ");
    r.append(def);
    r
}

fn id_def_str(d: Dialect) -> (r: &'static str)
    ensures
        r@ == id_column_def(d),
{
    match d {
        Dialect::Postgres => "bigserial NOT NULL PRIMARY KEY",
        Dialect::Mysql => "bigint NOT NULL AUTO_INCREMENT PRIMARY KEY",
        Dialect::Sqlite => "integer NOT NULL PRIMARY KEY AUTOINCREMENT",
    }
}

/// The text type of the token column for a metadata store of dialect `d`:
/// `longtext` on MySQL, `text` elsewhere.
pub fn get_text_type(d: Dialect) -> (r: String)
    ensures
        r@ == text_type_of(d),
{
    if d == Dialect::Mysql {
        String::from_str("longtext")
    } else {
        String::from_str("text")
    }
}

/// The statement that creates `sessions`: an auto-incrementing primary key
/// `id`, `session_id` of at most 36 characters, `access_token` of type
/// `text_type`, and two 64-bit timestamps, all not null.
pub fn create_sessions_table_statement(d: Dialect, text_type: &str) -> (r: String)
    ensures
        r@ == create_table_sql(d, text_type@),
{
    let mut r = String::from_str("CREATE TABLE IF NOT EXISTS ");
    r.append(quote_ident(d, SESSIONS_TABLE).as_str());
    r.append(" ( ");
    r.append(column_sql(d, "id", id_def_str(d)).as_str());
    r.append(", ");
    r.append(column_sql(d, "session_id", "varchar(36) NOT NULL").as_str());
    r.append(", ");
    let mut token_def = String::from_str(text_type);
    token_def.append(" NOT NULL");
    r.append(column_sql(d, "access_token", token_def.as_str()).as_str());
    r.append(", ");
    r.append(column_sql(d, "created_at", "bigint NOT NULL").as_str());
    r.append(", ");
    r.append(column_sql(d, "updated_at", "bigint NOT NULL").as_str());
    r.append(" )");
    r
}

/// The statement that creates the unique index on `sessions.session_id`.
pub fn create_sessions_session_id_idx_stmnt(d: Dialect) -> (r: String)
    ensures
        r@ == create_index_sql(d),
{
    let mut r = String::from_str("CREATE UNIQUE INDEX ");
    if d != Dialect::Mysql {
        r.append("IF NOT EXISTS ");
    } else {
        r.append("");
    }
    r.append(quote_ident(d, SESSION_ID_IDX).as_str());
    r.append(" ON ");
    r.append(quote_ident(d, SESSIONS_TABLE).as_str());
    r.append(" (");
    r.append(quote_ident(d, "session_id").as_str());
    r.append(")");
    r
}

/// The statement that drops the unique index.
pub fn drop_sessions_session_id_idx_stmnt(d: Dialect) -> (r: String)
    ensures
        r@ == drop_index_sql(d),
{
    if d == Dialect::Mysql {
        let mut r = String::from_str("DROP INDEX ");
        r.append(quote_ident(d, SESSION_ID_IDX).as_str());
        r.append(" ON ");
        r.append(quote_ident(d, SESSIONS_TABLE).as_str());
        r
    } else {
        let mut r = String::from_str("DROP INDEX IF EXISTS ");
        r.append(quote_ident(d, SESSION_ID_IDX).as_str());
        r
    }
}

/// The statement that drops `sessions`.
pub fn drop_sessions_table_statement(d: Dialect) -> (r: String)
    ensures
        r@ == drop_table_sql(d),
{
    let mut r = String::from_str("DROP TABLE IF EXISTS ");
    r.append(quote_ident(d, SESSIONS_TABLE).as_str());
    r
}

/// The statement that deletes every row of `sessions`.
pub fn delete_all_sessions_statement(d: Dialect) -> (r: String)
    ensures
        r@ == delete_all_sql(d),
{
    let mut r = String::from_str("DELETE FROM ");
    r.append(quote_ident(d, SESSIONS_TABLE).as_str());
    r
}

/// One schema change of the migration.
#[derive(Clone, Copy, Debug, PartialEq, Eq, Structural)]
pub enum SchemaStep {
    CreateTable,
    CreateIndex,
    DropIndex,
    DropTable,
}

/// Which of the migration's schema objects exist.
pub struct SchemaState {
    pub table: bool,
    pub index: bool,
}

/// The effect of running `step`'s statement on a database in state `s`:
/// the new state, or `None` when the statement fails.
pub open spec fn apply_step(d: Dialect, s: SchemaState, step: SchemaStep) -> Option<SchemaState> {
    match step {
        SchemaStep::CreateTable => Some(SchemaState { table: true, ..s }),
        SchemaStep::CreateIndex => if !s.table || (s.index && d == Dialect::Mysql) {
            None
        } else {
            Some(SchemaState { index: true, ..s })
        },
        SchemaStep::DropIndex => if d == Dialect::Mysql && !s.index {
            None
        } else {
            Some(SchemaState { index: false, ..s })
        },
        SchemaStep::DropTable => Some(SchemaState { table: false, index: false }),
    }
}

/// The effect of running `steps` in order, stopping at the first failure.
pub open spec fn apply_steps(d: Dialect, s: SchemaState, steps: Seq<SchemaStep>) -> Option<
    SchemaState,
>
    decreases steps.len(),
{
    if steps.len() == 0 {
        Some(s)
    } else {
        match apply_step(d, s, steps[0]) {
            None => None,
            Some(t) => apply_steps(d, t, steps.drop_first()),
        }
    }
}

/// Whether the index statement must be left out of "up": MySQL has no guard
/// for it, so an existing index would make it fail.
pub open spec fn skips_index_create(d: Dialect, index_exists: bool) -> bool {
    d == Dialect::Mysql && index_exists
}

/// Whether the index statement must be left out of "down": MySQL has no
/// guard for it, so an absent index would make it fail.
pub open spec fn skips_index_drop(d: Dialect, index_exists: bool) -> bool {
    d == Dialect::Mysql && !index_exists
}

/// The forward steps: the table, then its index unless it is known to exist
/// on a dialect that cannot guard its creation.
pub open spec fn up_plan(d: Dialect, index_exists: bool) -> Seq<SchemaStep> {
    if skips_index_create(d, index_exists) {
        seq![SchemaStep::CreateTable]
    } else {
        seq![SchemaStep::CreateTable, SchemaStep::CreateIndex]
    }
}

/// The backward steps: the index, unless it is known to be absent on a
/// dialect that cannot guard its removal, then the table.
pub open spec fn down_plan(d: Dialect, index_exists: bool) -> Seq<SchemaStep> {
    if skips_index_drop(d, index_exists) {
        seq![SchemaStep::DropTable]
    } else {
        seq![SchemaStep::DropIndex, SchemaStep::DropTable]
    }
}

/// A schema state that a database can be in: the index lives on the table.
pub open spec fn schema_wf(s: SchemaState) -> bool {
    s.index ==> s.table
}

/// The statement of a step.
pub open spec fn step_sql(d: Dialect, text_type: Seq<char>, step: SchemaStep) -> Seq<char> {
    match step {
        SchemaStep::CreateTable => create_table_sql(d, text_type),
        SchemaStep::CreateIndex => create_index_sql(d),
        SchemaStep::DropIndex => drop_index_sql(d),
        SchemaStep::DropTable => drop_table_sql(d),
    }
}

/// The migration that creates the `sessions` table and its unique index.
pub struct Migration;

impl Migration {
    /// The steps of "up" in dialect `d`, in the order they run, given whether
    /// the index exists already.
    pub fn up_steps(&self, d: Dialect, index_exists: bool) -> (r: Vec<SchemaStep>)
        ensures
            r@ == up_plan(d, index_exists),
    {
        let mut r = vec![SchemaStep::CreateTable];
        if !(d == Dialect::Mysql && index_exists) {
            r.push(SchemaStep::CreateIndex);
        }
        assert(r@ =~= up_plan(d, index_exists));
        r
    }

    /// The steps of "down" in dialect `d`, in the order they run, given
    /// whether the index exists: the index goes before the table that it
    /// depends on.
    pub fn down_steps(&self, d: Dialect, index_exists: bool) -> (r: Vec<SchemaStep>)
        ensures
            r@ == down_plan(d, index_exists),
    {
        let mut r: Vec<SchemaStep> = Vec::new();
        if !(d == Dialect::Mysql && !index_exists) {
            r.push(SchemaStep::DropIndex);
        }
        r.push(SchemaStep::DropTable);
        assert(r@ =~= down_plan(d, index_exists));
        r
    }

    /// The statement of `step` in dialect `d`, with `text_type` as the type
    /// of the token column.
    pub fn statement(&self, step: SchemaStep, d: Dialect, text_type: &str) -> (r: String)
        ensures
            r@ == step_sql(d, text_type@, step),
    {
        match step {
            SchemaStep::CreateTable => create_sessions_table_statement(d, text_type),
            SchemaStep::CreateIndex => create_sessions_session_id_idx_stmnt(d),
            SchemaStep::DropIndex => drop_sessions_session_id_idx_stmnt(d),
            SchemaStep::DropTable => drop_sessions_table_statement(d),
        }
    }
}

proof fn lemma_apply_one(d: Dialect, s: SchemaState, a: SchemaStep)
    ensures
        apply_steps(d, s, seq![a]) == apply_step(d, s, a),
{
    reveal_with_fuel(apply_steps, 2);
    assert(seq![a].drop_first() =~= Seq::<SchemaStep>::empty());
}

proof fn lemma_apply_two(d: Dialect, s: SchemaState, a: SchemaStep, b: SchemaStep)
    ensures
        apply_steps(d, s, seq![a, b]) == match apply_step(d, s, a) {
            None => None,
            Some(t) => apply_step(d, t, b),
        },
{
    reveal_with_fuel(apply_steps, 3);
    assert(seq![a, b].drop_first() =~= seq![b]);
    assert(seq![b].drop_first() =~= Seq::<SchemaStep>::empty());
}

/// "Up" succeeds in every dialect and from every state, a database where an
/// earlier "up" ran included, and leaves the table and its index in place.
pub proof fn lemma_up_is_rerunnable(d: Dialect, s: SchemaState)
    requires
        schema_wf(s),
    ensures
        apply_steps(d, s, up_plan(d, s.index)) == Some(SchemaState { table: true, index: true }),
{
    lemma_apply_one(d, s, SchemaStep::CreateTable);
    lemma_apply_two(d, s, SchemaStep::CreateTable, SchemaStep::CreateIndex);
}

/// "Down" succeeds in every dialect and from every state, a database where
/// the index or the table is already gone included, and leaves neither.
pub proof fn lemma_down_always_succeeds(d: Dialect, s: SchemaState)
    requires
        schema_wf(s),
    ensures
        apply_steps(d, s, down_plan(d, s.index)) == Some(
            SchemaState { table: false, index: false },
        ),
{
    lemma_apply_one(d, s, SchemaStep::DropTable);
    lemma_apply_two(d, s, SchemaStep::DropIndex, SchemaStep::DropTable);
}

/// "Down" after "up" leaves neither the table nor its index, in every
/// dialect and from every starting state.
pub proof fn lemma_down_after_up_removes_schema(d: Dialect, s: SchemaState)
    requires
        schema_wf(s),
    ensures
        apply_steps(d, s, up_plan(d, s.index)) is Some,
        apply_steps(
            d,
            apply_steps(d, s, up_plan(d, s.index))->Some_0,
            down_plan(d, apply_steps(d, s, up_plan(d, s.index))->Some_0.index),
        ) == Some(SchemaState { table: false, index: false }),
{
    lemma_up_is_rerunnable(d, s);
    lemma_down_always_succeeds(d, SchemaState { table: true, index: true });
}

} // verus!
