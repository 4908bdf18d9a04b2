//! The store: durable CRUD over projects, conversations and messages in a
//! single SQLite database.
//!
//! The three tables are modelled as sequences of rows in insertion order,
//! named by the uninterpreted functions [`project_rows`], [`conversation_rows`]
//! and [`message_rows`] (a table that does not exist yet holds no rows). Every
//! SQL statement the store runs stands behind a trusted wrapper whose contract
//! states, over those names, what the statement does to the tables; the store
//! operations themselves are verified against those contracts.
//!
//! Each `id` column is the table's primary key, so an insert that succeeds
//! shows its id was not present before. Listings are ordered by SQLite's
//! default `BINARY` collation on the timestamp columns, which is the
//! code-point lexicographic order [`crate::order::lex_leq`].
//!
//! The statement contracts hold of store-shaped databases: ones holding
//! exactly the three tables as this store's initialization writes them, with
//! nothing else (no trigger, no view) defined. [`schema_ok`] names that
//! shape; both constructors establish it by holding the database's object
//! listing to the exact expected schema text, and every statement preserves
//! it, so a foreign or tampered database file is rejected at construction
//! rather than silently breaking the model.
//!
//! The model reads the tables as a function of the connection value, so a
//! second connection to the same file, or another process writing it, is
//! outside it — consistent with the design's single shared store.

use vstd::prelude::*;

use crate::models::{Conversation, CreateMessageInput, CreateProjectInput, Message, Project};
use crate::order::{lemma_lex_leq_reflexive, lex_leq, lex_lt};
use rusqlite::OptionalExtension;

verus! {

/// How a store operation fails: the requested row does not exist, or the
/// database library reported an error (constraint violation, I/O fault, ...),
/// surfaced as its message.
#[derive(Debug, Clone, PartialEq)]
pub enum StoreError {
    NotFound,
    Database(String),
}

#[verifier::external_type_specification]
#[verifier::external_body]
pub struct ExConnection(rusqlite::Connection);

/// The rows of the `projects` table, in insertion order; empty when the table
/// does not exist.
pub uninterp spec fn project_rows(c: rusqlite::Connection) -> Seq<Project>;

/// The rows of the `conversations` table, in insertion order; empty when the
/// table does not exist.
pub uninterp spec fn conversation_rows(c: rusqlite::Connection) -> Seq<Conversation>;

/// The rows of the `messages` table, in insertion order; empty when the table
/// does not exist.
pub uninterp spec fn message_rows(c: rusqlite::Connection) -> Seq<Message>;

/// The database behind `c` is store-shaped: it holds exactly the three
/// tables as [`create_tables`] writes them — the columns in order, `id` the
/// primary key, the default `BINARY` collation — and nothing else is defined
/// in it: no trigger, no view, no foreign table. Established by the
/// constructors through [`query_schema`] and preserved by every statement the
/// store runs.
pub uninterp spec fn schema_ok(c: rusqlite::Connection) -> bool;

/// Some row of `rows` carries the id `id`.
pub open spec fn has_project_id(rows: Seq<Project>, id: Seq<char>) -> bool {
    exists|i: int| 0 <= i < rows.len() && #[trigger] rows[i].id@ == id
}

/// Some row of `rows` carries the id `id`.
pub open spec fn has_conversation_id(rows: Seq<Conversation>, id: Seq<char>) -> bool {
    exists|i: int| 0 <= i < rows.len() && #[trigger] rows[i].id@ == id
}

/// Some row of `rows` carries the id `id`.
pub open spec fn has_message_id(rows: Seq<Message>, id: Seq<char>) -> bool {
    exists|i: int| 0 <= i < rows.len() && #[trigger] rows[i].id@ == id
}

/// `s` is ordered most recently updated first.
pub open spec fn projects_by_recency(s: Seq<Project>) -> bool {
    forall|i: int, j: int|
        0 <= i < j < s.len() ==> #[trigger] lex_leq(s[j].updated_at@, s[i].updated_at@)
}

/// `s` is ordered by creation time, non-decreasing.
pub open spec fn messages_in_time_order(s: Seq<Message>) -> bool {
    forall|i: int, j: int|
        0 <= i < j < s.len() ==> #[trigger] lex_leq(s[i].created_at@, s[j].created_at@)
}

/// `rows` without the rows that carry the id `id`, keeping the order.
pub open spec fn without_project_id(rows: Seq<Project>, id: Seq<char>) -> Seq<Project> {
    rows.filter(|q: Project| q.id@ != id)
}

/// The messages of conversation `cid`, in insertion order.
pub open spec fn conversation_messages(all: Seq<Message>, cid: Seq<char>) -> Seq<Message> {
    all.filter(|m: Message| m.conversation_id@ == cid)
}

/// What a message listing returns: the messages of the conversation, as a
/// multiset, ordered by creation time. Rows with equal timestamps come in an
/// order the database does not pin down.
pub open spec fn listing_post(all: Seq<Message>, cid: Seq<char>, out: Seq<Message>) -> bool {
    &&& out.to_multiset() == conversation_messages(all, cid).to_multiset()
    &&& messages_in_time_order(out)
}

/// What a project lookup returns: the row carrying the id when there is one,
/// `NotFound` when there is none, or a database error either way.
pub open spec fn get_project_post(
    rows: Seq<Project>,
    id: Seq<char>,
    r: Result<Project, StoreError>,
) -> bool {
    &&& (r matches Ok(p) ==> p.id@ == id && rows.contains(p))
    &&& (r matches Err(e) && e is NotFound ==> !has_project_id(rows, id))
}

/// One row of the database's object listing (`sqlite_master`): the kind of
/// object, the table it belongs to, and the stored text of its `CREATE`
/// statement, absent for the automatic indexes a primary key makes.
#[derive(Debug, Clone, PartialEq)]
struct SchemaEntry {
    kind: String,
    tbl_name: String,
    sql: Option<String>,
}

/// The stored schema text of the `projects` table as initialization writes
/// it (SQLite stores the `CREATE` statement with `IF NOT EXISTS` removed).
spec fn projects_table_sql() -> Seq<char> {
    "CREATE TABLE projects (id TEXT PRIMARY KEY, name TEXT NOT NULL, description TEXT NOT NULL, industry TEXT, target_audience TEXT, status TEXT NOT NULL, created_at TEXT NOT NULL, updated_at TEXT NOT NULL)"@
}

/// The stored schema text of the `conversations` table.
spec fn conversations_table_sql() -> Seq<char> {
    "CREATE TABLE conversations (id TEXT PRIMARY KEY, project_id TEXT NOT NULL, phase TEXT NOT NULL, created_at TEXT NOT NULL)"@
}

/// The stored schema text of the `messages` table.
spec fn messages_table_sql() -> Seq<char> {
    "CREATE TABLE messages (id TEXT PRIMARY KEY, conversation_id TEXT NOT NULL, role TEXT NOT NULL, content TEXT NOT NULL, metadata TEXT, created_at TEXT NOT NULL)"@
}

/// `e` is a table entry whose stored schema text is exactly `sql`.
spec fn is_table_entry(e: SchemaEntry, sql: Seq<char>) -> bool {
    e.kind@ == "table"@ && (e.sql matches Some(s) && s@ == sql)
}

/// `e` is an object the store-shaped database may hold: one of the three
/// tables with its exact schema text, or an automatic index (which stores no
/// text). Anything else — a trigger, a view, a foreign or altered table, a
/// hand-made index — is refused.
spec fn entry_allowed(e: SchemaEntry) -> bool {
    ||| is_table_entry(e, projects_table_sql())
    ||| is_table_entry(e, conversations_table_sql())
    ||| is_table_entry(e, messages_table_sql())
    ||| (e.kind@ == "index"@ && e.sql is None)
}

/// The object listing is exactly that of a store-shaped database: every
/// entry is allowed and each of the three tables is present.
spec fn schema_matches(v: Seq<SchemaEntry>) -> bool {
    &&& forall|k: int| 0 <= k < v.len() ==> #[trigger] entry_allowed(v[k])
    &&& exists|k: int| 0 <= k < v.len() && #[trigger] is_table_entry(v[k], projects_table_sql())
    &&& exists|k: int|
        0 <= k < v.len() && #[trigger] is_table_entry(v[k], conversations_table_sql())
    &&& exists|k: int| 0 <= k < v.len() && #[trigger] is_table_entry(v[k], messages_table_sql())
}

/// Relies on `uuid::Uuid::new_v4` and its `Display` impl: a fresh random
/// identifier in the 36-character hyphenated form. Nothing is promised about
/// the value itself, which is random.
#[verifier::external_body]
fn generate_id() -> (r: String)
    ensures
        r@.len() == 36,
{
    uuid::Uuid::new_v4().to_string()
}

/// Relies on `chrono::Utc::now` and `DateTime::to_rfc3339`: the current time
/// as RFC 3339 text. Nothing is promised about the value, which depends on
/// the clock.
#[verifier::external_body]
fn current_timestamp() -> (r: String) {
    chrono::Utc::now().to_rfc3339()
}

/// Relies on `rusqlite::Connection::open_in_memory`: a connection to a fresh,
/// empty in-memory database, in which no table holds any row.
#[verifier::external_body]
fn open_memory_connection() -> (r: Result<rusqlite::Connection, String>)
    ensures
        r matches Ok(c) ==> project_rows(c) == Seq::<Project>::empty()
            && conversation_rows(c) == Seq::<Conversation>::empty()
            && message_rows(c) == Seq::<Message>::empty(),
{
    rusqlite::Connection::open_in_memory().map_err(|e| e.to_string())
}

/// Relies on `rusqlite::Connection::execute_batch` running three
/// `CREATE TABLE IF NOT EXISTS` statements: a table is created empty only
/// where it is missing, so the rows of all three tables are unchanged.
#[verifier::external_body]
fn create_tables(c: &mut rusqlite::Connection) -> (r: Result<(), String>)
    ensures
        project_rows(*final(c)) == project_rows(*old(c)),
        conversation_rows(*final(c)) == conversation_rows(*old(c)),
        message_rows(*final(c)) == message_rows(*old(c)),
{
    c.execute_batch(
        "CREATE TABLE IF NOT EXISTS projects (id TEXT PRIMARY KEY, name TEXT NOT NULL, description TEXT NOT NULL, industry TEXT, target_audience TEXT, status TEXT NOT NULL, created_at TEXT NOT NULL, updated_at TEXT NOT NULL);CREATE TABLE IF NOT EXISTS conversations (id TEXT PRIMARY KEY, project_id TEXT NOT NULL, phase TEXT NOT NULL, created_at TEXT NOT NULL);CREATE TABLE IF NOT EXISTS messages (id TEXT PRIMARY KEY, conversation_id TEXT NOT NULL, role TEXT NOT NULL, content TEXT NOT NULL, metadata TEXT, created_at TEXT NOT NULL);",
    ).map_err(|e| e.to_string())
}

/// Relies on `rusqlite::Connection::prepare` and `Statement::query_map` over
/// `sqlite_master`, which lists every object of the database with the stored
/// text of its `CREATE` statement: when that listing is exactly the three
/// tables as [`create_tables`] writes them plus their automatic indexes, the
/// database is store-shaped.
#[verifier::external_body]
fn query_schema(c: &rusqlite::Connection) -> (r: Result<Vec<SchemaEntry>, String>)
    ensures
        r matches Ok(v) ==> (schema_matches(v@) ==> schema_ok(*c)),
{
    let run = || -> rusqlite::Result<Vec<SchemaEntry>> {
        let mut st = c.prepare("SELECT type, tbl_name, sql FROM sqlite_master")?;
        let rows = st.query_map([], |w| Ok(SchemaEntry {
            kind: w.get(0)?, tbl_name: w.get(1)?, sql: w.get(2)?,
        }))?;
        rows.collect()
    };
    run().map_err(|e| e.to_string())
}

/// Whether `e` is a table entry carrying exactly the schema text `sql_text`.
fn entry_is_table(e: &SchemaEntry, sql_text: &str) -> (b: bool)
    ensures
        b == is_table_entry(*e, sql_text@),
{
    match &e.sql {
        Some(s) => e.kind == "table".to_owned() && *s == sql_text.to_owned(),
        None => false,
    }
}

/// Whether the object listing is exactly that of a store-shaped database.
fn schema_entries_ok(entries: &Vec<SchemaEntry>) -> (b: bool)
    ensures
        b == schema_matches(entries@),
{
    let mut all_allowed = true;
    let mut has_projects = false;
    let mut has_conversations = false;
    let mut has_messages = false;
    let mut i: usize = 0;
    while i < entries.len()
        invariant
            i <= entries.len(),
            all_allowed == (forall|k: int| 0 <= k < i ==> #[trigger] entry_allowed(entries@[k])),
            has_projects == (exists|k: int|
                0 <= k < i && #[trigger] is_table_entry(entries@[k], projects_table_sql())),
            has_conversations == (exists|k: int|
                0 <= k < i && #[trigger] is_table_entry(entries@[k], conversations_table_sql())),
            has_messages == (exists|k: int|
                0 <= k < i && #[trigger] is_table_entry(entries@[k], messages_table_sql())),
        decreases entries.len() - i,
    {
        let e = &entries[i];
        let is_p = entry_is_table(
            e,
            "CREATE TABLE projects (id TEXT PRIMARY KEY, name TEXT NOT NULL, description TEXT NOT NULL, industry TEXT, target_audience TEXT, status TEXT NOT NULL, created_at TEXT NOT NULL, updated_at TEXT NOT NULL)",
        );
        let is_c = entry_is_table(
            e,
            "CREATE TABLE conversations (id TEXT PRIMARY KEY, project_id TEXT NOT NULL, phase TEXT NOT NULL, created_at TEXT NOT NULL)",
        );
        let is_m = entry_is_table(
            e,
            "CREATE TABLE messages (id TEXT PRIMARY KEY, conversation_id TEXT NOT NULL, role TEXT NOT NULL, content TEXT NOT NULL, metadata TEXT, created_at TEXT NOT NULL)",
        );
        let is_auto_index = match &e.sql {
            None => e.kind == "index".to_owned(),
            Some(_) => false,
        };
        proof {
            assert(is_table_entry(entries@[i as int], projects_table_sql()) == is_p);
            assert(is_table_entry(entries@[i as int], conversations_table_sql()) == is_c);
            assert(is_table_entry(entries@[i as int], messages_table_sql()) == is_m);
            assert(entry_allowed(entries@[i as int]) == (is_p || is_c || is_m || is_auto_index));
        }
        if !(is_p || is_c || is_m || is_auto_index) {
            all_allowed = false;
        }
        if is_p {
            has_projects = true;
        }
        if is_c {
            has_conversations = true;
        }
        if is_m {
            has_messages = true;
        }
        i = i + 1;
    }
    all_allowed && has_projects && has_conversations && has_messages
}

/// Validates that the database behind `c` is store-shaped, holding its
/// object listing to the exact schema initialization writes. `Ok`
/// establishes the model every statement contract speaks of.
fn check_schema(c: &rusqlite::Connection) -> (r: Result<(), String>)
    ensures
        r is Ok ==> schema_ok(*c),
{
    match query_schema(c) {
        Ok(entries) => {
            if schema_entries_ok(&entries) {
                Ok(())
            } else {
                Err("database schema does not match this store's".to_owned())
            }
        },
        Err(e) => Err(e),
    }
}

/// Relies on `rusqlite::Connection::execute` with an `INSERT INTO projects`
/// statement, on a store-shaped database: on success the row is appended,
/// and since `id` is the primary key, no existing row carried the same id; a
/// single statement is atomic, so on failure the tables are unchanged; with
/// no trigger defined, nothing else changes, and the schema stays as it was.
#[verifier::external_body]
fn insert_project_row(c: &mut rusqlite::Connection, p: &Project) -> (r: Result<(), String>)
    requires
        schema_ok(*old(c)),
    ensures
        schema_ok(*final(c)),
        r is Ok ==> project_rows(*final(c)) == project_rows(*old(c)).push(*p),
        r is Ok ==> !has_project_id(project_rows(*old(c)), p.id@),
        r is Err ==> project_rows(*final(c)) == project_rows(*old(c)),
        conversation_rows(*final(c)) == conversation_rows(*old(c)),
        message_rows(*final(c)) == message_rows(*old(c)),
{
    c.execute(
        "INSERT INTO projects (id, name, description, industry, target_audience, status, created_at, updated_at) VALUES (?1, ?2, ?3, ?4, ?5, ?6, ?7, ?8)",
        (&p.id, &p.name, &p.description, &p.industry, &p.target_audience, &p.status, &p.created_at, &p.updated_at),
    ).map(|_| ()).map_err(|e| e.to_string())
}

/// Relies on `rusqlite::Connection::prepare` and `Statement::query_map` with a
/// `SELECT ... FROM projects ORDER BY updated_at DESC` statement, on a
/// store-shaped database: on success the result holds exactly the rows of
/// the table, ordered most recently updated first under the `BINARY`
/// collation the column carries there.
#[verifier::external_body]
fn query_project_rows(c: &rusqlite::Connection) -> (r: Result<Vec<Project>, String>)
    requires
        schema_ok(*c),
    ensures
        r matches Ok(v) ==> v@.to_multiset() == project_rows(*c).to_multiset(),
        r matches Ok(v) ==> projects_by_recency(v@),
{
    let run = || -> rusqlite::Result<Vec<Project>> {
        let mut st = c.prepare("SELECT id, name, description, industry, target_audience, status, created_at, updated_at FROM projects ORDER BY updated_at DESC")?;
        let rows = st.query_map([], |w| Ok(Project {
            id: w.get(0)?, name: w.get(1)?, description: w.get(2)?, industry: w.get(3)?,
            target_audience: w.get(4)?, status: w.get(5)?, created_at: w.get(6)?, updated_at: w.get(7)?,
        }))?;
        rows.collect()
    };
    run().map_err(|e| e.to_string())
}

/// Relies on `rusqlite::Connection::query_row` with a `SELECT ... FROM
/// projects WHERE id = ?1` statement and `OptionalExtension::optional`, on a
/// store-shaped database (so the `id` comparison is exact, not under some
/// other collation): on success the result is a row of the table carrying
/// the id, or `None` when no row carries it.
#[verifier::external_body]
fn query_project_row(c: &rusqlite::Connection, id: &String) -> (r: Result<
    Option<Project>,
    String,
>)
    requires
        schema_ok(*c),
    ensures
        r matches Ok(Some(p)) ==> p.id@ == id@ && project_rows(*c).contains(p),
        r matches Ok(None) ==> !has_project_id(project_rows(*c), id@),
{
    c.query_row(
        "SELECT id, name, description, industry, target_audience, status, created_at, updated_at FROM projects WHERE id = ?1",
        [id],
        |w| Ok(Project {
            id: w.get(0)?, name: w.get(1)?, description: w.get(2)?, industry: w.get(3)?,
            target_audience: w.get(4)?, status: w.get(5)?, created_at: w.get(6)?, updated_at: w.get(7)?,
        }),
    ).optional().map_err(|e| e.to_string())
}

/// Relies on `rusqlite::Connection::execute` with a `DELETE FROM projects
/// WHERE id = ?1` statement, on a store-shaped database: on success exactly
/// the rows carrying the id are gone (the comparison exact under `BINARY`
/// collation), zero rows affected is no error, a single statement is atomic,
/// so on failure the tables are unchanged, and with no trigger defined
/// nothing else changes.
#[verifier::external_body]
fn delete_project_rows(c: &mut rusqlite::Connection, id: &String) -> (r: Result<(), String>)
    requires
        schema_ok(*old(c)),
    ensures
        schema_ok(*final(c)),
        r is Ok ==> project_rows(*final(c)) == without_project_id(project_rows(*old(c)), id@),
        r is Err ==> project_rows(*final(c)) == project_rows(*old(c)),
        conversation_rows(*final(c)) == conversation_rows(*old(c)),
        message_rows(*final(c)) == message_rows(*old(c)),
{
    c.execute("DELETE FROM projects WHERE id = ?1", [id]).map(|_| ()).map_err(|e| e.to_string())
}

/// Relies on `rusqlite::Connection::execute` with an `INSERT INTO
/// conversations` statement, as [`insert_project_row`] relies on its insert.
#[verifier::external_body]
fn insert_conversation_row(c: &mut rusqlite::Connection, v: &Conversation) -> (r: Result<
    (),
    String,
>)
    requires
        schema_ok(*old(c)),
    ensures
        schema_ok(*final(c)),
        r is Ok ==> conversation_rows(*final(c)) == conversation_rows(*old(c)).push(*v),
        r is Ok ==> !has_conversation_id(conversation_rows(*old(c)), v.id@),
        r is Err ==> conversation_rows(*final(c)) == conversation_rows(*old(c)),
        project_rows(*final(c)) == project_rows(*old(c)),
        message_rows(*final(c)) == message_rows(*old(c)),
{
    c.execute(
        "INSERT INTO conversations (id, project_id, phase, created_at) VALUES (?1, ?2, ?3, ?4)",
        (&v.id, &v.project_id, &v.phase, &v.created_at),
    ).map(|_| ()).map_err(|e| e.to_string())
}

/// Relies on `rusqlite::Connection::execute` with an `INSERT INTO messages`
/// statement, as [`insert_project_row`] relies on its insert.
#[verifier::external_body]
fn insert_message_row(c: &mut rusqlite::Connection, m: &Message) -> (r: Result<(), String>)
    requires
        schema_ok(*old(c)),
    ensures
        schema_ok(*final(c)),
        r is Ok ==> message_rows(*final(c)) == message_rows(*old(c)).push(*m),
        r is Ok ==> !has_message_id(message_rows(*old(c)), m.id@),
        r is Err ==> message_rows(*final(c)) == message_rows(*old(c)),
        project_rows(*final(c)) == project_rows(*old(c)),
        conversation_rows(*final(c)) == conversation_rows(*old(c)),
{
    c.execute(
        "INSERT INTO messages (id, conversation_id, role, content, metadata, created_at) VALUES (?1, ?2, ?3, ?4, ?5, ?6)",
        (&m.id, &m.conversation_id, &m.role, &m.content, &m.metadata, &m.created_at),
    ).map(|_| ()).map_err(|e| e.to_string())
}

/// Relies on `rusqlite::Connection::prepare` and `Statement::query_map` with a
/// `SELECT ... FROM messages WHERE conversation_id = ?1 ORDER BY created_at
/// ASC` statement, on a store-shaped database: on success the result holds
/// exactly the rows of the conversation (the comparison exact), ordered by
/// creation time under the `BINARY` collation; the order among rows with
/// equal timestamps is not specified.
#[verifier::external_body]
fn query_message_rows(c: &rusqlite::Connection, conversation_id: &String) -> (r: Result<
    Vec<Message>,
    String,
>)
    requires
        schema_ok(*c),
    ensures
        r matches Ok(v) ==> listing_post(message_rows(*c), conversation_id@, v@),
{
    let run = || -> rusqlite::Result<Vec<Message>> {
        let mut st = c.prepare("SELECT id, conversation_id, role, content, metadata, created_at FROM messages WHERE conversation_id = ?1 ORDER BY created_at ASC")?;
        let rows = st.query_map([conversation_id], |w| Ok(Message {
            id: w.get(0)?, conversation_id: w.get(1)?, role: w.get(2)?,
            content: w.get(3)?, metadata: w.get(4)?, created_at: w.get(5)?,
        }))?;
        rows.collect()
    };
    run().map_err(|e| e.to_string())
}

/// The store: one live SQLite connection. Callers that share a store across
/// threads serialize access around it; a mutable borrow here is one critical
/// section.
pub struct Database {
    conn: rusqlite::Connection,
}

impl Database {
    /// The projects table, in insertion order.
    pub closed spec fn projects(self) -> Seq<Project> {
        project_rows(self.conn)
    }

    /// The conversations table, in insertion order.
    pub closed spec fn conversations(self) -> Seq<Conversation> {
        conversation_rows(self.conn)
    }

    /// The messages table, in insertion order.
    pub closed spec fn messages(self) -> Seq<Message> {
        message_rows(self.conn)
    }

    /// The database behind the store is store-shaped ([`schema_ok`]):
    /// established by both constructors, preserved by every operation.
    pub closed spec fn wf(self) -> bool {
        schema_ok(self.conn)
    }

    /// Opens a store over a fresh in-memory database: all three tables start
    /// empty.
    pub fn new_in_memory() -> (r: Result<Database, StoreError>)
        ensures
            r matches Ok(d) ==> d.wf() && d.projects() == Seq::<Project>::empty()
                && d.conversations() == Seq::<Conversation>::empty() && d.messages()
                == Seq::<Message>::empty(),
    {
        match open_memory_connection() {
            Ok(c) => Self::from_connection(c),
            Err(e) => Err(StoreError::Database(e)),
        }
    }

    /// Opens a store over a connection the caller obtained (typically to the
    /// application's database file): creates the three tables where they are
    /// missing, keeps every existing row, and then validates that the
    /// database is store-shaped, refusing one whose schema was made or
    /// altered elsewhere.
    pub fn from_connection(conn: rusqlite::Connection) -> (r: Result<Database, StoreError>)
        ensures
            r matches Ok(d) ==> d.wf() && d.projects() == project_rows(conn) && d.conversations()
                == conversation_rows(conn) && d.messages() == message_rows(conn),
    {
        let mut c = conn;
        match create_tables(&mut c) {
            Ok(_) => match check_schema(&c) {
                Ok(_) => Ok(Database { conn: c }),
                Err(e) => Err(StoreError::Database(e)),
            },
            Err(e) => Err(StoreError::Database(e)),
        }
    }
}

/// Creates a project: generates an id and a timestamp, inserts one row with
/// the fixed initial status, and returns the entity exactly as persisted.
/// Success shows the generated id was not in the table before.
pub fn create_project(db: &mut Database, input: CreateProjectInput) -> (r: Result<
    Project,
    StoreError,
>)
    requires
        old(db).wf(),
    ensures
        final(db).wf(),
        r matches Ok(p) ==> final(db).projects() == old(db).projects().push(p)
            && !has_project_id(old(db).projects(), p.id@),
        r matches Ok(p) ==> p.name == input.name && p.description == input.description
            && p.industry == input.industry && p.target_audience == input.target_audience
            && p.status@ == "ideation"@ && p.created_at@ == p.updated_at@,
        r is Err ==> final(db).projects() == old(db).projects(),
        r matches Err(e) ==> e is Database,
        final(db).conversations() == old(db).conversations(),
        final(db).messages() == old(db).messages(),
{
    let id = generate_id();
    let now = current_timestamp();
    let p = Project {
        id,
        name: input.name,
        description: input.description,
        industry: input.industry,
        target_audience: input.target_audience,
        status: "ideation".to_owned(),
        created_at: now.clone(),
        updated_at: now,
    };
    match insert_project_row(&mut db.conn, &p) {
        Ok(_) => Ok(p),
        Err(e) => Err(StoreError::Database(e)),
    }
}

/// Lists all projects, most recently updated first.
pub fn get_projects(db: &Database) -> (r: Result<Vec<Project>, StoreError>)
    requires
        db.wf(),
    ensures
        r matches Ok(v) ==> v@.to_multiset() == db.projects().to_multiset(),
        r matches Ok(v) ==> projects_by_recency(v@),
        r matches Err(e) ==> e is Database,
{
    match query_project_rows(&db.conn) {
        Ok(v) => Ok(v),
        Err(e) => Err(StoreError::Database(e)),
    }
}

/// Looks a project up by id: the row carrying the id, `NotFound` when no row
/// carries it, or a database error.
pub fn get_project(db: &Database, project_id: String) -> (r: Result<Project, StoreError>)
    requires
        db.wf(),
    ensures
        get_project_post(db.projects(), project_id@, r),
{
    match query_project_row(&db.conn, &project_id) {
        Ok(Some(p)) => Ok(p),
        Ok(None) => Err(StoreError::NotFound),
        Err(e) => Err(StoreError::Database(e)),
    }
}

/// Deletes the project rows carrying the id. Deleting an id that no row
/// carries succeeds and changes nothing; `NotFound` is never reported.
pub fn delete_project(db: &mut Database, project_id: String) -> (r: Result<(), StoreError>)
    requires
        old(db).wf(),
    ensures
        final(db).wf(),
        r is Ok ==> final(db).projects() == without_project_id(old(db).projects(), project_id@),
        r is Err ==> final(db).projects() == old(db).projects(),
        r matches Err(e) ==> e is Database,
        final(db).conversations() == old(db).conversations(),
        final(db).messages() == old(db).messages(),
{
    match delete_project_rows(&mut db.conn, &project_id) {
        Ok(_) => Ok(()),
        Err(e) => Err(StoreError::Database(e)),
    }
}

/// Creates a conversation under a project: generates an id and a timestamp,
/// inserts one row with the fixed initial phase, and returns the entity
/// exactly as persisted. The project reference is not validated.
pub fn create_conversation(db: &mut Database, project_id: String) -> (r: Result<
    Conversation,
    StoreError,
>)
    requires
        old(db).wf(),
    ensures
        final(db).wf(),
        r matches Ok(v) ==> final(db).conversations() == old(db).conversations().push(v)
            && !has_conversation_id(old(db).conversations(), v.id@),
        r matches Ok(v) ==> v.project_id == project_id && v.phase@ == "initial_analysis"@,
        r is Err ==> final(db).conversations() == old(db).conversations(),
        r matches Err(e) ==> e is Database,
        final(db).projects() == old(db).projects(),
        final(db).messages() == old(db).messages(),
{
    let id = generate_id();
    let now = current_timestamp();
    let v = Conversation {
        id,
        project_id,
        phase: "initial_analysis".to_owned(),
        created_at: now,
    };
    match insert_conversation_row(&mut db.conn, &v) {
        Ok(_) => Ok(v),
        Err(e) => Err(StoreError::Database(e)),
    }
}

/// Appends a message: generates an id and a timestamp, inserts one row with
/// the caller's role, content and metadata, and returns the entity exactly as
/// persisted. The conversation reference is not validated.
pub fn append_message(db: &mut Database, input: CreateMessageInput) -> (r: Result<
    Message,
    StoreError,
>)
    requires
        old(db).wf(),
    ensures
        final(db).wf(),
        r matches Ok(m) ==> final(db).messages() == old(db).messages().push(m)
            && !has_message_id(old(db).messages(), m.id@),
        r matches Ok(m) ==> m.conversation_id == input.conversation_id && m.role == input.role
            && m.content == input.content && m.metadata == input.metadata,
        r is Err ==> final(db).messages() == old(db).messages(),
        r matches Err(e) ==> e is Database,
        final(db).projects() == old(db).projects(),
        final(db).conversations() == old(db).conversations(),
{
    let id = generate_id();
    let now = current_timestamp();
    let m = Message {
        id,
        conversation_id: input.conversation_id,
        role: input.role,
        content: input.content,
        metadata: input.metadata,
        created_at: now,
    };
    match insert_message_row(&mut db.conn, &m) {
        Ok(_) => Ok(m),
        Err(e) => Err(StoreError::Database(e)),
    }
}

/// Lists the messages of a conversation, ordered by creation time ascending.
pub fn get_conversation_messages(db: &Database, conversation_id: String) -> (r: Result<
    Vec<Message>,
    StoreError,
>)
    requires
        db.wf(),
    ensures
        r matches Ok(v) ==> listing_post(db.messages(), conversation_id@, v@),
        r matches Err(e) ==> e is Database,
{
    match query_message_rows(&db.conn, &conversation_id) {
        Ok(v) => Ok(v),
        Err(e) => Err(StoreError::Database(e)),
    }
}

/// `s` is ordered by creation time, strictly increasing: no two rows share a
/// timestamp.
pub open spec fn messages_strictly_increasing(s: Seq<Message>) -> bool {
    forall|i: int, j: int|
        0 <= i < j < s.len() ==> #[trigger] lex_lt(s[i].created_at@, s[j].created_at@)
}

/// Immediately after a successful create, a lookup of the new project's id
/// can never report `NotFound`, and any row it returns is the created entity
/// itself: the create showed the id fresh, so the new row is the only one
/// carrying it.
pub proof fn law_get_after_create(
    before: Seq<Project>,
    after: Seq<Project>,
    p: Project,
    r: Result<Project, StoreError>,
)
    requires
        after == before.push(p),
        !has_project_id(before, p.id@),
        get_project_post(after, p.id@, r),
    ensures
        !(r matches Err(e) && e is NotFound),
        r matches Ok(q) ==> q == p,
{
    assert(after[before.len() as int] == p);
    assert(has_project_id(after, p.id@));
    match r {
        Ok(q) => {
            assert(after.contains(q));
            let i = choose|i: int| 0 <= i < after.len() && after[i] == q;
            if i < before.len() {
                assert(before[i] == q);
                assert(has_project_id(before, p.id@));
            }
            assert(q == p);
        },
        Err(_) => {},
    }
}

/// Deleting an id that no row carries succeeds without touching the table:
/// removing exactly the rows that carry the id removes nothing.
pub proof fn law_delete_missing_id_changes_nothing(rows: Seq<Project>, id: Seq<char>)
    requires
        !has_project_id(rows, id),
    ensures
        without_project_id(rows, id) =~= rows,
    decreases rows.len(),
{
    reveal(Seq::filter);
    if rows.len() > 0 {
        assert(rows[rows.len() - 1].id@ != id);
        assert forall|i: int| 0 <= i < rows.drop_last().len() implies #[trigger] rows.drop_last()[i].id@
            != id by {
            assert(rows.drop_last()[i] == rows[i]);
        }
        law_delete_missing_id_changes_nothing(rows.drop_last(), id);
        assert(without_project_id(rows, id) == without_project_id(rows.drop_last(), id).push(
            rows.last(),
        ));
        assert(rows =~= rows.drop_last().push(rows.last()));
    }
}

/// In a listing ordered most recently updated first, a project strictly more
/// recently updated than another appears before it.
pub proof fn law_listing_orders_by_recency(s: Seq<Project>, a: int, b: int)
    requires
        projects_by_recency(s),
        0 <= a < s.len(),
        0 <= b < s.len(),
        lex_lt(s[b].updated_at@, s[a].updated_at@),
    ensures
        a < b,
{
    if a == b {
        lemma_lex_leq_reflexive(s[a].updated_at@);
    } else if b < a {
        assert(lex_leq(s[a].updated_at@, s[b].updated_at@));
    }
}

/// A creation-time-ordered sequence holding the same rows as a sequence with
/// strictly increasing timestamps is that sequence: with no timestamp shared,
/// the order leaves no room.
proof fn lemma_time_ordered_permutation_unique(x: Seq<Message>, y: Seq<Message>)
    requires
        messages_in_time_order(x),
        messages_strictly_increasing(y),
        x.to_multiset() == y.to_multiset(),
    ensures
        x =~= y,
    decreases x.len(),
{
    broadcast use vstd::seq_lib::group_to_multiset_ensures;
    broadcast use vstd::multiset::group_multiset_axioms;

    assert(x.to_multiset().len() == x.len());
    assert(y.to_multiset().len() == y.len());
    if x.len() > 0 {
        assert(x.contains(x[0]));
        assert(y.to_multiset().count(x[0]) > 0);
        assert(y.contains(x[0]));
        let j = choose|j: int| 0 <= j < y.len() && y[j] == x[0];
        assert(y.contains(y[0]));
        assert(x.to_multiset().count(y[0]) > 0);
        assert(x.contains(y[0]));
        let i = choose|i: int| 0 <= i < x.len() && x[i] == y[0];
        if j != 0 {
            if i == 0 {
                assert(lex_lt(y[0].created_at@, y[j].created_at@));
                lemma_lex_leq_reflexive(y[0].created_at@);
            } else {
                assert(lex_leq(x[0].created_at@, x[i].created_at@));
                assert(lex_lt(y[0].created_at@, y[j].created_at@));
            }
            assert(false);
        }
        assert(y[0] == x[0]);
        assert(x.drop_first() =~= x.remove(0));
        assert(y.drop_first() =~= y.remove(0));
        assert(x.remove(0).to_multiset() =~= x.to_multiset().remove(x[0]));
        assert(y.remove(0).to_multiset() =~= y.to_multiset().remove(y[0]));
        assert(x.drop_first().to_multiset() == y.drop_first().to_multiset());
        assert forall|a: int, b: int| 0 <= a < b < x.drop_first().len() implies #[trigger] lex_leq(
            x.drop_first()[a].created_at@,
            x.drop_first()[b].created_at@,
        ) by {
            assert(x.drop_first()[a] == x[a + 1]);
            assert(x.drop_first()[b] == x[b + 1]);
        }
        assert forall|a: int, b: int| 0 <= a < b < y.drop_first().len() implies #[trigger] lex_lt(
            y.drop_first()[a].created_at@,
            y.drop_first()[b].created_at@,
        ) by {
            assert(y.drop_first()[a] == y[a + 1]);
            assert(y.drop_first()[b] == y[b + 1]);
        }
        lemma_time_ordered_permutation_unique(x.drop_first(), y.drop_first());
        assert forall|k: int| 0 <= k < x.len() implies x[k] == y[k] by {
            if k > 0 {
                assert(x.drop_first()[k - 1] == y.drop_first()[k - 1]);
            }
        }
    }
}

/// When no two messages of a conversation share a timestamp, a listing of
/// that conversation returns exactly its rows in insertion order: the
/// creation-time order the listing promises matches the order the rows were
/// appended in. (With a shared timestamp the database pins no order among the
/// tied rows, so nothing more is promised there.)
pub proof fn law_listing_matches_insertion_order(
    all: Seq<Message>,
    cid: Seq<char>,
    out: Seq<Message>,
)
    requires
        listing_post(all, cid, out),
        messages_strictly_increasing(conversation_messages(all, cid)),
    ensures
        out =~= conversation_messages(all, cid),
{
    lemma_time_ordered_permutation_unique(out, conversation_messages(all, cid));
}

} // verus!
