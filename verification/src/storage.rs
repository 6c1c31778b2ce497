//! The message store: contacts, groups and messages in an SQLite database.
//!
//! The database file may be open in other processes too. So the contracts say which
//! statements are handed to SQLite, with which arguments and in which order, what holds
//! of every answer, and what is made of the answer that came.

use vstd::prelude::*;
use vstd::string::*;
use vstd::utf8::encode_utf8;

use crate::text::{chars_of, join3};

verus! {

/// A person that messages are exchanged with.
#[derive(Debug, Clone)]
pub struct Contact {
    pub uuid: String,
    pub phone: Option<String>,
    pub name: Option<String>,
}

/// What a contact says.
pub struct ContactView {
    pub uuid: Seq<char>,
    pub phone: Option<Seq<char>>,
    pub name: Option<Seq<char>>,
}

impl View for Contact {
    type V = ContactView;

    open spec fn view(&self) -> ContactView {
        ContactView {
            uuid: self.uuid@,
            phone: self.phone.deep_view(),
            name: self.name.deep_view(),
        }
    }
}

impl DeepView for Contact {
    type V = ContactView;

    open spec fn deep_view(&self) -> ContactView {
        self@
    }
}

/// A group that messages can be sent to.
#[derive(Debug, Clone)]
pub struct Group {
    /// The base64 text of the group's master key.
    pub id: String,
    pub name: Option<String>,
    pub members_count: usize,
}

/// What a group says.
pub struct GroupView {
    pub id: Seq<char>,
    pub name: Option<Seq<char>>,
    pub members_count: usize,
}

impl View for Group {
    type V = GroupView;

    open spec fn view(&self) -> GroupView {
        GroupView {
            id: self.id@,
            name: self.name.deep_view(),
            members_count: self.members_count,
        }
    }
}

impl DeepView for Group {
    type V = GroupView;

    open spec fn deep_view(&self) -> GroupView {
        self@
    }
}

/// A message that was sent or received.
#[derive(Debug, Clone)]
pub struct Message {
    /// Assigned by the database.
    pub id: i64,
    pub contact_uuid: String,
    /// `in` or `out`.
    pub direction: String,
    pub body: String,
    /// Unix time in milliseconds.
    pub timestamp: i64,
}

/// What a message says.
pub struct MessageView {
    pub id: i64,
    pub contact_uuid: Seq<char>,
    pub direction: Seq<char>,
    pub body: Seq<char>,
    pub timestamp: i64,
}

impl View for Message {
    type V = MessageView;

    open spec fn view(&self) -> MessageView {
        MessageView {
            id: self.id,
            contact_uuid: self.contact_uuid@,
            direction: self.direction@,
            body: self.body@,
            timestamp: self.timestamp,
        }
    }
}

impl DeepView for Message {
    type V = MessageView;

    open spec fn deep_view(&self) -> MessageView {
        self@
    }
}

/// A contact with the last message exchanged.
#[derive(Debug, Clone)]
pub struct Conversation {
    pub contact: Contact,
    pub last_message: String,
    pub last_timestamp: i64,
    pub unread_count: i64,
}

/// What a conversation says.
pub struct ConversationView {
    pub contact: ContactView,
    pub last_message: Seq<char>,
    pub last_timestamp: i64,
    pub unread_count: i64,
}

impl View for Conversation {
    type V = ConversationView;

    open spec fn view(&self) -> ConversationView {
        ConversationView {
            contact: self.contact@,
            last_message: self.last_message@,
            last_timestamp: self.last_timestamp,
            unread_count: self.unread_count,
        }
    }
}

impl DeepView for Conversation {
    type V = ConversationView;

    open spec fn deep_view(&self) -> ConversationView {
        self@
    }
}

/// The database did not do what it was asked.
#[derive(Debug)]
pub struct StorageError {
    pub message: String,
}

impl View for StorageError {
    type V = Seq<char>;

    open spec fn view(&self) -> Seq<char> {
        self.message@
    }
}

/// `rusqlite::Connection`.
#[verifier::external_type_specification]
#[verifier::external_body]
pub struct ExConnection(rusqlite::Connection);

/// `rusqlite::Error`.
#[verifier::external_type_specification]
#[verifier::external_body]
pub struct ExSqlError(rusqlite::Error);

/// A statement as it is handed to SQLite: its text, and what its parameters `?1`, `?2`
/// and so on stand for, the texts first and then the numbers.
pub struct Statement {
    pub sql: Seq<char>,
    pub texts: Seq<Option<Seq<char>>>,
    pub numbers: Seq<i64>,
}

/// What a statement was answered.
pub enum Answer {
    /// It was done.
    Done,
    Contacts(Seq<ContactView>),
    Groups(Seq<GroupView>),
    Messages(Seq<MessageView>),
    Conversations(Seq<ConversationView>),
    /// The text in the first column of the first row.
    Text(Seq<char>),
    /// There was no such text.
    NoText,
    Failed(rusqlite::Error),
}

/// A statement with its answer.
pub struct Exchange {
    pub asked: Statement,
    pub answer: Answer,
}

/// The statements that were handed to SQLite over a connection and their answers, in
/// order.
pub uninterp spec fn transcript(conn: rusqlite::Connection) -> Seq<Exchange>;

/// Whether a connection is one to the database file with the given path.
pub uninterp spec fn opened_at(conn: rusqlite::Connection, path: &std::path::Path) -> bool;

/// Whether opening the database file with the given path was refused with an error.
pub uninterp spec fn open_refused(path: &std::path::Path, cause: rusqlite::Error) -> bool;

/// The row that was last inserted over a connection.
pub uninterp spec fn last_row(conn: rusqlite::Connection) -> i64;

/// The message of an error.
pub uninterp spec fn error_message(error: rusqlite::Error) -> Seq<char>;

/// A statement, from the values that are handed over.
pub open spec fn statement(sql: &str, texts: Seq<Option<String>>, numbers: Seq<i64>) -> Statement {
    Statement { sql: sql@, texts: texts.map_values(|t: Option<String>| t.deep_view()), numbers }
}

/// `rusqlite::Connection::open`: a connection to the database file with that path, over
/// which nothing was asked yet, or why it was refused. Whether it is refused, and with
/// which error, rests on the machine.
#[verifier::external_body]
fn open_connection(path: &std::path::Path) -> (r: Result<rusqlite::Connection, rusqlite::Error>)
    ensures
        r matches Ok(conn) ==> opened_at(conn, path) && transcript(conn)
            == Seq::<Exchange>::empty(),
        r matches Err(cause) ==> open_refused(path, cause),
{
    rusqlite::Connection::open(path)
}

/// `rusqlite::Connection::execute_batch`: hands a text of several statements over.
#[verifier::external_body]
fn execute_batch(conn: &mut rusqlite::Connection, sql: &str) -> (r: Result<(), rusqlite::Error>)
    ensures
        forall|p: &std::path::Path| #[trigger]
            opened_at(*final(conn), p) == opened_at(*old(conn), p),
        transcript(*final(conn)) == transcript(*old(conn)).push(
            Exchange {
                asked: statement(sql, Seq::empty(), Seq::empty()),
                answer: match r {
                    Ok(_) => Answer::Done,
                    Err(e) => Answer::Failed(e),
                },
            },
        ),
{
    conn.execute_batch(sql)
}

/// `rusqlite::Connection::execute`: hands one statement over, with its arguments. How
/// many rows it changed is left unsaid.
#[verifier::external_body]
fn execute(
    conn: &mut rusqlite::Connection,
    sql: &str,
    texts: &Vec<Option<String>>,
    numbers: &Vec<i64>,
) -> (r: Result<usize, rusqlite::Error>)
    ensures
        forall|p: &std::path::Path| #[trigger]
            opened_at(*final(conn), p) == opened_at(*old(conn), p),
        transcript(*final(conn)) == transcript(*old(conn)).push(
            Exchange {
                asked: statement(sql, texts@, numbers@),
                answer: match r {
                    Ok(_) => Answer::Done,
                    Err(e) => Answer::Failed(e),
                },
            },
        ),
{
    let texts = texts.iter().map(|t| t as &dyn rusqlite::ToSql);
    let numbers = numbers.iter().map(|n| n as &dyn rusqlite::ToSql);
    let arguments: Vec<&dyn rusqlite::ToSql> = texts.chain(numbers).collect();
    conn.execute(sql, arguments.as_slice())
}

/// `rusqlite::Connection::last_insert_rowid`: the row that was last inserted over this
/// connection.
#[verifier::external_body]
fn last_insert_rowid(conn: &rusqlite::Connection) -> (r: i64)
    ensures
        r == last_row(*conn),
{
    conn.last_insert_rowid()
}

/// `rusqlite::Connection::prepare` and `rusqlite::Statement::query_map`, with a row's
/// first three columns as a contact: hands a query over, with its arguments. Which rows
/// come back rests on the database.
#[verifier::external_body]
fn query_contacts(
    conn: &mut rusqlite::Connection,
    sql: &str,
    texts: &Vec<Option<String>>,
) -> (r: Result<Vec<Contact>, rusqlite::Error>)
    ensures
        forall|p: &std::path::Path| #[trigger]
            opened_at(*final(conn), p) == opened_at(*old(conn), p),
        transcript(*final(conn)) == transcript(*old(conn)).push(
            Exchange {
                asked: statement(sql, texts@, Seq::empty()),
                answer: match r {
                    Ok(rows) => Answer::Contacts(rows.deep_view()),
                    Err(e) => Answer::Failed(e),
                },
            },
        ),
{
    let mut stmt = conn.prepare(sql)?;
    let rows = stmt.query_map(rusqlite::params_from_iter(texts), |row| {
        Ok(Contact { uuid: row.get(0)?, phone: row.get(1)?, name: row.get(2)? })
    })?;
    rows.collect()
}

/// `rusqlite::Connection::prepare` and `rusqlite::Statement::query_map`, with a row's
/// first three columns as a group: hands a query over, with its arguments. Which rows
/// come back rests on the database.
#[verifier::external_body]
fn query_groups(
    conn: &mut rusqlite::Connection,
    sql: &str,
    texts: &Vec<Option<String>>,
) -> (r: Result<Vec<Group>, rusqlite::Error>)
    ensures
        forall|p: &std::path::Path| #[trigger]
            opened_at(*final(conn), p) == opened_at(*old(conn), p),
        transcript(*final(conn)) == transcript(*old(conn)).push(
            Exchange {
                asked: statement(sql, texts@, Seq::empty()),
                answer: match r {
                    Ok(rows) => Answer::Groups(rows.deep_view()),
                    Err(e) => Answer::Failed(e),
                },
            },
        ),
{
    let mut stmt = conn.prepare(sql)?;
    let rows = stmt.query_map(rusqlite::params_from_iter(texts), |row| {
        Ok(Group { id: row.get(0)?, name: row.get(1)?, members_count: row.get(2)? })
    })?;
    rows.collect()
}

/// Whether messages stand with the latest first.
pub open spec fn latest_first(messages: Seq<MessageView>) -> bool {
    forall|i: int, j: int|
        0 <= i <= j < messages.len() ==> (#[trigger] messages[i]).timestamp >= (
        #[trigger] messages[j]).timestamp
}

/// Whether messages stand in the order of their times.
pub open spec fn in_time_order(messages: Seq<MessageView>) -> bool {
    forall|i: int, j: int|
        0 <= i <= j < messages.len() ==> (#[trigger] messages[i]).timestamp <= (
        #[trigger] messages[j]).timestamp
}

/// Whether all messages are from before a time.
pub open spec fn all_before(messages: Seq<MessageView>, time: i64) -> bool {
    forall|i: int| 0 <= i < messages.len() ==> (#[trigger] messages[i]).timestamp < time
}

/// Whether conversations stand with the latest first.
pub open spec fn recent_first(conversations: Seq<ConversationView>) -> bool {
    forall|i: int, j: int|
        0 <= i <= j < conversations.len() ==> (#[trigger] conversations[i]).last_timestamp >= (
        #[trigger] conversations[j]).last_timestamp
}

/// Whether a number of rows keeps to a limit; a negative limit is none.
pub open spec fn within(count: nat, limit: i64) -> bool {
    limit >= 0 ==> count <= limit
}

/// `rusqlite::Connection::prepare` and `rusqlite::Statement::query_map`, with a row's
/// first five columns as a message: hands a query over, with its arguments. Which rows
/// come back rests on the database; those of `SELECT_MESSAGES` come ordered by falling
/// time and no more than its limit, by its `ORDER BY` and `LIMIT`, and so do those of
/// `SELECT_MESSAGES_BEFORE`, which are all from before the time asked for. That they are
/// rows of the contact asked for is left unsaid: how its column compares texts is in the
/// file.
#[verifier::external_body]
fn query_messages(
    conn: &mut rusqlite::Connection,
    sql: &str,
    texts: &Vec<Option<String>>,
    numbers: &Vec<i64>,
) -> (r: Result<Vec<Message>, rusqlite::Error>)
    ensures
        forall|p: &std::path::Path| #[trigger]
            opened_at(*final(conn), p) == opened_at(*old(conn), p),
        transcript(*final(conn)) == transcript(*old(conn)).push(
            Exchange {
                asked: statement(sql, texts@, numbers@),
                answer: match r {
                    Ok(rows) => Answer::Messages(rows.deep_view()),
                    Err(e) => Answer::Failed(e),
                },
            },
        ),
        sql@ == SELECT_MESSAGES@ && texts@.len() == 1 && numbers@.len() == 1 ==> (r matches Ok(rows)
            ==> latest_first(rows.deep_view()) && within(rows@.len(), numbers@[0])),
        sql@ == SELECT_MESSAGES_BEFORE@ && texts@.len() == 1 && numbers@.len() == 2 ==> (
        r matches Ok(rows) ==> latest_first(rows.deep_view()) && within(rows@.len(), numbers@[1])
            && all_before(rows.deep_view(), numbers@[0])),
{
    let texts = texts.iter().map(|t| t as &dyn rusqlite::ToSql);
    let numbers = numbers.iter().map(|n| n as &dyn rusqlite::ToSql);
    let arguments: Vec<&dyn rusqlite::ToSql> = texts.chain(numbers).collect();
    let mut stmt = conn.prepare(sql)?;
    let rows = stmt.query_map(arguments.as_slice(), |row| {
        let (id, contact_uuid, direction) = (row.get(0)?, row.get(1)?, row.get(2)?);
        Ok(Message { id, contact_uuid, direction, body: row.get(3)?, timestamp: row.get(4)? })
    })?;
    rows.collect()
}

/// `rusqlite::Connection::prepare` and `rusqlite::Statement::query_map`, with a row's
/// first six columns as a conversation: hands a query over, with its arguments. Which
/// rows come back rests on the database; those of `SELECT_CONVERSATIONS` come ordered by
/// falling time and no more than its limit, by its `ORDER BY` and `LIMIT`.
#[verifier::external_body]
fn query_conversations(
    conn: &mut rusqlite::Connection,
    sql: &str,
    numbers: &Vec<i64>,
) -> (r: Result<Vec<Conversation>, rusqlite::Error>)
    ensures
        forall|p: &std::path::Path| #[trigger]
            opened_at(*final(conn), p) == opened_at(*old(conn), p),
        transcript(*final(conn)) == transcript(*old(conn)).push(
            Exchange {
                asked: statement(sql, Seq::empty(), numbers@),
                answer: match r {
                    Ok(rows) => Answer::Conversations(rows.deep_view()),
                    Err(e) => Answer::Failed(e),
                },
            },
        ),
        sql@ == SELECT_CONVERSATIONS@ && numbers@.len() == 1 ==> (r matches Ok(rows)
            ==> recent_first(rows.deep_view()) && within(rows@.len(), numbers@[0])),
{
    let mut stmt = conn.prepare(sql)?;
    let rows = stmt.query_map(rusqlite::params_from_iter(numbers), |row| {
        let contact = Contact { uuid: row.get(0)?, phone: row.get(1)?, name: row.get(2)? };
        let (last_message, last_timestamp) = (row.get(3)?, row.get(4)?);
        Ok(Conversation { contact, last_message, last_timestamp, unread_count: row.get(5)? })
    })?;
    rows.collect()
}

/// `rusqlite::Connection::prepare` and `rusqlite::Statement::query_row`, with a row's
/// first column as a text: hands a query over, with its arguments. The outer error is
/// that of `prepare`; the inner one says that no row came, that it held no text, or that
/// running the query failed. Which row comes back rests on the database.
#[verifier::external_body]
fn query_text(
    conn: &mut rusqlite::Connection,
    sql: &str,
    texts: &Vec<Option<String>>,
) -> (r: Result<Result<String, rusqlite::Error>, rusqlite::Error>)
    ensures
        forall|p: &std::path::Path| #[trigger]
            opened_at(*final(conn), p) == opened_at(*old(conn), p),
        transcript(*final(conn)) == transcript(*old(conn)).push(
            Exchange {
                asked: statement(sql, texts@, Seq::empty()),
                answer: match r {
                    Ok(Ok(text)) => Answer::Text(text@),
                    Ok(Err(_)) => Answer::NoText,
                    Err(e) => Answer::Failed(e),
                },
            },
        ),
{
    let mut stmt = conn.prepare(sql)?;
    Ok(stmt.query_row(rusqlite::params_from_iter(texts), |row| row.get(0)))
}

/// `rusqlite::Error::to_string`: the message of an error.
#[verifier::external_body]
fn sql_error_text(error: &rusqlite::Error) -> (r: String)
    ensures
        r@ == error_message(*error),
{
    error.to_string()
}

/// The tables and indexes.
pub const SCHEMA: &'static str = "
    CREATE TABLE IF NOT EXISTS contacts (
        uuid TEXT PRIMARY KEY,
        phone TEXT,
        name TEXT,
        updated_at INTEGER
    );

    CREATE TABLE IF NOT EXISTS messages (
        id INTEGER PRIMARY KEY,
        contact_uuid TEXT NOT NULL,
        direction TEXT NOT NULL,
        body TEXT,
        timestamp INTEGER NOT NULL,
        read INTEGER DEFAULT 0,
        FOREIGN KEY (contact_uuid) REFERENCES contacts(uuid)
    );

    CREATE TABLE IF NOT EXISTS groups (
        id TEXT PRIMARY KEY,
        name TEXT,
        members_count INTEGER NOT NULL,
        updated_at INTEGER
    );

    CREATE INDEX IF NOT EXISTS idx_messages_contact
        ON messages(contact_uuid, timestamp);
    CREATE INDEX IF NOT EXISTS idx_messages_timestamp
        ON messages(timestamp);
    CREATE INDEX IF NOT EXISTS idx_contacts_phone
        ON contacts(phone);
    CREATE INDEX IF NOT EXISTS idx_contacts_name
        ON contacts(name);
    ";

/// Adds a contact; of one that is there, what the new one does not know stays.
pub const UPSERT_CONTACT: &'static str = "INSERT INTO contacts (uuid, phone, name, updated_at)
    VALUES (?1, ?2, ?3, strftime('%s', 'now'))
    ON CONFLICT(uuid) DO UPDATE SET
        phone = COALESCE(?2, phone),
        name = COALESCE(?3, name),
        updated_at = strftime('%s', 'now')";

/// Adds a group; of one that is there, a name that the new one does not know stays.
pub const UPSERT_GROUP: &'static str = "INSERT INTO groups (id, name, members_count, updated_at)
    VALUES (?1, ?2, ?3, strftime('%s', 'now'))
    ON CONFLICT(id) DO UPDATE SET
        name = COALESCE(?2, name),
        members_count = ?3,
        updated_at = strftime('%s', 'now')";

/// Adds a message.
pub const INSERT_MESSAGE: &'static str = "INSERT INTO messages
        (contact_uuid, direction, body, timestamp)
    VALUES (?1, ?2, ?3, ?4)";

/// All contacts.
pub const SELECT_CONTACTS: &'static str = "SELECT uuid, phone, name FROM contacts ORDER BY name";

/// The contacts whose name or phone number matches a pattern.
pub const SELECT_MATCHING_CONTACTS: &'static str = "SELECT uuid, phone, name FROM contacts
    WHERE name LIKE ?1 OR phone LIKE ?1
    ORDER BY name";

/// All groups.
pub const SELECT_GROUPS: &'static str = "SELECT id, name, members_count FROM groups ORDER BY name";

/// The groups whose name matches a pattern.
pub const SELECT_MATCHING_GROUPS: &'static str = "SELECT id, name, members_count FROM groups
    WHERE name LIKE ?1
    ORDER BY name";

/// The latest messages of a contact.
pub const SELECT_MESSAGES: &'static str = "SELECT id, contact_uuid, direction, body, timestamp
    FROM messages
    WHERE contact_uuid = ?1
    ORDER BY timestamp DESC
    LIMIT ?2";

/// The latest messages of a contact from before a time.
pub const SELECT_MESSAGES_BEFORE: &'static str = "SELECT
        id, contact_uuid, direction, body, timestamp
    FROM messages
    WHERE contact_uuid = ?1 AND timestamp < ?2
    ORDER BY timestamp DESC
    LIMIT ?3";

/// The contacts with their last message, the latest first.
pub const SELECT_CONVERSATIONS: &'static str = "SELECT c.uuid, c.phone, c.name, m.body, m.timestamp,
        (SELECT COUNT(*) FROM messages m2
         WHERE m2.contact_uuid = c.uuid AND m2.direction = 'in' AND m2.read = 0)
    FROM contacts c
    JOIN messages m ON m.contact_uuid = c.uuid
    WHERE m.timestamp = (
        SELECT MAX(timestamp) FROM messages WHERE contact_uuid = c.uuid
    )
    ORDER BY m.timestamp DESC
    LIMIT ?1";

/// The contact with a phone number.
pub const SELECT_BY_PHONE: &'static str = "SELECT uuid FROM contacts WHERE phone = ?1";

/// The contact with a name, in capital or small letters.
pub const SELECT_BY_NAME: &'static str = "SELECT uuid FROM contacts WHERE LOWER(name) = LOWER(?1)";

/// The group with an id or a name, the name in capital or small letters.
pub const SELECT_GROUP: &'static str = "SELECT id FROM groups
    WHERE id = ?1 OR LOWER(name) = LOWER(?1)";

/// The statement that adds a contact.
pub open spec fn upsert_contact_statement(contact: ContactView) -> Statement {
    Statement {
        sql: UPSERT_CONTACT@,
        texts: seq![Some(contact.uuid), contact.phone, contact.name],
        numbers: Seq::empty(),
    }
}

/// The statement that adds a group. A count that the database cannot hold is its largest.
pub open spec fn upsert_group_statement(group: GroupView) -> Statement {
    Statement {
        sql: UPSERT_GROUP@,
        texts: seq![Some(group.id), group.name],
        numbers: seq![
            if group.members_count <= i64::MAX { group.members_count as i64 } else { i64::MAX },
        ],
    }
}

/// The statement that adds a message. Its id is not handed over.
pub open spec fn insert_message_statement(message: MessageView) -> Statement {
    Statement {
        sql: INSERT_MESSAGE@,
        texts: seq![Some(message.contact_uuid), Some(message.direction), Some(message.body)],
        numbers: seq![message.timestamp],
    }
}

/// The pattern that a text anywhere in another matches.
pub open spec fn containing(filter: Seq<char>) -> Seq<char> {
    "%"@ + filter + "%"@
}

/// The query for the contacts that a filter lets through.
pub open spec fn list_contacts_statement(filter: Option<Seq<char>>) -> Statement {
    match filter {
        Some(f) => Statement {
            sql: SELECT_MATCHING_CONTACTS@,
            texts: seq![Some(containing(f))],
            numbers: Seq::empty(),
        },
        None => Statement { sql: SELECT_CONTACTS@, texts: Seq::empty(), numbers: Seq::empty() },
    }
}

/// The query for the groups that a filter lets through.
pub open spec fn list_groups_statement(filter: Option<Seq<char>>) -> Statement {
    match filter {
        Some(f) => Statement {
            sql: SELECT_MATCHING_GROUPS@,
            texts: seq![Some(containing(f))],
            numbers: Seq::empty(),
        },
        None => Statement { sql: SELECT_GROUPS@, texts: Seq::empty(), numbers: Seq::empty() },
    }
}

/// The query for the latest messages of a contact.
pub open spec fn get_messages_statement(contact_uuid: Seq<char>, limit: i64) -> Statement {
    Statement { sql: SELECT_MESSAGES@, texts: seq![Some(contact_uuid)], numbers: seq![limit] }
}

/// The query for the latest messages of a contact from before a time.
pub open spec fn get_messages_before_statement(
    contact_uuid: Seq<char>,
    before: i64,
    limit: i64,
) -> Statement {
    Statement {
        sql: SELECT_MESSAGES_BEFORE@,
        texts: seq![Some(contact_uuid)],
        numbers: seq![before, limit],
    }
}

/// The query for the latest conversations.
pub open spec fn get_conversations_statement(limit: i64) -> Statement {
    Statement { sql: SELECT_CONVERSATIONS@, texts: Seq::empty(), numbers: seq![limit] }
}

/// A query for what belongs to one text.
pub open spec fn lookup_statement(sql: Seq<char>, key: Seq<char>) -> Statement {
    Statement { sql, texts: seq![Some(key)], numbers: Seq::empty() }
}

/// Whether exactly one statement was handed over in between.
pub open spec fn asked_once(before: Seq<Exchange>, after: Seq<Exchange>, asked: Statement) -> bool {
    after == before.push(Exchange { asked, answer: after.last().answer })
}

/// The message of an answer that reports a failure.
pub open spec fn failure(answer: Answer) -> Seq<char> {
    match answer {
        Answer::Failed(e) => error_message(e),
        _ => Seq::empty(),
    }
}

/// Whether an answer says that a statement was done.
pub open spec fn done_of(answer: Answer) -> Result<(), Seq<char>> {
    match answer {
        Answer::Done => Ok(()),
        _ => Err(failure(answer)),
    }
}

/// The contacts of an answer.
pub open spec fn contacts_of(answer: Answer) -> Result<Seq<ContactView>, Seq<char>> {
    match answer {
        Answer::Contacts(rows) => Ok(rows),
        _ => Err(failure(answer)),
    }
}

/// The groups of an answer.
pub open spec fn groups_of(answer: Answer) -> Result<Seq<GroupView>, Seq<char>> {
    match answer {
        Answer::Groups(rows) => Ok(rows),
        _ => Err(failure(answer)),
    }
}

/// The messages of an answer, in the reverse of the order in which they came.
pub open spec fn messages_of(answer: Answer) -> Result<Seq<MessageView>, Seq<char>> {
    match answer {
        Answer::Messages(rows) => Ok(rows.reverse()),
        _ => Err(failure(answer)),
    }
}

/// The conversations of an answer.
pub open spec fn conversations_of(answer: Answer) -> Result<Seq<ConversationView>, Seq<char>> {
    match answer {
        Answer::Conversations(rows) => Ok(rows),
        _ => Err(failure(answer)),
    }
}

/// What a lookup found.
pub enum LookupView {
    Found(Seq<char>),
    NotFound,
    Failed(Seq<char>),
}

/// What an answer to a lookup found.
pub open spec fn lookup_of(answer: Answer) -> LookupView {
    match answer {
        Answer::Text(text) => LookupView::Found(text),
        Answer::NoText => LookupView::NotFound,
        _ => LookupView::Failed(failure(answer)),
    }
}

/// What a result without a value says.
pub open spec fn done_view(r: Result<(), StorageError>) -> Result<(), Seq<char>> {
    match r {
        Ok(_) => Ok(()),
        Err(e) => Err(e@),
    }
}

/// What a result with rows says.
pub open spec fn rows_view<T: DeepView>(r: Result<Vec<T>, StorageError>) -> Result<
    Seq<T::V>,
    Seq<char>,
> {
    match r {
        Ok(rows) => Ok(rows.deep_view()),
        Err(e) => Err(e@),
    }
}

/// The outcome of a search: what was found, if anything, or why the search failed.
pub type Search = Result<Option<String>, StorageError>;

/// What an outcome of a search says.
pub open spec fn search_view(search: Search) -> LookupView {
    match search {
        Ok(Some(s)) => LookupView::Found(s@),
        Ok(None) => LookupView::NotFound,
        Err(e) => LookupView::Failed(e@),
    }
}

/// How often a character occurs in a text.
pub open spec fn occurrences(s: Seq<char>, c: char) -> nat
    decreases s.len(),
{
    if s.len() == 0 {
        0
    } else {
        occurrences(s.drop_last(), c) + (if s.last() == c { 1nat } else { 0nat })
    }
}

/// Whether a recipient has the form of a UUID: 36 bytes, four of them dashes.
pub open spec fn has_uuid_form(recipient: Seq<char>) -> bool {
    encode_utf8(recipient).len() == 36 && occurrences(recipient, '-') == 4
}

/// Whether a recipient has the form of a phone number.
pub open spec fn has_phone_form(recipient: Seq<char>) -> bool {
    recipient.len() > 0 && recipient[0] == '+'
}

/// What a recipient stands for, once what its phone number and its name belong to is
/// known. A UUID stands for itself; a phone number is looked up before a name.
pub open spec fn resolved(
    recipient: Seq<char>,
    by_phone: LookupView,
    by_name: LookupView,
) -> LookupView {
    if has_uuid_form(recipient) {
        LookupView::Found(recipient)
    } else if has_phone_form(recipient) && !(by_phone is NotFound) {
        by_phone
    } else {
        by_name
    }
}

/// The exchanges that it takes to find out what a recipient stands for, once the
/// answers to the query by phone number and to that by name are known.
pub open spec fn resolve_exchanges(recipient: Seq<char>, by_phone: Answer, by_name: Answer) -> Seq<
    Exchange,
> {
    let phone = Exchange {
        asked: lookup_statement(SELECT_BY_PHONE@, recipient),
        answer: by_phone,
    };
    let name = Exchange { asked: lookup_statement(SELECT_BY_NAME@, recipient), answer: by_name };
    if has_uuid_form(recipient) {
        Seq::empty()
    } else if has_phone_form(recipient) {
        if lookup_of(by_phone) is NotFound {
            seq![phone, name]
        } else {
            seq![phone]
        }
    } else {
        seq![name]
    }
}

/// Whether a search for a recipient was carried out between two states of the store,
/// with the given outcome.
pub open spec fn resolve_ran(
    before: Seq<Exchange>,
    after: Seq<Exchange>,
    recipient: Seq<char>,
    outcome: LookupView,
) -> bool {
    exists|by_phone: Answer, by_name: Answer|
        {
            &&& after == before + #[trigger] resolve_exchanges(recipient, by_phone, by_name)
            &&& outcome == resolved(recipient, lookup_of(by_phone), lookup_of(by_name))
        }
}

/// Whether a statement only reads.
pub open spec fn is_query(asked: Statement) -> bool {
    ||| asked.sql == SELECT_CONTACTS@
    ||| asked.sql == SELECT_MATCHING_CONTACTS@
    ||| asked.sql == SELECT_GROUPS@
    ||| asked.sql == SELECT_MATCHING_GROUPS@
    ||| asked.sql == SELECT_MESSAGES@
    ||| asked.sql == SELECT_MESSAGES_BEFORE@
    ||| asked.sql == SELECT_CONVERSATIONS@
    ||| asked.sql == SELECT_BY_PHONE@
    ||| asked.sql == SELECT_BY_NAME@
    ||| asked.sql == SELECT_GROUP@
}

/// Whether nothing but queries was handed over between two states of the store.
pub open spec fn only_read(before: Seq<Exchange>, after: Seq<Exchange>) -> bool {
    &&& before.len() <= after.len()
    &&& after.take(before.len() as int) == before
    &&& forall|i: int| before.len() <= i < after.len() ==> is_query((#[trigger] after[i]).asked)
}

/// One more query after others.
pub proof fn reading_once_more(
    before: Seq<Exchange>,
    middle: Seq<Exchange>,
    after: Seq<Exchange>,
    asked: Statement,
)
    requires
        only_read(before, middle),
        asked_once(middle, after, asked),
        is_query(asked),
    ensures
        only_read(before, after),
{
    assert(after.take(before.len() as int) =~= middle.take(before.len() as int));
    assert forall|i: int| before.len() <= i < after.len() implies is_query(
        (#[trigger] after[i]).asked,
    ) by {
        if i < middle.len() {
            assert(after[i] == middle[i]);
        }
    }
}

/// Finding out who a recipient is only reads.
pub proof fn resolving_only_reads(
    before: Seq<Exchange>,
    after: Seq<Exchange>,
    recipient: Seq<char>,
    outcome: LookupView,
)
    requires
        resolve_ran(before, after, recipient, outcome),
    ensures
        only_read(before, after),
{
    let (by_phone, by_name) = choose|by_phone: Answer, by_name: Answer|
        {
            &&& after == before + #[trigger] resolve_exchanges(recipient, by_phone, by_name)
            &&& outcome == resolved(recipient, lookup_of(by_phone), lookup_of(by_name))
        };
    let more = resolve_exchanges(recipient, by_phone, by_name);
    assert(after.take(before.len() as int) =~= before);
    assert forall|i: int| before.len() <= i < after.len() implies is_query(
        (#[trigger] after[i]).asked,
    ) by {
        assert(after[i] == more[i - before.len()]);
    }
}

/// Whether a recipient has the form of a UUID.
pub fn is_uuid_form(recipient: &str) -> (r: bool)
    ensures
        r == has_uuid_form(recipient@),
{
    let chars = chars_of(recipient);
    let mut dashes: usize = 0;
    let mut i: usize = 0;
    assert(chars@.take(0).len() == 0);
    while i < chars.len()
        invariant
            i <= chars.len(),
            dashes <= i,
            dashes == occurrences(chars@.take(i as int), '-'),
        decreases chars.len() - i,
    {
        proof {
            assert(chars@.take(i + 1).drop_last() == chars@.take(i as int));
        }
        if chars[i] == '-' {
            dashes = dashes + 1;
        }
        i = i + 1;
    }
    assert(chars@.take(i as int) == chars@);
    recipient.as_bytes().len() == 36 && dashes == 4
}

/// Whether a recipient has the form of a phone number.
pub fn is_phone_form(recipient: &str) -> (r: bool)
    ensures
        r == has_phone_form(recipient@),
{
    !recipient.is_empty() && recipient.get_char(0) == '+'
}

/// Rows that came with the latest first, turned to the order of their times.
pub fn chronological(rows: Vec<Message>) -> (r: Vec<Message>)
    ensures
        r.deep_view() == rows.deep_view().reverse(),
        latest_first(rows.deep_view()) ==> in_time_order(r.deep_view()),
{
    let mut rest = rows;
    let mut r: Vec<Message> = Vec::new();
    while rest.len() > 0
        invariant
            rest.len() + r.len() == rows.len(),
            rest@ == rows@.take(rest.len() as int),
            r@ == rows@.skip(rest.len() as int).reverse(),
        decreases rest.len(),
    {
        let ghost n = rest.len() as int;
        match rest.pop() {
            Some(message) => {
                r.push(message);
                assert(rows@.skip(n - 1).reverse() == rows@.skip(n).reverse().push(message));
            },
            None => {},
        }
    }
    assert(rows@.skip(0) == rows@);
    assert(r.deep_view() =~= rows.deep_view().reverse());
    r
}

/// The pattern that a text anywhere in another matches.
fn containing_pattern(filter: &str) -> (r: String)
    ensures
        r@ == containing(filter@),
{
    join3("%", filter, "%")
}

/// The error that `rusqlite` reports, as the store's own.
fn storage_error(error: rusqlite::Error) -> (r: StorageError)
    ensures
        r@ == error_message(error),
{
    StorageError { message: sql_error_text(&error) }
}

/// One text argument.
fn one_text(text: &str) -> (r: Vec<Option<String>>)
    ensures
        r@.map_values(|t: Option<String>| t.deep_view()) == seq![Some(text@)],
{
    let mut r: Vec<Option<String>> = Vec::new();
    r.push(Some(text.to_owned()));
    assert(r@.map_values(|t: Option<String>| t.deep_view()) =~= seq![Some(text@)]);
    r
}

/// One number argument.
fn one_number(number: i64) -> (r: Vec<i64>)
    ensures
        r@ == seq![number],
{
    let mut r: Vec<i64> = Vec::new();
    r.push(number);
    r
}

/// That the tables and indexes were made.
pub open spec fn schema_made() -> Exchange {
    Exchange {
        asked: Statement { sql: SCHEMA@, texts: Seq::empty(), numbers: Seq::empty() },
        answer: Answer::Done,
    }
}

/// That the tables and indexes could not be made, and why.
pub open spec fn schema_refused(cause: rusqlite::Error) -> Exchange {
    Exchange { asked: schema_made().asked, answer: Answer::Failed(cause) }
}

/// Whether making the tables and indexes, and nothing else, was tried after the given
/// exchanges and failed.
pub open spec fn schema_failed(before: Seq<Exchange>, cause: rusqlite::Error) -> bool {
    exists|conn: rusqlite::Connection| #[trigger]
        transcript(conn) == before.push(schema_refused(cause))
}

/// Whether a store is still in the file that it was in.
pub open spec fn same_file(before: Storage, after: Storage) -> bool {
    forall|path: &std::path::Path| #[trigger] after.is_at(path) == before.is_at(path)
}

/// The message store.
pub struct Storage {
    conn: rusqlite::Connection,
}

impl Storage {
    /// The statements that were handed to the database and their answers, in order.
    pub closed spec fn exchanges(self) -> Seq<Exchange> {
        transcript(self.conn)
    }

    /// Whether the store is in the database file with the given path.
    pub closed spec fn is_at(self, path: &std::path::Path) -> bool {
        opened_at(self.conn, path)
    }

    /// The id of the row that was inserted last.
    pub closed spec fn last_row(self) -> i64 {
        last_row(self.conn)
    }

    /// Opens the store in a database file, which is made if it is not there.
    pub fn open(path: &std::path::Path) -> (r: Result<Storage, StorageError>)
        ensures
            match r {
                Ok(storage) => storage.is_at(path) && storage.exchanges() == seq![schema_made()],
                Err(e) => exists|cause: rusqlite::Error|
                    e@ == #[trigger] error_message(cause) && (open_refused(path, cause)
                        || schema_failed(Seq::empty(), cause)),
            },
    {
        Storage::on(open_connection(path))
    }

    /// The store on a connection that was opened, or why there is none.
    pub fn on(connection: Result<rusqlite::Connection, rusqlite::Error>) -> (r: Result<
        Storage,
        StorageError,
    >)
        ensures
            match (connection, r) {
                (Ok(conn), Ok(storage)) => {
                    &&& storage.exchanges() == transcript(conn).push(schema_made())
                    &&& forall|path: &std::path::Path| #[trigger]
                        storage.is_at(path) == opened_at(conn, path)
                },
                (Ok(conn), Err(e)) => exists|cause: rusqlite::Error|
                    e@ == #[trigger] error_message(cause) && schema_failed(
                        transcript(conn),
                        cause,
                    ),
                (Err(cause), Ok(_)) => false,
                (Err(cause), Err(e)) => e@ == error_message(cause),
            },
    {
        match connection {
            Ok(conn) => {
                let mut storage = Storage { conn };
                match storage.init_schema() {
                    Ok(()) => Ok(storage),
                    Err(e) => {
                        proof {
                            let cause = storage.exchanges().last().answer->Failed_0;
                            assert(transcript(storage.conn) == transcript(conn).push(
                                schema_refused(cause),
                            ));
                            assert(schema_failed(transcript(conn), cause));
                        }
                        Err(e)
                    },
                }
            },
            Err(e) => Err(storage_error(e)),
        }
    }

    /// Makes the tables and indexes that are not there.
    fn init_schema(&mut self) -> (r: Result<(), StorageError>)
        ensures
            same_file(*old(self), *final(self)),
            asked_once(
                old(self).exchanges(),
                final(self).exchanges(),
                schema_made().asked,
            ),
            match r {
                Ok(_) => final(self).exchanges().last().answer is Done,
                Err(e) => final(self).exchanges().last().answer matches Answer::Failed(cause) && e@
                    == error_message(cause),
            },
    {
        let r = execute_batch(&mut self.conn, SCHEMA);
        assert(Seq::<Option<String>>::empty().map_values(|t: Option<String>| t.deep_view())
            =~= Seq::empty());
        match r {
            Ok(()) => Ok(()),
            Err(e) => Err(storage_error(e)),
        }
    }

    /// Adds a contact. Of one that is there, what the new one does not know stays.
    pub fn upsert_contact(&mut self, contact: &Contact) -> (r: Result<(), StorageError>)
        ensures
            same_file(*old(self), *final(self)),
            asked_once(
                old(self).exchanges(),
                final(self).exchanges(),
                upsert_contact_statement(contact@),
            ),
            done_view(r) == done_of(final(self).exchanges().last().answer),
    {
        let mut texts: Vec<Option<String>> = Vec::new();
        texts.push(Some(contact.uuid.clone()));
        texts.push(contact.phone.clone());
        texts.push(contact.name.clone());
        let numbers: Vec<i64> = Vec::new();
        assert(texts@.map_values(|t: Option<String>| t.deep_view()) =~= upsert_contact_statement(
            contact@,
        ).texts);
        match execute(&mut self.conn, UPSERT_CONTACT, &texts, &numbers) {
            Ok(_) => Ok(()),
            Err(e) => Err(storage_error(e)),
        }
    }

    /// Adds a group. Of one that is there, a name that the new one does not know stays.
    pub fn upsert_group(&mut self, group: &Group) -> (r: Result<(), StorageError>)
        ensures
            same_file(*old(self), *final(self)),
            asked_once(
                old(self).exchanges(),
                final(self).exchanges(),
                upsert_group_statement(group@),
            ),
            done_view(r) == done_of(final(self).exchanges().last().answer),
    {
        let mut texts: Vec<Option<String>> = Vec::new();
        texts.push(Some(group.id.clone()));
        texts.push(group.name.clone());
        let largest: u64 = i64::MAX as u64;
        let count: u64 = group.members_count as u64;
        let numbers = one_number(if count <= largest { count as i64 } else { i64::MAX });
        assert(texts@.map_values(|t: Option<String>| t.deep_view()) =~= upsert_group_statement(
            group@,
        ).texts);
        match execute(&mut self.conn, UPSERT_GROUP, &texts, &numbers) {
            Ok(_) => Ok(()),
            Err(e) => Err(storage_error(e)),
        }
    }

    /// Adds a message, and gives the id that the database assigned.
    pub fn insert_message(&mut self, msg: &Message) -> (r: Result<i64, StorageError>)
        ensures
            same_file(*old(self), *final(self)),
            asked_once(
                old(self).exchanges(),
                final(self).exchanges(),
                insert_message_statement(msg@),
            ),
            match r {
                Ok(id) => final(self).exchanges().last().answer is Done && id
                    == final(self).last_row(),
                Err(e) => done_of(final(self).exchanges().last().answer) == Err::<(), Seq<char>>(
                    e@,
                ),
            },
    {
        let mut texts: Vec<Option<String>> = Vec::new();
        texts.push(Some(msg.contact_uuid.clone()));
        texts.push(Some(msg.direction.clone()));
        texts.push(Some(msg.body.clone()));
        let numbers = one_number(msg.timestamp);
        assert(texts@.map_values(|t: Option<String>| t.deep_view()) =~= insert_message_statement(
            msg@,
        ).texts);
        match execute(&mut self.conn, INSERT_MESSAGE, &texts, &numbers) {
            Ok(_) => Ok(last_insert_rowid(&self.conn)),
            Err(e) => Err(storage_error(e)),
        }
    }

    /// The contacts, by name. A filter lets those through that hold it in their name
    /// or phone number.
    pub fn list_contacts(&mut self, filter: Option<&str>) -> (r: Result<Vec<Contact>, StorageError>)
        ensures
            same_file(*old(self), *final(self)),
            asked_once(
                old(self).exchanges(),
                final(self).exchanges(),
                list_contacts_statement(filter.deep_view()),
            ),
            rows_view(r) == contacts_of(final(self).exchanges().last().answer),
    {
        let answer = match filter {
            Some(f) => {
                let texts = one_text(containing_pattern(f).as_str());
                query_contacts(&mut self.conn, SELECT_MATCHING_CONTACTS, &texts)
            },
            None => {
                let texts: Vec<Option<String>> = Vec::new();
                assert(texts@.map_values(|t: Option<String>| t.deep_view()) =~= Seq::empty());
                query_contacts(&mut self.conn, SELECT_CONTACTS, &texts)
            },
        };
        match answer {
            Ok(contacts) => Ok(contacts),
            Err(e) => Err(storage_error(e)),
        }
    }

    /// The groups, by name. A filter lets those through that hold it in their name.
    pub fn list_groups(&mut self, filter: Option<&str>) -> (r: Result<Vec<Group>, StorageError>)
        ensures
            same_file(*old(self), *final(self)),
            asked_once(
                old(self).exchanges(),
                final(self).exchanges(),
                list_groups_statement(filter.deep_view()),
            ),
            rows_view(r) == groups_of(final(self).exchanges().last().answer),
    {
        let answer = match filter {
            Some(f) => {
                let texts = one_text(containing_pattern(f).as_str());
                query_groups(&mut self.conn, SELECT_MATCHING_GROUPS, &texts)
            },
            None => {
                let texts: Vec<Option<String>> = Vec::new();
                assert(texts@.map_values(|t: Option<String>| t.deep_view()) =~= Seq::empty());
                query_groups(&mut self.conn, SELECT_GROUPS, &texts)
            },
        };
        match answer {
            Ok(groups) => Ok(groups),
            Err(e) => Err(storage_error(e)),
        }
    }

    /// The latest messages exchanged with a contact, in the order of their times and no
    /// more than the limit. A negative limit is none.
    pub fn get_messages(&mut self, contact_uuid: &str, limit: i64) -> (r: Result<
        Vec<Message>,
        StorageError,
    >)
        ensures
            same_file(*old(self), *final(self)),
            asked_once(
                old(self).exchanges(),
                final(self).exchanges(),
                get_messages_statement(contact_uuid@, limit),
            ),
            rows_view(r) == messages_of(final(self).exchanges().last().answer),
            r matches Ok(messages) ==> in_time_order(messages.deep_view()) && within(
                messages@.len(),
                limit,
            ),
    {
        let texts = one_text(contact_uuid);
        let numbers = one_number(limit);
        assert(texts@.len() == texts@.map_values(|t: Option<String>| t.deep_view()).len());
        match query_messages(&mut self.conn, SELECT_MESSAGES, &texts, &numbers) {
            Ok(rows) => {
                let messages = chronological(rows);
                assert(messages.deep_view().len() == rows.deep_view().len());
                Ok(messages)
            },
            Err(e) => Err(storage_error(e)),
        }
    }

    /// The latest messages exchanged with a contact before a time, in the order of their
    /// times and no more than the limit. A negative limit is none.
    pub fn get_messages_before(
        &mut self,
        contact_uuid: &str,
        before: i64,
        limit: i64,
    ) -> (r: Result<Vec<Message>, StorageError>)
        ensures
            same_file(*old(self), *final(self)),
            asked_once(
                old(self).exchanges(),
                final(self).exchanges(),
                get_messages_before_statement(contact_uuid@, before, limit),
            ),
            rows_view(r) == messages_of(final(self).exchanges().last().answer),
            r matches Ok(messages) ==> in_time_order(messages.deep_view()) && within(
                messages@.len(),
                limit,
            ) && all_before(messages.deep_view(), before),
    {
        let texts = one_text(contact_uuid);
        let mut numbers = one_number(before);
        numbers.push(limit);
        assert(numbers@ == seq![before, limit]);
        assert(texts@.len() == texts@.map_values(|t: Option<String>| t.deep_view()).len());
        match query_messages(&mut self.conn, SELECT_MESSAGES_BEFORE, &texts, &numbers) {
            Ok(rows) => {
                let messages = chronological(rows);
                assert(messages.deep_view().len() == rows.deep_view().len());
                Ok(messages)
            },
            Err(e) => Err(storage_error(e)),
        }
    }

    /// The contacts with their last message, the latest first and no more than the limit.
    /// A negative limit is none.
    pub fn get_conversations(&mut self, limit: i64) -> (r: Result<Vec<Conversation>, StorageError>)
        ensures
            same_file(*old(self), *final(self)),
            asked_once(
                old(self).exchanges(),
                final(self).exchanges(),
                get_conversations_statement(limit),
            ),
            rows_view(r) == conversations_of(final(self).exchanges().last().answer),
            r matches Ok(conversations) ==> recent_first(conversations.deep_view()) && within(
                conversations@.len(),
                limit,
            ),
    {
        let numbers = one_number(limit);
        assert(Seq::<Option<String>>::empty().map_values(|t: Option<String>| t.deep_view())
            =~= Seq::empty());
        match query_conversations(&mut self.conn, SELECT_CONVERSATIONS, &numbers) {
            Ok(rows) => Ok(rows),
            Err(e) => Err(storage_error(e)),
        }
    }

    /// Looks up what belongs to a text.
    fn lookup(&mut self, sql: &str, key: &str) -> (r: Search)
        ensures
            same_file(*old(self), *final(self)),
            asked_once(
                old(self).exchanges(),
                final(self).exchanges(),
                lookup_statement(sql@, key@),
            ),
            search_view(r) == lookup_of(final(self).exchanges().last().answer),
    {
        let texts = one_text(key);
        match query_text(&mut self.conn, sql, &texts) {
            Ok(Ok(found)) => Ok(Some(found)),
            Ok(Err(_)) => Ok(None),
            Err(e) => Err(storage_error(e)),
        }
    }

    /// The UUID of the contact that a recipient stands for: a UUID for itself, and else
    /// the contact with that phone number or, failing that, that name.
    pub fn resolve_recipient(&mut self, recipient: &str) -> (r: Search)
        ensures
            same_file(*old(self), *final(self)),
            resolve_ran(
                old(self).exchanges(),
                final(self).exchanges(),
                recipient@,
                search_view(r),
            ),
            has_uuid_form(recipient@) ==> search_view(r) == LookupView::Found(recipient@)
                && final(self).exchanges() == old(self).exchanges(),
    {
        let ghost before = self.exchanges();
        let ghost mut by_phone = Answer::NoText;
        if is_uuid_form(recipient) {
            proof {
                assert(before + resolve_exchanges(recipient@, by_phone, by_phone) == before);
            }
            return Ok(Some(recipient.to_owned()));
        }
        if is_phone_form(recipient) {
            let found = self.lookup(SELECT_BY_PHONE, recipient);
            proof {
                by_phone = self.exchanges().last().answer;
            }
            match found {
                Ok(None) => {},
                found => {
                    proof {
                        assert(self.exchanges() == before + resolve_exchanges(
                            recipient@,
                            by_phone,
                            by_phone,
                        ));
                    }
                    return found;
                },
            }
        }
        let found = self.lookup(SELECT_BY_NAME, recipient);
        proof {
            let by_name = self.exchanges().last().answer;
            assert(self.exchanges() == before + resolve_exchanges(recipient@, by_phone, by_name));
        }
        found
    }

    /// The id of the group that a recipient stands for, by its id or its name.
    pub fn find_group(&mut self, recipient: &str) -> (r: Search)
        ensures
            same_file(*old(self), *final(self)),
            asked_once(
                old(self).exchanges(),
                final(self).exchanges(),
                lookup_statement(SELECT_GROUP@, recipient@),
            ),
            search_view(r) == lookup_of(final(self).exchanges().last().answer),
    {
        self.lookup(SELECT_GROUP, recipient)
    }
}

} // verus!
