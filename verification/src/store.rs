//! What the library asks of the database and what it is told back.
//!
//! The library never touches the database itself. It hands its host the
//! statements to run, each with the values to bind, and is handed back what
//! came of them.

use vstd::prelude::*;

verus! {

/// A value bound to a placeholder of a statement.
#[derive(Debug, PartialEq, Eq)]
pub enum SqlValue {
    Text(String),
    Integer(i64),
}

/// A bound value, its text as a sequence of characters.
pub ghost enum SqlValueView {
    Text(Seq<char>),
    Integer(i64),
}

impl View for SqlValue {
    type V = SqlValueView;

    open spec fn view(&self) -> SqlValueView {
        match self {
            SqlValue::Text(text) => SqlValueView::Text(text@),
            SqlValue::Integer(number) => SqlValueView::Integer(*number),
        }
    }
}

impl DeepView for SqlValue {
    type V = SqlValueView;

    open spec fn deep_view(&self) -> SqlValueView {
        self@
    }
}

/// A statement for the database: its text, and the values for its
/// placeholders in their order.
#[derive(Debug, PartialEq, Eq)]
pub struct Statement {
    pub sql: String,
    pub params: Vec<SqlValue>,
}

/// A statement, as sequences.
pub ghost struct StatementView {
    pub sql: Seq<char>,
    pub params: Seq<SqlValueView>,
}

impl View for Statement {
    type V = StatementView;

    open spec fn view(&self) -> StatementView {
        StatementView { sql: self.sql@, params: self.params.deep_view() }
    }
}

/// What the host tells back after it did what it was asked.
#[derive(Debug, PartialEq, Eq)]
pub enum Reply {
    /// It was done, and there is nothing to hand back.
    Done,
    /// The integer that was asked for.
    Integer(i64),
    /// It could not be done; the words are the database's own.
    Failed(String),
}

/// A reply, its words as a sequence of characters.
pub ghost enum ReplyView {
    Done,
    Integer(i64),
    Failed(Seq<char>),
}

impl View for Reply {
    type V = ReplyView;

    open spec fn view(&self) -> ReplyView {
        match self {
            Reply::Done => ReplyView::Done,
            Reply::Integer(number) => ReplyView::Integer(*number),
            Reply::Failed(words) => ReplyView::Failed(words@),
        }
    }
}

/// What came of fetching rows for a view.
#[derive(Debug, PartialEq, Eq)]
pub enum Fetched<T> {
    /// The database could not be opened, or refused the query.
    Unavailable,
    /// The query ran, and this is what it gave.
    Available(T),
}

pub const LIST_TOPICS_AND_SUBTOPICS: &'static str =
    "SELECT topic_name, sub_topic_name FROM topic LEFT JOIN sub_topic ON topic.topic_id = sub_topic.topic_id";

pub const LIST_SUBTOPICS: &'static str =
    "SELECT sub_topic_name FROM sub_topic INNER JOIN topic ON sub_topic.topic_id = topic.topic_id WHERE topic.topic_name = ?";

pub const FIND_CONTENT: &'static str =
    "SELECT content_text FROM content INNER JOIN sub_topic ON content.sub_topic_id = sub_topic.sub_topic_id INNER JOIN topic ON sub_topic.topic_id = topic.topic_id WHERE topic.topic_name = ?1 AND sub_topic.sub_topic_name = ?2";

pub const LIST_TOPICS: &'static str = "SELECT topic_name FROM topic";

pub const FIND_TOPIC_ID: &'static str = "SELECT topic_id FROM topic WHERE topic_name = ?";

pub const INSERT_TOPIC: &'static str = "INSERT INTO topic (topic_name) VALUES (?)";

pub const INSERT_SUBTOPIC: &'static str = "INSERT INTO sub_topic (sub_topic_name, topic_id) VALUES (?, ?)";

pub const INSERT_CONTENT: &'static str =
    "INSERT INTO content (content_text, sub_topic_id) VALUES (?, (SELECT sub_topic_id FROM sub_topic WHERE sub_topic_name = ?))";

/// The statement with the text `sql` and no value to bind.
pub open spec fn plain_statement(sql: Seq<char>) -> StatementView {
    StatementView { sql, params: Seq::empty() }
}

/// The statement with the text `sql` that binds one text.
pub open spec fn statement_on_text(sql: Seq<char>, text: Seq<char>) -> StatementView {
    StatementView { sql, params: seq![SqlValueView::Text(text)] }
}

/// The statement with the text `sql` that binds two texts, `first` before
/// `second`.
pub open spec fn statement_on_texts(sql: Seq<char>, first: Seq<char>, second: Seq<char>) -> StatementView {
    StatementView { sql, params: seq![SqlValueView::Text(first), SqlValueView::Text(second)] }
}

/// The statement with the text `sql` that binds a text and then an integer.
pub open spec fn statement_on_text_and_integer(sql: Seq<char>, text: Seq<char>, number: i64) -> StatementView {
    StatementView { sql, params: seq![SqlValueView::Text(text), SqlValueView::Integer(number)] }
}

impl Statement {
    /// The statement with the text `sql` and no value to bind.
    pub fn plain(sql: &str) -> (statement: Statement)
        ensures
            statement@ == plain_statement(sql@),
    {
        let statement = Statement { sql: String::from_str(sql), params: Vec::new() };
        assert(statement.params.deep_view() =~= Seq::empty());
        statement
    }

    /// The statement with the text `sql` that binds `text`.
    pub fn on_text(sql: &str, text: &str) -> (statement: Statement)
        ensures
            statement@ == statement_on_text(sql@, text@),
    {
        let mut params: Vec<SqlValue> = Vec::new();
        params.push(SqlValue::Text(String::from_str(text)));
        assert(params.deep_view() =~= seq![SqlValueView::Text(text@)]);
        Statement { sql: String::from_str(sql), params }
    }

    /// The statement with the text `sql` that binds `first` and then
    /// `second`.
    pub fn on_texts(sql: &str, first: &str, second: &str) -> (statement: Statement)
        ensures
            statement@ == statement_on_texts(sql@, first@, second@),
    {
        let mut params: Vec<SqlValue> = Vec::new();
        params.push(SqlValue::Text(String::from_str(first)));
        params.push(SqlValue::Text(String::from_str(second)));
        assert(params.deep_view() =~= seq![SqlValueView::Text(first@), SqlValueView::Text(second@)]);
        Statement { sql: String::from_str(sql), params }
    }

    /// The statement with the text `sql` that binds `text` and then
    /// `number`.
    pub fn on_text_and_integer(sql: &str, text: &str, number: i64) -> (statement: Statement)
        ensures
            statement@ == statement_on_text_and_integer(sql@, text@, number),
    {
        let mut params: Vec<SqlValue> = Vec::new();
        params.push(SqlValue::Text(String::from_str(text)));
        params.push(SqlValue::Integer(number));
        assert(params.deep_view() =~= seq![SqlValueView::Text(text@), SqlValueView::Integer(number)]);
        Statement { sql: String::from_str(sql), params }
    }
}

/// The query behind the index: every topic with each of its subtopics, a
/// topic without subtopics once with a null subtopic.
pub fn topics_and_subtopics_query() -> (statement: Statement)
    ensures
        statement@ == plain_statement(LIST_TOPICS_AND_SUBTOPICS@),
{
    Statement::plain(LIST_TOPICS_AND_SUBTOPICS)
}

/// The query for the subtopics of the topic named `topic`, exactly.
pub fn subtopics_query(topic: &str) -> (statement: Statement)
    ensures
        statement@ == statement_on_text(LIST_SUBTOPICS@, topic@),
{
    Statement::on_text(LIST_SUBTOPICS, topic)
}

/// The query for the text stored under the subtopic named `subtopic` of the
/// topic named `topic`, both exactly.
pub fn content_query(topic: &str, subtopic: &str) -> (statement: Statement)
    ensures
        statement@ == statement_on_texts(FIND_CONTENT@, topic@, subtopic@),
{
    Statement::on_texts(FIND_CONTENT, topic, subtopic)
}

/// The query for the names of all topics.
pub fn topic_names_query() -> (statement: Statement)
    ensures
        statement@ == plain_statement(LIST_TOPICS@),
{
    Statement::plain(LIST_TOPICS)
}

} // verus!
