//! The three tables of the store, and the order in which they are made.

use vstd::prelude::*;
use crate::store::plain_statement;
use crate::store::Reply;
use crate::store::ReplyView;
use crate::store::Statement;
use crate::store::StatementView;

verus! {

pub const CREATE_TOPIC: &'static str =
    "CREATE TABLE IF NOT EXISTS topic (topic_id INTEGER PRIMARY KEY, topic_name TEXT NOT NULL UNIQUE)";

pub const CREATE_SUBTOPIC: &'static str =
    "CREATE TABLE IF NOT EXISTS sub_topic (sub_topic_id INTEGER PRIMARY KEY, sub_topic_name TEXT NOT NULL UNIQUE, topic_id INTEGER NOT NULL, FOREIGN KEY (topic_id) REFERENCES topic(topic_id))";

pub const CREATE_CONTENT: &'static str =
    "CREATE TABLE IF NOT EXISTS content (content_id INTEGER PRIMARY KEY, content_text TEXT NOT NULL, sub_topic_id INTEGER NOT NULL, FOREIGN KEY (sub_topic_id) REFERENCES sub_topic(sub_topic_id))";

/// How many tables the store has.
pub const TABLES: usize = 3;

/// What to do next while the tables are made.
#[derive(Debug, PartialEq, Eq)]
pub enum SchemaStep {
    /// Run this statement and come back with the reply.
    Run(Statement),
    /// All tables are there.
    Created,
    /// A statement failed, in the database's words. Nothing after it was run.
    Failed(String),
}

/// A step, as sequences.
pub ghost enum SchemaStepView {
    Run(StatementView),
    Created,
    Failed(Seq<char>),
}

impl View for SchemaStep {
    type V = SchemaStepView;

    open spec fn view(&self) -> SchemaStepView {
        match self {
            SchemaStep::Run(statement) => SchemaStepView::Run(statement@),
            SchemaStep::Created => SchemaStepView::Created,
            SchemaStep::Failed(words) => SchemaStepView::Failed(words@),
        }
    }
}

/// The text that makes the table with the given place in the order: a table
/// comes after the one that it refers to.
pub open spec fn table_sql(place: int) -> Seq<char> {
    if place == 0 {
        CREATE_TOPIC@
    } else if place == 1 {
        CREATE_SUBTOPIC@
    } else {
        CREATE_CONTENT@
    }
}

/// What to do once `completed` statements have been run and the last of
/// them was answered with `last`: stop at the first failure, else make the
/// next table, until all are made. Before the first statement there is no
/// reply to look at.
pub open spec fn schema_step(completed: int, last: ReplyView) -> SchemaStepView {
    if completed > 0 && last is Failed {
        SchemaStepView::Failed(last->Failed_0)
    } else if completed < TABLES {
        SchemaStepView::Run(plain_statement(table_sql(completed)))
    } else {
        SchemaStepView::Created
    }
}

/// Makes the tables of the store, one step at a time: says what to do once
/// `completed` statements have been run and the last of them was answered
/// with `last`. The host starts with `completed` at 0, runs each statement
/// that it is handed, and stops at `Created` or `Failed`.
///
/// Each statement leaves a table that is already there as it is, so making
/// the tables again is safe.
pub fn create_tables(completed: usize, last: &Reply) -> (step: SchemaStep)
    ensures
        step@ == schema_step(completed as int, last@),
{
    if completed > 0 {
        if let Reply::Failed(words) = last {
            return SchemaStep::Failed(words.clone());
        }
    }
    if completed == 0 {
        SchemaStep::Run(Statement::plain(CREATE_TOPIC))
    } else if completed == 1 {
        SchemaStep::Run(Statement::plain(CREATE_SUBTOPIC))
    } else if completed == 2 {
        SchemaStep::Run(Statement::plain(CREATE_CONTENT))
    } else {
        SchemaStep::Created
    }
}

/// The step is `Failed` exactly when a statement was run and answered with
/// a failure, and it hands on the words of that failure; it is `Created`
/// exactly when three statements or more were run and the last did not
/// fail; in between it is the statement for the next table.
pub proof fn lemma_schema_outcomes(completed: int, last: ReplyView)
    requires
        0 <= completed,
    ensures
        schema_step(completed, last) is Failed <==> completed > 0 && last is Failed,
        schema_step(completed, last) matches SchemaStepView::Failed(words) ==> last == ReplyView::Failed(
            words,
        ),
        schema_step(completed, last) is Created <==> completed >= TABLES && !(last is Failed),
        schema_step(completed, last) matches SchemaStepView::Run(statement) ==> completed < TABLES
            && statement == plain_statement(table_sql(completed)),
{
}

/// The text `sql` makes a table only where none of its name is there.
pub open spec fn spares_existing_table(sql: Seq<char>) -> bool {
    "CREATE TABLE IF NOT EXISTS "@.is_prefix_of(sql)
}

/// No statement of `create_tables` touches a table that is already there,
/// so the tables can be made again on a store that has them.
pub proof fn lemma_tables_made_once(place: int)
    ensures
        spares_existing_table(table_sql(place)),
{
    reveal_strlit("CREATE TABLE IF NOT EXISTS ");
    reveal_strlit(
        "CREATE TABLE IF NOT EXISTS topic (topic_id INTEGER PRIMARY KEY, topic_name TEXT NOT NULL UNIQUE)",
    );
    reveal_strlit(
        "CREATE TABLE IF NOT EXISTS sub_topic (sub_topic_id INTEGER PRIMARY KEY, sub_topic_name TEXT NOT NULL UNIQUE, topic_id INTEGER NOT NULL, FOREIGN KEY (topic_id) REFERENCES topic(topic_id))",
    );
    reveal_strlit(
        "CREATE TABLE IF NOT EXISTS content (content_id INTEGER PRIMARY KEY, content_text TEXT NOT NULL, sub_topic_id INTEGER NOT NULL, FOREIGN KEY (sub_topic_id) REFERENCES sub_topic(sub_topic_id))",
    );
    let head = "CREATE TABLE IF NOT EXISTS "@;
    assert(head =~= table_sql(place).subrange(0, head.len() as int));
}

} // verus!
