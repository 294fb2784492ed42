//! Taking in a submission: the statements that store a topic, a subtopic
//! and its content, the order in which they are run, and what the sender is
//! told.
//!
//! No transaction holds the statements together. What an earlier statement
//! stored stays stored when a later one fails.

use vstd::prelude::*;
use crate::models::Content;
use crate::models::ContentView;
use crate::response::plain_message;
use crate::response::server_error;
use crate::response::Response;
use crate::response::ResponseView;
use crate::response::Status;
use crate::store::statement_on_text;
use crate::store::statement_on_text_and_integer;
use crate::store::statement_on_texts;
use crate::store::Reply;
use crate::store::ReplyView;
use crate::store::Statement;
use crate::store::StatementView;
use crate::store::FIND_TOPIC_ID;
use crate::store::INSERT_CONTENT;
use crate::store::INSERT_SUBTOPIC;
use crate::store::INSERT_TOPIC;

verus! {

pub const TOPIC_REQUIRED: &'static str = "Topic is required";

pub const ADDED: &'static str = "Data added successfully!";

pub const TOPIC_FAILED: &'static str = "Failed to add topic: ";

pub const SUBTOPIC_FAILED: &'static str = "Failed to add subtopic: ";

pub const CONTENT_FAILED: &'static str = "Failed to add content: ";

/// How far a submission has come: what the host was asked last.
#[derive(Clone, Copy, Debug, PartialEq, Eq, Structural)]
pub enum AddStage {
    /// Nothing was asked yet.
    Start,
    /// To open the database.
    Opening,
    /// For the id of the topic, to learn whether the topic is there.
    FindingTopic,
    /// To store the topic.
    AddingTopic,
    /// For the id of the topic, which is now there.
    FetchingTopicId,
    /// To store the subtopic under the topic.
    AddingSubtopic,
    /// To store the content under the subtopic.
    AddingContent,
}

/// What the host is asked to do.
#[derive(Debug, PartialEq, Eq)]
pub enum Command {
    /// Open the database.
    Open,
    /// Run a statement that gives no rows.
    Execute(Statement),
    /// Run a query and hand back the integer in the first column of its
    /// first row.
    FetchInteger(Statement),
}

/// A command, as sequences.
pub ghost enum CommandView {
    Open,
    Execute(StatementView),
    FetchInteger(StatementView),
}

impl View for Command {
    type V = CommandView;

    open spec fn view(&self) -> CommandView {
        match self {
            Command::Open => CommandView::Open,
            Command::Execute(statement) => CommandView::Execute(statement@),
            Command::FetchInteger(statement) => CommandView::FetchInteger(statement@),
        }
    }
}

/// What comes next for a submission.
#[derive(Debug, PartialEq, Eq)]
pub enum AddStep {
    /// Do as the command says and come back, at the stage given, with the
    /// reply.
    Ask(AddStage, Command),
    /// The submission is dealt with: tell the sender this.
    Answer(Response),
}

/// A step, as sequences.
pub ghost enum AddStepView {
    Ask(AddStage, CommandView),
    Answer(ResponseView),
}

impl View for AddStep {
    type V = AddStepView;

    open spec fn view(&self) -> AddStepView {
        match self {
            AddStep::Ask(stage, command) => AddStepView::Ask(*stage, command@),
            AddStep::Answer(response) => AddStepView::Answer(response@),
        }
    }
}

/// The query for the id of the topic of `form`.
pub open spec fn find_topic(form: ContentView) -> CommandView {
    CommandView::FetchInteger(statement_on_text(FIND_TOPIC_ID@, form.topic))
}

/// The statement that stores the topic of `form`.
pub open spec fn store_topic(form: ContentView) -> CommandView {
    CommandView::Execute(statement_on_text(INSERT_TOPIC@, form.topic))
}

/// The statement that stores the subtopic of `form` under the topic with
/// the id `topic_id`.
pub open spec fn store_subtopic(form: ContentView, topic_id: i64) -> CommandView {
    CommandView::Execute(statement_on_text_and_integer(INSERT_SUBTOPIC@, form.subtopic, topic_id))
}

/// The statement that stores the content of `form` under the subtopic that
/// bears the name of its subtopic.
pub open spec fn store_content(form: ContentView) -> CommandView {
    CommandView::Execute(statement_on_texts(INSERT_CONTENT@, form.content, form.subtopic))
}

/// What comes next for the submission `form` when the host, asked at
/// `stage`, replied `reply`.
///
/// The database is opened first. A submission without a topic is then
/// turned away in plain words, with nothing stored. Otherwise the topic is
/// looked up and stored if it is not there, its id is fetched, the subtopic
/// is stored under that id, and the content under the subtopic. A failure
/// to open the database or to fetch the id is answered with the bare
/// failure; a failure to store the topic or the subtopic with the
/// database's words under status 500; a failure to store the content with
/// the database's words under status 200.
pub open spec fn add_step(form: ContentView, stage: AddStage, reply: ReplyView) -> AddStepView {
    match stage {
        AddStage::Start => AddStepView::Ask(AddStage::Opening, CommandView::Open),
        AddStage::Opening => if reply is Failed {
            AddStepView::Answer(server_error())
        } else if form.topic.len() == 0 {
            AddStepView::Answer(plain_message(Status::Success, TOPIC_REQUIRED@))
        } else {
            AddStepView::Ask(AddStage::FindingTopic, find_topic(form))
        },
        AddStage::FindingTopic => if reply is Integer {
            AddStepView::Ask(AddStage::FetchingTopicId, find_topic(form))
        } else {
            AddStepView::Ask(AddStage::AddingTopic, store_topic(form))
        },
        AddStage::AddingTopic => match reply {
            ReplyView::Failed(words) => AddStepView::Answer(
                plain_message(Status::ServerError, TOPIC_FAILED@ + words),
            ),
            _ => AddStepView::Ask(AddStage::FetchingTopicId, find_topic(form)),
        },
        AddStage::FetchingTopicId => match reply {
            ReplyView::Integer(topic_id) => AddStepView::Ask(
                AddStage::AddingSubtopic,
                store_subtopic(form, topic_id),
            ),
            _ => AddStepView::Answer(server_error()),
        },
        AddStage::AddingSubtopic => match reply {
            ReplyView::Failed(words) => AddStepView::Answer(
                plain_message(Status::ServerError, SUBTOPIC_FAILED@ + words),
            ),
            _ => AddStepView::Ask(AddStage::AddingContent, store_content(form)),
        },
        AddStage::AddingContent => match reply {
            ReplyView::Failed(words) => AddStepView::Answer(
                plain_message(Status::Success, CONTENT_FAILED@ + words),
            ),
            _ => AddStepView::Answer(plain_message(Status::Success, ADDED@)),
        },
    }
}

fn find_topic_command(form: &Content) -> (command: Command)
    ensures
        command@ == find_topic(form@),
{
    Command::FetchInteger(Statement::on_text(FIND_TOPIC_ID, form.topic.as_str()))
}

fn failure(status: Status, what: &str, words: &String) -> (step: AddStep)
    ensures
        step@ == AddStepView::Answer(plain_message(status, what@ + words@)),
{
    AddStep::Answer(Response::message(status, String::from_str(what).concat(words.as_str())))
}

/// Takes in the submission `form`, one step at a time: says what comes next
/// when the host, asked at `stage`, replied `reply`. The host starts at
/// `AddStage::Start`, where no reply is looked at, does what each `Ask`
/// says, and ends with the `Answer`.
pub fn add_content(form: &Content, stage: AddStage, reply: &Reply) -> (step: AddStep)
    ensures
        step@ == add_step(form@, stage, reply@),
{
    match stage {
        AddStage::Start => AddStep::Ask(AddStage::Opening, Command::Open),
        AddStage::Opening => {
            if let Reply::Failed(_) = reply {
                AddStep::Answer(Response::server_error())
            } else if form.topic.as_str().is_empty() {
                AddStep::Answer(Response::message(Status::Success, String::from_str(TOPIC_REQUIRED)))
            } else {
                AddStep::Ask(AddStage::FindingTopic, find_topic_command(form))
            }
        },
        AddStage::FindingTopic => {
            if let Reply::Integer(_) = reply {
                AddStep::Ask(AddStage::FetchingTopicId, find_topic_command(form))
            } else {
                AddStep::Ask(
                    AddStage::AddingTopic,
                    Command::Execute(Statement::on_text(INSERT_TOPIC, form.topic.as_str())),
                )
            }
        },
        AddStage::AddingTopic => match reply {
            Reply::Failed(words) => failure(Status::ServerError, TOPIC_FAILED, words),
            _ => AddStep::Ask(AddStage::FetchingTopicId, find_topic_command(form)),
        },
        AddStage::FetchingTopicId => match reply {
            Reply::Integer(topic_id) => AddStep::Ask(
                AddStage::AddingSubtopic,
                Command::Execute(
                    Statement::on_text_and_integer(INSERT_SUBTOPIC, form.subtopic.as_str(), *topic_id),
                ),
            ),
            _ => AddStep::Answer(Response::server_error()),
        },
        AddStage::AddingSubtopic => match reply {
            Reply::Failed(words) => failure(Status::ServerError, SUBTOPIC_FAILED, words),
            _ => AddStep::Ask(
                AddStage::AddingContent,
                Command::Execute(
                    Statement::on_texts(INSERT_CONTENT, form.content.as_str(), form.subtopic.as_str()),
                ),
            ),
        },
        AddStage::AddingContent => match reply {
            Reply::Failed(words) => failure(Status::Success, CONTENT_FAILED, words),
            _ => AddStep::Answer(Response::message(Status::Success, String::from_str(ADDED))),
        },
    }
}

impl AddStage {
    /// How many more times the host can be asked something after it was
    /// asked at this stage.
    pub open spec fn asks_left(self) -> nat {
        match self {
            AddStage::Start => 6,
            AddStage::Opening => 5,
            AddStage::FindingTopic => 4,
            AddStage::AddingTopic => 3,
            AddStage::FetchingTopicId => 2,
            AddStage::AddingSubtopic => 1,
            AddStage::AddingContent => 0,
        }
    }
}

/// The steps that the submission `form` takes from `stage` on when the host
/// replies with `replies`, one after the other: they end with the answer,
/// or where the replies run out.
pub open spec fn add_run(form: ContentView, stage: AddStage, replies: Seq<ReplyView>) -> Seq<AddStepView>
    decreases replies.len(),
{
    if replies.len() == 0 {
        Seq::empty()
    } else {
        let step = add_step(form, stage, replies[0]);
        match step {
            AddStepView::Ask(next, _) => seq![step] + add_run(form, next, replies.drop_first()),
            AddStepView::Answer(_) => seq![step],
        }
    }
}

/// Each step asks the host at a stage from which less is left to ask.
pub proof fn lemma_add_advances(form: ContentView, stage: AddStage, reply: ReplyView)
    ensures
        add_step(form, stage, reply) matches AddStepView::Ask(next, _) ==> next.asks_left() < stage.asks_left(),
{
}

/// Every submission ends: whatever the host replies, it is asked at most
/// six things from the start, and at the seventh step at the latest the
/// sender gets an answer. Only the last step of a run is an answer.
pub proof fn lemma_add_ends(form: ContentView, stage: AddStage, replies: Seq<ReplyView>)
    ensures
        add_run(form, stage, replies).len() <= stage.asks_left() + 1,
        add_run(form, stage, replies).len() <= replies.len(),
        replies.len() > stage.asks_left() ==> add_run(form, stage, replies).last() is Answer,
        forall|i: int|
            0 <= i < add_run(form, stage, replies).len() - 1 ==> #[trigger] add_run(form, stage, replies)[i] is Ask,
    decreases replies.len(),
{
    if replies.len() > 0 {
        let step = add_step(form, stage, replies[0]);
        match step {
            AddStepView::Ask(next, _) => {
                let rest = add_run(form, next, replies.drop_first());
                lemma_add_ends(form, next, replies.drop_first());
                let run = add_run(form, stage, replies);
                assert(run =~= seq![step] + rest);
                if replies.len() > stage.asks_left() {
                    assert(rest.len() > 0);
                    assert(run.last() == rest.last());
                }
                assert forall|i: int| 0 <= i < run.len() - 1 implies #[trigger] run[i] is Ask by {
                    if i > 0 {
                        assert(run[i] == rest[i - 1]);
                    }
                }
            },
            AddStepView::Answer(_) => {},
        }
    }
}

/// A submission without a topic stores nothing: from the start on the host
/// is asked to open the database and nothing else, and once the database is
/// open the sender is told in plain words that a topic is required.
pub proof fn lemma_add_without_topic(form: ContentView, replies: Seq<ReplyView>)
    requires
        form.topic.len() == 0,
    ensures
        forall|i: int|
            0 <= i < add_run(form, AddStage::Start, replies).len() ==> (#[trigger] add_run(
                form,
                AddStage::Start,
                replies,
            )[i] matches AddStepView::Ask(_, command) ==> command is Open),
        replies.len() >= 2 && !(replies[1] is Failed) ==> add_run(form, AddStage::Start, replies).last()
            == AddStepView::Answer(plain_message(Status::Success, TOPIC_REQUIRED@)),
{
    reveal_with_fuel(add_run, 3);
    if replies.len() >= 2 {
        assert(replies.drop_first()[0] == replies[1]);
    }
}

/// Content is stored only under a subtopic that was stored in the step
/// before: where a run from the start asks for the content to be stored,
/// the step before asked for the subtopic to be stored and was not answered
/// with a failure. So when storing the subtopic fails, no content is stored.
pub proof fn lemma_content_follows_subtopic(form: ContentView, replies: Seq<ReplyView>, i: int)
    requires
        0 <= i < add_run(form, AddStage::Start, replies).len(),
        add_run(form, AddStage::Start, replies)[i] matches AddStepView::Ask(stage, _) && stage
            == AddStage::AddingContent,
    ensures
        i >= 1,
        add_run(form, AddStage::Start, replies)[i] == AddStepView::Ask(
            AddStage::AddingContent,
            store_content(form),
        ),
        add_run(form, AddStage::Start, replies)[i - 1] matches AddStepView::Ask(stage, command) && stage
            == AddStage::AddingSubtopic && command is Execute,
        !(replies[i] is Failed),
{
    lemma_content_stage(form, AddStage::Start, replies, i);
}

proof fn lemma_content_stage(form: ContentView, stage: AddStage, replies: Seq<ReplyView>, i: int)
    requires
        0 <= i < add_run(form, stage, replies).len(),
        add_run(form, stage, replies)[i] matches AddStepView::Ask(asked, _) && asked == AddStage::AddingContent,
    ensures
        i < replies.len(),
        add_run(form, stage, replies)[i] == AddStepView::Ask(AddStage::AddingContent, store_content(form)),
        !(replies[i] is Failed),
        i == 0 ==> stage == AddStage::AddingSubtopic,
        i >= 1 ==> (add_run(form, stage, replies)[i - 1] matches AddStepView::Ask(asked, command) && asked
            == AddStage::AddingSubtopic && command is Execute),
    decreases replies.len(),
{
    let run = add_run(form, stage, replies);
    let step = add_step(form, stage, replies[0]);
    match step {
        AddStepView::Ask(next, _) => {
            let rest = add_run(form, next, replies.drop_first());
            assert(run =~= seq![step] + rest);
            if i > 0 {
                assert(run[i] == rest[i - 1]);
                lemma_content_stage(form, next, replies.drop_first(), i - 1);
                assert(replies.drop_first()[i - 1] == replies[i]);
                if i - 1 == 0 {
                    assert(run[0] == step);
                } else {
                    assert(run[i - 1] == rest[i - 2]);
                }
            }
        },
        AddStepView::Answer(_) => {},
    }
}

/// A submission with a topic that is not yet there, on a database that
/// does all it is asked, runs three statements that store something: one
/// for the topic, one for the subtopic under the id that the database gave
/// the topic, one for the content. After them the sender is told that the
/// data was added.
pub proof fn lemma_add_new_topic(form: ContentView, replies: Seq<ReplyView>, topic_id: i64)
    requires
        form.topic.len() > 0,
        replies.len() == 7,
        !(replies[1] is Failed),
        !(replies[2] is Integer),
        !(replies[3] is Failed),
        replies[4] == ReplyView::Integer(topic_id),
        !(replies[5] is Failed),
        !(replies[6] is Failed),
    ensures
        add_run(form, AddStage::Start, replies) == seq![
            AddStepView::Ask(AddStage::Opening, CommandView::Open),
            AddStepView::Ask(AddStage::FindingTopic, find_topic(form)),
            AddStepView::Ask(AddStage::AddingTopic, store_topic(form)),
            AddStepView::Ask(AddStage::FetchingTopicId, find_topic(form)),
            AddStepView::Ask(AddStage::AddingSubtopic, store_subtopic(form, topic_id)),
            AddStepView::Ask(AddStage::AddingContent, store_content(form)),
            AddStepView::Answer(plain_message(Status::Success, ADDED@)),
        ],
{
    let r1 = replies.drop_first();
    let r2 = r1.drop_first();
    let r3 = r2.drop_first();
    let r4 = r3.drop_first();
    let r5 = r4.drop_first();
    let r6 = r5.drop_first();
    assert(r1[0] == replies[1]);
    assert(r2[0] == replies[2]);
    assert(r3[0] == replies[3]);
    assert(r4[0] == replies[4]);
    assert(r5[0] == replies[5]);
    assert(r6[0] == replies[6]);
    assert(add_run(form, AddStage::AddingContent, r6) =~= seq![
        AddStepView::Answer(plain_message(Status::Success, ADDED@)),
    ]);
    assert(add_run(form, AddStage::AddingSubtopic, r5) =~= seq![
        AddStepView::Ask(AddStage::AddingContent, store_content(form)),
        AddStepView::Answer(plain_message(Status::Success, ADDED@)),
    ]);
    assert(add_run(form, AddStage::FetchingTopicId, r4) =~= seq![
        AddStepView::Ask(AddStage::AddingSubtopic, store_subtopic(form, topic_id)),
        AddStepView::Ask(AddStage::AddingContent, store_content(form)),
        AddStepView::Answer(plain_message(Status::Success, ADDED@)),
    ]);
    assert(add_run(form, AddStage::AddingTopic, r3) =~= seq![
        AddStepView::Ask(AddStage::FetchingTopicId, find_topic(form)),
        AddStepView::Ask(AddStage::AddingSubtopic, store_subtopic(form, topic_id)),
        AddStepView::Ask(AddStage::AddingContent, store_content(form)),
        AddStepView::Answer(plain_message(Status::Success, ADDED@)),
    ]);
    assert(add_run(form, AddStage::FindingTopic, r2) =~= seq![
        AddStepView::Ask(AddStage::AddingTopic, store_topic(form)),
        AddStepView::Ask(AddStage::FetchingTopicId, find_topic(form)),
        AddStepView::Ask(AddStage::AddingSubtopic, store_subtopic(form, topic_id)),
        AddStepView::Ask(AddStage::AddingContent, store_content(form)),
        AddStepView::Answer(plain_message(Status::Success, ADDED@)),
    ]);
    assert(add_run(form, AddStage::Opening, r1) =~= seq![
        AddStepView::Ask(AddStage::FindingTopic, find_topic(form)),
        AddStepView::Ask(AddStage::AddingTopic, store_topic(form)),
        AddStepView::Ask(AddStage::FetchingTopicId, find_topic(form)),
        AddStepView::Ask(AddStage::AddingSubtopic, store_subtopic(form, topic_id)),
        AddStepView::Ask(AddStage::AddingContent, store_content(form)),
        AddStepView::Answer(plain_message(Status::Success, ADDED@)),
    ]);
}

} // verus!
