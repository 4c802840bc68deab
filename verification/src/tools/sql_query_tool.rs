//! Answering an instruction by way of SQL: the model is asked once with a tool that runs queries,
//! and again with what the queries gave.

use super::sql_select;
use super::sql_select::{execute_db_query, screen_query, QueryVerdict, SQL_TOOL_NAME};
use crate::ai_interaction::tools::db_query::Column;
use crate::json;
use crate::json::{
    array_value, get_text, new_members, object_value, parse, put, put_text, status_reply,
    text_value, to_text,
};
use crate::text;
use crate::text::same_text;
use vstd::prelude::*;

verus! {

pub const SQL_TOOL_DESCRIPTION: &'static str =
    "executes a sql query against the postgresql database and returns the results. use this to answer questions about data stored in the database. only select queries are permitted.";

/// What the tool takes: the query.
pub open spec fn parameters_json() -> json::Json {
    let query = json::Json::Object(
        json::no_members().insert("type"@, json::Json::Text("string"@)).insert(
            "description"@,
            json::Json::Text(
                "the sql select query to execute. example: select * from users where id = 1"@,
            ),
        ),
    );
    json::Json::Object(
        json::no_members().insert("type"@, json::Json::Text("object"@)).insert(
            "properties"@,
            json::Json::Object(json::no_members().insert("sql_query"@, query)),
        ).insert("required"@, json::Json::Array(seq![json::Json::Text("sql_query"@)])),
    )
}

/// What the tool takes.
pub fn get_sql_tool_parameters() -> (r: serde_json::Value)
    ensures
        json::json_of(r) == parameters_json(),
{
    let mut query = new_members();
    put_text(&mut query, "type", "string");
    put_text(
        &mut query,
        "description",
        "the sql select query to execute. example: select * from users where id = 1",
    );
    let mut properties = new_members();
    put(&mut properties, "sql_query", object_value(query));
    let mut required: Vec<serde_json::Value> = Vec::new();
    required.push(text_value("sql_query"));
    proof {
        assert(json::jsons(required@) =~= seq![json::Json::Text("sql_query"@)]);
    }
    let mut members = new_members();
    put_text(&mut members, "type", "object");
    put(&mut members, "properties", object_value(properties));
    put(&mut members, "required", array_value(required));
    object_value(members)
}

// ---------------------------------------------------------------------------------------------
// What is said

/// A call of a tool that the model asks for.
#[derive(Debug)]
pub struct ToolCall<S = String> {
    pub id: S,
    pub is_function: bool,
    pub name: S,
    pub arguments: S,
}

/// A message of the conversation.
#[derive(Debug)]
pub enum ChatMessage<S = String, L = Vec<ToolCall>> {
    System(S),
    User(S),
    Assistant { content: Option<S>, tool_calls: Option<L> },
    Tool { call_id: S, content: S },
}

/// What a call says.
pub type ToolCallView = ToolCall<Seq<char>>;

/// What a message says.
pub type MessageView = ChatMessage<Seq<char>, Seq<ToolCallView>>;

impl View for ToolCall {
    type V = ToolCallView;

    open spec fn view(&self) -> ToolCallView {
        ToolCall {
            id: self.id@,
            is_function: self.is_function,
            name: self.name@,
            arguments: self.arguments@,
        }
    }
}

impl Clone for ToolCall {
    fn clone(&self) -> (r: Self)
        ensures
            r == *self,
    {
        ToolCall {
            id: self.id.clone(),
            is_function: self.is_function,
            name: self.name.clone(),
            arguments: self.arguments.clone(),
        }
    }
}

/// What calls say.
pub open spec fn call_views(calls: Seq<ToolCall>) -> Seq<ToolCallView> {
    calls.map_values(|call: ToolCall| call@)
}

/// What calls say, where there are any.
pub open spec fn calls_view(calls: Option<Vec<ToolCall>>) -> Option<Seq<ToolCallView>> {
    match calls {
        Some(list) => Some(call_views(list@)),
        None => None,
    }
}

impl View for ChatMessage {
    type V = MessageView;

    open spec fn view(&self) -> MessageView {
        match self {
            ChatMessage::System(content) => ChatMessage::System(content@),
            ChatMessage::User(content) => ChatMessage::User(content@),
            ChatMessage::Assistant { content, tool_calls } => ChatMessage::Assistant {
                content: text::text_view(*content),
                tool_calls: calls_view(*tool_calls),
            },
            ChatMessage::Tool { call_id, content } => ChatMessage::Tool {
                call_id: call_id@,
                content: content@,
            },
        }
    }
}

/// What messages say.
pub open spec fn message_views(messages: Seq<ChatMessage>) -> Seq<MessageView> {
    messages.map_values(|message: ChatMessage| message@)
}

/// What the model is told to be.
pub open spec fn system_prompt() -> Seq<char> {
    "you are a helpful assistant. you have one tool available: '"@ + "execute_sql_query"@
        + "'. use it when appropriate to answer user questions. only issue select queries. if you use the tool, summarize the results for the user upon receiving them."@
}

// ---------------------------------------------------------------------------------------------
// The steps

/// Whether a call is for the tool that runs queries.
pub open spec fn is_sql_call(call: ToolCallView) -> bool {
    call.is_function && call.name == "execute_sql_query"@
}

/// The query that a call asks for, or the reply where it asks for none.
pub open spec fn asked_query(parsed: Result<json::Json, Seq<char>>) -> Result<
    Seq<char>,
    json::Json,
> {
    match parsed {
        Ok(value) => match json::text_member(value, "sql_query"@) {
            Some(query) => Ok(query),
            None => Err(json::status_json("error"@, "(sql tool) 'sql_query' missing/invalid."@)),
        },
        Err(error) => Err(
            json::status_json("error"@, "(sql tool) failed to parse tool args: "@ + error),
        ),
    }
}

/// The query that a call asks for, from its arguments, read where they could be; or the reply
/// where it asks for none.
pub fn read_asked_query(parsed: &Result<serde_json::Value, String>) -> (r: Result<String, String>)
    ensures
        match asked_query(
            match parsed {
                Ok(value) => Ok(json::json_of(*value)),
                Err(e) => Err(e@),
            },
        ) {
            Ok(query) => r matches Ok(q) && q@ == query,
            Err(reply) => r matches Err(text) && json::writes(text@, reply),
        },
{
    match parsed {
        Ok(value) => match get_text(value, "sql_query") {
            Some(query) => Ok(query.to_owned()),
            None => Err(status_reply("error", "(sql tool) 'sql_query' missing/invalid.")),
        },
        Err(error) => {
            let mut message = "(sql tool) failed to parse tool args: ".to_owned();
            message.append(error.as_str());
            Err(status_reply("error", message.as_str()))
        },
    }
}

/// Where the conversation stands: what has been said, and the calls that have not been answered.
pub struct SqlConversation {
    messages: Vec<ChatMessage>,
    pending: Vec<ToolCall>,
}

/// The view of a [`SqlConversation`].
#[verifier::ext_equal]
pub struct SqlConversationView {
    pub messages: Seq<MessageView>,
    pub pending: Seq<ToolCallView>,
}

impl View for SqlConversation {
    type V = SqlConversationView;

    closed spec fn view(&self) -> SqlConversationView {
        SqlConversationView {
            messages: message_views(self.messages@),
            pending: call_views(self.pending@),
        }
    }
}

/// What is done next.
pub enum SqlStep<S = String> {
    /// The model is asked, and offered the tool.
    Ask,
    RunQuery(S),
    /// The model is asked, and offered no tool.
    AskAgain,
    Finish(Result<S, S>),
}

impl View for SqlStep {
    type V = SqlStep<Seq<char>>;

    open spec fn view(&self) -> SqlStep<Seq<char>> {
        match self {
            SqlStep::Ask => SqlStep::Ask,
            SqlStep::RunQuery(query) => SqlStep::RunQuery(query@),
            SqlStep::AskAgain => SqlStep::AskAgain,
            SqlStep::Finish(result) => SqlStep::Finish(
                match result {
                    Ok(content) => Ok(content@),
                    Err(error) => Err(error@),
                },
            ),
        }
    }
}

/// What the model chose to say.
pub struct Choice<S = String, L = Vec<ToolCall>> {
    pub content: Option<S>,
    pub tool_calls: Option<L>,
}

impl View for Choice {
    type V = Choice<Seq<char>, Seq<ToolCallView>>;

    open spec fn view(&self) -> Choice<Seq<char>, Seq<ToolCallView>> {
        Choice { content: text::text_view(self.content), tool_calls: calls_view(self.tool_calls) }
    }
}

/// What happened since the last step. The model makes no choice at times, and a choice holds no
/// content at times.
pub enum SqlEvent<S = String, L = Vec<ToolCall>, R = Vec<Vec<Column>>> {
    Begin,
    /// The model answered first.
    First(Option<Choice<S, L>>),
    /// A query was run.
    Rows(Result<R, S>),
    /// The model answered again, with this content.
    Second(Option<Option<S>>),
}

/// What an event says.
pub type SqlEventView = SqlEvent<Seq<char>, Seq<ToolCallView>, Seq<Vec<Column>>>;

impl View for SqlEvent {
    type V = SqlEventView;

    open spec fn view(&self) -> SqlEventView {
        match self {
            SqlEvent::Begin => SqlEvent::Begin,
            SqlEvent::First(choice) => SqlEvent::First(
                match choice {
                    Some(c) => Some(c@),
                    None => None,
                },
            ),
            SqlEvent::Rows(answer) => SqlEvent::Rows(sql_select::answer_view(*answer)),
            SqlEvent::Second(choice) => SqlEvent::Second(
                match choice {
                    Some(content) => Some(text::text_view(*content)),
                    None => None,
                },
            ),
        }
    }
}

/// The conversation once the call that comes next has its reply.
pub open spec fn replied(state: SqlConversationView, content: Seq<char>) -> SqlConversationView {
    SqlConversationView {
        messages: state.messages.push(
            ChatMessage::Tool { call_id: state.pending[0].id, content },
        ),
        pending: state.pending.drop_first(),
    }
}

/// The conversation up to the next query that is to be run, or to the end of the calls: a call for
/// another tool is passed over, and one without a query gets its reply, as does one whose query is
/// not a SELECT.
pub open spec fn advanced(state: SqlConversationView) -> (SqlConversationView, SqlStep<Seq<char>>)
    decreases state.pending.len(),
{
    if state.pending.len() == 0 {
        (state, SqlStep::AskAgain)
    } else {
        let call = state.pending[0];
        let rest = state.pending.drop_first();
        if !is_sql_call(call) {
            advanced(SqlConversationView { messages: state.messages, pending: rest })
        } else {
            match asked_query(json::parsed_json(call.arguments)) {
                Ok(query) => match sql_select::query_verdict(query) {
                    QueryVerdict::Run(_) => (state, SqlStep::RunQuery(query)),
                    QueryVerdict::Refuse(reply) => advanced(replied(state, reply)),
                },
                Err(reply) => advanced(replied(state, json::json_text(reply))),
            }
        }
    }
}

/// The conversation once the model has answered first.
pub open spec fn after_first(
    state: SqlConversationView,
    choice: Option<Choice<Seq<char>, Seq<ToolCallView>>>,
) -> (SqlConversationView, SqlStep<Seq<char>>) {
    match choice {
        Some(Choice { content, tool_calls }) => {
            let messages = state.messages.push(ChatMessage::Assistant { content, tool_calls });
            match tool_calls {
                Some(calls) => advanced(SqlConversationView { messages, pending: calls }),
                None => (
                    SqlConversationView { messages, pending: seq![] },
                    SqlStep::Finish(
                        match content {
                            Some(s) => Ok(s),
                            None => Err(
                                "(sql tool) first ai response had no content or tool calls."@,
                            ),
                        },
                    ),
                ),
            }
        },
        None => (
            state,
            SqlStep::Finish(Err("(sql tool) no choices in first openai response."@)),
        ),
    }
}

/// The conversation once a query was run. Where no call waits for rows, they are passed over.
pub open spec fn after_rows(
    state: SqlConversationView,
    answer: Result<Seq<Vec<Column>>, Seq<char>>,
) -> (SqlConversationView, SqlStep<Seq<char>>) {
    if state.pending.len() == 0 {
        (state, SqlStep::AskAgain)
    } else {
        advanced(replied(state, json::json_text(sql_select::results_json(answer))))
    }
}

/// What the instruction is answered with, from what the model said the second time.
pub open spec fn answer_of(second: Option<Option<Seq<char>>>) -> Result<Seq<char>, Seq<char>> {
    match second {
        Some(Some(content)) => Ok(content),
        Some(None) => Err("(sql tool) second ai response had no content."@),
        None => Err("(sql tool) no choices in second openai response."@),
    }
}

/// The next step in answering an instruction: the model is asked with the tool, its queries are
/// run, and it is asked again with what they gave.
pub open spec fn next_sql_step(state: SqlConversationView, event: SqlEventView) -> (
    SqlConversationView,
    SqlStep<Seq<char>>,
) {
    match event {
        SqlEvent::Begin => (state, SqlStep::Ask),
        SqlEvent::First(choice) => after_first(state, choice),
        SqlEvent::Rows(answer) => after_rows(state, answer),
        SqlEvent::Second(content) => (state, SqlStep::Finish(answer_of(content))),
    }
}

impl SqlConversation {
    /// The conversation at its start: the model is told what it is, and given the instruction.
    pub fn new(instruction: String) -> (r: Self)
        ensures
            r@ == (SqlConversationView {
                messages: seq![
                    ChatMessage::System(system_prompt()),
                    ChatMessage::User(instruction@),
                ],
                pending: seq![],
            }),
    {
        let mut prompt =
            "you are a helpful assistant. you have one tool available: '".to_owned();
        prompt.append(SQL_TOOL_NAME);
        prompt.append(
            "'. use it when appropriate to answer user questions. only issue select queries. if you use the tool, summarize the results for the user upon receiving them.",
        );
        let mut messages: Vec<ChatMessage> = Vec::new();
        messages.push(ChatMessage::System(prompt));
        messages.push(ChatMessage::User(instruction));
        let r = SqlConversation { messages, pending: Vec::new() };
        proof {
            assert(r@.messages =~= seq![
                ChatMessage::System(system_prompt()),
                ChatMessage::User(instruction@),
            ]);
            assert(r@.pending =~= Seq::<ToolCallView>::empty());
        }
        r
    }

    /// What has been said.
    pub fn messages(&self) -> (r: &Vec<ChatMessage>)
        ensures
            message_views(r@) == self@.messages,
    {
        &self.messages
    }

    fn say(&mut self, message: ChatMessage)
        ensures
            final(self)@ == (SqlConversationView {
                messages: old(self)@.messages.push(message@),
                ..old(self)@
            }),
            final(self).pending == old(self).pending,
    {
        let ghost before = self@.messages;
        self.messages.push(message);
        proof {
            assert(self@.messages =~= before.push(message@));
        }
    }

    fn answer_call(&mut self, content: String)
        requires
            old(self).pending@.len() > 0,
        ensures
            final(self)@ == replied(old(self)@, content@),
            final(self).pending@.len() == old(self).pending@.len() - 1,
    {
        let ghost start = self@;
        proof {
            assert(start.pending[0] == self.pending@[0]@);
        }
        let call_id = self.pending[0].id.clone();
        self.say(ChatMessage::Tool { call_id, content });
        self.pending.remove(0);
        proof {
            assert(call_views(self.pending@) =~= start.pending.drop_first());
        }
    }

    fn advance(&mut self) -> (r: SqlStep)
        ensures
            (final(self)@, r@) == advanced(old(self)@),
    {
        let ghost start = self@;
        while self.pending.len() > 0
            invariant
                start == old(self)@,
                advanced(self@) == advanced(start),
            decreases self.pending@.len(),
        {
            let ghost here = self@;
            proof {
                assert(here.pending[0] == self.pending@[0]@);
                assert(here.pending.len() == self.pending@.len());
            }
            if self.pending[0].is_function && same_text(
                self.pending[0].name.as_str(),
                SQL_TOOL_NAME,
            ) {
                let parsed = parse(self.pending[0].arguments.as_str());
                match read_asked_query(&parsed) {
                    Ok(query) => match screen_query(query) {
                        QueryVerdict::Run(select) => {
                            return SqlStep::RunQuery(select);
                        },
                        QueryVerdict::Refuse(reply) => {
                            self.answer_call(reply);
                        },
                    },
                    Err(reply) => {
                        self.answer_call(reply);
                    },
                }
            } else {
                self.pending.remove(0);
                proof {
                    assert(call_views(self.pending@) =~= here.pending.drop_first());
                }
            }
        }
        proof {
            assert(self@.pending.len() == self.pending@.len());
        }
        SqlStep::AskAgain
    }

    fn take_first(&mut self, choice: Option<Choice>) -> (r: SqlStep)
        ensures
            (final(self)@, r@) == after_first(
                old(self)@,
                match choice {
                    Some(c) => Some(c@),
                    None => None,
                },
            ),
    {
        let chosen = match choice {
            Some(c) => c,
            None => {
                return SqlStep::Finish(
                    Err("(sql tool) no choices in first openai response.".to_owned()),
                );
            },
        };
        match chosen.tool_calls {
            Some(calls) => {
                let kept = copy_calls(&calls);
                self.say(
                    ChatMessage::Assistant { content: chosen.content, tool_calls: Some(kept) },
                );
                self.pending = calls;
                self.advance()
            },
            None => {
                let said = crate::openai_api::types::copy_option(&chosen.content);
                self.say(ChatMessage::Assistant { content: chosen.content, tool_calls: None });
                self.pending = Vec::new();
                proof {
                    assert(call_views(self.pending@) =~= Seq::<ToolCallView>::empty());
                }
                match said {
                    Some(s) => SqlStep::Finish(Ok(s)),
                    None => SqlStep::Finish(
                        Err(
                            "(sql tool) first ai response had no content or tool calls.".to_owned(),
                        ),
                    ),
                }
            },
        }
    }

    fn take_rows(&mut self, answer: &Result<Vec<Vec<Column>>, String>) -> (r: SqlStep)
        ensures
            (final(self)@, r@) == after_rows(old(self)@, sql_select::answer_view(*answer)),
    {
        proof {
            assert(self@.pending.len() == self.pending@.len());
        }
        if self.pending.len() == 0 {
            return SqlStep::AskAgain;
        }
        self.answer_call(to_text(&execute_db_query(answer)));
        self.advance()
    }
}

fn copy_calls(calls: &Vec<ToolCall>) -> (r: Vec<ToolCall>)
    ensures
        r@ == calls@,
{
    let mut out: Vec<ToolCall> = Vec::new();
    let mut i: usize = 0;
    while i < calls.len()
        invariant
            i <= calls@.len(),
            out@ == calls@.take(i as int),
        decreases calls@.len() - i,
    {
        out.push(calls[i].clone());
        i += 1;
    }
    proof {
        assert(calls@.take(i as int) =~= calls@);
    }
    out
}

fn take_second(second: Option<Option<String>>) -> (r: SqlStep)
    ensures
        r@ == SqlStep::Finish(
            answer_of(
                match second {
                    Some(content) => Some(text::text_view(content)),
                    None => None,
                },
            ),
        ),
{
    SqlStep::Finish(
        match second {
            Some(Some(content)) => Ok(content),
            Some(None) => Err("(sql tool) second ai response had no content.".to_owned()),
            None => Err("(sql tool) no choices in second openai response.".to_owned()),
        },
    )
}

/// Takes the next step in answering an instruction.
pub fn process_instruction_with_sql_tool(conversation: &mut SqlConversation, event: SqlEvent) -> (r:
    SqlStep)
    ensures
        (final(conversation)@, r@) == next_sql_step(old(conversation)@, event@),
{
    match event {
        SqlEvent::Begin => SqlStep::Ask,
        SqlEvent::First(choice) => conversation.take_first(choice),
        SqlEvent::Rows(answer) => conversation.take_rows(&answer),
        SqlEvent::Second(content) => take_second(content),
    }
}

// ---------------------------------------------------------------------------------------------
// Laws

proof fn lemma_advanced(state: SqlConversationView)
    ensures
        state.messages.is_prefix_of(advanced(state).0.messages),
        ({
            let (next, step) = advanced(state);
            match step {
                SqlStep::RunQuery(query) => next.pending.len() > 0 && is_sql_call(next.pending[0])
                    && asked_query(json::parsed_json(next.pending[0].arguments)) == Ok::<
                    Seq<char>,
                    json::Json,
                >(query) && sql_select::is_select(query),
                SqlStep::AskAgain => next.pending.len() == 0,
                _ => false,
            }
        }),
    decreases state.pending.len(),
{
    if state.pending.len() > 0 {
        let call = state.pending[0];
        if !is_sql_call(call) {
            lemma_advanced(
                SqlConversationView {
                    messages: state.messages,
                    pending: state.pending.drop_first(),
                },
            );
        } else {
            let reply = match asked_query(json::parsed_json(call.arguments)) {
                Ok(query) => json::json_text(sql_select::rejected_json(query)),
                Err(reply) => json::json_text(reply),
            };
            let next = replied(state, reply);
            lemma_advanced(next);
            let all = advanced(next).0.messages;
            assert(state.messages =~= next.messages.take(state.messages.len() as int));
            assert(state.messages =~= all.take(state.messages.len() as int));
        }
    }
}

/// What has been said stays said: whatever the model and the database answer, messages are only
/// added behind those there are.
pub proof fn law_messages_are_only_added(state: SqlConversationView, event: SqlEventView)
    ensures
        state.messages.is_prefix_of(next_sql_step(state, event).0.messages),
{
    match event {
        SqlEvent::First(Some(Choice { content, tool_calls })) => {
            let messages = state.messages.push(ChatMessage::Assistant { content, tool_calls });
            assert(state.messages =~= messages.take(state.messages.len() as int));
            if let Some(calls) = tool_calls {
                lemma_advanced(SqlConversationView { messages, pending: calls });
                let all = next_sql_step(state, event).0.messages;
                assert(state.messages =~= all.take(state.messages.len() as int));
            }
        },
        SqlEvent::Rows(answer) => {
            if state.pending.len() > 0 {
                let next = replied(
                    state,
                    json::json_text(sql_select::results_json(answer)),
                );
                lemma_advanced(next);
                let all = next_sql_step(state, event).0.messages;
                assert(state.messages =~= next.messages.take(state.messages.len() as int));
                assert(state.messages =~= all.take(state.messages.len() as int));
            }
        },
        _ => {},
    }
}

/// Only a SELECT is handed to the database, and only for a call of the tool that asks for it, which
/// is then the first that awaits its answer.
pub proof fn law_only_selects_are_run(state: SqlConversationView, event: SqlEventView)
    ensures
        ({
            let (next, step) = next_sql_step(state, event);
            step matches SqlStep::RunQuery(query) ==> sql_select::is_select(query)
                && next.pending.len() > 0 && is_sql_call(next.pending[0]) && asked_query(
                json::parsed_json(next.pending[0].arguments),
            ) == Ok::<Seq<char>, json::Json>(query)
        }),
{
    lemma_steps(state, event);
}

/// The model is asked again only when no call awaits its answer.
pub proof fn law_calls_are_answered(state: SqlConversationView, event: SqlEventView)
    ensures
        ({
            let (next, step) = next_sql_step(state, event);
            step is AskAgain ==> next.pending.len() == 0
        }),
{
    lemma_steps(state, event);
}

proof fn lemma_steps(state: SqlConversationView, event: SqlEventView)
    ensures
        ({
            let (next, step) = next_sql_step(state, event);
            match step {
                SqlStep::RunQuery(query) => next.pending.len() > 0 && is_sql_call(next.pending[0])
                    && asked_query(json::parsed_json(next.pending[0].arguments)) == Ok::<
                    Seq<char>,
                    json::Json,
                >(query) && sql_select::is_select(query),
                SqlStep::AskAgain => next.pending.len() == 0,
                _ => true,
            }
        }),
{
    match event {
        SqlEvent::First(Some(Choice { content, tool_calls: Some(calls) })) => {
            let messages = state.messages.push(
                ChatMessage::Assistant { content, tool_calls: Some(calls) },
            );
            lemma_advanced(SqlConversationView { messages, pending: calls });
        },
        SqlEvent::Rows(answer) => {
            lemma_advanced(
                replied(state, json::json_text(sql_select::results_json(answer))),
            );
        },
        _ => {},
    }
}

/// Where no call is left, the model is asked again; a call of another tool is passed over, and
/// nothing is said of it.
pub proof fn law_other_calls_are_passed_over(state: SqlConversationView)
    ensures
        state.pending.len() == 0 ==> advanced(state) == (state, SqlStep::<Seq<char>>::AskAgain),
        state.pending.len() > 0 && !(state.pending[0].is_function && state.pending[0].name
            == "execute_sql_query"@) ==> advanced(state) == advanced(
            SqlConversationView { messages: state.messages, pending: state.pending.skip(1) },
        ),
{
    if state.pending.len() > 0 {
        assert(state.pending.drop_first() =~= state.pending.skip(1));
    }
}

/// A call of the tool with a SELECT is waited for while its query is run, as it was given. One with
/// any other query, or with none that can be read, gets its reply under its own id, and the next
/// call follows.
pub proof fn law_each_call_is_run_or_answered(state: SqlConversationView)
    requires
        state.pending.len() > 0,
        state.pending[0].is_function,
        state.pending[0].name == "execute_sql_query"@,
    ensures
        ({
            let call = state.pending[0];
            let on = |content: Seq<char>|
                advanced(
                    SqlConversationView {
                        messages: state.messages.push(
                            ChatMessage::Tool { call_id: call.id, content },
                        ),
                        pending: state.pending.skip(1),
                    },
                );
            match json::parsed_json(call.arguments) {
                Ok(value) => match json::text_member(value, "sql_query"@) {
                    Some(query) => if sql_select::is_select(query) {
                        advanced(state) == (state, SqlStep::RunQuery(query))
                    } else {
                        advanced(state) == on(json::json_text(sql_select::rejected_json(query)))
                    },
                    None => advanced(state) == on(
                        json::json_text(
                            json::status_json(
                                "error"@,
                                "(sql tool) 'sql_query' missing/invalid."@,
                            ),
                        ),
                    ),
                },
                Err(error) => advanced(state) == on(
                    json::json_text(
                        json::status_json(
                            "error"@,
                            "(sql tool) failed to parse tool args: "@ + error,
                        ),
                    ),
                ),
            }
        }),
{
    assert(state.pending.drop_first() =~= state.pending.skip(1));
}

/// The model is asked first; what it chose to say is kept as it said it. A choice without calls ends
/// the conversation in its content; one with calls is worked off from the first call on.
pub proof fn law_the_first_answer_is_followed(
    state: SqlConversationView,
    content: Option<Seq<char>>,
    calls: Seq<ToolCallView>,
)
    ensures
        next_sql_step(state, SqlEvent::Begin) == (state, SqlStep::<Seq<char>>::Ask),
        next_sql_step(
            state,
            SqlEvent::First(Some(Choice { content, tool_calls: Some(calls) })),
        ) == advanced(
            SqlConversationView {
                messages: state.messages.push(
                    ChatMessage::Assistant { content, tool_calls: Some(calls) },
                ),
                pending: calls,
            },
        ),
        ({
            let none = None::<Seq<ToolCallView>>;
            let (next, step) = next_sql_step(
                state,
                SqlEvent::First(Some(Choice { content, tool_calls: none })),
            );
            &&& next.messages == state.messages.push(
                ChatMessage::Assistant { content, tool_calls: none },
            )
            &&& step == SqlStep::Finish(
                match content {
                    Some(s) => Ok(s),
                    None => Err("(sql tool) first ai response had no content or tool calls."@),
                },
            )
        }),
        next_sql_step(
            state,
            SqlEvent::First(None::<Choice<Seq<char>, Seq<ToolCallView>>>),
        ).1 == SqlStep::Finish(Err("(sql tool) no choices in first openai response."@)),
{
}

/// The rows of a query are handed to the model under the id of the call that asked for them, and
/// the next call follows.
pub proof fn law_rows_are_handed_on(
    state: SqlConversationView,
    answer: Result<Seq<Vec<Column>>, Seq<char>>,
)
    ensures
        state.pending.len() > 0 ==> next_sql_step(state, SqlEvent::Rows(answer)) == advanced(
            SqlConversationView {
                messages: state.messages.push(
                    ChatMessage::Tool {
                        call_id: state.pending[0].id,
                        content: json::json_text(sql_select::results_json(answer)),
                    },
                ),
                pending: state.pending.skip(1),
            },
        ),
        state.pending.len() == 0 ==> next_sql_step(state, SqlEvent::Rows(answer)) == (
            state,
            SqlStep::<Seq<char>>::AskAgain,
        ),
{
    if state.pending.len() > 0 {
        assert(state.pending.drop_first() =~= state.pending.skip(1));
    }
}

/// The instruction is answered with what the model says the second time, where it says something.
pub proof fn law_the_second_answer_is_the_last(state: SqlConversationView, content: Seq<char>)
    ensures
        next_sql_step(state, SqlEvent::Second(Some(Some(content)))) == (
            state,
            SqlStep::Finish(Ok(content)),
        ),
        next_sql_step(state, SqlEvent::Second(Some(None))).1 == SqlStep::Finish(
            Err("(sql tool) second ai response had no content."@),
        ),
        next_sql_step(state, SqlEvent::Second(None)).1 == SqlStep::Finish(
            Err("(sql tool) no choices in second openai response."@),
        ),
{
}

/// The model is told the name of the tool that it may call.
pub proof fn law_the_model_is_told_of_the_tool()
    ensures
        text::contains_text(system_prompt(), "'"@ + "execute_sql_query"@ + "'"@),
{
    reveal_strlit("'");
    reveal_strlit("you are a helpful assistant. you have one tool available: '");
    reveal_strlit(
        "'. use it when appropriate to answer user questions. only issue select queries. if you use the tool, summarize the results for the user upon receiving them.",
    );
    let a = "you are a helpful assistant. you have one tool available: '"@;
    let c =
        "'. use it when appropriate to answer user questions. only issue select queries. if you use the tool, summarize the results for the user upon receiving them."@;
    let quoted = "'"@ + "execute_sql_query"@ + "'"@;
    assert(a =~= a.drop_last() + "'"@);
    assert(c =~= "'"@ + c.drop_first());
    assert(system_prompt() =~= a.drop_last() + quoted + c.drop_first());
    text::law_contained_text_is_a_part(system_prompt(), quoted);
}

/// The tool takes an object with one text, the query, which is required.
pub proof fn law_the_tool_takes_a_query()
    ensures
        json::text_member(parameters_json(), "type"@) == Some("object"@),
        json::member(parameters_json(), "required"@) == Some(
            json::Json::Array(seq![json::Json::Text("sql_query"@)]),
        ),
        json::member(parameters_json(), "properties"@) matches Some(properties)
            && json::member(properties, "sql_query"@) matches Some(query) && json::text_member(
            query,
            "type"@,
        ) == Some("string"@),
{
    reveal_strlit("type");
    reveal_strlit("required");
    reveal_strlit("properties");
    reveal_strlit("description");
    assert("type"@.len() == 4);
    assert("required"@.len() == 8);
    assert("properties"@.len() == 10);
    assert("description"@.len() == 11);
}

/// What stands for a call, a message, a step, a choice or an event keeps every part of it.
pub proof fn law_views_keep_every_part(
    call: ToolCall,
    calls: Vec<ToolCall>,
    messages: Seq<ChatMessage>,
    s: String,
    t: String,
    said: Option<String>,
    none: Option<Vec<ToolCall>>,
    choice: Choice,
    answer: Result<Vec<Vec<Column>>, String>,
)
    ensures
        call@.id == call.id@ && call@.is_function == call.is_function && call@.name == call.name@
            && call@.arguments == call.arguments@,
        call_views(calls@).len() == calls@.len(),
        forall|i: int| 0 <= i < calls@.len() ==> #[trigger] call_views(calls@)[i] == calls@[i]@,
        message_views(messages).len() == messages.len(),
        forall|i: int|
            0 <= i < messages.len() ==> #[trigger] message_views(messages)[i] == messages[i]@,
        ChatMessage::<String>::System(s)@ == MessageView::System(s@),
        ChatMessage::<String>::User(s)@ == MessageView::User(s@),
        (ChatMessage::Assistant { content: said, tool_calls: Some(calls) })@
            == (MessageView::Assistant {
            content: text::text_view(said),
            tool_calls: Some(call_views(calls@)),
        }),
        none is None ==> (ChatMessage::Assistant { content: said, tool_calls: none })@
            == (MessageView::Assistant { content: text::text_view(said), tool_calls: None }),
        (ChatMessage::<String>::Tool { call_id: s, content: t })@ == (MessageView::Tool {
            call_id: s@,
            content: t@,
        }),
        choice@.content == text::text_view(choice.content),
        choice.tool_calls matches Some(list) ==> choice@.tool_calls == Some(call_views(list@)),
        choice.tool_calls is None ==> choice@.tool_calls is None,
        SqlStep::<String>::Ask@ == SqlStep::<Seq<char>>::Ask,
        SqlStep::<String>::AskAgain@ == SqlStep::<Seq<char>>::AskAgain,
        SqlStep::RunQuery(s)@ == SqlStep::RunQuery(s@),
        SqlStep::<String>::Finish(Ok(s))@ == SqlStep::Finish(Ok(s@)),
        SqlStep::<String>::Finish(Err(s))@ == SqlStep::Finish(Err(s@)),
        SqlEvent::<String>::First(Some(choice))@ == SqlEventView::First(Some(choice@)),
        SqlEvent::<String>::Rows(answer)@ == SqlEventView::Rows(sql_select::answer_view(answer)),
        SqlEvent::<String>::Second(Some(said))@ == SqlEventView::Second(Some(text::text_view(said))),
        SqlEvent::<String>::Second(None)@ == SqlEventView::Second(None),
{
}

} // verus!
