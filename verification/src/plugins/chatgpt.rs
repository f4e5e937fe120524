//! Conversational memory: an ordered sequence of role-tagged messages, and
//! the commands that put a language model's answers into it.

use vstd::prelude::*;
use crate::dispatch::{
    conclude,
    concluded,
    failed,
    invoke,
    invoked,
    refused,
    reply_model,
    run_of,
    PluginData,
    Protocol,
    Run,
    Transition,
};
use crate::failure::{Failure, FailureModel};
use crate::lookup::{first_index, lemma_first_index_found, lemma_first_index_meaning, same_text};
use crate::payload::{
    all_decode,
    decode_list,
    field_names,
    lemma_list_model,
    lemma_record_model,
    read_list,
    view_of,
    views,
    FromPayload,
    Json,
    Payload,
    ToPayload,
};
use crate::plugins::{Cycle, Handler};
use crate::registry::{
    lemma_with_state,
    names,
    text_outcome,
    through,
    Arguments,
    CommandContext,
    Command,
    CommandImpl,
    CommandModel,
    CommandSheet,
    Hooks,
    Outcome,
    Plugin,
    PluginCycle,
    PluginSheet,
    Seed,
    Slot,
};

verus! {

/// Who wrote a message.
#[derive(Debug, Clone, Copy, PartialEq, Eq, Structural)]
pub enum ChatGPTRole {
    Assistant,
    System,
    User,
}

/// One message of a conversation.
#[derive(Debug, Clone, PartialEq, Eq)]
pub struct ChatGPTMessage {
    pub role: ChatGPTRole,
    pub content: String,
}

/// The mathematical value of a [`ChatGPTMessage`].
pub struct MessageModel {
    pub role: ChatGPTRole,
    pub content: Seq<char>,
}

/// The configuration of the plugin: the credential for the completion
/// provider.
#[derive(Debug, Clone, PartialEq, Eq)]
pub struct ChatGPTPluginConfig {
    pub api_key: String,
}

impl View for ChatGPTRole {
    type V = ChatGPTRole;

    open spec fn view(&self) -> ChatGPTRole {
        *self
    }
}

impl View for ChatGPTMessage {
    type V = MessageModel;

    open spec fn view(&self) -> MessageModel {
        MessageModel { role: self.role, content: self.content@ }
    }
}

impl View for ChatGPTPluginConfig {
    type V = Seq<char>;

    open spec fn view(&self) -> Seq<char> {
        self.api_key@
    }
}

/// The word that stands for a role in a payload.
pub open spec fn role_name(role: ChatGPTRole) -> Seq<char> {
    match role {
        ChatGPTRole::Assistant => "Assistant"@,
        ChatGPTRole::System => "System"@,
        ChatGPTRole::User => "User"@,
    }
}

/// The role that a word stands for.
pub open spec fn role_named(name: Seq<char>) -> Option<ChatGPTRole> {
    if name == "Assistant"@ {
        Some(ChatGPTRole::Assistant)
    } else if name == "System"@ {
        Some(ChatGPTRole::System)
    } else if name == "User"@ {
        Some(ChatGPTRole::User)
    } else {
        None
    }
}

fn role_of(name: &str) -> (role: Option<ChatGPTRole>)
    ensures
        role == role_named(name@),
{
    if same_text(name, "Assistant") {
        Some(ChatGPTRole::Assistant)
    } else if same_text(name, "System") {
        Some(ChatGPTRole::System)
    } else if same_text(name, "User") {
        Some(ChatGPTRole::User)
    } else {
        None
    }
}

impl ToPayload for ChatGPTRole {
    open spec fn encoding(&self) -> Json {
        Json::Text(role_name(*self))
    }

    fn to_payload(&self) -> (payload: Payload) {
        match self {
            ChatGPTRole::Assistant => Payload::Text("Assistant".to_owned()),
            ChatGPTRole::System => Payload::Text("System".to_owned()),
            ChatGPTRole::User => Payload::Text("User".to_owned()),
        }
    }
}

impl FromPayload for ChatGPTRole {
    /// A role is written as its word. A record of one field whose name is
    /// the word and whose value is absent stands for it too.
    open spec fn decoding(json: Json) -> Option<ChatGPTRole> {
        match json {
            Json::Text(name) => role_named(name),
            Json::Record(fields) => if fields.len() == 1 && fields[0].1 == Json::Null {
                role_named(fields[0].0)
            } else {
                None
            },
            _ => None,
        }
    }

    fn from_payload(payload: &Payload) -> (value: Option<ChatGPTRole>) {
        match payload {
            Payload::Text(name) => role_of(name.as_str()),
            Payload::Record(fields) => {
                proof {
                    lemma_record_model(*fields);
                }
                if fields.len() == 1 {
                    match &fields[0].1 {
                        Payload::Null => role_of(fields[0].0.as_str()),
                        _ => None,
                    }
                } else {
                    None
                }
            },
            _ => None,
        }
    }
}

/// The payload of a message: a record of its role and its content.
pub open spec fn encode_message(message: MessageModel) -> Json {
    Json::Record(
        seq![
            ("role"@, Json::Text(role_name(message.role))),
            ("content"@, Json::Text(message.content)),
        ],
    )
}

/// The message that a role and a content make, where both are there and
/// each has its shape.
pub open spec fn decode_parts(role: Option<Json>, content: Option<Json>) -> Option<MessageModel> {
    match (role, content) {
        (Some(role), Some(content)) => match (
            <ChatGPTRole as FromPayload>::decoding(role),
            <String as FromPayload>::decoding(content),
        ) {
            (Some(role), Some(content)) => Some(MessageModel { role, content }),
            _ => None,
        },
        _ => None,
    }
}

/// The message that a payload stands for: a record with the fields `role`
/// and `content` (other fields are passed over), or a list of exactly the
/// role and the content.
pub open spec fn decode_message(json: Json) -> Option<MessageModel> {
    match json {
        Json::Record(_) => decode_parts(json.field("role"@), json.field("content"@)),
        Json::List(items) => if items.len() == 2 {
            decode_parts(Some(items[0]), Some(items[1]))
        } else {
            None
        },
        _ => None,
    }
}

fn message_of(role: Option<&Payload>, content: Option<&Payload>) -> (message: Option<
    ChatGPTMessage,
>)
    ensures
        message is Some <==> decode_parts(view_of(role), view_of(content)) is Some,
        message is Some ==> message.unwrap()@ == decode_parts(
            view_of(role),
            view_of(content),
        ).unwrap(),
{
    let role = match role {
        Some(value) => ChatGPTRole::from_payload(value),
        None => None,
    };
    let content = match content {
        Some(value) => String::from_payload(value),
        None => None,
    };
    match (role, content) {
        (Some(role), Some(content)) => Some(ChatGPTMessage { role, content }),
        _ => None,
    }
}

impl ToPayload for ChatGPTMessage {
    open spec fn encoding(&self) -> Json {
        encode_message(self@)
    }

    fn to_payload(&self) -> (payload: Payload) {
        let mut fields: Vec<(String, Payload)> = Vec::new();
        fields.push(("role".to_owned(), self.role.to_payload()));
        fields.push(("content".to_owned(), Payload::Text(self.content.clone())));
        proof {
            lemma_record_model(fields);
            assert(Payload::Record(fields)@->Record_0 =~= encode_message(self@)->Record_0);
        }
        Payload::Record(fields)
    }
}

impl FromPayload for ChatGPTMessage {
    open spec fn decoding(json: Json) -> Option<MessageModel> {
        decode_message(json)
    }

    fn from_payload(payload: &Payload) -> (value: Option<ChatGPTMessage>) {
        match payload {
            Payload::Record(_) => message_of(payload.field("role"), payload.field("content")),
            Payload::List(items) => {
                proof {
                    lemma_list_model(*items);
                }
                if items.len() == 2 {
                    message_of(Some(&items[0]), Some(&items[1]))
                } else {
                    None
                }
            },
            _ => None,
        }
    }
}

/// The state object of the plugin: the credential it was configured with
/// and the conversation so far.
pub struct ChatGPTData {
    pub api_key: String,
    pub memory: Vec<ChatGPTMessage>,
}

/// The mathematical value of a sequence of messages.
pub open spec fn memory_model(memory: Seq<ChatGPTMessage>) -> Seq<MessageModel> {
    Seq::new(memory.len(), |index: int| memory[index]@)
}

/// The payload of a conversation: the list of its messages, in order.
pub open spec fn encode_memory(memory: Seq<MessageModel>) -> Json {
    Json::List(Seq::new(memory.len(), |index: int| encode_message(memory[index])))
}

/// The items of a state: those of the list it is, and none where it is no
/// list.
pub open spec fn items(state: Json) -> Seq<Json> {
    match state {
        Json::List(items) => items,
        _ => Seq::empty(),
    }
}

/// The request that `respond` hands out for the completion provider: the
/// model to ask, and the whole conversation.
pub open spec fn completion_request(state: Json) -> Json {
    Json::Record(
        seq![("model"@, Json::Text("gpt-3.5-turbo"@)), ("messages"@, Json::List(items(state)))],
    )
}

/// The operations of the conversational memory.
///
/// | name      | payload   | answer                          | state               |
/// |-----------|-----------|---------------------------------|---------------------|
/// | `len`     | any       | the number of messages          | stays               |
/// | `push`    | a message | `true`                          | gets the message    |
/// | `clear`   | any       | `true`                          | becomes empty       |
/// | `respond` | any       | suspends with the request       | stays               |
/// | `get`     | any       | the list of messages, in order  | stays               |
///
/// A `push` whose payload is no message fails with a decode failure and
/// leaves the state as it was.
pub open spec fn chat_call(state: Json, operation: Seq<char>, payload: Json) -> Transition {
    if operation == "len"@ {
        Transition { state, result: Ok(Json::Number(items(state).len() as u64)) }
    } else if operation == "push"@ {
        match decode_message(payload) {
            Some(message) => Transition {
                state: Json::List(items(state).push(encode_message(message))),
                result: Ok(Json::Bool(true)),
            },
            None => Transition { state, result: Err(FailureModel::Decode) },
        }
    } else if operation == "clear"@ {
        Transition { state: Json::List(Seq::empty()), result: Ok(Json::Bool(true)) }
    } else if operation == "respond"@ {
        Transition {
            state,
            result: Err(FailureModel::Suspended { request: completion_request(state) }),
        }
    } else if operation == "get"@ {
        Transition { state, result: Ok(Json::List(items(state))) }
    } else {
        refused("ChatGPT"@, state, operation)
    }
}

/// The conversation after an operation: a push of a message puts it at the
/// end, a clear leaves nothing, and every other call leaves it as it was.
pub open spec fn messages_after(
    messages: Seq<MessageModel>,
    operation: Seq<char>,
    payload: Json,
) -> Seq<MessageModel> {
    if operation == "push"@ {
        match decode_message(payload) {
            Some(message) => messages.push(message),
            None => messages,
        }
    } else if operation == "clear"@ {
        Seq::empty()
    } else {
        messages
    }
}

/// How a suspended operation ends. Only `respond` suspends: its answer is
/// the text that the provider replied with, a reply that is no text is a
/// decode failure, and a failure of the provider comes back with its words.
/// The state stays in each case.
pub open spec fn chat_resume(
    state: Json,
    operation: Seq<char>,
    reply: Result<Json, Seq<char>>,
) -> Transition {
    if operation == "respond"@ {
        match reply {
            Ok(Json::Text(text)) => Transition { state, result: Ok(Json::Text(text)) },
            Ok(_) => Transition { state, result: Err(FailureModel::Decode) },
            Err(detail) => Transition { state, result: Err(FailureModel::External { detail }) },
        }
    } else {
        refused("ChatGPT"@, state, operation)
    }
}

/// The protocol of the conversational memory.
pub open spec fn chat_protocol() -> Protocol {
    Protocol {
        plugin: "ChatGPT"@,
        operations: set!["len"@, "push"@, "clear"@, "respond"@, "get"@],
        call: |state: Json, operation: Seq<char>, payload: Json|
            chat_call(state, operation, payload),
        resume: |state: Json, operation: Seq<char>, reply: Result<Json, Seq<char>>|
            chat_resume(state, operation, reply),
    }
}

/// Writes a conversation as a list payload.
fn memory_payload(memory: &Vec<ChatGPTMessage>) -> (payload: Payload)
    ensures
        payload@ == encode_memory(memory_model(memory@)),
{
    let mut written: Vec<Payload> = Vec::new();
    let mut index: usize = 0;
    while index < memory.len()
        invariant
            index <= memory.len(),
            written@.len() == index,
            forall|earlier: int|
                0 <= earlier < index ==> written@[earlier]@ == encode_message(memory@[earlier]@),
        decreases memory.len() - index,
    {
        written.push(memory[index].to_payload());
        index += 1;
    }
    proof {
        lemma_list_model(written);
        assert(Payload::List(written)@->List_0 =~= items(encode_memory(memory_model(memory@))));
    }
    Payload::List(written)
}

impl ChatGPTData {
    /// A state object with the credential `api_key` and an empty
    /// conversation.
    pub fn new(api_key: String) -> (data: ChatGPTData)
        ensures
            data.api_key == api_key,
            data.messages() == Seq::<MessageModel>::empty(),
            data.state() == Json::List(Seq::empty()),
    {
        let data = ChatGPTData { api_key, memory: Vec::new() };
        assert(data.messages() =~= Seq::<MessageModel>::empty());
        assert(items(data.state()) =~= Seq::<Json>::empty());
        data
    }

    /// The conversation so far.
    pub open spec fn messages(&self) -> Seq<MessageModel> {
        memory_model(self.memory@)
    }

    /// Writes the request for the completion provider.
    fn request(&self) -> (payload: Payload)
        ensures
            payload@ == completion_request(self.state()),
    {
        let mut fields: Vec<(String, Payload)> = Vec::new();
        fields.push(("model".to_owned(), Payload::Text("gpt-3.5-turbo".to_owned())));
        fields.push(("messages".to_owned(), memory_payload(&self.memory)));
        proof {
            lemma_record_model(fields);
            assert(Payload::Record(fields)@->Record_0 =~= completion_request(
                self.state(),
            )->Record_0);
        }
        Payload::Record(fields)
    }
}

impl PluginData for ChatGPTData {
    open spec fn protocol(&self) -> Protocol {
        chat_protocol()
    }

    open spec fn state(&self) -> Json {
        encode_memory(self.messages())
    }

    fn apply(&mut self, name: &str, value: Payload) -> (result: Result<Payload, Failure>)
        ensures
            final(self).api_key == old(self).api_key,
            final(self).messages() == messages_after(old(self).messages(), name@, value@),
    {
        proof {
            lemma_operations_differ();
        }
        if same_text(name, "len") {
            Ok(Payload::Number(self.memory.len() as u64))
        } else if same_text(name, "push") {
            match ChatGPTMessage::from_payload(&value) {
                Some(message) => {
                    self.memory.push(message);
                    assert(self.messages() =~= old(self).messages().push(message@));
                    assert(items(self.state()) =~= items(old(self).state()).push(
                        encode_message(message@),
                    ));
                    Ok(Payload::Bool(true))
                },
                None => Err(Failure::Decode),
            }
        } else if same_text(name, "clear") {
            self.memory.clear();
            assert(self.messages() =~= Seq::<MessageModel>::empty());
            assert(items(self.state()) =~= Seq::<Json>::empty());
            Ok(Payload::Bool(true))
        } else if same_text(name, "respond") {
            Err(Failure::Suspended { request: self.request() })
        } else if same_text(name, "get") {
            Ok(memory_payload(&self.memory))
        } else {
            Err(Failure::NoInvoke { plugin: "ChatGPT".to_owned(), operation: name.to_owned() })
        }
    }

    fn resume(&mut self, name: &str, reply: Result<Payload, String>) -> (result: Result<
        Payload,
        Failure,
    >)
        ensures
            final(self).api_key == old(self).api_key,
            final(self).memory == old(self).memory,
    {
        if same_text(name, "respond") {
            match reply {
                Ok(Payload::Text(text)) => Ok(Payload::Text(text)),
                Ok(_) => Err(Failure::Decode),
                Err(detail) => Err(Failure::External { detail }),
            }
        } else {
            Err(Failure::NoInvoke { plugin: "ChatGPT".to_owned(), operation: name.to_owned() })
        }
    }
}

/// The request that a suspended `respond` carries, as a typed value: the
/// model to ask and the conversation to send.
#[derive(Debug, Clone, PartialEq, Eq)]
pub struct CompletionRequest {
    pub model: String,
    pub messages: Vec<ChatGPTMessage>,
}

/// The mathematical value of a [`CompletionRequest`].
pub struct CompletionModel {
    pub model: Seq<char>,
    pub messages: Seq<MessageModel>,
}

impl View for CompletionRequest {
    type V = CompletionModel;

    open spec fn view(&self) -> CompletionModel {
        CompletionModel { model: self.model@, messages: memory_model(self.messages@) }
    }
}

/// The payload of a request: a record of the model and of the list of
/// messages.
pub open spec fn encode_completion(request: CompletionModel) -> Json {
    Json::Record(
        seq![("model"@, Json::Text(request.model)), ("messages"@, encode_memory(request.messages))],
    )
}

/// The request that a model and a list of messages make, where both are
/// there and each has its shape.
pub open spec fn completion_parts(model: Option<Json>, messages: Option<Json>) -> Option<
    CompletionModel,
> {
    match (model, messages) {
        (Some(Json::Text(model)), Some(messages)) => match decode_list::<ChatGPTMessage>(messages) {
            Some(messages) => Some(CompletionModel { model, messages }),
            None => None,
        },
        _ => None,
    }
}

/// The request that a payload stands for: a record with the fields `model`
/// and `messages` (other fields are passed over), or a list of exactly the
/// model and the messages.
pub open spec fn decode_completion(json: Json) -> Option<CompletionModel> {
    match json {
        Json::Record(_) => completion_parts(json.field("model"@), json.field("messages"@)),
        Json::List(items) => if items.len() == 2 {
            completion_parts(Some(items[0]), Some(items[1]))
        } else {
            None
        },
        _ => None,
    }
}

fn completion_of(model: Option<&Payload>, messages: Option<&Payload>) -> (request: Option<
    CompletionRequest,
>)
    ensures
        request is Some <==> completion_parts(view_of(model), view_of(messages)) is Some,
        request is Some ==> request.unwrap()@ == completion_parts(
            view_of(model),
            view_of(messages),
        ).unwrap(),
{
    let model = match model {
        Some(value) => String::from_payload(value),
        None => None,
    };
    let messages = match messages {
        Some(value) => read_list::<ChatGPTMessage>(value),
        None => None,
    };
    match (model, messages) {
        (Some(model), Some(messages)) => {
            let request = CompletionRequest { model, messages };
            assert(request@.messages =~= views(messages@));
            Some(request)
        },
        _ => None,
    }
}

impl ToPayload for CompletionRequest {
    open spec fn encoding(&self) -> Json {
        encode_completion(self@)
    }

    fn to_payload(&self) -> (payload: Payload) {
        let mut fields: Vec<(String, Payload)> = Vec::new();
        fields.push(("model".to_owned(), Payload::Text(self.model.clone())));
        fields.push(("messages".to_owned(), memory_payload(&self.messages)));
        proof {
            lemma_record_model(fields);
            assert(Payload::Record(fields)@->Record_0 =~= encode_completion(self@)->Record_0);
        }
        Payload::Record(fields)
    }
}

impl FromPayload for CompletionRequest {
    open spec fn decoding(json: Json) -> Option<CompletionModel> {
        decode_completion(json)
    }

    fn from_payload(payload: &Payload) -> (value: Option<CompletionRequest>) {
        match payload {
            Payload::Record(_) => completion_of(payload.field("model"), payload.field("messages")),
            Payload::List(items) => {
                proof {
                    lemma_list_model(*items);
                }
                if items.len() == 2 {
                    completion_of(Some(&items[0]), Some(&items[1]))
                } else {
                    None
                }
            },
            _ => None,
        }
    }
}

/// The system message that opens a conversation.
pub const CHAT_GPT_PROMPT: &'static str =
    "You are ChatGPT, a large language model trained by OpenAI, based on the GPT-3.5 architecture. As an assistant, your purpose is to provide helpful and informative responses to a wide variety of questions and topics, while also engaging in natural and friendly conversation with users.\n\nAs ChatGPT, you must always prioritize safety and appropriate behavior in all interactions. This means that you are programmed to avoid any content that could be harmful or offensive, and to always maintain a respectful and polite tone.";

/// The payload of the message that `role` wrote with the text `content`.
pub open spec fn message(role: ChatGPTRole, content: Seq<char>) -> Json {
    encode_message(MessageModel { role, content })
}

/// The end of a question: the answer is put into the conversation as the
/// assistant's message, and given back.
pub open spec fn noted(protocol: Protocol, state: Json, content: Seq<char>) -> Run<Seq<char>> {
    let pushed = invoked::<bool>(
        protocol,
        state,
        "push"@,
        message(ChatGPTRole::Assistant, content),
    );
    match pushed.result {
        Ok(_) => Run { state: pushed.state, result: Ok(content) },
        Err(failure) => failed(pushed.state, failure),
    }
}

/// The middle of a question: the query is put into the conversation as the
/// user's message, and the model is asked to respond.
pub open spec fn queried(protocol: Protocol, state: Json, query: Seq<char>) -> Run<Seq<char>> {
    let pushed = invoked::<bool>(protocol, state, "push"@, message(ChatGPTRole::User, query));
    match pushed.result {
        Ok(_) => {
            let answered = invoked::<String>(protocol, pushed.state, "respond"@, Json::Bool(true));
            match answered.result {
                Ok(content) => noted(protocol, answered.state, content),
                Err(failure) => failed(answered.state, failure),
            }
        },
        Err(failure) => failed(pushed.state, failure),
    }
}

/// The calling convention of a question, on a state object that follows
/// `protocol` and is in `state`.
///
/// The conversation is measured. Where it is empty, the system message
/// [`CHAT_GPT_PROMPT`] is put in first. Then comes the query as the user's
/// message, the model is asked to respond, and its answer is put in as the
/// assistant's message and given back. The first step that fails ends the
/// run with its failure, the state as that step left it; a `respond` that
/// suspends is such an end.
pub open spec fn asked(protocol: Protocol, state: Json, query: Seq<char>) -> Run<Seq<char>> {
    let counted = invoked::<usize>(protocol, state, "len"@, Json::Bool(true));
    match counted.result {
        Ok(count) => if count == 0 {
            let primed = invoked::<bool>(
                protocol,
                counted.state,
                "push"@,
                message(ChatGPTRole::System, CHAT_GPT_PROMPT@),
            );
            match primed.result {
                Ok(_) => queried(protocol, primed.state, query),
                Err(failure) => failed(primed.state, failure),
            }
        } else {
            queried(protocol, counted.state, query)
        },
        Err(failure) => failed(counted.state, failure),
    }
}

/// The rest of a question whose `respond` was suspended, on the reply of
/// the completion provider.
pub open spec fn answered(protocol: Protocol, state: Json, reply: Result<Json, Seq<char>>) -> Run<
    Seq<char>,
> {
    let concluded = concluded::<String>(protocol, state, "respond"@, reply);
    match concluded.result {
        Ok(content) => noted(protocol, concluded.state, content),
        Err(failure) => failed(concluded.state, failure),
    }
}

/// Puts the answer `content` into the conversation of `data`.
fn note(data: &mut Box<dyn PluginData>, content: String) -> (result: Result<String, Failure>)
    ensures
        final(data).protocol() == old(data).protocol(),
        run_of(final(data).state(), result) == noted(
            old(data).protocol(),
            old(data).state(),
            content@,
        ),
{
    let reply = ChatGPTMessage { role: ChatGPTRole::Assistant, content: content.clone() };
    match invoke::<bool>(&mut *data, "push", reply) {
        Ok(_) => Ok(content),
        Err(failure) => Err(failure),
    }
}

/// Runs the calling convention of a question on `data`.
fn converse(data: &mut Box<dyn PluginData>, query: &str) -> (result: Result<String, Failure>)
    ensures
        final(data).protocol() == old(data).protocol(),
        run_of(final(data).state(), result) == asked(
            old(data).protocol(),
            old(data).state(),
            query@,
        ),
{
    let count = match invoke::<usize>(&mut *data, "len", true) {
        Ok(count) => count,
        Err(failure) => {
            return Err(failure);
        },
    };
    if count == 0 {
        let opening = ChatGPTMessage {
            role: ChatGPTRole::System,
            content: CHAT_GPT_PROMPT.to_owned(),
        };
        match invoke::<bool>(&mut *data, "push", opening) {
            Ok(_) => {},
            Err(failure) => {
                return Err(failure);
            },
        }
    }
    let question = ChatGPTMessage { role: ChatGPTRole::User, content: query.to_owned() };
    match invoke::<bool>(&mut *data, "push", question) {
        Ok(_) => {},
        Err(failure) => {
            return Err(failure);
        },
    }
    match invoke::<String>(&mut *data, "respond", true) {
        Ok(content) => note(&mut *data, content),
        Err(failure) => Err(failure),
    }
}

/// The script of a question about `query`.
pub open spec fn ask_script(query: Seq<char>) -> spec_fn(Protocol, Json) -> Run<Seq<char>> {
    |protocol: Protocol, state: Json| asked(protocol, state, query)
}

/// The script that takes a suspended question up again on `reply`.
pub open spec fn answer_script(reply: Result<Json, Seq<char>>) -> spec_fn(Protocol, Json) -> Run<
    Seq<char>,
> {
    |protocol: Protocol, state: Json| answered(protocol, state, reply)
}

/// The failure of the question command that was given no query.
pub open spec fn query_missing() -> FailureModel {
    FailureModel::NoArg { command: "ask-chatgpt"@, argument: "query"@ }
}

/// What the question command comes to: the question about the argument
/// `query`, or a failure that names the command and the argument where
/// there is none. The argument is looked for before anything else is done.
pub open spec fn chatgpt_outcome(store: Seq<Slot>, args: Map<Seq<char>, Seq<char>>) -> Outcome<
    Seq<char>,
> {
    if args.contains_key("query"@) {
        through(store, "ChatGPT"@, ask_script(args["query"@]))
    } else {
        Outcome { store, result: Err(query_missing()) }
    }
}

/// The script that empties the conversation.
pub open spec fn reset_script() -> spec_fn(Protocol, Json) -> Run<Seq<char>> {
    |protocol: Protocol, state: Json|
        {
            let cleared = invoked::<bool>(protocol, state, "clear"@, Json::Bool(true));
            match cleared.result {
                Ok(_) => Run { state: cleared.state, result: Ok("Successful."@) },
                Err(failure) => failed(cleared.state, failure),
            }
        }
}

/// The script that takes a suspended reset up again on `reply`.
pub open spec fn reset_resume_script(reply: Result<Json, Seq<char>>) -> spec_fn(
    Protocol,
    Json,
) -> Run<Seq<char>> {
    |protocol: Protocol, state: Json|
        {
            let cleared = concluded::<bool>(protocol, state, "clear"@, reply);
            match cleared.result {
                Ok(_) => Run { state: cleared.state, result: Ok("Successful."@) },
                Err(failure) => failed(cleared.state, failure),
            }
        }
}

/// Asks the language model `query` in the conversation that the context
/// holds under the name `ChatGPT`, by the calling convention [`asked`].
///
/// The completion provider is outside: on the memory plugin the run ends in
/// [`Failure::Suspended`] with the request to send, the conversation
/// holding the query, and [`ask_chatgpt_resume`] takes it up again.
pub fn ask_chatgpt(context: &mut CommandContext, query: &str) -> (result: Result<String, Failure>)
    ensures
        text_outcome(final(context)@, result) == through(
            old(context)@,
            "ChatGPT"@,
            ask_script(query@),
        ),
{
    proof {
        lemma_first_index_meaning(names(context@), "ChatGPT"@);
    }
    let data = match context.plugin_data.get_data("ChatGPT") {
        Ok(data) => data,
        Err(failure) => {
            return Err(failure);
        },
    };
    let ghost run = asked(data.protocol(), data.state(), query@);
    let result = converse(data, query);
    proof {
        let index = first_index(names(old(context)@), "ChatGPT"@).unwrap();
        lemma_with_state(old(context)@, context@, index, run.state);
    }
    result
}

/// Takes a suspended question up again: the reply of the completion
/// provider ends `respond`, and the answer is put into the conversation as
/// the assistant's message and given back.
pub fn ask_chatgpt_resume(context: &mut CommandContext, reply: Result<Payload, String>) -> (result:
    Result<String, Failure>)
    ensures
        text_outcome(final(context)@, result) == through(
            old(context)@,
            "ChatGPT"@,
            answer_script(reply_model(reply)),
        ),
{
    proof {
        lemma_first_index_meaning(names(context@), "ChatGPT"@);
    }
    let data = match context.plugin_data.get_data("ChatGPT") {
        Ok(data) => data,
        Err(failure) => {
            return Err(failure);
        },
    };
    let ghost run = answered(data.protocol(), data.state(), reply_model(reply));
    let result = match conclude::<String>(&mut *data, "respond", reply) {
        Ok(content) => note(&mut *data, content),
        Err(failure) => Err(failure),
    };
    proof {
        let index = first_index(names(old(context)@), "ChatGPT"@).unwrap();
        lemma_with_state(old(context)@, context@, index, run.state);
    }
    result
}

/// The command `ask-chatgpt`: asks the language model the argument `query`.
pub fn chatgpt(ctx: &mut CommandContext, args: Arguments) -> (result: Result<String, Failure>)
    ensures
        text_outcome(final(ctx)@, result) == chatgpt_outcome(old(ctx)@, args@),
{
    match args.get("query") {
        Some(query) => ask_chatgpt(ctx, query.as_str()),
        None => Err(
            Failure::NoArg { command: "ask-chatgpt".to_owned(), argument: "query".to_owned() },
        ),
    }
}

/// The command `reset-chatgpt`: empties the conversation.
pub fn reset_chatgpt(ctx: &mut CommandContext, args: Arguments) -> (result: Result<String, Failure>)
    ensures
        text_outcome(final(ctx)@, result) == through(old(ctx)@, "ChatGPT"@, reset_script()),
{
    proof {
        lemma_first_index_meaning(names(ctx@), "ChatGPT"@);
    }
    let data = match ctx.plugin_data.get_data("ChatGPT") {
        Ok(data) => data,
        Err(failure) => {
            return Err(failure);
        },
    };
    let ghost run = reset_script()(data.protocol(), data.state());
    let result = match invoke::<bool>(&mut *data, "clear", true) {
        Ok(_) => Ok("Successful.".to_owned()),
        Err(failure) => Err(failure),
    };
    proof {
        let index = first_index(names(old(ctx)@), "ChatGPT"@).unwrap();
        lemma_with_state(old(ctx)@, ctx@, index, run.state);
    }
    result
}

/// The payload of a configuration: a record of the credential, under the
/// name `api key`.
pub open spec fn encode_config(api_key: Seq<char>) -> Json {
    Json::Record(seq![("api key"@, Json::Text(api_key))])
}

/// The credential that a configuration payload holds: that of the field
/// `api key` of a record, or the one item of a list, where it is a text.
pub open spec fn decode_config(json: Json) -> Option<Seq<char>> {
    match json {
        Json::Record(_) => match json.field("api key"@) {
            Some(Json::Text(api_key)) => Some(api_key),
            _ => None,
        },
        Json::List(items) => if items.len() == 1 {
            <String as FromPayload>::decoding(items[0])
        } else {
            None
        },
        _ => None,
    }
}

impl ToPayload for ChatGPTPluginConfig {
    open spec fn encoding(&self) -> Json {
        encode_config(self.api_key@)
    }

    fn to_payload(&self) -> (payload: Payload) {
        let mut fields: Vec<(String, Payload)> = Vec::new();
        fields.push(("api key".to_owned(), Payload::Text(self.api_key.clone())));
        proof {
            lemma_record_model(fields);
            assert(Payload::Record(fields)@->Record_0 =~= encode_config(self.api_key@)->Record_0);
        }
        Payload::Record(fields)
    }
}

impl FromPayload for ChatGPTPluginConfig {
    open spec fn decoding(json: Json) -> Option<Seq<char>> {
        decode_config(json)
    }

    fn from_payload(payload: &Payload) -> (value: Option<ChatGPTPluginConfig>) {
        let api_key = match payload {
            Payload::Record(_) => match payload.field("api key") {
                Some(value) => String::from_payload(value),
                None => None,
            },
            Payload::List(items) => {
                proof {
                    lemma_list_model(*items);
                }
                if items.len() == 1 {
                    String::from_payload(&items[0])
                } else {
                    None
                }
            },
            _ => None,
        };
        match api_key {
            Some(api_key) => Some(ChatGPTPluginConfig { api_key }),
            None => None,
        }
    }
}

impl ChatGPTData {
    /// The state object that the configuration `value` asks for: one with
    /// its credential and an empty conversation, or nothing where `value`
    /// is no configuration.
    pub fn configure(value: &Payload) -> (data: Option<ChatGPTData>)
        ensures
            match decode_config(value@) {
                Some(api_key) => data is Some && data.unwrap().api_key@ == api_key
                    && data.unwrap().messages() == Seq::<MessageModel>::empty()
                    && data.unwrap().state() == Json::List(Seq::empty()),
                None => data is None,
            },
    {
        match ChatGPTPluginConfig::from_payload(value) {
            Some(config) => Some(ChatGPTData::new(config.api_key)),
            None => None,
        }
    }
}

/// What the command `ask-chatgpt` does.
pub open spec fn chatgpt_command() -> CommandModel {
    CommandModel {
        invoke: |store: Seq<Slot>, args: Map<Seq<char>, Seq<char>>| chatgpt_outcome(store, args),
        resume: |store: Seq<Slot>, args: Map<Seq<char>, Seq<char>>, reply: Result<Json, Seq<char>>|
            through(store, "ChatGPT"@, answer_script(reply)),
    }
}

/// What the command `reset-chatgpt` does.
pub open spec fn reset_command() -> CommandModel {
    CommandModel {
        invoke: |store: Seq<Slot>, args: Map<Seq<char>, Seq<char>>|
            through(store, "ChatGPT"@, reset_script()),
        resume: |store: Seq<Slot>, args: Map<Seq<char>, Seq<char>>, reply: Result<Json, Seq<char>>|
            through(store, "ChatGPT"@, reset_resume_script(reply)),
    }
}

/// The implementation of the command `ask-chatgpt`.
pub struct ChatGPTImpl;

impl CommandImpl for ChatGPTImpl {
    open spec fn model(&self) -> CommandModel {
        chatgpt_command()
    }

    fn invoke(&self, ctx: &mut CommandContext, args: Arguments) -> (result: Result<String, Failure>) {
        chatgpt(ctx, args)
    }

    fn resume(
        &self,
        ctx: &mut CommandContext,
        args: Arguments,
        reply: Result<Payload, String>,
    ) -> (result: Result<String, Failure>) {
        ask_chatgpt_resume(ctx, reply)
    }
}

/// The implementation of the command `reset-chatgpt`.
pub struct ResetChatGPTImpl;

impl CommandImpl for ResetChatGPTImpl {
    open spec fn model(&self) -> CommandModel {
        reset_command()
    }

    fn invoke(&self, ctx: &mut CommandContext, args: Arguments) -> (result: Result<String, Failure>) {
        reset_chatgpt(ctx, args)
    }

    fn resume(
        &self,
        ctx: &mut CommandContext,
        args: Arguments,
        reply: Result<Payload, String>,
    ) -> (result: Result<String, Failure>) {
        proof {
            lemma_first_index_meaning(names(ctx@), "ChatGPT"@);
        }
        let data = match ctx.plugin_data.get_data("ChatGPT") {
            Ok(data) => data,
            Err(failure) => {
                return Err(failure);
            },
        };
        let ghost run = reset_resume_script(reply_model(reply))(data.protocol(), data.state());
        let result = match conclude::<bool>(&mut *data, "clear", reply) {
            Ok(_) => Ok("Successful.".to_owned()),
            Err(failure) => Err(failure),
        };
        proof {
            let index = first_index(names(old(ctx)@), "ChatGPT"@).unwrap();
            lemma_with_state(old(ctx)@, ctx@, index, run.state);
        }
        result
    }
}

/// What the lifecycle hooks of the plugin do: they add no context, let
/// evicted responses go, and make the state object from a configuration.
pub open spec fn chat_hooks() -> Hooks {
    Hooks {
        create_context: |store: Seq<Slot>, previous: Option<Seq<char>>|
            Outcome { store, result: Ok(None) },
        apply_removed_response: |store: Seq<Slot>, response: Json, output: Seq<char>, later: bool|
            Outcome { store, result: Ok(()) },
        create_data: |config: Json|
            match decode_config(config) {
                Some(_) => Some(Seed { protocol: chat_protocol(), state: Json::List(Seq::empty()) }),
                None => None,
            },
    }
}

/// The lifecycle hooks of the plugin.
pub struct ChatGPTCycle;

impl PluginCycle for ChatGPTCycle {
    open spec fn hooks(&self) -> Hooks {
        chat_hooks()
    }

    fn create_context(&self, context: &mut CommandContext, previous_prompt: Option<&str>) -> (result:
        Result<Option<String>, Failure>) {
        Ok(None)
    }

    fn apply_removed_response(
        &self,
        context: &mut CommandContext,
        response: &Payload,
        cmd_output: &str,
        previous_response: bool,
    ) -> (result: Result<(), Failure>) {
        Ok(())
    }

    fn create_data(&self, value: Payload) -> (data: Option<Box<dyn PluginData>>) {
        match ChatGPTData::configure(&value) {
            Some(data) => {
                let boxed: Box<dyn PluginData> = Box::new(data);
                let out = Some(boxed);
                assert(out->Some_0.protocol() == chat_protocol());
                out
            },
            None => None,
        }
    }
}

/// The descriptor of the plugin, as a value.
pub open spec fn chatgpt_sheet() -> PluginSheet {
    PluginSheet {
        name: "ChatGPT"@,
        dependencies: Seq::empty(),
        hooks: chat_hooks(),
        commands: seq![
            CommandSheet {
                name: "ask-chatgpt"@,
                purpose: "Ask ChatGPT, a helpful assistant and large-language model, to help answer your question."@,
                args: seq![("query"@, "The query to ask ChatGPT. Be detailed!"@)],
                run: chatgpt_command(),
            },
            CommandSheet {
                name: "reset-chatgpt"@,
                purpose: "Reset the memory of ChatGPT."@,
                args: Seq::empty(),
                run: reset_command(),
            },
        ],
    }
}

/// The descriptor of the plugin `ChatGPT`: it depends on no other plugin
/// and offers the commands `ask-chatgpt` and `reset-chatgpt`.
pub fn create_chatgpt() -> (plugin: Plugin)
    ensures
        plugin@ == chatgpt_sheet(),
{
    let mut ask_args: Vec<(String, String)> = Vec::new();
    ask_args.push(("query".to_owned(), "The query to ask ChatGPT. Be detailed!".to_owned()));
    let ask = Command {
        name: "ask-chatgpt".to_owned(),
        purpose: "Ask ChatGPT, a helpful assistant and large-language model, to help answer your question.".to_owned(),
        args: ask_args,
        run: Handler::ChatGPT(ChatGPTImpl),
    };
    let reset = Command {
        name: "reset-chatgpt".to_owned(),
        purpose: "Reset the memory of ChatGPT.".to_owned(),
        args: Vec::new(),
        run: Handler::ResetChatGPT(ResetChatGPTImpl),
    };
    let ghost sheets = chatgpt_sheet().commands;
    proof {
        assert(ask@.args =~= sheets[0].args);
        assert(reset@.args =~= sheets[1].args);
        assert(ask@ == sheets[0]);
        assert(reset@ == sheets[1]);
    }
    let mut commands: Vec<Command> = Vec::new();
    commands.push(ask);
    commands.push(reset);
    let plugin = Plugin {
        name: "ChatGPT".to_owned(),
        dependencies: Vec::new(),
        cycle: Cycle::ChatGPT(ChatGPTCycle),
        commands,
    };
    proof {
        assert(plugin@.dependencies =~= chatgpt_sheet().dependencies);
        assert(plugin@.commands =~= sheets);
    }
    plugin
}

/// A role is read back from its word.
pub proof fn lemma_role_round_trip(role: ChatGPTRole)
    ensures
        role_named(role_name(role)) == Some(role),
        <ChatGPTRole as FromPayload>::decoding(role.encoding()) == Some(role),
{
    reveal_strlit("Assistant");
    reveal_strlit("System");
    reveal_strlit("User");
    assert("Assistant"@.len() != "System"@.len());
    assert("Assistant"@.len() != "User"@.len());
    assert("System"@.len() != "User"@.len());
}

/// A message is read back from its payload.
pub proof fn lemma_message_round_trip(message: MessageModel)
    ensures
        decode_message(encode_message(message)) == Some(message),
{
    lemma_role_round_trip(message.role);
    reveal_strlit("role");
    reveal_strlit("content");
    let fields = encode_message(message)->Record_0;
    let names = field_names(fields);
    assert(names[0] == "role"@);
    assert(names[1] == "content"@);
    assert("role"@.len() != "content"@.len());
    lemma_first_index_found(names, "role"@, 0);
    lemma_first_index_found(names, "content"@, 1);
}

/// A request for the completion provider is read back from its payload.
pub proof fn lemma_completion_round_trip(request: CompletionModel)
    ensures
        decode_completion(encode_completion(request)) == Some(request),
{
    reveal_strlit("model");
    reveal_strlit("messages");
    let fields = encode_completion(request)->Record_0;
    let names = field_names(fields);
    assert(names[0] == "model"@);
    assert(names[1] == "messages"@);
    assert("model"@.len() != "messages"@.len());
    lemma_first_index_found(names, "model"@, 0);
    lemma_first_index_found(names, "messages"@, 1);
    let written = fields[1].1->List_0;
    assert forall|index: int| 0 <= index < written.len() implies (
    #[trigger] <ChatGPTMessage as FromPayload>::decoding(written[index])) is Some by {
        lemma_message_round_trip(request.messages[index]);
    }
    assert(all_decode::<ChatGPTMessage>(written));
    let read = decode_list::<ChatGPTMessage>(fields[1].1).unwrap();
    assert forall|index: int| 0 <= index < read.len() implies read[index]
        == request.messages[index] by {
        lemma_message_round_trip(request.messages[index]);
    }
    assert(read =~= request.messages);
}

/// The request that `respond` hands out is the payload of the typed
/// request for the model `gpt-3.5-turbo` with the whole conversation, so
/// that request is what a reader of it gets.
pub proof fn lemma_respond_request(messages: Seq<MessageModel>)
    ensures
        ({
            let request = CompletionModel { model: "gpt-3.5-turbo"@, messages };
            &&& completion_request(encode_memory(messages)) == encode_completion(request)
            &&& decode_completion(completion_request(encode_memory(messages))) == Some(request)
        }),
{
    let request = CompletionModel { model: "gpt-3.5-turbo"@, messages };
    lemma_completion_round_trip(request);
}

/// A credential is read back from its configuration.
pub proof fn lemma_config_round_trip(api_key: Seq<char>)
    ensures
        decode_config(encode_config(api_key)) == Some(api_key),
{
    let names = field_names(encode_config(api_key)->Record_0);
    assert(names[0] == "api key"@);
    lemma_first_index_found(names, "api key"@, 0);
}

/// The names of the five operations differ from each other.
pub proof fn lemma_operations_differ()
    ensures
        "len"@ != "push"@,
        "len"@ != "clear"@,
        "len"@ != "respond"@,
        "len"@ != "get"@,
        "push"@ != "clear"@,
        "push"@ != "respond"@,
        "push"@ != "get"@,
        "clear"@ != "respond"@,
        "clear"@ != "get"@,
        "respond"@ != "get"@,
{
    reveal_strlit("len");
    reveal_strlit("push");
    reveal_strlit("clear");
    reveal_strlit("respond");
    reveal_strlit("get");
    assert("len"@.len() == 3 && "push"@.len() == 4 && "clear"@.len() == 5 && "respond"@.len() == 7);
    assert("get"@.len() == 3 && "len"@[0] != "get"@[0]);
}

/// A name outside the dispatch table is refused, whatever the state, the
/// payload and the reply: the failure carries the plugin's name and the name
/// asked for, and the state stays.
pub proof fn lemma_unknown_operation(
    state: Json,
    operation: Seq<char>,
    payload: Json,
    reply: Result<Json, Seq<char>>,
)
    requires
        !chat_protocol().operations.contains(operation),
    ensures
        chat_call(state, operation, payload) == refused("ChatGPT"@, state, operation),
        chat_resume(state, operation, reply) == refused("ChatGPT"@, state, operation),
{
}

/// After a message was pushed, `get` answers the conversation as it was,
/// in order, with the message at its end.
pub proof fn lemma_push_then_get(state: Json, message: MessageModel, any: Json)
    ensures
        ({
            let pushed = chat_call(state, "push"@, encode_message(message));
            &&& pushed.result == Ok::<Json, FailureModel>(Json::Bool(true))
            &&& chat_call(pushed.state, "get"@, any).result == Ok::<Json, FailureModel>(
                Json::List(items(state).push(encode_message(message))),
            )
            &&& items(pushed.state).last() == encode_message(message)
            &&& items(pushed.state).drop_last() == items(state)
        }),
{
    lemma_operations_differ();
    lemma_message_round_trip(message);
    let pushed = chat_call(state, "push"@, encode_message(message));
    assert(items(pushed.state).drop_last() =~= items(state));
}

/// After `clear`, `len` answers 0.
pub proof fn lemma_clear_then_len(state: Json, any: Json, other: Json)
    ensures
        ({
            let cleared = chat_call(state, "clear"@, any);
            &&& cleared.result == Ok::<Json, FailureModel>(Json::Bool(true))
            &&& chat_call(cleared.state, "len"@, other).result == Ok::<Json, FailureModel>(
                Json::Number(0),
            )
        }),
{
    lemma_operations_differ();
}

/// The state that a sequence of calls leaves, one after the other.
pub open spec fn chat_run(state: Json, calls: Seq<(Seq<char>, Json)>) -> Json
    decreases calls.len(),
{
    if calls.len() == 0 {
        state
    } else {
        chat_call(chat_run(state, calls.drop_last()), calls.last().0, calls.last().1).state
    }
}

/// The number of messages that a sequence of calls leaves in a conversation
/// of `start` messages: each push of a message adds one, and each clear
/// begins at none again.
pub open spec fn count_after(start: nat, calls: Seq<(Seq<char>, Json)>) -> nat
    decreases calls.len(),
{
    if calls.len() == 0 {
        start
    } else {
        let before = count_after(start, calls.drop_last());
        let call = calls.last();
        if call.0 == "clear"@ {
            0
        } else if call.0 == "push"@ && decode_message(call.1) is Some {
            before + 1
        } else {
            before
        }
    }
}

/// After any sequence of calls, the conversation holds as many messages as
/// were pushed since the last clear, and `len` answers that number.
pub proof fn lemma_len_counts(state: Json, calls: Seq<(Seq<char>, Json)>, any: Json)
    ensures
        items(chat_run(state, calls)).len() == count_after(items(state).len(), calls),
        chat_call(chat_run(state, calls), "len"@, any).result == Ok::<Json, FailureModel>(
            Json::Number(count_after(items(state).len(), calls) as u64),
        ),
    decreases calls.len(),
{
    lemma_operations_differ();
    if calls.len() > 0 {
        lemma_len_counts(state, calls.drop_last(), any);
    }
}

/// The number of calls that push a message.
pub open spec fn pushes(calls: Seq<(Seq<char>, Json)>) -> nat
    decreases calls.len(),
{
    if calls.len() == 0 {
        0
    } else if calls.last().0 == "push"@ && decode_message(calls.last().1) is Some {
        pushes(calls.drop_last()) + 1
    } else {
        pushes(calls.drop_last())
    }
}

/// No call clears the conversation.
pub open spec fn never_cleared(calls: Seq<(Seq<char>, Json)>) -> bool {
    forall|index: int| 0 <= index < calls.len() ==> (#[trigger] calls[index]).0 != "clear"@
}

/// Where no call clears the conversation, it grows by the number of
/// messages pushed.
pub proof fn lemma_len_without_clear(state: Json, calls: Seq<(Seq<char>, Json)>)
    requires
        never_cleared(calls),
    ensures
        items(chat_run(state, calls)).len() == items(state).len() + pushes(calls),
{
    lemma_len_counts(state, calls, Json::Null);
    lemma_count_without_clear(items(state).len(), calls);
}

proof fn lemma_count_without_clear(start: nat, calls: Seq<(Seq<char>, Json)>)
    requires
        never_cleared(calls),
    ensures
        count_after(start, calls) == start + pushes(calls),
    decreases calls.len(),
{
    if calls.len() > 0 {
        assert(calls[calls.len() - 1].0 != "clear"@);
        assert forall|index: int| 0 <= index < calls.drop_last().len() implies (
        #[trigger] calls.drop_last()[index]).0 != "clear"@ by {
            assert(calls.drop_last()[index] == calls[index]);
        }
        lemma_count_without_clear(start, calls.drop_last());
    }
}

/// A question in an empty conversation puts the system message in first
/// and the query after it, and is suspended with the request to send,
/// which holds both. The reply of the provider then ends it: the answer
/// comes third, and is given back. The conversation is then exactly the
/// system message, the user's and the assistant's.
pub proof fn lemma_first_question(state: Json, query: Seq<char>, answer: Seq<char>)
    requires
        items(state).len() == 0,
    ensures
        ({
            let opened = Json::List(
                seq![
                    message(ChatGPTRole::System, CHAT_GPT_PROMPT@),
                    message(ChatGPTRole::User, query),
                ],
            );
            let closed = Json::List(
                seq![
                    message(ChatGPTRole::System, CHAT_GPT_PROMPT@),
                    message(ChatGPTRole::User, query),
                    message(ChatGPTRole::Assistant, answer),
                ],
            );
            &&& asked(chat_protocol(), state, query) == failed::<Seq<char>>(
                opened,
                FailureModel::Suspended { request: completion_request(opened) },
            )
            &&& answered(chat_protocol(), opened, Ok(Json::Text(answer))) == (Run {
                state: closed,
                result: Ok::<Seq<char>, FailureModel>(answer),
            })
        }),
{
    lemma_operations_differ();
    let system = MessageModel { role: ChatGPTRole::System, content: CHAT_GPT_PROMPT@ };
    let user = MessageModel { role: ChatGPTRole::User, content: query };
    let assistant = MessageModel { role: ChatGPTRole::Assistant, content: answer };
    lemma_message_round_trip(system);
    lemma_message_round_trip(user);
    lemma_message_round_trip(assistant);
    let first = Json::List(items(state).push(encode_message(system)));
    let opened = Json::List(seq![encode_message(system), encode_message(user)]);
    let closed = Json::List(
        seq![encode_message(system), encode_message(user), encode_message(assistant)],
    );
    assert(items(first).push(encode_message(user)) =~= items(opened));
    assert(items(opened).push(encode_message(assistant)) =~= items(closed));
    let counted = invoked::<usize>(chat_protocol(), state, "len"@, Json::Bool(true));
    assert(counted.result == Ok::<usize, FailureModel>(0usize));
    assert(counted.state == state);
    let primed = invoked::<bool>(chat_protocol(), state, "push"@, encode_message(system));
    assert(primed.state == first);
    assert(primed.result is Ok);
    let pushed = invoked::<bool>(chat_protocol(), first, "push"@, encode_message(user));
    assert(pushed.state == opened);
    assert(pushed.result is Ok);
}

} // verus!
