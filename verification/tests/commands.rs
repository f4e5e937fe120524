use agent_plugins::dispatch::{invoke, PluginData};
use agent_plugins::failure::Failure;
use agent_plugins::payload::{FromPayload, Payload};
use agent_plugins::plugins::chatgpt::{
    ask_chatgpt, ask_chatgpt_resume, chatgpt, create_chatgpt, reset_chatgpt, ChatGPTCycle,
    ChatGPTData, ChatGPTImpl, ChatGPTMessage, ChatGPTRole, ResetChatGPTImpl, CHAT_GPT_PROMPT,
};
use agent_plugins::plugins::{Cycle, Handler};
use agent_plugins::registry::{Arguments, CommandContext, CommandImpl, PluginCycle};

fn text(value: &str) -> Payload {
    Payload::Text(value.to_string())
}

fn record(fields: Vec<(&str, Payload)>) -> Payload {
    Payload::Record(fields.into_iter().map(|(name, value)| (name.to_string(), value)).collect())
}

fn written(role: &str, content: &str) -> Payload {
    record(vec![("role", text(role)), ("content", text(content))])
}

fn chatting() -> CommandContext {
    let mut context = CommandContext::new();
    assert!(context.install(&create_chatgpt(), record(vec![("api key", text("k"))])));
    context
}

fn query(value: &str) -> Arguments {
    let mut args = Arguments::new();
    args.insert("query".to_string(), value.to_string());
    args
}

fn conversation(context: &mut CommandContext) -> Vec<ChatGPTMessage> {
    let data = context.plugin_data.get_data("ChatGPT").unwrap();
    match data.apply("get", Payload::Null).unwrap() {
        Payload::List(items) => {
            items.iter().map(|item| ChatGPTMessage::from_payload(item).unwrap()).collect()
        }
        other => panic!("not a list: {:?}", other),
    }
}

fn said(role: ChatGPTRole, content: &str) -> ChatGPTMessage {
    ChatGPTMessage { role, content: content.to_string() }
}

fn request_for(messages: Vec<Payload>) -> Payload {
    record(vec![("model", text("gpt-3.5-turbo")), ("messages", Payload::List(messages))])
}

#[test]
fn first_question_after_clear_is_system_user_assistant() {
    let mut context = chatting();
    {
        let data = context.plugin_data.get_data("ChatGPT").unwrap();
        assert_eq!(invoke::<bool>(data, "push", said(ChatGPTRole::User, "old")), Ok(true));
    }
    assert_eq!(reset_chatgpt(&mut context, Arguments::new()), Ok("Successful.".to_string()));
    let suspended = ask_chatgpt(&mut context, "what is verus?");
    assert_eq!(
        suspended,
        Err(Failure::Suspended {
            request: request_for(vec![
                written("System", CHAT_GPT_PROMPT),
                written("User", "what is verus?"),
            ]),
        })
    );
    assert_eq!(
        ask_chatgpt_resume(&mut context, Ok(text("a verifier"))),
        Ok("a verifier".to_string())
    );
    assert_eq!(
        conversation(&mut context),
        vec![
            said(ChatGPTRole::System, CHAT_GPT_PROMPT),
            said(ChatGPTRole::User, "what is verus?"),
            said(ChatGPTRole::Assistant, "a verifier"),
        ]
    );
}

#[test]
fn second_question_adds_no_system_message() {
    let mut context = chatting();
    assert!(matches!(ask_chatgpt(&mut context, "one"), Err(Failure::Suspended { .. })));
    assert_eq!(ask_chatgpt_resume(&mut context, Ok(text("1"))), Ok("1".to_string()));
    assert!(matches!(ask_chatgpt(&mut context, "two"), Err(Failure::Suspended { .. })));
    assert_eq!(ask_chatgpt_resume(&mut context, Ok(text("2"))), Ok("2".to_string()));
    assert_eq!(
        conversation(&mut context),
        vec![
            said(ChatGPTRole::System, CHAT_GPT_PROMPT),
            said(ChatGPTRole::User, "one"),
            said(ChatGPTRole::Assistant, "1"),
            said(ChatGPTRole::User, "two"),
            said(ChatGPTRole::Assistant, "2"),
        ]
    );
}

#[test]
fn failed_provider_leaves_the_question_without_an_answer() {
    let mut context = chatting();
    assert!(matches!(ask_chatgpt(&mut context, "one"), Err(Failure::Suspended { .. })));
    assert_eq!(
        ask_chatgpt_resume(&mut context, Err("no network".to_string())),
        Err(Failure::External { detail: "no network".to_string() })
    );
    assert_eq!(
        ask_chatgpt_resume(&mut context, Ok(Payload::List(vec![]))),
        Err(Failure::Decode)
    );
    assert_eq!(
        conversation(&mut context),
        vec![said(ChatGPTRole::System, CHAT_GPT_PROMPT), said(ChatGPTRole::User, "one")]
    );
}

#[test]
fn question_command_needs_its_query() {
    let mut context = chatting();
    assert_eq!(
        chatgpt(&mut context, Arguments::new()),
        Err(Failure::NoArg { command: "ask-chatgpt".to_string(), argument: "query".to_string() })
    );
    assert_eq!(conversation(&mut context), vec![]);
    let mut empty = CommandContext::new();
    assert_eq!(
        chatgpt(&mut empty, Arguments::new()),
        Err(Failure::NoArg { command: "ask-chatgpt".to_string(), argument: "query".to_string() })
    );
}

#[test]
fn commands_without_the_state_object_are_absent() {
    let mut context = CommandContext::new();
    let absent = Err(Failure::Absent { plugin: "ChatGPT".to_string() });
    assert_eq!(chatgpt(&mut context, query("hi")), absent);
    assert_eq!(ask_chatgpt(&mut context, "hi"), absent);
    assert_eq!(ask_chatgpt_resume(&mut context, Ok(text("x"))), absent);
    assert_eq!(reset_chatgpt(&mut context, Arguments::new()), absent);
}

#[test]
fn question_command_runs_the_convention() {
    let mut context = chatting();
    assert_eq!(
        chatgpt(&mut context, query("hi")),
        Err(Failure::Suspended {
            request: request_for(vec![written("System", CHAT_GPT_PROMPT), written("User", "hi")]),
        })
    );
}

#[test]
fn handlers_run_their_commands() {
    let mut context = chatting();
    assert!(matches!(
        ChatGPTImpl.invoke(&mut context, query("hi")),
        Err(Failure::Suspended { .. })
    ));
    assert_eq!(
        ChatGPTImpl.resume(&mut context, query("hi"), Ok(text("hello"))),
        Ok("hello".to_string())
    );
    assert_eq!(conversation(&mut context).len(), 3);
    assert_eq!(
        ResetChatGPTImpl.invoke(&mut context, Arguments::new()),
        Ok("Successful.".to_string())
    );
    assert_eq!(conversation(&mut context), vec![]);
    assert_eq!(
        ResetChatGPTImpl.resume(&mut context, Arguments::new(), Ok(Payload::Bool(true))),
        Err(Failure::NoInvoke { plugin: "ChatGPT".to_string(), operation: "clear".to_string() })
    );
}

#[test]
fn descriptor_lists_both_commands() {
    let plugin = create_chatgpt();
    assert_eq!(plugin.name, "ChatGPT");
    assert!(plugin.dependencies.is_empty());
    assert!(matches!(plugin.cycle, Cycle::ChatGPT(_)));
    assert_eq!(plugin.commands.len(), 2);
    assert_eq!(plugin.commands[0].name, "ask-chatgpt");
    assert_eq!(
        plugin.commands[0].purpose,
        "Ask ChatGPT, a helpful assistant and large-language model, to help answer your question."
    );
    assert_eq!(
        plugin.commands[0].args,
        vec![("query".to_string(), "The query to ask ChatGPT. Be detailed!".to_string())]
    );
    assert!(matches!(plugin.commands[0].run, Handler::ChatGPT(_)));
    assert_eq!(plugin.commands[1].name, "reset-chatgpt");
    assert_eq!(plugin.commands[1].purpose, "Reset the memory of ChatGPT.");
    assert!(plugin.commands[1].args.is_empty());
    assert!(matches!(plugin.commands[1].run, Handler::ResetChatGPT(_)));
}

#[test]
fn descriptor_commands_run_through_their_handlers() {
    let plugin = create_chatgpt();
    let mut context = chatting();
    assert!(matches!(
        plugin.commands[0].run.invoke(&mut context, query("hi")),
        Err(Failure::Suspended { .. })
    ));
    assert_eq!(
        plugin.commands[1].run.invoke(&mut context, Arguments::new()),
        Ok("Successful.".to_string())
    );
    assert_eq!(conversation(&mut context), vec![]);
}

#[test]
fn hooks_add_nothing_and_let_responses_go() {
    let mut context = chatting();
    assert_eq!(ChatGPTCycle.create_context(&mut context, None), Ok(None));
    assert_eq!(ChatGPTCycle.create_context(&mut context, Some("earlier")), Ok(None));
    assert_eq!(
        ChatGPTCycle.apply_removed_response(&mut context, &Payload::Null, "output", true),
        Ok(())
    );
    assert_eq!(conversation(&mut context), vec![]);
    let plugin = create_chatgpt();
    assert_eq!(plugin.cycle.create_context(&mut context, None), Ok(None));
    assert_eq!(
        plugin.cycle.apply_removed_response(&mut context, &text("response"), "", false),
        Ok(())
    );
}

#[test]
fn state_construction_needs_a_credential() {
    assert!(ChatGPTCycle.create_data(record(vec![("api key", text("k"))])).is_some());
    assert!(ChatGPTCycle.create_data(Payload::List(vec![text("k")])).is_some());
    assert!(ChatGPTCycle.create_data(record(vec![("key", text("k"))])).is_none());
    assert!(ChatGPTCycle.create_data(record(vec![("api key", Payload::Number(1))])).is_none());
    assert!(ChatGPTCycle.create_data(Payload::Null).is_none());
    let data = ChatGPTData::configure(&record(vec![("api key", text("k")), ("more", text("x"))]));
    let data = data.unwrap();
    assert_eq!(data.api_key, "k");
    assert!(data.memory.is_empty());
    let mut context = CommandContext::new();
    assert!(!context.install(&create_chatgpt(), Payload::Null));
    assert_eq!(context.plugin_data.len(), 0);
}

#[test]
fn state_object_is_made_once_per_name() {
    let mut context = chatting();
    {
        let data = context.plugin_data.get_data("ChatGPT").unwrap();
        assert_eq!(invoke::<bool>(data, "push", said(ChatGPTRole::User, "kept")), Ok(true));
    }
    assert!(!context.install(&create_chatgpt(), record(vec![("api key", text("other"))])));
    assert_eq!(context.plugin_data.len(), 1);
    assert_eq!(conversation(&mut context), vec![said(ChatGPTRole::User, "kept")]);
}
