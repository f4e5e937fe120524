use agent_plugins::dispatch::{invoke, PluginData, Protocol};
use agent_plugins::failure::Failure;
use agent_plugins::payload::{read_list, FromPayload, Json, Payload, ToPayload};
use agent_plugins::plugins::browse::BrowseRequest;
use agent_plugins::plugins::chatgpt::{
    ChatGPTData, ChatGPTMessage, ChatGPTRole, CompletionRequest,
};
use agent_plugins::plugins::google::{google, GoogleImpl, GoogleNoQueryError};
use agent_plugins::plugins::Cycle;
use agent_plugins::registry::{
    Arguments, CommandContext, CommandImpl, Hooks, Plugin, PluginCycle,
};

/// A state object that answers every operation with a text and counts the
/// calls it got. Its operation `seen` gives the count and is not counted.
struct Counting {
    seen: u64,
}

impl PluginData for Counting {
    fn protocol(&self) -> Protocol {
        unreachable!()
    }

    fn state(&self) -> Json {
        unreachable!()
    }

    fn apply(&mut self, name: &str, _value: Payload) -> Result<Payload, Failure> {
        if name == "seen" {
            Ok(Payload::Number(self.seen))
        } else {
            self.seen += 1;
            Ok(Payload::Text(format!("answer {}", self.seen)))
        }
    }

    fn resume(&mut self, _name: &str, _reply: Result<Payload, String>) -> Result<Payload, Failure> {
        self.seen += 1;
        Err(Failure::Decode)
    }
}

/// A state object that answers every operation with a number.
struct Numbers;

impl PluginData for Numbers {
    fn protocol(&self) -> Protocol {
        unreachable!()
    }

    fn state(&self) -> Json {
        unreachable!()
    }

    fn apply(&mut self, _name: &str, _value: Payload) -> Result<Payload, Failure> {
        Ok(Payload::Number(1))
    }

    fn resume(&mut self, _name: &str, _reply: Result<Payload, String>) -> Result<Payload, Failure> {
        Ok(Payload::Number(1))
    }
}

struct Holder(fn() -> Box<dyn PluginData>);

impl PluginCycle for Holder {
    fn hooks(&self) -> Hooks {
        unreachable!()
    }

    fn create_context(
        &self,
        _context: &mut CommandContext,
        _previous_prompt: Option<&str>,
    ) -> Result<Option<String>, Failure> {
        Ok(None)
    }

    fn apply_removed_response(
        &self,
        _context: &mut CommandContext,
        _response: &Payload,
        _cmd_output: &str,
        _previous_response: bool,
    ) -> Result<(), Failure> {
        Ok(())
    }

    fn create_data(&self, _value: Payload) -> Option<Box<dyn PluginData>> {
        Some((self.0)())
    }
}

fn holding(name: &str, make: fn() -> Box<dyn PluginData>) -> Plugin {
    Plugin {
        name: name.to_string(),
        dependencies: vec![],
        cycle: Cycle::Custom(Box::new(Holder(make))),
        commands: vec![],
    }
}

fn counting() -> CommandContext {
    let mut context = CommandContext::new();
    assert!(context.install(&holding("Google", || Box::new(Counting { seen: 0 })), Payload::Null));
    assert!(context.install(&holding("Browse", || Box::new(Counting { seen: 0 })), Payload::Null));
    context
}

fn seen(context: &mut CommandContext, plugin: &str) -> u64 {
    let data = context.plugin_data.get_data(plugin).unwrap();
    match data.apply("seen", Payload::Null) {
        Ok(Payload::Number(count)) => count,
        other => panic!("no count: {:?}", other),
    }
}

fn text(value: &str) -> Payload {
    Payload::Text(value.to_string())
}

fn record(fields: Vec<(&str, Payload)>) -> Payload {
    Payload::Record(fields.into_iter().map(|(name, value)| (name.to_string(), value)).collect())
}

#[test]
fn search_without_a_query_attempts_no_operation() {
    let mut context = counting();
    assert_eq!(google(&mut context, Arguments::new()), Err(Failure::NoQuery(GoogleNoQueryError)));
    assert_eq!(seen(&mut context, "Google"), 0);
    assert_eq!(seen(&mut context, "Browse"), 0);
    let mut other = Arguments::new();
    other.insert("q".to_string(), "cats".to_string());
    assert_eq!(GoogleImpl.invoke(&mut context, other), Err(Failure::NoQuery(GoogleNoQueryError)));
    assert_eq!(seen(&mut context, "Google"), 0);
    assert_eq!(seen(&mut context, "Browse"), 0);
}

#[test]
fn search_without_a_query_fails_so_whatever_the_store_holds() {
    let mut empty = CommandContext::new();
    assert_eq!(google(&mut empty, Arguments::new()), Err(Failure::NoQuery(GoogleNoQueryError)));
    let mut odd = CommandContext::new();
    assert!(odd.install(&holding("Google", || Box::new(Numbers)), Payload::Null));
    assert_eq!(google(&mut odd, Arguments::new()), Err(Failure::NoQuery(GoogleNoQueryError)));
}

#[test]
fn search_with_a_query_reads_both_credentials_then_fetches_once() {
    let mut context = counting();
    let mut args = Arguments::new();
    args.insert("query".to_string(), "cats".to_string());
    assert_eq!(google(&mut context, args), Ok("answer 1".to_string()));
    assert_eq!(seen(&mut context, "Google"), 2);
    assert_eq!(seen(&mut context, "Browse"), 1);
}

#[test]
fn search_with_a_query_and_odd_credentials_is_a_decode_failure() {
    let mut context = CommandContext::new();
    assert!(context.install(&holding("Google", || Box::new(Numbers)), Payload::Null));
    let mut args = Arguments::new();
    args.insert("query".to_string(), "cats".to_string());
    assert_eq!(google(&mut context, args), Err(Failure::Decode));
}

#[test]
fn page_request_is_read_back_from_its_payload() {
    let request = BrowseRequest {
        url: "https://example.org/search".to_string(),
        params: vec![
            ("q".to_string(), "cats".to_string()),
            ("num".to_string(), "7".to_string()),
        ],
    };
    assert_eq!(BrowseRequest::from_payload(&request.to_payload()), Some(request.clone()));
    let listed = Payload::List(vec![
        text("https://example.org/search"),
        Payload::List(vec![
            Payload::List(vec![text("q"), text("cats")]),
            Payload::List(vec![text("num"), text("7")]),
        ]),
    ]);
    assert_eq!(BrowseRequest::from_payload(&listed), Some(request));
    let bare = record(vec![("params", Payload::List(vec![])), ("url", text("u")), ("x", text("y"))]);
    assert_eq!(
        BrowseRequest::from_payload(&bare),
        Some(BrowseRequest { url: "u".to_string(), params: vec![] })
    );
}

#[test]
fn page_request_of_another_shape_is_not_read() {
    assert_eq!(BrowseRequest::from_payload(&text("u")), None);
    assert_eq!(BrowseRequest::from_payload(&record(vec![("url", text("u"))])), None);
    assert_eq!(
        BrowseRequest::from_payload(&record(vec![("url", text("u")), ("params", text("p"))])),
        None
    );
    assert_eq!(
        BrowseRequest::from_payload(&record(vec![
            ("url", Payload::Number(1)),
            ("params", Payload::List(vec![])),
        ])),
        None
    );
    for odd in [
        Payload::List(vec![text("q")]),
        Payload::List(vec![text("q"), text("cats"), text("more")]),
        Payload::List(vec![text("q"), Payload::Number(7)]),
        text("q=cats"),
    ] {
        let written = record(vec![
            ("url", text("u")),
            ("params", Payload::List(vec![Payload::List(vec![text("a"), text("b")]), odd])),
        ]);
        assert_eq!(BrowseRequest::from_payload(&written), None);
    }
    assert_eq!(BrowseRequest::from_payload(&Payload::List(vec![text("u")])), None);
}

#[test]
fn parameter_is_a_list_of_name_and_value() {
    let pair = ("q".to_string(), "cats".to_string());
    assert_eq!(pair.to_payload(), Payload::List(vec![text("q"), text("cats")]));
    assert_eq!(<(String, String)>::from_payload(&pair.to_payload()), Some(pair));
    assert_eq!(<(String, String)>::from_payload(&record(vec![("q", text("cats"))])), None);
}

#[test]
fn completion_request_of_a_suspended_respond_is_read_back() {
    let mut data: Box<dyn PluginData> = Box::new(ChatGPTData::new("k".to_string()));
    let first = ChatGPTMessage { role: ChatGPTRole::System, content: "be kind".to_string() };
    let second = ChatGPTMessage { role: ChatGPTRole::User, content: "hi".to_string() };
    assert_eq!(invoke::<bool>(&mut data, "push", first.clone()), Ok(true));
    assert_eq!(invoke::<bool>(&mut data, "push", second.clone()), Ok(true));
    let request = match data.apply("respond", Payload::Null) {
        Err(Failure::Suspended { request }) => request,
        other => panic!("not suspended: {:?}", other),
    };
    let expected = CompletionRequest {
        model: "gpt-3.5-turbo".to_string(),
        messages: vec![first, second],
    };
    assert_eq!(CompletionRequest::from_payload(&request), Some(expected.clone()));
    assert_eq!(expected.to_payload(), request);
}

#[test]
fn completion_request_of_another_shape_is_not_read() {
    let message = record(vec![("role", text("User")), ("content", text("hi"))]);
    assert_eq!(
        CompletionRequest::from_payload(&record(vec![
            ("model", text("m")),
            ("messages", Payload::List(vec![message, text("not a message")])),
        ])),
        None
    );
    assert_eq!(CompletionRequest::from_payload(&record(vec![("model", text("m"))])), None);
    assert_eq!(
        CompletionRequest::from_payload(&record(vec![
            ("model", Payload::Null),
            ("messages", Payload::List(vec![])),
        ])),
        None
    );
    assert_eq!(CompletionRequest::from_payload(&Payload::Bool(true)), None);
    assert_eq!(
        CompletionRequest::from_payload(&Payload::List(vec![text("m"), Payload::List(vec![])])),
        Some(CompletionRequest { model: "m".to_string(), messages: vec![] })
    );
}

#[test]
fn list_is_read_whole_or_not_at_all() {
    let numbers = Payload::List(vec![Payload::Number(1), Payload::Number(2)]);
    assert_eq!(read_list::<usize>(&numbers), Some(vec![1, 2]));
    assert_eq!(read_list::<usize>(&Payload::List(vec![])), Some(vec![]));
    let mixed = Payload::List(vec![Payload::Number(1), text("2"), Payload::Number(3)]);
    assert_eq!(read_list::<usize>(&mixed), None);
    assert_eq!(read_list::<usize>(&Payload::Number(1)), None);
    assert_eq!(read_list::<String>(&numbers), None);
}

#[test]
fn missing_query_names_the_command_and_the_argument() {
    let mut context = CommandContext::new();
    match google(&mut context, Arguments::new()) {
        Err(Failure::NoQuery(missing)) => {
            assert_eq!(missing.command(), "google");
            assert_eq!(missing.argument(), "query");
            assert_eq!(missing.message(), "'google' command did not receive a query.");
        }
        other => panic!("not the missing query: {:?}", other),
    }
}
