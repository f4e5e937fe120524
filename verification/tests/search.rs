use agent_plugins::dispatch::{invoke, PluginData, Protocol};
use agent_plugins::failure::Failure;
use agent_plugins::payload::{FromPayload, Json, Payload, ToPayload};
use agent_plugins::plugins::browse::BrowseRequest;
use agent_plugins::plugins::google::{
    create_google, google, google_result, google_resume, search_request, GoogleData,
    GoogleNoQueryError,
};
use agent_plugins::plugins::Cycle;
use agent_plugins::registry::{Arguments, CommandContext, Hooks, Plugin, PluginCycle};

/// A page-fetching plugin that never fetches: it hands the request out, and
/// takes the page as the reply.
struct Fetcher {
    seen: usize,
}

impl PluginData for Fetcher {
    fn protocol(&self) -> Protocol {
        unreachable!()
    }

    fn state(&self) -> Json {
        unreachable!()
    }

    fn apply(&mut self, name: &str, value: Payload) -> Result<Payload, Failure> {
        if name == "browse" {
            self.seen += 1;
            Err(Failure::Suspended { request: value })
        } else {
            Err(Failure::NoInvoke { plugin: "Browse".to_string(), operation: name.to_string() })
        }
    }

    fn resume(&mut self, name: &str, reply: Result<Payload, String>) -> Result<Payload, Failure> {
        if name == "browse" {
            match reply {
                Ok(page) => Ok(page),
                Err(detail) => Err(Failure::External { detail }),
            }
        } else {
            Err(Failure::NoInvoke { plugin: "Browse".to_string(), operation: name.to_string() })
        }
    }
}

/// A page-fetching plugin that answers at once.
struct Canned;

impl PluginData for Canned {
    fn protocol(&self) -> Protocol {
        unreachable!()
    }

    fn state(&self) -> Json {
        unreachable!()
    }

    fn apply(&mut self, name: &str, _value: Payload) -> Result<Payload, Failure> {
        if name == "browse" {
            Ok(Payload::Text("{\"items\":[]}".to_string()))
        } else {
            Err(Failure::NoInvoke { plugin: "Browse".to_string(), operation: name.to_string() })
        }
    }

    fn resume(&mut self, name: &str, _reply: Result<Payload, String>) -> Result<Payload, Failure> {
        Err(Failure::NoInvoke { plugin: "Browse".to_string(), operation: name.to_string() })
    }
}

/// Hooks that make the state object they were given the recipe of.
struct Holder(fn() -> Box<dyn PluginData>);

impl PluginCycle for Holder {
    fn hooks(&self) -> Hooks {
        unreachable!()
    }

    fn create_context(
        &self,
        _context: &mut CommandContext,
        _previous_prompt: Option<&str>,
    ) -> Result<Option<String>, Failure> {
        Ok(None)
    }

    fn apply_removed_response(
        &self,
        _context: &mut CommandContext,
        _response: &Payload,
        _cmd_output: &str,
        _previous_response: bool,
    ) -> Result<(), Failure> {
        Ok(())
    }

    fn create_data(&self, _value: Payload) -> Option<Box<dyn PluginData>> {
        Some((self.0)())
    }
}

/// A plugin without commands whose state object is made by `make`.
fn holding(name: &str, make: fn() -> Box<dyn PluginData>) -> Plugin {
    Plugin {
        name: name.to_string(),
        dependencies: vec![],
        cycle: Cycle::Custom(Box::new(Holder(make))),
        commands: vec![],
    }
}

fn text(value: &str) -> Payload {
    Payload::Text(value.to_string())
}

fn record(fields: Vec<(&str, Payload)>) -> Payload {
    Payload::Record(fields.into_iter().map(|(name, value)| (name.to_string(), value)).collect())
}

fn credentials() -> Payload {
    record(vec![("cse id", text("engine")), ("api key", text("key"))])
}

fn query(value: &str) -> Arguments {
    let mut args = Arguments::new();
    args.insert("query".to_string(), value.to_string());
    args
}

fn searching() -> CommandContext {
    let mut context = CommandContext::new();
    assert!(context.install(&create_google(), credentials()));
    context
}

fn page_request(value: &str) -> Payload {
    record(vec![
        ("url", text("https://www.googleapis.com/customsearch/v1")),
        (
            "params",
            Payload::List(vec![
                Payload::List(vec![text("key"), text("key")]),
                Payload::List(vec![text("cx"), text("engine")]),
                Payload::List(vec![text("q"), text(value)]),
                Payload::List(vec![text("num"), text("7")]),
            ]),
        ),
    ])
}

#[test]
fn search_state_gives_its_credentials() {
    let mut context = searching();
    let data = context.plugin_data.get_data("Google").unwrap();
    assert_eq!(invoke::<String>(data, "get api key", true), Ok("key".to_string()));
    assert_eq!(invoke::<String>(data, "get cse id", true), Ok("engine".to_string()));
}

#[test]
fn nonexistent_operation_on_the_search_state() {
    let mut context = searching();
    let data = context.plugin_data.get_data("Google").unwrap();
    assert_eq!(
        data.apply("nonexistent", Payload::Null),
        Err(Failure::NoInvoke { plugin: "Google".to_string(), operation: "nonexistent".to_string() })
    );
    assert_eq!(
        data.resume("get api key", Ok(Payload::Null)),
        Err(Failure::NoInvoke { plugin: "Google".to_string(), operation: "get api key".to_string() })
    );
}

#[test]
fn search_request_has_the_four_parameters_in_order() {
    let request = search_request("key", "engine", "rust verification");
    assert_eq!(request.url, "https://www.googleapis.com/customsearch/v1");
    assert_eq!(
        request.params,
        vec![
            ("key".to_string(), "key".to_string()),
            ("cx".to_string(), "engine".to_string()),
            ("q".to_string(), "rust verification".to_string()),
            ("num".to_string(), "7".to_string()),
        ]
    );
    assert_eq!(request.to_payload(), page_request("rust verification"));
}

#[test]
fn search_without_its_state_is_absent() {
    let mut context = CommandContext::new();
    assert_eq!(
        google(&mut context, query("cats")),
        Err(Failure::Absent { plugin: "Google".to_string() })
    );
}

#[test]
fn search_without_a_query_fails_before_fetching() {
    let mut context = searching();
    assert_eq!(google(&mut context, Arguments::new()), Err(Failure::NoQuery(GoogleNoQueryError)));
}

#[test]
fn search_without_the_fetching_plugin_is_absent() {
    let mut context = searching();
    assert_eq!(
        google(&mut context, query("cats")),
        Err(Failure::Absent { plugin: "Browse".to_string() })
    );
}

#[test]
fn search_suspends_with_the_page_request_and_resumes_with_the_page() {
    let mut context = searching();
    assert!(context.install(&holding("Browse", || Box::new(Fetcher { seen: 0 })), Payload::Null));
    assert_eq!(
        google(&mut context, query("cats")),
        Err(Failure::Suspended { request: page_request("cats") })
    );
    assert_eq!(
        google_resume(&mut context, query("cats"), Ok(text("the page"))),
        Ok("the page".to_string())
    );
    assert_eq!(
        google_resume(&mut context, query("cats"), Err("timeout".to_string())),
        Err(Failure::External { detail: "timeout".to_string() })
    );
    assert_eq!(
        google_resume(&mut context, query("cats"), Ok(Payload::Null)),
        Err(Failure::Decode)
    );
}

#[test]
fn search_with_an_answering_fetcher_gives_the_page() {
    let mut context = searching();
    assert!(context.install(&holding("Browse", || Box::new(Canned)), Payload::Null));
    assert_eq!(google(&mut context, query("cats")), Ok("{\"items\":[]}".to_string()));
}

#[test]
fn search_text_for_a_page_that_was_read() {
    assert_eq!(
        google_result("cats", Some("{\"items\":[]}")),
        "{\"items\":[]}\n\nYou may want to consider using 'browse-article' to browse the searched websites."
    );
}

#[test]
fn search_text_for_a_page_that_could_not_be_read() {
    assert_eq!(
        google_result("cats", None),
        "Unable to parse your Google request for \"cats\" Try modifying your query or waiting a bit."
    );
}

#[test]
fn missing_query_has_its_words() {
    assert_eq!(GoogleNoQueryError.message(), "'google' command did not receive a query.");
}

#[test]
fn credentials_are_read_from_a_record_or_a_list() {
    let expected = GoogleData { cse_id: "engine".to_string(), api_key: "key".to_string() };
    assert_eq!(GoogleData::from_payload(&credentials()), Some(expected.clone()));
    assert_eq!(
        GoogleData::from_payload(&Payload::List(vec![text("engine"), text("key")])),
        Some(expected.clone())
    );
    assert_eq!(
        GoogleData::from_payload(&record(vec![
            ("api key", text("key")),
            ("extra", Payload::Null),
            ("cse id", text("engine")),
        ])),
        Some(expected.clone())
    );
    assert_eq!(GoogleData::from_payload(&record(vec![("api key", text("key"))])), None);
    assert_eq!(GoogleData::from_payload(&Payload::List(vec![text("engine")])), None);
    assert_eq!(
        GoogleData::from_payload(&Payload::List(vec![text("a"), text("b"), text("c")])),
        None
    );
    assert_eq!(GoogleData::from_payload(&text("key")), None);
    assert_eq!(expected.to_payload(), credentials());
}

#[test]
fn invalid_credentials_leave_the_plugin_absent() {
    let mut context = CommandContext::new();
    assert!(!context.install(&create_google(), record(vec![("api key", Payload::Number(1))])));
    assert_eq!(context.plugin_data.len(), 0);
    assert_eq!(
        google(&mut context, query("cats")),
        Err(Failure::Absent { plugin: "Google".to_string() })
    );
}

#[test]
fn browse_request_type_is_plain_data() {
    let request = BrowseRequest { url: "u".to_string(), params: vec![] };
    assert_eq!(
        request.to_payload(),
        record(vec![("url", text("u")), ("params", Payload::List(vec![]))])
    );
}
