//! Web search through a search engine's programmable interface.
//!
//! The state object keeps the two credentials of the search engine. The
//! command looks for its query first, then reads the credentials, makes the
//! request for the result page and has the page-fetching plugin fetch it.

use vstd::prelude::*;
use crate::dispatch::{
    conclude,
    concluded,
    failed,
    invoke,
    invoked,
    refused,
    reply_model,
    PluginData,
    Protocol,
    Run,
    Transition,
};
use crate::failure::{Failure, FailureModel};
use crate::lookup::{first_index, lemma_first_index_meaning, same_text};
use crate::payload::{
    lemma_list_model,
    lemma_record_model,
    view_of,
    FromPayload,
    Json,
    Payload,
    ToPayload,
};
use crate::plugins::browse::{encode_browse, BrowseModel, BrowseRequest};
use crate::plugins::{Cycle, Handler};
use crate::registry::{
    lemma_with_state,
    names,
    text_outcome,
    through,
    Arguments,
    Command,
    CommandContext,
    CommandImpl,
    CommandModel,
    CommandSheet,
    Hooks,
    Outcome,
    Plugin,
    PluginCycle,
    PluginSheet,
    Seed,
    Slot,
};

verus! {

/// The search command was run without a query.
#[derive(Debug, Clone, PartialEq, Eq)]
pub struct GoogleNoQueryError;

impl GoogleNoQueryError {
    /// The name of the command that failed.
    pub fn command(&self) -> (name: String)
        ensures
            name@ == "google"@,
    {
        "google".to_owned()
    }

    /// The name of the argument that the command did not get.
    pub fn argument(&self) -> (name: String)
        ensures
            name@ == "query"@,
    {
        "query".to_owned()
    }

    /// The words of the failure.
    pub fn message(&self) -> (text: String)
        ensures
            text@ == "'google' command did not receive a query."@,
    {
        "'google' command did not receive a query.".to_owned()
    }
}

/// The state object of the plugin: the credentials of the search engine.
#[derive(Debug, Clone, PartialEq, Eq)]
pub struct GoogleData {
    pub cse_id: String,
    pub api_key: String,
}

/// The mathematical value of a [`GoogleData`].
pub struct GoogleModel {
    pub cse_id: Seq<char>,
    pub api_key: Seq<char>,
}

impl View for GoogleData {
    type V = GoogleModel;

    open spec fn view(&self) -> GoogleModel {
        GoogleModel { cse_id: self.cse_id@, api_key: self.api_key@ }
    }
}

/// The payload of the credentials: a record of the two, under the names
/// `cse id` and `api key`.
pub open spec fn encode_google(data: GoogleModel) -> Json {
    Json::Record(seq![("cse id"@, Json::Text(data.cse_id)), ("api key"@, Json::Text(data.api_key))])
}

/// The credentials that two payloads make, where both are there and both
/// are texts.
pub open spec fn google_parts(cse_id: Option<Json>, api_key: Option<Json>) -> Option<GoogleModel> {
    match (cse_id, api_key) {
        (Some(Json::Text(cse_id)), Some(Json::Text(api_key))) => Some(
            GoogleModel { cse_id, api_key },
        ),
        _ => None,
    }
}

/// The credentials that a payload holds: those of the fields `cse id` and
/// `api key` of a record (other fields are passed over), or those of a list
/// of exactly the two, in this order.
pub open spec fn decode_google(json: Json) -> Option<GoogleModel> {
    match json {
        Json::Record(_) => google_parts(json.field("cse id"@), json.field("api key"@)),
        Json::List(items) => if items.len() == 2 {
            google_parts(Some(items[0]), Some(items[1]))
        } else {
            None
        },
        _ => None,
    }
}

fn google_of(cse_id: Option<&Payload>, api_key: Option<&Payload>) -> (data: Option<GoogleData>)
    ensures
        data is Some <==> google_parts(view_of(cse_id), view_of(api_key)) is Some,
        data is Some ==> data.unwrap()@ == google_parts(view_of(cse_id), view_of(api_key)).unwrap(),
{
    let cse_id = match cse_id {
        Some(value) => String::from_payload(value),
        None => None,
    };
    let api_key = match api_key {
        Some(value) => String::from_payload(value),
        None => None,
    };
    match (cse_id, api_key) {
        (Some(cse_id), Some(api_key)) => Some(GoogleData { cse_id, api_key }),
        _ => None,
    }
}

impl ToPayload for GoogleData {
    open spec fn encoding(&self) -> Json {
        encode_google(self@)
    }

    fn to_payload(&self) -> (payload: Payload) {
        let mut fields: Vec<(String, Payload)> = Vec::new();
        fields.push(("cse id".to_owned(), Payload::Text(self.cse_id.clone())));
        fields.push(("api key".to_owned(), Payload::Text(self.api_key.clone())));
        proof {
            lemma_record_model(fields);
            assert(Payload::Record(fields)@->Record_0 =~= encode_google(self@)->Record_0);
        }
        Payload::Record(fields)
    }
}

impl FromPayload for GoogleData {
    open spec fn decoding(json: Json) -> Option<GoogleModel> {
        decode_google(json)
    }

    fn from_payload(payload: &Payload) -> (value: Option<GoogleData>) {
        match payload {
            Payload::Record(_) => google_of(payload.field("cse id"), payload.field("api key")),
            Payload::List(items) => {
                proof {
                    lemma_list_model(*items);
                }
                if items.len() == 2 {
                    google_of(Some(&items[0]), Some(&items[1]))
                } else {
                    None
                }
            },
            _ => None,
        }
    }
}

/// The text of the field `name` of a state, and no text where the state
/// has no such field.
pub open spec fn credential(state: Json, name: Seq<char>) -> Seq<char> {
    match state.field(name) {
        Some(Json::Text(text)) => text,
        _ => Seq::empty(),
    }
}

/// The operations of the plugin.
///
/// | name          | payload | answer             | state |
/// |---------------|---------|--------------------|-------|
/// | `get api key` | any     | the key            | stays |
/// | `get cse id`  | any     | the engine's name  | stays |
pub open spec fn google_call(state: Json, operation: Seq<char>, payload: Json) -> Transition {
    if operation == "get api key"@ {
        Transition { state, result: Ok(Json::Text(credential(state, "api key"@))) }
    } else if operation == "get cse id"@ {
        Transition { state, result: Ok(Json::Text(credential(state, "cse id"@))) }
    } else {
        refused("Google"@, state, operation)
    }
}

/// The protocol of the plugin. No operation of it suspends, so there is
/// none to resume.
pub open spec fn google_protocol() -> Protocol {
    Protocol {
        plugin: "Google"@,
        operations: set!["get api key"@, "get cse id"@],
        call: |state: Json, operation: Seq<char>, payload: Json|
            google_call(state, operation, payload),
        resume: |state: Json, operation: Seq<char>, reply: Result<Json, Seq<char>>|
            refused("Google"@, state, operation),
    }
}

/// The two credentials are read back from the state as they are, and the
/// state object from its own payload.
pub proof fn lemma_credentials(data: GoogleModel)
    ensures
        credential(encode_google(data), "cse id"@) == data.cse_id,
        credential(encode_google(data), "api key"@) == data.api_key,
        decode_google(encode_google(data)) == Some(data),
{
    reveal_strlit("cse id");
    reveal_strlit("api key");
    let names = crate::payload::field_names(encode_google(data)->Record_0);
    assert(names[0] == "cse id"@);
    assert(names[1] == "api key"@);
    assert("cse id"@[0] != "api key"@[0]);
    crate::lookup::lemma_first_index_found(names, "cse id"@, 0);
    crate::lookup::lemma_first_index_found(names, "api key"@, 1);
}

impl PluginData for GoogleData {
    open spec fn protocol(&self) -> Protocol {
        google_protocol()
    }

    open spec fn state(&self) -> Json {
        encode_google(self@)
    }

    fn apply(&mut self, name: &str, value: Payload) -> (result: Result<Payload, Failure>)
        ensures
            *final(self) == *old(self),
    {
        proof {
            lemma_credentials(self@);
        }
        if same_text(name, "get api key") {
            Ok(Payload::Text(self.api_key.clone()))
        } else if same_text(name, "get cse id") {
            Ok(Payload::Text(self.cse_id.clone()))
        } else {
            Err(Failure::NoInvoke { plugin: "Google".to_owned(), operation: name.to_owned() })
        }
    }

    fn resume(&mut self, name: &str, reply: Result<Payload, String>) -> (result: Result<
        Payload,
        Failure,
    >)
        ensures
            *final(self) == *old(self),
    {
        Err(Failure::NoInvoke { plugin: "Google".to_owned(), operation: name.to_owned() })
    }
}

/// The request for the result page of `query`: the address of the search
/// interface, and as parameters the key, the engine's name, the query and
/// the number of results to give, which is 7.
pub open spec fn search_model(api_key: Seq<char>, cse_id: Seq<char>, query: Seq<char>) -> BrowseModel {
    BrowseModel {
        url: "https://www.googleapis.com/customsearch/v1"@,
        params: seq![("key"@, api_key), ("cx"@, cse_id), ("q"@, query), ("num"@, "7"@)],
    }
}

/// Makes the request for the result page of `query`.
pub fn search_request(api_key: &str, cse_id: &str, query: &str) -> (request: BrowseRequest)
    ensures
        request@ == search_model(api_key@, cse_id@, query@),
{
    let mut params: Vec<(String, String)> = Vec::new();
    params.push(("key".to_owned(), api_key.to_owned()));
    params.push(("cx".to_owned(), cse_id.to_owned()));
    params.push(("q".to_owned(), query.to_owned()));
    params.push(("num".to_owned(), "7".to_owned()));
    let request = BrowseRequest {
        url: "https://www.googleapis.com/customsearch/v1".to_owned(),
        params,
    };
    assert(request@.params =~= search_model(api_key@, cse_id@, query@).params);
    request
}

/// The script that reads the two credentials: first the key, then the
/// engine's name.
pub open spec fn credentials_script() -> spec_fn(Protocol, Json) -> Run<(Seq<char>, Seq<char>)> {
    |protocol: Protocol, state: Json|
        {
            let key = invoked::<String>(protocol, state, "get api key"@, Json::Bool(true));
            match key.result {
                Ok(api_key) => {
                    let engine = invoked::<String>(
                        protocol,
                        key.state,
                        "get cse id"@,
                        Json::Bool(true),
                    );
                    match engine.result {
                        Ok(cse_id) => Run { state: engine.state, result: Ok((api_key, cse_id)) },
                        Err(failure) => failed(engine.state, failure),
                    }
                },
                Err(failure) => failed(key.state, failure),
            }
        }
}

/// The script that has the page of `request` fetched.
pub open spec fn fetch_script(request: BrowseModel) -> spec_fn(Protocol, Json) -> Run<Seq<char>> {
    |protocol: Protocol, state: Json|
        invoked::<String>(protocol, state, "browse"@, encode_browse(request))
}

/// The script that takes a suspended fetch up again on `reply`.
pub open spec fn fetched_script(reply: Result<Json, Seq<char>>) -> spec_fn(Protocol, Json) -> Run<
    Seq<char>,
> {
    |protocol: Protocol, state: Json| concluded::<String>(protocol, state, "browse"@, reply)
}

/// What the search command comes to.
///
/// The argument `query` is looked for before anything else is done: without
/// it the command fails with [`Failure::NoQuery`], no operation is called
/// and the store stays as it was. With it, the credentials are read from
/// the state object stored under `Google`; then the state object stored
/// under `Browse` is asked, by its operation `browse`, for the result page
/// of the query, and the body of the page is the answer. The first step
/// that fails ends the run with its failure.
pub open spec fn google_outcome(store: Seq<Slot>, args: Map<Seq<char>, Seq<char>>) -> Outcome<
    Seq<char>,
> {
    if args.contains_key("query"@) {
        let looked = through(store, "Google"@, credentials_script());
        match looked.result {
            Ok((api_key, cse_id)) => through(
                looked.store,
                "Browse"@,
                fetch_script(search_model(api_key, cse_id, args["query"@])),
            ),
            Err(failure) => Outcome { store: looked.store, result: Err(failure) },
        }
    } else {
        Outcome { store, result: Err(FailureModel::NoQuery) }
    }
}

/// The run that leaves `state` and gives the credentials `result`.
pub open spec fn credentials_run(state: Json, result: Result<(String, String), Failure>) -> Run<
    (Seq<char>, Seq<char>),
> {
    Run {
        state,
        result: match result {
            Ok((api_key, cse_id)) => Ok((api_key@, cse_id@)),
            Err(failure) => Err(failure@),
        },
    }
}

/// Reads the two credentials from `data`.
fn credentials(data: &mut Box<dyn PluginData>) -> (result: Result<(String, String), Failure>)
    ensures
        final(data).protocol() == old(data).protocol(),
        credentials_run(final(data).state(), result) == credentials_script()(
            old(data).protocol(),
            old(data).state(),
        ),
{
    let api_key = match invoke::<String>(&mut *data, "get api key", true) {
        Ok(api_key) => api_key,
        Err(failure) => {
            return Err(failure);
        },
    };
    match invoke::<String>(&mut *data, "get cse id", true) {
        Ok(cse_id) => Ok((api_key, cse_id)),
        Err(failure) => Err(failure),
    }
}

/// The command `google`, up to the result page: looks for the argument
/// `query`, reads the credentials, makes the request for the page of the
/// query, and has the page-fetching plugin fetch it. The answer is the body
/// of the page; [`google_result`] makes the command's text of it.
///
/// Without the argument nothing is attempted: the failure comes before any
/// state object is looked up or called.
///
/// Fetching is outside work: a page-fetching plugin ends the run in
/// [`Failure::Suspended`] with the request, and [`google_resume`] takes it
/// up again.
pub fn google(ctx: &mut CommandContext, args: Arguments) -> (result: Result<String, Failure>)
    ensures
        text_outcome(final(ctx)@, result) == google_outcome(old(ctx)@, args@),
        !args@.contains_key("query"@) ==> final(ctx)@ == old(ctx)@ && result is Err
            && result->Err_0@ == FailureModel::NoQuery,
{
    let query = match args.get("query") {
        Some(query) => query,
        None => {
            return Err(Failure::NoQuery(GoogleNoQueryError));
        },
    };
    proof {
        lemma_first_index_meaning(names(ctx@), "Google"@);
    }
    let data = match ctx.plugin_data.get_data("Google") {
        Ok(data) => data,
        Err(failure) => {
            return Err(failure);
        },
    };
    let ghost looked = credentials_script()(data.protocol(), data.state());
    let found = credentials(data);
    proof {
        let index = first_index(names(old(ctx)@), "Google"@).unwrap();
        lemma_with_state(old(ctx)@, ctx@, index, looked.state);
    }
    let (api_key, cse_id) = match found {
        Ok(pair) => pair,
        Err(failure) => {
            return Err(failure);
        },
    };
    let request = search_request(api_key.as_str(), cse_id.as_str(), query.as_str());
    let ghost middle = ctx@;
    proof {
        lemma_first_index_meaning(names(middle), "Browse"@);
    }
    let browse = match ctx.plugin_data.get_data("Browse") {
        Ok(browse) => browse,
        Err(failure) => {
            return Err(failure);
        },
    };
    let ghost fetched = fetch_script(request@)(browse.protocol(), browse.state());
    let result = invoke::<String>(&mut *browse, "browse", request);
    proof {
        let index = first_index(names(middle), "Browse"@).unwrap();
        lemma_with_state(middle, ctx@, index, fetched.state);
    }
    result
}

/// Takes a suspended search up again: the reply ends the operation `browse`
/// of the state object stored under `Browse`, and the answer is the body
/// of the page.
pub fn google_resume(ctx: &mut CommandContext, args: Arguments, reply: Result<Payload, String>) -> (result:
    Result<String, Failure>)
    ensures
        text_outcome(final(ctx)@, result) == through(
            old(ctx)@,
            "Browse"@,
            fetched_script(reply_model(reply)),
        ),
{
    proof {
        lemma_first_index_meaning(names(ctx@), "Browse"@);
    }
    let browse = match ctx.plugin_data.get_data("Browse") {
        Ok(browse) => browse,
        Err(failure) => {
            return Err(failure);
        },
    };
    let ghost fetched = fetched_script(reply_model(reply))(browse.protocol(), browse.state());
    let result = conclude::<String>(&mut *browse, "browse", reply);
    proof {
        let index = first_index(names(old(ctx)@), "Browse"@).unwrap();
        lemma_with_state(old(ctx)@, ctx@, index, fetched.state);
    }
    result
}

/// The text of the search command, from the query and from what the result
/// page came to when it was read as a search response and written again,
/// `None` where it could not be read.
pub open spec fn result_text(query: Seq<char>, response: Option<Seq<char>>) -> Seq<char> {
    match response {
        Some(text) => text
            + "\n\nYou may want to consider using 'browse-article' to browse the searched websites."@,
        None => "Unable to parse your Google request for \""@ + query
            + "\" Try modifying your query or waiting a bit."@,
    }
}

/// Makes the text of the search command. A page that could not be read is
/// no failure of the command: its text then says so, and names the query.
pub fn google_result(query: &str, response: Option<&str>) -> (text: String)
    ensures
        text@ == result_text(
            query@,
            match response {
                Some(found) => Some(found@),
                None => None,
            },
        ),
{
    match response {
        Some(found) => found.to_owned().concat(
            "\n\nYou may want to consider using 'browse-article' to browse the searched websites.",
        ),
        None => "Unable to parse your Google request for \"".to_owned().concat(query).concat(
            "\" Try modifying your query or waiting a bit.",
        ),
    }
}

/// What the command `google` does.
pub open spec fn google_command() -> CommandModel {
    CommandModel {
        invoke: |store: Seq<Slot>, args: Map<Seq<char>, Seq<char>>| google_outcome(store, args),
        resume: |store: Seq<Slot>, args: Map<Seq<char>, Seq<char>>, reply: Result<Json, Seq<char>>|
            through(store, "Browse"@, fetched_script(reply)),
    }
}

/// The implementation of the command `google`.
pub struct GoogleImpl;

impl CommandImpl for GoogleImpl {
    open spec fn model(&self) -> CommandModel {
        google_command()
    }

    fn invoke(&self, ctx: &mut CommandContext, args: Arguments) -> (result: Result<String, Failure>) {
        google(ctx, args)
    }

    fn resume(
        &self,
        ctx: &mut CommandContext,
        args: Arguments,
        reply: Result<Payload, String>,
    ) -> (result: Result<String, Failure>) {
        google_resume(ctx, args, reply)
    }
}

/// What the lifecycle hooks of the plugin do: they add no context, let
/// evicted responses go, and make the state object from the credentials.
pub open spec fn google_hooks() -> Hooks {
    Hooks {
        create_context: |store: Seq<Slot>, previous: Option<Seq<char>>|
            Outcome { store, result: Ok(None) },
        apply_removed_response: |store: Seq<Slot>, response: Json, output: Seq<char>, later: bool|
            Outcome { store, result: Ok(()) },
        create_data: |config: Json|
            match decode_google(config) {
                Some(data) => Some(Seed { protocol: google_protocol(), state: encode_google(data) }),
                None => None,
            },
    }
}

/// The lifecycle hooks of the plugin.
pub struct GoogleCycle;

impl PluginCycle for GoogleCycle {
    open spec fn hooks(&self) -> Hooks {
        google_hooks()
    }

    fn create_context(&self, context: &mut CommandContext, previous_prompt: Option<&str>) -> (result:
        Result<Option<String>, Failure>) {
        Ok(None)
    }

    fn apply_removed_response(
        &self,
        context: &mut CommandContext,
        response: &Payload,
        cmd_output: &str,
        previous_response: bool,
    ) -> (result: Result<(), Failure>) {
        Ok(())
    }

    fn create_data(&self, value: Payload) -> (data: Option<Box<dyn PluginData>>) {
        match GoogleData::from_payload(&value) {
            Some(data) => {
                let boxed: Box<dyn PluginData> = Box::new(data);
                let made = Some(boxed);
                assert(made->Some_0.protocol() == google_protocol());
                made
            },
            None => None,
        }
    }
}

/// The descriptor of the plugin, as a value.
pub open spec fn google_sheet() -> PluginSheet {
    PluginSheet {
        name: "Google"@,
        dependencies: seq!["Browse"@],
        hooks: google_hooks(),
        commands: seq![
            CommandSheet {
                name: "google"@,
                purpose: "Google Search"@,
                args: seq![
                    (
                        "query"@,
                        "The request to search. Create a short, direct query with keywords."@,
                    ),
                ],
                run: google_command(),
            },
        ],
    }
}

/// The descriptor of the plugin `Google`: it depends on the plugin `Browse`
/// and offers the command `google`.
pub fn create_google() -> (plugin: Plugin)
    ensures
        plugin@ == google_sheet(),
{
    let mut args: Vec<(String, String)> = Vec::new();
    args.push(
        (
            "query".to_owned(),
            "The request to search. Create a short, direct query with keywords.".to_owned(),
        ),
    );
    let search = Command {
        name: "google".to_owned(),
        purpose: "Google Search".to_owned(),
        args,
        run: Handler::Google(GoogleImpl),
    };
    let ghost sheets = google_sheet().commands;
    proof {
        assert(search@.args =~= sheets[0].args);
        assert(search@ == sheets[0]);
    }
    let mut commands: Vec<Command> = Vec::new();
    commands.push(search);
    let mut dependencies: Vec<String> = Vec::new();
    dependencies.push("Browse".to_owned());
    let plugin = Plugin {
        name: "Google".to_owned(),
        dependencies,
        cycle: Cycle::Google(GoogleCycle),
        commands,
    };
    proof {
        assert(plugin@.dependencies =~= google_sheet().dependencies);
        assert(plugin@.commands =~= sheets);
    }
    plugin
}

} // verus!
