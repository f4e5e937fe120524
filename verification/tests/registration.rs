use agent_plugins::dispatch::PluginData;
use agent_plugins::failure::Failure;
use agent_plugins::payload::Payload;
use agent_plugins::plugins::chatgpt::{create_chatgpt, ChatGPTData};
use agent_plugins::plugins::google::{create_google, GoogleImpl};
use agent_plugins::plugins::{Cycle, Handler};
use agent_plugins::registration::{
    admits, commands_differ, has_command, is_named, is_offered, missing_dependency,
};
use agent_plugins::registry::{
    Arguments, Command, CommandContext, CommandImpl, CommandModel, Hooks, Plugin, PluginCycle,
    PluginStore,
};

/// A command that answers with its own name.
struct Echo;

impl CommandImpl for Echo {
    fn model(&self) -> CommandModel {
        unreachable!()
    }

    fn invoke(&self, _ctx: &mut CommandContext, args: Arguments) -> Result<String, Failure> {
        match args.get("say") {
            Some(text) => Ok(text.clone()),
            None => {
                Err(Failure::NoArg { command: "echo".to_string(), argument: "say".to_string() })
            }
        }
    }

    fn resume(
        &self,
        _ctx: &mut CommandContext,
        _args: Arguments,
        _reply: Result<Payload, String>,
    ) -> Result<String, Failure> {
        Err(Failure::Decode)
    }
}

/// Hooks that make a memory whatever the configuration is.
struct Always;

impl PluginCycle for Always {
    fn hooks(&self) -> Hooks {
        unreachable!()
    }

    fn create_context(
        &self,
        _context: &mut CommandContext,
        previous_prompt: Option<&str>,
    ) -> Result<Option<String>, Failure> {
        Ok(previous_prompt.map(|text| format!("after {}", text)))
    }

    fn apply_removed_response(
        &self,
        _context: &mut CommandContext,
        _response: &Payload,
        _cmd_output: &str,
        _previous_response: bool,
    ) -> Result<(), Failure> {
        Ok(())
    }

    fn create_data(&self, _value: Payload) -> Option<Box<dyn PluginData>> {
        Some(Box::new(ChatGPTData::new(String::new())))
    }
}

fn command(name: &str) -> Command {
    Command {
        name: name.to_string(),
        purpose: String::new(),
        args: vec![],
        run: Handler::Custom(Box::new(Echo)),
    }
}

fn plugin(name: &str, dependencies: Vec<&str>, commands: Vec<&str>) -> Plugin {
    Plugin {
        name: name.to_string(),
        dependencies: dependencies.into_iter().map(|text| text.to_string()).collect(),
        cycle: Cycle::Custom(Box::new(Always)),
        commands: commands.into_iter().map(command).collect(),
    }
}

#[test]
fn shipped_plugins_stand_beside_each_other() {
    let mut plugins: Vec<Plugin> = Vec::new();
    assert!(admits(&plugins, &create_chatgpt()));
    plugins.push(create_chatgpt());
    assert!(admits(&plugins, &create_google()));
    plugins.push(create_google());
    assert!(!admits(&plugins, &create_chatgpt()));
    assert!(!admits(&plugins, &create_google()));
}

#[test]
fn taken_plugin_name_is_not_admitted() {
    let plugins = vec![plugin("A", vec![], vec!["a"])];
    assert!(!admits(&plugins, &plugin("A", vec![], vec!["b"])));
    assert!(admits(&plugins, &plugin("B", vec![], vec!["b"])));
    assert!(is_named(&plugins, "A"));
    assert!(!is_named(&plugins, "a"));
    assert!(!is_named(&Vec::new(), "A"));
}

#[test]
fn colliding_command_names_are_not_admitted() {
    let plugins = vec![plugin("A", vec![], vec!["one", "two"]), plugin("B", vec![], vec!["three"])];
    assert!(!admits(&plugins, &plugin("C", vec![], vec!["four", "two"])));
    assert!(!admits(&plugins, &plugin("C", vec![], vec!["three"])));
    assert!(admits(&plugins, &plugin("C", vec![], vec!["four", "five"])));
    assert!(admits(&plugins, &plugin("C", vec![], vec![])));
    assert!(is_offered(&plugins, "three"));
    assert!(is_offered(&plugins, "one"));
    assert!(!is_offered(&plugins, "four"));
    assert!(has_command(&plugins[0], "two"));
    assert!(!has_command(&plugins[1], "two"));
}

#[test]
fn plugin_with_a_repeated_command_name_is_not_admitted() {
    let repeated = plugin("A", vec![], vec!["one", "two", "one"]);
    assert!(!commands_differ(&repeated));
    assert!(!admits(&Vec::new(), &repeated));
    assert!(commands_differ(&plugin("A", vec![], vec!["one", "two", "three"])));
    assert!(commands_differ(&plugin("A", vec![], vec![])));
}

#[test]
fn missing_dependency_is_the_first_without_a_state_object() {
    let mut store = PluginStore::new();
    let needy = plugin("Needy", vec!["Memory", "Browse", "Other"], vec![]);
    assert_eq!(missing_dependency(&needy, &store), Some(0));
    assert!(store.install(&plugin("Memory", vec![], vec![]), Payload::Null));
    assert_eq!(missing_dependency(&needy, &store), Some(1));
    assert!(store.install(&plugin("Other", vec![], vec![]), Payload::Null));
    assert_eq!(missing_dependency(&needy, &store), Some(1));
    assert!(store.install(&plugin("Browse", vec![], vec![]), Payload::Null));
    assert_eq!(missing_dependency(&needy, &store), None);
    assert_eq!(missing_dependency(&create_chatgpt(), &PluginStore::new()), None);
    assert_eq!(missing_dependency(&create_google(), &PluginStore::new()), Some(0));
}

#[test]
fn search_descriptor_names_its_dependency_and_command() {
    let plugin = create_google();
    assert_eq!(plugin.name, "Google");
    assert_eq!(plugin.dependencies, vec!["Browse".to_string()]);
    assert!(matches!(plugin.cycle, Cycle::Google(_)));
    assert_eq!(plugin.commands.len(), 1);
    assert_eq!(plugin.commands[0].name, "google");
    assert_eq!(plugin.commands[0].purpose, "Google Search");
    assert_eq!(
        plugin.commands[0].args,
        vec![(
            "query".to_string(),
            "The request to search. Create a short, direct query with keywords.".to_string()
        )]
    );
    assert!(matches!(plugin.commands[0].run, Handler::Google(_)));
    let mut context = CommandContext::new();
    let mut args = Arguments::new();
    args.insert("query".to_string(), "cats".to_string());
    assert_eq!(
        GoogleImpl.invoke(&mut context, args),
        Err(Failure::Absent { plugin: "Google".to_string() })
    );
}

#[test]
fn custom_handlers_and_hooks_run_behind_their_traits() {
    let custom = plugin("Custom", vec![], vec!["echo"]);
    let mut context = CommandContext::new();
    assert!(context.install(&custom, Payload::Null));
    assert!(context.plugin_data.contains("Custom"));
    let mut args = Arguments::new();
    args.insert("say".to_string(), "hello".to_string());
    assert_eq!(custom.commands[0].run.invoke(&mut context, args), Ok("hello".to_string()));
    assert_eq!(
        custom.commands[0].run.invoke(&mut context, Arguments::new()),
        Err(Failure::NoArg { command: "echo".to_string(), argument: "say".to_string() })
    );
    assert_eq!(
        custom.commands[0].run.resume(&mut context, Arguments::new(), Ok(Payload::Null)),
        Err(Failure::Decode)
    );
    assert_eq!(
        custom.cycle.create_context(&mut context, Some("x")),
        Ok(Some("after x".to_string()))
    );
    assert_eq!(custom.cycle.create_context(&mut context, None), Ok(None));
    assert_eq!(custom.cycle.apply_removed_response(&mut context, &Payload::Null, "", false), Ok(()));
}
