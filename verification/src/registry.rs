//! What the agent holds of its plugins: the state store of a conversation,
//! the arguments of a command, and the descriptors that plugins register.

use vstd::prelude::*;
use crate::dispatch::{PluginData, Protocol, Run};
use crate::failure::{Failure, FailureModel};
use crate::lookup::{
    distinct,
    find_key,
    first_index,
    keys,
    lemma_first_index_found,
    lemma_first_index_meaning,
    lemma_first_index_missing,
};
use crate::payload::{Json, Payload};
use crate::plugins::{Cycle, Handler};

verus! {

/// What the state store holds under one name.
pub struct Slot {
    /// The plugin's name.
    pub name: Seq<char>,
    /// What the state object does.
    pub protocol: Protocol,
    /// The state it is in.
    pub state: Json,
}

/// The names of the slots, in order.
pub open spec fn names(slots: Seq<Slot>) -> Seq<Seq<char>> {
    Seq::new(slots.len(), |index: int| slots[index].name)
}

/// `slots` with the state of the slot at `index` replaced.
pub open spec fn with_state(slots: Seq<Slot>, index: int, state: Json) -> Seq<Slot> {
    slots.update(index, Slot { name: slots[index].name, protocol: slots[index].protocol, state })
}

/// The failure of a lookup that finds no state object under `plugin`.
pub open spec fn absent(plugin: Seq<char>) -> FailureModel {
    FailureModel::Absent { plugin }
}

/// The state store of one conversation: the state object of each plugin,
/// under the plugin's name. A state object is reached through its name and
/// in no other way.
///
/// The slots are kept in a list, in the order in which they were stored:
/// of a standard map whose keys are texts, vstd proves nothing.
pub struct PluginStore {
    slots: Vec<(String, Box<dyn PluginData>)>,
}

impl View for PluginStore {
    type V = Seq<Slot>;

    closed spec fn view(&self) -> Seq<Slot> {
        Seq::new(
            self.slots@.len(),
            |index: int|
                Slot {
                    name: self.slots@[index].0@,
                    protocol: self.slots@[index].1.protocol(),
                    state: self.slots@[index].1.state(),
                },
        )
    }
}

/// The store after a state object with `protocol`, in `state`, was offered
/// under `name`: the store with one slot more, or the store as it was,
/// where the name is taken.
pub open spec fn registered(store: Seq<Slot>, name: Seq<char>, protocol: Protocol, state: Json) -> Seq<
    Slot,
> {
    if first_index(names(store), name) is None {
        store.push(Slot { name, protocol, state })
    } else {
        store
    }
}

/// The store after the state object of `plugin` was constructed from
/// `config` and offered under the plugin's name. Where the configuration is
/// not valid the store stays as it was.
pub open spec fn installed(store: Seq<Slot>, plugin: PluginSheet, config: Json) -> Seq<Slot> {
    match (plugin.hooks.create_data)(config) {
        Some(seed) => registered(store, plugin.name, seed.protocol, seed.state),
        None => store,
    }
}

/// A store that got one named state object more, under a name that was
/// free, is the old store with the slot of that object at its end, and no
/// name occurs twice in it if none did before.
proof fn lemma_pushed(
    before: Seq<(String, Box<dyn PluginData>)>,
    after: Seq<(String, Box<dyn PluginData>)>,
    entry: (String, Box<dyn PluginData>),
    old_view: Seq<Slot>,
    new_view: Seq<Slot>,
    slot: Slot,
)
    requires
        after == before.push(entry),
        old_view.len() == before.len(),
        new_view.len() == after.len(),
        forall|index: int|
            0 <= index < before.len() ==> (#[trigger] old_view[index]) == (Slot {
                name: before[index].0@,
                protocol: before[index].1.protocol(),
                state: before[index].1.state(),
            }),
        forall|index: int|
            0 <= index < after.len() ==> (#[trigger] new_view[index]) == (Slot {
                name: after[index].0@,
                protocol: after[index].1.protocol(),
                state: after[index].1.state(),
            }),
        slot.name == entry.0@,
        slot.protocol == entry.1.protocol(),
        slot.state == entry.1.state(),
        first_index(names(old_view), slot.name) is None,
    ensures
        new_view == old_view.push(slot),
        new_view.len() == old_view.len() + 1,
        distinct(names(old_view)) ==> distinct(names(new_view)),
{
    assert(new_view =~= old_view.push(slot));
    lemma_first_index_meaning(names(old_view), slot.name);
    assert forall|first: int, second: int|
        distinct(names(old_view)) && 0 <= first < second < names(new_view).len() implies names(
        new_view,
    )[first] != names(new_view)[second] by {
        if second < old_view.len() {
            assert(names(old_view)[first] != names(old_view)[second]);
        } else {
            assert(names(old_view)[first] != slot.name);
        }
    }
}

impl PluginStore {
    /// An empty store.
    pub fn new() -> (store: PluginStore)
        ensures
            store@ == Seq::<Slot>::empty(),
    {
        let store = PluginStore { slots: Vec::new() };
        assert(store@ =~= Seq::<Slot>::empty());
        store
    }

    /// The number of state objects.
    pub fn len(&self) -> (count: usize)
        ensures
            count == self@.len(),
    {
        self.slots.len()
    }

    /// Whether a state object is stored under `name`.
    pub fn contains(&self, name: &str) -> (held: bool)
        ensures
            held == first_index(names(self@), name@).is_some(),
    {
        assert(keys(self.slots@) =~= names(self@));
        find_key(&self.slots, name).is_some()
    }

    /// Constructs the state object of `plugin` from `config` and stores it
    /// under the plugin's name. This is the one way into the store.
    ///
    /// Nothing is stored where the configuration is not valid, and nothing
    /// where the name is taken: the plugin is then absent, or the one that
    /// was there stays, since a name holds one state object. The answer
    /// says whether a state object was stored.
    pub fn install(&mut self, plugin: &Plugin, config: Payload) -> (stored: bool)
        ensures
            final(self)@ == installed(old(self)@, plugin@, config@),
            stored == ((plugin@.hooks.create_data)(config@) is Some && first_index(
                names(old(self)@),
                plugin@.name,
            ) is None),
            distinct(names(old(self)@)) ==> distinct(names(final(self)@)),
    {
        assert(keys(self.slots@) =~= names(self@));
        match plugin.cycle.create_data(config) {
            Some(data) => {
                if find_key(&self.slots, plugin.name.as_str()).is_some() {
                    false
                } else {
                    let ghost slot = Slot {
                        name: plugin.name@,
                        protocol: data.protocol(),
                        state: data.state(),
                    };
                    let pair = (plugin.name.clone(), data);
                    let ghost entry = pair;
                    self.slots.push(pair);
                    proof {
                        lemma_pushed(old(self).slots@, self.slots@, entry, old(self)@, self@, slot);
                    }
                    true
                }
            },
            None => false,
        }
    }

    /// The state object stored under `name`.
    ///
    /// Fails with [`Failure::Absent`] where there is none: the plugin was
    /// never registered, or its state could not be constructed.
    pub fn get_data(&mut self, name: &str) -> (found: Result<&mut Box<dyn PluginData>, Failure>)
        ensures
            match first_index(names(old(self)@), name@) {
                Some(index) => {
                    &&& found is Ok
                    &&& found.unwrap().protocol() == old(self)@[index].protocol
                    &&& found.unwrap().state() == old(self)@[index].state
                    &&& final(self)@.len() == old(self)@.len()
                    &&& final(self)@[index].name == old(self)@[index].name
                    &&& final(self)@[index].protocol == final(found.unwrap()).protocol()
                    &&& final(self)@[index].state == final(found.unwrap()).state()
                    &&& forall|other: int|
                        0 <= other < old(self)@.len() && other != index ==> final(self)@[other]
                            == old(self)@[other]
                },
                None => {
                    &&& found is Err
                    &&& found->Err_0@ == absent(name@)
                    &&& final(self)@ == old(self)@
                },
            },
    {
        assert(keys(self.slots@) =~= names(self@));
        proof {
            lemma_first_index_meaning(names(self@), name@);
        }
        match find_key(&self.slots, name) {
            Some(index) => Ok(&mut self.slots[index].1),
            None => Err(Failure::Absent { plugin: name.to_owned() }),
        }
    }
}

/// The arguments that a command is run with: a value for each name given.
///
/// The pairs are kept in a list and looked up by name; what the list holds
/// is the map that [`Arguments::insert`] and [`Arguments::get`] speak of.
pub struct Arguments {
    pairs: Vec<(String, String)>,
}

impl View for Arguments {
    type V = Map<Seq<char>, Seq<char>>;

    closed spec fn view(&self) -> Map<Seq<char>, Seq<char>> {
        Map::new(
            |name: Seq<char>| first_index(keys(self.pairs@), name).is_some(),
            |name: Seq<char>| self.pairs@[first_index(keys(self.pairs@), name).unwrap()].1@,
        )
    }
}

impl Arguments {
    /// No arguments.
    pub fn new() -> (arguments: Arguments)
        ensures
            arguments@ == Map::<Seq<char>, Seq<char>>::empty(),
    {
        let arguments = Arguments { pairs: Vec::new() };
        assert(arguments@ =~= Map::<Seq<char>, Seq<char>>::empty());
        arguments
    }

    /// Gives `name` the value `value`, in place of any value it had.
    pub fn insert(&mut self, name: String, value: String)
        ensures
            final(self)@ == old(self)@.insert(name@, value@),
    {
        let ghost before = keys(self.pairs@);
        match find_key(&self.pairs, name.as_str()) {
            Some(index) => {
                self.pairs.set(index, (name, value));
                proof {
                    lemma_first_index_meaning(before, name@);
                    assert(keys(self.pairs@) =~= before);
                    assert(self@ =~= old(self)@.insert(name@, value@));
                }
            },
            None => {
                self.pairs.push((name, value));
                proof {
                    let after = keys(self.pairs@);
                    let last = before.len() as int;
                    lemma_first_index_meaning(before, name@);
                    assert(after.len() == last + 1);
                    assert(after[last] == name@);
                    assert forall|earlier: int| 0 <= earlier < last implies after[earlier]
                        != name@ by {
                        assert(after[earlier] == before[earlier]);
                    }
                    lemma_first_index_found(after, name@, last);
                    assert forall|other: Seq<char>| other != name@ implies first_index(
                        after,
                        other,
                    ) == first_index(before, other) by {
                        lemma_first_index_meaning(before, other);
                        match first_index(before, other) {
                            Some(index) => {
                                assert(after[index] == before[index]);
                                assert forall|earlier: int| 0 <= earlier < index implies after[earlier] != other by {
                                    assert(after[earlier] == before[earlier]);
                                }
                                lemma_first_index_found(after, other, index);
                            },
                            None => {
                                assert forall|index: int| 0 <= index < after.len() implies after[index] != other by {
                                    if index < last {
                                        assert(after[index] == before[index]);
                                    }
                                }
                                lemma_first_index_missing(after, other);
                            },
                        }
                    }
                    assert(self@ =~= old(self)@.insert(name@, value@));
                }
            },
        }
    }

    /// The value of `name`, if it has one.
    pub fn get(&self, name: &str) -> (value: Option<&String>)
        ensures
            match value {
                Some(text) => self@.contains_key(name@) && self@[name@] == text@,
                None => !self@.contains_key(name@),
            },
    {
        match find_key(&self.pairs, name) {
            Some(index) => Some(&self.pairs[index].1),
            None => None,
        }
    }
}

/// What a conversation holds for its commands: the state store.
pub struct CommandContext {
    pub plugin_data: PluginStore,
}

impl View for CommandContext {
    type V = Seq<Slot>;

    open spec fn view(&self) -> Seq<Slot> {
        self.plugin_data@
    }
}

impl CommandContext {
    /// A context whose store is empty.
    pub fn new() -> (context: CommandContext)
        ensures
            context@ == Seq::<Slot>::empty(),
    {
        CommandContext { plugin_data: PluginStore::new() }
    }

    /// Constructs the state object of `plugin` from `config` and stores it
    /// under the plugin's name, as [`PluginStore::install`] does.
    pub fn install(&mut self, plugin: &Plugin, config: Payload) -> (stored: bool)
        ensures
            final(self)@ == installed(old(self)@, plugin@, config@),
            stored == ((plugin@.hooks.create_data)(config@) is Some && first_index(
                names(old(self)@),
                plugin@.name,
            ) is None),
            distinct(names(old(self)@)) ==> distinct(names(final(self)@)),
    {
        self.plugin_data.install(plugin, config)
    }
}

/// What a step on the store comes to: the store it leaves and what it gives.
pub struct Outcome<T> {
    pub store: Seq<Slot>,
    pub result: Result<T, FailureModel>,
}

/// The outcome that leaves `store` and gives the text `result`.
pub open spec fn text_outcome(store: Seq<Slot>, result: Result<String, Failure>) -> Outcome<
    Seq<char>,
> {
    Outcome {
        store,
        result: match result {
            Ok(text) => Ok(text@),
            Err(failure) => Err(failure@),
        },
    }
}

/// The outcome that leaves `store` and gives the optional text `result`.
pub open spec fn prompt_outcome(
    store: Seq<Slot>,
    result: Result<Option<String>, Failure>,
) -> Outcome<Option<Seq<char>>> {
    Outcome {
        store,
        result: match result {
            Ok(Some(text)) => Ok(Some(text@)),
            Ok(None) => Ok(None),
            Err(failure) => Err(failure@),
        },
    }
}

/// The outcome that leaves `store` and gives nothing but success or failure.
pub open spec fn unit_outcome(store: Seq<Slot>, result: Result<(), Failure>) -> Outcome<()> {
    Outcome {
        store,
        result: match result {
            Ok(_) => Ok(()),
            Err(failure) => Err(failure@),
        },
    }
}

/// What a script comes to when it is run on the state object of `plugin`:
/// the object's state becomes the one that the script leaves, and the rest
/// of the store stays. Where the store holds no such object the run fails
/// with [`Failure::Absent`] and the whole store stays.
pub open spec fn through<T>(
    store: Seq<Slot>,
    plugin: Seq<char>,
    script: spec_fn(Protocol, Json) -> Run<T>,
) -> Outcome<T> {
    match first_index(names(store), plugin) {
        Some(index) => {
            let run = script(store[index].protocol, store[index].state);
            Outcome { store: with_state(store, index, run.state), result: run.result }
        },
        None => Outcome { store, result: Err(absent(plugin)) },
    }
}

/// A store in which one slot has a new state and nothing else differs is
/// the old store with that state put in.
pub proof fn lemma_with_state(before: Seq<Slot>, after: Seq<Slot>, index: int, state: Json)
    requires
        0 <= index < before.len(),
        after.len() == before.len(),
        after[index].name == before[index].name,
        after[index].protocol == before[index].protocol,
        after[index].state == state,
        forall|other: int| 0 <= other < before.len() && other != index ==> after[other] == before[other],
    ensures
        after == with_state(before, index, state),
{
    assert(after =~= with_state(before, index, state));
}

/// A script that is run on the state object of one plugin reaches no
/// other: every other slot stays as it was, and the slot of the plugin keeps
/// its name and its protocol.
pub proof fn lemma_through_touches_one_slot<T>(
    store: Seq<Slot>,
    plugin: Seq<char>,
    script: spec_fn(Protocol, Json) -> Run<T>,
)
    ensures
        ({
            let after = through(store, plugin, script).store;
            &&& after.len() == store.len()
            &&& names(after) == names(store)
            &&& forall|index: int|
                0 <= index < store.len() && first_index(names(store), plugin) != Some(index)
                    ==> after[index] == store[index]
            &&& forall|index: int|
                0 <= index < store.len() ==> (#[trigger] after[index]).protocol
                    == store[index].protocol
        }),
{
    lemma_first_index_meaning(names(store), plugin);
    let after = through(store, plugin, script).store;
    assert(names(after) =~= names(store));
}

/// The text of a prompt that may be missing.
pub open spec fn prompt_model(prompt: Option<&str>) -> Option<Seq<char>> {
    match prompt {
        Some(text) => Some(text@),
        None => None,
    }
}

/// What a command does, as a function of the store and its arguments.
pub struct CommandModel {
    /// The run of the command.
    pub invoke: spec_fn(Seq<Slot>, Map<Seq<char>, Seq<char>>) -> Outcome<Seq<char>>,
    /// The rest of a run that was suspended, on the collaborator's reply.
    pub resume: spec_fn(Seq<Slot>, Map<Seq<char>, Seq<char>>, Result<Json, Seq<char>>) -> Outcome<
        Seq<char>,
    >,
}

/// The implementation of a command.
pub trait CommandImpl {
    /// What this command does.
    spec fn model(&self) -> CommandModel;

    /// Runs the command with `args`. A run that needs an outside
    /// collaborator ends in [`Failure::Suspended`].
    fn invoke(&self, ctx: &mut CommandContext, args: Arguments) -> (result: Result<String, Failure>)
        ensures
            text_outcome(final(ctx)@, result) == (self.model().invoke)(old(ctx)@, args@),
    ;

    /// Takes a suspended run up again with the collaborator's reply.
    fn resume(
        &self,
        ctx: &mut CommandContext,
        args: Arguments,
        reply: Result<Payload, String>,
    ) -> (result: Result<String, Failure>)
        ensures
            text_outcome(final(ctx)@, result) == (self.model().resume)(
                old(ctx)@,
                args@,
                crate::dispatch::reply_model(reply),
            ),
    ;
}

/// A state object at its making: what it does and the state it starts in.
pub struct Seed {
    pub protocol: Protocol,
    pub state: Json,
}

/// What the lifecycle hooks of a plugin do.
pub struct Hooks {
    /// Context construction, on the store and the previous context.
    pub create_context: spec_fn(Seq<Slot>, Option<Seq<char>>) -> Outcome<Option<Seq<char>>>,
    /// The reaction to an evicted response, on the store, the response, the
    /// output attached to it, and whether a later response still exists.
    pub apply_removed_response: spec_fn(Seq<Slot>, Json, Seq<char>, bool) -> Outcome<()>,
    /// State construction, on the configuration.
    pub create_data: spec_fn(Json) -> Option<Seed>,
}

/// The lifecycle hooks of a plugin. The agent's loop calls them around each
/// turn of the conversation.
pub trait PluginCycle {
    /// What these hooks do.
    spec fn hooks(&self) -> Hooks;

    /// Gives the text, if any, to put before the next prompt.
    fn create_context(&self, context: &mut CommandContext, previous_prompt: Option<&str>) -> (result:
        Result<Option<String>, Failure>)
        ensures
            prompt_outcome(final(context)@, result) == (self.hooks().create_context)(
                old(context)@,
                prompt_model(previous_prompt),
            ),
    ;

    /// Reacts to a response that leaves the active window.
    fn apply_removed_response(
        &self,
        context: &mut CommandContext,
        response: &Payload,
        cmd_output: &str,
        previous_response: bool,
    ) -> (result: Result<(), Failure>)
        ensures
            unit_outcome(final(context)@, result) == (self.hooks().apply_removed_response)(
                old(context)@,
                response@,
                cmd_output@,
                previous_response,
            ),
    ;

    /// Makes the plugin's state object from its configuration, or nothing
    /// where the configuration is not valid.
    fn create_data(&self, value: Payload) -> (data: Option<Box<dyn PluginData>>)
        ensures
            match (self.hooks().create_data)(value@) {
                Some(seed) => data matches Some(object) && object.protocol() == seed.protocol
                    && object.state() == seed.state,
                None => data is None,
            },
    ;
}

/// A command that a plugin offers to the agent.
pub struct Command {
    pub name: String,
    pub purpose: String,
    /// The arguments, each with its description, in order.
    pub args: Vec<(String, String)>,
    pub run: Handler,
}

/// The mathematical value of a [`Command`].
pub struct CommandSheet {
    pub name: Seq<char>,
    pub purpose: Seq<char>,
    pub args: Seq<(Seq<char>, Seq<char>)>,
    pub run: CommandModel,
}

impl View for Command {
    type V = CommandSheet;

    open spec fn view(&self) -> CommandSheet {
        CommandSheet {
            name: self.name@,
            purpose: self.purpose@,
            args: Seq::new(
                self.args@.len(),
                |index: int| (self.args@[index].0@, self.args@[index].1@),
            ),
            run: self.run.model(),
        }
    }
}

/// The descriptor of a plugin: its name, the plugins it depends on, its
/// lifecycle hooks, and the commands it offers.
pub struct Plugin {
    pub name: String,
    /// The names of the plugins whose state objects must exist before this
    /// plugin's commands can run.
    pub dependencies: Vec<String>,
    pub cycle: Cycle,
    pub commands: Vec<Command>,
}

/// The mathematical value of a [`Plugin`].
pub struct PluginSheet {
    pub name: Seq<char>,
    pub dependencies: Seq<Seq<char>>,
    pub hooks: Hooks,
    pub commands: Seq<CommandSheet>,
}

impl View for Plugin {
    type V = PluginSheet;

    open spec fn view(&self) -> PluginSheet {
        PluginSheet {
            name: self.name@,
            dependencies: Seq::new(self.dependencies@.len(), |index: int| self.dependencies@[index]@),
            hooks: self.cycle.hooks(),
            commands: Seq::new(self.commands@.len(), |index: int| self.commands@[index]@),
        }
    }
}

} // verus!
