//! What the registering component can ask before it takes a plugin in:
//! whether the plugin's names collide with those already registered, and
//! whether the plugins it depends on have their state objects.
//!
//! The framework itself enforces neither. A dependency list is a
//! declaration, and a plugin whose dependency is missing fails at the first
//! lookup of the missing state object.

use vstd::prelude::*;
use crate::lookup::{distinct, first_index, same_text};
use crate::registry::{names, Plugin, PluginSheet, PluginStore};

verus! {

/// The values of a list of descriptors.
pub open spec fn sheets(plugins: Seq<Plugin>) -> Seq<PluginSheet> {
    Seq::new(plugins.len(), |index: int| plugins[index]@)
}

/// The names of the commands of a plugin, in order.
pub open spec fn command_names(plugin: PluginSheet) -> Seq<Seq<char>> {
    Seq::new(plugin.commands.len(), |index: int| plugin.commands[index].name)
}

/// The plugin offers a command named `name`.
pub open spec fn offers(plugin: PluginSheet, name: Seq<char>) -> bool {
    exists|command: int| 0 <= command < plugin.commands.len() && plugin.commands[command].name == name
}

/// One of the plugins offers a command named `name`.
pub open spec fn offered(plugins: Seq<PluginSheet>, name: Seq<char>) -> bool {
    exists|plugin: int| 0 <= plugin < plugins.len() && offers(#[trigger] plugins[plugin], name)
}

/// One of the plugins is named `name`.
pub open spec fn named(plugins: Seq<PluginSheet>, name: Seq<char>) -> bool {
    exists|plugin: int| 0 <= plugin < plugins.len() && (#[trigger] plugins[plugin]).name == name
}

/// `candidate` can stand beside `plugins`: its name is free, its own
/// commands differ in name from each other, and none of them has the name
/// of a command that is already offered.
pub open spec fn admissible(plugins: Seq<PluginSheet>, candidate: PluginSheet) -> bool {
    &&& !named(plugins, candidate.name)
    &&& distinct(command_names(candidate))
    &&& forall|command: int|
        0 <= command < candidate.commands.len() ==> !offered(
            plugins,
            #[trigger] candidate.commands[command].name,
        )
}

/// No two plugins share a name, and no two commands do, within a plugin or
/// across plugins.
pub open spec fn consistent(plugins: Seq<PluginSheet>) -> bool {
    &&& forall|first: int, second: int|
        0 <= first < second < plugins.len() ==> (#[trigger] plugins[first]).name
            != (#[trigger] plugins[second]).name
    &&& forall|plugin: int|
        0 <= plugin < plugins.len() ==> distinct(command_names(#[trigger] plugins[plugin]))
    &&& forall|first: int, second: int, name: Seq<char>|
        0 <= first < second < plugins.len() && #[trigger] offers(plugins[first], name)
            ==> !#[trigger] offers(plugins[second], name)
}

/// A plugin that can stand beside consistent plugins leaves them
/// consistent when it joins them.
pub proof fn lemma_admission_keeps_consistency(plugins: Seq<PluginSheet>, candidate: PluginSheet)
    requires
        consistent(plugins),
        admissible(plugins, candidate),
    ensures
        consistent(plugins.push(candidate)),
{
    let joined = plugins.push(candidate);
    assert forall|first: int, second: int| 0 <= first < second < joined.len() implies (
    #[trigger] joined[first]).name != (#[trigger] joined[second]).name by {
        if second == plugins.len() {
            assert(plugins[first].name != candidate.name);
        }
    }
    assert forall|plugin: int| 0 <= plugin < joined.len() implies distinct(
        command_names(#[trigger] joined[plugin]),
    ) by {
        if plugin < plugins.len() {
            assert(joined[plugin] == plugins[plugin]);
        }
    }
    assert forall|first: int, second: int, name: Seq<char>|
        0 <= first < second < joined.len() && #[trigger] offers(joined[first], name) implies !#[trigger] offers(
        joined[second],
        name,
    ) by {
        if second == plugins.len() {
            assert(joined[first] == plugins[first]);
            if offers(candidate, name) {
                let command = choose|command: int|
                    0 <= command < candidate.commands.len() && candidate.commands[command].name
                        == name;
                assert(offered(plugins, candidate.commands[command].name));
            }
        } else {
            assert(joined[first] == plugins[first]);
            assert(joined[second] == plugins[second]);
        }
    }
}

/// Whether the plugin offers a command named `name`.
pub fn has_command(plugin: &Plugin, name: &str) -> (found: bool)
    ensures
        found == offers(plugin@, name@),
{
    let mut index: usize = 0;
    while index < plugin.commands.len()
        invariant
            index <= plugin.commands.len(),
            forall|earlier: int| 0 <= earlier < index ==> plugin@.commands[earlier].name != name@,
        decreases plugin.commands.len() - index,
    {
        if same_text(plugin.commands[index].name.as_str(), name) {
            assert(plugin@.commands[index as int].name == name@);
            return true;
        }
        index += 1;
    }
    false
}

/// Whether one of the plugins offers a command named `name`.
pub fn is_offered(plugins: &Vec<Plugin>, name: &str) -> (found: bool)
    ensures
        found == offered(sheets(plugins@), name@),
{
    let mut index: usize = 0;
    while index < plugins.len()
        invariant
            index <= plugins.len(),
            forall|earlier: int| 0 <= earlier < index ==> !offers(sheets(plugins@)[earlier], name@),
        decreases plugins.len() - index,
    {
        if has_command(&plugins[index], name) {
            assert(offers(sheets(plugins@)[index as int], name@));
            return true;
        }
        index += 1;
    }
    false
}

/// Whether one of the plugins is named `name`.
pub fn is_named(plugins: &Vec<Plugin>, name: &str) -> (found: bool)
    ensures
        found == named(sheets(plugins@), name@),
{
    let mut index: usize = 0;
    while index < plugins.len()
        invariant
            index <= plugins.len(),
            forall|earlier: int| 0 <= earlier < index ==> sheets(plugins@)[earlier].name != name@,
        decreases plugins.len() - index,
    {
        if same_text(plugins[index].name.as_str(), name) {
            assert(sheets(plugins@)[index as int].name == name@);
            return true;
        }
        index += 1;
    }
    false
}

/// Whether the commands of the plugin differ in name from each other.
pub fn commands_differ(plugin: &Plugin) -> (differ: bool)
    ensures
        differ == distinct(command_names(plugin@)),
{
    let mut second: usize = 0;
    while second < plugin.commands.len()
        invariant
            second <= plugin.commands.len(),
            forall|earlier: int, later: int|
                0 <= earlier < later < second ==> command_names(plugin@)[earlier] != command_names(
                    plugin@,
                )[later],
        decreases plugin.commands.len() - second,
    {
        let mut first: usize = 0;
        while first < second
            invariant
                first <= second < plugin.commands.len(),
                forall|earlier: int|
                    0 <= earlier < first ==> command_names(plugin@)[earlier] != command_names(
                        plugin@,
                    )[second as int],
            decreases second - first,
        {
            if same_text(
                plugin.commands[first].name.as_str(),
                plugin.commands[second].name.as_str(),
            ) {
                assert(command_names(plugin@)[first as int] == command_names(
                    plugin@,
                )[second as int]);
                return false;
            }
            first += 1;
        }
        second += 1;
    }
    true
}

/// Whether `candidate` can be registered beside `plugins`. Where it cannot,
/// to register it is a configuration error: its name is taken, or one of
/// its commands has the name of another command.
pub fn admits(plugins: &Vec<Plugin>, candidate: &Plugin) -> (admitted: bool)
    ensures
        admitted == admissible(sheets(plugins@), candidate@),
{
    if is_named(plugins, candidate.name.as_str()) {
        return false;
    }
    if !commands_differ(candidate) {
        return false;
    }
    let mut index: usize = 0;
    while index < candidate.commands.len()
        invariant
            index <= candidate.commands.len(),
            forall|earlier: int|
                0 <= earlier < index ==> !offered(
                    sheets(plugins@),
                    #[trigger] candidate@.commands[earlier].name,
                ),
        decreases candidate.commands.len() - index,
    {
        if is_offered(plugins, candidate.commands[index].name.as_str()) {
            assert(offered(sheets(plugins@), candidate@.commands[index as int].name));
            return false;
        }
        index += 1;
    }
    true
}

/// The state object of the dependency at `index` is in the store.
pub open spec fn met(plugin: PluginSheet, store: Seq<crate::registry::Slot>, index: int) -> bool {
    first_index(names(store), plugin.dependencies[index]) is Some
}

/// The first dependency of the plugin whose state object is not in the
/// store, or `None` where every dependency has one. A plugin with a
/// missing dependency is not usable yet: its commands fail at the lookup.
pub fn missing_dependency(plugin: &Plugin, store: &PluginStore) -> (missing: Option<usize>)
    ensures
        match missing {
            Some(index) => index < plugin@.dependencies.len() && !met(plugin@, store@, index as int)
                && forall|earlier: int| 0 <= earlier < index ==> met(plugin@, store@, earlier),
            None => forall|index: int|
                0 <= index < plugin@.dependencies.len() ==> met(plugin@, store@, index),
        },
{
    let mut index: usize = 0;
    while index < plugin.dependencies.len()
        invariant
            index <= plugin.dependencies.len(),
            forall|earlier: int| 0 <= earlier < index ==> met(plugin@, store@, earlier),
        decreases plugin.dependencies.len() - index,
    {
        if !store.contains(plugin.dependencies[index].as_str()) {
            return Some(index);
        }
        index += 1;
    }
    None
}

} // verus!
