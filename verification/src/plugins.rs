//! The plugins that come with the framework, and the two places where a
//! descriptor holds an implementation: the handler of a command and the
//! lifecycle hooks of a plugin. Each is one of those that come with the
//! framework, or a custom one behind its trait.

pub mod browse;
pub mod chatgpt;
pub mod google;

use vstd::prelude::*;
use crate::dispatch::PluginData;
use crate::failure::Failure;
use crate::payload::Payload;
use crate::plugins::chatgpt::{ChatGPTCycle, ChatGPTImpl, ResetChatGPTImpl};
use crate::plugins::google::{GoogleCycle, GoogleImpl};
use crate::registry::{Arguments, CommandContext, CommandImpl, CommandModel, Hooks, PluginCycle};

verus! {

/// The implementation that a command runs.
pub enum Handler {
    ChatGPT(ChatGPTImpl),
    ResetChatGPT(ResetChatGPTImpl),
    Google(GoogleImpl),
    Custom(Box<dyn CommandImpl>),
}

impl CommandImpl for Handler {
    open spec fn model(&self) -> CommandModel {
        match self {
            Handler::ChatGPT(run) => run.model(),
            Handler::ResetChatGPT(run) => run.model(),
            Handler::Google(run) => run.model(),
            Handler::Custom(run) => run.model(),
        }
    }

    fn invoke(&self, ctx: &mut CommandContext, args: Arguments) -> (result: Result<String, Failure>) {
        match self {
            Handler::ChatGPT(run) => run.invoke(ctx, args),
            Handler::ResetChatGPT(run) => run.invoke(ctx, args),
            Handler::Google(run) => run.invoke(ctx, args),
            Handler::Custom(run) => run.invoke(ctx, args),
        }
    }

    fn resume(
        &self,
        ctx: &mut CommandContext,
        args: Arguments,
        reply: Result<Payload, String>,
    ) -> (result: Result<String, Failure>) {
        match self {
            Handler::ChatGPT(run) => run.resume(ctx, args, reply),
            Handler::ResetChatGPT(run) => run.resume(ctx, args, reply),
            Handler::Google(run) => run.resume(ctx, args, reply),
            Handler::Custom(run) => run.resume(ctx, args, reply),
        }
    }
}

/// The lifecycle hooks that a plugin brings.
pub enum Cycle {
    ChatGPT(ChatGPTCycle),
    Google(GoogleCycle),
    Custom(Box<dyn PluginCycle>),
}

impl PluginCycle for Cycle {
    open spec fn hooks(&self) -> Hooks {
        match self {
            Cycle::ChatGPT(cycle) => cycle.hooks(),
            Cycle::Google(cycle) => cycle.hooks(),
            Cycle::Custom(cycle) => cycle.hooks(),
        }
    }

    fn create_context(&self, context: &mut CommandContext, previous_prompt: Option<&str>) -> (result:
        Result<Option<String>, Failure>) {
        match self {
            Cycle::ChatGPT(cycle) => cycle.create_context(context, previous_prompt),
            Cycle::Google(cycle) => cycle.create_context(context, previous_prompt),
            Cycle::Custom(cycle) => cycle.create_context(context, previous_prompt),
        }
    }

    fn apply_removed_response(
        &self,
        context: &mut CommandContext,
        response: &Payload,
        cmd_output: &str,
        previous_response: bool,
    ) -> (result: Result<(), Failure>) {
        match self {
            Cycle::ChatGPT(cycle) => cycle.apply_removed_response(
                context,
                response,
                cmd_output,
                previous_response,
            ),
            Cycle::Google(cycle) => cycle.apply_removed_response(
                context,
                response,
                cmd_output,
                previous_response,
            ),
            Cycle::Custom(cycle) => cycle.apply_removed_response(
                context,
                response,
                cmd_output,
                previous_response,
            ),
        }
    }

    fn create_data(&self, value: Payload) -> (data: Option<Box<dyn PluginData>>) {
        match self {
            Cycle::ChatGPT(cycle) => cycle.create_data(value),
            Cycle::Google(cycle) => cycle.create_data(value),
            Cycle::Custom(cycle) => cycle.create_data(value),
        }
    }
}

} // verus!
