//! The typed failures of the framework.

use vstd::prelude::*;
use crate::payload::{Json, Payload};
use crate::plugins::google::GoogleNoQueryError;

verus! {

/// Why a call gave no value. Every failure reaches the caller of the command
/// as it is: none is retried and none is turned into a default value.
#[derive(Debug, PartialEq, Eq)]
pub enum Failure {
    /// The state object of `plugin` has no operation named `operation`.
    NoInvoke { plugin: String, operation: String },
    /// A payload has not the shape that its reader expects.
    Decode,
    /// The command `command` was run without its argument `argument`.
    NoArg { command: String, argument: String },
    /// No state object is stored under the name `plugin`: the plugin was
    /// never registered, or its state could not be constructed.
    Absent { plugin: String },
    /// The search command was run without a query.
    NoQuery(GoogleNoQueryError),
    /// An outside collaborator failed.
    External { detail: String },
    /// The operation needs an outside collaborator. The caller performs
    /// `request` and hands the reply to the matching resume function.
    Suspended { request: Payload },
}

/// The mathematical value of a [`Failure`].
pub enum FailureModel {
    NoInvoke { plugin: Seq<char>, operation: Seq<char> },
    Decode,
    NoArg { command: Seq<char>, argument: Seq<char> },
    Absent { plugin: Seq<char> },
    NoQuery,
    External { detail: Seq<char> },
    Suspended { request: Json },
}

impl View for Failure {
    type V = FailureModel;

    open spec fn view(&self) -> FailureModel {
        match self {
            Failure::NoInvoke { plugin, operation } => FailureModel::NoInvoke {
                plugin: plugin@,
                operation: operation@,
            },
            Failure::Decode => FailureModel::Decode,
            Failure::NoArg { command, argument } => FailureModel::NoArg {
                command: command@,
                argument: argument@,
            },
            Failure::Absent { plugin } => FailureModel::Absent { plugin: plugin@ },
            Failure::NoQuery(_) => FailureModel::NoQuery,
            Failure::External { detail } => FailureModel::External { detail: detail@ },
            Failure::Suspended { request } => FailureModel::Suspended { request: request@ },
        }
    }
}

} // verus!
