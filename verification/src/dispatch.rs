//! The invocation protocol: one dynamically dispatched entry point per state
//! object, and the typed wrapper through which call sites reach it.

use vstd::prelude::*;
use crate::failure::{Failure, FailureModel};
use crate::payload::{FromPayload, Json, Payload, ToPayload};

verus! {

/// What one step of a state object comes to: the state it leaves and the
/// answer it gives.
pub struct Transition {
    pub state: Json,
    pub result: Result<Json, FailureModel>,
}

/// What a state object does, as a function of its state.
pub struct Protocol {
    /// The name that the state object gives in its failures.
    pub plugin: Seq<char>,
    /// The dispatch table: the names of its operations.
    pub operations: Set<Seq<char>>,
    /// The step that an operation takes from a state on a payload.
    pub call: spec_fn(Json, Seq<char>, Json) -> Transition,
    /// The step that ends a suspended operation, from the state it was left
    /// in, on the reply of the outside collaborator: its answer, or the
    /// words of its failure.
    pub resume: spec_fn(Json, Seq<char>, Result<Json, Seq<char>>) -> Transition,
}

/// The step by which the state object of `plugin` refuses the name
/// `operation`: the state stays, and the failure carries both names.
pub open spec fn refused(plugin: Seq<char>, state: Json, operation: Seq<char>) -> Transition {
    Transition { state, result: Err(FailureModel::NoInvoke { plugin, operation }) }
}

impl Protocol {
    /// The step for a name that is not in the dispatch table.
    pub open spec fn refusal(self, state: Json, operation: Seq<char>) -> Transition {
        refused(self.plugin, state, operation)
    }
}

/// The mathematical value of an answer.
pub open spec fn answer_model(result: Result<Payload, Failure>) -> Result<Json, FailureModel> {
    match result {
        Ok(payload) => Ok(payload@),
        Err(failure) => Err(failure@),
    }
}

/// The step that leaves `state` and gives `result`.
pub open spec fn step(state: Json, result: Result<Payload, Failure>) -> Transition {
    Transition { state, result: answer_model(result) }
}

/// The mathematical value of a collaborator's reply.
pub open spec fn reply_model(reply: Result<Payload, String>) -> Result<Json, Seq<char>> {
    match reply {
        Ok(payload) => Ok(payload@),
        Err(detail) => Err(detail@),
    }
}

/// The state object of a plugin. It answers named operations one at a time;
/// its state changes through them and through nothing else.
pub trait PluginData {
    /// What this state object does. It is fixed when the object is made.
    spec fn protocol(&self) -> Protocol;

    /// The state that the operations read and change.
    spec fn state(&self) -> Json;

    /// Performs the operation `name` on `value`.
    ///
    /// A name outside the dispatch table is refused with
    /// [`Failure::NoInvoke`], which carries the plugin's name and `name`, and
    /// the state stays as it was. An operation that needs an outside
    /// collaborator answers [`Failure::Suspended`] with the request to
    /// perform.
    fn apply(&mut self, name: &str, value: Payload) -> (result: Result<Payload, Failure>)
        ensures
            final(self).protocol() == old(self).protocol(),
            step(final(self).state(), result) == (old(self).protocol().call)(
                old(self).state(),
                name@,
                value@,
            ),
            !old(self).protocol().operations.contains(name@) ==> step(final(self).state(), result)
                == old(self).protocol().refusal(old(self).state(), name@),
    ;

    /// Ends the suspended operation `name` with the collaborator's reply.
    fn resume(&mut self, name: &str, reply: Result<Payload, String>) -> (result: Result<Payload, Failure>)
        ensures
            final(self).protocol() == old(self).protocol(),
            step(final(self).state(), result) == (old(self).protocol().resume)(
                old(self).state(),
                name@,
                reply_model(reply),
            ),
            !old(self).protocol().operations.contains(name@) ==> step(final(self).state(), result)
                == old(self).protocol().refusal(old(self).state(), name@),
    ;
}

/// What a typed call site gets from an answer: the value that the answer
/// stands for, a decode failure where it stands for none, and any failure of
/// the operation as it is.
pub open spec fn typed<T: FromPayload>(result: Result<Json, FailureModel>) -> Result<
    T::V,
    FailureModel,
> {
    match result {
        Ok(json) => match T::decoding(json) {
            Some(value) => Ok(value),
            None => Err(FailureModel::Decode),
        },
        Err(failure) => Err(failure),
    }
}

/// An answer that has not the shape of a `T` is a decode failure for the
/// typed caller, and a failure of the operation reaches the caller as it
/// is: in neither case does the caller get a value.
pub proof fn lemma_typed_answers<T: FromPayload>(json: Json, failure: FailureModel)
    ensures
        T::decoding(json) is None ==> typed::<T>(Ok(json)) == Err::<T::V, FailureModel>(
            FailureModel::Decode,
        ),
        T::decoding(json) is Some ==> typed::<T>(Ok(json)) == Ok::<T::V, FailureModel>(
            T::decoding(json).unwrap(),
        ),
        typed::<T>(Err(failure)) == Err::<T::V, FailureModel>(failure),
{
}

/// The mathematical value of a typed answer.
pub open spec fn typed_model<T: FromPayload>(result: Result<T, Failure>) -> Result<
    T::V,
    FailureModel,
> {
    match result {
        Ok(value) => Ok(value@),
        Err(failure) => Err(failure@),
    }
}

/// What a typed call comes to: the state it leaves and the value it gives.
pub struct Run<T> {
    pub state: Json,
    pub result: Result<T, FailureModel>,
}

/// The run that ends in `state` with `failure`.
pub open spec fn failed<T>(state: Json, failure: FailureModel) -> Run<T> {
    Run { state, result: Err(failure) }
}

/// The run that leaves `state` and gives `result`.
pub open spec fn run_of<T: FromPayload>(state: Json, result: Result<T, Failure>) -> Run<T::V> {
    Run { state, result: typed_model(result) }
}

/// The typed call of `operation` with `request` on a state object that
/// follows `protocol` and is in `state`.
pub open spec fn invoked<T: FromPayload>(
    protocol: Protocol,
    state: Json,
    operation: Seq<char>,
    request: Json,
) -> Run<T::V> {
    let step = (protocol.call)(state, operation, request);
    Run { state: step.state, result: typed::<T>(step.result) }
}

/// The typed end of the suspended `operation` on `reply`.
pub open spec fn concluded<T: FromPayload>(
    protocol: Protocol,
    state: Json,
    operation: Seq<char>,
    reply: Result<Json, Seq<char>>,
) -> Run<T::V> {
    let step = (protocol.resume)(state, operation, reply);
    Run { state: step.state, result: typed::<T>(step.result) }
}

/// The typed run of a name that is not in the dispatch table: the state
/// stays, and the failure carries the plugin's name and the name asked for.
pub open spec fn unknown<T: FromPayload>(protocol: Protocol, state: Json, operation: Seq<char>) -> Run<
    T::V,
> {
    Run { state, result: Err(FailureModel::NoInvoke { plugin: protocol.plugin, operation }) }
}

/// Reads a typed value from an answer.
fn read<T: FromPayload>(answer: Result<Payload, Failure>) -> (result: Result<T, Failure>)
    ensures
        typed_model(result) == typed::<T>(answer_model(answer)),
{
    match answer {
        Ok(payload) => match T::from_payload(&payload) {
            Some(value) => Ok(value),
            None => Err(Failure::Decode),
        },
        Err(failure) => Err(failure),
    }
}

/// Calls the operation `name` of `data` with a typed request and reads the
/// answer as a `T`.
///
/// The request is written as a payload and dispatched. A failure of the
/// operation comes back unchanged. An answer that has not the shape of a `T`
/// gives [`Failure::Decode`]: a mismatch is never passed over and never
/// replaced by a default value.
pub fn invoke<T: FromPayload>(data: &mut Box<dyn PluginData>, name: &str, request: impl ToPayload) -> (result:
    Result<T, Failure>)
    ensures
        final(data).protocol() == old(data).protocol(),
        run_of(final(data).state(), result) == invoked::<T>(
            old(data).protocol(),
            old(data).state(),
            name@,
            request.encoding(),
        ),
        !old(data).protocol().operations.contains(name@) ==> run_of(final(data).state(), result)
            == unknown::<T>(old(data).protocol(), old(data).state(), name@),
{
    let value = request.to_payload();
    read(data.apply(name, value))
}

/// Ends the suspended operation `name` of `data` with the collaborator's
/// reply and reads the answer as a `T`, as [`invoke`] does.
pub fn conclude<T: FromPayload>(
    data: &mut Box<dyn PluginData>,
    name: &str,
    reply: Result<Payload, String>,
) -> (result: Result<T, Failure>)
    ensures
        final(data).protocol() == old(data).protocol(),
        run_of(final(data).state(), result) == concluded::<T>(
            old(data).protocol(),
            old(data).state(),
            name@,
            reply_model(reply),
        ),
        !old(data).protocol().operations.contains(name@) ==> run_of(final(data).state(), result)
            == unknown::<T>(old(data).protocol(), old(data).state(), name@),
{
    read(data.resume(name, reply))
}

} // verus!
