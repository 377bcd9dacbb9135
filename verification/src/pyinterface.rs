//! The host side of the interpreter bridge, modeled over plain values.
//!
//! The embedded interpreter itself is an external collaborator: scripts run
//! in it, and the values it owns are reachable from here only through opaque
//! handles. This module owns the protocol around it: the registration
//! registry that script loading fills, the decision of how a routable
//! function is called, and the resolution policy for results that come back
//! as suspended computations.

use vstd::prelude::*;

verus! {

/// An opaque reference to a callable value owned by the embedded runtime.
/// The host assigns the token; the library never looks inside it.
#[derive(Clone, Copy, PartialEq, Eq, Structural, Debug)]
pub struct FunctionHandle {
    pub id: u64,
}

/// An opaque reference to the dedicated cooperative event loop that drives
/// suspended results. It exists exactly when `safe_async` is configured.
#[derive(Clone, Copy, PartialEq, Eq, Structural, Debug)]
pub struct EventLoopHandle {
    pub id: u64,
}

/// An opaque reference to a concrete value owned by the embedded runtime.
#[derive(Clone, Copy, PartialEq, Eq, Structural, Debug)]
pub struct PyValue {
    pub id: u64,
}

/// An error raised by the embedded runtime, carried as its rendered message.
#[derive(Debug)]
pub struct PyExecutionError {
    pub message: String,
}

/// Raised when a registration cannot be recorded.
#[derive(Debug)]
pub struct PushRegisterDecoratorsError;

/// One registration event: a script announced, at load time, that `wraps`
/// is routable under `mode`.
pub struct PyRegisterDecorator {
    mode: String,
    wraps: FunctionHandle,
}

impl PyRegisterDecorator {
    pub closed spec fn spec_mode(&self) -> Seq<char> {
        self.mode@
    }

    pub closed spec fn spec_wraps(&self) -> FunctionHandle {
        self.wraps
    }

    pub fn new(wraps: FunctionHandle, mode: String) -> (r: Self)
        ensures
            r.spec_wraps() == wraps,
            r.spec_mode() == mode@,
    {
        PyRegisterDecorator { mode, wraps }
    }

    pub fn get_mode(&self) -> (r: &str)
        ensures
            r@ == self.spec_mode(),
    {
        self.mode.as_str()
    }

    pub fn get_wraps(&self) -> (r: &FunctionHandle)
        ensures
            *r == self.spec_wraps(),
    {
        &self.wraps
    }
}

/// The registration registry: an explicitly owned, append-only list filled
/// while scripts load, frozen into a snapshot afterwards and never touched
/// again.
pub struct Registry {
    items: Vec<PyRegisterDecorator>,
}

impl Registry {
    pub closed spec fn spec_items(&self) -> Seq<PyRegisterDecorator> {
        self.items@
    }

    pub fn new() -> (r: Self)
        ensures
            r.spec_items() == Seq::<PyRegisterDecorator>::empty(),
    {
        Registry { items: Vec::new() }
    }

    /// Records one registration event. Append-only: everything already
    /// recorded stays, in order.
    pub fn push_register_decorators(&mut self, value: PyRegisterDecorator)
        ensures
            final(self).spec_items() == old(self).spec_items().push(value),
    {
        self.items.push(value);
    }

    pub fn get_register_decorators(&self) -> (r: &Vec<PyRegisterDecorator>)
        ensures
            r@ == self.spec_items(),
    {
        &self.items
    }

    /// Freezes the registry into the one snapshot taken after the load
    /// phase; the registry itself is consumed and cannot grow afterwards.
    pub fn freeze(self) -> (r: Vec<PyRegisterDecorator>)
        ensures
            r@ == self.spec_items(),
    {
        self.items
    }
}

/// What a call into the runtime came back as: a concrete value, or a
/// suspended computation that still has to be driven to completion.
pub enum CallOutcome {
    Immediate(PyValue),
    Pending(PyValue),
}

/// The single explicit resolution step applied to a call outcome.
pub enum ResolveStep {
    Resolved(PyValue),
    Drive(PyValue, EventLoopHandle),
}

/// The arguments a routable function is called with: none for an init hook,
/// exactly one positional payload otherwise.
pub enum CallArguments {
    NoArguments,
    OneArgument(crate::query::QueryData),
}

pub open spec fn spec_resolve_outcome(
    outcome: CallOutcome,
    event_loop: Option<EventLoopHandle>,
) -> Option<ResolveStep> {
    match outcome {
        CallOutcome::Immediate(v) => Some(ResolveStep::Resolved(v)),
        CallOutcome::Pending(c) => match event_loop {
            Some(l) => Some(ResolveStep::Drive(c, l)),
            None => None,
        },
    }
}

/// Decides how a call outcome is resolved: a concrete value is final; a
/// suspended computation is driven on the dedicated event loop; a suspended
/// computation with no event loop is a configuration error.
pub fn resolve_outcome(outcome: CallOutcome, event_loop: Option<EventLoopHandle>) -> (r: Result<
    ResolveStep,
    PyExecutionError,
>)
    ensures
        (r matches Ok(s)) <==> spec_resolve_outcome(outcome, event_loop) is Some,
        r matches Ok(s) ==> spec_resolve_outcome(outcome, event_loop) == Some(s),
{
    match outcome {
        CallOutcome::Immediate(v) => Ok(ResolveStep::Resolved(v)),
        CallOutcome::Pending(c) => match event_loop {
            Some(l) => Ok(ResolveStep::Drive(c, l)),
            None => Err(
                PyExecutionError {
                    message: "suspended result with no event loop configured".to_owned(),
                },
            ),
        },
    }
}

/// Chooses the arguments for a call into the runtime: an init hook is called
/// with no arguments, any other function with the payload as its single
/// positional argument.
pub fn call_arguments(query: crate::query::QueryData, is_init: bool) -> (r: CallArguments)
    ensures
        is_init ==> r is NoArguments,
        !is_init ==> (r matches CallArguments::OneArgument(q) && q == query),
{
    if is_init {
        CallArguments::NoArguments
    } else {
        CallArguments::OneArgument(query)
    }
}

/// The response body rendered from an execution result: the rendered text on
/// success, an empty body on failure.
pub open spec fn spec_render(result: Result<String, PyExecutionError>) -> Seq<char> {
    match result {
        Ok(s) => s@,
        Err(_) => Seq::empty(),
    }
}

/// Renders an execution result into a response body. Failures are swallowed
/// into an empty body; the surrounding shell logs them.
pub fn render_result(result: Result<String, PyExecutionError>) -> (body: String)
    ensures
        body@ == spec_render(result),
{
    match result {
        Ok(s) => s,
        Err(_) => String::new(),
    }
}

/// Law: a routed function returning a plain value and one returning a
/// suspended computation that resolves to the same concrete value produce
/// identical response bodies — resolution never fails while an event loop
/// exists, and the body depends only on the rendered text of the final
/// value, not on which path produced it.
pub proof fn lemma_async_transparency(
    v: PyValue,
    c: PyValue,
    l: EventLoopHandle,
    a: Result<String, PyExecutionError>,
    b: Result<String, PyExecutionError>,
)
    requires
        a is Ok,
        b is Ok,
        a->Ok_0@ == b->Ok_0@,
    ensures
        spec_resolve_outcome(CallOutcome::Immediate(v), Some(l)) == Some(ResolveStep::Resolved(v)),
        spec_resolve_outcome(CallOutcome::Pending(c), Some(l)) == Some(ResolveStep::Drive(c, l)),
        spec_render(a) == spec_render(b),
{
}

/// Law: a function that raises during execution yields an empty response
/// body, whatever the error message says.
pub proof fn lemma_failure_yields_empty_body(e: PyExecutionError)
    ensures
        spec_render(Err(e)) == Seq::<char>::empty(),
{
}

} // verus!
