//! A standardized API approach based on context and parameter traits.
//!
//! This crate provides a framework for building APIs using a trait-based
//! approach where operations are defined against shared contexts and
//! parameter objects. An operation is a stateless marker type whose
//! `execute` logic consumes a mutable context and immutable parameters and
//! produces a typed output or a typed error. The framework adds an ergonomic
//! method-style call form for every operation, and a stateful executor that
//! owns one context across many operation dispatches.
//!
//! Every operation's behaviour is pinned down by two specification
//! functions, chosen by the implementer: the result an execution returns and
//! the context it leaves behind, both as functions of the starting context
//! and the parameters alone. The wrapper and the executor are proved to add
//! no behaviour of their own on top of those two functions.

use vstd::prelude::*;

verus! {

/// Core trait that all API operations implement.
///
/// An implementer describes one unit of work against a context of type `C`
/// with parameters of type `P`. Its behaviour must be a pure function of the
/// starting context and the parameters: `result_of` gives the returned
/// value, `context_after` the context left behind, and `execute` is proved
/// to agree with both.
pub trait ApiOperation<C, P> {
    /// The type returned by a successful operation execution.
    type Output;

    /// The error type returned when an operation fails.
    type Error;

    /// What an execution returns, as a function of the starting context and
    /// the parameters.
    ///
    /// The default leaves the result unspecified; an implementer overrides
    /// it to state what the operation returns (an implementation of
    /// `execute` can only be verified against an overridden body).
    open spec fn result_of(context: C, parameters: P) -> Result<Self::Output, Self::Error> {
        arbitrary()
    }

    /// The context an execution leaves behind, as a function of the starting
    /// context and the parameters.
    ///
    /// The default leaves the mutation unspecified; an implementer overrides
    /// it to state how the operation changes the context.
    open spec fn context_after(context: C, parameters: P) -> C {
        arbitrary()
    }

    /// Execute the API operation with the given context and parameters.
    fn execute(context: &mut C, parameters: &P) -> (result: Result<Self::Output, Self::Error>)
        ensures
            result == Self::result_of(*old(context), *parameters),
            *final(context) == Self::context_after(*old(context), *parameters),
    ;
}

/// A trait providing ergonomic method-style execution for API operations.
///
/// Every type that implements [`ApiOperation`] gains this trait through one
/// blanket implementation; operation authors never implement it by hand. Its
/// two specification functions coincide with the operation's own, so a call
/// through `execute_on` is interchangeable with the direct `execute` call
/// (see [`lemma_execute_on_is_execute`]).
pub trait Execute<C, P> {
    /// The type returned by a successful operation execution.
    type Output;

    /// The error type returned when an operation fails.
    type Error;

    /// What an invocation through this wrapper returns.
    spec fn wrapped_result_of(context: C, parameters: P) -> Result<Self::Output, Self::Error>;

    /// The context an invocation through this wrapper leaves behind.
    spec fn wrapped_context_after(context: C, parameters: P) -> C;

    /// Execute the API operation on the given context with the specified
    /// parameters.
    fn execute_on(self, context: &mut C, parameters: &P) -> (result: Result<Self::Output, Self::Error>)
        ensures
            result == Self::wrapped_result_of(*old(context), *parameters),
            *final(context) == Self::wrapped_context_after(*old(context), *parameters),
    ;
}

/// Blanket implementation of `Execute` for all `ApiOperation` implementors.
///
/// It does nothing but forward to the operation's own `execute` logic: the
/// wrapper's specification functions are defined to be the operation's.
impl<T, C, P> Execute<C, P> for T where T: ApiOperation<C, P> {
    type Output = T::Output;

    type Error = T::Error;

    open spec fn wrapped_result_of(context: C, parameters: P) -> Result<T::Output, T::Error> {
        <T as ApiOperation<C, P>>::result_of(context, parameters)
    }

    open spec fn wrapped_context_after(context: C, parameters: P) -> C {
        <T as ApiOperation<C, P>>::context_after(context, parameters)
    }

    fn execute_on(self, context: &mut C, parameters: &P) -> (result: Result<T::Output, T::Error>) {
        T::execute(context, parameters)
    }
}

/// Law: the method-style wrapper adds no behaviour of its own. For any
/// operation type, a starting context and parameters, the invocation through
/// [`Execute::execute_on`] is specified by exactly the result and the context
/// mutation of the direct [`ApiOperation::execute`] call.
pub proof fn lemma_execute_on_is_execute<T, C, P>(context: C, parameters: P) where
    T: ApiOperation<C, P>
    ensures
        <T as Execute<C, P>>::wrapped_result_of(context, parameters)
            == <T as ApiOperation<C, P>>::result_of(context, parameters),
        <T as Execute<C, P>>::wrapped_context_after(context, parameters)
            == <T as ApiOperation<C, P>>::context_after(context, parameters),
{
}

/// A stateful executor for API operations that maintains context across
/// multiple calls.
///
/// The executor takes ownership of one context value at construction and
/// holds it for its whole lifetime; every dispatch lends the held context to
/// the operation as a mutable borrow scoped to that one call. The executor
/// itself never fails and adds no behaviour: a dispatch returns exactly what
/// the operation's own execute logic returns, and leaves the held context
/// exactly as that logic leaves it.
#[derive(Debug, Clone)]
pub struct ApiExecutor<C> {
    /// The context instance owned by this executor.
    context: C,
}

impl<C> ApiExecutor<C> {
    /// The context value this executor currently holds.
    pub closed spec fn held_context(self) -> C {
        self.context
    }

    /// Creates a new `ApiExecutor` that owns the provided context.
    ///
    /// The caller hands the context over by value: after construction the
    /// executor holds the one instance.
    pub fn new(context: C) -> (executor: Self)
        ensures
            executor.held_context() == context,
    {
        ApiExecutor { context }
    }

    /// Executes an API operation using this executor's context.
    ///
    /// A dispatch is a pure pass-through: it returns exactly what the
    /// operation's execute logic returns for the held context and the given
    /// parameters, and the held context becomes exactly what that logic
    /// leaves behind — the same result and mutation as calling the operation
    /// directly against the held context.
    pub fn execute<P, Op>(&mut self, _op: Op, parameters: &P) -> (result: Result<
        Op::Output,
        Op::Error,
    >) where Op: ApiOperation<C, P>
        ensures
            result == Op::result_of(old(self).held_context(), *parameters),
            final(self).held_context() == Op::context_after(
                old(self).held_context(),
                *parameters,
            ),
    {
        Op::execute(&mut self.context, parameters)
    }

    /// Returns an immutable reference to the executor's context.
    pub fn context(&self) -> (context: &C)
        ensures
            *context == self.held_context(),
    {
        &self.context
    }

    /// Returns a mutable reference to the executor's context.
    ///
    /// The borrow starts at the held context, and whatever the caller leaves
    /// in it becomes the held context: out-of-band mutation between
    /// dispatches goes through here, and nothing else about the executor
    /// changes.
    pub fn context_mut(&mut self) -> (context: &mut C)
        ensures
            *context == old(self).held_context(),
            final(self).held_context() == *final(context),
    {
        &mut self.context
    }
}

} // verus!
