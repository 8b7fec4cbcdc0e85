//! Processors: the handlers of stages, and the handles that pass calls on to
//! them.
//!
//! A processor may do anything at all inside `process`, so its contract is a
//! pair of relations that each implementation chooses for itself:
//! [`Processor::may_name`] holds of the names it may report, and
//! [`Processor::may_yield`] of the outcomes in which processing a task may end.
//! A handle that forwards has to be transparent: its relations are those of the
//! processor behind it, neither wider nor narrower.
use crate::task::Task;
use vstd::prelude::*;

verus! {

/// `anyhow::Error`, the failure that `process` returns. It is carried through
/// as an opaque value: nothing is assumed of what it holds.
#[verifier::external_type_specification]
#[verifier::external_body]
pub struct ExAnyhowError(anyhow::Error);

/// A handler of the stage that tasks of type `T` belong to.
///
/// One processor may be called from many threads at once, so it is shareable,
/// and `process` takes it by shared reference. A processor written without
/// Verus implements `name` and `process` and nothing else; its relations are
/// then the widest ones, which promise nothing of it.
pub trait Processor<T: Task> where Self: Send + Sync {
    /// Whether `name` is a name that this processor may report.
    ///
    /// Unless an implementation says more, every name is possible.
    open spec fn may_name(&self, name: Seq<char>) -> bool {
        true
    }

    /// Whether processing `task` may end in `outcome`, be it the output or a
    /// failure.
    ///
    /// Unless an implementation says more, every outcome is possible.
    open spec fn may_yield(&self, task: T, outcome: anyhow::Result<<T as Task>::Output>) -> bool {
        true
    }

    /// The name of this processor, for people to read. It may be empty.
    fn name(&self) -> (name: String)
        ensures
            self.may_name(name@),
    ;

    /// Runs the stage on `task`, to its end: the call returns when the work
    /// is done, with the output, or when it has failed, with the failure.
    fn process(&self, task: T) -> (outcome: anyhow::Result<<T as Task>::Output>)
        ensures
            self.may_yield(task, outcome),
    ;
}

/// A processor behind an owning box is a processor: every call goes to the
/// processor inside, and what comes back is handed on unchanged.
impl<T: Task, P: Processor<T>> Processor<T> for Box<P> {
    open spec fn may_name(&self, name: Seq<char>) -> bool {
        (**self).may_name(name)
    }

    open spec fn may_yield(&self, task: T, outcome: anyhow::Result<<T as Task>::Output>) -> bool {
        (**self).may_yield(task, outcome)
    }

    fn name(&self) -> (name: String)
        ensures
            (**self).may_name(name@),
    {
        (**self).name()
    }

    fn process(&self, task: T) -> (outcome: anyhow::Result<<T as Task>::Output>)
        ensures
            (**self).may_yield(task, outcome),
    {
        (**self).process(task)
    }
}

/// A handle to some processor of `T`, whichever it is, is a processor: every
/// call is dispatched to the processor behind the handle, and what comes back
/// is handed on unchanged.
impl<T: Task> Processor<T> for Box<dyn Processor<T>> {
    open spec fn may_name(&self, name: Seq<char>) -> bool {
        (**self).may_name(name)
    }

    open spec fn may_yield(&self, task: T, outcome: anyhow::Result<<T as Task>::Output>) -> bool {
        (**self).may_yield(task, outcome)
    }

    fn name(&self) -> (name: String)
        ensures
            (**self).may_name(name@),
    {
        (**self).name()
    }

    fn process(&self, task: T) -> (outcome: anyhow::Result<<T as Task>::Output>)
        ensures
            (**self).may_yield(task, outcome),
    {
        (**self).process(task)
    }
}

/// Boxing a processor is transparent: the box may report exactly the names
/// that the processor itself may report, and processing a task through the box
/// may end in exactly the outcomes, failures included, in which processing it
/// directly may end.
pub proof fn boxed_is_transparent<T: Task, P: Processor<T>>(
    inner: P,
    name: Seq<char>,
    task: T,
    outcome: anyhow::Result<<T as Task>::Output>,
)
    ensures
        Box::new(inner).may_name(name) <==> inner.may_name(name),
        Box::new(inner).may_yield(task, outcome) <==> inner.may_yield(task, outcome),
{
}

/// A handle to a type-erased processor is transparent: it may report exactly
/// the names that the processor behind it may report, and processing a task
/// through the handle may end in exactly the outcomes, failures included, in
/// which the processor behind it may end.
pub proof fn erased_is_transparent<T: Task>(
    handle: Box<dyn Processor<T>>,
    name: Seq<char>,
    task: T,
    outcome: anyhow::Result<<T as Task>::Output>,
)
    ensures
        handle.may_name(name) <==> (*handle).may_name(name),
        handle.may_yield(task, outcome) <==> (*handle).may_yield(task, outcome),
{
}

} // verus!
