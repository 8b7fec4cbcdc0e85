//! The stage that does nothing: a placeholder that is always there and always
//! succeeds.
use crate::processor::Processor;
use vstd::prelude::*;

verus! {

/// The processor of the empty stage. It has no name and no state, does no
/// work, and never fails.
#[derive(Debug, Default, Clone, Copy)]
pub struct DaemonProcessor;

impl Processor<()> for DaemonProcessor {
    /// The only name is the empty string.
    open spec fn may_name(&self, name: Seq<char>) -> bool {
        name == Seq::<char>::empty()
    }

    /// The only outcome is success, with the empty output.
    open spec fn may_yield(&self, task: (), outcome: anyhow::Result<()>) -> bool {
        outcome == Ok::<(), anyhow::Error>(())
    }

    fn name(&self) -> (name: String)
        ensures
            name@ == Seq::<char>::empty(),
    {
        String::new()
    }

    fn process(&self, _task: ()) -> (outcome: anyhow::Result<()>)
        ensures
            outcome == Ok::<(), anyhow::Error>(()),
    {
        Ok(())
    }
}

/// The daemon processor has no state and every call of it is like every other:
/// any two of its values are equal, any name it reports is the empty string,
/// and any outcome of `process` is success with the empty output.
pub proof fn daemon_is_idempotent(
    first: DaemonProcessor,
    second: DaemonProcessor,
    name: Seq<char>,
    outcome: anyhow::Result<()>,
)
    ensures
        first == second,
        first.may_name(name) <==> name.len() == 0,
        first.may_yield((), outcome) <==> outcome == Ok::<(), anyhow::Error>(()),
        first.may_name(name) <==> second.may_name(name),
        first.may_yield((), outcome) <==> second.may_yield((), outcome),
{
    assert(name.len() == 0 <==> name =~= Seq::<char>::empty());
}

/// The daemon processor stays what it is when it is wrapped: in a box, and
/// behind a handle that hides which processor it is, there is still no name
/// but the empty string and no outcome but success with the empty output.
pub proof fn wrapped_daemon_is_the_daemon(
    daemon: DaemonProcessor,
    name: Seq<char>,
    outcome: anyhow::Result<()>,
)
    ensures
        Box::new(daemon).may_name(name) <==> name.len() == 0,
        Box::new(daemon).may_yield((), outcome) <==> outcome == Ok::<(), anyhow::Error>(()),
        ({
            let handle: Box<dyn Processor<()>> = Box::new(daemon);
            &&& handle.may_name(name) <==> name.len() == 0
            &&& handle.may_yield((), outcome) <==> outcome == Ok::<(), anyhow::Error>(())
        }),
{
    assert(name.len() == 0 <==> name =~= Seq::<char>::empty());
}

} // verus!
