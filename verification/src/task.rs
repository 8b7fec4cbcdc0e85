//! Tasks: the typed inputs of named stages.
use std::fmt::Debug;
use vstd::prelude::*;

verus! {

/// The input of one named stage, bound to the type of output that the stage
/// produces.
///
/// The binding is static: a task type has exactly one stage name and exactly
/// one output type, and neither can change while the program runs. A task and
/// its output can be printed for diagnostics and passed between threads, and
/// they borrow nothing.
pub trait Task where
    Self: Debug + Send + Sync + 'static,
    Self::Output: Debug + Send + Sync + 'static,
 {
    /// The stage name. It belongs to the type, not to a task value.
    const STAGE: &'static str;

    /// The type of what the stage produces from a task of this type.
    type Output;
}

/// The empty task: it carries no information, and neither does its output.
impl Task for () {
    const STAGE: &'static str = "EMPTY";

    type Output = ();
}

/// The stage name is fixed by the task type alone: two reads of `T::STAGE`,
/// wherever and whenever they are made, give the same string.
pub proof fn stage_is_stable<T: Task>(first: Seq<char>, second: Seq<char>)
    requires
        first == T::STAGE@,
        second == T::STAGE@,
    ensures
        first == second,
{
}

/// The empty task belongs to the stage `"EMPTY"`, and the output bound to it
/// is the empty value again.
pub proof fn empty_task_stage(output: <() as Task>::Output)
    ensures
        <() as Task>::STAGE@ == "EMPTY"@,
        <() as Task>::STAGE@ == seq!['E', 'M', 'P', 'T', 'Y'],
        output == (),
{
    reveal_strlit("EMPTY");
}

} // verus!
