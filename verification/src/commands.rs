//! The dispatch encoder: the command sequence a run records, built once and
//! consumed exactly once by submission.  The sequence is fixed — open a
//! compute pass, bind the pipeline and its one bind group, dispatch a single
//! workgroup, close the pass, then copy the scalar from the device buffer
//! into the host-visible one — and the copy stands after the dispatch, so a
//! queue that executes a submission in recorded order lets the copy observe
//! the kernel's write.

use vstd::prelude::*;
use crate::resources::RESULT_SIZE;

verus! {

/// One recorded device operation.
#[derive(Clone, Copy, PartialEq, Eq, Structural, Debug)]
pub enum Command {
    /// Open the compute-pass sub-scope.
    BeginComputePass,
    /// Bind the compute pipeline inside the pass.
    SetPipeline,
    /// Bind the resource group at the given index inside the pass.
    SetBindGroup { group: u32 },
    /// Dispatch the kernel over the given workgroup counts.
    DispatchWorkgroups { x: u32, y: u32, z: u32 },
    /// Close the compute-pass sub-scope; no further pass command may follow.
    EndComputePass,
    /// Copy `size` bytes from the device buffer to the host-visible buffer.
    CopyBufferToBuffer { src_offset: u64, dst_offset: u64, size: u64 },
}

/// Does the command write the device buffer through the kernel?
pub open spec fn is_dispatch(c: Command) -> bool {
    c is DispatchWorkgroups
}

/// Does the command read the device buffer into the host-visible one?
pub open spec fn is_copy(c: Command) -> bool {
    c is CopyBufferToBuffer
}

/// The exact sequence the dispatch encoder records: one single-workgroup
/// dispatch inside a closed compute pass, then one full-size copy.
pub open spec fn encoded() -> Seq<Command> {
    seq![
        Command::BeginComputePass,
        Command::SetPipeline,
        Command::SetBindGroup { group: 0 },
        Command::DispatchWorkgroups { x: 1, y: 1, z: 1 },
        Command::EndComputePass,
        Command::CopyBufferToBuffer { src_offset: 0, dst_offset: 0, size: RESULT_SIZE },
    ]
}

/// An ordered, finite list of recorded operations, immutable after recording
/// finishes and consumed exactly once by submission.
pub struct CommandSequence {
    commands: Vec<Command>,
}

impl View for CommandSequence {
    type V = Seq<Command>;

    closed spec fn view(&self) -> Seq<Command> {
        self.commands@
    }
}

impl CommandSequence {
    /// The recorded operations, in order.
    pub fn commands(&self) -> (c: &Vec<Command>)
        ensures
            c@ == self@,
    {
        &self.commands
    }
}

/// Records the command sequence of one run.
pub fn encode() -> (cs: CommandSequence)
    ensures
        cs@ == encoded(),
{
    let mut commands: Vec<Command> = Vec::new();
    commands.push(Command::BeginComputePass);
    commands.push(Command::SetPipeline);
    commands.push(Command::SetBindGroup { group: 0 });
    commands.push(Command::DispatchWorkgroups { x: 1, y: 1, z: 1 });
    commands.push(Command::EndComputePass);
    commands.push(Command::CopyBufferToBuffer { src_offset: 0, dst_offset: 0, size: RESULT_SIZE });
    proof {
        assert(commands@ =~= encoded());
    }
    CommandSequence { commands }
}

/// Ordering: in the recorded sequence every copy stands after every dispatch,
/// so the copy never reads the device buffer before the kernel has written
/// it.
pub proof fn lemma_copy_after_dispatch(s: Seq<Command>)
    requires
        s == encoded(),
    ensures
        forall|i: int, j: int|
            0 <= i < s.len() && 0 <= j < s.len() && is_dispatch(s[i]) && is_copy(s[j]) ==> i < j,
{
    assert forall|i: int, j: int|
        0 <= i < s.len() && 0 <= j < s.len() && is_dispatch(s[i]) && is_copy(s[j]) implies i < j by {
        if i == 0 || i == 1 || i == 2 || i == 4 || i == 5 {
            assert(false);
        }
        if j == 0 || j == 1 || j == 2 || j == 3 || j == 4 {
            assert(false);
        }
    }
}

} // verus!
