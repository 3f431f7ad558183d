//! The queue of the software backend.

use crate::wgpu::command_encoder::Command;
use vstd::prelude::*;

verus! {

/// The commands of `buffers` from buffer `i` on, one buffer after the
/// other, after `commands`.
pub open spec fn submitted(commands: Seq<Command>, buffers: Seq<Vec<Command>>, i: int) -> Seq<
    Command,
>
    decreases buffers.len() - i,
{
    if i < 0 || i >= buffers.len() {
        commands
    } else {
        submitted(commands + buffers[i]@, buffers, i + 1)
    }
}

/// The commands with the signal of a fence after them, if one is asked
/// for: of the fence at an address, to a value.
pub open spec fn signalled(commands: Seq<Command>, signal: Option<(usize, u64)>) -> Seq<Command> {
    match signal {
        Some((fence, value)) => commands.push(Command::Signal { fence, value }),
        None => commands,
    }
}

/// The commands that wait to be carried out, in the order of their
/// submission.
#[derive(Debug)]
pub struct Queue {
    pub commands: Vec<Command>,
}

impl Queue {
    pub fn new() -> (queue: Queue)
        ensures
            queue.commands@ == Seq::<Command>::empty(),
    {
        Queue { commands: Vec::new() }
    }

    /// Submits the recorded buffers in order, and after them the signal
    /// of a fence, if one is asked for.
    pub fn submit(
        &mut self,
        command_buffers: &Vec<Vec<Command>>,
        signal_fence: Option<(usize, u64)>,
    )
        ensures
            final(self).commands@ == signalled(
                submitted(old(self).commands@, command_buffers@, 0),
                signal_fence,
            ),
    {
        let mut i: usize = 0;
        while i < command_buffers.len()
            invariant
                submitted(self.commands@, command_buffers@, i as int) == submitted(
                    old(self).commands@,
                    command_buffers@,
                    0,
                ),
            decreases command_buffers@.len() - i,
        {
            let buffer = &command_buffers[i];
            let ghost before = self.commands@;
            let mut j: usize = 0;
            while j < buffer.len()
                invariant
                    j <= buffer@.len(),
                    self.commands@ == before + buffer@.subrange(0, j as int),
                decreases buffer@.len() - j,
            {
                self.commands.push(buffer[j]);
                assert(before + buffer@.subrange(0, j + 1) =~= (before + buffer@.subrange(
                    0,
                    j as int,
                )).push(buffer@[j as int]));
                j += 1;
            }
            assert(buffer@.subrange(0, buffer@.len() as int) =~= buffer@);
            i += 1;
        }
        if let Some((fence, value)) = signal_fence {
            self.commands.push(Command::Signal { fence, value });
        }
    }
}

} // verus!
