//! A recording render pass.
//!
//! A render pass is a scoped recording context: binding a pipeline, binding
//! buffers and drawing only append commands to it, and the surrounding
//! application later replays the recorded commands onto the graphics API's
//! own pass object.  Keeping the recording as plain data pins down exactly
//! what a draw issues, in what order and with which arguments.

use vstd::prelude::*;

verus! {

/// The width of the values in an index buffer.
#[derive(Clone, Copy, Debug, PartialEq, Eq, Structural)]
pub enum IndexFormat {
    /// 16-bit unsigned indices.
    Uint16,
    /// 32-bit unsigned indices.
    Uint32,
}

/// One command recorded into a render pass.
#[derive(Clone, Copy, Debug, PartialEq, Eq, Structural)]
pub enum PassCommand {
    /// Make a pipeline the active one for the commands that follow.
    SetPipeline,
    /// Bind a vertex buffer, over its full range, at the given slot.
    SetVertexBuffer { slot: u32 },
    /// Bind the index buffer, over its full range, with the given format.
    SetIndexBuffer { format: IndexFormat },
    /// Draw `index_count` indexed vertices starting at `first_index`, for
    /// `instance_count` instances starting at `first_instance`, adding
    /// `base_vertex` to every index read from the index buffer.
    DrawIndexed {
        first_index: u32,
        index_count: u32,
        base_vertex: i32,
        first_instance: u32,
        instance_count: u32,
    },
}

/// An open render pass, as the sequence of commands recorded so far.
#[derive(Debug, PartialEq)]
pub struct RenderPass {
    commands: Vec<PassCommand>,
}

impl View for RenderPass {
    type V = Seq<PassCommand>;

    closed spec fn view(&self) -> Seq<PassCommand> {
        self.commands@
    }
}

impl RenderPass {
    /// Opens a pass with nothing recorded yet.
    pub fn new() -> (pass: RenderPass)
        ensures
            pass@ == Seq::<PassCommand>::empty(),
    {
        RenderPass { commands: Vec::new() }
    }

    /// Records making a pipeline the active one.
    pub fn set_pipeline(&mut self)
        ensures
            final(self)@ == old(self)@.push(PassCommand::SetPipeline),
    {
        self.commands.push(PassCommand::SetPipeline);
    }

    /// Records binding a vertex buffer at the given slot.
    pub fn set_vertex_buffer(&mut self, slot: u32)
        ensures
            final(self)@ == old(self)@.push(PassCommand::SetVertexBuffer { slot }),
    {
        self.commands.push(PassCommand::SetVertexBuffer { slot });
    }

    /// Records binding the index buffer with the given format.
    pub fn set_index_buffer(&mut self, format: IndexFormat)
        ensures
            final(self)@ == old(self)@.push(PassCommand::SetIndexBuffer { format }),
    {
        self.commands.push(PassCommand::SetIndexBuffer { format });
    }

    /// Records one indexed draw.
    pub fn draw_indexed(
        &mut self,
        first_index: u32,
        index_count: u32,
        base_vertex: i32,
        first_instance: u32,
        instance_count: u32,
    )
        ensures
            final(self)@ == old(self)@.push(
                PassCommand::DrawIndexed {
                    first_index,
                    index_count,
                    base_vertex,
                    first_instance,
                    instance_count,
                },
            ),
    {
        self.commands.push(
            PassCommand::DrawIndexed {
                first_index,
                index_count,
                base_vertex,
                first_instance,
                instance_count,
            },
        );
    }

    /// The commands recorded so far, in order.
    pub fn commands(&self) -> (cs: &Vec<PassCommand>)
        ensures
            cs@ == self@,
    {
        &self.commands
    }
}

} // verus!
