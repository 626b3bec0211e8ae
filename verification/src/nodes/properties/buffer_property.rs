//! Proxy to a buffer-reference property.

use vstd::prelude::*;

verus! {

use crate::engine::Engine;
use crate::buffer::Buffer;
use crate::props::set_buffer_spec;
use crate::check;
use crate::spec_message_for;
use crate::Error;

/// Proxy to a property that references a buffer. Binding a buffer rewinds
/// the owning node's playback position and re-derives the position's
/// dynamic range from the buffer's extent.
pub struct BufferProperty {
    /// The index the engine uses to identify this property on its node.
    pub index: i32,
    /// The handle of the owning node.
    pub node_handle: i32,
}

impl BufferProperty {
    /// Binds a buffer to the property.
    pub fn set(&self, e: &mut Engine, buffer: &Buffer) -> (r: Result<(), Error>)
        requires
            old(e)@.wf(),
        ensures
            final(e)@ == set_buffer_spec(
                old(e)@,
                self.node_handle as int,
                self.index,
                buffer.handle as int,
            ).1,
            set_buffer_spec(
                old(e)@,
                self.node_handle as int,
                self.index,
                buffer.handle as int,
            ).0 == 0 <==> r is Ok,
            r matches Err(err) ==> err.code == set_buffer_spec(
                old(e)@,
                self.node_handle as int,
                self.index,
                buffer.handle as int,
            ).0 && err.message@ == spec_message_for(err.code),
            final(e)@.wf(),
    {
        check(e.node_set_buffer_property(self.node_handle, self.index, buffer.handle))
    }
}

} // verus!
