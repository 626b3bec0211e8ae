//! A node that streams a file.

use vstd::prelude::*;

verus! {

use crate::engine::Engine;
use crate::engine::PROP_FILE_STREAMER_ENDED;
use crate::engine::PROP_FILE_STREAMER_LOOPING;
use crate::engine::PROP_FILE_STREAMER_POSITION;
use crate::create::create_file_streamer_node_spec;
use crate::server::Server;
use crate::nodes::Node;
use crate::nodes::Handled;
use crate::check;
use crate::nodes::properties::BoolProperty;
use crate::nodes::properties::DoubleProperty;
use crate::lift_code;
use crate::spec_message_for;
use crate::Error;

/// A node that streams a file named at creation; the file cannot be
/// changed afterwards. Decoding and resampling are the engine's business,
/// which makes the position slightly inaccurate and the ended flag
/// slightly delayed.
#[derive(Debug)]
pub struct FileStreamerNode {
    pub handle: i32,
}

impl Handled for FileStreamerNode {
    open spec fn node_handle_spec(&self) -> i32 {
        self.handle
    }

    fn get_handle(&self) -> i32 {
        self.handle
    }
}

impl Node for FileStreamerNode {

    fn connect<D: Handled>(&self, e: &mut Engine, output: i32, destination: &D, input: i32) -> Result<
        (),
        Error,
    > {
        check(e.node_connect(self.get_handle(), output, destination.get_handle(), input))
    }

    fn connect_property<D: Handled>(
        &self,
        e: &mut Engine,
        output: i32,
        destination: &D,
        slot: i32,
    ) -> Result<(), Error> {
        check(e.node_connect_property(self.get_handle(), output, destination.get_handle(), slot))
    }

    fn disconnect<D: Handled>(&self, e: &mut Engine, output: i32, destination: &D, input: i32)
        -> Result<(), Error> {
        check(e.node_disconnect(self.get_handle(), output, destination.get_handle(), input))
    }
}

impl FileStreamerNode {
    /// Creates a file-streaming node for the given path.
    pub fn new(e: &mut Engine, server: &Server, path: &str) -> (r: Result<FileStreamerNode, Error>)
        requires
            old(e)@.wf(),
        ensures
            final(e)@ == create_file_streamer_node_spec(old(e)@, server.handle as int).1,
            create_file_streamer_node_spec(old(e)@, server.handle as int).0 matches Ok(h) ==> (
            r matches Ok(n) && n.handle as int == h),
            create_file_streamer_node_spec(old(e)@, server.handle as int).0 matches Err(c) ==> (
            r matches Err(err) && err.code == c && err.message@ == spec_message_for(c)),
            final(e)@.wf(),
    {
        match lift_code(e.create_file_streamer_node(server.handle, path)) {
            Ok(h) => Ok(FileStreamerNode { handle: h }),
            Err(err) => Err(err),
        }
    }

    /// The read-only `ended` property: switches to true once the stream
    /// has ended completely and gone silent; never true while looping.
    pub fn ended(&self) -> (p: BoolProperty)
        ensures
            p.index == PROP_FILE_STREAMER_ENDED,
            p.node_handle == self.handle,
    {
        BoolProperty { index: PROP_FILE_STREAMER_ENDED, node_handle: self.handle }
    }

    /// The `looping` property: whether the stream restarts from the
    /// beginning at its end. Default false.
    pub fn looping(&self) -> (p: BoolProperty)
        ensures
            p.index == PROP_FILE_STREAMER_LOOPING,
            p.node_handle == self.handle,
    {
        BoolProperty { index: PROP_FILE_STREAMER_LOOPING, node_handle: self.handle }
    }

    /// The `position` property: the stream position in frames, bounded by
    /// the stream's duration.
    pub fn position(&self) -> (p: DoubleProperty)
        ensures
            p.index == PROP_FILE_STREAMER_POSITION,
            p.node_handle == self.handle,
    {
        DoubleProperty { index: PROP_FILE_STREAMER_POSITION, node_handle: self.handle }
    }
}

} // verus!
