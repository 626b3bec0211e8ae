//! A node whose audio is produced on demand by a registered callback.

use vstd::prelude::*;

verus! {

use crate::engine::Engine;
use crate::create::create_pull_node_spec;
use crate::process::set_pull_callback_spec;
use crate::server::Server;
use crate::nodes::Node;
use crate::nodes::Handled;
use crate::check;
use crate::lift_code;
use crate::spec_message_for;
use crate::Error;

/// A node that asks its registered callback for audio whenever the mixer
/// needs more — the way to inject audio from a source the engine does not
/// know, such as a custom network protocol. It has no inputs.
///
/// The engine's calling convention carries only a function pointer and
/// one opaque context word, so the callback is registered as an opaque
/// token; while processing, the engine raises a demand event carrying the
/// token, and the application's dispatch loop runs the closure the token
/// names. The closure itself never enters the engine, so its lifetime is
/// wholly the application's to manage.
#[derive(Debug)]
pub struct PullNode {
    pub handle: i32,
}

impl Handled for PullNode {
    open spec fn node_handle_spec(&self) -> i32 {
        self.handle
    }

    fn get_handle(&self) -> i32 {
        self.handle
    }
}

impl Node for PullNode {

    fn connect<D: Handled>(&self, e: &mut Engine, output: i32, destination: &D, input: i32) -> Result<
        (),
        Error,
    > {
        check(e.node_connect(self.get_handle(), output, destination.get_handle(), input))
    }

    fn connect_property<D: Handled>(
        &self,
        e: &mut Engine,
        output: i32,
        destination: &D,
        slot: i32,
    ) -> Result<(), Error> {
        check(e.node_connect_property(self.get_handle(), output, destination.get_handle(), slot))
    }

    fn disconnect<D: Handled>(&self, e: &mut Engine, output: i32, destination: &D, input: i32)
        -> Result<(), Error> {
        check(e.node_disconnect(self.get_handle(), output, destination.get_handle(), input))
    }
}

impl PullNode {
    /// Creates a pull node producing `channels` channels at the given
    /// callback sampling rate; the engine resamples as needed.
    pub fn new(e: &mut Engine, server: &Server, sr: u32, channels: u32) -> (r: Result<
        PullNode,
        Error,
    >)
        requires
            old(e)@.wf(),
        ensures
            final(e)@ == create_pull_node_spec(old(e)@, server.handle as int, sr, channels).1,
            create_pull_node_spec(old(e)@, server.handle as int, sr, channels).0 matches Ok(h)
                ==> (r matches Ok(n) && n.handle as int == h),
            create_pull_node_spec(old(e)@, server.handle as int, sr, channels).0 matches Err(c)
                ==> (r matches Err(err) && err.code == c && err.message@ == spec_message_for(c)),
            final(e)@.wf(),
    {
        match lift_code(e.create_pull_node(server.handle, sr, channels)) {
            Ok(h) => Ok(PullNode { handle: h }),
            Err(err) => Err(err),
        }
    }

    /// Registers the audio callback under an opaque token, replacing any
    /// prior registration. The previous token comes back so the
    /// application can retire its closure once no invocation can still be
    /// in flight; the frame count demanded per invocation is not
    /// guaranteed constant.
    pub fn set_audio_callback(&self, e: &mut Engine, token: u64) -> (r: Result<
        Option<u64>,
        Error,
    >)
        requires
            old(e)@.wf(),
        ensures
            final(e)@ == set_pull_callback_spec(old(e)@, self.handle as int, token).1,
            set_pull_callback_spec(old(e)@, self.handle as int, token).0 matches Ok(prev) ==> (
            r matches Ok(p) && p == prev),
            set_pull_callback_spec(old(e)@, self.handle as int, token).0 matches Err(c) ==> (
            r matches Err(err) && err.code == c && err.message@ == spec_message_for(c)),
            final(e)@.wf(),
    {
        lift_code(e.pull_node_set_audio_callback(self.handle, token))
    }
}

} // verus!
