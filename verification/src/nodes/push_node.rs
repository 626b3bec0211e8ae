//! A node that queues pushed audio and plays it out.

use vstd::prelude::*;

verus! {

use crate::engine::Engine;
use crate::engine::PROP_PUSH_THRESHOLD;
use crate::engine::ERROR_RANGE;
use crate::create::create_push_node_spec;
use crate::process::set_low_callback_spec;
use crate::process::set_underrun_callback_spec;
use crate::process::push_feed_spec;
use crate::server::Server;
use crate::nodes::Node;
use crate::nodes::Handled;
use crate::nodes::properties::FloatProperty;
use crate::check;
use crate::lift_code;
use crate::spec_message_for;
use crate::Error;

/// A node for audio that arrives whenever it arrives: samples fed to it
/// queue up and play out as fast as possible, saving the application
/// from writing its own queue. It has no inputs.
///
/// Its two notification callbacks are registered as opaque tokens; while
/// processing, the engine raises events carrying the token — once per
/// block while the queued duration is under the threshold, and exactly
/// once when the queue empties completely — and the application's
/// dispatch loop runs the closures the tokens name, off the audio thread.
#[derive(Debug)]
pub struct PushNode {
    pub handle: i32,
}

impl Handled for PushNode {
    open spec fn node_handle_spec(&self) -> i32 {
        self.handle
    }

    fn get_handle(&self) -> i32 {
        self.handle
    }
}

impl Node for PushNode {

    fn connect<D: Handled>(&self, e: &mut Engine, output: i32, destination: &D, input: i32) -> Result<
        (),
        Error,
    > {
        check(e.node_connect(self.get_handle(), output, destination.get_handle(), input))
    }

    fn connect_property<D: Handled>(
        &self,
        e: &mut Engine,
        output: i32,
        destination: &D,
        slot: i32,
    ) -> Result<(), Error> {
        check(e.node_connect_property(self.get_handle(), output, destination.get_handle(), slot))
    }

    fn disconnect<D: Handled>(&self, e: &mut Engine, output: i32, destination: &D, input: i32)
        -> Result<(), Error> {
        check(e.node_disconnect(self.get_handle(), output, destination.get_handle(), input))
    }
}

impl PushNode {
    /// Creates a push node taking `channels`-channel audio at the given
    /// feed sampling rate.
    pub fn new(e: &mut Engine, server: &Server, sr: u32, channels: u32) -> (r: Result<
        PushNode,
        Error,
    >)
        requires
            old(e)@.wf(),
        ensures
            final(e)@ == create_push_node_spec(old(e)@, server.handle as int, sr, channels).1,
            create_push_node_spec(old(e)@, server.handle as int, sr, channels).0 matches Ok(h)
                ==> (r matches Ok(n) && n.handle as int == h),
            create_push_node_spec(old(e)@, server.handle as int, sr, channels).0 matches Err(c)
                ==> (r matches Err(err) && err.code == c && err.message@ == spec_message_for(c)),
            final(e)@.wf(),
    {
        match lift_code(e.create_push_node(server.handle, sr, channels)) {
            Ok(h) => Ok(PushNode { handle: h }),
            Err(err) => Err(err),
        }
    }

    /// The `threshold` property: the queued duration, in thousandths of a
    /// second, under which the low callback fires. Default thirty (that
    /// is, thirty milliseconds).
    pub fn threshold(&self) -> (p: FloatProperty)
        ensures
            p.index == PROP_PUSH_THRESHOLD,
            p.node_handle == self.handle,
    {
        FloatProperty { index: PROP_PUSH_THRESHOLD, node_handle: self.handle }
    }

    /// Registers the low-audio callback under an opaque token, replacing
    /// any prior registration; the previous token comes back so its
    /// closure can be retired safely. The callback fires once per block,
    /// off the audio thread, while less than the threshold remains
    /// queued.
    pub fn set_low_callback(&self, e: &mut Engine, token: u64) -> (r: Result<
        Option<u64>,
        Error,
    >)
        requires
            old(e)@.wf(),
        ensures
            final(e)@ == set_low_callback_spec(old(e)@, self.handle as int, token).1,
            set_low_callback_spec(old(e)@, self.handle as int, token).0 matches Ok(prev) ==> (
            r matches Ok(p) && p == prev),
            set_low_callback_spec(old(e)@, self.handle as int, token).0 matches Err(c) ==> (
            r matches Err(err) && err.code == c && err.message@ == spec_message_for(c)),
            final(e)@.wf(),
    {
        lift_code(e.push_node_set_low_callback(self.handle, token))
    }

    /// Registers the underrun callback under an opaque token, replacing
    /// any prior registration; the previous token comes back so its
    /// closure can be retired safely. The callback fires exactly once,
    /// off the audio thread, when the queue empties completely.
    pub fn set_underrun_callback(&self, e: &mut Engine, token: u64) -> (r: Result<
        Option<u64>,
        Error,
    >)
        requires
            old(e)@.wf(),
        ensures
            final(e)@ == set_underrun_callback_spec(old(e)@, self.handle as int, token).1,
            set_underrun_callback_spec(old(e)@, self.handle as int, token).0 matches Ok(prev) ==> (
            r matches Ok(p) && p == prev),
            set_underrun_callback_spec(old(e)@, self.handle as int, token).0 matches Err(c) ==> (
            r matches Err(err) && err.code == c && err.message@ == spec_message_for(c)),
            final(e)@.wf(),
    {
        lift_code(e.push_node_set_underrun_callback(self.handle, token))
    }

    /// Feeds interleaved samples (fixed-point thousandths) into the
    /// queue; the sample count must fill whole frames.
    pub fn feed(&self, e: &mut Engine, length_in_samples: u32, frames: &[i64]) -> (r: Result<
        (),
        Error,
    >)
        requires
            old(e)@.wf(),
        ensures
            frames@.len() == length_in_samples ==> {
                &&& final(e)@ == push_feed_spec(old(e)@, self.handle as int, length_in_samples).1
                &&& (push_feed_spec(old(e)@, self.handle as int, length_in_samples).0 == 0 <==> r
                    is Ok)
                &&& (r matches Err(err) ==> err.code == push_feed_spec(
                    old(e)@,
                    self.handle as int,
                    length_in_samples,
                ).0 && err.message@ == spec_message_for(err.code))
            },
            frames@.len() != length_in_samples ==> final(e)@ == old(e)@ && (r matches Err(err)
                && err.code == ERROR_RANGE),
            final(e)@.wf(),
    {
        if frames.len() != length_in_samples as usize {
            return Err(
                Error { code: ERROR_RANGE, message: String::from_str(crate::message_for(ERROR_RANGE)) },
            );
        }
        check(e.push_node_feed(self.handle, length_in_samples))
    }
}

} // verus!
