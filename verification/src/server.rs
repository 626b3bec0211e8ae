//! The server: the top-level engine object all other objects are created
//! against, owner of the processing graph and of the output-device
//! binding.

use vstd::prelude::*;

verus! {

use crate::engine::Engine;
use crate::process::EngineEvent;
use crate::create::create_server_spec;
use crate::bufferops::set_output_device_spec;
use crate::process::process_block_spec;
use crate::check;
use crate::lift_code;
use crate::spec_message_for;
use crate::Error;

/// A session of the engine: every node and buffer is created against a
/// server and cannot migrate between servers. The server anchors node
/// lifetimes — a node connected (directly or through other nodes) to the
/// server's final mix stays alive without any outside reference.
#[derive(Debug)]
pub struct Server {
    pub handle: i32,
}

impl Server {
    /// Creates a server with the default 44100 Hz sampling rate and 1024
    /// frame block size.
    pub fn new(e: &mut Engine) -> (r: Result<Server, Error>)
        requires
            old(e)@.wf(),
        ensures
            final(e)@ == create_server_spec(old(e)@, 44100, 1024).1,
            create_server_spec(old(e)@, 44100, 1024).0 matches Ok(h) ==> (r matches Ok(s)
                && s.handle as int == h),
            create_server_spec(old(e)@, 44100, 1024).0 matches Err(c) ==> (r matches Err(err)
                && err.code == c && err.message@ == spec_message_for(c)),
            final(e)@.wf(),
    {
        Server::construct(e, 44100, 1024)
    }

    /// Creates a server with the given sampling rate and block size; the
    /// block size is the number of frames mixed at once and must be a
    /// positive multiple of four.
    pub fn construct(e: &mut Engine, sampling_rate: u32, block_size: u32) -> (r: Result<
        Server,
        Error,
    >)
        requires
            old(e)@.wf(),
        ensures
            final(e)@ == create_server_spec(old(e)@, sampling_rate, block_size).1,
            create_server_spec(old(e)@, sampling_rate, block_size).0 matches Ok(h) ==> (r matches
                Ok(s) && s.handle as int == h),
            create_server_spec(old(e)@, sampling_rate, block_size).0 matches Err(c) ==> (r matches
                Err(err) && err.code == c && err.message@ == spec_message_for(c)),
            final(e)@.wf(),
    {
        match lift_code(e.create_server(sampling_rate, block_size)) {
            Ok(h) => Ok(Server { handle: h }),
            Err(err) => Err(err),
        }
    }

    /// Binds the server's output to the system's default audio device with
    /// two channels and two blocks of mixahead.
    pub fn set_output_device(&self, e: &mut Engine) -> (r: Result<(), Error>)
        requires
            old(e)@.wf(),
        ensures
            final(e)@ == set_output_device_spec(old(e)@, self.handle as int, "default"@, 2, 2).1,
            set_output_device_spec(old(e)@, self.handle as int, "default"@, 2, 2).0 == 0 <==> r
                is Ok,
            r matches Err(err) ==> err.code == set_output_device_spec(
                old(e)@,
                self.handle as int,
                "default"@,
                2,
                2,
            ).0 && err.message@ == spec_message_for(err.code),
            final(e)@.wf(),
    {
        self.set_output_device_details(e, "default", 2, 2)
    }

    /// Binds the server's output to a named audio device (the literal
    /// string "default" names the system default). After this call the
    /// engine sends mixed audio to the device; pulling raw blocks by hand
    /// is no longer the way audio leaves the server.
    pub fn set_output_device_details(
        &self,
        e: &mut Engine,
        identifier: &str,
        channels: i32,
        mixahead: i32,
    ) -> (r: Result<(), Error>)
        requires
            old(e)@.wf(),
        ensures
            final(e)@ == set_output_device_spec(
                old(e)@,
                self.handle as int,
                identifier@,
                channels,
                mixahead,
            ).1,
            set_output_device_spec(
                old(e)@,
                self.handle as int,
                identifier@,
                channels,
                mixahead,
            ).0 == 0 <==> r is Ok,
            r matches Err(err) ==> err.code == set_output_device_spec(
                old(e)@,
                self.handle as int,
                identifier@,
                channels,
                mixahead,
            ).0 && err.message@ == spec_message_for(err.code),
            final(e)@.wf(),
    {
        check(e.server_set_output_device(self.handle, identifier, channels, mixahead))
    }

    /// Runs one processing block of this server's mixer, handing back the
    /// callback demands it raised; in a deployment the engine's own worker
    /// threads drive this, here the application's loop does.
    pub fn process_block(&self, e: &mut Engine) -> (r: Result<Vec<EngineEvent>, Error>)
        requires
            old(e)@.wf(),
        ensures
            process_block_spec(old(e)@, self.handle as int).0 matches Ok(evs) ==> (r matches Ok(v)
                && v@ == evs) && final(e)@ == process_block_spec(old(e)@, self.handle as int).1,
            process_block_spec(old(e)@, self.handle as int).0 matches Err(c) ==> (r matches Err(
                err,
            ) && err.code == c && err.message@ == spec_message_for(c)) && final(e)@ == old(e)@,
            final(e)@.wf(),
    {
        lift_code(e.process_block(self.handle))
    }
}

} // verus!
