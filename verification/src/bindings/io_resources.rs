//! Resources of the `wasi:io` interfaces.
use vstd::prelude::*;

use super::fmt::push_decimal;
use super::rt::{taken_handle, Resource, WasmResource};
use crate::text::decimal;
use vstd::string::StringExecFns;

verus! {

/// Something that can be waited on.
#[derive(Debug)]
pub struct Pollable {
    handle: Resource,
}

impl Pollable {
    /// The handle currently held.
    pub closed spec fn spec_handle(&self) -> u32 {
        self.handle.spec_handle()
    }

    /// Wraps a handle received from the host.
    pub fn from_handle(handle: u32) -> (r: Self)
        requires
            handle != taken_handle(),
        ensures
            r.spec_handle() == handle,
    {
        Pollable { handle: Resource::from_handle(handle) }
    }

    /// Takes ownership of the handle, leaving this value handed on.
    pub fn take_handle(&mut self) -> (h: u32)
        ensures
            h == old(self).spec_handle(),
            final(self).spec_handle() == taken_handle(),
    {
        Resource::take_handle(&mut self.handle)
    }

    /// The handle currently held.
    pub fn handle(&self) -> (h: u32)
        ensures
            h == self.spec_handle(),
    {
        Resource::handle(&self.handle)
    }
}

impl WasmResource for Pollable {
    fn import_module() -> (s: &'static str)
        ensures
            s@ == "wasi:io/poll@0.2.0"@,
    {
        "wasi:io/poll@0.2.0"
    }

    fn resource_name() -> (s: &'static str)
        ensures
            s@ == "pollable"@,
    {
        "pollable"
    }
}

/// An error reported by a stream operation.
#[derive(Debug)]
pub struct Error {
    handle: Resource,
}

impl Error {
    /// The handle currently held.
    pub closed spec fn spec_handle(&self) -> u32 {
        self.handle.spec_handle()
    }

    /// Wraps a handle received from the host.
    pub fn from_handle(handle: u32) -> (r: Self)
        requires
            handle != taken_handle(),
        ensures
            r.spec_handle() == handle,
    {
        Error { handle: Resource::from_handle(handle) }
    }

    /// Takes ownership of the handle, leaving this value handed on.
    pub fn take_handle(&mut self) -> (h: u32)
        ensures
            h == old(self).spec_handle(),
            final(self).spec_handle() == taken_handle(),
    {
        Resource::take_handle(&mut self.handle)
    }

    /// The handle currently held.
    pub fn handle(&self) -> (h: u32)
        ensures
            h == self.spec_handle(),
    {
        Resource::handle(&self.handle)
    }
}

impl WasmResource for Error {
    fn import_module() -> (s: &'static str)
        ensures
            s@ == "wasi:io/error@0.2.0"@,
    {
        "wasi:io/error@0.2.0"
    }

    fn resource_name() -> (s: &'static str)
        ensures
            s@ == "error"@,
    {
        "error"
    }
}

/// A stream of bytes that can be read.
#[derive(Debug)]
pub struct InputStream {
    handle: Resource,
}

impl InputStream {
    /// The handle currently held.
    pub closed spec fn spec_handle(&self) -> u32 {
        self.handle.spec_handle()
    }

    /// Wraps a handle received from the host.
    pub fn from_handle(handle: u32) -> (r: Self)
        requires
            handle != taken_handle(),
        ensures
            r.spec_handle() == handle,
    {
        InputStream { handle: Resource::from_handle(handle) }
    }

    /// Takes ownership of the handle, leaving this value handed on.
    pub fn take_handle(&mut self) -> (h: u32)
        ensures
            h == old(self).spec_handle(),
            final(self).spec_handle() == taken_handle(),
    {
        Resource::take_handle(&mut self.handle)
    }

    /// The handle currently held.
    pub fn handle(&self) -> (h: u32)
        ensures
            h == self.spec_handle(),
    {
        Resource::handle(&self.handle)
    }
}

impl WasmResource for InputStream {
    fn import_module() -> (s: &'static str)
        ensures
            s@ == "wasi:io/streams@0.2.0"@,
    {
        "wasi:io/streams@0.2.0"
    }

    fn resource_name() -> (s: &'static str)
        ensures
            s@ == "input-stream"@,
    {
        "input-stream"
    }
}

/// A stream of bytes that can be written.
#[derive(Debug)]
pub struct OutputStream {
    handle: Resource,
}

impl OutputStream {
    /// The handle currently held.
    pub closed spec fn spec_handle(&self) -> u32 {
        self.handle.spec_handle()
    }

    /// Wraps a handle received from the host.
    pub fn from_handle(handle: u32) -> (r: Self)
        requires
            handle != taken_handle(),
        ensures
            r.spec_handle() == handle,
    {
        OutputStream { handle: Resource::from_handle(handle) }
    }

    /// Takes ownership of the handle, leaving this value handed on.
    pub fn take_handle(&mut self) -> (h: u32)
        ensures
            h == old(self).spec_handle(),
            final(self).spec_handle() == taken_handle(),
    {
        Resource::take_handle(&mut self.handle)
    }

    /// The handle currently held.
    pub fn handle(&self) -> (h: u32)
        ensures
            h == self.spec_handle(),
    {
        Resource::handle(&self.handle)
    }
}

impl WasmResource for OutputStream {
    fn import_module() -> (s: &'static str)
        ensures
            s@ == "wasi:io/streams@0.2.0"@,
    {
        "wasi:io/streams@0.2.0"
    }

    fn resource_name() -> (s: &'static str)
        ensures
            s@ == "output-stream"@,
    {
        "output-stream"
    }
}

/// Why a stream operation did not complete.
#[derive(Debug)]
pub enum StreamError {
    /// The last operation failed; the error says why.
    LastOperationFailed(Error),
    /// The stream is closed.
    Closed,
}

/// The debug text of a stream error, such as `StreamError::Closed`.
pub open spec fn stream_error_debug(e: &StreamError) -> Seq<char> {
    match e {
        StreamError::LastOperationFailed(err) => "StreamError::LastOperationFailed("@
            + "Error { handle: Resource { handle: "@ + decimal(err.spec_handle() as nat) + " } })"@,
        StreamError::Closed => "StreamError::Closed"@,
    }
}

impl StreamError {
    /// The debug text, which is also the display text.
    pub fn to_string(&self) -> (s: String)
        ensures
            s@ == stream_error_debug(self),
    {
        let mut out = String::new();
        match self {
            StreamError::LastOperationFailed(err) => {
                out.append("StreamError::LastOperationFailed(");
                out.append("Error { handle: Resource { handle: ");
                push_decimal(&mut out, err.handle() as u128);
                out.append(" } })");
            },
            StreamError::Closed => out.append("StreamError::Closed"),
        }
        assert(out@ =~= stream_error_debug(self));
        out
    }
}

} // verus!
