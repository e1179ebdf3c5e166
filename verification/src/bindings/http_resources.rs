//! Resources of the `wasi:http/types` interface.
use vstd::prelude::*;

use super::rt::{taken_handle, Resource, WasmResource};

verus! {

/// HTTP header or trailer fields.
#[derive(Debug)]
pub struct Fields {
    handle: Resource,
}

impl Fields {
    /// The handle currently held.
    pub closed spec fn spec_handle(&self) -> u32 {
        self.handle.spec_handle()
    }

    /// Wraps a handle received from the host.
    pub fn from_handle(handle: u32) -> (r: Self)
        requires
            handle != taken_handle(),
        ensures
            r.spec_handle() == handle,
    {
        Fields { handle: Resource::from_handle(handle) }
    }

    /// Takes ownership of the handle, leaving this value handed on.
    pub fn take_handle(&mut self) -> (h: u32)
        ensures
            h == old(self).spec_handle(),
            final(self).spec_handle() == taken_handle(),
    {
        Resource::take_handle(&mut self.handle)
    }

    /// The handle currently held.
    pub fn handle(&self) -> (h: u32)
        ensures
            h == self.spec_handle(),
    {
        Resource::handle(&self.handle)
    }
}

impl WasmResource for Fields {
    fn import_module() -> (s: &'static str)
        ensures
            s@ == "wasi:http/types@0.2.0"@,
    {
        "wasi:http/types@0.2.0"
    }

    fn resource_name() -> (s: &'static str)
        ensures
            s@ == "fields"@,
    {
        "fields"
    }
}

/// A request received by an HTTP handler.
#[derive(Debug)]
pub struct IncomingRequest {
    handle: Resource,
}

impl IncomingRequest {
    /// The handle currently held.
    pub closed spec fn spec_handle(&self) -> u32 {
        self.handle.spec_handle()
    }

    /// Wraps a handle received from the host.
    pub fn from_handle(handle: u32) -> (r: Self)
        requires
            handle != taken_handle(),
        ensures
            r.spec_handle() == handle,
    {
        IncomingRequest { handle: Resource::from_handle(handle) }
    }

    /// Takes ownership of the handle, leaving this value handed on.
    pub fn take_handle(&mut self) -> (h: u32)
        ensures
            h == old(self).spec_handle(),
            final(self).spec_handle() == taken_handle(),
    {
        Resource::take_handle(&mut self.handle)
    }

    /// The handle currently held.
    pub fn handle(&self) -> (h: u32)
        ensures
            h == self.spec_handle(),
    {
        Resource::handle(&self.handle)
    }
}

impl WasmResource for IncomingRequest {
    fn import_module() -> (s: &'static str)
        ensures
            s@ == "wasi:http/types@0.2.0"@,
    {
        "wasi:http/types@0.2.0"
    }

    fn resource_name() -> (s: &'static str)
        ensures
            s@ == "incoming-request"@,
    {
        "incoming-request"
    }
}

/// A request to be sent.
#[derive(Debug)]
pub struct OutgoingRequest {
    handle: Resource,
}

impl OutgoingRequest {
    /// The handle currently held.
    pub closed spec fn spec_handle(&self) -> u32 {
        self.handle.spec_handle()
    }

    /// Wraps a handle received from the host.
    pub fn from_handle(handle: u32) -> (r: Self)
        requires
            handle != taken_handle(),
        ensures
            r.spec_handle() == handle,
    {
        OutgoingRequest { handle: Resource::from_handle(handle) }
    }

    /// Takes ownership of the handle, leaving this value handed on.
    pub fn take_handle(&mut self) -> (h: u32)
        ensures
            h == old(self).spec_handle(),
            final(self).spec_handle() == taken_handle(),
    {
        Resource::take_handle(&mut self.handle)
    }

    /// The handle currently held.
    pub fn handle(&self) -> (h: u32)
        ensures
            h == self.spec_handle(),
    {
        Resource::handle(&self.handle)
    }
}

impl WasmResource for OutgoingRequest {
    fn import_module() -> (s: &'static str)
        ensures
            s@ == "wasi:http/types@0.2.0"@,
    {
        "wasi:http/types@0.2.0"
    }

    fn resource_name() -> (s: &'static str)
        ensures
            s@ == "outgoing-request"@,
    {
        "outgoing-request"
    }
}

/// Timeouts of an outgoing request.
#[derive(Debug)]
pub struct RequestOptions {
    handle: Resource,
}

impl RequestOptions {
    /// The handle currently held.
    pub closed spec fn spec_handle(&self) -> u32 {
        self.handle.spec_handle()
    }

    /// Wraps a handle received from the host.
    pub fn from_handle(handle: u32) -> (r: Self)
        requires
            handle != taken_handle(),
        ensures
            r.spec_handle() == handle,
    {
        RequestOptions { handle: Resource::from_handle(handle) }
    }

    /// Takes ownership of the handle, leaving this value handed on.
    pub fn take_handle(&mut self) -> (h: u32)
        ensures
            h == old(self).spec_handle(),
            final(self).spec_handle() == taken_handle(),
    {
        Resource::take_handle(&mut self.handle)
    }

    /// The handle currently held.
    pub fn handle(&self) -> (h: u32)
        ensures
            h == self.spec_handle(),
    {
        Resource::handle(&self.handle)
    }
}

impl WasmResource for RequestOptions {
    fn import_module() -> (s: &'static str)
        ensures
            s@ == "wasi:http/types@0.2.0"@,
    {
        "wasi:http/types@0.2.0"
    }

    fn resource_name() -> (s: &'static str)
        ensures
            s@ == "request-options"@,
    {
        "request-options"
    }
}

/// Where an HTTP handler delivers its response.
#[derive(Debug)]
pub struct ResponseOutparam {
    handle: Resource,
}

impl ResponseOutparam {
    /// The handle currently held.
    pub closed spec fn spec_handle(&self) -> u32 {
        self.handle.spec_handle()
    }

    /// Wraps a handle received from the host.
    pub fn from_handle(handle: u32) -> (r: Self)
        requires
            handle != taken_handle(),
        ensures
            r.spec_handle() == handle,
    {
        ResponseOutparam { handle: Resource::from_handle(handle) }
    }

    /// Takes ownership of the handle, leaving this value handed on.
    pub fn take_handle(&mut self) -> (h: u32)
        ensures
            h == old(self).spec_handle(),
            final(self).spec_handle() == taken_handle(),
    {
        Resource::take_handle(&mut self.handle)
    }

    /// The handle currently held.
    pub fn handle(&self) -> (h: u32)
        ensures
            h == self.spec_handle(),
    {
        Resource::handle(&self.handle)
    }
}

impl WasmResource for ResponseOutparam {
    fn import_module() -> (s: &'static str)
        ensures
            s@ == "wasi:http/types@0.2.0"@,
    {
        "wasi:http/types@0.2.0"
    }

    fn resource_name() -> (s: &'static str)
        ensures
            s@ == "response-outparam"@,
    {
        "response-outparam"
    }
}

/// A response received for an outgoing request.
#[derive(Debug)]
pub struct IncomingResponse {
    handle: Resource,
}

impl IncomingResponse {
    /// The handle currently held.
    pub closed spec fn spec_handle(&self) -> u32 {
        self.handle.spec_handle()
    }

    /// Wraps a handle received from the host.
    pub fn from_handle(handle: u32) -> (r: Self)
        requires
            handle != taken_handle(),
        ensures
            r.spec_handle() == handle,
    {
        IncomingResponse { handle: Resource::from_handle(handle) }
    }

    /// Takes ownership of the handle, leaving this value handed on.
    pub fn take_handle(&mut self) -> (h: u32)
        ensures
            h == old(self).spec_handle(),
            final(self).spec_handle() == taken_handle(),
    {
        Resource::take_handle(&mut self.handle)
    }

    /// The handle currently held.
    pub fn handle(&self) -> (h: u32)
        ensures
            h == self.spec_handle(),
    {
        Resource::handle(&self.handle)
    }
}

impl WasmResource for IncomingResponse {
    fn import_module() -> (s: &'static str)
        ensures
            s@ == "wasi:http/types@0.2.0"@,
    {
        "wasi:http/types@0.2.0"
    }

    fn resource_name() -> (s: &'static str)
        ensures
            s@ == "incoming-response"@,
    {
        "incoming-response"
    }
}

/// The body of an incoming request or response.
#[derive(Debug)]
pub struct IncomingBody {
    handle: Resource,
}

impl IncomingBody {
    /// The handle currently held.
    pub closed spec fn spec_handle(&self) -> u32 {
        self.handle.spec_handle()
    }

    /// Wraps a handle received from the host.
    pub fn from_handle(handle: u32) -> (r: Self)
        requires
            handle != taken_handle(),
        ensures
            r.spec_handle() == handle,
    {
        IncomingBody { handle: Resource::from_handle(handle) }
    }

    /// Takes ownership of the handle, leaving this value handed on.
    pub fn take_handle(&mut self) -> (h: u32)
        ensures
            h == old(self).spec_handle(),
            final(self).spec_handle() == taken_handle(),
    {
        Resource::take_handle(&mut self.handle)
    }

    /// The handle currently held.
    pub fn handle(&self) -> (h: u32)
        ensures
            h == self.spec_handle(),
    {
        Resource::handle(&self.handle)
    }
}

impl WasmResource for IncomingBody {
    fn import_module() -> (s: &'static str)
        ensures
            s@ == "wasi:http/types@0.2.0"@,
    {
        "wasi:http/types@0.2.0"
    }

    fn resource_name() -> (s: &'static str)
        ensures
            s@ == "incoming-body"@,
    {
        "incoming-body"
    }
}

/// Trailers that arrive after an incoming body.
#[derive(Debug)]
pub struct FutureTrailers {
    handle: Resource,
}

impl FutureTrailers {
    /// The handle currently held.
    pub closed spec fn spec_handle(&self) -> u32 {
        self.handle.spec_handle()
    }

    /// Wraps a handle received from the host.
    pub fn from_handle(handle: u32) -> (r: Self)
        requires
            handle != taken_handle(),
        ensures
            r.spec_handle() == handle,
    {
        FutureTrailers { handle: Resource::from_handle(handle) }
    }

    /// Takes ownership of the handle, leaving this value handed on.
    pub fn take_handle(&mut self) -> (h: u32)
        ensures
            h == old(self).spec_handle(),
            final(self).spec_handle() == taken_handle(),
    {
        Resource::take_handle(&mut self.handle)
    }

    /// The handle currently held.
    pub fn handle(&self) -> (h: u32)
        ensures
            h == self.spec_handle(),
    {
        Resource::handle(&self.handle)
    }
}

impl WasmResource for FutureTrailers {
    fn import_module() -> (s: &'static str)
        ensures
            s@ == "wasi:http/types@0.2.0"@,
    {
        "wasi:http/types@0.2.0"
    }

    fn resource_name() -> (s: &'static str)
        ensures
            s@ == "future-trailers"@,
    {
        "future-trailers"
    }
}

/// A response to be sent.
#[derive(Debug)]
pub struct OutgoingResponse {
    handle: Resource,
}

impl OutgoingResponse {
    /// The handle currently held.
    pub closed spec fn spec_handle(&self) -> u32 {
        self.handle.spec_handle()
    }

    /// Wraps a handle received from the host.
    pub fn from_handle(handle: u32) -> (r: Self)
        requires
            handle != taken_handle(),
        ensures
            r.spec_handle() == handle,
    {
        OutgoingResponse { handle: Resource::from_handle(handle) }
    }

    /// Takes ownership of the handle, leaving this value handed on.
    pub fn take_handle(&mut self) -> (h: u32)
        ensures
            h == old(self).spec_handle(),
            final(self).spec_handle() == taken_handle(),
    {
        Resource::take_handle(&mut self.handle)
    }

    /// The handle currently held.
    pub fn handle(&self) -> (h: u32)
        ensures
            h == self.spec_handle(),
    {
        Resource::handle(&self.handle)
    }
}

impl WasmResource for OutgoingResponse {
    fn import_module() -> (s: &'static str)
        ensures
            s@ == "wasi:http/types@0.2.0"@,
    {
        "wasi:http/types@0.2.0"
    }

    fn resource_name() -> (s: &'static str)
        ensures
            s@ == "outgoing-response"@,
    {
        "outgoing-response"
    }
}

/// The body of an outgoing request or response.
#[derive(Debug)]
pub struct OutgoingBody {
    handle: Resource,
}

impl OutgoingBody {
    /// The handle currently held.
    pub closed spec fn spec_handle(&self) -> u32 {
        self.handle.spec_handle()
    }

    /// Wraps a handle received from the host.
    pub fn from_handle(handle: u32) -> (r: Self)
        requires
            handle != taken_handle(),
        ensures
            r.spec_handle() == handle,
    {
        OutgoingBody { handle: Resource::from_handle(handle) }
    }

    /// Takes ownership of the handle, leaving this value handed on.
    pub fn take_handle(&mut self) -> (h: u32)
        ensures
            h == old(self).spec_handle(),
            final(self).spec_handle() == taken_handle(),
    {
        Resource::take_handle(&mut self.handle)
    }

    /// The handle currently held.
    pub fn handle(&self) -> (h: u32)
        ensures
            h == self.spec_handle(),
    {
        Resource::handle(&self.handle)
    }
}

impl WasmResource for OutgoingBody {
    fn import_module() -> (s: &'static str)
        ensures
            s@ == "wasi:http/types@0.2.0"@,
    {
        "wasi:http/types@0.2.0"
    }

    fn resource_name() -> (s: &'static str)
        ensures
            s@ == "outgoing-body"@,
    {
        "outgoing-body"
    }
}

/// The response to an outgoing request, once it arrives.
#[derive(Debug)]
pub struct FutureIncomingResponse {
    handle: Resource,
}

impl FutureIncomingResponse {
    /// The handle currently held.
    pub closed spec fn spec_handle(&self) -> u32 {
        self.handle.spec_handle()
    }

    /// Wraps a handle received from the host.
    pub fn from_handle(handle: u32) -> (r: Self)
        requires
            handle != taken_handle(),
        ensures
            r.spec_handle() == handle,
    {
        FutureIncomingResponse { handle: Resource::from_handle(handle) }
    }

    /// Takes ownership of the handle, leaving this value handed on.
    pub fn take_handle(&mut self) -> (h: u32)
        ensures
            h == old(self).spec_handle(),
            final(self).spec_handle() == taken_handle(),
    {
        Resource::take_handle(&mut self.handle)
    }

    /// The handle currently held.
    pub fn handle(&self) -> (h: u32)
        ensures
            h == self.spec_handle(),
    {
        Resource::handle(&self.handle)
    }
}

impl WasmResource for FutureIncomingResponse {
    fn import_module() -> (s: &'static str)
        ensures
            s@ == "wasi:http/types@0.2.0"@,
    {
        "wasi:http/types@0.2.0"
    }

    fn resource_name() -> (s: &'static str)
        ensures
            s@ == "future-incoming-response"@,
    {
        "future-incoming-response"
    }
}

} // verus!
