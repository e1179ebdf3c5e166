//! Runtime support of the component bindings: owned resource handles and the
//! integer conversions used when values cross the component boundary.
use vstd::prelude::*;

verus! {

/// A resource type of the component model: it names the interface that
/// exports it and the resource itself, which together name the
/// `[resource-drop]` import that releases a handle of this type.
pub trait WasmResource {
    /// The interface (import module) that defines the resource.
    fn import_module() -> &'static str;

    /// The resource's name inside that interface.
    fn resource_name() -> &'static str;
}

/// The handle value that marks a resource whose handle was taken.
pub open spec fn taken_handle() -> u32 {
    u32::MAX
}

/// An owned handle to a component-model resource. The resource types of the
/// world (which implement [`WasmResource`]) each hold one.
///
/// A handle equal to `u32::MAX` means that ownership was handed on: nothing is
/// released when such a resource goes away.
#[derive(Debug)]
pub struct Resource {
    handle: u32,
}

impl Resource {
    /// The handle currently held.
    pub closed spec fn spec_handle(&self) -> u32 {
        self.handle
    }

    /// Wraps a handle received from the host; the reserved value `u32::MAX`
    /// is not a handle.
    pub fn from_handle(handle: u32) -> (r: Self)
        requires
            handle != taken_handle(),
        ensures
            r.spec_handle() == handle,
    {
        Resource { handle }
    }

    /// Takes ownership of the handle: returns it and leaves the resource
    /// marked as handed on.
    pub fn take_handle(resource: &mut Resource) -> (h: u32)
        ensures
            h == old(resource).spec_handle(),
            final(resource).spec_handle() == taken_handle(),
    {
        let h = resource.handle;
        resource.handle = u32::MAX;
        h
    }

    /// The handle currently held, without giving it up.
    pub fn handle(resource: &Resource) -> (h: u32)
        ensures
            h == resource.spec_handle(),
    {
        resource.handle
    }

    /// The handle that must be released when the resource goes away: none
    /// once the handle was taken.
    pub fn handle_to_release(&self) -> (r: Option<u32>)
        ensures
            r == spec_handle_to_release(self.spec_handle()),
    {
        if self.handle == u32::MAX {
            None
        } else {
            Some(self.handle)
        }
    }
}

/// Which handle a resource holding `h` releases when it goes away.
pub open spec fn spec_handle_to_release(h: u32) -> Option<u32> {
    if h == taken_handle() {
        None
    } else {
        Some(h)
    }
}

/// A resource whose handle was taken releases nothing, and reports the
/// taken marker from then on; one made from a handle releases that handle.
pub proof fn lemma_take_then_release(h: u32)
    requires
        h != taken_handle(),
    ensures
        spec_handle_to_release(h) == Some(h),
        spec_handle_to_release(taken_handle()) is None,
{
}

/// Conversion to the `i64` of a lowered core value.
pub trait AsI64 {
    /// The value that `as_i64` gives.
    spec fn spec_as_i64(&self) -> i64;

    /// Reinterprets the value as an `i64`.
    fn as_i64(self) -> (r: i64)
        ensures
            r == self.spec_as_i64(),
    ;
}

impl<'a, T: Copy + AsI64> AsI64 for &'a T {
    open spec fn spec_as_i64(&self) -> i64 {
        (**self).spec_as_i64()
    }

    fn as_i64(self) -> (r: i64) {
        (*self).as_i64()
    }
}

impl AsI64 for i64 {
    open spec fn spec_as_i64(&self) -> i64 {
        *self
    }

    fn as_i64(self) -> (r: i64) {
        self
    }
}

impl AsI64 for u64 {
    open spec fn spec_as_i64(&self) -> i64 {
        *self as i64
    }

    fn as_i64(self) -> (r: i64) {
        self as i64
    }
}

/// Lowers a value to `i64` (two's complement reinterpretation).
pub fn as_i64<T: AsI64>(t: T) -> (r: i64)
    ensures
        r == t.spec_as_i64(),
{
    t.as_i64()
}

/// Conversion to the `i32` of a lowered core value.
pub trait AsI32 {
    /// The value that `as_i32` gives.
    spec fn spec_as_i32(&self) -> i32;

    /// Reinterprets or widens the value as an `i32`.
    fn as_i32(self) -> (r: i32)
        ensures
            r == self.spec_as_i32(),
    ;
}

impl<'a, T: Copy + AsI32> AsI32 for &'a T {
    open spec fn spec_as_i32(&self) -> i32 {
        (**self).spec_as_i32()
    }

    fn as_i32(self) -> (r: i32) {
        (*self).as_i32()
    }
}

impl AsI32 for i32 {
    open spec fn spec_as_i32(&self) -> i32 {
        *self
    }

    fn as_i32(self) -> (r: i32) {
        self
    }
}

impl AsI32 for u32 {
    open spec fn spec_as_i32(&self) -> i32 {
        *self as i32
    }

    fn as_i32(self) -> (r: i32) {
        self as i32
    }
}

impl AsI32 for i16 {
    open spec fn spec_as_i32(&self) -> i32 {
        *self as i32
    }

    fn as_i32(self) -> (r: i32) {
        self as i32
    }
}

impl AsI32 for u16 {
    open spec fn spec_as_i32(&self) -> i32 {
        *self as i32
    }

    fn as_i32(self) -> (r: i32) {
        self as i32
    }
}

impl AsI32 for i8 {
    open spec fn spec_as_i32(&self) -> i32 {
        *self as i32
    }

    fn as_i32(self) -> (r: i32) {
        self as i32
    }
}

impl AsI32 for u8 {
    open spec fn spec_as_i32(&self) -> i32 {
        *self as i32
    }

    fn as_i32(self) -> (r: i32) {
        self as i32
    }
}

impl AsI32 for char {
    open spec fn spec_as_i32(&self) -> i32 {
        *self as i32
    }

    fn as_i32(self) -> (r: i32) {
        self as i32
    }
}

impl AsI32 for usize {
    open spec fn spec_as_i32(&self) -> i32 {
        *self as i32
    }

    fn as_i32(self) -> (r: i32) {
        self as i32
    }
}

/// Lowers a value to `i32` (widening, or two's complement reinterpretation).
pub fn as_i32<T: AsI32>(t: T) -> (r: i32)
    ensures
        r == t.spec_as_i32(),
{
    t.as_i32()
}

} // verus!
