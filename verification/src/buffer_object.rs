use std::marker::PhantomData;
use vstd::prelude::*;

use crate::ptr::Ptr;
use crate::raw::AsRaw;

verus! {

/// The kind of the C library's `gbm_bo` objects (buffer objects).
pub struct GbmBo {
    _opaque: (),
}

/// The kind of the C library's `gbm_device` objects.
pub struct GbmDevice {
    _opaque: (),
}

/// A buffer object of a device, with user data of type `T`.
///
/// It holds a handle on the `gbm_bo` and one on the device it belongs to,
/// so that the device outlives every buffer made from it.
pub struct BufferObject<T: 'static> {
    ffi: Ptr<GbmBo>,
    device: Ptr<GbmDevice>,
    _userdata: PhantomData<T>,
}

impl<T: 'static> BufferObject<T> {
    /// The handle on the `gbm_bo` itself.
    pub closed spec fn handle(&self) -> Ptr<GbmBo> {
        self.ffi
    }

    /// The handle on the device the buffer object belongs to.
    pub closed spec fn device(&self) -> Ptr<GbmDevice> {
        self.device
    }

    /// A buffer object from its handle and the handle of its device.
    pub fn new(ffi: Ptr<GbmBo>, device: Ptr<GbmDevice>) -> (bo: Self)
        ensures
            bo.handle() == ffi,
            bo.device() == device,
            bo.raw_addr() == ffi@,
    {
        BufferObject { ffi, device, _userdata: PhantomData }
    }
}

impl<T: 'static> AsRaw<GbmBo> for BufferObject<T> {
    closed spec fn raw_addr(&self) -> usize {
        self.ffi@
    }

    fn as_raw(&self) -> (r: usize) {
        *self.ffi
    }
}

} // verus!
