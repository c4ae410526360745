use vstd::prelude::*;

verus! {

/// Types that allow obtaining the address of the foreign object they wrap.
///
/// `T` names the kind of foreign object (for example [`crate::GbmBo`]); the
/// address is the one the C library handed out for it.
pub trait AsRaw<T> {
    /// The address of the wrapped foreign object.
    spec fn raw_addr(&self) -> usize;

    /// The address of the wrapped foreign object, for read access.
    fn as_raw(&self) -> (r: usize)
        ensures
            r == self.raw_addr(),
    ;

    /// The same address, for write access: it never differs from
    /// [`AsRaw::as_raw`].
    fn as_raw_mut(&self) -> (r: usize)
        ensures
            r == self.raw_addr(),
    {
        self.as_raw()
    }
}

} // verus!
