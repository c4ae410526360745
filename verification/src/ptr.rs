use std::marker::PhantomData;
use std::sync::Arc;
use vstd::prelude::*;

use crate::pointer_text::{
    hex_value, is_plain_hex_numeral, lemma_pointer_text_shows_address, pointer_text, push_hex,
    string_push,
};

verus! {

/// What a [`Ptr`] keeps alive next to the address: a value whose own drop
/// releases the foreign object (typically it calls the C destructor with the
/// address).  It is dropped exactly when the last handle to the object is.
trait Release: Send + Sync {}

impl<D: Send + Sync> Release for D {}

/// Names the kind `T` of foreign object without owning one, so that the
/// handle is `Send` and `Sync` whatever `T` is.
trait KindOf<T>: Send + Sync {}

/// The shared part of a [`Ptr`]: the address and the value that releases it.
#[verifier::reject_recursive_types(T)]
struct PtrDrop<T> {
    addr: usize,
    _release: Box<dyn Release>,
    _ty: PhantomData<Box<dyn KindOf<T>>>,
}

/// A reference-counted, thread-safe handle on a foreign object of kind `T`.
///
/// All clones of a handle share one address and one release value; the
/// release value is dropped, and with it the object released, when the last
/// clone is dropped.
#[verifier::reject_recursive_types(T)]
pub struct Ptr<T> {
    inner: Arc<PtrDrop<T>>,
}

impl<T> View for Ptr<T> {
    type V = usize;

    /// The address of the foreign object behind the handle.
    closed spec fn view(&self) -> usize {
        self.inner.addr
    }
}

/// Handles that agree (clones among them) wrap the same address and keep
/// the same release value.
pub proof fn lemma_agreeing_handles<T, D: Send + Sync + 'static>(a: &Ptr<T>, b: &Ptr<T>, d: D)
    requires
        a.agrees_with(b),
    ensures
        a@ == b@,
        a.keeps(d) == b.keeps(d),
        b.agrees_with(a),
{
}

/// `Arc::clone`: another pointer to the same allocation, one more strong
/// reference.  The claim is that the clone holds the same contents.
#[verifier::external_body]
fn arc_clone<X>(a: &Arc<X>) -> (r: Arc<X>)
    ensures
        r == *a,
{
    Arc::clone(a)
}

spec fn boxed_release<D: Send + Sync + 'static>(d: D) -> Box<dyn Release> {
    Box::new(d)
}

impl<T> Ptr<T> {
    /// The handle keeps `d` as the value that releases its object.
    pub closed spec fn keeps<D: Send + Sync + 'static>(&self, d: D) -> bool {
        self.inner._release == boxed_release(d)
    }

    /// The two handles hold equal contents: the same address and the same
    /// release value.  A clone always agrees with its source; two handles
    /// made separately on one address with equal release values agree too,
    /// since the model does not tell allocations apart.
    pub closed spec fn agrees_with(&self, other: &Ptr<T>) -> bool {
        self.inner == other.inner
    }

    /// Wraps the address `addr` in a new handle, the first of its kind.
    ///
    /// `release` is kept alive as long as any clone of the handle is, and
    /// dropped with the last one.  It is only dropped, never called: to run a
    /// destructor with the address, pass a value whose own `Drop` does so
    /// (a closure passed here would be dropped without running, and the
    /// object would leak).
    pub fn new<D: Send + Sync + 'static>(addr: usize, release: D) -> (p: Ptr<T>)
        ensures
            p@ == addr,
            p.keeps(release),
    {
        let release: Box<dyn Release> = Box::new(release);
        Ptr { inner: Arc::new(PtrDrop { addr, _release: release, _ty: PhantomData }) }
    }

    /// The address formatted the way `{:p}` formats a pointer: `0x`
    /// followed by the lower-case hexadecimal digits, without leading zeros.
    pub fn to_pointer_string(&self) -> (s: String)
        ensures
            s@ == pointer_text(self@),
            s@.len() >= 3,
            s@[0] == '0',
            s@[1] == 'x',
            is_plain_hex_numeral(s@.skip(2)),
            hex_value(s@.skip(2)) == self@,
    {
        proof {
            lemma_pointer_text_shows_address(self@);
        }
        let mut s = String::new();
        string_push(&mut s, '0');
        string_push(&mut s, 'x');
        push_hex(&mut s, self.inner.addr);
        s
    }
}

impl<T> Clone for Ptr<T> {
    /// Another handle on the same object: it holds the same address and the
    /// same release value (in fact the same allocation, which the contract
    /// states as equal contents).
    fn clone(&self) -> (r: Self)
        ensures
            r@ == self@,
            r.agrees_with(self),
    {
        Ptr { inner: arc_clone(&self.inner) }
    }
}

impl<T> std::ops::Deref for Ptr<T> {
    type Target = usize;

    /// The address of the foreign object.
    fn deref(&self) -> (r: &usize)
        ensures
            *r == self@,
    {
        &self.inner.addr
    }
}

} // verus!
