use std::sync::atomic::{AtomicUsize, Ordering};
use std::sync::Arc;

use gbm::{AsRaw, BufferObject, GbmBo, GbmDevice, Ptr};

/// Counts how often it is dropped, the way a C destructor would run.
struct CountDrops(Arc<AtomicUsize>);

impl Drop for CountDrops {
    fn drop(&mut self) {
        self.0.fetch_add(1, Ordering::SeqCst);
    }
}

fn is_send<T: Send>() {}
fn is_sync<T: Sync>() {}

#[test]
fn ptr_is_send_and_sync() {
    is_send::<Ptr<GbmBo>>();
    is_sync::<Ptr<GbmBo>>();
}

#[test]
fn ptr_is_send_and_sync_for_any_kind() {
    is_send::<Ptr<std::rc::Rc<u8>>>();
    is_sync::<Ptr<std::rc::Rc<u8>>>();
    is_send::<Ptr<std::cell::Cell<u8>>>();
    is_sync::<Ptr<std::cell::Cell<u8>>>();
}

#[test]
fn new_handle_derefs_to_its_address() {
    let p: Ptr<GbmBo> = Ptr::new(0x1234, ());
    assert_eq!(*p, 0x1234);
}

#[test]
fn clone_shares_the_address() {
    let p: Ptr<GbmDevice> = Ptr::new(0xdead_beef, ());
    let q = p.clone();
    assert_eq!(*q, 0xdead_beef);
    assert_eq!(*p, *q);
}

#[test]
fn release_runs_once_after_the_last_clone() {
    let drops = Arc::new(AtomicUsize::new(0));
    let p: Ptr<GbmBo> = Ptr::new(42, CountDrops(drops.clone()));
    let q = p.clone();
    let r = q.clone();
    drop(p);
    assert_eq!(drops.load(Ordering::SeqCst), 0);
    drop(r);
    assert_eq!(drops.load(Ordering::SeqCst), 0);
    drop(q);
    assert_eq!(drops.load(Ordering::SeqCst), 1);
}

#[test]
fn pointer_text_of_zero() {
    let p: Ptr<GbmBo> = Ptr::new(0, ());
    assert_eq!(p.to_pointer_string(), "0x0");
}

#[test]
fn pointer_text_matches_std_hex_format() {
    for addr in [1usize, 9, 10, 15, 16, 255, 256, 0xabcdef, 0xdead_beef, usize::MAX] {
        let p: Ptr<GbmBo> = Ptr::new(addr, ());
        assert_eq!(p.to_pointer_string(), format!("{:#x}", addr));
    }
}

#[test]
fn pointer_text_exact_values() {
    let p: Ptr<GbmBo> = Ptr::new(0xdead_beef, ());
    assert_eq!(p.to_pointer_string(), "0xdeadbeef");
    let q: Ptr<GbmBo> = Ptr::new(4096, ());
    assert_eq!(q.to_pointer_string(), "0x1000");
}

#[test]
fn buffer_object_as_raw_is_its_bo_address() {
    let bo_ptr: Ptr<GbmBo> = Ptr::new(0x5000, ());
    let dev: Ptr<GbmDevice> = Ptr::new(0x6000, ());
    let bo: BufferObject<()> = BufferObject::new(bo_ptr, dev);
    assert_eq!(bo.as_raw(), 0x5000);
    assert_eq!(bo.as_raw_mut(), 0x5000);
    assert_eq!(bo.as_raw_mut(), bo.as_raw());
}

#[test]
fn buffer_object_keeps_device_alive() {
    let drops = Arc::new(AtomicUsize::new(0));
    let dev: Ptr<GbmDevice> = Ptr::new(0x6000, CountDrops(drops.clone()));
    let bo: BufferObject<u32> = BufferObject::new(Ptr::new(0x5000, ()), dev.clone());
    drop(dev);
    assert_eq!(drops.load(Ordering::SeqCst), 0);
    drop(bo);
    assert_eq!(drops.load(Ordering::SeqCst), 1);
}
