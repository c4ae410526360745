use gbm::BufferObject;

fn is_send<T: Send>() {}
fn is_sync<T: Sync>() {}

#[test]
fn unmapped_bo_is_send() {
    is_send::<BufferObject<()>>();
}

#[test]
fn unmapped_bo_is_sync() {
    is_sync::<BufferObject<()>>();
}
