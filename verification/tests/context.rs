use sixtyfps_gl_backend::context::{ContextError, ContextHolder};

#[test]
fn acquiring_twice_without_release_is_refused() {
    let mut holder = ContextHolder::new();
    let token = holder.try_acquire().expect("first acquisition must succeed");
    match holder.try_acquire() {
        Err(ContextError::AlreadyCurrent) => {}
        _ => panic!("second acquisition must be refused while the context is current"),
    }
    holder.try_release(token).expect("release of a current context must succeed");
}

#[test]
fn release_then_reacquire_succeeds() {
    let mut holder = ContextHolder::new();
    let token = holder.try_acquire().expect("first acquisition");
    holder.try_release(token).expect("release");
    let token = holder.try_acquire().expect("acquisition after release");
    holder.try_release(token).expect("second release");
}

#[test]
fn acquire_release_pairing_over_many_frames() {
    let mut holder = ContextHolder::new();
    for _ in 0..10 {
        let token = holder.acquire();
        holder.release(token);
    }
}
