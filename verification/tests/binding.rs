use deadpool_diesel::{BindingError, Runtime};

#[test]
fn select_binds_tokio_alone() {
    assert_eq!(Runtime::select(true, false), Ok(Runtime::Tokio));
}

#[test]
fn select_binds_async_std_alone() {
    assert_eq!(Runtime::select(false, true), Ok(Runtime::AsyncStd));
}

#[test]
fn select_refuses_no_executor() {
    assert_eq!(Runtime::select(false, false), Err(BindingError::Missing));
}

#[test]
fn select_refuses_two_executors() {
    assert_eq!(Runtime::select(true, true), Err(BindingError::Conflicting));
}

#[test]
fn binding_error_messages() {
    assert_eq!(
        BindingError::Missing.message(),
        "one of 'rt-tokio', or 'rt-async-std' features must be enabled"
    );
    assert_eq!(
        BindingError::Conflicting.message(),
        "only one of 'rt-tokio', or 'rt-async-std' features can be enabled"
    );
}
