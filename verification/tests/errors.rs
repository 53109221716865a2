use todo_sync::errors::TodoAppError;

#[test]
fn not_found_maps_to_404() {
    assert_eq!(TodoAppError::NotFound.status_code(), 404);
}

#[test]
fn backend_unavailable_maps_to_500() {
    let e = TodoAppError::BackendUnavailable("couldn't connect".to_string());
    assert_eq!(e.status_code(), 500);
}

#[test]
fn operation_failed_maps_to_500() {
    let e = TodoAppError::OperationFailed("write rejected".to_string());
    assert_eq!(e.status_code(), 500);
}

#[test]
fn messages_carry_the_cause() {
    assert_eq!(TodoAppError::NotFound.message(), "Not Found");
    let unavailable = TodoAppError::BackendUnavailable("couldn't signin".to_string());
    assert_eq!(unavailable.message(), "couldn't signin");
    let failed = TodoAppError::OperationFailed("write rejected".to_string());
    assert_eq!(failed.message(), "write rejected");
}

#[test]
fn clone_preserves_the_error() {
    let e = TodoAppError::BackendUnavailable("couldn't find db".to_string());
    let c = e.clone();
    assert!(matches!(c, TodoAppError::BackendUnavailable(cause) if cause == "couldn't find db"));
}
