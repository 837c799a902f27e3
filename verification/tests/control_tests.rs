use miniedit::control::{AccessMode, Controller, FileAccessError};

#[test]
fn read_bit_is_the_owner_read_permission() {
    let c = Controller::new();
    assert!(c.can_read(0o400));
    assert!(c.can_read(0o644));
    assert!(!c.can_read(0o200));
    assert!(!c.can_read(0));
}

#[test]
fn write_bit_is_the_owner_write_permission() {
    let c = Controller::new();
    assert!(c.can_write(0o200));
    assert!(c.can_write(0o644));
    assert!(!c.can_write(0o444));
    assert!(!c.can_write(0));
}

#[test]
fn missing_file_is_rejected_first() {
    let c = Controller::new();
    assert_eq!(c.check_access(false, 0o600), Err(FileAccessError::NotAFile));
    assert_eq!(c.check_access(false, 0), Err(FileAccessError::NotAFile));
}

#[test]
fn unreadable_file_is_rejected() {
    let c = Controller::new();
    assert_eq!(
        c.check_access(true, 0o200),
        Err(FileAccessError::PermissionDenied(AccessMode::Read))
    );
}

#[test]
fn unwritable_file_is_rejected() {
    let c = Controller::new();
    assert_eq!(
        c.check_access(true, 0o444),
        Err(FileAccessError::PermissionDenied(AccessMode::Write))
    );
}

#[test]
fn readable_and_writable_file_is_accepted() {
    let c = Controller::new();
    assert_eq!(c.check_access(true, 0o600), Ok(()));
    assert_eq!(c.check_access(true, 0o644), Ok(()));
}
