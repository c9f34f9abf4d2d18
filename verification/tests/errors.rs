use faketty::{diagnostic_line, Error};

#[test]
fn errno_message_is_name_and_description() {
    let error = Error::from(nix::errno::Errno::ENOENT);
    assert_eq!(error.message(), "ENOENT: No such file or directory");
}

#[test]
fn errno_message_differs_by_errno() {
    let bad = Error::from(nix::errno::Errno::EBADF);
    let again = Error::from(nix::errno::Errno::EAGAIN);
    assert!(bad.message().starts_with("EBADF: "));
    assert!(again.message().starts_with("EAGAIN: "));
    assert_ne!(bad.message(), again.message());
}

#[test]
fn io_message_is_that_of_the_io_error() {
    let inner = std::io::Error::from_raw_os_error(9);
    let expected = inner.to_string();
    let error = Error::from(inner);
    assert_eq!(error.message(), expected);
    assert!(error.message().contains("os error 9"));
}

#[test]
fn from_keeps_the_variant() {
    assert!(matches!(
        Error::from(nix::errno::Errno::EIO),
        Error::Nix(nix::errno::Errno::EIO)
    ));
    assert!(matches!(
        Error::from(std::io::Error::from_raw_os_error(5)),
        Error::Io(_)
    ));
}

#[test]
fn diagnostic_line_joins_tool_and_description() {
    assert_eq!(
        diagnostic_line("faketty", "EBADF: Bad file number"),
        "faketty: EBADF: Bad file number"
    );
}

#[test]
fn diagnostic_line_keeps_empty_parts() {
    assert_eq!(diagnostic_line("", ""), ": ");
    assert_eq!(diagnostic_line("tool", ""), "tool: ");
    assert_eq!(diagnostic_line("", "text"), ": text");
}

#[test]
fn diagnostic_of_an_error_names_the_tool() {
    let error = Error::from(nix::errno::Errno::ENOENT);
    assert_eq!(
        error.diagnostic("faketty"),
        "faketty: ENOENT: No such file or directory"
    );
    let error = Error::from(std::io::Error::from_raw_os_error(24));
    assert_eq!(
        error.diagnostic("faketty"),
        format!("faketty: {}", std::io::Error::from_raw_os_error(24))
    );
}
