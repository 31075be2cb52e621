use gitsyncpush::cli::{Args, RemoteCredential};

fn sample_args(period: u64) -> Args {
    Args {
        repo: String::from("https://example.invalid/repo.git"),
        path: String::from("/tmp/worktree"),
        period,
        author_name: String::from("Sync Bot"),
        author_email: String::from("sync@example.invalid"),
        username: String::from("user"),
        password: String::from("hunter2"),
        http_bind: String::from("127.0.0.1:8080"),
    }
}

/// A zero period cannot drive the timer; any positive period can.
#[test]
fn args_validity() {
    assert!(!sample_args(0).is_valid());
    assert!(sample_args(1).is_valid());
    assert!(sample_args(1000).is_valid());
}

/// The credential holder hands the pair back intact to the transport.
#[test]
fn credential_round_trip() {
    let c = RemoteCredential::new(String::from("user"), String::from("pw"));
    assert_eq!(c.username().as_str(), "user");
    assert_eq!(c.password().as_str(), "pw");
}

/// The only printable form of the credential is fixed and never contains the
/// secret.
#[test]
fn credential_redaction() {
    let c = RemoteCredential::new(
        String::from("user"),
        String::from("extremely-secret-password"),
    );
    let shown = c.redacted();
    assert_eq!(shown, "RemoteCredential(omitted)");
    assert!(!shown.contains("extremely-secret-password"));
    assert!(!shown.contains("user"));
}
