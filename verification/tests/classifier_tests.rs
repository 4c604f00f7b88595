use rusty_proxy::classifier::{classify, sample_contains_ssh, PeekOutcome};
use rusty_proxy::route::Backend;

#[test]
fn marker_at_start_selects_shell() {
    let sample = b"SSH-2.0-OpenSSH_9.6".to_vec();
    assert!(sample_contains_ssh(&sample));
    assert_eq!(classify(&PeekOutcome::Sample(sample)), Backend::ShellTunnel);
}

#[test]
fn marker_in_middle_of_full_sample_selects_shell() {
    let mut sample = vec![0x55u8; 8192];
    sample[4000] = b'S';
    sample[4001] = b'S';
    sample[4002] = b'H';
    assert!(sample_contains_ssh(&sample));
    assert_eq!(classify(&PeekOutcome::Sample(sample)), Backend::ShellTunnel);
}

#[test]
fn marker_at_end_selects_shell() {
    let mut sample = vec![b'x'; 100];
    sample[97] = b'S';
    sample[98] = b'S';
    sample[99] = b'H';
    assert!(sample_contains_ssh(&sample));
    assert_eq!(classify(&PeekOutcome::Sample(sample)), Backend::ShellTunnel);
}

#[test]
fn non_matching_sample_selects_vpn() {
    let sample = b"GET / HTTP/1.1\r\n".to_vec();
    assert!(!sample_contains_ssh(&sample));
    assert_eq!(classify(&PeekOutcome::Sample(sample)), Backend::VpnTunnel);
}

#[test]
fn lower_case_marker_does_not_match() {
    let sample = b"ssh-2.0".to_vec();
    assert!(!sample_contains_ssh(&sample));
    assert_eq!(classify(&PeekOutcome::Sample(sample)), Backend::VpnTunnel);
}

#[test]
fn split_marker_does_not_match() {
    let sample = b"SS HS SH S".to_vec();
    assert!(!sample_contains_ssh(&sample));
}

#[test]
fn short_sample_without_marker_selects_vpn() {
    assert_eq!(
        classify(&PeekOutcome::Sample(b"SS".to_vec())),
        Backend::VpnTunnel
    );
}

#[test]
fn empty_sample_selects_shell() {
    assert_eq!(
        classify(&PeekOutcome::Sample(Vec::new())),
        Backend::ShellTunnel
    );
}

#[test]
fn timed_out_peek_selects_shell() {
    assert_eq!(classify(&PeekOutcome::TimedOut), Backend::ShellTunnel);
}
