use trance::auth::{check_peer_exe, is_trusted_control_peer, is_trusted_peer_name, PeerExeCheck};

#[test]
fn trusted_peer_names_are_fixed() {
    assert!(is_trusted_peer_name("trance"));
    assert!(is_trusted_peer_name("trance-applet"));
    assert!(is_trusted_peer_name("trance-tui"));
    assert!(is_trusted_peer_name("trance-cli"));
    assert!(!is_trusted_peer_name("bash"));
    assert!(!is_trusted_peer_name("python3"));
}

#[test]
fn same_uid_fallback_accepts_when_exe_unreadable() {
    let uid: u32 = 1000;
    // An executable that cannot be read falls back to comparing user ids.
    assert!(is_trusted_control_peer(false, PeerExeCheck::Unreadable, Some(uid), uid));
    assert!(!is_trusted_control_peer(false, PeerExeCheck::Unreadable, Some(uid.wrapping_add(1)), uid));
}

#[test]
fn unreadable_without_uid_is_refused() {
    assert!(!is_trusted_control_peer(false, PeerExeCheck::Unreadable, None, 0));
    assert!(is_trusted_control_peer(true, PeerExeCheck::Untrusted, None, 0));
    assert!(!is_trusted_control_peer(false, PeerExeCheck::Untrusted, Some(0), 0));
    assert!(is_trusted_control_peer(false, PeerExeCheck::Trusted, None, 5));
}

#[test]
fn system_binary_owned_by_root_is_trusted() {
    assert_eq!(check_peer_exe(Some("/usr/bin/trance"), Some((0o100755, 0)), false), PeerExeCheck::Trusted);
    assert_eq!(check_peer_exe(Some("/usr/local/bin/trance-tui"), Some((0o100755, 0)), false), PeerExeCheck::Trusted);
}

#[test]
fn untrusted_binaries_are_refused() {
    // Unknown name.
    assert_eq!(check_peer_exe(Some("/usr/bin/bash"), Some((0o100755, 0)), false), PeerExeCheck::Untrusted);
    // World-writable.
    assert_eq!(check_peer_exe(Some("/usr/bin/trance"), Some((0o100777, 0)), false), PeerExeCheck::Untrusted);
    // Not owned by root in a system prefix.
    assert_eq!(check_peer_exe(Some("/usr/bin/trance"), Some((0o100755, 1000)), false), PeerExeCheck::Untrusted);
    // Outside the system prefixes.
    assert_eq!(check_peer_exe(Some("/home/u/bin/trance"), Some((0o100755, 1000)), false), PeerExeCheck::Untrusted);
    // No metadata.
    assert_eq!(check_peer_exe(Some("/usr/bin/trance"), None, false), PeerExeCheck::Untrusted);
    // Unreadable link.
    assert_eq!(check_peer_exe(None, None, false), PeerExeCheck::Unreadable);
}
