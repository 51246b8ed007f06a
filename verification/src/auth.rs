//! Authorization of D-Bus control calls: only the trance CLI, TUI and panel applet,
//! installed root-owned in a system prefix, may change settings or start previews.

use vstd::prelude::*;

use crate::text::{chars_of, str_eq};

verus! {

broadcast use vstd::string::group_string_axioms;

/// Basenames of the executables allowed to call control methods.
pub open spec fn trusted_peer_name(name: Seq<char>) -> bool {
    name == "trance"@ || name == "trance-applet"@ || name == "trance-tui"@ || name == "trance-cli"@
}

/// Whether `name` is the basename of an executable allowed to call control methods.
pub fn is_trusted_peer_name(name: &str) -> (r: bool)
    ensures
        r == trusted_peer_name(name@),
{
    str_eq(name, "trance") || str_eq(name, "trance-applet") || str_eq(name, "trance-tui")
        || str_eq(name, "trance-cli")
}

/// The outcome of inspecting a peer's executable.
#[derive(Debug, Clone, Copy, PartialEq, Eq)]
pub enum PeerExeCheck {
    /// Readable, a trusted name in an allowed directory, root-owned when in a system
    /// prefix, and not world-writable.
    Trusted,
    /// Readable but not an allowed control client.
    Untrusted,
    /// `/proc/<pid>/exe` could not be read (hardened services, or the peer exited).
    Unreadable,
}

/// The index of the last `/` of `path`, if any.
pub open spec fn last_slash_from(path: Seq<char>, i: int) -> Option<int>
    decreases i,
{
    if i <= 0 || i > path.len() {
        None
    } else if path[i - 1] == '/' {
        Some(i - 1)
    } else {
        last_slash_from(path, i - 1)
    }
}

/// The file name of a canonical absolute path: the text after its last `/`.
pub open spec fn file_name(path: Seq<char>) -> Seq<char> {
    match last_slash_from(path, path.len() as int) {
        Some(k) => path.subrange(k + 1, path.len() as int),
        None => path,
    }
}

/// The directory of a canonical absolute path: the text before its last `/`, or `/`.
pub open spec fn parent_dir(path: Seq<char>) -> Seq<char> {
    match last_slash_from(path, path.len() as int) {
        Some(k) => if k == 0 {
            "/"@
        } else {
            path.take(k)
        },
        None => Seq::empty(),
    }
}

/// A system install prefix, where a peer binary must be owned by root.
pub open spec fn system_prefix(dir: Seq<char>) -> bool {
    dir == "/usr/bin"@ || dir == "/usr/local/bin"@
}

/// The check of a peer executable: `exe` is its canonical path (`None` when unreadable),
/// `metadata` its `(mode, owner uid)` (`None` when it cannot be stat-ed), and
/// `same_dir_as_self` whether a development build runs from the peer's directory.
pub open spec fn peer_exe_check(exe: Option<Seq<char>>, metadata: Option<(u32, u32)>, same_dir_as_self: bool) -> PeerExeCheck {
    match exe {
        None => PeerExeCheck::Unreadable,
        Some(path) => {
            let dir = parent_dir(path);
            if !trusted_peer_name(file_name(path)) {
                PeerExeCheck::Untrusted
            } else if !(system_prefix(dir) || same_dir_as_self) {
                PeerExeCheck::Untrusted
            } else {
                match metadata {
                    None => PeerExeCheck::Untrusted,
                    Some((mode, uid)) => if mode & 2u32 != 0 {
                        PeerExeCheck::Untrusted
                    } else if system_prefix(dir) && uid != 0 {
                        PeerExeCheck::Untrusted
                    } else {
                        PeerExeCheck::Trusted
                    },
                }
            }
        },
    }
}

fn last_slash(cs: &Vec<char>) -> (r: Option<usize>)
    ensures
        match r {
            Some(k) => last_slash_from(cs@, cs@.len() as int) == Some(k as int),
            None => last_slash_from(cs@, cs@.len() as int) is None,
        },
        r matches Some(k) ==> k < cs@.len(),
{
    let mut i = cs.len();
    while i > 0
        invariant
            i <= cs@.len(),
            last_slash_from(cs@, cs@.len() as int) == last_slash_from(cs@, i as int),
        decreases i,
    {
        if cs[i - 1] == '/' {
            return Some(i - 1);
        }
        i = i - 1;
    }
    None
}

/// Classify a peer executable from its path and metadata, as the caller read them.
pub fn check_peer_exe(exe: Option<&str>, metadata: Option<(u32, u32)>, same_dir_as_self: bool) -> (r: PeerExeCheck)
    ensures
        r == peer_exe_check(
            match exe {
                Some(p) => Some(p@),
                None => None,
            },
            metadata,
            same_dir_as_self,
        ),
{
    let path = match exe {
        None => {
            return PeerExeCheck::Unreadable;
        },
        Some(p) => p,
    };
    let cs = chars_of(path);
    assert(cs@.len() == path@.len());
    let (name, dir) = match last_slash(&cs) {
        Some(k) => {
            let dir = if k == 0 {
                "/"
            } else {
                path.substring_char(0, k)
            };
            assert(path@.subrange(0, k as int) =~= path@.take(k as int));
            (path.substring_char(k + 1, cs.len()), dir)
        },
        None => (path, ""),
    };
    proof {
        reveal_strlit("");
    }
    assert(name@ == file_name(path@));
    assert(dir@ == parent_dir(path@));
    if !is_trusted_peer_name(name) {
        return PeerExeCheck::Untrusted;
    }
    let system = str_eq(dir, "/usr/bin") || str_eq(dir, "/usr/local/bin");
    if !(system || same_dir_as_self) {
        return PeerExeCheck::Untrusted;
    }
    match metadata {
        None => PeerExeCheck::Untrusted,
        Some((mode, uid)) => {
            if mode & 2u32 != 0 {
                PeerExeCheck::Untrusted
            } else if system && uid != 0 {
                PeerExeCheck::Untrusted
            } else {
                PeerExeCheck::Trusted
            }
        },
    }
}

/// Whether a peer may call control methods: `trust_all` is the development escape hatch
/// (never set in release builds); a trusted executable is accepted; when the executable
/// cannot be read, a peer with our own uid is accepted.
pub open spec fn trusted_control_peer(trust_all: bool, check: PeerExeCheck, peer_uid: Option<u32>, our_uid: u32) -> bool {
    if trust_all {
        true
    } else {
        match check {
            PeerExeCheck::Trusted => true,
            PeerExeCheck::Untrusted => false,
            PeerExeCheck::Unreadable => peer_uid == Some(our_uid),
        }
    }
}

/// Decide whether a peer may call control methods (see `trusted_control_peer`).
pub fn is_trusted_control_peer(trust_all: bool, check: PeerExeCheck, peer_uid: Option<u32>, our_uid: u32) -> (r: bool)
    ensures
        r == trusted_control_peer(trust_all, check, peer_uid, our_uid),
{
    if trust_all {
        return true;
    }
    match check {
        PeerExeCheck::Trusted => true,
        PeerExeCheck::Untrusted => false,
        PeerExeCheck::Unreadable => match peer_uid {
            Some(uid) => uid == our_uid,
            None => false,
        },
    }
}

/// Outside the development escape hatch, an untrusted executable is never accepted,
/// whatever uid it runs under; and an unreadable one only with our own uid.
pub proof fn law_untrusted_peer_is_refused(check: PeerExeCheck, peer_uid: Option<u32>, our_uid: u32)
    ensures
        check == PeerExeCheck::Untrusted ==> !trusted_control_peer(false, check, peer_uid, our_uid),
        check == PeerExeCheck::Unreadable ==> (trusted_control_peer(false, check, peer_uid, our_uid)
            <==> peer_uid == Some(our_uid)),
{
}

/// A world-writable binary, or one in a system prefix not owned by root, is never trusted.
pub proof fn law_writable_or_foreign_binary_untrusted(path: Seq<char>, mode: u32, uid: u32, same_dir_as_self: bool)
    requires
        mode & 2u32 != 0 || (system_prefix(parent_dir(path)) && uid != 0),
    ensures
        peer_exe_check(Some(path), Some((mode, uid)), same_dir_as_self) != PeerExeCheck::Trusted,
{
}

} // verus!
