//! Where the daemon's pid file and the settings files live.

use vstd::prelude::*;

use crate::text::{cat, cat3, decimal_string, decimal_text};

verus! {

broadcast use vstd::string::group_string_axioms;

/// `Path::join` of a relative component without separators: `name` after `dir`, with a
/// `/` between them unless `dir` is empty or already ends with one.
pub open spec fn joined(dir: Seq<char>, name: Seq<char>) -> Seq<char> {
    if dir.len() == 0 || dir.last() == '/' {
        dir + name
    } else {
        dir + "/"@ + name
    }
}

/// Join a relative path component onto a directory.
pub fn join_path(dir: &str, name: &str) -> (r: String)
    ensures
        r@ == joined(dir@, name@),
{
    let n = dir.unicode_len();
    if n == 0 {
        name.to_string()
    } else if dir.get_char(n - 1) == '/' {
        dir.to_string().concat(name)
    } else {
        cat3(dir, "/", name)
    }
}

/// The daemon's pid file: `trance-daemon.pid` in `XDG_RUNTIME_DIR` when that is set,
/// else in the temporary directory.
pub open spec fn pid_file(runtime_dir: Option<Seq<char>>, temp_dir: Seq<char>) -> Seq<char> {
    match runtime_dir {
        Some(d) => joined(d, "trance-daemon.pid"@),
        None => joined(temp_dir, "trance-daemon.pid"@),
    }
}

/// The daemon's pid file, from `XDG_RUNTIME_DIR` (when set) and the temporary directory.
pub fn pid_file_path(runtime_dir: Option<&str>, temp_dir: &str) -> (r: String)
    ensures
        r@ == pid_file(
            match runtime_dir {
                Some(d) => Some(d@),
                None => None,
            },
            temp_dir@,
        ),
{
    match runtime_dir {
        Some(d) => join_path(d, "trance-daemon.pid"),
        None => join_path(temp_dir, "trance-daemon.pid"),
    }
}

/// A settings file `file` in the directory `app` of the user's configuration directory:
/// `XDG_CONFIG_HOME` when set and nonempty, else `.config` in `HOME`; none without
/// either.
pub open spec fn settings_file(
    config_home: Option<Seq<char>>,
    home: Option<Seq<char>>,
    app: Seq<char>,
    file: Seq<char>,
) -> Option<Seq<char>> {
    match config_home {
        Some(x) if x.len() > 0 => Some(joined(joined(x, app), file)),
        _ => match home {
            Some(h) => Some(joined(joined(joined(h, ".config"@), app), file)),
            None => None,
        },
    }
}

/// The path of a settings file, from `XDG_CONFIG_HOME` and `HOME` (each when set).
pub fn settings_file_path(config_home: Option<&str>, home: Option<&str>, app: &str, file: &str) -> (r: Option<String>)
    ensures
        match r {
            Some(p) => settings_file(
                match config_home {
                    Some(x) => Some(x@),
                    None => None,
                },
                match home {
                    Some(h) => Some(h@),
                    None => None,
                },
                app@,
                file@,
            ) == Some(p@),
            None => settings_file(
                match config_home {
                    Some(x) => Some(x@),
                    None => None,
                },
                match home {
                    Some(h) => Some(h@),
                    None => None,
                },
                app@,
                file@,
            ) is None,
        },
{
    match config_home {
        Some(x) if !x.is_empty() => {
            let d = join_path(x, app);
            Some(join_path(d.as_str(), file))
        },
        _ => match home {
            Some(h) => {
                let c = join_path(h, ".config");
                let d = join_path(c.as_str(), app);
                Some(join_path(d.as_str(), file))
            },
            None => None,
        },
    }
}

/// The socket and shared-memory names of one plugin session: `trance-uds-<pid>-<n>.sock`
/// in the temporary directory, and `/trance-shm-<pid>-<n>`.
pub open spec fn ipc_names(temp_dir: Seq<char>, pid: u32, n: usize) -> (Seq<char>, Seq<char>) {
    (
        joined(temp_dir, "trance-uds-"@ + decimal_text(pid as nat) + "-"@ + decimal_text(n as nat) + ".sock"@),
        "/trance-shm-"@ + decimal_text(pid as nat) + "-"@ + decimal_text(n as nat),
    )
}

/// The socket path and shared-memory name for session number `n` of process `pid`.
pub fn ipc_endpoint_names(temp_dir: &str, pid: u32, n: usize) -> (r: (String, String))
    ensures
        (r.0@, r.1@) == ipc_names(temp_dir@, pid, n),
{
    let p = decimal_string(pid as u64);
    let k = decimal_string(n as u64);
    let mid = cat3(p.as_str(), "-", k.as_str());
    let sock = cat3("trance-uds-", mid.as_str(), ".sock");
    let path = join_path(temp_dir, sock.as_str());
    let shm = cat("/trance-shm-", mid.as_str());
    (path, shm)
}

/// Whether a file-system event calls for reloading the settings: a modification or a
/// creation that touches the settings file.
pub open spec fn reloads_settings(modify_or_create: bool, paths: Seq<Seq<char>>, target: Seq<char>) -> bool {
    modify_or_create && paths.contains(target)
}

/// Decide whether a watched event reloads the settings file at `target`.
pub fn event_reloads_settings(modify_or_create: bool, paths: &Vec<String>, target: &str) -> (r: bool)
    ensures
        r == reloads_settings(modify_or_create, crate::cli_config::arg_views(paths@), target@),
{
    if !modify_or_create {
        return false;
    }
    let ghost v = crate::cli_config::arg_views(paths@);
    let mut i: usize = 0;
    while i < paths.len()
        invariant
            i <= paths.len(),
            modify_or_create,
            v == crate::cli_config::arg_views(paths@),
            forall|j: int| 0 <= j < i ==> v[j] != target@,
        decreases paths.len() - i,
    {
        assert(v[i as int] == paths@[i as int]@);
        if crate::text::str_eq(paths[i].as_str(), target) {
            assert(v[i as int] == target@);
            return true;
        }
        i = i + 1;
    }
    false
}

} // verus!
