//! Where the desktop process finds its files: the `.env` file, the Python
//! IPC script and the directory the script runs in. In a debug build they
//! sit beside the source tree (the `chatterbox` project next to this one);
//! in a release build beside the executable and in the bundle's resources.
use vstd::prelude::*;
use crate::text::{chars_of, concat};

verus! {

/// `dir` joined with `name` as `Path::join` does on Unix: an absolute
/// `name` replaces `dir`; otherwise a `/` separates them unless `dir` is
/// empty or already ends with one.
pub open spec fn join_spec(dir: Seq<char>, name: Seq<char>) -> Seq<char> {
    if name.len() > 0 && name[0] == '/' {
        name
    } else if dir.len() == 0 || dir.last() == '/' {
        dir + name
    } else {
        dir + "/"@ + name
    }
}

/// `dir` joined with `name` (`Path::join`).
pub fn join_path(dir: &str, name: &str) -> (r: String)
    ensures
        r@ == join_spec(dir@, name@),
{
    let d = chars_of(dir);
    let n = chars_of(name);
    if n.len() > 0 && n[0] == '/' {
        return name.to_owned();
    }
    if d.len() == 0 || d[d.len() - 1] == '/' {
        concat(dir, name)
    } else {
        let mut r = concat(dir, "/");
        r.append(name);
        r
    }
}

/// The `.env` files tried, in order, until one can be read: in a debug
/// build the one in the parent of `manifest_dir`; in a release build the
/// one beside the executable (in `exe_dir`) and the one in the bundle's
/// `Resources` (none when the executable's directory is unknown).
pub fn env_file_candidates(debug: bool, manifest_dir: &str, exe_dir: Option<String>) -> (r: Vec<
    String,
>)
    ensures
        r@.map_values(|p: String| p@) == if debug {
            seq![join_spec(join_spec(manifest_dir@, ".."@), ".env"@)]
        } else {
            match exe_dir {
                Some(d) => seq![join_spec(d@, ".env"@), join_spec(d@, "../Resources/.env"@)],
                None => seq![],
            }
        },
{
    let mut r: Vec<String> = Vec::new();
    if debug {
        let parent = join_path(manifest_dir, "..");
        r.push(join_path(parent.as_str(), ".env"));
    } else {
        match exe_dir {
            Some(d) => {
                r.push(join_path(d.as_str(), ".env"));
                r.push(join_path(d.as_str(), "../Resources/.env"));
            },
            None => {},
        }
    }
    assert(r@.map_values(|p: String| p@) =~= if debug {
        seq![join_spec(join_spec(manifest_dir@, ".."@), ".env"@)]
    } else {
        match exe_dir {
            Some(d) => seq![join_spec(d@, ".env"@), join_spec(d@, "../Resources/.env"@)],
            None => seq![],
        }
    });
    r
}

/// The IPC script and the directory it runs in: in a debug build the
/// script in the parent of `manifest_dir` and the `chatterbox` project
/// beside that parent; in a release build both in `resource_dir`.
pub fn script_layout(debug: bool, manifest_dir: &str, resource_dir: &str) -> (r: (String, String))
    ensures
        r.0@ == if debug {
            join_spec(join_spec(manifest_dir@, ".."@), "python_ipc_server.py"@)
        } else {
            join_spec(resource_dir@, "python_ipc_server.py"@)
        },
        r.1@ == if debug {
            join_spec(join_spec(join_spec(manifest_dir@, ".."@), ".."@), "chatterbox"@)
        } else {
            resource_dir@
        },
{
    if debug {
        let parent = join_path(manifest_dir, "..");
        let script = join_path(parent.as_str(), "python_ipc_server.py");
        let up = join_path(parent.as_str(), "..");
        let cwd = join_path(up.as_str(), "chatterbox");
        (script, cwd)
    } else {
        (join_path(resource_dir, "python_ipc_server.py"), resource_dir.to_owned())
    }
}

} // verus!
