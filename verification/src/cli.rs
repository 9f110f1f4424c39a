//! The command line: attach to a session (the default, `main`), or run
//! the session server on a socket; and where the server's socket lives.

use vstd::prelude::*;

verus! {

/// minmux — a minimalist terminal multiplexer.
pub struct Options {
    pub command: Option<Command>,
}

/// What to do.
pub enum Command {
    /// Attach to a session (default).  Starts a new session server if none is running.
    Attach { session: String },
    /// Run the session server on the given Unix socket (internal use).
    Daemon { socket: String },
}

/// The session attached to when none is named.
pub const DEFAULT_SESSION: &'static str = "main";

/// How many times, at most, the client looks for the socket of a server it started.
pub const SOCKET_POLLS: u32 = 20;

/// How long the client waits before each look, in milliseconds.
pub const SOCKET_POLL_MILLIS: u64 = 50;

/// The command to run: the one given, else attaching to `main`.
pub fn run(opts: Options) -> (c: Command)
    ensures
        match opts.command {
            Some(given) => c == given,
            None => c matches Command::Attach { session } && session@ == DEFAULT_SESSION@,
        },
{
    match opts.command {
        Some(c) => c,
        None => Command::Attach { session: String::from_str(DEFAULT_SESSION) },
    }
}

/// Whether to keep waiting for the socket of a server just started:
/// while it is absent and fewer than `SOCKET_POLLS` looks were made.
pub fn keep_waiting(polls_done: u32, socket_exists: bool) -> (r: bool)
    ensures
        r == (!socket_exists && polls_done < SOCKET_POLLS),
{
    !socket_exists && polls_done < SOCKET_POLLS
}

/// The path `part` appended to the path `base`, as `Path::join` makes it.
pub uninterp spec fn path_joined(base: Seq<char>, part: Seq<char>) -> Seq<char>;

/// Calls `Path::join` on `base` and `part` and turns the result into a
/// `String`. The result is named; of it the documented cases are stated:
/// an absolute part replaces the base, and a relative part is added to a
/// non-empty base, after a separator unless the base already ends in one.
/// What an empty base gives is left unsaid.
#[verifier::external_body]
fn join_path(base: &str, part: &str) -> (r: String)
    ensures
        r@ == path_joined(base@, part@),
        part@.len() > 0 && part@[0] == '/' ==> r@ == part@,
        part@.len() > 0 && part@[0] != '/' && base@.len() > 0 && base@.last() != '/' ==> r@ == base@ + seq!['/']
            + part@,
        part@.len() > 0 && part@[0] != '/' && base@.len() > 0 && base@.last() == '/' ==> r@ == base@ + part@,
{
    std::path::Path::new(base).join(part).to_string_lossy().into_owned()
}

/// The home directory: `$HOME` when set, else `/tmp`.
pub open spec fn home_of(home: Option<Seq<char>>) -> Seq<char> {
    match home {
        Some(h) => h,
        None => "/tmp"@,
    }
}

/// The text of an optional string.
pub open spec fn opt_text(s: Option<String>) -> Option<Seq<char>> {
    match s {
        Some(t) => Some(t@),
        None => None,
    }
}

/// The home directory, given the value of `$HOME` if it is set.
pub fn home_directory(home: Option<String>) -> (r: String)
    ensures
        r@ == home_of(opt_text(home)),
{
    match home {
        Some(h) => h,
        None => String::from_str("/tmp"),
    }
}

/// Where the server's socket lives: `minmux/minmux.sock` under
/// `$XDG_RUNTIME_DIR`, or under `.local/run` in the home directory.
pub open spec fn socket_path_of(runtime_dir: Option<Seq<char>>, home: Option<Seq<char>>) -> Seq<char> {
    let base = match runtime_dir {
        Some(d) => d,
        None => path_joined(path_joined(home_of(home), ".local"@), "run"@),
    };
    path_joined(path_joined(base, "minmux"@), "minmux.sock"@)
}

/// A non-empty directory path with a `/` at its end.
pub open spec fn as_dir(d: Seq<char>) -> Seq<char> {
    if d.last() == '/' {
        d
    } else {
        d + seq!['/']
    }
}

/// Returns the path to the session server's Unix socket, given the values
/// of `$XDG_RUNTIME_DIR` and `$HOME` if they are set.
pub fn default_socket_path(runtime_dir: Option<String>, home: Option<String>) -> (p: String)
    ensures
        p@ == socket_path_of(opt_text(runtime_dir), opt_text(home)),
        runtime_dir is Some && runtime_dir.unwrap()@.len() > 0 ==> p@ == as_dir(runtime_dir.unwrap()@)
            + "minmux/minmux.sock"@,
        runtime_dir is None && home is None ==> p@ == "/tmp/.local/run/minmux/minmux.sock"@,
        runtime_dir is None && home is Some && home.unwrap()@.len() > 0 ==> p@ == as_dir(home.unwrap()@)
            + ".local/run/minmux/minmux.sock"@,
{
    proof {
        reveal_strlit("minmux");
        reveal_strlit("minmux.sock");
        reveal_strlit(".local");
        reveal_strlit("run");
        reveal_strlit("/tmp");
        reveal_strlit("minmux/minmux.sock");
        reveal_strlit("/tmp/.local/run/minmux/minmux.sock");
        reveal_strlit(".local/run/minmux/minmux.sock");
    }
    let base = match runtime_dir {
        Some(d) => d,
        None => {
            let h = home_directory(home);
            let local = join_path(h.as_str(), ".local");
            join_path(local.as_str(), "run")
        },
    };
    let dir = join_path(base.as_str(), "minmux");
    let p = join_path(dir.as_str(), "minmux.sock");
    assert(base@.len() > 0 ==> p@ =~= as_dir(base@) + "minmux/minmux.sock"@);
    p
}

} // verus!
