//! Shared server state and its one-time setup.
//!
//! One `State` instance exists per running process, shared between the
//! UI command thread and the background network listener under a
//! reader/writer lock owned by the host shell.  Setup runs once, under
//! the write side: it derives the on-disk layout from a host-provided
//! base directory, installs the real server identity in place of the
//! placeholder, and hands the listener a snapshot of the finished
//! configuration.  After setup returns, nothing mutates the
//! configuration or the identity again, so steady-state access needs
//! only shared reads.

use vstd::prelude::*;
use crate::numtext::dec_digits;

verus! {

/// The configuration snapshot: paths and flags, immutable after setup.
pub struct Config {
    /// Path of the record-store database file.
    pub db: String,
    /// Directory holding stored file blobs, named by content hash.
    pub file_path: String,
    /// Directory for in-flight temporary files.
    pub file_tmp_path: String,
    /// Whether setup creates the blob and temp directories.
    pub createdirs: bool,
    /// Whether the process runs as an embedded bridge beside the UI.
    pub tauri_mode: bool,
    /// Whether the network listener accepts new registrations.
    pub open_registration: bool,
}

impl Config {
    /// A field-for-field copy, taken under the shared lock so the lock
    /// can be released before any blocking I/O uses the values.
    pub fn snapshot(&self) -> (c: Config)
        ensures
            c == *self,
    {
        Config {
            db: self.db.clone(),
            file_path: self.file_path.clone(),
            file_tmp_path: self.file_tmp_path.clone(),
            createdirs: self.createdirs,
            tauri_mode: self.tauri_mode,
            open_registration: self.open_registration,
        }
    }
}

/// The server's own identity: an internal identifier and its external
/// identifier text, resolved from the record store at setup.
pub struct Server {
    /// Internal identifier of this server instance.
    pub id: i64,
    /// External identifier text of this server instance.
    pub uuid: String,
}

/// The placeholder identity a `State` holds before setup resolves the
/// real one.
pub open spec fn is_placeholder(s: &Server) -> bool {
    s.id == 0 && s.uuid@ =~= Seq::<char>::empty()
}

/// The shared server state: configuration, the job-identifier counter
/// of the background-job registry, and the server identity.
pub struct State {
    /// Configuration snapshot; mutated only during setup.
    pub config: Config,
    /// Monotonically increasing counter minting background-job ids.
    pub jobcounter: i64,
    /// Placeholder before setup; the real identity afterwards.
    pub server: Server,
}

/// Construct the initial state: the given configuration defaults, an
/// empty job registry with its counter at zero, and the placeholder
/// server identity.
pub fn initialize(config: Config) -> (s: State)
    ensures
        s.config == config,
        s.jobcounter == 0,
        is_placeholder(&s.server),
{
    State { config, jobcounter: 0, server: Server { id: 0, uuid: String::new() } }
}

/// The derived on-disk layout, rooted under a host-provided base
/// directory.
pub struct SetupPaths {
    /// Database file path.
    pub db: String,
    /// Blob storage directory.
    pub files: String,
    /// Temporary-file directory.
    pub temp: String,
}

/// Join a base directory and one entry name.
pub fn join_path(base: &str, name: &str) -> (r: String)
    ensures
        r@ == base@ + "/"@ + name@,
{
    let mut out = String::new();
    out.append(base);
    out.append("/");
    out.append(name);
    proof {
        assert(out@ =~= base@ + "/"@ + name@);
    }
    out
}

/// Derive the database, blob and temp locations from the base
/// directory the host hands over.
pub fn setup_paths(base: &str) -> (r: SetupPaths)
    ensures
        r.db@ == base@ + "/"@ + "zknotes.db"@,
        r.files@ == base@ + "/"@ + "files"@,
        r.temp@ == base@ + "/"@ + "temp"@,
{
    SetupPaths {
        db: join_path(base, "zknotes.db"),
        files: join_path(base, "files"),
        temp: join_path(base, "temp"),
    }
}

/// A nonnegative number padded with zeros to at least two digits.
pub open spec fn pad2(n: int) -> Seq<char> {
    if n < 10 {
        seq!['0'] + dec_digits(n)
    } else {
        dec_digits(n)
    }
}

/// A nonnegative number padded with zeros to at least four digits.
pub open spec fn pad4(n: int) -> Seq<char> {
    if n < 10 {
        seq!['0', '0', '0'] + dec_digits(n)
    } else if n < 100 {
        seq!['0', '0'] + dec_digits(n)
    } else if n < 1000 {
        seq!['0'] + dec_digits(n)
    } else {
        dec_digits(n)
    }
}

/// The timestamp text naming a log file: year-month-day, a `T`, and
/// hour:minute:second, each component zero-padded.
pub open spec fn timestamp_text(y: int, mo: int, d: int, h: int, mi: int, s: int) -> Seq<char> {
    pad4(y) + seq!['-'] + pad2(mo) + seq!['-'] + pad2(d) + seq!['T'] + pad2(h) + seq![':'] + pad2(
        mi,
    ) + seq![':'] + pad2(s)
}

/// Append a number zero-padded to at least two digits.
fn push_pad2(out: &mut String, n: u8)
    ensures
        final(out)@ == old(out)@ + pad2(n as int),
{
    if n < 10 {
        out.append("0");
    }
    let digits = crate::numtext::u64_to_dec_string(n as u64);
    out.append(digits.as_str());
    proof {
        reveal_strlit("0");
        assert("0"@ =~= seq!['0']);
        assert(final(out)@ =~= old(out)@ + pad2(n as int));
    }
}

/// Render the timestamp that names a log file.
pub fn format_timestamp(y: u16, mo: u8, d: u8, h: u8, mi: u8, s: u8) -> (r: String)
    requires
        y <= 9999,
    ensures
        r@ == timestamp_text(y as int, mo as int, d as int, h as int, mi as int, s as int),
{
    let mut out = String::new();
    if y < 10 {
        out.append("000");
    } else if y < 100 {
        out.append("00");
    } else if y < 1000 {
        out.append("0");
    }
    let ydigits = crate::numtext::u64_to_dec_string(y as u64);
    out.append(ydigits.as_str());
    proof {
        reveal_strlit("000");
        reveal_strlit("00");
        reveal_strlit("0");
        assert("000"@ =~= seq!['0', '0', '0']);
        assert("00"@ =~= seq!['0', '0']);
        assert("0"@ =~= seq!['0']);
        assert(out@ =~= pad4(y as int));
    }
    out.append("-");
    push_pad2(&mut out, mo);
    out.append("-");
    push_pad2(&mut out, d);
    out.append("T");
    push_pad2(&mut out, h);
    out.append(":");
    push_pad2(&mut out, mi);
    out.append(":");
    push_pad2(&mut out, s);
    proof {
        reveal_strlit("-");
        reveal_strlit("T");
        reveal_strlit(":");
        assert("-"@ =~= seq!['-']);
        assert("T"@ =~= seq!['T']);
        assert(":"@ =~= seq![':']);
        assert(out@ =~= timestamp_text(
            y as int,
            mo as int,
            d as int,
            h as int,
            mi as int,
            s as int,
        ));
    }
    out
}

/// The name of the log file: the timestamp when one could be
/// rendered, the bare name otherwise.
pub fn log_file_name(stamp: Option<&str>) -> (r: String)
    ensures
        stamp matches Some(t) ==> r@ == t@ + ".zknotes.log"@,
        stamp is None ==> r@ == "zknotes.log"@,
{
    let mut out = String::new();
    match stamp {
        Option::Some(t) => {
            out.append(t);
            out.append(".zknotes.log");
            proof {
                assert(out@ =~= t@ + ".zknotes.log"@);
            }
        },
        Option::None => {
            out.append("zknotes.log");
            proof {
                assert(out@ =~= "zknotes.log"@);
            }
        },
    }
    out
}

/// Apply the derived layout and the embedded-mode flags to the
/// configuration, leaving every other part of the state unchanged.
pub fn apply_setup(state: &mut State, paths: SetupPaths)
    ensures
        final(state).config.db == paths.db,
        final(state).config.file_path == paths.files,
        final(state).config.file_tmp_path == paths.temp,
        final(state).config.createdirs,
        final(state).config.tauri_mode,
        final(state).config.open_registration,
        final(state).jobcounter == old(state).jobcounter,
        final(state).server == old(state).server,
{
    state.config.db = paths.db;
    state.config.file_path = paths.files;
    state.config.file_tmp_path = paths.temp;
    state.config.createdirs = true;
    state.config.tauri_mode = true;
    state.config.open_registration = true;
}

/// Install the real server identity the record store resolved,
/// replacing the placeholder exactly once.
pub fn install_server_identity(state: &mut State, server: Server)
    requires
        is_placeholder(&old(state).server),
    ensures
        final(state).server == server,
        final(state).config == old(state).config,
        final(state).jobcounter == old(state).jobcounter,
{
    state.server = server;
}

/// The configuration snapshot handed to the background listener: a
/// copy equal to the shared one, so the listener never holds a live
/// reference into the locked state.
pub fn listener_config(state: &State) -> (c: Config)
    ensures
        c == state.config,
{
    state.config.snapshot()
}

} // verus!
