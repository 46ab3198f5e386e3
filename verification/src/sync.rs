//! Sync engine decisions: the write-direction configuration and output
//! path, and the read-direction overwrite gate.
//!
//! The engine performs no I/O itself. The caller reads and writes files and
//! asks the user for confirmation; every decision in between is a pure
//! function specified here, so repeated invocations on an already
//! synchronized pair are stable.
use vstd::prelude::*;
use vstd::string::StrSliceExecFns;
use vstd::string::StringExecFns;
use crate::paths;
use crate::strings;

verus! {

/// Serialization settings for the write direction.
#[derive(Clone, Copy, PartialEq, Eq, Debug, Structural)]
pub struct SyncConfig {
    pub mini_mode: bool,
    pub compress: bool,
    pub compression_level: u8,
    pub indent: u64,
    pub strip_comments: bool,
}

impl SyncConfig {
    /// The compression level always lies in 0..=9.
    pub open spec fn wf(self) -> bool {
        self.compression_level <= 9
    }
}

/// Builds the write-direction configuration from the command flags, clamping
/// an out-of-range compression level to 9 defensively.
pub fn write_config(no_compress: bool, no_mini: bool, compression_level: u8) -> (c: SyncConfig)
    ensures
        c == (SyncConfig {
            mini_mode: !no_mini,
            compress: !no_compress,
            compression_level: if compression_level <= 9 {
                compression_level
            } else {
                9u8
            },
            indent: 2u64,
            strip_comments: true,
        }),
        c.wf(),
{
    SyncConfig {
        mini_mode: !no_mini,
        compress: !no_compress,
        compression_level: if compression_level <= 9 {
            compression_level
        } else {
            9
        },
        indent: 2,
        strip_comments: true,
    }
}

/// The artifact path the write direction targets: the explicit output when
/// one is given, else the path derived from the source and the compression
/// choice.
pub fn write_output_path(input: &str, explicit_output: Option<&str>, compress: bool) -> (r: String)
    ensures
        r@ == match explicit_output {
            Some(o) => o@,
            None => paths::build_spec(input@, compress),
        },
{
    match explicit_output {
        Some(o) => String::from_str(o),
        None => paths::build_artifact_path(input, compress),
    }
}

/// The source path the read direction targets.
pub fn read_output_path(input: &str, explicit_output: Option<&str>) -> (r: String)
    ensures
        r@ == match explicit_output {
            Some(o) => o@,
            None => paths::strip_spec(input@),
        },
{
    match explicit_output {
        Some(o) => String::from_str(o),
        None => paths::strip_io_extensions(input),
    }
}

/// What the read direction does with the rendered pretty text.
#[derive(Clone, Copy, PartialEq, Eq, Debug, Structural)]
pub enum ReadAction {
    /// The destination already holds exactly the rendered text: no write.
    NoChanges,
    /// Write the rendered text to the destination.
    WriteFile,
    /// The destination exists and differs: ask the user before writing.
    AskUser,
}

/// The read-direction decision, as a function of the rendered text, the
/// destination state and the overwrite flag. The idempotence short-circuit
/// comes before the overwrite gate: a destination that already holds
/// exactly the rendered text means no write, whatever the flag says.
pub open spec fn plan_read_spec(
    pretty: Seq<char>,
    dest_exists: bool,
    existing: Option<Seq<char>>,
    overwrite: bool,
) -> ReadAction {
    if dest_exists && (existing matches Some(e) && e == pretty) {
        ReadAction::NoChanges
    } else if !dest_exists || overwrite {
        ReadAction::WriteFile
    } else {
        ReadAction::AskUser
    }
}

/// Decides the read direction. `existing` holds the destination's current
/// contents whenever the destination exists; equality with the rendered
/// text short-circuits the write before the overwrite flag is consulted.
pub fn plan_read_sync(
    pretty: &str,
    dest_exists: bool,
    existing: Option<&str>,
    overwrite: bool,
) -> (a: ReadAction)
    requires
        dest_exists ==> existing is Some,
    ensures
        a == plan_read_spec(
            pretty@,
            dest_exists,
            match existing {
                Some(e) => Some(e@),
                None => None,
            },
            overwrite,
        ),
{
    if !dest_exists {
        ReadAction::WriteFile
    } else {
        match existing {
            Some(e) => {
                if strings::str_eq(e, pretty) {
                    ReadAction::NoChanges
                } else if overwrite {
                    ReadAction::WriteFile
                } else {
                    ReadAction::AskUser
                }
            },
            // The precondition rules this arm out.
            None => ReadAction::WriteFile,
        }
    }
}

/// Law: the read direction is idempotent. Once the destination holds
/// exactly the rendered pretty text, a further read-direction run decides
/// `NoChanges` and performs no write, with or without the overwrite flag.
pub proof fn lemma_read_sync_idempotent(pretty: Seq<char>, overwrite: bool)
    ensures
        plan_read_spec(pretty, true, Some(pretty), overwrite) == ReadAction::NoChanges,
{
}

/// Holds when a confirmation reply accepts the overwrite: the reply is the
/// single character `y`, either case, once surrounding whitespace is gone.
pub open spec fn affirmative_spec(reply: Seq<char>) -> bool {
    strings::trim_spec(reply) == seq!['y'] || strings::trim_spec(reply) == seq!['Y']
}

/// Decides whether a confirmation reply accepts the overwrite. Anything but
/// `y` or `Y` — an empty reply, other text, unreadable input mapped to an
/// empty string — is a rejection, never an error.
pub fn is_affirmative(reply: &str) -> (r: bool)
    ensures
        r == affirmative_spec(reply@),
{
    let t = strings::trim_str(reply);
    proof {
        reveal_strlit("y");
        reveal_strlit("Y");
        assert("y"@ =~= seq!['y']);
        assert("Y"@ =~= seq!['Y']);
    }
    strings::str_eq(t, "y") || strings::str_eq(t, "Y")
}

} // verus!
