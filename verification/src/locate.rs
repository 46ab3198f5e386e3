//! Artifact locator: resolves which file holds the canonical I/O artifact
//! for a given source path, in strict precedence order.
//!
//! The locator itself performs no filesystem work: the caller checks whether
//! each candidate exists and passes the three answers in. The decision is
//! then a pure function of the input path and those answers.
use vstd::prelude::*;
use vstd::string::StrSliceExecFns;
use vstd::string::StringExecFns;
use crate::paths;
use crate::strings;

verus! {

/// Failure of the locator.
#[derive(Clone, Debug)]
pub enum LocateError {
    /// The input names an artifact itself, and that file does not exist.
    InputNotFound { input: String },
    /// No candidate exists; all three attempted paths are reported.
    NoCandidate { input: String, tried_compressed: String, tried_plain: String },
}

/// Holds when the file name of `p` already carries the compound artifact
/// marker `.io.gbln` anywhere in it.
pub open spec fn name_contains_io(p: Seq<char>) -> bool {
    strings::contains_seq(p.subrange(paths::name_start(p), p.len() as int), ".io.gbln"@)
}

/// Resolves the artifact for `input`, in strict precedence order.
///
/// `input_exists`, `compressed_exists` and `plain_exists` answer whether
/// `input` itself, `build_spec(input, true)` and `build_spec(input, false)`
/// exist on disk.
///
/// - A path whose file name already carries `.io.gbln` stands for itself:
///   it is returned when present and reported missing otherwise, with no
///   fallback to other candidates.
/// - Otherwise the compressed candidate wins over the plain one, the plain
///   one over the input itself, and when none exists all three attempted
///   candidates are reported.
pub fn find_io_file(
    input: &str,
    input_exists: bool,
    compressed_exists: bool,
    plain_exists: bool,
) -> (r: Result<String, LocateError>)
    ensures
        name_contains_io(input@) && input_exists ==> (r matches Ok(o) && o@ == input@),
        name_contains_io(input@) && !input_exists ==> (r matches Err(
            LocateError::InputNotFound { input: i },
        ) && i@ == input@),
        !name_contains_io(input@) && compressed_exists ==> (r matches Ok(o) && o@
            == paths::build_spec(input@, true)),
        !name_contains_io(input@) && !compressed_exists && plain_exists ==> (r matches Ok(o)
            && o@ == paths::build_spec(input@, false)),
        !name_contains_io(input@) && !compressed_exists && !plain_exists && input_exists ==> (
        r matches Ok(o) && o@ == input@),
        !name_contains_io(input@) && !compressed_exists && !plain_exists && !input_exists ==> (
        r matches Err(LocateError::NoCandidate { input: i, tried_compressed: tc, tried_plain: tp })
            && i@ == input@ && tc@ == paths::build_spec(input@, true) && tp@ == paths::build_spec(
            input@,
            false,
        )),
{
    let len = input.unicode_len();
    let ns = strings::find_after_last(input, '/');
    proof {
        strings::lemma_last_index_of(input@, '/');
    }
    let name = input.substring_char(ns, len);
    if strings::contains_str(name, ".io.gbln") {
        if input_exists {
            Ok(String::from_str(input))
        } else {
            Err(LocateError::InputNotFound { input: String::from_str(input) })
        }
    } else {
        if compressed_exists {
            Ok(paths::build_artifact_path(input, true))
        } else if plain_exists {
            Ok(paths::build_artifact_path(input, false))
        } else if input_exists {
            Ok(String::from_str(input))
        } else {
            Err(
                LocateError::NoCandidate {
                    input: String::from_str(input),
                    tried_compressed: paths::build_artifact_path(input, true),
                    tried_plain: paths::build_artifact_path(input, false),
                },
            )
        }
    }
}

} // verus!
