//! Format detection: maps a file path to a declared format tag using its
//! extension only. Pure and total; any unrecognized or absent extension
//! yields `Unknown`, and `yml` aliases to `yaml`.
use vstd::prelude::*;
use vstd::string::StrSliceExecFns;
use crate::paths;
use crate::strings;

verus! {

/// The format a path declares through its extension.
#[derive(Clone, Copy, PartialEq, Eq, Debug, Structural)]
pub enum FormatTag {
    Gbln,
    Json,
    Yaml,
    Unknown,
}

/// The extension of `p`: what follows the last `.` of the file name, when
/// that dot neither leads the name nor is absent.
pub open spec fn extension_of(p: Seq<char>) -> Option<Seq<char>> {
    if paths::stem_end(p) < p.len() {
        Some(p.subrange(paths::stem_end(p) + 1, p.len() as int))
    } else {
        None
    }
}

/// The tag that `detect_format` assigns to `p`.
pub open spec fn detect_spec(p: Seq<char>) -> FormatTag {
    match extension_of(p) {
        Some(e) => if e == "gbln"@ {
            FormatTag::Gbln
        } else if e == "json"@ {
            FormatTag::Json
        } else if e == "yaml"@ || e == "yml"@ {
            FormatTag::Yaml
        } else {
            FormatTag::Unknown
        },
        None => FormatTag::Unknown,
    }
}

/// Maps a path to its declared format tag; never fails.
pub fn detect_format(path: &str) -> (t: FormatTag)
    ensures
        t == detect_spec(path@),
{
    let len = path.unicode_len();
    let se = paths::stem_end_exec(path);
    if se >= len {
        return FormatTag::Unknown;
    }
    let ext = path.substring_char(se + 1, len);
    if strings::str_eq(ext, "gbln") {
        FormatTag::Gbln
    } else if strings::str_eq(ext, "json") {
        FormatTag::Json
    } else if strings::str_eq(ext, "yaml") || strings::str_eq(ext, "yml") {
        FormatTag::Yaml
    } else {
        FormatTag::Unknown
    }
}

/// The name under which a tag is addressed on the conversion surface.
pub fn format_name(t: FormatTag) -> (r: &'static str)
    ensures
        r@ == format_name_spec(t),
{
    match t {
        FormatTag::Gbln => "gbln",
        FormatTag::Json => "json",
        FormatTag::Yaml => "yaml",
        FormatTag::Unknown => "unknown",
    }
}

/// The name of each tag.
pub open spec fn format_name_spec(t: FormatTag) -> Seq<char> {
    match t {
        FormatTag::Gbln => "gbln"@,
        FormatTag::Json => "json"@,
        FormatTag::Yaml => "yaml"@,
        FormatTag::Unknown => "unknown"@,
    }
}

} // verus!
