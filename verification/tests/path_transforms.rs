use gbln_sync::format::detect_format;
use gbln_sync::format::format_name;
use gbln_sync::format::FormatTag;
use gbln_sync::paths::build_artifact_path;
use gbln_sync::paths::strip_io_extensions;
use gbln_sync::strings::contains_str;
use gbln_sync::strings::trim_str;
use gbln_sync::strings::u64_to_string;

#[test]
fn detect_known_extensions() {
    assert_eq!(detect_format("a.gbln"), FormatTag::Gbln);
    assert_eq!(detect_format("dir/b.json"), FormatTag::Json);
    assert_eq!(detect_format("c.yaml"), FormatTag::Yaml);
    assert_eq!(detect_format("c.yml"), FormatTag::Yaml);
}

#[test]
fn detect_unknown_extensions() {
    assert_eq!(detect_format("a.txt"), FormatTag::Unknown);
    assert_eq!(detect_format("noext"), FormatTag::Unknown);
    assert_eq!(detect_format(""), FormatTag::Unknown);
    // Case is taken as given.
    assert_eq!(detect_format("a.GBLN"), FormatTag::Unknown);
    // A dot in a directory name is not an extension separator.
    assert_eq!(detect_format("dir.gbln/file"), FormatTag::Unknown);
    // A leading dot belongs to the file name, not to an extension.
    assert_eq!(detect_format(".gbln"), FormatTag::Unknown);
    // An empty extension after a trailing dot is unknown.
    assert_eq!(detect_format("a."), FormatTag::Unknown);
}

#[test]
fn format_names() {
    assert_eq!(format_name(FormatTag::Gbln), "gbln");
    assert_eq!(format_name(FormatTag::Json), "json");
    assert_eq!(format_name(FormatTag::Yaml), "yaml");
    assert_eq!(format_name(FormatTag::Unknown), "unknown");
}

#[test]
fn build_artifact_paths() {
    assert_eq!(build_artifact_path("config.gbln", true), "config.io.gbln.xz");
    assert_eq!(build_artifact_path("config.gbln", false), "config.io.gbln");
    assert_eq!(build_artifact_path("dir/sub/config.gbln", true), "dir/sub/config.io.gbln.xz");
    // A path without an extension gets the suffix appended.
    assert_eq!(build_artifact_path("plain", false), "plain.io.gbln");
}

#[test]
fn strip_io_suffixes() {
    assert_eq!(strip_io_extensions("config.io.gbln.xz"), "config.gbln");
    assert_eq!(strip_io_extensions("config.io.gbln"), "config.gbln");
    assert_eq!(strip_io_extensions("dir/config.io.gbln.xz"), "dir/config.gbln");
    // Anything else is returned unchanged.
    assert_eq!(strip_io_extensions("config.gbln"), "config.gbln");
    assert_eq!(strip_io_extensions("other.txt"), "other.txt");
}

#[test]
fn path_round_trip() {
    for p in ["config.gbln", "dir/a.gbln", "deep/dir/x.y.gbln"] {
        for compress in [true, false] {
            assert_eq!(strip_io_extensions(&build_artifact_path(p, compress)), p);
        }
    }
}

#[test]
fn path_round_trip_leading_dot_name_is_excluded() {
    // A file name that is exactly `.gbln` has no extension to replace, so
    // the round trip does not return to the input.
    assert_eq!(build_artifact_path(".gbln", false), ".gbln.io.gbln");
    assert_eq!(strip_io_extensions(&build_artifact_path(".gbln", false)), ".gbln.gbln");
}

#[test]
fn string_utilities() {
    assert!(contains_str("a.io.gbln.xz", ".io.gbln"));
    assert!(!contains_str("a.gbln", ".io.gbln"));
    assert!(contains_str("abc", ""));
    assert_eq!(trim_str("  x \n"), "x");
    assert_eq!(trim_str("\t\n "), "");
    assert_eq!(trim_str("no-trim"), "no-trim");
    // The whole Unicode White_Space set is trimmed, as str::trim does.
    assert_eq!(trim_str("\u{a0}\u{2003}x\u{2028}\u{3000}"), "x");
    assert_eq!(trim_str("\u{85}\u{b}\u{c}"), "");
    assert_eq!(u64_to_string(0), "0");
    assert_eq!(u64_to_string(907), "907");
    assert_eq!(u64_to_string(u64::MAX), "18446744073709551615");
}
