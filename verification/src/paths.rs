//! Path transforms between a source file and its canonical artifact.
//!
//! Paths are plain strings related purely by filename convention: the file
//! name is what follows the last `/`, and an extension is what follows the
//! last `.` of that name, provided the dot neither leads the name nor is
//! absent. A source `<stem>.gbln` corresponds to the artifact
//! `<stem>.io.gbln.xz` (compressed) or `<stem>.io.gbln` (uncompressed).
use vstd::prelude::*;
use vstd::string::StrSliceExecFns;
use vstd::string::StringExecFns;
use crate::strings;
use crate::strings::ends_with;
use crate::strings::last_index_of;

verus! {

/// Index where the file name of `p` begins: just past the last `/`.
pub open spec fn name_start(p: Seq<char>) -> int {
    last_index_of(p, '/') + 1
}

/// Index of the extension separator of `p`, or `p.len()` when the file name
/// has no extension. A dot that leads the file name does not separate an
/// extension.
pub open spec fn stem_end(p: Seq<char>) -> int {
    let d = last_index_of(p, '.');
    if d > name_start(p) {
        d
    } else {
        p.len() as int
    }
}

/// Computes `stem_end` of the path.
pub fn stem_end_exec(path: &str) -> (r: usize)
    ensures
        r == stem_end(path@),
        r <= path@.len(),
{
    let len = path.unicode_len();
    let ns = strings::find_after_last(path, '/');
    let pd = strings::find_after_last(path, '.');
    proof {
        strings::lemma_last_index_of(path@, '/');
        strings::lemma_last_index_of(path@, '.');
    }
    if pd >= 1 && pd - 1 > ns {
        pd - 1
    } else {
        len
    }
}

/// The artifact path for source path `p`: the extension (if any) replaced by
/// the compound artifact suffix that the compression choice implies.
pub open spec fn build_spec(p: Seq<char>, compress: bool) -> Seq<char> {
    p.subrange(0, stem_end(p)) + if compress {
        ".io.gbln.xz"@
    } else {
        ".io.gbln"@
    }
}

/// Derives the artifact path from a source path.
pub fn build_artifact_path(path: &str, compress: bool) -> (r: String)
    ensures
        r@ == build_spec(path@, compress),
{
    let se = stem_end_exec(path);
    let stem = path.substring_char(0, se);
    let r = String::from_str(stem).concat(if compress {
        ".io.gbln.xz"
    } else {
        ".io.gbln"
    });
    proof {
        assert(r@ =~= build_spec(path@, compress));
    }
    r
}

/// The source path for artifact path `p`: a trailing `.io.gbln.xz` or
/// `.io.gbln` replaced by `.gbln`; any other path is returned unchanged.
pub open spec fn strip_spec(p: Seq<char>) -> Seq<char> {
    if ends_with(p, ".io.gbln.xz"@) {
        p.subrange(0, p.len() - ".io.gbln.xz"@.len()) + ".gbln"@
    } else if ends_with(p, ".io.gbln"@) {
        p.subrange(0, p.len() - ".io.gbln"@.len()) + ".gbln"@
    } else {
        p
    }
}

/// Derives the source path from an artifact path.
pub fn strip_io_extensions(path: &str) -> (r: String)
    ensures
        r@ == strip_spec(path@),
{
    let len = path.unicode_len();
    let xz = ".io.gbln.xz";
    let plain = ".io.gbln";
    if strings::ends_with_str(path, xz) {
        let base = path.substring_char(0, len - xz.unicode_len());
        let r = String::from_str(base).concat(".gbln");
        proof {
            assert(r@ =~= strip_spec(path@));
        }
        r
    } else if strings::ends_with_str(path, plain) {
        let base = path.substring_char(0, len - plain.unicode_len());
        let r = String::from_str(base).concat(".gbln");
        proof {
            assert(r@ =~= strip_spec(path@));
        }
        r
    } else {
        let r = String::from_str(path);
        proof {
            assert(r@ =~= strip_spec(path@));
        }
        r
    }
}

/// Law: stripping the artifact suffix undoes building the artifact path.
///
/// For any path whose file name ends in a `.gbln` extension of a nonempty
/// stem, `strip_spec(build_spec(p, compress)) == p`, whether or not the
/// artifact is compressed. (A file name that is exactly `.gbln` is excluded:
/// there the leading dot is part of the stem, not an extension separator.)
pub proof fn lemma_path_round_trip(p: Seq<char>, compress: bool)
    requires
        ends_with(p, ".gbln"@),
        name_start(p) < p.len() - ".gbln"@.len(),
    ensures
        strip_spec(build_spec(p, compress)) == p,
{
    reveal_strlit(".gbln");
    reveal_strlit(".io.gbln");
    reveal_strlit(".io.gbln.xz");
    let len = p.len() as int;
    assert(p.subrange(len - 5, len) == ".gbln"@);
    assert(p[len - 5] == '.') by {
        assert(p.subrange(len - 5, len)[0] == '.');
    }
    assert(p[len - 4] == 'g') by {
        assert(p.subrange(len - 5, len)[1] == 'g');
    }
    assert(p[len - 3] == 'b') by {
        assert(p.subrange(len - 5, len)[2] == 'b');
    }
    assert(p[len - 2] == 'l') by {
        assert(p.subrange(len - 5, len)[3] == 'l');
    }
    assert(p[len - 1] == 'n') by {
        assert(p.subrange(len - 5, len)[4] == 'n');
    }
    strings::lemma_last_index_of(p, '.');
    let d = last_index_of(p, '.');
    assert(d == len - 5) by {
        assert(d >= len - 5);
        if d > len - 5 {
            assert(p[d] == '.');
        }
    }
    assert(stem_end(p) == len - 5);
    let stem = p.subrange(0, len - 5);
    if compress {
        let q = stem + ".io.gbln.xz"@;
        assert(build_spec(p, compress) == q);
        assert(ends_with(q, ".io.gbln.xz"@)) by {
            assert(q.subrange(q.len() - 11, q.len() as int) =~= ".io.gbln.xz"@);
        }
        assert(q.subrange(0, q.len() - 11) =~= stem);
        assert(strip_spec(q) == stem + ".gbln"@);
        assert(stem + ".gbln"@ =~= p);
    } else {
        let q = stem + ".io.gbln"@;
        assert(build_spec(p, compress) == q);
        assert(!ends_with(q, ".io.gbln.xz"@)) by {
            if ends_with(q, ".io.gbln.xz"@) {
                assert(q.subrange(q.len() - 11, q.len() as int)[10] == 'z');
                assert(q[q.len() - 1] == 'n');
            }
        }
        assert(ends_with(q, ".io.gbln"@)) by {
            assert(q.subrange(q.len() - 8, q.len() as int) =~= ".io.gbln"@);
        }
        assert(q.subrange(0, q.len() - 8) =~= stem);
        assert(strip_spec(q) == stem + ".gbln"@);
        assert(stem + ".gbln"@ =~= p);
    }
}

} // verus!
