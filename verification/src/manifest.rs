//! Manifest patching: the temporary sibling path and the patched text.
//!
//! When patch mode is on, the launcher never edits the mod manifest in
//! place. It derives a sibling path by replacing the manifest's final
//! extension with the fixed temporary marker, and writes there the original
//! text followed by one native-module entry.

use vstd::prelude::*;
use vstd::string::StrSliceExecFns;
use vstd::string::StringExecFns;

verus! {

/// A path separator character; both directory-separator styles count.
pub open spec fn is_sep(c: char) -> bool {
    c == '/' || c == '\\'
}

/// Index of the first character of the path's final component: one past the
/// last separator, or 0 when the path holds no separator.
pub open spec fn file_start(p: Seq<char>) -> int
    decreases p.len(),
{
    if p.len() == 0 {
        0
    } else if is_sep(p[p.len() - 1]) {
        p.len() as int
    } else {
        file_start(p.take(p.len() - 1))
    }
}

/// Index of the last '.' anywhere in `p`, or -1 when there is none.
pub open spec fn last_dot(p: Seq<char>) -> int
    decreases p.len(),
{
    if p.len() == 0 {
        -1
    } else if p[p.len() - 1] == '.' {
        p.len() - 1
    } else {
        last_dot(p.take(p.len() - 1))
    }
}

/// Whether the final component of `p` carries an extension: a '.' strictly
/// after the component's first character.
pub open spec fn has_extension(p: Seq<char>) -> bool {
    last_dot(p) >= file_start(p) + 1
}

/// The fixed marker that replaces the manifest's extension.
pub open spec fn temp_suffix() -> Seq<char> {
    ".temp.me3"@
}

/// The sibling path at which the patched manifest copy is written: the
/// manifest path with its final extension replaced by the temporary marker,
/// or with the marker appended when it has no extension.
pub open spec fn spec_temp_path(p: Seq<char>) -> Seq<char> {
    if has_extension(p) {
        p.take(last_dot(p)) + temp_suffix()
    } else {
        p + temp_suffix()
    }
}

/// The native-module entry appended in patch mode, verbatim.
pub open spec fn patch_fragment() -> Seq<char> {
    "\n[[natives]]\nid = \"OnlineFix\"\npath = \"OnlineFix/OnlineFix64.dll\"\nload_early = true\n"@
}

/// The text of the temporary manifest: the original text, a newline
/// separator, then the fixed native-module fragment.
pub open spec fn spec_patched(original: Seq<char>) -> Seq<char> {
    original + "\n"@ + patch_fragment()
}

proof fn lemma_file_start_bounds(p: Seq<char>)
    ensures
        0 <= file_start(p) <= p.len(),
    decreases p.len(),
{
    if p.len() == 0 {
    } else if is_sep(p[p.len() - 1]) {
    } else {
        lemma_file_start_bounds(p.take(p.len() - 1));
    }
}

proof fn lemma_last_dot_bound(p: Seq<char>)
    ensures
        -1 <= last_dot(p) < p.len(),
    decreases p.len(),
{
    if p.len() == 0 {
    } else if p[p.len() - 1] == '.' {
    } else {
        lemma_last_dot_bound(p.take(p.len() - 1));
    }
}

/// Past the last dot there is no further dot.
proof fn lemma_no_dot_after(p: Seq<char>, j: int)
    requires
        last_dot(p) < j < p.len(),
    ensures
        p[j] != '.',
    decreases p.len(),
{
    if p.len() == 0 {
    } else if p[p.len() - 1] == '.' {
    } else {
        if j == p.len() - 1 {
        } else {
            lemma_last_dot_bound(p);
            lemma_no_dot_after(p.take(p.len() - 1), j);
            assert(p.take(p.len() - 1)[j] == p[j]);
        }
    }
}

fn sep_at(p: &str, j: usize) -> (b: bool)
    requires
        j < p@.len(),
    ensures
        b == is_sep(p@[j as int]),
{
    let c = p.get_char(j);
    c == '/' || c == '\\'
}

/// Derives the temporary manifest path from the manifest path.
pub fn derive_temp_path(p: &str) -> (r: String)
    ensures
        r@ == spec_temp_path(p@),
{
    let n = p.unicode_len();
    let mut i: usize = n;
    let mut dot: usize = n;
    proof {
        assert(p@.take(n as int) =~= p@);
    }
    while i > 0 && !sep_at(p, i - 1)
        invariant
            i <= n,
            n == p@.len(),
            file_start(p@) == file_start(p@.take(i as int)),
            dot <= n,
            dot == n ==> last_dot(p@) == last_dot(p@.take(i as int)),
            dot < n ==> i <= dot && last_dot(p@) == dot,
        decreases i,
    {
        let c = p.get_char(i - 1);
        proof {
            assert(p@.take(i as int).len() == i);
            assert(p@.take(i as int)[i - 1] == p@[i - 1]);
            assert(p@.take(i as int).take(i - 1) =~= p@.take(i - 1));
        }
        if c == '.' && dot == n {
            dot = i - 1;
            proof {
                assert(last_dot(p@.take(i as int)) == i - 1);
            }
        } else {
            proof {
                if dot == n {
                    assert(last_dot(p@.take(i as int)) == last_dot(p@.take(i - 1)));
                }
            }
        }
        i = i - 1;
        proof {
            assert(file_start(p@.take(i + 1)) == file_start(p@.take(i as int)));
        }
    }
    proof {
        if i > 0 {
            assert(p@.take(i as int).len() == i);
            assert(p@.take(i as int)[i - 1] == p@[i - 1]);
            assert(file_start(p@.take(i as int)) == i);
        } else {
            assert(p@.take(0).len() == 0);
        }
        assert(file_start(p@) == i);
        if dot == n {
            lemma_last_dot_bound(p@.take(i as int));
            assert(last_dot(p@) < i);
            assert(!has_extension(p@));
        }
    }
    if dot < n && dot > i {
        let stem = p.substring_char(0, dot);
        let mut out = stem.to_owned();
        out.append(".temp.me3");
        proof {
            assert(stem@ =~= p@.take(dot as int));
            assert(has_extension(p@));
        }
        out
    } else {
        let mut out = p.to_owned();
        out.append(".temp.me3");
        proof {
            if dot < n {
                assert(dot == i);
                assert(!has_extension(p@));
            }
        }
        out
    }
}

/// The patched-manifest path never coincides with the manifest path itself,
/// so writing the temporary copy leaves the original file untouched.
pub proof fn lemma_temp_path_differs(p: Seq<char>)
    ensures
        spec_temp_path(p) != p,
{
    reveal_strlit(".temp.me3");
    if has_extension(p) {
        let d = last_dot(p);
        lemma_last_dot_bound(p);
        lemma_file_start_bounds(p);
        if spec_temp_path(p) == p {
            assert(p.take(d).len() == d);
            assert(p.len() == d + 9);
            assert(spec_temp_path(p)[d + 5] == temp_suffix()[5]);
            assert(temp_suffix()[5] == '.');
            lemma_no_dot_after(p, d + 5);
            assert(p[d + 5] != '.');
            assert(false);
        }
    } else {
        assert(spec_temp_path(p).len() == p.len() + 9);
    }
}

/// Returns the native-module fragment appended in patch mode.
pub fn patch_fragment_text() -> (r: &'static str)
    ensures
        r@ == patch_fragment(),
{
    "\n[[natives]]\nid = \"OnlineFix\"\npath = \"OnlineFix/OnlineFix64.dll\"\nload_early = true\n"
}

/// Builds the text of the temporary manifest from the original text.
pub fn patched_content(original: &str) -> (r: String)
    ensures
        r@ == spec_patched(original@),
{
    let mut out = original.to_owned();
    out.append("\n");
    out.append(patch_fragment_text());
    out
}

} // verus!
