//! The export of the sources into one text file: which files it covers, and
//! how each file is framed.

use crate::text::same_text;
use crate::tooling::{is_skipped_name, slashed, to_forward_slash};
use vstd::prelude::*;
use vstd::string::StringSliceAdditionalSpecFns;

verus! {

/// The extensions of the files that an export covers.
pub open spec fn is_exported(ext: Seq<char>) -> bool {
    ext == "md"@ || ext == "rs"@ || ext == "toml"@ || ext == "html"@ || ext == "css"@ || ext
        == "js"@ || ext == "ts"@ || ext == "json"@ || ext == "ron"@
}

/// Whether a file with the given extension, in lower case, is covered by an
/// export.
pub fn is_exported_ext(ext: &str) -> (r: bool)
    ensures
        r == is_exported(ext@),
{
    same_text(ext, "md") || same_text(ext, "rs") || same_text(ext, "toml") || same_text(
        ext,
        "html",
    ) || same_text(ext, "css") || same_text(ext, "js") || same_text(ext, "ts") || same_text(
        ext,
        "json",
    ) || same_text(ext, "ron")
}

/// Whether a path with the given components lies in a directory that an
/// export passes over.
pub fn in_skipped_dir(components: &Vec<String>) -> (r: bool)
    ensures
        r == exists|i: int| 0 <= i < components@.len() && is_skipped_name(#[trigger] components@[i]@),
{
    let mut i: usize = 0;
    while i < components.len()
        invariant
            0 <= i <= components@.len(),
            forall|j: int| 0 <= j < i ==> !is_skipped_name(#[trigger] components@[j]@),
        decreases components@.len() - i,
    {
        if crate::tooling::is_skipped_dir(Some(components[i].as_str())) {
            return true;
        }
        i += 1;
    }
    false
}

/// The bytes that frame one file in an export: a fence with the path, the
/// opening of a fence in the file's language, the content, a line break
/// where the content does not end in one, the closing of the fence, and an
/// empty line.
pub open spec fn framed(rel: Seq<u8>, lang: Seq<u8>, content: Seq<u8>) -> Seq<u8> {
    "```path\n".spec_bytes() + rel + "\n```\n```".spec_bytes() + lang + "\n".spec_bytes() + content
        + (if content.len() > 0 && content.last() == 10u8 {
        Seq::<u8>::empty()
    } else {
        "\n".spec_bytes()
    }) + "```\n\n".spec_bytes()
}

fn extend(out: &mut Vec<u8>, bytes: &[u8])
    ensures
        final(out)@ == old(out)@ + bytes@,
{
    let mut i: usize = 0;
    while i < bytes.len()
        invariant
            0 <= i <= bytes@.len(),
            out@ == old(out)@ + bytes@.take(i as int),
        decreases bytes@.len() - i,
    {
        out.push(bytes[i]);
        proof {
            assert(bytes@.take(i as int + 1) =~= bytes@.take(i as int).push(bytes@[i as int]));
        }
        i += 1;
    }
    proof {
        assert(bytes@.take(i as int) =~= bytes@);
    }
}

/// Frames one file for an export: `rel` is its path with forward slashes,
/// `lang` the language of its fence, `content` what it holds.
pub fn export_block(rel: &str, lang: &str, content: &[u8]) -> (r: Vec<u8>)
    ensures
        r@ == framed(rel.spec_bytes(), lang.spec_bytes(), content@),
{
    let mut out: Vec<u8> = Vec::new();
    extend(&mut out, "```path\n".as_bytes());
    extend(&mut out, rel.as_bytes());
    extend(&mut out, "\n```\n```".as_bytes());
    extend(&mut out, lang.as_bytes());
    extend(&mut out, "\n".as_bytes());
    extend(&mut out, content);
    if !(content.len() > 0 && content[content.len() - 1] == 10u8) {
        extend(&mut out, "\n".as_bytes());
    }
    extend(&mut out, "```\n\n".as_bytes());
    proof {
        assert(out@ =~= framed(rel.spec_bytes(), lang.spec_bytes(), content@));
    }
    out
}

/// Whether `a` comes before `b`, or is `b`, in the order of texts:
/// character by character, a text before every text that it begins.
pub open spec fn precedes(a: Seq<char>, b: Seq<char>) -> bool
    decreases a.len(),
{
    if a.len() == 0 {
        true
    } else if b.len() == 0 {
        false
    } else if a[0] != b[0] {
        (a[0] as u32) < (b[0] as u32)
    } else {
        precedes(a.skip(1), b.skip(1))
    }
}

/// The texts of a list of paths.
pub open spec fn texts(paths: Seq<String>) -> Seq<Seq<char>> {
    paths.map_values(|path: String| path@)
}

/// Whether `sorted` holds the paths of `paths`, each as often, in the order
/// of their forms with forward slashes.
pub open spec fn is_sorted_export(paths: Seq<String>, sorted: Seq<String>) -> bool {
    &&& texts(sorted).to_multiset() == texts(paths).to_multiset()
    &&& forall|i: int, j: int|
        0 <= i < j < sorted.len() ==> precedes(
            slashed(#[trigger] sorted[i]@),
            slashed(#[trigger] sorted[j]@),
        )
}

/// Calls `sort_by` of slices, which puts the elements in the order that the
/// comparison gives and keeps all of them. The comparison is `cmp` of
/// `String` on the forms with forward slashes, which orders texts character
/// by character.
#[verifier::external_body]
fn sort_by_slashed(paths: &mut Vec<String>)
    ensures
        is_sorted_export(old(paths)@, final(paths)@),
{
    paths.sort_by(|a, b| to_forward_slash(a).cmp(&to_forward_slash(b)));
}

/// Puts the files of an export in their order, which is that of their paths
/// written with forward slashes, so that an export of the same files is
/// always the same.
pub fn export_order(paths: Vec<String>) -> (r: Vec<String>)
    ensures
        is_sorted_export(paths@, r@),
{
    let mut sorted = paths;
    sort_by_slashed(&mut sorted);
    sorted
}

} // verus!
