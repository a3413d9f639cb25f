//! What a project on disk is called and where its bundle goes: the hash of
//! its sources, the name of the bundle, the files that count as sources.

use vstd::prelude::*;
use vstd::string::*;
use crate::digest::{
    blake3_hex, hasher_hex, hasher_input, hasher_new, hasher_update, hex_digit, HEX_LEN,
};
use crate::text::{contains, has_infix, joined};

verus! {

/// Directory, relative to the project root, in which bundles are written.
pub const BUILD_DIR: &'static str = ".build";

/// The number of characters of a project hash.
pub const PROJECT_HASH_LEN: usize = 12;

/// The first `n` chunks, one after the other.
pub open spec fn chunks_joined(chunks: Seq<Vec<u8>>, n: nat) -> Seq<u8>
    decreases n,
{
    if n == 0 {
        Seq::empty()
    } else {
        chunks_joined(chunks, (n - 1) as nat) + chunks[n - 1]@
    }
}

/// The hash of the chunks taken as one input, cut to `len` characters; the
/// whole hash where `len` is more than it has.
pub open spec fn content_hash(chunks: Seq<Vec<u8>>, len: nat) -> Seq<char> {
    let hex = blake3_hex(chunks_joined(chunks, chunks.len()));
    if len < hex.len() {
        hex.take(len as int)
    } else {
        hex
    }
}

/// The extensions of the files that a project's hash is made of.
pub fn project_extensions() -> (extensions: Vec<&'static str>)
    ensures
        extensions@.len() == 3,
        extensions@[0]@ == ".ts"@,
        extensions@[1]@ == ".json"@,
        extensions@[2]@ == ".js"@,
{
    let mut extensions: Vec<&'static str> = Vec::new();
    extensions.push(".ts");
    extensions.push(".json");
    extensions.push(".js");
    extensions
}

/// The hash of the contents of a list of files, in the order of the list,
/// cut to `len` characters: digits of lower-case hexadecimal.
pub fn calc_hash_for_files(contents: &Vec<Vec<u8>>, len: usize) -> (hash: String)
    ensures
        hash@ == content_hash(contents@, len as nat),
        hash@.len() == if len < HEX_LEN {
            len
        } else {
            HEX_LEN
        },
        forall|i: int| 0 <= i < hash@.len() ==> hex_digit(#[trigger] hash@[i]),
{
    let mut hasher = hasher_new();
    let mut i: usize = 0;
    while i < contents.len()
        invariant
            i <= contents.len(),
            hasher_input(hasher) == chunks_joined(contents@, i as nat),
        decreases contents.len() - i,
    {
        hasher_update(&mut hasher, &contents[i]);
        i = i + 1;
    }
    let hex = hasher_hex(&hasher);
    if len < HEX_LEN {
        hex.as_str().substring_char(0, len).to_owned()
    } else {
        hex
    }
}

/// The hash of a project: that of the contents of its source files, in the
/// order of their paths, cut to `PROJECT_HASH_LEN` characters.
pub fn calc_project_hash(contents: &Vec<Vec<u8>>) -> (hash: String)
    ensures
        hash@ == content_hash(contents@, PROJECT_HASH_LEN as nat),
        hash@.len() == PROJECT_HASH_LEN,
        forall|i: int| 0 <= i < hash@.len() ==> hex_digit(#[trigger] hash@[i]),
{
    calc_hash_for_files(contents, PROJECT_HASH_LEN)
}

/// The pattern that finds, below `dir`, the files that end in `extension`.
pub fn glob_pattern(dir: &str, extension: &str) -> (pattern: String)
    ensures
        pattern@ == dir@ + "/**/*"@ + extension@,
{
    joined(dir, "/**/*").concat(extension)
}

/// Whether a path lies in the directory of the bundles, and so is no
/// source.
pub fn is_build_output(path: &str) -> (inside: bool)
    ensures
        inside == has_infix(path@, ".build/"@),
{
    contains(path, ".build/")
}

/// The paths of `found` that are sources, in their order: those that do
/// not lie in the directory of the bundles.
pub fn source_files(found: Vec<String>) -> (sources: Vec<String>)
    ensures
        sources@.map_values(|p: String| p@) == found@.map_values(|p: String| p@).filter(
            |p: Seq<char>| !has_infix(p, ".build/"@),
        ),
{
    let ghost paths = found@.map_values(|p: String| p@);
    let ghost keep = |p: Seq<char>| !has_infix(p, ".build/"@);
    let mut sources: Vec<String> = Vec::new();
    let mut i: usize = 0;
    while i < found.len()
        invariant
            i <= found.len(),
            paths == found@.map_values(|p: String| p@),
            keep == |p: Seq<char>| !has_infix(p, ".build/"@),
            sources@.map_values(|p: String| p@) == paths.take(i as int).filter(keep),
        decreases found.len() - i,
    {
        proof {
            reveal(Seq::filter);
            assert(paths.take(i + 1).drop_last() == paths.take(i as int));
            assert(paths.take(i + 1).last() == found@[i as int]@);
        }
        if !is_build_output(found[i].as_str()) {
            sources.push(found[i].clone());
            assert(sources@.map_values(|p: String| p@) =~= paths.take(i as int).filter(keep).push(
                paths[i as int],
            ));
        }
        assert(sources@.map_values(|p: String| p@) == paths.take(i + 1).filter(keep));
        i = i + 1;
    }
    assert(paths.take(found.len() as int) == paths);
    sources
}

/// What `str::replace` makes of `text` when each `from` is to become `to`.
pub uninterp spec fn replaced(text: Seq<char>, from: Seq<char>, to: Seq<char>) -> Seq<char>;

/// `str::replace`: `text` with each occurrence of `from`, found from the
/// left and not overlapping, replaced by `to`.
#[verifier::external_body]
pub(crate) fn replace_text(text: &str, from: &str, to: &str) -> (changed: String)
    ensures
        changed@ == replaced(text@, from@, to@),
{
    text.replace(from, to)
}

/// The project file that belongs to a bundle: the bundle's name with
/// `.yml` in place of `.mjs`.
pub fn config_filename(bundle: &str) -> (filename: String)
    ensures
        filename@ == replaced(bundle@, ".mjs"@, ".yml"@),
{
    replace_text(bundle, ".mjs", ".yml")
}

/// The file that the bundle of the project with this hash is written to.
pub fn build_filename(hash: &str) -> (filename: String)
    ensures
        filename@ == BUILD_DIR@ + "/"@ + hash@ + ".js"@,
{
    joined(BUILD_DIR, "/").concat(hash).concat(".js")
}

} // verus!
