//! Rules for listing and serving workspace files: which directories a
//! listing skips, how listed paths are written, and the content type a file
//! is served with.
use vstd::prelude::*;

use vstd::utf8::{decode_utf8, valid_utf8};

use crate::text::{chars_of, lower_ascii, lower_ascii_chars, string_of, utf8_string};

verus! {

/// The extension of the last component of a path, as `std::path::Path` reads it.
pub uninterp spec fn extension_of(path: Seq<char>) -> Option<Seq<char>>;

/// Relies on `std::path::Path::extension`: the part of the file name after
/// its last dot, if it has one that does not start the name.
#[verifier::external_body]
fn path_extension(path: &str) -> (r: Option<String>)
    ensures
        match r {
            Some(e) => extension_of(path@) == Some(e@),
            None => extension_of(path@) is None,
        },
{
    match std::path::Path::new(path).extension() {
        Some(e) => e.to_str().map(String::from),
        None => None,
    }
}

/// Whether a workspace listing leaves out the directory called `name`.
pub open spec fn is_skipped_dir(name: Seq<char>) -> bool {
    name == ".git"@ || name == "node_modules"@ || name == "dist"@ || name == "target"@ || name
        == "release-artifacts"@
}

/// Whether a workspace listing leaves out the directory called `name`
/// (version control data, dependencies and build output).
pub fn should_skip_dir(name: &str) -> (r: bool)
    ensures
        r == is_skipped_dir(name@),
{
    let n = name.to_owned();
    n == ".git".to_owned() || n == "node_modules".to_owned() || n == "dist".to_owned() || n
        == "target".to_owned() || n == "release-artifacts".to_owned()
}

/// `c`, with a backslash turned into a slash.
pub open spec fn slash(c: char) -> char {
    if c == '\\' {
        '/'
    } else {
        c
    }
}

/// A relative path written with forward slashes only.
pub fn normalize_git_path(path: &str) -> (r: String)
    ensures
        r@ == path@.map_values(|c: char| slash(c)),
{
    let v = chars_of(path);
    let mut out: Vec<char> = Vec::new();
    let mut i: usize = 0;
    while i < v.len()
        invariant
            v@ == path@,
            i <= v@.len(),
            out@ == v@.subrange(0, i as int).map_values(|c: char| slash(c)),
        decreases v@.len() - i,
    {
        let c = if v[i] == '\\' {
            '/'
        } else {
            v[i]
        };
        out.push(c);
        i = i + 1;
        assert(out@ =~= v@.subrange(0, i as int).map_values(|c: char| slash(c)));
    }
    assert(v@.subrange(0, v@.len() as int) =~= v@);
    string_of(&out)
}

/// The content type for a lower-case file extension.
pub open spec fn content_type_for_ext(e: Seq<char>) -> Seq<char> {
    if e == "png"@ {
        "image/png"@
    } else if e == "jpg"@ || e == "jpeg"@ {
        "image/jpeg"@
    } else if e == "gif"@ {
        "image/gif"@
    } else if e == "webp"@ {
        "image/webp"@
    } else if e == "bmp"@ {
        "image/bmp"@
    } else if e == "svg"@ {
        "image/svg+xml"@
    } else if e == "txt"@ || e == "md"@ || e == "json"@ || e == "toml"@ || e == "yaml"@ || e
        == "yml"@ {
        "text/plain; charset=utf-8"@
    } else {
        "application/octet-stream"@
    }
}

/// The content type a file is served with, by its extension in any ASCII case.
pub open spec fn content_type_of(path: Seq<char>) -> Seq<char> {
    match extension_of(path) {
        Some(e) => content_type_for_ext(lower_ascii(e)),
        None => "application/octet-stream"@,
    }
}

/// The content type for a lower-case extension.
pub fn content_type_for_extension(ext: &str) -> (r: &'static str)
    ensures
        r@ == content_type_for_ext(ext@),
{
    let e = ext.to_owned();
    if e == "png".to_owned() {
        "image/png"
    } else if e == "jpg".to_owned() || e == "jpeg".to_owned() {
        "image/jpeg"
    } else if e == "gif".to_owned() {
        "image/gif"
    } else if e == "webp".to_owned() {
        "image/webp"
    } else if e == "bmp".to_owned() {
        "image/bmp"
    } else if e == "svg".to_owned() {
        "image/svg+xml"
    } else if e == "txt".to_owned() || e == "md".to_owned() || e == "json".to_owned() || e
        == "toml".to_owned() || e == "yaml".to_owned() || e == "yml".to_owned() {
        "text/plain; charset=utf-8"
    } else {
        "application/octet-stream"
    }
}

/// The content type a file is served with, from the extension of its path.
pub fn content_type_for_path(path: &str) -> (r: &'static str)
    ensures
        r@ == content_type_of(path@),
{
    match path_extension(path) {
        Some(e) => {
            let lower = string_of(&lower_ascii_chars(&chars_of(e.as_str())));
            content_type_for_extension(lower.as_str())
        },
        None => "application/octet-stream",
    }
}

/// Whether `path` lies under `root`, comparing whole path components.
pub uninterp spec fn path_under(path: Seq<char>, root: Seq<char>) -> bool;

/// Relies on `std::path::Path::starts_with`: whether `root` is a prefix of
/// `path` by whole components.
#[verifier::external_body]
fn path_starts_with(path: &str, root: &str) -> (r: bool)
    ensures
        r == path_under(path@, root@),
{
    std::path::Path::new(path).starts_with(root)
}

/// Refuses a resolved file path outside the resolved workspace root, so
/// that no request escapes the workspace through `..` or a link.
pub fn check_within_root(canonical_root: &str, canonical_path: &str) -> (r: Result<(), String>)
    ensures
        r is Ok <==> path_under(canonical_path@, canonical_root@),
        r matches Err(e) ==> e@ == "Invalid file path"@,
{
    if path_starts_with(canonical_path, canonical_root) {
        Ok(())
    } else {
        Err("Invalid file path".to_owned())
    }
}

/// The most bytes of a workspace file that a read returns.
pub const MAX_WORKSPACE_FILE_BYTES: usize = 400000;

/// A workspace file as a read returns it.
pub struct WorkspaceFileResponse {
    /// The text, cut to the byte limit.
    pub content: String,
    /// Whether the file was longer than the limit.
    pub truncated: bool,
}

/// The bytes of a file that a read keeps.
pub open spec fn kept_bytes(b: Seq<u8>) -> Seq<u8> {
    if b.len() > MAX_WORKSPACE_FILE_BYTES {
        b.subrange(0, MAX_WORKSPACE_FILE_BYTES as int)
    } else {
        b
    }
}

/// Turns the bytes read from a file (the limit and one more at most) into
/// the response: cut to the limit, and refused unless they are UTF-8.
pub fn workspace_file_response(bytes: Vec<u8>) -> (r: Result<WorkspaceFileResponse, String>)
    ensures
        match r {
            Ok(f) => valid_utf8(kept_bytes(bytes@)) && f.content@ == decode_utf8(kept_bytes(bytes@))
                && f.truncated == (bytes@.len() > MAX_WORKSPACE_FILE_BYTES),
            Err(e) => !valid_utf8(kept_bytes(bytes@)) && e@ == "File is not valid UTF-8"@,
        },
{
    let mut buffer = bytes;
    let truncated = buffer.len() > MAX_WORKSPACE_FILE_BYTES;
    if truncated {
        buffer.truncate(MAX_WORKSPACE_FILE_BYTES);
    }
    match utf8_string(buffer) {
        Some(content) => Ok(WorkspaceFileResponse { content, truncated }),
        None => Err("File is not valid UTF-8".to_owned()),
    }
}

} // verus!
