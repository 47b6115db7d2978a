use vstd::prelude::*;
use vstd::string::StrSliceExecFns;
use vstd::string::StringExecFns;

use crate::position::Position;

verus! {

/// A path separator. The watched directory may be given in either native
/// style, so both the slash and the backslash delimit components.
pub open spec fn is_separator(c: char) -> bool {
    c == '/' || c == '\\'
}

/// The index of the dot that separates the file's extension, looking at
/// the first `j` characters of `p`: the last dot of the path, provided no
/// separator follows it (it lies in the file name) and it is neither the
/// path's first character nor right after a separator (a file name that
/// starts with a dot is a hidden file, not an empty stem with an
/// extension).
pub open spec fn extension_dot(p: Seq<char>, j: int) -> Option<int>
    decreases j,
{
    if j <= 0 {
        None
    } else if is_separator(p[j - 1]) {
        None
    } else if p[j - 1] == '.' {
        if j - 1 == 0 || is_separator(p[j - 2]) {
            None
        } else {
            Some(j - 1)
        }
    } else {
        extension_dot(p, j - 1)
    }
}

/// The file extension of a path: what follows the extension dot, if there
/// is one. A file with no extension has none, rather than being an error.
pub open spec fn extension_of(p: Seq<char>) -> Option<Seq<char>> {
    match extension_dot(p, p.len() as int) {
        Some(d) => Some(p.subrange(d + 1, p.len() as int)),
        None => None,
    }
}

/// The extensions that mark a screenshot, compared case-sensitively.
pub open spec fn is_image_extension(e: Seq<char>) -> bool {
    e == "png"@ || e == "jpg"@ || e == "jpeg"@
}

/// The sidecar path of an image path: the same path with the extension
/// replaced by the sidecar extension `geo`.
pub open spec fn sidecar_path_of(p: Seq<char>) -> Seq<char>
    recommends
        extension_of(p) is Some,
{
    match extension_dot(p, p.len() as int) {
        Some(d) => p.subrange(0, d + 1) + "geo"@,
        None => p,
    }
}

/// Where an extension dot is reported, it lies in range and really is a
/// dot.
pub proof fn lemma_extension_dot_in_range(p: Seq<char>, j: int)
    requires
        extension_dot(p, j) matches Some(d),
    ensures
        extension_dot(p, j) matches Some(d) ==> 0 < d < j && p[d] == '.',
    decreases j,
{
    if j <= 0 {
    } else if is_separator(p[j - 1]) {
    } else if p[j - 1] == '.' {
    } else {
        lemma_extension_dot_in_range(p, j - 1);
    }
}

/// Find the extension dot of a path by scanning from the end.
pub fn find_extension_dot(path: &str) -> (r: Option<usize>)
    ensures
        match r {
            Some(d) => extension_dot(path@, path@.len() as int) == Some(d as int),
            None => extension_dot(path@, path@.len() as int) is None,
        },
{
    let len = path.unicode_len();
    let mut j = len;
    while j > 0
        invariant
            j <= len,
            len == path@.len(),
            extension_dot(path@, len as int) == extension_dot(path@, j as int),
        decreases j,
    {
        let c = path.get_char(j - 1);
        if c == '/' || c == '\\' {
            return None;
        }
        if c == '.' {
            if j - 1 == 0 {
                return None;
            }
            let prev = path.get_char(j - 2);
            if prev == '/' || prev == '\\' {
                return None;
            }
            return Some(j - 1);
        }
        j -= 1;
    }
    None
}

/// Character-by-character string equality.
pub fn str_eq(a: &str, b: &str) -> (r: bool)
    ensures
        r == (a@ == b@),
{
    let alen = a.unicode_len();
    let blen = b.unicode_len();
    if alen != blen {
        return false;
    }
    let mut i: usize = 0;
    while i < alen
        invariant
            i <= alen,
            alen == a@.len(),
            alen == b@.len(),
            forall|k: int| 0 <= k < i ==> a@[k] == b@[k],
        decreases alen - i,
    {
        if a.get_char(i) != b.get_char(i) {
            return false;
        }
        i += 1;
    }
    proof {
        assert(a@ =~= b@);
    }
    true
}

/// Whether an extension marks a screenshot.
pub fn image_extension(e: &str) -> (r: bool)
    ensures
        r == is_image_extension(e@),
{
    str_eq(e, "png") || str_eq(e, "jpg") || str_eq(e, "jpeg")
}

/// The sidecar target of a path, when the path names an image: its
/// extension, compared case-sensitively, is one of the image extensions.
/// Anything else — another extension, or none at all — has no target.
pub open spec fn image_target(p: Seq<char>) -> Option<Seq<char>> {
    if extension_of(p) matches Some(e) && is_image_extension(e) {
        Some(sidecar_path_of(p))
    } else {
        None
    }
}

/// Compute the sidecar target of a created path: the same path with the
/// image extension replaced by `geo`, or nothing if the path does not name
/// an image.
pub fn image_sidecar_path(path: &str) -> (r: Option<String>)
    ensures
        match r {
            Some(s) => image_target(path@) == Some(s@),
            None => image_target(path@) is None,
        },
{
    let len = path.unicode_len();
    match find_extension_dot(path) {
        Some(d) => {
            proof {
                lemma_extension_dot_in_range(path@, len as int);
            }
            let ext = path.substring_char(d + 1, len);
            if image_extension(ext) {
                let head = path.substring_char(0, d + 1);
                let target = String::from_str(head).concat("geo");
                Some(target)
            } else {
                None
            }
        },
        None => None,
    }
}

/// What inspecting the metadata of a created path found.
#[derive(Clone, Copy, PartialEq, Eq, Structural, Debug)]
pub enum PathKind {
    /// A regular file.
    File,
    /// Something else — a directory, for instance.
    NotFile,
    /// The metadata could not be read. The path is skipped like any other
    /// non-image; one unreadable file must not stop the watcher.
    Inaccessible,
}

/// One debounced filesystem notification, reduced to what the correlator
/// acts on.
#[derive(Clone, Debug)]
pub enum FileEvent {
    /// A new entry appeared at `path`; `kind` is what inspecting it found.
    Created { path: String, kind: PathKind },
    /// The watcher reported an error: logged and ignored, never fatal.
    WatchError,
    /// Any other notification (modify, remove, rename, ...): not this
    /// system's concern.
    Other,
}

/// The join artifact: the caller writes `position` as the two
/// comma-separated coordinates into the file at `sidecar_path`,
/// overwriting whatever is there.
#[derive(Clone, Debug)]
pub struct SidecarRecord {
    /// Where the sidecar file goes: the image path with its extension
    /// replaced by `geo`.
    pub sidecar_path: String,
    /// The snapshot read from the store when the event arrived.
    pub position: Position,
}

/// The correlator's decision on one event, given the snapshot read from
/// the store at that moment: a Created event on a regular file with an
/// image extension yields the pair (sidecar target, snapshot); everything
/// else — another extension, no extension, a non-file, an unreadable
/// path, a watcher error, a foreign event — yields nothing.
pub open spec fn correlate_spec(e: FileEvent, pos: Position) -> Option<(Seq<char>, Position)> {
    match e {
        FileEvent::Created { path, kind } => {
            if kind == PathKind::File {
                match image_target(path@) {
                    Some(t) => Some((t, pos)),
                    None => None,
                }
            } else {
                None
            }
        },
        _ => None,
    }
}

/// Decide one event: the join of the created image file with the current
/// snapshot, or nothing. No event aborts the correlator: errors and
/// foreign events are simply skipped.
pub fn correlate(e: &FileEvent, pos: Position) -> (r: Option<SidecarRecord>)
    ensures
        match r {
            Some(rec) => correlate_spec(*e, pos) == Some((rec.sidecar_path@, rec.position)),
            None => correlate_spec(*e, pos) is None,
        },
{
    match e {
        FileEvent::Created { path, kind } => {
            if *kind == PathKind::File {
                match image_sidecar_path(path.as_str()) {
                    Some(target) => Some(
                        SidecarRecord { sidecar_path: target, position: pos },
                    ),
                    None => None,
                }
            } else {
                None
            }
        },
        _ => None,
    }
}

/// The extension filter: a Created event produces a sidecar if and only
/// if the path is a regular file whose extension, compared
/// case-sensitively, is one of the image extensions; and the sidecar goes
/// to the path with that extension replaced by `geo`.
pub proof fn lemma_extension_filter(path: String, kind: PathKind, pos: Position)
    ensures
        correlate_spec(FileEvent::Created { path, kind }, pos) is Some <==> (kind
            == PathKind::File && (extension_of(path@) matches Some(e) && is_image_extension(e))),
        correlate_spec(FileEvent::Created { path, kind }, pos) is Some ==> correlate_spec(
            FileEvent::Created { path, kind },
            pos,
        )->Some_0 == (sidecar_path_of(path@), pos),
{
}

/// A Created event on anything but a regular file — a directory, say —
/// produces no sidecar (and, like every decision here, no abort).
pub proof fn lemma_non_file_ignored(path: String, kind: PathKind, pos: Position)
    requires
        kind != PathKind::File,
    ensures
        correlate_spec(FileEvent::Created { path, kind }, pos) is None,
{
}

/// Correlating the same created image twice, with the snapshots the store
/// held at the two moments, targets the same sidecar path both times, and
/// the later decision carries exactly the later snapshot: the sidecar is
/// overwritten with the latest value, never accumulated.
pub proof fn lemma_overwrite_latest(e: FileEvent, first: Position, second: Position)
    requires
        correlate_spec(e, first) is Some,
    ensures
        correlate_spec(e, second) is Some,
        correlate_spec(e, second)->Some_0.0 == correlate_spec(e, first)->Some_0.0,
        correlate_spec(e, second)->Some_0.1 == second,
{
}

} // verus!
