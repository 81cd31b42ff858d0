//! Classification of the preload configuration value.
use vstd::prelude::*;
use vstd::utf8::encode_utf8;

verus! {

/// The byte that separates the components of a path (`/`).
pub const PATH_SEPARATOR: u8 = 47;

/// The file name of a dependency manifest.
pub open spec fn manifest_file_name() -> Seq<u8> {
    // "Gemfile"
    seq![71u8, 101u8, 109u8, 102u8, 105u8, 108u8, 101u8]
}

/// A path names a dependency manifest when its last component is the manifest
/// file name; any other path names a single source file.
pub open spec fn names_manifest(path: Seq<u8>) -> bool {
    let n = manifest_file_name();
    &&& path.len() >= n.len()
    &&& path.subrange(path.len() - n.len(), path.len() as int) == n
    &&& (path.len() == n.len() || path[path.len() - n.len() - 1] == PATH_SEPARATOR)
}

/// Whether the configured preload path designates a dependency manifest
/// (whose resolution yields the files to load) rather than one source file.
pub fn is_manifest_path(path: &str) -> (r: bool)
    ensures
        r == names_manifest(encode_utf8(path@)),
{
    let b = path.as_bytes();
    let name: [u8; 7] = [71, 101, 109, 102, 105, 108, 101];
    assert(name@ == manifest_file_name());
    if b.len() < 7 {
        return false;
    }
    let start: usize = b.len() - 7;
    let mut i: usize = 0;
    while i < 7
        invariant
            b@ == encode_utf8(path@),
            start + 7 == b@.len(),
            b@.len() <= usize::MAX,
            name@ == manifest_file_name(),
            0 <= i <= 7,
            forall|k: int| 0 <= k < i ==> b@[start + k] == name@[k],
        decreases 7 - i,
    {
        if b[start + i] != name[i] {
            assert(b@.subrange(start as int, b@.len() as int)[i as int] != manifest_file_name()[i as int]);
            return false;
        }
        i = i + 1;
    }
    assert(b@.subrange(start as int, b@.len() as int) =~= manifest_file_name());
    start == 0 || b[start - 1] == PATH_SEPARATOR
}

} // verus!
