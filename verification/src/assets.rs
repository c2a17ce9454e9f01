//! Static assets: the registry of the assets that can be served, the file of
//! each under the asset root, and how long a sanitized asset stays cached.

use crate::text::same_text;
use vstd::prelude::*;
use vstd::string::StringExecFns;

verus! {

/// The assets that can be served: the logical name of each, and the path of
/// its file below the asset root. Where a name stands twice, the later entry
/// counts.
pub const ASSETS: [(&'static str, &'static str); 1] = [("changelogs", "CHANGELOGS.md")];

/// How long a sanitized asset stays in the cache, counted from the moment it
/// was put there, in seconds.
pub const CACHE_SECONDS: u64 = 300;

/// The path that a list of assets gives for a name.
pub open spec fn path_among(assets: Seq<(&'static str, &'static str)>, asset: Seq<char>) -> Option<
    Seq<char>,
>
    decreases assets.len(),
{
    if assets.len() == 0 {
        None
    } else if assets.last().0@ == asset {
        Some(assets.last().1@)
    } else {
        path_among(assets.drop_last(), asset)
    }
}

/// The path of a registered asset; `None` for a name that is not registered.
pub open spec fn registered_path(asset: Seq<char>) -> Option<Seq<char>> {
    path_among(ASSETS@, asset)
}

/// The file of an asset: its path below the root, with `/` between the two.
pub open spec fn file_name(root: Seq<char>, path: Seq<char>) -> Seq<char> {
    root + seq!['/'] + path
}

/// Looks an asset up in the registry.
pub fn asset_path(asset: &str) -> (path: Option<&'static str>)
    ensures
        match path {
            Some(path) => registered_path(asset@) == Some(path@),
            None => registered_path(asset@) is None,
        },
{
    let mut i: usize = ASSETS.len();
    assert(ASSETS@.take(ASSETS@.len() as int) == ASSETS@);
    while i > 0
        invariant
            i <= ASSETS@.len(),
            registered_path(asset@) == path_among(ASSETS@.take(i as int), asset@),
        decreases i,
    {
        i = i - 1;
        if same_text(ASSETS[i].0, asset) {
            return Some(ASSETS[i].1);
        }
    }
    None
}

/// The file of an asset below a root.
pub fn asset_file(root: &str, path: &str) -> (file: String)
    ensures
        file@ == file_name(root@, path@),
{
    let mut file = String::from_str(root);
    file.append("/");
    file.append(path);
    proof {
        reveal_strlit("/");
    }
    file
}

} // verus!
