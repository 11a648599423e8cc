//! Where things live: stored files on disk and the site's own links.

use vstd::prelude::*;
use crate::config::Features;
use crate::text::{join2, join3, owned, same_text};

verus! {

/// The path of a stored file: `<root>/<filename>`.
pub open spec fn file_path(root: Seq<char>, filename: Seq<char>) -> Seq<char> {
    root + "/"@ + filename
}

/// The path of the stored file `filename` inside the storage folder `root`.
pub fn files_path(root: &str, filename: &str) -> (r: String)
    ensures
        r@ == file_path(root@, filename@),
{
    join3(root, "/", filename)
}

/// The site-relative link to `path`: unchanged, or moved under `/legacy` when a separate
/// client serves the site (where `/` becomes `/legacy` itself).
pub open spec fn site_link(features: Features, path: Seq<char>) -> Seq<char> {
    if features.custom_client {
        if path == "/"@ {
            "/legacy"@
        } else {
            "/legacy"@ + path
        }
    } else {
        path
    }
}

/// The link to `path` on this site, as the built-in pages write it.
pub fn link_path(features: &Features, path: &str) -> (r: String)
    ensures
        r@ == site_link(*features, path@),
{
    if features.custom_client {
        if same_text(path, "/") {
            return owned("/legacy");
        }
        return join2("/legacy", path);
    }
    owned(path)
}

} // verus!
