//! Which asset of the user interface a request path asks for.

use vstd::prelude::*;
use crate::text::ends_with;
use crate::text::is_suffix;
use crate::text::same_text;

verus! {

/// An asset of the bundled user interface.
#[derive(Clone, Copy, PartialEq, Eq, Structural, Debug)]
pub enum Asset {
    /// The page itself.
    Index,
    /// The page's script.
    Script,
    /// The page's style sheet.
    Style,
    /// The page's icon.
    Icon,
    /// Nothing: the path names no asset.
    Missing,
}

/// The asset that a path asks for: the page for the empty path and for `/`,
/// else the script, the style sheet or the icon by the path's ending, the
/// first that fits.
pub open spec fn asset_of(path: Seq<char>) -> Asset {
    if path == ""@ || path == "/"@ {
        Asset::Index
    } else if is_suffix("js"@, path) {
        Asset::Script
    } else if is_suffix("css"@, path) {
        Asset::Style
    } else if is_suffix("vite.svg"@, path) {
        Asset::Icon
    } else {
        Asset::Missing
    }
}

/// The media type an asset is served with.
pub open spec fn media_type_of(asset: Asset) -> Option<Seq<char>> {
    match asset {
        Asset::Index => Some("text/html; charset=utf-8"@),
        Asset::Script => Some("application/javascript"@),
        Asset::Style => Some("text/css"@),
        Asset::Icon => Some("application/octet-stream"@),
        Asset::Missing => None,
    }
}

/// The asset that a request path asks for. A path that is no text asks for
/// nothing.
pub fn asset_for(path: Option<&str>) -> (asset: Asset)
    ensures
        asset == match path {
            Some(p) => asset_of(p@),
            None => Asset::Missing,
        },
{
    match path {
        None => Asset::Missing,
        Some(p) => {
            if same_text(p, "") || same_text(p, "/") {
                Asset::Index
            } else if ends_with(p, "js") {
                Asset::Script
            } else if ends_with(p, "css") {
                Asset::Style
            } else if ends_with(p, "vite.svg") {
                Asset::Icon
            } else {
                Asset::Missing
            }
        },
    }
}

impl Asset {
    /// The media type this asset is served with; none for a missing one.
    pub fn media_type(&self) -> (media: Option<&'static str>)
        ensures
            match media {
                Some(m) => media_type_of(*self) == Some(m@),
                None => media_type_of(*self) is None,
            },
    {
        match self {
            Asset::Index => Some("text/html; charset=utf-8"),
            Asset::Script => Some("application/javascript"),
            Asset::Style => Some("text/css"),
            Asset::Icon => Some("application/octet-stream"),
            Asset::Missing => None,
        }
    }

    /// The HTTP status this asset is served with.
    pub fn status(&self) -> (code: u16)
        ensures
            code == (if *self == Asset::Missing {
                404int
            } else {
                200int
            }),
    {
        match self {
            Asset::Missing => 404,
            _ => 200,
        }
    }
}

} // verus!
