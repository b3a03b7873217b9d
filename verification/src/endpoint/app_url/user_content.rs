//! Paths under which uploaded user content is served.

use vstd::prelude::*;

verus! {

/// Root of all user content.
pub const ROOT: &'static str = "usercontent/";

/// Images, below [`ROOT`].
pub const IMAGES: &'static str = "img/";

/// The route pattern that serves one image: `/`, [`ROOT`], [`IMAGES`] and
/// the `:id` parameter.
pub fn image_route() -> (r: String)
    ensures
        r@ == "/"@ + ROOT@ + IMAGES@ + ":id"@,
{
    let mut s = String::from_str("/");
    s.append(ROOT);
    s.append(IMAGES);
    s.append(":id");
    s
}

} // verus!
