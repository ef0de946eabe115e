use vstd::prelude::*;

verus! {

/// The bytes of a rendered HTML page.
#[derive(Debug)]
pub struct RenderResult(pub Vec<u8>);

/// The static asset served under a name: the active theme's own when it has
/// one, else the built-in one, else none.
///
/// `from_theme` is what the active theme offers under the name (none when no
/// theme is active or it has no such asset); `builtin` is what the host's
/// built-in asset set holds under it.
pub fn get_static<A>(from_theme: Option<A>, builtin: Option<A>) -> (r: Option<A>)
    ensures
        from_theme is Some ==> r == from_theme,
        from_theme is None ==> r == builtin,
{
    match from_theme {
        Some(asset) => Some(asset),
        None => builtin,
    }
}

} // verus!
