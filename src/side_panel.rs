//! Decisions behind the side panel's image buttons: which icon image the
//! panel shows, and when its texture is loaded again or removed.
use vstd::prelude::*;

verus! {

/// The two images the side panel can show.
#[derive(Clone, Copy, Debug, PartialEq, Eq, Structural)]
pub enum Icon {
    Normal,
    Inverted,
}

/// Which of the panel's image buttons were clicked this frame.
#[derive(Clone, Copy, Debug, PartialEq, Eq, Structural)]
pub struct ButtonClicks {
    pub load: bool,
    pub invert: bool,
    pub remove: bool,
}

/// What the host does with the panel's texture after one frame: load an
/// image (first), then remove the texture.
#[derive(Clone, Copy, Debug, PartialEq, Eq, Structural)]
pub struct TextureUpdate {
    /// Whether the inverted image is selected from now on.
    pub inverted: bool,
    /// The image to load into the texture slot, if any.
    pub load: Option<Icon>,
    /// Whether to remove the texture from its slot.
    pub remove: bool,
}

/// The image selected by the inversion flag.
pub open spec fn icon_of(inverted: bool) -> Icon {
    if inverted {
        Icon::Inverted
    } else {
        Icon::Normal
    }
}

/// Applies one frame of button clicks to the inversion flag. "Invert"
/// flips it; "Load" or "Invert" loads the image the flag now selects;
/// "Remove" removes the texture.
pub fn texture_update(inverted: bool, clicks: ButtonClicks) -> (u: TextureUpdate)
    ensures
        u.inverted == (inverted != clicks.invert),
        u.load == (if clicks.load || clicks.invert {
            Some(icon_of(u.inverted))
        } else {
            None
        }),
        u.remove == clicks.remove,
{
    let now = if clicks.invert {
        !inverted
    } else {
        inverted
    };
    let load = if clicks.load || clicks.invert {
        Some(
            if now {
                Icon::Inverted
            } else {
                Icon::Normal
            },
        )
    } else {
        None
    };
    TextureUpdate { inverted: now, load, remove: clicks.remove }
}

} // verus!
