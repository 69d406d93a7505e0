//! The label of the play button.

use vstd::prelude::*;

verus! {

/// The label that offers to play.
pub const PLAY_STOCK: &'static str = "gtk-media-play";

/// The label that offers to pause.
pub const PAUSE_STOCK: &'static str = "gtk-media-pause";

/// `==` on two string slices tells whether they hold the same characters.
#[verifier::external_body]
fn same_text(a: &str, b: &str) -> (same: bool)
    ensures
        same == (a@ == b@),
{
    a == b
}

/// What a click on the play button leads to.
#[derive(Clone, Copy, Debug, PartialEq, Eq)]
pub struct Toggle {
    /// The button's new label.
    pub label: &'static str,
    /// Whether the cover of the selected track is to be shown.
    pub show_cover: bool,
}

/// A click on the play button. A button that offers to play turns into one
/// that offers to pause, and the cover is shown. Any other button turns
/// into one that offers to play.
pub fn toggled(current: &str) -> (toggle: Toggle)
    ensures
        current@ == PLAY_STOCK@ ==> toggle.label@ == PAUSE_STOCK@ && toggle.show_cover,
        current@ != PLAY_STOCK@ ==> toggle.label@ == PLAY_STOCK@ && !toggle.show_cover,
{
    if same_text(current, PLAY_STOCK) {
        Toggle { label: PAUSE_STOCK, show_cover: true }
    } else {
        Toggle { label: PLAY_STOCK, show_cover: false }
    }
}

/// The label that fits the engine's flag: while a track plays the button
/// offers to pause, otherwise it offers to play.
pub fn label_for(playing: bool) -> (label: &'static str)
    ensures
        playing ==> label@ == PAUSE_STOCK@,
        !playing ==> label@ == PLAY_STOCK@,
{
    if playing {
        PAUSE_STOCK
    } else {
        PLAY_STOCK
    }
}

} // verus!
