//! The glyphs of the transport buttons.

use vstd::prelude::*;

verus! {

/// A transport-button glyph of the icon font.
#[derive(Clone, Copy, Debug)]
pub enum Icon {
    PLAY,
    PAUSE,
}

impl Icon {
    /// The code point at which the icon font holds this glyph.
    pub open spec fn spec_codepoint(self) -> char {
        match self {
            Icon::PLAY => '\u{E805}',
            Icon::PAUSE => '\u{E807}',
        }
    }

    /// The code point at which the icon font holds this glyph.
    pub fn codepoint(self) -> (c: char)
        ensures
            c == self.spec_codepoint(),
    {
        match self {
            Icon::PLAY => '\u{E805}',
            Icon::PAUSE => '\u{E807}',
        }
    }

    /// The glyph of the button that toggles playback: pause while playing, play
    /// otherwise.
    pub fn toggle_for(playing: bool) -> (icon: Icon)
        ensures
            icon == (if playing {
                Icon::PAUSE
            } else {
                Icon::PLAY
            }),
    {
        if playing {
            Icon::PAUSE
        } else {
            Icon::PLAY
        }
    }
}

} // verus!
