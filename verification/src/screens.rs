//! The game's flow: the screens it moves through and, during play, the area
//! the player is in.

use vstd::prelude::*;

verus! {

/// The top-level screens of the game.
#[derive(Debug, Hash, PartialEq, Eq, Clone, Copy, Structural)]
pub enum Screen {
    Splash,
    Loading,
    Title,
    Difficulty,
    Credits,
    Gameplay,
    End,
}

impl Default for Screen {
    /// The game starts by loading its assets.
    fn default() -> (screen: Screen)
        ensures
            screen == Screen::Loading,
    {
        Screen::Loading
    }
}

/// Where the player is while the gameplay screen is shown.
#[derive(Debug, Hash, PartialEq, Eq, Clone, Copy, Structural)]
pub enum Area {
    Cave,
    Outside,
}

impl Default for Area {
    /// Play begins in front of the cave.
    fn default() -> (area: Area)
        ensures
            area == Area::Outside,
    {
        Area::Outside
    }
}

impl Area {
    /// The area's name as a sequence of characters.
    pub open spec fn spec_name(self) -> Seq<char> {
        match self {
            Area::Cave => "Cave"@,
            Area::Outside => "Outside"@,
        }
    }

    /// The name under which the area appears in entity labels.
    pub fn name(&self) -> (name: &'static str)
        ensures
            name@ == self.spec_name(),
    {
        match self {
            Area::Cave => "Cave",
            Area::Outside => "Outside",
        }
    }
}

} // verus!
