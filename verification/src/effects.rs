//! What the rules ask the game to do besides changing its own state: start a
//! dialogue, set a dialogue variable, play a sound.

use crate::inventory::Item;
use vstd::prelude::*;
use vstd::string::StringExecFns;

verus! {

/// A node of the dialogue scripts that the rules start.
#[derive(Debug, Clone, Copy, PartialEq, Eq, Structural)]
pub enum Node {
    Intro,
    CollectedPaper,
    Wife,
    Dino,
    Fire,
    DroppedBanana,
    /// The player's thoughts on an item they hold; the node is named like the
    /// item.
    About(Item),
}

impl Node {
    /// The node's title in the dialogue scripts, as a sequence of characters.
    pub open spec fn spec_title(self) -> Seq<char> {
        match self {
            Node::Intro => "Intro"@,
            Node::CollectedPaper => "CollectedPaper"@,
            Node::Wife => "Wife"@,
            Node::Dino => "Dino"@,
            Node::Fire => "Fire"@,
            Node::DroppedBanana => "DroppedBanana"@,
            Node::About(item) => item.spec_name(),
        }
    }

    /// The node's title in the dialogue scripts.
    pub fn title(&self) -> (title: &'static str)
        ensures
            title@ == self.spec_title(),
    {
        match self {
            Node::Intro => "Intro",
            Node::CollectedPaper => "CollectedPaper",
            Node::Wife => "Wife",
            Node::Dino => "Dino",
            Node::Fire => "Fire",
            Node::DroppedBanana => "DroppedBanana",
            Node::About(item) => item.name(),
        }
    }
}

/// A sound effect. Picking up, converting and dropping an item sound alike
/// and differ in the label of the entity that plays them.
#[derive(Debug, Clone, Copy, PartialEq, Eq, Structural)]
pub enum Sound {
    Pickup,
    Convert,
    Drop,
    VineBoom,
    UhOh,
    TrophyWife,
    WifeHm,
    DinoStomp,
}

impl Sound {
    /// The sound that dialogue scripts call by the given name, if there is
    /// one.
    pub open spec fn spec_named(name: Seq<char>) -> Option<Sound> {
        if name == "vine_boom"@ {
            Some(Sound::VineBoom)
        } else if name == "uh_oh"@ {
            Some(Sound::UhOh)
        } else if name == "trophy_wife"@ {
            Some(Sound::TrophyWife)
        } else if name == "wife_hm"@ {
            Some(Sound::WifeHm)
        } else {
            None
        }
    }

    /// The label of the entity that plays the sound, as a sequence of
    /// characters.
    pub open spec fn spec_label(self) -> Seq<char> {
        match self {
            Sound::Pickup => "Pickup sound"@,
            Sound::Convert => "Convert sound"@,
            Sound::Drop => "Drop sound"@,
            Sound::VineBoom => "vine_boom sound"@,
            Sound::UhOh => "uh_oh sound"@,
            Sound::TrophyWife => "trophy_wife sound"@,
            Sound::WifeHm => "wife_hm sound"@,
            Sound::DinoStomp => "Dino Stomp"@,
        }
    }

    /// Reads the name by which a dialogue script asks for a sound; `None` for
    /// any other text.
    pub fn named(name: &str) -> (sound: Option<Sound>)
        ensures
            sound == Sound::spec_named(name@),
    {
        let name = String::from_str(name);
        if name == String::from_str("vine_boom") {
            Some(Sound::VineBoom)
        } else if name == String::from_str("uh_oh") {
            Some(Sound::UhOh)
        } else if name == String::from_str("trophy_wife") {
            Some(Sound::TrophyWife)
        } else if name == String::from_str("wife_hm") {
            Some(Sound::WifeHm)
        } else {
            None
        }
    }

    /// The label of the entity that plays the sound.
    pub fn label(&self) -> (label: &'static str)
        ensures
            label@ == self.spec_label(),
    {
        match self {
            Sound::Pickup => "Pickup sound",
            Sound::Convert => "Convert sound",
            Sound::Drop => "Drop sound",
            Sound::VineBoom => "vine_boom sound",
            Sound::UhOh => "uh_oh sound",
            Sound::TrophyWife => "trophy_wife sound",
            Sound::WifeHm => "wife_hm sound",
            Sound::DinoStomp => "Dino Stomp",
        }
    }
}

/// A sound that a script asks for by name is labelled with that name and the
/// word "sound".
pub proof fn lemma_named_sound_label(name: Seq<char>)
    requires
        Sound::spec_named(name) is Some,
    ensures
        Sound::spec_named(name)->0.spec_label() == name + " sound"@,
{
    reveal_strlit(" sound");
    reveal_strlit("vine_boom");
    reveal_strlit("uh_oh");
    reveal_strlit("trophy_wife");
    reveal_strlit("wife_hm");
    reveal_strlit("vine_boom sound");
    reveal_strlit("uh_oh sound");
    reveal_strlit("trophy_wife sound");
    reveal_strlit("wife_hm sound");
    let label = Sound::spec_named(name)->0.spec_label();
    assert(label =~= name + " sound"@);
}

/// One thing for the game to do.
#[derive(Debug, Clone, Copy, PartialEq, Eq, Structural)]
pub enum Effect {
    /// Start the dialogue at a node.
    Say(Node),
    /// Tell the dialogue scripts whether the player holds an item, by setting
    /// the variable that [`held_variable`] names.
    Remember(Item, bool),
    /// Play a sound effect once.
    Play(Sound),
    /// Show the sheet of paper for writing.
    OpenPaper,
}

/// The name of the dialogue variable that says whether an item is held, as a
/// sequence of characters: `$_has_` and the item's name.
pub open spec fn spec_held_variable(item: Item) -> Seq<char> {
    "$_has_"@ + item.spec_name()
}

/// The name of the dialogue variable that says whether an item is held.
pub fn held_variable(item: Item) -> (variable: String)
    ensures
        variable@ == spec_held_variable(item),
{
    String::from_str("$_has_").concat(item.name())
}

} // verus!
