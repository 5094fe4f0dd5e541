//! The sheet of paper: opening it, writing on it, and putting it away.

use crate::dialogue::converted;
use crate::effects::{Effect, Sound};
use crate::inventory::{remove_first, Inventory, Item};
use crate::movement::ActionsFrozen;
use vstd::prelude::*;
use vstd::string::StringExecFns;
use vstd::utf8::encode_utf8;

verus! {

/// A line is full once it is this many bytes wide.
pub const MAX_WIDTH: usize = 6;

/// The sheet has room for this many lines.
pub const MAX_HEIGHT: usize = 4;

/// The width of a line: the bytes of its text.
pub open spec fn width(line: Seq<char>) -> nat {
    encode_utf8(line).len()
}

/// The sheet before a character is written: where the last line is full and
/// the sheet has room, the line is closed with a line feed and an empty line
/// is begun.
pub open spec fn wrapped(lines: Seq<Seq<char>>) -> Seq<Seq<char>> {
    if width(lines.last()) >= MAX_WIDTH && lines.len() < MAX_HEIGHT {
        lines.drop_last().push(lines.last() + "\n"@).push(Seq::empty())
    } else {
        lines
    }
}

/// The sheet after the text of one key has been written: it goes to the end
/// of the last line, after wrapping, unless that line is full.
pub open spec fn typed(lines: Seq<Seq<char>>, character: Seq<char>) -> Seq<Seq<char>> {
    let lines = wrapped(lines);
    if width(lines.last()) < MAX_WIDTH {
        lines.drop_last().push(lines.last() + character)
    } else {
        lines
    }
}

/// What is written on the sheet, as the sections of a text: one per line.
pub struct PaperText {
    pub sections: Vec<String>,
}

impl PaperText {
    /// The lines of the sheet as sequences of characters.
    pub open spec fn lines(&self) -> Seq<Seq<char>> {
        self.sections@.map_values(|section: String| section@)
    }

    /// A sheet always has a line to write on.
    pub open spec fn well_formed(&self) -> bool {
        self.sections@.len() > 0
    }

    /// An empty sheet: one line with nothing on it.
    pub fn new() -> (text: PaperText)
        ensures
            text.well_formed(),
            text.lines() == seq![Seq::<char>::empty()],
    {
        let mut sections: Vec<String> = Vec::new();
        sections.push(String::new());
        let text = PaperText { sections };
        assert(text.lines() =~= seq![Seq::<char>::empty()]);
        text
    }

    /// Whether anything stands at the start of the sheet.
    pub fn written(&self) -> (written: bool)
        requires
            self.well_formed(),
        ensures
            written == (self.lines()[0].len() > 0),
    {
        !self.sections[0].as_str().is_empty()
    }

    /// Adds text to the end of the last line.
    fn extend_last(&mut self, text: &str)
        requires
            old(self).well_formed(),
        ensures
            final(self).sections@.len() == old(self).sections@.len(),
            final(self).lines() == old(self).lines().drop_last().push(
                old(self).lines().last() + text@,
            ),
    {
        let mut last = self.sections.pop().unwrap();
        last.append(text);
        self.sections.push(last);
        assert(self.lines() =~= old(self).lines().drop_last().push(
            old(self).lines().last() + text@,
        ));
    }

    /// Whether the last line is full.
    fn last_is_full(&self) -> (full: bool)
        requires
            self.well_formed(),
        ensures
            full == (width(self.lines().last()) >= MAX_WIDTH),
    {
        let last = &self.sections[self.sections.len() - 1];
        assert(self.lines().last() == last@);
        last.as_str().as_bytes().len() >= MAX_WIDTH
    }

    /// Writes the text of one key.
    pub fn type_character(&mut self, character: &str)
        requires
            old(self).well_formed(),
        ensures
            final(self).well_formed(),
            final(self).lines() == typed(old(self).lines(), character@),
    {
        if self.last_is_full() && self.sections.len() < MAX_HEIGHT {
            self.extend_last("\n");
            self.sections.push(String::new());
            assert(self.lines() =~= wrapped(old(self).lines()));
        }
        if !self.last_is_full() {
            self.extend_last(character);
        }
    }
}

/// A key of the keyboard went down or up.
pub struct KeyEvent {
    /// Whether the key went down.
    pub pressed: bool,
    /// The text that the key stands for, if it stands for any.
    pub character: Option<String>,
}

impl KeyEvent {
    /// The text that the event writes: that of a character key going down.
    pub open spec fn writes(self) -> Option<Seq<char>> {
        match self.character {
            Some(character) if self.pressed => Some(character@),
            _ => None,
        }
    }
}

/// The sheet after the keys of a frame, in their order.
pub open spec fn typed_all(lines: Seq<Seq<char>>, events: Seq<KeyEvent>) -> Seq<Seq<char>>
    decreases events.len(),
{
    if events.len() == 0 {
        lines
    } else {
        let before = typed_all(lines, events.drop_last());
        match events.last().writes() {
            Some(character) => typed(before, character),
            None => before,
        }
    }
}

/// The keys of a frame are written on the open sheet, once the player has
/// learned to use a pen. Before that, nothing is written.
pub fn update_paper_text(text: &mut PaperText, learned_pen: bool, events: &Vec<KeyEvent>)
    requires
        old(text).well_formed(),
    ensures
        final(text).well_formed(),
        final(text).lines() == if learned_pen {
            typed_all(old(text).lines(), events@)
        } else {
            old(text).lines()
        },
{
    if !learned_pen {
        return ;
    }
    let mut i: usize = 0;
    while i < events.len()
        invariant
            i <= events.len(),
            text.well_formed(),
            text.lines() == typed_all(old(text).lines(), events@.take(i as int)),
        decreases events.len() - i,
    {
        proof {
            assert(events@.take(i + 1).drop_last() == events@.take(i as int));
            assert(events@.take(i + 1).last() == events@[i as int]);
        }
        let event = &events[i];
        if event.pressed {
            match &event.character {
                Some(character) => {
                    text.type_character(character.as_str());
                },
                None => {},
            }
        }
        i += 1;
    }
    assert(events@.take(events.len() as int) == events@);
}

/// Writing never takes a line away, and a sheet of at most four lines keeps
/// to four.
pub proof fn lemma_typed_height(lines: Seq<Seq<char>>, character: Seq<char>)
    requires
        lines.len() > 0,
    ensures
        lines.len() <= typed(lines, character).len() <= lines.len() + 1,
        lines.len() <= MAX_HEIGHT ==> typed(lines, character).len() <= MAX_HEIGHT,
{
}

/// Writing only adds to the sheet: the lines before the last stay as they
/// are, and the last one is continued.
pub proof fn lemma_typed_extends(lines: Seq<Seq<char>>, character: Seq<char>, i: int)
    requires
        lines.len() > 0,
        0 <= i < lines.len(),
    ensures
        i < lines.len() - 1 ==> typed(lines, character)[i] == lines[i],
        lines.last().is_prefix_of(typed(lines, character)[lines.len() - 1]),
{
    let after = wrapped(lines);
    assert(lines.last().is_prefix_of(lines.last() + "\n"@));
    assert(lines.last().is_prefix_of(lines.last() + character));
    assert(lines.last().is_prefix_of(lines.last()));
}

/// The player asks for the sheet of paper. While input is frozen nothing
/// happens; else the sheet opens, and input is frozen while it is open.
pub fn open_paper(actions_frozen: &mut ActionsFrozen) -> (opened: bool)
    ensures
        opened == (old(actions_frozen).count() == 0),
        final(actions_frozen).count() == if opened {
            1
        } else {
            old(actions_frozen).count()
        },
{
    if actions_frozen.is_frozen() {
        return false;
    }
    actions_frozen.freeze();
    true
}

/// Whether any of the sheets has something written at its start.
pub open spec fn any_written(texts: Seq<PaperText>) -> bool {
    exists|i: int| 0 <= i < texts.len() && (#[trigger] texts[i]).lines()[0].len() > 0
}

/// Whether any of the sheets has something written at its start.
pub fn check_written(texts: &Vec<PaperText>) -> (written: bool)
    requires
        forall|i: int| 0 <= i < texts@.len() ==> (#[trigger] texts@[i]).well_formed(),
    ensures
        written == any_written(texts@),
{
    let mut i: usize = 0;
    while i < texts.len()
        invariant
            i <= texts.len(),
            forall|j: int| 0 <= j < texts@.len() ==> (#[trigger] texts@[j]).well_formed(),
            forall|j: int| 0 <= j < i ==> (#[trigger] texts@[j]).lines()[0].len() == 0,
        decreases texts.len() - i,
    {
        if texts[i].written() {
            return true;
        }
        i += 1;
    }
    false
}

/// The player puts the sheet away. Each of the `papers` open sheets undoes
/// the freeze of its opening. If something was written, the paper in the
/// inventory becomes written paper: the dialogue scripts are told so, and the
/// conversion is heard.
pub fn close_paper(
    inventory: &mut Inventory,
    actions_frozen: &mut ActionsFrozen,
    papers: usize,
    texts: &Vec<PaperText>,
) -> (effects: Vec<Effect>)
    requires
        papers <= old(actions_frozen).count(),
        forall|i: int| 0 <= i < texts@.len() ==> (#[trigger] texts@[i]).well_formed(),
        any_written(texts@) ==> old(inventory).items@.contains(Item::Paper),
    ensures
        final(actions_frozen).count() == old(actions_frozen).count() - papers,
        any_written(texts@) ==> {
            &&& final(inventory).items@ == converted(
                old(inventory).items@,
                Item::Paper,
                Item::WrittenPaper,
            )
            &&& effects@ == seq![
                Effect::Remember(Item::Paper, false),
                Effect::Remember(Item::WrittenPaper, true),
                Effect::Play(Sound::Convert),
            ]
        },
        !any_written(texts@) ==> {
            &&& final(inventory).items@ == old(inventory).items@
            &&& effects@ == Seq::<Effect>::empty()
        },
{
    let mut closed: usize = 0;
    while closed < papers
        invariant
            closed <= papers,
            papers <= old(actions_frozen).count(),
            actions_frozen.count() == old(actions_frozen).count() - closed,
        decreases papers - closed,
    {
        actions_frozen.unfreeze();
        closed += 1;
    }
    let mut effects: Vec<Effect> = Vec::new();
    if !check_written(texts) {
        return effects;
    }
    remove_first(&mut inventory.items, Item::Paper);
    inventory.items.push(Item::WrittenPaper);
    effects.push(Effect::Remember(Item::Paper, false));
    effects.push(Effect::Remember(Item::WrittenPaper, true));
    effects.push(Effect::Play(Sound::Convert));
    effects
}

} // verus!
