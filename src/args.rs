use vstd::prelude::*;

verus! {

/// The command line: the audio file, how to pick its track, and two switches.
#[derive(Debug)]
pub struct Args {
    pub file: String,
    pub mode: Mode,
    pub yes: bool,
    pub silent: bool,
}

/// How the track is picked among the search results.
#[derive(Debug, Clone, Copy, PartialEq, Eq, Structural)]
pub enum Mode {
    /// The user picks.
    Manual,
    /// The track whose title, artist and album all equal the file's is picked.
    Auto,
    /// As `Auto`; where no track matches, the user picks.
    Middle,
}

/// What to do to pick a track, given the mode and the track that matches the file, if any.
#[derive(Debug, PartialEq, Eq, Structural)]
pub enum Selection {
    AskUser,
    Chosen(usize),
    NotFound,
}

impl Mode {
    pub fn is_manual(&self) -> (r: bool)
        ensures
            r == (*self == Mode::Manual),
    {
        *self == Mode::Manual
    }

    pub fn is_auto(&self) -> (r: bool)
        ensures
            r == (*self == Mode::Auto),
    {
        *self == Mode::Auto
    }

    pub fn is_middle(&self) -> (r: bool)
        ensures
            r == (*self == Mode::Middle),
    {
        *self == Mode::Middle
    }

    /// Manual mode always asks; otherwise the matching track is taken, and where there is
    /// none, middle mode asks and auto mode gives up.
    pub fn selection(&self, matching: Option<usize>) -> (r: Selection)
        ensures
            *self == Mode::Manual ==> r == Selection::AskUser,
            *self != Mode::Manual ==> match matching {
                Some(i) => r == Selection::Chosen(i),
                None => if *self == Mode::Middle {
                    r == Selection::AskUser
                } else {
                    r == Selection::NotFound
                },
            },
    {
        if self.is_manual() {
            return Selection::AskUser;
        }
        match matching {
            Some(i) => Selection::Chosen(i),
            None => if self.is_middle() {
                Selection::AskUser
            } else {
                Selection::NotFound
            },
        }
    }
}

} // verus!
