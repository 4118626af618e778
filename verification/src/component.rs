use vstd::prelude::*;

verus! {

/// The messages the playlist component sends up to the application.
#[derive(Clone, Copy, Debug, PartialEq, Eq, Structural)]
pub enum Msg {
    /// Nothing to tell the application.
    Noop,
    PlaylistTableBlur,
    PlaylistDelete(usize),
    PlaylistDeleteAll,
    PlaylistShuffle,
    PlaylistLoopModeCycle,
    PlaylistPlaySelected(usize),
    PlaylistAddFront,
    GeneralSearchPopupShowPlaylist,
}

/// The keys the playlist component reacts to.
#[derive(Clone, Copy, Debug, PartialEq, Eq, Structural)]
pub enum KeyCode {
    Down,
    Up,
    PageDown,
    PageUp,
    Home,
    End,
    Tab,
    Char(char),
}

/// One key press: the key and whether shift was held.
#[derive(Clone, Copy, Debug, PartialEq, Eq, Structural)]
pub struct KeyEvent {
    pub code: KeyCode,
    pub shift: bool,
}

/// What the component asks of its table widget.
#[derive(Clone, Copy, Debug, PartialEq, Eq, Structural)]
pub enum TableCmd {
    MoveDown,
    MoveUp,
    ScrollDown,
    ScrollUp,
    GotoBegin,
    GotoEnd,
    NoOp,
}

/// The playlist component's own state: the table row the user has
/// selected, if any.
#[derive(Clone, Copy, Debug)]
pub struct Playlist {
    pub selected: Option<usize>,
}

/// How one key press is handled: the cursor movement performed on the
/// table, and the message sent up. Deleting or playing an entry needs
/// a selected row; without one the component stays quiet.
pub open spec fn on_key_spec(selected: Option<usize>, ev: KeyEvent) -> (TableCmd, Option<Msg>) {
    match ev.code {
        KeyCode::Down => (TableCmd::MoveDown, Some(Msg::Noop)),
        KeyCode::Up => (TableCmd::MoveUp, Some(Msg::Noop)),
        KeyCode::PageDown => (TableCmd::ScrollDown, Some(Msg::Noop)),
        KeyCode::PageUp => (TableCmd::ScrollUp, Some(Msg::Noop)),
        KeyCode::Home => (TableCmd::GotoBegin, Some(Msg::Noop)),
        KeyCode::End => (TableCmd::GotoEnd, Some(Msg::Noop)),
        KeyCode::Tab => (TableCmd::NoOp, Some(Msg::PlaylistTableBlur)),
        KeyCode::Char(c) => {
            if c == 'j' {
                (TableCmd::MoveDown, Some(Msg::Noop))
            } else if c == 'k' {
                (TableCmd::MoveUp, Some(Msg::Noop))
            } else if c == 'g' {
                (TableCmd::GotoBegin, Some(Msg::Noop))
            } else if c == 'G' && ev.shift {
                (TableCmd::GotoEnd, Some(Msg::Noop))
            } else if c == 'd' {
                match selected {
                    Some(index) => (TableCmd::NoOp, Some(Msg::PlaylistDelete(index))),
                    None => (TableCmd::NoOp, Some(Msg::Noop)),
                }
            } else if c == 'D' && ev.shift {
                (TableCmd::NoOp, Some(Msg::PlaylistDeleteAll))
            } else if c == 's' {
                (TableCmd::NoOp, Some(Msg::PlaylistShuffle))
            } else if c == 'm' {
                (TableCmd::NoOp, Some(Msg::PlaylistLoopModeCycle))
            } else if c == 'l' {
                match selected {
                    Some(index) => (TableCmd::NoOp, Some(Msg::PlaylistPlaySelected(index))),
                    None => (TableCmd::NoOp, Some(Msg::Noop)),
                }
            } else if c == 'a' {
                (TableCmd::NoOp, Some(Msg::PlaylistAddFront))
            } else if c == '/' {
                (TableCmd::NoOp, Some(Msg::GeneralSearchPopupShowPlaylist))
            } else {
                (TableCmd::NoOp, Some(Msg::Noop))
            }
        },
    }
}

impl Playlist {
    pub fn new() -> (r: Playlist)
        ensures
            r.selected is None,
    {
        Playlist { selected: None }
    }

    /// Handles one key press, exactly as `on_key_spec` describes.
    pub fn on(&self, ev: KeyEvent) -> (r: (TableCmd, Option<Msg>))
        ensures
            r == on_key_spec(self.selected, ev),
    {
        match ev.code {
            KeyCode::Down => (TableCmd::MoveDown, Some(Msg::Noop)),
            KeyCode::Up => (TableCmd::MoveUp, Some(Msg::Noop)),
            KeyCode::PageDown => (TableCmd::ScrollDown, Some(Msg::Noop)),
            KeyCode::PageUp => (TableCmd::ScrollUp, Some(Msg::Noop)),
            KeyCode::Home => (TableCmd::GotoBegin, Some(Msg::Noop)),
            KeyCode::End => (TableCmd::GotoEnd, Some(Msg::Noop)),
            KeyCode::Tab => (TableCmd::NoOp, Some(Msg::PlaylistTableBlur)),
            KeyCode::Char(c) => {
                if c == 'j' {
                    (TableCmd::MoveDown, Some(Msg::Noop))
                } else if c == 'k' {
                    (TableCmd::MoveUp, Some(Msg::Noop))
                } else if c == 'g' {
                    (TableCmd::GotoBegin, Some(Msg::Noop))
                } else if c == 'G' && ev.shift {
                    (TableCmd::GotoEnd, Some(Msg::Noop))
                } else if c == 'd' {
                    match self.selected {
                        Some(index) => (TableCmd::NoOp, Some(Msg::PlaylistDelete(index))),
                        None => (TableCmd::NoOp, Some(Msg::Noop)),
                    }
                } else if c == 'D' && ev.shift {
                    (TableCmd::NoOp, Some(Msg::PlaylistDeleteAll))
                } else if c == 's' {
                    (TableCmd::NoOp, Some(Msg::PlaylistShuffle))
                } else if c == 'm' {
                    (TableCmd::NoOp, Some(Msg::PlaylistLoopModeCycle))
                } else if c == 'l' {
                    match self.selected {
                        Some(index) => (TableCmd::NoOp, Some(Msg::PlaylistPlaySelected(index))),
                        None => (TableCmd::NoOp, Some(Msg::Noop)),
                    }
                } else if c == 'a' {
                    (TableCmd::NoOp, Some(Msg::PlaylistAddFront))
                } else if c == '/' {
                    (TableCmd::NoOp, Some(Msg::GeneralSearchPopupShowPlaylist))
                } else {
                    (TableCmd::NoOp, Some(Msg::Noop))
                }
            },
        }
    }
}

} // verus!
