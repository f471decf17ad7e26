//! The terminal as a queue of drawing commands.
//!
//! Nothing here touches a device. Each operation appends one command to the
//! queue, and [`Terminal::execute`] hands the queue out, in order, to be
//! performed and flushed.

use vstd::prelude::*;
use vstd::string::*;

verus! {

/// A cell of the terminal, zero-based: column `x`, row `y`.
#[derive(Clone, Copy, Debug, PartialEq, Eq, Structural)]
pub struct Position {
    pub x: u16,
    pub y: u16,
}

/// The terminal's dimensions in cells.
#[derive(Clone, Copy, Debug, PartialEq, Eq, Structural)]
pub struct Size {
    pub width: u16,
    pub height: u16,
}

/// One drawing command, as it waits in the queue.
#[derive(Debug, PartialEq, Eq)]
pub enum Command {
    /// Erase the whole screen.
    ClearScreen,
    /// Erase the row the cursor is on.
    ClearLine,
    /// Put the cursor on a cell.
    MoveTo(Position),
    /// Stop showing the cursor.
    HideCursor,
    /// Show the cursor again.
    ShowCursor,
    /// Write text where the cursor is.
    Print(String),
}

/// What a [`Command`] is to a contract: the same command, its text as a
/// sequence of characters.
pub ghost enum CommandView {
    ClearScreen,
    ClearLine,
    MoveTo(Position),
    HideCursor,
    ShowCursor,
    Print(Seq<char>),
}

impl View for Command {
    type V = CommandView;

    open spec fn view(&self) -> CommandView {
        match *self {
            Command::ClearScreen => CommandView::ClearScreen,
            Command::ClearLine => CommandView::ClearLine,
            Command::MoveTo(pos) => CommandView::MoveTo(pos),
            Command::HideCursor => CommandView::HideCursor,
            Command::ShowCursor => CommandView::ShowCursor,
            Command::Print(text) => CommandView::Print(text@),
        }
    }
}

/// The views of a run of commands, in order.
pub open spec fn views(commands: Seq<Command>) -> Seq<CommandView> {
    commands.map_values(|c: Command| c@)
}

/// The banner's message: the name, then the version.
pub open spec fn welcome_message(name: Seq<char>, version: Seq<char>) -> Seq<char> {
    name + " -- version "@ + version
}

/// How many spaces stand between the leading `~` and a message of
/// `message_len` characters on a terminal `width` cells wide: half of the
/// room the message leaves, less one for the `~`, and never less than none.
pub open spec fn welcome_spaces(width: u16, message_len: nat) -> nat {
    let padding = if width > message_len {
        (width - message_len) / 2
    } else {
        0
    };
    if padding > 0 {
        (padding - 1) as nat
    } else {
        0
    }
}

/// The banner line: `~`, the spaces that centre the message, the message,
/// cut to `width` characters.
pub open spec fn welcome_line(width: u16, name: Seq<char>, version: Seq<char>) -> Seq<char> {
    let message = welcome_message(name, version);
    let line = "~"@ + Seq::new(welcome_spaces(width, message.len()), |i: int| ' ') + message;
    if line.len() > width {
        line.subrange(0, width as int)
    } else {
        line
    }
}

/// The row that carries the banner on a terminal of that size.
pub open spec fn welcome_row(size: Size) -> u16 {
    size.height / 3
}

/// What showing the banner queues: a move to the start of its row, then the
/// line.
pub open spec fn welcome_commands(size: Size, name: Seq<char>, version: Seq<char>) -> Seq<
    CommandView,
> {
    seq![
        CommandView::MoveTo(Position { x: 0, y: welcome_row(size) }),
        CommandView::Print(welcome_line(size.width, name, version)),
    ]
}

/// What preparing the screen queues: the screen erased, the banner, the
/// cursor in the top left cell.
pub open spec fn initial_commands(size: Size, name: Seq<char>, version: Seq<char>) -> Seq<
    CommandView,
> {
    seq![CommandView::ClearScreen] + welcome_commands(size, name, version) + seq![
        CommandView::MoveTo(Position { x: 0, y: 0 }),
    ]
}

/// The output queue, and the two strings the welcome banner is made of.
pub struct Terminal {
    queue: Vec<Command>,
    name: String,
    version: String,
}

impl Terminal {
    /// The commands queued and not yet handed out, oldest first.
    pub closed spec fn queued(&self) -> Seq<CommandView> {
        views(self.queue@)
    }

    /// The program's name, as the banner shows it.
    pub closed spec fn program_name(&self) -> Seq<char> {
        self.name@
    }

    /// The program's version, as the banner shows it.
    pub closed spec fn program_version(&self) -> Seq<char> {
        self.version@
    }

    /// Whether `other` shows the same banner as `self`.
    pub open spec fn same_program(&self, other: &Terminal) -> bool {
        &&& self.program_name() == other.program_name()
        &&& self.program_version() == other.program_version()
    }

    /// Whether `self` is `before` with `added` queued behind what it held.
    pub open spec fn extends(&self, before: &Terminal, added: Seq<CommandView>) -> bool {
        &&& self.queued() == before.queued() + added
        &&& self.same_program(before)
    }

    /// A terminal with an empty queue, for the program of that name and version.
    pub fn new(name: &str, version: &str) -> (term: Terminal)
        ensures
            term.queued() == Seq::<CommandView>::empty(),
            term.program_name() == name@,
            term.program_version() == version@,
    {
        Terminal { queue: Vec::new(), name: String::from_str(name), version: String::from_str(version) }
    }

    fn push(&mut self, command: Command)
        ensures
            final(self).extends(old(self), seq![command@]),
    {
        self.queue.push(command);
        assert(views(self.queue@) =~= views(old(self).queue@) + seq![command@]);
    }

    /// Queues the erasing of the whole screen.
    pub fn clear_screen(&mut self)
        ensures
            final(self).extends(old(self), seq![CommandView::ClearScreen]),
    {
        self.push(Command::ClearScreen);
    }

    /// Queues the erasing of the cursor's row.
    pub fn clear_line(&mut self)
        ensures
            final(self).extends(old(self), seq![CommandView::ClearLine]),
    {
        self.push(Command::ClearLine);
    }

    /// Queues a move of the cursor to `pos`.
    pub fn move_cursor_to(&mut self, pos: Position)
        ensures
            final(self).extends(old(self), seq![CommandView::MoveTo(pos)]),
    {
        self.push(Command::MoveTo(pos));
    }

    /// Queues the hiding of the cursor.
    pub fn hide_cursor(&mut self)
        ensures
            final(self).extends(old(self), seq![CommandView::HideCursor]),
    {
        self.push(Command::HideCursor);
    }

    /// Queues the showing of the cursor.
    pub fn show_cursor(&mut self)
        ensures
            final(self).extends(old(self), seq![CommandView::ShowCursor]),
    {
        self.push(Command::ShowCursor);
    }

    /// Queues `text` for output at the cursor, as it is.
    pub fn print(&mut self, text: &str)
        ensures
            final(self).extends(old(self), seq![CommandView::Print(text@)]),
    {
        self.push(Command::Print(String::from_str(text)));
    }

    fn welcome_text(&self, width: u16) -> (line: String)
        ensures
            line@ == welcome_line(width, self.program_name(), self.program_version()),
    {
        let mut message = String::from_str(self.name.as_str());
        message.append(" -- version ");
        message.append(self.version.as_str());
        let message_len: usize = message.as_str().unicode_len();
        let room: usize = width as usize;
        let padding: usize = if room > message_len {
            (room - message_len) / 2
        } else {
            0
        };
        let spaces: usize = if padding > 0 {
            padding - 1
        } else {
            0
        };
        let mut line = String::from_str("~");
        let mut i: usize = 0;
        while i < spaces
            invariant
                i <= spaces,
                line@ == "~"@ + Seq::new(i as nat, |k: int| ' '),
            decreases spaces - i,
        {
            proof {
                reveal_strlit(" ");
            }
            line.append(" ");
            i = i + 1;
            assert(line@ =~= "~"@ + Seq::new(i as nat, |k: int| ' '));
        }
        line.append(message.as_str());
        let line_len: usize = line.as_str().unicode_len();
        if line_len > room {
            String::from_str(line.as_str().substring_char(0, room))
        } else {
            line
        }
    }

    /// Queues the banner for a terminal of that size: a move to the start of
    /// the banner's row, then the banner line.
    pub fn display_welcome(&mut self, size: Size)
        ensures
            final(self).extends(
                old(self),
                welcome_commands(size, old(self).program_name(), old(self).program_version()),
            ),
    {
        let line = self.welcome_text(size.width);
        self.move_cursor_to(Position { x: 0, y: size.height / 3 });
        self.print(line.as_str());
        assert(self.queued() =~= old(self).queued() + welcome_commands(
            size,
            old(self).program_name(),
            old(self).program_version(),
        ));
    }

    /// Queues the first screen of a session on a terminal of that size: the
    /// screen erased, the banner shown, the cursor in the top left cell.
    pub fn initialize(&mut self, size: Size)
        ensures
            final(self).extends(
                old(self),
                initial_commands(size, old(self).program_name(), old(self).program_version()),
            ),
    {
        self.clear_screen();
        self.display_welcome(size);
        self.move_cursor_to(Position { x: 0, y: 0 });
        assert(self.queued() =~= old(self).queued() + initial_commands(
            size,
            old(self).program_name(),
            old(self).program_version(),
        ));
    }

    /// Hands out every queued command, oldest first, and leaves the queue
    /// empty. Performing them in that order and flushing the device is what
    /// makes them visible.
    pub fn execute(&mut self) -> (commands: Vec<Command>)
        ensures
            views(commands@) == old(self).queued(),
            final(self).queued() == Seq::<CommandView>::empty(),
            final(self).same_program(old(self)),
    {
        let mut commands: Vec<Command> = Vec::new();
        std::mem::swap(&mut self.queue, &mut commands);
        assert(views(self.queue@) =~= Seq::<CommandView>::empty());
        commands
    }
}

} // verus!
