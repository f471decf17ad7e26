//! The editor: its state and what an input event does to it.

use vstd::prelude::*;

pub mod event;
pub mod laws;
pub mod session;
pub mod terminal;

use self::event::{Event, KeyCode, CONTROL};
use self::session::{Phase, Reply, Request, RequestView, Turn, TurnView};
use self::terminal::{initial_commands, welcome_commands, welcome_row};
use self::terminal::{CommandView, Position, Size, Terminal};

verus! {

/// The editor's state: whether it has been told to quit, where its cursor
/// is, and where its session stands.
pub struct Editor {
    should_quit: bool,
    cursor_pos: Position,
    phase: Phase,
}

/// An [`Editor`] as contracts see it.
pub ghost struct EditorView {
    pub should_quit: bool,
    pub cursor: Position,
    pub phase: Phase,
}

/// `n` less one, and zero at zero.
pub open spec fn decremented(n: u16) -> u16 {
    if n > 0 {
        (n - 1) as u16
    } else {
        0
    }
}

/// `n` and one, and `u16::MAX` at `u16::MAX`.
pub open spec fn incremented(n: u16) -> u16 {
    if n < u16::MAX {
        (n + 1) as u16
    } else {
        u16::MAX
    }
}

/// Where the cursor is after `event`: the release of an arrow key moves it by
/// one cell, held at the edges of `u16`; nothing else moves it.
pub open spec fn moved(cursor: Position, event: Event) -> Position {
    if event.releases(KeyCode::Up) {
        Position { x: cursor.x, y: decremented(cursor.y) }
    } else if event.releases(KeyCode::Down) {
        Position { x: cursor.x, y: incremented(cursor.y) }
    } else if event.releases(KeyCode::Left) {
        Position { x: decremented(cursor.x), y: cursor.y }
    } else if event.releases(KeyCode::Right) {
        Position { x: incremented(cursor.x), y: cursor.y }
    } else {
        cursor
    }
}

impl EditorView {
    /// The state after `event`.
    pub open spec fn after(self, event: Event) -> EditorView {
        EditorView {
            should_quit: self.should_quit || event.asks_to_quit(),
            cursor: moved(self.cursor, event),
            phase: self.phase,
        }
    }

    /// The state after `events`, applied in order.
    pub open spec fn after_all(self, events: Seq<Event>) -> EditorView
        decreases events.len(),
    {
        if events.len() == 0 {
            self
        } else {
            self.after_all(events.drop_last()).after(events.last())
        }
    }

    /// The same state in another phase.
    pub open spec fn at(self, phase: Phase) -> EditorView {
        EditorView { should_quit: self.should_quit, cursor: self.cursor, phase }
    }
}

/// What drawing row `row` queues: a move to its start, the row erased, then
/// the banner on the banner's row and a single `~` on any other.
pub open spec fn row_commands(size: Size, row: u16, name: Seq<char>, version: Seq<char>) -> Seq<
    CommandView,
> {
    seq![CommandView::MoveTo(Position { x: 0, y: row }), CommandView::ClearLine] + if row
        == welcome_row(size) {
        welcome_commands(size, name, version)
    } else {
        seq![CommandView::Print("~"@)]
    }
}

/// What drawing the first `rows` rows queues, from the top down.
pub open spec fn rows_commands(size: Size, rows: nat, name: Seq<char>, version: Seq<char>) -> Seq<
    CommandView,
>
    decreases rows,
{
    if rows == 0 {
        Seq::empty()
    } else {
        rows_commands(size, (rows - 1) as nat, name, version) + row_commands(
            size,
            (rows - 1) as u16,
            name,
            version,
        )
    }
}

/// What the farewell screen queues: the screen erased, the cursor in the top
/// left cell, the farewell line.
pub open spec fn farewell_commands() -> Seq<CommandView> {
    seq![
        CommandView::ClearScreen,
        CommandView::MoveTo(Position { x: 0, y: 0 }),
        CommandView::Print("Goodbye.\r\n"@),
    ]
}

/// The farewell screen as one rendering queues it: the cursor hidden, the
/// farewell, the cursor shown.
pub open spec fn farewell_screen() -> Seq<CommandView> {
    seq![CommandView::HideCursor] + farewell_commands() + seq![CommandView::ShowCursor]
}

/// What one rendering queues. If the editor is quitting, that is the farewell
/// screen, whatever the size. Else the cursor is hidden, every row of the
/// terminal is drawn, and the cursor is put where the editor's cursor is and
/// shown.
pub open spec fn screen_commands(
    editor: EditorView,
    size: Size,
    name: Seq<char>,
    version: Seq<char>,
) -> Seq<CommandView> {
    if editor.should_quit {
        farewell_screen()
    } else {
        seq![CommandView::HideCursor] + rows_commands(size, size.height as nat, name, version)
            + seq![CommandView::MoveTo(editor.cursor), CommandView::ShowCursor]
    }
}

/// An editor and its terminal, as the contracts of a session see the two.
pub ghost struct Session {
    pub editor: EditorView,
    pub queued: Seq<CommandView>,
    pub name: Seq<char>,
    pub version: Seq<char>,
}

/// The session that `editor` and `term` make.
pub open spec fn session(editor: &Editor, term: &Terminal) -> Session {
    Session {
        editor: editor@,
        queued: term.queued(),
        name: term.program_name(),
        version: term.program_version(),
    }
}

impl Session {
    /// The same session in another phase.
    pub open spec fn at(self, phase: Phase) -> Session {
        Session { editor: self.editor.at(phase), ..self }
    }

    /// The same session with `added` queued behind what is queued.
    pub open spec fn with(self, added: Seq<CommandView>) -> Session {
        Session { queued: self.queued + added, ..self }
    }

    /// The same session with nothing queued.
    pub open spec fn emptied(self) -> Session {
        Session { queued: Seq::empty(), ..self }
    }

    /// The top of the loop. An editor that is quitting queues its farewell
    /// screen and ends the loop; any other asks for the size to render on.
    pub open spec fn pass(self) -> (Session, TurnView) {
        if self.editor.should_quit {
            (self.with(farewell_screen()), TurnView::Quit)
        } else {
            (self.at(Phase::Measuring), TurnView::Ask(RequestView::QuerySize))
        }
    }

    /// One step of the loop, on the driver's answer to what the loop last
    /// asked.
    ///
    /// - The size arrives: the screen is rendered on it. An editor that is
    ///   quitting has then queued its farewell, and the loop ends; any other
    ///   asks for an event.
    /// - The event arrives: it is applied, a move to the cursor is queued, and
    ///   all that is queued is handed out to be flushed.
    /// - The flush is done: the loop is at its top again.
    /// - Anything else, a failure or an answer that was not awaited, ends the
    ///   loop and changes nothing.
    pub open spec fn turn(self, reply: Reply) -> (Session, TurnView) {
        match (self.editor.phase, reply) {
            (Phase::Measuring, Reply::Size(size)) => if self.editor.should_quit {
                (self.with(farewell_screen()), TurnView::Quit)
            } else {
                (
                    self.with(screen_commands(self.editor, size, self.name, self.version)).at(
                        Phase::Reading,
                    ),
                    TurnView::Ask(RequestView::ReadEvent),
                )
            },
            (Phase::Reading, Reply::Event(event)) => {
                let editor = self.editor.after(event).at(Phase::Flushing);
                (
                    Session { editor, ..self.emptied() },
                    TurnView::Ask(
                        RequestView::Flush(self.queued + seq![CommandView::MoveTo(editor.cursor)]),
                    ),
                )
            },
            (Phase::Flushing, Reply::Done) => self.pass(),
            _ => (self, TurnView::Abort),
        }
    }

    /// What the session does when a pass through the loop has ended in
    /// `turn`. While the loop goes on, it asks what the loop asks. When the
    /// editor quits, the farewell is handed out to be flushed. When the loop
    /// fails, the terminal's normal mode is asked for at once.
    pub open spec fn settle(self, turn: TurnView) -> (Session, RequestView) {
        match turn {
            TurnView::Ask(request) => (self, request),
            TurnView::Quit => (self.emptied().at(Phase::Leaving), RequestView::Flush(self.queued)),
            TurnView::Abort => (
                self.at(Phase::Closing { failed: true }),
                RequestView::DisableRawMode,
            ),
        }
    }

    /// One step of the session, on the driver's answer to what was last
    /// asked.
    ///
    /// - At the start, raw mode is asked for, whatever `reply` is.
    /// - Raw mode is on: the size is asked for. The size arrives: the first
    ///   screen is queued and the loop begins. A failure of either ends the
    ///   session at once.
    /// - In the loop, the loop decides.
    /// - The farewell is flushed, or could not be: the normal mode is asked
    ///   for.
    /// - The normal mode is back: the session ends, well if the loop ended
    ///   well. If the normal mode could not be had, it ends on that failure.
    /// - A session that is over stays as it is.
    pub open spec fn step(self, reply: Reply) -> (Session, RequestView) {
        match self.editor.phase {
            Phase::Idle => (self.at(Phase::Enabling), RequestView::EnableRawMode),
            Phase::Enabling => if reply == Reply::Done {
                (self.at(Phase::Preparing), RequestView::QuerySize)
            } else {
                (self.at(Phase::Failed), RequestView::Fail)
            },
            Phase::Preparing => match reply {
                Reply::Size(size) => {
                    let ready = self.with(initial_commands(size, self.name, self.version));
                    let (next, turn) = ready.pass();
                    next.settle(turn)
                },
                _ => (self.at(Phase::Failed), RequestView::Fail),
            },
            Phase::Measuring | Phase::Reading | Phase::Flushing => {
                let (next, turn) = self.turn(reply);
                next.settle(turn)
            },
            Phase::Leaving => (
                self.at(Phase::Closing { failed: reply != Reply::Done }),
                RequestView::DisableRawMode,
            ),
            Phase::Closing { failed } => if reply == Reply::Done && !failed {
                (self.at(Phase::Exited), RequestView::Exit)
            } else {
                (self.at(Phase::Failed), RequestView::Fail)
            },
            Phase::Exited => (self, RequestView::Exit),
            Phase::Failed => (self, RequestView::Fail),
        }
    }
}

impl View for Editor {
    type V = EditorView;

    closed spec fn view(&self) -> EditorView {
        EditorView { should_quit: self.should_quit, cursor: self.cursor_pos, phase: self.phase }
    }
}

impl Editor {
    /// An editor that has not been told to quit, its cursor in the top left
    /// cell.
    pub fn default() -> (editor: Editor)
        ensures
            editor@ == (EditorView {
                should_quit: false,
                cursor: Position { x: 0, y: 0 },
                phase: Phase::Idle,
            }),
    {
        Editor { should_quit: false, cursor_pos: Position { x: 0, y: 0 }, phase: Phase::Idle }
    }

    /// Whether the editor has been told to quit.
    pub fn should_quit(&self) -> (quit: bool)
        ensures
            quit == self@.should_quit,
    {
        self.should_quit
    }

    /// Where the editor's cursor is.
    pub fn cursor_pos(&self) -> (pos: Position)
        ensures
            pos == self@.cursor,
    {
        self.cursor_pos
    }

    /// Where the editor's session stands.
    pub fn phase(&self) -> (phase: Phase)
        ensures
            phase == self@.phase,
    {
        self.phase
    }

    /// Draws every row of a terminal of that size, from the top down.
    pub fn draw_rows(term: &mut Terminal, size: Size)
        ensures
            final(term).extends(
                old(term),
                rows_commands(
                    size,
                    size.height as nat,
                    old(term).program_name(),
                    old(term).program_version(),
                ),
            ),
    {
        let ghost name = term.program_name();
        let ghost version = term.program_version();
        let mut row: u16 = 0;
        while row < size.height
            invariant
                row <= size.height,
                name == old(term).program_name(),
                version == old(term).program_version(),
                term.extends(old(term), rows_commands(size, row as nat, name, version)),
            decreases size.height - row,
        {
            let ghost before = term.queued();
            term.move_cursor_to(Position { x: 0, y: row });
            term.clear_line();
            if row == size.height / 3 {
                term.display_welcome(size);
            } else {
                term.print("~");
            }
            assert(term.queued() =~= before + row_commands(size, row, name, version));
            row = row + 1;
            assert(term.queued() =~= old(term).queued() + rows_commands(
                size,
                row as nat,
                name,
                version,
            ));
        }
    }

    /// Applies one input event: `q` with control held sets the quit flag, the
    /// release of an arrow key moves the cursor by one cell, and any other
    /// event changes nothing.
    pub fn evaluate_event(&mut self, event: &Event)
        ensures
            final(self)@ == old(self)@.after(*event),
    {
        match event {
            Event::Key(key) => {
                let released = key.is_release();
                match key.code {
                    KeyCode::Char(c) => {
                        if c == 'q' && key.modifiers.bits & CONTROL == CONTROL {
                            self.should_quit = true;
                        }
                    },
                    KeyCode::Up => {
                        if released {
                            self.cursor_pos.y = self.cursor_pos.y.saturating_sub(1);
                        }
                    },
                    KeyCode::Down => {
                        if released {
                            self.cursor_pos.y = self.cursor_pos.y.saturating_add(1);
                        }
                    },
                    KeyCode::Left => {
                        if released {
                            self.cursor_pos.x = self.cursor_pos.x.saturating_sub(1);
                        }
                    },
                    KeyCode::Right => {
                        if released {
                            self.cursor_pos.x = self.cursor_pos.x.saturating_add(1);
                        }
                    },
                    KeyCode::Other => {},
                }
            },
            Event::Other => {},
        }
    }

    /// Renders the editor on a terminal of that size.
    pub fn refresh_screen(&self, term: &mut Terminal, size: Size)
        ensures
            final(term).extends(
                old(term),
                screen_commands(
                    self@,
                    size,
                    old(term).program_name(),
                    old(term).program_version(),
                ),
            ),
    {
        term.hide_cursor();
        if self.should_quit {
            term.clear_screen();
            term.move_cursor_to(Position { x: 0, y: 0 });
            term.print("Goodbye.\r\n");
        } else {
            Editor::draw_rows(term, size);
            term.move_cursor_to(self.cursor_pos);
        }
        term.show_cursor();
        assert(term.queued() =~= old(term).queued() + screen_commands(
            self@,
            size,
            old(term).program_name(),
            old(term).program_version(),
        ));
    }

    fn pass(&mut self, term: &mut Terminal) -> (turn: Turn)
        ensures
            session(final(self), final(term)) == session(old(self), old(term)).pass().0,
            turn@ == session(old(self), old(term)).pass().1,
    {
        if self.should_quit {
            self.refresh_screen(term, Size { width: 0, height: 0 });
            Turn::Quit
        } else {
            self.phase = Phase::Measuring;
            Turn::Ask(Request::QuerySize)
        }
    }

    /// Takes the loop one step further, on the driver's answer to what the
    /// loop last asked, and says how the pass ends.
    pub fn repl(&mut self, term: &mut Terminal, reply: Reply) -> (turn: Turn)
        ensures
            session(final(self), final(term)) == session(old(self), old(term)).turn(reply).0,
            turn@ == session(old(self), old(term)).turn(reply).1,
    {
        match (self.phase, reply) {
            (Phase::Measuring, Reply::Size(size)) => {
                self.refresh_screen(term, size);
                if self.should_quit {
                    Turn::Quit
                } else {
                    self.phase = Phase::Reading;
                    Turn::Ask(Request::ReadEvent)
                }
            },
            (Phase::Reading, Reply::Event(event)) => {
                self.evaluate_event(&event);
                term.move_cursor_to(self.cursor_pos);
                self.phase = Phase::Flushing;
                Turn::Ask(Request::Flush(term.execute()))
            },
            (Phase::Flushing, Reply::Done) => self.pass(term),
            _ => Turn::Abort,
        }
    }

    fn settle(&mut self, term: &mut Terminal, turn: Turn) -> (request: Request)
        ensures
            session(final(self), final(term)) == session(old(self), old(term)).settle(turn@).0,
            request@ == session(old(self), old(term)).settle(turn@).1,
    {
        match turn {
            Turn::Ask(request) => request,
            Turn::Quit => {
                self.phase = Phase::Leaving;
                Request::Flush(term.execute())
            },
            Turn::Abort => {
                self.phase = Phase::Closing { failed: true };
                Request::DisableRawMode
            },
        }
    }

    /// Takes the session one step further, on the driver's answer to what was
    /// last asked, and says what the driver is to do next. The first call
    /// starts the session, and its `reply` is not read.
    ///
    /// The session puts the terminal in raw mode, draws the first screen,
    /// runs the loop, and asks for the normal mode again however the loop
    /// ended, before it reports how the session ended.
    pub fn run(&mut self, term: &mut Terminal, reply: Reply) -> (request: Request)
        ensures
            session(final(self), final(term)) == session(old(self), old(term)).step(reply).0,
            request@ == session(old(self), old(term)).step(reply).1,
    {
        match self.phase {
            Phase::Idle => {
                self.phase = Phase::Enabling;
                Request::EnableRawMode
            },
            Phase::Enabling => match reply {
                Reply::Done => {
                    self.phase = Phase::Preparing;
                    Request::QuerySize
                },
                _ => {
                    self.phase = Phase::Failed;
                    Request::Fail
                },
            },
            Phase::Preparing => match reply {
                Reply::Size(size) => {
                    term.initialize(size);
                    let turn = self.pass(term);
                    self.settle(term, turn)
                },
                _ => {
                    self.phase = Phase::Failed;
                    Request::Fail
                },
            },
            Phase::Measuring | Phase::Reading | Phase::Flushing => {
                let turn = self.repl(term, reply);
                self.settle(term, turn)
            },
            Phase::Leaving => {
                let failed = match reply {
                    Reply::Done => false,
                    _ => true,
                };
                self.phase = Phase::Closing { failed };
                Request::DisableRawMode
            },
            Phase::Closing { failed } => match reply {
                Reply::Done => {
                    if failed {
                        self.phase = Phase::Failed;
                        Request::Fail
                    } else {
                        self.phase = Phase::Exited;
                        Request::Exit
                    }
                },
                _ => {
                    self.phase = Phase::Failed;
                    Request::Fail
                },
            },
            Phase::Exited => Request::Exit,
            Phase::Failed => Request::Fail,
        }
    }
}

} // verus!
