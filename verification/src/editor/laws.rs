//! What holds of the editor whatever it is given: of single events, of runs of
//! events, and of the steps of a session.

use vstd::prelude::*;

use super::event::{Event, KeyCode, KeyEvent, CONTROL};
use super::session::{Phase, Reply, RequestView};
use super::terminal::{welcome_line, welcome_message, welcome_spaces};
use super::terminal::{welcome_row, CommandView, Position, Size};
use super::session::TurnView;
use super::{farewell_screen, row_commands, rows_commands, EditorView, Session};

verus! {

/// The release events among `events`, in order.
pub open spec fn releases(events: Seq<Event>) -> Seq<Event>
    decreases events.len(),
{
    if events.len() == 0 {
        Seq::empty()
    } else if events.last().released() {
        releases(events.drop_last()).push(events.last())
    } else {
        releases(events.drop_last())
    }
}

/// `event`, `n` times over.
pub open spec fn repeated(event: Event, n: nat) -> Seq<Event> {
    Seq::new(n, |i: int| event)
}

/// An event that is not the release of a key leaves the cursor where it is.
pub proof fn law_only_a_release_moves(editor: EditorView, event: Event)
    requires
        !event.released(),
    ensures
        editor.after(event).cursor == editor.cursor,
{
}

/// A run of events in which no key is released leaves the cursor where it
/// is.
pub proof fn law_no_release_no_move(editor: EditorView, events: Seq<Event>)
    requires
        forall|i: int| 0 <= i < events.len() ==> !(#[trigger] events[i]).released(),
    ensures
        editor.after_all(events).cursor == editor.cursor,
    decreases events.len(),
{
    if events.len() > 0 {
        law_no_release_no_move(editor, events.drop_last());
    }
}

/// The cursor after a run of events is the cursor after the releases among
/// them, the presses and repeats left out.
pub proof fn law_cursor_follows_releases(editor: EditorView, events: Seq<Event>)
    ensures
        editor.after_all(events).cursor == editor.after_all(releases(events)).cursor,
    decreases events.len(),
{
    if events.len() > 0 {
        let rest = events.drop_last();
        law_cursor_follows_releases(editor, rest);
        if events.last().released() {
            assert(releases(rest).push(events.last()).drop_last() =~= releases(rest));
        }
    }
}

/// Applying one run of events after another is applying the two in a row.
pub proof fn law_runs_compose(editor: EditorView, first: Seq<Event>, second: Seq<Event>)
    ensures
        editor.after_all(first + second) == editor.after_all(first).after_all(second),
    decreases second.len(),
{
    if second.len() == 0 {
        assert(first + second =~= first);
    } else {
        law_runs_compose(editor, first, second.drop_last());
        assert((first + second).drop_last() =~= first + second.drop_last());
    }
}

/// `n` releases of the left arrow take `n` from the cursor's column and stop
/// at zero; the row stays.
pub proof fn law_left_saturates(editor: EditorView, key: KeyEvent, n: nat)
    requires
        key.code == KeyCode::Left,
        key.released(),
    ensures
        editor.after_all(repeated(Event::Key(key), n)).cursor == (Position {
            x: if editor.cursor.x >= n {
                (editor.cursor.x - n) as u16
            } else {
                0
            },
            y: editor.cursor.y,
        }),
    decreases n,
{
    if n > 0 {
        law_left_saturates(editor, key, (n - 1) as nat);
        assert(repeated(Event::Key(key), n).drop_last() =~= repeated(
            Event::Key(key),
            (n - 1) as nat,
        ));
    }
}

/// `n` releases of the up arrow take `n` from the cursor's row and stop at
/// zero; the column stays.
pub proof fn law_up_saturates(editor: EditorView, key: KeyEvent, n: nat)
    requires
        key.code == KeyCode::Up,
        key.released(),
    ensures
        editor.after_all(repeated(Event::Key(key), n)).cursor == (Position {
            x: editor.cursor.x,
            y: if editor.cursor.y >= n {
                (editor.cursor.y - n) as u16
            } else {
                0
            },
        }),
    decreases n,
{
    if n > 0 {
        law_up_saturates(editor, key, (n - 1) as nat);
        assert(repeated(Event::Key(key), n).drop_last() =~= repeated(
            Event::Key(key),
            (n - 1) as nat,
        ));
    }
}

/// `n` releases of the right arrow add `n` to the cursor's column and stop
/// at `u16::MAX`; the row stays.
pub proof fn law_right_saturates(editor: EditorView, key: KeyEvent, n: nat)
    requires
        key.code == KeyCode::Right,
        key.released(),
    ensures
        editor.after_all(repeated(Event::Key(key), n)).cursor == (Position {
            x: if editor.cursor.x + n <= u16::MAX {
                (editor.cursor.x + n) as u16
            } else {
                u16::MAX
            },
            y: editor.cursor.y,
        }),
    decreases n,
{
    if n > 0 {
        law_right_saturates(editor, key, (n - 1) as nat);
        assert(repeated(Event::Key(key), n).drop_last() =~= repeated(
            Event::Key(key),
            (n - 1) as nat,
        ));
    }
}

/// `n` releases of the down arrow add `n` to the cursor's row and stop at
/// `u16::MAX`; the column stays.
pub proof fn law_down_saturates(editor: EditorView, key: KeyEvent, n: nat)
    requires
        key.code == KeyCode::Down,
        key.released(),
    ensures
        editor.after_all(repeated(Event::Key(key), n)).cursor == (Position {
            x: editor.cursor.x,
            y: if editor.cursor.y + n <= u16::MAX {
                (editor.cursor.y + n) as u16
            } else {
                u16::MAX
            },
        }),
    decreases n,
{
    if n > 0 {
        law_down_saturates(editor, key, (n - 1) as nat);
        assert(repeated(Event::Key(key), n).drop_last() =~= repeated(
            Event::Key(key),
            (n - 1) as nat,
        ));
    }
}

/// A cursor in the top left cell stays there through any run of releases of
/// the left and up arrows.
pub proof fn law_top_left_holds(editor: EditorView, events: Seq<Event>)
    requires
        editor.cursor == (Position { x: 0, y: 0 }),
        forall|i: int|
            0 <= i < events.len() ==> (#[trigger] events[i]).releases(KeyCode::Left)
                || events[i].releases(KeyCode::Up),
    ensures
        editor.after_all(events).cursor == (Position { x: 0, y: 0 }),
    decreases events.len(),
{
    if events.len() > 0 {
        law_top_left_holds(editor, events.drop_last());
        assert(events.last() == events[events.len() - 1]);
    }
}

/// The banner line is never longer than the terminal is wide, so it does not
/// wrap. It is as long as the `~`, the spaces and the message together
/// wherever those fit.
pub proof fn law_banner_fits(width: u16, name: Seq<char>, version: Seq<char>)
    ensures
        welcome_line(width, name, version).len() <= width,
        ({
            let message = welcome_message(name, version);
            let whole = 1 + welcome_spaces(width, message.len()) + message.len();
            welcome_line(width, name, version).len() == if whole <= width {
                whole
            } else {
                width as nat
            }
        }),
{
    reveal_strlit("~");
}

/// On a terminal at least one cell wide the banner line begins with `~`, and
/// a message that leaves room stands behind its spaces, whole.
pub proof fn law_banner_is_centred(width: u16, name: Seq<char>, version: Seq<char>)
    requires
        width >= 1,
    ensures
        welcome_line(width, name, version)[0] == '~',
        ({
            let message = welcome_message(name, version);
            let spaces = welcome_spaces(width, message.len()) as int;
            message.len() < width ==> {
                &&& welcome_line(width, name, version).subrange(1, 1 + spaces) == Seq::new(
                    spaces as nat,
                    |i: int| ' ',
                )
                &&& welcome_line(width, name, version).subrange(
                    1 + spaces,
                    1 + spaces + message.len(),
                ) == message
            }
        }),
{
    reveal_strlit("~");
    let message = welcome_message(name, version);
    let spaces = welcome_spaces(width, message.len()) as int;
    let line = "~"@ + Seq::new(spaces as nat, |i: int| ' ') + message;
    if message.len() < width {
        assert(line.len() <= width);
        assert(line.subrange(1, 1 + spaces) =~= Seq::new(spaces as nat, |i: int| ' '));
        assert(line.subrange(1 + spaces, 1 + spaces + message.len()) =~= message);
    }
}

/// Where the commands of row `row` begin among those of the rows drawn:
/// three commands for each row above it, and one more once the banner's row
/// is above it.
pub open spec fn row_start(size: Size, row: nat) -> nat {
    3 * row + if row > welcome_row(size) {
        1nat
    } else {
        0nat
    }
}

/// Drawing the first `rows` rows queues as many commands as stand before row
/// `rows`.
pub proof fn law_rows_fill_the_queue(size: Size, rows: nat, name: Seq<char>, version: Seq<char>)
    requires
        rows <= size.height,
    ensures
        rows_commands(size, rows, name, version).len() == row_start(size, rows),
    decreases rows,
{
    if rows > 0 {
        law_rows_fill_the_queue(size, (rows - 1) as nat, name, version);
    }
}

/// Among the commands of the rows drawn, those of each row stand at the
/// row's place, and they are its move, its erasing, and the banner or the
/// single `~`.
pub proof fn law_each_row_is_drawn(
    size: Size,
    rows: nat,
    row: u16,
    name: Seq<char>,
    version: Seq<char>,
)
    requires
        row < rows <= size.height,
    ensures
        rows_commands(size, rows, name, version).subrange(
            row_start(size, row as nat) as int,
            row_start(size, (row + 1) as nat) as int,
        ) == row_commands(size, row, name, version),
    decreases rows,
{
    let above = rows_commands(size, (rows - 1) as nat, name, version);
    let last = row_commands(size, (rows - 1) as u16, name, version);
    law_rows_fill_the_queue(size, (rows - 1) as nat, name, version);
    law_rows_fill_the_queue(size, rows, name, version);
    let from = row_start(size, row as nat) as int;
    let to = row_start(size, (row + 1) as nat) as int;
    if row < rows - 1 {
        law_each_row_is_drawn(size, (rows - 1) as nat, row, name, version);
        assert((above + last).subrange(from, to) =~= above.subrange(from, to));
    } else {
        assert((above + last).subrange(from, to) =~= last);
    }
}

/// A row that is not the banner's is drawn as a move to its start, its
/// erasing, and a single `~`.
pub proof fn law_plain_rows_hold_one_glyph(
    size: Size,
    row: u16,
    name: Seq<char>,
    version: Seq<char>,
)
    requires
        row < size.height,
        row != welcome_row(size),
    ensures
        rows_commands(size, size.height as nat, name, version).subrange(
            row_start(size, row as nat) as int,
            row_start(size, row as nat) as int + 3,
        ) == seq![
            CommandView::MoveTo(Position { x: 0, y: row }),
            CommandView::ClearLine,
            CommandView::Print("~"@),
        ],
{
    law_each_row_is_drawn(size, size.height as nat, row, name, version);
    assert(row_commands(size, row, name, version) =~= seq![
        CommandView::MoveTo(Position { x: 0, y: row }),
        CommandView::ClearLine,
        CommandView::Print("~"@),
    ]);
}

/// `q` with control held sets the quit flag, whether the key is pressed,
/// repeated or released, and whatever other modifiers are held with it.
pub proof fn law_control_q_quits(editor: EditorView, event: Event)
    requires
        event.asks_to_quit(),
    ensures
        editor.after(event).should_quit,
{
}

/// `q` without control held does not set the quit flag.
pub proof fn law_q_needs_control(editor: EditorView, key: KeyEvent)
    requires
        key.modifiers.bits & CONTROL == 0,
    ensures
        editor.after(Event::Key(key)).should_quit == editor.should_quit,
{
}

/// A rendering with the quit flag set is the farewell, and the loop ends with
/// it: whenever the loop comes to render, on the size it asked for or at its
/// top, an editor that is quitting queues the farewell screen and the session
/// hands out all that is queued, to ask for the normal mode next.
pub proof fn law_a_farewell_ends_the_loop(session: Session, reply: Reply)
    requires
        session.editor.should_quit,
        (session.editor.phase == Phase::Measuring && reply is Size) || (session.editor.phase
            == Phase::Flushing && reply == Reply::Done),
    ensures
        session.turn(reply) == (session.with(farewell_screen()), TurnView::Quit),
        session.step(reply).0 == session.emptied().at(Phase::Leaving),
        session.step(reply).1 == RequestView::Flush(session.queued + farewell_screen()),
{
}

/// No event takes the quit flag back.
pub proof fn law_quit_stays(editor: EditorView, event: Event)
    requires
        editor.should_quit,
    ensures
        editor.after(event).should_quit,
{
}

/// No run of events takes the quit flag back.
pub proof fn law_quit_stays_through(editor: EditorView, events: Seq<Event>)
    requires
        editor.should_quit,
    ensures
        editor.after_all(events).should_quit,
    decreases events.len(),
{
    if events.len() > 0 {
        law_quit_stays_through(editor, events.drop_last());
    }
}

/// No step of a session takes the quit flag back.
pub proof fn law_quit_stays_in_session(session: Session, reply: Reply)
    requires
        session.editor.should_quit,
    ensures
        session.step(reply).0.editor.should_quit,
{
}

/// A step of a session changes the editor's flag and cursor only when it
/// hands the loop the event that the loop was waiting for, and then as that
/// event says.
pub proof fn law_only_an_awaited_event_acts(session: Session, reply: Reply)
    ensures
        session.editor.phase == Phase::Reading ==> forall|event: Event|
            reply == Reply::Event(event) ==> session.step(reply).0.editor == session.editor.after(
                event,
            ).at(Phase::Flushing),
        !(session.editor.phase == Phase::Reading && reply is Event) ==> {
            &&& session.step(reply).0.editor.should_quit == session.editor.should_quit
            &&& session.step(reply).0.editor.cursor == session.editor.cursor
        },
{
}

/// A step never changes the program's name and version.
pub proof fn law_program_stays(session: Session, reply: Reply)
    ensures
        session.step(reply).0.name == session.name,
        session.step(reply).0.version == session.version,
{
}

/// While the loop runs, the session does not end: whatever the driver
/// answers, the loop goes on, or its farewell is handed out, or the
/// terminal's normal mode is asked for.
pub proof fn law_loop_gives_the_terminal_back(session: Session, reply: Reply)
    requires
        session.editor.phase.in_loop(),
    ensures
        session.step(reply).1 != RequestView::Exit,
        session.step(reply).1 != RequestView::Fail,
        session.step(reply).0.editor.phase.in_loop() || session.step(reply).0.editor.phase
            == Phase::Leaving || session.step(reply).0.editor.phase == (Phase::Closing {
            failed: true,
        }),
        (reply == Reply::Failed) ==> session.step(reply).1 == RequestView::DisableRawMode,
{
}

/// The terminal's normal mode is asked for when the loop has ended and at no
/// other time, and the session is over with the answer.
pub proof fn law_normal_mode_is_asked_once(session: Session, reply: Reply)
    ensures
        session.step(reply).1 == RequestView::DisableRawMode <==> session.step(
            reply,
        ).0.editor.phase is Closing,
        session.step(reply).0.editor.phase is Closing ==> session.editor.phase.in_loop()
            || session.editor.phase == Phase::Leaving,
        session.editor.phase is Closing ==> session.step(reply).0.editor.phase.over(),
        session.editor.phase.over() ==> session.step(reply).0 == session,
{
}

/// A session takes hold of the terminal only on the news that raw mode is on.
/// It lets go of it only on the answer to its asking for the normal mode, or
/// when the first screen's size cannot be had.
pub proof fn law_terminal_is_held_between_the_modes(session: Session, reply: Reply)
    ensures
        !session.editor.phase.holds_terminal() && session.step(
            reply,
        ).0.editor.phase.holds_terminal() ==> session.editor.phase == Phase::Enabling && reply
            == Reply::Done,
        session.editor.phase.holds_terminal() && !session.step(
            reply,
        ).0.editor.phase.holds_terminal() ==> session.editor.phase is Closing || (
        session.editor.phase == Phase::Preparing && !(reply is Size)),
{
}

/// Raw mode is asked for at the start of a session and at no other time.
pub proof fn law_raw_mode_is_asked_at_the_start(session: Session, reply: Reply)
    ensures
        session.step(reply).1 == RequestView::EnableRawMode <==> session.editor.phase
            == Phase::Idle,
{
}

/// A session ends well only on the news that the terminal's normal mode is
/// back, and only if the loop ended without a failure.
pub proof fn law_a_good_end_is_earned(session: Session, reply: Reply)
    requires
        !session.editor.phase.over(),
        session.step(reply).1 == RequestView::Exit,
    ensures
        session.editor.phase == (Phase::Closing { failed: false }),
        reply == Reply::Done,
{
}

} // verus!
