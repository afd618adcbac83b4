//! Decisions of the frame loop: what each input event asks of the camera
//! and of the loop itself.
//!
//! The loop drains the events of one poll in arrival order. A close request
//! or the escape key ends it at once: events after it in the same batch
//! are not handled.

use vstd::prelude::*;
use crate::camera::Direction;

verus! {

/// The keys the viewer reacts to.
#[derive(Clone, Copy, Debug, PartialEq, Eq, Structural)]
pub enum Key {
    Escape,
    Up,
    Down,
    Left,
    Right,
    Other,
}

/// An input event, reduced to what the viewer's decisions read. A key
/// event counts whatever its action (press, repeat or release); the pointer
/// position itself stays with the loop.
#[derive(Clone, Copy, Debug, PartialEq, Eq, Structural)]
pub enum Event {
    Close,
    Key(Key),
    CursorMoved,
    Other,
}

/// What the loop does for one event.
#[derive(Clone, Copy, Debug, PartialEq, Eq, Structural)]
pub enum Command {
    /// Leave the loop.
    Quit,
    /// Move the camera one fixed step in this direction.
    Move(Direction),
    /// Turn the camera by the pointer's movement: pitch about the current
    /// right vector, then yaw about the current up vector.
    Look,
    /// Nothing to do.
    Ignore,
}

/// Close and escape quit; the up and down arrows move forward and backward,
/// the left and right arrows strafe; a pointer move turns the camera.
pub open spec fn command_of(e: Event) -> Command {
    match e {
        Event::Close => Command::Quit,
        Event::Key(Key::Escape) => Command::Quit,
        Event::Key(Key::Up) => Command::Move(Direction::Forward),
        Event::Key(Key::Down) => Command::Move(Direction::Backward),
        Event::Key(Key::Left) => Command::Move(Direction::Left),
        Event::Key(Key::Right) => Command::Move(Direction::Right),
        Event::CursorMoved => Command::Look,
        _ => Command::Ignore,
    }
}

/// The commands for a batch of events: one per event, in order, up to and
/// including the first `Quit`.
pub open spec fn commands_of(events: Seq<Event>) -> Seq<Command>
    decreases events.len(),
{
    if events.len() == 0 {
        Seq::empty()
    } else if command_of(events[0]) == Command::Quit {
        seq![Command::Quit]
    } else {
        seq![command_of(events[0])] + commands_of(events.drop_first())
    }
}

/// The command for one event.
pub fn command_for(event: Event) -> (c: Command)
    ensures
        c == command_of(event),
{
    match event {
        Event::Close => Command::Quit,
        Event::Key(Key::Escape) => Command::Quit,
        Event::Key(Key::Up) => Command::Move(Direction::Forward),
        Event::Key(Key::Down) => Command::Move(Direction::Backward),
        Event::Key(Key::Left) => Command::Move(Direction::Left),
        Event::Key(Key::Right) => Command::Move(Direction::Right),
        Event::CursorMoved => Command::Look,
        _ => Command::Ignore,
    }
}

proof fn lemma_commands_step(events: Seq<Event>, i: int)
    requires
        0 <= i < events.len(),
        forall|j: int| 0 <= j < i ==> command_of(#[trigger] events[j]) != Command::Quit,
    ensures
        command_of(events[i]) == Command::Quit ==> commands_of(events) == commands_of(
            events.take(i),
        ).push(Command::Quit),
        command_of(events[i]) != Command::Quit ==> commands_of(events.take(i + 1)) == commands_of(
            events.take(i),
        ).push(command_of(events[i])),
    decreases i,
{
    if i > 0 {
        let rest = events.drop_first();
        lemma_commands_step(rest, i - 1);
        assert(events.take(i).drop_first() =~= rest.take(i - 1));
        assert(events.take(i + 1).drop_first() =~= rest.take(i));
        assert(events.take(i)[0] == events[0]);
        assert(events.take(i + 1)[0] == events[0]);
        assert(command_of(events[0]) != Command::Quit);
        if command_of(events[i]) == Command::Quit {
            assert(commands_of(events) == seq![command_of(events[0])] + commands_of(rest));
            assert(commands_of(events) =~= commands_of(events.take(i)).push(Command::Quit));
        } else {
            assert(commands_of(events.take(i + 1)) =~= commands_of(events.take(i)).push(
                command_of(events[i]),
            ));
        }
    } else {
        assert(events.take(0) =~= Seq::<Event>::empty());
        if command_of(events[0]) != Command::Quit {
            assert(events.take(1).drop_first() =~= Seq::<Event>::empty());
            assert(events.take(1)[0] == events[0]);
            assert(commands_of(Seq::<Event>::empty()) =~= Seq::<Command>::empty());
            assert(commands_of(events.take(1)) =~= seq![command_of(events[0])]);
        }
    }
}

/// The commands for one poll's batch of events, in arrival order, ending at
/// the first `Quit`.
pub fn commands_for(events: &Vec<Event>) -> (cs: Vec<Command>)
    ensures
        cs@ == commands_of(events@),
{
    let mut cs: Vec<Command> = Vec::new();
    let mut i: usize = 0;
    while i < events.len()
        invariant
            i <= events@.len(),
            cs@ == commands_of(events@.take(i as int)),
            forall|j: int| 0 <= j < i ==> command_of(#[trigger] events@[j]) != Command::Quit,
        decreases events@.len() - i,
    {
        let c = command_for(events[i]);
        proof {
            lemma_commands_step(events@, i as int);
        }
        cs.push(c);
        if let Command::Quit = c {
            return cs;
        }
        i = i + 1;
    }
    proof {
        assert(events@.take(events@.len() as int) =~= events@);
    }
    cs
}

} // verus!
