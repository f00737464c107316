//! The control loop of the bridge as a state machine.
//!
//! The bridge performs nothing itself. It names the next [`Action`]; the
//! driver performs it and reports the outcome as an [`Event`], on which the
//! bridge moves on and names the action after that. One iteration of the loop
//! starts with a connectivity query. Without a peer it only sleeps. With a
//! peer it samples a frame bit by bit, decodes it, advances both axes, sends
//! the report, waits for the transport, and sleeps.

use vstd::prelude::*;
use crate::acceleration::{advance, advance_spec, is_velocity, AxisVelocity};
use crate::decoder::{decode, decode_spec, ButtonState};
use crate::reader::ShiftRegisterReader;
use crate::report::{build, report_spec, MouseReport};

verus! {

/// Wait after a report has been handed to the transport, in milliseconds.
pub const POST_SEND_DELAY_MS: u32 = 7;

/// Settings of the controller side of the bridge.
#[derive(Clone, Copy, Debug, PartialEq, Eq, Structural)]
pub struct NesController {
    /// Pause between two iterations of the loop, in milliseconds.
    pub response_time: u32,
}

impl NesController {
    /// The default settings: a pause of 50 ms between iterations.
    pub fn new() -> (controller: NesController)
        ensures
            controller.response_time == 50,
    {
        NesController { response_time: 50 }
    }
}

/// Whether a peer was connected at the last connectivity check.
#[derive(Clone, Copy, Debug, PartialEq, Eq, Structural)]
pub enum Link {
    Idle,
    Active,
}

/// Where in an iteration the bridge stands: the action it waits for.
#[derive(Clone, Copy, Debug, PartialEq, Eq, Structural)]
pub enum Phase {
    /// The connectivity query that opens an iteration.
    Query,
    /// The latch pulse that loads the shift register.
    Latch,
    /// The read of the data line for the next position.
    Read,
    /// The clock pulse that shifts the next position onto the data line.
    Clock,
    /// The hand-over of the report to the transport.
    Send,
    /// The wait that the transport needs after a report.
    Pace,
    /// The pause that ends an iteration.
    Sleep,
}

/// What the driver is to do next.
#[derive(Clone, Copy, Debug, PartialEq, Eq, Structural)]
pub enum Action {
    /// Ask the transport whether a peer is connected.
    QueryConnection,
    /// Assert, then deassert the latch line, giving the line the time it
    /// needs to settle. This loads the inputs into the shift register.
    PulseLatch,
    /// Read the level of the data line, which shows the next position.
    ReadData,
    /// Assert, then deassert the clock line, giving the line the time it
    /// needs to settle. This shifts the position after onto the data line.
    PulseClock,
    /// Hand the report to the transport.
    Send(MouseReport),
    /// Block for the given number of milliseconds after a report.
    Pace(u32),
    /// Block for the given number of milliseconds until the next iteration.
    Sleep(u32),
}

/// What came of the action that the driver performed.
#[derive(Clone, Copy, Debug, PartialEq, Eq, Structural)]
pub enum Event {
    /// Answer to `QueryConnection`: whether a peer is connected.
    Connection(bool),
    /// Answer to `ReadData`: whether the data line was low, that is, whether
    /// the input at this position is pressed.
    Level(bool),
    /// The pulse, the hand-over or the wait is over.
    Done,
}

/// The bridge as contracts see it.
pub struct BridgeState {
    pub link: Link,
    pub phase: Phase,
    /// Levels read in the current or the last sampling sequence.
    pub levels: Seq<bool>,
    pub buttons: ButtonState,
    pub x: int,
    pub y: int,
    pub response_time: u32,
}

impl BridgeState {
    /// The states that a bridge can be in.
    pub open spec fn well_formed(self) -> bool {
        &&& is_velocity(self.x)
        &&& is_velocity(self.y)
        &&& self.levels.len() <= 8
        &&& self.phase == Phase::Latch ==> self.levels.len() == 0
        &&& self.phase == Phase::Read ==> self.levels.len() < 8
        &&& self.phase == Phase::Clock ==> self.levels.len() >= 1
    }

    /// The state in which every bridge starts: at the head of an iteration,
    /// with no peer seen yet, no button held and both axes at rest.
    pub open spec fn initial(response_time: u32) -> BridgeState {
        BridgeState {
            link: Link::Idle,
            phase: Phase::Query,
            levels: Seq::empty(),
            buttons: ButtonState { a: false, b: false, start: false },
            x: 0,
            y: 0,
            response_time,
        }
    }

    /// The action that the bridge waits for in this state.
    pub open spec fn pending(self) -> Action {
        match self.phase {
            Phase::Query => Action::QueryConnection,
            Phase::Latch => Action::PulseLatch,
            Phase::Read => Action::ReadData,
            Phase::Clock => Action::PulseClock,
            Phase::Send => Action::Send(report_spec(self.buttons, self.x, self.y)),
            Phase::Pace => Action::Pace(POST_SEND_DELAY_MS),
            Phase::Sleep => Action::Sleep(self.response_time),
        }
    }

    /// The state at the end of a sampling sequence: the frame is decoded, the
    /// buttons are replaced, each axis moves one tick on, and the report of
    /// the new state is due.
    pub open spec fn sampled(self) -> BridgeState {
        let (buttons, dir_x, dir_y) = decode_spec(self.levels);
        BridgeState {
            phase: Phase::Send,
            buttons,
            x: advance_spec(self.x, dir_x),
            y: advance_spec(self.y, dir_y),
            ..self
        }
    }

    /// The state after `event`, or `None` if `event` is no outcome of the
    /// pending action.
    pub open spec fn step(self, event: Event) -> Option<BridgeState> {
        match (self.phase, event) {
            (Phase::Query, Event::Connection(false)) => Some(
                BridgeState { link: Link::Idle, phase: Phase::Sleep, ..self },
            ),
            (Phase::Query, Event::Connection(true)) => Some(
                BridgeState {
                    link: Link::Active,
                    phase: Phase::Latch,
                    levels: Seq::empty(),
                    ..self
                },
            ),
            (Phase::Latch, Event::Done) => Some(BridgeState { phase: Phase::Read, ..self }),
            (Phase::Read, Event::Level(low)) => Some(
                BridgeState { phase: Phase::Clock, levels: self.levels.push(low), ..self },
            ),
            (Phase::Clock, Event::Done) => if self.levels.len() < 8 {
                Some(BridgeState { phase: Phase::Read, ..self })
            } else {
                Some(self.sampled())
            },
            (Phase::Send, Event::Done) => Some(BridgeState { phase: Phase::Pace, ..self }),
            (Phase::Pace, Event::Done) => Some(BridgeState { phase: Phase::Sleep, ..self }),
            (Phase::Sleep, Event::Done) => Some(BridgeState { phase: Phase::Query, ..self }),
            _ => None,
        }
    }
}

/// The bridge: the settings, the link state, the place in the iteration, and
/// what persists from one iteration to the next, that is, the buttons last
/// seen and the velocity of each axis.
#[derive(Debug)]
pub struct Bridge {
    controller: NesController,
    link: Link,
    phase: Phase,
    reader: ShiftRegisterReader,
    buttons: ButtonState,
    x: AxisVelocity,
    y: AxisVelocity,
}

impl View for Bridge {
    type V = BridgeState;

    closed spec fn view(&self) -> BridgeState {
        BridgeState {
            link: self.link,
            phase: self.phase,
            levels: self.reader@,
            buttons: self.buttons,
            x: self.x@,
            y: self.y@,
            response_time: self.controller.response_time,
        }
    }
}

impl Bridge {
    #[verifier::type_invariant]
    pub closed spec fn inv(self) -> bool {
        &&& self.phase == Phase::Latch ==> self.reader@.len() == 0
        &&& self.phase == Phase::Read ==> self.reader@.len() < 8
        &&& self.phase == Phase::Clock ==> self.reader@.len() >= 1
    }

    /// A bridge at the head of its first iteration.
    pub fn new(controller: NesController) -> (bridge: Bridge)
        ensures
            bridge@ == BridgeState::initial(controller.response_time),
    {
        Bridge {
            controller,
            link: Link::Idle,
            phase: Phase::Query,
            reader: ShiftRegisterReader::new(),
            buttons: ButtonState { a: false, b: false, start: false },
            x: AxisVelocity::zero(),
            y: AxisVelocity::zero(),
        }
    }

    /// The settings that the bridge was made with.
    pub fn controller(&self) -> (controller: NesController)
        ensures
            controller.response_time == self@.response_time,
    {
        self.controller
    }

    /// Whether a peer was connected at the last connectivity check.
    pub fn link(&self) -> (link: Link)
        ensures
            link == self@.link,
    {
        self.link
    }

    /// The place in the iteration.
    pub fn phase(&self) -> (phase: Phase)
        ensures
            phase == self@.phase,
    {
        self.phase
    }

    /// The buttons that the last frame showed.
    pub fn buttons(&self) -> (buttons: ButtonState)
        ensures
            buttons == self@.buttons,
    {
        self.buttons
    }

    /// The velocity of the X axis.
    pub fn x(&self) -> (x: AxisVelocity)
        ensures
            x@ == self@.x,
    {
        self.x
    }

    /// The velocity of the Y axis.
    pub fn y(&self) -> (y: AxisVelocity)
        ensures
            y@ == self@.y,
    {
        self.y
    }

    /// The action that the driver is to perform now.
    pub fn pending(&self) -> (action: Action)
        ensures
            action == self@.pending(),
            self@.well_formed(),
    {
        proof {
            use_type_invariant(self);
            use_type_invariant(&self.x);
            use_type_invariant(&self.y);
            use_type_invariant(&self.reader);
            self.lemma_view_is_well_formed();
        }
        match self.phase {
            Phase::Query => Action::QueryConnection,
            Phase::Latch => Action::PulseLatch,
            Phase::Read => Action::ReadData,
            Phase::Clock => Action::PulseClock,
            Phase::Send => Action::Send(build(self.buttons, self.x, self.y)),
            Phase::Pace => Action::Pace(POST_SEND_DELAY_MS),
            Phase::Sleep => Action::Sleep(self.controller.response_time),
        }
    }

    /// Takes the outcome of the pending action and gives the action after it.
    /// An event that is no outcome of the pending action changes nothing and
    /// gives `None`.
    pub fn step(&mut self, event: Event) -> (next: Option<Action>)
        ensures
            match old(self)@.step(event) {
                Some(state) => final(self)@ == state && next == Some(state.pending()),
                None => final(self)@ == old(self)@ && next is None,
            },
            final(self)@.well_formed(),
    {
        proof {
            use_type_invariant(&*self);
            use_type_invariant(&self.x);
            use_type_invariant(&self.y);
            use_type_invariant(&self.reader);
            self.lemma_view_is_well_formed();
        }
        let mut reader = self.reader;
        let mut buttons = self.buttons;
        let mut x = self.x;
        let mut y = self.y;
        let mut link = self.link;
        let phase = match (self.phase, event) {
            (Phase::Query, Event::Connection(false)) => {
                link = Link::Idle;
                Phase::Sleep
            },
            (Phase::Query, Event::Connection(true)) => {
                link = Link::Active;
                reader = ShiftRegisterReader::new();
                Phase::Latch
            },
            (Phase::Latch, Event::Done) => Phase::Read,
            (Phase::Read, Event::Level(low)) => {
                reader.shift_in(low);
                Phase::Clock
            },
            (Phase::Clock, Event::Done) => {
                if !reader.is_complete() {
                    Phase::Read
                } else {
                    let (held, dir_x, dir_y) = decode(reader.frame());
                    buttons = held;
                    x = advance(x, dir_x);
                    y = advance(y, dir_y);
                    Phase::Send
                }
            },
            (Phase::Send, Event::Done) => Phase::Pace,
            (Phase::Pace, Event::Done) => Phase::Sleep,
            (Phase::Sleep, Event::Done) => Phase::Query,
            _ => {
                return None;
            },
        };
        *self = Bridge { controller: self.controller, link, phase, reader, buttons, x, y };
        Some(self.pending())
    }

    proof fn lemma_view_is_well_formed(self)
        requires
            self.inv(),
            self.x.inv(),
            self.y.inv(),
            self.reader.inv(),
        ensures
            self@.well_formed(),
    {
        self.reader.lemma_at_most_a_frame();
    }
}

} // verus!
