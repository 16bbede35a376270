//! The vocabulary shared by the simulator and its front end: the messages that
//! drive the simulated robot and the events that it reports.
use std::collections::HashMap;
use vstd::prelude::*;

verus! {

/// Number of text rows on the emulated LCD.
pub const LCD_HEIGHT: u32 = 8;

/// Number of bytes that fit on one row of the emulated LCD.
pub const LCD_WIDTH: u32 = 40;

/// The text shown on the LCD, top row first.
pub type LcdLines = [String; 8];

/// The kind of device that is plugged into a smart port.
#[derive(Debug, Clone, Copy, PartialEq, Eq, Structural)]
pub enum SmartDeviceSpec {
    Motor,
}

/// Which of the twelve controller buttons are held down.
#[derive(Debug, Clone, Copy, PartialEq, Eq, Structural)]
pub struct DigitalControllerState {
    pub l1: bool,
    pub l2: bool,
    pub r1: bool,
    pub r2: bool,
    pub up: bool,
    pub down: bool,
    pub left: bool,
    pub right: bool,
    pub x: bool,
    pub b: bool,
    pub y: bool,
    pub a: bool,
}

/// The position of the two joysticks, each axis in `-127..=127`.
#[derive(Debug, Clone, Copy, PartialEq, Eq, Structural)]
pub struct AnalogControllerState {
    pub left_x: i8,
    pub left_y: i8,
    pub right_x: i8,
    pub right_y: i8,
}

/// Everything a controller reports at one instant.
#[derive(Debug, Clone, Copy, PartialEq, Eq, Structural)]
pub struct ControllerState {
    pub digital: DigitalControllerState,
    pub analog: AnalogControllerState,
}

/// The match state that the field controller dictates.
#[derive(Debug, Clone, Copy, PartialEq, Eq, Structural)]
pub struct CompetitionPhase {
    pub autonomous: bool,
    pub enabled: bool,
    pub is_competition: bool,
}

impl Default for CompetitionPhase {
    /// Disabled, driver controlled and not connected to a field.
    fn default() -> (phase: Self)
        ensures
            phase == (CompetitionPhase { autonomous: false, enabled: false, is_competition: false }),
    {
        CompetitionPhase { autonomous: false, enabled: false, is_competition: false }
    }
}

/// The unit in which a motor reports its position.
#[derive(Debug, Clone, Copy, PartialEq, Eq, Structural)]
pub enum MotorEncoderUnits {
    Degrees,
    Rotations,
    Counts,
}

impl MotorEncoderUnits {
    /// The number that stands for this unit in the guest ABI.
    pub open spec fn spec_code(self) -> u32 {
        match self {
            MotorEncoderUnits::Degrees => 0,
            MotorEncoderUnits::Rotations => 1,
            MotorEncoderUnits::Counts => 2,
        }
    }

    /// The number that stands for this unit in the guest ABI.
    #[verifier::when_used_as_spec(spec_code)]
    pub fn code(self) -> (code: u32)
        ensures
            code == self.spec_code(),
    {
        match self {
            MotorEncoderUnits::Degrees => 0,
            MotorEncoderUnits::Rotations => 1,
            MotorEncoderUnits::Counts => 2,
        }
    }

    /// The unit that `code` stands for, if it stands for one.
    pub fn from_code(code: u32) -> (units: Option<Self>)
        ensures
            code > 2 <==> units is None,
            units matches Some(u) ==> u.spec_code() == code,
    {
        if code == 0 {
            Some(MotorEncoderUnits::Degrees)
        } else if code == 1 {
            Some(MotorEncoderUnits::Rotations)
        } else if code == 2 {
            Some(MotorEncoderUnits::Counts)
        } else {
            None
        }
    }
}

impl Default for MotorEncoderUnits {
    fn default() -> (units: Self)
        ensures
            units == MotorEncoderUnits::Degrees,
    {
        MotorEncoderUnits::Degrees
    }
}

/// What a motor does when it is told to stop.
#[derive(Debug, Clone, Copy, PartialEq, Eq, Structural)]
pub enum MotorBrakeMode {
    Coast,
    Brake,
    Hold,
}

impl MotorBrakeMode {
    /// The number that stands for this mode in the guest ABI.
    pub open spec fn spec_code(self) -> u32 {
        match self {
            MotorBrakeMode::Coast => 0,
            MotorBrakeMode::Brake => 1,
            MotorBrakeMode::Hold => 2,
        }
    }

    /// The number that stands for this mode in the guest ABI.
    #[verifier::when_used_as_spec(spec_code)]
    pub fn code(self) -> (code: u32)
        ensures
            code == self.spec_code(),
    {
        match self {
            MotorBrakeMode::Coast => 0,
            MotorBrakeMode::Brake => 1,
            MotorBrakeMode::Hold => 2,
        }
    }

    /// The mode that `code` stands for, if it stands for one.
    pub fn from_code(code: u32) -> (mode: Option<Self>)
        ensures
            code > 2 <==> mode is None,
            mode matches Some(m) ==> m.spec_code() == code,
    {
        if code == 0 {
            Some(MotorBrakeMode::Coast)
        } else if code == 1 {
            Some(MotorBrakeMode::Brake)
        } else if code == 2 {
            Some(MotorBrakeMode::Hold)
        } else {
            None
        }
    }
}

impl Default for MotorBrakeMode {
    fn default() -> (mode: Self)
        ensures
            mode == MotorBrakeMode::Coast,
    {
        MotorBrakeMode::Coast
    }
}

/// Something that happened inside the simulator and that a front end may want
/// to show.
#[derive(Debug, Clone, PartialEq, Eq)]
pub enum SimulatorEvent {
    /// The robot code is probably using the API incorrectly.
    Warning(String),
    /// The robot code wrote this text to the serial console. No trailing
    /// newline is implied.
    ConsoleMessage(String),
    /// The robot code is being loaded and validated.
    Loading,
    /// The front end should configure the world and then send
    /// [`SimulatorMessage::BeginSimulation`].
    ResourcesRequired,
    /// The scheduler has begun running robot code.
    RobotCodeRunning,
    /// Every task has exited.
    AllTasksFinished,
    /// The robot code has faulted.
    RobotCodeError { message: String, backtrace: String },
    /// The LCD has been switched on.
    LcdInitialized,
    /// The LCD shows new text and should be redrawn.
    LcdUpdated(LcdLines),
    /// The robot code asked for new LCD colors (RGBA).
    LcdColorsUpdated { foreground: u32, background: u32 },
    /// The LCD has been switched off and should be blanked.
    LcdShutdown,
    /// A motor changed its output or its configuration.
    MotorUpdated { port: u32, volts: i8, encoder_units: MotorEncoderUnits, brake_mode: MotorBrakeMode },
}

/// What a [`SimulatorEvent`] says, with every text as a sequence of characters.
pub ghost enum EventView {
    Warning(Seq<char>),
    ConsoleMessage(Seq<char>),
    Loading,
    ResourcesRequired,
    RobotCodeRunning,
    AllTasksFinished,
    RobotCodeError { message: Seq<char>, backtrace: Seq<char> },
    LcdInitialized,
    LcdUpdated(Seq<Seq<char>>),
    LcdColorsUpdated { foreground: u32, background: u32 },
    LcdShutdown,
    MotorUpdated { port: u32, volts: i8, encoder_units: MotorEncoderUnits, brake_mode: MotorBrakeMode },
}

/// The characters of each row of `lines`.
pub open spec fn lines_view(lines: LcdLines) -> Seq<Seq<char>> {
    Seq::new(8, |i: int| lines@[i]@)
}

impl View for SimulatorEvent {
    type V = EventView;

    open spec fn view(&self) -> EventView {
        match *self {
            SimulatorEvent::Warning(text) => EventView::Warning(text@),
            SimulatorEvent::ConsoleMessage(text) => EventView::ConsoleMessage(text@),
            SimulatorEvent::Loading => EventView::Loading,
            SimulatorEvent::ResourcesRequired => EventView::ResourcesRequired,
            SimulatorEvent::RobotCodeRunning => EventView::RobotCodeRunning,
            SimulatorEvent::AllTasksFinished => EventView::AllTasksFinished,
            SimulatorEvent::RobotCodeError { message, backtrace } => EventView::RobotCodeError {
                message: message@,
                backtrace: backtrace@,
            },
            SimulatorEvent::LcdInitialized => EventView::LcdInitialized,
            SimulatorEvent::LcdUpdated(lines) => EventView::LcdUpdated(lines_view(lines)),
            SimulatorEvent::LcdColorsUpdated { foreground, background } => EventView::LcdColorsUpdated {
                foreground,
                background,
            },
            SimulatorEvent::LcdShutdown => EventView::LcdShutdown,
            SimulatorEvent::MotorUpdated { port, volts, encoder_units, brake_mode } => EventView::MotorUpdated {
                port,
                volts,
                encoder_units,
                brake_mode,
            },
        }
    }
}

/// A message that the front end sends to steer the simulated robot.
#[derive(Debug, Clone, PartialEq, Eq)]
pub enum SimulatorMessage {
    /// New state of the master and the partner controller, in that order.
    /// `None` leaves a controller as it was.
    ControllerUpdate(Option<ControllerState>, Option<ControllerState>),
    /// Which of the three LCD buttons are held down, left to right.
    LcdButtonsUpdate([bool; 3]),
    /// The field controller switched the match state.
    PhaseChange(CompetitionPhase),
    /// The devices that are plugged into the smart ports, by port number.
    PortsUpdate(HashMap<u32, SmartDeviceSpec>),
    /// The world is configured and robot code may start.
    BeginSimulation,
}

/// The queue of events that the simulator has reported and the front end has
/// not yet collected.
pub struct SimulatorInterface {
    events: Vec<SimulatorEvent>,
}

impl View for SimulatorInterface {
    type V = Seq<EventView>;

    closed spec fn view(&self) -> Seq<EventView> {
        Seq::new(self.events@.len(), |i: int| self.events@[i]@)
    }
}

impl SimulatorInterface {
    /// An empty queue.
    pub fn new() -> (interface: Self)
        ensures
            interface@ == Seq::<EventView>::empty(),
    {
        let interface = SimulatorInterface { events: Vec::new() };
        assert(interface@ =~= Seq::<EventView>::empty());
        interface
    }

    /// Reports `event`: it becomes the last of the queue.
    pub fn send(&mut self, event: SimulatorEvent)
        ensures
            final(self)@ == old(self)@.push(event@),
    {
        self.events.push(event);
        assert(self@ =~= old(self)@.push(event@));
    }

    /// Number of events waiting in the queue.
    pub fn len(&self) -> (n: usize)
        ensures
            n == self@.len(),
    {
        self.events.len()
    }

    /// Hands over every waiting event, oldest first, and leaves the queue
    /// empty.
    pub fn take(&mut self) -> (events: Vec<SimulatorEvent>)
        ensures
            final(self)@ == Seq::<EventView>::empty(),
            events@.len() == old(self)@.len(),
            forall|i: int| 0 <= i < events@.len() ==> (#[trigger] events@[i])@ == old(self)@[i],
    {
        let mut events: Vec<SimulatorEvent> = Vec::new();
        std::mem::swap(&mut events, &mut self.events);
        assert(self@ =~= Seq::<EventView>::empty());
        events
    }
}

} // verus!
