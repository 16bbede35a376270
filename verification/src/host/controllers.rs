//! The master and the partner controller: what they report now, and which
//! buttons went down since robot code last asked.
use crate::abi::{
    EINVAL, E_CONTROLLER_ANALOG_LEFT_X, E_CONTROLLER_ANALOG_LEFT_Y, E_CONTROLLER_ANALOG_RIGHT_X,
    E_CONTROLLER_ANALOG_RIGHT_Y, E_CONTROLLER_DIGITAL_A, E_CONTROLLER_DIGITAL_B,
    E_CONTROLLER_DIGITAL_DOWN, E_CONTROLLER_DIGITAL_L1, E_CONTROLLER_DIGITAL_L2,
    E_CONTROLLER_DIGITAL_LEFT, E_CONTROLLER_DIGITAL_R1, E_CONTROLLER_DIGITAL_R2,
    E_CONTROLLER_DIGITAL_RIGHT, E_CONTROLLER_DIGITAL_UP, E_CONTROLLER_DIGITAL_X,
    E_CONTROLLER_DIGITAL_Y, E_CONTROLLER_MASTER, E_CONTROLLER_PARTNER,
};
use crate::interface::{AnalogControllerState, ControllerState, DigitalControllerState};
use vstd::prelude::*;

verus! {

/// Whether `button` identifies one of the twelve buttons.
pub open spec fn is_button(button: u32) -> bool {
    E_CONTROLLER_DIGITAL_L1 <= button <= E_CONTROLLER_DIGITAL_A
}

/// Whether `channel` identifies one of the four joystick axes.
pub open spec fn is_channel(channel: u32) -> bool {
    channel <= E_CONTROLLER_ANALOG_RIGHT_Y
}

/// Whether `id` identifies the master or the partner controller.
pub open spec fn is_controller(id: u32) -> bool {
    id == E_CONTROLLER_MASTER || id == E_CONTROLLER_PARTNER
}

/// The flag that `buttons` holds for `button`; `false` where `button` names
/// no button.
pub open spec fn button_of(buttons: DigitalControllerState, button: u32) -> bool {
    if button == E_CONTROLLER_DIGITAL_L1 {
        buttons.l1
    } else if button == E_CONTROLLER_DIGITAL_L2 {
        buttons.l2
    } else if button == E_CONTROLLER_DIGITAL_R1 {
        buttons.r1
    } else if button == E_CONTROLLER_DIGITAL_R2 {
        buttons.r2
    } else if button == E_CONTROLLER_DIGITAL_UP {
        buttons.up
    } else if button == E_CONTROLLER_DIGITAL_DOWN {
        buttons.down
    } else if button == E_CONTROLLER_DIGITAL_LEFT {
        buttons.left
    } else if button == E_CONTROLLER_DIGITAL_RIGHT {
        buttons.right
    } else if button == E_CONTROLLER_DIGITAL_X {
        buttons.x
    } else if button == E_CONTROLLER_DIGITAL_B {
        buttons.b
    } else if button == E_CONTROLLER_DIGITAL_Y {
        buttons.y
    } else if button == E_CONTROLLER_DIGITAL_A {
        buttons.a
    } else {
        false
    }
}

/// `buttons` with the flag for `button` lowered; `buttons` itself where
/// `button` names no button.
pub open spec fn button_cleared(buttons: DigitalControllerState, button: u32) -> DigitalControllerState {
    if button == E_CONTROLLER_DIGITAL_L1 {
        DigitalControllerState { l1: false, ..buttons }
    } else if button == E_CONTROLLER_DIGITAL_L2 {
        DigitalControllerState { l2: false, ..buttons }
    } else if button == E_CONTROLLER_DIGITAL_R1 {
        DigitalControllerState { r1: false, ..buttons }
    } else if button == E_CONTROLLER_DIGITAL_R2 {
        DigitalControllerState { r2: false, ..buttons }
    } else if button == E_CONTROLLER_DIGITAL_UP {
        DigitalControllerState { up: false, ..buttons }
    } else if button == E_CONTROLLER_DIGITAL_DOWN {
        DigitalControllerState { down: false, ..buttons }
    } else if button == E_CONTROLLER_DIGITAL_LEFT {
        DigitalControllerState { left: false, ..buttons }
    } else if button == E_CONTROLLER_DIGITAL_RIGHT {
        DigitalControllerState { right: false, ..buttons }
    } else if button == E_CONTROLLER_DIGITAL_X {
        DigitalControllerState { x: false, ..buttons }
    } else if button == E_CONTROLLER_DIGITAL_B {
        DigitalControllerState { b: false, ..buttons }
    } else if button == E_CONTROLLER_DIGITAL_Y {
        DigitalControllerState { y: false, ..buttons }
    } else if button == E_CONTROLLER_DIGITAL_A {
        DigitalControllerState { a: false, ..buttons }
    } else {
        buttons
    }
}

/// The position that `axes` holds for `channel`; 0 where `channel` names no
/// axis.
pub open spec fn channel_of(axes: AnalogControllerState, channel: u32) -> i8 {
    if channel == E_CONTROLLER_ANALOG_LEFT_X {
        axes.left_x
    } else if channel == E_CONTROLLER_ANALOG_LEFT_Y {
        axes.left_y
    } else if channel == E_CONTROLLER_ANALOG_RIGHT_X {
        axes.right_x
    } else if channel == E_CONTROLLER_ANALOG_RIGHT_Y {
        axes.right_y
    } else {
        0
    }
}

/// The presses that wait to be read after a controller that reported
/// `previous` and had `pending` presses waiting reports `current`: a press
/// waits if it waited before or if the button went from up to down.
pub open spec fn merged_presses(
    pending: DigitalControllerState,
    previous: DigitalControllerState,
    current: DigitalControllerState,
) -> DigitalControllerState {
    DigitalControllerState {
        l1: (current.l1 && !previous.l1) || pending.l1,
        l2: (current.l2 && !previous.l2) || pending.l2,
        r1: (current.r1 && !previous.r1) || pending.r1,
        r2: (current.r2 && !previous.r2) || pending.r2,
        up: (current.up && !previous.up) || pending.up,
        down: (current.down && !previous.down) || pending.down,
        left: (current.left && !previous.left) || pending.left,
        right: (current.right && !previous.right) || pending.right,
        x: (current.x && !previous.x) || pending.x,
        b: (current.b && !previous.b) || pending.b,
        y: (current.y && !previous.y) || pending.y,
        a: (current.a && !previous.a) || pending.a,
    }
}

/// One connected controller.
#[derive(Debug, Clone, Copy)]
pub struct Controller {
    state: ControllerState,
    new_presses: DigitalControllerState,
}

impl Controller {
    /// What the controller reported last.
    pub closed spec fn state(self) -> ControllerState {
        self.state
    }

    /// The presses that no reader has collected yet.
    pub closed spec fn new_presses(self) -> DigitalControllerState {
        self.new_presses
    }

    /// The controller after it reports `state`.
    pub open spec fn updated(self, state: ControllerState) -> (ControllerState, DigitalControllerState) {
        (state, merged_presses(self.new_presses(), self.state().digital, state.digital))
    }

    /// A controller that has just connected and reports `state`. Every button
    /// that is down counts as a new press.
    pub fn new(state: ControllerState) -> (controller: Self)
        ensures
            controller.state() == state,
            controller.new_presses() == state.digital,
    {
        Controller { state, new_presses: state.digital }
    }

    /// Takes in a new report. A button that went from up to down since the
    /// last report becomes a new press; presses that were not collected yet
    /// stay.
    pub fn update(&mut self, state: ControllerState)
        ensures
            final(self).state() == state,
            final(self).new_presses() == merged_presses(
                old(self).new_presses(),
                old(self).state().digital,
                state.digital,
            ),
    {
        self.new_presses =
        DigitalControllerState {
            l1: (state.digital.l1 && !self.state.digital.l1) || self.new_presses.l1,
            l2: (state.digital.l2 && !self.state.digital.l2) || self.new_presses.l2,
            r1: (state.digital.r1 && !self.state.digital.r1) || self.new_presses.r1,
            r2: (state.digital.r2 && !self.state.digital.r2) || self.new_presses.r2,
            up: (state.digital.up && !self.state.digital.up) || self.new_presses.up,
            down: (state.digital.down && !self.state.digital.down) || self.new_presses.down,
            left: (state.digital.left && !self.state.digital.left) || self.new_presses.left,
            right: (state.digital.right && !self.state.digital.right) || self.new_presses.right,
            x: (state.digital.x && !self.state.digital.x) || self.new_presses.x,
            b: (state.digital.b && !self.state.digital.b) || self.new_presses.b,
            y: (state.digital.y && !self.state.digital.y) || self.new_presses.y,
            a: (state.digital.a && !self.state.digital.a) || self.new_presses.a,
        };
        self.state = state;
    }

    /// Whether `button` is down. `None` where `button` names no button.
    pub fn digital(&self, button: u32) -> (held: Option<bool>)
        ensures
            held == if is_button(button) {
                Some(button_of(self.state().digital, button))
            } else {
                None
            },
    {
        read_button(&self.state.digital, button)
    }

    /// The position of the axis `channel`. `None` where `channel` names no
    /// axis.
    pub fn analog(&self, channel: u32) -> (position: Option<i8>)
        ensures
            position == if is_channel(channel) {
                Some(channel_of(self.state().analog, channel))
            } else {
                None
            },
    {
        if channel == E_CONTROLLER_ANALOG_LEFT_X {
            Some(self.state.analog.left_x)
        } else if channel == E_CONTROLLER_ANALOG_LEFT_Y {
            Some(self.state.analog.left_y)
        } else if channel == E_CONTROLLER_ANALOG_RIGHT_X {
            Some(self.state.analog.right_x)
        } else if channel == E_CONTROLLER_ANALOG_RIGHT_Y {
            Some(self.state.analog.right_y)
        } else {
            None
        }
    }

    /// Collects the new press of `button`: says whether one was waiting, and
    /// none waits afterwards. `None`, and nothing changes, where `button`
    /// names no button.
    pub fn take_new_press(&mut self, button: u32) -> (pressed: Option<bool>)
        ensures
            final(self).state() == old(self).state(),
            final(self).new_presses() == button_cleared(old(self).new_presses(), button),
            pressed == if is_button(button) {
                Some(button_of(old(self).new_presses(), button))
            } else {
                None
            },
    {
        let pressed = read_button(&self.new_presses, button);
        self.new_presses = clear_button(self.new_presses, button);
        pressed
    }
}

impl From<ControllerState> for Controller {
    fn from(state: ControllerState) -> (controller: Self) {
        Controller::new(state)
    }
}

impl vstd::std_specs::convert::FromSpecImpl<ControllerState> for Controller {
    open spec fn obeys_from_spec() -> bool {
        true
    }

    closed spec fn from_spec(state: ControllerState) -> Self {
        Controller { state, new_presses: state.digital }
    }
}

/// The flag for `button` in `buttons`. `None` where `button` names no button.
fn read_button(buttons: &DigitalControllerState, button: u32) -> (held: Option<bool>)
    ensures
        held == if is_button(button) {
            Some(button_of(*buttons, button))
        } else {
            None
        },
{
    if button == E_CONTROLLER_DIGITAL_L1 {
        Some(buttons.l1)
    } else if button == E_CONTROLLER_DIGITAL_L2 {
        Some(buttons.l2)
    } else if button == E_CONTROLLER_DIGITAL_R1 {
        Some(buttons.r1)
    } else if button == E_CONTROLLER_DIGITAL_R2 {
        Some(buttons.r2)
    } else if button == E_CONTROLLER_DIGITAL_UP {
        Some(buttons.up)
    } else if button == E_CONTROLLER_DIGITAL_DOWN {
        Some(buttons.down)
    } else if button == E_CONTROLLER_DIGITAL_LEFT {
        Some(buttons.left)
    } else if button == E_CONTROLLER_DIGITAL_RIGHT {
        Some(buttons.right)
    } else if button == E_CONTROLLER_DIGITAL_X {
        Some(buttons.x)
    } else if button == E_CONTROLLER_DIGITAL_B {
        Some(buttons.b)
    } else if button == E_CONTROLLER_DIGITAL_Y {
        Some(buttons.y)
    } else if button == E_CONTROLLER_DIGITAL_A {
        Some(buttons.a)
    } else {
        None
    }
}

/// `buttons` with the flag for `button` lowered.
fn clear_button(buttons: DigitalControllerState, button: u32) -> (cleared: DigitalControllerState)
    ensures
        cleared == button_cleared(buttons, button),
{
    if button == E_CONTROLLER_DIGITAL_L1 {
        DigitalControllerState { l1: false, ..buttons }
    } else if button == E_CONTROLLER_DIGITAL_L2 {
        DigitalControllerState { l2: false, ..buttons }
    } else if button == E_CONTROLLER_DIGITAL_R1 {
        DigitalControllerState { r1: false, ..buttons }
    } else if button == E_CONTROLLER_DIGITAL_R2 {
        DigitalControllerState { r2: false, ..buttons }
    } else if button == E_CONTROLLER_DIGITAL_UP {
        DigitalControllerState { up: false, ..buttons }
    } else if button == E_CONTROLLER_DIGITAL_DOWN {
        DigitalControllerState { down: false, ..buttons }
    } else if button == E_CONTROLLER_DIGITAL_LEFT {
        DigitalControllerState { left: false, ..buttons }
    } else if button == E_CONTROLLER_DIGITAL_RIGHT {
        DigitalControllerState { right: false, ..buttons }
    } else if button == E_CONTROLLER_DIGITAL_X {
        DigitalControllerState { x: false, ..buttons }
    } else if button == E_CONTROLLER_DIGITAL_B {
        DigitalControllerState { b: false, ..buttons }
    } else if button == E_CONTROLLER_DIGITAL_Y {
        DigitalControllerState { y: false, ..buttons }
    } else if button == E_CONTROLLER_DIGITAL_A {
        DigitalControllerState { a: false, ..buttons }
    } else {
        buttons
    }
}

/// What becomes of one controller slot when a message brings `report` for
/// it: no report leaves the slot alone, a report for an empty slot connects
/// a controller, a report for a connected one updates it.
pub open spec fn slot_after(slot: Option<Controller>, report: Option<ControllerState>) -> Option<
    (ControllerState, DigitalControllerState),
> {
    match (slot, report) {
        (None, None) => None,
        (Some(c), None) => Some((c.state(), c.new_presses())),
        (None, Some(state)) => Some((state, state.digital)),
        (Some(c), Some(state)) => Some(c.updated(state)),
    }
}

/// The slot after `report` has arrived for it.
fn advance(slot: Option<Controller>, report: Option<ControllerState>) -> (next: Option<Controller>)
    ensures
        slot_view(next) == slot_after(slot, report),
{
    match report {
        None => slot,
        Some(state) => match slot {
            None => Some(Controller::new(state)),
            Some(controller) => {
                let mut controller = controller;
                controller.update(state);
                Some(controller)
            },
        },
    }
}

/// What a slot holds, as the pair of the last report and the waiting presses.
pub open spec fn slot_view(slot: Option<Controller>) -> Option<(ControllerState, DigitalControllerState)> {
    match slot {
        None => None,
        Some(c) => Some((c.state(), c.new_presses())),
    }
}

/// The state of the master and the partner controller.
#[derive(Debug, Clone, Copy)]
pub struct Controllers {
    master: Option<Controller>,
    partner: Option<Controller>,
}

impl Controllers {
    /// The master controller, if one is connected.
    pub closed spec fn master(self) -> Option<Controller> {
        self.master
    }

    /// The partner controller, if one is connected.
    pub closed spec fn partner(self) -> Option<Controller> {
        self.partner
    }

    /// The controller that `id` identifies, if it is connected.
    pub open spec fn slot(self, id: u32) -> Option<Controller> {
        if id == E_CONTROLLER_MASTER {
            self.master()
        } else if id == E_CONTROLLER_PARTNER {
            self.partner()
        } else {
            None
        }
    }

    /// Controllers that report `master` and `partner`; `None` is a controller
    /// that is not connected.
    pub fn new(master: Option<ControllerState>, partner: Option<ControllerState>) -> (controllers: Self)
        ensures
            slot_view(controllers.master()) == slot_after(None, master),
            slot_view(controllers.partner()) == slot_after(None, partner),
    {
        Controllers {
            master: match master {
                Some(state) => Some(Controller::new(state)),
                None => None,
            },
            partner: match partner {
                Some(state) => Some(Controller::new(state)),
                None => None,
            },
        }
    }

    /// Takes in a new report for each controller that has one, and records
    /// the buttons that went down.
    pub fn update(&mut self, new_master: Option<ControllerState>, new_partner: Option<ControllerState>)
        ensures
            slot_view(final(self).master()) == slot_after(old(self).master(), new_master),
            slot_view(final(self).partner()) == slot_after(old(self).partner(), new_partner),
    {
        self.master = advance(self.master, new_master);
        self.partner = advance(self.partner, new_partner);
    }

    /// Whether the controller `controller_id` is connected. `EINVAL` where
    /// the identifier names no controller.
    pub fn is_connected(&self, controller_id: u32) -> (connected: Result<bool, i32>)
        ensures
            connected == if is_controller(controller_id) {
                Ok::<bool, i32>(self.slot(controller_id) is Some)
            } else {
                Err::<bool, i32>(EINVAL)
            },
    {
        if controller_id == E_CONTROLLER_MASTER {
            Ok(self.master.is_some())
        } else if controller_id == E_CONTROLLER_PARTNER {
            Ok(self.partner.is_some())
        } else {
            Err(EINVAL)
        }
    }

    /// The position of the axis `channel` of the controller `controller_id`,
    /// in `-127..=127`; 0 while that controller is not connected. `EINVAL`
    /// where the identifier names no controller, or where the controller is
    /// connected and `channel` names no axis.
    pub fn get_analog(&self, controller_id: u32, channel: u32) -> (position: Result<i32, i32>)
        ensures
            position == if !is_controller(controller_id) {
                Err::<i32, i32>(EINVAL)
            } else {
                match self.slot(controller_id) {
                    None => Ok::<i32, i32>(0),
                    Some(c) => if is_channel(channel) {
                        Ok::<i32, i32>(channel_of(c.state().analog, channel) as i32)
                    } else {
                        Err::<i32, i32>(EINVAL)
                    },
                }
            },
    {
        let controller = if controller_id == E_CONTROLLER_MASTER {
            self.master
        } else if controller_id == E_CONTROLLER_PARTNER {
            self.partner
        } else {
            return Err(EINVAL);
        };
        match controller {
            None => Ok(0),
            Some(c) => match c.analog(channel) {
                Some(position) => Ok(i32::from(position)),
                None => Err(EINVAL),
            },
        }
    }

    /// Whether `button` of the controller `controller_id` is down; `false`
    /// while that controller is not connected. `EINVAL` where the identifier
    /// names no controller, or where the controller is connected and `button`
    /// names no button.
    pub fn get_digital(&self, controller_id: u32, button: u32) -> (held: Result<bool, i32>)
        ensures
            held == if !is_controller(controller_id) {
                Err::<bool, i32>(EINVAL)
            } else {
                match self.slot(controller_id) {
                    None => Ok::<bool, i32>(false),
                    Some(c) => if is_button(button) {
                        Ok::<bool, i32>(button_of(c.state().digital, button))
                    } else {
                        Err::<bool, i32>(EINVAL)
                    },
                }
            },
    {
        let controller = if controller_id == E_CONTROLLER_MASTER {
            self.master
        } else if controller_id == E_CONTROLLER_PARTNER {
            self.partner
        } else {
            return Err(EINVAL);
        };
        match controller {
            None => Ok(false),
            Some(c) => match c.digital(button) {
                Some(held) => Ok(held),
                None => Err(EINVAL),
            },
        }
    }

    /// Whether `button` of the controller `controller_id` went down since the
    /// last call for that button; the press is collected, so the next call
    /// says `false` unless the button goes down again. `false` while the
    /// controller is not connected. `EINVAL`, and nothing changes, where the
    /// identifier names no controller, or where the controller is connected
    /// and `button` names no button.
    pub fn get_digital_new_press(&mut self, controller_id: u32, button: u32) -> (pressed: Result<bool, i32>)
        ensures
            pressed == if !is_controller(controller_id) {
                Err::<bool, i32>(EINVAL)
            } else {
                match old(self).slot(controller_id) {
                    None => Ok::<bool, i32>(false),
                    Some(c) => if is_button(button) {
                        Ok::<bool, i32>(button_of(c.new_presses(), button))
                    } else {
                        Err::<bool, i32>(EINVAL)
                    },
                }
            },
            forall|id: u32|
                id != controller_id ==> final(self).slot(id) == old(self).slot(id),
            slot_view(final(self).slot(controller_id)) == match old(self).slot(controller_id) {
                None => None,
                Some(c) => Some((c.state(), button_cleared(c.new_presses(), button))),
            },
    {
        if controller_id == E_CONTROLLER_MASTER {
            match self.master {
                None => Ok(false),
                Some(mut c) => {
                    let pressed = c.take_new_press(button);
                    self.master = Some(c);
                    match pressed {
                        Some(pressed) => Ok(pressed),
                        None => Err(EINVAL),
                    }
                },
            }
        } else if controller_id == E_CONTROLLER_PARTNER {
            match self.partner {
                None => Ok(false),
                Some(mut c) => {
                    let pressed = c.take_new_press(button);
                    self.partner = Some(c);
                    match pressed {
                        Some(pressed) => Ok(pressed),
                        None => Err(EINVAL),
                    }
                },
            }
        } else {
            Err(EINVAL)
        }
    }
}

/// A press waits after a report exactly if it waited before or the button
/// went from up to down.
proof fn lemma_merged_press(
    pending: DigitalControllerState,
    previous: DigitalControllerState,
    current: DigitalControllerState,
    button: u32,
)
    requires
        is_button(button),
    ensures
        button_of(merged_presses(pending, previous, current), button) == (button_of(pending, button)
            || (button_of(current, button) && !button_of(previous, button))),
{
}

/// Collecting the press of one button lowers its flag and no other.
proof fn lemma_cleared_press(buttons: DigitalControllerState, button: u32, other: u32)
    requires
        is_button(button),
        is_button(other),
    ensures
        !button_of(button_cleared(buttons, button), button),
        other != button ==> button_of(button_cleared(buttons, button), other) == button_of(
            buttons,
            other,
        ),
{
}

/// Each press is reported once. When a controller reports `current` after
/// `previous`, the next reader of `button` is told of a press exactly if
/// one was waiting or the button went from up to down; whoever reads after
/// that, with no report in between, is told of none; a report in which the
/// button does not go down anew leaves it at that; and reading one button
/// takes no press of another button, `other`, away.
pub proof fn lemma_new_press_is_reported_once(
    pending: DigitalControllerState,
    previous: DigitalControllerState,
    current: DigitalControllerState,
    next: DigitalControllerState,
    button: u32,
    other: u32,
)
    requires
        is_button(button),
        is_button(other),
        other != button,
    ensures
        button_of(merged_presses(pending, previous, current), button) == (button_of(pending, button)
            || (button_of(current, button) && !button_of(previous, button))),
        !button_of(button_cleared(merged_presses(pending, previous, current), button), button),
        button_of(
            merged_presses(
                button_cleared(merged_presses(pending, previous, current), button),
                current,
                next,
            ),
            button,
        ) == (button_of(next, button) && !button_of(current, button)),
        button_of(button_cleared(merged_presses(pending, previous, current), button), other)
            == button_of(merged_presses(pending, previous, current), other),
{
    let waiting = merged_presses(pending, previous, current);
    let collected = button_cleared(waiting, button);
    lemma_merged_press(pending, previous, current, button);
    lemma_cleared_press(waiting, button, other);
    lemma_merged_press(collected, current, next, button);
}

} // verus!
