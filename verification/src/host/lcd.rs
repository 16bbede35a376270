//! The legacy LCD emulator: eight rows of text and three buttons.
use crate::abi::{EINVAL, ENXIO};
use crate::interface::{
    lines_view, EventView, LcdLines, SimulatorEvent, SimulatorInterface, LCD_HEIGHT, LCD_WIDTH,
};
use vstd::prelude::*;
use vstd::string::StringExecFns;
use vstd::utf8::encode_utf8;

verus! {

/// The LCD was switched on before.
#[derive(Debug, Clone, Copy, PartialEq, Eq, Structural)]
pub struct AlreadyInitializedError;

/// The colors of the LCD (RGBA).
#[derive(Debug, Clone, Copy, PartialEq, Eq, Structural)]
pub struct LcdColors {
    pub background: u32,
    pub foreground: u32,
}

/// Number of buttons below the LCD.
pub const LCD_BUTTONS: usize = 3;

/// Whether `line` names a row of the LCD.
pub open spec fn line_in_bounds(line: i32) -> bool {
    0 <= line < LCD_HEIGHT
}

/// Whether `text` fits on one row of the LCD: its UTF-8 encoding has at most
/// [`LCD_WIDTH`] bytes.
pub open spec fn text_fits(text: Seq<char>) -> bool {
    encode_utf8(text).len() <= LCD_WIDTH
}

/// Eight empty rows.
pub open spec fn blank_lines() -> Seq<Seq<char>> {
    Seq::new(8, |i: int| Seq::<char>::empty())
}

/// The callback of the button `button`, if the button went from up to down
/// and has a callback.
pub open spec fn callback_due(
    previous: Seq<bool>,
    current: Seq<bool>,
    callbacks: Seq<Option<u32>>,
    button: int,
) -> Seq<u32> {
    if current[button] && !previous[button] && callbacks[button] is Some {
        seq![callbacks[button].unwrap()]
    } else {
        Seq::empty()
    }
}

/// The callbacks that are due when the buttons go from `previous` to
/// `current`, leftmost button first.
pub open spec fn callbacks_due(previous: Seq<bool>, current: Seq<bool>, callbacks: Seq<Option<u32>>) -> Seq<
    u32,
> {
    callback_due(previous, current, callbacks, 0) + callback_due(previous, current, callbacks, 1)
        + callback_due(previous, current, callbacks, 2)
}

/// The LCD.
#[derive(Debug)]
pub struct Lcd {
    lines: LcdLines,
    initialized: bool,
    button_presses: [bool; 3],
    button_callbacks: [Option<u32>; 3],
}

impl Lcd {
    /// The text on the LCD, top row first: eight rows.
    pub closed spec fn lines(&self) -> Seq<Seq<char>> {
        lines_view(self.lines)
    }

    /// Whether the LCD has been switched on.
    pub closed spec fn initialized(&self) -> bool {
        self.initialized
    }

    /// Which buttons were down at the last report: three flags.
    pub closed spec fn button_presses(&self) -> Seq<bool> {
        self.button_presses@
    }

    /// The callback that robot code registered for each button, as an index
    /// into its indirect function table: three entries.
    pub closed spec fn button_callbacks(&self) -> Seq<Option<u32>> {
        self.button_callbacks@
    }

    /// The shape of every LCD: eight rows of text, and three buttons, each
    /// with its place for a callback.
    pub proof fn lemma_shape(&self)
        ensures
            self.lines().len() == LCD_HEIGHT,
            self.button_presses().len() == LCD_BUTTONS,
            self.button_callbacks().len() == LCD_BUTTONS,
    {
    }

    /// An LCD that is switched off and blank.
    pub fn new() -> (lcd: Self)
        ensures
            !lcd.initialized(),
            lcd.lines() == blank_lines(),
            lcd.button_presses() == seq![false, false, false],
            lcd.button_callbacks() == seq![None::<u32>, None::<u32>, None::<u32>],
    {
        let lcd = Lcd {
            lines: [
                String::new(),
                String::new(),
                String::new(),
                String::new(),
                String::new(),
                String::new(),
                String::new(),
                String::new(),
            ],
            initialized: false,
            button_presses: [false, false, false],
            button_callbacks: [None, None, None],
        };
        assert(lcd.lines() =~= blank_lines());
        assert(lcd.button_presses() =~= seq![false, false, false]);
        assert(lcd.button_callbacks() =~= seq![None::<u32>, None::<u32>, None::<u32>]);
        lcd
    }

    /// Whether the LCD has been switched on.
    pub fn is_initialized(&self) -> (initialized: bool)
        ensures
            initialized == self.initialized(),
    {
        self.initialized
    }

    fn assert_initialized(&self) -> (checked: Result<(), i32>)
        ensures
            checked == if self.initialized() {
                Ok::<(), i32>(())
            } else {
                Err::<(), i32>(ENXIO)
            },
    {
        if !self.initialized {
            return Err(ENXIO);
        }
        Ok(())
    }

    fn assert_line_in_bounds(&self, line: i32) -> (checked: Result<(), i32>)
        ensures
            checked == if line_in_bounds(line) {
                Ok::<(), i32>(())
            } else {
                Err::<(), i32>(EINVAL)
            },
    {
        if line < 0 || line >= 8 {
            return Err(EINVAL);
        }
        Ok(())
    }

    fn assert_text_length_in_bounds(&self, text: &str) -> (checked: Result<(), i32>)
        ensures
            checked == if text_fits(text@) {
                Ok::<(), i32>(())
            } else {
                Err::<(), i32>(EINVAL)
            },
    {
        if text.as_bytes().len() > 40 {
            return Err(EINVAL);
        }
        Ok(())
    }

    /// A copy of the text on the LCD.
    fn snapshot(&self) -> (lines: LcdLines)
        ensures
            lines_view(lines) == self.lines(),
    {
        let lines = [
            self.lines[0].clone(),
            self.lines[1].clone(),
            self.lines[2].clone(),
            self.lines[3].clone(),
            self.lines[4].clone(),
            self.lines[5].clone(),
            self.lines[6].clone(),
            self.lines[7].clone(),
        ];
        assert(lines_view(lines) =~= self.lines());
        lines
    }

    /// Reports the text on the LCD.
    pub fn draw(&self, interface: &mut SimulatorInterface)
        ensures
            final(interface)@ == old(interface)@.push(EventView::LcdUpdated(self.lines())),
    {
        interface.send(SimulatorEvent::LcdUpdated(self.snapshot()));
    }

    /// Switches the LCD on, forgets the buttons and their callbacks, and
    /// reports that the LCD is on. An error, and nothing happens, where the
    /// LCD is on already.
    pub fn initialize(&mut self, interface: &mut SimulatorInterface) -> (done: Result<
        (),
        AlreadyInitializedError,
    >)
        ensures
            done is Err <==> old(self).initialized(),
            done is Err ==> *final(self) == *old(self) && final(interface)@ == old(interface)@,
            done is Ok ==> {
                &&& final(self).initialized()
                &&& final(self).lines() == old(self).lines()
                &&& final(self).button_presses() == seq![false, false, false]
                &&& final(self).button_callbacks() == seq![None::<u32>, None::<u32>, None::<u32>]
                &&& final(interface)@ == old(interface)@.push(EventView::LcdInitialized)
            },
    {
        if self.initialized {
            return Err(AlreadyInitializedError);
        }
        self.initialized = true;
        self.button_presses = [false, false, false];
        self.button_callbacks = [None, None, None];
        interface.send(SimulatorEvent::LcdInitialized);
        assert(self.button_presses() =~= seq![false, false, false]);
        assert(self.button_callbacks() =~= seq![None::<u32>, None::<u32>, None::<u32>]);
        Ok(())
    }

    /// Shows `text` on the row `line` and reports the new text of the LCD.
    /// `ENXIO` where the LCD is off; otherwise `EINVAL` where `line` names
    /// no row or `text` does not fit on a row. An error changes and reports
    /// nothing.
    pub fn set_line(&mut self, interface: &mut SimulatorInterface, line: i32, text: &str) -> (done: Result<
        (),
        i32,
    >)
        ensures
            done == if !old(self).initialized() {
                Err::<(), i32>(ENXIO)
            } else if !line_in_bounds(line) || !text_fits(text@) {
                Err::<(), i32>(EINVAL)
            } else {
                Ok::<(), i32>(())
            },
            final(self).initialized() == old(self).initialized(),
            final(self).button_presses() == old(self).button_presses(),
            final(self).button_callbacks() == old(self).button_callbacks(),
            done is Err ==> final(self).lines() == old(self).lines() && final(interface)@ == old(interface)@,
            done is Ok ==> final(self).lines() == old(self).lines().update(line as int, text@) && final(interface)@ == old(interface)@.push(EventView::LcdUpdated(final(self).lines())),
    {
        self.assert_initialized()?;
        self.assert_line_in_bounds(line)?;
        self.assert_text_length_in_bounds(text)?;
        self.lines[line as usize] = String::from_str(text);
        assert(self.lines() =~= old(self).lines().update(line as int, text@));
        self.draw(interface);
        Ok(())
    }

    /// Blanks every row and reports the new text of the LCD. `ENXIO`, and
    /// nothing happens, where the LCD is off.
    pub fn clear(&mut self, interface: &mut SimulatorInterface) -> (done: Result<(), i32>)
        ensures
            done == if old(self).initialized() {
                Ok::<(), i32>(())
            } else {
                Err::<(), i32>(ENXIO)
            },
            final(self).initialized() == old(self).initialized(),
            final(self).button_presses() == old(self).button_presses(),
            final(self).button_callbacks() == old(self).button_callbacks(),
            done is Err ==> final(self).lines() == old(self).lines() && final(interface)@ == old(interface)@,
            done is Ok ==> final(self).lines() == blank_lines() && final(interface)@ == old(interface)@.push(EventView::LcdUpdated(blank_lines())),
    {
        self.assert_initialized()?;
        self.lines =
        [
            String::new(),
            String::new(),
            String::new(),
            String::new(),
            String::new(),
            String::new(),
            String::new(),
            String::new(),
        ];
        assert(self.lines() =~= blank_lines());
        self.draw(interface);
        Ok(())
    }

    /// Blanks the row `line` and reports the new text of the LCD. `ENXIO`
    /// where the LCD is off; otherwise `EINVAL` where `line` names no row.
    /// An error changes and reports nothing.
    pub fn clear_line(&mut self, interface: &mut SimulatorInterface, line: i32) -> (done: Result<(), i32>)
        ensures
            done == if !old(self).initialized() {
                Err::<(), i32>(ENXIO)
            } else if !line_in_bounds(line) {
                Err::<(), i32>(EINVAL)
            } else {
                Ok::<(), i32>(())
            },
            final(self).initialized() == old(self).initialized(),
            final(self).button_presses() == old(self).button_presses(),
            final(self).button_callbacks() == old(self).button_callbacks(),
            done is Err ==> final(self).lines() == old(self).lines() && final(interface)@ == old(interface)@,
            done is Ok ==> final(self).lines() == old(self).lines().update(
                line as int,
                Seq::<char>::empty(),
            ) && final(interface)@ == old(interface)@.push(EventView::LcdUpdated(final(self).lines())),
    {
        self.assert_initialized()?;
        self.assert_line_in_bounds(line)?;
        self.lines[line as usize] = String::new();
        assert(self.lines() =~= old(self).lines().update(line as int, Seq::<char>::empty()));
        self.draw(interface);
        Ok(())
    }

    /// Registers `callback`, an index into the indirect function table of
    /// robot code, for the button `button`. `ENXIO`, and nothing changes,
    /// where the LCD is off.
    pub fn set_btn_press_callback(&mut self, button: usize, callback: u32) -> (done: Result<(), i32>)
        requires
            button < LCD_BUTTONS,
        ensures
            done == if old(self).initialized() {
                Ok::<(), i32>(())
            } else {
                Err::<(), i32>(ENXIO)
            },
            final(self).initialized() == old(self).initialized(),
            final(self).lines() == old(self).lines(),
            final(self).button_presses() == old(self).button_presses(),
            final(self).button_callbacks() == if done is Ok {
                old(self).button_callbacks().update(button as int, Some(callback))
            } else {
                old(self).button_callbacks()
            },
    {
        self.assert_initialized()?;
        self.button_callbacks[button] = Some(callback);
        Ok(())
    }

    /// Takes in which buttons are down, and returns the callbacks that the
    /// caller has to run: for each button that went from up to down and has
    /// a callback, that callback, leftmost button first.
    pub fn press(&mut self, buttons: [bool; 3]) -> (callbacks: Vec<u32>)
        ensures
            callbacks@ == callbacks_due(old(self).button_presses(), buttons@, old(self).button_callbacks()),
            final(self).button_presses() == buttons@,
            final(self).button_callbacks() == old(self).button_callbacks(),
            final(self).initialized() == old(self).initialized(),
            final(self).lines() == old(self).lines(),
    {
        let previous_presses = self.button_presses;
        self.button_presses = buttons;
        let mut callbacks: Vec<u32> = Vec::new();
        let mut index: usize = 0;
        while index < 3
            invariant
                index <= 3,
                self.button_callbacks == old(self).button_callbacks,
                previous_presses == old(self).button_presses,
                callbacks@ == if index == 0 {
                    Seq::<u32>::empty()
                } else if index == 1 {
                    callback_due(previous_presses@, buttons@, self.button_callbacks@, 0)
                } else if index == 2 {
                    callback_due(previous_presses@, buttons@, self.button_callbacks@, 0) + callback_due(
                        previous_presses@,
                        buttons@,
                        self.button_callbacks@,
                        1,
                    )
                } else {
                    callbacks_due(previous_presses@, buttons@, self.button_callbacks@)
                },
            decreases 3 - index,
        {
            let ghost due = callback_due(previous_presses@, buttons@, self.button_callbacks@, index as int);
            let ghost so_far = callbacks@;
            if buttons[index] && !previous_presses[index] {
                if let Some(callback) = self.button_callbacks[index] {
                    callbacks.push(callback);
                }
            }
            assert(callbacks@ =~= so_far + due);
            index = index + 1;
        }
        callbacks
    }
}

} // verus!
