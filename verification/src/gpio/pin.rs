//! Pin handles and their mode lifecycle.
//!
//! A [`Pin`] is an unconfigured handle to a single claimed pin number; it is
//! produced by [`crate::gpio::Gpio::claim`], which guarantees that at most
//! one live handle exists per pin. Converting a `Pin` into an [`OutputPin`]
//! configures the pin as an output, remembers the mode the pin had before
//! (unless it already was an output), and restores that mode when the handle
//! is released with restore-on-release enabled.
//!
//! Every register access goes through an explicitly passed
//! [`GpioMem`], whose exclusive borrow serialises all mutating register
//! accesses to one register map.

use vstd::prelude::*;
use crate::gpio::{Gpio, Level, Mode};
use crate::gpio::mem::GpioMem;

verus! {

/// Maximum number of GPIO pins on the BCM2835. The actual number of pins
/// exposed through the Pi's GPIO header depends on the model.
pub const MAX: usize = 54;

/// Unconfigured GPIO pin.
///
/// `Pin`s are constructed by claiming them from a [`Gpio`] registry, which
/// rejects a pin number that is out of range or already claimed. Two handles
/// are equal iff they reference the same pin number.
///
/// An unconfigured `Pin` can be used to read the pin's mode and logic level.
/// Converting the `Pin` to an [`OutputPin`] through [`Pin::into_output`]
/// configures the pin for output and provides access to the mode-specific
/// operations.
#[derive(Debug, PartialEq, Eq, Structural)]
pub struct Pin {
    pin: u8,
}

impl Pin {
    /// The pin number this handle references.
    pub closed spec fn spec_pin(self) -> u8 {
        self.pin
    }

    /// A pin handle always references a pin below [`MAX`].
    pub open spec fn wf(self) -> bool {
        (self.spec_pin() as usize) < MAX
    }

    #[inline]
    pub(crate) fn new(pin: u8) -> (p: Pin)
        requires
            (pin as usize) < MAX,
        ensures
            p.spec_pin() == pin,
            p.wf(),
    {
        Pin { pin }
    }

    /// Returns the GPIO pin number.
    ///
    /// Pins are addressed by their BCM numbers, rather than their physical
    /// location.
    #[inline]
    pub fn pin(&self) -> (p: u8)
        ensures
            p == self.spec_pin(),
    {
        self.pin
    }

    /// Returns the pin's mode.
    #[inline]
    pub fn mode(&self, mem: &GpioMem) -> (m: Mode)
        requires
            self.wf(),
            mem.wf(),
        ensures
            m == mem.spec_mode(self.spec_pin()),
    {
        mem.mode(self.pin)
    }

    /// Consumes the `Pin`, returns an [`OutputPin`] and sets the pin's mode
    /// to [`Mode::Output`].
    #[inline]
    pub fn into_output(self, mem: &mut GpioMem) -> (o: OutputPin)
        requires
            self.wf(),
            old(mem).wf(),
        ensures
            o.wf(),
            o.spec_pin() == self.spec_pin(),
            o.spec_reset_on_drop(),
            final(mem).wf(),
            final(mem).spec_soc() == old(mem).spec_soc(),
            final(mem).spec_mode(self.spec_pin()) == Mode::Output,
            old(mem).spec_mode(self.spec_pin()) == Mode::Output ==> o.spec_prev_mode() is None
                && *final(mem) == *old(mem),
            old(mem).spec_mode(self.spec_pin()) != Mode::Output ==> o.spec_prev_mode() == Some(
                old(mem).spec_mode(self.spec_pin()),
            ),
            forall|q: u8|
                (q as usize) < MAX && q != self.spec_pin() ==> #[trigger] final(mem).spec_mode(q)
                    == old(mem).spec_mode(q),
            forall|q: u8|
                (q as usize) < MAX ==> #[trigger] final(mem).spec_level(q) == old(mem).spec_level(
                    q,
                ),
    {
        OutputPin::new(self, mem)
    }

    /// Sets the pin's mode.
    #[inline]
    pub fn set_mode(&self, mem: &mut GpioMem, mode: Mode)
        requires
            self.wf(),
            old(mem).wf(),
        ensures
            final(mem).wf(),
            final(mem).spec_soc() == old(mem).spec_soc(),
            final(mem).spec_mode(self.spec_pin()) == mode,
            forall|q: u8|
                (q as usize) < MAX && q != self.spec_pin() ==> #[trigger] final(mem).spec_mode(q)
                    == old(mem).spec_mode(q),
            forall|q: u8|
                (q as usize) < MAX ==> #[trigger] final(mem).spec_level(q) == old(mem).spec_level(
                    q,
                ),
    {
        mem.set_mode(self.pin, mode);
    }

    /// Sets the pin's output state to [`Level::Low`].
    #[inline]
    pub fn set_low(&self, mem: &mut GpioMem)
        requires
            self.wf(),
            old(mem).wf(),
        ensures
            final(mem).wf(),
            final(mem).spec_soc() == old(mem).spec_soc(),
            final(mem).spec_level(self.spec_pin()) == Level::Low,
            forall|q: u8|
                (q as usize) < MAX && q != self.spec_pin() ==> #[trigger] final(mem).spec_level(q)
                    == old(mem).spec_level(q),
            forall|q: u8|
                (q as usize) < MAX ==> #[trigger] final(mem).spec_mode(q) == old(mem).spec_mode(q),
    {
        mem.set_low(self.pin);
    }

    /// Sets the pin's output state to [`Level::High`].
    #[inline]
    pub fn set_high(&self, mem: &mut GpioMem)
        requires
            self.wf(),
            old(mem).wf(),
        ensures
            final(mem).wf(),
            final(mem).spec_soc() == old(mem).spec_soc(),
            final(mem).spec_level(self.spec_pin()) == Level::High,
            forall|q: u8|
                (q as usize) < MAX && q != self.spec_pin() ==> #[trigger] final(mem).spec_level(q)
                    == old(mem).spec_level(q),
            forall|q: u8|
                (q as usize) < MAX ==> #[trigger] final(mem).spec_mode(q) == old(mem).spec_mode(q),
    {
        mem.set_high(self.pin);
    }

    /// Sets the pin's output state to `level`.
    #[inline]
    pub fn write(&self, mem: &mut GpioMem, level: Level)
        requires
            self.wf(),
            old(mem).wf(),
        ensures
            final(mem).wf(),
            final(mem).spec_soc() == old(mem).spec_soc(),
            final(mem).spec_level(self.spec_pin()) == level,
            forall|q: u8|
                (q as usize) < MAX && q != self.spec_pin() ==> #[trigger] final(mem).spec_level(q)
                    == old(mem).spec_level(q),
            forall|q: u8|
                (q as usize) < MAX ==> #[trigger] final(mem).spec_mode(q) == old(mem).spec_mode(q),
    {
        match level {
            Level::Low => self.set_low(mem),
            Level::High => self.set_high(mem),
        }
    }
}

/// GPIO pin configured as output.
///
/// `OutputPin`s are constructed by converting a [`Pin`] using
/// [`Pin::into_output`]; the pin's mode is set to [`Mode::Output`] and the
/// prior mode is recorded at conversion time (recorded as nothing to restore
/// when the pin already was an output). An `OutputPin` can be used to change
/// the pin's output state.
///
/// Releasing the handle with [`OutputPin::release`] restores the recorded
/// prior mode if restore-on-release is enabled (the default) and returns the
/// pin's claim to the registry. If the process is terminated abnormally
/// before a handle is released, the restore step is skipped: that is a known,
/// accepted limitation, not a defect of this layer.
///
/// Two handles are equal iff they reference the same pin number.
#[derive(Debug)]
pub struct OutputPin {
    pin: Pin,
    prev_mode: Option<Mode>,
    reset_on_drop: bool,
}

impl OutputPin {
    /// The pin number this handle references.
    pub closed spec fn spec_pin(self) -> u8 {
        self.pin.spec_pin()
    }

    /// The mode the pin had immediately before this handle took ownership;
    /// `None` if it already was [`Mode::Output`].
    pub closed spec fn spec_prev_mode(self) -> Option<Mode> {
        self.prev_mode
    }

    /// Whether the prior mode is restored when the handle is released.
    pub closed spec fn spec_reset_on_drop(self) -> bool {
        self.reset_on_drop
    }

    /// An output handle always references a pin below [`MAX`].
    pub open spec fn wf(self) -> bool {
        (self.spec_pin() as usize) < MAX
    }

    /// Consumes `pin` and configures it for output: reads the current mode;
    /// if it already is [`Mode::Output`], records that there is no previous
    /// mode to restore and leaves the registers untouched, otherwise records
    /// the current mode and writes [`Mode::Output`] into the pin's
    /// function-select field. Restore-on-release starts out enabled.
    pub(crate) fn new(pin: Pin, mem: &mut GpioMem) -> (o: OutputPin)
        requires
            pin.wf(),
            old(mem).wf(),
        ensures
            o.wf(),
            o.spec_pin() == pin.spec_pin(),
            o.spec_reset_on_drop(),
            final(mem).wf(),
            final(mem).spec_soc() == old(mem).spec_soc(),
            final(mem).spec_mode(pin.spec_pin()) == Mode::Output,
            old(mem).spec_mode(pin.spec_pin()) == Mode::Output ==> o.spec_prev_mode() is None
                && *final(mem) == *old(mem),
            old(mem).spec_mode(pin.spec_pin()) != Mode::Output ==> o.spec_prev_mode() == Some(
                old(mem).spec_mode(pin.spec_pin()),
            ),
            forall|q: u8|
                (q as usize) < MAX && q != pin.spec_pin() ==> #[trigger] final(mem).spec_mode(q)
                    == old(mem).spec_mode(q),
            forall|q: u8|
                (q as usize) < MAX ==> #[trigger] final(mem).spec_level(q) == old(mem).spec_level(
                    q,
                ),
    {
        let prev_mode = pin.mode(mem);

        let prev_mode = if prev_mode == Mode::Output {
            None
        } else {
            pin.set_mode(mem, Mode::Output);
            Some(prev_mode)
        };

        OutputPin { pin, prev_mode, reset_on_drop: true }
    }

    /// Returns the GPIO pin number.
    ///
    /// Pins are addressed by their BCM numbers, rather than their physical
    /// location.
    #[inline]
    pub fn pin(&self) -> (p: u8)
        ensures
            p == self.spec_pin(),
    {
        self.pin.pin()
    }

    /// Sets the pin's output state to [`Level::Low`].
    #[inline]
    pub fn set_low(&mut self, mem: &mut GpioMem)
        requires
            old(self).wf(),
            old(mem).wf(),
        ensures
            *final(self) == *old(self),
            final(mem).wf(),
            final(mem).spec_soc() == old(mem).spec_soc(),
            final(mem).spec_level(old(self).spec_pin()) == Level::Low,
            forall|q: u8|
                (q as usize) < MAX && q != old(self).spec_pin() ==> #[trigger] final(mem).spec_level(q) == old(mem).spec_level(q),
            forall|q: u8|
                (q as usize) < MAX ==> #[trigger] final(mem).spec_mode(q) == old(mem).spec_mode(q),
    {
        self.pin.set_low(mem)
    }

    /// Sets the pin's output state to [`Level::High`].
    #[inline]
    pub fn set_high(&mut self, mem: &mut GpioMem)
        requires
            old(self).wf(),
            old(mem).wf(),
        ensures
            *final(self) == *old(self),
            final(mem).wf(),
            final(mem).spec_soc() == old(mem).spec_soc(),
            final(mem).spec_level(old(self).spec_pin()) == Level::High,
            forall|q: u8|
                (q as usize) < MAX && q != old(self).spec_pin() ==> #[trigger] final(mem).spec_level(q) == old(mem).spec_level(q),
            forall|q: u8|
                (q as usize) < MAX ==> #[trigger] final(mem).spec_mode(q) == old(mem).spec_mode(q),
    {
        self.pin.set_high(mem)
    }

    /// Returns the value of `reset_on_drop`.
    pub fn reset_on_drop(&self) -> (r: bool)
        ensures
            r == self.spec_reset_on_drop(),
    {
        self.reset_on_drop
    }

    /// When enabled, releasing the handle resets the pin's mode to its
    /// original state. By default, this is set to `true`.
    pub fn set_reset_on_drop(&mut self, reset_on_drop: bool)
        ensures
            final(self).spec_reset_on_drop() == reset_on_drop,
            final(self).spec_pin() == old(self).spec_pin(),
            final(self).spec_prev_mode() == old(self).spec_prev_mode(),
    {
        self.reset_on_drop = reset_on_drop;
    }

    /// Releases the handle: if restore-on-release is enabled and a previous
    /// mode was recorded at conversion time, writes that mode back; then
    /// returns the pin's claim to the registry in every case, so the pin can
    /// be claimed again.
    pub fn release(self, mem: &mut GpioMem, gpio: &mut Gpio)
        requires
            self.wf(),
            old(mem).wf(),
            old(gpio).wf(),
        ensures
            final(gpio).wf(),
            final(gpio).spec_claimed() == old(gpio).spec_claimed().update(
                self.spec_pin() as int,
                false,
            ),
            final(mem).wf(),
            final(mem).spec_soc() == old(mem).spec_soc(),
            self.spec_reset_on_drop() ==> (self.spec_prev_mode() matches Some(pm) ==> final(mem).spec_mode(self.spec_pin()) == pm && (forall|q: u8|
                (q as usize) < MAX && q != self.spec_pin() ==> #[trigger] final(mem).spec_mode(q)
                    == old(mem).spec_mode(q)) && (forall|q: u8|
                (q as usize) < MAX ==> #[trigger] final(mem).spec_level(q) == old(mem).spec_level(
                    q,
                ))),
            !self.spec_reset_on_drop() ==> *final(mem) == *old(mem),
            self.spec_prev_mode() is None ==> *final(mem) == *old(mem),
    {
        let OutputPin { pin, prev_mode, reset_on_drop } = self;
        if reset_on_drop {
            if let Some(prev) = prev_mode {
                pin.set_mode(mem, prev);
            }
        }
        gpio.release(pin);
    }
}

impl PartialEq for OutputPin {
    /// Two handles are equal iff they reference the same pin number.
    fn eq(&self, other: &OutputPin) -> bool {
        self.pin.pin == other.pin.pin
    }
}

impl vstd::std_specs::cmp::PartialEqSpecImpl for OutputPin {
    open spec fn obeys_eq_spec() -> bool {
        true
    }

    open spec fn eq_spec(&self, other: &OutputPin) -> bool {
        self.spec_pin() == other.spec_pin()
    }
}

impl Eq for OutputPin {

}

} // verus!
