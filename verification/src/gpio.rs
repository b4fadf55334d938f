//! GPIO pin modes, logic levels, errors, and the pin claim registry.

pub mod mem;
pub mod pin;

use vstd::prelude::*;

verus! {

use crate::gpio::pin::{Pin, MAX};
use vstd::string::StringExecFns;

/// Relies on `std::io::Error` as an opaque error payload carried inside
/// [`Error::Io`]; nothing is assumed of its behaviour.
#[verifier::external_type_specification]
#[verifier::external_body]
pub struct ExIoError(std::io::Error);

/// Errors that can occur when accessing the GPIO peripheral.
#[derive(Debug)]
pub enum Error {
    /// The Raspberry Pi model or SoC can't be identified.
    UnknownModel,
    /// The pin is already claimed elsewhere in the process, or the GPIO
    /// peripheral doesn't expose a pin with the specified number. A claimed
    /// pin can be retrieved again after its handle is released.
    PinNotAvailable(u8),
    /// Permission was denied when opening the device file at the contained
    /// path for read/write access.
    PermissionDenied(String),
    /// I/O error while opening or mapping the device file.
    Io(std::io::Error),
    /// Thread panicked.
    ThreadPanic,
}

/// The character of one decimal digit.
pub open spec fn digit_char(d: u8) -> char {
    if d == 0 {
        '0'
    } else if d == 1 {
        '1'
    } else if d == 2 {
        '2'
    } else if d == 3 {
        '3'
    } else if d == 4 {
        '4'
    } else if d == 5 {
        '5'
    } else if d == 6 {
        '6'
    } else if d == 7 {
        '7'
    } else if d == 8 {
        '8'
    } else {
        '9'
    }
}

/// The decimal digit characters of `n`, most significant first, without
/// leading zeros.
pub open spec fn u8_decimal(n: u8) -> Seq<char> {
    if n < 10 {
        seq![digit_char(n)]
    } else if n < 100 {
        seq![digit_char((n as int / 10) as u8), digit_char((n as int % 10) as u8)]
    } else {
        seq![
            digit_char((n as int / 100) as u8),
            digit_char((n as int / 10 % 10) as u8),
            digit_char((n as int % 10) as u8),
        ]
    }
}

/// The one-character string of one decimal digit.
fn digit_str(d: u8) -> (r: &'static str)
    requires
        d < 10,
    ensures
        r@ == seq![digit_char(d)],
{
    proof {
        reveal_strlit("0");
        reveal_strlit("1");
        reveal_strlit("2");
        reveal_strlit("3");
        reveal_strlit("4");
        reveal_strlit("5");
        reveal_strlit("6");
        reveal_strlit("7");
        reveal_strlit("8");
        reveal_strlit("9");
    }
    let r: &'static str = if d == 0 {
        "0"
    } else if d == 1 {
        "1"
    } else if d == 2 {
        "2"
    } else if d == 3 {
        "3"
    } else if d == 4 {
        "4"
    } else if d == 5 {
        "5"
    } else if d == 6 {
        "6"
    } else if d == 7 {
        "7"
    } else if d == 8 {
        "8"
    } else {
        "9"
    };
    proof {
        assert(r@ =~= seq![digit_char(d)]);
    }
    r
}

impl Error {
    /// The display message for each error. The payload of [`Error::Io`] is
    /// opaque, so its message carries no detail.
    pub open spec fn spec_describe(self) -> Seq<char> {
        match self {
            Error::UnknownModel => "Unknown Raspberry Pi model"@,
            Error::PinNotAvailable(pin) => "Pin "@ + u8_decimal(pin) + " is not available"@,
            Error::PermissionDenied(path) => "Permission denied: "@ + path@,
            Error::Io(_) => "I/O error"@,
            Error::ThreadPanic => "Thread panicked"@,
        }
    }

    /// A display message for the error.
    pub fn describe(&self) -> (r: String)
        ensures
            r@ == self.spec_describe(),
    {
        match self {
            Error::UnknownModel => String::from_str("Unknown Raspberry Pi model"),
            Error::PinNotAvailable(pin) => {
                let n = *pin;
                let mut s = String::from_str("Pin ");
                if n >= 100 {
                    s.append(digit_str(n / 100));
                }
                if n >= 10 {
                    s.append(digit_str((n / 10) % 10));
                }
                s.append(digit_str(n % 10));
                s.append(" is not available");
                proof {
                    assert(s@ =~= self.spec_describe());
                }
                s
            },
            Error::PermissionDenied(path) => {
                let mut s = String::from_str("Permission denied: ");
                s.append(path.as_str());
                proof {
                    assert(s@ =~= self.spec_describe());
                }
                s
            },
            Error::Io(_) => String::from_str("I/O error"),
            Error::ThreadPanic => String::from_str("Thread panicked"),
        }
    }
}

impl From<std::io::Error> for Error {
    /// Wraps a lower-level I/O failure.
    fn from(err: std::io::Error) -> (r: Error) {
        Error::Io(err)
    }
}

impl vstd::std_specs::convert::FromSpecImpl<std::io::Error> for Error {
    open spec fn obeys_from_spec() -> bool {
        true
    }

    open spec fn from_spec(err: std::io::Error) -> Error {
        Error::Io(err)
    }
}

impl From<crate::system::Error> for Error {
    /// A failed hardware identification means the model is unknown.
    fn from(err: crate::system::Error) -> (r: Error) {
        match err {
            crate::system::Error::UnknownModel => Error::UnknownModel,
        }
    }
}

impl vstd::std_specs::convert::FromSpecImpl<crate::system::Error> for Error {
    open spec fn obeys_from_spec() -> bool {
        true
    }

    open spec fn from_spec(err: crate::system::Error) -> Error {
        Error::UnknownModel
    }
}

/// Pin modes.
///
/// Each pin's function-select field is 3 bits wide; all 8 bit patterns are
/// assigned, but the assignment is not in declaration order. The exact
/// encoding table lives in [`mode_bits`] and [`mode_of_bits`].
#[derive(Debug, PartialEq, Eq, Copy, Clone, Structural)]
pub enum Mode {
    Input,
    Output,
    Alt0,
    Alt1,
    Alt2,
    Alt3,
    Alt4,
    Alt5,
}

/// The 3-bit function-select encoding of a mode.
///
/// This is the hardware's table: it is not sequential in the declaration
/// order of [`Mode`], so decoding must invert this exact table.
pub open spec fn mode_bits(m: Mode) -> u8 {
    match m {
        Mode::Input => 0,
        Mode::Output => 1,
        Mode::Alt5 => 2,
        Mode::Alt4 => 3,
        Mode::Alt0 => 4,
        Mode::Alt1 => 5,
        Mode::Alt2 => 6,
        Mode::Alt3 => 7,
    }
}

/// The mode a 3-bit function-select pattern denotes. All 8 patterns are
/// assigned, so every input below 8 decodes to some mode.
pub open spec fn mode_of_bits(bits: u8) -> Mode {
    if bits == 0 {
        Mode::Input
    } else if bits == 1 {
        Mode::Output
    } else if bits == 2 {
        Mode::Alt5
    } else if bits == 3 {
        Mode::Alt4
    } else if bits == 4 {
        Mode::Alt0
    } else if bits == 5 {
        Mode::Alt1
    } else if bits == 6 {
        Mode::Alt2
    } else {
        Mode::Alt3
    }
}

/// Encodes a mode as its 3-bit function-select pattern.
pub fn encode_mode(m: Mode) -> (bits: u8)
    ensures
        bits == mode_bits(m),
        bits < 8,
{
    match m {
        Mode::Input => 0,
        Mode::Output => 1,
        Mode::Alt5 => 2,
        Mode::Alt4 => 3,
        Mode::Alt0 => 4,
        Mode::Alt1 => 5,
        Mode::Alt2 => 6,
        Mode::Alt3 => 7,
    }
}

/// Decodes a 3-bit function-select pattern into its mode.
pub fn decode_mode(bits: u8) -> (m: Mode)
    requires
        bits < 8,
    ensures
        m == mode_of_bits(bits),
{
    if bits == 0 {
        Mode::Input
    } else if bits == 1 {
        Mode::Output
    } else if bits == 2 {
        Mode::Alt5
    } else if bits == 3 {
        Mode::Alt4
    } else if bits == 4 {
        Mode::Alt0
    } else if bits == 5 {
        Mode::Alt1
    } else if bits == 6 {
        Mode::Alt2
    } else {
        Mode::Alt3
    }
}

/// Round trip across the full encoding table: decoding the encoding of any
/// mode gives that mode back, for all 8 modes.
pub proof fn lemma_mode_round_trip(m: Mode)
    ensures
        mode_of_bits(mode_bits(m)) == m,
{
}

/// The other direction of the round trip: encoding the mode a 3-bit pattern
/// decodes to gives the same pattern back, for all 8 patterns.
pub proof fn lemma_bits_round_trip(bits: u8)
    requires
        bits < 8,
    ensures
        mode_bits(mode_of_bits(bits)) == bits,
{
}

impl Mode {
    /// A short display name for the mode.
    pub fn name(&self) -> (r: &'static str)
        ensures
            r@ == mode_name(*self),
    {
        match *self {
            Mode::Input => "In",
            Mode::Output => "Out",
            Mode::Alt0 => "Alt0",
            Mode::Alt1 => "Alt1",
            Mode::Alt2 => "Alt2",
            Mode::Alt3 => "Alt3",
            Mode::Alt4 => "Alt4",
            Mode::Alt5 => "Alt5",
        }
    }
}

/// The display name of each mode.
pub open spec fn mode_name(m: Mode) -> Seq<char> {
    match m {
        Mode::Input => "In"@,
        Mode::Output => "Out"@,
        Mode::Alt0 => "Alt0"@,
        Mode::Alt1 => "Alt1"@,
        Mode::Alt2 => "Alt2"@,
        Mode::Alt3 => "Alt3"@,
        Mode::Alt4 => "Alt4"@,
        Mode::Alt5 => "Alt5"@,
    }
}

/// Pin logic levels.
#[derive(Debug, PartialEq, Eq, Copy, Clone, Structural)]
pub enum Level {
    Low,
    High,
}

/// The opposite logic level.
pub open spec fn level_not(l: Level) -> Level {
    match l {
        Level::Low => Level::High,
        Level::High => Level::Low,
    }
}

/// The display name of each level.
pub open spec fn level_name(l: Level) -> Seq<char> {
    match l {
        Level::Low => "Low"@,
        Level::High => "High"@,
    }
}

impl Level {
    /// Returns the opposite level.
    pub fn not(self) -> (r: Level)
        ensures
            r == level_not(self),
    {
        match self {
            Level::Low => Level::High,
            Level::High => Level::Low,
        }
    }

    /// A short display name for the level.
    pub fn name(&self) -> (r: &'static str)
        ensures
            r@ == level_name(*self),
    {
        match *self {
            Level::Low => "Low",
            Level::High => "High",
        }
    }
}

/// The pin claim registry.
///
/// Tracks which pin numbers are claimed, so that at most one live handle (of
/// any mode) exists per pin: claiming an already-claimed pin fails with
/// [`Error::PinNotAvailable`] instead of silently aliasing the pin. A claim
/// is returned by [`Gpio::release`] or [`pin::OutputPin::release`], after
/// which the pin can be claimed again.
pub struct Gpio {
    claimed: Vec<bool>,
}

impl Gpio {
    /// Which pins are claimed, pin-number-indexed.
    pub closed spec fn spec_claimed(self) -> Seq<bool> {
        self.claimed@
    }

    /// The registry always tracks every pin.
    pub open spec fn wf(self) -> bool {
        self.spec_claimed().len() == MAX
    }

    /// Creates a registry with every pin free.
    pub fn new() -> (g: Gpio)
        ensures
            g.wf(),
            forall|p: int| 0 <= p < MAX ==> !g.spec_claimed()[p],
    {
        let mut claimed: Vec<bool> = Vec::new();
        let mut i: usize = 0;
        while i < MAX
            invariant
                i <= MAX,
                claimed@.len() == i,
                forall|p: int| 0 <= p < i ==> !claimed@[p],
            decreases MAX - i,
        {
            claimed.push(false);
            i = i + 1;
        }
        Gpio { claimed }
    }

    /// Claims `pin` and returns a handle to it. Fails with
    /// [`Error::PinNotAvailable`], and changes nothing, iff the pin number is
    /// out of range or the pin is already claimed.
    pub fn claim(&mut self, pin: u8) -> (r: Result<Pin, Error>)
        requires
            old(self).wf(),
        ensures
            final(self).wf(),
            (pin as usize) < MAX && !old(self).spec_claimed()[pin as int] ==> (r matches Ok(p)
                && p.spec_pin() == pin && p.wf() && final(self).spec_claimed() == old(self).spec_claimed().update(pin as int, true)),
            (pin as usize) >= MAX || old(self).spec_claimed()[pin as int] ==> (r matches Err(e)
                && (e matches Error::PinNotAvailable(q) && q == pin) && *final(self) == *old(self)),
    {
        if (pin as usize) < MAX {
            if !self.claimed[pin as usize] {
                self.claimed[pin as usize] = true;
                return Ok(Pin::new(pin));
            }
        }
        Err(Error::PinNotAvailable(pin))
    }

    /// Releases the claim held by `pin`, making the pin claimable again.
    pub fn release(&mut self, pin: Pin)
        requires
            old(self).wf(),
            pin.wf(),
        ensures
            final(self).wf(),
            final(self).spec_claimed() == old(self).spec_claimed().update(
                pin.spec_pin() as int,
                false,
            ),
    {
        let n = pin.pin();
        self.claimed[n as usize] = false;
    }
}

} // verus!
