//! The device driver: it owns the SPI bus and the three control lines, runs the
//! enable handshake and frames every transfer with the line changes the chip needs.

use vstd::prelude::*;
use embedded_hal::blocking::spi::Write;
use embedded_hal::digital::v2::OutputPin;
use crate::channel::{Channel, DacError};
use crate::frame::{frame_of, get_payload};

verus! {

/// The three control lines of the converter.
#[derive(Clone, Copy, Debug, PartialEq, Eq, Structural)]
pub enum Line {
    /// Chip select (NSS), low while a frame is clocked in.
    Select,
    /// Load/reset line (LDAC), pulsed during the enable handshake.
    Reset,
    /// Enable line.
    Enable,
}

/// One thing the driver did to the hardware.
pub enum Signal {
    /// A control line was driven high (`true`) or low (`false`).
    Drive(Line, bool),
    /// A frame was written on the bus; `ok` is whether the bus reported success.
    BusWrite(Seq<u8>, bool),
    /// A frame was handed to a caller-supplied transfer initiator.
    Handoff(Seq<u8>),
}

/// The signals of the enable handshake, in order.
pub open spec fn enable_signals() -> Seq<Signal> {
    seq![
        Signal::Drive(Line::Enable, false),
        Signal::Drive(Line::Select, false),
        Signal::Drive(Line::Select, true),
        Signal::Drive(Line::Enable, true),
        Signal::Drive(Line::Reset, false),
        Signal::Drive(Line::Reset, true),
        Signal::Drive(Line::Reset, false),
    ]
}

/// The signals around a transfer whose middle step is `transfer`: both lines
/// low, the transfer, then select high before enable high.
pub open spec fn framed(transfer: Signal) -> Seq<Signal> {
    seq![
        Signal::Drive(Line::Enable, false),
        Signal::Drive(Line::Select, false),
        transfer,
        Signal::Drive(Line::Select, true),
        Signal::Drive(Line::Enable, true),
    ]
}

/// Number of iterations of the busy-wait.
pub const DELAY_ITERATIONS: u32 = 10000;

/// Platform-agnostic busy-wait: a fixed number of iterations, giving a short,
/// non-zero pause with no precision guarantee.
pub fn delay() {
    let mut x: u32 = 0;
    while x < DELAY_ITERATIONS
        invariant
            x <= DELAY_ITERATIONS,
        decreases DELAY_ITERATIONS - x,
    {
        x += 1;
    }
}

/// Driver for one DAC8564. It owns the SPI bus `SPI`, the chip-select line
/// `NSS`, the load/reset line `LDAC` and the enable line `ENABLE`.
///
/// Failures reported by the control lines are ignored on purpose: the line
/// sequences have no meaningful recovery, so they always run to the end. On a
/// platform where a pin write can truly fail, the chip may not see the
/// intended sequence.
pub struct DAC8564<SPI, NSS, LDAC, ENABLE> {
    spi: SPI,
    nss: NSS,
    ldac: LDAC,
    enable: ENABLE,
    active: bool,
    signals: Ghost<Seq<Signal>>,
}

impl<SPI, NSS, LDAC, ENABLE> DAC8564<SPI, NSS, LDAC, ENABLE> {
    /// Whether the enable handshake has run.
    pub closed spec fn active(&self) -> bool {
        self.active
    }

    /// Everything this driver has done to the hardware, oldest first. Each
    /// pin change and bus write is recorded by the method that makes the call;
    /// a hand-off is recorded as the initiator returns.
    pub closed spec fn signals(&self) -> Seq<Signal> {
        self.signals@
    }
}

impl<SPI: Write<u8>, NSS: OutputPin, LDAC: OutputPin, ENABLE: OutputPin> DAC8564<
    SPI,
    NSS,
    LDAC,
    ENABLE,
> {
    /// Takes ownership of the bus and the three lines. The driver starts
    /// inactive, and nothing is sent to the hardware.
    pub fn new(spi: SPI, nss: NSS, ldac: LDAC, enable: ENABLE) -> (r: Self)
        ensures
            !r.active(),
            r.signals() == Seq::<Signal>::empty(),
    {
        DAC8564 { spi, nss, ldac, enable, active: false, signals: Ghost(Seq::empty()) }
    }

    /// Whether the enable handshake has run, so that transfers reach the chip.
    pub fn is_active(&self) -> (r: bool)
        ensures
            r == self.active(),
    {
        self.active
    }

    /// Relies on `OutputPin::set_low` of the select line: drives it low;
    /// `true` when the pin reported success.
    #[verifier::external_body]
    fn select_low(&mut self) -> (ok: bool)
        ensures
            final(self).active() == old(self).active(),
            final(self).signals() == old(self).signals().push(Signal::Drive(Line::Select, false)),
    {
        self.nss.set_low().is_ok()
    }

    /// Relies on `OutputPin::set_high` of the select line: drives it high;
    /// `true` when the pin reported success.
    #[verifier::external_body]
    fn select_high(&mut self) -> (ok: bool)
        ensures
            final(self).active() == old(self).active(),
            final(self).signals() == old(self).signals().push(Signal::Drive(Line::Select, true)),
    {
        self.nss.set_high().is_ok()
    }

    /// Relies on `OutputPin::set_low` of the reset line: drives it low;
    /// `true` when the pin reported success.
    #[verifier::external_body]
    fn reset_low(&mut self) -> (ok: bool)
        ensures
            final(self).active() == old(self).active(),
            final(self).signals() == old(self).signals().push(Signal::Drive(Line::Reset, false)),
    {
        self.ldac.set_low().is_ok()
    }

    /// Relies on `OutputPin::set_high` of the reset line: drives it high;
    /// `true` when the pin reported success.
    #[verifier::external_body]
    fn reset_high(&mut self) -> (ok: bool)
        ensures
            final(self).active() == old(self).active(),
            final(self).signals() == old(self).signals().push(Signal::Drive(Line::Reset, true)),
    {
        self.ldac.set_high().is_ok()
    }

    /// Relies on `OutputPin::set_low` of the enable line: drives it low;
    /// `true` when the pin reported success.
    #[verifier::external_body]
    fn enable_low(&mut self) -> (ok: bool)
        ensures
            final(self).active() == old(self).active(),
            final(self).signals() == old(self).signals().push(Signal::Drive(Line::Enable, false)),
    {
        self.enable.set_low().is_ok()
    }

    /// Relies on `OutputPin::set_high` of the enable line: drives it high;
    /// `true` when the pin reported success.
    #[verifier::external_body]
    fn enable_high(&mut self) -> (ok: bool)
        ensures
            final(self).active() == old(self).active(),
            final(self).signals() == old(self).signals().push(Signal::Drive(Line::Enable, true)),
    {
        self.enable.set_high().is_ok()
    }

    /// Relies on `blocking::spi::Write::write`: sends the three bytes and
    /// returns once the transfer is over; `ok` is `true` when the bus reported
    /// success.
    #[verifier::external_body]
    fn bus_write(&mut self, words: &[u8; 3]) -> (ok: bool)
        ensures
            final(self).active() == old(self).active(),
            final(self).signals() == old(self).signals().push(Signal::BusWrite(words@, ok)),
    {
        self.spi.write(words).is_ok()
    }

    /// Drives one control line; a failure of the pin is ignored.
    fn drive(&mut self, line: Line, high: bool)
        ensures
            final(self).active() == old(self).active(),
            final(self).signals() == old(self).signals().push(Signal::Drive(line, high)),
    {
        let _ = match (line, high) {
            (Line::Select, false) => self.select_low(),
            (Line::Select, true) => self.select_high(),
            (Line::Reset, false) => self.reset_low(),
            (Line::Reset, true) => self.reset_high(),
            (Line::Enable, false) => self.enable_low(),
            (Line::Enable, true) => self.enable_high(),
        };
    }

    /// Resets and enables the chip: enable low, a low-then-high pulse on
    /// select, enable high, then the reset line low, high and low again with a
    /// busy-wait before each of the last two edges. The driver is active
    /// afterwards. Running it again repeats the whole handshake.
    pub fn enable(&mut self)
        ensures
            final(self).active(),
            final(self).signals() == old(self).signals() + enable_signals(),
    {
        self.drive(Line::Enable, false);
        self.drive(Line::Select, false);
        self.drive(Line::Select, true);
        self.drive(Line::Enable, true);

        // Rising edge to reset the DAC registers
        self.drive(Line::Reset, false);
        delay();
        self.drive(Line::Reset, true);
        delay();
        self.drive(Line::Reset, false);
        self.active = true;
        assert(self.signals@ =~= old(self).signals@ + enable_signals());
    }

    /// Sets `channel` to `value` with a blocking bus write. An inactive driver
    /// does nothing and returns `Ok`. An active one pulls enable and select
    /// low, writes the frame of `get_payload`, raises select and then enable,
    /// and returns `Err(DacError::BusWriteError)` exactly when the bus
    /// reported a failure.
    pub fn write_blocking(&mut self, channel: Channel, value: u16) -> (r: Result<(), DacError>)
        ensures
            final(self).active() == old(self).active(),
            !old(self).active() ==> r == Ok::<(), DacError>(()) && final(self).signals()
                == old(self).signals(),
            old(self).active() ==> final(self).signals() == old(self).signals() + framed(
                Signal::BusWrite(frame_of(channel, value), r is Ok),
            ),
            r is Err ==> r == Err::<(), DacError>(DacError::BusWriteError),
    {
        if !self.active {
            return Ok(());
        }
        let command: [u8; 3] = get_payload(channel, value);

        self.drive(Line::Enable, false);
        self.drive(Line::Select, false);
        let ok = self.bus_write(&command);
        self.drive(Line::Select, true);
        self.drive(Line::Enable, true);
        assert(self.signals@ =~= old(self).signals@ + framed(
            Signal::BusWrite(frame_of(channel, value), ok),
        ));

        if ok {
            Ok(())
        } else {
            Err(DacError::BusWriteError)
        }
    }

    /// For transfers that the caller runs itself (DMA, interrupts): an active
    /// driver pulls enable and select low, calls `initiator` once with the
    /// frame of `get_payload`, then at once raises select and enable. An
    /// inactive driver does nothing and never calls `initiator`.
    ///
    /// The lines are raised as soon as `initiator` returns, so it must either
    /// finish the transfer before returning or hold the lines low itself until
    /// the transfer is over.
    pub fn prepare_transfer<F: FnMut([u8; 3])>(
        &mut self,
        channel: Channel,
        value: u16,
        mut initiator: F,
    )
        requires
            forall|frame: [u8; 3]|
                frame@ == frame_of(channel, value) ==> #[trigger] initiator.requires((frame,)),
        ensures
            final(self).active() == old(self).active(),
            !old(self).active() ==> final(self).signals() == old(self).signals(),
            old(self).active() ==> final(self).signals() == old(self).signals() + framed(
                Signal::Handoff(frame_of(channel, value)),
            ),
            old(self).active() ==> exists|frame: [u8; 3]|
                frame@ == frame_of(channel, value) && #[trigger] initiator.ensures((frame,), ()),
    {
        if !self.active {
            return;
        }
        let command: [u8; 3] = get_payload(channel, value);

        self.drive(Line::Enable, false);
        self.drive(Line::Select, false);
        initiator(command);
        self.signals = Ghost(self.signals@.push(Signal::Handoff(command@)));
        self.drive(Line::Select, true);
        self.drive(Line::Enable, true);
        assert(self.signals@ =~= old(self).signals@ + framed(
            Signal::Handoff(frame_of(channel, value)),
        ));
    }
}

} // verus!
