use vstd::prelude::*;

verus! {

/// The peripheral driver that the host runtime runs against: it hands out
/// capability objects for single lines and for the serial unit, and performs
/// the electrical operations on them. Nothing is promised of its outcomes:
/// the runtime is correct whatever each call returns.
pub trait Board {
    /// A line configured as an input.
    type InputLine;

    /// A line configured as an output.
    type OutputLine;

    /// An open serial connection.
    type Serial;

    /// Returns the physical line `pin` to its reset configuration.
    fn reset_pin(&mut self, pin: u32);

    /// Configures line `pin` as an input.
    fn claim_input(&mut self, pin: u32) -> Result<Self::InputLine, ()>;

    /// Configures line `pin` as an output.
    fn claim_output(&mut self, pin: u32) -> Result<Self::OutputLine, ()>;

    /// Samples the level of an input line: `true` when high.
    fn read_level(&mut self, line: &Self::InputLine) -> Result<bool, ()>;

    /// Drives an output line high or low.
    fn drive_level(&mut self, line: &mut Self::OutputLine, high: bool) -> Result<(), ()>;

    /// Opens the serial unit over the given lines.
    fn open_serial(
        &mut self,
        tx: Self::OutputLine,
        rx: Self::InputLine,
        cts: Option<Self::InputLine>,
        rts: Option<Self::OutputLine>,
    ) -> Result<Self::Serial, ()>;

    /// Sends one byte, blocking until it is out.
    fn serial_write(&mut self, serial: &mut Self::Serial, word: u8) -> Result<(), ()>;

    /// Receives one byte, blocking until it is in.
    fn serial_read(&mut self, serial: &mut Self::Serial) -> Result<u8, ()>;

    /// Blocks for `ms` milliseconds.
    fn delay_ms(&mut self, ms: u32);

    /// Emits guest text on the host's diagnostic channel.
    fn print(&mut self, text: &[u8]);

    /// Reports on the diagnostic channel a print request whose range lies
    /// outside the guest's memory.
    fn print_fault(&mut self, offset: u32, len: u32);
}

} // verus!
