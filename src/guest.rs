use vstd::prelude::*;

use core::marker::PhantomData;
use vstd::string::StringSliceAdditionalSpecFns;

verus! {

/// An error in the guest, carrying the nonzero code that the host returned.
#[derive(Clone, Copy, Debug, PartialEq, Eq, Structural)]
pub enum WasmError {
    RuntimeError(i32),
}

/// The host functions as a guest calls them. Out-parameters that the
/// bytecode passes as addresses in its memory are `&mut` here. Nothing is
/// promised of the host's answers: the guest layer is correct whatever each
/// call returns.
pub trait HostAbi {
    fn gpio_init(&mut self, port: u32, pin: u32, is_input: bool) -> i32;

    fn gpio_write(&mut self, port: u32, pin: u32, value: u32) -> i32;

    fn gpio_read(&mut self, port: u32, pin: u32, value: &mut u32) -> i32;

    fn uart_init(
        &mut self,
        handle: &mut u8,
        tx_port: u32,
        tx_pin: u32,
        rx_port: u32,
        rx_pin: u32,
        cts: Option<(u32, u32)>,
        rts: Option<(u32, u32)>,
    ) -> i32;

    fn uart_write(&mut self, handle: u8, word: u8) -> i32;

    fn uart_read(&mut self, handle: u8, value: &mut u8) -> i32;

    fn print(&mut self, text: &[u8]);

    fn delay_ms(&mut self, ms: u32);
}

/// Turns a host error code into a result: zero is success, anything else
/// is that code as an error.
pub fn check_error(code: i32) -> (r: Result<(), WasmError>)
    ensures
        code == 0 ==> r is Ok,
        code != 0 ==> r == Err::<(), WasmError>(WasmError::RuntimeError(code)),
{
    if code != 0 {
        Err(WasmError::RuntimeError(code))
    } else {
        Ok(())
    }
}

/// The answer of a level read: on success, whether the stored state equals
/// `expected`; otherwise the host's code as an error.
pub fn level_from(code: i32, state: u32, expected: u32) -> (r: Result<bool, WasmError>)
    ensures
        code == 0 ==> r == Ok::<bool, WasmError>(state == expected),
        code != 0 ==> r == Err::<bool, WasmError>(WasmError::RuntimeError(code)),
{
    match check_error(code) {
        Ok(_) => Ok(state == expected),
        Err(e) => Err(e),
    }
}

/// The answer of a byte read: on success the byte the host stored,
/// otherwise the host's code as an error.
pub fn byte_from(code: i32, value: u8) -> (r: Result<u8, WasmError>)
    ensures
        code == 0 ==> r == Ok::<u8, WasmError>(value),
        code != 0 ==> r == Err::<u8, WasmError>(WasmError::RuntimeError(code)),
{
    match check_error(code) {
        Ok(_) => Ok(value),
        Err(e) => Err(e),
    }
}

/// Whether a guest result carries a nonzero host code when it failed.
pub open spec fn host_failure<T>(r: Result<T, WasmError>) -> bool {
    r matches Err(WasmError::RuntimeError(c)) ==> c != 0
}

/// The direction tag of a pin configured as an input.
pub struct Input;

/// The direction tag of a pin configured as an output.
pub struct Output;

/// The direction tag of a pin whose direction is not decided yet.
pub struct Unknown;

/// A pin with a port and a pin number.
pub trait GpioPin {
    /// The port and the pin number.
    spec fn id(&self) -> (u32, u32);

    fn pin(&self) -> (r: u32)
        ensures
            r == self.id().1,
    ;

    fn port(&self) -> (r: u32)
        ensures
            r == self.id().0,
    ;
}

/// A pin whose direction is fixed by its type: only the operations that
/// fit that direction exist.
pub struct Pin<MODE> {
    port: u32,
    pin: u32,
    _mode: PhantomData<MODE>,
}

impl<MODE> View for Pin<MODE> {
    type V = (u32, u32);

    closed spec fn view(&self) -> (u32, u32) {
        (self.port, self.pin)
    }
}

impl GpioPin for Pin<Input> {
    open spec fn id(&self) -> (u32, u32) {
        self@
    }

    fn pin(&self) -> (r: u32) {
        self.pin
    }

    fn port(&self) -> (r: u32) {
        self.port
    }
}

impl GpioPin for Pin<Output> {
    open spec fn id(&self) -> (u32, u32) {
        self@
    }

    fn pin(&self) -> (r: u32) {
        self.pin
    }

    fn port(&self) -> (r: u32) {
        self.port
    }
}

impl<MODE> Pin<MODE> {
    /// The pin `(port, pin)` in this direction when the host's claim
    /// answered `code` zero; the host's code as an error otherwise.
    pub fn claimed(port: u32, pin: u32, code: i32) -> (r: Result<Pin<MODE>, WasmError>)
        ensures
            code == 0 ==> (r matches Ok(p) && p@ == (port, pin)),
            code != 0 ==> (r matches Err(e) && e == WasmError::RuntimeError(code)),
    {
        match check_error(code) {
            Ok(_) => Ok(Pin { pin, port, _mode: PhantomData }),
            Err(e) => Err(e),
        }
    }
}

impl Pin<Unknown> {
    /// A pin on `port` with number `pin`, direction not decided.
    pub fn new(port: u32, pin: u32) -> (r: Self)
        ensures
            r@ == (port, pin),
    {
        Pin { pin, port, _mode: PhantomData }
    }

    /// Claims the pin as an input. This cannot be undone.
    pub fn into_input<A: HostAbi>(self, abi: &mut A) -> (r: Result<Pin<Input>, WasmError>)
        ensures
            r matches Ok(p) ==> p@ == self@,
            host_failure(r),
    {
        let code = abi.gpio_init(self.port, self.pin, true);
        Pin::claimed(self.port, self.pin, code)
    }

    /// Claims the pin as an output. This cannot be undone.
    pub fn into_output<A: HostAbi>(self, abi: &mut A) -> (r: Result<Pin<Output>, WasmError>)
        ensures
            r matches Ok(p) ==> p@ == self@,
            host_failure(r),
    {
        let code = abi.gpio_init(self.port, self.pin, false);
        Pin::claimed(self.port, self.pin, code)
    }
}

impl Pin<Input> {
    /// Whether the line reads high: the host stored the level 1.
    pub fn is_high<A: HostAbi>(&self, abi: &mut A) -> (r: Result<bool, WasmError>)
        ensures
            host_failure(r),
    {
        let mut gpio_state: u32 = 0;
        let code = abi.gpio_read(self.port(), self.pin(), &mut gpio_state);
        level_from(code, gpio_state, 1)
    }

    /// Whether the line reads low: the host stored the level 0.
    pub fn is_low<A: HostAbi>(&self, abi: &mut A) -> (r: Result<bool, WasmError>)
        ensures
            host_failure(r),
    {
        let mut gpio_state: u32 = 0;
        let code = abi.gpio_read(self.port(), self.pin(), &mut gpio_state);
        level_from(code, gpio_state, 0)
    }
}

impl Pin<Output> {
    /// Drives the line low.
    pub fn set_low<A: HostAbi>(&mut self, abi: &mut A) -> (r: Result<(), WasmError>)
        ensures
            final(self)@ == old(self)@,
            host_failure(r),
    {
        let code = abi.gpio_write(self.port(), self.pin(), 0);
        check_error(code)
    }

    /// Drives the line high.
    pub fn set_high<A: HostAbi>(&mut self, abi: &mut A) -> (r: Result<(), WasmError>)
        ensures
            final(self)@ == old(self)@,
            host_failure(r),
    {
        let code = abi.gpio_write(self.port(), self.pin(), 1);
        check_error(code)
    }
}

/// Exclusive authority to claim pins.
pub struct Periphals;

impl Periphals {
    /// Takes the token out of `slot`. It can be had once: afterwards the
    /// slot is empty and every later attempt gets `None`.
    pub fn take(slot: &mut Option<Periphals>) -> (r: Option<Periphals>)
        ensures
            r is Some == (*old(slot)) is Some,
            *final(slot) is None,
    {
        match slot.take() {
            Some(p) => Some(p),
            None => None,
        }
    }

    /// A pin on `port` with number `pin`, direction not decided.
    pub fn init_gpio(&self, port: u32, pin: u32) -> (r: Pin<Unknown>)
        ensures
            r@ == (port, pin),
    {
        Pin::new(port, pin)
    }

    /// Blocks for `ms` milliseconds.
    pub fn delay_ms<A: HostAbi>(&mut self, abi: &mut A, ms: u32) {
        let mut d = WasmDelay;
        d.delay_ms(abi, ms);
    }
}

/// Blocking delays through the host.
pub struct WasmDelay;

impl WasmDelay {
    /// Blocks for `ms` milliseconds.
    pub fn delay_ms<A: HostAbi>(&mut self, abi: &mut A, ms: u32) {
        abi.delay_ms(ms);
    }
}

/// Text output through the host's diagnostic channel.
pub struct WasmPrint;

impl WasmPrint {
    /// Writes a string to the host's console.
    pub fn write_str<A: HostAbi>(&mut self, abi: &mut A, s: &str) {
        abi.print(s.as_bytes());
    }
}

/// The lines of a UART connection: CTS and RTS are optional.
pub struct Pins {
    pub rx: Pin<Input>,
    pub tx: Pin<Output>,
    pub cts: Option<Pin<Input>>,
    pub rts: Option<Pin<Output>>,
}

/// An open UART connection, known by the handle that the host gave out.
pub struct Uart {
    handle: u8,
}

impl View for Uart {
    type V = u8;

    closed spec fn view(&self) -> u8 {
        self.handle
    }
}

/// The port and pin number of an optional pin.
fn optional_id<P: GpioPin>(p: &Option<P>) -> (r: Option<(u32, u32)>)
    ensures
        match p {
            Some(q) => r == Some(q.id()),
            None => r is None,
        },
{
    match p {
        Some(q) => Some((q.port(), q.pin())),
        None => None,
    }
}

impl Uart {
    /// Opens the connection over `pins`, once; afterwards only the handle is
    /// kept.
    pub fn new<A: HostAbi>(pins: Pins, abi: &mut A) -> (r: Result<Uart, WasmError>)
        ensures
            host_failure(r),
    {
        let cts = optional_id(&pins.cts);
        let rts = optional_id(&pins.rts);
        let mut handle: u8 = 0;
        let code = abi.uart_init(
            &mut handle,
            pins.tx.port(),
            pins.tx.pin(),
            pins.rx.port(),
            pins.rx.pin(),
            cts,
            rts,
        );
        Uart::from_init(code, handle)
    }

    /// The connection with `handle` when the host's `uart_init` answered
    /// `code` zero; the host's code as an error otherwise.
    pub fn from_init(code: i32, handle: u8) -> (r: Result<Uart, WasmError>)
        ensures
            code == 0 ==> (r matches Ok(u) && u@ == handle),
            code != 0 ==> (r matches Err(e) && e == WasmError::RuntimeError(code)),
    {
        match check_error(code) {
            Ok(_) => Ok(Uart { handle }),
            Err(e) => Err(e),
        }
    }

    /// The handle that the host gave out for this connection.
    pub fn handle(&self) -> (r: u8)
        ensures
            r == self@,
    {
        self.handle
    }

    /// Sends one byte, blocking until it is out.
    pub fn write<A: HostAbi>(&mut self, abi: &mut A, word: u8) -> (r: Result<(), WasmError>)
        ensures
            final(self)@ == old(self)@,
            host_failure(r),
    {
        check_error(abi.uart_write(self.handle, word))
    }

    /// Nothing is buffered: flushing always succeeds.
    pub fn flush(&mut self) -> (r: Result<(), WasmError>)
        ensures
            r is Ok,
            final(self)@ == old(self)@,
    {
        Ok(())
    }

    /// Receives one byte, blocking until it is in.
    pub fn read<A: HostAbi>(&mut self, abi: &mut A) -> (r: Result<u8, WasmError>)
        ensures
            final(self)@ == old(self)@,
            host_failure(r),
    {
        let mut value: u8 = 0;
        let code = abi.uart_read(self.handle, &mut value);
        byte_from(code, value)
    }

    /// Sends the bytes of `s` one by one, in order. A byte that fails does
    /// not stop the ones after it; the number of bytes that failed is
    /// returned.
    pub fn write_str<A: HostAbi>(&mut self, abi: &mut A, s: &str) -> (failed: usize)
        ensures
            final(self)@ == old(self)@,
            failed <= s.spec_bytes().len(),
    {
        let bytes = s.as_bytes();
        let mut failed: usize = 0;
        let mut i: usize = 0;
        while i < bytes.len()
            invariant
                i <= bytes@.len(),
                failed <= i,
                self@ == old(self)@,
                bytes@ == s.spec_bytes(),
            decreases bytes@.len() - i,
        {
            if self.write(abi, bytes[i]).is_err() {
                failed = failed + 1;
            }
            i = i + 1;
        }
        failed
    }
}

} // verus!
