use vstd::prelude::*;

use crate::abi::{HostFunc, ERR_PIN_BUSY, ERR_UART_OPEN, OK};
use crate::board::Board;
use crate::dispatch::call_post;
use crate::host::{gpio_init_post, gpio_read_post, uart_init_post, uart_read_post, Runtime};
use crate::pins::supported_pin;

verus! {

/// The arguments of one `uart_init` call: the address for the handle, the
/// TX and RX lines, and the addresses of the CTS and RTS port and pin.
pub type UartRequest = (u32, (u32, u32), (u32, u32), (u32, u32), (u32, u32));

/// A pin number that the board does not have is refused, and neither the
/// input table nor the output table changes.
pub proof fn lemma_unsupported_pin_rejected<B: Board>(
    before: &Runtime<B>,
    after: &Runtime<B>,
    port: u32,
    pin: u32,
    is_input: bool,
    code: i32,
)
    requires
        gpio_init_post(before, after, port, pin, is_input, code),
        !supported_pin(pin),
    ensures
        code != OK,
        after.input_pins() == before.input_pins(),
        after.output_pins() == before.output_pins(),
{
}

/// Once a line was claimed as an output, claiming it again, in either
/// direction, fails and adds no second capability object.
pub proof fn lemma_no_duplicate_claim<B: Board>(
    r0: &Runtime<B>,
    r1: &Runtime<B>,
    r2: &Runtime<B>,
    port: u32,
    pin: u32,
    is_input: bool,
    code: i32,
)
    requires
        gpio_init_post(r0, r1, port, pin, false, OK),
        gpio_init_post(r1, r2, port, pin, is_input, code),
    ensures
        code == ERR_PIN_BUSY,
        r2.input_pins() == r1.input_pins(),
        r2.output_pins() == r1.output_pins(),
{
    assert(r1.output_pins().contains((port, pin)));
}

/// Only one UART connection is open at a time: after a successful
/// `uart_init`, the next one is refused as already open and the handle
/// counter stays where it was.
pub proof fn lemma_single_uart<B: Board>(
    r0: &Runtime<B>,
    r1: &Runtime<B>,
    r2: &Runtime<B>,
    m0: Seq<u8>,
    m1: Seq<u8>,
    m2: Seq<u8>,
    first: UartRequest,
    second: UartRequest,
    code: i32,
)
    requires
        uart_init_post(r0, r1, m0, m1, first.0, first.1, first.2, first.3, first.4, OK),
        uart_init_post(r1, r2, m1, m2, second.0, second.1, second.2, second.3, second.4, code),
    ensures
        code == ERR_UART_OPEN,
        r2.next_handle() == r1.next_handle(),
        r2.open_handle() == r1.open_handle(),
{
}

/// No host call moves the handle counter back.
pub proof fn lemma_counter_monotone<B: Board>(
    f: HostFunc,
    args: Seq<i32>,
    before: &Runtime<B>,
    after: &Runtime<B>,
    mem_before: Seq<u8>,
    mem_after: Seq<u8>,
    code: i32,
)
    requires
        call_post(f, args, before, after, mem_before, mem_after, code),
    ensures
        after.next_handle() >= before.next_handle(),
{
}

/// Handles are never reused: a successful `uart_init` takes the counter's
/// value and moves it on, and a later success, after any calls that did not
/// move the counter back, gets a strictly larger handle. A failure, even one
/// after the handle was taken, leaves no connection recorded.
pub proof fn lemma_handles_increase<B: Board>(
    a: &Runtime<B>,
    b: &Runtime<B>,
    c: &Runtime<B>,
    d: &Runtime<B>,
    ma: Seq<u8>,
    mb: Seq<u8>,
    mc: Seq<u8>,
    md: Seq<u8>,
    first: UartRequest,
    second: UartRequest,
)
    requires
        uart_init_post(a, b, ma, mb, first.0, first.1, first.2, first.3, first.4, OK),
        b.next_handle() <= c.next_handle(),
        uart_init_post(c, d, mc, md, second.0, second.1, second.2, second.3, second.4, OK),
    ensures
        b.open_handle() matches Some(h1) && d.open_handle() matches Some(h2) && h1 < h2,
{
}

/// A failed `uart_init` never leaves a connection recorded that was not
/// open before.
pub proof fn lemma_failed_uart_init_records_nothing<B: Board>(
    before: &Runtime<B>,
    after: &Runtime<B>,
    mb: Seq<u8>,
    ma: Seq<u8>,
    req: UartRequest,
    code: i32,
)
    requires
        uart_init_post(before, after, mb, ma, req.0, req.1, req.2, req.3, req.4, code),
        code != OK,
    ensures
        after.open_handle() == before.open_handle(),
        ma == mb,
{
}

/// Reading a pin into an offset past the end of the guest's memory fails
/// and writes nothing.
pub proof fn lemma_gpio_read_out_of_range(
    registered: bool,
    mem_before: Seq<u8>,
    mem_after: Seq<u8>,
    offset: u32,
    code: i32,
)
    requires
        gpio_read_post(registered, mem_before, mem_after, offset, code),
        offset >= mem_before.len(),
    ensures
        code != OK,
        mem_after == mem_before,
{
}

/// Reading a UART byte into an offset past the end of the guest's memory
/// fails and writes nothing.
pub proof fn lemma_uart_read_out_of_range(
    known: bool,
    mem_before: Seq<u8>,
    mem_after: Seq<u8>,
    offset: u32,
    code: i32,
)
    requires
        uart_read_post(known, mem_before, mem_after, offset, code),
        offset >= mem_before.len(),
    ensures
        code != OK,
        mem_after == mem_before,
{
}

} // verus!
