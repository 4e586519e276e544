use std::collections::HashMap;

use wasm_embedded_hal::abi::{
    ERR_ARGUMENT, ERR_HANDLES_EXHAUSTED, ERR_HARDWARE, ERR_MEMORY, ERR_PIN, ERR_PIN_BUSY, ERR_UART_OPEN,
    ERR_UNKNOWN_HANDLE, OK,
};
use wasm_embedded_hal::abi::{HostFunc, Trap};
use wasm_embedded_hal::board::Board;
use wasm_embedded_hal::host::{level_of, store_byte, store_level, Runtime};
use wasm_embedded_hal::memory::{GuestMemory, LinearMemory};

/// A board whose output lines drive a level table and whose input lines
/// read it through a wiring map (input pin -> output pin it is wired to).
#[derive(Default)]
struct LoopbackBoard {
    levels: HashMap<u32, bool>,
    wiring: HashMap<u32, u32>,
    resets: Vec<u32>,
    printed: Vec<Vec<u8>>,
    faults: Vec<(u32, u32)>,
    delays: Vec<u32>,
    sent: Vec<u8>,
    to_receive: Vec<u8>,
    fail_claims: bool,
    fail_serial: bool,
}

struct Serial;

impl Board for LoopbackBoard {
    type InputLine = u32;
    type OutputLine = u32;
    type Serial = Serial;

    fn reset_pin(&mut self, pin: u32) {
        self.resets.push(pin);
    }

    fn claim_input(&mut self, pin: u32) -> Result<u32, ()> {
        if self.fail_claims {
            Err(())
        } else {
            Ok(pin)
        }
    }

    fn claim_output(&mut self, pin: u32) -> Result<u32, ()> {
        if self.fail_claims {
            Err(())
        } else {
            Ok(pin)
        }
    }

    fn read_level(&mut self, line: &u32) -> Result<bool, ()> {
        let src = self.wiring.get(line).copied().unwrap_or(*line);
        Ok(self.levels.get(&src).copied().unwrap_or(false))
    }

    fn drive_level(&mut self, line: &mut u32, high: bool) -> Result<(), ()> {
        self.levels.insert(*line, high);
        Ok(())
    }

    fn open_serial(
        &mut self,
        _tx: u32,
        _rx: u32,
        _cts: Option<u32>,
        _rts: Option<u32>,
    ) -> Result<Serial, ()> {
        if self.fail_serial {
            Err(())
        } else {
            Ok(Serial)
        }
    }

    fn serial_write(&mut self, _serial: &mut Serial, word: u8) -> Result<(), ()> {
        self.sent.push(word);
        Ok(())
    }

    fn serial_read(&mut self, _serial: &mut Serial) -> Result<u8, ()> {
        if self.to_receive.is_empty() {
            Err(())
        } else {
            Ok(self.to_receive.remove(0))
        }
    }

    fn delay_ms(&mut self, ms: u32) {
        self.delays.push(ms);
    }

    fn print(&mut self, text: &[u8]) {
        self.printed.push(text.to_vec());
    }

    fn print_fault(&mut self, offset: u32, len: u32) {
        self.faults.push((offset, len));
    }
}

fn call(
    rt: &mut Runtime<LoopbackBoard>,
    board: &mut LoopbackBoard,
    mem: &mut GuestMemory,
    f: HostFunc,
    args: &[i32],
) -> Result<Option<i32>, Trap> {
    rt.invoke_index(board, mem, f.index(), args)
}

fn code(r: Result<Option<i32>, Trap>) -> i32 {
    r.unwrap().unwrap()
}

#[test]
fn unsupported_pin_is_rejected_and_tables_unchanged() {
    let mut rt = Runtime::new();
    let mut board = LoopbackBoard::default();
    for pin in [0u32, 12, 17, 22, 255, u32::MAX] {
        assert_eq!(rt.init_gpio(&mut board, 0, pin, true), ERR_PIN);
        assert_eq!(rt.init_gpio(&mut board, 0, pin, false), ERR_PIN);
    }
    assert_eq!(rt.init_gpio(&mut board, 1, 8, true), ERR_PIN);
    // nothing was registered: a write and a read on those lines fail
    let mut mem = GuestMemory::new(16);
    assert_eq!(rt.write_gpio(&mut board, 0, 255, 1), ERR_PIN);
    assert_eq!(rt.read_gpio(&mut board, &mut mem, 0, 255, 0), ERR_PIN);
    assert!(board.resets.is_empty());
}

#[test]
fn every_supported_pin_can_be_claimed() {
    let mut rt = Runtime::new();
    let mut board = LoopbackBoard::default();
    for pin in (1u32..=11).chain(18..=21) {
        assert_eq!(rt.init_gpio(&mut board, 0, pin, pin % 2 == 0), OK);
    }
    assert_eq!(board.resets.len(), 15);
}

#[test]
fn second_output_init_of_same_pin_fails() {
    let mut rt = Runtime::new();
    let mut board = LoopbackBoard::default();
    assert_eq!(rt.init_gpio(&mut board, 0, 8, false), OK);
    assert_eq!(rt.init_gpio(&mut board, 0, 8, false), ERR_PIN_BUSY);
    assert_eq!(rt.init_gpio(&mut board, 0, 8, true), ERR_PIN_BUSY);
    // after deinit the output can be claimed again
    assert_eq!(rt.deinit_gpio(0, 8), OK);
    assert_eq!(rt.init_gpio(&mut board, 0, 8, false), OK);
}

#[test]
fn deinit_leaves_input_lines_claimed() {
    let mut rt = Runtime::new();
    let mut board = LoopbackBoard::default();
    let mut mem = GuestMemory::new(4);
    assert_eq!(rt.init_gpio(&mut board, 0, 10, true), OK);
    assert_eq!(rt.deinit_gpio(0, 10), OK);
    assert_eq!(rt.read_gpio(&mut board, &mut mem, 0, 10, 0), OK);
    assert_eq!(rt.init_gpio(&mut board, 0, 10, true), ERR_PIN_BUSY);
    // releasing a line that was never claimed succeeds too
    assert_eq!(rt.deinit_gpio(0, 5), OK);
}

#[test]
fn hardware_failure_on_claim_registers_nothing() {
    let mut rt = Runtime::new();
    let mut board = LoopbackBoard { fail_claims: true, ..Default::default() };
    assert_eq!(rt.init_gpio(&mut board, 0, 4, false), ERR_HARDWARE);
    assert_eq!(rt.write_gpio(&mut board, 0, 4, 1), ERR_PIN);
    board.fail_claims = false;
    assert_eq!(rt.init_gpio(&mut board, 0, 4, false), OK);
}

#[test]
fn write_then_read_loopback_round_trip() {
    let mut rt = Runtime::new();
    let mut board = LoopbackBoard::default();
    board.wiring.insert(10, 9);
    let mut mem = GuestMemory::new(8);
    assert_eq!(rt.init_gpio(&mut board, 0, 9, false), OK);
    assert_eq!(rt.init_gpio(&mut board, 0, 10, true), OK);
    assert_eq!(rt.write_gpio(&mut board, 0, 9, 7), OK);
    assert_eq!(rt.read_gpio(&mut board, &mut mem, 0, 10, 3), OK);
    assert_eq!(mem.as_bytes()[3], 1);
    assert_eq!(rt.write_gpio(&mut board, 0, 9, 0), OK);
    assert_eq!(rt.read_gpio(&mut board, &mut mem, 0, 10, 3), OK);
    assert_eq!(mem.as_bytes()[3], 0);
}

#[test]
fn gpio_read_out_of_range_writes_nothing() {
    let mut rt = Runtime::new();
    let mut board = LoopbackBoard::default();
    board.levels.insert(10, true);
    let mut mem = GuestMemory::from_bytes(vec![7, 7, 7, 7]);
    assert_eq!(rt.init_gpio(&mut board, 0, 10, true), OK);
    assert_eq!(rt.read_gpio(&mut board, &mut mem, 0, 10, 4), ERR_MEMORY);
    assert_eq!(rt.read_gpio(&mut board, &mut mem, 0, 10, u32::MAX), ERR_MEMORY);
    assert_eq!(mem.as_bytes(), &[7, 7, 7, 7]);
}

#[test]
fn uart_read_out_of_range_writes_nothing() {
    let mut rt = Runtime::new();
    let mut board = LoopbackBoard::default();
    board.to_receive = vec![0x55];
    let mut mem = GuestMemory::from_bytes(vec![9, 9]);
    assert_eq!(rt.uart_init(&mut board, &mut mem, 0, (0, 3), (0, 2), (0, 0), (0, 0)), OK);
    assert_eq!(mem.as_bytes(), &[1, 9]);
    assert_eq!(rt.uart_read(&mut board, &mut mem, 1, 2), ERR_MEMORY);
    assert_eq!(mem.as_bytes(), &[1, 9]);
}

#[test]
fn uart_read_stores_received_byte() {
    let mut rt = Runtime::new();
    let mut board = LoopbackBoard::default();
    board.to_receive = vec![0x5a];
    let mut mem = GuestMemory::new(4);
    assert_eq!(rt.uart_init(&mut board, &mut mem, 0, (0, 3), (0, 2), (0, 0), (0, 0)), OK);
    assert_eq!(rt.uart_read(&mut board, &mut mem, 1, 2), OK);
    assert_eq!(mem.as_bytes(), &[1, 0, 0x5a, 0]);
    // nothing left to receive: the driver fails and nothing is written
    assert_eq!(rt.uart_read(&mut board, &mut mem, 1, 3), ERR_HARDWARE);
    assert_eq!(mem.as_bytes(), &[1, 0, 0x5a, 0]);
    assert_eq!(rt.uart_read(&mut board, &mut mem, 2, 3), ERR_UNKNOWN_HANDLE);
}

#[test]
fn only_one_uart_connection() {
    let mut rt = Runtime::new();
    let mut board = LoopbackBoard::default();
    let mut mem = GuestMemory::new(8);
    assert_eq!(rt.uart_init(&mut board, &mut mem, 0, (0, 3), (0, 2), (0, 0), (0, 0)), OK);
    assert_eq!(rt.uart_init(&mut board, &mut mem, 1, (0, 5), (0, 4), (0, 0), (0, 0)), ERR_UART_OPEN);
    assert_eq!(mem.as_bytes()[1], 0);
    assert_eq!(rt.uart_write(&mut board, 1, 0x41), OK);
    assert_eq!(rt.uart_write(&mut board, 2, 0x41), ERR_UNKNOWN_HANDLE);
    assert_eq!(board.sent, vec![0x41]);
}

#[test]
fn handle_taken_by_failed_write_is_not_reused() {
    let mut rt = Runtime::new();
    let mut board = LoopbackBoard::default();
    let mut mem = GuestMemory::new(4);
    // the handle cannot be written: handle 1 is consumed, no connection recorded
    assert_eq!(rt.uart_init(&mut board, &mut mem, 100, (0, 3), (0, 2), (0, 0), (0, 0)), ERR_MEMORY);
    assert_eq!(rt.uart_write(&mut board, 1, 0x41), ERR_UNKNOWN_HANDLE);
    // a driver failure consumes nothing
    board.fail_serial = true;
    assert_eq!(rt.uart_init(&mut board, &mut mem, 0, (0, 3), (0, 2), (0, 0), (0, 0)), ERR_HARDWARE);
    board.fail_serial = false;
    assert_eq!(rt.uart_init(&mut board, &mut mem, 0, (0, 3), (0, 2), (0, 0), (0, 0)), OK);
    assert_eq!(mem.as_bytes()[0], 2);
    assert_eq!(rt.uart_write(&mut board, 2, 0x42), OK);
}

#[test]
fn handles_run_out_after_255() {
    let mut rt = Runtime::new();
    let mut board = LoopbackBoard::default();
    let mut mem = GuestMemory::new(1);
    for _ in 0..255 {
        assert_eq!(rt.uart_init(&mut board, &mut mem, 5, (0, 3), (0, 2), (0, 0), (0, 0)), ERR_MEMORY);
    }
    assert_eq!(rt.uart_init(&mut board, &mut mem, 0, (0, 3), (0, 2), (0, 0), (0, 0)), ERR_HANDLES_EXHAUSTED);
    assert_eq!(mem.as_bytes(), &[0]);
}

#[test]
fn uart_pins_must_exist() {
    let mut rt = Runtime::new();
    let mut board = LoopbackBoard::default();
    let mut mem = GuestMemory::new(4);
    assert_eq!(rt.uart_init(&mut board, &mut mem, 0, (0, 30), (0, 2), (0, 0), (0, 0)), ERR_PIN);
    assert_eq!(rt.uart_init(&mut board, &mut mem, 0, (0, 3), (0, 0), (0, 0), (0, 0)), ERR_PIN);
    assert_eq!(mem.as_bytes(), &[0, 0, 0, 0]);
}

#[test]
fn flow_control_pins_read_from_guest_memory() {
    let mut rt = Runtime::new();
    let mut board = LoopbackBoard::default();
    // cts pin number 6 at offset 4, rts pin number 40 at offset 8
    let mut mem = GuestMemory::from_bytes(vec![0, 0, 0, 0, 6, 0, 0, 0, 40, 0, 0, 0]);
    assert_eq!(rt.uart_init(&mut board, &mut mem, 0, (0, 3), (0, 2), (1, 4), (1, 8)), ERR_PIN);
    assert_eq!(rt.uart_init(&mut board, &mut mem, 0, (0, 3), (0, 2), (1, 10), (0, 0)), ERR_MEMORY);
    assert_eq!(rt.uart_init(&mut board, &mut mem, 0, (0, 3), (0, 2), (1, 4), (0, 0)), OK);
    assert_eq!(mem.as_bytes()[0], 1);
}

#[test]
fn scenario_output_pin_is_not_readable() {
    let mut rt = Runtime::new();
    let mut board = LoopbackBoard::default();
    let mut mem = GuestMemory::new(16);
    assert_eq!(code(call(&mut rt, &mut board, &mut mem, HostFunc::GpioInit, &[0, 8, 0])), OK);
    assert_eq!(code(call(&mut rt, &mut board, &mut mem, HostFunc::GpioWrite, &[0, 8, 1])), OK);
    assert_eq!(board.levels.get(&8), Some(&true));
    // (0, 8) is held as an output: claiming it again is refused
    assert_eq!(rt.init_gpio(&mut board, 0, 8, false), ERR_PIN_BUSY);
    let r = code(call(&mut rt, &mut board, &mut mem, HostFunc::GpioRead, &[0, 8, 0]));
    assert_ne!(r, OK);
    assert_eq!(r, ERR_PIN);
}

#[test]
fn scenario_uart_open_write_and_second_open() {
    let mut rt = Runtime::new();
    let mut board = LoopbackBoard::default();
    let mut mem = GuestMemory::new(16);
    let args = [4, 0, 3, 0, 2, 0, 0, 0, 0];
    assert_eq!(code(call(&mut rt, &mut board, &mut mem, HostFunc::UartInit, &args)), OK);
    assert_eq!(mem.as_bytes()[4], 1);
    assert_eq!(code(call(&mut rt, &mut board, &mut mem, HostFunc::UartWrite, &[1, 0x41])), 0);
    let second = [5, 0, 3, 0, 2, 0, 0, 0, 0];
    let r = code(call(&mut rt, &mut board, &mut mem, HostFunc::UartInit, &second));
    assert_ne!(r, 0);
    assert_eq!(r, ERR_UART_OPEN);
    assert_eq!(mem.as_bytes()[5], 0);
    assert_eq!(board.sent, vec![0x41]);
}

#[test]
fn scenario_out_of_range_input_pin() {
    let mut rt = Runtime::new();
    let mut board = LoopbackBoard::default();
    let mut mem = GuestMemory::new(16);
    let r = code(call(&mut rt, &mut board, &mut mem, HostFunc::GpioInit, &[0, 255, 1]));
    assert_ne!(r, 0);
    // the input table stayed empty: no line reads
    for pin in 0..=255 {
        assert_eq!(rt.read_gpio(&mut board, &mut mem, 0, pin, 0), ERR_PIN);
    }
}

#[test]
fn scenario_print_out_of_range_is_reported() {
    let mut rt = Runtime::new();
    let mut board = LoopbackBoard::default();
    let mut mem = GuestMemory::from_bytes(b"hello".to_vec());
    assert_eq!(call(&mut rt, &mut board, &mut mem, HostFunc::Print, &[3, 4]), Ok(None));
    assert!(board.printed.is_empty());
    assert_eq!(board.faults, vec![(3, 4)]);
    assert!(!rt.print(&mut board, &mem, 0, 6));
    assert!(rt.print(&mut board, &mem, 1, 4));
    assert_eq!(board.printed, vec![b"ello".to_vec()]);
}

#[test]
fn delay_reaches_the_board() {
    let mut rt = Runtime::new();
    let mut board = LoopbackBoard::default();
    let mut mem = GuestMemory::new(0);
    assert_eq!(call(&mut rt, &mut board, &mut mem, HostFunc::DelayMs, &[1000]), Ok(None));
    assert_eq!(board.delays, vec![1000]);
}

#[test]
fn unknown_index_traps() {
    let mut rt = Runtime::new();
    let mut board = LoopbackBoard::default();
    let mut mem = GuestMemory::new(4);
    assert_eq!(rt.invoke_index(&mut board, &mut mem, 9, &[]), Err(Trap::UnexpectedSignature));
    assert_eq!(rt.invoke_index(&mut board, &mut mem, usize::MAX, &[1, 2]), Err(Trap::UnexpectedSignature));
}

#[test]
fn wrong_arity_traps() {
    let mut rt = Runtime::new();
    let mut board = LoopbackBoard::default();
    let mut mem = GuestMemory::new(4);
    assert_eq!(call(&mut rt, &mut board, &mut mem, HostFunc::GpioInit, &[0, 8]), Err(Trap::UnexpectedSignature));
    assert_eq!(call(&mut rt, &mut board, &mut mem, HostFunc::Print, &[0, 1, 2]), Err(Trap::UnexpectedSignature));
}

#[test]
fn out_of_range_byte_arguments_are_call_errors() {
    let mut rt = Runtime::new();
    let mut board = LoopbackBoard::default();
    let mut mem = GuestMemory::new(4);
    assert_eq!(rt.uart_init(&mut board, &mut mem, 0, (0, 3), (0, 2), (0, 0), (0, 0)), OK);
    // a handle beyond a byte names no connection
    assert_eq!(call(&mut rt, &mut board, &mut mem, HostFunc::UartWrite, &[300, 1]), Ok(Some(ERR_UNKNOWN_HANDLE)));
    assert_eq!(call(&mut rt, &mut board, &mut mem, HostFunc::UartRead, &[256, 0]), Ok(Some(ERR_UNKNOWN_HANDLE)));
    assert_eq!(call(&mut rt, &mut board, &mut mem, HostFunc::UartRead, &[-1, 0]), Ok(Some(ERR_UNKNOWN_HANDLE)));
    // a word beyond a byte is refused without sending anything
    assert_eq!(call(&mut rt, &mut board, &mut mem, HostFunc::UartWrite, &[1, 256]), Ok(Some(ERR_ARGUMENT)));
    assert!(board.sent.is_empty());
    assert_eq!(call(&mut rt, &mut board, &mut mem, HostFunc::UartWrite, &[1, 65]), Ok(Some(OK)));
    assert_eq!(call(&mut rt, &mut board, &mut mem, HostFunc::UartWrite, &[2, 65]), Ok(Some(ERR_UNKNOWN_HANDLE)));
    assert_eq!(board.sent, vec![65]);
}

#[test]
fn level_of_drives_low_only_for_zero() {
    assert!(!level_of(0));
    assert!(level_of(1));
    assert!(level_of(u32::MAX));
}

#[test]
fn store_level_writes_one_byte() {
    let mut mem = GuestMemory::from_bytes(vec![9, 9, 9]);
    assert_eq!(store_level(&mut mem, 1, Ok(true)), OK);
    assert_eq!(mem.as_bytes(), &[9, 1, 9]);
    assert_eq!(store_level(&mut mem, 1, Ok(false)), OK);
    assert_eq!(mem.as_bytes(), &[9, 0, 9]);
    assert_eq!(store_level(&mut mem, 3, Ok(true)), ERR_MEMORY);
    assert_eq!(store_level(&mut mem, 0, Err(())), ERR_HARDWARE);
    assert_eq!(mem.as_bytes(), &[9, 0, 9]);
}

#[test]
fn store_byte_writes_received_byte() {
    let mut mem = GuestMemory::new(2);
    assert_eq!(store_byte(&mut mem, 1, Ok(0xab)), OK);
    assert_eq!(mem.as_bytes(), &[0, 0xab]);
    assert_eq!(store_byte(&mut mem, 2, Ok(0xcd)), ERR_MEMORY);
    assert_eq!(store_byte(&mut mem, 0, Err(())), ERR_HARDWARE);
    assert_eq!(mem.as_bytes(), &[0, 0xab]);
}

#[test]
fn register_records_claimed_lines() {
    let mut rt: Runtime<LoopbackBoard> = Runtime::new();
    let mut board = LoopbackBoard::default();
    let mut mem = GuestMemory::new(4);
    assert_eq!(rt.register_input((0, 10), Ok(10)), OK);
    assert_eq!(rt.register_output((0, 9), Err(())), ERR_HARDWARE);
    assert_eq!(rt.register_output((0, 8), Ok(8)), OK);
    assert_eq!(rt.read_gpio(&mut board, &mut mem, 0, 10, 0), OK);
    assert_eq!(rt.write_gpio(&mut board, 0, 8, 1), OK);
    assert_eq!(rt.write_gpio(&mut board, 0, 9, 1), ERR_PIN);
    assert_eq!(rt.init_gpio(&mut board, 0, 10, false), ERR_PIN_BUSY);
}

#[test]
fn record_uart_takes_handles_in_order() {
    let mut rt: Runtime<LoopbackBoard> = Runtime::new();
    let mut board = LoopbackBoard::default();
    let mut mem = GuestMemory::new(2);
    assert_eq!(rt.record_uart(&mut mem, 0, Err(())), ERR_HARDWARE);
    assert_eq!(rt.record_uart(&mut mem, 2, Ok(Serial)), ERR_MEMORY);
    assert_eq!(mem.as_bytes(), &[0, 0]);
    assert_eq!(rt.record_uart(&mut mem, 1, Ok(Serial)), OK);
    assert_eq!(mem.as_bytes(), &[0, 2]);
    assert_eq!(rt.uart_write(&mut board, 1, 7), ERR_UNKNOWN_HANDLE);
    assert_eq!(rt.uart_write(&mut board, 2, 7), OK);
}

#[test]
fn gpio_init_flag_is_one_for_input() {
    let mut rt = Runtime::new();
    let mut board = LoopbackBoard::default();
    let mut mem = GuestMemory::new(4);
    assert_eq!(code(call(&mut rt, &mut board, &mut mem, HostFunc::GpioInit, &[0, 2, 2])), OK);
    // any flag other than 1 claims an output
    assert_eq!(code(call(&mut rt, &mut board, &mut mem, HostFunc::GpioWrite, &[0, 2, 1])), OK);
    assert_eq!(code(call(&mut rt, &mut board, &mut mem, HostFunc::GpioDeinit, &[0, 2])), OK);
    assert_eq!(code(call(&mut rt, &mut board, &mut mem, HostFunc::GpioWrite, &[0, 2, 1])), ERR_PIN);
}
