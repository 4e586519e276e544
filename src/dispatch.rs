use vstd::prelude::*;

use crate::abi::{
    spec_arity, spec_from_index, spec_returns_code, HostFunc, Trap, ERR_ARGUMENT,
    ERR_UNKNOWN_HANDLE,
};
use crate::board::Board;
use crate::host::{
    gpio_deinit_post, gpio_init_post, gpio_read_post, gpio_write_post, uart_init_post,
    uart_read_post, uart_write_post, Runtime,
};
use crate::memory::LinearMemory;

verus! {

/// Whether an `i32` argument carries a byte: the bytecode passes bytes
/// widened to `i32`.
pub open spec fn is_byte_arg(v: i32) -> bool {
    0 <= v <= 255
}

/// Whether the arguments of a call to `f` can be decoded: as many as `f`
/// takes. A value that does not fit its declared width is a call-time
/// error, not a malformed call.
pub open spec fn args_decode(f: HostFunc, args: Seq<i32>) -> bool {
    args.len() == spec_arity(f)
}

/// The effect that a decoded call to `f` owes, stated by the contract of the
/// runtime operation it routes to. `code` is the error code handed back.
pub open spec fn call_post<B: Board>(
    f: HostFunc,
    args: Seq<i32>,
    before: &Runtime<B>,
    after: &Runtime<B>,
    mem_before: Seq<u8>,
    mem_after: Seq<u8>,
    code: i32,
) -> bool {
    match f {
        HostFunc::UartWrite => after.same_tables(before) && mem_after == mem_before
            && if !is_byte_arg(args[0]) {
            // no connection has a handle beyond a byte
            code == ERR_UNKNOWN_HANDLE
        } else if !is_byte_arg(args[1]) {
            code == ERR_ARGUMENT
        } else {
            uart_write_post(before.open_handle() == Some(args[0] as u8), code)
        },
        HostFunc::UartRead => after.same_tables(before) && if !is_byte_arg(args[0]) {
            code == ERR_UNKNOWN_HANDLE && mem_after == mem_before
        } else {
            uart_read_post(
                before.open_handle() == Some(args[0] as u8),
                mem_before,
                mem_after,
                args[1] as u32,
                code,
            )
        },
        HostFunc::UartInit => uart_init_post(
            before,
            after,
            mem_before,
            mem_after,
            args[0] as u32,
            (args[1] as u32, args[2] as u32),
            (args[3] as u32, args[4] as u32),
            (args[5] as u32, args[6] as u32),
            (args[7] as u32, args[8] as u32),
            code,
        ),
        HostFunc::GpioWrite => after.same_tables(before) && mem_after == mem_before
            && gpio_write_post(
            before.output_pins().contains((args[0] as u32, args[1] as u32)),
            code,
        ),
        HostFunc::GpioRead => after.same_tables(before) && gpio_read_post(
            before.input_pins().contains((args[0] as u32, args[1] as u32)),
            mem_before,
            mem_after,
            args[2] as u32,
            code,
        ),
        HostFunc::GpioInit => mem_after == mem_before && gpio_init_post(
            before,
            after,
            args[0] as u32,
            args[1] as u32,
            args[2] == 1,
            code,
        ),
        HostFunc::GpioDeinit => mem_after == mem_before && gpio_deinit_post(
            before,
            after,
            args[0] as u32,
            args[1] as u32,
            code,
        ),
        HostFunc::Print | HostFunc::DelayMs => after.same_tables(before) && mem_after
            == mem_before,
    }
}

impl<B: Board> Runtime<B> {
    /// Carries out the host call with dispatch index `index` on the raw
    /// `i32` arguments of the guest's call frame. An unknown index, or a
    /// number of arguments other than the function's arity, traps and
    /// changes nothing; otherwise the
    /// result is the call's error code, or nothing for the calls that have
    /// none.
    pub fn invoke_index<M: LinearMemory + ?Sized>(
        &mut self,
        board: &mut B,
        mem: &mut M,
        index: usize,
        args: &[i32],
    ) -> (r: Result<Option<i32>, Trap>)
        requires
            old(self).wf(),
        ensures
            final(self).wf(),
            match spec_from_index(index) {
                None => r == Err::<Option<i32>, Trap>(Trap::UnexpectedSignature) && *final(self)
                    == *old(self) && final(mem).bytes() == old(mem).bytes(),
                Some(f) => if !args_decode(f, args@) {
                    r == Err::<Option<i32>, Trap>(Trap::UnexpectedSignature) && *final(self)
                        == *old(self) && final(mem).bytes() == old(mem).bytes()
                } else {
                    match r {
                        Ok(Some(code)) => spec_returns_code(f) && call_post(
                            f,
                            args@,
                            &*old(self),
                            &*final(self),
                            old(mem).bytes(),
                            final(mem).bytes(),
                            code,
                        ),
                        Ok(None) => !spec_returns_code(f) && call_post(
                            f,
                            args@,
                            &*old(self),
                            &*final(self),
                            old(mem).bytes(),
                            final(mem).bytes(),
                            0,
                        ),
                        Err(_) => false,
                    }
                },
            },
    {
        let f = match HostFunc::from_index(index) {
            Some(f) => f,
            None => {
                return Err(Trap::UnexpectedSignature);
            },
        };
        if args.len() != f.arity() {
            return Err(Trap::UnexpectedSignature);
        }
        // arguments are decoded in the order of the function's signature
        match f {
            HostFunc::UartWrite => {
                if args[0] < 0 || args[0] > 255 {
                    return Ok(Some(ERR_UNKNOWN_HANDLE));
                }
                if args[1] < 0 || args[1] > 255 {
                    return Ok(Some(ERR_ARGUMENT));
                }
                let handle = args[0] as u8;
                let word = args[1] as u8;
                Ok(Some(self.uart_write(board, handle, word)))
            },
            HostFunc::UartRead => {
                if args[0] < 0 || args[0] > 255 {
                    return Ok(Some(ERR_UNKNOWN_HANDLE));
                }
                let handle = args[0] as u8;
                let ptr = args[1] as u32;
                Ok(Some(self.uart_read(board, mem, handle, ptr)))
            },
            HostFunc::UartInit => {
                let handle_ptr = args[0] as u32;
                let tx = (args[1] as u32, args[2] as u32);
                let rx = (args[3] as u32, args[4] as u32);
                let cts = (args[5] as u32, args[6] as u32);
                let rts = (args[7] as u32, args[8] as u32);
                Ok(Some(self.uart_init(board, mem, handle_ptr, tx, rx, cts, rts)))
            },
            HostFunc::Print => {
                let offset = args[0] as u32;
                let len = args[1] as u32;
                let _printed = self.print(board, &*mem, offset, len);
                Ok(None)
            },
            HostFunc::GpioWrite => {
                let port = args[0] as u32;
                let pin = args[1] as u32;
                let value = args[2] as u32;
                Ok(Some(self.write_gpio(board, port, pin, value)))
            },
            HostFunc::GpioRead => {
                let port = args[0] as u32;
                let pin = args[1] as u32;
                let ptr = args[2] as u32;
                Ok(Some(self.read_gpio(board, mem, port, pin, ptr)))
            },
            HostFunc::GpioInit => {
                let port = args[0] as u32;
                let pin = args[1] as u32;
                let is_input = args[2] == 1;
                Ok(Some(self.init_gpio(board, port, pin, is_input)))
            },
            HostFunc::GpioDeinit => {
                let port = args[0] as u32;
                let pin = args[1] as u32;
                Ok(Some(self.deinit_gpio(port, pin)))
            },
            HostFunc::DelayMs => {
                let ms = args[0] as u32;
                self.delay_ms(board, ms);
                Ok(None)
            },
        }
    }
}

} // verus!
