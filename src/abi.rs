use vstd::prelude::*;
use vstd::string::StringSliceAdditionalSpecFns;

verus! {

/// The call succeeded.
pub const OK: i32 = 0;

/// A guest memory range lies outside the guest's linear memory.
pub const ERR_MEMORY: i32 = 1;

/// The port is not zero, the pin number is not on the board, or the pin is
/// not registered in the direction that the call needs.
pub const ERR_PIN: i32 = -1;

/// The peripheral driver reported a failure.
pub const ERR_HARDWARE: i32 = -2;

/// The pin is already claimed, as an input or as an output.
pub const ERR_PIN_BUSY: i32 = -3;

/// A UART connection is already open.
pub const ERR_UART_OPEN: i32 = -4;

/// No open UART connection has this handle.
pub const ERR_UNKNOWN_HANDLE: i32 = -5;

/// Every handle value has been given out once already.
pub const ERR_HANDLES_EXHAUSTED: i32 = -6;

/// An argument does not fit the width that the host function declares for
/// it (a byte passed as an `i32` outside 0..=255).
pub const ERR_ARGUMENT: i32 = -7;

/// A fault that aborts the guest's current invocation.
#[derive(Clone, Copy, Debug, PartialEq, Eq, Structural)]
pub enum Trap {
    /// The call does not match any host function's index and signature.
    UnexpectedSignature,
}

/// The host functions that a guest module may import.
#[derive(Clone, Copy, Debug, PartialEq, Eq, Structural)]
pub enum HostFunc {
    UartWrite,
    UartRead,
    UartInit,
    Print,
    GpioWrite,
    GpioRead,
    GpioInit,
    GpioDeinit,
    DelayMs,
}

/// The value types of the bytecode's call frames.
#[derive(Clone, Copy, Debug, PartialEq, Eq, Structural)]
pub enum ValueKind {
    I32,
    I64,
    F32,
    F64,
}

/// Why an import cannot be linked.
#[derive(Clone, Copy, Debug, PartialEq, Eq, Structural)]
pub enum LinkError {
    /// No host function has this name.
    UnknownFunction,
    /// The host function exists, with another signature.
    SignatureMismatch,
}

/// The index under which each host function is dispatched.
pub open spec fn spec_index(f: HostFunc) -> usize {
    match f {
        HostFunc::UartWrite => 0,
        HostFunc::UartRead => 1,
        HostFunc::UartInit => 2,
        HostFunc::Print => 3,
        HostFunc::GpioWrite => 4,
        HostFunc::GpioRead => 5,
        HostFunc::GpioInit => 6,
        HostFunc::GpioDeinit => 7,
        HostFunc::DelayMs => 8,
    }
}

/// The host function dispatched under `index`, if any.
pub open spec fn spec_from_index(index: usize) -> Option<HostFunc> {
    if index == 0 {
        Some(HostFunc::UartWrite)
    } else if index == 1 {
        Some(HostFunc::UartRead)
    } else if index == 2 {
        Some(HostFunc::UartInit)
    } else if index == 3 {
        Some(HostFunc::Print)
    } else if index == 4 {
        Some(HostFunc::GpioWrite)
    } else if index == 5 {
        Some(HostFunc::GpioRead)
    } else if index == 6 {
        Some(HostFunc::GpioInit)
    } else if index == 7 {
        Some(HostFunc::GpioDeinit)
    } else if index == 8 {
        Some(HostFunc::DelayMs)
    } else {
        None
    }
}

/// How many `i32` arguments each host function takes.
pub open spec fn spec_arity(f: HostFunc) -> nat {
    match f {
        HostFunc::UartWrite => 2,
        HostFunc::UartRead => 2,
        HostFunc::UartInit => 9,
        HostFunc::Print => 2,
        HostFunc::GpioWrite => 3,
        HostFunc::GpioRead => 3,
        HostFunc::GpioInit => 3,
        HostFunc::GpioDeinit => 2,
        HostFunc::DelayMs => 1,
    }
}

/// Whether a host function hands an `i32` error code back.
pub open spec fn spec_returns_code(f: HostFunc) -> bool {
    !(f == HostFunc::Print || f == HostFunc::DelayMs)
}

/// The import name of each host function, as UTF-8 bytes.
pub open spec fn spec_import_name(f: HostFunc) -> Seq<u8> {
    match f {
        HostFunc::UartWrite => "uart_write".spec_bytes(),
        HostFunc::UartRead => "uart_read".spec_bytes(),
        HostFunc::UartInit => "uart_init".spec_bytes(),
        HostFunc::Print => "print".spec_bytes(),
        HostFunc::GpioWrite => "gpio_write".spec_bytes(),
        HostFunc::GpioRead => "gpio_read".spec_bytes(),
        HostFunc::GpioInit => "gpio_init".spec_bytes(),
        HostFunc::GpioDeinit => "gpio_deinit".spec_bytes(),
        HostFunc::DelayMs => "delay_ms".spec_bytes(),
    }
}

/// Whether a declared signature is exactly the one of `f`: all parameters
/// `i32`, as many as `f` takes, and an `i32` result exactly when `f` has one.
pub open spec fn spec_signature_matches(
    f: HostFunc,
    params: Seq<ValueKind>,
    result: Option<ValueKind>,
) -> bool {
    &&& params.len() == spec_arity(f)
    &&& forall|i: int| 0 <= i < params.len() ==> params[i] == ValueKind::I32
    &&& if spec_returns_code(f) {
        result == Some(ValueKind::I32)
    } else {
        result is None
    }
}

impl HostFunc {
    /// The dispatch index of this function.
    pub fn index(self) -> (r: usize)
        ensures
            r == spec_index(self),
    {
        match self {
            HostFunc::UartWrite => 0,
            HostFunc::UartRead => 1,
            HostFunc::UartInit => 2,
            HostFunc::Print => 3,
            HostFunc::GpioWrite => 4,
            HostFunc::GpioRead => 5,
            HostFunc::GpioInit => 6,
            HostFunc::GpioDeinit => 7,
            HostFunc::DelayMs => 8,
        }
    }

    /// The function dispatched under `index`, if any.
    pub fn from_index(index: usize) -> (r: Option<HostFunc>)
        ensures
            r == spec_from_index(index),
            r matches Some(f) ==> spec_index(f) == index,
    {
        match index {
            0 => Some(HostFunc::UartWrite),
            1 => Some(HostFunc::UartRead),
            2 => Some(HostFunc::UartInit),
            3 => Some(HostFunc::Print),
            4 => Some(HostFunc::GpioWrite),
            5 => Some(HostFunc::GpioRead),
            6 => Some(HostFunc::GpioInit),
            7 => Some(HostFunc::GpioDeinit),
            8 => Some(HostFunc::DelayMs),
            _ => None,
        }
    }

    /// How many `i32` arguments this function takes.
    pub fn arity(self) -> (r: usize)
        ensures
            r == spec_arity(self),
    {
        match self {
            HostFunc::UartWrite => 2,
            HostFunc::UartRead => 2,
            HostFunc::UartInit => 9,
            HostFunc::Print => 2,
            HostFunc::GpioWrite => 3,
            HostFunc::GpioRead => 3,
            HostFunc::GpioInit => 3,
            HostFunc::GpioDeinit => 2,
            HostFunc::DelayMs => 1,
        }
    }

    /// Whether this function hands an error code back.
    pub fn returns_code(self) -> (r: bool)
        ensures
            r == spec_returns_code(self),
    {
        match self {
            HostFunc::Print | HostFunc::DelayMs => false,
            _ => true,
        }
    }

    /// The name under which a guest module imports this function.
    pub fn import_name(self) -> (r: &'static str)
        ensures
            r.spec_bytes() == spec_import_name(self),
    {
        match self {
            HostFunc::UartWrite => "uart_write",
            HostFunc::UartRead => "uart_read",
            HostFunc::UartInit => "uart_init",
            HostFunc::Print => "print",
            HostFunc::GpioWrite => "gpio_write",
            HostFunc::GpioRead => "gpio_read",
            HostFunc::GpioInit => "gpio_init",
            HostFunc::GpioDeinit => "gpio_deinit",
            HostFunc::DelayMs => "delay_ms",
        }
    }

    /// Whether a declared signature is exactly this function's.
    pub fn signature_matches(self, params: &[ValueKind], result: Option<ValueKind>) -> (r: bool)
        ensures
            r == spec_signature_matches(self, params@, result),
    {
        if params.len() != self.arity() {
            return false;
        }
        let mut i: usize = 0;
        while i < params.len()
            invariant
                i <= params@.len(),
                forall|j: int| 0 <= j < i ==> params@[j] == ValueKind::I32,
            decreases params@.len() - i,
        {
            if params[i] != ValueKind::I32 {
                return false;
            }
            i = i + 1;
        }
        if self.returns_code() {
            result == Some(ValueKind::I32)
        } else {
            result.is_none()
        }
    }
}

/// Every host function, in dispatch order.
pub open spec fn all_funcs() -> Seq<HostFunc> {
    seq![
        HostFunc::UartWrite,
        HostFunc::UartRead,
        HostFunc::UartInit,
        HostFunc::Print,
        HostFunc::GpioWrite,
        HostFunc::GpioRead,
        HostFunc::GpioInit,
        HostFunc::GpioDeinit,
        HostFunc::DelayMs,
    ]
}

/// Whether two byte strings are equal.
pub fn bytes_equal(a: &[u8], b: &[u8]) -> (r: bool)
    ensures
        r == (a@ == b@),
{
    if a.len() != b.len() {
        return false;
    }
    let mut i: usize = 0;
    while i < a.len()
        invariant
            i <= a@.len(),
            a@.len() == b@.len(),
            forall|j: int| 0 <= j < i ==> a@[j] == b@[j],
        decreases a@.len() - i,
    {
        if a[i] != b[i] {
            return false;
        }
        i = i + 1;
    }
    assert(a@ =~= b@);
    true
}

/// Links one import of a guest module: finds the host function named `name`
/// and checks that the declared signature is exactly its own.
pub fn resolve_import(name: &[u8], params: &[ValueKind], result: Option<ValueKind>) -> (r: Result<
    HostFunc,
    LinkError,
>)
    ensures
        match r {
            Ok(f) => name@ == spec_import_name(f) && spec_signature_matches(f, params@, result),
            Err(LinkError::UnknownFunction) => forall|f: HostFunc|
                name@ != #[trigger] spec_import_name(f),
            Err(LinkError::SignatureMismatch) => exists|f: HostFunc|
                name@ == #[trigger] spec_import_name(f) && !spec_signature_matches(
                    f,
                    params@,
                    result,
                ),
        },
{
    let mut i: usize = 0;
    while i < 9
        invariant
            i <= 9,
            forall|j: int| 0 <= j < i ==> name@ != spec_import_name(#[trigger] all_funcs()[j]),
        decreases 9 - i,
    {
        let f = HostFunc::from_index(i).unwrap();
        assert(f == all_funcs()[i as int]);
        if bytes_equal(name, f.import_name().as_bytes()) {
            if f.signature_matches(params, result) {
                return Ok(f);
            } else {
                return Err(LinkError::SignatureMismatch);
            }
        }
        i = i + 1;
    }
    assert forall|f: HostFunc| name@ != #[trigger] spec_import_name(f) by {
        let j: int = spec_index(f) as int;
        assert(all_funcs()[j] == f);
    }
    Err(LinkError::UnknownFunction)
}

} // verus!
