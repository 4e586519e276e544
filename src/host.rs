use vstd::prelude::*;

use crate::abi::{
    ERR_HANDLES_EXHAUSTED, ERR_HARDWARE, ERR_MEMORY, ERR_PIN, ERR_PIN_BUSY, ERR_UART_OPEN,
    ERR_UNKNOWN_HANDLE, OK,
};
use crate::board::Board;
use crate::memory::{get_bytes, get_u32, in_bounds, set_u8, u32_from_le, LinearMemory};
use crate::pins::{is_supported_pin, supported_pin};

verus! {

/// A physical line: its port and its pin number.
pub type PinId = (u32, u32);

/// The keys that a table of entries holds.
pub open spec fn keys_of<T>(s: Seq<(PinId, T)>) -> Set<PinId> {
    Set::new(|k: PinId| exists|i: int| 0 <= i < s.len() && s[i].0 == k)
}

/// No key occurs twice in a table.
pub open spec fn unique_keys<T>(s: Seq<(PinId, T)>) -> bool {
    forall|i: int, j: int| 0 <= i < s.len() && 0 <= j < s.len() && i != j ==> s[i].0 != s[j].0
}

proof fn lemma_keys_push<T>(s: Seq<(PinId, T)>, e: (PinId, T))
    ensures
        keys_of(s.push(e)) == keys_of(s).insert(e.0),
{
    let t = s.push(e);
    assert forall|k: PinId| keys_of(t).contains(k) <==> keys_of(s).insert(e.0).contains(k) by {
        if keys_of(s).contains(k) {
            let i = choose|i: int| 0 <= i < s.len() && s[i].0 == k;
            assert(t[i].0 == k);
        }
        if k == e.0 {
            assert(t[s.len() as int].0 == k);
        }
        if keys_of(t).contains(k) {
            let i = choose|i: int| 0 <= i < t.len() && t[i].0 == k;
            if i < s.len() {
                assert(s[i].0 == k);
            }
        }
    }
    assert(keys_of(t) =~= keys_of(s).insert(e.0));
}

proof fn lemma_keys_remove<T>(s: Seq<(PinId, T)>, i: int)
    requires
        0 <= i < s.len(),
        unique_keys(s),
    ensures
        keys_of(s.remove(i)) == keys_of(s).remove(s[i].0),
        unique_keys(s.remove(i)),
{
    let t = s.remove(i);
    let k0 = s[i].0;
    assert forall|k: PinId| keys_of(t).contains(k) <==> keys_of(s).remove(k0).contains(k) by {
        if keys_of(t).contains(k) {
            let j = choose|j: int| 0 <= j < t.len() && t[j].0 == k;
            if j < i {
                assert(s[j].0 == k);
            } else {
                assert(s[j + 1].0 == k);
            }
        }
        if keys_of(s).remove(k0).contains(k) {
            let j = choose|j: int| 0 <= j < s.len() && s[j].0 == k;
            if j < i {
                assert(t[j].0 == k);
            } else {
                assert(j != i);
                assert(t[j - 1].0 == k);
            }
        }
    }
    assert(keys_of(t) =~= keys_of(s).remove(k0));
    assert forall|a: int, b: int| 0 <= a < t.len() && 0 <= b < t.len() && a != b implies t[a].0
        != t[b].0 by {
        let sa = if a < i { a } else { a + 1 };
        let sb = if b < i { b } else { b + 1 };
        assert(t[a] == s[sa]);
        assert(t[b] == s[sb]);
    }
}

/// Finds the entry of `key` in a table.
fn find_entry<T>(v: &Vec<(PinId, T)>, key: PinId) -> (r: Option<usize>)
    ensures
        match r {
            Some(i) => i < v@.len() && v@[i as int].0 == key,
            None => !keys_of(v@).contains(key),
        },
{
    let mut i: usize = 0;
    while i < v.len()
        invariant
            i <= v@.len(),
            forall|j: int| 0 <= j < i ==> v@[j].0 != key,
        decreases v@.len() - i,
    {
        let k = v[i].0;
        if k.0 == key.0 && k.1 == key.1 {
            return Some(i);
        }
        i = i + 1;
    }
    None
}

/// The level that a written value drives: low for zero, high otherwise.
pub fn level_of(value: u32) -> (high: bool)
    ensures
        high == (value != 0),
{
    value != 0
}

/// Stores a sampled level as one byte, 1 for high and 0 for low, at
/// `offset`. A failed sample or an offset past the memory writes nothing and
/// gives the matching error code.
pub fn store_level<M: LinearMemory + ?Sized>(
    mem: &mut M,
    offset: u32,
    sample: Result<bool, ()>,
) -> (code: i32)
    ensures
        match sample {
            Ok(h) => if offset < old(mem).bytes().len() {
                code == OK && final(mem).bytes() == old(mem).bytes().update(
                    offset as int,
                    if h {
                        1u8
                    } else {
                        0u8
                    },
                )
            } else {
                code == ERR_MEMORY && final(mem).bytes() == old(mem).bytes()
            },
            Err(_) => code == ERR_HARDWARE && final(mem).bytes() == old(mem).bytes(),
        },
{
    match sample {
        Ok(high) => {
            let level: u8 = if high { 1 } else { 0 };
            if set_u8(mem, offset, level) {
                OK
            } else {
                ERR_MEMORY
            }
        },
        Err(_) => ERR_HARDWARE,
    }
}

/// Stores a received byte at `offset`. A failed receive or an offset past
/// the memory writes nothing and gives the matching error code.
pub fn store_byte<M: LinearMemory + ?Sized>(
    mem: &mut M,
    offset: u32,
    received: Result<u8, ()>,
) -> (code: i32)
    ensures
        match received {
            Ok(b) => if offset < old(mem).bytes().len() {
                code == OK && final(mem).bytes() == old(mem).bytes().update(offset as int, b)
            } else {
                code == ERR_MEMORY && final(mem).bytes() == old(mem).bytes()
            },
            Err(_) => code == ERR_HARDWARE && final(mem).bytes() == old(mem).bytes(),
        },
{
    match received {
        Ok(b) => {
            if set_u8(mem, offset, b) {
                OK
            } else {
                ERR_MEMORY
            }
        },
        Err(_) => ERR_HARDWARE,
    }
}

/// The host side of the boundary: owns every capability object that the
/// guest has claimed and carries out each host call against the board and
/// the guest's memory.
pub struct Runtime<B: Board> {
    handle_count: u16,
    uart: Option<(u8, B::Serial)>,
    inputs: Vec<(PinId, B::InputLine)>,
    outputs: Vec<(PinId, B::OutputLine)>,
}

impl<B: Board> Runtime<B> {
    /// The lines registered as inputs.
    pub closed spec fn input_pins(&self) -> Set<PinId> {
        keys_of(self.inputs@)
    }

    /// The lines registered as outputs.
    pub closed spec fn output_pins(&self) -> Set<PinId> {
        keys_of(self.outputs@)
    }

    /// The handle of the open UART connection, if one is open.
    pub closed spec fn open_handle(&self) -> Option<u8> {
        match self.uart {
            Some(c) => Some(c.0),
            None => None,
        }
    }

    /// The handle that the next UART connection will get; past 255 no
    /// handle is left.
    pub closed spec fn next_handle(&self) -> nat {
        self.handle_count as nat
    }

    /// The tables are consistent: no line in both directions, no line twice,
    /// the open handle below the next one, handles counted from 1.
    pub closed spec fn wf(&self) -> bool {
        &&& unique_keys(self.inputs@)
        &&& unique_keys(self.outputs@)
        &&& self.input_pins().disjoint(self.output_pins())
        &&& 1 <= self.handle_count <= 256
        &&& self.uart matches Some(c) ==> 1 <= c.0 && (c.0 as nat) < self.handle_count
    }

    /// Handles start at 1: in a consistent runtime the counter lies in
    /// 1..=256 and an open connection's handle is at least 1 and below it.
    pub proof fn lemma_handles_from_one(&self)
        requires
            self.wf(),
        ensures
            1 <= self.next_handle() <= 256,
            self.open_handle() matches Some(h) ==> 1 <= h && (h as nat) < self.next_handle(),
    {
    }

    /// Nothing that the guest can observe of the tables changed.
    pub open spec fn same_tables(&self, other: &Self) -> bool {
        &&& self.input_pins() == other.input_pins()
        &&& self.output_pins() == other.output_pins()
        &&& self.open_handle() == other.open_handle()
        &&& self.next_handle() == other.next_handle()
    }

    /// A runtime with no line claimed and no connection open.
    pub fn new() -> (r: Self)
        ensures
            r.wf(),
            r.input_pins() == Set::<PinId>::empty(),
            r.output_pins() == Set::<PinId>::empty(),
            r.open_handle() is None,
            r.next_handle() == 1,
    {
        let r = Runtime { handle_count: 1, uart: None, inputs: Vec::new(), outputs: Vec::new() };
        assert(r.input_pins() =~= Set::<PinId>::empty());
        assert(r.output_pins() =~= Set::<PinId>::empty());
        r
    }
}

/// What `init_gpio` owes: a bad port or pin is refused, a claimed line is
/// refused, and otherwise the line joins the table of its direction unless
/// the driver failed.
pub open spec fn gpio_init_post<B: Board>(
    before: &Runtime<B>,
    after: &Runtime<B>,
    port: u32,
    pin: u32,
    is_input: bool,
    code: i32,
) -> bool {
    let k = (port, pin);
    &&& after.open_handle() == before.open_handle()
    &&& after.next_handle() == before.next_handle()
    &&& if port != 0 || !supported_pin(pin) {
        code == ERR_PIN && after.same_tables(before)
    } else if before.input_pins().contains(k) || before.output_pins().contains(k) {
        code == ERR_PIN_BUSY && after.same_tables(before)
    } else if code == OK {
        if is_input {
            after.input_pins() == before.input_pins().insert(k) && after.output_pins()
                == before.output_pins()
        } else {
            after.output_pins() == before.output_pins().insert(k) && after.input_pins()
                == before.input_pins()
        }
    } else {
        code == ERR_HARDWARE && after.same_tables(before)
    }
}

/// What `deinit_gpio` owes: the line leaves the output table, the input
/// table is left as it is, and the call succeeds.
pub open spec fn gpio_deinit_post<B: Board>(
    before: &Runtime<B>,
    after: &Runtime<B>,
    port: u32,
    pin: u32,
    code: i32,
) -> bool {
    &&& code == OK
    &&& after.output_pins() == before.output_pins().remove((port, pin))
    &&& after.input_pins() == before.input_pins()
    &&& after.open_handle() == before.open_handle()
    &&& after.next_handle() == before.next_handle()
}

/// What `read_gpio` owes: a line that is not a registered input is refused;
/// otherwise the sampled level lands as one byte, 0 or 1, at `offset`, unless
/// the driver failed or `offset` lies past the memory. A failed call writes
/// nothing.
pub open spec fn gpio_read_post(
    registered: bool,
    mem_before: Seq<u8>,
    mem_after: Seq<u8>,
    offset: u32,
    code: i32,
) -> bool {
    &&& !registered ==> code == ERR_PIN
    &&& registered ==> (code == OK || code == ERR_HARDWARE || code == ERR_MEMORY)
    &&& registered && offset >= mem_before.len() ==> code != OK
    &&& code == ERR_MEMORY ==> offset >= mem_before.len()
    &&& code == OK ==> offset < mem_before.len() && exists|level: u8|
        (level == 0 || level == 1) && mem_after == mem_before.update(offset as int, level)
    &&& code != OK ==> mem_after == mem_before
}

/// What `write_gpio` owes: a line that is not a registered output is
/// refused; otherwise the driver is asked to drive it and its failure is
/// reported.
pub open spec fn gpio_write_post(registered: bool, code: i32) -> bool {
    &&& !registered ==> code == ERR_PIN
    &&& registered ==> (code == OK || code == ERR_HARDWARE)
}

impl<B: Board> Runtime<B> {
    /// Claims line `(port, pin)` as an input or an output.
    pub fn init_gpio(&mut self, board: &mut B, port: u32, pin: u32, is_input: bool) -> (code: i32)
        requires
            old(self).wf(),
        ensures
            final(self).wf(),
            gpio_init_post(&*old(self), &*final(self), port, pin, is_input, code),
    {
        if port != 0 || !is_supported_pin(pin) {
            return ERR_PIN;
        }
        let key: PinId = (port, pin);
        if find_entry(&self.inputs, key).is_some() || find_entry(&self.outputs, key).is_some() {
            return ERR_PIN_BUSY;
        }
        // put the line back into its reset configuration before it is claimed
        board.reset_pin(pin);
        if is_input {
            let claim = board.claim_input(pin);
            self.register_input(key, claim)
        } else {
            let claim = board.claim_output(pin);
            self.register_output(key, claim)
        }
    }

    /// Records the outcome of claiming a free line `key` as an input: the
    /// line joins the input table when the driver handed it over, and the
    /// driver's failure is reported otherwise.
    pub fn register_input(&mut self, key: PinId, claim: Result<B::InputLine, ()>) -> (code: i32)
        requires
            old(self).wf(),
            !old(self).input_pins().contains(key),
            !old(self).output_pins().contains(key),
        ensures
            final(self).wf(),
            final(self).open_handle() == old(self).open_handle(),
            final(self).next_handle() == old(self).next_handle(),
            claim is Ok ==> code == OK && final(self).input_pins() == old(self).input_pins().insert(
                key,
            ) && final(self).output_pins() == old(self).output_pins(),
            claim is Err ==> code == ERR_HARDWARE && final(self).same_tables(&*old(self)),
    {
        match claim {
            Ok(line) => {
                proof {
                    lemma_keys_push(self.inputs@, (key, line));
                }
                self.inputs.push((key, line));
                assert forall|i: int, j: int|
                    0 <= i < self.inputs@.len() && 0 <= j < self.inputs@.len() && i != j implies
                    self.inputs@[i].0 != self.inputs@[j].0 by {
                    let n = self.inputs@.len() - 1;
                    if i == n {
                        assert(old(self).input_pins().contains(self.inputs@[j].0));
                    }
                    if j == n {
                        assert(old(self).input_pins().contains(self.inputs@[i].0));
                    }
                }
                OK
            },
            Err(_) => ERR_HARDWARE,
        }
    }

    /// Records the outcome of claiming a free line `key` as an output: the
    /// line joins the output table when the driver handed it over, and the
    /// driver's failure is reported otherwise.
    pub fn register_output(&mut self, key: PinId, claim: Result<B::OutputLine, ()>) -> (code: i32)
        requires
            old(self).wf(),
            !old(self).input_pins().contains(key),
            !old(self).output_pins().contains(key),
        ensures
            final(self).wf(),
            final(self).open_handle() == old(self).open_handle(),
            final(self).next_handle() == old(self).next_handle(),
            claim is Ok ==> code == OK && final(self).output_pins()
                == old(self).output_pins().insert(key) && final(self).input_pins()
                == old(self).input_pins(),
            claim is Err ==> code == ERR_HARDWARE && final(self).same_tables(&*old(self)),
    {
        match claim {
            Ok(line) => {
                proof {
                    lemma_keys_push(self.outputs@, (key, line));
                }
                self.outputs.push((key, line));
                assert forall|i: int, j: int|
                    0 <= i < self.outputs@.len() && 0 <= j < self.outputs@.len() && i != j implies
                    self.outputs@[i].0 != self.outputs@[j].0 by {
                    let n = self.outputs@.len() - 1;
                    if i == n {
                        assert(old(self).output_pins().contains(self.outputs@[j].0));
                    }
                    if j == n {
                        assert(old(self).output_pins().contains(self.outputs@[i].0));
                    }
                }
                OK
            },
            Err(_) => ERR_HARDWARE,
        }
    }

    /// Releases line `(port, pin)` from the output table. The input table is
    /// not consulted: an input line stays claimed.
    pub fn deinit_gpio(&mut self, port: u32, pin: u32) -> (code: i32)
        requires
            old(self).wf(),
        ensures
            final(self).wf(),
            gpio_deinit_post(&*old(self), &*final(self), port, pin, code),
    {
        let key: PinId = (port, pin);
        match find_entry(&self.outputs, key) {
            Some(i) => {
                proof {
                    lemma_keys_remove(self.outputs@, i as int);
                }
                let _released = self.outputs.remove(i);
            },
            None => {
                assert(self.output_pins().remove(key) =~= self.output_pins());
            },
        }
        OK
    }

    /// Samples input line `(port, pin)` and stores its level, 0 or 1, as one
    /// byte at `offset` in the guest's memory.
    pub fn read_gpio<M: LinearMemory + ?Sized>(
        &mut self,
        board: &mut B,
        mem: &mut M,
        port: u32,
        pin: u32,
        offset: u32,
    ) -> (code: i32)
        requires
            old(self).wf(),
        ensures
            *final(self) == *old(self),
            gpio_read_post(
                old(self).input_pins().contains((port, pin)),
                old(mem).bytes(),
                final(mem).bytes(),
                offset,
                code,
            ),
    {
        match find_entry(&self.inputs, (port, pin)) {
            Some(i) => {
                assert(self.input_pins().contains((port, pin)));
                let sample = board.read_level(&self.inputs[i].1);
                store_level(mem, offset, sample)
            },
            None => ERR_PIN,
        }
    }

    /// Drives output line `(port, pin)`: low for `value == 0`, high for any
    /// other value.
    pub fn write_gpio(&mut self, board: &mut B, port: u32, pin: u32, value: u32) -> (code: i32)
        requires
            old(self).wf(),
        ensures
            final(self).wf(),
            final(self).same_tables(&*old(self)),
            gpio_write_post(old(self).output_pins().contains((port, pin)), code),
    {
        match find_entry(&self.outputs, (port, pin)) {
            Some(i) => {
                let ghost before = self.outputs@;
                let (key, mut line) = self.outputs.remove(i);
                let res = board.drive_level(&mut line, level_of(value));
                self.outputs.insert(i, (key, line));
                assert forall|j: int| 0 <= j < self.outputs@.len() implies self.outputs@[j].0
                    == before[j].0 by {}
                assert(self.output_pins() =~= keys_of(before));
                assert(self.output_pins().contains((port, pin)));
                match res {
                    Ok(_) => OK,
                    Err(_) => ERR_HARDWARE,
                }
            },
            None => ERR_PIN,
        }
    }
}

/// Where an optional flow-control line comes from: the guest passes the
/// addresses of its port and pin number, both zero when the line is absent.
pub open spec fn line_requested(ptrs: (u32, u32)) -> bool {
    ptrs.0 != 0 && ptrs.1 != 0
}

/// The pin number that the guest stored at `ptr`, when four bytes there lie
/// inside its memory.
pub open spec fn stored_pin(mem: Seq<u8>, ptr: u32) -> Option<u32> {
    if in_bounds(ptr as int, 4, mem.len() as int) {
        Some(
            u32_from_le(mem[ptr as int], mem[ptr + 1], mem[ptr + 2], mem[ptr + 3]) as u32,
        )
    } else {
        None
    }
}

/// Whether an optional flow-control line cannot be resolved: its pin number
/// lies outside the memory or names no line of the board.
pub open spec fn bad_flow_line(mem: Seq<u8>, ptrs: (u32, u32)) -> bool {
    line_requested(ptrs) && match stored_pin(mem, ptrs.1) {
        Some(p) => !supported_pin(p),
        None => true,
    }
}

/// What `uart_init` owes. A second connection is refused and changes
/// nothing; so does a request once every handle was given out, or one whose
/// lines cannot be resolved. On success the next handle is recorded as open,
/// written as one byte at `handle_ptr`, and the counter moves on. A failure
/// leaves no connection open and writes nothing; the counter moves on only
/// when the handle was already taken and could not be written.
pub open spec fn uart_init_post<B: Board>(
    before: &Runtime<B>,
    after: &Runtime<B>,
    mem_before: Seq<u8>,
    mem_after: Seq<u8>,
    handle_ptr: u32,
    tx: PinId,
    rx: PinId,
    cts: (u32, u32),
    rts: (u32, u32),
    code: i32,
) -> bool {
    &&& after.input_pins() == before.input_pins()
    &&& after.output_pins() == before.output_pins()
    &&& if before.open_handle() is Some {
        code == ERR_UART_OPEN && after.same_tables(before) && mem_after == mem_before
    } else if before.next_handle() > 255 {
        code == ERR_HANDLES_EXHAUSTED && after.same_tables(before) && mem_after == mem_before
    } else if !supported_pin(tx.1) || !supported_pin(rx.1) {
        code == ERR_PIN && after.same_tables(before) && mem_after == mem_before
    } else if bad_flow_line(mem_before, cts) || bad_flow_line(mem_before, rts) {
        (code == ERR_PIN || code == ERR_MEMORY) && after.same_tables(before) && mem_after
            == mem_before
    } else if code == OK {
        &&& handle_ptr < mem_before.len()
        &&& after.open_handle() == Some(before.next_handle() as u8)
        &&& after.next_handle() == before.next_handle() + 1
        &&& mem_after == mem_before.update(handle_ptr as int, before.next_handle() as u8)
    } else {
        &&& after.open_handle() is None
        &&& mem_after == mem_before
        &&& code == ERR_HARDWARE && after.next_handle() == before.next_handle() || code
            == ERR_MEMORY && handle_ptr >= mem_before.len() && after.next_handle()
            == before.next_handle() + 1
    }
}

/// What `uart_read` owes: an unknown handle is refused; otherwise the byte
/// received lands at `offset`, unless the driver failed or `offset` lies
/// past the memory. A failed call writes nothing.
pub open spec fn uart_read_post(
    known: bool,
    mem_before: Seq<u8>,
    mem_after: Seq<u8>,
    offset: u32,
    code: i32,
) -> bool {
    &&& !known ==> code == ERR_UNKNOWN_HANDLE
    &&& known ==> (code == OK || code == ERR_HARDWARE || code == ERR_MEMORY)
    &&& known && offset >= mem_before.len() ==> code != OK
    &&& code == ERR_MEMORY ==> offset >= mem_before.len()
    &&& code == OK ==> offset < mem_before.len() && exists|b: u8|
        mem_after == mem_before.update(offset as int, b)
    &&& code != OK ==> mem_after == mem_before
}

/// What `uart_write` owes: an unknown handle is refused; otherwise the
/// driver's failure is reported.
pub open spec fn uart_write_post(known: bool, code: i32) -> bool {
    &&& !known ==> code == ERR_UNKNOWN_HANDLE
    &&& known ==> (code == OK || code == ERR_HARDWARE)
}

/// Resolves an optional flow-control line: `Ok(None)` when absent, the pin
/// number stored by the guest when present, an error code when that number
/// cannot be read or names no line.
fn flow_line<M: LinearMemory + ?Sized>(mem: &M, ptrs: (u32, u32)) -> (r: Result<Option<u32>, i32>)
    ensures
        match r {
            Ok(None) => !line_requested(ptrs),
            Ok(Some(p)) => line_requested(ptrs) && stored_pin(mem.bytes(), ptrs.1) == Some(p)
                && supported_pin(p),
            Err(c) => bad_flow_line(mem.bytes(), ptrs) && (c == ERR_PIN || c == ERR_MEMORY),
        },
{
    if ptrs.0 == 0 || ptrs.1 == 0 {
        return Ok(None);
    }
    match get_u32(mem, ptrs.1) {
        Some(p) => {
            if is_supported_pin(p) {
                Ok(Some(p))
            } else {
                Err(ERR_PIN)
            }
        },
        None => Err(ERR_MEMORY),
    }
}

impl<B: Board> Runtime<B> {
    /// Opens the UART connection over `tx` and `rx`, with the optional
    /// flow-control lines whose numbers the guest stored at `cts.1` and
    /// `rts.1`, and writes the new handle as one byte at `handle_ptr`.
    /// Only the pin numbers select lines; ports are not consulted.
    pub fn uart_init<M: LinearMemory + ?Sized>(
        &mut self,
        board: &mut B,
        mem: &mut M,
        handle_ptr: u32,
        tx: PinId,
        rx: PinId,
        cts: (u32, u32),
        rts: (u32, u32),
    ) -> (code: i32)
        requires
            old(self).wf(),
        ensures
            final(self).wf(),
            uart_init_post(
                &*old(self),
                &*final(self),
                old(mem).bytes(),
                final(mem).bytes(),
                handle_ptr,
                tx,
                rx,
                cts,
                rts,
                code,
            ),
    {
        // one physical unit: a single connection at a time
        if self.uart.is_some() {
            return ERR_UART_OPEN;
        }
        if self.handle_count > 255 {
            return ERR_HANDLES_EXHAUSTED;
        }
        if !is_supported_pin(tx.1) || !is_supported_pin(rx.1) {
            return ERR_PIN;
        }
        let cts_pin = match flow_line(&*mem, cts) {
            Ok(p) => p,
            Err(c) => {
                return c;
            },
        };
        let rts_pin = match flow_line(&*mem, rts) {
            Ok(p) => p,
            Err(c) => {
                return c;
            },
        };
        let tx_line = match board.claim_output(tx.1) {
            Ok(l) => l,
            Err(_) => {
                return ERR_HARDWARE;
            },
        };
        let rx_line = match board.claim_input(rx.1) {
            Ok(l) => l,
            Err(_) => {
                return ERR_HARDWARE;
            },
        };
        let cts_line = match cts_pin {
            Some(p) => match board.claim_input(p) {
                Ok(l) => Some(l),
                Err(_) => {
                    return ERR_HARDWARE;
                },
            },
            None => None,
        };
        let rts_line = match rts_pin {
            Some(p) => match board.claim_output(p) {
                Ok(l) => Some(l),
                Err(_) => {
                    return ERR_HARDWARE;
                },
            },
            None => None,
        };
        let opened = board.open_serial(tx_line, rx_line, cts_line, rts_line);
        self.record_uart(mem, handle_ptr, opened)
    }

    /// Records the outcome of opening the serial unit. An open connection
    /// takes the next handle, whatever follows, so handles are never reused;
    /// it is recorded as open only when the handle could be written at
    /// `handle_ptr`. A driver failure changes nothing.
    pub fn record_uart<M: LinearMemory + ?Sized>(
        &mut self,
        mem: &mut M,
        handle_ptr: u32,
        opened: Result<B::Serial, ()>,
    ) -> (code: i32)
        requires
            old(self).wf(),
            old(self).open_handle() is None,
            old(self).next_handle() <= 255,
        ensures
            final(self).wf(),
            final(self).input_pins() == old(self).input_pins(),
            final(self).output_pins() == old(self).output_pins(),
            opened is Ok ==> final(self).next_handle() == old(self).next_handle() + 1,
            opened is Ok ==> if handle_ptr < old(mem).bytes().len() {
                &&& code == OK
                &&& final(self).open_handle() == Some(old(self).next_handle() as u8)
                &&& final(mem).bytes() == old(mem).bytes().update(
                    handle_ptr as int,
                    old(self).next_handle() as u8,
                )
            } else {
                &&& code == ERR_MEMORY
                &&& final(self).open_handle() is None
                &&& final(mem).bytes() == old(mem).bytes()
            },
            opened is Err ==> code == ERR_HARDWARE && final(self).same_tables(&*old(self))
                && final(mem).bytes() == old(mem).bytes(),
    {
        match opened {
            Ok(serial) => {
                let handle = self.handle_count as u8;
                self.handle_count = self.handle_count + 1;
                if !set_u8(mem, handle_ptr, handle) {
                    return ERR_MEMORY;
                }
                self.uart = Some((handle, serial));
                OK
            },
            Err(_) => ERR_HARDWARE,
        }
    }

    /// Sends one byte over the connection `handle`.
    pub fn uart_write(&mut self, board: &mut B, handle: u8, word: u8) -> (code: i32)
        requires
            old(self).wf(),
        ensures
            final(self).wf(),
            final(self).same_tables(&*old(self)),
            uart_write_post(old(self).open_handle() == Some(handle), code),
    {
        match self.uart.take() {
            Some(conn) => {
                let (h, mut serial) = conn;
                if h != handle {
                    self.uart = Some((h, serial));
                    return ERR_UNKNOWN_HANDLE;
                }
                let res = board.serial_write(&mut serial, word);
                self.uart = Some((h, serial));
                match res {
                    Ok(_) => OK,
                    Err(_) => ERR_HARDWARE,
                }
            },
            None => ERR_UNKNOWN_HANDLE,
        }
    }

    /// Receives one byte over the connection `handle` and stores it at
    /// `offset` in the guest's memory.
    pub fn uart_read<M: LinearMemory + ?Sized>(
        &mut self,
        board: &mut B,
        mem: &mut M,
        handle: u8,
        offset: u32,
    ) -> (code: i32)
        requires
            old(self).wf(),
        ensures
            final(self).wf(),
            final(self).same_tables(&*old(self)),
            uart_read_post(
                old(self).open_handle() == Some(handle),
                old(mem).bytes(),
                final(mem).bytes(),
                offset,
                code,
            ),
    {
        match self.uart.take() {
            Some(conn) => {
                let (h, mut serial) = conn;
                if h != handle {
                    self.uart = Some((h, serial));
                    return ERR_UNKNOWN_HANDLE;
                }
                let received = board.serial_read(&mut serial);
                self.uart = Some((h, serial));
                store_byte(mem, offset, received)
            },
            None => ERR_UNKNOWN_HANDLE,
        }
    }

    /// Emits `len` bytes of guest text from `offset` on the diagnostic
    /// channel. A range outside the memory is reported there instead and
    /// never read; the result says whether the text was printed.
    pub fn print<M: LinearMemory + ?Sized>(
        &mut self,
        board: &mut B,
        mem: &M,
        offset: u32,
        len: u32,
    ) -> (printed: bool)
        ensures
            *final(self) == *old(self),
            printed == in_bounds(offset as int, len as int, mem.bytes().len() as int),
    {
        match get_bytes(mem, offset, len) {
            Some(text) => {
                board.print(text.as_slice());
                true
            },
            None => {
                board.print_fault(offset, len);
                false
            },
        }
    }

    /// Blocks for `ms` milliseconds.
    pub fn delay_ms(&mut self, board: &mut B, ms: u32)
        ensures
            *final(self) == *old(self),
    {
        board.delay_ms(ms);
    }
}

} // verus!
