//! Interrupt-vector configuration.
//!
//! The firmware assembles its vector table at build time by chaining
//! configuration steps, each module registering its own handler.  The
//! table is modelled here by name: which handler sits in the PendSV
//! slot and in each device-interrupt slot.  The surrounding shim turns
//! this into the real in-memory vector table.

use vstd::prelude::*;

verus! {

/// The interrupt handlers this firmware registers.
#[derive(Clone, Copy, PartialEq, Eq, Structural, Debug)]
pub enum Handler {
    /// No handler registered: a stray interrupt reboots.
    Unset,
    /// The ADC sampling state machine's interrupt.
    Adc,
    /// The PWM timer interrupt of the multiplex engine.
    Pulse,
    /// The UART transmit interrupt of the debug channel.
    Debug,
    /// The soft-tick dispatcher, on the PendSV exception.
    Pendsv,
}

/// The device interrupts the firmware uses.
#[derive(Clone, Copy, PartialEq, Eq, Structural, Debug)]
pub enum Irq {
    /// ADC interrupt line.
    Adc,
    /// PWM timer interrupt line.
    Tim3,
    /// Debug UART interrupt line.
    Usart1,
}

/// The vector-table slot of a device interrupt.
pub open spec fn irq_index(irq: Irq) -> int {
    match irq {
        Irq::Adc => 12,
        Irq::Tim3 => 16,
        Irq::Usart1 => 27,
    }
}

/// The vector-table slot of a device interrupt, as an index.
pub fn irq_slot(irq: Irq) -> (r: usize)
    ensures
        r == irq_index(irq),
        r < 32,
{
    match irq {
        Irq::Adc => 12,
        Irq::Tim3 => 16,
        Irq::Usart1 => 27,
    }
}

/// The interrupt vectors by name: the PendSV exception slot and the 32
/// device-interrupt slots.
pub struct VectorTable {
    pub pendsv: Handler,
    pub isr: Vec<Handler>,
}

/// A vector table always carries its full 32 device slots.
pub open spec fn wf_vectors(v: VectorTable) -> bool {
    v.isr@.len() == 32
}

impl VectorTable {
    /// A table with nothing registered.
    pub fn new() -> (r: VectorTable)
        ensures
            wf_vectors(r),
            r.pendsv == Handler::Unset,
            forall|i: int| 0 <= i < 32 ==> r.isr@[i] == Handler::Unset,
    {
        let mut isr: Vec<Handler> = Vec::new();
        let mut i: usize = 0;
        while i < 32
            invariant
                i <= 32,
                isr@.len() == i,
                forall|k: int| 0 <= k < i ==> isr@[k] == Handler::Unset,
            decreases 32 - i,
        {
            isr.push(Handler::Unset);
            i += 1;
        }
        VectorTable { pendsv: Handler::Unset, isr }
    }
}

/// Build-time firmware configuration: the core clock, whether debug
/// output is disabled, and the vector table assembled so far.
pub struct Config {
    /// Core clock frequency, in Hz.
    pub clk: u32,
    /// Turn off debug...
    pub no_debug: bool,
    pub vectors: VectorTable,
}

impl Config {
    /// Start a configuration for the given core clock, with an empty
    /// vector table and debug output still enabled.
    pub fn new(clk: u32) -> (r: Config)
        ensures
            wf_vectors(r.vectors),
            r.clk == clk,
            !r.no_debug,
            r.vectors.pendsv == Handler::Unset,
            forall|i: int| 0 <= i < 32 ==> r.vectors.isr@[i] == Handler::Unset,
    {
        Config { clk, no_debug: false, vectors: VectorTable::new() }
    }

    /// Register a handler on a device-interrupt slot.
    pub fn isr(self, irq: Irq, handler: Handler) -> (r: Config)
        requires
            wf_vectors(self.vectors),
        ensures
            wf_vectors(r.vectors),
            r.clk == self.clk,
            r.no_debug == self.no_debug,
            r.vectors.pendsv == self.vectors.pendsv,
            r.vectors.isr@ == self.vectors.isr@.update(irq_index(irq), handler),
    {
        let mut c = self;
        let slot = irq_slot(irq);
        c.vectors.isr[slot] = handler;
        c
    }
}

} // verus!
