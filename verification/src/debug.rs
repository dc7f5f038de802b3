//! Debug-channel configuration steps.
//!
//! The debug UART itself (its registers, buffering and interrupt
//! handler) lives in the surrounding shim; the configuration chain
//! only records whether debugging is wanted and registers the UART
//! interrupt handler.

use vstd::prelude::*;

use crate::cpu::wf_vectors;
use crate::cpu::Handler;
use crate::cpu::Irq;

verus! {

impl crate::cpu::Config {
    /// Configure debugging over the UART.
    pub fn debug(self) -> (r: Self)
        requires
            wf_vectors(self.vectors),
        ensures
            wf_vectors(r.vectors),
            r.clk == self.clk,
            r.no_debug == self.no_debug,
            r.vectors.pendsv == self.vectors.pendsv,
            r.vectors.isr@ == self.vectors.isr@.update(
                crate::cpu::irq_index(Irq::Usart1),
                Handler::Debug,
            ),
    {
        self.lazy_debug()
    }

    /// Configure debugging with the UART brought up on first use.
    pub fn lazy_debug(self) -> (r: Self)
        requires
            wf_vectors(self.vectors),
        ensures
            wf_vectors(r.vectors),
            r.clk == self.clk,
            r.no_debug == self.no_debug,
            r.vectors.pendsv == self.vectors.pendsv,
            r.vectors.isr@ == self.vectors.isr@.update(
                crate::cpu::irq_index(Irq::Usart1),
                Handler::Debug,
            ),
    {
        self.isr(Irq::Usart1, Handler::Debug)
    }

    /// Turn off debug...
    pub fn no_debug(self) -> (r: Self)
        ensures
            r.clk == self.clk,
            r.no_debug,
            r.vectors.pendsv == self.vectors.pendsv,
            r.vectors.isr@ == self.vectors.isr@,
    {
        let mut c = self;
        c.no_debug = true;
        c
    }

    /// Whether the UART is only brought up on first use.
    pub fn is_lazy_debug(&self) -> (r: bool)
        ensures
            r == false,
    {
        false
    }
}

} // verus!
