//! A verified model of memory-mapped register access for a BSRR-style
//! GPIO port: a bit set/reset register where writing 1 to a low-half bit
//! drives the corresponding output high, writing 1 to the matching
//! high-half bit drives it low, and writing 0 anywhere leaves the output
//! alone.
//!
//! Every register-touching operation routes through a single store
//! primitive on a simulated register region that records each store it
//! receives, in order and verbatim, so elision and reordering are ruled
//! out by construction and the register state is provably the fold of the
//! recorded store log.

use vstd::prelude::*;

pub mod bsrr;
pub mod regmap;
pub mod roulette;

use crate::bsrr::BsrrMock;
use crate::regmap::GPIOE_BSRR;

verus! {

/// The simulated board: it owns the one simulated GPIO port E bit
/// set/reset register region. Exclusive access to the peripheral address
/// space is exactly exclusive ownership of this value, so no locking
/// discipline is needed: there is one execution context and one handle.
pub struct Board {
    /// The bit set/reset register of GPIO port E, all outputs low.
    pub gpioe_bsrr: BsrrMock,
}

/// Claims the simulated peripherals and hands back the owned board
/// handle. Every register access must go through the handle this returns;
/// a caller that wants a second handle must give this one up first.
pub fn init() -> (b: Board)
    ensures
        b.gpioe_bsrr.wf(),
        b.gpioe_bsrr.addr() == GPIOE_BSRR,
        b.gpioe_bsrr.initial() == 0,
        b.gpioe_bsrr.pins() == 0,
        b.gpioe_bsrr.log() == Seq::<u32>::empty(),
{
    Board { gpioe_bsrr: BsrrMock::new(GPIOE_BSRR, 0) }
}

} // verus!
