//! What can go wrong when talking to the chip.

use vstd::prelude::*;

verus! {

/// A failure of a driver operation. `SPI` is the error type of the transport.
#[derive(Debug, PartialEq, Eq)]
pub enum Error<SPI> {
    /// The transport reported an error; it is handed on unchanged.
    Spi(SPI),
    /// The device identifier read during initialisation shows that nothing
    /// answers on the bus.
    UnexpectedDeviceId(u32),
    /// The status register never showed the awaited flag within the poll
    /// budget.
    Timeout,
}

} // verus!
