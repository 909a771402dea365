//! The driver handle and its lifecycle.
//!
//! A handle owns the transport of one chip and is tagged with a lifecycle
//! state. It starts [`Uninitialized`]; initialisation consumes it and, where
//! the chip answers, yields a [`Ready`] handle, the only kind that can
//! transmit, receive or force the chip idle. No function of this crate
//! duplicates a handle, and none but initialisation yields a ready one.

use vstd::prelude::*;

verus! {

/// The chip is powered but has not been initialised.
#[derive(Debug)]
pub struct Uninitialized;

/// The chip has been initialised and is idle between operations.
#[derive(Debug)]
pub struct Ready;

/// Driver handle of one DW3000-family transceiver. `SPI` is the transport,
/// `STATE` the lifecycle state.
#[derive(Debug)]
pub struct DW3000<SPI, STATE> {
    spi: SPI,
    _state: STATE,
}

/// What contracts say of a handle: the transport it owns and its state.
pub struct HandleView<SPI, STATE> {
    pub transport: SPI,
    pub state: STATE,
}

impl<SPI, STATE> View for DW3000<SPI, STATE> {
    type V = HandleView<SPI, STATE>;

    closed spec fn view(&self) -> HandleView<SPI, STATE> {
        HandleView { transport: self.spi, state: self._state }
    }
}

impl<SPI, STATE> DW3000<SPI, STATE> {
    /// Moves the transport into a handle in another state.
    pub(crate) fn into_state<S>(self, state: S) -> (next: DW3000<SPI, S>)
        ensures
            next@ == (HandleView { transport: self@.transport, state }),
    {
        DW3000 { spi: self.spi, _state: state }
    }

    /// The transport, for the caller to carry out requests on.
    pub fn spi(&mut self) -> (spi: &mut SPI)
        ensures
            *spi == old(self)@.transport,
            final(self)@ == (HandleView { transport: *final(spi), state: old(self)@.state }),
    {
        &mut self.spi
    }

    /// The lifecycle state.
    pub fn state(&self) -> (state: &STATE)
        ensures
            *state == self@.state,
    {
        &self._state
    }
}

impl<SPI> DW3000<SPI, Uninitialized> {
    /// Wraps a transport. The chip is taken to be powered and not yet
    /// configured.
    pub fn new(spi: SPI) -> (handle: Self)
        ensures
            handle@ == (HandleView { transport: spi, state: Uninitialized }),
    {
        DW3000 { spi, _state: Uninitialized }
    }
}

} // verus!
