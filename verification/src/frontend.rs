//! The capability interfaces of the frontend.
//!
//! The renderer's surroundings are reduced to two small interfaces: a sink
//! that carries rendered bytes to the terminal, and a source that yields
//! the next operator event.  Concrete terminal bindings implement them
//! outside the library.

use vstd::prelude::*;

use crate::renderer::UiEvent;

verus! {

/// Consumes rendered output: the terminal side of the frontend.
pub trait FrontendConsumer {
    /// Carries one batch of rendered bytes to the terminal.
    fn consume_chunk(&mut self, chunk: Vec<u8>);
}

/// Provides operator input: the event side of the frontend.
pub trait FrontendProvider {
    /// Yields the next operator event, if one is pending.
    fn provide_event(&mut self) -> Option<UiEvent>;
}

} // verus!
