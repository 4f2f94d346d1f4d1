//! Driver logic for a cascaded 32x8 dot-matrix LED display.
//!
//! The crate holds the parts of the driver that decide something: the
//! framebuffer and its bitmap composition, the command words that one row
//! becomes on the wire, the queue of staged transfer records, and the state
//! machine that streams the queue to the bus one record per completion
//! interrupt. Nothing here touches a register. Every operation that needs
//! the hardware takes what was read from it as a plain value and hands back
//! the bus operations to perform, in order.

pub mod bus;
pub mod dma_buff;
pub mod display_led;
pub mod dma_stream;
pub mod draw_laws;
pub mod error;
pub mod matrix_led;
pub mod sequencer;
pub mod wake_timer;
