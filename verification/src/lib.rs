//! Verified core of a family of user-space device drivers: the descriptor
//! record and ring shared with the hardware, the decoding of completion
//! events, and the dispatcher that parks and retries client requests.
//!
//! - [`trb`]: the 16-byte descriptor record and the packing of its words.
//! - [`descriptor`]: commands and transfers by kind, packed into records.
//! - [`ring`]: the descriptor ring with its cycle-bit and link-record
//!   protocol; [`ring_laws`] states what holds of it over any run of
//!   operations.
//! - [`completion`]: decoding of completion events and their matching to
//!   pending requests.
//! - [`dispatch`]: the queue of requests that wait for the hardware and the
//!   decisions of the event loop; [`dispatch_laws`] states what holds of it
//!   over any run of events.
//! - [`irq`]: the steps of handling one interrupt.
//! - [`pci`]: the device slots of a PCI bus.
//! - [`usb`], [`context`]: small types that records carry.

pub mod completion;
pub mod context;
pub mod descriptor;
pub mod dispatch;
pub mod dispatch_laws;
pub mod irq;
pub mod pci;
pub mod ring;
pub mod ring_laws;
pub mod trb;
pub mod usb;
