//! The receiving side of the abstraction layer: the normalized receive
//! errors and one receiver capability trait per channel topology.

pub mod error;
pub mod generic;
pub mod impl_async_channel;
pub mod impl_tokio;
pub mod multi_consumer;
pub mod one_shot;
pub mod single_consumer;

pub use error::TryRecvError;
pub use multi_consumer as mc;
pub use one_shot as oneshot;
pub use single_consumer as sc;
