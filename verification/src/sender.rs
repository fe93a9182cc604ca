//! The sending side of the abstraction layer: the normalized send errors
//! and one sender capability trait per channel topology.

pub mod error;
pub mod generic;
pub mod impl_async_channel;
pub mod impl_std;
pub mod impl_tokio;
pub mod multi_producer;
pub mod one_shot;

pub use error::{SendError, SendErrorWithoutFull};
pub use multi_producer as mp;
pub use one_shot as oneshot;
