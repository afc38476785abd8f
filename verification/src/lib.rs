//! A kernel-bypass TCP SYN scanner core.
//!
//! The crate builds raw Ethernet/IP/TCP probe frames, models the shared
//! frame pool and the ring-ownership protocol through which frames are
//! handed to and from the network driver, and decodes received frames
//! back into records of the targets that answered.  The actual driver
//! rings and sockets live outside this crate; everything here is the
//! logic that decides what bytes go out, what the answers mean, and
//! which frame is owned by whom at every step.

pub mod codec;
pub mod errors;
pub mod net;
pub mod pool;
pub mod recv;
pub mod scan;
pub mod send;
pub mod veth;

pub use errors::ScanError;
pub use net::IpAddr;
pub use net::Responder;
pub use net::SpecIpAddr;
pub use net::SpecSrcConfig;
pub use net::SpecTarget;
pub use net::SrcConfig;
pub use net::Target;
pub use pool::FrameDesc;
pub use pool::FramePool;
