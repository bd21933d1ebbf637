//! Driver core for a wearable LED display ("the glasses") reached over a
//! low-power wireless link: the vendor frame encoding (2-bit pixel packing,
//! running XOR checksum, packetization into transport-sized writes) and the
//! single-session state machine that tracks the one bound peripheral.

pub mod dispatch;
pub mod encoding;
pub mod session;
pub mod structures;
