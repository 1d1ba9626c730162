//! ISO 15765-2 (ISO-TP) transport layer for CAN: segmentation of logical
//! messages into Single/First/Consecutive frames, reassembly with
//! sequence-number validation, and flow-control pacing, together with the
//! option records that a SocketCAN ISO-TP socket is configured with.

pub mod addressing;
pub mod codec;
pub mod errors;
pub mod fc;
pub mod laws;
pub mod options;
pub mod reassembly;
pub mod segment;

pub use addressing::effective_can_id;
pub use addressing::EFF_FLAG;
pub use addressing::EFF_MASK;
pub use addressing::ERR_FLAG;
pub use addressing::ERR_MASK;
pub use addressing::ERR_MASK_ALL;
pub use addressing::ERR_MASK_NONE;
pub use addressing::RTR_FLAG;
pub use addressing::SFF_MASK;
pub use codec::FlowStatus;
pub use codec::Pdu;
pub use errors::DecodeError;
pub use errors::FrameError;
pub use errors::ProtocolError;
pub use fc::FlowControlCoordinator;
pub use options::Duration;
pub use options::FlowControlOptions;
pub use options::IsoTpBehaviour;
pub use options::IsoTpOptions;
pub use options::LinkLayerOptions;
pub use options::TxFlags;
pub use options::CAN_MAX_DLEN;
pub use reassembly::Reassembler;
pub use reassembly::RxEvent;
pub use segment::segment_message;
pub use segment::SegPhase;
pub use segment::Segmenter;
