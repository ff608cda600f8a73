//! Capture-to-encode pipeline for remote-desktop screen sharing: the frame
//! model, per-buffer frame assembly under a drop-on-full policy, the
//! pass-through encoder, the stream shutdown rules, and the data types
//! shared with the permission broker and the session broker.

mod broker;
mod capture;
mod encode;
mod frame;
mod lifecycle;
mod portal;

pub use broker::{
    ClientInfo, ServerStatus, SessionInfo, SessionState, BROKER_OBJECT_PATH, BROKER_SERVICE_NAME,
    OBJECT_PATH, SERVICE_NAME,
};
pub use capture::{BufferMetadata, BufferOutcome, BufferRejection, ChunkMeta, FrameAssembler};
pub use encode::BitmapEncoder;
pub use frame::{CaptureEvent, CapturedFrame, CursorBitmap, CursorInfo, DamageRect, PixelFormat};
pub use lifecycle::{PwError, StopAction, StreamLifecycle};
pub use portal::{accept_sources, OfferedSources, PortalError, PortalStream};
