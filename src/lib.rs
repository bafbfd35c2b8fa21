//! A live-reloading previewer for a single vector-image document: the
//! viewport bookkeeping, pixel conversion, change filtering, document cache
//! and redraw scheduling, each with its contract.

pub mod cache;
pub mod events;
pub mod pixels;
pub mod session;
pub mod viewport;

pub use cache::{Document, DocumentCache};
pub use events::{
    batch_triggers_reload, creation_observed, event_triggers_reload, idle_timeout_ms,
    notification_triggers_reload, should_reload, touches_path, ChangeEvent, ChangeKind, CreationWait,
    Notification, POLL_ACTIVE_MS, POLL_INACTIVE_MS,
};
pub use pixels::{blank_frame, to_display_buffer, unpremultiply_pixel, BACKGROUND};
pub use session::{Keys, Session, Step};
pub use viewport::{DocSize, RenderTransform, ViewportState, ZoomStep, PAN_STEP, ZOOM_MIN, ZOOM_ONE};
