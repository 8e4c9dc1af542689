//! The activity centre of a podcast server: background tasks, durable
//! notifications, the sockets that carry them, the drawer that shows them, the
//! remote control of other devices and the upkeep of the yt-dlp binary.
//!
//! The library decides and computes; it turns plain values into plain values.
//! Reading the store, talking to sockets and drawing widgets is left to the
//! caller, who hands in what came back.

pub mod access;
pub mod client_laws;
pub mod device_laws;
pub mod double;
pub mod ident;
pub mod json;
mod lists;
pub mod manager_laws;
pub mod moment;
pub mod notification_center;
pub mod notifications;
pub mod notify;
pub mod now_playing;
pub mod number_laws;
pub mod order;
pub mod progress;
pub mod remote_devices;
pub mod socket_laws;
pub mod store;
pub mod task_laws;
pub mod task_manager;
pub mod text;
pub mod text_laws;
pub mod toasts;
pub mod upkeep_laws;
pub mod view_laws;
pub mod websocket;
pub mod ytdlp;
pub mod ytdlp_settings;
