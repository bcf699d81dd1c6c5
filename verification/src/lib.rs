//! lnxcast: the decisions of a Miracast / RTSP screen-casting daemon for Linux.
//!
//! Whatever talks to the outside (D-Bus, the screen-cast portal, GStreamer, the
//! file system) is performed by the program around this library; the library
//! says what to do next and what each answer means.
//!
//! - [`capture`] negotiates a screen-capture stream with the desktop portal;
//! - [`media`] plans and builds the pipeline that encodes the stream;
//! - [`net`] finds the Wi-Fi Direct interface and the Miracast sinks;
//! - [`server`] offers the stream over RTSP;
//! - [`daemon`] puts the four together, from start to shutdown;
//! - [`text`] holds the text primitives that the other modules share.

pub mod capture;
pub mod daemon;
pub mod media;
pub mod net;
pub mod server;
pub mod text;
