//! Discovery of Miracast / Wi-Fi Direct devices through `wpa_supplicant`.

pub mod detect;
pub mod device;
pub mod error;
pub mod interfaces;
pub mod scanner;
