pub mod pixel;
pub mod pacing;
pub mod session;
pub mod cancel;
pub mod text;
pub mod transcode;
pub mod windows;
