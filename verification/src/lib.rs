//! Screenshot-to-markdown tool: the selection, capture and recording logic,
//! with the image, base64 and WebP work done by outside crates behind
//! trusted wrappers.
pub mod bytes_loader;
pub mod commands;
pub mod imaging;
pub mod shared;
pub mod shotapp;
pub mod text;
pub mod ui;
pub mod webp;
