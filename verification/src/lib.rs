//! Lifecycle rules for a graphics device and its resources.
//!
//! The library holds the decisions behind two uses of a GPU: a windowed
//! renderer driven by a stream of window events, and an offline pipeline that
//! uploads an image, renders its mipmap chain and reads one level back. Every
//! decision is a function of plain values with a proved contract; the caller
//! owns the device handles and carries the decisions out.
pub mod app;
pub mod converter;
pub mod error;
pub mod frame_counter;
pub mod gpu;
pub mod layout;
pub mod mip;
pub mod mipmap;
pub mod readback;
pub mod renderer;
pub mod scene;
pub mod texture;
