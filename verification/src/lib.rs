//! A selectable set of graphics showcases, described on the CPU side.
//!
//! The crate decides what is drawn: which showcase is active, which buffer
//! contents and uniform writes it needs, and which commands a render pass
//! records for it. Talking to the GPU and to the windowing shell is left to
//! the program that embeds the crate.

pub mod bytes;
pub mod demo;
pub mod demo_type;
pub mod laws;
pub mod manager;
pub mod mandelbrot;
pub mod model_3d;
pub mod pipeline;
pub mod property_panel;
pub mod render_bridge;
pub mod render_pass;
pub mod triangle;
pub mod workspace;

pub use bytes::BufferWrite;
pub use demo::{Demo, DemoImpl};
pub use demo_type::DemoType;
pub use manager::{DemoManager, OffscreenPass, Presentation};
pub use mandelbrot::Mandelbrot;
pub use model_3d::{MeshError, MeshProperty, Model3d, Model3dParams};
pub use property_panel::{PanelItem, PropertyPanel};
pub use render_bridge::{PreparedFrame, RenderBridge};
pub use render_pass::{DrawCommand, IndexFormat, Owner, RenderPass};
pub use triangle::{Triangle, TriangleParams};
pub use workspace::Workspace;
