//! The core of an application that draws one quad into one window with the
//! GPU: the lifecycle of the rendering context, the configuration of the
//! presentable surface, and the protocol of a frame.
//!
//! The core performs no input or output. Its host owns the window, the event
//! loop and the GPU handles; it hands the core what the window reports and
//! what came of the work it was asked to do, and the core answers with what
//! is to be done next. [`State`] is the rendering context, [`RenderContext`]
//! the session of one frame, and [`App`] the application that drives both.

pub mod app;
pub mod asn_win_config;
pub mod data;
pub mod frame;
pub mod laws;
pub mod node_quad;
pub mod pipeline;
pub mod state;
pub mod state_error;
pub mod surface;
pub mod wgpu_quad;

pub use app::{App, AppAction, AppEvent, Key, PendingReply};
pub use asn_win_config::{custom_config, default_config, AppConfig};
pub use frame::{FrameAction, FramePhase, PassCommand, RenderContext, RenderPass};
pub use node_quad::AsnNodeQuad;
pub use pipeline::PipelineDescriptor;
pub use state::{Negotiation, State};
pub use state_error::StateError;
pub use surface::{SurfaceCapabilities, SurfaceConfig, SurfaceManager};
pub use wgpu_quad::WgpuQuad;
