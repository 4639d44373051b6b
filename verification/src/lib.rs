//! Client-side session layer for an autoregressive inference engine.
//!
//! The engine itself lives outside this crate. Every operation here takes the
//! engine's reply as a plain value and decides what the caller sees and how the
//! session's registry of request identities moves.

pub mod driver;
pub mod error;
pub mod executor;
pub mod lifecycle;
pub mod plugins;
pub mod request;
pub mod response;
pub mod tensor;

pub use crate::error::{Error, ErrorKind};
pub use crate::executor::{Executor, ResponseIterator};
pub use crate::plugins::{init_trtllm_plugins, PluginsReady};
pub use crate::request::Request;
pub use crate::response::{Response, VecTokens};
pub use crate::tensor::{DataType, ModelType, Shape, Tensor};
