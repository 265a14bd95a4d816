//! Common components and plugins, re-exported under one roof.

pub use crate::animation::{AnimationPlayer2D, AnimationPlayer2DPlugin};
pub use crate::asset::{Animation2DLoaderPlugin, AnimationClip2D, AnimationClipSet2D};
pub use crate::Animation2DPlugin;
