//! Rendering core of a static HTML site generator for books of Markdown
//! chapters: anchor ids, the nested table of contents, the clean-up passes
//! over rendered pages, per-page template data and the theme's assets.

pub mod text;
pub mod normalize;
pub mod markdown;
pub mod paths;
pub mod toc;
pub mod pattern;
pub mod postprocess;
pub mod data;
pub mod error;
pub mod engine;
pub mod outline;
pub mod theme;
pub mod template;
pub mod renderer;

pub use engine::HtmlEngine;
pub use renderer::{ApiOnePageRenderer, ApiRenderer, HtmlRenderer};
pub use template::{HtmlOnePageTemplate, HtmlTemplate};
