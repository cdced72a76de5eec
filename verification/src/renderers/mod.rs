//! Responses made of a file's content or of a rendered page.

pub mod file_renderer;
pub mod template_renderer;
