pub mod approval;
pub mod codex;
pub mod connectors;
pub mod direct_codex;
pub mod json;
pub mod keyed;
pub mod panic;
pub mod text;
pub mod transition;
