//! Admission control for agent-to-agent task requests.

pub mod a2a;
pub mod admission;
pub mod bucket;
pub mod json;
pub mod text;
pub mod validation;
