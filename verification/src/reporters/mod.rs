pub mod types;
pub mod dot;
pub mod line;
pub mod list;
pub mod github;
pub mod junit;
pub mod html;
