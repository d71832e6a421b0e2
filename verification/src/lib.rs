pub mod app;
pub mod backend;
pub mod cast;
pub mod parser;
pub mod playlist;
pub mod util;
