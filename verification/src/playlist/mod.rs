pub mod fs;
