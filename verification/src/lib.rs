pub mod cli;
pub mod serial;
pub mod stellarium;
pub mod text;
pub mod tracker;
