pub mod model;
pub mod io;
pub mod container;
pub mod codecs;
pub mod transform;
pub mod cli;
pub mod show;
