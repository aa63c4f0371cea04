pub mod args;
pub mod pipeline;

pub use args::Args;
pub use pipeline::{is_batch_pattern, BatchPipeline, MediaType, Pipeline};
