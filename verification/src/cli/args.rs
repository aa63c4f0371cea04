use vstd::prelude::*;

verus! {

/// The invocation surface the command line hands the core: an input path
/// or glob pattern, an optional output path or directory, the inspection
/// toggle, the transform specifications, and an output codec override.
#[derive(Debug, Clone)]
pub struct Args {
    pub input: String,
    pub output: Option<String>,
    pub show: bool,
    pub transforms: Vec<String>,
    pub codec: Option<String>,
}

impl Args {
    pub fn new(
        input: String,
        output: Option<String>,
        show: bool,
        transforms: Vec<String>,
        codec: Option<String>,
    ) -> (r: Args)
        ensures
            r.input@ == input@,
            r.show == show,
    {
        Args { input, output, show, transforms, codec }
    }
}

} // verus!
