use vstd::prelude::*;

verus! {

/// The settings of one inference run. They are fixed: one worker thread,
/// greedy decoding keeping the best of one candidate, output translated to
/// English, and none of the engine's own printing.
pub struct InferenceConfig {
    pub n_threads: i32,
    pub best_of: i32,
    pub translate: bool,
    pub language: &'static str,
    pub print_special: bool,
    pub print_progress: bool,
    pub print_realtime: bool,
    pub print_timestamps: bool,
}

impl InferenceConfig {
    /// The one configuration the pipeline runs with.
    pub fn fixed() -> (r: InferenceConfig)
        ensures
            r.n_threads == 1,
            r.best_of == 1,
            r.translate,
            r.language@ == "en"@,
            !r.print_special,
            !r.print_progress,
            !r.print_realtime,
            !r.print_timestamps,
    {
        InferenceConfig {
            n_threads: 1,
            best_of: 1,
            translate: true,
            language: "en",
            print_special: false,
            print_progress: false,
            print_realtime: false,
            print_timestamps: false,
        }
    }
}

} // verus!
