use vstd::prelude::*;

verus! {

/// Histogram settings.
#[derive(Clone, Copy, PartialEq, Eq, Structural, Debug)]
pub struct GraphConfig {
    /// Number of histogram bins; 0 chooses automatically.
    pub num_bins: usize,
    /// Largest number of bins the operator may choose.
    pub max_bins: usize,
}

impl Default for GraphConfig {
    fn default() -> (r: Self)
        ensures
            r.num_bins == 0,
            r.max_bins == 100,
    {
        GraphConfig { num_bins: 0, max_bins: 100 }
    }
}

/// The file format of a recording.
#[derive(Clone, Copy, PartialEq, Eq, Structural, Debug)]
pub enum RecordingFormat {
    Csv,
    Json,
    Xlsx,
}

/// When a recording takes a measurement.
#[derive(Clone, Copy, PartialEq, Eq, Structural, Debug)]
pub enum RecordingMode {
    FixedInterval,
    Manual,
}

/// How a recording writes time stamps.
#[derive(Clone, Copy, PartialEq, Eq, Structural, Debug)]
pub enum TimestampFormat {
    Rfc3339,
    Unix,
}

/// The tabs of the plot area.
#[derive(Clone, Copy, PartialEq, Eq, Structural, Debug)]
pub enum PlotTab {
    Graph,
    Histogram,
}

} // verus!
