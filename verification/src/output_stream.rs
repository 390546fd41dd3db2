use vstd::prelude::*;

verus! {

/// Which output an output stream feeds.
#[derive(Clone, Copy, Debug, PartialEq, Eq, Structural)]
pub enum OutputRole {
    /// The processed signal for other applications.
    Destination,
    /// The local monitor.
    Monitor,
}

impl OutputRole {
    /// Whether the stream is the local monitor.
    pub fn is_monitor(self) -> (monitor: bool)
        ensures
            monitor == (self == OutputRole::Monitor),
    {
        match self {
            OutputRole::Monitor => true,
            OutputRole::Destination => false,
        }
    }

    /// How the output is named in messages.
    pub fn label(self) -> (label: &'static str)
        ensures
            label@ == match self {
                OutputRole::Destination => "processed destination"@,
                OutputRole::Monitor => "local monitor"@,
            },
    {
        match self {
            OutputRole::Destination => "processed destination",
            OutputRole::Monitor => "local monitor",
        }
    }
}

} // verus!
