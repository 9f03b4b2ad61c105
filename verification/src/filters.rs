//! Log filters whose match decisions are verified.

use vstd::prelude::*;

use crate::entry::{component_eq, spec_level_name, spec_severity, LogComponent, LogEntry, LogLevel};

verus! {

/// Keeps entries at or above a minimum severity.
pub struct LevelFilter {
    min_level: LogLevel,
}

impl LevelFilter {
    /// The filter's threshold.
    pub closed spec fn spec_min_level(self) -> LogLevel {
        self.min_level
    }

    pub fn new(min_level: LogLevel) -> (r: Self)
        ensures
            r.spec_min_level() == min_level,
    {
        LevelFilter { min_level }
    }

    /// Whether the entry's severity reaches the threshold.
    pub fn matches(&self, entry: &LogEntry) -> (r: bool)
        ensures
            r == (spec_severity(entry.level) >= spec_severity(self.spec_min_level())),
    {
        entry.level.severity() >= self.min_level.severity()
    }

    /// The filter as display text.
    pub fn description(&self) -> (r: String)
        ensures
            r@ == "level >= "@ + spec_level_name(self.spec_min_level()),
    {
        "level >= ".to_owned().concat(self.min_level.to_str())
    }
}

/// Keeps entries from one component.
pub struct ComponentFilter {
    component: LogComponent,
}

impl ComponentFilter {
    /// The component kept.
    pub closed spec fn spec_component(self) -> LogComponent {
        self.component
    }

    pub fn new(component: LogComponent) -> (r: Self)
        ensures
            r.spec_component() == component,
    {
        ComponentFilter { component }
    }

    /// Whether the entry came from the kept component.
    pub fn matches(&self, entry: &LogEntry) -> (r: bool)
        ensures
            r == component_eq(entry.component, self.spec_component()),
    {
        entry.component == self.component
    }
}

} // verus!
