//! Configuration model: a list of named timezones with their work hours.

use vstd::prelude::*;

verus! {

/// Work hours of a timezone, each bound kept as the raw `"HH:MM"` text and
/// parsed only when it is evaluated.
#[derive(Debug, Clone, PartialEq, Eq)]
pub struct WorkHours {
    /// Start of the work hours (`"HH:MM"`).
    pub start: String,
    /// End of the work hours (`"HH:MM"`).
    pub end: String,
}

/// One configured timezone.
#[derive(Debug, Clone, PartialEq, Eq)]
pub struct TimezoneConfig {
    /// Display name, free text.
    pub name: String,
    /// IANA timezone identifier such as `"America/New_York"`, checked only when used.
    pub timezone: String,
    /// Work hours in the zone's local time.
    pub work_hours: WorkHours,
}

/// The whole configuration: the timezones in display order and the clock format.
#[derive(Debug, Clone, PartialEq, Eq)]
pub struct Config {
    /// Timezones in display order; duplicates are allowed.
    pub timezones: Vec<TimezoneConfig>,
    /// Whether times are shown in 12-hour format.
    pub use_12h_format: bool,
}

/// The entry `(name, timezone, start, end)` as character sequences.
pub open spec fn entry_is(
    e: TimezoneConfig,
    name: Seq<char>,
    tz: Seq<char>,
    start: Seq<char>,
    end: Seq<char>,
) -> bool {
    &&& e.name@ == name
    &&& e.timezone@ == tz
    &&& e.work_hours.start@ == start
    &&& e.work_hours.end@ == end
}

fn make_entry(name: &str, tz: &str, start: &str, end: &str) -> (r: TimezoneConfig)
    ensures
        entry_is(r, name@, tz@, start@, end@),
{
    TimezoneConfig {
        name: name.to_owned(),
        timezone: tz.to_owned(),
        work_hours: WorkHours { start: start.to_owned(), end: end.to_owned() },
    }
}

/// The built-in configuration: Shanghai, London and New York with their
/// usual office hours, on the 24-hour clock.
pub open spec fn is_default_config(c: Config) -> bool {
    &&& c.timezones@.len() == 3
    &&& entry_is(c.timezones@[0], "Shanghai"@, "Asia/Shanghai"@, "09:00"@, "18:00"@)
    &&& entry_is(c.timezones@[1], "London"@, "Europe/London"@, "09:00"@, "17:30"@)
    &&& entry_is(c.timezones@[2], "New York"@, "America/New_York"@, "09:00"@, "17:00"@)
    &&& !c.use_12h_format
}

impl Default for Config {
    /// Shanghai, London and New York with their usual office hours, 24-hour clock.
    fn default() -> (r: Self)
        ensures
            is_default_config(r),
    {
        let mut timezones: Vec<TimezoneConfig> = Vec::new();
        timezones.push(make_entry("Shanghai", "Asia/Shanghai", "09:00", "18:00"));
        timezones.push(make_entry("London", "Europe/London", "09:00", "17:30"));
        timezones.push(make_entry("New York", "America/New_York", "09:00", "17:00"));
        Config { timezones, use_12h_format: false }
    }
}

impl Config {
    /// Appends an entry at the end of the list.
    pub fn add_timezone(&mut self, entry: TimezoneConfig)
        ensures
            final(self).timezones@ == old(self).timezones@.push(entry),
            final(self).use_12h_format == old(self).use_12h_format,
    {
        self.timezones.push(entry);
    }

    /// Replaces the entry at `index`; an index past the end changes nothing.
    pub fn update_timezone(&mut self, index: usize, entry: TimezoneConfig)
        ensures
            index < old(self).timezones@.len() ==> final(self).timezones@ == old(
                self,
            ).timezones@.update(index as int, entry),
            index >= old(self).timezones@.len() ==> final(self).timezones@ == old(self).timezones@,
            final(self).use_12h_format == old(self).use_12h_format,
    {
        if index < self.timezones.len() {
            self.timezones[index] = entry;
        }
    }

    /// Removes the entry at `index`; an index past the end changes nothing.
    pub fn remove_timezone(&mut self, index: usize)
        ensures
            index < old(self).timezones@.len() ==> final(self).timezones@ == old(
                self,
            ).timezones@.remove(index as int),
            index >= old(self).timezones@.len() ==> final(self).timezones@ == old(self).timezones@,
            final(self).use_12h_format == old(self).use_12h_format,
    {
        if index < self.timezones.len() {
            self.timezones.remove(index);
        }
    }
}

} // verus!
