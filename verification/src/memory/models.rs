//! What is known of one memory file.

use vstd::prelude::*;
use crate::text::{i64_to_string, signed_decimal_seq};

verus! {

/// The kinds of memory. Raw code or architecture, which can be read from
/// the codebase itself, is not stored.
#[derive(Clone, Copy, Debug, PartialEq, Eq, Structural)]
pub enum MemoryType {
    /// The user's persona, goals, responsibilities and background.
    User,
    /// Corrections of the assistant's behaviour, or approaches that worked.
    Feedback,
    /// Project context that the code does not show (deadlines, compliance).
    Project,
    /// Pointers to outside systems (trackers, dashboards).
    Reference,
}

/// The name a memory type is shown under (its `Debug` form).
pub open spec fn memory_type_name(t: MemoryType) -> Seq<char> {
    match t {
        MemoryType::User => "User"@,
        MemoryType::Feedback => "Feedback"@,
        MemoryType::Project => "Project"@,
        MemoryType::Reference => "Reference"@,
    }
}

impl MemoryType {
    /// The name this type is shown under.
    pub fn display_name(&self) -> (r: &'static str)
        ensures
            r@ == memory_type_name(*self),
    {
        match self {
            MemoryType::User => "User",
            MemoryType::Feedback => "Feedback",
            MemoryType::Project => "Project",
            MemoryType::Reference => "Reference",
        }
    }
}

/// The header block at the top of a memory file.
pub struct MemoryFrontmatter {
    pub name: String,
    pub description: String,
    pub memory_type: MemoryType,
}

/// A moment in UTC: seconds since the Unix epoch and the nanoseconds past
/// that second.
#[derive(Clone, Copy, Debug, PartialEq, Eq, Structural)]
pub struct Timestamp {
    pub secs: i64,
    pub nanos: u32,
}

impl Timestamp {
    /// The nanoseconds stay below one second.
    pub open spec fn wf(&self) -> bool {
        self.nanos < 1_000_000_000
    }
}

/// Whether `a` is earlier than `b`.
pub open spec fn earlier(a: Timestamp, b: Timestamp) -> bool {
    a.secs < b.secs || (a.secs == b.secs && a.nanos < b.nanos)
}

/// Nanoseconds from `then` to `now` (negative when `now` is earlier).
pub open spec fn nanos_between(now: Timestamp, then: Timestamp) -> int {
    (now.secs - then.secs) * 1_000_000_000 + (now.nanos - then.nanos)
}

/// Integer division rounded toward zero.
pub open spec fn div_toward_zero(x: int, d: int) -> int {
    if x >= 0 { x / d } else { -((-x) / d) }
}

/// Whole days from `then` to `now`: whole seconds first, then whole days,
/// each rounded toward zero.
pub open spec fn days_between(now: Timestamp, then: Timestamp) -> int {
    div_toward_zero(div_toward_zero(nanos_between(now, then), 1_000_000_000), 86_400)
}

/// Reads the system clock with `std::time::SystemTime::now` and measures it
/// from the Unix epoch with `duration_since(UNIX_EPOCH)`: whole seconds and
/// the nanoseconds past them, or `None` when the clock reads before the
/// epoch (the case in which `chrono::Utc::now` would panic).
/// Claimed: the nanoseconds are below one second, as `Duration::subsec_nanos`
/// documents; nothing is said of which moment it is.
#[verifier::external_body]
fn clock_since_epoch() -> (r: Option<(u64, u32)>)
    ensures
        match r {
            Some(p) => p.1 < 1_000_000_000,
            None => true,
        },
{
    match std::time::SystemTime::now().duration_since(std::time::UNIX_EPOCH) {
        Ok(d) => Some((d.as_secs(), d.subsec_nanos())),
        Err(_) => None,
    }
}

/// The message when the clock reads before the Unix epoch.
pub const CLOCK_BEFORE_EPOCH: &'static str = "system time before Unix epoch";

/// The current time in UTC; `None` when the clock reads before the Unix
/// epoch or too far after it for whole seconds to fit an `i64`.
pub(crate) fn now_utc() -> (r: Option<Timestamp>)
    ensures
        match r {
            Some(t) => t.wf() && t.secs >= 0,
            None => true,
        },
{
    match clock_since_epoch() {
        Some((secs, nanos)) => {
            if secs <= 9_223_372_036_854_775_807u64 {
                Some(Timestamp { secs: secs as i64, nanos })
            } else {
                None
            }
        },
        None => None,
    }
}

/// Whole days from `then` to `now`, as `chrono`'s `num_days` counts them.
pub fn days_from_to(then: Timestamp, now: Timestamp) -> (r: i64)
    requires
        then.wf(),
        now.wf(),
    ensures
        r == days_between(now, then),
{
    let total: i128 = (now.secs as i128 - then.secs as i128) * 1_000_000_000i128
        + (now.nanos as i128 - then.nanos as i128);
    let secs: i128 = if total >= 0 {
        total / 1_000_000_000i128
    } else {
        -((-total) / 1_000_000_000i128)
    };
    let days: i128 = if secs >= 0 {
        secs / 86_400i128
    } else {
        -((-secs) / 86_400i128)
    };
    assert(-9_223_372_036_854_775_808 <= days <= 9_223_372_036_854_775_807) by {
        assert(-18_446_744_073_709_551_616 <= secs <= 18_446_744_073_709_551_616);
    }
    days as i64
}

/// Whole days from `then` to the moment the clock is read; an error when
/// the clock cannot be read as a time after the Unix epoch.
pub fn days_since(then: Timestamp) -> (r: Result<i64, String>)
    requires
        then.wf(),
    ensures
        match r {
            Ok(d) => exists|now: Timestamp| now.wf() && now.secs >= 0 && d == days_between(now, then),
            Err(e) => e@ == CLOCK_BEFORE_EPOCH@,
        },
{
    match now_utc() {
        Some(now) => Ok(days_from_to(then, now)),
        None => Err(String::from_str(CLOCK_BEFORE_EPOCH)),
    }
}

/// What is known of one memory file.
pub struct MemoryMetadata {
    /// The file's path as displayed.
    pub path: String,
    pub frontmatter: MemoryFrontmatter,
    pub modified_at: Timestamp,
}

/// The manifest line of a memory.
pub open spec fn manifest_line(name: Seq<char>, path: Seq<char>, t: MemoryType, description: Seq<char>) -> Seq<char> {
    "- ["@ + name + "]("@ + path + ") - Type: "@ + memory_type_name(t) + " - "@ + description
}

/// The reminder shown for a memory of the given age, if it is old.
pub open spec fn age_reminder(days: int) -> Option<Seq<char>> {
    if days > 1 {
        Some("<system-reminder>\nThis memory is "@ + signed_decimal_seq(days)
            + " days old. Memories are point-in-time observations, not live state... Verify against current code before asserting as fact.\n</system-reminder>"@)
    } else {
        None
    }
}

/// The reminder for a memory `days` old; none unless it is more than a day old.
pub fn age_warning_for(days: i64) -> (r: Option<String>)
    ensures
        crate::text::opt_view(r) == age_reminder(days as int),
{
    if days > 1 {
        let mut s = String::from_str("<system-reminder>\nThis memory is ");
        s.append(i64_to_string(days).as_str());
        s.append(" days old. Memories are point-in-time observations, not live state... Verify against current code before asserting as fact.\n</system-reminder>");
        Some(s)
    } else {
        None
    }
}

impl MemoryMetadata {
    /// The memory as one line of the manifest.
    pub fn to_manifest_line(&self) -> (r: String)
        ensures
            r@ == manifest_line(self.frontmatter.name@, self.path@, self.frontmatter.memory_type, self.frontmatter.description@),
    {
        let mut s = String::from_str("- [");
        s.append(self.frontmatter.name.as_str());
        s.append("](");
        s.append(self.path.as_str());
        s.append(") - Type: ");
        s.append(self.frontmatter.memory_type.display_name());
        s.append(" - ");
        s.append(self.frontmatter.description.as_str());
        s
    }

    /// The memory's age in whole days at `now`.
    pub fn age_in_days_at(&self, now: Timestamp) -> (r: i64)
        requires
            self.modified_at.wf(),
            now.wf(),
        ensures
            r == days_between(now, self.modified_at),
    {
        days_from_to(self.modified_at, now)
    }

    /// The memory's age in whole days at the moment the clock is read (a
    /// reading no earlier than the Unix epoch); an error when the clock
    /// cannot be read so.
    pub fn age_in_days(&self) -> (r: Result<i64, String>)
        requires
            self.modified_at.wf(),
        ensures
            match r {
                Ok(d) => exists|now: Timestamp| now.wf() && now.secs >= 0 && d == days_between(now, self.modified_at),
                Err(e) => e@ == CLOCK_BEFORE_EPOCH@,
            },
    {
        match now_utc() {
            Some(now) => Ok(self.age_in_days_at(now)),
            None => Err(String::from_str(CLOCK_BEFORE_EPOCH)),
        }
    }

    /// A reminder when the memory is more than a day old at `now`.
    pub fn age_warning_at(&self, now: Timestamp) -> (r: Option<String>)
        requires
            self.modified_at.wf(),
            now.wf(),
        ensures
            crate::text::opt_view(r) == age_reminder(days_between(now, self.modified_at)),
    {
        age_warning_for(self.age_in_days_at(now))
    }

    /// A reminder when the memory is more than a day old at the moment the
    /// clock is read (a reading no earlier than the Unix epoch); an error when
    /// the clock cannot be read so.
    pub fn age_warning(&self) -> (r: Result<Option<String>, String>)
        requires
            self.modified_at.wf(),
        ensures
            match r {
                Ok(w) => exists|now: Timestamp|
                    now.wf() && now.secs >= 0 && crate::text::opt_view(w) == age_reminder(days_between(now, self.modified_at)),
                Err(e) => e@ == CLOCK_BEFORE_EPOCH@,
            },
    {
        match now_utc() {
            Some(now) => Ok(self.age_warning_at(now)),
            None => Err(String::from_str(CLOCK_BEFORE_EPOCH)),
        }
    }
}

} // verus!
