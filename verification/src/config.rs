//! Configuration data as the core consumes it: per-channel property
//! match-sets, icon-name mappings, and per-output peak multipliers.
//!
//! The core treats this as opaque, already-validated data; reading and
//! parsing the configuration file is the surrounding application's job.

use vstd::prelude::*;

verus! {

/// One conjunction of property constraints: every listed property must
/// match for the set to be satisfied.
pub type MatchSet = Vec<(String, String)>;

/// The match-sets configured for one channel: a stream matches the channel
/// if it satisfies all constraints of any one set.
pub type PropertyMatches = Vec<MatchSet>;

/// Connection settings for the mixer device.
#[derive(Clone, Copy, PartialEq, Eq, Structural, Debug)]
pub struct Connection {
    /// Whether to loosen the device node's permissions instead of relying
    /// on proper udev rules.
    pub sudo_hack: bool,
}

/// Configuration of one physical channel.
#[derive(Debug)]
pub struct ChannelConfig {
    /// Property match-sets deciding which streams this channel drives.
    pub property_matches: PropertyMatches,
}

/// Maps streams whose properties satisfy the constraints to a named icon.
#[derive(Debug)]
pub struct IconMapping {
    /// Name of the icon to display.
    pub icon: String,
    /// Property constraints a stream must satisfy, all of them.
    pub property_matches: MatchSet,
}

/// Scales the reported peak of a named output device, in ten-thousandths:
/// `10000` leaves the peak unchanged.
#[derive(Debug)]
pub struct SinkPeakMultiplier {
    /// Name of the output device this multiplier applies to.
    pub sink_name: String,
    /// Factor in ten-thousandths applied to the reported peak.
    pub multiplier: u16,
}

/// Whether `pattern`, compiled as a regular expression, matches anywhere in
/// `text`.  A pattern that is not a valid regular expression matches no
/// text.
pub uninterp spec fn regex_match(pattern: Seq<char>, text: Seq<char>) -> bool;

/// Relies on `regex::Regex::new` and `regex::Regex::is_match`: whether the
/// pattern, compiled as a regular expression, matches anywhere in the text.
/// Both are functions of their string arguments alone; a pattern that fails
/// to compile is treated as matching nothing, as the configuration format
/// allows plain strings in pattern position.
#[verifier::external_body]
fn pattern_matches(pattern: &str, text: &str) -> (r: bool)
    ensures
        r == regex_match(pattern@, text@),
{
    match regex::Regex::new(pattern) {
        Ok(re) => re.is_match(text),
        Err(_) => false,
    }
}

/// The value the property list assigns to `name`: the first entry with that
/// name wins.
pub open spec fn spec_lookup(props: Seq<(String, String)>, name: Seq<char>) -> Option<String>
    decreases props.len(),
{
    if props.len() == 0 {
        None
    } else if props[0].0@ == name {
        Some(props[0].1)
    } else {
        spec_lookup(props.drop_first(), name)
    }
}

/// One constraint is satisfied when the stream reports the property and the
/// reported value equals the configured value verbatim, or matches it as a
/// regular expression.
pub open spec fn spec_constraint_ok(
    props: Seq<(String, String)>,
    name: String,
    value: String,
) -> bool {
    match spec_lookup(props, name@) {
        Some(actual) => actual@ == value@ || regex_match(value@, actual@),
        None => false,
    }
}

/// A match-set is satisfied when all of its constraints are.
pub open spec fn spec_set_ok(props: Seq<(String, String)>, set: Seq<(String, String)>) -> bool {
    forall|i: int| 0 <= i < set.len() ==> spec_constraint_ok(props, set[i].0, set[i].1)
}

/// A stream matches when any one configured match-set is fully satisfied.
pub open spec fn spec_matches_any(props: Seq<(String, String)>, sets: Seq<MatchSet>) -> bool {
    exists|i: int| 0 <= i < sets.len() && spec_set_ok(props, sets[i]@)
}

/// The value the stream reports for the property `name`, if any.
pub fn lookup_property<'a>(props: &'a Vec<(String, String)>, name: &String) -> (r: Option<
    &'a String,
>)
    ensures
        match r {
            Some(v) => spec_lookup(props@, name@) == Some(*v),
            None => spec_lookup(props@, name@) is None,
        },
{
    let n = props.len();
    proof {
        assert(props@.subrange(0, n as int) =~= props@);
    }
    let mut i: usize = 0;
    while i < n
        invariant
            n == props@.len(),
            i <= n,
            spec_lookup(props@, name@) == spec_lookup(props@.subrange(i as int, n as int), name@),
        decreases n - i,
    {
        proof {
            let rest = props@.subrange(i as int, n as int);
            assert(rest[0] == props@[i as int]);
            assert(rest.drop_first() =~= props@.subrange(i + 1, n as int));
        }
        if props[i].0 == *name {
            return Some(&props[i].1);
        }
        i += 1;
    }
    proof {
        assert(props@.subrange(n as int, n as int) =~= Seq::<(String, String)>::empty());
    }
    None
}

/// Whether the stream's properties satisfy one constraint.
pub fn constraint_ok(props: &Vec<(String, String)>, name: &String, value: &String) -> (r: bool)
    ensures
        r == spec_constraint_ok(props@, *name, *value),
{
    match lookup_property(props, name) {
        Some(actual) => {
            if *actual == *value {
                true
            } else {
                pattern_matches(value.as_str(), actual.as_str())
            }
        }
        None => false,
    }
}

/// Whether the stream's properties satisfy every constraint of one
/// match-set.
pub fn set_ok(props: &Vec<(String, String)>, set: &MatchSet) -> (r: bool)
    ensures
        r == spec_set_ok(props@, set@),
{
    let n = set.len();
    let mut i: usize = 0;
    while i < n
        invariant
            n == set@.len(),
            i <= n,
            forall|j: int| 0 <= j < i ==> spec_constraint_ok(props@, set@[j].0, set@[j].1),
        decreases n - i,
    {
        if !constraint_ok(props, &set[i].0, &set[i].1) {
            return false;
        }
        i += 1;
    }
    true
}

/// Whether the stream's properties satisfy any one of the configured
/// match-sets.
pub fn matches_any(props: &Vec<(String, String)>, sets: &PropertyMatches) -> (r: bool)
    ensures
        r == spec_matches_any(props@, sets@),
{
    let n = sets.len();
    let mut i: usize = 0;
    while i < n
        invariant
            n == sets@.len(),
            i <= n,
            forall|j: int| 0 <= j < i ==> !spec_set_ok(props@, sets@[j]@),
        decreases n - i,
    {
        if set_ok(props, &sets[i]) {
            return true;
        }
        i += 1;
    }
    false
}

/// The whole configuration, as the core consumes it.
#[derive(Debug)]
pub struct Config {
    /// Connection settings for the mixer device.
    pub connection: Connection,
    /// Configuration of channels one to four; the main channel needs none.
    pub channel_1: ChannelConfig,
    pub channel_2: ChannelConfig,
    pub channel_3: ChannelConfig,
    pub channel_4: ChannelConfig,
    /// Icon lookup by stream properties.
    pub icon_mappings: Vec<IconMapping>,
    /// Peak scaling per output device.
    pub sink_peak_multiplier: Vec<SinkPeakMultiplier>,
}

} // verus!
