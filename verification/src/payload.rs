//! The configuration payload: named fields as an operator wrote them.
//!
//! A payload is a list of fields, each a name and a value. Nothing in it is
//! known to be right: a name may be unknown or occur twice, and a value may
//! be of another kind than its field takes.

use vstd::prelude::*;
use crate::percentile::Percentile;
use crate::text::{names_view, text_eq};

verus! {

/// The value of one field of a payload.
#[derive(Clone, Debug, PartialEq, Eq)]
pub enum FieldValue {
    /// A switch.
    Flag(bool),
    /// A whole number that is not negative.
    Count(usize),
    /// A list of fractional numbers.
    Percentiles(Vec<Percentile>),
    /// A list of names.
    Names(Vec<String>),
    /// A value of any other kind: a text, a fractional number that is not in
    /// a list, a list of mixed kinds, a table.
    Other,
}

/// One field of a payload.
#[derive(Clone, Debug, PartialEq, Eq)]
pub struct Field {
    pub name: String,
    pub value: FieldValue,
}

/// What a [`FieldValue`] holds.
pub enum ValueView {
    Flag(bool),
    Count(usize),
    Percentiles(Seq<Percentile>),
    Names(Seq<Seq<char>>),
    Other,
}

/// What a [`Field`] holds.
pub struct FieldView {
    pub name: Seq<char>,
    pub value: ValueView,
}

impl View for FieldValue {
    type V = ValueView;

    open spec fn view(&self) -> ValueView {
        match self {
            FieldValue::Flag(on) => ValueView::Flag(*on),
            FieldValue::Count(n) => ValueView::Count(*n),
            FieldValue::Percentiles(list) => ValueView::Percentiles(list@),
            FieldValue::Names(names) => ValueView::Names(names_view(names@)),
            FieldValue::Other => ValueView::Other,
        }
    }
}

impl View for Field {
    type V = FieldView;

    open spec fn view(&self) -> FieldView {
        FieldView { name: self.name@, value: self.value@ }
    }
}

/// What a payload holds, field by field.
pub open spec fn payload_view(raw: Seq<Field>) -> Seq<FieldView> {
    raw.map_values(|field: Field| field@)
}

/// The fields that a configuration has.
#[derive(Clone, Copy, Debug, PartialEq, Eq, Structural)]
pub enum FieldKey {
    Bpf,
    Enabled,
    Interval,
    Percentiles,
    PerfEvents,
    Statistics,
}

impl FieldKey {
    /// The name by which a payload sets the field.
    pub open spec fn spec_name(self) -> Seq<char> {
        match self {
            FieldKey::Bpf => "bpf"@,
            FieldKey::Enabled => "enabled"@,
            FieldKey::Interval => "interval"@,
            FieldKey::Percentiles => "percentiles"@,
            FieldKey::PerfEvents => "perf_events"@,
            FieldKey::Statistics => "statistics"@,
        }
    }

    /// The field that goes by `name`, if there is one.
    pub open spec fn named(name: Seq<char>) -> Option<FieldKey> {
        if exists|key: FieldKey| key.spec_name() == name {
            Some(choose|key: FieldKey| key.spec_name() == name)
        } else {
            None
        }
    }

    /// Whether `value` is of the kind that the field takes. The switches take
    /// a flag, the interval a count, the percentiles a list of numbers and
    /// the statistics a list of names; an empty list is a list of either
    /// kind. No field takes a value of another kind.
    pub open spec fn takes(self, value: ValueView) -> bool {
        match self {
            FieldKey::Bpf | FieldKey::Enabled | FieldKey::PerfEvents => value is Flag,
            FieldKey::Interval => value is Count,
            FieldKey::Percentiles => match value {
                ValueView::Percentiles(_) => true,
                ValueView::Names(names) => names.len() == 0,
                _ => false,
            },
            FieldKey::Statistics => match value {
                ValueView::Names(_) => true,
                ValueView::Percentiles(list) => list.len() == 0,
                _ => false,
            },
        }
    }

    /// The name by which a payload sets the field.
    pub fn name(self) -> (name: &'static str)
        ensures
            name@ == self.spec_name(),
    {
        match self {
            FieldKey::Bpf => "bpf",
            FieldKey::Enabled => "enabled",
            FieldKey::Interval => "interval",
            FieldKey::Percentiles => "percentiles",
            FieldKey::PerfEvents => "perf_events",
            FieldKey::Statistics => "statistics",
        }
    }

    /// The field that goes by `name`, or `None` where `name` is not the name
    /// of a field.
    pub fn from_name(name: &str) -> (found: Option<FieldKey>)
        ensures
            found == Self::named(name@),
            found is Some == recognized(name@),
    {
        proof {
            lemma_field_names_are_distinct();
            lemma_recognized_names(name@);
        }
        if text_eq(name, FieldKey::Bpf.name()) {
            Some(FieldKey::Bpf)
        } else if text_eq(name, FieldKey::Enabled.name()) {
            Some(FieldKey::Enabled)
        } else if text_eq(name, FieldKey::Interval.name()) {
            Some(FieldKey::Interval)
        } else if text_eq(name, FieldKey::Percentiles.name()) {
            Some(FieldKey::Percentiles)
        } else if text_eq(name, FieldKey::PerfEvents.name()) {
            Some(FieldKey::PerfEvents)
        } else if text_eq(name, FieldKey::Statistics.name()) {
            Some(FieldKey::Statistics)
        } else {
            None
        }
    }

    /// Whether `value` is of the kind that the field takes.
    pub fn accepts(self, value: &FieldValue) -> (fits: bool)
        ensures
            fits == self.takes(value@),
    {
        match self {
            FieldKey::Bpf | FieldKey::Enabled | FieldKey::PerfEvents => match value {
                FieldValue::Flag(_) => true,
                _ => false,
            },
            FieldKey::Interval => match value {
                FieldValue::Count(_) => true,
                _ => false,
            },
            FieldKey::Percentiles => match value {
                FieldValue::Percentiles(_) => true,
                FieldValue::Names(names) => names.len() == 0,
                _ => false,
            },
            FieldKey::Statistics => match value {
                FieldValue::Names(_) => true,
                FieldValue::Percentiles(list) => list.len() == 0,
                _ => false,
            },
        }
    }
}

/// Whether `name` is the name of a field of the configuration.
pub open spec fn recognized(name: Seq<char>) -> bool {
    ||| name == "bpf"@
    ||| name == "enabled"@
    ||| name == "interval"@
    ||| name == "percentiles"@
    ||| name == "perf_events"@
    ||| name == "statistics"@
}

/// Whether the payload holds a field that the configuration does not have.
pub open spec fn has_unknown_field(raw: Seq<FieldView>) -> bool {
    exists|i: int| 0 <= i < raw.len() && !recognized(#[trigger] raw[i].name)
}

/// Whether the payload holds two fields of one name.
pub open spec fn has_duplicate_field(raw: Seq<FieldView>) -> bool {
    exists|i: int, j: int|
        0 <= i < j < raw.len() && #[trigger] raw[i].name == #[trigger] raw[j].name
}

/// Whether a field of the payload fits the configuration: its name is known
/// and its value is of the kind that the field takes.
pub open spec fn well_typed(field: FieldView) -> bool {
    FieldKey::named(field.name) matches Some(key) && key.takes(field.value)
}

/// Whether the payload holds a field that does not fit the configuration.
/// In a payload whose names are all known, this is a field whose value is
/// of the wrong kind.
pub open spec fn has_mistyped_field(raw: Seq<FieldView>) -> bool {
    exists|i: int| 0 <= i < raw.len() && !well_typed(#[trigger] raw[i])
}

/// Whether the payload sets the field `key`.
pub open spec fn sets(raw: Seq<FieldView>, key: FieldKey) -> bool {
    exists|i: int| 0 <= i < raw.len() && #[trigger] raw[i].name == key.spec_name()
}

/// Whether `i` is the first place in the payload at which the field `key` is
/// set.
pub open spec fn is_first_place(raw: Seq<FieldView>, key: FieldKey, i: int) -> bool {
    &&& 0 <= i < raw.len()
    &&& raw[i].name == key.spec_name()
    &&& forall|j: int| 0 <= j < i ==> #[trigger] raw[j].name != key.spec_name()
}

/// The first place in the payload at which the field `key` is set, where it
/// is set.
pub open spec fn place_of(raw: Seq<FieldView>, key: FieldKey) -> int {
    choose|i: int| is_first_place(raw, key, i)
}

/// The value that the payload gives to the field `key`, if it gives one.
/// Where the payload names the field twice, this is the first of the two
/// values.
pub open spec fn value_of(raw: Seq<FieldView>, key: FieldKey) -> Option<ValueView> {
    if sets(raw, key) {
        Some(raw[place_of(raw, key)].value)
    } else {
        None
    }
}

/// The state of the switch `key` that the payload asks for: off where it
/// does not set it.
pub open spec fn flag_of(raw: Seq<FieldView>, key: FieldKey) -> bool {
    match value_of(raw, key) {
        Some(ValueView::Flag(on)) => on,
        _ => false,
    }
}

/// The interval that the payload asks for, if it asks for one.
pub open spec fn interval_of(raw: Seq<FieldView>) -> Option<usize> {
    match value_of(raw, FieldKey::Interval) {
        Some(ValueView::Count(n)) => Some(n),
        _ => None,
    }
}

/// The percentiles that the payload asks for, if it sets them.
pub open spec fn percentiles_of(raw: Seq<FieldView>) -> Option<Seq<Percentile>> {
    match value_of(raw, FieldKey::Percentiles) {
        Some(ValueView::Percentiles(list)) => Some(list),
        Some(_) => Some(Seq::empty()),
        None => None,
    }
}

/// The names of the statistics that the payload selects, if it selects any.
pub open spec fn selection_of(raw: Seq<FieldView>) -> Option<Seq<Seq<char>>> {
    match value_of(raw, FieldKey::Statistics) {
        Some(ValueView::Names(names)) => Some(names),
        Some(_) => Some(Seq::empty()),
        None => None,
    }
}

/// No two fields of the configuration share a name.
pub proof fn lemma_field_names_are_distinct()
    ensures
        forall|a: FieldKey, b: FieldKey| a.spec_name() == b.spec_name() ==> a == b,
        forall|key: FieldKey| FieldKey::named(key.spec_name()) == Some(key),
{
    reveal_strlit("bpf");
    reveal_strlit("enabled");
    reveal_strlit("interval");
    reveal_strlit("percentiles");
    reveal_strlit("perf_events");
    reveal_strlit("statistics");
    assert forall|a: FieldKey, b: FieldKey| a.spec_name() == b.spec_name() implies a == b by {
        if a != b {
            assert(a.spec_name().len() != b.spec_name().len() || a.spec_name()[3]
                != b.spec_name()[3]);
        }
    }
}

/// The recognized names are those of the configuration's fields.
pub proof fn lemma_recognized_names(name: Seq<char>)
    ensures
        recognized(name) <==> FieldKey::named(name) is Some,
        FieldKey::named(name) matches Some(key) ==> key.spec_name() == name,
{
    if recognized(name) {
        let key = if name == "bpf"@ {
            FieldKey::Bpf
        } else if name == "enabled"@ {
            FieldKey::Enabled
        } else if name == "interval"@ {
            FieldKey::Interval
        } else if name == "percentiles"@ {
            FieldKey::Percentiles
        } else if name == "perf_events"@ {
            FieldKey::PerfEvents
        } else {
            FieldKey::Statistics
        };
        assert(key.spec_name() == name);
    }
}

/// Whether the payload holds a field that the configuration does not have.
pub fn contains_unknown_field(raw: &Vec<Field>) -> (found: bool)
    ensures
        found == has_unknown_field(payload_view(raw@)),
{
    let mut i: usize = 0;
    while i < raw.len()
        invariant
            i <= raw@.len(),
            forall|j: int| 0 <= j < i ==> recognized(#[trigger] payload_view(raw@)[j].name),
        decreases raw@.len() - i,
    {
        if FieldKey::from_name(raw[i].name.as_str()).is_none() {
            assert(!recognized(payload_view(raw@)[i as int].name));
            return true;
        }
        i += 1;
    }
    false
}

/// Whether the payload holds two fields of one name.
pub fn contains_duplicate_field(raw: &Vec<Field>) -> (found: bool)
    ensures
        found == has_duplicate_field(payload_view(raw@)),
{
    let ghost view = payload_view(raw@);
    let mut j: usize = 0;
    while j < raw.len()
        invariant
            j <= raw@.len(),
            view == payload_view(raw@),
            forall|a: int, b: int|
                0 <= a < b < j ==> #[trigger] view[a].name != #[trigger] view[b].name,
        decreases raw@.len() - j,
    {
        let mut i: usize = 0;
        while i < j
            invariant
                i <= j < raw@.len(),
                view == payload_view(raw@),
                forall|a: int| 0 <= a < i ==> #[trigger] view[a].name != view[j as int].name,
            decreases j - i,
        {
            if text_eq(raw[i].name.as_str(), raw[j].name.as_str()) {
                assert(view[i as int].name == view[j as int].name);
                return true;
            }
            i += 1;
        }
        j += 1;
    }
    false
}

/// Whether the payload holds a field that does not fit the configuration.
pub fn contains_mistyped_field(raw: &Vec<Field>) -> (found: bool)
    ensures
        found == has_mistyped_field(payload_view(raw@)),
{
    let ghost view = payload_view(raw@);
    let mut i: usize = 0;
    while i < raw.len()
        invariant
            i <= raw@.len(),
            view == payload_view(raw@),
            forall|j: int| 0 <= j < i ==> well_typed(#[trigger] view[j]),
        decreases raw@.len() - i,
    {
        let fits = match FieldKey::from_name(raw[i].name.as_str()) {
            Some(key) => key.accepts(&raw[i].value),
            None => false,
        };
        if !fits {
            assert(!well_typed(view[i as int]));
            return true;
        }
        i += 1;
    }
    false
}

/// The value that the payload gives to the field `key`, if it gives one.
pub fn find_value(raw: &Vec<Field>, key: FieldKey) -> (found: Option<&FieldValue>)
    ensures
        match found {
            Some(value) => value_of(payload_view(raw@), key) == Some(value@),
            None => value_of(payload_view(raw@), key) is None,
        },
{
    let ghost view = payload_view(raw@);
    let mut i: usize = 0;
    while i < raw.len()
        invariant
            i <= raw@.len(),
            view == payload_view(raw@),
            forall|j: int| 0 <= j < i ==> #[trigger] view[j].name != key.spec_name(),
        decreases raw@.len() - i,
    {
        if text_eq(raw[i].name.as_str(), key.name()) {
            assert(is_first_place(view, key, i as int));
            return Some(&raw[i].value);
        }
        i += 1;
    }
    None
}

/// The state of the switch `key` that the payload asks for: off where it
/// does not set it.
pub fn read_flag(raw: &Vec<Field>, key: FieldKey) -> (on: bool)
    ensures
        on == flag_of(payload_view(raw@), key),
{
    match find_value(raw, key) {
        Some(FieldValue::Flag(on)) => *on,
        _ => false,
    }
}

/// The interval that the payload asks for, if it asks for one.
pub fn read_interval(raw: &Vec<Field>) -> (interval: Option<usize>)
    ensures
        interval == interval_of(payload_view(raw@)),
{
    match find_value(raw, FieldKey::Interval) {
        Some(FieldValue::Count(n)) => Some(*n),
        _ => None,
    }
}

} // verus!
