use vstd::prelude::*;

verus! {

/// An instant, as milliseconds since the Unix epoch in UTC. Stored as
/// RFC 3339 text.
#[derive(Clone, Copy, Debug, PartialEq, Eq, Structural, Hash)]
pub struct Timestamptz(pub i64);

/// The same instant as `Timestamptz`, stored as an integer number of
/// milliseconds.
#[derive(Clone, Copy, Debug, PartialEq, Eq, Structural, Hash)]
pub struct TimestamptzI(pub i64);

/// A calendar day in UTC, as days since 1970-01-01. Stored as `YYYY-MM-DD`.
#[derive(Clone, Copy, Debug, PartialEq, Eq, Structural, Hash)]
pub struct DateUtc(pub i32);

impl From<Timestamptz> for TimestamptzI {
    fn from(t: Timestamptz) -> (r: TimestamptzI)
        ensures
            r.0 == t.0,
    {
        TimestamptzI(t.0)
    }
}

impl vstd::std_specs::convert::FromSpecImpl<Timestamptz> for TimestamptzI {
    open spec fn obeys_from_spec() -> bool {
        true
    }

    open spec fn from_spec(t: Timestamptz) -> TimestamptzI {
        TimestamptzI(t.0)
    }
}

impl From<TimestamptzI> for Timestamptz {
    fn from(t: TimestamptzI) -> (r: Timestamptz)
        ensures
            r.0 == t.0,
    {
        Timestamptz(t.0)
    }
}

impl vstd::std_specs::convert::FromSpecImpl<TimestamptzI> for Timestamptz {
    open spec fn obeys_from_spec() -> bool {
        true
    }

    open spec fn from_spec(t: TimestamptzI) -> Timestamptz {
        Timestamptz(t.0)
    }
}

#[verifier::external_type_specification]
#[verifier::external_body]
pub struct ExJsonValue(serde_json::Value);

#[verifier::external_type_specification]
#[verifier::external_body]
pub struct ExJsonError(serde_json::Error);

/// Whether a text is one well-formed JSON document.
pub uninterp spec fn json_parses(s: Seq<char>) -> bool;

/// Relies on `serde_json::from_str::<serde_json::Value>`: it succeeds exactly
/// on well-formed JSON text, which depends on the text alone.
#[verifier::external_body]
fn parse_json(s: &str) -> (r: Result<serde_json::Value, serde_json::Error>)
    ensures
        r.is_ok() == json_parses(s@),
{
    serde_json::from_str::<serde_json::Value>(s)
}

/// The JSON text of a sampler, as stored beside each event.
#[derive(Clone, Debug)]
pub struct Sampler {
    pub json: String,
}

/// A captured event as stored.
#[derive(Clone, Debug)]
pub struct DbEvent {
    pub insertion_sequence: i64,
    pub id: String,
    pub timestamp: Timestamptz,
    pub data_type: String,
    pub sampler: Sampler,
    pub sampler_sequence_id: String,
    pub data: String,
}

/// A captured event before it is stored.
#[derive(Clone, Debug)]
pub struct NewDbEvent {
    pub id: String,
    pub timestamp: Timestamptz,
    pub data_type: String,
    pub sampler: Sampler,
    pub sampler_sequence_id: String,
    pub data: String,
}

/// The decoded payload of an event, with the type it was captured as.
pub struct EventData {
    pub data_type: String,
    pub value: serde_json::Value,
}

/// An event whose payload is not well-formed JSON; names the event.
#[derive(Clone, Debug)]
pub struct EventDecodeError {
    pub event_id: String,
}

impl EventDecodeError {
    /// The message `deserialization of event {event_id}`.
    pub fn message(&self) -> (r: String)
        ensures
            r@ == "deserialization of event "@ + self.event_id@,
    {
        proof {
            reveal_strlit("deserialization of event ");
        }
        String::from_str("deserialization of event ").concat(self.event_id.as_str())
    }
}

impl DbEvent {
    /// Decodes the stored payload. Fails, naming the event, exactly when the
    /// payload is not well-formed JSON.
    pub fn deserialize_data(&self) -> (r: Result<EventData, EventDecodeError>)
        ensures
            r.is_ok() == json_parses(self.data@),
            r matches Ok(d) ==> d.data_type@ == self.data_type@,
            r matches Err(e) ==> e.event_id@ == self.id@,
    {
        match parse_json(self.data.as_str()) {
            Ok(value) => Ok(EventData { data_type: self.data_type.clone(), value }),
            Err(_) => Err(EventDecodeError { event_id: self.id.clone() }),
        }
    }
}

/// A tag rule, held in its stored (serialised) form.
#[derive(Clone, Debug)]
pub struct TagRule {
    pub definition: String,
}

/// A tag rule with its switch.
#[derive(Clone, Debug)]
pub struct TagRuleWithMeta {
    pub enabled: bool,
    pub rule: TagRule,
}

/// The first stored layout of a tag rule group.
#[derive(Clone, Debug)]
pub struct TagRuleGroupV1 {
    pub name: String,
    pub description: String,
    pub rules: Vec<TagRuleWithMeta>,
}

/// The rules of a group, by storage layout version.
#[derive(Clone, Debug)]
pub enum TagRuleGroupData {
    V1 { data: TagRuleGroupV1 },
}

/// A named group of tag rules.
#[derive(Clone, Debug)]
pub struct TagRuleGroup {
    pub global_id: String,
    pub data: TagRuleGroupData,
}

/// The rules of the enabled entries, in stored order.
pub open spec fn active_rules(s: Seq<TagRuleWithMeta>) -> Seq<TagRule>
    decreases s.len(),
{
    if s.len() == 0 {
        seq![]
    } else {
        let prefix = active_rules(s.drop_last());
        if s.last().enabled {
            prefix.push(s.last().rule)
        } else {
            prefix
        }
    }
}

/// The rules of all entries, in stored order.
pub open spec fn all_rules(s: Seq<TagRuleWithMeta>) -> Seq<TagRule> {
    s.map_values(|r: TagRuleWithMeta| r.rule)
}

impl TagRuleGroupData {
    pub open spec fn entries(&self) -> Seq<TagRuleWithMeta> {
        match self {
            TagRuleGroupData::V1 { data } => data.rules@,
        }
    }

    /// The rules of the enabled entries, in order.
    pub fn into_iter_active_rules(self) -> (r: Vec<TagRule>)
        ensures
            r@ == active_rules(self.entries()),
    {
        match self {
            TagRuleGroupData::V1 { data } => {
                let mut rules = data.rules;
                let ghost all = rules@;
                let n: usize = rules.len();
                let mut out: Vec<TagRule> = Vec::new();
                let mut k: usize = 0;
                while rules.len() > 0
                    invariant
                        k + rules@.len() == n,
                        n == all.len(),
                        rules@ == all.subrange(k as int, all.len() as int),
                        out@ == active_rules(all.subrange(0, k as int)),
                    decreases rules@.len(),
                {
                    let entry = rules.remove(0);
                    proof {
                        assert(all.subrange(0, k + 1).drop_last() =~= all.subrange(0, k as int));
                    }
                    if entry.enabled {
                        out.push(entry.rule);
                    }
                    k = k + 1;
                }
                assert(all.subrange(0, k as int) =~= all);
                out
            },
        }
    }

    /// The rules of all entries, in order.
    pub fn into_iter_all_rules(self) -> (r: Vec<TagRule>)
        ensures
            r@ == all_rules(self.entries()),
    {
        match self {
            TagRuleGroupData::V1 { data } => {
                let mut rules = data.rules;
                let ghost all = rules@;
                let n: usize = rules.len();
                let mut out: Vec<TagRule> = Vec::new();
                let mut k: usize = 0;
                while rules.len() > 0
                    invariant
                        k + rules@.len() == n,
                        n == all.len(),
                        rules@ == all.subrange(k as int, all.len() as int),
                        out@ =~= all_rules(all.subrange(0, k as int)),
                    decreases rules@.len(),
                {
                    let entry = rules.remove(0);
                    out.push(entry.rule);
                    k = k + 1;
                    assert(out@ =~= all_rules(all.subrange(0, k as int)));
                }
                assert(all.subrange(0, k as int) =~= all);
                out
            },
        }
    }
}

} // verus!
