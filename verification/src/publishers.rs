//! The closed set of source variants a dispatch loop can be configured with.

use vstd::prelude::*;
use vstd::string::StringExecFns;

use crate::interfaces::{Error, Publisher};
use crate::json::{
    entries_view, flow_actions_of, json_ok, opt_entries_view, opt_text, publisher_type_of,
    queue_name_of, read_publisher_fields, storage_account_of, tcp_uri_of, topic_of,
};
use crate::routing::FlowMap;

pub mod azure_storage_queue;
pub mod stdin;
pub mod zeromq;

verus! {

/// One configured source, tagged by variant. The set of backends is small and
/// known at build time, so the variants stand in one closed enum.
#[derive(Debug, Clone)]
pub enum PublisherType {
    AzureStorageQueue(azure_storage_queue::AzureStorageQueue),
    Zmq(zeromq::Zmq),
    StdInput(stdin::StdInput),
}

impl PublisherType {
    /// The identity string of whichever variant is configured.
    pub fn repr(&self) -> (r: String)
        ensures
            match self {
                PublisherType::AzureStorageQueue(q) => r@ == q.repr_spec(),
                PublisherType::Zmq(z) => r@ == z.repr_spec(),
                PublisherType::StdInput(s) => r@ == s.repr_spec(),
            },
    {
        match self {
            PublisherType::AzureStorageQueue(q) => q.repr(),
            PublisherType::Zmq(z) => z.repr(),
            PublisherType::StdInput(s) => s.repr(),
        }
    }
}

/// The raw fields a publisher entry's JSON object can carry, each absent when
/// the object does not hold it as the expected type. A mapping value that is
/// not a string arrives as `None` and is rejected below.
#[derive(Debug)]
pub struct PublisherEntryFields {
    pub publisher_type: Option<String>,
    pub storage_account: Option<String>,
    pub queue_name: Option<String>,
    pub tcp_uri: Option<String>,
    pub topic: Option<String>,
    pub message_flow_actions: Option<Vec<(String, Option<String>)>>,
}

/// Whether every mapping value is a string.
pub open spec fn entries_ok(entries: Seq<(String, Option<String>)>) -> bool {
    forall|i: int| 0 <= i < entries.len() ==> entries[i].1 is Some
}

/// The mapping pairs the entries stand for.
pub open spec fn entry_pairs(entries: Seq<(String, Option<String>)>) -> Seq<(String, String)> {
    entries.map_values(|e: (String, Option<String>)| (e.0, e.1->0))
}

/// Builds a source's static mapping from the fields of its
/// `message_flow_actions` object; a value that is not a string is a
/// configuration error.
pub fn flow_map_from_entries(entries: Vec<(String, Option<String>)>) -> (r: Result<FlowMap, Error>)
    ensures
        entries_ok(entries@) ==> (r matches Ok(m) && m.pairs@ == entry_pairs(entries@)),
        !entries_ok(entries@) ==> (r matches Err(e) && e matches Error::ConfigurationError(m) && m@
            == "message_flow_actions values must be strings of the form <flow name>/<deployment name>"@),
        (entries_ok(entries@) && (forall|i: int, j: int|
            0 <= i < j < entries@.len() ==> entries@[i].0@ != entries@[j].0@)) ==> (r matches Ok(m)
            && m.wf()),
{
    let mut pairs: Vec<(String, String)> = Vec::new();
    let n = entries.len();
    let mut idx: usize = 0;
    while idx < n
        invariant
            n == entries@.len(),
            idx <= n,
            entries_ok(entries@.subrange(0, idx as int)),
            pairs@ == entry_pairs(entries@.subrange(0, idx as int)),
        decreases n - idx,
    {
        let entry = &entries[idx];
        match &entry.1 {
            Some(action) => {
                pairs.push((entry.0.clone(), action.clone()));
                proof {
                    assert(entries@.subrange(0, idx as int + 1) =~= entries@.subrange(
                        0,
                        idx as int,
                    ).push(entries@[idx as int]));
                    assert(entry_pairs(entries@.subrange(0, idx as int + 1)) =~= entry_pairs(
                        entries@.subrange(0, idx as int),
                    ).push((entries@[idx as int].0, entries@[idx as int].1->0)));
                }
            },
            None => {
                assert(!entries_ok(entries@));
                return Err(
                    Error::ConfigurationError(
                        String::from_str(
                            "message_flow_actions values must be strings of the form <flow name>/<deployment name>",
                        ),
                    ),
                );
            },
        }
        idx = idx + 1;
    }
    proof {
        assert(entries@.subrange(0, n as int) =~= entries@);
    }
    Ok(FlowMap::new(pairs))
}

/// Whether every mapping value, given as views, is a string.
pub open spec fn entries_ok_view(en: Seq<(Seq<char>, Option<Seq<char>>)>) -> bool {
    forall|i: int| 0 <= i < en.len() ==> en[i].1 is Some
}

/// The mapping pairs, as views, that view-level entries stand for.
pub open spec fn entry_pairs_view(en: Seq<(Seq<char>, Option<Seq<char>>)>) -> Seq<
    (Seq<char>, Seq<char>),
> {
    en.map_values(|e: (Seq<char>, Option<Seq<char>>)| (e.0, e.1->0))
}

/// The views of built mapping pairs.
pub open spec fn pairs_view(ps: Seq<(String, String)>) -> Seq<(Seq<char>, Seq<char>)> {
    ps.map_values(|p: (String, String)| (p.0@, p.1@))
}

/// Whether an optional mapping, given as views, can be built: absent, or
/// present with every value a string.
pub open spec fn actions_ok_view(actions: Option<Seq<(Seq<char>, Option<Seq<char>>)>>) -> bool {
    match actions {
        Some(en) => entries_ok_view(en),
        None => true,
    }
}

/// The mapping pairs, as views, of an optional mapping: empty when absent.
pub open spec fn actions_pairs_view(actions: Option<Seq<(Seq<char>, Option<Seq<char>>)>>) -> Seq<
    (Seq<char>, Seq<char>),
> {
    match actions {
        Some(en) => entry_pairs_view(en),
        None => Seq::<(Seq<char>, Seq<char>)>::empty(),
    }
}

/// What building a publisher yields for given entry-field views: the complete
/// case split over the tag, the required connection fields of each variant,
/// and the mapping values.
pub open spec fn publisher_entry_matches(
    tag: Option<Seq<char>>,
    account: Option<Seq<char>>,
    queue: Option<Seq<char>>,
    uri: Option<Seq<char>>,
    topic: Option<Seq<char>>,
    actions: Option<Seq<(Seq<char>, Option<Seq<char>>)>>,
    r: Result<PublisherType, Error>,
) -> bool {
    match tag {
        None => r matches Err(e) && (e matches Error::InputError(m) && m@
            == "Unable to parse json as a valid publisher type"@),
        Some(t) => {
            if t == "StdInput"@ {
                r matches Ok(p) && p is StdInput
            } else if t == "AzureStorageQueue"@ {
                if account is None || queue is None {
                    r matches Err(e) && (e matches Error::ConfigurationError(m) && m@
                        == "AzureStorageQueue publisher requires storage_account and queue_name"@)
                } else if !actions_ok_view(actions) {
                    r matches Err(e) && (e matches Error::ConfigurationError(m) && m@
                        == "message_flow_actions values must be strings of the form <flow name>/<deployment name>"@)
                } else {
                    r matches Ok(p) && (p matches PublisherType::AzureStorageQueue(q)
                        && q.storage_account@ == account->0 && q.queue_name@ == queue->0
                        && pairs_view(q.message_flow_actions.pairs@) == actions_pairs_view(actions)
                        && q.messages is None)
                }
            } else if t == "Zmq"@ {
                if uri is None || topic is None {
                    r matches Err(e) && (e matches Error::ConfigurationError(m) && m@
                        == "Zmq publisher requires tcp_uri and topic"@)
                } else if !actions_ok_view(actions) {
                    r matches Err(e) && (e matches Error::ConfigurationError(m) && m@
                        == "message_flow_actions values must be strings of the form <flow name>/<deployment name>"@)
                } else {
                    r matches Ok(p) && (p matches PublisherType::Zmq(z) && z.tcp_uri@ == uri->0
                        && z.topic@ == topic->0 && pairs_view(z.message_flow_actions.pairs@)
                        == actions_pairs_view(actions))
                }
            } else {
                r matches Err(e) && (e matches Error::InputError(m) && m@
                    == "Unable to parse json as a valid publisher type"@)
            }
        },
    }
}

proof fn lemma_entries_view_bridge(en: Seq<(String, Option<String>)>)
    ensures
        entries_ok(en) <==> entries_ok_view(entries_view(en)),
        entries_ok(en) ==> pairs_view(entry_pairs(en)) == entry_pairs_view(entries_view(en)),
{
    assert forall|i: int| 0 <= i < en.len() implies (en[i].1 is Some <==> entries_view(en)[i].1
        is Some) by {
        assert(entries_view(en)[i] == (en[i].0@, opt_text(en[i].1)));
    }
    if entries_ok(en) {
        assert forall|i: int| 0 <= i < en.len() implies pairs_view(entry_pairs(en))[i]
            == entry_pairs_view(entries_view(en))[i] by {
            assert(entry_pairs(en)[i] == (en[i].0, en[i].1->0));
            assert(entries_view(en)[i] == (en[i].0@, opt_text(en[i].1)));
        }
        assert(pairs_view(entry_pairs(en)) =~= entry_pairs_view(entries_view(en)));
    }
}

/// Builds the configured publisher out of its entry's raw fields: the variant
/// named by the `publisher_type` tag, its required connection fields, and its
/// mapping (an absent mapping is the empty one). An unknown or missing tag and
/// a missing required field are errors.
pub fn publisher_from_fields(fields: PublisherEntryFields) -> (r: Result<PublisherType, Error>)
    ensures
        publisher_entry_matches(
            opt_text(fields.publisher_type),
            opt_text(fields.storage_account),
            opt_text(fields.queue_name),
            opt_text(fields.tcp_uri),
            opt_text(fields.topic),
            opt_entries_view(fields.message_flow_actions),
            r,
        ),
{
    proof {
        if fields.message_flow_actions is Some {
            lemma_entries_view_bridge(fields.message_flow_actions->0@);
        }
    }
    let PublisherEntryFields {
        publisher_type,
        storage_account,
        queue_name,
        tcp_uri,
        topic,
        message_flow_actions,
    } = fields;
    let tag = match publisher_type {
        Some(t) => t,
        None => {
            return Err(
                Error::InputError(String::from_str("Unable to parse json as a valid publisher type")),
            );
        },
    };
    if tag == String::from_str("StdInput") {
        Ok(PublisherType::StdInput(stdin::StdInput::new()))
    } else if tag == String::from_str("AzureStorageQueue") {
        let account = match storage_account {
            Some(a) => a,
            None => {
                return Err(
                    Error::ConfigurationError(
                        String::from_str(
                            "AzureStorageQueue publisher requires storage_account and queue_name",
                        ),
                    ),
                );
            },
        };
        let queue = match queue_name {
            Some(q) => q,
            None => {
                return Err(
                    Error::ConfigurationError(
                        String::from_str(
                            "AzureStorageQueue publisher requires storage_account and queue_name",
                        ),
                    ),
                );
            },
        };
        let map = match message_flow_actions {
            Some(entries) => flow_map_from_entries(entries)?,
            None => FlowMap::new(Vec::new()),
        };
        proof {
            assert(pairs_view(map.pairs@) =~= actions_pairs_view(
                opt_entries_view(fields.message_flow_actions),
            ));
        }
        Ok(
            PublisherType::AzureStorageQueue(
                azure_storage_queue::AzureStorageQueue::new(account, queue, map),
            ),
        )
    } else if tag == String::from_str("Zmq") {
        let uri = match tcp_uri {
            Some(u) => u,
            None => {
                return Err(
                    Error::ConfigurationError(
                        String::from_str("Zmq publisher requires tcp_uri and topic"),
                    ),
                );
            },
        };
        let top = match topic {
            Some(t) => t,
            None => {
                return Err(
                    Error::ConfigurationError(
                        String::from_str("Zmq publisher requires tcp_uri and topic"),
                    ),
                );
            },
        };
        let map = match message_flow_actions {
            Some(entries) => flow_map_from_entries(entries)?,
            None => FlowMap::new(Vec::new()),
        };
        proof {
            assert(pairs_view(map.pairs@) =~= actions_pairs_view(
                opt_entries_view(fields.message_flow_actions),
            ));
        }
        Ok(PublisherType::Zmq(zeromq::Zmq::new(uri, top, map)))
    } else {
        Err(Error::InputError(String::from_str("Unable to parse json as a valid publisher type")))
    }
}

/// Whether the entry text at hand names a buildable publisher: valid JSON, a
/// known tag, the tag's required fields present, and every mapping value a
/// string.
pub open spec fn entry_accepted(t: Seq<char>) -> bool {
    &&& json_ok(t)
    &&& match publisher_type_of(t) {
        Some(tag) => {
            if tag == "StdInput"@ {
                true
            } else if tag == "AzureStorageQueue"@ {
                storage_account_of(t) is Some && queue_name_of(t) is Some && actions_ok_view(
                    flow_actions_of(t),
                )
            } else if tag == "Zmq"@ {
                tcp_uri_of(t) is Some && topic_of(t) is Some && actions_ok_view(flow_actions_of(t))
            } else {
                false
            }
        },
        None => false,
    }
}

/// What building a publisher from the entry text yields, through the named
/// extractions of that text.
pub open spec fn entry_publisher_matches(t: Seq<char>, p: PublisherType) -> bool {
    publisher_entry_matches(
        publisher_type_of(t),
        storage_account_of(t),
        queue_name_of(t),
        tcp_uri_of(t),
        topic_of(t),
        flow_actions_of(t),
        Ok::<PublisherType, Error>(p),
    )
}

/// Builds a publisher from the JSON text of one entry: exactly the publisher
/// its named fields describe, or the error their case demands.
pub fn publisher_from_json_text(text: &str) -> (r: Result<PublisherType, Error>)
    ensures
        !json_ok(text@) ==> (r matches Err(e) && e matches Error::InputError(m) && m@
            == "Unable to parse json as a valid publisher type"@),
        json_ok(text@) ==> publisher_entry_matches(
            publisher_type_of(text@),
            storage_account_of(text@),
            queue_name_of(text@),
            tcp_uri_of(text@),
            topic_of(text@),
            flow_actions_of(text@),
            r,
        ),
{
    match read_publisher_fields(text) {
        Ok(fields) => publisher_from_fields(fields),
        Err(_) => Err(
            Error::InputError(String::from_str("Unable to parse json as a valid publisher type")),
        ),
    }
}

} // verus!
