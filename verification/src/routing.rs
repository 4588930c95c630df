//! Message-to-job routing: maps a raw inbound payload to a flow/deployment
//! pair and parameter set. Two construction modes are supported: a
//! self-describing message carries `flow_name`/`deployment_name`/`payload`
//! itself; an indirect message carries a `message_type` whose flow action is
//! looked up in the source's static mapping and must read
//! `<flow name>/<deployment name>` with a single `/` separator.

use vstd::prelude::*;
use vstd::string::{StrSliceExecFns, StringExecFns};

use crate::interfaces::{Error, QMessage};
use crate::json::{
    deployment_name_of, flow_name_of, json_err_of, json_ok, message_type_of, opt_text,
    payload_text_of, read_message_fields,
};

verus! {

/// The top-level fields of an inbound message that routing reads; a field is
/// absent when the message does not carry it as the expected JSON type. The
/// payload is kept as its JSON text and passed through untouched.
#[derive(Debug, Clone)]
pub struct MessageFields {
    pub flow_name: Option<String>,
    pub deployment_name: Option<String>,
    pub message_type: Option<String>,
    pub payload: Option<String>,
}

/// A source's static mapping from message-type string to flow action, the
/// string "<flow name>/<deployment name>".
#[derive(Debug, Clone)]
pub struct FlowMap {
    pub pairs: Vec<(String, String)>,
}

/// The value of the first pair whose key matches, scanning from the front.
pub open spec fn lookup_spec(pairs: Seq<(String, String)>, key: Seq<char>) -> Option<Seq<char>>
    decreases pairs.len(),
{
    if pairs.len() == 0 {
        None
    } else if pairs[0].0@ == key {
        Some(pairs[0].1@)
    } else {
        lookup_spec(pairs.drop_first(), key)
    }
}

impl FlowMap {
    /// Well-formed: each message type is mapped once, as in the configuration
    /// object the mapping is read from. Lookup does not need this — it takes
    /// the first match — but a well-formed mapping determines it uniquely.
    pub open spec fn wf(&self) -> bool {
        forall|i: int, j: int| 0 <= i < j < self.pairs@.len() ==> self.pairs@[i].0@
            != self.pairs@[j].0@
    }

    pub fn new(pairs: Vec<(String, String)>) -> (r: FlowMap)
        ensures
            r.pairs == pairs,
    {
        FlowMap { pairs }
    }

    /// The flow action mapped to the given message type, if any.
    pub fn lookup(&self, key: &String) -> (r: Option<String>)
        ensures
            match r {
                Some(v) => lookup_spec(self.pairs@, key@) == Some(v@),
                None => lookup_spec(self.pairs@, key@) is None,
            },
    {
        let n = self.pairs.len();
        assert(self.pairs@.skip(0) =~= self.pairs@);
        for i in 0..n
            invariant
                n == self.pairs@.len(),
                lookup_spec(self.pairs@, key@) == lookup_spec(self.pairs@.skip(i as int), key@),
        {
            let p = &self.pairs[i];
            assert(self.pairs@.skip(i as int)[0] == self.pairs@[i as int]);
            if p.0 == *key {
                return Some(p.1.clone());
            }
            proof {
                assert(self.pairs@.skip(i as int).drop_first() =~= self.pairs@.skip(i as int + 1));
            }
        }
        assert(self.pairs@.skip(n as int) =~= Seq::<(String, String)>::empty());
        None
    }
}

/// How many '/' characters the text holds.
pub open spec fn slash_count(s: Seq<char>) -> nat
    decreases s.len(),
{
    if s.len() == 0 {
        0
    } else {
        slash_count(s.drop_last()) + (if s.last() == '/' {
            1nat
        } else {
            0nat
        })
    }
}

/// The index of the first '/', or the length when there is none.
pub open spec fn first_slash(s: Seq<char>) -> int
    decreases s.len(),
{
    if s.len() == 0 {
        0
    } else if s[0] == '/' {
        0
    } else {
        1 + first_slash(s.drop_first())
    }
}

/// A mapped flow action is valid when it holds exactly one '/' separator.
pub open spec fn valid_action(s: Seq<char>) -> bool {
    slash_count(s) == 1
}

/// The flow name of a valid flow action: what stands before the separator.
pub open spec fn action_flow(s: Seq<char>) -> Seq<char> {
    s.subrange(0, first_slash(s))
}

/// The deployment name of a valid flow action: what stands after the separator.
pub open spec fn action_deployment(s: Seq<char>) -> Seq<char> {
    s.subrange(first_slash(s) + 1, s.len() as int)
}

proof fn lemma_slash_count_snoc(s: Seq<char>, i: int)
    requires
        0 <= i < s.len(),
    ensures
        slash_count(s.subrange(0, i + 1)) == slash_count(s.subrange(0, i)) + (if s[i] == '/' {
            1nat
        } else {
            0nat
        }),
{
    assert(s.subrange(0, i + 1).drop_last() =~= s.subrange(0, i));
    assert(s.subrange(0, i + 1).last() == s[i]);
}

proof fn lemma_first_slash_scan(s: Seq<char>, k: int)
    requires
        0 <= k <= s.len(),
        forall|j: int| 0 <= j < k ==> s[j] != '/',
        k < s.len() ==> s[k] == '/',
    ensures
        k < s.len() ==> first_slash(s) == k,
        k == s.len() ==> first_slash(s) == s.len(),
    decreases s.len(),
{
    if s.len() == 0 {
    } else if k == 0 {
    } else {
        let t = s.drop_first();
        assert forall|j: int| 0 <= j < k - 1 implies t[j] != '/' by {
            assert(t[j] == s[j + 1]);
        }
        if k - 1 < t.len() {
            assert(t[k - 1] == s[k]);
        }
        lemma_first_slash_scan(t, k - 1);
    }
}

/// Splits a flow action into its flow and deployment names; `None` when the
/// text does not hold exactly one '/' separator.
pub fn split_action(s: &str) -> (r: Option<(String, String)>)
    ensures
        valid_action(s@) ==> (r matches Some(p) && p.0@ == action_flow(s@) && p.1@
            == action_deployment(s@)),
        !valid_action(s@) ==> r is None,
{
    let n = s.unicode_len();
    let mut count: usize = 0;
    let mut first: usize = n;
    assert(s@.subrange(0, 0) =~= Seq::<char>::empty());
    for i in 0..n
        invariant
            n == s@.len(),
            count as nat == slash_count(s@.subrange(0, i as int)),
            count <= i,
            first <= n,
            count == 0 ==> first == n && (forall|j: int| 0 <= j < i ==> s@[j] != '/'),
            count > 0 ==> first < i && s@[first as int] == '/' && (forall|j: int|
                0 <= j < first ==> s@[j] != '/'),
    {
        let c = s.get_char(i);
        proof {
            lemma_slash_count_snoc(s@, i as int);
        }
        if c == '/' {
            if count == 0 {
                first = i;
            }
            count = count + 1;
        }
    }
    assert(s@.subrange(0, n as int) =~= s@);
    if count == 1 {
        proof {
            lemma_first_slash_scan(s@, first as int);
        }
        let flow = s.substring_char(0, first).to_owned();
        let deployment = s.substring_char(first + 1, n).to_owned();
        Some((flow, deployment))
    } else {
        None
    }
}

/// The detail reported when a message type has no mapped flow action.
pub open spec fn unmapped_type_message(t: Seq<char>) -> Seq<char> {
    "No flow action is mapped for message type "@ + t
}

/// The detail reported when a mapped flow action lacks its single separator.
pub open spec fn invalid_action_message(t: Seq<char>) -> Seq<char> {
    "Mapped flow action for message type "@ + t
        + " is not of the form <flow name>/<deployment name>"@
}

/// The detail reported when a message carries neither construction mode.
pub open spec fn not_a_q_message() -> Seq<char> {
    "Message does not appear to be a valid QMessage - skipping"@
}

/// What routing yields for given field views: the complete case split of the
/// two construction modes, with the payload's text passed through untouched.
pub open spec fn route_result_matches(
    flow: Option<Seq<char>>,
    dep: Option<Seq<char>>,
    mtype: Option<Seq<char>>,
    payload: Option<Seq<char>>,
    pairs: Seq<(String, String)>,
    r: Result<QMessage, Error>,
) -> bool {
    if flow is Some && dep is Some {
        r matches Ok(env) && env.flow_name@ == flow->0 && env.deployment_name@ == dep->0
            && opt_text(env.payload) == payload
    } else {
        match mtype {
            Some(t) => match lookup_spec(pairs, t) {
                Some(a) => {
                    if valid_action(a) {
                        r matches Ok(env) && env.flow_name@ == action_flow(a)
                            && env.deployment_name@ == action_deployment(a) && opt_text(env.payload)
                            == payload
                    } else {
                        r matches Err(e) && (e matches Error::InputError(m) && m@
                            == invalid_action_message(t))
                    }
                },
                None => r matches Err(e) && (e matches Error::InputError(m) && m@
                    == unmapped_type_message(t)),
            },
            None => r matches Err(e) && (e matches Error::InputError(m) && m@
                == not_a_q_message()),
        }
    }
}

/// Builds the job envelope from the message's fields. Self-describing fields
/// win; otherwise the message type is resolved through the source's mapping;
/// the payload is passed through untouched either way.
pub fn route(fields: MessageFields, map: &FlowMap) -> (r: Result<QMessage, Error>)
    ensures
        route_result_matches(
            opt_text(fields.flow_name),
            opt_text(fields.deployment_name),
            opt_text(fields.message_type),
            opt_text(fields.payload),
            map.pairs@,
            r,
        ),
{
    let MessageFields { flow_name, deployment_name, message_type, payload } = fields;
    if flow_name.is_some() && deployment_name.is_some() {
        let f = flow_name.unwrap();
        let d = deployment_name.unwrap();
        Ok(QMessage { flow_name: f, deployment_name: d, payload })
    } else {
        match message_type {
            Some(t) => {
                match map.lookup(&t) {
                    Some(a) => {
                        match split_action(a.as_str()) {
                            Some(p) => Ok(
                                QMessage { flow_name: p.0, deployment_name: p.1, payload },
                            ),
                            None => Err(
                                Error::InputError(
                                    String::from_str("Mapped flow action for message type ")
                                        .concat(t.as_str())
                                        .concat(" is not of the form <flow name>/<deployment name>"),
                                ),
                            ),
                        }
                    },
                    None => Err(
                        Error::InputError(
                            String::from_str("No flow action is mapped for message type ").concat(
                                t.as_str(),
                            ),
                        ),
                    ),
                }
            },
            None => Err(
                Error::InputError(
                    String::from_str("Message does not appear to be a valid QMessage - skipping"),
                ),
            ),
        }
    }
}

/// The prefix of the detail reported when the message text is not valid JSON;
/// the parser's own words follow it.
pub open spec fn invalid_json_prefix() -> Seq<char> {
    "Unable to construct valid QMessage from content. Is likely invalid json: "@
}

/// Reads the fields routing needs out of the message text: each is the named
/// extraction from the text; `Err` carries the parser's words exactly when the
/// text is not valid JSON.
pub fn parse_message(content: &str) -> (r: Result<MessageFields, String>)
    ensures
        r is Ok <==> json_ok(content@),
        r matches Ok(f) ==> opt_text(f.flow_name) == flow_name_of(content@) && opt_text(
            f.deployment_name,
        ) == deployment_name_of(content@) && opt_text(f.message_type) == message_type_of(content@)
            && opt_text(f.payload) == payload_text_of(content@),
        r matches Err(e) ==> e@ == json_err_of(content@),
{
    read_message_fields(content)
}

/// The routing stage of one loop iteration: parse the message text, then build
/// the envelope from its named fields. Every failure is an input error: the
/// message is skipped and never acknowledged.
pub fn route_content(content: &str, map: &FlowMap) -> (r: Result<QMessage, Error>)
    ensures
        !json_ok(content@) ==> (r matches Err(e) && e matches Error::InputError(m) && m@
            == invalid_json_prefix() + json_err_of(content@)),
        json_ok(content@) ==> route_result_matches(
            flow_name_of(content@),
            deployment_name_of(content@),
            message_type_of(content@),
            payload_text_of(content@),
            map.pairs@,
            r,
        ),
        r matches Err(e) ==> e is InputError,
{
    match parse_message(content) {
        Ok(fields) => route(fields, map),
        Err(e) => {
            let m = String::from_str("Unable to construct valid QMessage from content. Is likely invalid json: ").concat(e.as_str());
            proof {
                assert(m@ == invalid_json_prefix() + e@);
            }
            Err(Error::InputError(m))
        },
    }
}

} // verus!
