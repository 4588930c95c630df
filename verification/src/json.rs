//! The boundary to the serde_json crate. Inbound messages, configuration files
//! and orchestration-service responses all arrive as JSON text; each reader
//! here parses one kind of text and hands the pieces the dispatcher needs to
//! verified code as plain values. Everything serde_json extracts from a given
//! text depends on the text alone, so each extracted piece is given a name (an
//! uninterpreted function of the text) and every reader's contract states its
//! result through those names; the verified callers are then exact in them.

use vstd::prelude::*;

use crate::config::RawConfig;
use crate::publishers::PublisherEntryFields;
use crate::routing::MessageFields;

verus! {

/// Whether serde_json accepts the text as JSON.
pub uninterp spec fn json_ok(s: Seq<char>) -> bool;

/// The display text of the parse error when the text is not valid JSON.
pub uninterp spec fn json_err_of(s: Seq<char>) -> Seq<char>;

/// The `flow_name` field of the parsed text: its text when it is a string
/// field of the top-level object, absent otherwise.
pub uninterp spec fn flow_name_of(s: Seq<char>) -> Option<Seq<char>>;

/// The `deployment_name` field, as for `flow_name_of`.
pub uninterp spec fn deployment_name_of(s: Seq<char>) -> Option<Seq<char>>;

/// The `message_type` field, as for `flow_name_of`.
pub uninterp spec fn message_type_of(s: Seq<char>) -> Option<Seq<char>>;

/// The `payload` field of the parsed text as its compact JSON text, absent
/// when the object carries none.
pub uninterp spec fn payload_text_of(s: Seq<char>) -> Option<Seq<char>>;

/// The `id` string field of the first element of the parsed text, absent when
/// the text is not an array of objects shaped so.
pub uninterp spec fn first_id_of(s: Seq<char>) -> Option<Seq<char>>;

/// The `name` string field of the parsed text's top-level object.
pub uninterp spec fn run_name_of(s: Seq<char>) -> Option<Seq<char>>;

/// The `publisher_type` string field of a publisher entry's text.
pub uninterp spec fn publisher_type_of(s: Seq<char>) -> Option<Seq<char>>;

/// The `storage_account` string field of a publisher entry's text.
pub uninterp spec fn storage_account_of(s: Seq<char>) -> Option<Seq<char>>;

/// The `queue_name` string field of a publisher entry's text.
pub uninterp spec fn queue_name_of(s: Seq<char>) -> Option<Seq<char>>;

/// The `tcp_uri` string field of a publisher entry's text.
pub uninterp spec fn tcp_uri_of(s: Seq<char>) -> Option<Seq<char>>;

/// The `topic` string field of a publisher entry's text.
pub uninterp spec fn topic_of(s: Seq<char>) -> Option<Seq<char>>;

/// The fields of a publisher entry's `message_flow_actions` object: one pair
/// per field, the value's text when it is a string and absent otherwise,
/// absent as a whole when the entry carries no such object.
pub uninterp spec fn flow_actions_of(s: Seq<char>) -> Option<
    Seq<(Seq<char>, Option<Seq<char>>)>,
>;

/// The entries of the configuration text's `threads` array, each as its
/// compact JSON text; absent when the text carries no such array.
pub uninterp spec fn config_threads_of(s: Seq<char>) -> Option<Seq<Seq<char>>>;

/// The `prefect_use_msal_auth` boolean of the configuration text's `settings`
/// object; absent when it is missing, null or not a boolean.
pub uninterp spec fn config_msal_of(s: Seq<char>) -> Option<bool>;

/// Whether the configuration text's `settings` field is present as an object.
pub uninterp spec fn config_has_settings_of(s: Seq<char>) -> bool;

/// The views of an optional owned string.
pub open spec fn opt_text(o: Option<String>) -> Option<Seq<char>> {
    match o {
        Some(v) => Some(v@),
        None => None,
    }
}

/// The views of a sequence of owned strings.
pub open spec fn texts_view(v: Seq<String>) -> Seq<Seq<char>> {
    v.map_values(|x: String| x@)
}

/// The views of optional mapping entries.
pub open spec fn entries_view(en: Seq<(String, Option<String>)>) -> Seq<
    (Seq<char>, Option<Seq<char>>),
> {
    en.map_values(|e: (String, Option<String>)| (e.0@, opt_text(e.1)))
}

/// The views of an optional mapping.
pub open spec fn opt_entries_view(o: Option<Vec<(String, Option<String>)>>) -> Option<
    Seq<(Seq<char>, Option<Seq<char>>)>,
> {
    match o {
        Some(en) => Some(entries_view(en@)),
        None => None,
    }
}

/// The views of an optional list of entry texts.
pub open spec fn opt_texts_view(o: Option<Vec<String>>) -> Option<Seq<Seq<char>>> {
    match o {
        Some(v) => Some(texts_view(v@)),
        None => None,
    }
}

/// Relies on serde_json::from_str::<Value>, Value::get and Value::as_str for
/// the three name fields, and serde_json::to_string for the payload: the
/// fields an inbound message carries, each a function of the text alone.
#[verifier::external_body]
pub fn read_message_fields(s: &str) -> (r: Result<MessageFields, String>)
    ensures
        r is Ok <==> json_ok(s@),
        r matches Ok(f) ==> opt_text(f.flow_name) == flow_name_of(s@) && opt_text(
            f.deployment_name,
        ) == deployment_name_of(s@) && opt_text(f.message_type) == message_type_of(s@) && opt_text(
            f.payload,
        ) == payload_text_of(s@),
        r matches Err(e) ==> e@ == json_err_of(s@),
{
    let v: serde_json::Value = serde_json::from_str(s).map_err(|e| e.to_string())?;
    let text = |k: &str| v.get(k).and_then(|w| w.as_str()).map(|t| t.to_string());
    Ok(MessageFields {
        flow_name: text("flow_name"),
        deployment_name: text("deployment_name"),
        message_type: text("message_type"),
        payload: v.get("payload").map(|w| serde_json::to_string(w).unwrap_or(String::new())),
    })
}

/// Relies on serde_json::from_str::<Value>, Value::get (index 0, then "id")
/// and Value::as_str: the deployment id the filter response carries, a
/// function of the response text alone.
#[verifier::external_body]
pub fn read_first_id(s: &str) -> (r: Result<Option<String>, String>)
    ensures
        r is Ok <==> json_ok(s@),
        r matches Ok(id) ==> opt_text(id) == first_id_of(s@),
        r matches Err(e) ==> e@ == json_err_of(s@),
{
    let v: serde_json::Value = serde_json::from_str(s).map_err(|e| e.to_string())?;
    Ok(v.get(0).and_then(|f| f.get("id")).and_then(|w| w.as_str()).map(|t| t.to_string()))
}

/// Relies on serde_json::from_str::<Value>, Value::get ("name") and
/// Value::as_str: the run name the create-run response carries, a function of
/// the response text alone.
#[verifier::external_body]
pub fn read_run_name(s: &str) -> (r: Result<Option<String>, String>)
    ensures
        r is Ok <==> json_ok(s@),
        r matches Ok(name) ==> opt_text(name) == run_name_of(s@),
        r matches Err(e) ==> e@ == json_err_of(s@),
{
    let v: serde_json::Value = serde_json::from_str(s).map_err(|e| e.to_string())?;
    Ok(v.get("name").and_then(|w| w.as_str()).map(|t| t.to_string()))
}

/// Relies on serde_json::from_str::<Value>, Value::get, Value::as_str,
/// Value::as_object and Map::iter: the raw fields of one publisher entry, each
/// a function of the entry's text alone. The mapping object is backed by a
/// BTreeMap, so its keys come out pairwise distinct.
#[verifier::external_body]
pub fn read_publisher_fields(s: &str) -> (r: Result<PublisherEntryFields, String>)
    ensures
        r is Ok <==> json_ok(s@),
        r matches Ok(f) ==> opt_text(f.publisher_type) == publisher_type_of(s@) && opt_text(
            f.storage_account,
        ) == storage_account_of(s@) && opt_text(f.queue_name) == queue_name_of(s@) && opt_text(
            f.tcp_uri,
        ) == tcp_uri_of(s@) && opt_text(f.topic) == topic_of(s@) && opt_entries_view(
            f.message_flow_actions,
        ) == flow_actions_of(s@),
        r matches Ok(f) ==> (f.message_flow_actions matches Some(en) ==> forall|i: int, j: int|
            0 <= i < j < en@.len() ==> en@[i].0@ != en@[j].0@),
        r matches Err(e) ==> e@ == json_err_of(s@),
{
    let v: serde_json::Value = serde_json::from_str(s).map_err(|e| e.to_string())?;
    let text = |k: &str| v.get(k).and_then(|w| w.as_str()).map(|t| t.to_string());
    let actions = v.get("message_flow_actions").and_then(|w| w.as_object()).map(
        |m| m.iter().map(|(k, w)| (k.clone(), w.as_str().map(|t| t.to_string()))).collect(),
    );
    Ok(PublisherEntryFields {
        publisher_type: text("publisher_type"),
        storage_account: text("storage_account"),
        queue_name: text("queue_name"),
        tcp_uri: text("tcp_uri"),
        topic: text("topic"),
        message_flow_actions: actions,
    })
}

/// Relies on serde_json::from_str::<Value>, Value::get, Value::as_array,
/// Value::as_object, Value::as_bool and serde_json::to_string: the raw shape
/// of the configuration text — each `threads` entry as its compact JSON text,
/// whether a `settings` object is present, and its auth flag — each a function
/// of the text alone.
#[verifier::external_body]
pub fn read_config(s: &str) -> (r: Result<RawConfig, String>)
    ensures
        r is Ok <==> json_ok(s@),
        r matches Ok(c) ==> opt_texts_view(c.thread_texts) == config_threads_of(s@)
            && c.has_settings == config_has_settings_of(s@) && c.msal_flag == config_msal_of(s@),
        r matches Err(e) ==> e@ == json_err_of(s@),
{
    let v: serde_json::Value = serde_json::from_str(s).map_err(|e| e.to_string())?;
    let thread_texts = v.get("threads").and_then(|w| w.as_array()).map(
        |arr| arr.iter().map(|e| serde_json::to_string(e).unwrap_or(String::new())).collect(),
    );
    let has_settings = v.get("settings").and_then(|w| w.as_object()).is_some();
    let msal_flag = v.get("settings").and_then(|w| w.get("prefect_use_msal_auth")).and_then(
        |w| w.as_bool(),
    );
    Ok(RawConfig { thread_texts, has_settings, msal_flag })
}

} // verus!
