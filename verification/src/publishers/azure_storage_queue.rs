//! The queue-backed publisher: a pull model with an internal prefetch buffer.
//! The queue client and its suspension points stay with the driver; what
//! stands here is the buffer policy: `next()` pops buffered messages first,
//! the driver fetches a new batch only when the buffer is missing or empty,
//! and a batch of zero messages is stored without error — starvation makes the
//! loop retry, never terminate. Acknowledgement deletes by receipt, a call the
//! driver issues.

use vstd::prelude::*;
use vstd::string::StringExecFns;

use crate::interfaces::{Publisher, RawMessage};
use crate::routing::FlowMap;

verus! {

/// The model of one fetched queue message: its text content and the identity
/// the backend needs to delete it after processing.
#[derive(Debug, Clone)]
pub struct QueueMessage {
    pub message_text: String,
    pub message_id: String,
    pub pop_receipt: String,
}

impl RawMessage for QueueMessage {
    open spec fn content_spec(&self) -> Seq<char> {
        self.message_text@
    }

    fn get_content_str(&self) -> (r: String) {
        self.message_text.clone()
    }
}

/// The queue-backed source: account and queue identity, the static mapping
/// from message type to flow action, and the prefetch buffer of
/// fetched-but-undelivered messages (absent until the first fetch).
#[derive(Debug, Clone)]
pub struct AzureStorageQueue {
    pub storage_account: String,
    pub queue_name: String,
    pub message_flow_actions: FlowMap,
    pub messages: Option<Vec<QueueMessage>>,
}

impl Publisher for AzureStorageQueue {
    type PubMessage = QueueMessage;

    open spec fn repr_spec(&self) -> Seq<char> {
        self.storage_account@ + "/"@ + self.queue_name@
    }

    fn repr(&self) -> (r: String) {
        String::from_str(self.storage_account.as_str()).concat("/").concat(self.queue_name.as_str())
    }
}

impl AzureStorageQueue {
    pub fn new(storage_account: String, queue_name: String, message_flow_actions: FlowMap) -> (r:
        AzureStorageQueue)
        ensures
            r.storage_account == storage_account,
            r.queue_name == queue_name,
            r.message_flow_actions == message_flow_actions,
            r.messages is None,
    {
        AzureStorageQueue { storage_account, queue_name, message_flow_actions, messages: None }
    }

    pub fn flow_action_map(&self) -> (r: &FlowMap)
        ensures
            r == &self.message_flow_actions,
    {
        &self.message_flow_actions
    }

    /// Whether `next()` must ask the backend for a new batch: only when the
    /// buffer is missing or empty, never while it still holds messages.
    pub fn needs_fetch(&self) -> (r: bool)
        ensures
            r <==> (self.messages is None || self.messages->0@.len() == 0),
    {
        match &self.messages {
            Some(buffered) => buffered.len() == 0,
            None => true,
        }
    }

    /// Stores a fetched batch as the new buffer. A batch of zero messages is
    /// stored like any other: an empty fetch is not an error.
    pub fn store_batch(&mut self, batch: Vec<QueueMessage>)
        ensures
            final(self).messages == Some(batch),
            final(self).storage_account == old(self).storage_account,
            final(self).queue_name == old(self).queue_name,
            final(self).message_flow_actions == old(self).message_flow_actions,
    {
        self.messages = Some(batch);
    }

    /// Serves one message out of the buffer: the most recently fetched
    /// undelivered one, which leaves the buffer; "no message now" when the
    /// buffer is missing or empty, leaving the publisher unchanged.
    pub fn pop_message(&mut self) -> (r: Option<QueueMessage>)
        ensures
            (old(self).messages is Some && old(self).messages->0@.len() > 0) ==> ((r matches Some(
                m,
            ) && m == old(self).messages->0@.last()) && (final(self).messages matches Some(nb)
                && nb@ == old(self).messages->0@.drop_last())),
            old(self).messages is None ==> (r is None && final(self).messages is None),
            (old(self).messages is Some && old(self).messages->0@.len() == 0) ==> (r is None && (
            final(self).messages matches Some(nb) && nb@ == old(self).messages->0@)),
            final(self).storage_account == old(self).storage_account,
            final(self).queue_name == old(self).queue_name,
            final(self).message_flow_actions == old(self).message_flow_actions,
    {
        match &mut self.messages {
            Some(buffered) => buffered.pop(),
            None => None,
        }
    }
}

} // verus!
