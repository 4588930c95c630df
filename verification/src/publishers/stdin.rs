//! The interactive publisher: one line of operator input per message, used for
//! manual testing. Reading the line suspends on standard input and stays with
//! the driver; acknowledgement has no backend concept and is a no-op.

use vstd::prelude::*;
use vstd::string::StringExecFns;

use crate::interfaces::{Publisher, RawMessage};

verus! {

/// One line of operator input.
#[derive(Debug, Clone)]
pub struct StdInMsg {
    pub msg: String,
}

impl StdInMsg {
    pub fn new(msg: String) -> (r: StdInMsg)
        ensures
            r.msg == msg,
    {
        StdInMsg { msg }
    }
}

impl RawMessage for StdInMsg {
    open spec fn content_spec(&self) -> Seq<char> {
        self.msg@
    }

    fn get_content_str(&self) -> (r: String) {
        self.msg.clone()
    }
}

/// The interactive source. It has no connection state and no configuration
/// fields.
#[derive(Debug, Clone)]
pub struct StdInput;

impl Publisher for StdInput {
    type PubMessage = StdInMsg;

    open spec fn repr_spec(&self) -> Seq<char> {
        "Stdin"@
    }

    fn repr(&self) -> (r: String) {
        String::from_str("Stdin")
    }
}

impl StdInput {
    pub fn new() -> (r: StdInput) {
        StdInput
    }

    /// Acknowledgement is a no-op for this variant.
    pub fn task_done(&mut self, _message: StdInMsg)
        ensures
            *final(self) == *old(self),
    {
    }
}

} // verus!
