use vstd::prelude::*;

verus! {

/// The fixed textual payload carried by every record this probe emits.
pub open spec fn event_payload() -> Seq<char> {
    "function blk_mq_start_request called"@
}

/// One record of the event stream: the fixed payload, tagged with the core and
/// process that executed the traced function when the record was written.
#[derive(Clone, Copy, PartialEq, Eq, Structural, Debug)]
pub struct EventRecord {
    /// Identifier of the processor core the invocation ran on.
    pub cpu: u32,
    /// Identifier of the process that was current during the invocation.
    pub pid: u32,
}

impl EventRecord {
    /// The textual payload of this record, the same for every record.
    pub fn message(&self) -> (r: &'static str)
        ensures
            r@ == event_payload(),
    {
        "function blk_mq_start_request called"
    }
}

} // verus!
