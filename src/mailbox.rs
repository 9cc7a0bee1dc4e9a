use vstd::prelude::*;

verus! {

/// Capacity of a mailbox when none is given.
pub const DEFAULT_BUFFER_SIZE: usize = 1000;

/// Capacity of a mailbox's queue.
#[derive(Debug, Clone, Copy, PartialEq, Eq, Structural)]
pub enum BufferSize {
    Default,
    Size(usize),
}

impl BufferSize {
    /// The given size, or `default_value` for `Default`.
    pub fn unwrap_or(&self, default_value: usize) -> (r: usize)
        ensures
            r == (match *self {
                BufferSize::Default => default_value,
                BufferSize::Size(x) => x,
            }),
    {
        match self {
            BufferSize::Default => default_value,
            BufferSize::Size(x) => *x,
        }
    }
}

/// Failure of a mailbox: its queue or a reply channel was closed.
pub struct MailboxProcessorError {
    pub msg: String,
}

impl MailboxProcessorError {
    /// The queue is closed.
    pub fn closed() -> (r: MailboxProcessorError)
        ensures
            r.msg@ == "the mailbox channel is closed send back nothing"@,
    {
        MailboxProcessorError { msg: "the mailbox channel is closed send back nothing".to_string() }
    }

    /// The reply channel was dropped without a reply.
    pub fn no_reply() -> (r: MailboxProcessorError)
        ensures
            r.msg@ == "the response channel is closed (did you mean to call fire_and_forget() rather than send())"@,
    {
        MailboxProcessorError {
            msg: "the response channel is closed (did you mean to call fire_and_forget() rather than send())".to_string(),
        }
    }

    /// The error's text.
    pub fn message(&self) -> (r: &String)
        ensures
            r == &self.msg,
    {
        &self.msg
    }
}

} // verus!
