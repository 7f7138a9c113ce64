//! What crosses the boundary to the engine besides arrays: the handles under
//! which it knows its objects, and the channel on which it reports failure.

use vstd::prelude::*;

verus! {

/// The name under which the engine knows one of its objects. To this crate
/// it is a token: it is stored, handed back, and never looked into.
#[derive(Clone, Copy, Debug, PartialEq, Eq, Structural)]
pub struct Handle {
    pub address: usize,
}

/// What the engine reported about one call: nothing, or one message.
///
/// A channel guards exactly one call. It is made empty before the call, the
/// engine sets it when the call fails, and whoever reads the outputs of that
/// call looks at the channel first.
#[derive(Debug, Clone)]
pub struct ErrorChannel {
    pending: Option<String>,
}

impl View for ErrorChannel {
    type V = Option<Seq<char>>;

    closed spec fn view(&self) -> Option<Seq<char>> {
        match self.pending {
            Some(message) => Some(message@),
            None => None,
        }
    }
}

impl ErrorChannel {
    /// An empty channel.
    pub fn new() -> (channel: Self)
        ensures
            channel@ is None,
    {
        ErrorChannel { pending: None }
    }

    /// Records `message` as the pending error, in place of any earlier one.
    pub fn set(&mut self, message: String)
        ensures
            final(self)@ == Some(message@),
    {
        self.pending = Some(message);
    }

    /// Whether an error is pending.
    pub fn is_set(&self) -> (set: bool)
        ensures
            set == (self@ is Some),
    {
        self.pending.is_some()
    }

    /// The pending message, or the empty string when nothing is pending.
    pub fn message(&self) -> (text: String)
        ensures
            text@ == match self@ {
                Some(message) => message,
                None => Seq::<char>::empty(),
            },
    {
        match &self.pending {
            Some(message) => message.clone(),
            None => String::new(),
        }
    }
}

} // verus!
