//! The error channel: one slot for the text of the most recent failure.
//!
//! The host is told of a failure by a code. The text that describes it goes
//! here, where the last writer wins, and is read by a separate call.

use vstd::prelude::*;
use vstd::string::*;

verus! {

/// The slot. Its view is the text it holds.
pub struct ErrorChannel {
    message: String,
}

impl View for ErrorChannel {
    type V = Seq<char>;

    closed spec fn view(&self) -> Seq<char> {
        self.message@
    }
}

/// The text that the channel holds while nothing has failed.
pub open spec fn placeholder() -> Seq<char> {
    "No Error"@
}

/// The text in the channel after one operation: the operation's report where
/// it failed, else the text that was there.
pub open spec fn record(current: Seq<char>, report: Option<Seq<char>>) -> Seq<char> {
    match report {
        Some(text) => text,
        None => current,
    }
}

/// The text in the channel after a run of operations, oldest first.
pub open spec fn replay(start: Seq<char>, reports: Seq<Option<Seq<char>>>) -> Seq<char>
    decreases reports.len(),
{
    if reports.len() == 0 {
        start
    } else {
        record(replay(start, reports.drop_last()), reports.last())
    }
}

impl ErrorChannel {
    /// A channel that holds the placeholder.
    pub fn new() -> (channel: Self)
        ensures
            channel@ == placeholder(),
    {
        ErrorChannel { message: "No Error".to_owned() }
    }
}

/// Overwrites the channel with the description of a failure.
pub fn set_last_error(channel: &mut ErrorChannel, err: String)
    ensures
        final(channel)@ == err@,
{
    channel.message = err;
}

/// A copy of the text in the channel, for the host to keep.
pub fn get_last_error(channel: &ErrorChannel) -> (text: String)
    ensures
        text@ == channel@,
{
    channel.message.clone()
}

/// While no operation fails, the channel keeps the text it started with: a
/// new channel reads as the placeholder until the first failure.
pub proof fn lemma_untouched_without_failure(start: Seq<char>, reports: Seq<Option<Seq<char>>>)
    requires
        forall|i: int| 0 <= i < reports.len() ==> reports[i] is None,
    ensures
        replay(start, reports) == start,
    decreases reports.len(),
{
    if reports.len() > 0 {
        lemma_untouched_without_failure(start, reports.drop_last());
    }
}

/// The channel holds the text of the most recent failure, whatever failed
/// or succeeded before it and whatever succeeded after it.
pub proof fn lemma_last_writer_wins(
    start: Seq<char>,
    reports: Seq<Option<Seq<char>>>,
    last_failure: int,
)
    requires
        0 <= last_failure < reports.len(),
        reports[last_failure] is Some,
        forall|i: int| last_failure < i < reports.len() ==> reports[i] is None,
    ensures
        replay(start, reports) == reports[last_failure]->0,
    decreases reports.len(),
{
    if last_failure < reports.len() - 1 {
        lemma_last_writer_wins(start, reports.drop_last(), last_failure);
    }
}

} // verus!
