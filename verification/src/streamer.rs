//! The log streamer: one decision for each read of the child's output.

use vstd::prelude::*;
use crate::launcher::{texts, LauncherError};

verus! {

/// What one read of the child's standard output gave.
#[derive(Debug)]
pub enum LineRead {
    /// One line of text, without its terminator.
    Line(String),
    /// The end of the stream: the child closed its output.
    Closed,
    /// The read failed for good.
    Failed,
}

/// What the streamer does after a read.
#[derive(Debug)]
pub enum StreamAction {
    /// Hand the line to the consumer, then read again.
    Forward(String),
    /// The stream is over: the streamer ends.
    Finish,
    /// The stream is broken: report the error, and the streamer ends.
    Fail(LauncherError),
}

/// The action that answers a read.
pub open spec fn stream_action(read: LineRead) -> StreamAction {
    match read {
        LineRead::Line(line) => StreamAction::Forward(line),
        LineRead::Closed => StreamAction::Finish,
        LineRead::Failed => StreamAction::Fail(LauncherError::Io),
    }
}

/// What the consumer has received once the streamer has worked through
/// `reads`: each forwarded line in its turn, and nothing after the streamer
/// has ended.
pub open spec fn delivered(reads: Seq<LineRead>) -> Seq<Seq<char>>
    decreases reads.len(),
{
    if reads.len() == 0 {
        seq![]
    } else {
        match stream_action(reads[0]) {
            StreamAction::Forward(line) => seq![line@] + delivered(reads.drop_first()),
            _ => seq![],
        }
    }
}

/// The reads that give these lines, one read a line.
pub open spec fn line_reads(lines: Seq<String>) -> Seq<LineRead> {
    lines.map_values(|line: String| LineRead::Line(line))
}

/// Decides one step of the streamer: a line is forwarded as it is, the end of
/// the stream ends the streamer, a failed read ends it with `Io`.
pub fn stream_step(read: LineRead) -> (action: StreamAction)
    ensures
        action == stream_action(read),
{
    match read {
        LineRead::Line(line) => StreamAction::Forward(line),
        LineRead::Closed => StreamAction::Finish,
        LineRead::Failed => StreamAction::Fail(LauncherError::Io),
    }
}

/// Whatever lines the child writes before its output closes or breaks, the
/// consumer receives exactly those lines, in the order written, none lost
/// and none twice; what is read after the end adds nothing.
pub proof fn lemma_lines_delivered_in_order(lines: Seq<String>, rest: Seq<LineRead>)
    requires
        rest.len() > 0 ==> !(rest[0] is Line),
    ensures
        delivered(line_reads(lines) + rest) == texts(lines),
    decreases lines.len(),
{
    let reads = line_reads(lines) + rest;
    if lines.len() > 0 {
        assert(reads.drop_first() =~= line_reads(lines.drop_first()) + rest);
        lemma_lines_delivered_in_order(lines.drop_first(), rest);
    }
}

} // verus!
