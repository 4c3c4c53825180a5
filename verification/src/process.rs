use crate::error::{Cause, StepError};
use vstd::prelude::*;
use vstd::string::StringExecFns;

verus! {

/// The two streams that a child writes to.
#[derive(Debug, Clone, Copy, PartialEq, Eq, Structural)]
pub enum Channel {
    /// Standard output.
    Stdout,
    /// Standard error.
    Stderr,
}

/// The mark of a channel in a line that is passed on.
pub open spec fn channel_tag(channel: Channel) -> Seq<char> {
    match channel {
        Channel::Stdout => "out"@,
        Channel::Stderr => "err"@,
    }
}

/// A line of a child as it is passed on: the source and the channel in
/// square brackets, a space, and the line as it came.
pub open spec fn streamed(source: Seq<char>, channel: Channel, line: Seq<char>) -> Seq<char> {
    "["@ + source + "]["@ + channel_tag(channel) + "] "@ + line
}

/// A line of standard output never reads like one of standard error of
/// the same source, whatever the two lines hold.
pub proof fn lemma_channels_differ(source: Seq<char>, a: Seq<char>, b: Seq<char>)
    ensures
        streamed(source, Channel::Stdout, a) != streamed(source, Channel::Stderr, b),
{
    reveal_strlit("[");
    reveal_strlit("][");
    reveal_strlit("out");
    reveal_strlit("err");
    reveal_strlit("] ");
    let at: int = source.len() as int + 3;
    assert(streamed(source, Channel::Stdout, a)[at] == 'o');
    assert(streamed(source, Channel::Stderr, b)[at] == 'e');
}

/// Marks a line that a child wrote with where it came from.
pub fn stream_line(source: &str, channel: Channel, line: &str) -> (out: String)
    ensures
        out@ == streamed(source@, channel, line@),
{
    let mut out = String::from_str("[");
    out.append(source);
    out.append("][");
    match channel {
        Channel::Stdout => out.append("out"),
        Channel::Stderr => out.append("err"),
    }
    out.append("] ");
    out.append(line);
    out
}

/// One stream of a child as it is passed on, line by line.
pub struct LineStream {
    source: String,
    channel: Channel,
    taken: Ghost<Seq<Seq<char>>>,
}

impl LineStream {
    /// What the lines are marked with.
    pub closed spec fn source(&self) -> Seq<char> {
        self.source@
    }

    /// The stream that the lines come from.
    pub closed spec fn channel(&self) -> Channel {
        self.channel
    }

    /// The lines that were taken so far, in the order in which they came.
    pub closed spec fn taken(&self) -> Seq<Seq<char>> {
        self.taken@
    }

    /// The lines that were given out so far: each line that was taken,
    /// marked, in the order in which it came.
    pub open spec fn shown(&self) -> Seq<Seq<char>> {
        self.taken().map_values(|line: Seq<char>| streamed(self.source(), self.channel(), line))
    }

    /// A stream of which no line was taken.
    pub fn new(source: &str, channel: Channel) -> (stream: Self)
        ensures
            stream.source() == source@,
            stream.channel() == channel,
            stream.taken() == Seq::<Seq<char>>::empty(),
    {
        LineStream { source: String::from_str(source), channel, taken: Ghost(Seq::empty()) }
    }

    /// Takes the next line of the stream and gives it out marked. What was
    /// given out before stays as it is and in its order, and the new line
    /// comes last: no line is lost, doubled or moved.
    pub fn pass(&mut self, line: &str) -> (out: String)
        ensures
            out@ == streamed(old(self).source(), old(self).channel(), line@),
            final(self).source() == old(self).source(),
            final(self).channel() == old(self).channel(),
            final(self).taken() == old(self).taken().push(line@),
            final(self).shown() == old(self).shown().push(out@),
    {
        let out = stream_line(self.source.as_str(), self.channel, line);
        self.taken = Ghost(self.taken@.push(line@));
        proof {
            assert(self.shown() =~= old(self).shown().push(out@));
        }
        out
    }
}

/// How the attempt to run a child ended.
#[derive(Debug)]
pub enum ChildEvent {
    /// The child could not be started.
    SpawnFailed { detail: String },
    /// The child ran, but its end could not be awaited.
    WaitFailed { detail: String },
    /// The child ended, after both of its streams were read to their end:
    /// with this exit code, where it has one, and this status in words.
    Exited { code: Option<i32>, status: String },
}

/// Whether the child ended with exit code zero.
pub open spec fn succeeded(event: ChildEvent) -> bool {
    event matches ChildEvent::Exited { code: Some(c), .. } && c == 0
}

/// What is said of a child that could not be started.
pub open spec fn spawn_text(source: Seq<char>, detail: Seq<char>) -> Seq<char> {
    source + " spawn: "@ + detail
}

/// The outcome of step `idx` whose child, marked `source`, ended with
/// `event`: success for exit code zero and a failure for anything else.
pub fn child_outcome(idx: usize, source: &str, event: ChildEvent) -> (outcome: Result<
    (),
    StepError,
>)
    ensures
        succeeded(event) <==> outcome is Ok,
        outcome matches Err(e) ==> e.step == idx && match event {
            ChildEvent::SpawnFailed { detail } => e.cause matches Cause::Spawn { detail: said }
                && said@ == spawn_text(source@, detail@),
            ChildEvent::WaitFailed { detail } => e.cause matches Cause::Io { detail: said } && said@
                == detail@,
            ChildEvent::Exited { code, status } => e.cause matches Cause::Exit {
                code: ended,
                status: said,
            } && ended == code && said@ == status@,
        },
{
    match event {
        ChildEvent::SpawnFailed { detail } => {
            let mut said = String::from_str(source);
            said.append(" spawn: ");
            said.append(detail.as_str());
            Err(StepError { step: idx, cause: Cause::Spawn { detail: said } })
        },
        ChildEvent::WaitFailed { detail } => Err(
            StepError { step: idx, cause: Cause::Io { detail } },
        ),
        ChildEvent::Exited { code, status } => {
            match code {
                Some(0) => Ok(()),
                _ => Err(StepError { step: idx, cause: Cause::Exit { code, status } }),
            }
        },
    }
}

} // verus!
