use vstd::prelude::*;

verus! {

/// Pause before reading again once the end of the file is reached, in milliseconds.
pub const IDLE_WAIT_MS: u64 = 500;

/// The result of one attempt to read a line from the log.
pub enum ReadOutcome {
    /// A line was read; `bytes` is how many bytes it took.
    Line { text: String, bytes: u64 },
    /// Nothing new yet.
    EndOfFile,
    /// The read failed, for instance because the file is gone.
    Failed,
}

/// What the tailer does next.
#[derive(Debug, PartialEq)]
pub enum TailAction {
    /// Hand the line to the subscriber.
    Deliver(String),
    /// Wait this many milliseconds, then read again.
    Wait(u64),
    /// Stop tailing.
    Stop,
}

/// A position in an append-only log. It starts at the end of the file and
/// only moves forward.
pub struct LogCursor {
    offset: u64,
    stopped: bool,
}

pub open spec fn advanced(offset: u64, bytes: u64) -> u64 {
    if offset + bytes <= u64::MAX {
        (offset + bytes) as u64
    } else {
        u64::MAX
    }
}

impl LogCursor {
    pub closed spec fn offset_view(&self) -> u64 {
        self.offset
    }

    pub closed spec fn stopped_view(&self) -> bool {
        self.stopped
    }

    /// A cursor at the end of a file of `file_len` bytes, so that only lines
    /// written from now on are delivered.
    pub fn at_end(file_len: u64) -> (r: LogCursor)
        ensures
            r.offset_view() == file_len,
            !r.stopped_view(),
    {
        LogCursor { offset: file_len, stopped: false }
    }

    pub fn offset(&self) -> (r: u64)
        ensures
            r == self.offset_view(),
    {
        self.offset
    }

    pub fn is_stopped(&self) -> (r: bool)
        ensures
            r == self.stopped_view(),
    {
        self.stopped
    }

    /// Takes in one read and says what to do: deliver a line, wait, or stop.
    /// Once stopped, the cursor stays stopped.
    pub fn on_read(&mut self, outcome: ReadOutcome) -> (act: TailAction)
        ensures
            final(self).offset_view() >= old(self).offset_view(),
            old(self).stopped_view() ==> act is Stop && *final(self) == *old(self),
            !old(self).stopped_view() ==> match outcome {
                ReadOutcome::Line { text, bytes } => act == TailAction::Deliver(text)
                    && final(self).offset_view() == advanced(old(self).offset_view(), bytes)
                    && !final(self).stopped_view(),
                ReadOutcome::EndOfFile => act == TailAction::Wait(IDLE_WAIT_MS) && *final(self)
                    == *old(self),
                ReadOutcome::Failed => act is Stop && final(self).stopped_view()
                    && final(self).offset_view() == old(self).offset_view(),
            },
    {
        if self.stopped {
            return TailAction::Stop;
        }
        match outcome {
            ReadOutcome::Line { text, bytes } => {
                self.offset = if bytes <= u64::MAX - self.offset {
                    self.offset + bytes
                } else {
                    u64::MAX
                };
                TailAction::Deliver(text)
            },
            ReadOutcome::EndOfFile => TailAction::Wait(IDLE_WAIT_MS),
            ReadOutcome::Failed => {
                self.stopped = true;
                TailAction::Stop
            },
        }
    }
}

} // verus!
