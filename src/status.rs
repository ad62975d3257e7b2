use vstd::prelude::*;

use crate::escalation::ExitInfo;
use crate::geometry::Rect;

verus! {

/// Remembers where the status line was last drawn, so that the next one can
/// erase it first.
pub struct StatusLine {
    last: Option<Rect>,
}

impl View for StatusLine {
    type V = Option<Rect>;

    closed spec fn view(&self) -> Option<Rect> {
        self.last
    }
}

impl StatusLine {
    /// Nothing drawn yet.
    pub fn new() -> (r: StatusLine)
        ensures
            r@ == None::<Rect>,
    {
        StatusLine { last: None }
    }

    /// The area to clear before drawing a new status line.
    pub fn area_to_clear(&self) -> (r: Option<Rect>)
        ensures
            r == self@,
    {
        self.last
    }

    /// Records the area that the newest status line covers.
    pub fn record(&mut self, drawn: Rect)
        ensures
            final(self)@ == Some(drawn),
    {
        self.last = Some(drawn);
    }
}

/// How an exit status is to be reported.
#[derive(Clone, Copy, Debug, PartialEq, Eq, Structural)]
pub enum ExitReport {
    /// Exit code 0.
    Success,
    /// Another exit code.
    Code { code: i32 },
    /// No exit code was reported; worth a warning, not a failure.
    Unknown,
}

/// Classifies an exit status for the log.
pub fn exit_report(status: &ExitInfo) -> (r: ExitReport)
    ensures
        r == match status.code {
            Some(c) => if c == 0 { ExitReport::Success } else { ExitReport::Code { code: c } },
            None => ExitReport::Unknown,
        },
{
    if status.success() {
        ExitReport::Success
    } else {
        match status.code {
            Some(c) => ExitReport::Code { code: c },
            None => ExitReport::Unknown,
        }
    }
}

} // verus!
