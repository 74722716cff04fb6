//! What the daemon does with each text it reads from the clipboard.

use vstd::prelude::*;
use crate::history::utf8_len;

verus! {

/// The largest text, in bytes of UTF-8, that the daemon records.
pub const MAX_ENTRY_BYTES: usize = 128 * 1024;

/// What became of a text read from the clipboard.
#[derive(Clone, Copy, Debug, PartialEq, Eq, Structural)]
pub enum MonitorOutcome {
    /// The same text as last time: nothing to do.
    Unchanged,
    /// A new text that the daemon put there itself (a paste from the
    /// popup): remembered, not recorded.
    SkippedOwnPaste,
    /// A new text to record in the history.
    Record,
    /// A new text larger than `MAX_ENTRY_BYTES`: remembered, not recorded.
    TooLarge,
    /// A new, empty text: neither remembered nor recorded.
    Empty,
}

/// What becomes of `content`, read from the clipboard, when `last` was the
/// text remembered before and `skip` says whether the daemon itself has just
/// set the clipboard.
pub open spec fn outcome(last: Option<Seq<char>>, content: Seq<char>, skip: bool) -> MonitorOutcome {
    if last == Some(content) {
        MonitorOutcome::Unchanged
    } else if skip {
        MonitorOutcome::SkippedOwnPaste
    } else if utf8_len(content) <= MAX_ENTRY_BYTES && content.len() > 0 {
        MonitorOutcome::Record
    } else if utf8_len(content) > MAX_ENTRY_BYTES {
        MonitorOutcome::TooLarge
    } else {
        MonitorOutcome::Empty
    }
}

/// The text remembered after `content` was read.
pub open spec fn remembered(last: Option<Seq<char>>, content: Seq<char>, skip: bool) -> Option<Seq<char>> {
    match outcome(last, content, skip) {
        MonitorOutcome::Unchanged | MonitorOutcome::Empty => last,
        _ => Some(content),
    }
}

/// The daemon's memory of the clipboard: the last text it saw there.
pub struct ClipboardMonitor {
    last_content: Option<String>,
}

impl View for ClipboardMonitor {
    type V = Option<Seq<char>>;

    closed spec fn view(&self) -> Option<Seq<char>> {
        match self.last_content {
            Some(s) => Some(s@),
            None => None,
        }
    }
}

impl ClipboardMonitor {
    /// A monitor that has seen nothing yet.
    pub fn new() -> (m: ClipboardMonitor)
        ensures
            m@ == None::<Seq<char>>,
    {
        ClipboardMonitor { last_content: None }
    }

    /// Whether `content` differs from the last text seen; only then does the
    /// daemon look at whether it set the clipboard itself.
    pub fn is_new(&self, content: &String) -> (b: bool)
        ensures
            b == (self@ != Some(content@)),
    {
        match &self.last_content {
            Some(last) => !(*last == *content),
            None => true,
        }
    }

    /// Takes in `content`, read from the clipboard; `skip` says whether the
    /// daemon itself has just set the clipboard.
    pub fn observe(&mut self, content: &String, skip: bool) -> (r: MonitorOutcome)
        ensures
            r == outcome(old(self)@, content@, skip),
            final(self)@ == remembered(old(self)@, content@, skip),
    {
        if !self.is_new(content) {
            return MonitorOutcome::Unchanged;
        }
        if skip {
            self.last_content = Some(content.clone());
            return MonitorOutcome::SkippedOwnPaste;
        }
        let size = content.as_str().len();
        let fits = size <= MAX_ENTRY_BYTES;
        if fits && !content.as_str().is_empty() {
            self.last_content = Some(content.clone());
            MonitorOutcome::Record
        } else if !fits {
            self.last_content = Some(content.clone());
            MonitorOutcome::TooLarge
        } else {
            MonitorOutcome::Empty
        }
    }
}

/// A text that was just recorded is not recorded again while it stays on
/// the clipboard, whatever `skip` says then.
pub proof fn recorded_once(last: Option<Seq<char>>, content: Seq<char>, skip: bool, again: bool)
    requires
        outcome(last, content, skip) == MonitorOutcome::Record,
    ensures
        outcome(remembered(last, content, skip), content, again) == MonitorOutcome::Unchanged,
{
}

/// The daemon's own paste is never recorded: once skipped, the same text
/// stays unrecorded while it stays on the clipboard.
pub proof fn own_paste_never_recorded(last: Option<Seq<char>>, content: Seq<char>, again: bool)
    requires
        outcome(last, content, true) == MonitorOutcome::SkippedOwnPaste,
    ensures
        outcome(remembered(last, content, true), content, again) == MonitorOutcome::Unchanged,
{
}

/// Only a non-empty text of at most `MAX_ENTRY_BYTES` bytes is recorded.
pub proof fn recorded_text_fits(last: Option<Seq<char>>, content: Seq<char>, skip: bool)
    requires
        outcome(last, content, skip) == MonitorOutcome::Record,
    ensures
        content.len() > 0,
        utf8_len(content) <= MAX_ENTRY_BYTES,
        !skip,
        last != Some(content),
{
}

/// Which outcome a text read from the clipboard has, in terms of the text
/// alone: the same text as last time changes nothing; a new one is skipped
/// when the daemon set it itself; otherwise it is recorded exactly when it
/// is non-empty and its UTF-8 encoding takes at most `MAX_ENTRY_BYTES`
/// bytes, refused as too large exactly when it takes more, and ignored
/// when it is empty.
pub proof fn outcome_by_size(last: Option<Seq<char>>, content: Seq<char>, skip: bool)
    ensures
        last == Some(content) <==> outcome(last, content, skip) == MonitorOutcome::Unchanged,
        last != Some(content) && skip <==> outcome(last, content, skip)
            == MonitorOutcome::SkippedOwnPaste,
        last != Some(content) && !skip && content.len() > 0 && utf8_len(content) <= MAX_ENTRY_BYTES
            <==> outcome(last, content, skip) == MonitorOutcome::Record,
        last != Some(content) && !skip && utf8_len(content) > MAX_ENTRY_BYTES <==> outcome(
            last,
            content,
            skip,
        ) == MonitorOutcome::TooLarge,
        last != Some(content) && !skip && content.len() == 0 <==> outcome(last, content, skip)
            == MonitorOutcome::Empty,
{
    if content.len() == 0 {
        assert(vstd::utf8::encode_utf8(content) =~= Seq::<u8>::empty());
    }
}

} // verus!
