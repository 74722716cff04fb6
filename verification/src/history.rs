//! The clipboard history: the entries kept, most recent first.

use vstd::prelude::*;
use crate::time::{utc_text, Timestamp};
use crate::text::{decimal, preview_text, push_decimal, truncate_preview};
use vstd::string::StringExecFns;
use crate::pid::{all_digits, digits_value, lemma_decimal_digits};

verus! {

/// How many entries the daemon keeps.
pub const MAX_HISTORY_SIZE: usize = 10;

/// How many characters of an entry the listing shows.
pub const LIST_PREVIEW_CHARS: usize = 60;

/// What an entry is, to a contract: its text and when it was copied.
pub type EntryView = (Seq<char>, (i64, u32));

/// One piece of copied text and when it was copied.
#[derive(Clone, Debug)]
pub struct ClipboardEntry {
    pub content: String,
    pub timestamp: Timestamp,
}

impl View for ClipboardEntry {
    type V = EntryView;

    open spec fn view(&self) -> EntryView {
        (self.content@, self.timestamp@)
    }
}

/// The entries that the history holds after `content`, copied at `time`, is
/// added to `h` with room for `max_size` entries: unchanged where the most
/// recent entry already holds that text; else the new entry in front of the
/// others, and only the first `max_size` of them kept.
pub open spec fn add_entry(h: Seq<EntryView>, content: Seq<char>, time: (i64, u32), max_size: nat) -> Seq<
    EntryView,
> {
    if h.len() > 0 && h[0].0 == content {
        h
    } else {
        let all = seq![(content, time)] + h;
        if all.len() > max_size {
            all.take(max_size as int)
        } else {
            all
        }
    }
}

/// Whether no two neighbouring entries of `h` hold the same text.
pub open spec fn no_adjacent_duplicates(h: Seq<EntryView>) -> bool {
    forall|i: int| 0 <= i < h.len() - 1 ==> #[trigger] h[i].0 != h[i + 1].0
}

/// The clipboard history, most recent entry first.
#[derive(Debug)]
pub struct ClipboardHistory {
    entries: Vec<ClipboardEntry>,
}

impl View for ClipboardHistory {
    type V = Seq<EntryView>;

    closed spec fn view(&self) -> Seq<EntryView> {
        self.entries@.map_values(|e: ClipboardEntry| e@)
    }
}

impl Default for ClipboardHistory {
    fn default() -> (h: ClipboardHistory)
        ensures
            h@ == Seq::<EntryView>::empty(),
    {
        let h = ClipboardHistory { entries: Vec::new() };
        assert(h@ =~= Seq::<EntryView>::empty());
        h
    }
}

impl ClipboardHistory {
    /// A history that holds `entries`, in that order.
    pub fn from_entries(entries: Vec<ClipboardEntry>) -> (h: ClipboardHistory)
        ensures
            h@ == entries@.map_values(|e: ClipboardEntry| e@),
    {
        ClipboardHistory { entries }
    }

    /// Adds `content`, copied at `time`, as the most recent entry, unless
    /// the most recent entry already holds that text; then keeps only the
    /// first `max_size` entries.
    pub fn add_at(&mut self, content: String, time: Timestamp, max_size: usize)
        ensures
            final(self)@ == add_entry(old(self)@, content@, time@, max_size as nat),
    {
        if self.entries.len() > 0 {
            if self.entries[0].content == content {
                return;
            }
        }
        let ghost before = self.entries@;
        let entry = ClipboardEntry { content, timestamp: time };
        self.entries.insert(0, entry);
        assert(self.entries@.map_values(|e: ClipboardEntry| e@) =~= seq![entry@]
            + before.map_values(|e: ClipboardEntry| e@));
        self.entries.truncate(max_size);
        assert(self@ =~= add_entry(old(self)@, content@, time@, max_size as nat));
    }

    /// Adds `content`, copied now, as `add_at` does; the clock is read only
    /// where the entry is added. Which instant it is stamped with is not
    /// known in advance.
    pub fn add(&mut self, content: String, max_size: usize)
        ensures
            exists|t: (i64, u32)|
                t.1 < 1_000_000_000 && final(self)@ == add_entry(old(self)@, content@, t, max_size as nat),
    {
        if self.entries.len() > 0 {
            if self.entries[0].content == content {
                assert(self@[0].0 == content@);
                assert(self@ == add_entry(old(self)@, content@, (0i64, 0u32), max_size as nat));
                return;
            }
        }
        let time = Timestamp::now();
        self.add_at(content, time, max_size);
    }

    /// All entries, most recent first.
    pub fn entries(&self) -> (r: &[ClipboardEntry])
        ensures
            r@.map_values(|e: ClipboardEntry| e@) == self@,
    {
        self.entries.as_slice()
    }

    /// The entry at `index` (0 is the most recent), where there is one.
    pub fn get(&self, index: usize) -> (r: Option<&ClipboardEntry>)
        ensures
            match r {
                Some(e) => index < self@.len() && e@ == self@[index as int],
                None => index >= self@.len(),
            },
    {
        if index < self.entries.len() {
            Some(&self.entries[index])
        } else {
            None
        }
    }

    /// Removes every entry.
    pub fn clear(&mut self)
        ensures
            final(self)@ == Seq::<EntryView>::empty(),
    {
        self.entries.clear();
        assert(self@ =~= Seq::<EntryView>::empty());
    }

    /// How many entries there are.
    pub fn len(&self) -> (n: usize)
        ensures
            n == self@.len(),
    {
        self.entries.len()
    }

    /// Whether there is no entry.
    pub fn is_empty(&self) -> (b: bool)
        ensures
            b == (self@.len() == 0),
    {
        self.entries.len() == 0
    }
}

// ---------------------------------------------------------------------------
// Laws of `add`.

/// Adding to a history that holds at most `max_size` entries leaves at most
/// `max_size` entries.
pub proof fn add_keeps_size_bound(h: Seq<EntryView>, content: Seq<char>, time: (i64, u32), max_size: nat)
    requires
        h.len() <= max_size,
    ensures
        add_entry(h, content, time, max_size).len() <= max_size,
{
}

/// With room for at least one entry, the text just added is the most
/// recent entry.
pub proof fn add_puts_content_first(h: Seq<EntryView>, content: Seq<char>, time: (i64, u32), max_size: nat)
    requires
        max_size > 0,
    ensures
        add_entry(h, content, time, max_size).len() > 0,
        add_entry(h, content, time, max_size)[0].0 == content,
{
}

/// Adding the same text twice in a row is adding it once: the second copy
/// changes nothing, whenever it comes.
pub proof fn add_twice_is_add_once(
    h: Seq<EntryView>,
    content: Seq<char>,
    first: (i64, u32),
    second: (i64, u32),
    max_size: nat,
)
    requires
        max_size > 0,
    ensures
        add_entry(add_entry(h, content, first, max_size), content, second, max_size) == add_entry(
            h,
            content,
            first,
            max_size,
        ),
{
}

/// The entries that were there keep their order behind the new one: the
/// entry at `i` after an add is the one that was at `i - 1`, where the add
/// put a new entry in front, or the one at `i`, where it changed nothing.
pub proof fn add_keeps_older_entries(
    h: Seq<EntryView>,
    content: Seq<char>,
    time: (i64, u32),
    max_size: nat,
    i: int,
)
    requires
        0 <= i < add_entry(h, content, time, max_size).len(),
    ensures
        h.len() > 0 && h[0].0 == content ==> add_entry(h, content, time, max_size)[i] == h[i],
        !(h.len() > 0 && h[0].0 == content) ==> {
            &&& i == 0 ==> add_entry(h, content, time, max_size)[i] == (content, time)
            &&& i > 0 ==> add_entry(h, content, time, max_size)[i] == h[i - 1]
        },
{
}

/// A history in which no two neighbouring entries hold the same text keeps
/// that property through an add.
pub proof fn add_keeps_no_adjacent_duplicates(
    h: Seq<EntryView>,
    content: Seq<char>,
    time: (i64, u32),
    max_size: nat,
)
    requires
        no_adjacent_duplicates(h),
    ensures
        no_adjacent_duplicates(add_entry(h, content, time, max_size)),
{
    let r = add_entry(h, content, time, max_size);
    if !(h.len() > 0 && h[0].0 == content) {
        assert forall|i: int| 0 <= i < r.len() - 1 implies #[trigger] r[i].0 != r[i + 1].0 by {
            if i > 0 {
                assert(r[i] == h[i - 1]);
                assert(r[i + 1] == h[i]);
                assert(h[i - 1].0 != h[(i - 1) + 1].0);
            }
        }
    }
}

// ---------------------------------------------------------------------------
// The command-line listing.

/// How many bytes the UTF-8 encoding of `s` takes, as `str::len` reports
/// it (a `usize`: the text lies in memory).
pub open spec fn utf8_len(s: Seq<char>) -> nat {
    (vstd::utf8::encode_utf8(s).len() as usize) as nat
}

/// One line of the listing: `[index] time (size bytes) - preview`.
pub open spec fn list_line_text(index: nat, time: Seq<char>, content: Seq<char>) -> Seq<char> {
    seq!['['] + decimal(index) + seq![']', ' '] + time + seq![' ', '('] + decimal(utf8_len(content))
        + " bytes) - "@ + preview_text(content, LIST_PREVIEW_CHARS as nat)
}

/// The line of the listing for the entry at `index` copied at the time
/// shown as `time`, holding `content`.
pub fn format_list_line(index: usize, time: &str, content: &str) -> (r: String)
    ensures
        r@ == list_line_text(index as nat, time@, content@),
{
    let mut r = String::new();
    r.push('[');
    push_decimal(&mut r, index as u64);
    r.push(']');
    r.push(' ');
    r.append(time);
    r.push(' ');
    r.push('(');
    let size = content.len();
    assert(size == utf8_len(content@));
    push_decimal(&mut r, size as u64);
    r.append(" bytes) - ");
    let preview = truncate_preview(content, LIST_PREVIEW_CHARS);
    r.append(preview.as_str());
    assert(r@ =~= list_line_text(index as nat, time@, content@));
    r
}

/// A line of the listing reads back as the index, the time, the size of
/// the entry in bytes of UTF-8 and its preview: the numbers in it are
/// digits whose value is the index and the byte length of the content.
pub proof fn list_line_reads_back(index: nat, time: Seq<char>, content: Seq<char>)
    ensures
        exists|a: Seq<char>, b: Seq<char>|
            {
                &&& a.len() > 0 && all_digits(a) && digits_value(a) == index
                &&& b.len() > 0 && all_digits(b) && digits_value(b) == utf8_len(content)
                &&& list_line_text(index, time, content) == seq!['['] + a + seq![']', ' '] + time + seq![
                    ' ',
                    '(',
                ] + b + " bytes) - "@ + preview_text(content, LIST_PREVIEW_CHARS as nat)
            },
{
    let a = decimal(index);
    let b = decimal(utf8_len(content));
    lemma_decimal_digits(index);
    lemma_decimal_digits(utf8_len(content));
    assert(list_line_text(index, time, content) == seq!['['] + a + seq![']', ' '] + time + seq![
        ' ',
        '(',
    ] + b + " bytes) - "@ + preview_text(content, LIST_PREVIEW_CHARS as nat));
}

/// The text that `chrono` shows for the time of `e`.
pub open spec fn entry_time_text(e: EntryView) -> Seq<char> {
    utc_text(e.1.0, e.1.1).unwrap()
}

/// The line of the listing for `entry` at `index`.
pub fn list_line(index: usize, entry: &ClipboardEntry) -> (r: String)
    ensures
        r@ == list_line_text(index as nat, entry_time_text(entry@), entry.content@),
{
    let time = entry.timestamp.text();
    format_list_line(index, time.as_str(), entry.content.as_str())
}

impl ClipboardHistory {
    /// The lines of the listing: one for each of the first `count` entries
    /// (all of them where `count` is `None` or larger than the history).
    pub fn list_lines(&self, count: Option<usize>) -> (lines: Vec<String>)
        ensures
            lines.len() == match count {
                Some(c) => if c < self@.len() { c as nat } else { self@.len() },
                None => self@.len(),
            },
            forall|i: int|
                0 <= i < lines.len() ==> #[trigger] lines[i]@ == list_line_text(
                    i as nat,
                    entry_time_text(self@[i]),
                    self@[i].0,
                ),
    {
        let total = self.entries.len();
        let n = match count {
            Some(c) => if c < total { c } else { total },
            None => total,
        };
        let mut lines: Vec<String> = Vec::new();
        for i in 0..n
            invariant
                n <= total,
                total == self@.len(),
                total == self.entries@.len(),
                self@ == self.entries@.map_values(|e: ClipboardEntry| e@),
                lines.len() == i,
                forall|j: int|
                    0 <= j < i ==> #[trigger] lines[j]@ == list_line_text(
                        j as nat,
                        entry_time_text(self@[j]),
                        self@[j].0,
                    ),
        {
            let line = list_line(i, &self.entries[i]);
            lines.push(line);
        }
        lines
    }
}

} // verus!
