//! The popup that lists the most recent entries and pastes the one picked,
//! by its number key or by a click.

use vstd::prelude::*;
use crate::history::{ClipboardEntry, ClipboardHistory, EntryView};
use crate::text::{decimal, display_text, push_decimal, shorten};
use vstd::string::StringExecFns;
use crate::pid::{all_digits, digits_value, lemma_decimal_digits};

verus! {

/// How many entries the popup of the daemon shows: one per number key.
pub const POPUP_ENTRIES: usize = 10;

/// How many characters of an entry the popup shows.
pub const POPUP_PREVIEW_CHARS: usize = 70;

/// The number shown beside the entry at `i`, which is also the number key
/// that picks it: 1 to 9 for the first nine, 0 for the tenth.
pub open spec fn display_number(i: nat) -> nat {
    if i == 9 {
        0
    } else {
        i + 1
    }
}

/// The number shown beside the entry at `i`.
pub fn display_number_of(i: usize) -> (n: usize)
    requires
        i < usize::MAX,
    ensures
        n == display_number(i as nat),
{
    if i == 9 {
        0
    } else {
        i + 1
    }
}

/// The label of the entry at `i`: `[number] preview`.
pub open spec fn entry_label_text(i: nat, content: Seq<char>) -> Seq<char> {
    seq!['['] + decimal(display_number(i)) + seq![']', ' '] + display_text(
        content,
        POPUP_PREVIEW_CHARS as nat,
    )
}

/// The label of the entry at `i` holding `content`.
pub fn entry_label(i: usize, content: &str) -> (r: String)
    requires
        i < usize::MAX,
    ensures
        r@ == entry_label_text(i as nat, content@),
{
    let mut r = String::new();
    r.push('[');
    push_decimal(&mut r, display_number_of(i) as u64);
    r.push(']');
    r.push(' ');
    let preview = shorten(content, POPUP_PREVIEW_CHARS, true);
    r.append(preview.as_str());
    r
}

/// The entry that the number keys `pressed` (indexed by digit) pick among
/// `count` entries, looking at the first `upto` entries: the last of them,
/// in the order 1 to 9 then 0, whose key is down, as each such key
/// overrides the one before.
pub open spec fn key_pick(pressed: Seq<bool>, count: nat, upto: nat) -> Option<usize>
    decreases upto,
{
    if upto == 0 {
        None
    } else {
        let i = (upto - 1) as nat;
        if i < count && pressed[display_number(i) as int] {
            Some(i as usize)
        } else {
            key_pick(pressed, count, i)
        }
    }
}

/// The entry that the number keys `digits` (indexed by digit) pick among
/// `count` entries, where one does.
pub fn select_by_keys(digits: &[bool; 10], count: usize) -> (r: Option<usize>)
    ensures
        r == key_pick(digits@, count as nat, POPUP_ENTRIES as nat),
{
    let mut r: Option<usize> = None;
    let mut i: usize = 0;
    while i < POPUP_ENTRIES
        invariant
            i <= POPUP_ENTRIES,
            r == key_pick(digits@, count as nat, i as nat),
        decreases POPUP_ENTRIES - i,
    {
        let key = display_number_of(i);
        if i < count && digits[key] {
            r = Some(i);
        }
        i = i + 1;
    }
    r
}

/// What the user did to one entry of the popup in a frame.
#[derive(Clone, Copy, Debug)]
pub struct EntryResponse {
    pub clicked: bool,
    pub double_clicked: bool,
}

/// The entry picked by the clicks among the first `upto` responses, where
/// `sel` was picked before: the last entry clicked (or, where `double`
/// holds, double-clicked).
pub open spec fn click_pick(responses: Seq<EntryResponse>, upto: nat, sel: Option<usize>, double: bool) -> Option<
    usize,
>
    decreases upto,
{
    if upto == 0 {
        sel
    } else {
        let i = (upto - 1) as nat;
        if responses[i as int].clicked || (double && responses[i as int].double_clicked) {
            Some(i as usize)
        } else {
            click_pick(responses, i, sel, double)
        }
    }
}

fn select_by_clicks(responses: &Vec<EntryResponse>, upto: usize, sel: Option<usize>, double: bool) -> (r:
    Option<usize>)
    requires
        upto <= responses@.len(),
    ensures
        r == click_pick(responses@, upto as nat, sel, double),
{
    let mut r = sel;
    for i in 0..upto
        invariant
            upto <= responses@.len(),
            r == click_pick(responses@, i as nat, sel, double),
    {
        let resp = responses[i];
        if resp.clicked || (double && resp.double_clicked) {
            r = Some(i);
        }
    }
    r
}

/// The texts of the first `POPUP_ENTRIES` entries of `h`, most recent first.
pub open spec fn popup_texts(h: Seq<EntryView>) -> Seq<Seq<char>> {
    let n = if h.len() < POPUP_ENTRIES { h.len() } else { POPUP_ENTRIES as nat };
    Seq::new(n, |i: int| h[i].0)
}

/// The texts of the entries that the popup of the daemon shows.
pub fn popup_entries(history: &ClipboardHistory) -> (r: Vec<String>)
    ensures
        r@.map_values(|s: String| s@) == popup_texts(history@),
{
    let entries = history.entries();
    let n = if entries.len() < POPUP_ENTRIES { entries.len() } else { POPUP_ENTRIES };
    let mut r: Vec<String> = Vec::new();
    for i in 0..n
        invariant
            n <= entries@.len(),
            n == popup_texts(history@).len(),
            entries@.map_values(|e: ClipboardEntry| e@) == history@,
            r@.len() == i,
            forall|j: int| 0 <= j < i ==> #[trigger] r@[j]@ == history@[j].0,
    {
        let e: &ClipboardEntry = &entries[i];
        assert(history@[i as int] == e@);
        r.push(e.content.clone());
    }
    assert(r@.map_values(|s: String| s@) =~= popup_texts(history@));
    r
}

} // verus!

verus! {

/// The labels of `entries`, in order.
pub open spec fn labels_text(entries: Seq<Seq<char>>) -> Seq<Seq<char>> {
    Seq::new(entries.len(), |i: int| entry_label_text(i as nat, entries[i]))
}

fn labels_of(entries: &Vec<String>) -> (r: Vec<String>)
    ensures
        r@.map_values(|s: String| s@) == labels_text(entries@.map_values(|s: String| s@)),
{
    let mut r: Vec<String> = Vec::new();
    for i in 0..entries.len()
        invariant
            r@.len() == i,
            forall|j: int| 0 <= j < i ==> #[trigger] r@[j]@ == entry_label_text(j as nat, entries@[j]@),
    {
        r.push(entry_label(i, entries[i].as_str()));
    }
    assert(r@.map_values(|s: String| s@) =~= labels_text(entries@.map_values(|s: String| s@)));
    r
}

/// What the user did in one frame of the popup window.
pub struct PopupInput {
    /// Which number keys went down, indexed by digit.
    pub digits: [bool; 10],
    pub escape: bool,
    pub enter: bool,
    /// One response for each entry shown, in order.
    pub responses: Vec<EntryResponse>,
}

/// What the popup window has to do.
#[derive(Clone, Copy, Debug, PartialEq, Eq, Structural)]
pub enum PopupCommand {
    /// Put the entry at this index on the clipboard.
    Paste(usize),
    /// Close the window.
    Close,
}

/// Pasting the entry at `i` among `count`: the paste where there is such
/// an entry, and closing the window either way.
pub open spec fn paste_commands(i: nat, count: nat) -> Seq<PopupCommand> {
    if i < count {
        seq![PopupCommand::Paste(i as usize), PopupCommand::Close]
    } else {
        seq![PopupCommand::Close]
    }
}

/// The pastes that the double-clicks among the first `upto` responses ask
/// for, in order.
pub open spec fn double_click_commands(responses: Seq<EntryResponse>, upto: nat, count: nat) -> Seq<
    PopupCommand,
>
    decreases upto,
{
    if upto == 0 {
        Seq::empty()
    } else {
        let i = (upto - 1) as nat;
        double_click_commands(responses, i, count) + if responses[i as int].double_clicked {
            paste_commands(i, count)
        } else {
            Seq::empty()
        }
    }
}

/// How many responses the popup looks at: one per entry shown.
pub open spec fn responses_seen(responses: Seq<EntryResponse>, count: nat) -> nat {
    if responses.len() < count {
        responses.len()
    } else {
        count
    }
}

/// The entry selected once the number keys of `input` are taken in.
pub open spec fn popup_key_selection(count: nat, selected: Option<usize>, input_digits: Seq<bool>) -> Option<
    usize,
> {
    match key_pick(input_digits, count, POPUP_ENTRIES as nat) {
        Some(i) => Some(i),
        None => selected,
    }
}

/// What the popup window does in a frame, over `count` entries with
/// `selected` picked before: close on Escape; on Enter, paste the selection;
/// paste each entry double-clicked; and last paste the entry selected by a
/// number key or a click, if any.
pub open spec fn popup_commands(
    count: nat,
    selected: Option<usize>,
    digits: Seq<bool>,
    escape: bool,
    enter: bool,
    responses: Seq<EntryResponse>,
) -> Seq<PopupCommand> {
    let keyed = popup_key_selection(count, selected, digits);
    let seen = responses_seen(responses, count);
    let on_escape = if escape { seq![PopupCommand::Close] } else { Seq::empty() };
    let on_enter = if enter {
        match keyed {
            Some(i) => paste_commands(i as nat, count),
            None => Seq::empty(),
        }
    } else {
        Seq::empty()
    };
    let at_end = match click_pick(responses, seen, keyed, false) {
        Some(i) => paste_commands(i as nat, count),
        None => Seq::empty(),
    };
    on_escape + on_enter + double_click_commands(responses, seen, count) + at_end
}

fn push_paste(cmds: &mut Vec<PopupCommand>, i: usize, count: usize)
    ensures
        final(cmds)@ == old(cmds)@ + paste_commands(i as nat, count as nat),
{
    if i < count {
        cmds.push(PopupCommand::Paste(i));
    }
    cmds.push(PopupCommand::Close);
}

/// The popup window shown by `show_popup`: the entries and the one
/// selected.
pub struct ClipboardPopup {
    entries: Vec<String>,
    selected: Option<usize>,
}

impl View for ClipboardPopup {
    type V = (Seq<Seq<char>>, Option<usize>);

    closed spec fn view(&self) -> (Seq<Seq<char>>, Option<usize>) {
        (self.entries@.map_values(|s: String| s@), self.selected)
    }
}

impl ClipboardPopup {
    /// A popup over `entries` with nothing selected.
    pub fn new(entries: Vec<String>) -> (p: ClipboardPopup)
        ensures
            p@ == (entries@.map_values(|s: String| s@), None::<usize>),
    {
        ClipboardPopup { entries, selected: None }
    }

    /// The one-line preview of `s` that the popup shows.
    pub fn truncate_display(s: &str, max_len: usize) -> (r: String)
        ensures
            r@ == display_text(s@, max_len as nat),
    {
        shorten(s, max_len, true)
    }

    /// The labels of the entries, in order.
    pub fn labels(&self) -> (r: Vec<String>)
        ensures
            r@.map_values(|s: String| s@) == labels_text(self@.0),
    {
        labels_of(&self.entries)
    }

    /// The entry at `index`, where there is one.
    pub fn entry(&self, index: usize) -> (r: Option<&String>)
        ensures
            match r {
                Some(s) => index < self@.0.len() && s@ == self@.0[index as int],
                None => index >= self@.0.len(),
            },
    {
        if index < self.entries.len() {
            Some(&self.entries[index])
        } else {
            None
        }
    }

    /// The entry selected once the number keys `digits` (indexed by digit)
    /// of a frame are taken in; the window highlights it.
    pub fn key_selection(&self, digits: &[bool; 10]) -> (r: Option<usize>)
        ensures
            r == popup_key_selection(self@.0.len(), self@.1, digits@),
    {
        match select_by_keys(digits, self.entries.len()) {
            Some(i) => Some(i),
            None => self.selected,
        }
    }

    /// Takes in what the user did in a frame and says what the window has
    /// to do, in order; the selection is used up by the frame.
    pub fn update(&mut self, input: &PopupInput) -> (cmds: Vec<PopupCommand>)
        ensures
            cmds@ == popup_commands(
                old(self)@.0.len(),
                old(self)@.1,
                input.digits@,
                input.escape,
                input.enter,
                input.responses@,
            ),
            final(self)@ == (old(self)@.0, None::<usize>),
    {
        let count = self.entries.len();
        let mut cmds: Vec<PopupCommand> = Vec::new();
        let keyed = match select_by_keys(&input.digits, count) {
            Some(i) => Some(i),
            None => self.selected,
        };
        if input.escape {
            cmds.push(PopupCommand::Close);
        }
        if input.enter {
            if let Some(i) = keyed {
                push_paste(&mut cmds, i, count);
            }
        }
        let seen = if input.responses.len() < count { input.responses.len() } else { count };
        let ghost before_clicks = cmds@;
        for i in 0..seen
            invariant
                seen <= input.responses@.len(),
                cmds@ == before_clicks + double_click_commands(input.responses@, i as nat, count as nat),
        {
            if input.responses[i].double_clicked {
                push_paste(&mut cmds, i, count);
            }
        }
        let chosen = select_by_clicks(&input.responses, seen, keyed, false);
        if let Some(i) = chosen {
            push_paste(&mut cmds, i, count);
        }
        self.selected = None;
        assert(cmds@ =~= popup_commands(
            old(self)@.0.len(),
            old(self)@.1,
            input.digits@,
            input.escape,
            input.enter,
            input.responses@,
        ));
        cmds
    }
}

} // verus!

verus! {

/// What the hotkey did to the popup of the daemon.
#[derive(Clone, Copy, Debug, PartialEq, Eq, Structural)]
pub enum HotkeyOutcome {
    /// No hotkey, or the popup was already open.
    Ignored,
    /// The hotkey came but there was nothing to show.
    NoHistory,
    /// The popup opened over the most recent entries.
    Opened,
}

/// The popup of the daemon: whether it is open and the texts it shows.
pub struct DaemonPopup {
    popup_open: bool,
    entries: Vec<String>,
}

impl View for DaemonPopup {
    type V = (bool, Seq<Seq<char>>);

    closed spec fn view(&self) -> (bool, Seq<Seq<char>>) {
        (self.popup_open, self.entries@.map_values(|s: String| s@))
    }
}

impl DaemonPopup {
    /// A closed popup that shows nothing.
    pub fn new() -> (p: DaemonPopup)
        ensures
            p@ == (false, Seq::<Seq<char>>::empty()),
    {
        let p = DaemonPopup { popup_open: false, entries: Vec::new() };
        assert(p@.1 =~= Seq::<Seq<char>>::empty());
        p
    }

    /// Whether the popup is open.
    pub fn is_open(&self) -> (b: bool)
        ensures
            b == self@.0,
    {
        self.popup_open
    }

    /// Takes in whether the hotkey was pressed since the last frame: where
    /// it was and the popup is closed, the popup takes the most recent
    /// entries of `history` and opens if there is any.
    pub fn on_hotkey(&mut self, triggered: bool, history: &ClipboardHistory) -> (r: HotkeyOutcome)
        ensures
            triggered && !old(self)@.0 ==> {
                &&& final(self)@.1 == popup_texts(history@)
                &&& history@.len() == 0 ==> r == HotkeyOutcome::NoHistory && !final(self)@.0
                &&& history@.len() > 0 ==> r == HotkeyOutcome::Opened && final(self)@.0
            },
            !(triggered && !old(self)@.0) ==> r == HotkeyOutcome::Ignored && final(self)@ == old(self)@,
    {
        if triggered && !self.popup_open {
            self.entries = popup_entries(history);
            assert(self.entries@.len() == self@.1.len());
            assert(self.entries@.len() == 0 <==> history@.len() == 0);
            if self.entries.len() == 0 {
                HotkeyOutcome::NoHistory
            } else {
                self.popup_open = true;
                HotkeyOutcome::Opened
            }
        } else {
            HotkeyOutcome::Ignored
        }
    }

    /// Takes in the number keys (indexed by digit) and Escape of a frame:
    /// on Escape the popup closes and nothing is picked; else the entry that
    /// the keys pick, where they pick one.
    pub fn on_keys(&mut self, digits: &[bool; 10], escape: bool) -> (r: Option<usize>)
        ensures
            escape ==> r is None,
            !escape ==> r == key_pick(digits@, old(self)@.1.len(), POPUP_ENTRIES as nat),
            final(self)@ == (old(self)@.0 && !escape, old(self)@.1),
    {
        if escape {
            self.popup_open = false;
            return None;
        }
        select_by_keys(digits, self.entries.len())
    }

    /// The entry to paste in a frame: the last one clicked or double-clicked
    /// in `responses` (one per entry shown), else `keyed`.
    pub fn picked_entry(&self, keyed: Option<usize>, responses: &Vec<EntryResponse>) -> (r: Option<usize>)
        ensures
            r == click_pick(responses@, responses_seen(responses@, self@.1.len()), keyed, true),
    {
        let seen = if responses.len() < self.entries.len() { responses.len() } else { self.entries.len() };
        select_by_clicks(responses, seen, keyed, true)
    }

    /// The text to paste for the entry at `index`, where there is one.
    pub fn paste_target(&self, index: usize) -> (r: Option<&String>)
        ensures
            match r {
                Some(s) => index < self@.1.len() && s@ == self@.1[index as int],
                None => index >= self@.1.len(),
            },
    {
        if index < self.entries.len() {
            Some(&self.entries[index])
        } else {
            None
        }
    }

    /// The paste went through: the popup closes.
    pub fn pasted(&mut self)
        ensures
            final(self)@ == (false, old(self)@.1),
    {
        self.popup_open = false;
    }

    /// The labels of the entries shown, in order.
    pub fn labels(&self) -> (r: Vec<String>)
        ensures
            r@.map_values(|s: String| s@) == labels_text(self@.1),
    {
        labels_of(&self.entries)
    }
}

// ---------------------------------------------------------------------------
// Laws of the popup.

/// The number keys pick an entry that is shown and that has a key.
pub proof fn key_pick_in_range(pressed: Seq<bool>, count: nat, upto: nat)
    requires
        upto <= POPUP_ENTRIES,
    ensures
        key_pick(pressed, count, upto) matches Some(i) ==> i < count && i < upto,
    decreases upto,
{
    if upto > 0 {
        key_pick_in_range(pressed, count, (upto - 1) as nat);
    }
}

/// The keys that are down: only the digit `d`.
pub open spec fn only_key(d: nat) -> Seq<bool> {
    Seq::new(10, |k: int| k == d)
}

proof fn key_pick_single(i: nat, count: nat, upto: nat)
    requires
        i < count,
        i < POPUP_ENTRIES,
        upto <= POPUP_ENTRIES,
    ensures
        key_pick(only_key(display_number(i)), count, upto) == if i < upto {
            Some(i as usize)
        } else {
            None::<usize>
        },
    decreases upto,
{
    if upto > 0 {
        key_pick_single(i, count, (upto - 1) as nat);
    }
}

/// Pressing the number shown beside an entry, and no other, picks that
/// entry.
pub proof fn shown_number_picks_entry(i: nat, count: nat)
    requires
        i < count,
        i < POPUP_ENTRIES,
    ensures
        key_pick(only_key(display_number(i)), count, POPUP_ENTRIES as nat) == Some(i as usize),
{
    key_pick_single(i, count, POPUP_ENTRIES as nat);
}

/// The popup of the daemon shows at most `POPUP_ENTRIES` entries: the most
/// recent ones, in order.
pub proof fn popup_shows_most_recent(h: Seq<EntryView>)
    ensures
        popup_texts(h).len() <= POPUP_ENTRIES,
        popup_texts(h).len() == h.len() || popup_texts(h).len() == POPUP_ENTRIES,
        forall|i: int| 0 <= i < popup_texts(h).len() ==> #[trigger] popup_texts(h)[i] == h[i].0,
{
}

/// The entry at `i` is numbered `i + 1`, except the tenth, which is
/// numbered 0: the order of the number keys 1 to 9 then 0.
pub proof fn display_numbers_follow_keyboard(i: nat)
    ensures
        i < 9 ==> display_number(i) == i + 1,
        i == 9 ==> display_number(i) == 0,
        i < POPUP_ENTRIES ==> display_number(i) == (i + 1) % 10,
{
}

proof fn key_pick_only(i: nat, count: nat, upto: nat)
    requires
        i < POPUP_ENTRIES,
        upto <= POPUP_ENTRIES,
    ensures
        key_pick(only_key(display_number(i)), count, upto) == if i < upto && i < count {
            Some(i as usize)
        } else {
            None::<usize>
        },
    decreases upto,
{
    if upto > 0 {
        key_pick_only(i, count, (upto - 1) as nat);
    }
}

/// The number key `d` alone picks the entry `d - 1` for `d` from 1 to 9
/// and the tenth entry for 0, where that entry is shown; else nothing.
pub proof fn number_key_picks_its_entry(d: nat, count: nat)
    requires
        d < 10,
    ensures
        d > 0 ==> key_pick(only_key(d), count, POPUP_ENTRIES as nat) == if d - 1 < count {
            Some((d - 1) as usize)
        } else {
            None::<usize>
        },
        d == 0 ==> key_pick(only_key(d), count, POPUP_ENTRIES as nat) == if 9 < count {
            Some(9usize)
        } else {
            None::<usize>
        },
{
    let i: nat = if d == 0 { 9 } else { (d - 1) as nat };
    assert(display_number(i) == d);
    key_pick_only(i, count, POPUP_ENTRIES as nat);
}

/// The label of the entry at `i` starts with its number in brackets, which
/// reads back as `i + 1`, or 0 for the tenth entry, followed by the preview.
pub proof fn label_reads_back(i: nat, content: Seq<char>)
    ensures
        exists|a: Seq<char>|
            {
                &&& a.len() > 0 && all_digits(a)
                &&& digits_value(a) == if i == 9 { 0 } else { i + 1 }
                &&& entry_label_text(i, content) == seq!['['] + a + seq![']', ' '] + display_text(
                    content,
                    POPUP_PREVIEW_CHARS as nat,
                )
            },
{
    let a = decimal(display_number(i));
    lemma_decimal_digits(display_number(i));
    assert(entry_label_text(i, content) == seq!['['] + a + seq![']', ' '] + display_text(
        content,
        POPUP_PREVIEW_CHARS as nat,
    ));
}

/// Whether none of the responses from `from` up to `upto` is a click, or,
/// where `double` holds, a double-click.
pub open spec fn untouched_after(responses: Seq<EntryResponse>, from: int, upto: int, double: bool) -> bool {
    forall|j: int|
        #![trigger responses[j]]
        from < j < upto ==> !responses[j].clicked && !(double && responses[j].double_clicked)
}

/// A click on an entry picks it, when no later entry is clicked in the same
/// frame; in the daemon popup (`double`) a double-click picks it too; with
/// no click at all the earlier pick stands.
pub proof fn click_picks_entry(
    responses: Seq<EntryResponse>,
    upto: nat,
    sel: Option<usize>,
    double: bool,
    i: int,
)
    requires
        upto <= responses.len(),
    ensures
        0 <= i < upto && (responses[i].clicked || (double && responses[i].double_clicked))
            && untouched_after(responses, i, upto as int, double) ==> click_pick(
            responses,
            upto,
            sel,
            double,
        ) == Some(i as usize),
        untouched_after(responses, -1, upto as int, double) ==> click_pick(responses, upto, sel, double)
            == sel,
    decreases upto,
{
    if upto > 0 {
        let last = upto - 1;
        click_picks_entry(responses, last as nat, sel, double, i);
        if untouched_after(responses, i, upto as int, double) {
            assert(untouched_after(responses, i, last, double));
            if i < last {
                assert(i < last < upto as int);
                assert(!responses[last].clicked && !(double && responses[last].double_clicked));
            }
        }
        if untouched_after(responses, -1, upto as int, double) {
            assert(untouched_after(responses, -1, last, double));
            assert(!responses[last].clicked && !(double && responses[last].double_clicked));
        }
    }
}

} // verus!
