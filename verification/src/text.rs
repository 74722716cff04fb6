use vstd::prelude::*;

verus! {

/// `String::push` appends one character.
pub assume_specification[ String::push ](s: &mut String, ch: char)
    ensures
        final(s)@ == old(s)@.push(ch),
;

/// The character of a decimal digit `d` (which is below ten).
pub open spec fn digit_char(d: nat) -> char {
    if d == 0 { '0' }
    else if d == 1 { '1' }
    else if d == 2 { '2' }
    else if d == 3 { '3' }
    else if d == 4 { '4' }
    else if d == 5 { '5' }
    else if d == 6 { '6' }
    else if d == 7 { '7' }
    else if d == 8 { '8' }
    else { '9' }
}

/// The decimal notation of `n`, without leading zeros.
pub open spec fn decimal(n: nat) -> Seq<char>
    decreases n,
{
    if n < 10 {
        seq![digit_char(n)]
    } else {
        decimal(n / 10).push(digit_char(n % 10))
    }
}

fn digit_to_char(d: u64) -> (c: char)
    requires
        d < 10,
    ensures
        c == digit_char(d as nat),
{
    if d == 0 { '0' }
    else if d == 1 { '1' }
    else if d == 2 { '2' }
    else if d == 3 { '3' }
    else if d == 4 { '4' }
    else if d == 5 { '5' }
    else if d == 6 { '6' }
    else if d == 7 { '7' }
    else if d == 8 { '8' }
    else { '9' }
}

/// Appends the decimal notation of `n` to `s`.
pub fn push_decimal(s: &mut String, n: u64)
    ensures
        final(s)@ == old(s)@ + decimal(n as nat),
    decreases n,
{
    if n >= 10 {
        push_decimal(s, n / 10);
    }
    s.push(digit_to_char(n % 10));
}

} // verus!

verus! {

/// The characters of `s`, in order.
pub fn chars_of(s: &str) -> (v: Vec<char>)
    ensures
        v@ == s@,
{
    let mut v: Vec<char> = Vec::new();
    for c in it: s.chars()
        invariant
            v@ == it.seq().take(it.index() as int),
    {
        v.push(c);
    }
    proof {
        broadcast use vstd::string::axiom_spec_iter;
    }
    v
}

} // verus!

verus! {

/// The line-feed marker shown in place of a line break.
pub const RETURN_SYMBOL: char = '\u{23CE}';

/// The arrow shown in place of a tab.
pub const TAB_SYMBOL: char = '\u{2192}';

/// What one character of an entry becomes on a one-line preview: a line
/// feed becomes the return symbol, a carriage return disappears, and, where
/// tabs are shown, a tab becomes an arrow.
pub open spec fn shown_char(c: char, show_tabs: bool) -> Seq<char> {
    if c == '\n' {
        seq![RETURN_SYMBOL]
    } else if c == '\r' {
        Seq::empty()
    } else if show_tabs && c == '\t' {
        seq![TAB_SYMBOL]
    } else {
        seq![c]
    }
}

/// Every character of `s` replaced by what it is shown as.
pub open spec fn one_line(s: Seq<char>, show_tabs: bool) -> Seq<char>
    decreases s.len(),
{
    if s.len() == 0 {
        Seq::empty()
    } else {
        one_line(s.drop_last(), show_tabs) + shown_char(s.last(), show_tabs)
    }
}

/// `s` cut to its first `max_len` characters followed by `...` when it is
/// longer than `max_len`, else `s` itself.
pub open spec fn ellipsize(s: Seq<char>, max_len: nat) -> Seq<char> {
    if s.len() > max_len {
        s.take(max_len as int) + seq!['.', '.', '.']
    } else {
        s
    }
}

/// The preview of an entry in the command-line listing: line feeds shown as
/// a symbol, carriage returns dropped, cut to `max_len` characters.
pub open spec fn preview_text(s: Seq<char>, max_len: nat) -> Seq<char> {
    ellipsize(one_line(s, false), max_len)
}

/// The preview of an entry in the popup: as `preview_text`, and tabs shown
/// as an arrow.
pub open spec fn display_text(s: Seq<char>, max_len: nat) -> Seq<char> {
    ellipsize(one_line(s, true), max_len)
}

fn one_line_chars(s: &Vec<char>, show_tabs: bool) -> (r: Vec<char>)
    ensures
        r@ == one_line(s@, show_tabs),
{
    let mut r: Vec<char> = Vec::new();
    let n = s.len();
    for i in 0..n
        invariant
            n == s@.len(),
            r@ == one_line(s@.take(i as int), show_tabs),
    {
        let c = s[i];
        assert(s@.take(i + 1).drop_last() == s@.take(i as int));
        if c == '\n' {
            r.push(RETURN_SYMBOL);
        } else if c == '\r' {
        } else if show_tabs && c == '\t' {
            r.push(TAB_SYMBOL);
        } else {
            r.push(c);
        }
    }
    assert(s@.take(n as int) == s@);
    r
}

fn ellipsized_string(s: &Vec<char>, max_len: usize) -> (r: String)
    ensures
        r@ == ellipsize(s@, max_len as nat),
{
    let mut r = String::new();
    let n = if s.len() > max_len { max_len } else { s.len() };
    for i in 0..n
        invariant
            n <= s@.len(),
            r@ == s@.take(i as int),
    {
        r.push(s[i]);
        assert(s@.take(i + 1) == s@.take(i as int).push(s@[i as int]));
    }
    if s.len() > max_len {
        r.push('.');
        r.push('.');
        r.push('.');
    } else {
        assert(s@.take(n as int) == s@);
    }
    r
}

pub(crate) fn shorten(s: &str, max_len: usize, show_tabs: bool) -> (r: String)
    ensures
        r@ == ellipsize(one_line(s@, show_tabs), max_len as nat),
{
    let chars = chars_of(s);
    let shown = one_line_chars(&chars, show_tabs);
    ellipsized_string(&shown, max_len)
}

/// The one-line preview of `s` used by the command-line listing.
pub fn truncate_preview(s: &str, max_len: usize) -> (r: String)
    ensures
        r@ == preview_text(s@, max_len as nat),
{
    shorten(s, max_len, false)
}

// ---------------------------------------------------------------------------
// Laws of the previews.

/// Whether `s` holds no line feed and no carriage return.
pub open spec fn single_line(s: Seq<char>) -> bool {
    forall|i: int| 0 <= i < s.len() ==> #[trigger] s[i] != '\n' && s[i] != '\r'
}

/// Whether `s` holds no tab.
pub open spec fn tab_free(s: Seq<char>) -> bool {
    forall|i: int| 0 <= i < s.len() ==> #[trigger] s[i] != '\t'
}

proof fn lemma_one_line(s: Seq<char>, show_tabs: bool)
    ensures
        single_line(one_line(s, show_tabs)),
        show_tabs ==> tab_free(one_line(s, show_tabs)),
        single_line(s) && (show_tabs ==> tab_free(s)) ==> one_line(s, show_tabs) == s,
    decreases s.len(),
{
    if s.len() > 0 {
        lemma_one_line(s.drop_last(), show_tabs);
        let r = one_line(s, show_tabs);
        let front = one_line(s.drop_last(), show_tabs);
        assert forall|i: int| 0 <= i < r.len() implies #[trigger] r[i] != '\n' && r[i] != '\r' by {
            if i < front.len() {
                assert(r[i] == front[i]);
            }
        }
        if show_tabs {
            assert forall|i: int| 0 <= i < r.len() implies #[trigger] r[i] != '\t' by {
                if i < front.len() {
                    assert(r[i] == front[i]);
                }
            }
        }
        if single_line(s) && (show_tabs ==> tab_free(s)) {
            assert(s[s.len() - 1] == s.last());
            assert forall|i: int| 0 <= i < s.drop_last().len() implies #[trigger] s.drop_last()[i] != '\n'
                && s.drop_last()[i] != '\r' by {
                assert(s.drop_last()[i] == s[i]);
            }
            if show_tabs {
                assert forall|i: int| 0 <= i < s.drop_last().len() implies #[trigger] s.drop_last()[i]
                    != '\t' by {
                    assert(s.drop_last()[i] == s[i]);
                }
            }
            assert(s.drop_last().push(s.last()) =~= s);
        }
    }
}

proof fn lemma_ellipsize(s: Seq<char>, max_len: nat)
    ensures
        ellipsize(s, max_len).len() <= max_len + 3,
        single_line(s) ==> single_line(ellipsize(s, max_len)),
        tab_free(s) ==> tab_free(ellipsize(s, max_len)),
{
    let r = ellipsize(s, max_len);
    if s.len() > max_len {
        assert forall|i: int| 0 <= i < r.len() && i < max_len implies #[trigger] r[i] == s[i] by {}
        if single_line(s) {
            assert forall|i: int| 0 <= i < r.len() implies #[trigger] r[i] != '\n' && r[i] != '\r' by {
                if i < max_len {
                    assert(r[i] == s[i]);
                }
            }
        }
        if tab_free(s) {
            assert forall|i: int| 0 <= i < r.len() implies #[trigger] r[i] != '\t' by {
                if i < max_len {
                    assert(r[i] == s[i]);
                }
            }
        }
    }
}

/// The listing's preview of any text is one line, at most three characters
/// longer than `max_len` (the `...`); a one-line text of at most `max_len`
/// characters is shown as it is.
pub proof fn preview_is_one_line(s: Seq<char>, max_len: nat)
    ensures
        single_line(preview_text(s, max_len)),
        preview_text(s, max_len).len() <= max_len + 3,
        single_line(s) && s.len() <= max_len ==> preview_text(s, max_len) == s,
{
    lemma_one_line(s, false);
    lemma_ellipsize(one_line(s, false), max_len);
}

/// The popup's preview of any text is one line without tabs, at most three
/// characters longer than `max_len`; a one-line text without tabs of at
/// most `max_len` characters is shown as it is.
pub proof fn display_is_one_line(s: Seq<char>, max_len: nat)
    ensures
        single_line(display_text(s, max_len)),
        tab_free(display_text(s, max_len)),
        display_text(s, max_len).len() <= max_len + 3,
        single_line(s) && tab_free(s) && s.len() <= max_len ==> display_text(s, max_len) == s,
{
    lemma_one_line(s, true);
    lemma_ellipsize(one_line(s, true), max_len);
}

} // verus!
