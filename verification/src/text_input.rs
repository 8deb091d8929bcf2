//! The editing model of a text input: its content, the selection, the active
//! input-method composition, and the edits that keys, the mouse, the clipboard
//! and the platform input handler make. Offsets are UTF-8 byte offsets into the
//! content; the input-method side speaks UTF-16 code units. Layout (shaping,
//! hit-testing, visual rows, scrolling) belongs to the renderer, which hands the
//! offsets it computes to these methods; the goal column kept across vertical
//! moves is one of its values, of type `G`.

use vstd::prelude::*;

use std::ops::Range;

use crate::text_geometry::{
    char_index_at, char_index_of_byte, first_above, from_utf16, grapheme_starts, is_char_start,
    last_below, lemma_char_start_bounds, lemma_char_start_ends, lemma_from_utf16_char_start,
    lemma_from_utf16_monotone, lemma_splice_widths, lemma_utf8_width_bytes, next_boundary,
    offset_from_utf16, offset_to_utf16, previous_boundary, splice_content, to_utf16, utf8_width,
    extend_selection, lemma_char_index_order, lemma_char_index_of_prefix,
};
use crate::text_util::chars_of;

verus! {

/// The abstract state of a text input.
#[verifier::ext_equal]
pub struct InputModel<G> {
    pub content: Seq<char>,
    /// Selected byte range `(start, end)`.
    pub selected: (nat, nat),
    /// Whether the caret sits at the start of the selection.
    pub reversed: bool,
    /// Byte range of the active input-method composition.
    pub marked: Option<(nat, nat)>,
    pub multiline: bool,
    /// Whether the next layout should scroll the caret into view.
    pub autoscroll: bool,
    /// Whether a mouse drag-select is in progress.
    pub is_selecting: bool,
    /// Column kept across consecutive vertical moves.
    pub goal_x: Option<G>,
    /// The value last reported to (or received from) the application.
    pub last_sent: Seq<char>,
    /// Focus as of the last paint.
    pub was_focused: bool,
}

/// `r` is an ordered pair of character boundaries of `s`.
pub open spec fn valid_range(s: Seq<char>, r: (nat, nat)) -> bool {
    r.0 <= r.1 && is_char_start(s, r.0 as int) && is_char_start(s, r.1 as int)
}

/// `s` with the bytes from boundary `start` to boundary `end` replaced by `t`.
pub open spec fn splice(s: Seq<char>, start: nat, end: nat, t: Seq<char>) -> Seq<char> {
    s.take(char_index_at(s, start as int)) + t + s.skip(char_index_at(s, end as int))
}

/// The grapheme-cluster boundary before byte `offset` of `s` (`0` if none).
pub open spec fn boundary_before(s: Seq<char>, offset: nat) -> nat {
    match last_below(grapheme_starts(s), offset as int) {
        Some(b) => b as nat,
        None => 0,
    }
}

/// The grapheme-cluster boundary after byte `offset` of `s` (the end if none).
pub open spec fn boundary_after(s: Seq<char>, offset: nat) -> nat {
    match first_above(grapheme_starts(s), offset as int) {
        Some(b) => b as nat,
        None => utf8_width(s),
    }
}

/// `text` with every line feed turned into a space.
pub open spec fn single_line(text: Seq<char>) -> Seq<char> {
    text.map_values(|c: char| if c == '\n' { ' ' } else { c })
}

/// A UTF-16 range as a pair.
pub open spec fn range_pair(r: Option<Range<usize>>) -> Option<(nat, nat)> {
    match r {
        Some(r) => Some((r.start as nat, r.end as nat)),
        None => None,
    }
}

impl<G> InputModel<G> {
    /// Byte length of the content.
    pub open spec fn len(self) -> nat {
        utf8_width(self.content)
    }

    pub open spec fn wf(self) -> bool {
        &&& self.len() <= usize::MAX
        &&& valid_range(self.content, self.selected)
        &&& (self.marked matches Some(m) ==> valid_range(self.content, m))
    }

    /// The caret: the active end of the selection.
    pub open spec fn cursor(self) -> nat {
        if self.reversed {
            self.selected.0
        } else {
            self.selected.1
        }
    }

    pub open spec fn selection_empty(self) -> bool {
        !(self.selected.0 < self.selected.1)
    }

    pub open spec fn clamp(self, offset: nat) -> nat {
        if offset <= self.len() {
            offset
        } else {
            self.len()
        }
    }

    /// Collapse the selection to `offset` (clamped to the content).
    pub open spec fn move_to(self, offset: nat) -> Self {
        let o = self.clamp(offset);
        InputModel { selected: (o, o), autoscroll: true, ..self }
    }

    /// Move the active end of the selection to `offset` (clamped); when the
    /// ends cross they swap and the direction flips.
    pub open spec fn select_to(self, offset: nat) -> Self {
        let o = self.clamp(offset);
        let start = if self.reversed { o } else { self.selected.0 };
        let end = if self.reversed { self.selected.1 } else { o };
        if end < start {
            InputModel { selected: (end, start), reversed: !self.reversed, autoscroll: true, ..self }
        } else {
            InputModel { selected: (start, end), autoscroll: true, ..self }
        }
    }

    pub open spec fn clear_goal(self) -> Self {
        InputModel { goal_x: None, ..self }
    }

    /// The byte range an input-method edit applies to: the given UTF-16 range,
    /// else the composition, else the selection.
    pub open spec fn edit_range(self, range_utf16: Option<(nat, nat)>) -> (nat, nat) {
        match range_utf16 {
            Some(r) => (from_utf16(self.content, r.0 as int), from_utf16(self.content, r.1 as int)),
            None => match self.marked {
                Some(m) => m,
                None => self.selected,
            },
        }
    }

    /// The content after replacing the bytes of `range` with `text`.
    pub open spec fn replaced(self, range: (nat, nat), text: Seq<char>) -> Seq<char> {
        splice(self.content, range.0, range.1, text)
    }

    /// Bookkeeping after a content change that is reported to the application.
    pub open spec fn changed(self) -> Self {
        InputModel { goal_x: None, autoscroll: true, last_sent: self.content, ..self }
    }

    /// Replace the edit range with `text`, leaving the caret after it and
    /// ending any composition.
    pub open spec fn replace(self, range_utf16: Option<(nat, nat)>, text: Seq<char>) -> Self {
        let r = self.edit_range(range_utf16);
        let caret = r.0 + utf8_width(text);
        InputModel {
            content: self.replaced(r, text),
            selected: (caret, caret),
            marked: None,
            ..self
        }.changed()
    }

    /// Replace the edit range with `text` and mark it as the composition; the
    /// new selection is given in UTF-16 units relative to the edit start, else
    /// it is a caret after the text.
    pub open spec fn replace_and_mark(
        self,
        range_utf16: Option<(nat, nat)>,
        text: Seq<char>,
        selected_utf16: Option<(nat, nat)>,
    ) -> Self {
        let r = self.edit_range(range_utf16);
        let content = self.replaced(r, text);
        let caret = r.0 + utf8_width(text);
        InputModel {
            content,
            marked: if text.len() > 0 {
                Some((r.0, caret))
            } else {
                None
            },
            selected: match selected_utf16 {
                Some(s) => (
                    from_utf16(content, s.0 as int) + r.0,
                    from_utf16(content, s.1 as int) + r.0,
                ),
                None => (caret, caret),
            },
            ..self
        }.changed()
    }

    /// Deleting the edit range (no composition wider than the content).
    pub open spec fn delete_range(self) -> Self {
        self.replace(None, Seq::empty())
    }

    /// Backspace with an empty selection and nothing before the caret.
    pub open spec fn backspace_rings(self) -> bool {
        self.selection_empty() && boundary_before(self.content, self.cursor()) == self.cursor()
    }

    pub open spec fn backspace(self) -> Self {
        if self.selection_empty() {
            let prev = boundary_before(self.content, self.cursor());
            if prev == self.cursor() {
                self
            } else {
                self.select_to(prev).delete_range()
            }
        } else {
            self.delete_range()
        }
    }

    /// Delete with an empty selection and nothing after the caret.
    pub open spec fn delete_rings(self) -> bool {
        self.selection_empty() && boundary_after(self.content, self.cursor()) == self.cursor()
    }

    pub open spec fn delete(self) -> Self {
        if self.selection_empty() {
            let next = boundary_after(self.content, self.cursor());
            if next == self.cursor() {
                self
            } else {
                self.select_to(next).delete_range()
            }
        } else {
            self.delete_range()
        }
    }

    pub open spec fn left(self) -> Self {
        if self.selection_empty() {
            self.clear_goal().move_to(boundary_before(self.content, self.cursor()))
        } else {
            self.clear_goal().move_to(self.selected.0)
        }
    }

    pub open spec fn right(self) -> Self {
        if self.selection_empty() {
            self.clear_goal().move_to(boundary_after(self.content, self.selected.1))
        } else {
            self.clear_goal().move_to(self.selected.1)
        }
    }

    pub open spec fn select_left(self) -> Self {
        self.clear_goal().select_to(boundary_before(self.content, self.cursor()))
    }

    pub open spec fn select_right(self) -> Self {
        self.clear_goal().select_to(boundary_after(self.content, self.cursor()))
    }

    pub open spec fn select_all(self) -> Self {
        self.clear_goal().move_to(0).select_to(self.len())
    }

    /// Home: the start of the visual row (multiline, when laid out), else the
    /// start of the content.
    pub open spec fn home(self, row_start: Option<nat>) -> Self {
        match row_start {
            Some(o) if self.multiline => self.clear_goal().move_to(o),
            _ => self.clear_goal().move_to(0),
        }
    }

    /// End: the end of the visual row (multiline, when laid out), else the end
    /// of the content.
    pub open spec fn end(self, row_end: Option<nat>) -> Self {
        match row_end {
            Some(o) if self.multiline => self.clear_goal().move_to(o),
            _ => self.clear_goal().move_to(self.len()),
        }
    }

    /// Up/Down: a single-line input jumps to the start/end; a multiline one
    /// goes to the offset the layout found on the adjacent row and keeps the
    /// goal column (nothing happens before the first layout).
    pub open spec fn vertical_move(self, down: bool, extend: bool, target: Option<(nat, G)>) -> Self {
        if !self.multiline {
            let t = if down { self.len() } else { 0 };
            if extend { self.select_to(t) } else { self.move_to(t) }
        } else {
            match target {
                None => self,
                Some((t, g)) => {
                    let m = InputModel { goal_x: Some(g), ..self };
                    if extend { m.select_to(t) } else { m.move_to(t) }
                },
            }
        }
    }

    /// What Enter inserts in a multiline input.
    pub open spec fn enter(self) -> Self {
        if self.multiline {
            self.replace(None, seq!['\n'])
        } else {
            self
        }
    }

    /// The text a paste inserts: as is when multiline, else with line feeds
    /// turned into spaces.
    pub open spec fn pasted_text(self, text: Seq<char>) -> Seq<char> {
        if self.multiline {
            text
        } else {
            single_line(text)
        }
    }

    /// The selected text.
    pub open spec fn selected_text(self) -> Seq<char> {
        self.content.subrange(
            char_index_at(self.content, self.selected.0 as int),
            char_index_at(self.content, self.selected.1 as int),
        )
    }

    pub open spec fn mouse_down(self, offset: nat, shift: bool) -> Self {
        let m = InputModel { goal_x: None, is_selecting: true, ..self };
        if shift { m.select_to(offset) } else { m.move_to(offset) }
    }

    pub open spec fn mouse_move(self, offset: nat) -> Self {
        if self.is_selecting { self.select_to(offset) } else { self }
    }

    /// Adopt an external (controlled) value unless it is the echo of the last
    /// value sent, or a composition is in progress.
    pub open spec fn sync_value(self, value: Option<Seq<char>>) -> Self {
        match value {
            Some(v) if self.marked is None && v != self.last_sent => InputModel {
                content: v,
                selected: (utf8_width(v), utf8_width(v)),
                last_sent: v,
                autoscroll: true,
                ..self
            },
            _ => self,
        }
    }

    /// The selection that `replace_and_mark` leaves.
    pub open spec fn marked_selection(
        self,
        range_utf16: Option<(nat, nat)>,
        text: Seq<char>,
        selected_utf16: Option<(nat, nat)>,
    ) -> (nat, nat) {
        self.replace_and_mark(range_utf16, text, selected_utf16).selected
    }
}

/// What an edit asks of the host.
pub enum EditEffect {
    /// Nothing could be deleted: ring the system bell.
    Bell,
    /// The content changed: report this value as a `change` event.
    Changed(String),
    /// Submit this value (a `submit` event).
    Submit(String),
}

/// The editing state of one text input.
pub struct TextInputState<G> {
    pub content: String,
    pub selected_range: Range<usize>,
    pub selection_reversed: bool,
    pub marked_range: Option<Range<usize>>,
    pub multiline: bool,
    pub autoscroll: bool,
    pub is_selecting: bool,
    pub goal_x: Option<G>,
    pub last_sent: String,
    pub was_focused: bool,
}

impl<G> View for TextInputState<G> {
    type V = InputModel<G>;

    open spec fn view(&self) -> InputModel<G> {
        InputModel {
            content: self.content@,
            selected: (self.selected_range.start as nat, self.selected_range.end as nat),
            reversed: self.selection_reversed,
            marked: range_pair(self.marked_range),
            multiline: self.multiline,
            autoscroll: self.autoscroll,
            is_selecting: self.is_selecting,
            goal_x: self.goal_x,
            last_sent: self.last_sent@,
            was_focused: self.was_focused,
        }
    }
}

/// An edit's own `change` echo, coming back as the controlled value, leaves
/// the input as the edit left it (the caret does not jump).
pub proof fn lemma_echo_is_ignored<G>(m: InputModel<G>, range_utf16: Option<(nat, nat)>, text: Seq<char>)
    ensures
        ({
            let e = m.replace(range_utf16, text);
            e.sync_value(Some(e.content)) == e
        }),
{
}

/// Select-all selects the whole content, with the caret at its end (when
/// there is any content).
pub proof fn lemma_select_all_selects_everything<G>(m: InputModel<G>)
    requires
        m.wf(),
    ensures
        m.select_all().selected == (0nat, m.len()),
        m.len() > 0 ==> !m.select_all().reversed,
        m.select_all().content == m.content,
        m.select_all().selected_text() == m.content,
{
    lemma_char_index_of_prefix(m.content, 0);
    lemma_char_index_of_prefix(m.content, m.content.len() as int);
    assert(m.content.take(0) =~= Seq::<char>::empty());
    assert(m.content.take(m.content.len() as int) =~= m.content);
    assert(m.content.subrange(0, m.content.len() as int) =~= m.content);
}

/// Replacing a range keeps the text on either side of it and puts the caret
/// right after the inserted text.
pub proof fn lemma_replace_keeps_surroundings<G>(m: InputModel<G>, range_utf16: Option<(nat, nat)>, text: Seq<char>)
    requires
        m.wf(),
    ensures
        ({
            let r = m.edit_range(range_utf16);
            let ks = char_index_at(m.content, r.0 as int);
            let ke = char_index_at(m.content, r.1 as int);
            let e = m.replace(range_utf16, text);
            &&& e.content.take(ks) == m.content.take(ks)
            &&& e.content.subrange(ks, ks + text.len()) == text
            &&& e.content.skip(ks + text.len()) == m.content.skip(ke)
            &&& e.selected == (e.cursor(), e.cursor())
            &&& e.cursor() == utf8_width(e.content.take(ks + text.len()))
            &&& e.marked is None
        }),
{
    let r = m.edit_range(range_utf16);
    if let Some(u) = range_utf16 {
        lemma_from_utf16_char_start(m.content, u.0 as int);
        lemma_from_utf16_char_start(m.content, u.1 as int);
    }
    lemma_char_start_bounds(m.content, r.0 as int);
    lemma_char_start_bounds(m.content, r.1 as int);
    let ks = char_index_at(m.content, r.0 as int);
    let ke = char_index_at(m.content, r.1 as int);
    let c = m.content.take(ks) + text + m.content.skip(ke);
    assert(c.take(ks) =~= m.content.take(ks));
    assert(c.subrange(ks, ks + text.len()) =~= text);
    assert(c.skip(ks + text.len()) =~= m.content.skip(ke));
    assert(c.take(ks + text.len()) =~= m.content.take(ks) + text);
    crate::text_geometry::lemma_prefix_width_concat(m.content.take(ks), text);
}

/// Deleting the edit range never makes the content longer.
proof fn lemma_delete_fits<G>(m: InputModel<G>)
    requires
        m.wf(),
    ensures
        utf8_width(m.replaced(m.edit_range(None), Seq::<char>::empty())) <= m.len(),
{
    let r = m.edit_range(None);
    lemma_char_start_bounds(m.content, r.0 as int);
    lemma_char_start_bounds(m.content, r.1 as int);
    let ks = char_index_at(m.content, r.0 as int);
    let ke = char_index_at(m.content, r.1 as int);
    lemma_splice_widths(m.content, ks, ke, Seq::<char>::empty());
    assert(utf8_width(Seq::<char>::empty()) == 0);
}

/// The text of the bytes from boundary `start` to boundary `end` of `content`.
fn byte_range_text(content: &str, start: usize, end: usize) -> (r: String)
    requires
        start <= end,
        is_char_start(content@, start as int),
        is_char_start(content@, end as int),
    ensures
        r@ == content@.subrange(char_index_at(content@, start as int), char_index_at(content@, end as int)),
{
    let cs = chars_of(content);
    let ks = char_index_of_byte(&cs, start);
    let ke = char_index_of_byte(&cs, end);
    proof {
        lemma_char_index_order(content@, start as int, end as int);
    }
    String::from_str(content.substring_char(ks, ke))
}

/// `text` with every line feed turned into a space.
pub fn newlines_to_spaces(text: &str) -> (r: String)
    ensures
        r@ == single_line(text@),
        utf8_width(r@) == utf8_width(text@),
{
    proof {
        reveal_strlit(" ");
        assert(" "@ =~= seq![' ']);
    }
    let r = crate::text_util::replace_char(text, '\n', " ");
    proof {
        assert(r@ =~= single_line(text@));
        lemma_single_line_width(text@);
    }
    r
}

proof fn lemma_single_line_width(t: Seq<char>)
    ensures
        utf8_width(single_line(t)) == utf8_width(t),
    decreases t.len(),
{
    if t.len() > 0 {
        assert(single_line(t).drop_first() =~= single_line(t.drop_first()));
        lemma_single_line_width(t.drop_first());
    }
}

impl<G> TextInputState<G> {
    /// A fresh input holding `initial_value` (or nothing), caret at the end.
    pub fn new(initial_value: Option<String>) -> (r: Self)
        requires
            initial_value matches Some(v) ==> utf8_width(v@) <= usize::MAX,
        ensures
            r@.wf(),
            r@.content == (match initial_value {
                Some(v) => v@,
                None => Seq::<char>::empty(),
            }),
            r@.selected == (r@.len(), r@.len()),
            !r@.reversed,
            r@.marked is None,
            !r@.multiline,
            r@.autoscroll,
            !r@.is_selecting,
            r@.goal_x is None,
            r@.last_sent == r@.content,
            !r@.was_focused,
    {
        let initial = match initial_value {
            Some(v) => v,
            None => String::new(),
        };
        let content = initial.clone();
        proof {
            lemma_utf8_width_bytes(content@);
            lemma_char_start_ends(content@);
        }
        let cursor = content.as_str().len();
        TextInputState {
            content,
            selected_range: cursor..cursor,
            selection_reversed: false,
            marked_range: None,
            multiline: false,
            autoscroll: true,
            is_selecting: false,
            goal_x: None,
            last_sent: initial,
            was_focused: false,
        }
    }

    /// Byte length of the content.
    pub fn len(&self) -> (r: usize)
        requires
            self@.wf(),
        ensures
            r == self@.len(),
    {
        proof {
            lemma_utf8_width_bytes(self.content@);
        }
        self.content.as_str().len()
    }

    /// The caret offset: the active end of the selection.
    pub fn cursor_offset(&self) -> (r: usize)
        ensures
            r == self@.cursor(),
    {
        if self.selection_reversed {
            self.selected_range.start
        } else {
            self.selected_range.end
        }
    }

    /// Collapse the selection to `offset`, clamped to the content.
    pub fn move_to(&mut self, offset: usize)
        requires
            old(self)@.wf(),
            is_char_start(old(self)@.content, old(self)@.clamp(offset as nat) as int),
        ensures
            final(self)@ == old(self)@.move_to(offset as nat),
            final(self)@.wf(),
    {
        let n = self.len();
        let o = if offset <= n {
            offset
        } else {
            n
        };
        self.selected_range = o..o;
        self.autoscroll = true;
    }

    /// The byte range an edit applies to (see `InputModel::edit_range`).
    fn edit_range(&self, range_utf16: &Option<Range<usize>>) -> (r: Range<usize>)
        requires
            self@.wf(),
        ensures
            (r.start as nat, r.end as nat) == self@.edit_range(range_pair(*range_utf16)),
            is_char_start(self@.content, r.start as int),
            is_char_start(self@.content, r.end as int),
    {
        proof {
            lemma_utf8_width_bytes(self.content@);
        }
        match range_utf16 {
            Some(r) => {
                let start = offset_from_utf16(self.content.as_str(), r.start);
                let end = offset_from_utf16(self.content.as_str(), r.end);
                proof {
                    lemma_from_utf16_char_start(self.content@, r.start as int);
                    lemma_from_utf16_char_start(self.content@, r.end as int);
                }
                start..end
            },
            None => match &self.marked_range {
                Some(m) => m.start..m.end,
                None => self.selected_range.start..self.selected_range.end,
            },
        }
    }

    /// Report the content to the application: forget the goal column, scroll
    /// the caret into view, and remember the value sent.
    fn notify_change(&mut self) -> (r: String)
        ensures
            final(self)@ == old(self)@.changed(),
            r@ == old(self)@.content,
    {
        self.goal_x = None;
        self.autoscroll = true;
        let value = self.content.clone();
        self.last_sent = value.clone();
        value
    }

    /// Replace the edit range (the given UTF-16 range, else the composition,
    /// else the selection) with `new_text`; the caret ends after it and the
    /// composition ends. Returns the new value to report.
    pub fn replace_text_in_range(&mut self, range_utf16: Option<Range<usize>>, new_text: &str) -> (r: String)
        requires
            old(self)@.wf(),
            utf8_width(
                old(self)@.replaced(old(self)@.edit_range(range_pair(range_utf16)), new_text@),
            ) <= usize::MAX,
        ensures
            final(self)@ == old(self)@.replace(range_pair(range_utf16), new_text@),
            final(self)@.wf(),
            r@ == final(self)@.content,
    {
        let range = self.edit_range(&range_utf16);
        let ghost s = self.content@;
        let ghost t = new_text@;
        proof {
            lemma_char_start_bounds(s, range.start as int);
            lemma_char_start_bounds(s, range.end as int);
            let ks = char_index_at(s, range.start as int);
            let ke = char_index_at(s, range.end as int);
            lemma_splice_widths(s, ks, ke, t);
            crate::text_geometry::lemma_prefix_width_le(s, ke);
            lemma_utf8_width_bytes(t);
        }
        let spliced = splice_content(self.content.as_str(), &range, new_text);
        let caret = range.start + new_text.len();
        self.content = spliced;
        self.selected_range = caret..caret;
        self.marked_range = None;
        self.notify_change()
    }

    /// Replace the edit range with `new_text` and mark the inserted text as the
    /// active composition (none when the text is empty). The new selection is
    /// `new_selected_range_utf16`, converted against the new content and
    /// shifted by the edit start, else a caret after the text.
    pub fn replace_and_mark_text_in_range(
        &mut self,
        range_utf16: Option<Range<usize>>,
        new_text: &str,
        new_selected_range_utf16: Option<Range<usize>>,
    ) -> (r: String)
        requires
            old(self)@.wf(),
            utf8_width(
                old(self)@.replaced(old(self)@.edit_range(range_pair(range_utf16)), new_text@),
            ) <= usize::MAX,
            new_selected_range_utf16 is Some ==> valid_range(
                old(self)@.replaced(old(self)@.edit_range(range_pair(range_utf16)), new_text@),
                old(self)@.marked_selection(range_pair(range_utf16), new_text@, range_pair(new_selected_range_utf16)),
            ),
        ensures
            final(self)@ == old(self)@.replace_and_mark(
                range_pair(range_utf16),
                new_text@,
                range_pair(new_selected_range_utf16),
            ),
            final(self)@.wf(),
            r@ == final(self)@.content,
    {
        let range = self.edit_range(&range_utf16);
        let ghost s = self.content@;
        let ghost t = new_text@;
        proof {
            lemma_char_start_bounds(s, range.start as int);
            lemma_char_start_bounds(s, range.end as int);
            let ks = char_index_at(s, range.start as int);
            let ke = char_index_at(s, range.end as int);
            lemma_splice_widths(s, ks, ke, t);
            crate::text_geometry::lemma_prefix_width_le(s, ke);
            lemma_utf8_width_bytes(t);
        }
        let spliced = splice_content(self.content.as_str(), &range, new_text);
        let caret = range.start + new_text.len();
        self.content = spliced;
        if !new_text.is_empty() {
            self.marked_range = Some(range.start..caret);
        } else {
            self.marked_range = None;
        }
        proof {
            lemma_utf8_width_bytes(self.content@);
        }
        match new_selected_range_utf16 {
            Some(sel) => {
                let a = offset_from_utf16(self.content.as_str(), sel.start);
                let b = offset_from_utf16(self.content.as_str(), sel.end);
                proof {
                    let ms = old(self)@.marked_selection(
                        range_pair(range_utf16),
                        t,
                        range_pair(new_selected_range_utf16),
                    );
                    assert(ms.0 == a + range.start && ms.1 == b + range.start);
                    lemma_char_start_bounds(self.content@, ms.0 as int);
                    lemma_char_start_bounds(self.content@, ms.1 as int);
                }
                self.selected_range = (a + range.start)..(b + range.start);
            },
            None => {
                self.selected_range = caret..caret;
            },
        }
        self.notify_change()
    }

    /// End the composition, keeping its text.
    pub fn unmark_text(&mut self)
        ensures
            final(self)@ == (InputModel { marked: None, ..old(self)@ }),
    {
        self.marked_range = None;
    }

    /// The selection in UTF-16 units, and whether it is reversed.
    pub fn selected_text_range(&self) -> (r: (Range<usize>, bool))
        requires
            self@.wf(),
        ensures
            r.0.start == to_utf16(self@.content, self@.selected.0 as int),
            r.0.end == to_utf16(self@.content, self@.selected.1 as int),
            r.1 == self@.reversed,
    {
        proof {
            lemma_utf8_width_bytes(self.content@);
        }
        let start = offset_to_utf16(self.content.as_str(), self.selected_range.start);
        let end = offset_to_utf16(self.content.as_str(), self.selected_range.end);
        (start..end, self.selection_reversed)
    }

    /// The composition range in UTF-16 units.
    pub fn marked_text_range(&self) -> (r: Option<Range<usize>>)
        requires
            self@.wf(),
        ensures
            match self@.marked {
                Some(m) => r matches Some(u) && u.start == to_utf16(self@.content, m.0 as int)
                    && u.end == to_utf16(self@.content, m.1 as int),
                None => r is None,
            },
    {
        proof {
            lemma_utf8_width_bytes(self.content@);
        }
        match &self.marked_range {
            Some(m) => {
                let start = offset_to_utf16(self.content.as_str(), m.start);
                let end = offset_to_utf16(self.content.as_str(), m.end);
                Some(start..end)
            },
            None => None,
        }
    }

    /// Delete the grapheme cluster before the caret, or the selection (or the
    /// composition, while one is active); rings when there is nothing before
    /// the caret.
    pub fn backspace(&mut self) -> (r: EditEffect)
        requires
            old(self)@.wf(),
        ensures
            final(self)@ == old(self)@.backspace(),
            final(self)@.wf(),
            r is Bell <==> old(self)@.backspace_rings(),
            r is Bell || (r matches EditEffect::Changed(v) && v@ == final(self)@.content),
    {
        if !(self.selected_range.start < self.selected_range.end) {
            let cur = self.cursor_offset();
            let prev = previous_boundary(self.content.as_str(), cur);
            if cur == prev {
                return EditEffect::Bell;
            }
            proof {
                lemma_char_start_bounds(self.content@, prev as int);
            }
            self.select_to(prev);
        }
        proof {
            lemma_delete_fits(self@);
            reveal_strlit("");
        }
        let v = self.replace_text_in_range(None, "");
        EditEffect::Changed(v)
    }

    /// Delete the grapheme cluster after the caret, or the selection (or the
    /// composition, while one is active); rings when there is nothing after
    /// the caret.
    pub fn delete(&mut self) -> (r: EditEffect)
        requires
            old(self)@.wf(),
        ensures
            final(self)@ == old(self)@.delete(),
            final(self)@.wf(),
            r is Bell <==> old(self)@.delete_rings(),
            r is Bell || (r matches EditEffect::Changed(v) && v@ == final(self)@.content),
    {
        if !(self.selected_range.start < self.selected_range.end) {
            let cur = self.cursor_offset();
            proof {
                lemma_utf8_width_bytes(self.content@);
            }
            let next = next_boundary(self.content.as_str(), cur);
            if cur == next {
                return EditEffect::Bell;
            }
            proof {
                lemma_char_start_bounds(self.content@, next as int);
            }
            self.select_to(next);
        }
        proof {
            lemma_delete_fits(self@);
            reveal_strlit("");
        }
        let v = self.replace_text_in_range(None, "");
        EditEffect::Changed(v)
    }

    /// Left: collapse a selection to its start, else step back one cluster.
    pub fn left(&mut self)
        requires
            old(self)@.wf(),
        ensures
            final(self)@ == old(self)@.left(),
            final(self)@.wf(),
    {
        self.goal_x = None;
        if !(self.selected_range.start < self.selected_range.end) {
            let prev = previous_boundary(self.content.as_str(), self.cursor_offset());
            proof {
                lemma_char_start_bounds(self.content@, prev as int);
            }
            self.move_to(prev);
        } else {
            proof {
                lemma_char_start_bounds(self.content@, self.selected_range.start as int);
            }
            self.move_to(self.selected_range.start);
        }
    }

    /// Right: collapse a selection to its end, else step forward one cluster.
    pub fn right(&mut self)
        requires
            old(self)@.wf(),
        ensures
            final(self)@ == old(self)@.right(),
            final(self)@.wf(),
    {
        self.goal_x = None;
        proof {
            lemma_utf8_width_bytes(self.content@);
        }
        if !(self.selected_range.start < self.selected_range.end) {
            let next = next_boundary(self.content.as_str(), self.selected_range.end);
            proof {
                lemma_char_start_bounds(self.content@, next as int);
            }
            self.move_to(next);
        } else {
            proof {
                lemma_char_start_bounds(self.content@, self.selected_range.end as int);
            }
            self.move_to(self.selected_range.end);
        }
    }

    /// Extend the selection one cluster to the left.
    pub fn select_left(&mut self)
        requires
            old(self)@.wf(),
        ensures
            final(self)@ == old(self)@.select_left(),
            final(self)@.wf(),
    {
        self.goal_x = None;
        let prev = previous_boundary(self.content.as_str(), self.cursor_offset());
        proof {
            lemma_char_start_bounds(self.content@, prev as int);
        }
        self.select_to(prev);
    }

    /// Extend the selection one cluster to the right.
    pub fn select_right(&mut self)
        requires
            old(self)@.wf(),
        ensures
            final(self)@ == old(self)@.select_right(),
            final(self)@.wf(),
    {
        self.goal_x = None;
        proof {
            lemma_utf8_width_bytes(self.content@);
        }
        let next = next_boundary(self.content.as_str(), self.cursor_offset());
        proof {
            lemma_char_start_bounds(self.content@, next as int);
        }
        self.select_to(next);
    }

    /// Select the whole content, caret at the end.
    pub fn select_all(&mut self)
        requires
            old(self)@.wf(),
        ensures
            final(self)@ == old(self)@.select_all(),
            final(self)@.wf(),
    {
        self.goal_x = None;
        proof {
            lemma_char_start_ends(self.content@);
        }
        self.move_to(0);
        let n = self.len();
        self.select_to(n);
    }

    /// Home; `row_start` is the start of the caret's visual row when the
    /// layout knows it.
    pub fn home(&mut self, row_start: Option<usize>)
        requires
            old(self)@.wf(),
            old(self)@.multiline ==> (row_start matches Some(o) ==> is_char_start(
                old(self)@.content,
                old(self)@.clamp(o as nat) as int,
            )),
        ensures
            final(self)@ == old(self)@.home(match row_start {
                Some(o) => Some(o as nat),
                None => None,
            }),
            final(self)@.wf(),
    {
        self.goal_x = None;
        proof {
            lemma_char_start_ends(self.content@);
        }
        match row_start {
            Some(o) if self.multiline => self.move_to(o),
            _ => self.move_to(0),
        }
    }

    /// End; `row_end` is the end of the caret's visual row when the layout
    /// knows it.
    pub fn end(&mut self, row_end: Option<usize>)
        requires
            old(self)@.wf(),
            old(self)@.multiline ==> (row_end matches Some(o) ==> is_char_start(
                old(self)@.content,
                old(self)@.clamp(o as nat) as int,
            )),
        ensures
            final(self)@ == old(self)@.end(match row_end {
                Some(o) => Some(o as nat),
                None => None,
            }),
            final(self)@.wf(),
    {
        self.goal_x = None;
        proof {
            lemma_char_start_ends(self.content@);
        }
        match row_end {
            Some(o) if self.multiline => self.move_to(o),
            _ => {
                let n = self.len();
                self.move_to(n);
            },
        }
    }

    /// Up (`down == false`) or Down, moving the caret or (`extend`) the
    /// selection; `target` is the offset the layout found on the adjacent row
    /// with the goal column used, when laid out.
    pub fn vertical_move(&mut self, down: bool, extend: bool, target: Option<(usize, G)>)
        requires
            old(self)@.wf(),
            old(self)@.multiline ==> (target matches Some((t, _)) ==> is_char_start(
                old(self)@.content,
                old(self)@.clamp(t as nat) as int,
            )),
        ensures
            final(self)@ == old(self)@.vertical_move(down, extend, match target {
                Some((t, g)) => Some((t as nat, g)),
                None => None,
            }),
            final(self)@.wf(),
    {
        if !self.multiline {
            proof {
                lemma_char_start_ends(self.content@);
            }
            let t = if down {
                self.len()
            } else {
                0
            };
            if extend {
                self.select_to(t);
            } else {
                self.move_to(t);
            }
            return ;
        }
        match target {
            None => {},
            Some((t, g)) => {
                self.goal_x = Some(g);
                if extend {
                    self.select_to(t);
                } else {
                    self.move_to(t);
                }
            },
        }
    }

    /// Enter: a line feed in a multiline input, else submit the value.
    pub fn enter(&mut self) -> (r: EditEffect)
        requires
            old(self)@.wf(),
            old(self)@.multiline ==> utf8_width(
                old(self)@.replaced(old(self)@.edit_range(None), seq!['\n']),
            ) <= usize::MAX,
        ensures
            final(self)@ == old(self)@.enter(),
            final(self)@.wf(),
            old(self)@.multiline ==> (r matches EditEffect::Changed(v) && v@ == final(self)@.content),
            !old(self)@.multiline ==> (r matches EditEffect::Submit(v) && v@ == old(self)@.content),
    {
        if self.multiline {
            proof {
                reveal_strlit("\n");
                assert("\n"@ =~= seq!['\n']);
            }
            let v = self.replace_text_in_range(None, "\n");
            EditEffect::Changed(v)
        } else {
            EditEffect::Submit(self.content.clone())
        }
    }

    /// Paste `text` over the edit range (line feeds become spaces in a
    /// single-line input). Returns the new value to report.
    pub fn paste(&mut self, text: &str) -> (r: String)
        requires
            old(self)@.wf(),
            utf8_width(
                old(self)@.replaced(old(self)@.edit_range(None), old(self)@.pasted_text(text@)),
            ) <= usize::MAX,
        ensures
            final(self)@ == old(self)@.replace(None, old(self)@.pasted_text(text@)),
            final(self)@.wf(),
            r@ == final(self)@.content,
    {
        if self.multiline {
            self.replace_text_in_range(None, text)
        } else {
            let t = newlines_to_spaces(text);
            self.replace_text_in_range(None, t.as_str())
        }
    }

    /// The selected text to put on the clipboard, when the selection is not empty.
    pub fn copy(&self) -> (r: Option<String>)
        requires
            self@.wf(),
        ensures
            self@.selection_empty() ==> r is None,
            !self@.selection_empty() ==> (r matches Some(t) && t@ == self@.selected_text()),
    {
        if self.selected_range.start < self.selected_range.end {
            Some(byte_range_text(self.content.as_str(), self.selected_range.start, self.selected_range.end))
        } else {
            None
        }
    }

    /// Cut: the selected text for the clipboard and the new value to report,
    /// when the selection is not empty.
    pub fn cut(&mut self) -> (r: Option<(String, String)>)
        requires
            old(self)@.wf(),
        ensures
            old(self)@.selection_empty() ==> r is None && final(self)@ == old(self)@,
            !old(self)@.selection_empty() ==> (r matches Some((c, v)) && c@ == old(self)@.selected_text()
                && final(self)@ == old(self)@.delete_range() && v@ == final(self)@.content),
            final(self)@.wf(),
    {
        if self.selected_range.start < self.selected_range.end {
            let clip = byte_range_text(self.content.as_str(), self.selected_range.start, self.selected_range.end);
            proof {
                lemma_delete_fits(self@);
                reveal_strlit("");
            }
            let v = self.replace_text_in_range(None, "");
            Some((clip, v))
        } else {
            None
        }
    }

    /// Mouse press at content offset `offset` (from hit-testing): start a
    /// drag-select there, extending the selection when Shift is held.
    pub fn on_mouse_down(&mut self, offset: usize, shift: bool)
        requires
            old(self)@.wf(),
            is_char_start(old(self)@.content, old(self)@.clamp(offset as nat) as int),
        ensures
            final(self)@ == old(self)@.mouse_down(offset as nat, shift),
            final(self)@.wf(),
    {
        self.goal_x = None;
        self.is_selecting = true;
        if shift {
            self.select_to(offset);
        } else {
            self.move_to(offset);
        }
    }

    /// Mouse release: the drag-select ends.
    pub fn on_mouse_up(&mut self)
        ensures
            final(self)@ == (InputModel { is_selecting: false, ..old(self)@ }),
    {
        self.is_selecting = false;
    }

    /// Mouse movement over content offset `offset`: extends a drag-select.
    pub fn on_mouse_move(&mut self, offset: usize)
        requires
            old(self)@.wf(),
            old(self)@.is_selecting ==> is_char_start(old(self)@.content, old(self)@.clamp(offset as nat) as int),
        ensures
            final(self)@ == old(self)@.mouse_move(offset as nat),
            final(self)@.wf(),
    {
        if self.is_selecting {
            self.select_to(offset);
        }
    }

    /// The text of a UTF-16 range, with the UTF-16 range it actually covers
    /// (both ends rounded to whole characters).
    pub fn text_for_range(&self, range_utf16: Range<usize>) -> (r: (String, Range<usize>))
        requires
            self@.wf(),
            range_utf16.start <= range_utf16.end,
        ensures
            ({
                let s = self@.content;
                let a = from_utf16(s, range_utf16.start as int);
                let b = from_utf16(s, range_utf16.end as int);
                &&& r.0@ == s.subrange(char_index_at(s, a as int), char_index_at(s, b as int))
                &&& r.1.start == to_utf16(s, a as int)
                &&& r.1.end == to_utf16(s, b as int)
            }),
    {
        proof {
            lemma_utf8_width_bytes(self.content@);
            lemma_from_utf16_char_start(self.content@, range_utf16.start as int);
            lemma_from_utf16_char_start(self.content@, range_utf16.end as int);
            lemma_from_utf16_monotone(self.content@, range_utf16.start as int, range_utf16.end as int);
        }
        let a = offset_from_utf16(self.content.as_str(), range_utf16.start);
        let b = offset_from_utf16(self.content.as_str(), range_utf16.end);
        let text = byte_range_text(self.content.as_str(), a, b);
        let ua = offset_to_utf16(self.content.as_str(), a);
        let ub = offset_to_utf16(self.content.as_str(), b);
        (text, ua..ub)
    }

    /// Mirror the `multiline` prop and adopt an external `value` (see
    /// `InputModel::sync_value`).
    pub fn sync_from_props(&mut self, multiline: bool, value: Option<String>)
        requires
            old(self)@.wf(),
            value matches Some(v) ==> utf8_width(v@) <= usize::MAX,
        ensures
            final(self)@ == (InputModel { multiline, ..old(self)@ }).sync_value(match value {
                Some(v) => Some(v@),
                None => None,
            }),
            final(self)@.wf(),
    {
        self.multiline = multiline;
        if self.marked_range.is_none() {
            if let Some(v) = value {
                if !crate::text_util::str_eq(v.as_str(), self.last_sent.as_str()) {
                    proof {
                        lemma_utf8_width_bytes(v@);
                        lemma_char_start_ends(v@);
                    }
                    let n = v.as_str().len();
                    self.content = v.clone();
                    self.selected_range = n..n;
                    self.last_sent = v;
                    self.autoscroll = true;
                }
            }
        }
    }

    /// Record focus as painted: `Some(true)` when the input just gained
    /// focus (a `focus` event), `Some(false)` when it lost it (`blur`).
    pub fn observe_focus(&mut self, is_focused: bool) -> (r: Option<bool>)
        ensures
            final(self)@ == (InputModel { was_focused: is_focused, ..old(self)@ }),
            r == (if is_focused != old(self)@.was_focused {
                Some(is_focused)
            } else {
                None
            }),
    {
        if is_focused != self.was_focused {
            self.was_focused = is_focused;
            Some(is_focused)
        } else {
            None
        }
    }

    /// Move the active end of the selection to `offset` (clamped to the
    /// content); the ends swap when they cross.
    pub fn select_to(&mut self, offset: usize)
        requires
            old(self)@.wf(),
            is_char_start(old(self)@.content, old(self)@.clamp(offset as nat) as int),
        ensures
            final(self)@ == old(self)@.select_to(offset as nat),
            final(self)@.wf(),
    {
        let n = self.len();
        let o = if offset <= n {
            offset
        } else {
            n
        };
        let range = self.selected_range.start..self.selected_range.end;
        let (r, reversed) = extend_selection(range, self.selection_reversed, o);
        self.selected_range = r;
        self.selection_reversed = reversed;
        self.autoscroll = true;
    }
}

} // verus!
