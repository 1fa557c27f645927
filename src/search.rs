//! Search and selection state of the picker: the query being typed, the
//! cursor in it, the entries that match it, and which of them is selected.

use crate::pinyin::{match_pinyin, pinyin_match};
use crate::text::{string_of_chars, texts_view, trim_of, trimmed};
use vstd::prelude::*;

verus! {

/// A key press, as the picker sees it.
pub enum Key {
    Esc,
    Down,
    Up,
    Left,
    Right,
    Home,
    End,
    Backspace,
    Char(char),
    Enter,
    Other,
}

/// What the caller has to do after a key press.
pub enum Action {
    Nothing,
    Exit,
    Copy(String),
}

/// Indices below `n` of the entries that `q` matches, in increasing order.
pub open spec fn matching(q: Seq<char>, items: Seq<Seq<char>>, n: int) -> Seq<usize>
    decreases n,
{
    if n <= 0 {
        Seq::empty()
    } else if pinyin_match(q, items[n - 1]) {
        matching(q, items, n - 1).push((n - 1) as usize)
    } else {
        matching(q, items, n - 1)
    }
}

/// The filtered list for a query: nothing when the trimmed query is empty,
/// else the indices of the entries that the trimmed query matches, in order.
pub open spec fn filter_of(query: Seq<char>, items: Seq<Seq<char>>) -> Seq<usize> {
    if trim_of(query).len() == 0 {
        Seq::empty()
    } else {
        matching(trim_of(query), items, items.len() as int)
    }
}

/// The selection right after a rebuild: the first filtered entry, if any.
pub open spec fn first_of(filtered: Seq<usize>) -> Option<usize> {
    if filtered.len() == 0 {
        None
    } else {
        Some(0)
    }
}

/// The selection after moving down, wrapping round at the end.
pub open spec fn next_of(selected: Option<usize>, len: nat) -> Option<usize> {
    if len == 0 {
        selected
    } else {
        match selected {
            Some(i) if i + 1 < len => Some((i + 1) as usize),
            _ => Some(0),
        }
    }
}

/// The selection after moving up, wrapping round at the start.
pub open spec fn previous_of(selected: Option<usize>, len: nat) -> Option<usize> {
    if len == 0 {
        selected
    } else {
        match selected {
            Some(i) if i > 0 => Some((i - 1) as usize),
            _ => Some((len - 1) as usize),
        }
    }
}

proof fn lemma_matching(q: Seq<char>, items: Seq<Seq<char>>, n: int)
    requires
        0 <= n <= items.len() <= usize::MAX,
    ensures
        forall|a: int| 0 <= a < matching(q, items, n).len() ==> matching(q, items, n)[a] < n,
        forall|a: int, b: int|
            0 <= a < b < matching(q, items, n).len() ==> matching(q, items, n)[a] < matching(
                q,
                items,
                n,
            )[b],
        forall|i: int|
            0 <= i < n ==> (matching(q, items, n).contains(i as usize) <==> pinyin_match(
                q,
                items[i],
            )),
    decreases n,
{
    if n > 0 {
        lemma_matching(q, items, n - 1);
        let p = matching(q, items, n - 1);
        let m = matching(q, items, n);
        if pinyin_match(q, items[n - 1]) {
            assert(m == p.push((n - 1) as usize));
            assert(m[p.len() as int] == (n - 1) as usize);
        }
        assert forall|i: int| 0 <= i < n implies (m.contains(i as usize) <==> pinyin_match(
            q,
            items[i],
        )) by {
            if i < n - 1 {
                if p.contains(i as usize) {
                    let j = choose|j: int| 0 <= j < p.len() && p[j] == i as usize;
                    assert(m[j] == i as usize);
                }
                if m.contains(i as usize) {
                    let j = choose|j: int| 0 <= j < m.len() && m[j] == i as usize;
                    if j < p.len() {
                        assert(p[j] == i as usize);
                    }
                }
            } else if pinyin_match(q, items[n - 1]) {
                assert(m[p.len() as int] == (n - 1) as usize);
            } else {
                if p.contains(i as usize) {
                    let j = choose|j: int| 0 <= j < p.len() && p[j] == i as usize;
                }
            }
        }
    }
}

/// The filtered list is exactly the matching entries in store order: for an
/// empty (trimmed) query it is empty; otherwise an index is in it if and only
/// if the trimmed query matches that entry, and its indices are valid and
/// strictly increasing.
pub proof fn lemma_filter_exact(query: Seq<char>, items: Seq<Seq<char>>)
    requires
        items.len() <= usize::MAX,
    ensures
        trim_of(query).len() == 0 ==> filter_of(query, items).len() == 0,
        trim_of(query).len() > 0 ==> forall|i: int|
            0 <= i < items.len() ==> (filter_of(query, items).contains(i as usize)
                <==> pinyin_match(trim_of(query), items[i])),
        forall|a: int|
            0 <= a < filter_of(query, items).len() ==> filter_of(query, items)[a] < items.len(),
        forall|a: int, b: int|
            0 <= a < b < filter_of(query, items).len() ==> filter_of(query, items)[a]
                < filter_of(query, items)[b],
{
    if trim_of(query).len() > 0 {
        lemma_matching(trim_of(query), items, items.len() as int);
    }
}

/// The picker's state.
pub struct Tui {
    pub exit: bool,
    pub search_text: Vec<char>,
    pub character_index: usize,
    pub items: Vec<String>,
    pub filtered_indices: Vec<usize>,
    pub selected: Option<usize>,
}

impl Tui {
    /// The entries, as character sequences.
    pub open spec fn items_view(&self) -> Seq<Seq<char>> {
        texts_view(self.items@)
    }

    /// The selection points into the filtered list, and is absent only when
    /// that list is empty.
    pub open spec fn selection_ok(&self) -> bool {
        match self.selected {
            None => self.filtered_indices@.len() == 0,
            Some(s) => s < self.filtered_indices@.len(),
        }
    }

    /// The cursor lies within the query, the filtered list is the one that
    /// the query gives, and the selection is valid.
    pub open spec fn wf(&self) -> bool {
        &&& self.character_index <= self.search_text@.len()
        &&& self.filtered_indices@ == filter_of(self.search_text@, self.items_view())
        &&& self.selection_ok()
    }

    /// Recomputes the filtered list from the query and selects its first entry.
    pub fn rebuild_filter(&mut self)
        ensures
            final(self).filtered_indices@ == filter_of(final(self).search_text@, final(self).items_view()),
            final(self).selected == first_of(final(self).filtered_indices@),
            final(self).search_text@.len() == 0 ==> final(self).filtered_indices@.len() == 0,
            final(self).exit == old(self).exit,
            final(self).search_text == old(self).search_text,
            final(self).character_index == old(self).character_index,
            final(self).items == old(self).items,
    {
        let q = string_of_chars(&self.search_text);
        let search = trimmed(q.as_str());
        if search.as_str().is_empty() {
            self.filtered_indices.clear();
            self.selected = None;
            assert(self.filtered_indices@ =~= Seq::<usize>::empty());
            return;
        }
        let mut filtered: Vec<usize> = Vec::new();
        let mut i: usize = 0;
        while i < self.items.len()
            invariant
                i <= self.items@.len(),
                search@ == trim_of(self.search_text@),
                filtered@ == matching(search@, self.items_view(), i as int),
            decreases self.items.len() - i,
        {
            if match_pinyin(search.as_str(), self.items[i].as_str()) {
                filtered.push(i);
            }
            i = i + 1;
        }
        self.filtered_indices = filtered;
        if self.filtered_indices.len() == 0 {
            self.selected = None;
        } else {
            self.selected = Some(0);
        }
    }

    /// A picker over `items`, with an empty query: nothing is shown and
    /// nothing is selected.
    pub fn new(items: Vec<String>) -> (r: Tui)
        ensures
            r.wf(),
            r.items_view() == texts_view(items@),
            r.search_text@.len() == 0,
            r.character_index == 0,
            r.filtered_indices@.len() == 0,
            r.selected.is_none(),
            !r.exit,
    {
        let mut tui = Tui {
            exit: false,
            search_text: Vec::new(),
            character_index: 0,
            items,
            filtered_indices: Vec::new(),
            selected: Some(0),
        };
        tui.rebuild_filter();
        // Brings the fact that the entry count fits in a usize.
        let _count = tui.items.len();
        proof {
            lemma_filter_exact(tui.search_text@, tui.items_view());
        }
        tui
    }

    /// Replaces the entries with a fresh copy of the history and rebuilds the
    /// filtered list against it, keeping the query and the cursor.
    pub fn update_text_list(&mut self, items: Vec<String>)
        requires
            old(self).wf(),
        ensures
            final(self).wf(),
            final(self).items_view() == texts_view(items@),
            final(self).search_text == old(self).search_text,
            final(self).character_index == old(self).character_index,
            final(self).exit == old(self).exit,
            final(self).selected == first_of(final(self).filtered_indices@),
    {
        self.items = items;
        self.selected = Some(0);
        self.rebuild_filter();
    }

    /// `pos`, brought within the query: at most its number of characters.
    pub fn clamp_cursor(&self, pos: usize) -> (r: usize)
        ensures
            r == if pos <= self.search_text@.len() { pos as int } else { self.search_text@.len() as int },
    {
        if pos > self.search_text.len() {
            self.search_text.len()
        } else {
            pos
        }
    }

    /// Moves the cursor one character to the left, stopping at the start.
    pub fn move_cursor_left(&mut self)
        requires
            old(self).wf(),
        ensures
            final(self).wf(),
            final(self).character_index == if old(self).character_index == 0 { 0 } else { old(self).character_index - 1 },
            final(self).search_text == old(self).search_text,
            final(self).items == old(self).items,
            final(self).filtered_indices == old(self).filtered_indices,
            final(self).selected == old(self).selected,
            final(self).exit == old(self).exit,
    {
        let moved = if self.character_index == 0 { 0 } else { self.character_index - 1 };
        self.character_index = self.clamp_cursor(moved);
    }

    /// Moves the cursor one character to the right, stopping at the end.
    pub fn move_cursor_right(&mut self)
        requires
            old(self).wf(),
        ensures
            final(self).wf(),
            final(self).character_index == if old(self).character_index == old(self).search_text@.len() {
                old(self).character_index as int
            } else {
                old(self).character_index + 1
            },
            final(self).search_text == old(self).search_text,
            final(self).items == old(self).items,
            final(self).filtered_indices == old(self).filtered_indices,
            final(self).selected == old(self).selected,
            final(self).exit == old(self).exit,
    {
        let len = self.search_text.len();
        let moved = if self.character_index < len { self.character_index + 1 } else { len };
        self.character_index = self.clamp_cursor(moved);
    }

    /// Inserts `c` at the cursor, moves the cursor past it, and rebuilds the
    /// filtered list.
    pub fn enter_char(&mut self, c: char)
        requires
            old(self).wf(),
            old(self).search_text@.len() < usize::MAX,
        ensures
            final(self).wf(),
            final(self).search_text@ == old(self).search_text@.insert(old(self).character_index as int, c),
            final(self).character_index == old(self).character_index + 1,
            final(self).items == old(self).items,
            final(self).selected == first_of(final(self).filtered_indices@),
            final(self).exit == old(self).exit,
    {
        self.search_text.insert(self.character_index, c);
        self.character_index = self.character_index + 1;
        self.rebuild_filter();
    }

    /// Removes the character before the cursor, if there is one, moving the
    /// cursor back over it; then rebuilds the filtered list.
    pub fn delete_char(&mut self)
        requires
            old(self).wf(),
        ensures
            final(self).wf(),
            old(self).character_index == 0 ==> final(self).search_text == old(self).search_text
                && final(self).character_index == 0,
            old(self).character_index > 0 ==> final(self).search_text@ == old(self).search_text@.remove(old(self).character_index - 1)
                && final(self).character_index == old(self).character_index - 1,
            final(self).items == old(self).items,
            final(self).selected == first_of(final(self).filtered_indices@),
            final(self).exit == old(self).exit,
    {
        if self.character_index != 0 {
            let at = self.character_index - 1;
            self.search_text.remove(at);
            self.character_index = at;
        }
        self.rebuild_filter();
    }

    /// Empties the query, puts the cursor at its start, and rebuilds the
    /// filtered list, which is then empty.
    pub fn clear_search(&mut self)
        requires
            old(self).wf(),
        ensures
            final(self).wf(),
            final(self).search_text@.len() == 0,
            final(self).character_index == 0,
            final(self).filtered_indices@.len() == 0,
            final(self).selected.is_none(),
            final(self).items == old(self).items,
            final(self).exit == old(self).exit,
    {
        self.search_text.clear();
        self.character_index = 0;
        self.rebuild_filter();
        // Brings the fact that the entry count fits in a usize.
        let _count = self.items.len();
        proof {
            lemma_filter_exact(self.search_text@, self.items_view());
        }
    }

    /// Selects the next filtered entry, wrapping round to the first.
    pub fn select_next(&mut self)
        requires
            old(self).wf(),
        ensures
            final(self).wf(),
            final(self).selected == next_of(old(self).selected, old(self).filtered_indices@.len()),
            final(self).search_text == old(self).search_text,
            final(self).character_index == old(self).character_index,
            final(self).items == old(self).items,
            final(self).filtered_indices == old(self).filtered_indices,
            final(self).exit == old(self).exit,
    {
        let len = self.filtered_indices.len();
        if len == 0 {
            return;
        }
        let next = match self.selected {
            Some(i) if i + 1 < len => i + 1,
            _ => 0,
        };
        self.selected = Some(next);
    }

    /// Selects the previous filtered entry, wrapping round to the last.
    pub fn select_previous(&mut self)
        requires
            old(self).wf(),
        ensures
            final(self).wf(),
            final(self).selected == previous_of(old(self).selected, old(self).filtered_indices@.len()),
            final(self).search_text == old(self).search_text,
            final(self).character_index == old(self).character_index,
            final(self).items == old(self).items,
            final(self).filtered_indices == old(self).filtered_indices,
            final(self).exit == old(self).exit,
    {
        let len = self.filtered_indices.len();
        if len == 0 {
            return;
        }
        let prev = match self.selected {
            Some(i) if i > 0 => i - 1,
            _ => len - 1,
        };
        self.selected = Some(prev);
    }

    /// Selects the first filtered entry; with none, nothing is selected.
    pub fn select_first(&mut self)
        requires
            old(self).wf(),
        ensures
            final(self).wf(),
            final(self).selected == first_of(old(self).filtered_indices@),
            final(self).search_text == old(self).search_text,
            final(self).character_index == old(self).character_index,
            final(self).items == old(self).items,
            final(self).filtered_indices == old(self).filtered_indices,
            final(self).exit == old(self).exit,
    {
        if self.filtered_indices.len() == 0 {
            self.selected = None;
        } else {
            self.selected = Some(0);
        }
    }

    /// Selects the last filtered entry; with none, nothing is selected.
    pub fn select_last(&mut self)
        requires
            old(self).wf(),
        ensures
            final(self).wf(),
            final(self).selected == if old(self).filtered_indices@.len() == 0 {
                None
            } else {
                Some((old(self).filtered_indices@.len() - 1) as usize)
            },
            final(self).search_text == old(self).search_text,
            final(self).character_index == old(self).character_index,
            final(self).items == old(self).items,
            final(self).filtered_indices == old(self).filtered_indices,
            final(self).exit == old(self).exit,
    {
        let len = self.filtered_indices.len();
        if len == 0 {
            self.selected = None;
        } else {
            self.selected = Some(len - 1);
        }
    }

    /// The entry under the selection, if there is one.
    pub fn selected_text(&self) -> (r: Option<String>)
        requires
            self.wf(),
        ensures
            match self.selected {
                None => r.is_none(),
                Some(s) => r.is_some() && r.unwrap()@ == self.items_view()[self.filtered_indices@[s as int] as int],
            },
    {
        match self.selected {
            None => None,
            Some(s) => {
                // Brings the fact that the entry count fits in a usize.
                let _count = self.items.len();
                proof {
                    lemma_filter_exact(self.search_text@, self.items_view());
                }
                let entry: usize = self.filtered_indices[s];
                Some(self.items[entry].clone())
            },
        }
    }

    /// The query, as text.
    pub fn query(&self) -> (r: String)
        ensures
            r@ == self.search_text@,
    {
        string_of_chars(&self.search_text)
    }

    /// Whether the query is empty once trimmed.
    pub fn query_is_blank(&self) -> (r: bool)
        ensures
            r == (trim_of(self.search_text@).len() == 0),
    {
        let q = string_of_chars(&self.search_text);
        let search = trimmed(q.as_str());
        search.as_str().is_empty()
    }

    /// Applies one key press and says what the caller has to do next.
    /// Esc leaves the picker when the query is blank and clears the query
    /// otherwise; Enter hands over the selected entry for copying.
    pub fn handle_key(&mut self, key: Key) -> (r: Action)
        requires
            old(self).wf(),
            key is Char ==> old(self).search_text@.len() < usize::MAX,
        ensures
            final(self).wf(),
            final(self).items == old(self).items,
            match key {
                Key::Esc => if trim_of(old(self).search_text@).len() == 0 {
                    &&& r is Exit
                    &&& final(self).exit
                    &&& final(self).search_text == old(self).search_text
                    &&& final(self).selected == old(self).selected
                } else {
                    &&& r is Nothing
                    &&& final(self).search_text@.len() == 0
                    &&& final(self).character_index == 0
                    &&& final(self).filtered_indices@.len() == 0
                    &&& final(self).selected is None
                },
                Key::Down => r is Nothing && final(self).selected == next_of(
                    old(self).selected,
                    old(self).filtered_indices@.len(),
                ) && final(self).filtered_indices == old(self).filtered_indices,
                Key::Up => r is Nothing && final(self).selected == previous_of(
                    old(self).selected,
                    old(self).filtered_indices@.len(),
                ) && final(self).filtered_indices == old(self).filtered_indices,
                Key::Left => r is Nothing && final(self).character_index == if old(self).character_index == 0 {
                    0
                } else {
                    old(self).character_index - 1
                } && final(self).search_text == old(self).search_text && final(self).selected == old(self).selected,
                Key::Right => r is Nothing && final(self).character_index == if old(self).character_index
                    == old(self).search_text@.len() {
                    old(self).character_index as int
                } else {
                    old(self).character_index + 1
                } && final(self).search_text == old(self).search_text && final(self).selected == old(self).selected,
                Key::Home => r is Nothing && final(self).selected == first_of(old(self).filtered_indices@),
                Key::End => r is Nothing && final(self).selected == if old(self).filtered_indices@.len() == 0 {
                    None
                } else {
                    Some((old(self).filtered_indices@.len() - 1) as usize)
                },
                Key::Backspace => {
                    &&& r is Nothing
                    &&& old(self).character_index > 0 ==> final(self).search_text@ == old(self).search_text@.remove(old(self).character_index - 1)
                    &&& old(self).character_index == 0 ==> final(self).search_text == old(self).search_text
                    &&& final(self).selected == first_of(final(self).filtered_indices@)
                },
                Key::Char(c) => {
                    &&& r is Nothing
                    &&& final(self).search_text@ == old(self).search_text@.insert(old(self).character_index as int, c)
                    &&& final(self).character_index == old(self).character_index + 1
                    &&& final(self).selected == first_of(final(self).filtered_indices@)
                },
                Key::Enter => {
                    &&& final(self).search_text == old(self).search_text
                    &&& final(self).selected == old(self).selected
                    &&& match old(self).selected {
                        Some(s) => r matches Action::Copy(t) && t@ == old(self).items_view()[old(self).filtered_indices@[s as int] as int],
                        None => r is Nothing,
                    }
                },
                Key::Other => r is Nothing && final(self).search_text == old(self).search_text && final(self).selected == old(self).selected,
            },
    {
        match key {
            Key::Esc => {
                if self.query_is_blank() {
                    self.exit = true;
                    return Action::Exit;
                }
                self.clear_search();
            },
            Key::Down => self.select_next(),
            Key::Up => self.select_previous(),
            Key::Left => self.move_cursor_left(),
            Key::Right => self.move_cursor_right(),
            Key::Home => self.select_first(),
            Key::End => self.select_last(),
            Key::Backspace => self.delete_char(),
            Key::Char(c) => self.enter_char(c),
            Key::Enter => {
                if let Some(t) = self.selected_text() {
                    return Action::Copy(t);
                }
            },
            Key::Other => {},
        }
        Action::Nothing
    }
}

} // verus!
