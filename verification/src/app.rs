//! Application state: the page list, the selection index, the query text and
//! the exit flag, together with the keyboard-driven transitions over them.

use vstd::prelude::*;

verus! {

/// One selectable entry: a display name and the URL prefix that the typed
/// query is appended to. An empty prefix means the query is a full URL.
#[derive(Debug)]
pub struct Page {
    pub name: String,
    pub url: String,
}

/// The whole interactive state. `pages` is fixed after construction,
/// `selected` always indexes into it, `search_content` is the query text
/// being edited, and `exit` asks the event loop to stop.
#[derive(Debug)]
pub struct App {
    pub pages: Vec<Page>,
    pub selected: usize,
    pub search_content: String,
    pub exit: bool,
}

/// Relies on std's `String::push`: appends the given character to the end of
/// the string.
pub assume_specification[ String::push ](s: &mut String, c: char)
    ensures
        final(s)@ == old(s)@.push(c),
;

/// Relies on std's `String::pop`: removes and returns the last character, or
/// returns `None` and leaves the string as it is when it is empty.
pub assume_specification[ String::pop ](s: &mut String) -> (r: Option<char>)
    ensures
        old(s)@.len() == 0 ==> final(s)@ == old(s)@ && r is None,
        old(s)@.len() > 0 ==> final(s)@ == old(s)@.drop_last() && r == Some(old(s)@.last()),
;

/// A key press, reduced to the cases the dispatcher distinguishes.
#[derive(Debug, Clone, Copy)]
pub enum KeyInput {
    Up,
    Down,
    Esc,
    Enter,
    Char(char),
    Backspace,
    Other,
}

/// What the event loop must do after a transition: nothing, or spawn the
/// browser on the given URL and report the outcome back via `finish_submit`.
#[derive(Debug)]
pub enum Action {
    Idle,
    Launch(String),
}

/// Index reached by moving the selection one step up, wrapping to the end.
pub open spec fn prev_index(i: int, len: int) -> int {
    if i == 0 {
        len - 1
    } else {
        i - 1
    }
}

/// Index reached by moving the selection one step down, wrapping to the start.
pub open spec fn next_index(i: int, len: int) -> int {
    if i == len - 1 {
        0
    } else {
        i + 1
    }
}

/// The query text after one character is appended.
pub open spec fn append_effect(q: Seq<char>, c: char) -> Seq<char> {
    q.push(c)
}

/// The query text after one delete: the last character is removed, and an
/// empty text stays empty.
pub open spec fn delete_effect(q: Seq<char>) -> Seq<char> {
    if q.len() == 0 {
        q
    } else {
        q.drop_last()
    }
}

/// The URL that a submission opens: the selected page's prefix followed by
/// the query text, plain concatenation with no escaping.
pub open spec fn full_url_spec(prefix: Seq<char>, query: Seq<char>) -> Seq<char> {
    prefix + query
}

impl App {
    /// The state invariant: a non-empty page list and a selection inside it.
    pub open spec fn wf(&self) -> bool {
        &&& self.pages@.len() > 0
        &&& self.selected < self.pages@.len()
    }

    /// A fresh session over the given pages: first page selected, empty
    /// query, exit not requested.
    pub fn new(pages: Vec<Page>) -> (r: Self)
        requires
            pages@.len() > 0,
        ensures
            r.wf(),
            r.pages == pages,
            r.selected == 0,
            r.search_content@ == Seq::<char>::empty(),
            r.exit == false,
    {
        Self { pages, selected: 0, search_content: String::new(), exit: false }
    }

    /// Move the selection one entry up, wrapping from the first to the last.
    pub fn select_previous(&mut self)
        requires
            old(self).wf(),
        ensures
            final(self).wf(),
            final(self).selected == prev_index(old(self).selected as int, old(self).pages@.len() as int),
            final(self).pages == old(self).pages,
            final(self).search_content == old(self).search_content,
            final(self).exit == old(self).exit,
    {
        self.selected = match self.selected == 0 {
            true => self.pages.len() - 1,
            false => self.selected - 1,
        }
    }

    /// Move the selection one entry down, wrapping from the last to the first.
    pub fn select_next(&mut self)
        requires
            old(self).wf(),
        ensures
            final(self).wf(),
            final(self).selected == next_index(old(self).selected as int, old(self).pages@.len() as int),
            final(self).pages == old(self).pages,
            final(self).search_content == old(self).search_content,
            final(self).exit == old(self).exit,
    {
        self.selected = match self.selected == self.pages.len() - 1 {
            true => 0,
            false => self.selected + 1,
        }
    }

    /// Append one typed character to the query text.
    pub fn append_char(&mut self, c: char)
        ensures
            final(self).search_content@ == append_effect(old(self).search_content@, c),
            final(self).pages == old(self).pages,
            final(self).selected == old(self).selected,
            final(self).exit == old(self).exit,
    {
        self.search_content.push(c);
    }

    /// Remove the last character of the query text; an empty text is left
    /// empty and the call still succeeds.
    pub fn delete_last_char(&mut self)
        ensures
            final(self).search_content@ == delete_effect(old(self).search_content@),
            final(self).pages == old(self).pages,
            final(self).selected == old(self).selected,
            final(self).exit == old(self).exit,
    {
        self.search_content.pop();
    }

    /// Ask the event loop to stop; nothing else changes, and the flag never
    /// goes back to false afterwards.
    pub fn request_exit(&mut self)
        ensures
            final(self).exit == true,
            final(self).pages == old(self).pages,
            final(self).selected == old(self).selected,
            final(self).search_content == old(self).search_content,
    {
        self.exit = true;
    }

    /// The URL a submission would open for the current selection and query.
    pub fn build_url(&self) -> (url: String)
        requires
            self.wf(),
        ensures
            url@ == full_url_spec(self.pages@[self.selected as int].url@, self.search_content@),
    {
        let prefix: String = self.pages[self.selected].url.clone();
        prefix.concat(self.search_content.as_str())
    }

    /// Record the outcome of a launch attempt: a successful launch ends the
    /// session, a failed one leaves every part of the state as it was.
    pub fn finish_submit(&mut self, launched: bool)
        ensures
            final(self).exit == (old(self).exit || launched),
            final(self).pages == old(self).pages,
            final(self).selected == old(self).selected,
            final(self).search_content == old(self).search_content,
    {
        if launched {
            self.exit = true;
        }
    }

    /// Dispatch one key press to its transition. Arrow keys move the
    /// selection, Escape requests exit, Enter asks the caller to launch the
    /// built URL (the state itself is untouched until `finish_submit`),
    /// printable characters and Backspace edit the query, and every other
    /// key does nothing.
    pub fn handle_key_event(&mut self, key: KeyInput) -> (action: Action)
        requires
            old(self).wf(),
        ensures
            final(self).wf(),
            final(self).pages == old(self).pages,
            match key {
                KeyInput::Up => ({
                    &&& final(self).selected == prev_index(
                        old(self).selected as int,
                        old(self).pages@.len() as int,
                    )
                    &&& final(self).search_content == old(self).search_content
                    &&& final(self).exit == old(self).exit
                    &&& action is Idle
                }),
                KeyInput::Down => ({
                    &&& final(self).selected == next_index(
                        old(self).selected as int,
                        old(self).pages@.len() as int,
                    )
                    &&& final(self).search_content == old(self).search_content
                    &&& final(self).exit == old(self).exit
                    &&& action is Idle
                }),
                KeyInput::Esc => ({
                    &&& final(self).selected == old(self).selected
                    &&& final(self).search_content == old(self).search_content
                    &&& final(self).exit == true
                    &&& action is Idle
                }),
                KeyInput::Enter => ({
                    &&& *final(self) == *old(self)
                    &&& (action matches Action::Launch(url) && url@ == full_url_spec(
                        old(self).pages@[old(self).selected as int].url@,
                        old(self).search_content@,
                    ))
                }),
                KeyInput::Char(c) => ({
                    &&& final(self).search_content@ == append_effect(
                        old(self).search_content@,
                        c,
                    )
                    &&& final(self).selected == old(self).selected
                    &&& final(self).exit == old(self).exit
                    &&& action is Idle
                }),
                KeyInput::Backspace => ({
                    &&& final(self).search_content@ == delete_effect(old(self).search_content@)
                    &&& final(self).selected == old(self).selected
                    &&& final(self).exit == old(self).exit
                    &&& action is Idle
                }),
                KeyInput::Other => ({
                    &&& *final(self) == *old(self)
                    &&& action is Idle
                }),
            },
    {
        match key {
            KeyInput::Up => {
                self.select_previous();
                Action::Idle
            },
            KeyInput::Down => {
                self.select_next();
                Action::Idle
            },
            KeyInput::Esc => {
                self.request_exit();
                Action::Idle
            },
            KeyInput::Enter => Action::Launch(self.build_url()),
            KeyInput::Char(c) => {
                self.append_char(c);
                Action::Idle
            },
            KeyInput::Backspace => {
                self.delete_last_char();
                Action::Idle
            },
            KeyInput::Other => Action::Idle,
        }
    }
}

/// Law: appending one character and then deleting one character restores the
/// query text, for every starting text and every character.
pub proof fn lemma_append_then_delete(q: Seq<char>, c: char)
    ensures
        delete_effect(append_effect(q, c)) == q,
{
    assert(delete_effect(append_effect(q, c)) =~= q);
}

/// One selection move, as the dispatcher performs it.
#[derive(Debug, Clone, Copy)]
pub enum SelectionMove {
    Previous,
    Next,
}

/// The index reached by one selection move.
pub open spec fn move_index(i: int, len: int, m: SelectionMove) -> int {
    match m {
        SelectionMove::Previous => prev_index(i, len),
        SelectionMove::Next => next_index(i, len),
    }
}

/// The index reached by a whole sequence of selection moves.
pub open spec fn apply_moves(i: int, len: int, moves: Seq<SelectionMove>) -> int
    decreases moves.len(),
{
    if moves.len() == 0 {
        i
    } else {
        apply_moves(move_index(i, len, moves[0]), len, moves.drop_first())
    }
}

/// Law: under any sequence of previous/next moves the selection stays a valid
/// index into a non-empty page list.
pub proof fn lemma_selection_stays_in_range(i: int, len: int, moves: Seq<SelectionMove>)
    requires
        0 <= i < len,
    ensures
        0 <= apply_moves(i, len, moves) < len,
    decreases moves.len(),
{
    if moves.len() > 0 {
        lemma_selection_stays_in_range(move_index(i, len, moves[0]), len, moves.drop_first());
    }
}

/// The index reached by moving the selection down `k` times.
pub open spec fn iterate_next(i: int, len: int, k: nat) -> int
    decreases k,
{
    if k == 0 {
        i
    } else {
        next_index(iterate_next(i, len, (k - 1) as nat), len)
    }
}

proof fn lemma_iterate_next_value(i: int, len: int, k: nat)
    requires
        0 <= i < len,
        k <= len,
    ensures
        iterate_next(i, len, k) == (if i + k < len {
            i + k
        } else {
            i + k - len
        }),
    decreases k,
{
    if k > 0 {
        lemma_iterate_next_value(i, len, (k - 1) as nat);
    }
}

/// Law: moving the selection down exactly `len` times returns it to the index
/// it started from.
pub proof fn lemma_select_next_cycles(i: int, len: int)
    requires
        0 <= i < len,
    ensures
        iterate_next(i, len, len as nat) == i,
{
    lemma_iterate_next_value(i, len, len as nat);
}

} // verus!
