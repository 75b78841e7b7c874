//! What the board shows: which cards a column holds and in what order, the
//! focused card, remembered cursors, the key locator, fuzzy search, and the
//! unread-mail count.

use vstd::prelude::*;

use crate::actions::Direction;
use crate::model::{
    ActivityRef, App, Card, ColumnId, Focus, Scope, column_at, column_of, column_pos, cursor_of,
    with_cursor, NUM_COLUMNS,
};
use crate::order::{
    sorted_by, strict_order, lemma_sorted_unique, filter_upto, lemma_filter_upto, first_from,
    last_below, lemma_first_from_found, lemma_first_from_none,
};
use crate::text::{chars_of, concat, has_substring, lower_contains, lowercase, str_eq, to_lower};

verus! {

/// Whether `c` is inside the board's scope.
pub open spec fn scope_matches(scope: Scope, c: Card) -> bool {
    match scope.project {
        None => true,
        Some(p) => c.project@ == p@ && match scope.milestone {
            None => true,
            Some(m) => c.milestone is Some && c.milestone->0@ == m@,
        },
    }
}

/// Card `i` of `cards` belongs on column `col` under `scope`.
pub open spec fn card_in_col(cards: Seq<Card>, scope: Scope, col: ColumnId, i: int) -> bool {
    0 <= i < cards.len() && column_of(cards[i].status@) == Some(col) && scope_matches(scope, cards[i])
}

/// Board order: by position, ties by load order.
pub open spec fn board_lt(cards: Seq<Card>) -> spec_fn(usize, usize) -> bool {
    |i: usize, j: usize|
        cards[i as int].position < cards[j as int].position || (cards[i as int].position
            == cards[j as int].position && i < j)
}

/// `s` lists exactly the cards of `col`, in board order.
pub open spec fn listing(cards: Seq<Card>, scope: Scope, col: ColumnId, s: Seq<usize>) -> bool {
    &&& sorted_by(s, board_lt(cards))
    &&& forall|k: int| 0 <= k < s.len() ==> card_in_col(cards, scope, col, #[trigger] s[k] as int)
    &&& forall|i: int| #[trigger] card_in_col(cards, scope, col, i) ==> s.contains(i as usize)
}

pub open spec fn is_column_listing(app: App, col: ColumnId, s: Seq<usize>) -> bool {
    listing(app.cards@, app.scope, col, s)
}

/// The cards of column `col` under `scope`, sorted by position, ties kept
/// in load order.
pub open spec fn column_listing(cards: Seq<Card>, scope: Scope, col: ColumnId) -> Seq<usize> {
    choose|s: Seq<usize>| listing(cards, scope, col, s)
}

/// The cards of column `col` (indices into `app.cards`) in board order.
pub open spec fn column_seq(app: App, col: ColumnId) -> Seq<usize> {
    column_listing(app.cards@, app.scope, col)
}

pub open spec fn column_len(app: App, col: ColumnId) -> int {
    column_seq(app, col).len() as int
}

/// The card under the cursor, as an index into `app.cards`.
pub open spec fn focused_index(app: App) -> Option<int> {
    let s = column_seq(app, app.focus.column);
    if app.focus.card_idx < s.len() {
        Some(s[app.focus.card_idx as int] as int)
    } else {
        None
    }
}

/// The cursor `restore_cursor_for` gives a column: the remembered one,
/// clamped to the column, or 0 for an empty column.
pub open spec fn restored_cursor(app: App, col: ColumnId) -> int {
    let len = column_len(app, col);
    if len == 0 {
        0
    } else {
        let r = cursor_of(app.last_card_idx_per_column, col) as int;
        if r < len - 1 {
            r
        } else {
            len - 1
        }
    }
}

/// Column `i` (by board position) holds at least one card.
pub open spec fn nonempty_column(app: App) -> spec_fn(int) -> bool {
    |i: int| column_len(app, column_at(i)) > 0
}

/// The first column (left to right) that holds a card.
pub open spec fn first_nonempty_column(app: App) -> Option<int> {
    first_from(0, NUM_COLUMNS as int, nonempty_column(app))
}

/// `app` after `auto_focus_if_empty`: untouched when the cursor is on a
/// card, else on the first non-empty column at its remembered cursor, else
/// at the top of the current column.
pub open spec fn auto_focused(app: App) -> App {
    if focused_index(app) is Some {
        app
    } else {
        match first_nonempty_column(app) {
            Some(c) => App {
                focus: Focus {
                    column: column_at(c),
                    card_idx: restored_cursor(app, column_at(c)) as usize,
                },
                ..app
            },
            None => App { focus: Focus { column: app.focus.column, card_idx: 0 }, ..app },
        }
    }
}

/// `app` with the cursor moved to column position `t` (remembering the
/// cursor of the column it leaves).
pub open spec fn focus_column(app: App, t: int) -> App {
    let a = remembered(app);
    App {
        focus: Focus { column: column_at(t), card_idx: restored_cursor(a, column_at(t)) as usize },
        ..a
    }
}

/// `app` after an h/j/k/l cursor move. Left and right skip empty columns
/// (staying put when there is none); up and down stay within the column.
pub open spec fn moved_focus(app: App, d: Direction) -> App {
    let cur = column_pos(app.focus.column);
    let idx = app.focus.card_idx;
    match d {
        Direction::Left => match last_below(cur, nonempty_column(app)) {
            Some(t) => focus_column(app, t),
            None => app,
        },
        Direction::Right => match first_from(cur + 1, NUM_COLUMNS as int, nonempty_column(app)) {
            Some(t) => focus_column(app, t),
            None => app,
        },
        Direction::Up => if idx > 0 {
            App { focus: Focus { card_idx: (idx - 1) as usize, ..app.focus }, ..app }
        } else {
            app
        },
        Direction::Down => if idx + 1 < column_len(app, app.focus.column) {
            App { focus: Focus { card_idx: (idx + 1) as usize, ..app.focus }, ..app }
        } else {
            app
        },
    }
}

/// The position (within column `col`) of the first card with this key.
pub open spec fn key_pos_in(app: App, col: ColumnId, key: Seq<char>) -> Option<int> {
    first_from(0, column_len(app, col), key_match(app, col, key))
}

pub open spec fn key_match(app: App, col: ColumnId, key: Seq<char>) -> spec_fn(int) -> bool {
    |k: int| app.cards@[column_seq(app, col)[k] as int].key@ == key
}

/// Where the board shows the card with this key, searching columns from
/// `c` rightwards.
pub open spec fn locate_from(app: App, key: Seq<char>, c: int) -> Option<Focus>
    decreases NUM_COLUMNS - c,
{
    if c >= NUM_COLUMNS || c < 0 {
        None
    } else {
        match key_pos_in(app, column_at(c), key) {
            Some(k) => Some(Focus { column: column_at(c), card_idx: k as usize }),
            None => locate_from(app, key, c + 1),
        }
    }
}

/// Where the board shows the card with this key (first column, first
/// position), if it is on the board under the current scope.
pub open spec fn locate(app: App, key: Seq<char>) -> Option<Focus> {
    locate_from(app, key, 0)
}

/// A card answers a (lower-cased) fuzzy query: its key and title, lower-cased
/// and joined by a space, contain the query.
pub open spec fn fuzzy_hit(c: Card, needle: Seq<char>) -> bool {
    needle.len() == 0 || has_substring(lowercase(c.key@ + " "@ + c.title@), needle)
}

/// Keys of the cards listed by `s` that answer the query, in order.
pub open spec fn hits_in(cards: Seq<Card>, s: Seq<usize>, needle: Seq<char>) -> Seq<Seq<char>>
    decreases s.len(),
{
    if s.len() == 0 {
        Seq::empty()
    } else {
        let rest = hits_in(cards, s.drop_last(), needle);
        let c = cards[s.last() as int];
        if fuzzy_hit(c, needle) {
            rest.push(c.key@)
        } else {
            rest
        }
    }
}

/// Fuzzy hits in the first `n` columns, column by column in board order.
pub open spec fn hits_upto(app: App, needle: Seq<char>, n: int) -> Seq<Seq<char>>
    decreases n,
{
    if n <= 0 {
        Seq::empty()
    } else {
        hits_upto(app, needle, n - 1) + hits_in(app.cards@, column_seq(app, column_at(n - 1)), needle)
    }
}

/// The keys `fuzzy_search` returns for a query.
pub open spec fn fuzzy_results(app: App, query: Seq<char>) -> Seq<Seq<char>> {
    hits_upto(app, lowercase(query), NUM_COLUMNS as int)
}

/// Option<String> compared by contents.
pub open spec fn opt_text(o: Option<String>) -> Option<Seq<char>> {
    match o {
        Some(s) => Some(s@),
        None => None,
    }
}

/// Unread mail: newer than `last_seen` and not the reader's own event.
pub open spec fn is_unseen(app: App, e: ActivityRef) -> bool {
    &&& match app.last_seen {
        Some(seen) => e.ts > seen,
        None => true,
    }
    &&& (app.self_actor is None || opt_text(e.actor) != opt_text(app.self_actor))
}

pub open spec fn unseen_pred(app: App) -> spec_fn(int) -> bool {
    |i: int| is_unseen(app, app.activity@[i])
}

/// The current time (microseconds since the Unix epoch) from chrono's
/// `Utc::now`; nothing is stated about the value.
#[verifier::external_body]
fn now_micros() -> i64 {
    chrono::Utc::now().timestamp_micros()
}

/// `app` with the cursor remembered for its current column.
pub open spec fn remembered(app: App) -> App {
    App {
        last_card_idx_per_column: with_cursor(
            app.last_card_idx_per_column,
            app.focus.column,
            app.focus.card_idx,
        ),
        ..app
    }
}

proof fn lemma_board_lt_strict(cards: Seq<Card>)
    ensures
        strict_order(board_lt(cards)),
{
}

/// A column listing exists and `column_seq` is it.
proof fn lemma_column_seq(app: App, col: ColumnId, s: Seq<usize>)
    requires
        is_column_listing(app, col, s),
    ensures
        column_seq(app, col) == s,
{
    let t = column_seq(app, col);
    assert(is_column_listing(app, col, t));
    lemma_board_lt_strict(app.cards@);
    assert forall|x: usize| s.contains(x) <==> t.contains(x) by {
        if s.contains(x) {
            let k = choose|k: int| 0 <= k < s.len() && s[k] == x;
            assert(card_in_col(app.cards@, app.scope, col, s[k] as int));
        }
        if t.contains(x) {
            let k = choose|k: int| 0 <= k < t.len() && t[k] == x;
            assert(card_in_col(app.cards@, app.scope, col, t[k] as int));
        }
    }
    lemma_sorted_unique(s, t, board_lt(app.cards@));
}

impl App {
    pub fn matches_scope(&self, c: &Card) -> (r: bool)
        ensures
            r == scope_matches(self.scope, *c),
    {
        match &self.scope.project {
            None => true,
            Some(p) => {
                if c.project != *p {
                    return false;
                }
                match &self.scope.milestone {
                    None => true,
                    Some(m) => match &c.milestone {
                        Some(cm) => *cm == *m,
                        None => false,
                    },
                }
            },
        }
    }

    fn card_in_column(&self, col: ColumnId, i: usize) -> (r: bool)
        requires
            i < self.cards@.len(),
        ensures
            r == card_in_col(self.cards@, self.scope, col, i as int),
    {
        let c = &self.cards[i];
        match ColumnId::from_status(c.status.as_str()) {
            Some(k) => k.index() == col.index() && self.matches_scope(c),
            None => false,
        }
    }

    /// The cards of `col` as indices into `self.cards`, in board order.
    pub fn column_indices(&self, col: ColumnId) -> (r: Vec<usize>)
        ensures
            r@ == column_seq(*self, col),
            is_column_listing(*self, col, r@),
    {
        let ghost lt = board_lt(self.cards@);
        let mut res: Vec<usize> = Vec::new();
        let n = self.cards.len();
        for i in 0..n
            invariant
                n == self.cards@.len(),
                lt == board_lt(self.cards@),
                sorted_by(res@, lt),
                forall|k: int|
                    0 <= k < res@.len() ==> card_in_col(self.cards@, self.scope, col, #[trigger] res@[k] as int)
                        && res@[k] < i,
                forall|j: int| 0 <= j < i && #[trigger] card_in_col(self.cards@, self.scope, col, j) ==> res@.contains(j as usize),
        {
            if self.card_in_column(col, i) {
                let p = self.cards[i].position;
                let mut k = res.len();
                while k > 0 && self.cards[res[k - 1]].position > p
                    invariant
                        k <= res@.len(),
                        n == self.cards@.len(),
                        forall|m: int| 0 <= m < res@.len() ==> (#[trigger] res@[m] as int) < n,
                        forall|m: int|
                            k <= m < res@.len() ==> self.cards@[#[trigger] res@[m] as int].position > p,
                    decreases k,
                {
                    k = k - 1;
                }
                let ghost old_res = res@;
                res.insert(k, i);
                proof {
                    assert forall|a: int, b: int| 0 <= a < b < res@.len() implies #[trigger] lt(res@[a], res@[b]) by {
                        if b < k {
                            assert(lt(old_res[a], old_res[b]));
                        } else if a > k {
                            assert(lt(old_res[a - 1], old_res[b - 1]));
                        } else if a == k {
                            assert(self.cards@[old_res[b - 1] as int].position > p);
                        } else {
                            // a < k == b
                            assert(old_res[k - 1] < i);
                            if a < k - 1 {
                                assert(lt(old_res[a], old_res[k - 1]));
                            }
                            assert(self.cards@[old_res[k - 1] as int].position <= p);
                        }
                    }
                    assert forall|j: int| 0 <= j < i + 1 && #[trigger] card_in_col(self.cards@, self.scope, col, j) implies res@.contains(j as usize) by {
                        if j < i {
                            let m = choose|m: int| 0 <= m < old_res.len() && old_res[m] == j as usize;
                            if m < k {
                                assert(res@[m] == j as usize);
                            } else {
                                assert(res@[m + 1] == j as usize);
                            }
                        } else {
                            assert(res@[k as int] == j as usize);
                        }
                    }
                }
            }
        }
        proof {
            lemma_column_seq(*self, col, res@);
        }
        res
    }

    pub fn column_cards(&self, col: ColumnId) -> (r: Vec<&Card>)
        ensures
            r@.len() == column_len(*self, col),
            forall|k: int|
                0 <= k < r@.len() ==> *r@[k] == self.cards@[column_seq(*self, col)[k] as int],
    {
        let idx = self.column_indices(col);
        let mut out: Vec<&Card> = Vec::new();
        for k in 0..idx.len()
            invariant
                idx@ == column_seq(*self, col),
                is_column_listing(*self, col, idx@),
                out@.len() == k,
                forall|m: int| 0 <= m < k ==> *out@[m] == self.cards@[idx@[m] as int],
        {
            proof {
                assert(card_in_col(self.cards@, self.scope, col, idx@[k as int] as int));
            }
            out.push(&self.cards[idx[k]]);
        }
        out
    }

    pub fn visible_columns(&self) -> (r: Vec<ColumnId>)
        ensures
            r@.len() == NUM_COLUMNS,
            forall|i: int| 0 <= i < NUM_COLUMNS ==> #[trigger] r@[i] == column_at(i),
    {
        ColumnId::all()
    }

    /// Index (into `self.cards`) of the card under the cursor.
    pub fn focused_index(&self) -> (r: Option<usize>)
        ensures
            r matches Some(i) ==> focused_index(*self) == Some(i as int) && i < self.cards@.len(),
            r is None ==> focused_index(*self) is None,
    {
        let idx = self.column_indices(self.focus.column);
        proof {
            if self.focus.card_idx < idx@.len() {
                assert(card_in_col(self.cards@, self.scope, self.focus.column, idx@[self.focus.card_idx as int] as int));
            }
        }
        if self.focus.card_idx < idx.len() {
            Some(idx[self.focus.card_idx])
        } else {
            None
        }
    }

    pub fn focused_card(&self) -> (r: Option<&Card>)
        ensures
            r matches Some(c) ==> focused_index(*self) matches Some(i) && *c == self.cards@[i],
            r is None ==> focused_index(*self) is None,
    {
        match self.focused_index() {
            Some(i) => Some(&self.cards[i]),
            None => None,
        }
    }

    pub fn blocked_count(&self) -> (r: usize)
        ensures
            r == column_len(*self, ColumnId::Blocked),
    {
        self.column_indices(ColumnId::Blocked).len()
    }

    pub fn scoped_card_count(&self) -> (r: usize)
        ensures
            r == filter_upto(self.cards@.len(), |i: int| scope_matches(self.scope, self.cards@[i])).len(),
    {
        let ghost p = |i: int| scope_matches(self.scope, self.cards@[i]);
        let mut count: usize = 0;
        for i in 0..self.cards.len()
            invariant
                count == filter_upto(i as nat, p).len(),
                p == (|i: int| scope_matches(self.scope, self.cards@[i])),
        {
            proof {
                lemma_filter_upto(i as nat, p);
            }
            if self.matches_scope(&self.cards[i]) {
                count = count + 1;
            }
        }
        count
    }

    pub fn remember_cursor(&mut self)
        ensures
            *final(self) == remembered(*old(self)),
    {
        let c = self.focus.column;
        let v = self.focus.card_idx;
        self.last_card_idx_per_column.set(c, v);
    }

    pub fn restore_cursor_for(&self, col: ColumnId) -> (r: usize)
        ensures
            r == restored_cursor(*self, col),
    {
        let len = self.column_indices(col).len();
        if len == 0 {
            return 0;
        }
        let r = self.last_card_idx_per_column.get(col);
        if r < len - 1 {
            r
        } else {
            len - 1
        }
    }

    pub fn auto_focus_if_empty(&mut self)
        ensures
            *final(self) == auto_focused(*old(self)),
    {
        if self.focused_index().is_some() {
            return;
        }
        let ghost p = nonempty_column(*self);
        let mut i: usize = 0;
        while i < NUM_COLUMNS
            invariant
                i <= NUM_COLUMNS,
                *self == *old(self),
                p == nonempty_column(*self),
                focused_index(*self) is None,
                forall|j: int| 0 <= j < i ==> !#[trigger] p(j),
            decreases NUM_COLUMNS - i,
        {
            let col = ColumnId::at(i);
            if self.column_indices(col).len() > 0 {
                proof {
                    lemma_first_from_found(0, i as int, NUM_COLUMNS as int, p);
                }
                let r = self.restore_cursor_for(col);
                let ghost old_self = *self;
                self.focus = Focus { column: col, card_idx: r };
                proof {
                    assert(first_nonempty_column(old_self) == Some(i as int));
                    assert(focused_index(old_self) is None);
                    assert(r == restored_cursor(old_self, column_at(i as int)));
                    assert(*self == (App { focus: Focus { column: column_at(i as int), card_idx: r }, ..old_self }));

                }
                return;
            }
            i = i + 1;
        }
        proof {
            lemma_first_from_none(0, NUM_COLUMNS as int, p);
        }
        self.focus.card_idx = 0;
    }

    /// Number of cards in column `col`.
    pub fn column_count(&self, col: ColumnId) -> (r: usize)
        ensures
            r == column_len(*self, col),
    {
        self.column_indices(col).len()
    }

    /// The unread entries of the mailbox.
    pub fn unseen_count(&self) -> (r: usize)
        ensures
            r == filter_upto(self.activity@.len(), unseen_pred(*self)).len(),
    {
        let ghost p = unseen_pred(*self);
        let mut count: usize = 0;
        for i in 0..self.activity.len()
            invariant
                count == filter_upto(i as nat, p).len(),
                p == unseen_pred(*self),
        {
            proof {
                lemma_filter_upto(i as nat, p);
            }
            let e = &self.activity[i];
            let fresh = match self.last_seen {
                Some(seen) => e.ts > seen,
                None => true,
            };
            let foreign = match &self.self_actor {
                None => true,
                Some(me) => match &e.actor {
                    None => true,
                    Some(a) => *a != *me,
                },
            };
            if fresh && foreign {
                count = count + 1;
            }
        }
        count
    }

    /// Opening (or leaving) the mailbox reads everything up to now.
    pub fn mark_seen(&mut self)
        ensures
            final(self).last_seen is Some,
            *final(self) == (App { last_seen: final(self).last_seen, ..*old(self) }),
    {
        let now = now_micros();
        self.last_seen = Some(now);
    }
}

/// Where the board shows the card with this key (column, position), if it
/// is on the board under the current scope.
pub fn locate_focus_for_key(app: &App, key: &str) -> (r: Option<Focus>)
    ensures
        r == locate(*app, key@),
{
    let mut c: usize = 0;
    while c < NUM_COLUMNS
        invariant
            c <= NUM_COLUMNS,
            locate(*app, key@) == locate_from(*app, key@, c as int),
        decreases NUM_COLUMNS - c,
    {
        let col = ColumnId::at(c);
        let idx = app.column_indices(col);
        let ghost p = key_match(*app, col, key@);
        let mut k: usize = 0;
        while k < idx.len()
            invariant
                k <= idx@.len(),
                c < NUM_COLUMNS,
                col == column_at(c as int),
                locate(*app, key@) == locate_from(*app, key@, c as int),
                idx@ == column_seq(*app, col),
                is_column_listing(*app, col, idx@),
                p == key_match(*app, col, key@),
                forall|j: int| 0 <= j < k ==> !#[trigger] p(j),
            decreases idx.len() - k,
        {
            proof {
                assert(card_in_col(app.cards@, app.scope, col, idx@[k as int] as int));
            }
            if str_eq(app.cards[idx[k]].key.as_str(), key) {
                proof {
                    lemma_first_from_found(0, k as int, idx@.len() as int, p);
                }
                return Some(Focus { column: col, card_idx: k });
            }
            k = k + 1;
        }
        proof {
            lemma_first_from_none(0, idx@.len() as int, p);
        }
        c = c + 1;
    }
    None
}

/// h/j/k/l on the board: left/right jump to the nearest non-empty column,
/// up/down move within the column.
pub fn move_focus(app: &mut App, dir: Direction)
    ensures
        *final(app) == moved_focus(*old(app), dir),
{
    let cur = app.focus.column.index();
    let ghost p = nonempty_column(*app);
    match dir {
        Direction::Left => {
            let mut t = cur;
            while t > 0
                invariant
                    t <= cur,
                    dir == Direction::Left,
                    *app == *old(app),
                    cur == column_pos(app.focus.column),
                    p == nonempty_column(*app),
                    last_below(cur as int, p) == last_below(t as int, p),
                decreases t,
            {
                let col = ColumnId::at(t - 1);
                if app.column_indices(col).len() > 0 {
                    proof {
                        assert(p(t - 1));
                        assert(last_below(t as int, p) == Some(t - 1));
                        assert(dir == Direction::Left);
                        assert(cur == column_pos(old(app).focus.column));
                        assert(p == nonempty_column(*old(app)));
                        assert(last_below(column_pos(old(app).focus.column), nonempty_column(*old(app))) == Some(t - 1));
                        assert(moved_focus(*old(app), dir) == focus_column(*old(app), t - 1));
                    }
                    app.remember_cursor();
                    assert(*app == remembered(*old(app)));
                    let r = app.restore_cursor_for(col);
                    assert(r == restored_cursor(remembered(*old(app)), column_at(t - 1)));
                    app.focus = Focus { column: col, card_idx: r };
                    return;
                }
                t = t - 1;
            }
        },
        Direction::Right => {
            let mut t = cur + 1;
            while t < NUM_COLUMNS
                invariant
                    cur + 1 <= t <= NUM_COLUMNS,
                    dir == Direction::Right,
                    *app == *old(app),
                    cur == column_pos(app.focus.column),
                    p == nonempty_column(*app),
                    forall|j: int| cur + 1 <= j < t ==> !#[trigger] p(j),
                decreases NUM_COLUMNS - t,
            {
                let col = ColumnId::at(t);
                if app.column_indices(col).len() > 0 {
                    proof {
                        lemma_first_from_found(cur + 1, t as int, NUM_COLUMNS as int, p);
                    }
                    app.remember_cursor();
                    let r = app.restore_cursor_for(col);
                    app.focus = Focus { column: col, card_idx: r };
                    return;
                }
                t = t + 1;
            }
            proof {
                lemma_first_from_none(cur + 1, NUM_COLUMNS as int, p);
            }
        },
        Direction::Up => {
            if app.focus.card_idx > 0 {
                app.focus.card_idx = app.focus.card_idx - 1;
            }
        },
        Direction::Down => {
            let n = app.column_indices(app.focus.column).len();
            if app.focus.card_idx < n && app.focus.card_idx + 1 < n {
                app.focus.card_idx = app.focus.card_idx + 1;
            }
        },
    }
}

/// Keys of the cards on the board whose `key title`, lower-cased, contains
/// the lower-cased query, column by column in board order.
pub fn fuzzy_search(app: &App, query: &str) -> (r: Vec<String>)
    ensures
        r@.map_values(|s: String| s@) == fuzzy_results(*app, query@),
{
    let lq = to_lower(query);
    let needle = chars_of(lq.as_str());
    let mut out: Vec<String> = Vec::new();
    let mut c: usize = 0;
    while c < NUM_COLUMNS
        invariant
            c <= NUM_COLUMNS,
            needle@ == lowercase(query@),
            out@.map_values(|s: String| s@) == hits_upto(*app, needle@, c as int),
        decreases NUM_COLUMNS - c,
    {
        let col = ColumnId::at(c);
        let idx = app.column_indices(col);
        let ghost before = out@.map_values(|s: String| s@);
        let mut k: usize = 0;
        while k < idx.len()
            invariant
                k <= idx@.len(),
                idx@ == column_seq(*app, col),
                is_column_listing(*app, col, idx@),
                col == column_at(c as int),
                before == hits_upto(*app, needle@, c as int),
                out@.map_values(|s: String| s@) == before + hits_in(app.cards@, idx@.take(k as int), needle@),
            decreases idx.len() - k,
        {
            proof {
                assert(card_in_col(app.cards@, app.scope, col, idx@[k as int] as int));
                assert(idx@.take(k + 1).drop_last() =~= idx@.take(k as int));
            }
            let card = &app.cards[idx[k]];
            let spaced = concat(card.key.as_str(), " ");
            let hay = concat(spaced.as_str(), card.title.as_str());
            let hit = needle.len() == 0 || lower_contains(hay.as_str(), &needle);
            let ghost prev = out@;
            if hit {
                out.push(card.key.clone());
                proof {
                    assert(out@.map_values(|s: String| s@) =~= prev.map_values(|s: String| s@).push(card.key@));
                }
            }
            k = k + 1;
        }
        proof {
            assert(idx@.take(idx@.len() as int) =~= idx@);
        }
        c = c + 1;
    }
    out
}

} // verus!
