//! Line classifier: recognizes the five structural line shapes emitted by the
//! state-machine code generator (state declaration, superstate declaration,
//! event `case` label, transition target, explicit handled marker).
//!
//! Checks are evaluated in strict priority order, first match wins:
//! state declaration, then superstate, then event, then target, then handled.

use vstd::prelude::*;

verus! {

/// A word character: ASCII letter, digit or underscore. These are the
/// characters that make up a captured identifier.
pub open spec fn is_word_char(c: char) -> bool {
    let u: u32 = c as u32;
    (('a' as u32) <= u && u <= ('z' as u32)) || (('A' as u32) <= u && u <= ('Z' as u32)) || ((
    '0' as u32) <= u && u <= ('9' as u32)) || u == ('_' as u32)
}

/// A blank character that may precede a `case` keyword.
pub open spec fn is_space_char(c: char) -> bool {
    c == ' ' || c == '\t'
}

/// End of the maximal run of word characters starting at `i`.
pub open spec fn word_run_end(s: Seq<char>, i: int) -> int
    decreases s.len() - i when 0 <= i <= s.len()
{
    if i == s.len() {
        i
    } else if is_word_char(s[i]) {
        word_run_end(s, i + 1)
    } else {
        i
    }
}

/// The maximal run of word characters starting at `i`: the identifier
/// captured at that position (possibly empty).
pub open spec fn word_run(s: Seq<char>, i: int) -> Seq<char> {
    s.subrange(i, word_run_end(s, i))
}

/// End of the maximal run of blank characters starting at `i`.
pub open spec fn space_run_end(s: Seq<char>, i: int) -> int
    decreases s.len() - i when 0 <= i <= s.len()
{
    if i == s.len() {
        i
    } else if is_space_char(s[i]) {
        space_run_end(s, i + 1)
    } else {
        i
    }
}

/// The line starts with the state-handler signature prefix `QP::QState `.
pub open spec fn qstate_prefix_at(s: Seq<char>) -> bool {
    s.len() >= 11 && s[0] == 'Q' && s[1] == 'P' && s[2] == ':' && s[3] == ':' && s[4] == 'Q'
        && s[5] == 'S' && s[6] == 't' && s[7] == 'a' && s[8] == 't' && s[9] == 'e' && s[10] == ' '
}

/// A `::` qualifier separator stands at position `i`.
pub open spec fn colons_at(s: Seq<char>, i: int) -> bool {
    0 <= i && i + 2 <= s.len() && s[i] == ':' && s[i + 1] == ':'
}

/// The superstate-call token `Q_SUPER(&` stands at position `i`.
pub open spec fn super_at(s: Seq<char>, i: int) -> bool {
    0 <= i && i + 9 <= s.len() && s[i] == 'Q' && s[i + 1] == '_' && s[i + 2] == 'S' && s[i + 3]
        == 'U' && s[i + 4] == 'P' && s[i + 5] == 'E' && s[i + 6] == 'R' && s[i + 7] == '(' && s[i
        + 8] == '&'
}

/// The transition-call token `Q_TRAN(&` stands at position `i`.
pub open spec fn tran_at(s: Seq<char>, i: int) -> bool {
    0 <= i && i + 8 <= s.len() && s[i] == 'Q' && s[i + 1] == '_' && s[i + 2] == 'T' && s[i + 3]
        == 'R' && s[i + 4] == 'A' && s[i + 5] == 'N' && s[i + 6] == '(' && s[i + 7] == '&'
}

/// The handled-call token `Q_HANDLED(` stands at position `i`.
pub open spec fn handled_at(s: Seq<char>, i: int) -> bool {
    0 <= i && i + 10 <= s.len() && s[i] == 'Q' && s[i + 1] == '_' && s[i + 2] == 'H' && s[i + 3]
        == 'A' && s[i + 4] == 'N' && s[i + 5] == 'D' && s[i + 6] == 'L' && s[i + 7] == 'E' && s[i
        + 8] == 'D' && s[i + 9] == '('
}

/// The `case ` keyword stands at position `i`.
pub open spec fn case_at(s: Seq<char>, i: int) -> bool {
    0 <= i && i + 5 <= s.len() && s[i] == 'c' && s[i + 1] == 'a' && s[i + 2] == 's' && s[i + 3]
        == 'e' && s[i + 4] == ' '
}

/// Position of the first `::` separator at or after `i`, if any.
pub open spec fn first_colons_from(s: Seq<char>, i: int) -> Option<int>
    decreases s.len() - i when 0 <= i
{
    if i + 2 > s.len() {
        None
    } else if colons_at(s, i) {
        Some(i)
    } else {
        first_colons_from(s, i + 1)
    }
}

/// Position of the last `Q_SUPER(&` token strictly before `i`, if any.
pub open spec fn last_super_before(s: Seq<char>, i: int) -> Option<int>
    decreases i when 0 <= i
{
    if i <= 0 {
        None
    } else if super_at(s, i - 1) {
        Some(i - 1)
    } else {
        last_super_before(s, i - 1)
    }
}

/// Position of the last `Q_TRAN(&` token strictly before `i`, if any.
pub open spec fn last_tran_before(s: Seq<char>, i: int) -> Option<int>
    decreases i when 0 <= i
{
    if i <= 0 {
        None
    } else if tran_at(s, i - 1) {
        Some(i - 1)
    } else {
        last_tran_before(s, i - 1)
    }
}

/// Name captured by a state-declaration line: the line starts with the
/// handler-signature prefix, and the identifier follows the first `::`
/// after that prefix.
pub open spec fn state_capture(s: Seq<char>) -> Option<Seq<char>> {
    if qstate_prefix_at(s) {
        match first_colons_from(s, 11) {
            Some(j) => Some(word_run(s, j + 2)),
            None => None,
        }
    } else {
        None
    }
}

/// Name captured by a superstate-declaration line: the identifier after the
/// last `Q_SUPER(&` token on the line.
pub open spec fn parent_capture(s: Seq<char>) -> Option<Seq<char>> {
    match last_super_before(s, s.len() as int) {
        Some(j) => Some(word_run(s, j + 9)),
        None => None,
    }
}

/// Name captured by an event-declaration line: after optional leading
/// blanks, the `case ` keyword followed by the signal identifier.
pub open spec fn event_capture(s: Seq<char>) -> Option<Seq<char>> {
    if case_at(s, space_run_end(s, 0)) {
        Some(word_run(s, space_run_end(s, 0) + 5))
    } else {
        None
    }
}

/// Name captured by a transition-target line: the identifier after the last
/// `Q_TRAN(&` token on the line.
pub open spec fn target_capture(s: Seq<char>) -> Option<Seq<char>> {
    match last_tran_before(s, s.len() as int) {
        Some(j) => Some(word_run(s, j + 8)),
        None => None,
    }
}

/// The line contains the explicit handled marker `Q_HANDLED(`.
pub open spec fn handled_match(s: Seq<char>) -> bool {
    exists|i: int| handled_at(s, i)
}

/// The classification of one line of input, carrying the captured name.
pub enum LineKind {
    StateDecl(String),
    ParentDecl(String),
    EventDecl(String),
    TargetDecl(String),
    HandledMarker,
    NoMatch,
}

/// Mathematical counterpart of [`LineKind`].
pub ghost enum LineKindModel {
    StateDecl(Seq<char>),
    ParentDecl(Seq<char>),
    EventDecl(Seq<char>),
    TargetDecl(Seq<char>),
    HandledMarker,
    NoMatch,
}

impl View for LineKind {
    type V = LineKindModel;

    open spec fn view(&self) -> LineKindModel {
        match self {
            LineKind::StateDecl(n) => LineKindModel::StateDecl(n@),
            LineKind::ParentDecl(n) => LineKindModel::ParentDecl(n@),
            LineKind::EventDecl(n) => LineKindModel::EventDecl(n@),
            LineKind::TargetDecl(n) => LineKindModel::TargetDecl(n@),
            LineKind::HandledMarker => LineKindModel::HandledMarker,
            LineKind::NoMatch => LineKindModel::NoMatch,
        }
    }
}

/// Classification of one line, in strict priority order: a line is
/// interpreted as the first shape it structurally resembles, even if it
/// could coincidentally match a lower-priority pattern.
pub open spec fn classify_spec(s: Seq<char>) -> LineKindModel {
    match state_capture(s) {
        Some(n) => LineKindModel::StateDecl(n),
        None => match parent_capture(s) {
            Some(p) => LineKindModel::ParentDecl(p),
            None => match event_capture(s) {
                Some(e) => LineKindModel::EventDecl(e),
                None => match target_capture(s) {
                    Some(t) => LineKindModel::TargetDecl(t),
                    None => if handled_match(s) {
                        LineKindModel::HandledMarker
                    } else {
                        LineKindModel::NoMatch
                    },
                },
            },
        },
    }
}

/// Executable check for [`is_word_char`].
fn word_char(c: char) -> (r: bool)
    ensures
        r == is_word_char(c),
{
    let u: u32 = c as u32;
    (('a' as u32) <= u && u <= ('z' as u32)) || (('A' as u32) <= u && u <= ('Z' as u32)) || ((
    '0' as u32) <= u && u <= ('9' as u32)) || u == ('_' as u32)
}

/// Executable check for [`is_space_char`].
fn space_char(c: char) -> (r: bool)
    ensures
        r == is_space_char(c),
{
    c == ' ' || c == '\t'
}

/// End of the maximal word-character run starting at `start`.
fn word_run_end_exec(line: &str, n: usize, start: usize) -> (r: usize)
    requires
        n == line@.len(),
        start <= n,
    ensures
        r == word_run_end(line@, start as int),
        start <= r <= n,
{
    let mut k: usize = start;
    while k < n && word_char(line.get_char(k))
        invariant
            start <= k <= n,
            n == line@.len(),
            word_run_end(line@, start as int) == word_run_end(line@, k as int),
        decreases n - k,
    {
        k = k + 1;
    }
    k
}

/// Copies the identifier starting at `start` out of the line.
fn capture_from(line: &str, n: usize, start: usize) -> (r: String)
    requires
        n == line@.len(),
        start <= n,
    ensures
        r@ == word_run(line@, start as int),
{
    let end: usize = word_run_end_exec(line, n, start);
    line.substring_char(start, end).to_owned()
}

/// Executable check for [`super_at`].
fn super_at_exec(line: &str, n: usize, j: usize) -> (r: bool)
    requires
        n == line@.len(),
    ensures
        r == super_at(line@, j as int),
{
    if j >= n || n - j < 9 {
        return false;
    }
    line.get_char(j) == 'Q' && line.get_char(j + 1) == '_' && line.get_char(j + 2) == 'S'
        && line.get_char(j + 3) == 'U' && line.get_char(j + 4) == 'P' && line.get_char(j + 5)
        == 'E' && line.get_char(j + 6) == 'R' && line.get_char(j + 7) == '(' && line.get_char(
        j + 8,
    ) == '&'
}

/// Executable check for [`tran_at`].
fn tran_at_exec(line: &str, n: usize, j: usize) -> (r: bool)
    requires
        n == line@.len(),
    ensures
        r == tran_at(line@, j as int),
{
    if j >= n || n - j < 8 {
        return false;
    }
    line.get_char(j) == 'Q' && line.get_char(j + 1) == '_' && line.get_char(j + 2) == 'T'
        && line.get_char(j + 3) == 'R' && line.get_char(j + 4) == 'A' && line.get_char(j + 5)
        == 'N' && line.get_char(j + 6) == '(' && line.get_char(j + 7) == '&'
}

/// Executable check for [`handled_at`].
fn handled_at_exec(line: &str, n: usize, j: usize) -> (r: bool)
    requires
        n == line@.len(),
    ensures
        r == handled_at(line@, j as int),
{
    if j >= n || n - j < 10 {
        return false;
    }
    line.get_char(j) == 'Q' && line.get_char(j + 1) == '_' && line.get_char(j + 2) == 'H'
        && line.get_char(j + 3) == 'A' && line.get_char(j + 4) == 'N' && line.get_char(j + 5)
        == 'D' && line.get_char(j + 6) == 'L' && line.get_char(j + 7) == 'E' && line.get_char(
        j + 8,
    ) == 'D' && line.get_char(j + 9) == '('
}

/// Executable check for [`case_at`].
fn case_at_exec(line: &str, n: usize, j: usize) -> (r: bool)
    requires
        n == line@.len(),
    ensures
        r == case_at(line@, j as int),
{
    if j >= n || n - j < 5 {
        return false;
    }
    line.get_char(j) == 'c' && line.get_char(j + 1) == 'a' && line.get_char(j + 2) == 's'
        && line.get_char(j + 3) == 'e' && line.get_char(j + 4) == ' '
}

/// Extracts the state name from a state-declaration line, if the line is one.
pub fn get_state(line: &str) -> (r: Option<String>)
    ensures
        (match (r, state_capture(line@)) {
            (Some(a), Some(b)) => a@ == b,
            (None, None) => true,
            _ => false,
        }),
{
    let n: usize = line.unicode_len();
    if n < 11 {
        return None;
    }
    if !(line.get_char(0) == 'Q' && line.get_char(1) == 'P' && line.get_char(2) == ':'
        && line.get_char(3) == ':' && line.get_char(4) == 'Q' && line.get_char(5) == 'S'
        && line.get_char(6) == 't' && line.get_char(7) == 'a' && line.get_char(8) == 't'
        && line.get_char(9) == 'e' && line.get_char(10) == ' ') {
        return None;
    }
    let mut i: usize = 11;
    while n - i >= 2
        invariant
            11 <= i <= n,
            n == line@.len(),
            qstate_prefix_at(line@),
            first_colons_from(line@, 11) == first_colons_from(line@, i as int),
        decreases n - i,
    {
        if line.get_char(i) == ':' && line.get_char(i + 1) == ':' {
            assert(colons_at(line@, i as int));
            assert(first_colons_from(line@, i as int) == Some(i as int));
            return Some(capture_from(line, n, i + 2));
        }
        i = i + 1;
    }
    None
}

/// Extracts the superstate name from a superstate-declaration line, if the
/// line is one.
pub fn get_parent(line: &str) -> (r: Option<String>)
    ensures
        (match (r, parent_capture(line@)) {
            (Some(a), Some(b)) => a@ == b,
            (None, None) => true,
            _ => false,
        }),
{
    let n: usize = line.unicode_len();
    let mut i: usize = n;
    loop
        invariant
            i <= n,
            n == line@.len(),
            last_super_before(line@, n as int) == last_super_before(line@, i as int),
        decreases i,
    {
        if i == 0 {
            return None;
        }
        if super_at_exec(line, n, i - 1) {
            return Some(capture_from(line, n, i - 1 + 9));
        }
        i = i - 1;
    }
}

/// Extracts the target state name from a transition-target line, if the line
/// is one.
pub fn get_target(line: &str) -> (r: Option<String>)
    ensures
        (match (r, target_capture(line@)) {
            (Some(a), Some(b)) => a@ == b,
            (None, None) => true,
            _ => false,
        }),
{
    let n: usize = line.unicode_len();
    let mut i: usize = n;
    loop
        invariant
            i <= n,
            n == line@.len(),
            last_tran_before(line@, n as int) == last_tran_before(line@, i as int),
        decreases i,
    {
        if i == 0 {
            return None;
        }
        if tran_at_exec(line, n, i - 1) {
            return Some(capture_from(line, n, i - 1 + 8));
        }
        i = i - 1;
    }
}

/// Extracts the event name from an event-declaration line, if the line is
/// one.
pub fn get_event(line: &str) -> (r: Option<String>)
    ensures
        (match (r, event_capture(line@)) {
            (Some(a), Some(b)) => a@ == b,
            (None, None) => true,
            _ => false,
        }),
{
    let n: usize = line.unicode_len();
    let mut i: usize = 0;
    while i < n && space_char(line.get_char(i))
        invariant
            i <= n,
            n == line@.len(),
            space_run_end(line@, 0) == space_run_end(line@, i as int),
        decreases n - i,
    {
        i = i + 1;
    }
    if case_at_exec(line, n, i) {
        Some(capture_from(line, n, i + 5))
    } else {
        None
    }
}

/// Tells whether the line contains the explicit handled marker.
pub fn is_handled(line: &str) -> (r: bool)
    ensures
        r == handled_match(line@),
{
    let n: usize = line.unicode_len();
    let mut i: usize = 0;
    while i < n
        invariant
            i <= n,
            n == line@.len(),
            forall|k: int| 0 <= k < i ==> !handled_at(line@, k),
        decreases n - i,
    {
        if handled_at_exec(line, n, i) {
            assert(handled_at(line@, i as int));
            return true;
        }
        i = i + 1;
    }
    assert(!handled_match(line@)) by {
        assert forall|k: int| !handled_at(line@, k) by {
            if 0 <= k < n {
                assert(!handled_at(line@, k));
            }
        }
    }
    false
}

/// Classifies one line of input, in strict priority order.
pub fn classify(line: &str) -> (r: LineKind)
    ensures
        r@ == classify_spec(line@),
{
    if let Some(n) = get_state(line) {
        return LineKind::StateDecl(n);
    }
    if let Some(p) = get_parent(line) {
        return LineKind::ParentDecl(p);
    }
    if let Some(e) = get_event(line) {
        return LineKind::EventDecl(e);
    }
    if let Some(t) = get_target(line) {
        return LineKind::TargetDecl(t);
    }
    if is_handled(line) {
        return LineKind::HandledMarker;
    }
    LineKind::NoMatch
}

} // verus!
