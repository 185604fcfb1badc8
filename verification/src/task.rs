//! The task record, its lifecycle stamps, the agent queue, and title rules.
use vstd::prelude::*;
use vstd::string::*;

use crate::error::CrewError;
use crate::status::{is_legal_transition, TaskOrigin, TaskStatus};
use crate::text::{decimal, i64_decimal, usize_decimal};

verus! {

/// An instant in UTC: whole seconds since the Unix epoch and the nanoseconds
/// past that second. Records carry instants through; the domain never
/// computes with them.
#[derive(Debug, Clone, Copy, PartialEq, Eq, Structural)]
pub struct Timestamp {
    pub secs: i64,
    pub nanos: u32,
}

/// Globally unique, monotonic, human-typeable task identifier.
pub type TaskId = i64;

/// Maximum title length in characters, after trimming.
pub const TITLE_MAX_CHARS: usize = 500;

/// Task metadata, mirroring the Postgres row. The payload lives in
/// [`crate::detail::TaskDetail`]; only `summary` is free-form prose here.
#[derive(Debug, Clone, PartialEq, Eq)]
pub struct Task {
    pub id: TaskId,
    pub title: String,
    pub status: TaskStatus,
    pub origin: TaskOrigin,
    pub parent_id: Option<TaskId>,
    pub agent_eligible: bool,
    pub summary: Option<String>,
    pub created_at: Timestamp,
    pub updated_at: Timestamp,
    pub handed_off_at: Option<Timestamp>,
    pub completed_at: Option<Timestamp>,
}

/// The agent queue: `todo`, created by the human, agent-eligible, and a root.
pub open spec fn in_agent_queue(t: Task) -> bool {
    &&& t.status == TaskStatus::Todo
    &&& t.origin == TaskOrigin::Human
    &&& t.agent_eligible
    &&& t.parent_id is None
}

impl Task {
    /// The task after a legal move to `to` at time `now`: `updated_at` is
    /// stamped on every move, `handed_off_at` on a hand-off, `completed_at` on
    /// completion, and reopening a `done` task clears `completed_at`.
    pub open spec fn after_transition(self, to: TaskStatus, now: Timestamp) -> Task {
        Task {
            status: to,
            updated_at: now,
            handed_off_at: if to == TaskStatus::HandedOff {
                Some(now)
            } else {
                self.handed_off_at
            },
            completed_at: if to == TaskStatus::Done {
                Some(now)
            } else if self.status == TaskStatus::Done {
                None
            } else {
                self.completed_at
            },
            ..self
        }
    }

    /// Roots are what the human asked for; children are what an agent
    /// determined must be done. The hierarchy is strictly two levels.
    pub fn is_root(&self) -> (b: bool)
        ensures
            b == (self.parent_id is None),
    {
        self.parent_id.is_none()
    }

    /// Whether the task is in the agent queue.
    pub fn in_agent_queue(&self) -> (b: bool)
        ensures
            b == in_agent_queue(*self),
    {
        self.status == TaskStatus::Todo && self.origin == TaskOrigin::Human && self.agent_eligible
            && self.parent_id.is_none()
    }

    /// Applies a status change at time `now`. A refused change names both
    /// states and leaves the task exactly as it was.
    pub fn apply_transition(
        &mut self,
        to: TaskStatus,
        action: &'static str,
        now: Timestamp,
    ) -> (r: Result<(), CrewError>)
        ensures
            is_legal_transition(old(self).status, to) ==> r is Ok && *final(self) == old(
                self,
            ).after_transition(to, now),
            is_legal_transition(old(self).status, to) ==> {
                &&& final(self).status == to
                &&& final(self).updated_at == now
                &&& to == TaskStatus::HandedOff ==> final(self).handed_off_at == Some(now)
                &&& to == TaskStatus::Done ==> final(self).completed_at == Some(now)
                &&& old(self).status == TaskStatus::Done ==> final(self).completed_at is None
                &&& final(self).id == old(self).id
                &&& final(self).title == old(self).title
                &&& final(self).origin == old(self).origin
                &&& final(self).parent_id == old(self).parent_id
                &&& final(self).agent_eligible == old(self).agent_eligible
                &&& final(self).summary == old(self).summary
                &&& final(self).created_at == old(self).created_at
            },
            !is_legal_transition(old(self).status, to) ==> *final(self) == *old(self) && r
                == Err::<(), CrewError>(
                CrewError::IllegalTransition {
                    id: old(self).id,
                    from: old(self).status,
                    to,
                    action,
                },
            ),
    {
        let from = self.status;
        match from.transition(self.id, to, action) {
            Err(e) => Err(e),
            Ok(_) => {
                if to == TaskStatus::HandedOff {
                    self.handed_off_at = Some(now);
                }
                if to == TaskStatus::Done {
                    self.completed_at = Some(now);
                } else if from == TaskStatus::Done {
                    self.completed_at = None;
                }
                self.status = to;
                self.updated_at = now;
                Ok(())
            },
        }
    }
}

/// Checks the parent named by `agent add --parent`: it must exist, and it
/// must be a root, since the hierarchy is strictly two levels. `parent` is
/// the task found under `parent_id`, if any.
pub fn check_parent(parent_id: TaskId, parent: Option<&Task>) -> (r: Result<(), CrewError>)
    ensures
        parent is None ==> r == Err::<(), CrewError>(CrewError::NotFound(parent_id)),
        parent matches Some(p) && p.parent_id is None ==> r is Ok,
        parent matches Some(p) && p.parent_id is Some ==> (r matches Err(e) && e is Validation
            && e.display_text() == "task "@ + decimal(parent_id as int) + " is already a child"@),
{
    match parent {
        None => Err(CrewError::NotFound(parent_id)),
        Some(p) => {
            if p.parent_id.is_none() {
                Ok(())
            } else {
                let mut m = String::from_str("task ");
                let digits = i64_decimal(parent_id);
                m.append(digits.as_str());
                m.append(" is already a child");
                Err(CrewError::Validation(m))
            }
        },
    }
}

/// Checks a hard delete of task `id`, which has `children` children that
/// would cascade: deleting a parent needs `force`.
pub fn check_delete(id: TaskId, children: usize, force: bool) -> (r: Result<(), CrewError>)
    ensures
        r is Ok <==> (children == 0 || force),
        r matches Err(e) ==> e is Validation && e.display_text() == "task "@ + decimal(id as int)
            + " has "@ + decimal(children as int) + " children; pass --force"@,
{
    if children == 0 || force {
        Ok(())
    } else {
        let mut m = String::from_str("task ");
        let digits = i64_decimal(id);
        m.append(digits.as_str());
        m.append(" has ");
        let count = usize_decimal(children);
        m.append(count.as_str());
        m.append(" children; pass --force");
        Err(CrewError::Validation(m))
    }
}

/// Every legal move lands on its target status and stamps `updated_at` with
/// the time of the move. Handing off stamps `handed_off_at`; completing
/// stamps `completed_at`, whichever status the task came from; reopening a
/// `done` task clears `completed_at`. Identity, title, origin, parent,
/// eligibility, summary and creation time never change.
pub proof fn lemma_transition_stamps(t: Task, to: TaskStatus, now: Timestamp)
    requires
        is_legal_transition(t.status, to),
    ensures
        t.after_transition(to, now).status == to,
        t.after_transition(to, now).updated_at == now,
        to == TaskStatus::HandedOff ==> t.after_transition(to, now).handed_off_at == Some(now),
        to == TaskStatus::Done ==> t.after_transition(to, now).completed_at == Some(now),
        t.status == TaskStatus::Done ==> t.after_transition(to, now).completed_at is None,
        t.after_transition(to, now).id == t.id,
        t.after_transition(to, now).title == t.title,
        t.after_transition(to, now).origin == t.origin,
        t.after_transition(to, now).parent_id == t.parent_id,
        t.after_transition(to, now).agent_eligible == t.agent_eligible,
        t.after_transition(to, now).summary == t.summary,
        t.after_transition(to, now).created_at == t.created_at,
{
}

/// After any legal move, the task is in the agent queue exactly when it moved
/// to `todo` and is a human-created, agent-eligible root: a hand-off takes it
/// out of the queue, and a skip puts it back.
pub proof fn lemma_queue_after_transition(
    t: Task,
    to: TaskStatus,
    now: Timestamp,
)
    requires
        is_legal_transition(t.status, to),
    ensures
        in_agent_queue(t.after_transition(to, now)) <==> (to == TaskStatus::Todo && t.origin
            == TaskOrigin::Human && t.agent_eligible && t.parent_id is None),
{
}

/// Tasks an agent created, children, and tasks the human kept for themself
/// never appear in the agent queue, whatever their status.
pub proof fn lemma_queue_excludes_agent_work(t: Task)
    requires
        t.origin == TaskOrigin::Agent || t.parent_id is Some || !t.agent_eligible,
    ensures
        !in_agent_queue(t),
{
}

/// Whether a character has the Unicode `White_Space` property: tab, line
/// feed, vertical tab, form feed, carriage return, space, next line,
/// no-break space, Ogham space mark, the spaces U+2000 to U+200A, line and
/// paragraph separators, narrow no-break space, medium mathematical space,
/// and ideographic space.
pub open spec fn is_white_space(c: char) -> bool {
    let u: u32 = c as u32;
    ||| 0x9 <= u <= 0xD
    ||| u == 0x20
    ||| u == 0x85
    ||| u == 0xA0
    ||| u == 0x1680
    ||| 0x2000 <= u <= 0x200A
    ||| u == 0x2028
    ||| u == 0x2029
    ||| u == 0x202F
    ||| u == 0x205F
    ||| u == 0x3000
}

/// Whether `c` is whitespace, as `char::is_whitespace` decides it.
pub fn is_whitespace(c: char) -> (b: bool)
    ensures
        b == is_white_space(c),
{
    let u: u32 = c as u32;
    (0x9 <= u && u <= 0xD) || u == 0x20 || u == 0x85 || u == 0xA0 || u == 0x1680 || (0x2000 <= u
        && u <= 0x200A) || u == 0x2028 || u == 0x2029 || u == 0x202F || u == 0x205F || u == 0x3000
}

/// `s` without its leading whitespace.
pub open spec fn trim_start(s: Seq<char>) -> Seq<char>
    decreases s.len(),
{
    if s.len() > 0 && is_white_space(s[0]) {
        trim_start(s.drop_first())
    } else {
        s
    }
}

/// `s` without its trailing whitespace.
pub open spec fn trim_end(s: Seq<char>) -> Seq<char>
    decreases s.len(),
{
    if s.len() > 0 && is_white_space(s.last()) {
        trim_end(s.drop_last())
    } else {
        s
    }
}

/// `s` without leading and trailing whitespace, as `str::trim` gives it.
pub open spec fn trimmed(s: Seq<char>) -> Seq<char> {
    trim_end(trim_start(s))
}

/// A stored title: the trimmed input, between 1 and 500 characters.
pub open spec fn title_is_valid(title: Seq<char>) -> bool {
    1 <= trimmed(title).len() <= TITLE_MAX_CHARS
}

proof fn lemma_trim_start_skips(s: Seq<char>, i: int)
    requires
        0 <= i <= s.len(),
        forall|k: int| 0 <= k < i ==> is_white_space(#[trigger] s[k]),
        i == s.len() || !is_white_space(s[i]),
    ensures
        trim_start(s) == s.subrange(i, s.len() as int),
    decreases i,
{
    if i > 0 {
        assert(s.drop_first() =~= s.subrange(1, s.len() as int));
        lemma_trim_start_skips(s.drop_first(), i - 1);
        assert(s.drop_first().subrange(i - 1, s.drop_first().len() as int) =~= s.subrange(
            i,
            s.len() as int,
        ));
    } else {
        assert(s.subrange(0, s.len() as int) =~= s);
    }
}

proof fn lemma_trim_end_skips(s: Seq<char>, j: int)
    requires
        0 <= j <= s.len(),
        forall|k: int| j <= k < s.len() ==> is_white_space(#[trigger] s[k]),
        j == 0 || !is_white_space(s[j - 1]),
    ensures
        trim_end(s) == s.subrange(0, j),
    decreases s.len() - j,
{
    if j < s.len() {
        assert(s.drop_last() =~= s.subrange(0, s.len() - 1));
        lemma_trim_end_skips(s.drop_last(), j);
        assert(s.drop_last().subrange(0, j) =~= s.subrange(0, j));
    } else {
        assert(s.subrange(0, s.len() as int) =~= s);
    }
}

proof fn lemma_trim_start_shape(s: Seq<char>)
    ensures
        trim_start(s).len() == 0 || !is_white_space(trim_start(s)[0]),
    decreases s.len(),
{
    if s.len() > 0 && is_white_space(s[0]) {
        lemma_trim_start_shape(s.drop_first());
    }
}

proof fn lemma_trim_end_shape(s: Seq<char>)
    ensures
        trim_end(s).len() <= s.len(),
        trim_end(s) == s.subrange(0, trim_end(s).len() as int),
        trim_end(s).len() == 0 || !is_white_space(trim_end(s).last()),
        forall|k: int| trim_end(s).len() <= k < s.len() ==> is_white_space(#[trigger] s[k]),
    decreases s.len(),
{
    if s.len() > 0 && is_white_space(s.last()) {
        lemma_trim_end_shape(s.drop_last());
        let k: int = trim_end(s.drop_last()).len() as int;
        assert(s.drop_last().subrange(0, k) =~= s.subrange(0, k));
        assert forall|m: int| trim_end(s).len() <= m < s.len() implies is_white_space(
            #[trigger] s[m],
        ) by {
            if m < s.len() - 1 {
                assert(s[m] == s.drop_last()[m]);
            }
        }
    } else {
        assert(s.subrange(0, s.len() as int) =~= s);
    }
}

proof fn lemma_trim_start_suffix(s: Seq<char>)
    ensures
        trim_start(s).len() <= s.len(),
        trim_start(s) == s.subrange(s.len() - trim_start(s).len(), s.len() as int),
        forall|k: int| 0 <= k < s.len() - trim_start(s).len() ==> is_white_space(#[trigger] s[k]),
    decreases s.len(),
{
    if s.len() > 0 && is_white_space(s[0]) {
        let rest = s.drop_first();
        lemma_trim_start_suffix(rest);
        let n: int = trim_start(rest).len() as int;
        assert(rest.subrange(rest.len() - n, rest.len() as int) =~= s.subrange(
            s.len() - n,
            s.len() as int,
        ));
        assert forall|k: int| 0 <= k < s.len() - n implies is_white_space(#[trigger] s[k]) by {
            if k > 0 {
                assert(s[k] == rest[k - 1]);
            }
        }
    } else {
        assert(s.subrange(0, s.len() as int) =~= s);
    }
}

/// Trimming keeps exactly the span of `s` between its first and its last
/// non-whitespace character: the result is a contiguous piece of `s`, what
/// lies before and after it is whitespace, and it neither starts nor ends
/// with whitespace (an all-whitespace `s` trims to nothing).
pub proof fn lemma_trimmed_is_the_inner_span(s: Seq<char>)
    ensures
        trimmed(s).len() == 0 || (!is_white_space(trimmed(s)[0]) && !is_white_space(
            trimmed(s).last(),
        )),
        exists|i: int, j: int|
            0 <= i <= j <= s.len() && trimmed(s) == s.subrange(i, j) && (forall|k: int|
                0 <= k < i ==> is_white_space(#[trigger] s[k])) && (forall|k: int|
                j <= k < s.len() ==> is_white_space(#[trigger] s[k])),
{
    let r = trim_start(s);
    let t = trim_end(r);
    lemma_trim_start_shape(s);
    lemma_trim_start_suffix(s);
    lemma_trim_end_shape(r);
    let i: int = s.len() - r.len();
    let j: int = i + t.len();
    if t.len() > 0 {
        assert(t[0] == r[0]);
    }
    assert(t =~= s.subrange(i, j));
    assert forall|k: int| j <= k < s.len() implies is_white_space(#[trigger] s[k]) by {
        assert(s[k] == r[k - i]);
    }
    assert(0 <= i <= j <= s.len() && trimmed(s) == s.subrange(i, j) && (forall|k: int|
        0 <= k < i ==> is_white_space(#[trigger] s[k])) && (forall|k: int|
        j <= k < s.len() ==> is_white_space(#[trigger] s[k])));
}

/// Trimming is idempotent: a title that was stored trimmed is stored
/// unchanged when it is validated again.
pub proof fn lemma_trim_is_idempotent(s: Seq<char>)
    ensures
        trimmed(trimmed(s)) == trimmed(s),
{
    let r = trim_start(s);
    let t = trim_end(r);
    lemma_trim_start_shape(s);
    lemma_trim_end_shape(r);
    if t.len() > 0 {
        assert(t[0] == r[0]);
    }
    assert(trim_start(t) == t);
}

/// A span of `s` with only whitespace outside it, which is empty or starts
/// and ends with non-whitespace.
pub open spec fn is_inner_span(s: Seq<char>, i: int, j: int) -> bool {
    &&& 0 <= i <= j <= s.len()
    &&& forall|k: int| 0 <= k < i ==> is_white_space(#[trigger] s[k])
    &&& forall|k: int| j <= k < s.len() ==> is_white_space(#[trigger] s[k])
    &&& i < j ==> !is_white_space(s[i]) && !is_white_space(s[j - 1])
}

proof fn lemma_inner_span_unique(s: Seq<char>, i1: int, j1: int, i2: int, j2: int)
    requires
        is_inner_span(s, i1, j1),
        is_inner_span(s, i2, j2),
    ensures
        s.subrange(i1, j1) == s.subrange(i2, j2),
{
    if i1 < j1 && i2 < j2 {
        if i1 < i2 {
            assert(is_white_space(s[i1]));
        }
        if i2 < i1 {
            assert(is_white_space(s[i2]));
        }
        if j1 < j2 {
            assert(is_white_space(s[j2 - 1]));
        }
        if j2 < j1 {
            assert(is_white_space(s[j1 - 1]));
        }
    } else if i1 < j1 {
        if i1 < i2 {
            assert(is_white_space(s[i1]));
        } else {
            assert(is_white_space(s[i1]));
        }
    } else if i2 < j2 {
        if i2 < i1 {
            assert(is_white_space(s[i2]));
        } else {
            assert(is_white_space(s[i2]));
        }
    }
    assert(s.subrange(i1, j1) =~= s.subrange(i2, j2));
}

proof fn lemma_trimmed_span(s: Seq<char>) -> (span: (int, int))
    ensures
        is_inner_span(s, span.0, span.1),
        trimmed(s) == s.subrange(span.0, span.1),
{
    lemma_trimmed_is_the_inner_span(s);
    let (i, j) = choose|i: int, j: int|
        0 <= i <= j <= s.len() && trimmed(s) == s.subrange(i, j) && (forall|k: int|
            0 <= k < i ==> is_white_space(#[trigger] s[k])) && (forall|k: int|
            j <= k < s.len() ==> is_white_space(#[trigger] s[k]));
    if i < j {
        assert(trimmed(s)[0] == s[i]);
        assert(trimmed(s).last() == s[j - 1]);
    }
    (i, j)
}

/// Whitespace added after a title does not change what is stored.
pub proof fn lemma_trailing_whitespace_is_ignored(s: Seq<char>, c: char)
    requires
        is_white_space(c),
    ensures
        trimmed(s.push(c)) == trimmed(s),
{
    let (i, j) = lemma_trimmed_span(s);
    let t = s.push(c);
    let (i2, j2) = lemma_trimmed_span(t);
    assert forall|k: int| j <= k < t.len() implies is_white_space(#[trigger] t[k]) by {
        if k < s.len() {
            assert(t[k] == s[k]);
        }
    }
    assert forall|k: int| 0 <= k < i implies is_white_space(#[trigger] t[k]) by {
        assert(t[k] == s[k]);
    }
    if i < j {
        assert(t[i] == s[i]);
        assert(t[j - 1] == s[j - 1]);
    }
    assert(is_inner_span(t, i, j));
    lemma_inner_span_unique(t, i, j, i2, j2);
    assert(t.subrange(i, j) =~= s.subrange(i, j));
}

/// Whitespace added before a title does not change what is stored.
pub proof fn lemma_leading_whitespace_is_ignored(s: Seq<char>, c: char)
    requires
        is_white_space(c),
    ensures
        trimmed(seq![c] + s) == trimmed(s),
{
    let (i, j) = lemma_trimmed_span(s);
    let t = seq![c] + s;
    let (i2, j2) = lemma_trimmed_span(t);
    assert forall|k: int| 0 <= k < i + 1 implies is_white_space(#[trigger] t[k]) by {
        if k > 0 {
            assert(t[k] == s[k - 1]);
        }
    }
    assert forall|k: int| j + 1 <= k < t.len() implies is_white_space(#[trigger] t[k]) by {
        assert(t[k] == s[k - 1]);
    }
    if i < j {
        assert(t[i + 1] == s[i]);
        assert(t[j] == s[j - 1]);
    }
    assert(is_inner_span(t, i + 1, j + 1));
    lemma_inner_span_unique(t, i + 1, j + 1, i2, j2);
    assert(t.subrange(i + 1, j + 1) =~= s.subrange(i, j));
}

/// The characters of `s`, in order.
fn chars_of(s: &str) -> (v: Vec<char>)
    ensures
        v@ == s@,
{
    let mut v: Vec<char> = Vec::new();
    for c in it: s.chars()
        invariant
            v@ == it.seq().take(it.index()),
            it.seq() == s@,
    {
        v.push(c);
    }
    v
}

/// `s` with leading and trailing whitespace removed.
pub fn trim(s: &str) -> (t: String)
    ensures
        t@ == trimmed(s@),
        t@.len() == 0 || (!is_white_space(t@[0]) && !is_white_space(t@.last())),
        exists|i: int, j: int|
            0 <= i <= j <= s@.len() && t@ == s@.subrange(i, j) && (forall|k: int|
                0 <= k < i ==> is_white_space(#[trigger] s@[k])) && (forall|k: int|
                j <= k < s@.len() ==> is_white_space(#[trigger] s@[k])),
{
    proof {
        lemma_trimmed_is_the_inner_span(s@);
    }
    let v = chars_of(s);
    let len: usize = v.len();
    let mut i: usize = 0;
    while i < len && is_whitespace(v[i])
        invariant
            i <= len,
            len == v@.len(),
            forall|k: int| 0 <= k < i ==> is_white_space(#[trigger] v@[k]),
        decreases len - i,
    {
        i = i + 1;
    }
    proof {
        lemma_trim_start_skips(v@, i as int);
    }
    let ghost rest = v@.subrange(i as int, len as int);
    let mut j: usize = len;
    while j > i && is_whitespace(v[j - 1])
        invariant
            i <= j <= len,
            len == v@.len(),
            rest == v@.subrange(i as int, len as int),
            forall|k: int| j <= k < len ==> is_white_space(#[trigger] v@[k]),
        decreases j,
    {
        j = j - 1;
    }
    proof {
        assert forall|k: int| (j - i) <= k < rest.len() implies is_white_space(#[trigger] rest[k]) by {
            assert(rest[k] == v@[k + i]);
        }
        if j > i {
            assert(rest[j - i - 1] == v@[j - 1]);
        }
        lemma_trim_end_skips(rest, (j - i) as int);
        assert(rest.subrange(0, (j - i) as int) =~= v@.subrange(i as int, j as int));
    }
    let mut t = String::new();
    let mut k: usize = i;
    while k < j
        invariant
            i <= k <= j <= len,
            len == v@.len(),
            t@ == v@.subrange(i as int, k as int),
        decreases j - k,
    {
        crate::text::push_char(&mut t, v[k]);
        assert(v@.subrange(i as int, k + 1) =~= v@.subrange(i as int, k as int).push(v@[k as int]));
        k = k + 1;
    }
    t
}

/// Checks a title and returns what is stored: the trimmed text. A title that
/// is empty after trimming, or longer than 500 characters after trimming, is
/// a validation failure.
pub fn validate_title(title: &str) -> (r: Result<String, CrewError>)
    ensures
        r is Ok <==> title_is_valid(title@),
        r matches Ok(t) ==> t@ == trimmed(title@),
        r matches Ok(t) ==> 1 <= t@.len() <= TITLE_MAX_CHARS && !is_white_space(t@[0])
            && !is_white_space(t@.last()),
        r matches Ok(t) ==> exists|i: int, j: int|
            0 <= i <= j <= title@.len() && t@ == title@.subrange(i, j) && (forall|k: int|
                0 <= k < i ==> is_white_space(#[trigger] title@[k])) && (forall|k: int|
                j <= k < title@.len() ==> is_white_space(#[trigger] title@[k])),
        r matches Err(e) ==> e is Validation && (trimmed(title@).len() == 0 ==> e.display_text()
            == "title must not be blank"@) && (trimmed(title@).len() > 0 ==> e.display_text()
            == "title must be at most 500 characters"@),
{
    let t = trim(title);
    let n: usize = t.as_str().unicode_len();
    if n == 0 {
        Err(CrewError::Validation(String::from_str("title must not be blank")))
    } else if n > TITLE_MAX_CHARS {
        Err(CrewError::Validation(String::from_str("title must be at most 500 characters")))
    } else {
        Ok(t)
    }
}

} // verus!
