//! The cancellation flags of running transcription tasks.
use vstd::prelude::*;

verus! {

/// The task ids and their cancellation flags, one entry per task.
pub struct TranscribeState {
    cancel_flags: Vec<(String, bool)>,
}

/// Whether a cancellation has been requested for `task_id` in the flags `m`:
/// a task without a flag is not cancelled.
pub open spec fn cancel_requested(m: Map<Seq<char>, bool>, task_id: Seq<char>) -> bool {
    m.dom().contains(task_id) && m[task_id]
}

/// No task id occurs twice among the entries.
pub open spec fn distinct_keys(v: Seq<(String, bool)>) -> bool {
    forall|i: int, j: int| 0 <= i < v.len() && 0 <= j < v.len() && i != j ==> v[i].0@ != v[j].0@
}

/// The entry index of `k`, if any.
pub open spec fn has_key(v: Seq<(String, bool)>, k: Seq<char>) -> bool {
    exists|i: int| 0 <= i < v.len() && v[i].0@ == k
}

/// The flags that the entries stand for.
pub open spec fn flags_of(v: Seq<(String, bool)>) -> Map<Seq<char>, bool> {
    Map::new(
        |k: Seq<char>| has_key(v, k),
        |k: Seq<char>| v[choose|i: int| 0 <= i < v.len() && v[i].0@ == k].1,
    )
}

proof fn lemma_flags_at(v: Seq<(String, bool)>, i: int)
    requires
        distinct_keys(v),
        0 <= i < v.len(),
    ensures
        flags_of(v).dom().contains(v[i].0@),
        flags_of(v)[v[i].0@] == v[i].1,
{
    let k = v[i].0@;
    assert(has_key(v, k));
    let j = choose|j: int| 0 <= j < v.len() && v[j].0@ == k;
    assert(j == i);
}

impl TranscribeState {
    #[verifier::type_invariant]
    spec fn inv(self) -> bool {
        distinct_keys(self.cancel_flags@)
    }

    /// The cancellation flag of each known task, by task id.
    pub closed spec fn flags(&self) -> Map<Seq<char>, bool> {
        flags_of(self.cancel_flags@)
    }

    /// A state that knows no task.
    pub fn new() -> (s: Self)
        ensures
            s.flags() == Map::<Seq<char>, bool>::empty(),
    {
        let s = TranscribeState { cancel_flags: Vec::new() };
        assert(s.flags() =~= Map::<Seq<char>, bool>::empty());
        s
    }

    /// The entry index of `task_id`, if it has one.
    fn find(&self, task_id: &String) -> (r: Option<usize>)
        ensures
            match r {
                Some(i) => i < self.cancel_flags@.len() && self.cancel_flags@[i as int].0@ == task_id@,
                None => !has_key(self.cancel_flags@, task_id@),
            },
    {
        let mut i: usize = 0;
        while i < self.cancel_flags.len()
            invariant
                i <= self.cancel_flags@.len(),
                forall|j: int| 0 <= j < i ==> self.cancel_flags@[j].0@ != task_id@,
            decreases self.cancel_flags.len() - i,
        {
            if self.cancel_flags[i].0 == *task_id {
                return Some(i);
            }
            i = i + 1;
        }
        None
    }

    /// Sets the cancellation flag of `task_id`, adding the task if it is new.
    pub fn set_flag(&mut self, task_id: String, cancelled: bool)
        ensures
            final(self).flags() == old(self).flags().insert(task_id@, cancelled),
    {
        proof {
            use_type_invariant(&*self);
        }
        let mut entries: Vec<(String, bool)> = Vec::new();
        std::mem::swap(&mut entries, &mut self.cancel_flags);
        let ghost before = entries@;
        let found = {
            let probe = TranscribeState { cancel_flags: entries };
            let f = probe.find(&task_id);
            entries = probe.cancel_flags;
            f
        };
        let ghost k = task_id@;
        match found {
            Some(i) => {
                entries.set(i, (task_id, cancelled));
                let ghost after = entries@;
                assert(distinct_keys(after)) by {
                    assert forall|a: int, b: int|
                        0 <= a < after.len() && 0 <= b < after.len() && a != b implies after[a].0@
                        != after[b].0@ by {
                        if a != i && b != i {
                            assert(after[a] == before[a] && after[b] == before[b]);
                        } else if a == i {
                            assert(after[b] == before[b]);
                        } else {
                            assert(after[a] == before[a]);
                        }
                    }
                }
                assert(flags_of(after) =~= flags_of(before).insert(k, cancelled)) by {
                    assert forall|q: Seq<char>| #[trigger] has_key(after, q) == (has_key(before, q) || q == k) by {
                        if has_key(before, q) {
                            let j = choose|j: int| 0 <= j < before.len() && before[j].0@ == q;
                            if j != i {
                                assert(after[j] == before[j]);
                            }
                        }
                        if has_key(after, q) {
                            let j = choose|j: int| 0 <= j < after.len() && after[j].0@ == q;
                            if j != i {
                                assert(after[j] == before[j]);
                            }
                        }
                        assert(after[i as int].0@ == k);
                    }
                    assert forall|q: Seq<char>| #[trigger] has_key(after, q) implies flags_of(after)[q] == flags_of(
                        before,
                    ).insert(k, cancelled)[q] by {
                        let j = choose|j: int| 0 <= j < after.len() && after[j].0@ == q;
                        lemma_flags_at(after, j);
                        if j != i {
                            assert(after[j] == before[j]);
                            lemma_flags_at(before, j);
                        }
                    }
                }
            },
            None => {
                entries.push((task_id, cancelled));
                let ghost after = entries@;
                assert(distinct_keys(after)) by {
                    assert forall|a: int, b: int|
                        0 <= a < after.len() && 0 <= b < after.len() && a != b implies after[a].0@
                        != after[b].0@ by {
                        if a < before.len() && b < before.len() {
                            assert(after[a] == before[a] && after[b] == before[b]);
                        } else if a < before.len() {
                            assert(after[a] == before[a]);
                        } else {
                            assert(after[b] == before[b]);
                        }
                    }
                }
                let ghost n = before.len() as int;
                assert(flags_of(after) =~= flags_of(before).insert(k, cancelled)) by {
                    assert forall|q: Seq<char>| #[trigger] has_key(after, q) == (has_key(before, q) || q == k) by {
                        if has_key(before, q) {
                            let j = choose|j: int| 0 <= j < before.len() && before[j].0@ == q;
                            assert(after[j] == before[j]);
                        }
                        if has_key(after, q) {
                            let j = choose|j: int| 0 <= j < after.len() && after[j].0@ == q;
                            if j != n {
                                assert(after[j] == before[j]);
                            }
                        }
                        assert(after[n].0@ == k);
                    }
                    assert forall|q: Seq<char>| #[trigger] has_key(after, q) implies flags_of(after)[q] == flags_of(
                        before,
                    ).insert(k, cancelled)[q] by {
                        let j = choose|j: int| 0 <= j < after.len() && after[j].0@ == q;
                        lemma_flags_at(after, j);
                        if j != n {
                            assert(after[j] == before[j]);
                            lemma_flags_at(before, j);
                        }
                    }
                }
            },
        }
        self.cancel_flags = entries;
    }

    /// Forgets `task_id` and its flag.
    pub fn remove_task(&mut self, task_id: &str)
        ensures
            final(self).flags() == old(self).flags().remove(task_id@),
    {
        proof {
            use_type_invariant(&*self);
        }
        let key = task_id.to_owned();
        let mut entries: Vec<(String, bool)> = Vec::new();
        std::mem::swap(&mut entries, &mut self.cancel_flags);
        let ghost before = entries@;
        let found = {
            let probe = TranscribeState { cancel_flags: entries };
            let f = probe.find(&key);
            entries = probe.cancel_flags;
            f
        };
        let ghost k = key@;
        match found {
            Some(i) => {
                entries.remove(i);
                let ghost after = entries@;
                assert(forall|a: int| 0 <= a < after.len() ==> #[trigger] after[a] == (if a < i {
                    before[a]
                } else {
                    before[a + 1]
                }));
                assert(distinct_keys(after)) by {
                    assert forall|a: int, b: int|
                        0 <= a < after.len() && 0 <= b < after.len() && a != b implies after[a].0@
                        != after[b].0@ by {
                        let a2 = if a < i { a } else { a + 1 };
                        let b2 = if b < i { b } else { b + 1 };
                        assert(after[a] == before[a2] && after[b] == before[b2]);
                    }
                }
                assert(flags_of(after) =~= flags_of(before).remove(k)) by {
                    assert forall|q: Seq<char>| #[trigger] has_key(after, q) == (has_key(before, q) && q != k) by {
                        if has_key(before, q) && q != k {
                            let j = choose|j: int| 0 <= j < before.len() && before[j].0@ == q;
                            let j2 = if j < i { j } else { j - 1 };
                            assert(after[j2] == before[j]);
                        }
                        if has_key(after, q) {
                            let j = choose|j: int| 0 <= j < after.len() && after[j].0@ == q;
                            let j2 = if j < i { j } else { j + 1 };
                            assert(after[j] == before[j2]);
                        }
                    }
                    assert forall|q: Seq<char>| #[trigger] has_key(after, q) implies flags_of(after)[q] == flags_of(
                        before,
                    ).remove(k)[q] by {
                        let j = choose|j: int| 0 <= j < after.len() && after[j].0@ == q;
                        let j2 = if j < i { j } else { j + 1 };
                        lemma_flags_at(after, j);
                        assert(after[j] == before[j2]);
                        lemma_flags_at(before, j2);
                    }
                }
            },
            None => {
                assert(flags_of(before) =~= flags_of(before).remove(k));
            },
        }
        self.cancel_flags = entries;
    }

    /// Requests the cancellation of `task_id`.
    pub fn cancel(&mut self, task_id: String)
        ensures
            final(self).flags() == old(self).flags().insert(task_id@, true),
    {
        self.set_flag(task_id, true);
    }

    /// The flag of `task_id`, if the task is known.
    fn flag(&self, task_id: &str) -> (r: Option<bool>)
        ensures
            r == (if self.flags().dom().contains(task_id@) {
                Some(self.flags()[task_id@])
            } else {
                None
            }),
    {
        proof {
            use_type_invariant(self);
        }
        let key = task_id.to_owned();
        match self.find(&key) {
            Some(i) => {
                proof {
                    lemma_flags_at(self.cancel_flags@, i as int);
                }
                Some(self.cancel_flags[i].1)
            },
            None => None,
        }
    }
}

impl Default for TranscribeState {
    fn default() -> (s: Self)
        ensures
            s.flags() == Map::<Seq<char>, bool>::empty(),
    {
        TranscribeState::new()
    }
}

/// Whether a cancellation of `task_id` has been requested; a task without a
/// flag is not cancelled.
pub fn is_cancelled(state: &TranscribeState, task_id: &str) -> (r: bool)
    ensures
        r == cancel_requested(state.flags(), task_id@),
{
    match state.flag(task_id) {
        Some(f) => f,
        None => false,
    }
}

// ---------------------------------------------------------------------------
// Task ids
// ---------------------------------------------------------------------------

/// A lower-case hexadecimal digit.
pub open spec fn is_lower_hex(c: char) -> bool {
    ('0' <= c && c <= '9') || ('a' <= c && c <= 'f')
}

/// `s` is a random (version 4) UUID in hyphenated lower-case form, such as
/// `67e55044-10b1-426f-9247-bb680e5fe0c8`.
pub open spec fn is_v4_uuid_text(s: Seq<char>) -> bool {
    &&& s.len() == 36
    &&& s[8] == '-' && s[13] == '-' && s[18] == '-' && s[23] == '-'
    &&& forall|i: int|
        0 <= i < 36 && i != 8 && i != 13 && i != 18 && i != 23 ==> is_lower_hex(#[trigger] s[i])
    &&& s[14] == '4'
    &&& s[19] == '8' || s[19] == '9' || s[19] == 'a' || s[19] == 'b'
}

/// Calls `uuid::Uuid::new_v4` and formats the id with `to_string`. The bits
/// are random; what the uuid source fixes is the form: 36 lower-case
/// hexadecimal digits and hyphens, version digit `4`, variant digit among
/// `8`, `9`, `a`, `b`. Which id comes back is not stated.
#[verifier::external_body]
fn random_task_id() -> (id: String)
    ensures
        is_v4_uuid_text(id@),
{
    uuid::Uuid::new_v4().to_string()
}

/// Starts a task: draws a fresh random id and records it as not cancelled.
pub fn begin_task(state: &mut TranscribeState) -> (task_id: String)
    ensures
        is_v4_uuid_text(task_id@),
        final(state).flags() == old(state).flags().insert(task_id@, false),
{
    let task_id = random_task_id();
    state.set_flag(task_id.clone(), false);
    task_id
}

// ---------------------------------------------------------------------------
// Laws
// ---------------------------------------------------------------------------

/// A task that nobody has flagged is not cancelled; in particular a fresh
/// state cancels nothing.
pub proof fn lemma_fresh_not_cancelled(task_id: Seq<char>)
    ensures
        !cancel_requested(Map::<Seq<char>, bool>::empty(), task_id),
{
}

/// After a flag is set for one task, that task reads back the flag just set,
/// and every other task reads back what it read before.
pub proof fn lemma_flag_read_after_write(
    flags: Map<Seq<char>, bool>,
    task_id: Seq<char>,
    cancelled: bool,
    other: Seq<char>,
)
    ensures
        cancel_requested(flags.insert(task_id, cancelled), task_id) == cancelled,
        other != task_id ==> cancel_requested(flags.insert(task_id, cancelled), other)
            == cancel_requested(flags, other),
{
}

/// A task that has been removed is no longer cancelled, and the removal
/// leaves every other task's answer as it was.
pub proof fn lemma_removed_not_cancelled(flags: Map<Seq<char>, bool>, task_id: Seq<char>, other: Seq<char>)
    ensures
        !cancel_requested(flags.remove(task_id), task_id),
        other != task_id ==> cancel_requested(flags.remove(task_id), other) == cancel_requested(
            flags,
            other,
        ),
{
}

/// A cancellation request is seen by the next check, whatever came before
/// it; a later start of the same id clears it again.
pub proof fn lemma_cancel_then_restart(flags: Map<Seq<char>, bool>, task_id: Seq<char>)
    ensures
        cancel_requested(flags.insert(task_id, true), task_id),
        !cancel_requested(flags.insert(task_id, true).insert(task_id, false), task_id),
{
}

} // verus!
