//! The supervisor's table of running instances, and what it decides on
//! starting, stopping and probing one.
//!
//! The table owns one handle per instance. What a handle is, the host
//! says: the table moves handles and never looks into one. Spawning,
//! probing and killing are the host's work; the table says whether an
//! instance may start, how a stopped one is terminated, and what a
//! probe's outcome means.

use crate::text::same_text;
use vstd::prelude::*;

verus! {

/// Why the supervisor refuses a request.
#[derive(Clone, Copy, Debug, PartialEq, Eq, Structural)]
pub enum SupervisorError {
    /// An instance with this id is in the table.
    AlreadyRunning,
    /// No instance with this id is in the table.
    NotFound,
    /// There is no installed agent to run.
    NotInstalled,
}

/// How an instance is terminated.
#[derive(Clone, Copy, Debug, PartialEq, Eq, Structural)]
pub enum Termination {
    /// Kill the whole process tree that `group_id` names.
    Tree { group_id: u32 },
    /// Kill the process through its handle.
    Direct,
}

/// What a liveness probe of a handle found.
#[derive(Clone, Copy, Debug, PartialEq, Eq, Structural)]
pub enum ProbeOutcome {
    /// The process has not exited.
    Running,
    /// The process has exited.
    Exited,
    /// The probe itself failed.
    Failed,
}

/// One running instance: its id, the handle that owns the process, and
/// the group id where the platform needs one to kill the whole tree. A
/// record is made when an instance is taken into the table, and comes out
/// again, unchanged but for what the host did to the handle, when the
/// instance is stopped.
#[derive(Debug)]
pub struct InstanceRecord<H> {
    pub id: String,
    pub handle: H,
    pub group_id: Option<u32>,
}

/// What the table holds for an id.
pub struct Entry<H> {
    pub handle: H,
    pub group_id: Option<u32>,
}

/// A start that the table refused: why, and the handle that it did not
/// take.
#[derive(Debug)]
pub struct Refused<H> {
    pub error: SupervisorError,
    pub handle: H,
}

/// The running instances, by id.
#[derive(Debug)]
pub struct ProcessTable<H> {
    entries: Vec<InstanceRecord<H>>,
}

/// What the table holds for the id of `r`.
pub open spec fn entry_of<H>(r: InstanceRecord<H>) -> Entry<H> {
    Entry { handle: r.handle, group_id: r.group_id }
}

/// How an instance with the recorded `group_id` is terminated: the whole
/// tree where a group id was recorded, else through the handle.
pub open spec fn termination_of(group_id: Option<u32>) -> Termination {
    match group_id {
        Some(g) => Termination::Tree { group_id: g },
        None => Termination::Direct,
    }
}

/// The group id that is recorded for a process `pid` spawned on a machine
/// that reports the operating system `os`: the process's own id on the
/// Windows family, where a whole tree is killed by it, and none elsewhere.
pub open spec fn recorded_group(os: Seq<char>, pid: u32) -> Option<u32> {
    if os == "windows"@ {
        Some(pid)
    } else {
        None
    }
}

/// Whether a start of `id` is allowed by the table `t`: not while an
/// instance with that id is running.
pub open spec fn start_allowed<H>(t: Map<Seq<char>, Entry<H>>, id: Seq<char>) -> Result<
    (),
    SupervisorError,
> {
    if t.contains_key(id) {
        Err(SupervisorError::AlreadyRunning)
    } else {
        Ok(())
    }
}

/// The table `t` after a spawned instance is handed to it under `id`:
/// unchanged where the id is taken, else with the new entry.
pub open spec fn registered<H>(t: Map<Seq<char>, Entry<H>>, id: Seq<char>, entry: Entry<H>) -> Map<
    Seq<char>,
    Entry<H>,
> {
    if t.contains_key(id) {
        t
    } else {
        t.insert(id, entry)
    }
}

/// The table `t` after a stop of `id`.
pub open spec fn stopped<H>(t: Map<Seq<char>, Entry<H>>, id: Seq<char>) -> Map<Seq<char>, Entry<H>> {
    t.remove(id)
}

/// The table `t` after a probe of `id` that found `outcome`, and the
/// status that is reported. An instance that is in the table and was
/// found running stays, and is reported as running. In every other case
/// the id is not in the table afterwards, and is reported as not
/// running: where it was not there, where the process has exited, where
/// the probe failed, and where there was no probe.
pub open spec fn probed<H>(
    t: Map<Seq<char>, Entry<H>>,
    id: Seq<char>,
    outcome: Option<ProbeOutcome>,
) -> (Map<Seq<char>, Entry<H>>, bool) {
    if t.contains_key(id) && outcome == Some(ProbeOutcome::Running) {
        (t, true)
    } else {
        (t.remove(id), false)
    }
}

spec fn distinct<H>(s: Seq<InstanceRecord<H>>) -> bool {
    forall|i: int, j: int| 0 <= i < j < s.len() ==> s[i].id@ != s[j].id@
}

spec fn table_of<H>(s: Seq<InstanceRecord<H>>) -> Map<Seq<char>, Entry<H>>
    decreases s.len(),
{
    if s.len() == 0 {
        Map::empty()
    } else {
        table_of(s.drop_last()).insert(s.last().id@, entry_of(s.last()))
    }
}

proof fn lemma_table_keys<H>(s: Seq<InstanceRecord<H>>, id: Seq<char>)
    ensures
        table_of(s).contains_key(id) <==> exists|i: int| 0 <= i < s.len() && #[trigger] s[i].id@ == id,
        table_of(s).dom().finite(),
    decreases s.len(),
{
    if s.len() > 0 {
        let front = s.drop_last();
        lemma_table_keys(front, id);
        if table_of(s).contains_key(id) {
            if s.last().id@ == id {
                assert(s[s.len() - 1].id@ == id);
            } else {
                let i = choose|i: int| 0 <= i < front.len() && #[trigger] front[i].id@ == id;
                assert(s[i].id@ == id);
            }
        }
        if exists|i: int| 0 <= i < s.len() && #[trigger] s[i].id@ == id {
            let i = choose|i: int| 0 <= i < s.len() && #[trigger] s[i].id@ == id;
            if i < s.len() - 1 {
                assert(front[i].id@ == id);
            }
        }
    }
}

proof fn lemma_table_at<H>(s: Seq<InstanceRecord<H>>, i: int)
    requires
        distinct(s),
        0 <= i < s.len(),
    ensures
        table_of(s).contains_key(s[i].id@),
        table_of(s)[s[i].id@] == entry_of(s[i]),
    decreases s.len(),
{
    if i < s.len() - 1 {
        let front = s.drop_last();
        assert(front[i] == s[i]);
        lemma_table_at(front, i);
    }
}

proof fn lemma_table_len<H>(s: Seq<InstanceRecord<H>>)
    requires
        distinct(s),
    ensures
        table_of(s).dom().finite(),
        table_of(s).len() == s.len(),
    decreases s.len(),
{
    if s.len() > 0 {
        let front = s.drop_last();
        lemma_table_len(front);
        lemma_table_keys(front, s.last().id@);
        if table_of(front).contains_key(s.last().id@) {
            let i = choose|i: int| 0 <= i < front.len() && #[trigger] front[i].id@ == s.last().id@;
            assert(s[i].id@ == s[s.len() - 1].id@);
        }
    } else {
        lemma_table_keys(s, Seq::empty());
    }
}

proof fn lemma_table_push<H>(s: Seq<InstanceRecord<H>>, r: InstanceRecord<H>)
    requires
        distinct(s),
        !table_of(s).contains_key(r.id@),
    ensures
        distinct(s.push(r)),
        table_of(s.push(r)) == table_of(s).insert(r.id@, entry_of(r)),
{
    let t = s.push(r);
    assert(t.drop_last() =~= s);
    assert forall|i: int, j: int| 0 <= i < j < t.len() implies t[i].id@ != t[j].id@ by {
        if j == s.len() {
            lemma_table_keys(s, r.id@);
            assert(s[i].id@ == t[i].id@);
        }
    }
}

proof fn lemma_table_remove<H>(s: Seq<InstanceRecord<H>>, i: int)
    requires
        distinct(s),
        0 <= i < s.len(),
    ensures
        distinct(s.remove(i)),
        table_of(s.remove(i)) == table_of(s).remove(s[i].id@),
    decreases s.len(),
{
    let t = s.remove(i);
    assert forall|a: int, b: int| 0 <= a < b < t.len() implies t[a].id@ != t[b].id@ by {
        let a0 = if a < i { a } else { a + 1 };
        let b0 = if b < i { b } else { b + 1 };
        assert(t[a] == s[a0] && t[b] == s[b0]);
    }
    let front = s.drop_last();
    if i == s.len() - 1 {
        assert(t =~= front);
        lemma_table_keys(front, s[i].id@);
        if table_of(front).contains_key(s[i].id@) {
            let k = choose|k: int| 0 <= k < front.len() && #[trigger] front[k].id@ == s[i].id@;
            assert(s[k].id@ == s[i].id@);
        }
        assert(table_of(front) =~= table_of(s).remove(s[i].id@));
    } else {
        assert(front[i] == s[i]);
        lemma_table_remove(front, i);
        assert(t.drop_last() =~= front.remove(i));
        assert(t.last() == s.last());
        assert(s[i].id@ != s[s.len() - 1].id@);
        assert(table_of(t) =~= table_of(s).remove(s[i].id@));
    }
}

proof fn lemma_table_update<H>(s: Seq<InstanceRecord<H>>, i: int, r: InstanceRecord<H>)
    requires
        distinct(s),
        0 <= i < s.len(),
        r.id@ == s[i].id@,
    ensures
        distinct(s.update(i, r)),
        table_of(s.update(i, r)) == table_of(s).insert(r.id@, entry_of(r)),
    decreases s.len(),
{
    let t = s.update(i, r);
    assert forall|a: int, b: int| 0 <= a < b < t.len() implies t[a].id@ != t[b].id@ by {
        assert(t[a].id@ == s[a].id@ && t[b].id@ == s[b].id@);
    }
    let front = s.drop_last();
    if i == s.len() - 1 {
        assert(t.drop_last() =~= front);
        assert(table_of(t) =~= table_of(s).insert(r.id@, entry_of(r)));
    } else {
        assert(front[i] == s[i]);
        lemma_table_update(front, i, r);
        assert(t.drop_last() =~= front.update(i, r));
        assert(t.last() == s.last());
        assert(s[i].id@ != s[s.len() - 1].id@);
        assert(table_of(t) =~= table_of(s).insert(r.id@, entry_of(r)));
    }
}

impl<H> View for ProcessTable<H> {
    type V = Map<Seq<char>, Entry<H>>;

    closed spec fn view(&self) -> Map<Seq<char>, Entry<H>> {
        table_of(self.entries@)
    }
}

impl<H> ProcessTable<H> {
    /// The table is well formed: it holds no id twice.
    pub closed spec fn wf(&self) -> bool {
        distinct(self.entries@)
    }

    /// The empty table.
    pub fn new() -> (r: ProcessTable<H>)
        ensures
            r.wf(),
            r@ == Map::<Seq<char>, Entry<H>>::empty(),
    {
        ProcessTable { entries: Vec::new() }
    }

    /// The number of running instances.
    pub fn len(&self) -> (r: usize)
        requires
            self.wf(),
        ensures
            self@.dom().finite(),
            r == self@.len(),
    {
        proof {
            lemma_table_len(self.entries@);
        }
        self.entries.len()
    }

    fn position(&self, id: &str) -> (r: Option<usize>)
        requires
            self.wf(),
        ensures
            match r {
                Some(i) => i < self.entries@.len() && self.entries@[i as int].id@ == id@
                    && self@.contains_key(id@) && self@[id@] == entry_of(self.entries@[i as int]),
                None => !self@.contains_key(id@),
            },
    {
        let mut i: usize = 0;
        while i < self.entries.len()
            invariant
                self.wf(),
                i <= self.entries@.len(),
                forall|k: int| 0 <= k < i ==> self.entries@[k].id@ != id@,
            decreases self.entries@.len() - i,
        {
            if same_text(self.entries[i].id.as_str(), id) {
                proof {
                    lemma_table_at(self.entries@, i as int);
                }
                return Some(i);
            }
            i += 1;
        }
        proof {
            lemma_table_keys(self.entries@, id@);
        }
        None
    }

    /// Whether an instance with this id is in the table.
    pub fn contains(&self, id: &str) -> (r: bool)
        requires
            self.wf(),
        ensures
            r == self@.contains_key(id@),
    {
        self.position(id).is_some()
    }

    /// Whether an instance may start under `id`: not while one with that
    /// id is running.
    pub fn may_start(&self, id: &str) -> (r: Result<(), SupervisorError>)
        requires
            self.wf(),
        ensures
            r == start_allowed(self@, id@),
    {
        if self.contains(id) {
            Err(SupervisorError::AlreadyRunning)
        } else {
            Ok(())
        }
    }

    /// Takes a spawned instance into the table: `handle` owns the
    /// process `pid`, spawned on a machine that reports the operating
    /// system `os`. Where the id is taken, the table stays as it is and
    /// the handle comes back with `AlreadyRunning`.
    pub fn register(&mut self, id: String, handle: H, os: &str, pid: u32) -> (r: Result<
        (),
        Refused<H>,
    >)
        requires
            old(self).wf(),
        ensures
            final(self).wf(),
            final(self)@ == registered(
                old(self)@,
                id@,
                Entry { handle, group_id: recorded_group(os@, pid) },
            ),
            match r {
                Ok(_) => !old(self)@.contains_key(id@),
                Err(refused) => old(self)@.contains_key(id@) && refused.error
                    == SupervisorError::AlreadyRunning && refused.handle == handle,
            },
    {
        if self.contains(id.as_str()) {
            Err(Refused { error: SupervisorError::AlreadyRunning, handle })
        } else {
            let group_id = if same_text(os, "windows") {
                Some(pid)
            } else {
                None
            };
            let record = InstanceRecord { id, handle, group_id };
            proof {
                lemma_table_push(self.entries@, record);
            }
            self.entries.push(record);
            Ok(())
        }
    }

    /// Takes the instance `id` out of the table and hands it out, to be
    /// terminated as [`InstanceRecord::termination`] says. Fails with
    /// `NotFound`, and changes nothing, where the id is not in the table.
    pub fn stop(&mut self, id: &str) -> (r: Result<InstanceRecord<H>, SupervisorError>)
        requires
            old(self).wf(),
        ensures
            final(self).wf(),
            match r {
                Ok(record) => old(self)@.contains_key(id@) && record.id@ == id@ && entry_of(record)
                    == old(self)@[id@] && final(self)@ == stopped(old(self)@, id@),
                Err(e) => e == SupervisorError::NotFound && !old(self)@.contains_key(id@)
                    && final(self)@ == old(self)@,
            },
    {
        match self.position(id) {
            None => Err(SupervisorError::NotFound),
            Some(i) => {
                proof {
                    lemma_table_remove(self.entries@, i as int);
                }
                Ok(self.entries.remove(i))
            },
        }
    }

    /// The handle of the instance `id`, to probe it. What the host does
    /// to the handle is what the table holds afterwards.
    pub fn handle_mut(&mut self, id: &str) -> (r: Option<&mut H>)
        requires
            old(self).wf(),
        ensures
            final(self).wf(),
            match r {
                Some(h) => old(self)@.contains_key(id@) && *h == old(self)@[id@].handle
                    && final(self)@ == old(self)@.insert(
                    id@,
                    Entry { handle: *final(h), group_id: old(self)@[id@].group_id },
                ),
                None => !old(self)@.contains_key(id@) && final(self)@ == old(self)@,
            },
    {
        match self.position(id) {
            None => None,
            Some(i) => {
                let ghost before = self.entries@;
                let h = &mut self.entries[i].handle;
                proof {
                    lemma_table_update(
                        before,
                        i as int,
                        InstanceRecord {
                            id: before[i as int].id,
                            handle: *final(h),
                            group_id: before[i as int].group_id,
                        },
                    );
                }
                Some(h)
            },
        }
    }

    /// Settles a probe of `id`: `outcome` is what the probe of its handle
    /// found, or `None` where there was no handle to probe. Reports
    /// whether the instance is running, and drops it from the table
    /// where it is not.
    pub fn status(&mut self, id: &str, outcome: Option<ProbeOutcome>) -> (r: bool)
        requires
            old(self).wf(),
        ensures
            final(self).wf(),
            (final(self)@, r) == probed(old(self)@, id@, outcome),
    {
        match self.position(id) {
            None => {
                assert(self@.remove(id@) =~= self@);
                false
            },
            Some(i) => {
                let running = match outcome {
                    Some(ProbeOutcome::Running) => true,
                    _ => false,
                };
                if !running {
                    proof {
                        lemma_table_remove(self.entries@, i as int);
                    }
                    let _ = self.entries.remove(i);
                }
                running
            },
        }
    }

    /// Empties the table and hands out every instance, to be terminated
    /// as [`InstanceRecord::termination`] says: each instance of the table
    /// once, and nothing else.
    pub fn drain(&mut self) -> (r: Vec<InstanceRecord<H>>)
        requires
            old(self).wf(),
        ensures
            final(self).wf(),
            final(self)@ == Map::<Seq<char>, Entry<H>>::empty(),
            r@.len() == old(self)@.len(),
            forall|k: int|
                0 <= k < r@.len() ==> old(self)@.contains_key(#[trigger] r@[k].id@) && entry_of(
                    r@[k],
                ) == old(self)@[r@[k].id@],
            forall|id: Seq<char>|
                old(self)@.contains_key(id) ==> exists|k: int|
                    0 <= k < r@.len() && #[trigger] r@[k].id@ == id,
    {
        let ghost all = self.entries@;
        let mut out: Vec<InstanceRecord<H>> = Vec::new();
        while self.entries.len() > 0
            invariant
                distinct(all),
                self.entries@ == all.take(self.entries@.len() as int),
                self.entries@.len() <= all.len(),
                out@.len() == all.len() - self.entries@.len(),
                forall|k: int| 0 <= k < out@.len() ==> #[trigger] out@[k] == all[all.len() - 1 - k],
            decreases self.entries@.len(),
        {
            let ghost n = self.entries@.len();
            match self.entries.pop() {
                Some(record) => {
                    out.push(record);
                    proof {
                        assert(all.take(n as int).last() == all[n - 1]);
                        assert(self.entries@ =~= all.take(n - 1));
                    }
                },
                None => {},
            }
        }
        proof {
            lemma_table_len(all);
            assert forall|k: int| 0 <= k < out@.len() implies old(self)@.contains_key(
                #[trigger] out@[k].id@,
            ) && entry_of(out@[k]) == old(self)@[out@[k].id@] by {
                lemma_table_at(all, all.len() - 1 - k);
            }
            assert forall|id: Seq<char>| old(self)@.contains_key(id) implies exists|k: int|
                0 <= k < out@.len() && #[trigger] out@[k].id@ == id by {
                lemma_table_keys(all, id);
                let i = choose|i: int| 0 <= i < all.len() && #[trigger] all[i].id@ == id;
                assert(out@[all.len() - 1 - i].id@ == id);
            }
        }
        out
    }
}

impl<H> InstanceRecord<H> {
    /// How the instance is terminated: the whole tree where a group id
    /// was recorded, else through the handle.
    pub fn termination(&self) -> (r: Termination)
        ensures
            r == termination_of(self.group_id),
    {
        match self.group_id {
            Some(g) => Termination::Tree { group_id: g },
            None => Termination::Direct,
        }
    }
}

/// Once an instance runs under an id, a second start under that id is
/// refused with `AlreadyRunning`, and the table holds what it held.
pub proof fn second_start_is_refused<H>(
    t: Map<Seq<char>, Entry<H>>,
    id: Seq<char>,
    first: Entry<H>,
    second: Entry<H>,
)
    ensures
        ({
            let running = registered(t, id, first);
            &&& running.contains_key(id)
            &&& start_allowed(running, id) == Err::<(), SupervisorError>(
                SupervisorError::AlreadyRunning,
            )
            &&& registered(running, id, second) == running
        }),
{
}

/// A stop takes exactly the stopped instance out of the table: a start
/// under its id is allowed again, and every other instance stays.
pub proof fn stop_frees_the_id<H>(t: Map<Seq<char>, Entry<H>>, id: Seq<char>, other: Seq<char>)
    requires
        other != id,
    ensures
        start_allowed(stopped(t, id), id) == Ok::<(), SupervisorError>(()),
        stopped(t, id).contains_key(other) == t.contains_key(other),
        t.contains_key(other) ==> stopped(t, id)[other] == t[other],
{
}

/// After a probe finds that an instance has exited, or fails, the
/// instance is reported as not running and is no longer in the table; a
/// second probe reports the same, whatever it is told, and changes
/// nothing.
pub proof fn ended_instance_is_forgotten<H>(
    t: Map<Seq<char>, Entry<H>>,
    id: Seq<char>,
    found: ProbeOutcome,
    again: Option<ProbeOutcome>,
)
    requires
        found != ProbeOutcome::Running,
    ensures
        ({
            let first = probed(t, id, Some(found));
            let second = probed(first.0, id, again);
            &&& !first.1
            &&& !first.0.contains_key(id)
            &&& !second.1
            &&& second.0 == first.0
        }),
{
    let first = probed(t, id, Some(found));
    assert(first.0.remove(id) =~= first.0);
}

/// A probe that finds an instance of the table running reports it as
/// running and leaves the table as it is.
pub proof fn running_instance_stays<H>(t: Map<Seq<char>, Entry<H>>, id: Seq<char>)
    requires
        t.contains_key(id),
    ensures
        probed(t, id, Some(ProbeOutcome::Running)) == (t, true),
{
}

} // verus!
