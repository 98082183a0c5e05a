use vstd::prelude::*;

use crate::plist::PatchInfo;

verus! {

/// A configured mirror: a name, the URL of its patch index and the URL
/// under which its archives lie.
#[derive(Debug)]
pub struct MirrorInfo {
    pub name: String,
    pub plist_url: String,
    pub patch_url: String,
}

/// One probe of the search: which mirror, and whether the command channel is
/// looked at before it.
#[derive(Debug, Clone, Copy, PartialEq, Eq, Structural)]
pub struct ProbeStep {
    pub mirror: usize,
    pub poll_first: bool,
}

/// What the mirror search does next.
#[derive(Debug, PartialEq, Eq, Structural)]
pub enum SearchAction {
    /// Probe the mirror at this position of the configured list.
    Probe(usize),
    /// The user cancelled the search.
    Interrupted,
    /// Every mirror was probed and none answered.
    NoMirrorAvailable,
}

/// The position of the first mirror named `name`.
pub open spec fn named_position(servers: Seq<MirrorInfo>, name: Seq<char>) -> Option<int> {
    if exists|i: int| 0 <= i < servers.len() && #[trigger] servers[i].name@ == name {
        Some(
            choose|i: int|
                0 <= i < servers.len() && #[trigger] servers[i].name@ == name && forall|j: int|
                    0 <= j < i ==> #[trigger] servers[j].name@ != name,
        )
    } else {
        None
    }
}

/// Probes of every mirror in list order but `skip`, each after a look at the
/// command channel.
pub open spec fn fallback_steps(n: int, skip: int) -> Seq<ProbeStep>
    decreases n,
{
    if n <= 0 {
        Seq::empty()
    } else if n - 1 == skip {
        fallback_steps(n - 1, skip)
    } else {
        fallback_steps(n - 1, skip).push(ProbeStep { mirror: (n - 1) as usize, poll_first: true })
    }
}

/// The order of the search: the preferred mirror first, when the list has it,
/// without a look at the channel; then the remaining mirrors in list order.
pub open spec fn probe_schedule(servers: Seq<MirrorInfo>, preferred: Option<Seq<char>>) -> Seq<ProbeStep> {
    match preferred {
        Some(name) => match named_position(servers, name) {
            Some(p) => seq![ProbeStep { mirror: p as usize, poll_first: false }] + fallback_steps(
                servers.len() as int,
                p,
            ),
            None => fallback_steps(servers.len() as int, -1),
        },
        None => fallback_steps(servers.len() as int, -1),
    }
}

pub open spec fn view_name(preferred: Option<String>) -> Option<Seq<char>> {
    match preferred {
        Some(s) => Some(s@),
        None => None,
    }
}

fn find_named(servers: &Vec<MirrorInfo>, name: &String) -> (r: Option<usize>)
    ensures
        match r {
            Some(p) => named_position(servers@, name@) == Some(p as int),
            None => named_position(servers@, name@) is None,
        },
{
    let mut i: usize = 0;
    while i < servers.len()
        invariant
            i <= servers@.len(),
            forall|j: int| 0 <= j < i ==> #[trigger] servers@[j].name@ != name@,
        decreases servers@.len() - i,
    {
        if servers[i].name == *name {
            let ghost q = choose|q: int|
                0 <= q < servers@.len() && #[trigger] servers@[q].name@ == name@ && forall|j: int|
                    0 <= j < q ==> #[trigger] servers@[j].name@ != name@;
            assert(servers@[i as int].name@ == name@);
            assert(q == i) by {
                if q < i {
                } else if q > i {
                    assert(servers@[i as int].name@ != name@);
                }
            }
            return Some(i);
        }
        i = i + 1;
    }
    None
}

fn fallback_schedule(n: usize, skip: Option<usize>, out: &mut Vec<ProbeStep>)
    ensures
        final(out)@ == old(out)@ + fallback_steps(
            n as int,
            match skip {
                Some(p) => p as int,
                None => -1,
            },
        ),
{
    let ghost s: int = match skip {
        Some(p) => p as int,
        None => -1,
    };
    let ghost start = out@;
    let mut i: usize = 0;
    while i < n
        invariant
            i <= n,
            s == match skip {
                Some(p) => p as int,
                None => -1,
            },
            out@ == start + fallback_steps(i as int, s),
        decreases n - i,
    {
        let skipped = match skip {
            Some(p) => p == i,
            None => false,
        };
        if !skipped {
            out.push(ProbeStep { mirror: i, poll_first: true });
        }
        assert(fallback_steps(i + 1, s) == if i == s {
            fallback_steps(i as int, s)
        } else {
            fallback_steps(i as int, s).push(ProbeStep { mirror: i, poll_first: true })
        });
        i = i + 1;
    }
}

/// A search for the first mirror that answers.
pub struct MirrorSearch {
    schedule: Vec<ProbeStep>,
    pos: usize,
}

impl MirrorSearch {
    /// The probes of the search, in order.
    pub closed spec fn schedule(&self) -> Seq<ProbeStep> {
        self.schedule@
    }

    /// How many probes were handed out.
    pub closed spec fn position(&self) -> nat {
        self.pos as nat
    }

    pub closed spec fn wf(&self) -> bool {
        self.pos <= self.schedule@.len()
    }

    pub fn new(servers: &Vec<MirrorInfo>, preferred: &Option<String>) -> (r: Self)
        ensures
            r.schedule() == probe_schedule(servers@, view_name(*preferred)),
            r.position() == 0,
            r.wf(),
    {
        let mut schedule: Vec<ProbeStep> = Vec::new();
        let first = match preferred {
            Some(name) => find_named(servers, name),
            None => None,
        };
        match first {
            Some(p) => {
                schedule.push(ProbeStep { mirror: p, poll_first: false });
            },
            None => {},
        }
        fallback_schedule(servers.len(), first, &mut schedule);
        MirrorSearch { schedule, pos: 0 }
    }

    /// Whether the channel must be looked at before the next probe.
    pub fn needs_poll(&self) -> (r: bool)
        requires
            self.wf(),
        ensures
            r == (self.position() < self.schedule().len() && self.schedule()[self.position() as int].poll_first),
    {
        self.pos < self.schedule.len() && self.schedule[self.pos].poll_first
    }

    /// The next action, once the previous probe failed (or at the start).
    /// `cancelled` tells whether the look at the channel asked to stop; it
    /// counts only where the next probe calls for a look.
    pub fn next_action(&mut self, cancelled: bool) -> (r: SearchAction)
        requires
            old(self).wf(),
        ensures
            final(self).wf(),
            final(self).schedule() == old(self).schedule(),
            ({
                let s = old(self).schedule();
                let i = old(self).position() as int;
                if i >= s.len() {
                    r == SearchAction::NoMirrorAvailable && final(self).position() == i
                } else if s[i].poll_first && cancelled {
                    r == SearchAction::Interrupted && final(self).position() == i
                } else {
                    r == SearchAction::Probe(s[i].mirror) && final(self).position() == i + 1
                }
            }),
    {
        if self.pos >= self.schedule.len() {
            return SearchAction::NoMirrorAvailable;
        }
        let step = self.schedule[self.pos];
        if step.poll_first && cancelled {
            return SearchAction::Interrupted;
        }
        self.pos = self.pos + 1;
        SearchAction::Probe(step.mirror)
    }
}

/// The archive whose presence shows that a mirror serves content: the first
/// one of its list.
pub fn liveness_target(list: &Vec<PatchInfo>) -> (r: Option<String>)
    ensures
        list@.len() == 0 ==> r is None,
        list@.len() > 0 ==> r is Some && r->0@ == list@[0].file_name@,
{
    if list.len() == 0 {
        None
    } else {
        Some(list[0].file_name.clone())
    }
}

/// With no mirror configured, the search ends at once without a mirror.
pub proof fn law_empty_mirror_list(preferred: Option<Seq<char>>)
    ensures
        probe_schedule(Seq::<MirrorInfo>::empty(), preferred).len() == 0,
{
    assert(fallback_steps(0, -1).len() == 0);
}

} // verus!
