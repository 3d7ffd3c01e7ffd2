//! What the container engine reports, and the allow-list filter over it.
use vstd::prelude::*;

use crate::registry::{is_registry_name, lemma_names_distinct, ValidContainers};
use crate::text::{strip_leading_slash, strip_slash};

verus! {

/// What the engine reports of one container, as far as the bot reads it.
#[derive(Clone, Debug, PartialEq, Eq)]
pub struct ContainerSummary {
    /// The container's names; the first is its primary name, as a path.
    pub names: Option<Vec<String>>,
    /// Human-readable status, such as "Up 3 hours" or "Exited (0)".
    pub status: Option<String>,
}

/// The (name, status) pair that one summary reports: its primary name without
/// the leading `/`, and its status; none where either is missing.
pub open spec fn reported_entry(c: ContainerSummary) -> Option<(Seq<char>, Seq<char>)> {
    match c.names {
        Some(ns) => match c.status {
            Some(st) => if ns@.len() > 0 {
                Some((strip_slash(ns@[0]@), st@))
            } else {
                None
            },
            None => None,
        },
        None => None,
    }
}

/// The statuses of the registry's containers among `cs`: each reported pair
/// whose name is in the registry, a later report of a name replacing an
/// earlier one. Every other name is dropped.
pub open spec fn known_statuses(cs: Seq<ContainerSummary>) -> Map<Seq<char>, Seq<char>>
    decreases cs.len(),
{
    if cs.len() == 0 {
        Map::empty()
    } else {
        let m = known_statuses(cs.drop_last());
        match reported_entry(cs.last()) {
            Some(e) => if is_registry_name(e.0) {
                m.insert(e.0, e.1)
            } else {
                m
            },
            None => m,
        }
    }
}

/// The allow-list: a name outside the registry never stands among the
/// statuses, whatever the engine reported.
pub proof fn lemma_unknown_names_dropped(cs: Seq<ContainerSummary>, n: Seq<char>)
    requires
        !is_registry_name(n),
    ensures
        !known_statuses(cs).contains_key(n),
    decreases cs.len(),
{
    if cs.len() > 0 {
        lemma_unknown_names_dropped(cs.drop_last(), n);
    }
}

/// The map that a list of recorded statuses stands for: later entries win.
pub open spec fn entries_map(s: Seq<(ValidContainers, String)>) -> Map<Seq<char>, Seq<char>>
    decreases s.len(),
{
    if s.len() == 0 {
        Map::empty()
    } else {
        entries_map(s.drop_last()).insert(s.last().0.spec_name(), s.last().1@)
    }
}

/// Container name to status, for registry containers only.
pub struct StatusTable {
    entries: Vec<(ValidContainers, String)>,
}

impl View for StatusTable {
    type V = Map<Seq<char>, Seq<char>>;

    closed spec fn view(&self) -> Map<Seq<char>, Seq<char>> {
        entries_map(self.entries@)
    }
}

proof fn lemma_lookup(s: Seq<(ValidContainers, String)>, c: ValidContainers, i: int)
    requires
        0 <= i < s.len(),
        s[i].0 == c,
        forall|j: int| i < j < s.len() ==> s[j].0 != c,
    ensures
        entries_map(s).contains_key(c.spec_name()),
        entries_map(s)[c.spec_name()] == s[i].1@,
    decreases s.len(),
{
    lemma_names_distinct();
    if i < s.len() - 1 {
        lemma_lookup(s.drop_last(), c, i);
    }
}

proof fn lemma_absent(s: Seq<(ValidContainers, String)>, c: ValidContainers)
    requires
        forall|j: int| 0 <= j < s.len() ==> s[j].0 != c,
    ensures
        !entries_map(s).contains_key(c.spec_name()),
    decreases s.len(),
{
    lemma_names_distinct();
    if s.len() > 0 {
        lemma_absent(s.drop_last(), c);
    }
}

proof fn lemma_domain(s: Seq<(ValidContainers, String)>)
    ensures
        forall|n: Seq<char>| #[trigger] entries_map(s).contains_key(n) ==> is_registry_name(n),
    decreases s.len(),
{
    if s.len() > 0 {
        lemma_domain(s.drop_last());
        let last = s.last().0;
        assert(is_registry_name(last.spec_name()));
        assert forall|n: Seq<char>| #[trigger] entries_map(s).contains_key(n) implies is_registry_name(n) by {
            if n != last.spec_name() {
                assert(entries_map(s.drop_last()).contains_key(n));
            }
        }
    }
}

impl StatusTable {
    /// An empty table.
    pub fn new() -> (r: StatusTable)
        ensures
            r@ == Map::<Seq<char>, Seq<char>>::empty(),
    {
        StatusTable { entries: Vec::new() }
    }

    /// Records `status` for container `c`, replacing what was recorded for it.
    pub fn insert(&mut self, c: ValidContainers, status: String)
        ensures
            final(self)@ == old(self)@.insert(c.spec_name(), status@),
    {
        self.entries.push((c, status));
        assert(self.entries@.drop_last() =~= old(self).entries@);
    }

    /// Only registry names ever stand in a table.
    pub proof fn lemma_registry_only(&self)
        ensures
            forall|n: Seq<char>| #[trigger] self@.contains_key(n) ==> is_registry_name(n),
    {
        lemma_domain(self.entries@);
    }

    /// The status recorded for container `c`, if any.
    pub fn status_of(&self, c: ValidContainers) -> (r: Option<String>)
        ensures
            r is Some <==> self@.contains_key(c.spec_name()),
            r matches Some(s) ==> s@ == self@[c.spec_name()],
    {
        let mut i: usize = self.entries.len();
        while i > 0
            invariant
                i <= self.entries@.len(),
                forall|j: int| i <= j < self.entries@.len() ==> self.entries@[j].0 != c,
            decreases i,
        {
            i = i - 1;
            if self.entries[i].0 == c {
                proof {
                    lemma_lookup(self.entries@, c, i as int);
                }
                return Some(self.entries[i].1.clone());
            }
        }
        proof {
            lemma_absent(self.entries@, c);
        }
        None
    }

    /// The status recorded under the container name `name`, if any.
    pub fn get(&self, name: &str) -> (r: Option<String>)
        ensures
            r is Some <==> self@.contains_key(name@),
            r matches Some(s) ==> s@ == self@[name@],
    {
        proof {
            self.lemma_registry_only();
        }
        match ValidContainers::from_name(name) {
            Some(c) => self.status_of(c),
            None => None,
        }
    }
}

/// The statuses of the registry's containers among what the engine listed.
/// Containers whose name is not in the registry are dropped, as are those
/// without a name or a status.
pub fn minecraft_containers(containers: &Vec<ContainerSummary>) -> (r: StatusTable)
    ensures
        r@ == known_statuses(containers@),
{
    let mut table = StatusTable::new();
    let mut i: usize = 0;
    while i < containers.len()
        invariant
            i <= containers@.len(),
            table@ == known_statuses(containers@.take(i as int)),
        decreases containers@.len() - i,
    {
        let ghost before = containers@.take(i as int);
        assert(containers@.take(i + 1).drop_last() =~= before);
        let c = &containers[i];
        if let Some(names) = &c.names {
            if let Some(status) = &c.status {
                if names.len() > 0 {
                    let name = strip_leading_slash(names[0].as_str());
                    if let Some(known) = ValidContainers::from_name(name) {
                        table.insert(known, status.clone());
                    }
                }
            }
        }
        i = i + 1;
    }
    assert(containers@.take(containers@.len() as int) =~= containers@);
    table
}

} // verus!
