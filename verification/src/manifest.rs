//! The dependency table of a package manifest.

use vstd::prelude::*;

verus! {

/// A decoded manifest. Only its dependency table is of interest.
#[derive(Debug, Clone)]
pub struct Tomie {
    /// The dependency table, one entry per dependency: its name and how it is
    /// declared. `None` where the manifest has no such table.
    pub dependencies: Option<Vec<(String, Dependency)>>,
}

/// How a manifest declares one dependency.
#[derive(Debug, Clone)]
pub enum Dependency {
    /// By a bare version constraint.
    Simple(String),
    /// By a record of several fields.
    Detailed(DependencyDetail),
}

/// The detailed form of a declaration. The source fields are recognized and
/// not used.
#[derive(Debug, Clone)]
pub struct DependencyDetail {
    pub version: Option<String>,
    pub _path: Option<String>,
    pub _git: Option<String>,
}

/// A dependency that is to be looked up: its name and its declared version.
#[derive(Debug, Clone)]
pub struct Lookup {
    pub name: String,
    pub current_version: String,
}

/// A `Lookup` with its texts as sequences of characters.
pub struct LookupView {
    pub name: Seq<char>,
    pub current_version: Seq<char>,
}

impl View for Lookup {
    type V = LookupView;

    open spec fn view(&self) -> LookupView {
        LookupView { name: self.name@, current_version: self.current_version@ }
    }
}

/// The views of a sequence of lookups.
pub open spec fn lookup_views(lookups: Seq<Lookup>) -> Seq<LookupView> {
    lookups.map_values(|l: Lookup| l@)
}

/// The version constraint that a declaration gives, if it gives one.
pub open spec fn declared_version(dep: Dependency) -> Option<Seq<char>> {
    match dep {
        Dependency::Simple(version) => Some(version@),
        Dependency::Detailed(detail) => match detail.version {
            Some(version) => Some(version@),
            None => None,
        },
    }
}

/// The lookups that a table asks for: one for each entry that declares a
/// version, in the table's order.
pub open spec fn lookups_of(entries: Seq<(String, Dependency)>) -> Seq<LookupView>
    decreases entries.len(),
{
    if entries.len() == 0 {
        Seq::empty()
    } else {
        let front = lookups_of(entries.drop_last());
        match declared_version(entries.last().1) {
            Some(version) => front.push(
                LookupView { name: entries.last().0@, current_version: version },
            ),
            None => front,
        }
    }
}

/// No name occurs twice among the entries.
pub open spec fn distinct_names(entries: Seq<(String, Dependency)>) -> bool {
    forall|i: int, j: int| 0 <= i < j < entries.len() ==> entries[i].0@ != entries[j].0@
}

/// No name occurs twice among the lookups.
pub open spec fn distinct_lookups(lookups: Seq<LookupView>) -> bool {
    forall|i: int, j: int| 0 <= i < j < lookups.len() ==> lookups[i].name != lookups[j].name
}

impl Tomie {
    /// No name occurs twice in the dependency table.
    pub open spec fn well_formed(&self) -> bool {
        match self.dependencies {
            Some(entries) => distinct_names(entries@),
            None => true,
        }
    }

    /// A manifest without a dependency table.
    pub fn without_table() -> (manifest: Tomie)
        ensures
            manifest.dependencies is None,
            manifest.well_formed(),
    {
        Tomie { dependencies: None }
    }

    /// A manifest with the given dependency table, in the given order. There
    /// is none where a name occurs twice.
    pub fn with_table(entries: Vec<(String, Dependency)>) -> (manifest: Option<Tomie>)
        ensures
            manifest is Some <==> distinct_names(entries@),
            manifest matches Some(m) ==> m.dependencies == Some(entries) && m.well_formed(),
    {
        let mut j: usize = 0;
        while j < entries.len()
            invariant
                j <= entries@.len(),
                distinct_names(entries@.subrange(0, j as int)),
            decreases entries@.len() - j,
        {
            let mut i: usize = 0;
            while i < j
                invariant
                    i <= j < entries@.len(),
                    forall|k: int| 0 <= k < i ==> entries@[k].0@ != entries@[j as int].0@,
                decreases j - i,
            {
                if entries[i].0 == entries[j].0 {
                    assert(!distinct_names(entries@)) by {
                        assert(entries@[i as int].0@ == entries@[j as int].0@);
                    }
                    return None;
                }
                i = i + 1;
            }
            assert(distinct_names(entries@.subrange(0, j + 1))) by {
                let front = entries@.subrange(0, j as int);
                let next = entries@.subrange(0, j + 1);
                assert forall|a: int, b: int| 0 <= a < b < next.len() implies next[a].0@
                    != next[b].0@ by {
                    if b < j {
                        assert(front[a] == next[a] && front[b] == next[b]);
                    }
                }
            }
            j = j + 1;
        }
        assert(entries@.subrange(0, j as int) =~= entries@);
        Some(Tomie { dependencies: Some(entries) })
    }

    /// The lookups that this manifest asks for: none without a dependency
    /// table.
    pub open spec fn lookups(&self) -> Seq<LookupView> {
        match self.dependencies {
            Some(entries) => lookups_of(entries@),
            None => Seq::empty(),
        }
    }
}

/// The version constraint of a declaration: the string itself for the simple
/// form, the `version` field for the detailed one, which may be missing.
pub fn parse_dependency_version(dep: &Dependency) -> (version: Option<String>)
    ensures
        match version {
            Some(v) => declared_version(*dep) == Some(v@),
            None => declared_version(*dep) is None,
        },
{
    match dep {
        Dependency::Simple(version) => Some(version.clone()),
        Dependency::Detailed(detail) => match &detail.version {
            Some(version) => Some(version.clone()),
            None => None,
        },
    }
}

/// The dependencies of a manifest that can be looked up, each with its
/// declared version. Entries without a version are left out. A manifest
/// without a dependency table asks for nothing.
pub fn pending_lookups(manifest: &Tomie) -> (lookups: Vec<Lookup>)
    ensures
        lookup_views(lookups@) == manifest.lookups(),
        manifest.dependencies is None ==> lookups@.len() == 0,
        manifest.well_formed() ==> distinct_lookups(lookup_views(lookups@)),
{
    let mut lookups: Vec<Lookup> = Vec::new();
    assert(lookup_views(lookups@) =~= Seq::<LookupView>::empty());
    let entries: &Vec<(String, Dependency)> = match &manifest.dependencies {
        Some(entries) => entries,
        None => {
            return lookups;
        },
    };
    let mut i: usize = 0;
    while i < entries.len()
        invariant
            i <= entries@.len(),
            lookup_views(lookups@) == lookups_of(entries@.subrange(0, i as int)),
        decreases entries@.len() - i,
    {
        let ghost before = lookups@;
        let entry: &(String, Dependency) = &entries[i];
        proof {
            let next = entries@.subrange(0, i + 1);
            assert(next.drop_last() =~= entries@.subrange(0, i as int));
            assert(next.last() == entries@[i as int]);
        }
        match parse_dependency_version(&entry.1) {
            Some(version) => {
                let lookup = Lookup { name: entry.0.clone(), current_version: version };
                lookups.push(lookup);
                assert(lookup_views(lookups@) =~= lookup_views(before).push(lookup@));
            },
            None => {},
        }
        i = i + 1;
    }
    proof {
        assert(entries@.subrange(0, i as int) =~= entries@);
        if manifest.well_formed() {
            lemma_lookups_keep_names_distinct(entries@);
        }
    }
    lookups
}

/// Every lookup stems from an entry of the table: the one at the index that
/// is returned, which has the lookup's name and declares its version.
pub proof fn lemma_lookup_has_an_entry(entries: Seq<(String, Dependency)>, k: int) -> (i: int)
    requires
        0 <= k < lookups_of(entries).len(),
    ensures
        0 <= i < entries.len(),
        lookups_of(entries)[k].name == entries[i].0@,
        declared_version(entries[i].1) == Some(lookups_of(entries)[k].current_version),
    decreases entries.len(),
{
    let front = lookups_of(entries.drop_last());
    if declared_version(entries.last().1) is Some && k == front.len() {
        entries.len() - 1
    } else {
        lemma_lookup_has_an_entry(entries.drop_last(), k)
    }
}

/// A table in which no name occurs twice asks for no name twice.
pub proof fn lemma_lookups_keep_names_distinct(entries: Seq<(String, Dependency)>)
    requires
        distinct_names(entries),
    ensures
        distinct_lookups(lookups_of(entries)),
    decreases entries.len(),
{
    if entries.len() > 0 {
        let init = entries.drop_last();
        let front = lookups_of(init);
        let all = lookups_of(entries);
        assert(distinct_names(init)) by {
            assert forall|a: int, b: int| 0 <= a < b < init.len() implies init[a].0@
                != init[b].0@ by {
                assert(init[a] == entries[a] && init[b] == entries[b]);
            }
        }
        lemma_lookups_keep_names_distinct(init);
        assert forall|a: int, b: int| 0 <= a < b < all.len() implies all[a].name
            != all[b].name by {
            if b == front.len() {
                let i = lemma_lookup_has_an_entry(init, a);
                assert(init[i] == entries[i]);
                assert(entries[i].0@ != entries[entries.len() - 1].0@);
            } else {
                assert(all[a] == front[a] && all[b] == front[b]);
            }
        }
    }
}

} // verus!
