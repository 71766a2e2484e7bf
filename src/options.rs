use crate::commands::RemoteTarget;
use crate::package::{models, Flatpak, PackageModel};
use vstd::prelude::*;

verus! {

/// What the command line gives: the remote login, and the packages that are
/// never to be synchronised.
#[derive(Clone, Debug)]
pub struct SshOpts {
    pub username: String,
    pub remote_host: String,
    pub port: u16,
    pub exclude: Vec<String>,
}

/// The names of an exclusion list.
pub open spec fn names_of(v: Seq<String>) -> Seq<Seq<char>> {
    v.map_values(|s: String| s@)
}

/// `p` with its selection withdrawn when its name is excluded.
pub open spec fn after_exclusion(p: PackageModel, excluded: Seq<Seq<char>>) -> PackageModel {
    PackageModel { should_sync: p.should_sync && !excluded.contains(p.name), ..p }
}

/// Whether `name` is one of `names`.
fn is_listed(names: &Vec<String>, name: &String) -> (r: bool)
    ensures
        r == names_of(names@).contains(name@),
{
    let mut i: usize = 0;
    while i < names.len()
        invariant
            i <= names@.len(),
            forall|j: int| 0 <= j < i ==> names@[j]@ != name@,
        decreases names@.len() - i,
    {
        if names[i] == *name {
            assert(names_of(names@)[i as int] == name@);
            return true;
        }
        i = i + 1;
    }
    assert forall|j: int| 0 <= j < names_of(names@).len() implies names_of(names@)[j] != name@ by {
        assert(names@[j]@ != name@);
    }
    false
}

impl SshOpts {
    /// The endpoint that these options name.
    pub fn target(&self) -> (r: RemoteTarget)
        ensures
            r.username@ == self.username@,
            r.host@ == self.remote_host@,
            r.port == self.port,
    {
        RemoteTarget {
            username: self.username.clone(),
            host: self.remote_host.clone(),
            port: self.port,
        }
    }

    /// The packages with the excluded ones deselected, in the same order;
    /// nothing else changes.
    pub fn apply_exclusions(&self, packages: &Vec<Flatpak>) -> (r: Vec<Flatpak>)
        ensures
            models(r@) == models(packages@).map_values(
                |p: PackageModel| after_exclusion(p, names_of(self.exclude@)),
            ),
    {
        let mut out: Vec<Flatpak> = Vec::new();
        let mut i: usize = 0;
        while i < packages.len()
            invariant
                i <= packages@.len(),
                models(out@) == models(packages@).subrange(0, i as int).map_values(
                    |p: PackageModel| after_exclusion(p, names_of(self.exclude@)),
                ),
            decreases packages@.len() - i,
        {
            let ghost prev = out@;
            let mut f = packages[i].duplicate();
            if is_listed(&self.exclude, &f.name) {
                f.should_sync = false;
            }
            assert(f@ == after_exclusion(packages@[i as int]@, names_of(self.exclude@)));
            out.push(f);
            assert(models(out@) == models(prev).push(f@));
            assert(models(out@) =~= models(packages@).subrange(0, i + 1).map_values(
                |p: PackageModel| after_exclusion(p, names_of(self.exclude@)),
            ));
            i = i + 1;
        }
        assert(models(packages@).subrange(0, packages@.len() as int) =~= models(packages@));
        out
    }
}

} // verus!
