use crate::package::{models, Flatpak, PackageModel};
use vstd::prelude::*;

verus! {

/// What the selection screen sends.
#[derive(Clone, Debug)]
pub enum GuiMessage {
    /// Select or deselect the package of this name.
    SetFlatpakShouldSync(String, bool),
    /// The user closes the screen.
    CloseApplication,
}

/// The packages by name: where a name repeats, the later entry counts.
pub open spec fn keyed(s: Seq<PackageModel>) -> Map<Seq<char>, PackageModel>
    decreases s.len(),
{
    if s.len() == 0 {
        Map::empty()
    } else {
        keyed(s.drop_last()).insert(s.last().name, s.last())
    }
}

/// `p` with its selection set to `state` when it bears `name`.
pub open spec fn select_named(p: PackageModel, name: Seq<char>, state: bool) -> PackageModel {
    if p.name == name {
        PackageModel { should_sync: state, ..p }
    } else {
        p
    }
}

pub open spec fn select_all_named(s: Seq<PackageModel>, name: Seq<char>, state: bool) -> Seq<
    PackageModel,
> {
    s.map_values(|p: PackageModel| select_named(p, name, state))
}

/// The packages by name after the package called `name`, if any, has its
/// selection set to `state`.
pub open spec fn keyed_after_select(
    m: Map<Seq<char>, PackageModel>,
    name: Seq<char>,
    state: bool,
) -> Map<Seq<char>, PackageModel> {
    if m.contains_key(name) {
        m.insert(name, PackageModel { should_sync: state, ..m[name] })
    } else {
        m
    }
}

proof fn lemma_keyed_select(s: Seq<PackageModel>, name: Seq<char>, state: bool)
    ensures
        keyed(select_all_named(s, name, state)) == keyed_after_select(keyed(s), name, state),
    decreases s.len(),
{
    if s.len() > 0 {
        let pre = s.drop_last();
        let ws = select_all_named(s, name, state);
        assert(ws.drop_last() =~= select_all_named(pre, name, state));
        lemma_keyed_select(pre, name, state);
        assert(keyed(ws) =~= keyed_after_select(keyed(s), name, state));
    }
}

/// The state of the selection screen: the listed packages, keyed by name,
/// and whether the user asked to close it.
pub struct GUI {
    flatpaks: Vec<Flatpak>,
    close_requested: bool,
}

impl GUI {
    /// The listed packages by name.
    pub closed spec fn view_packages(&self) -> Map<Seq<char>, PackageModel> {
        keyed(models(self.flatpaks@))
    }

    pub closed spec fn view_close_requested(&self) -> bool {
        self.close_requested
    }

    /// A screen that lists `flatpaks`, one entry per name.
    pub fn with_flatpak_list(flatpaks: Vec<Flatpak>) -> (r: Self)
        ensures
            r.view_packages() == keyed(models(flatpaks@)),
            !r.view_close_requested(),
    {
        GUI { flatpaks, close_requested: false }
    }

    /// Applies one message: a selection change reaches the package of that
    /// name and nothing else, and is ignored when no package bears it.
    pub fn update(&mut self, message: GuiMessage)
        ensures
            message matches GuiMessage::SetFlatpakShouldSync(name, state) ==> (final(self).view_packages() == keyed_after_select(old(self).view_packages(), name@, state)
                && final(self).view_close_requested() == old(self).view_close_requested()),
            message is CloseApplication ==> (final(self).view_close_requested()
                && final(self).view_packages() == old(self).view_packages()),
    {
        match message {
            GuiMessage::SetFlatpakShouldSync(name, state) => {
                let ghost before = models(self.flatpaks@);
                let mut i: usize = 0;
                let n = self.flatpaks.len();
                while i < n
                    invariant
                        n == self.flatpaks@.len(),
                        before.len() == n,
                        i <= n,
                        self.close_requested == old(self).close_requested,
                        forall|j: int|
                            0 <= j < i ==> #[trigger] self.flatpaks@[j]@ == select_named(
                                before[j],
                                name@,
                                state,
                            ),
                        forall|j: int|
                            i <= j < n ==> #[trigger] self.flatpaks@[j]@ == before[j],
                    decreases n - i,
                {
                    if self.flatpaks[i].name == name {
                        let mut f = self.flatpaks[i].duplicate();
                        f.should_sync = state;
                        self.flatpaks.set(i, f);
                    }
                    assert(self.flatpaks@[i as int]@ == select_named(before[i as int], name@, state));
                    i = i + 1;
                }
                assert(models(self.flatpaks@) =~= select_all_named(before, name@, state));
                proof {
                    lemma_keyed_select(before, name@, state);
                }
            },
            GuiMessage::CloseApplication => {
                self.close_requested = true;
            },
        }
    }

    /// The listed packages with their current selection; where a name
    /// repeats, the later entry counts.
    pub fn flatpaks(&self) -> (r: Vec<Flatpak>)
        ensures
            keyed(models(r@)) == self.view_packages(),
    {
        let mut out: Vec<Flatpak> = Vec::new();
        let mut i: usize = 0;
        while i < self.flatpaks.len()
            invariant
                i <= self.flatpaks@.len(),
                out@.len() == i,
                forall|j: int| 0 <= j < i ==> #[trigger] out@[j]@ == self.flatpaks@[j]@,
            decreases self.flatpaks@.len() - i,
        {
            out.push(self.flatpaks[i].duplicate());
            i = i + 1;
        }
        assert(models(out@) =~= models(self.flatpaks@));
        out
    }

    pub fn close_requested(&self) -> (r: bool)
        ensures
            r == self.view_close_requested(),
    {
        self.close_requested
    }
}

} // verus!
