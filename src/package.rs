use vstd::prelude::*;

verus! {

/// Whether a package is installed system-wide or for the current user only.
#[derive(Clone, Copy, Debug, PartialEq, Eq, Structural)]
pub enum InstallType {
    System,
    User,
}

/// `pat` occurs in `s` as a contiguous run of characters.
pub open spec fn occurs_in(s: Seq<char>, pat: Seq<char>) -> bool {
    exists|i: int|
        0 <= i && i + pat.len() <= s.len() && #[trigger] s.subrange(i, i + pat.len()) == pat
}

/// The marker that selects a system-wide installation in a raw option string.
pub open spec fn system_marker() -> Seq<char> {
    seq!['s', 'y', 's', 't', 'e', 'm']
}

/// The scope that a raw option string of the package list selects.
pub open spec fn scope_of(options: Seq<char>) -> InstallType {
    if occurs_in(options, system_marker()) {
        InstallType::System
    } else {
        InstallType::User
    }
}

/// The command-line flag that asks the package manager for a scope.
pub open spec fn flag_of(scope: InstallType) -> Seq<char> {
    match scope {
        InstallType::System => seq!['-', '-', 's', 'y', 's', 't', 'e', 'm'],
        InstallType::User => seq!['-', '-', 'u', 's', 'e', 'r'],
    }
}

/// Whether `pat` stands in `s` at character position `i`.
fn occurs_at(s: &str, n: usize, i: usize, pat: &Vec<char>) -> (r: bool)
    requires
        n == s@.len(),
        i + pat@.len() <= s@.len(),
    ensures
        r == (s@.subrange(i as int, i + pat@.len()) == pat@),
{
    let mut k: usize = 0;
    while k < pat.len()
        invariant
            k <= pat@.len(),
            n == s@.len(),
            i + pat@.len() <= s@.len(),
            forall|j: int| 0 <= j < k ==> s@[i + j] == pat@[j],
        decreases pat@.len() - k,
    {
        if s.get_char(i + k) != pat[k] {
            assert(s@.subrange(i as int, i + pat@.len())[k as int] != pat@[k as int]);
            return false;
        }
        k = k + 1;
    }
    assert(s@.subrange(i as int, i + pat@.len()) =~= pat@);
    true
}

/// Whether `pat` occurs anywhere in `s`.
pub fn contains_chars(s: &str, pat: &Vec<char>) -> (r: bool)
    ensures
        r == occurs_in(s@, pat@),
{
    let n = s.unicode_len();
    let m = pat.len();
    if m > n {
        return false;
    }
    if m == 0 {
        assert(s@.subrange(0, 0 + pat@.len() as int) =~= pat@);
        return true;
    }
    let mut i: usize = 0;
    while i <= n - m
        invariant
            n == s@.len(),
            m == pat@.len(),
            0 < m <= n,
            i <= n - m + 1,
            forall|j: int| 0 <= j < i ==> #[trigger] s@.subrange(j, j + m) != pat@,
        decreases n - m + 1 - i,
    {
        if occurs_at(s, n, i, pat) {
            return true;
        }
        i = i + 1;
    }
    false
}

impl InstallType {
    /// Reads the scope from the raw option string of a listed package: `System`
    /// exactly when the string contains `system`.
    pub fn from_flatpak_options(options: &str) -> (r: Self)
        ensures
            r == scope_of(options@),
    {
        let marker: Vec<char> = vec!['s', 'y', 's', 't', 'e', 'm'];
        assert(marker@ =~= system_marker());
        if contains_chars(options, &marker) {
            InstallType::System
        } else {
            InstallType::User
        }
    }

    /// The flag that asks the package manager for this scope.
    pub fn flag_string(&self) -> (r: String)
        ensures
            r@ == flag_of(*self),
    {
        match self {
            InstallType::System => {
                let r = String::from_str("--system");
                proof {
                    reveal_strlit("--system");
                }
                assert(r@ =~= flag_of(*self));
                r
            },
            InstallType::User => {
                let r = String::from_str("--user");
                proof {
                    reveal_strlit("--user");
                }
                assert(r@ =~= flag_of(*self));
                r
            },
        }
    }
}


/// What a listed package is, as the library reasons about it.
pub struct PackageModel {
    pub name: Seq<char>,
    pub scope: InstallType,
    pub should_sync: bool,
}

/// One installed application: its identifier, its scope, and whether the
/// user has kept it selected for synchronisation.
#[derive(Clone, Debug)]
pub struct Flatpak {
    pub name: String,
    pub install_type: InstallType,
    pub should_sync: bool,
}

impl View for Flatpak {
    type V = PackageModel;

    open spec fn view(&self) -> PackageModel {
        PackageModel { name: self.name@, scope: self.install_type, should_sync: self.should_sync }
    }
}

/// The models of a sequence of packages, in order.
pub open spec fn models(s: Seq<Flatpak>) -> Seq<PackageModel> {
    s.map_values(|f: Flatpak| f@)
}

/// The position of the first `c` at or after `from`, or the length of `s`
/// when there is none.
pub open spec fn next_sep(s: Seq<char>, from: int, c: char) -> int
    decreases s.len() - from,
{
    if from < 0 || from >= s.len() {
        s.len() as int
    } else if s[from] == c {
        from
    } else {
        next_sep(s, from + 1, c)
    }
}

pub proof fn lemma_next_sep(s: Seq<char>, from: int, c: char)
    requires
        0 <= from <= s.len(),
    ensures
        from <= next_sep(s, from, c) <= s.len(),
        next_sep(s, from, c) < s.len() ==> s[next_sep(s, from, c)] == c,
    decreases s.len() - from,
{
    if from < s.len() && s[from] != c {
        lemma_next_sep(s, from + 1, c);
    }
}

/// The package that one line of the list describes. A line holds
/// tab-separated fields: the identifier, then the raw options; any further
/// field is ignored. A line without a second field, or with an empty
/// identifier, describes nothing.
pub open spec fn line_entry(line: Seq<char>) -> Option<PackageModel> {
    let t1 = next_sep(line, 0, '\t');
    if 0 < t1 && t1 < line.len() {
        let t2 = next_sep(line, t1 + 1, '\t');
        Some(
            PackageModel {
                name: line.subrange(0, t1),
                scope: scope_of(line.subrange(t1 + 1, t2)),
                should_sync: true,
            },
        )
    } else {
        None
    }
}

/// The packages that the lines of `s` from position `start` on describe, in
/// order. Lines end at a newline; a carriage return before it can only end
/// the options field, where it changes no scope.
#[via_fn]
proof fn entries_from_terminates(s: Seq<char>, start: int) {
    if 0 <= start <= s.len() {
        lemma_next_sep(s, start, '\n');
    }
}

pub open spec fn entries_from(s: Seq<char>, start: int) -> Seq<PackageModel>
    decreases s.len() - start,
    via entries_from_terminates
{
    if start < 0 || start > s.len() {
        seq![]
    } else {
        let end = next_sep(s, start, '\n');
        let here = match line_entry(s.subrange(start, end)) {
            Some(p) => seq![p],
            None => seq![],
        };
        if end < s.len() {
            here + entries_from(s, end + 1)
        } else {
            here
        }
    }
}

/// The packages that a whole listing describes.
pub open spec fn list_entries(s: Seq<char>) -> Seq<PackageModel> {
    entries_from(s, 0)
}

proof fn lemma_next_sep_absent(s: Seq<char>, from: int, c: char)
    requires
        0 <= from <= s.len(),
        forall|i: int| from <= i < s.len() ==> s[i] != c,
    ensures
        next_sep(s, from, c) == s.len(),
    decreases s.len() - from,
{
    if from < s.len() {
        lemma_next_sep_absent(s, from + 1, c);
    }
}

/// A line with fewer than two tab-separated fields describes nothing: the
/// listing from that line on describes just what the lines after it do,
/// and the parse goes on past it.
pub proof fn lemma_line_without_fields_skipped(s: Seq<char>, start: int)
    requires
        0 <= start <= s.len(),
        forall|i: int| start <= i < next_sep(s, start, '\n') ==> s[i] != '\t',
    ensures
        line_entry(s.subrange(start, next_sep(s, start, '\n'))) is None,
        entries_from(s, start) == (if next_sep(s, start, '\n') < s.len() {
            entries_from(s, next_sep(s, start, '\n') + 1)
        } else {
            Seq::<PackageModel>::empty()
        }),
{
    lemma_next_sep(s, start, '\n');
    let end = next_sep(s, start, '\n');
    let line = s.subrange(start, end);
    assert forall|i: int| 0 <= i < line.len() implies line[i] != '\t' by {
        assert(line[i] == s[start + i]);
    }
    lemma_next_sep_absent(line, 0, '\t');
    assert(Seq::<PackageModel>::empty() + entries_from(s, end + 1) =~= entries_from(s, end + 1));
}

/// The position of the first `c` in `s` at or after `from`, or the length.
fn find_sep(s: &str, n: usize, from: usize, c: char) -> (r: usize)
    requires
        n == s@.len(),
        from <= n,
    ensures
        r == next_sep(s@, from as int, c),
        from <= r <= n,
{
    proof {
        lemma_next_sep(s@, from as int, c);
    }
    let mut i: usize = from;
    while i < n
        invariant
            n == s@.len(),
            from <= i <= n,
            next_sep(s@, i as int, c) == next_sep(s@, from as int, c),
        decreases n - i,
    {
        if s.get_char(i) == c {
            return i;
        }
        i = i + 1;
    }
    i
}

impl Flatpak {
    /// A package selected for synchronisation, its scope read from the raw
    /// option string.
    pub fn new(name: &str, options: &str) -> (r: Self)
        ensures
            r@ == (PackageModel { name: name@, scope: scope_of(options@), should_sync: true }),
    {
        let install_type = InstallType::from_flatpak_options(options);
        Flatpak { name: String::from_str(name), install_type: install_type, should_sync: true }
    }

    /// A copy that keeps every field.
    pub fn duplicate(&self) -> (r: Self)
        ensures
            r@ == self@,
    {
        Flatpak {
            name: self.name.clone(),
            install_type: self.install_type,
            should_sync: self.should_sync,
        }
    }

    /// The package that one line of the list describes, if any.
    pub fn parse_line(line: &str) -> (r: Option<Self>)
        ensures
            line_entry(line@) == (match r {
                Some(f) => Some(f@),
                None => None::<PackageModel>,
            }),
    {
        let n = line.unicode_len();
        let t1 = find_sep(line, n, 0, '\t');
        if t1 == 0 || t1 == n {
            return None;
        }
        let t2 = find_sep(line, n, t1 + 1, '\t');
        let name = line.substring_char(0, t1);
        let options = line.substring_char(t1 + 1, t2);
        Some(Flatpak::new(name, options))
    }

    /// The packages that the output of the package manager's listing
    /// describes, in the order of its lines. Lines that do not describe a
    /// package are skipped.
    pub fn parse_list(text: &str) -> (r: Vec<Self>)
        ensures
            models(r@) == list_entries(text@),
    {
        let n = text.unicode_len();
        let mut out: Vec<Flatpak> = Vec::new();
        let mut start: usize = 0;
        loop
            invariant
                n == text@.len(),
                start <= n,
                models(out@) + entries_from(text@, start as int) == list_entries(text@),
            decreases n - start,
        {
            let end = find_sep(text, n, start, '\n');
            let line = text.substring_char(start, end);
            let ghost before = out@;
            match Flatpak::parse_line(line) {
                Some(f) => {
                    out.push(f);
                    assert(models(out@) =~= models(before) + seq![f@]);
                },
                None => {},
            }
            if end >= n {
                assert(models(out@) =~= models(out@) + Seq::<PackageModel>::empty());
                return out;
            }
            assert(models(before) + entries_from(text@, start as int) =~= models(out@)
                + entries_from(text@, end + 1));
            start = end + 1;
        }
    }
}

} // verus!
