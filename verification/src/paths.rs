//! Paths as the pipeline writes them: text with `/` between components.
use crate::text::chars_of;
use vstd::prelude::*;

verus! {

/// `name` placed under the directory `base`. An empty base stands for the
/// current directory and a base that already ends in a separator gets no
/// second one.
pub open spec fn joined(base: Seq<char>, name: Seq<char>) -> Seq<char> {
    if base.len() == 0 {
        name
    } else if base.last() == '/' {
        base + name
    } else {
        base + seq!['/'] + name
    }
}

/// Whether `prefix` is a leading part of `s`.
pub open spec fn begins_with(s: Seq<char>, prefix: Seq<char>) -> bool {
    prefix.len() <= s.len() && s.subrange(0, prefix.len() as int) == prefix
}

/// `path` as seen from the directory `base`, where it lies at or under it.
pub open spec fn relative_to(path: Seq<char>, base: Seq<char>) -> Option<Seq<char>> {
    if base.len() == 0 {
        Some(path)
    } else if !begins_with(path, base) {
        None
    } else if base.last() == '/' || path.len() == base.len() {
        Some(path.skip(base.len() as int))
    } else if path[base.len() as int] == '/' {
        Some(path.skip(base.len() as int + 1))
    } else {
        None
    }
}

/// The position just behind the last separator of `path`; zero where it
/// has none.
pub open spec fn name_start(path: Seq<char>) -> int
    decreases path.len(),
{
    if path.len() == 0 {
        0
    } else if path.last() == '/' {
        path.len() as int
    } else {
        name_start(path.drop_last())
    }
}

/// The last component of `path`: what follows its last separator.
pub open spec fn file_name(path: Seq<char>) -> Seq<char> {
    path.skip(name_start(path))
}

/// Whether a name is a single component: not empty and free of separators.
pub open spec fn is_component(name: Seq<char>) -> bool {
    name.len() > 0 && forall|i: int| 0 <= i < name.len() ==> name[i] != '/'
}

/// A name that holds no separator starts where the directory in front of
/// it ends.
pub proof fn lemma_name_start_append(dir: Seq<char>, name: Seq<char>)
    requires
        forall|i: int| 0 <= i < name.len() ==> name[i] != '/',
    ensures
        name_start(dir + name) == name_start(dir),
    decreases name.len(),
{
    if name.len() == 0 {
        assert(dir + name == dir);
    } else {
        let whole = dir + name;
        assert(whole.last() == name.last());
        assert(whole.drop_last() == dir + name.drop_last());
        lemma_name_start_append(dir, name.drop_last());
    }
}

/// Under any directory, a path seen from that directory is the name that
/// was joined to it.
pub proof fn lemma_relative_to_joined(base: Seq<char>, name: Seq<char>)
    ensures
        relative_to(joined(base, name), base) == Some(name),
{
    let path = joined(base, name);
    if base.len() == 0 {
    } else if base.last() == '/' {
        assert(path.subrange(0, base.len() as int) == base);
        assert(path.skip(base.len() as int) == name);
    } else {
        assert(path.subrange(0, base.len() as int) == base);
        assert(path[base.len() as int] == '/');
        assert(path.skip(base.len() as int + 1) == name);
    }
}

/// The last component of a single name joined to a directory is that name.
pub proof fn lemma_file_name_joined(base: Seq<char>, name: Seq<char>)
    requires
        is_component(name),
    ensures
        file_name(joined(base, name)) == name,
{
    let path = joined(base, name);
    if base.len() == 0 {
        lemma_name_start_append(Seq::empty(), name);
        assert(Seq::<char>::empty() + name == name);
        assert(path.skip(0) == path);
    } else if base.last() == '/' {
        lemma_name_start_append(base, name);
        assert(path.skip(base.len() as int) == name);
    } else {
        let dir = base + seq!['/'];
        assert(dir.last() == '/');
        lemma_name_start_append(dir, name);
        assert(path.skip(dir.len() as int) == name);
    }
}

/// Places `name` under the directory `base`.
pub fn join(base: &str, name: &str) -> (path: String)
    ensures
        path@ == joined(base@, name@),
{
    let n: usize = base.unicode_len();
    if n == 0 {
        String::from_str(name)
    } else if base.get_char(n - 1) == '/' {
        String::from_str(base).concat(name)
    } else {
        proof {
            reveal_strlit("/");
            assert("/"@ =~= seq!['/']);
        }
        String::from_str(base).concat("/").concat(name)
    }
}

/// Gives `path` as seen from `base`, or `None` where it does not lie at
/// or under it.
pub fn strip_prefix(path: &str, base: &str) -> (rest: Option<String>)
    ensures
        rest.is_some() == relative_to(path@, base@).is_some(),
        rest.is_some() ==> rest.unwrap()@ == relative_to(path@, base@).unwrap(),
{
    let whole: Vec<char> = chars_of(path);
    let lead: Vec<char> = chars_of(base);
    let n: usize = lead.len();
    if n == 0 {
        return Some(String::from_str(path));
    }
    if n > whole.len() {
        return None;
    }
    let mut i: usize = 0;
    while i < n
        invariant
            whole@ == path@,
            lead@ == base@,
            n == lead@.len(),
            n <= whole@.len(),
            i <= n,
            forall|k: int| 0 <= k < i ==> whole@[k] == lead@[k],
        decreases n - i,
    {
        if whole[i] != lead[i] {
            assert(!begins_with(path@, base@)) by {
                if begins_with(path@, base@) {
                    assert(path@.subrange(0, n as int)[i as int] == base@[i as int]);
                }
            }
            return None;
        }
        i += 1;
    }
    assert(begins_with(path@, base@)) by {
        assert(path@.subrange(0, n as int) =~= base@);
    }
    assert(path@.skip(n as int) == path@.subrange(n as int, path@.len() as int));
    if lead[n - 1] == '/' || whole.len() == n {
        Some(String::from_str(path.substring_char(n, whole.len())))
    } else if whole[n] == '/' {
        assert(path@.skip(n + 1) == path@.subrange(n + 1, path@.len() as int));
        Some(String::from_str(path.substring_char(n + 1, whole.len())))
    } else {
        None
    }
}

/// Gives the last component of `path`, or `None` where the path is empty
/// or ends in a separator.
pub fn base_name(path: &str) -> (name: Option<String>)
    ensures
        name.is_some() == (file_name(path@).len() > 0),
        name.is_some() ==> name.unwrap()@ == file_name(path@),
{
    let chars: Vec<char> = chars_of(path);
    let n: usize = chars.len();
    let mut start: usize = n;
    proof {
        assert(path@.subrange(0, n as int) == path@);
    }
    while start > 0 && chars[start - 1] != '/'
        invariant
            chars@ == path@,
            n == chars@.len(),
            start <= n,
            name_start(path@) == name_start(path@.subrange(0, start as int)),
        decreases start,
    {
        proof {
            let head = path@.subrange(0, start as int);
            assert(head.last() == path@[start - 1]);
            assert(head.drop_last() == path@.subrange(0, start - 1));
        }
        start -= 1;
    }
    proof {
        let head = path@.subrange(0, start as int);
        if start > 0 {
            assert(head.last() == path@[start - 1]);
        }
        assert(name_start(head) == start);
        assert(path@.skip(start as int) == path@.subrange(start as int, n as int));
    }
    if start == n {
        None
    } else {
        Some(String::from_str(path.substring_char(start, n)))
    }
}

/// A path given on the command line.
#[derive(Debug)]
pub struct SpecifiedPath {
    pub path: String,
}

impl View for SpecifiedPath {
    type V = Seq<char>;

    open spec fn view(&self) -> Seq<char> {
        self.path@
    }
}

impl SpecifiedPath {
    /// The path written as `path`.
    pub fn new(path: &str) -> (specified: Self)
        ensures
            specified@ == path@,
    {
        SpecifiedPath { path: String::from_str(path) }
    }

    /// The path as text.
    pub fn as_str(&self) -> (path: &str)
        ensures
            path@ == self@,
    {
        self.path.as_str()
    }

    /// The path as it is shown to the user.
    pub fn display(&self) -> (shown: String)
        ensures
            shown@ == self@,
    {
        self.path.clone()
    }

    /// The path of `name` under this directory.
    pub fn join(&self, name: &str) -> (path: String)
        ensures
            path@ == joined(self@, name@),
    {
        join(self.path.as_str(), name)
    }
}

impl Clone for SpecifiedPath {
    fn clone(&self) -> (copy: Self)
        ensures
            copy@ == self@,
    {
        SpecifiedPath { path: self.path.clone() }
    }
}

impl From<String> for SpecifiedPath {
    fn from(path: String) -> (specified: Self) {
        SpecifiedPath { path }
    }
}

impl vstd::std_specs::convert::FromSpecImpl<String> for SpecifiedPath {
    open spec fn obeys_from_spec() -> bool {
        true
    }

    open spec fn from_spec(path: String) -> Self {
        SpecifiedPath { path }
    }
}

} // verus!
