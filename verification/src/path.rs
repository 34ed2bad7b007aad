use vstd::prelude::*;

verus! {

/// A file-system path held as its components, the way `std::path::Path`
/// compares and splits paths: `root` is the prefix and the root directory as
/// written (empty for a relative path), and `names` are the components after
/// it, where "." stands for the current and ".." for the parent directory.
#[derive(Debug)]
pub struct FilePath {
    pub root: String,
    pub names: Vec<String>,
}

/// The mathematical model of a path: its root and its component names.
pub type PathModel = (Seq<char>, Seq<Seq<char>>);

impl View for FilePath {
    type V = PathModel;

    open spec fn view(&self) -> PathModel {
        (self.root@, names_model(self.names@))
    }
}

/// The names of a list of strings.
pub open spec fn names_model(names: Seq<String>) -> Seq<Seq<char>> {
    names.map_values(|s: String| s@)
}

/// The path "." (the current directory).
pub open spec fn current_dir_model() -> PathModel {
    (Seq::empty(), seq![seq!['.']])
}

/// `p` with one more component `name` at its end (`Path::join` of a plain name).
pub open spec fn joined(p: PathModel, name: Seq<char>) -> PathModel {
    (p.0, p.1.push(name))
}

/// `Path::parent`: the path without its last component; none for a path
/// that is only a root, or empty.
pub open spec fn parent_of(p: PathModel) -> Option<PathModel> {
    if p.1.len() > 0 {
        Some((p.0, p.1.drop_last()))
    } else {
        None
    }
}

/// The names that stand for the current and the parent directory.
pub open spec fn is_dot_name(name: Seq<char>) -> bool {
    name == seq!['.'] || name == seq!['.', '.']
}

/// `Path::file_name`: the last component, unless it is "." or ".." or there is none.
pub open spec fn file_name_of(p: PathModel) -> Option<Seq<char>> {
    if p.1.len() > 0 && !is_dot_name(p.1.last()) {
        Some(p.1.last())
    } else {
        None
    }
}

/// The index of the last '.' in `s`, or -1 where there is none.
pub open spec fn last_dot(s: Seq<char>) -> int
    decreases s.len(),
{
    if s.len() == 0 {
        -1
    } else if s.last() == '.' {
        s.len() - 1
    } else {
        last_dot(s.drop_last())
    }
}

/// The stem of a file name: the part before its last '.', or the whole name
/// where the only '.' is the first character or there is none.
pub open spec fn stem_of_name(name: Seq<char>) -> Seq<char> {
    if last_dot(name) <= 0 {
        name
    } else {
        name.take(last_dot(name))
    }
}

/// The extension of a file name: the part after its last '.', where a '.'
/// follows the first character.
pub open spec fn extension_of_name(name: Seq<char>) -> Option<Seq<char>> {
    if last_dot(name) <= 0 {
        None
    } else {
        Some(name.skip(last_dot(name) + 1))
    }
}

/// `Path::file_stem`.
pub open spec fn file_stem_of(p: PathModel) -> Option<Seq<char>> {
    match file_name_of(p) {
        Some(name) => Some(stem_of_name(name)),
        None => None,
    }
}

/// `Path::extension`.
pub open spec fn extension_of(p: PathModel) -> Option<Seq<char>> {
    match file_name_of(p) {
        Some(name) => extension_of_name(name),
        None => None,
    }
}

pub proof fn lemma_last_dot_bounds(s: Seq<char>)
    ensures
        -1 <= last_dot(s) < s.len(),
        last_dot(s) >= 0 ==> s[last_dot(s)] == '.',
        forall|j: int| last_dot(s) < j < s.len() ==> s[j] != '.',
    decreases s.len(),
{
    if s.len() > 0 && s.last() != '.' {
        lemma_last_dot_bounds(s.drop_last());
        assert forall|j: int| last_dot(s) < j < s.len() implies s[j] != '.' by {
            if j < s.len() - 1 {
                assert(s[j] == s.drop_last()[j]);
            }
        }
    }
}

/// Where the last '.' of a concatenation lies: in the second part if it has
/// one, else where the first part has its last '.'.
pub proof fn lemma_last_dot_concat(a: Seq<char>, b: Seq<char>)
    ensures
        last_dot(b) >= 0 ==> last_dot(a + b) == a.len() + last_dot(b),
        last_dot(b) < 0 ==> last_dot(a + b) == last_dot(a),
    decreases b.len(),
{
    if b.len() == 0 {
        assert(a + b =~= a);
    } else {
        assert((a + b).drop_last() =~= a + b.drop_last());
        assert((a + b).last() == b.last());
        lemma_last_dot_concat(a, b.drop_last());
    }
}

/// Copies a string.
fn copy_string(s: &String) -> (r: String)
    ensures
        r@ == s@,
{
    s.clone()
}

/// Copies a list of names.
fn copy_names(names: &Vec<String>) -> (r: Vec<String>)
    ensures
        names_model(r@) == names_model(names@),
{
    let mut r: Vec<String> = Vec::new();
    let mut i: usize = 0;
    while i < names.len()
        invariant
            i <= names.len(),
            r@.len() == i,
            forall|k: int| 0 <= k < i ==> r@[k]@ == names@[k]@,
        decreases names.len() - i,
    {
        r.push(copy_string(&names[i]));
        i = i + 1;
    }
    assert(names_model(r@) =~= names_model(names@));
    r
}

/// The index of the last '.' in `s`, or `None` where there is none.
fn find_last_dot(s: &str) -> (r: Option<usize>)
    ensures
        match r {
            Some(i) => i == last_dot(s@),
            None => last_dot(s@) == -1,
        },
{
    let len = s.unicode_len();
    let mut i: usize = len;
    assert(s@.take(len as int) =~= s@);
    while i > 0
        invariant
            i <= len == s@.len(),
            last_dot(s@) == last_dot(s@.take(i as int)),
        decreases i,
    {
        if s.get_char(i - 1) == '.' {
            assert(s@.take(i as int).last() == '.');
            return Some(i - 1);
        }
        assert(s@.take(i as int).drop_last() =~= s@.take(i - 1));
        i = i - 1;
    }
    assert(s@.take(0) =~= Seq::<char>::empty());
    None
}

impl FilePath {
    /// A copy of this path.
    pub fn copy(&self) -> (r: FilePath)
        ensures
            r@ == self@,
    {
        FilePath { root: copy_string(&self.root), names: copy_names(&self.names) }
    }

    /// The path "." (the current directory).
    pub fn current_dir() -> (r: FilePath)
        ensures
            r@ == current_dir_model(),
    {
        let mut names: Vec<String> = Vec::new();
        names.push(String::from_str("."));
        proof {
            reveal_strlit(".");
        }
        assert(names@[0]@ =~= seq!['.']);
        let r = FilePath { root: String::new(), names };
        assert(r@.1 =~= current_dir_model().1);
        r
    }

    /// This path with `name` appended as its last component (`Path::join`
    /// of a plain file or folder name, which holds no separator).
    pub fn join_name(&self, name: &str) -> (r: FilePath)
        ensures
            r@ == joined(self@, name@),
    {
        let mut names = copy_names(&self.names);
        names.push(String::from_str(name));
        let r = FilePath { root: copy_string(&self.root), names };
        assert(r@.1 =~= joined(self@, name@).1);
        r
    }

    /// `Path::parent`: this path without its last component.
    pub fn parent(&self) -> (r: Option<FilePath>)
        ensures
            match r {
                Some(q) => parent_of(self@) == Some(q@),
                None => parent_of(self@) is None,
            },
    {
        if self.names.len() == 0 {
            return None;
        }
        let mut names = copy_names(&self.names);
        names.pop();
        let r = FilePath { root: copy_string(&self.root), names };
        assert(r@.1 =~= self@.1.drop_last());
        Some(r)
    }

    /// `Path::file_name`: the last component, unless it is "." or "..".
    pub fn file_name(&self) -> (r: Option<String>)
        ensures
            match r {
                Some(n) => file_name_of(self@) == Some(n@),
                None => file_name_of(self@) is None,
            },
    {
        let n = self.names.len();
        if n == 0 {
            return None;
        }
        let last = &self.names[n - 1];
        assert(last@ == self@.1.last());
        let len = last.as_str().unicode_len();
        if len == 1 && last.as_str().get_char(0) == '.' {
            assert(last@ =~= seq!['.']);
            return None;
        }
        if len == 2 && last.as_str().get_char(0) == '.' && last.as_str().get_char(1) == '.' {
            assert(last@ =~= seq!['.', '.']);
            return None;
        }
        Some(copy_string(last))
    }

    /// `Path::file_stem`: the file name without its extension.
    pub fn file_stem(&self) -> (r: Option<String>)
        ensures
            match r {
                Some(s) => file_stem_of(self@) == Some(s@),
                None => file_stem_of(self@) is None,
            },
    {
        match self.file_name() {
            None => None,
            Some(name) => {
                match find_last_dot(name.as_str()) {
                    Some(i) if i > 0 => {
                        proof {
                            lemma_last_dot_bounds(name@);
                        }
                        let stem = name.as_str().substring_char(0, i);
                        assert(stem@ =~= name@.take(i as int));
                        Some(String::from_str(stem))
                    },
                    _ => Some(name),
                }
            },
        }
    }

    /// `Path::extension`: the part of the file name after its last '.'.
    pub fn extension(&self) -> (r: Option<String>)
        ensures
            match r {
                Some(e) => extension_of(self@) == Some(e@),
                None => extension_of(self@) is None,
            },
    {
        match self.file_name() {
            None => None,
            Some(name) => {
                match find_last_dot(name.as_str()) {
                    Some(i) if i > 0 => {
                        proof {
                            lemma_last_dot_bounds(name@);
                        }
                        let len = name.as_str().unicode_len();
                        let ext = name.as_str().substring_char(i + 1, len);
                        assert(ext@ =~= name@.skip(i + 1));
                        Some(String::from_str(ext))
                    },
                    _ => None,
                }
            },
        }
    }
}

} // verus!
