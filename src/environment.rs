//! A snapshot of what the resolver reads from the machine it runs on: the
//! environment variables, the files found along `PATH`, the platform's
//! executable suffix and the programs known to start.
use vstd::prelude::*;

use crate::text::same_text;

verus! {

/// The value of the last entry named `name` in `vars`, if any.
pub open spec fn lookup(vars: Seq<(Seq<char>, Seq<char>)>, name: Seq<char>) -> Option<Seq<char>>
    decreases vars.len(),
{
    if vars.len() == 0 {
        None
    } else if vars.last().0 == name {
        Some(vars.last().1)
    } else {
        lookup(vars.drop_last(), name)
    }
}

/// The mathematical model of an [`Environment`].
pub ghost struct EnvModel {
    /// Variables as (name, value), later entries overriding earlier ones.
    pub vars: Seq<(Seq<char>, Seq<char>)>,
    /// For each `PATH` directory, in search order, the names of the files in it.
    pub path: Seq<Seq<Seq<char>>>,
    /// Suffix of executable file names on this platform (`""` or `".exe"`).
    pub exe_suffix: Seq<char>,
    /// Programs that are known to start when invoked by name.
    pub runnable: Seq<Seq<char>>,
}

impl EnvModel {
    pub open spec fn var(self, name: Seq<char>) -> Option<Seq<char>> {
        lookup(self.vars, name)
    }
}

/// The view of a list of strings.
pub open spec fn texts(v: Seq<String>) -> Seq<Seq<char>> {
    v.map_values(|s: String| s@)
}

/// The outside world as the resolver sees it. Every decision made from it is
/// a function of these values alone.
#[derive(Debug)]
pub struct Environment {
    vars: Vec<(String, String)>,
    path: Vec<Vec<String>>,
    exe_suffix: String,
    runnable: Vec<String>,
}

impl View for Environment {
    type V = EnvModel;

    closed spec fn view(&self) -> EnvModel {
        EnvModel {
            vars: self.vars@.map_values(|p: (String, String)| (p.0@, p.1@)),
            path: self.path@.map_values(|d: Vec<String>| texts(d@)),
            exe_suffix: self.exe_suffix@,
            runnable: texts(self.runnable@),
        }
    }
}

/// Whether `items` holds a string equal to `s`.
pub fn holds_text(items: &Vec<String>, s: &str) -> (r: bool)
    ensures
        r == texts(items@).contains(s@),
{
    let mut i: usize = 0;
    while i < items.len()
        invariant
            i <= items@.len(),
            forall|j: int| 0 <= j < i ==> items@[j]@ != s@,
        decreases items@.len() - i,
    {
        if same_text(items[i].as_str(), s) {
            assert(texts(items@)[i as int] == s@);
            return true;
        }
        i = i + 1;
    }
    assert forall|j: int| 0 <= j < texts(items@).len() implies texts(items@)[j] != s@ by {
        assert(texts(items@)[j] == items@[j]@);
    }
    false
}

impl Environment {
    /// An environment with no variables, an empty `PATH`, no executable
    /// suffix and no program known to start.
    pub fn new() -> (r: Self)
        ensures
            r@.vars == Seq::<(Seq<char>, Seq<char>)>::empty(),
            r@.path == Seq::<Seq<Seq<char>>>::empty(),
            r@.exe_suffix == Seq::<char>::empty(),
            r@.runnable == Seq::<Seq<char>>::empty(),
    {
        let r = Environment {
            vars: Vec::new(),
            path: Vec::new(),
            exe_suffix: String::new(),
            runnable: Vec::new(),
        };
        assert(r@.vars =~= Seq::empty());
        assert(r@.path =~= Seq::empty());
        assert(r@.runnable =~= Seq::empty());
        r
    }

    /// Sets variable `name` to `value`, overriding an earlier setting.
    pub fn set_var(&mut self, name: &str, value: &str)
        ensures
            final(self)@ == (EnvModel { vars: old(self)@.vars.push((name@, value@)), ..old(self)@ }),
    {
        self.vars.push((String::from_str(name), String::from_str(value)));
        assert(self@.vars =~= old(self)@.vars.push((name@, value@)));
    }

    /// Appends a directory to `PATH`, given by the names of the files in it.
    pub fn add_path_dir(&mut self, files: Vec<String>)
        ensures
            final(self)@ == (EnvModel { path: old(self)@.path.push(texts(files@)), ..old(self)@ }),
    {
        self.path.push(files);
        assert(self@.path =~= old(self)@.path.push(texts(files@)));
    }

    /// Sets the suffix of executable file names.
    pub fn set_exe_suffix(&mut self, suffix: &str)
        ensures
            final(self)@ == (EnvModel { exe_suffix: suffix@, ..old(self)@ }),
    {
        self.exe_suffix = String::from_str(suffix);
    }

    /// Records that `program` starts when invoked by name.
    pub fn add_runnable(&mut self, program: &str)
        ensures
            final(self)@ == (EnvModel { runnable: old(self)@.runnable.push(program@), ..old(self)@ }),
    {
        self.runnable.push(String::from_str(program));
        assert(texts(self.runnable@) =~= old(self)@.runnable.push(program@));
    }

    /// The value of variable `name`, if it is set.
    pub fn var(&self, name: &str) -> (r: Option<String>)
        ensures
            r.deep_view() == self@.var(name@),
    {
        let mut i: usize = self.vars.len();
        assert(self@.vars.subrange(0, i as int) =~= self@.vars);
        while i > 0
            invariant
                i <= self.vars@.len(),
                lookup(self@.vars.subrange(0, i as int), name@) == self@.var(name@),
            decreases i,
        {
            let ghost vs = self@.vars.subrange(0, i as int);
            assert(vs.last() == (self.vars@[i - 1].0@, self.vars@[i - 1].1@));
            if same_text(self.vars[i - 1].0.as_str(), name) {
                return Some(self.vars[i - 1].1.clone());
            }
            assert(vs.drop_last() =~= self@.vars.subrange(0, i - 1));
            i = i - 1;
        }
        None
    }

    /// The files found in each `PATH` directory, in search order.
    pub fn path_dirs(&self) -> (r: &Vec<Vec<String>>)
        ensures
            r@.map_values(|d: Vec<String>| texts(d@)) == self@.path,
    {
        &self.path
    }

    /// The suffix of executable file names.
    pub fn exe_suffix(&self) -> (r: &str)
        ensures
            r@ == self@.exe_suffix,
    {
        self.exe_suffix.as_str()
    }

    /// Whether `program` is known to start.
    pub fn can_run(&self, program: &str) -> (r: bool)
        ensures
            r == self@.runnable.contains(program@),
    {
        holds_text(&self.runnable, program)
    }
}

} // verus!
