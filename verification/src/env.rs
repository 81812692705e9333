//! A snapshot of environment variables and the lookup that every accessor
//! of the library goes through.

use vstd::prelude::*;

verus! {

/// The variables of a snapshot as a mathematical map. A name is in the
/// domain when the variable is set. It maps to `Some(text)` when its value is
/// valid Unicode and to `None` when it is not.
pub type Vars = Map<Seq<char>, Option<Seq<char>>>;

/// What reading one variable gives, over mathematical strings: `Ok(None)`
/// for a variable that is not set, `Ok(Some(text))` for one that holds text,
/// and `Err(name)` for one whose value is not valid Unicode.
pub type Reading = Result<Option<Seq<char>>, Seq<char>>;

/// The fault that a lookup reports instead of a value.
#[derive(Debug, PartialEq, Eq)]
pub enum EnvError {
    /// The variable `name` is set, but its value is not valid Unicode.
    NotUnicode { name: String },
}

/// The mathematical form of a lookup's result.
pub open spec fn reading(r: Result<Option<String>, EnvError>) -> Reading {
    match r {
        Ok(Some(text)) => Ok(Some(text@)),
        Ok(None) => Ok(None),
        Err(EnvError::NotUnicode { name }) => Err(name@),
    }
}

/// What reading the variable `name` gives in `vars`.
pub open spec fn read(vars: Vars, name: Seq<char>) -> Reading {
    if !vars.contains_key(name) {
        Ok(None)
    } else {
        match vars[name] {
            Some(text) => Ok(Some(text)),
            None => Err(name),
        }
    }
}

/// One variable that is set: its name, and its value where that is text.
struct Entry {
    name: String,
    value: Option<String>,
}

impl Entry {
    spec fn text(self) -> Option<Seq<char>> {
        match self.value {
            Some(v) => Some(v@),
            None => None,
        }
    }
}

/// The map that a list of assignments amounts to: a later assignment to a
/// name replaces an earlier one.
spec fn assigned(entries: Seq<Entry>) -> Vars
    decreases entries.len(),
{
    if entries.len() == 0 {
        Map::empty()
    } else {
        assigned(entries.drop_last()).insert(entries.last().name@, entries.last().text())
    }
}

/// Only the last assignment to a name counts: if no entry from `from` on has
/// the name, the entries before `from` decide what the name maps to.
proof fn lemma_assigned_before(entries: Seq<Entry>, from: int, name: Seq<char>)
    requires
        0 <= from <= entries.len(),
        forall|j: int| from <= j < entries.len() ==> entries[j].name@ != name,
    ensures
        assigned(entries).contains_key(name) == assigned(entries.take(from)).contains_key(name),
        assigned(entries).contains_key(name) ==> assigned(entries)[name] == assigned(
            entries.take(from),
        )[name],
    decreases entries.len(),
{
    if from == entries.len() {
        assert(entries.take(from) == entries);
    } else {
        assert(entries.drop_last().take(from) == entries.take(from));
        lemma_assigned_before(entries.drop_last(), from, name);
    }
}

/// A snapshot of environment variables.
pub struct Env {
    entries: Vec<Entry>,
}

impl View for Env {
    type V = Vars;

    closed spec fn view(&self) -> Vars {
        assigned(self.entries@)
    }
}

impl Env {
    /// A snapshot in which no variable is set.
    pub fn new() -> (env: Env)
        ensures
            env@ == Map::<Seq<char>, Option<Seq<char>>>::empty(),
    {
        Env { entries: Vec::new() }
    }

    /// Sets the variable `name` to the text `value`, in place of whatever it
    /// held before.
    pub fn set(&mut self, name: &str, value: &str)
        ensures
            final(self)@ == old(self)@.insert(name@, Some(value@)),
    {
        self.entries.push(Entry { name: name.to_owned(), value: Some(value.to_owned()) });
        assert(self.entries@.drop_last() == old(self).entries@);
    }

    /// Sets the variable `name` to a value that is not valid Unicode, in
    /// place of whatever it held before.
    pub fn set_not_unicode(&mut self, name: &str)
        ensures
            final(self)@ == old(self)@.insert(name@, None),
    {
        self.entries.push(Entry { name: name.to_owned(), value: None });
        assert(self.entries@.drop_last() == old(self).entries@);
    }

    /// The position of the assignment that decides `name`: the last entry
    /// with that name, if there is one.
    fn position(&self, name: &str) -> (found: Option<usize>)
        ensures
            found is Some == self@.contains_key(name@),
            found matches Some(i) ==> {
                &&& i < self.entries@.len()
                &&& self.entries@[i as int].name@ == name@
                &&& self@[name@] == self.entries@[i as int].text()
            },
    {
        let wanted = name.to_owned();
        let mut i: usize = self.entries.len();
        while i > 0
            invariant
                i <= self.entries@.len(),
                wanted@ == name@,
                forall|j: int| i <= j < self.entries@.len() ==> self.entries@[j].name@ != name@,
            decreases i,
        {
            i = i - 1;
            if self.entries[i].name == wanted {
                proof {
                    lemma_assigned_before(self.entries@, i + 1, name@);
                    assert(self.entries@.take(i + 1).drop_last() == self.entries@.take(i as int));
                }
                return Some(i);
            }
        }
        proof {
            lemma_assigned_before(self.entries@, 0, name@);
        }
        None
    }

    /// Whether the variable `name` is set, whatever it holds.
    pub fn contains(&self, name: &str) -> (set: bool)
        ensures
            set == self@.contains_key(name@),
    {
        self.position(name).is_some()
    }

    /// Reads the variable `name`: `Ok(None)` where it is not set,
    /// `Ok(Some(text))` where it holds text, and the error where what it holds
    /// is not valid Unicode. A value that is not text is never passed off as
    /// a variable that is not set.
    pub fn var(&self, name: &str) -> (r: Result<Option<String>, EnvError>)
        ensures
            reading(r) == read(self@, name@),
    {
        match self.position(name) {
            None => Ok(None),
            Some(i) => match &self.entries[i].value {
                Some(text) => Ok(Some(text.clone())),
                None => Err(EnvError::NotUnicode { name: name.to_owned() }),
            },
        }
    }
}

} // verus!
