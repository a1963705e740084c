//! The process environment as plain values, handed to the resolver.
use vstd::prelude::*;

verus! {

/// A snapshot of what the resolver reads from the process environment:
/// the variables, in order, and the home directory (if one could be found).
/// Passing it in explicitly keeps resolution a function of its inputs.
pub struct Environment {
    pub vars: Vec<(String, String)>,
    pub home: Option<String>,
}

/// The characters of an optional string.
pub open spec fn opt_view(o: Option<String>) -> Option<Seq<char>> {
    match o {
        Some(s) => Some(s@),
        None => None,
    }
}

/// The value of the first variable named `name` in `vars`.
pub open spec fn lookup_var(vars: Seq<(String, String)>, name: Seq<char>) -> Option<Seq<char>>
    decreases vars.len(),
{
    if vars.len() == 0 {
        None
    } else if vars[0].0@ == name {
        Some(vars[0].1@)
    } else {
        lookup_var(vars.drop_first(), name)
    }
}

impl Environment {
    pub open spec fn var_spec(&self, name: Seq<char>) -> Option<Seq<char>> {
        lookup_var(self.vars@, name)
    }

    pub open spec fn home_spec(&self) -> Option<Seq<char>> {
        opt_view(self.home)
    }

    /// The variables as plain character sequences.
    pub open spec fn vars_view(&self) -> Seq<(Seq<char>, Seq<char>)> {
        self.vars@.map_values(|p: (String, String)| (p.0@, p.1@))
    }

    /// Looks up a variable; the first binding of a name wins.
    pub fn var(&self, name: &str) -> (r: Option<String>)
        ensures
            opt_view(r) == self.var_spec(name@),
    {
        let wanted = String::from_str(name);
        let mut i: usize = 0;
        assert(self.vars@.subrange(0, self.vars@.len() as int) =~= self.vars@);
        while i < self.vars.len()
            invariant
                i <= self.vars@.len(),
                wanted@ == name@,
                self.var_spec(name@) == lookup_var(
                    self.vars@.subrange(i as int, self.vars@.len() as int),
                    name@,
                ),
            decreases self.vars@.len() - i,
        {
            let rest = Ghost(self.vars@.subrange(i as int, self.vars@.len() as int));
            assert(rest@.drop_first() =~= self.vars@.subrange(i + 1, self.vars@.len() as int));
            if self.vars[i].0 == wanted {
                return Some(self.vars[i].1.clone());
            }
            i = i + 1;
        }
        None
    }

    /// The home directory, if any.
    pub fn home_dir(&self) -> (r: Option<String>)
        ensures
            opt_view(r) == self.home_spec(),
    {
        match &self.home {
            Some(h) => Some(h.clone()),
            None => None,
        }
    }
}

} // verus!
