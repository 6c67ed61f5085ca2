//! The variables of the design being edited, by name: adding one numbered
//! after those there are, and changing the value of one.
use vstd::prelude::*;
use vstd::string::*;

use crate::design::concat2;
use crate::results::Variable;
use crate::shapes::{
    lemma_shape_map_at, lemma_shape_map_keys, lemma_shape_map_push, lemma_shape_map_remove, spec_distinct_names,
    spec_shape_map,
};
use crate::text::{spec_decimal, str_eq, to_decimal};

verus! {

/// A variable as a value.
pub struct VariableModel {
    pub value: Option<Seq<char>>,
    pub expression: Option<Seq<char>>,
    pub description: Seq<char>,
    pub unit_type: Option<Seq<char>>,
}

/// The text of an optional string.
pub open spec fn spec_opt_text(o: Option<String>) -> Option<Seq<char>> {
    match o {
        Some(s) => Some(s@),
        None => None,
    }
}

impl View for Variable {
    type V = VariableModel;

    open spec fn view(&self) -> VariableModel {
        VariableModel {
            value: spec_opt_text(self.value),
            expression: spec_opt_text(self.expression),
            description: self.description@,
            unit_type: spec_opt_text(self.unit_type),
        }
    }
}

/// The variable a design gets when one is added: the constant `0`, no
/// expression, no description and no unit type.
pub open spec fn spec_new_variable() -> VariableModel {
    VariableModel { value: Some("0"@), expression: None, description: Seq::empty(), unit_type: None }
}

/// The name of the variable added when there are `count`: `var<count+1>`.
pub open spec fn spec_new_variable_name(count: nat) -> Seq<char> {
    "var"@ + spec_decimal(count + 1)
}

/// `v` with its constant set to `value`.
pub open spec fn spec_with_value(v: VariableModel, value: Seq<char>) -> VariableModel {
    VariableModel { value: Some(value), ..v }
}

proof fn lemma_shape_map_len<B>(e: Seq<(String, B)>)
    requires
        spec_distinct_names(e),
    ensures
        spec_shape_map(e).dom().finite(),
        spec_shape_map(e).dom().len() == e.len(),
    decreases e.len(),
{
    if e.len() > 0 {
        let d = e.drop_last();
        assert forall|a: int, b: int| 0 <= a < b < d.len() implies d[a].0@ != d[b].0@ by {
            assert(d[a] == e[a] && d[b] == e[b]);
        }
        lemma_shape_map_len(d);
        lemma_shape_map_keys(d, e.last().0@);
        if spec_shape_map(d).contains_key(e.last().0@) {
            let j = choose|j: int| 0 <= j < d.len() && d[j].0@ == e.last().0@;
            assert(e[j].0@ == e[e.len() - 1].0@);
        }
    }
}

/// The variables of a design, each under its name.
pub struct DesignVariables {
    entries: Vec<(String, Variable)>,
}

impl DesignVariables {
    /// No name is used twice.
    #[verifier::type_invariant]
    closed spec fn names_distinct(self) -> bool {
        spec_distinct_names(self.entries@)
    }

    /// The variables, by name.
    pub closed spec fn var_map(&self) -> Map<Seq<char>, VariableModel> {
        spec_shape_map(self.entries@).map_values(|v: Variable| v@)
    }

    /// A design without variables.
    pub fn new() -> (r: Self)
        ensures
            r.var_map() == Map::<Seq<char>, VariableModel>::empty(),
    {
        let r = DesignVariables { entries: Vec::new() };
        assert(r.var_map() =~= Map::<Seq<char>, VariableModel>::empty());
        r
    }

    fn find(&self, name: &str) -> (r: Option<usize>)
        ensures
            match r {
                Some(i) => i < self.entries@.len() && self.entries@[i as int].0@ == name@,
                None => forall|i: int| 0 <= i < self.entries@.len() ==> self.entries@[i].0@ != name@,
            },
    {
        let mut i: usize = 0;
        while i < self.entries.len()
            invariant
                i <= self.entries@.len(),
                forall|k: int| 0 <= k < i ==> self.entries@[k].0@ != name@,
            decreases self.entries@.len() - i,
        {
            if str_eq(self.entries[i].0.as_str(), name) {
                return Some(i);
            }
            i = i + 1;
        }
        None
    }

    /// How many variables there are.
    pub fn len(&self) -> (r: usize)
        ensures
            self.var_map().dom().finite(),
            r == self.var_map().dom().len(),
    {
        proof {
            use_type_invariant(self);
            lemma_shape_map_len(self.entries@);
            assert(self.var_map().dom() =~= spec_shape_map(self.entries@).dom());
        }
        self.entries.len()
    }

    /// The variable with this name, if any.
    pub fn get(&self, name: &str) -> (r: Option<&Variable>)
        ensures
            match r {
                Some(v) => self.var_map().contains_key(name@) && v@ == self.var_map()[name@],
                None => !self.var_map().contains_key(name@),
            },
    {
        proof {
            use_type_invariant(self);
            lemma_shape_map_keys(self.entries@, name@);
        }
        match self.find(name) {
            Some(i) => {
                proof {
                    lemma_shape_map_at(self.entries@, i as int);
                }
                Some(&self.entries[i].1)
            },
            None => None,
        }
    }

    /// The variables with their names, in no particular order.
    pub fn entries(&self) -> (r: &Vec<(String, Variable)>)
        ensures
            spec_distinct_names(r@),
            spec_shape_map(r@).map_values(|v: Variable| v@) == self.var_map(),
    {
        proof {
            use_type_invariant(self);
        }
        &self.entries
    }

    /// Store `v` under `name`, replacing any variable of that name.
    fn put(&mut self, name: String, v: Variable)
        ensures
            final(self).var_map() == old(self).var_map().insert(name@, v@),
    {
        proof {
            use_type_invariant(&*self);
            lemma_shape_map_keys(self.entries@, name@);
        }
        let found = self.find(name.as_str());
        let mut entries: Vec<(String, Variable)> = Vec::new();
        std::mem::swap(&mut entries, &mut self.entries);
        match found {
            Some(i) => {
                proof {
                    lemma_shape_map_remove(entries@, i as int);
                }
                let _ = entries.remove(i);
            },
            None => {},
        }
        let ghost before = entries@;
        let ghost p = (name, v);
        proof {
            lemma_shape_map_keys(before, name@);
            lemma_shape_map_push(before, p);
        }
        entries.push((name, v));
        self.entries = entries;
        assert(self.var_map() =~= old(self).var_map().insert(p.0@, p.1@));
    }

    /// Add a variable named after the count of variables (`var<n+1>`), set
    /// to the constant `0`; returns its name.
    pub fn add_variable(&mut self) -> (r: String)
        requires
            old(self).var_map().dom().len() < usize::MAX,
        ensures
            r@ == spec_new_variable_name(old(self).var_map().dom().len()),
            final(self).var_map() == old(self).var_map().insert(r@, spec_new_variable()),
    {
        let count = self.len();
        let digits = to_decimal((count as u128) + 1);
        let name = concat2("var", digits.as_str());
        proof {
            reveal_strlit("var");
            reveal_strlit("0");
        }
        let v = Variable {
            value: Some(String::from_str("0")),
            expression: None,
            description: String::new(),
            unit_type: None,
        };
        assert(v@ == spec_new_variable());
        let shown = name.clone();
        self.put(name, v);
        shown
    }

    /// Set the constant of the variable `name` to `value`, if there is such
    /// a variable; returns whether there was.
    pub fn set_value(&mut self, name: &str, value: &str) -> (r: bool)
        ensures
            r == old(self).var_map().contains_key(name@),
            r ==> final(self).var_map() == old(self).var_map().insert(
                name@,
                spec_with_value(old(self).var_map()[name@], value@),
            ),
            !r ==> final(self).var_map() == old(self).var_map(),
    {
        match self.get(name) {
            Some(old_var) => {
                let v = Variable {
                    value: Some(String::from_str(value)),
                    expression: old_var.expression.clone(),
                    description: old_var.description.clone(),
                    unit_type: old_var.unit_type.clone(),
                };
                self.put(String::from_str(name), v);
                true
            },
            None => false,
        }
    }
}

} // verus!
