//! The order in which project and design variables are resolved. Each
//! round tries every variable not yet resolved, in order; a variable that
//! refers to one not yet known waits for the next round. Rounds go on while
//! the last one resolved something; what is left then is a circular
//! dependency. Evaluating a variable is left to the caller, which reports
//! whether it succeeded.
use vstd::prelude::*;
use vstd::string::*;

use crate::expression::ExprError;

verus! {

/// The texts of a list of names.
pub open spec fn spec_name_texts(v: Seq<String>) -> Seq<Seq<char>> {
    v.map_values(|s: String| s@)
}

/// Names joined by a separator.
pub open spec fn spec_join(names: Seq<Seq<char>>, sep: Seq<char>) -> Seq<char>
    decreases names.len(),
{
    if names.len() == 0 {
        Seq::empty()
    } else if names.len() == 1 {
        names[0]
    } else {
        spec_join(names.drop_last(), sep) + sep + names.last()
    }
}

/// Names joined by a separator.
pub fn join(names: &Vec<String>, sep: &str) -> (r: String)
    ensures
        r@ == spec_join(spec_name_texts(names@), sep@),
{
    let ghost all = spec_name_texts(names@);
    let mut out = String::new();
    let mut i: usize = 0;
    while i < names.len()
        invariant
            all == spec_name_texts(names@),
            i <= names@.len(),
            out@ == spec_join(all.take(i as int), sep@),
        decreases names@.len() - i,
    {
        assert(all.take(i + 1).drop_last() =~= all.take(i as int));
        assert(all.take(i + 1).last() == names@[i as int]@);
        if i > 0 {
            out.append(sep);
        } else {
            assert(out@ =~= Seq::<char>::empty());
        }
        out.append(names[i].as_str());
        i = i + 1;
    }
    assert(all.take(names@.len() as int) =~= all);
    out
}

/// The names of a list of numbered variables.
pub open spec fn spec_item_names(v: Seq<(usize, String)>) -> Seq<Seq<char>> {
    v.map_values(|p: (usize, String)| p.1@)
}

/// Where the resolution of a set of variables stands. The variables are
/// known by their position in the list the resolution started from.
pub struct Resolution {
    /// The names the resolution started from.
    names: Ghost<Seq<Seq<char>>>,
    /// The variables of the current round, in order.
    round: Vec<(usize, String)>,
    /// How many of them have been tried.
    next: usize,
    /// Those tried in this round that could not be resolved yet, in order.
    deferred: Vec<(usize, String)>,
    /// Whether this round resolved any variable.
    progress: bool,
}

/// Each numbered variable carries the name at its position.
pub open spec fn spec_items_match(v: Seq<(usize, String)>, names: Seq<Seq<char>>) -> bool {
    forall|k: int| 0 <= k < v.len() ==> (#[trigger] v[k]).0 < names.len() && names[v[k].0 as int] == v[k].1@
}

impl Resolution {
    /// The names the resolution started from.
    pub closed spec fn start_names(&self) -> Seq<Seq<char>> {
        self.names@
    }

    /// The variables not resolved yet, in the order they are kept.
    pub closed spec fn unresolved(&self) -> Seq<Seq<char>> {
        spec_item_names(self.deferred@) + spec_item_names(self.round@).skip(self.next as int)
    }

    /// No variable is left to try.
    pub closed spec fn is_finished(&self) -> bool {
        self.next >= self.round@.len()
    }

    /// The name of the variable to try next.
    pub closed spec fn current(&self) -> Seq<char> {
        self.round@[self.next as int].1@
    }

    /// How many of the unresolved variables were deferred in this round.
    pub closed spec fn deferred_len(&self) -> int {
        self.deferred@.len() as int
    }

    /// Whether the round under way has resolved a variable.
    pub closed spec fn round_resolved_any(&self) -> bool {
        self.progress
    }

    /// A bound on the number of tries left: each report lowers it.
    pub closed spec fn measure(&self) -> nat {
        (self.round@.len() * self.round@.len() + (self.round@.len() - self.next)) as nat
    }

    /// The state is consistent: the tried and deferred variables are among
    /// the round's, each variable carries the name at its position, and a
    /// round that ends with progress and deferred variables has been
    /// followed by another.
    pub closed spec fn wf(&self) -> bool {
        &&& self.next <= self.round@.len()
        &&& self.deferred@.len() <= self.next
        &&& (self.deferred@.len() < self.next <==> self.progress)
        &&& self.next == self.round@.len() ==> self.deferred@.len() == 0 || !self.progress
        &&& spec_items_match(self.round@, self.names@)
        &&& spec_items_match(self.deferred@, self.names@)
    }

    /// Start resolving the given variables, in order.
    pub fn new(names: &Vec<String>) -> (r: Resolution)
        ensures
            r.wf(),
            r.start_names() == spec_name_texts(names@),
            r.unresolved() == spec_name_texts(names@),
            r.is_finished() <==> names@.len() == 0,
            !r.round_resolved_any(),
    {
        let ghost all = spec_name_texts(names@);
        let mut round: Vec<(usize, String)> = Vec::new();
        let mut i: usize = 0;
        while i < names.len()
            invariant
                all == spec_name_texts(names@),
                i <= names@.len(),
                round@.len() == i,
                forall|k: int| 0 <= k < i ==> (#[trigger] round@[k]).0 == k && round@[k].1@ == all[k],
            decreases names@.len() - i,
        {
            round.push((i, String::from_str(names[i].as_str())));
            i = i + 1;
        }
        let r = Resolution { names: Ghost(all), round, next: 0, deferred: Vec::new(), progress: false };
        assert(r.unresolved() =~= all);
        r
    }

    /// The position of the variable to try next, or none when the
    /// resolution is over.
    pub fn next_variable(&self) -> (r: Option<usize>)
        requires
            self.wf(),
        ensures
            self.is_finished() <==> r is None,
            r matches Some(i) ==> i < self.start_names().len() && self.start_names()[i as int] == self.current()
                && self.unresolved().len() > 0 && self.current() == self.unresolved()[self.deferred_len()],
    {
        if self.next < self.round.len() {
            assert(self.unresolved()[self.deferred@.len() as int] == self.round@[self.next as int].1@);
            assert(spec_items_match(self.round@, self.names@));
            let ghost k = self.next as int;
            assert(self.round@[k].0 < self.names@.len());
            Some(self.round[self.next].0)
        } else {
            None
        }
    }

    /// Report whether the variable just tried was resolved. A resolved one
    /// leaves the unresolved list; one that was not keeps its place. When
    /// the round is over and it resolved something while some variables
    /// wait, the next round starts with those.
    pub fn report(&mut self, resolved: bool)
        requires
            old(self).wf(),
            !old(self).is_finished(),
        ensures
            final(self).wf(),
            final(self).start_names() == old(self).start_names(),
            resolved ==> final(self).unresolved() == old(self).unresolved().remove(old(self).deferred_len()),
            !resolved ==> final(self).unresolved() == old(self).unresolved(),
            final(self).measure() < old(self).measure(),
            final(self).is_finished() && final(self).unresolved().len() > 0 ==> !(resolved
                || old(self).round_resolved_any()),
    {
        let ghost before = self.unresolved();
        let ghost d = self.deferred@.len() as int;
        let ghost rs = spec_item_names(self.round@);
        let ghost old_len = self.round@.len();
        let ghost old_next = self.next;
        let n = self.next;
        let len = self.round.len();
        assert(n < len);
        let item = (self.round[n].0, String::from_str(self.round[n].1.as_str()));
        assert(spec_items_match(self.round@, self.names@));
        assert(self.round@[n as int].0 < self.names@.len());
        if resolved {
            self.progress = true;
        } else {
            self.deferred.push(item);
        }
        self.next = n + 1;
        proof {
            if resolved {
                assert(self.unresolved() =~= before.remove(d));
            } else {
                assert(spec_item_names(self.deferred@) =~= spec_item_names(old(self).deferred@).push(rs[old_next as int]));
                assert(self.unresolved() =~= before);
            }
        }
        if self.next == self.round.len() && self.progress && self.deferred.len() > 0 {
            let ghost u = self.unresolved();
            let mut waiting: Vec<(usize, String)> = Vec::new();
            std::mem::swap(&mut waiting, &mut self.deferred);
            self.round = waiting;
            self.next = 0;
            self.progress = false;
            assert(self.unresolved() =~= u);
            let ghost l = self.round@.len();
            assert(l < old_len);
            assert(l * l + l < old_len * old_len + (old_len - old_next)) by (nonlinear_arith)
                requires
                    l < old_len,
                    old_next < old_len,
            ;
        }
    }

    /// How the resolution ended: every variable resolved, or the variables
    /// left named, in order, as a circular dependency.
    pub fn outcome(&self) -> (r: Result<(), ExprError>)
        requires
            self.wf(),
            self.is_finished(),
        ensures
            self.unresolved().len() == 0 <==> r is Ok,
            self.unresolved().len() > 0 ==> (r matches Err(ExprError::CircularDependency(m)) && m@ == spec_join(
                self.unresolved(),
                ", "@,
            )),
    {
        assert(spec_item_names(self.round@).skip(self.next as int) =~= Seq::<Seq<char>>::empty());
        assert(self.unresolved() =~= spec_item_names(self.deferred@));
        if self.deferred.len() == 0 {
            Ok(())
        } else {
            let mut names: Vec<String> = Vec::new();
            let mut i: usize = 0;
            while i < self.deferred.len()
                invariant
                    i <= self.deferred@.len(),
                    spec_name_texts(names@) == spec_item_names(self.deferred@).take(i as int),
                decreases self.deferred@.len() - i,
            {
                let name = String::from_str(self.deferred[i].1.as_str());
                assert(name@ == spec_item_names(self.deferred@)[i as int]);
                let ghost prev = names@;
                names.push(name);
                assert(names@ == prev.push(name));
                assert(spec_name_texts(names@) =~= spec_name_texts(prev).push(name@));
                assert(spec_item_names(self.deferred@).take(i + 1) =~= spec_item_names(self.deferred@).take(
                    i as int,
                ).push(name@));
                i = i + 1;
            }
            assert(spec_item_names(self.deferred@).take(self.deferred@.len() as int) =~= spec_item_names(self.deferred@));
            Err(ExprError::CircularDependency(join(&names, ", ")))
        }
    }
}

} // verus!
