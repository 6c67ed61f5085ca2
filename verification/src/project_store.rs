//! The projects a standalone backend keeps in memory, by project id: saving
//! stores a project under its id, replacing any earlier one, and loading
//! hands back what was saved last under an id.
use vstd::prelude::*;
use vstd::string::*;

use crate::backend::BackendError;
use crate::shapes::{
    lemma_shape_map_at, lemma_shape_map_keys, lemma_shape_map_push, lemma_shape_map_remove, spec_distinct_names,
    spec_shape_map,
};
use crate::text::str_eq;

verus! {

/// Projects kept in memory, each under its id.
pub struct ProjectStore<P> {
    projects: Vec<(String, P)>,
}

impl<P> ProjectStore<P> {
    /// No id is used twice.
    #[verifier::type_invariant]
    closed spec fn ids_distinct(self) -> bool {
        spec_distinct_names(self.projects@)
    }

    /// The saved projects, by id.
    pub closed spec fn project_map(&self) -> Map<Seq<char>, P> {
        spec_shape_map(self.projects@)
    }

    /// A store holding no project.
    pub fn new() -> (r: Self)
        ensures
            r.project_map() == Map::<Seq<char>, P>::empty(),
    {
        ProjectStore { projects: Vec::new() }
    }

    fn find(&self, id: &str) -> (r: Option<usize>)
        ensures
            match r {
                Some(i) => i < self.projects@.len() && self.projects@[i as int].0@ == id@,
                None => forall|i: int| 0 <= i < self.projects@.len() ==> self.projects@[i].0@ != id@,
            },
    {
        let mut i: usize = 0;
        while i < self.projects.len()
            invariant
                i <= self.projects@.len(),
                forall|k: int| 0 <= k < i ==> self.projects@[k].0@ != id@,
            decreases self.projects@.len() - i,
        {
            if str_eq(self.projects[i].0.as_str(), id) {
                return Some(i);
            }
            i = i + 1;
        }
        None
    }

    /// Save `project` under `id`, replacing what was saved under it before.
    /// Saving always succeeds.
    pub fn save_project(&mut self, id: String, project: P) -> (r: Result<(), BackendError>)
        ensures
            r is Ok,
            final(self).project_map() == old(self).project_map().insert(id@, project),
    {
        proof {
            use_type_invariant(&*self);
            lemma_shape_map_keys(self.projects@, id@);
        }
        let found = self.find(id.as_str());
        let mut entries: Vec<(String, P)> = Vec::new();
        std::mem::swap(&mut entries, &mut self.projects);
        match found {
            Some(i) => {
                proof {
                    lemma_shape_map_remove(entries@, i as int);
                }
                let _ = entries.remove(i);
            },
            None => {},
        }
        let ghost before = entries@;
        let ghost p = (id, project);
        proof {
            lemma_shape_map_keys(before, id@);
            lemma_shape_map_push(before, p);
        }
        entries.push((id, project));
        self.projects = entries;
        assert(self.project_map() =~= old(self).project_map().insert(p.0@, p.1));
        Ok(())
    }

    /// The project saved under `id`; an id never saved is a
    /// project-not-found error naming it.
    pub fn load_project(&self, id: &str) -> (r: Result<&P, BackendError>)
        ensures
            self.project_map().contains_key(id@) ==> (r matches Ok(p) && *p == self.project_map()[id@]),
            !self.project_map().contains_key(id@) ==> (r matches Err(BackendError::ProjectNotFound(m))
                && m@ == id@),
    {
        proof {
            use_type_invariant(self);
            lemma_shape_map_keys(self.projects@, id@);
        }
        match self.find(id) {
            Some(i) => {
                proof {
                    lemma_shape_map_at(self.projects@, i as int);
                }
                Ok(&self.projects[i].1)
            },
            None => Err(BackendError::ProjectNotFound(String::from_str(id))),
        }
    }
}

/// Loading an id right after saving a project under it gives that project
/// back, and saving under one id leaves what other ids load unchanged.
pub proof fn lemma_load_after_save<P>(m: Map<Seq<char>, P>, id: Seq<char>, project: P, other: Seq<char>)
    requires
        other != id,
    ensures
        m.insert(id, project).contains_key(id),
        m.insert(id, project)[id] == project,
        m.insert(id, project).contains_key(other) == m.contains_key(other),
        m.contains_key(other) ==> m.insert(id, project)[other] == m[other],
{
}

} // verus!
