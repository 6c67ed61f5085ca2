//! The bookkeeping of a geometry engine: the named shapes it holds while it
//! replays an operation history, the counter that numbers new objects, the
//! names new objects get, and how the operation commands are grouped. The
//! shapes themselves (boundary representations built by a CAD kernel) are
//! carried through unread.
use vstd::prelude::*;
use vstd::string::*;

use crate::draw_dialog::OperationCommand;
use crate::results::GeometryError;
use crate::text::{spec_decimal, str_eq, to_decimal};

verus! {

/// The names of a list of named shapes, in order.
pub open spec fn spec_names<B>(e: Seq<(String, B)>) -> Seq<Seq<char>> {
    e.map_values(|p: (String, B)| p.0@)
}

/// No name occurs twice.
pub open spec fn spec_distinct_names<B>(e: Seq<(String, B)>) -> bool {
    forall|i: int, j: int| 0 <= i < j < e.len() ==> e[i].0@ != e[j].0@
}

/// The map from names to shapes that a list of named shapes holds.
pub open spec fn spec_shape_map<B>(e: Seq<(String, B)>) -> Map<Seq<char>, B>
    decreases e.len(),
{
    if e.len() == 0 {
        Map::empty()
    } else {
        spec_shape_map(e.drop_last()).insert(e.last().0@, e.last().1)
    }
}

pub(crate) proof fn lemma_shape_map_keys<B>(e: Seq<(String, B)>, k: Seq<char>)
    ensures
        spec_shape_map(e).contains_key(k) <==> exists|i: int| 0 <= i < e.len() && e[i].0@ == k,
    decreases e.len(),
{
    if e.len() > 0 {
        lemma_shape_map_keys(e.drop_last(), k);
        if exists|i: int| 0 <= i < e.len() && e[i].0@ == k {
            let i = choose|i: int| 0 <= i < e.len() && e[i].0@ == k;
            if i < e.len() - 1 {
                assert(e.drop_last()[i].0@ == k);
            }
        }
        if exists|i: int| 0 <= i < e.len() - 1 && e.drop_last()[i].0@ == k {
            let i = choose|i: int| 0 <= i < e.len() - 1 && e.drop_last()[i].0@ == k;
            assert(e[i].0@ == k);
        }
    }
}

pub(crate) proof fn lemma_shape_map_at<B>(e: Seq<(String, B)>, i: int)
    requires
        spec_distinct_names(e),
        0 <= i < e.len(),
    ensures
        spec_shape_map(e).contains_key(e[i].0@),
        spec_shape_map(e)[e[i].0@] == e[i].1,
    decreases e.len(),
{
    if i < e.len() - 1 {
        lemma_shape_map_at(e.drop_last(), i);
        assert(e.drop_last()[i] == e[i]);
    }
}

pub(crate) proof fn lemma_shape_map_remove<B>(e: Seq<(String, B)>, i: int)
    requires
        spec_distinct_names(e),
        0 <= i < e.len(),
    ensures
        spec_shape_map(e.remove(i)) == spec_shape_map(e).remove(e[i].0@),
        spec_distinct_names(e.remove(i)),
    decreases e.len(),
{
    let k = e[i].0@;
    let d = e.drop_last();
    if i == e.len() - 1 {
        assert(e.remove(i) =~= d);
        if spec_shape_map(d).contains_key(k) {
            lemma_shape_map_keys(d, k);
            let j = choose|j: int| 0 <= j < d.len() && d[j].0@ == k;
            assert(e[j].0@ == k);
        }
        assert(spec_shape_map(e.remove(i)) =~= spec_shape_map(e).remove(k));
    } else {
        lemma_shape_map_remove(d, i);
        assert(e.remove(i).drop_last() =~= d.remove(i));
        assert(e.remove(i).last() == e.last());
        assert(e.last().0@ != k);
        assert(spec_shape_map(e.remove(i)) =~= spec_shape_map(e).remove(k));
    }
    assert forall|a: int, b: int| 0 <= a < b < e.remove(i).len() implies e.remove(i)[a].0@ != e.remove(i)[b].0@ by {
        let a0 = if a < i { a } else { a + 1 };
        let b0 = if b < i { b } else { b + 1 };
        assert(e.remove(i)[a] == e[a0]);
        assert(e.remove(i)[b] == e[b0]);
    }
}

pub(crate) proof fn lemma_shape_map_push<B>(e: Seq<(String, B)>, p: (String, B))
    requires
        spec_distinct_names(e),
        !spec_shape_map(e).contains_key(p.0@),
    ensures
        spec_shape_map(e.push(p)) == spec_shape_map(e).insert(p.0@, p.1),
        spec_distinct_names(e.push(p)),
{
    assert(e.push(p).drop_last() =~= e);
    lemma_shape_map_keys(e, p.0@);
    assert forall|a: int, b: int| 0 <= a < b < e.push(p).len() implies e.push(p)[a].0@ != e.push(p)[b].0@ by {
        if b == e.len() {
            assert(e.push(p)[a] == e[a]);
        } else {
            assert(e.push(p)[a] == e[a]);
            assert(e.push(p)[b] == e[b]);
        }
    }
}

/// The named shapes of a geometry engine, and the number the next object
/// is given.
pub struct ShapeTable<B> {
    shapes: Vec<(String, B)>,
    next_id: u64,
}

impl<B> ShapeTable<B> {
    /// The shapes, by name.
    pub closed spec fn shape_map(&self) -> Map<Seq<char>, B> {
        spec_shape_map(self.shapes@)
    }

    /// The number the next object is given.
    pub closed spec fn spec_next_id(&self) -> u64 {
        self.next_id
    }

    /// Each name names one shape.
    pub closed spec fn wf(&self) -> bool {
        spec_distinct_names(self.shapes@)
    }

    /// An empty table; objects are numbered from 1.
    pub fn new() -> (r: Self)
        ensures
            r.wf(),
            r.shape_map() == Map::<Seq<char>, B>::empty(),
            r.spec_next_id() == 1,
    {
        ShapeTable { shapes: Vec::new(), next_id: 1 }
    }

    /// Forget every shape and number objects from 1 again, as a rebuild
    /// does before replaying the history.
    pub fn clear(&mut self)
        ensures
            final(self).wf(),
            final(self).shape_map() == Map::<Seq<char>, B>::empty(),
            final(self).spec_next_id() == 1,
    {
        self.shapes = Vec::new();
        self.next_id = 1;
    }

    /// The number the next object is given.
    pub fn next_id(&self) -> (r: u64)
        ensures
            r == self.spec_next_id(),
    {
        self.next_id
    }

    /// The named shapes, in no particular order.
    pub fn all(&self) -> (r: &Vec<(String, B)>)
        requires
            self.wf(),
        ensures
            spec_shape_map(r@) == self.shape_map(),
            spec_distinct_names(r@),
    {
        &self.shapes
    }

    fn find(&self, name: &str) -> (r: Option<usize>)
        ensures
            match r {
                Some(i) => i < self.shapes@.len() && self.shapes@[i as int].0@ == name@,
                None => forall|i: int| 0 <= i < self.shapes@.len() ==> self.shapes@[i].0@ != name@,
            },
    {
        let mut i: usize = 0;
        while i < self.shapes.len()
            invariant
                i <= self.shapes@.len(),
                forall|k: int| 0 <= k < i ==> self.shapes@[k].0@ != name@,
            decreases self.shapes@.len() - i,
        {
            if str_eq(self.shapes[i].0.as_str(), name) {
                return Some(i);
            }
            i = i + 1;
        }
        None
    }

    /// Whether a shape has this name.
    pub fn contains(&self, name: &str) -> (r: bool)
        ensures
            r == self.shape_map().contains_key(name@),
    {
        let r = self.find(name);
        proof {
            lemma_shape_map_keys(self.shapes@, name@);
        }
        r.is_some()
    }

    /// The shape with this name, if any.
    pub fn get(&self, name: &str) -> (r: Option<&B>)
        requires
            self.wf(),
        ensures
            match r {
                Some(b) => self.shape_map().contains_key(name@) && *b == self.shape_map()[name@],
                None => !self.shape_map().contains_key(name@),
            },
    {
        proof {
            lemma_shape_map_keys(self.shapes@, name@);
        }
        match self.find(name) {
            Some(i) => {
                proof {
                    lemma_shape_map_at(self.shapes@, i as int);
                }
                Some(&self.shapes[i].1)
            },
            None => None,
        }
    }

    /// Remove the shape with this name and hand it over; a missing name is
    /// an object-not-found error and changes nothing.
    pub fn take(&mut self, name: &str) -> (r: Result<B, GeometryError>)
        requires
            old(self).wf(),
        ensures
            final(self).wf(),
            final(self).spec_next_id() == old(self).spec_next_id(),
            old(self).shape_map().contains_key(name@) ==> (r matches Ok(b) && b == old(self).shape_map()[name@]
                && final(self).shape_map() == old(self).shape_map().remove(name@)),
            !old(self).shape_map().contains_key(name@) ==> (r matches Err(GeometryError::ObjectNotFound(n))
                && n@ == name@ && final(self).shape_map() == old(self).shape_map()),
    {
        proof {
            lemma_shape_map_keys(self.shapes@, name@);
        }
        match self.find(name) {
            Some(i) => {
                proof {
                    lemma_shape_map_at(self.shapes@, i as int);
                    lemma_shape_map_remove(self.shapes@, i as int);
                }
                let (_, b) = self.shapes.remove(i);
                Ok(b)
            },
            None => Err(GeometryError::ObjectNotFound(String::from_str(name))),
        }
    }

    /// Store a shape under a name, replacing any shape of that name, and
    /// advance the object counter. Returns the number given to the object.
    pub fn insert(&mut self, name: String, shape: B) -> (r: u64)
        requires
            old(self).wf(),
            old(self).spec_next_id() < u64::MAX,
        ensures
            final(self).wf(),
            r == old(self).spec_next_id(),
            final(self).spec_next_id() == old(self).spec_next_id() + 1,
            final(self).shape_map() == old(self).shape_map().insert(name@, shape),
    {
        proof {
            lemma_shape_map_keys(self.shapes@, name@);
        }
        match self.find(name.as_str()) {
            Some(i) => {
                proof {
                    lemma_shape_map_remove(self.shapes@, i as int);
                }
                let _ = self.shapes.remove(i);
            },
            None => {},
        }
        assert(!spec_shape_map(self.shapes@).contains_key(name@));
        let ghost before = self.shapes@;
        let ghost p = (name, shape);
        proof {
            lemma_shape_map_push(before, p);
        }
        self.shapes.push((name, shape));
        assert(self.shape_map() =~= old(self).shape_map().insert(p.0@, p.1));
        let id = self.next_id;
        self.next_id = self.next_id + 1;
        id
    }

    /// The name of an object an operation makes: the one the operation
    /// gives, or the prefix followed by the number of the next object.
    pub fn result_name(&self, result_object: Option<&str>, prefix: &str) -> (r: String)
        ensures
            r@ == match result_object {
                Some(n) => n@,
                None => prefix@ + spec_decimal(self.spec_next_id() as nat),
            },
    {
        match result_object {
            Some(n) => String::from_str(n),
            None => {
                let mut s = String::from_str(prefix);
                let digits = to_decimal(self.next_id as u128);
                s.append(digits.as_str());
                s
            },
        }
    }
}

impl<B> ShapeTable<B> {
    /// Check that the target of a property command (material, colour,
    /// solve-inside, group) names a shape; a missing one is an
    /// object-not-found error naming it.
    pub fn check_target(&self, target: &str) -> (r: Result<(), GeometryError>)
        ensures
            r is Ok <==> self.shape_map().contains_key(target@),
            r matches Err(e) ==> (e matches GeometryError::ObjectNotFound(n) && n@ == target@),
    {
        if self.contains(target) {
            Ok(())
        } else {
            Err(GeometryError::ObjectNotFound(String::from_str(target)))
        }
    }

    /// Give the shape `old_name` the name `new_name` (a rename command): it
    /// is taken out and stored again, which numbers it as the next object;
    /// returns that number. A missing shape is an object-not-found error
    /// and changes nothing.
    pub fn rename(&mut self, old_name: &str, new_name: String) -> (r: Result<u64, GeometryError>)
        requires
            old(self).wf(),
            old(self).spec_next_id() < u64::MAX,
        ensures
            final(self).wf(),
            old(self).shape_map().contains_key(old_name@) ==> (r == Ok::<u64, GeometryError>(old(self).spec_next_id())
                && final(self).spec_next_id() == old(self).spec_next_id() + 1
                && final(self).shape_map() == old(self).shape_map().remove(old_name@).insert(
                new_name@,
                old(self).shape_map()[old_name@],
            )),
            !old(self).shape_map().contains_key(old_name@) ==> (r matches Err(GeometryError::ObjectNotFound(n))
                && n@ == old_name@ && final(self).shape_map() == old(self).shape_map()
                && final(self).spec_next_id() == old(self).spec_next_id()),
    {
        match self.take(old_name) {
            Ok(shape) => Ok(self.insert(new_name, shape)),
            Err(e) => Err(e),
        }
    }

    /// Take out the target and then the tool of a boolean command, to be
    /// combined and stored under the target's name. A missing target is an
    /// error that changes nothing; a missing tool is an error that leaves
    /// the target taken out.
    pub fn take_pair(&mut self, target: &str, tool: &str) -> (r: Result<(B, B), GeometryError>)
        requires
            old(self).wf(),
        ensures
            final(self).wf(),
            final(self).spec_next_id() == old(self).spec_next_id(),
            !old(self).shape_map().contains_key(target@) ==> (r matches Err(GeometryError::ObjectNotFound(n))
                && n@ == target@ && final(self).shape_map() == old(self).shape_map()),
            old(self).shape_map().contains_key(target@) && !old(self).shape_map().remove(target@).contains_key(
                tool@,
            ) ==> (r matches Err(GeometryError::ObjectNotFound(n)) && n@ == tool@ && final(self).shape_map()
                == old(self).shape_map().remove(target@)),
            old(self).shape_map().contains_key(target@) && old(self).shape_map().remove(target@).contains_key(
                tool@,
            ) ==> (r matches Ok((a, b)) && a == old(self).shape_map()[target@] && b == old(
                self,
            ).shape_map().remove(target@)[tool@] && final(self).shape_map() == old(self).shape_map().remove(
                target@,
            ).remove(tool@)),
    {
        let a = match self.take(target) {
            Ok(a) => a,
            Err(e) => return Err(e),
        };
        match self.take(tool) {
            Ok(b) => Ok((a, b)),
            Err(e) => Err(e),
        }
    }
}

/// The attributes an object is shown with, after the operation's own have
/// been applied.
#[derive(Debug, Clone)]
pub struct SnapshotAttributes {
    pub material: String,
    pub solve_inside: bool,
    pub color: [u8; 3],
    pub group: Option<String>,
}

/// The attributes of an object snapshot: those an operation gives, with
/// `vacuum`, not solved inside, grey `[128, 128, 128]` and no group where
/// it gives none. (Its transparency, a float, defaults to 0 in the caller.)
pub fn snapshot_attributes(
    material: Option<&str>,
    solve_inside: Option<bool>,
    color: Option<[u8; 3]>,
    group: Option<&str>,
) -> (r: SnapshotAttributes)
    ensures
        r.material@ == (match material {
            Some(m) => m@,
            None => "vacuum"@,
        }),
        r.solve_inside == (match solve_inside {
            Some(b) => b,
            None => false,
        }),
        r.color@ == (match color {
            Some(c) => c@,
            None => seq![128u8, 128u8, 128u8],
        }),
        match group {
            Some(g) => r.group matches Some(h) && h@ == g@,
            None => r.group is None,
        },
{
    let m = match material {
        Some(m) => String::from_str(m),
        None => String::from_str("vacuum"),
    };
    let inside = match solve_inside {
        Some(b) => b,
        None => false,
    };
    let rgb: [u8; 3] = match color {
        Some(c) => c,
        None => [128u8, 128u8, 128u8],
    };
    let g = match group {
        Some(g) => Some(String::from_str(g)),
        None => None,
    };
    let r = SnapshotAttributes { material: m, solve_inside: inside, color: rgb, group: g };
    proof {
        if color is None {
            assert(r.color@ =~= seq![128u8, 128u8, 128u8]);
        }
    }
    r
}

/// Taking a shape right after storing it under a name gives that shape
/// back, and leaves the other shapes as they were.
pub proof fn lemma_take_after_insert<B>(m: Map<Seq<char>, B>, name: Seq<char>, shape: B)
    ensures
        m.insert(name, shape).contains_key(name),
        m.insert(name, shape)[name] == shape,
        m.insert(name, shape).remove(name) == m.remove(name),
{
    assert(m.insert(name, shape).remove(name) =~= m.remove(name));
}

// ---------------------------------------------------------------------------
// Commands
// ---------------------------------------------------------------------------

/// What a geometry command does to the engine's shapes.
#[derive(Debug, Clone, Copy, PartialEq, Eq, Structural)]
pub enum CommandGroup {
    /// Builds a new shape from parameters.
    Primitive,
    /// Combines a target and a tool into the target.
    Boolean,
    /// Moves, turns, scales or mirrors a target in place.
    Transform,
    /// Changes only the attributes of an existing object.
    Property,
    /// Gives a shape another name.
    Rename,
    /// Builds a new shape by sweeping a profile.
    Sweep,
    /// Reads a shape from a STEP file.
    Import,
    /// Not supported yet.
    NotImplemented,
}

/// The group of a command.
pub open spec fn spec_command_group(c: OperationCommand) -> CommandGroup {
    match c {
        OperationCommand::CreateBox | OperationCommand::CreateCylinder | OperationCommand::CreateSphere
        | OperationCommand::CreateCone | OperationCommand::CreateTorus => CommandGroup::Primitive,
        OperationCommand::Unite | OperationCommand::Subtract | OperationCommand::Intersect => CommandGroup::Boolean,
        OperationCommand::Move | OperationCommand::Rotate | OperationCommand::Scale | OperationCommand::Mirror => {
            CommandGroup::Transform
        },
        OperationCommand::SetMaterial | OperationCommand::SetColor | OperationCommand::SetSolveInside
        | OperationCommand::SetGroup => CommandGroup::Property,
        OperationCommand::Rename => CommandGroup::Rename,
        OperationCommand::SweepAlongVector | OperationCommand::SweepAroundAxis | OperationCommand::SweepAlongPath => {
            CommandGroup::Sweep
        },
        OperationCommand::Import => CommandGroup::Import,
        OperationCommand::CreatePolyline | OperationCommand::CreateRectangle | OperationCommand::CreateCircle
        | OperationCommand::DuplicateAlongLine | OperationCommand::DuplicateAroundAxis | OperationCommand::Fillet
        | OperationCommand::Chamfer | OperationCommand::Section => CommandGroup::NotImplemented,
    }
}

/// The prefix of the names of objects a command makes when the operation
/// names none; commands that keep their target's name have none.
pub open spec fn spec_name_prefix(c: OperationCommand) -> Option<Seq<char>> {
    match c {
        OperationCommand::CreateBox => Some("Box"@),
        OperationCommand::CreateCylinder => Some("Cylinder"@),
        OperationCommand::CreateSphere => Some("Sphere"@),
        OperationCommand::CreateCone => Some("Cone"@),
        OperationCommand::CreateTorus => Some("Torus"@),
        OperationCommand::SweepAlongVector => Some("Extrude"@),
        OperationCommand::SweepAroundAxis => Some("Revolve"@),
        OperationCommand::SweepAlongPath => Some("Sweep"@),
        OperationCommand::Import => Some("Import"@),
        _ => None,
    }
}

impl OperationCommand {
    /// What the command does to the engine's shapes.
    pub fn group(&self) -> (r: CommandGroup)
        ensures
            r == spec_command_group(*self),
    {
        match self {
            OperationCommand::CreateBox | OperationCommand::CreateCylinder | OperationCommand::CreateSphere
            | OperationCommand::CreateCone | OperationCommand::CreateTorus => CommandGroup::Primitive,
            OperationCommand::Unite | OperationCommand::Subtract | OperationCommand::Intersect => CommandGroup::Boolean,
            OperationCommand::Move | OperationCommand::Rotate | OperationCommand::Scale | OperationCommand::Mirror => {
                CommandGroup::Transform
            },
            OperationCommand::SetMaterial | OperationCommand::SetColor | OperationCommand::SetSolveInside
            | OperationCommand::SetGroup => CommandGroup::Property,
            OperationCommand::Rename => CommandGroup::Rename,
            OperationCommand::SweepAlongVector | OperationCommand::SweepAroundAxis
            | OperationCommand::SweepAlongPath => CommandGroup::Sweep,
            OperationCommand::Import => CommandGroup::Import,
            OperationCommand::CreatePolyline | OperationCommand::CreateRectangle | OperationCommand::CreateCircle
            | OperationCommand::DuplicateAlongLine | OperationCommand::DuplicateAroundAxis
            | OperationCommand::Fillet | OperationCommand::Chamfer | OperationCommand::Section => {
                CommandGroup::NotImplemented
            },
        }
    }

    /// The prefix of the names of objects the command makes, if it makes
    /// new ones.
    pub fn name_prefix(&self) -> (r: Option<&'static str>)
        ensures
            match r {
                Some(p) => spec_name_prefix(*self) == Some(p@),
                None => spec_name_prefix(*self) is None,
            },
    {
        match self {
            OperationCommand::CreateBox => Some("Box"),
            OperationCommand::CreateCylinder => Some("Cylinder"),
            OperationCommand::CreateSphere => Some("Sphere"),
            OperationCommand::CreateCone => Some("Cone"),
            OperationCommand::CreateTorus => Some("Torus"),
            OperationCommand::SweepAlongVector => Some("Extrude"),
            OperationCommand::SweepAroundAxis => Some("Revolve"),
            OperationCommand::SweepAlongPath => Some("Sweep"),
            OperationCommand::Import => Some("Import"),
            _ => None,
        }
    }
}

} // verus!
