//! Materials: a shader program and a table of named parameters.

use vstd::prelude::*;
use vstd::string::*;
use crate::math::{Scalar, Matrix4f};

verus! {

/// A compiled and linked GPU program, known by its handle. Two materials use
/// the same program exactly when their handles are equal.
#[derive(Clone, Copy, PartialEq, Eq, Structural, Debug)]
pub struct ShaderProgram {
    pub id: u64,
}

/// A texture that lives on the GPU, known by its handle.
#[derive(Clone, Copy, PartialEq, Eq, Structural, Debug)]
pub struct Texture {
    pub id: u64,
}

/// The value of one material parameter.
#[derive(Clone, Copy, PartialEq, Eq, Structural, Debug)]
pub enum MaterialParam {
    Texture(Texture),
    Float(Scalar),
    Matrix(Matrix4f),
}

/// One row of a material's parameter table.
#[derive(Debug)]
pub struct Param {
    pub name: String,
    pub value: MaterialParam,
}

impl View for Param {
    type V = (Seq<char>, MaterialParam);

    open spec fn view(&self) -> (Seq<char>, MaterialParam) {
        (self.name@, self.value)
    }
}

impl Clone for Param {
    fn clone(&self) -> (r: Param)
        ensures
            r == *self,
    {
        Param { name: self.name.clone(), value: self.value }
    }
}

/// What a material is: its program and its rows, in table order.
pub struct MaterialView {
    pub program: ShaderProgram,
    pub params: Seq<(Seq<char>, MaterialParam)>,
}

impl MaterialView {
    /// No name occurs in two rows.
    pub open spec fn names_unique(self) -> bool {
        forall|i: int, j: int|
            0 <= i < j < self.params.len() ==> self.params[i].0 != self.params[j].0
    }

    /// The row that holds `name`, if there is one.
    pub open spec fn position(self, name: Seq<char>) -> Option<int> {
        if exists|i: int| 0 <= i < self.params.len() && self.params[i].0 == name {
            Some(choose|i: int| 0 <= i < self.params.len() && self.params[i].0 == name)
        } else {
            None
        }
    }

    /// The value stored under `name`, if there is one.
    pub open spec fn get(self, name: Seq<char>) -> Option<MaterialParam> {
        match self.position(name) {
            Some(i) => Some(self.params[i].1),
            None => None,
        }
    }

    /// The material with `value` stored under `name`: in the row that holds
    /// `name` where there is one, else in a new last row.
    pub open spec fn set(self, name: Seq<char>, value: MaterialParam) -> MaterialView {
        match self.position(name) {
            Some(i) => MaterialView {
                program: self.program,
                params: self.params.update(i, (name, value)),
            },
            None => MaterialView {
                program: self.program,
                params: self.params.push((name, value)),
            },
        }
    }

    /// A row that holds `name` is the row that `position` gives.
    pub proof fn lemma_position_is(self, name: Seq<char>, i: int)
        requires
            self.names_unique(),
            0 <= i < self.params.len(),
            self.params[i].0 == name,
        ensures
            self.position(name) == Some(i),
    {
        let j = choose|j: int| 0 <= j < self.params.len() && self.params[j].0 == name;
        if i < j {
            assert(self.params[i].0 != self.params[j].0);
        } else if j < i {
            assert(self.params[j].0 != self.params[i].0);
        }
    }

    /// Storing a value keeps the names apart.
    pub proof fn lemma_set_keeps_names_unique(self, name: Seq<char>, value: MaterialParam)
        requires
            self.names_unique(),
        ensures
            self.set(name, value).names_unique(),
    {
        let after = self.set(name, value);
        assert forall|i: int, j: int| 0 <= i < j < after.params.len() implies after.params[i].0
            != after.params[j].0 by {
            if self.position(name) is Some {
                assert(after.params[i].0 == self.params[i].0);
                assert(after.params[j].0 == self.params[j].0);
            } else if j < self.params.len() {
                assert(after.params[i].0 == self.params[i].0);
                assert(after.params[j].0 == self.params[j].0);
            } else {
                assert(after.params[i].0 == self.params[i].0);
                assert(after.params[j].0 == name);
            }
        }
    }

    /// What is stored under a name is what `get` gives for it, and storing
    /// under one name changes the value under no other.
    pub proof fn lemma_get_after_set(
        self,
        name: Seq<char>,
        value: MaterialParam,
        other: Seq<char>,
    )
        requires
            self.names_unique(),
        ensures
            self.set(name, value).get(name) == Some(value),
            other != name ==> self.set(name, value).get(other) == self.get(other),
    {
        let after = self.set(name, value);
        self.lemma_set_keeps_names_unique(name, value);
        let at: int = match self.position(name) {
            Some(i) => i,
            None => self.params.len() as int,
        };
        assert(after.params[at] == (name, value));
        after.lemma_position_is(name, at);
        if other != name {
            if self.position(other) is Some {
                let k = self.position(other).unwrap();
                assert(after.params[k] == self.params[k]);
                after.lemma_position_is(other, k);
            } else if after.position(other) is Some {
                let k = after.position(other).unwrap();
                assert(k != at);
                assert(self.params[k].0 == other);
            }
        }
    }

    /// Storing the same value under the same name twice is storing it once.
    pub proof fn lemma_set_twice(self, name: Seq<char>, value: MaterialParam)
        requires
            self.names_unique(),
        ensures
            self.set(name, value).set(name, value) == self.set(name, value),
    {
        let once = self.set(name, value);
        self.lemma_set_keeps_names_unique(name, value);
        let at: int = match self.position(name) {
            Some(i) => i,
            None => self.params.len() as int,
        };
        assert(once.params[at] == (name, value));
        once.lemma_position_is(name, at);
        assert(once.set(name, value).params =~= once.params);
    }

    /// The material that results from storing the first `n` of `rows`, in order.
    pub open spec fn set_all(
        self,
        rows: Seq<(Seq<char>, MaterialParam)>,
        n: nat,
    ) -> MaterialView
        decreases n,
    {
        if n == 0 {
            self
        } else {
            self.set_all(rows, (n - 1) as nat).set(rows[n - 1].0, rows[n - 1].1)
        }
    }
}

/// The rows of a table as plain values.
pub open spec fn rows_view(rows: Seq<Param>) -> Seq<(Seq<char>, MaterialParam)> {
    Seq::new(rows.len(), |i: int| rows[i]@)
}

/// A shader program together with the parameters it is drawn with. Every name
/// occurs in at most one row, and rows keep the order in which their names
/// were first stored.
#[derive(Debug)]
pub struct Material {
    program: ShaderProgram,
    params: Vec<Param>,
}

impl View for Material {
    type V = MaterialView;

    closed spec fn view(&self) -> MaterialView {
        MaterialView { program: self.program, params: rows_view(self.params@) }
    }
}

impl Clone for Material {
    fn clone(&self) -> (r: Material)
        ensures
            r@ == self@,
    {
        proof {
            use_type_invariant(self);
        }
        let params = self.params.clone();
        Material { program: self.program, params }
    }
}

impl Material {
    #[verifier::type_invariant]
    spec fn inv(self) -> bool {
        self@.names_unique()
    }

    /// The material of `program` that results from storing `rows` one by
    /// one, in order: of two rows with one name, the first gives the place
    /// and the last gives the value.
    pub fn new(program: ShaderProgram, rows: Vec<Param>) -> (r: Material)
        ensures
            r@ == (MaterialView { program, params: Seq::empty() }).set_all(
                rows_view(rows@),
                rows@.len(),
            ),
    {
        let mut r = Material::with_program(program);
        let ghost start = r@;
        let mut i: usize = 0;
        while i < rows.len()
            invariant
                i <= rows.len(),
                start == (MaterialView { program, params: Seq::empty() }),
                r@ == start.set_all(rows_view(rows@), i as nat),
            decreases rows.len() - i,
        {
            let row = &rows[i];
            r.set(row.name.as_str(), row.value);
            i += 1;
        }
        r
    }

    /// A material of `program` without parameters.
    pub fn with_program(program: ShaderProgram) -> (r: Material)
        ensures
            r@.program == program,
            r@.params == Seq::<(Seq<char>, MaterialParam)>::empty(),
    {
        Material { program, params: Vec::new() }
    }

    /// The program this material is drawn with.
    pub fn program(&self) -> (r: ShaderProgram)
        ensures
            r == self@.program,
    {
        self.program
    }

    /// The number of rows. No name occurs in two of them.
    pub fn len(&self) -> (r: usize)
        ensures
            r == self@.params.len(),
            self@.names_unique(),
    {
        proof {
            use_type_invariant(self);
        }
        self.params.len()
    }

    /// The row at `index`.
    pub fn param(&self, index: usize) -> (r: &Param)
        requires
            index < self@.params.len(),
        ensures
            r@ == self@.params[index as int],
    {
        &self.params[index]
    }

    /// The row that holds `name`, if there is one.
    pub fn find(&self, name: &str) -> (r: Option<usize>)
        ensures
            r is Some <==> self@.position(name@) is Some,
            r is Some ==> Some(r.unwrap() as int) == self@.position(name@),
    {
        proof {
            use_type_invariant(self);
        }
        let key = String::from_str(name);
        let mut i: usize = 0;
        while i < self.params.len()
            invariant
                i <= self.params.len(),
                key@ == name@,
                self@.names_unique(),
                forall|k: int| 0 <= k < i ==> self@.params[k].0 != name@,
            decreases self.params.len() - i,
        {
            if self.params[i].name == key {
                assert(self@.params[i as int].0 == name@);
                return Some(i);
            }
            i += 1;
        }
        None
    }

    /// The value stored under `name`, if there is one.
    pub fn get(&self, name: &str) -> (r: Option<MaterialParam>)
        ensures
            r == self@.get(name@),
    {
        match self.find(name) {
            Some(i) => Some(self.params[i].value),
            None => None,
        }
    }

    /// Stores `value` under `name`. A name that is already in the table keeps
    /// its row; a new name gets a new last row.
    pub fn set(&mut self, name: &str, value: MaterialParam)
        ensures
            final(self)@ == old(self)@.set(name@, value),
    {
        proof {
            use_type_invariant(&*self);
        }
        let found = self.find(name);
        let row = Param { name: String::from_str(name), value };
        let mut params: Vec<Param> = Vec::new();
        std::mem::swap(&mut params, &mut self.params);
        match found {
            Some(i) => {
                params.set(i, row);
                assert(rows_view(params@) =~= old(self)@.params.update(
                    i as int,
                    (name@, value),
                ));
            },
            None => {
                params.push(row);
                assert(rows_view(params@) =~= old(self)@.params.push((name@, value)));
            },
        }
        self.params = params;
    }
}

} // verus!
