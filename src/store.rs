//! File layout of the output root and the write guard that keeps any artifact
//! from being written twice.
use vstd::prelude::*;
use vstd::string::*;
use crate::error::GenError;
use crate::metadata::{module_name_spec, Module};

verus! {

/// The two byte-stable encodings of an artifact.
#[derive(Debug, Clone, Copy, PartialEq, Eq, Structural)]
pub enum Encoding {
    /// Self-describing structured encoding.
    Cbor,
    /// Fixed-width binary encoding.
    Bincode,
}

pub open spec fn extension(e: Encoding) -> Seq<char> {
    match e {
        Encoding::Cbor => "cbor"@,
        Encoding::Bincode => "bcode"@,
    }
}

pub open spec fn join_spec(base: Seq<char>, name: Seq<char>) -> Seq<char> {
    base + "/"@ + name
}

/// `<dir>/<stem>.<ext>`
pub open spec fn file_path(dir: Seq<char>, stem: Seq<char>, e: Encoding) -> Seq<char> {
    join_spec(dir, stem + "."@ + extension(e))
}

/// `<root>/<version>/<module>`
pub open spec fn module_dir_spec(root: Seq<char>, version: Seq<char>, m: Module) -> Seq<char> {
    join_spec(join_spec(root, version), module_name_spec(m))
}

/// `<root>/<module>.ron`
pub open spec fn manifest_path_spec(root: Seq<char>, m: Module) -> Seq<char> {
    join_spec(root, module_name_spec(m) + ".ron"@)
}

/// Appends a path component.
pub fn join(base: &String, name: &str) -> (r: String)
    ensures
        r@ == join_spec(base@, name@),
{
    base.clone().concat("/").concat(name)
}

/// The file an artifact is written to in one encoding.
pub fn artifact_path(dir: &String, stem: &String, e: Encoding) -> (r: String)
    ensures
        r@ == file_path(dir@, stem@, e),
{
    let name = match e {
        Encoding::Cbor => stem.clone().concat(".cbor"),
        Encoding::Bincode => stem.clone().concat(".bcode"),
    };
    proof {
        reveal_strlit(".cbor");
        reveal_strlit(".bcode");
        reveal_strlit(".");
        reveal_strlit("cbor");
        reveal_strlit("bcode");
        assert(name@ =~= stem@ + "."@ + extension(e));
    }
    join(dir, name.as_str())
}

/// The directory that holds a release's artifacts of one module.
pub fn module_dir(root: &String, version: &String, m: Module) -> (r: String)
    ensures
        r@ == module_dir_spec(root@, version@, m),
{
    let v = join(root, version.as_str());
    let name = m.name();
    join(&v, name.as_str())
}

/// The file that holds the manifest of one module.
pub fn manifest_path(root: &String, m: Module) -> (r: String)
    ensures
        r@ == manifest_path_spec(root@, m),
{
    let name = m.name().concat(".ron");
    join(root, name.as_str())
}

/// What storing an artifact under `stem` in `dir`, in both encodings, does to
/// the set of written paths: it refuses if either target is present.
pub open spec fn store_versioned_spec(paths: Seq<Seq<char>>, dir: Seq<char>, stem: Seq<char>) -> Result<
    Seq<Seq<char>>,
    GenError,
> {
    let c = file_path(dir, stem, Encoding::Cbor);
    let b = file_path(dir, stem, Encoding::Bincode);
    if paths.contains(c) || paths.contains(b) {
        Err(GenError::DuplicateArtifact)
    } else {
        Ok(paths.push(c).push(b))
    }
}

/// The same for an auxiliary object, stored in the structured encoding only.
pub open spec fn store_auxiliary_spec(paths: Seq<Seq<char>>, dir: Seq<char>, stem: Seq<char>) -> Result<
    Seq<Seq<char>>,
    GenError,
> {
    let c = file_path(dir, stem, Encoding::Cbor);
    if paths.contains(c) {
        Err(GenError::DuplicateArtifact)
    } else {
        Ok(paths.push(c))
    }
}

/// How an object is written: a primary artifact in both encodings, or an
/// auxiliary object in the structured encoding only.
#[derive(Debug, Clone, Copy, PartialEq, Eq, Structural)]
pub enum WriteKind {
    Versioned,
    Auxiliary,
}

/// One write of a plan: the stem of the object and how it is written.
#[derive(Debug, Clone)]
pub struct PlannedWrite {
    pub stem: String,
    pub kind: WriteKind,
}

impl View for PlannedWrite {
    type V = (Seq<char>, WriteKind);

    open spec fn view(&self) -> (Seq<char>, WriteKind) {
        (self.stem@, self.kind)
    }
}

pub open spec fn plan_view(plan: Seq<PlannedWrite>) -> Seq<(Seq<char>, WriteKind)> {
    plan.map_values(|w: PlannedWrite| w@)
}

/// What one planned write does to the set of written paths.
pub open spec fn store_write_spec(paths: Seq<Seq<char>>, dir: Seq<char>, w: (Seq<char>, WriteKind)) -> Result<
    Seq<Seq<char>>,
    GenError,
> {
    match w.1 {
        WriteKind::Versioned => store_versioned_spec(paths, dir, w.0),
        WriteKind::Auxiliary => store_auxiliary_spec(paths, dir, w.0),
    }
}

/// Carrying out the writes of `plan` in `dir`, in order, stopping at the first refusal.
pub open spec fn store_plan_spec(paths: Seq<Seq<char>>, dir: Seq<char>, plan: Seq<(Seq<char>, WriteKind)>) -> Result<
    Seq<Seq<char>>,
    GenError,
>
    decreases plan.len(),
{
    if plan.len() == 0 {
        Ok(paths)
    } else {
        match store_plan_spec(paths, dir, plan.drop_last()) {
            Err(e) => Err(e),
            Ok(p) => store_write_spec(p, dir, plan.last()),
        }
    }
}

/// The files reserved for planned write `w` in `dir`: the structured file, and
/// the fixed-width one for a primary artifact.
pub open spec fn reserved_files(files: (String, Option<String>), dir: Seq<char>, w: (Seq<char>, WriteKind)) -> bool {
    &&& files.0@ == file_path(dir, w.0, Encoding::Cbor)
    &&& match w.1 {
        WriteKind::Versioned => files.1 matches Some(b) && b@ == file_path(dir, w.0, Encoding::Bincode),
        WriteKind::Auxiliary => files.1.is_none(),
    }
}

/// The paths written so far under the output root, each one at most once.
pub struct OutputTree {
    files: Vec<String>,
}

impl OutputTree {
    pub closed spec fn paths(&self) -> Seq<Seq<char>> {
        self.files@.map_values(|s: String| s@)
    }

    /// An empty tree, as after the output root was cleared.
    pub fn new() -> (r: OutputTree)
        ensures
            r.paths() == Seq::<Seq<char>>::empty(),
    {
        let r = OutputTree { files: Vec::new() };
        proof {
            assert(r.paths() =~= Seq::<Seq<char>>::empty());
        }
        r
    }

    /// Whether `p` was written.
    pub fn contains(&self, p: &String) -> (r: bool)
        ensures
            r == self.paths().contains(p@),
    {
        let n = self.files.len();
        let mut i: usize = 0;
        while i < n
            invariant
                n == self.files@.len(),
                i <= n,
                forall|k: int| 0 <= k < i ==> self.paths()[k] != p@,
            decreases n - i,
        {
            if self.files[i] == *p {
                proof {
                    assert(self.paths()[i as int] == p@);
                }
                return true;
            }
            i = i + 1;
        }
        false
    }

    fn record(&mut self, p: String)
        ensures
            final(self).paths() == old(self).paths().push(p@),
    {
        let ghost before = self.paths();
        self.files.push(p);
        proof {
            assert(self.paths() =~= before.push(p@));
        }
    }

    /// Reserves `<dir>/<stem>.cbor` and `<dir>/<stem>.bcode` and returns them,
    /// or refuses with `DuplicateArtifact`, leaving the tree as it was, if either
    /// is already present.
    pub fn store_versioned(&mut self, dir: &String, stem: &String) -> (r: Result<(String, String), GenError>)
        ensures
            match store_versioned_spec(old(self).paths(), dir@, stem@) {
                Ok(p) => r matches Ok(files) && final(self).paths() == p && files.0@ == file_path(
                    dir@,
                    stem@,
                    Encoding::Cbor,
                ) && files.1@ == file_path(dir@, stem@, Encoding::Bincode),
                Err(e) => r == Err::<(String, String), GenError>(e) && final(self).paths() == old(self).paths(),
            },
    {
        let c = artifact_path(dir, stem, Encoding::Cbor);
        let b = artifact_path(dir, stem, Encoding::Bincode);
        if self.contains(&c) || self.contains(&b) {
            return Err(GenError::DuplicateArtifact);
        }
        self.record(c.clone());
        self.record(b.clone());
        Ok((c, b))
    }

    /// Reserves `<dir>/<stem>.cbor` for an auxiliary object and returns it, or
    /// refuses with `DuplicateArtifact` if it is already present.
    pub fn store_auxiliary(&mut self, dir: &String, stem: &String) -> (r: Result<String, GenError>)
        ensures
            match store_auxiliary_spec(old(self).paths(), dir@, stem@) {
                Ok(p) => r matches Ok(file) && final(self).paths() == p && file@ == file_path(
                    dir@,
                    stem@,
                    Encoding::Cbor,
                ),
                Err(e) => r == Err::<String, GenError>(e) && final(self).paths() == old(self).paths(),
            },
    {
        let c = artifact_path(dir, stem, Encoding::Cbor);
        if self.contains(&c) {
            return Err(GenError::DuplicateArtifact);
        }
        self.record(c.clone());
        Ok(c)
    }

    /// Reserves the files of every write of `plan` in `dir`, in order, and
    /// returns them; stops at the first refusal.
    pub fn store_plan(&mut self, dir: &String, plan: &Vec<PlannedWrite>) -> (r: Result<
        Vec<(String, Option<String>)>,
        GenError,
    >)
        ensures
            match store_plan_spec(old(self).paths(), dir@, plan_view(plan@)) {
                Ok(p) => r matches Ok(files) && final(self).paths() == p && files@.len() == plan@.len()
                    && forall|i: int|
                    0 <= i < plan@.len() ==> reserved_files(#[trigger] files@[i], dir@, plan@[i]@),
                Err(e) => r == Err::<Vec<(String, Option<String>)>, GenError>(e),
            },
    {
        let ghost start = self.paths();
        let ghost pv = plan_view(plan@);
        let mut files: Vec<(String, Option<String>)> = Vec::new();
        let n = plan.len();
        let mut i: usize = 0;
        while i < n
            invariant
                n == plan@.len(),
                pv == plan_view(plan@),
                i <= n,
                start == old(self).paths(),
                store_plan_spec(start, dir@, pv.subrange(0, i as int)) == Ok::<Seq<Seq<char>>, GenError>(
                    self.paths(),
                ),
                files@.len() == i,
                forall|k: int| 0 <= k < i ==> reserved_files(#[trigger] files@[k], dir@, plan@[k]@),
            decreases n - i,
        {
            proof {
                assert(pv.subrange(0, i + 1).drop_last() =~= pv.subrange(0, i as int));
                assert(pv.subrange(0, i + 1).last() == plan@[i as int]@);
            }
            let w = &plan[i];
            let res = match w.kind {
                WriteKind::Versioned => match self.store_versioned(dir, &w.stem) {
                    Ok((c, b)) => Ok((c, Some(b))),
                    Err(e) => Err(e),
                },
                WriteKind::Auxiliary => match self.store_auxiliary(dir, &w.stem) {
                    Ok(c) => Ok((c, None)),
                    Err(e) => Err(e),
                },
            };
            match res {
                Ok(pair) => files.push(pair),
                Err(e) => {
                    proof {
                        lemma_store_plan_stops(start, dir@, pv, i as int);
                    }
                    return Err(e);
                },
            }
            i = i + 1;
        }
        proof {
            assert(pv.subrange(0, n as int) =~= pv);
        }
        Ok(files)
    }
}

proof fn lemma_store_plan_stops(paths: Seq<Seq<char>>, dir: Seq<char>, plan: Seq<(Seq<char>, WriteKind)>, i: int)
    requires
        0 <= i < plan.len(),
        store_plan_spec(paths, dir, plan.subrange(0, i + 1)) is Err,
    ensures
        store_plan_spec(paths, dir, plan) == store_plan_spec(paths, dir, plan.subrange(0, i + 1)),
    decreases plan.len() - i,
{
    if i + 1 < plan.len() {
        assert(plan.subrange(0, i + 2).drop_last() =~= plan.subrange(0, i + 1));
        lemma_store_plan_stops(paths, dir, plan, i + 1);
    } else {
        assert(plan.subrange(0, i + 1) =~= plan);
    }
}

/// Carrying out a plan only adds paths, among them the structured file of each
/// of its writes.
pub proof fn lemma_store_plan_grows(paths: Seq<Seq<char>>, dir: Seq<char>, plan: Seq<(Seq<char>, WriteKind)>)
    requires
        store_plan_spec(paths, dir, plan) is Ok,
    ensures
        forall|p: Seq<char>| paths.contains(p) ==> store_plan_spec(paths, dir, plan)->Ok_0.contains(p),
        forall|i: int|
            0 <= i < plan.len() ==> store_plan_spec(paths, dir, plan)->Ok_0.contains(
                file_path(dir, (#[trigger] plan[i]).0, Encoding::Cbor),
            ),
    decreases plan.len(),
{
    if plan.len() > 0 {
        lemma_store_plan_grows(paths, dir, plan.drop_last());
        let p = store_plan_spec(paths, dir, plan.drop_last())->Ok_0;
        let c = file_path(dir, plan.last().0, Encoding::Cbor);
        let q = store_plan_spec(paths, dir, plan)->Ok_0;
        assert(q[p.len() as int] == c);
        assert forall|x: Seq<char>| p.contains(x) implies q.contains(x) by {
            let k = choose|k: int| 0 <= k < p.len() && p[k] == x;
            assert(q[k] == x);
        }
        assert forall|i: int| 0 <= i < plan.len() implies q.contains(
            file_path(dir, (#[trigger] plan[i]).0, Encoding::Cbor),
        ) by {
            if i < plan.len() - 1 {
                assert(plan.drop_last()[i] == plan[i]);
            }
        }
    }
}

/// A write never replaces an earlier one: storing the same artifact again, in
/// the same directory, is refused.
pub proof fn lemma_store_twice_fails(paths: Seq<Seq<char>>, dir: Seq<char>, stem: Seq<char>)
    requires
        store_versioned_spec(paths, dir, stem) is Ok,
    ensures
        store_versioned_spec(store_versioned_spec(paths, dir, stem)->Ok_0, dir, stem) == Err::<
            Seq<Seq<char>>,
            GenError,
        >(GenError::DuplicateArtifact),
{
    let c = file_path(dir, stem, Encoding::Cbor);
    let q = store_versioned_spec(paths, dir, stem)->Ok_0;
    assert(q[paths.len() as int] == c);
}

/// A plan whose first write targets a structured file already present is
/// refused at once.
pub proof fn lemma_first_write_refused(paths: Seq<Seq<char>>, dir: Seq<char>, plan: Seq<(Seq<char>, WriteKind)>)
    requires
        plan.len() > 0,
        paths.contains(file_path(dir, plan[0].0, Encoding::Cbor)),
    ensures
        store_plan_spec(paths, dir, plan) == Err::<Seq<Seq<char>>, GenError>(GenError::DuplicateArtifact),
{
    let first = plan.subrange(0, 1);
    assert(first.drop_last() =~= Seq::<(Seq<char>, WriteKind)>::empty());
    assert(first.last() == plan[0]);
    assert(store_plan_spec(paths, dir, first.drop_last()) == Ok::<Seq<Seq<char>>, GenError>(paths));
    assert(store_plan_spec(paths, dir, first) == Err::<Seq<Seq<char>>, GenError>(GenError::DuplicateArtifact));
    lemma_store_plan_stops(paths, dir, plan, 0);
}

/// Carrying out a write plan a second time, without clearing the output root in
/// between, is refused with `DuplicateArtifact`, whether its first write is a
/// primary artifact or an auxiliary one.
pub proof fn lemma_second_pass_fails(paths: Seq<Seq<char>>, dir: Seq<char>, plan: Seq<(Seq<char>, WriteKind)>)
    requires
        plan.len() > 0,
        store_plan_spec(paths, dir, plan) is Ok,
    ensures
        store_plan_spec(store_plan_spec(paths, dir, plan)->Ok_0, dir, plan) == Err::<
            Seq<Seq<char>>,
            GenError,
        >(GenError::DuplicateArtifact),
{
    lemma_store_plan_grows(paths, dir, plan);
    lemma_first_write_refused(store_plan_spec(paths, dir, plan)->Ok_0, dir, plan);
}

} // verus!
