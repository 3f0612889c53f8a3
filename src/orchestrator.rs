//! Runs the release adapters in their declared order, tags every descriptor with
//! its release and module, and splits the result into one manifest per module.
use vstd::prelude::*;
use crate::adapters::{
    describes, hl_stems, hl_table, lemma_stems_distinct, pairwise_distinct, shortint_stems, shortint_table,
    version_spec, TfhersVersion, V0_11, V0_6, V0_7, V0_8, V1_0,
};
use crate::error::GenError;
use crate::metadata::{stem, view_stem, Module, TestMetadata, TestMetadataView, Testcase};
use crate::params::Release;
use crate::plan::{desc_stems, write_plan, write_plan_spec};
use crate::store::{
    lemma_first_write_refused, lemma_store_plan_grows, module_dir, module_dir_spec, plan_view, reserved_files,
    store_plan_spec, Encoding, file_path, OutputTree, WriteKind,
};

verus! {

/// What a manifest records of one testcase: its version, its module and its
/// whole descriptor.
pub type CaseKey = (Seq<char>, Module, TestMetadataView);

pub open spec fn case_key(c: Testcase) -> CaseKey {
    (c.tfhe_version_min@, c.tfhe_module, c.metadata@)
}

pub open spec fn keys(s: Seq<Testcase>) -> Seq<CaseKey> {
    s.map_values(|c: Testcase| case_key(c))
}

/// `cases` holds the descriptors `descs`, in order, each tagged with `version` and `module`.
pub open spec fn tagged(cases: Seq<Testcase>, version: Seq<char>, module: Module, descs: Seq<TestMetadata>) -> bool {
    &&& cases.len() == descs.len()
    &&& forall|i: int|
        0 <= i < cases.len() ==> (#[trigger] cases[i]).tfhe_version_min@ == version && cases[i].tfhe_module
            == module && cases[i].metadata == descs[i]
}

pub open spec fn table_of(r: Release, m: Module) -> Seq<TestMetadataView> {
    match m {
        Module::Shortint => shortint_table(r),
        Module::HighLevelApi => hl_table(r),
    }
}

pub open spec fn stems_of(r: Release, m: Module) -> Seq<Seq<char>> {
    match m {
        Module::Shortint => shortint_stems(r),
        Module::HighLevelApi => hl_stems(r),
    }
}

/// The manifest entries that release `r` contributes to module `m`.
pub open spec fn module_keys(r: Release, m: Module) -> Seq<CaseKey> {
    Seq::new(table_of(r, m).len(), |i: int| (version_spec(r), m, table_of(r, m)[i]))
}

/// The entries of one release: its basic module first, then its high-level module.
pub open spec fn release_keys(r: Release) -> Seq<CaseKey> {
    module_keys(r, Module::Shortint) + module_keys(r, Module::HighLevelApi)
}

/// The releases of a run, in the order they are generated.
pub open spec fn declared_releases() -> Seq<Release> {
    seq![Release::V0_6, Release::V0_7, Release::V0_8, Release::V0_11, Release::V1_0]
}

/// The entries of a run over `rs`, in generation order.
pub open spec fn run_keys(rs: Seq<Release>) -> Seq<CaseKey>
    decreases rs.len(),
{
    if rs.len() == 0 {
        Seq::empty()
    } else {
        run_keys(rs.drop_last()) + release_keys(rs.last())
    }
}

/// What the manifest of module `m` must list after a run over `rs`.
pub open spec fn module_run_keys(rs: Seq<Release>, m: Module) -> Seq<CaseKey>
    decreases rs.len(),
{
    if rs.len() == 0 {
        Seq::empty()
    } else {
        module_run_keys(rs.drop_last(), m) + module_keys(rs.last(), m)
    }
}

/// How many artifacts the releases `rs` produce for module `m`, summed.
pub open spec fn count_sum(rs: Seq<Release>, m: Module) -> int
    decreases rs.len(),
{
    if rs.len() == 0 {
        0
    } else {
        count_sum(rs.drop_last(), m) + table_of(rs.last(), m).len()
    }
}

/// The testcases of `s` that belong to module `m`, in their order.
pub open spec fn in_module(s: Seq<Testcase>, m: Module) -> Seq<Testcase>
    decreases s.len(),
{
    if s.len() == 0 {
        s
    } else if s.last().tfhe_module == m {
        in_module(s.drop_last(), m).push(s.last())
    } else {
        in_module(s.drop_last(), m)
    }
}

/// The entries of `ks` that belong to module `m`, in their order.
pub open spec fn keys_in_module(ks: Seq<CaseKey>, m: Module) -> Seq<CaseKey>
    decreases ks.len(),
{
    if ks.len() == 0 {
        ks
    } else if ks.last().1 == m {
        keys_in_module(ks.drop_last(), m).push(ks.last())
    } else {
        keys_in_module(ks.drop_last(), m)
    }
}

/// Within one version and one module, no two testcases share a stem.
pub open spec fn distinct_within_dirs(s: Seq<Testcase>) -> bool {
    forall|i: int, j: int|
        0 <= i < j < s.len() && (#[trigger] s[i]).tfhe_version_min@ == (#[trigger] s[j]).tfhe_version_min@
            && s[i].tfhe_module == s[j].tfhe_module ==> stem(s[i].metadata) != stem(s[j].metadata)
}

/// Tags every descriptor with the release's version and the module, keeping their order.
pub fn tag_testcases(version: &String, module: Module, descs: Vec<TestMetadata>) -> (r: Vec<Testcase>)
    ensures
        tagged(r@, version@, module, descs@),
{
    let ghost orig = descs@;
    let mut descs = descs;
    let mut r: Vec<Testcase> = Vec::new();
    let n = descs.len();
    let mut i: usize = 0;
    while i < n
        invariant
            n == orig.len(),
            i <= n,
            descs@ == orig.subrange(i as int, n as int),
            r@.len() == i,
            forall|k: int|
                0 <= k < i ==> (#[trigger] r@[k]).tfhe_version_min@ == version@ && r@[k].tfhe_module == module
                    && r@[k].metadata == orig[k],
        decreases n - i,
    {
        let d = descs.remove(0);
        r.push(Testcase { tfhe_version_min: version.clone(), tfhe_module: module, metadata: d });
        i = i + 1;
    }
    r
}

proof fn lemma_tagged_keys(cases: Seq<Testcase>, r: Release, m: Module, descs: Seq<TestMetadata>)
    requires
        tagged(cases, version_spec(r), m, descs),
        describes(descs, table_of(r, m)),
    ensures
        keys(cases) == module_keys(r, m),
{
    assert forall|i: int| 0 <= i < cases.len() implies #[trigger] keys(cases)[i] == module_keys(r, m)[i] by {
        assert(descs.map_values(|d: TestMetadata| d@)[i] == descs[i]@);
    }
    assert(keys(cases) =~= module_keys(r, m));
}

/// What storing the write plans of release `r` under `root`, basic module
/// first, does to the set of written paths.
pub open spec fn release_store_spec(paths: Seq<Seq<char>>, root: Seq<char>, r: Release) -> Result<
    Seq<Seq<char>>,
    GenError,
> {
    match store_plan_spec(
        paths,
        module_dir_spec(root, version_spec(r), Module::Shortint),
        write_plan_spec(r, Module::Shortint),
    ) {
        Err(e) => Err(e),
        Ok(p) => store_plan_spec(
            p,
            module_dir_spec(root, version_spec(r), Module::HighLevelApi),
            write_plan_spec(r, Module::HighLevelApi),
        ),
    }
}

/// What storing the releases `rs`, in order, does to the set of written paths.
pub open spec fn run_store_spec(paths: Seq<Seq<char>>, root: Seq<char>, rs: Seq<Release>) -> Result<
    Seq<Seq<char>>,
    GenError,
>
    decreases rs.len(),
{
    if rs.len() == 0 {
        Ok(paths)
    } else {
        match run_store_spec(paths, root, rs.drop_last()) {
            Err(e) => Err(e),
            Ok(p) => release_store_spec(p, root, rs.last()),
        }
    }
}

/// `files` are the files reserved for the writes of `plan` in `dir`, in order.
pub open spec fn reserved_all(files: Seq<(String, Option<String>)>, dir: Seq<char>, plan: Seq<(Seq<char>, WriteKind)>) -> bool {
    &&& files.len() == plan.len()
    &&& forall|i: int| 0 <= i < plan.len() ==> reserved_files(#[trigger] files[i], dir, plan[i])
}

/// The outcome of one release: its testcases, and the files reserved for its
/// basic-module and high-level-module writes.
pub struct ReleaseOutput {
    pub testcases: Vec<Testcase>,
    pub shortint_files: Vec<(String, Option<String>)>,
    pub hl_files: Vec<(String, Option<String>)>,
}

proof fn lemma_desc_stems(descs: Seq<TestMetadata>, r: Release, m: Module)
    requires
        describes(descs, table_of(r, m)),
    ensures
        desc_stems(descs) == stems_of(r, m),
{
    assert forall|i: int| 0 <= i < descs.len() implies #[trigger] desc_stems(descs)[i] == stems_of(r, m)[i] by {
        assert(descs.map_values(|d: TestMetadata| d@)[i] == descs[i]@);
    }
    assert(desc_stems(descs) =~= stems_of(r, m));
}

fn store_module(
    tree: &mut OutputTree,
    root: &String,
    version: &String,
    r: Release,
    m: Module,
    descs: &Vec<TestMetadata>,
) -> (res: Result<Vec<(String, Option<String>)>, GenError>)
    requires
        version@ == version_spec(r),
        describes(descs@, table_of(r, m)),
    ensures
        match store_plan_spec(old(tree).paths(), module_dir_spec(root@, version@, m), write_plan_spec(r, m)) {
            Ok(p) => res matches Ok(files) && final(tree).paths() == p && reserved_all(
                files@,
                module_dir_spec(root@, version@, m),
                write_plan_spec(r, m),
            ),
            Err(e) => res == Err::<Vec<(String, Option<String>)>, GenError>(e),
        },
{
    proof {
        lemma_desc_stems(descs@, r, m);
    }
    let dir = module_dir(root, version, m);
    let plan = write_plan(r, m, descs);
    proof {
        assert forall|i: int| 0 <= i < plan@.len() implies #[trigger] plan_view(plan@)[i] == plan@[i]@ by {}
    }
    tree.store_plan(&dir, &plan)
}

/// Generates release `V`: reserves every write of its plans in `tree`, under
/// `root`, and returns its testcases (its basic-module descriptors, then its
/// high-level ones, tagged with its version) with the reserved files. Refuses
/// with `DuplicateArtifact` as soon as a write targets a file already present.
pub fn gen_all_data<V: TfhersVersion>(tree: &mut OutputTree, root: &String) -> (r: Result<ReleaseOutput, GenError>)
    ensures
        match release_store_spec(old(tree).paths(), root@, V::spec_release()) {
            Ok(p) => r matches Ok(out) && final(tree).paths() == p && keys(out.testcases@) == release_keys(
                V::spec_release(),
            ) && reserved_all(
                out.shortint_files@,
                module_dir_spec(root@, version_spec(V::spec_release()), Module::Shortint),
                write_plan_spec(V::spec_release(), Module::Shortint),
            ) && reserved_all(
                out.hl_files@,
                module_dir_spec(root@, version_spec(V::spec_release()), Module::HighLevelApi),
                write_plan_spec(V::spec_release(), Module::HighLevelApi),
            ),
            Err(e) => r matches Err(e2) && e2 == e,
        },
{
    let release = V::release();
    let version = V::version_number();
    let shortint = V::gen_shortint_data();
    let hl = V::gen_hl_data();
    let shortint_files = match store_module(tree, root, &version, release, Module::Shortint, &shortint) {
        Ok(f) => f,
        Err(e) => {
            return Err(e);
        },
    };
    let hl_files = match store_module(tree, root, &version, release, Module::HighLevelApi, &hl) {
        Ok(f) => f,
        Err(e) => {
            return Err(e);
        },
    };
    let mut tests = tag_testcases(&version, Module::Shortint, shortint);
    let mut hl_tests = tag_testcases(&version, Module::HighLevelApi, hl);
    proof {
        lemma_tagged_keys(tests@, V::spec_release(), Module::Shortint, shortint@);
        lemma_tagged_keys(hl_tests@, V::spec_release(), Module::HighLevelApi, hl@);
    }
    let ghost a = tests@;
    let ghost b = hl_tests@;
    tests.append(&mut hl_tests);
    proof {
        assert(keys(a + b) =~= keys(a) + keys(b));
    }
    Ok(ReleaseOutput { testcases: tests, shortint_files, hl_files })
}

proof fn lemma_run_store_stops(paths: Seq<Seq<char>>, root: Seq<char>, rs: Seq<Release>, i: int)
    requires
        0 <= i <= rs.len(),
        run_store_spec(paths, root, rs.subrange(0, i)) is Err,
    ensures
        run_store_spec(paths, root, rs) == run_store_spec(paths, root, rs.subrange(0, i)),
    decreases rs.len() - i,
{
    if i < rs.len() {
        assert(rs.subrange(0, i + 1).drop_last() =~= rs.subrange(0, i));
        lemma_run_store_stops(paths, root, rs, i + 1);
    } else {
        assert(rs.subrange(0, i) =~= rs);
    }
}

proof fn lemma_run_step(
    start: Seq<Seq<char>>,
    root: Seq<char>,
    all: Seq<Testcase>,
    next: Seq<Testcase>,
    k: int,
    paths: Seq<Seq<char>>,
)
    requires
        0 <= k < 5,
        keys(all) == run_keys(declared_releases().subrange(0, k)),
        run_store_spec(start, root, declared_releases().subrange(0, k)) == Ok::<Seq<Seq<char>>, GenError>(paths),
        keys(next) == release_keys(declared_releases()[k]),
    ensures
        keys(all + next) == run_keys(declared_releases().subrange(0, k + 1)),
        run_store_spec(start, root, declared_releases().subrange(0, k + 1)) == release_store_spec(
            paths,
            root,
            declared_releases()[k],
        ),
{
    let rs = declared_releases();
    assert(rs.subrange(0, k + 1).drop_last() =~= rs.subrange(0, k));
    assert(rs.subrange(0, k + 1).last() == rs[k]);
    assert(keys(all + next) =~= keys(all) + keys(next));
}

proof fn lemma_run_err(start: Seq<Seq<char>>, root: Seq<char>, k: int, paths: Seq<Seq<char>>)
    requires
        0 <= k < 5,
        run_store_spec(start, root, declared_releases().subrange(0, k)) == Ok::<Seq<Seq<char>>, GenError>(paths),
        release_store_spec(paths, root, declared_releases()[k]) is Err,
    ensures
        run_store_spec(start, root, declared_releases()) == release_store_spec(paths, root, declared_releases()[k]),
{
    let rs = declared_releases();
    assert(rs.subrange(0, k + 1).drop_last() =~= rs.subrange(0, k));
    assert(rs.subrange(0, k + 1).last() == rs[k]);
    lemma_run_store_stops(start, root, rs, k + 1);
}

/// Generates every declared release in order, reserving all their writes in
/// `tree` under `root`, and returns their testcases with each release's
/// reserved files. Stops at the first refusal.
pub fn gen_all_releases(tree: &mut OutputTree, root: &String) -> (r: Result<(Vec<Testcase>, Vec<ReleaseOutput>), GenError>)
    ensures
        match run_store_spec(old(tree).paths(), root@, declared_releases()) {
            Ok(p) => r matches Ok(out) && final(tree).paths() == p && keys(out.0@) == run_keys(declared_releases())
                && out.1@.len() == 5,
            Err(e) => r matches Err(e2) && e2 == e,
        },
{
    let ghost start = tree.paths();
    let ghost rs = declared_releases();
    let mut all: Vec<Testcase> = Vec::new();
    let mut outputs: Vec<ReleaseOutput> = Vec::new();
    proof {
        assert(rs.subrange(0, 0) =~= Seq::<Release>::empty());
        assert(keys(all@) =~= run_keys(rs.subrange(0, 0)));
        assert(run_store_spec(start, root@, rs.subrange(0, 0)) == Ok::<Seq<Seq<char>>, GenError>(start));
    }
    let mut out = match gen_all_data::<V0_6>(tree, root) {
        Ok(o) => o,
        Err(e) => {
            proof {
                lemma_run_err(start, root@, 0, start);
            }
            return Err(e);
        },
    };
    proof {
        lemma_run_step(start, root@, all@, out.testcases@, 0, start);
    }
    all.append(&mut out.testcases);
    outputs.push(out);
    let ghost p1 = tree.paths();
    let mut out = match gen_all_data::<V0_7>(tree, root) {
        Ok(o) => o,
        Err(e) => {
            proof {
                lemma_run_err(start, root@, 1, p1);
            }
            return Err(e);
        },
    };
    proof {
        lemma_run_step(start, root@, all@, out.testcases@, 1, p1);
    }
    all.append(&mut out.testcases);
    outputs.push(out);
    let ghost p2 = tree.paths();
    let mut out = match gen_all_data::<V0_8>(tree, root) {
        Ok(o) => o,
        Err(e) => {
            proof {
                lemma_run_err(start, root@, 2, p2);
            }
            return Err(e);
        },
    };
    proof {
        lemma_run_step(start, root@, all@, out.testcases@, 2, p2);
    }
    all.append(&mut out.testcases);
    outputs.push(out);
    let ghost p3 = tree.paths();
    let mut out = match gen_all_data::<V0_11>(tree, root) {
        Ok(o) => o,
        Err(e) => {
            proof {
                lemma_run_err(start, root@, 3, p3);
            }
            return Err(e);
        },
    };
    proof {
        lemma_run_step(start, root@, all@, out.testcases@, 3, p3);
    }
    all.append(&mut out.testcases);
    outputs.push(out);
    let ghost p4 = tree.paths();
    let mut out = match gen_all_data::<V1_0>(tree, root) {
        Ok(o) => o,
        Err(e) => {
            proof {
                lemma_run_err(start, root@, 4, p4);
            }
            return Err(e);
        },
    };
    proof {
        lemma_run_step(start, root@, all@, out.testcases@, 4, p4);
        assert(rs.subrange(0, 5) =~= rs);
    }
    all.append(&mut out.testcases);
    outputs.push(out);
    Ok((all, outputs))
}

/// Every release writes at least one high-level artifact.
proof fn lemma_hl_plan_nonempty(r: Release)
    ensures
        write_plan_spec(r, Module::HighLevelApi).len() > 0,
{
    assert(stems_of(r, Module::HighLevelApi).len() > 0);
}

/// Generating a release a second time, without clearing the output root in
/// between, is refused with `DuplicateArtifact`.
pub proof fn lemma_release_second_pass(paths: Seq<Seq<char>>, root: Seq<char>, r: Release)
    requires
        release_store_spec(paths, root, r) is Ok,
    ensures
        release_store_spec(release_store_spec(paths, root, r)->Ok_0, root, r) == Err::<
            Seq<Seq<char>>,
            GenError,
        >(GenError::DuplicateArtifact),
{
    let sdir = module_dir_spec(root, version_spec(r), Module::Shortint);
    let hdir = module_dir_spec(root, version_spec(r), Module::HighLevelApi);
    let splan = write_plan_spec(r, Module::Shortint);
    let hplan = write_plan_spec(r, Module::HighLevelApi);
    let mid = store_plan_spec(paths, sdir, splan)->Ok_0;
    let after = release_store_spec(paths, root, r)->Ok_0;
    lemma_hl_plan_nonempty(r);
    lemma_store_plan_grows(paths, sdir, splan);
    lemma_store_plan_grows(mid, hdir, hplan);
    if splan.len() > 0 {
        assert(mid.contains(file_path(sdir, splan[0].0, Encoding::Cbor)));
        assert(after.contains(file_path(sdir, splan[0].0, Encoding::Cbor)));
        lemma_first_write_refused(after, sdir, splan);
    } else {
        assert(splan =~= Seq::<(Seq<char>, WriteKind)>::empty());
        assert(store_plan_spec(after, sdir, splan) == Ok::<Seq<Seq<char>>, GenError>(after));
        assert(after.contains(file_path(hdir, hplan[0].0, Encoding::Cbor)));
        lemma_first_write_refused(after, hdir, hplan);
    }
}

/// Splits testcases into the basic-module and high-level-module manifests, each
/// in the order the testcases came.
pub fn split_manifests(cases: Vec<Testcase>) -> (r: (Vec<Testcase>, Vec<Testcase>))
    ensures
        r.0@ == in_module(cases@, Module::Shortint),
        r.1@ == in_module(cases@, Module::HighLevelApi),
{
    let ghost orig = cases@;
    let mut cases = cases;
    let mut shortint: Vec<Testcase> = Vec::new();
    let mut hl: Vec<Testcase> = Vec::new();
    let n = cases.len();
    let mut i: usize = 0;
    while i < n
        invariant
            n == orig.len(),
            i <= n,
            cases@ == orig.subrange(i as int, n as int),
            shortint@ == in_module(orig.subrange(0, i as int), Module::Shortint),
            hl@ == in_module(orig.subrange(0, i as int), Module::HighLevelApi),
        decreases n - i,
    {
        let c = cases.remove(0);
        proof {
            assert(orig.subrange(0, i + 1).drop_last() =~= orig.subrange(0, i as int));
            assert(orig.subrange(0, i + 1).last() == c);
        }
        match c.tfhe_module {
            Module::Shortint => shortint.push(c),
            Module::HighLevelApi => hl.push(c),
        }
        i = i + 1;
    }
    proof {
        assert(orig.subrange(0, n as int) =~= orig);
    }
    (shortint, hl)
}

/// Checks that no two testcases of one version and one module share a stem.
pub fn check_distinct_stems(cases: &Vec<Testcase>) -> (r: Result<(), GenError>)
    ensures
        r is Ok <==> distinct_within_dirs(cases@),
        r matches Err(e) ==> e == GenError::DuplicateArtifact,
{
    let n = cases.len();
    let mut j: usize = 0;
    while j < n
        invariant
            n == cases@.len(),
            j <= n,
            forall|a: int, b: int|
                0 <= a < b < j && (#[trigger] cases@[a]).tfhe_version_min@ == (#[trigger] cases@[b]).tfhe_version_min@
                    && cases@[a].tfhe_module == cases@[b].tfhe_module ==> stem(cases@[a].metadata) != stem(
                    cases@[b].metadata,
                ),
        decreases n - j,
    {
        let mut i: usize = 0;
        while i < j
            invariant
                n == cases@.len(),
                i <= j < n,
                forall|a: int, b: int|
                    0 <= a < b < j && (#[trigger] cases@[a]).tfhe_version_min@ == (
                    #[trigger] cases@[b]).tfhe_version_min@ && cases@[a].tfhe_module == cases@[b].tfhe_module
                        ==> stem(cases@[a].metadata) != stem(cases@[b].metadata),
                forall|a: int|
                    0 <= a < i && (#[trigger] cases@[a]).tfhe_version_min@ == cases@[j as int].tfhe_version_min@
                        && cases@[a].tfhe_module == cases@[j as int].tfhe_module ==> stem(cases@[a].metadata)
                        != stem(cases@[j as int].metadata),
            decreases j - i,
        {
            let x = &cases[i];
            let y = &cases[j];
            if x.tfhe_version_min == y.tfhe_version_min && x.tfhe_module == y.tfhe_module
                && *x.metadata.test_filename() == *y.metadata.test_filename() {
                return Err(GenError::DuplicateArtifact);
            }
            i = i + 1;
        }
        j = j + 1;
    }
    Ok(())
}

/// The two manifests of a run, once every stem is known to be unique within its
/// version and module; `DuplicateArtifact` otherwise.
pub fn build_manifests(cases: Vec<Testcase>) -> (r: Result<(Vec<Testcase>, Vec<Testcase>), GenError>)
    ensures
        r is Ok <==> distinct_within_dirs(cases@),
        r matches Err(e) ==> e == GenError::DuplicateArtifact,
        r matches Ok(m) ==> m.0@ == in_module(cases@, Module::Shortint) && m.1@ == in_module(
            cases@,
            Module::HighLevelApi,
        ),
{
    match check_distinct_stems(&cases) {
        Err(e) => Err(e),
        Ok(()) => Ok(split_manifests(cases)),
    }
}

proof fn lemma_keys_in_module(s: Seq<Testcase>, m: Module)
    ensures
        keys(in_module(s, m)) == keys_in_module(keys(s), m),
    decreases s.len(),
{
    if s.len() > 0 {
        lemma_keys_in_module(s.drop_last(), m);
        assert(keys(s).drop_last() =~= keys(s.drop_last()));
        assert(keys(in_module(s.drop_last(), m).push(s.last())) =~= keys(in_module(s.drop_last(), m)).push(
            case_key(s.last()),
        ));
    } else {
        assert(keys(s) =~= Seq::empty());
    }
}

proof fn lemma_keys_in_module_concat(a: Seq<CaseKey>, b: Seq<CaseKey>, m: Module)
    ensures
        keys_in_module(a + b, m) == keys_in_module(a, m) + keys_in_module(b, m),
    decreases b.len(),
{
    if b.len() == 0 {
        assert(a + b =~= a);
        assert(keys_in_module(a, m) + keys_in_module(b, m) =~= keys_in_module(a, m));
    } else {
        lemma_keys_in_module_concat(a, b.drop_last(), m);
        assert((a + b).drop_last() =~= a + b.drop_last());
        assert((a + b).last() == b.last());
        if b.last().1 == m {
            assert(keys_in_module(a, m) + keys_in_module(b.drop_last(), m).push(b.last()) =~= (keys_in_module(
                a,
                m,
            ) + keys_in_module(b.drop_last(), m)).push(b.last()));
        }
    }
}

proof fn lemma_keys_in_module_uniform(ks: Seq<CaseKey>, m: Module, other: Module)
    requires
        forall|i: int| 0 <= i < ks.len() ==> (#[trigger] ks[i]).1 == other,
    ensures
        keys_in_module(ks, m) == (if other == m {
            ks
        } else {
            Seq::<CaseKey>::empty()
        }),
    decreases ks.len(),
{
    if ks.len() > 0 {
        lemma_keys_in_module_uniform(ks.drop_last(), m, other);
        assert(ks.drop_last().push(ks.last()) =~= ks);
    }
}

proof fn lemma_release_in_module(r: Release, m: Module)
    ensures
        keys_in_module(release_keys(r), m) == module_keys(r, m),
{
    lemma_keys_in_module_concat(module_keys(r, Module::Shortint), module_keys(r, Module::HighLevelApi), m);
    lemma_keys_in_module_uniform(module_keys(r, Module::Shortint), m, Module::Shortint);
    lemma_keys_in_module_uniform(module_keys(r, Module::HighLevelApi), m, Module::HighLevelApi);
    match m {
        Module::Shortint => {
            assert(module_keys(r, m) + Seq::<CaseKey>::empty() =~= module_keys(r, m));
        },
        Module::HighLevelApi => {
            assert(Seq::<CaseKey>::empty() + module_keys(r, m) =~= module_keys(r, m));
        },
    }
}

/// The manifest of module `m` after a run over `rs` lists, release by release in
/// run order, exactly the artifacts each release produced for `m`, in the order
/// they were generated; so its length is the sum of those releases' counts.
pub proof fn lemma_manifest_complete(rs: Seq<Release>, m: Module)
    ensures
        keys_in_module(run_keys(rs), m) == module_run_keys(rs, m),
        module_run_keys(rs, m).len() == count_sum(rs, m),
    decreases rs.len(),
{
    if rs.len() > 0 {
        lemma_manifest_complete(rs.drop_last(), m);
        lemma_keys_in_module_concat(run_keys(rs.drop_last()), release_keys(rs.last()), m);
        lemma_release_in_module(rs.last(), m);
    }
}

/// A manifest built from a run over every declared release holds, for each
/// module, as many entries as those releases produce for it, in generation
/// order.
pub proof fn lemma_run_manifests(cases: Seq<Testcase>, m: Module)
    requires
        keys(cases) == run_keys(declared_releases()),
    ensures
        keys(in_module(cases, m)) == module_run_keys(declared_releases(), m),
        in_module(cases, m).len() == count_sum(declared_releases(), m),
{
    lemma_keys_in_module(cases, m);
    lemma_manifest_complete(declared_releases(), m);
}

/// Manifest entries do not depend on anything but the adapters: two runs over
/// the declared releases give manifests with the same entries in the same order.
pub proof fn lemma_run_deterministic(a: Seq<Testcase>, b: Seq<Testcase>, m: Module)
    requires
        keys(a) == run_keys(declared_releases()),
        keys(b) == run_keys(declared_releases()),
    ensures
        keys(in_module(a, m)) == keys(in_module(b, m)),
{
    lemma_run_manifests(a, m);
    lemma_run_manifests(b, m);
}


/// Within one version and one module, no two entries share a stem.
pub open spec fn keys_distinct(ks: Seq<CaseKey>) -> bool {
    forall|i: int, j: int|
        0 <= i < j < ks.len() && (#[trigger] ks[i]).0 == (#[trigger] ks[j]).0 && ks[i].1 == ks[j].1 ==> view_stem(
            ks[i].2,
        ) != view_stem(ks[j].2)
}

proof fn lemma_module_keys_distinct(r: Release, m: Module)
    ensures
        keys_distinct(module_keys(r, m)),
{
    lemma_stems_distinct(r);
    assert(pairwise_distinct(stems_of(r, m)));
    let ks = module_keys(r, m);
    assert forall|i: int| 0 <= i < ks.len() implies view_stem(#[trigger] ks[i].2) == stems_of(r, m)[i] by {
        assert(ks[i].2 == table_of(r, m)[i]);
    }
}

proof fn lemma_keys_distinct_concat(a: Seq<CaseKey>, b: Seq<CaseKey>)
    requires
        keys_distinct(a),
        keys_distinct(b),
        forall|i: int, j: int|
            0 <= i < a.len() && 0 <= j < b.len() ==> (#[trigger] a[i]).0 != (#[trigger] b[j]).0 || a[i].1 != b[j].1,
    ensures
        keys_distinct(a + b),
{
    let c = a + b;
    assert forall|i: int, j: int|
        0 <= i < j < c.len() && (#[trigger] c[i]).0 == (#[trigger] c[j]).0 && c[i].1 == c[j].1 implies view_stem(
            c[i].2,
        ) != view_stem(c[j].2) by {
        if j < a.len() {
            assert(c[i] == a[i] && c[j] == a[j]);
        } else if i >= a.len() {
            assert(c[i] == b[i - a.len()] && c[j] == b[j - a.len()]);
        } else {
            assert(c[i] == a[i] && c[j] == b[j - a.len()]);
        }
    }
}

proof fn lemma_release_keys_distinct(r: Release)
    ensures
        keys_distinct(release_keys(r)),
        forall|i: int| 0 <= i < release_keys(r).len() ==> (#[trigger] release_keys(r)[i]).0 == version_spec(r),
{
    lemma_module_keys_distinct(r, Module::Shortint);
    lemma_module_keys_distinct(r, Module::HighLevelApi);
    lemma_keys_distinct_concat(module_keys(r, Module::Shortint), module_keys(r, Module::HighLevelApi));
    let a = module_keys(r, Module::Shortint);
    let ks = release_keys(r);
    assert forall|i: int| 0 <= i < ks.len() implies (#[trigger] ks[i]).0 == version_spec(r) by {
        if i < a.len() {
            assert(ks[i] == a[i]);
        } else {
            assert(ks[i] == module_keys(r, Module::HighLevelApi)[i - a.len()]);
        }
    }
}

proof fn lemma_run_keys_distinct(rs: Seq<Release>)
    requires
        rs.no_duplicates(),
    ensures
        keys_distinct(run_keys(rs)),
        forall|i: int|
            0 <= i < run_keys(rs).len() ==> exists|q: Release| rs.contains(q) && (#[trigger] run_keys(rs)[i]).0
                == version_spec(q),
    decreases rs.len(),
{
    if rs.len() > 0 {
        let prefix = rs.drop_last();
        let last = rs.last();
        assert(prefix.no_duplicates());
        lemma_run_keys_distinct(prefix);
        lemma_release_keys_distinct(last);
        let a = run_keys(prefix);
        let b = release_keys(last);
        assert forall|i: int, j: int| 0 <= i < a.len() && 0 <= j < b.len() implies (#[trigger] a[i]).0 != (
        #[trigger] b[j]).0 || a[i].1 != b[j].1 by {
            let q = choose|q: Release| prefix.contains(q) && a[i].0 == version_spec(q);
            let k = choose|k: int| 0 <= k < prefix.len() && prefix[k] == q;
            assert(rs[k] == q);
            assert(rs[rs.len() - 1] == last);
            lemma_stems_distinct(last);
        }
        lemma_keys_distinct_concat(a, b);
        let c = a + b;
        assert forall|i: int| 0 <= i < c.len() implies exists|q: Release| rs.contains(q) && (
        #[trigger] c[i]).0 == version_spec(q) by {
            if i < a.len() {
                assert(c[i] == a[i]);
                let q = choose|q: Release| prefix.contains(q) && a[i].0 == version_spec(q);
                let k = choose|k: int| 0 <= k < prefix.len() && prefix[k] == q;
                assert(rs[k] == q);
            } else {
                assert(c[i] == b[i - a.len()]);
                assert(rs[rs.len() - 1] == last);
            }
        }
    }
}

/// A run over every declared release never repeats a stem within one version
/// and one module, so its manifests are always built.
pub proof fn lemma_run_distinct(cases: Seq<Testcase>)
    requires
        keys(cases) == run_keys(declared_releases()),
    ensures
        distinct_within_dirs(cases),
{
    let rs = declared_releases();
    assert(rs.no_duplicates()) by {
        assert forall|i: int, j: int| 0 <= i < rs.len() && 0 <= j < rs.len() && i != j implies rs[i] != rs[j] by {
        }
    }
    lemma_run_keys_distinct(rs);
    let ks = keys(cases);
    assert forall|i: int, j: int|
        0 <= i < j < cases.len() && (#[trigger] cases[i]).tfhe_version_min@ == (#[trigger] cases[j]).tfhe_version_min@
            && cases[i].tfhe_module == cases[j].tfhe_module implies stem(cases[i].metadata) != stem(
        cases[j].metadata,
    ) by {
        assert(ks[i] == case_key(cases[i]));
        assert(ks[j] == case_key(cases[j]));
    }
}


proof fn lemma_release_grows(paths: Seq<Seq<char>>, root: Seq<char>, r: Release)
    requires
        release_store_spec(paths, root, r) is Ok,
    ensures
        forall|x: Seq<char>| paths.contains(x) ==> release_store_spec(paths, root, r)->Ok_0.contains(x),
{
    let sdir = module_dir_spec(root, version_spec(r), Module::Shortint);
    let splan = write_plan_spec(r, Module::Shortint);
    lemma_store_plan_grows(paths, sdir, splan);
    lemma_store_plan_grows(
        store_plan_spec(paths, sdir, splan)->Ok_0,
        module_dir_spec(root, version_spec(r), Module::HighLevelApi),
        write_plan_spec(r, Module::HighLevelApi),
    );
}

proof fn lemma_run_prefix_grows(paths: Seq<Seq<char>>, root: Seq<char>, rs: Seq<Release>, j: int)
    requires
        0 <= j <= rs.len(),
        run_store_spec(paths, root, rs) is Ok,
    ensures
        run_store_spec(paths, root, rs.subrange(0, j)) is Ok,
        forall|x: Seq<char>|
            run_store_spec(paths, root, rs.subrange(0, j))->Ok_0.contains(x) ==> run_store_spec(
                paths,
                root,
                rs,
            )->Ok_0.contains(x),
    decreases rs.len(),
{
    if j == rs.len() {
        assert(rs.subrange(0, j) =~= rs);
    } else {
        let prev = rs.drop_last();
        assert(prev.subrange(0, j) =~= rs.subrange(0, j));
        assert(run_store_spec(paths, root, prev) is Ok);
        lemma_run_prefix_grows(paths, root, prev, j);
        let q = run_store_spec(paths, root, prev)->Ok_0;
        lemma_release_grows(q, root, rs.last());
        assert(run_store_spec(paths, root, rs) == release_store_spec(q, root, rs.last()));
        assert forall|x: Seq<char>|
            run_store_spec(paths, root, rs.subrange(0, j))->Ok_0.contains(x) implies run_store_spec(
                paths,
                root,
                rs,
            )->Ok_0.contains(x) by {
            assert(q.contains(x));
        }
    }
}

/// Running the whole generation a second time, without clearing the output root
/// in between, is refused with `DuplicateArtifact`.
pub proof fn lemma_run_second_pass(paths: Seq<Seq<char>>, root: Seq<char>)
    requires
        run_store_spec(paths, root, declared_releases()) is Ok,
    ensures
        run_store_spec(run_store_spec(paths, root, declared_releases())->Ok_0, root, declared_releases())
            == Err::<Seq<Seq<char>>, GenError>(GenError::DuplicateArtifact),
{
    let rs = declared_releases();
    let after = run_store_spec(paths, root, rs)->Ok_0;
    let first = rs.subrange(0, 1);
    assert(first.drop_last() =~= Seq::<Release>::empty());
    assert(first.last() == Release::V0_6);
    lemma_run_prefix_grows(paths, root, rs, 1);
    assert(run_store_spec(paths, root, first.drop_last()) == Ok::<Seq<Seq<char>>, GenError>(paths));
    assert(run_store_spec(paths, root, first) == release_store_spec(paths, root, Release::V0_6));
    let sdir = module_dir_spec(root, version_spec(Release::V0_6), Module::Shortint);
    let splan = write_plan_spec(Release::V0_6, Module::Shortint);
    assert(stems_of(Release::V0_6, Module::Shortint).len() == 3);
    assert(splan.len() > 0);
    lemma_store_plan_grows(paths, sdir, splan);
    lemma_release_grows(paths, root, Release::V0_6);
    let c = file_path(sdir, splan[0].0, Encoding::Cbor);
    let mid = store_plan_spec(paths, sdir, splan)->Ok_0;
    assert(mid.contains(c));
    lemma_store_plan_grows(
        mid,
        module_dir_spec(root, version_spec(Release::V0_6), Module::HighLevelApi),
        write_plan_spec(Release::V0_6, Module::HighLevelApi),
    );
    assert(run_store_spec(paths, root, first)->Ok_0.contains(c));
    assert(run_store_spec(paths, root, first) == release_store_spec(paths, root, Release::V0_6));
    assert(after.contains(c));
    lemma_first_write_refused(after, sdir, splan);
    assert(run_store_spec(after, root, first.drop_last()) == Ok::<Seq<Seq<char>>, GenError>(after));
    assert(run_store_spec(after, root, first) == Err::<Seq<Seq<char>>, GenError>(GenError::DuplicateArtifact));
    lemma_run_store_stops(after, root, rs, 1);
}

/// Runs every declared release in order, reserving all their writes in `tree`
/// under `root`, and returns the releases' outputs with the basic-module and
/// high-level-module manifests: each lists, release by release, exactly the
/// artifacts that release produced for the module, in generation order.
pub fn gen_manifests(tree: &mut OutputTree, root: &String) -> (r: Result<
    (Vec<ReleaseOutput>, Vec<Testcase>, Vec<Testcase>),
    GenError,
>)
    ensures
        match run_store_spec(old(tree).paths(), root@, declared_releases()) {
            Ok(p) => r matches Ok(out) && final(tree).paths() == p && out.0@.len() == 5 && keys(out.1@)
                == module_run_keys(declared_releases(), Module::Shortint) && keys(out.2@) == module_run_keys(
                declared_releases(),
                Module::HighLevelApi,
            ) && out.1@.len() == count_sum(declared_releases(), Module::Shortint) && out.2@.len() == count_sum(
                declared_releases(),
                Module::HighLevelApi,
            ),
            Err(e) => r matches Err(e2) && e2 == e,
        },
{
    let (all, outputs) = match gen_all_releases(tree, root) {
        Ok(x) => x,
        Err(e) => {
            return Err(e);
        },
    };
    proof {
        lemma_run_distinct(all@);
        lemma_run_manifests(all@, Module::Shortint);
        lemma_run_manifests(all@, Module::HighLevelApi);
    }
    match build_manifests(all) {
        Ok(m) => Ok((outputs, m.0, m.1)),
        Err(e) => Err(e),
    }
}

} // verus!
