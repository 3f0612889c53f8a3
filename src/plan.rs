//! The writes each release makes, per module and in order: its primary
//! artifacts, in both encodings and in the order of its descriptors, and the
//! auxiliary objects that later checks need, in the structured encoding only.
use vstd::prelude::*;
use vstd::string::*;
use crate::metadata::{stem, Module, TestMetadata};
use crate::orchestrator::stems_of;
use crate::params::Release;
use crate::store::{plan_view, PlannedWrite, WriteKind};

verus! {

pub open spec fn versioned(stems: Seq<Seq<char>>) -> Seq<(Seq<char>, WriteKind)> {
    stems.map_values(|s: Seq<char>| (s, WriteKind::Versioned))
}

pub open spec fn auxiliary(stems: Seq<Seq<char>>) -> Seq<(Seq<char>, WriteKind)> {
    stems.map_values(|s: Seq<char>| (s, WriteKind::Auxiliary))
}

/// Stems of the auxiliary objects a release stores in a module: the client key
/// behind the small legacy public key (0.6), the client key that decrypts the
/// lists (0.7), and the client key and compact public key of the proven list
/// (0.8).
pub open spec fn aux_stems(r: Release, m: Module) -> Seq<Seq<char>> {
    match (r, m) {
        (Release::V0_6, Module::HighLevelApi) => seq!["client_key_for_pubkey"@],
        (Release::V0_7, Module::HighLevelApi) => seq!["client_key"@],
        (Release::V0_8, Module::HighLevelApi) => seq!["client_key"@, "public_key"@],
        _ => Seq::empty(),
    }
}

/// How many primary artifacts are written before the auxiliary objects: in 0.6
/// the legacy public key's client key follows the public key itself.
pub open spec fn aux_position(r: Release, m: Module) -> int {
    match (r, m) {
        (Release::V0_6, Module::HighLevelApi) => 4,
        _ => 0,
    }
}

/// The writes of release `r` in module `m`, in the order they are made.
pub open spec fn write_plan_spec(r: Release, m: Module) -> Seq<(Seq<char>, WriteKind)> {
    let stems = stems_of(r, m);
    let k = aux_position(r, m);
    versioned(stems.subrange(0, k)) + auxiliary(aux_stems(r, m)) + versioned(stems.subrange(k, stems.len() as int))
}

/// The stems of the primary artifacts of a plan, in order.
pub open spec fn primary_stems(plan: Seq<(Seq<char>, WriteKind)>) -> Seq<Seq<char>>
    decreases plan.len(),
{
    if plan.len() == 0 {
        Seq::empty()
    } else if plan.last().1 == WriteKind::Versioned {
        primary_stems(plan.drop_last()).push(plan.last().0)
    } else {
        primary_stems(plan.drop_last())
    }
}

proof fn lemma_primary_concat(a: Seq<(Seq<char>, WriteKind)>, b: Seq<(Seq<char>, WriteKind)>)
    ensures
        primary_stems(a + b) == primary_stems(a) + primary_stems(b),
    decreases b.len(),
{
    if b.len() == 0 {
        assert(a + b =~= a);
        assert(primary_stems(a) + primary_stems(b) =~= primary_stems(a));
    } else {
        lemma_primary_concat(a, b.drop_last());
        assert((a + b).drop_last() =~= a + b.drop_last());
        assert((a + b).last() == b.last());
        if b.last().1 == WriteKind::Versioned {
            assert(primary_stems(a) + primary_stems(b.drop_last()).push(b.last().0) =~= (primary_stems(a)
                + primary_stems(b.drop_last())).push(b.last().0));
        }
    }
}

proof fn lemma_primary_versioned(s: Seq<Seq<char>>)
    ensures
        primary_stems(versioned(s)) == s,
    decreases s.len(),
{
    if s.len() > 0 {
        lemma_primary_versioned(s.drop_last());
        assert(versioned(s).drop_last() =~= versioned(s.drop_last()));
        assert(s.drop_last().push(s.last()) =~= s);
    } else {
        assert(versioned(s) =~= Seq::<(Seq<char>, WriteKind)>::empty());
        assert(s =~= Seq::<Seq<char>>::empty());
    }
}

proof fn lemma_primary_auxiliary(s: Seq<Seq<char>>)
    ensures
        primary_stems(auxiliary(s)) == Seq::<Seq<char>>::empty(),
    decreases s.len(),
{
    if s.len() > 0 {
        lemma_primary_auxiliary(s.drop_last());
        assert(auxiliary(s).drop_last() =~= auxiliary(s.drop_last()));
    }
}

/// A plan writes its module's descriptors as primary artifacts exactly once
/// each, in the order of the descriptors, and writes no other primary artifact.
pub proof fn lemma_plan_follows_table(r: Release, m: Module)
    ensures
        primary_stems(write_plan_spec(r, m)) == stems_of(r, m),
{
    let stems = stems_of(r, m);
    let k = aux_position(r, m);
    assert(0 <= k <= stems.len());
    let a = versioned(stems.subrange(0, k));
    let b = auxiliary(aux_stems(r, m));
    let c = versioned(stems.subrange(k, stems.len() as int));
    lemma_primary_concat(a + b, c);
    lemma_primary_concat(a, b);
    lemma_primary_versioned(stems.subrange(0, k));
    lemma_primary_auxiliary(aux_stems(r, m));
    lemma_primary_versioned(stems.subrange(k, stems.len() as int));
    assert(stems.subrange(0, k) + Seq::<Seq<char>>::empty() + stems.subrange(k, stems.len() as int) =~= stems);
}

fn aux_writes(r: Release, m: Module) -> (v: Vec<String>)
    ensures
        v@.map_values(|s: String| s@) == aux_stems(r, m),
{
    let mut v: Vec<String> = Vec::new();
    match (r, m) {
        (Release::V0_6, Module::HighLevelApi) => {
            v.push(String::from_str("client_key_for_pubkey"));
        },
        (Release::V0_7, Module::HighLevelApi) => {
            v.push(String::from_str("client_key"));
        },
        (Release::V0_8, Module::HighLevelApi) => {
            v.push(String::from_str("client_key"));
            v.push(String::from_str("public_key"));
        },
        _ => {},
    }
    proof {
        assert(v@.map_values(|s: String| s@) =~= aux_stems(r, m));
    }
    v
}

fn aux_position_of(r: Release, m: Module) -> (k: usize)
    ensures
        k == aux_position(r, m),
{
    match (r, m) {
        (Release::V0_6, Module::HighLevelApi) => 4,
        _ => 0,
    }
}

pub open spec fn desc_stems(descs: Seq<TestMetadata>) -> Seq<Seq<char>> {
    descs.map_values(|d: TestMetadata| stem(d))
}

fn push_versioned(v: &mut Vec<PlannedWrite>, descs: &Vec<TestMetadata>, from: usize, to: usize)
    requires
        from <= to <= descs@.len(),
    ensures
        plan_view(final(v)@) == plan_view(old(v)@) + versioned(desc_stems(descs@).subrange(from as int, to as int)),
{
    let ghost start = plan_view(v@);
    let mut i = from;
    while i < to
        invariant
            from <= i <= to <= descs@.len(),
            plan_view(v@) == start + versioned(desc_stems(descs@).subrange(from as int, i as int)),
        decreases to - i,
    {
        let ghost before = plan_view(v@);
        v.push(PlannedWrite { stem: descs[i].test_filename().clone(), kind: WriteKind::Versioned });
        proof {
            assert(plan_view(v@) =~= before.push((stem(descs@[i as int]), WriteKind::Versioned)));
            assert(versioned(desc_stems(descs@).subrange(from as int, i + 1)) =~= versioned(
                desc_stems(descs@).subrange(from as int, i as int),
            ).push((stem(descs@[i as int]), WriteKind::Versioned)));
        }
        i = i + 1;
    }
}

/// The writes of release `r` in module `m`, built from that module's
/// descriptors `descs`.
pub fn write_plan(r: Release, m: Module, descs: &Vec<TestMetadata>) -> (v: Vec<PlannedWrite>)
    requires
        desc_stems(descs@) == stems_of(r, m),
    ensures
        plan_view(v@) == write_plan_spec(r, m),
{
    let k = aux_position_of(r, m);
    let n = descs.len();
    proof {
        assert(desc_stems(descs@).len() == n);
    }
    let mut v: Vec<PlannedWrite> = Vec::new();
    proof {
        assert(plan_view(v@) =~= Seq::<(Seq<char>, WriteKind)>::empty());
    }
    push_versioned(&mut v, descs, 0, k);
    let aux = aux_writes(r, m);
    let ghost mid = plan_view(v@);
    let mut j: usize = 0;
    while j < aux.len()
        invariant
            j <= aux@.len(),
            aux@.map_values(|s: String| s@) == aux_stems(r, m),
            plan_view(v@) == mid + auxiliary(aux_stems(r, m).subrange(0, j as int)),
        decreases aux@.len() - j,
    {
        let ghost before = plan_view(v@);
        v.push(PlannedWrite { stem: aux[j].clone(), kind: WriteKind::Auxiliary });
        proof {
            assert(aux_stems(r, m)[j as int] == aux@[j as int]@);
            assert(plan_view(v@) =~= before.push((aux@[j as int]@, WriteKind::Auxiliary)));
            assert(auxiliary(aux_stems(r, m).subrange(0, j + 1)) =~= auxiliary(
                aux_stems(r, m).subrange(0, j as int),
            ).push((aux@[j as int]@, WriteKind::Auxiliary)));
        }
        j = j + 1;
    }
    proof {
        assert(aux_stems(r, m).subrange(0, aux@.len() as int) =~= aux_stems(r, m));
    }
    push_versioned(&mut v, descs, k, n);
    v
}

} // verus!
