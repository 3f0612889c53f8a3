use backcompat_data::adapters::{TfhersVersion, V0_11, V0_6, V0_7, V0_8, V1_0};
use backcompat_data::orchestrator::{gen_all_data, gen_all_releases};
use backcompat_data::metadata::TestMetadata;
use backcompat_data::params::Release;
use backcompat_data::plan::write_plan;
use backcompat_data::error::GenError;
use backcompat_data::metadata::Module;
use backcompat_data::store::{artifact_path, join, manifest_path, module_dir, Encoding, OutputTree, WriteKind};

#[test]
fn paths_follow_the_layout() {
    let root = "/data".to_string();
    let dir = module_dir(&root, &"0.8".to_string(), Module::HighLevelApi);
    assert_eq!(dir, "/data/0.8/high_level_api");
    assert_eq!(module_dir(&root, &"0.6".to_string(), Module::Shortint), "/data/0.6/shortint");
    assert_eq!(artifact_path(&dir, &"ct1".to_string(), Encoding::Cbor), "/data/0.8/high_level_api/ct1.cbor");
    assert_eq!(artifact_path(&dir, &"ct1".to_string(), Encoding::Bincode), "/data/0.8/high_level_api/ct1.bcode");
    assert_eq!(manifest_path(&root, Module::Shortint), "/data/shortint.ron");
    assert_eq!(manifest_path(&root, Module::HighLevelApi), "/data/high_level_api.ron");
    assert_eq!(join(&"a".to_string(), "b"), "a/b");
}

#[test]
fn store_returns_both_files() {
    let mut tree = OutputTree::new();
    let dir = "out/1.0/high_level_api".to_string();
    let (c, b) = tree.store_versioned(&dir, &"client_key".to_string()).unwrap();
    assert_eq!(c, "out/1.0/high_level_api/client_key.cbor");
    assert_eq!(b, "out/1.0/high_level_api/client_key.bcode");
    assert!(tree.contains(&c));
    assert!(tree.contains(&b));
    assert!(!tree.contains(&"out/1.0/high_level_api/server_key.cbor".to_string()));
}

#[test]
fn storing_twice_is_a_duplicate_artifact() {
    let mut tree = OutputTree::new();
    let dir = "out/0.6/shortint".to_string();
    assert!(tree.store_versioned(&dir, &"ct1".to_string()).is_ok());
    assert_eq!(tree.store_versioned(&dir, &"ct1".to_string()), Err(GenError::DuplicateArtifact));
    assert!(tree.store_versioned(&"out/0.7/shortint".to_string(), &"ct1".to_string()).is_ok());
}

#[test]
fn auxiliary_collides_with_primary() {
    let mut tree = OutputTree::new();
    let dir = "out/0.7/high_level_api".to_string();
    assert_eq!(tree.store_auxiliary(&dir, &"client_key".to_string()), Ok("out/0.7/high_level_api/client_key.cbor".to_string()));
    assert_eq!(tree.store_versioned(&dir, &"client_key".to_string()), Err(GenError::DuplicateArtifact));
    assert_eq!(tree.store_auxiliary(&dir, &"client_key".to_string()), Err(GenError::DuplicateArtifact));
    assert!(tree.store_versioned(&dir, &"client_key_with_compression".to_string()).is_ok());
}

fn descs(r: Release, m: Module) -> Vec<TestMetadata> {
    match (r, m) {
        (Release::V0_6, Module::Shortint) => V0_6::gen_shortint_data(),
        (Release::V0_6, Module::HighLevelApi) => V0_6::gen_hl_data(),
        (Release::V0_7, Module::Shortint) => V0_7::gen_shortint_data(),
        (Release::V0_7, Module::HighLevelApi) => V0_7::gen_hl_data(),
        (Release::V0_8, Module::Shortint) => V0_8::gen_shortint_data(),
        (Release::V0_8, Module::HighLevelApi) => V0_8::gen_hl_data(),
        (Release::V0_11, Module::Shortint) => V0_11::gen_shortint_data(),
        (Release::V0_11, Module::HighLevelApi) => V0_11::gen_hl_data(),
        (Release::V1_0, Module::Shortint) => V1_0::gen_shortint_data(),
        (Release::V1_0, Module::HighLevelApi) => V1_0::gen_hl_data(),
    }
}

fn plan(r: Release, m: Module) -> Vec<backcompat_data::store::PlannedWrite> {
    write_plan(r, m, &descs(r, m))
}

#[test]
fn second_plan_pass_without_clearing_fails() {
    let mut tree = OutputTree::new();
    let dir = "out/0.7/high_level_api".to_string();
    let plan = plan(Release::V0_7, Module::HighLevelApi);
    let files = tree.store_plan(&dir, &plan).unwrap();
    assert_eq!(files.len(), 6);
    assert_eq!(files[0], ("out/0.7/high_level_api/client_key.cbor".to_string(), None));
    assert_eq!(files[1].0, "out/0.7/high_level_api/hl_packed_heterogeneous_list.cbor");
    assert_eq!(files[5].1.as_deref(), Some("out/0.7/high_level_api/server_key_with_compression.bcode"));
    assert_eq!(tree.store_plan(&dir, &plan), Err(GenError::DuplicateArtifact));
}

#[test]
fn second_generation_pass_without_clearing_fails() {
    let root = "out".to_string();
    let mut tree = OutputTree::new();
    assert!(gen_all_data::<V0_6>(&mut tree, &root).is_ok());
    assert_eq!(gen_all_data::<V0_6>(&mut tree, &root).err(), Some(GenError::DuplicateArtifact));
    assert!(gen_all_data::<V0_7>(&mut tree, &root).is_ok());
    assert_eq!(gen_all_data::<V0_7>(&mut tree, &root).err(), Some(GenError::DuplicateArtifact));
    let mut fresh = OutputTree::new();
    assert!(gen_all_releases(&mut fresh, &root).is_ok());
    assert_eq!(gen_all_releases(&mut fresh, &root).err(), Some(GenError::DuplicateArtifact));
}

fn all_files(out: &backcompat_data::orchestrator::ReleaseOutput) -> Vec<String> {
    let mut v = Vec::new();
    for (c, b) in out.shortint_files.iter().chain(out.hl_files.iter()) {
        v.push(c.clone());
        if let Some(b) = b {
            v.push(b.clone());
        }
    }
    v
}

#[test]
fn release_files_written() {
    let root = "out".to_string();
    let mut tree = OutputTree::new();
    let v06 = gen_all_data::<V0_6>(&mut tree, &root).unwrap();
    assert_eq!(all_files(&v06).len(), 6 + 51);
    assert_eq!(v06.shortint_files[0].0, "out/0.6/shortint/client_key.cbor");
    assert_eq!(v06.hl_files[2].1.as_deref(), Some("out/0.6/high_level_api/compressed_server_key.bcode"));
    assert_eq!(v06.hl_files[4], ("out/0.6/high_level_api/client_key_for_pubkey.cbor".to_string(), None));
    let v08 = gen_all_data::<V0_8>(&mut tree, &root).unwrap();
    assert_eq!(all_files(&v08), vec![
        "out/0.8/high_level_api/client_key.cbor",
        "out/0.8/high_level_api/public_key.cbor",
        "out/0.8/high_level_api/zk_pke_public_params.cbor",
        "out/0.8/high_level_api/zk_pke_public_params.bcode",
        "out/0.8/high_level_api/hl_proven_heterogeneous_list.cbor",
        "out/0.8/high_level_api/hl_proven_heterogeneous_list.bcode",
    ]);
    let v011 = gen_all_data::<V0_11>(&mut tree, &root).unwrap();
    assert_eq!(all_files(&v011), vec!["out/0.11/high_level_api/zk_pke_crs.cbor", "out/0.11/high_level_api/zk_pke_crs.bcode"]);
    assert_eq!(v011.testcases.len(), 1);
}

#[test]
fn every_release_plan_reserves_without_collision() {
    let root = "out".to_string();
    let mut tree = OutputTree::new();
    for r in [Release::V0_6, Release::V0_7, Release::V0_8, Release::V0_11, Release::V1_0] {
        let version = backcompat_data::adapters::version_number_of(r);
        for m in [Module::Shortint, Module::HighLevelApi] {
            let dir = module_dir(&root, &version, m);
            let plan = plan(r, m);
            assert_eq!(tree.store_plan(&dir, &plan).unwrap().len(), plan.len());
        }
    }
}

fn primary_stems(r: Release, m: Module) -> Vec<String> {
    plan(r, m).into_iter().filter(|w| w.kind == WriteKind::Versioned).map(|w| w.stem).collect()
}

fn table_stems(descs: Vec<TestMetadata>) -> Vec<String> {
    descs.iter().map(|d| d.test_filename().clone()).collect()
}

#[test]
fn plans_write_every_descriptor_in_order() {
    assert_eq!(primary_stems(Release::V0_6, Module::Shortint), table_stems(V0_6::gen_shortint_data()));
    assert_eq!(primary_stems(Release::V0_6, Module::HighLevelApi), table_stems(V0_6::gen_hl_data()));
    assert_eq!(primary_stems(Release::V0_7, Module::HighLevelApi), table_stems(V0_7::gen_hl_data()));
    assert_eq!(primary_stems(Release::V0_8, Module::HighLevelApi), table_stems(V0_8::gen_hl_data()));
    let aux: Vec<String> =
        plan(Release::V0_8, Module::HighLevelApi).into_iter().filter(|w| w.kind == WriteKind::Auxiliary).map(|w| w.stem).collect();
    assert_eq!(aux, vec!["client_key", "public_key"]);
    let p06: Vec<String> = plan(Release::V0_6, Module::HighLevelApi).into_iter().map(|w| w.stem).collect();
    assert_eq!(p06[..6].to_vec(), vec![
        "client_key",
        "server_key",
        "compressed_server_key",
        "public_key",
        "client_key_for_pubkey",
        "compressed_public_key"
    ]);
    assert!(plan(Release::V1_0, Module::Shortint).is_empty());
}
