use backcompat_data::adapters::{version_number_of, TfhersVersion, PRNG_SEED, V0_6, V0_7, V0_8, V0_11, V1_0};
use backcompat_data::error::GenError;
use backcompat_data::metadata::{ArtifactKind, DataKind, Module, TestMetadata, Testcase};
use backcompat_data::orchestrator::{
    build_manifests, check_distinct_stems, gen_all_data, gen_all_releases, gen_manifests, split_manifests,
    tag_testcases,
};
use backcompat_data::params::Release;
use backcompat_data::store::OutputTree;

fn release_cases<V: TfhersVersion>() -> Vec<Testcase> {
    gen_all_data::<V>(&mut OutputTree::new(), &"out".to_string()).unwrap().testcases
}

fn run_cases() -> Vec<Testcase> {
    gen_all_releases(&mut OutputTree::new(), &"out".to_string()).unwrap().0
}

fn stems(v: &[TestMetadata]) -> Vec<String> {
    v.iter().map(|m| m.test_filename().clone()).collect()
}

fn case_stems(v: &[Testcase]) -> Vec<String> {
    v.iter().map(|c| c.metadata.test_filename().clone()).collect()
}

#[test]
fn version_strings() {
    assert_eq!(V0_6::version_number(), "0.6");
    assert_eq!(V0_7::version_number(), "0.7");
    assert_eq!(V0_8::version_number(), "0.8");
    assert_eq!(V0_11::version_number(), "0.11");
    assert_eq!(V1_0::version_number(), "1.0");
    assert_eq!(version_number_of(Release::V0_11), "0.11");
    assert_eq!(V1_0::release(), Release::V1_0);
    assert_eq!(PRNG_SEED, 0xdeadbeef);
}

#[test]
fn basic_module_tables() {
    assert_eq!(stems(&V0_6::gen_shortint_data()), vec!["client_key", "ct1", "ct2"]);
    assert!(V0_7::gen_shortint_data().is_empty());
    assert!(V0_8::gen_shortint_data().is_empty());
    assert!(V0_11::gen_shortint_data().is_empty());
    assert!(V1_0::gen_shortint_data().is_empty());
    match &V0_6::gen_shortint_data()[2] {
        TestMetadata::ShortintCiphertext(t) => {
            assert_eq!(t.clear_value, 3);
            assert_eq!(t.key_filename, "client_key.cbor");
        }
        other => panic!("unexpected descriptor {:?}", other),
    }
}

#[test]
fn high_level_tables() {
    let v06 = V0_6::gen_hl_data();
    assert_eq!(v06.len(), 25);
    assert_eq!(stems(&v06[..7]), vec![
        "client_key",
        "server_key",
        "compressed_server_key",
        "public_key",
        "compressed_public_key",
        "compact_public_key",
        "compressed_compact_public_key"
    ]);
    assert_eq!(v06[24].test_filename(), "bool_list");
    match &v06[14] {
        TestMetadata::HlSignedCiphertext(t) => {
            assert_eq!(t.test_filename, "ct2_signed");
            assert_eq!(t.clear_value, -127);
        }
        other => panic!("unexpected descriptor {:?}", other),
    }
    match &v06[18] {
        TestMetadata::HlSignedCiphertextList(t) => assert_eq!(t.clear_values, vec![-127, 0, 127]),
        other => panic!("unexpected descriptor {:?}", other),
    }
    assert_eq!(stems(&V0_7::gen_hl_data()), vec![
        "hl_packed_heterogeneous_list",
        "hl_heterogeneous_list",
        "hl_compressed_heterogeneous_list",
        "client_key_with_compression",
        "server_key_with_compression"
    ]);
    match &V0_7::gen_hl_data()[2] {
        TestMetadata::HlHeterogeneousCiphertextList(t) => {
            assert!(t.compressed);
            assert_eq!(t.clear_values, vec![17u8 as u64, -12i8 as u64, false as u64, true as u64]);
            assert_eq!(t.data_kinds, vec![DataKind::Unsigned, DataKind::Signed, DataKind::Bool, DataKind::Bool]);
            assert!(t.proof_info.is_none());
        }
        other => panic!("unexpected descriptor {:?}", other),
    }
    assert_eq!(stems(&V0_11::gen_hl_data()), vec!["zk_pke_crs"]);
    assert_eq!(stems(&V1_0::gen_hl_data()), vec!["client_key_ms_noise_reduction", "server_key_ms_noise_reduction"]);
}

#[test]
fn zk_public_params_scenario() {
    let hl = V0_8::gen_hl_data();
    let zk: Vec<&TestMetadata> = hl.iter().filter(|m| m.kind() == ArtifactKind::ZkPkePublicParams).collect();
    assert_eq!(zk.len(), 1);
    match zk[0] {
        TestMetadata::ZkPkePublicParams(t) => {
            assert_eq!(t.test_filename, "zk_pke_public_params");
            assert_eq!(t.lwe_dimension, 2048);
            assert_eq!(t.max_num_cleartext, 16);
            assert_eq!(t.noise_bound, 46);
            assert_eq!(t.ciphertext_modulus, 1u128 << 64);
            assert_eq!(t.plaintext_modulus, 32);
            assert_eq!(t.padding_bit_count, 1);
        }
        other => panic!("unexpected descriptor {:?}", other),
    }
    match &hl[1] {
        TestMetadata::HlHeterogeneousCiphertextList(t) => {
            let info = t.proof_info.as_ref().unwrap();
            assert_eq!(info.params_filename, "zk_pke_public_params.cbor");
            assert_eq!(info.public_key_filename, "public_key.cbor");
            assert_eq!(info.metadata, "drawkcab");
        }
        other => panic!("unexpected descriptor {:?}", other),
    }
    let cases = release_cases::<V0_8>();
    let (shortint, high_level) = build_manifests(cases).unwrap();
    assert!(shortint.is_empty());
    let entries: Vec<&Testcase> = high_level
        .iter()
        .filter(|c| c.metadata.kind() == ArtifactKind::ZkPkePublicParams)
        .collect();
    assert_eq!(entries.len(), 1);
    assert_eq!(entries[0].metadata.test_filename(), "zk_pke_public_params");
    assert_eq!(entries[0].tfhe_version_min, "0.8");
    assert_eq!(entries[0].tfhe_module, Module::HighLevelApi);
}

#[test]
fn tagging_keeps_order() {
    let version = "0.6".to_string();
    let cases = tag_testcases(&version, Module::Shortint, V0_6::gen_shortint_data());
    assert_eq!(case_stems(&cases), vec!["client_key", "ct1", "ct2"]);
    assert!(cases.iter().all(|c| c.tfhe_version_min == "0.6" && c.tfhe_module == Module::Shortint));
    assert!(tag_testcases(&version, Module::Shortint, Vec::new()).is_empty());
}

#[test]
fn release_cases_basic_then_high_level() {
    let cases = release_cases::<V0_6>();
    assert_eq!(cases.len(), 28);
    assert!(cases[..3].iter().all(|c| c.tfhe_module == Module::Shortint));
    assert!(cases[3..].iter().all(|c| c.tfhe_module == Module::HighLevelApi));
    assert_eq!(cases[3].metadata.test_filename(), "client_key");
    assert!(cases.iter().all(|c| c.tfhe_version_min == "0.6"));
}

#[test]
fn manifest_counts_sum_over_releases() {
    let all = run_cases();
    assert_eq!(all.len(), 3 + 25 + 5 + 2 + 1 + 2);
    let (shortint, high_level) = build_manifests(all).unwrap();
    assert_eq!(shortint.len(), 3);
    assert_eq!(high_level.len(), 25 + 5 + 2 + 1 + 2);
    let versions: Vec<&str> = high_level.iter().map(|c| c.tfhe_version_min.as_str()).collect();
    let mut expected = vec!["0.6"; 25];
    expected.extend(vec!["0.7"; 5]);
    expected.extend(vec!["0.8"; 2]);
    expected.extend(vec!["0.11"; 1]);
    expected.extend(vec!["1.0"; 2]);
    assert_eq!(versions, expected);
    assert_eq!(high_level[25].metadata.test_filename(), "hl_packed_heterogeneous_list");
    assert_eq!(high_level[34].metadata.test_filename(), "server_key_ms_noise_reduction");
}

#[test]
fn two_runs_give_identical_manifests() {
    let (s1, h1) = build_manifests(run_cases()).unwrap();
    let (s2, h2) = build_manifests(run_cases()).unwrap();
    assert_eq!(format!("{:?}", s1), format!("{:?}", s2));
    assert_eq!(format!("{:?}", h1), format!("{:?}", h2));
}

#[test]
fn stems_are_distinct_within_each_directory() {
    assert_eq!(check_distinct_stems(&run_cases()), Ok(()));
}

#[test]
fn repeated_stem_is_a_duplicate_artifact() {
    let version = "0.6".to_string();
    let mut cases = tag_testcases(&version, Module::Shortint, V0_6::gen_shortint_data());
    cases.extend(tag_testcases(&version, Module::Shortint, V0_6::gen_shortint_data()));
    assert_eq!(check_distinct_stems(&cases), Err(GenError::DuplicateArtifact));
    assert_eq!(build_manifests(cases).unwrap_err(), GenError::DuplicateArtifact);
}

#[test]
fn same_stem_in_other_module_or_version_is_fine() {
    let mut cases = tag_testcases(&"0.6".to_string(), Module::Shortint, V0_6::gen_shortint_data());
    cases.extend(tag_testcases(&"0.7".to_string(), Module::Shortint, V0_6::gen_shortint_data()));
    cases.extend(tag_testcases(&"0.6".to_string(), Module::HighLevelApi, V0_6::gen_shortint_data()));
    assert_eq!(check_distinct_stems(&cases), Ok(()));
}

#[test]
fn split_keeps_relative_order() {
    let mut cases = tag_testcases(&"0.6".to_string(), Module::HighLevelApi, V1_0::gen_hl_data());
    cases.extend(tag_testcases(&"0.6".to_string(), Module::Shortint, V0_6::gen_shortint_data()));
    cases.extend(tag_testcases(&"0.7".to_string(), Module::HighLevelApi, V0_11::gen_hl_data()));
    let (shortint, high_level) = split_manifests(cases);
    assert_eq!(case_stems(&shortint), vec!["client_key", "ct1", "ct2"]);
    assert_eq!(case_stems(&high_level), vec![
        "client_key_ms_noise_reduction",
        "server_key_ms_noise_reduction",
        "zk_pke_crs"
    ]);
    let (a, b) = split_manifests(Vec::new());
    assert!(a.is_empty() && b.is_empty());
}

#[test]
fn pipeline_manifests_per_module() {
    let (outputs, shortint, high_level) = gen_manifests(&mut OutputTree::new(), &"out".to_string()).unwrap();
    assert_eq!(outputs.len(), 5);
    assert_eq!(case_stems(&shortint), vec!["client_key", "ct1", "ct2"]);
    assert!(shortint.iter().all(|c| c.tfhe_version_min == "0.6" && c.tfhe_module == Module::Shortint));
    assert_eq!(high_level.len(), 35);
    assert!(high_level.iter().all(|c| c.tfhe_module == Module::HighLevelApi));
    assert_eq!(high_level[0].metadata.test_filename(), "client_key");
    assert_eq!(high_level[32].metadata.test_filename(), "zk_pke_crs");
    assert_eq!(high_level[32].tfhe_version_min, "0.11");
}

#[test]
fn module_labels_round_trip() {
    assert_eq!(Module::Shortint.name(), "shortint");
    assert_eq!(Module::HighLevelApi.name(), "high_level_api");
    assert_eq!(Module::from_name(&"shortint".to_string()), Some(Module::Shortint));
    assert_eq!(Module::from_name(&"high_level_api".to_string()), Some(Module::HighLevelApi));
    assert_eq!(Module::from_name(&"boolean".to_string()), None);
}

#[test]
fn public_key_flags_and_last_entry() {
    let hl = V0_6::gen_hl_data();
    let flags: Vec<(String, bool, bool, String)> = hl
        .iter()
        .filter_map(|m| match m {
            TestMetadata::HlPublicKey(t) => {
                Some((t.test_filename.clone(), t.compressed, t.compact, t.client_key_filename.clone()))
            }
            _ => None,
        })
        .collect();
    assert_eq!(flags, vec![
        ("public_key".to_string(), false, false, "client_key_for_pubkey.cbor".to_string()),
        ("compressed_public_key".to_string(), true, false, "client_key.cbor".to_string()),
        ("compact_public_key".to_string(), false, true, "client_key.cbor".to_string()),
        ("compressed_compact_public_key".to_string(), true, true, "client_key.cbor".to_string()),
    ]);
    match &hl[24] {
        TestMetadata::HlBoolCiphertextList(t) => assert_eq!(t.clear_values, vec![true, false, true]),
        other => panic!("unexpected descriptor {:?}", other),
    }
}

#[test]
fn release_1_0_table() {
    let hl = V1_0::gen_hl_data();
    match &hl[0] {
        TestMetadata::HlClientKey(t) => {
            assert_eq!(t.test_filename, "client_key_ms_noise_reduction");
            assert_eq!(t.parameters.lwe_dimension, 2);
            assert_eq!(t.parameters.modulus_switch_noise_reduction_params.unwrap().modulus_switch_zeros_count, 2);
        }
        other => panic!("unexpected descriptor {:?}", other),
    }
    match &hl[1] {
        TestMetadata::HlServerKey(t) => {
            assert_eq!(t.client_key_filename, "client_key_ms_noise_reduction.cbor");
            assert!(!t.compressed);
        }
        other => panic!("unexpected descriptor {:?}", other),
    }
}
