use backcompat_data::adapters::{TfhersVersion, V0_6, V0_7, V0_8, V0_11, V1_0};
use backcompat_data::error::GenError;
use backcompat_data::params::{
    insecure_small_pk_test_params, insecure_small_test_params_ms_noise_reduction, invalid_test_params,
    translate_ciphertext_modulus, translate_distribution, translate_key_choice, translate_params,
    valid_test_params, valid_test_params_tuniform, valid_test_params_tuniform_compression, CiphertextModulus,
    DynamicDistribution, EncryptionKeyChoice, Release, TestDistribution, TestParameterSet,
};

const RELEASES: [Release; 5] = [Release::V0_6, Release::V0_7, Release::V0_8, Release::V0_11, Release::V1_0];

#[test]
fn translate_valid_params_fields() {
    let p = translate_params(&valid_test_params(), Release::V0_6).unwrap();
    assert_eq!(p.lwe_dimension, 761);
    assert_eq!(p.glwe_dimension, 1);
    assert_eq!(p.polynomial_size, 2048);
    assert_eq!(p.lwe_noise_distribution, DynamicDistribution::Gaussian { std_dev_bits: 6.36835566258815e-06f64.to_bits() });
    assert_eq!(p.glwe_noise_distribution, DynamicDistribution::Gaussian { std_dev_bits: 3.1529322391500584e-16f64.to_bits() });
    assert_eq!(p.pbs_base_log, 23);
    assert_eq!(p.pbs_level, 1);
    assert_eq!(p.ks_base_log, 3);
    assert_eq!(p.ks_level, 5);
    assert_eq!(p.message_modulus, 4);
    assert_eq!(p.carry_modulus, 4);
    assert_eq!(p.max_noise_level, 5);
    assert_eq!(f64::from_bits(p.log2_p_fail_bits), -40.05);
    assert_eq!(p.ciphertext_modulus, CiphertextModulus::Native);
    assert_eq!(p.encryption_key_choice, EncryptionKeyChoice::Big);
    assert_eq!(p.modulus_switch_noise_reduction_params, None);
}

#[test]
fn translate_tuniform_params() {
    let p = translate_params(&valid_test_params_tuniform(), Release::V0_8).unwrap();
    assert_eq!(p.lwe_dimension, 887);
    assert_eq!(p.message_modulus, 4);
    assert_eq!(p.carry_modulus, 4);
    assert_eq!(p.lwe_noise_distribution, DynamicDistribution::TUniform { bound_log2: 46 });
    assert_eq!(p.glwe_noise_distribution, DynamicDistribution::TUniform { bound_log2: 17 });
    assert_eq!(f64::from_bits(p.log2_p_fail_bits), -64.138);
}

#[test]
fn small_key_choice_translates() {
    let p = translate_params(&insecure_small_pk_test_params(), Release::V0_6).unwrap();
    assert_eq!(p.encryption_key_choice, EncryptionKeyChoice::Small);
    assert_eq!(p.lwe_dimension, 10);
    assert_eq!(p.glwe_dimension, 4);
    assert_eq!(p.polynomial_size, 512);
}

#[test]
fn ms_noise_reduction_kept_only_where_supported() {
    let p = insecure_small_test_params_ms_noise_reduction();
    let newer = translate_params(&p, Release::V1_0).unwrap();
    let ms = newer.modulus_switch_noise_reduction_params.unwrap();
    assert_eq!(ms.modulus_switch_zeros_count, 2);
    assert_eq!(f64::from_bits(ms.ms_bound_bits), 288230376151711744f64);
    assert_eq!(f64::from_bits(ms.ms_r_sigma_factor_bits), 14.5216195122155f64);
    let older = translate_params(&p, Release::V0_11).unwrap();
    assert_eq!(older.modulus_switch_noise_reduction_params, None);
}

#[test]
fn unknown_key_choice_fails_closed() {
    assert_eq!(translate_key_choice(&"big".to_string()), Ok(EncryptionKeyChoice::Big));
    assert_eq!(translate_key_choice(&"small".to_string()), Ok(EncryptionKeyChoice::Small));
    assert_eq!(translate_key_choice(&"Big".to_string()), Err(GenError::UnsupportedParameterChoice));
    assert_eq!(translate_key_choice(&"".to_string()), Err(GenError::UnsupportedParameterChoice));
    let mut p: TestParameterSet = valid_test_params();
    p.encryption_key_choice = "medium".to_string();
    for r in RELEASES {
        assert_eq!(translate_params(&p, r).unwrap_err(), GenError::UnsupportedParameterChoice);
    }
}

#[test]
fn ciphertext_modulus_limits() {
    assert_eq!(translate_ciphertext_modulus(0), Ok(CiphertextModulus::Native));
    assert_eq!(translate_ciphertext_modulus(1u128 << 64), Ok(CiphertextModulus::Native));
    assert_eq!(translate_ciphertext_modulus(1u128 << 32), Ok(CiphertextModulus::Custom { modulus: 1u64 << 32 }));
    assert_eq!(translate_ciphertext_modulus((1u128 << 64) + 1), Err(GenError::CiphertextModulusTooBig));
    assert_eq!(translate_ciphertext_modulus(u128::MAX), Err(GenError::CiphertextModulusTooBig));
}

#[test]
fn invalid_params_fields() {
    let p = invalid_test_params();
    assert_eq!(p.polynomial_size, usize::MAX);
    assert_eq!(p.max_noise_level, usize::MAX);
    assert_eq!(f64::from_bits(p.log2_p_fail_bits), f64::MAX);
    assert_eq!(p.lwe_noise_distribution, TestDistribution::Gaussian { stddev_bits: f64::MAX.to_bits() });
    assert!(p.modulus_switch_noise_reduction_params.is_none());
}

#[test]
fn invalid_params_are_rejected() {
    assert_eq!(
        translate_params(&invalid_test_params(), Release::V1_0).unwrap_err(),
        GenError::CiphertextModulusTooBig
    );
}

#[test]
fn modulus_is_checked_before_key_choice() {
    let mut p = invalid_test_params();
    p.encryption_key_choice = "huge".to_string();
    assert_eq!(translate_params(&p, Release::V0_7).unwrap_err(), GenError::CiphertextModulusTooBig);
}

#[test]
fn distribution_translation_keeps_variant() {
    assert_eq!(
        translate_distribution(TestDistribution::TUniform { bound_log2: 42 }),
        DynamicDistribution::TUniform { bound_log2: 42 }
    );
    assert_eq!(
        translate_distribution(TestDistribution::Gaussian { stddev_bits: 7 }),
        DynamicDistribution::Gaussian { std_dev_bits: 7 }
    );
}

#[test]
fn compression_params_values() {
    let c = valid_test_params_tuniform_compression();
    assert_eq!(c.br_level, 1);
    assert_eq!(c.br_base_log, 23);
    assert_eq!(c.packing_ks_polynomial_size, 256);
    assert_eq!(c.storage_log_modulus, 12);
    assert_eq!(c.packing_ks_key_noise_distribution, TestDistribution::TUniform { bound_log2: 42 });
}

fn table_params_translate<V: TfhersVersion>() {
    for m in V::gen_shortint_data().iter().chain(V::gen_hl_data().iter()) {
        if let Some(p) = m.parameters() {
            assert!(translate_params(p, V::release()).is_ok());
        }
    }
}

#[test]
fn every_table_parameter_set_translates() {
    table_params_translate::<V0_6>();
    table_params_translate::<V0_7>();
    table_params_translate::<V0_8>();
    table_params_translate::<V0_11>();
    table_params_translate::<V1_0>();
    for r in RELEASES {
        for p in [
            valid_test_params(),
            valid_test_params_tuniform(),
            insecure_small_pk_test_params(),
            insecure_small_test_params_ms_noise_reduction(),
        ] {
            assert!(translate_params(&p, r).is_ok());
        }
    }
}
