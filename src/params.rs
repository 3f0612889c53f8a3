//! Version-agnostic parameter records and their translation into the concrete
//! parameter record of one release.
//!
//! Floating-point fields (standard deviations, failure probabilities, bounds) are
//! carried as their IEEE-754 bit patterns: the translation moves them unchanged.
use vstd::prelude::*;
use crate::error::GenError;
use vstd::string::*;

verus! {

/// The releases of the host library that fixtures are produced for.
#[derive(Debug, Clone, Copy, PartialEq, Eq, Structural)]
pub enum Release {
    V0_6,
    V0_7,
    V0_8,
    V0_11,
    V1_0,
}

/// Whether the concrete parameter record of a release has a slot for
/// modulus-switch noise reduction.
pub open spec fn supports_ms_noise_reduction(r: Release) -> bool {
    r == Release::V1_0
}

/// Noise distribution choice of an abstract parameter record.
#[derive(Debug, Clone, Copy, PartialEq, Eq, Structural)]
pub enum TestDistribution {
    Gaussian { stddev_bits: u64 },
    TUniform { bound_log2: u32 },
}

/// Optional modulus-switch noise-reduction sub-parameters.
#[derive(Debug, Clone, Copy, PartialEq, Eq, Structural)]
pub struct TestModulusSwitchNoiseReductionParams {
    pub modulus_switch_zeros_count: usize,
    pub ms_bound_bits: u64,
    pub ms_r_sigma_factor_bits: u64,
    pub ms_input_variance_bits: u64,
}

/// An abstract bag of cryptographic tuning values, independent of any release.
#[derive(Debug, Clone)]
pub struct TestParameterSet {
    pub lwe_dimension: usize,
    pub glwe_dimension: usize,
    pub polynomial_size: usize,
    pub lwe_noise_distribution: TestDistribution,
    pub glwe_noise_distribution: TestDistribution,
    pub pbs_base_log: usize,
    pub pbs_level: usize,
    pub ks_base_log: usize,
    pub ks_level: usize,
    pub message_modulus: usize,
    pub carry_modulus: usize,
    pub max_noise_level: usize,
    pub log2_p_fail_bits: u64,
    pub ciphertext_modulus: u128,
    pub encryption_key_choice: String,
    pub modulus_switch_noise_reduction_params: Option<TestModulusSwitchNoiseReductionParams>,
}

/// A parameter record with its key-side literal as a character sequence.
pub struct TestParameterSetView {
    pub lwe_dimension: usize,
    pub glwe_dimension: usize,
    pub polynomial_size: usize,
    pub lwe_noise_distribution: TestDistribution,
    pub glwe_noise_distribution: TestDistribution,
    pub pbs_base_log: usize,
    pub pbs_level: usize,
    pub ks_base_log: usize,
    pub ks_level: usize,
    pub message_modulus: usize,
    pub carry_modulus: usize,
    pub max_noise_level: usize,
    pub log2_p_fail_bits: u64,
    pub ciphertext_modulus: u128,
    pub encryption_key_choice: Seq<char>,
    pub modulus_switch_noise_reduction_params: Option<TestModulusSwitchNoiseReductionParams>,
}

impl View for TestParameterSet {
    type V = TestParameterSetView;

    open spec fn view(&self) -> TestParameterSetView {
        TestParameterSetView {
            lwe_dimension: self.lwe_dimension,
            glwe_dimension: self.glwe_dimension,
            polynomial_size: self.polynomial_size,
            lwe_noise_distribution: self.lwe_noise_distribution,
            glwe_noise_distribution: self.glwe_noise_distribution,
            pbs_base_log: self.pbs_base_log,
            pbs_level: self.pbs_level,
            ks_base_log: self.ks_base_log,
            ks_level: self.ks_level,
            message_modulus: self.message_modulus,
            carry_modulus: self.carry_modulus,
            max_noise_level: self.max_noise_level,
            log2_p_fail_bits: self.log2_p_fail_bits,
            ciphertext_modulus: self.ciphertext_modulus,
            encryption_key_choice: self.encryption_key_choice@,
            modulus_switch_noise_reduction_params: self.modulus_switch_noise_reduction_params,
        }
    }
}

/// Compression parameters of the high-level API.
#[derive(Debug, Clone, Copy, PartialEq, Eq, Structural)]
pub struct TestCompressionParameterSet {
    pub br_level: usize,
    pub br_base_log: usize,
    pub packing_ks_level: usize,
    pub packing_ks_base_log: usize,
    pub packing_ks_polynomial_size: usize,
    pub packing_ks_glwe_dimension: usize,
    pub lwe_per_glwe: usize,
    pub storage_log_modulus: usize,
    pub packing_ks_key_noise_distribution: TestDistribution,
}

/// Which secret key encrypts in a release's parameter record.
#[derive(Debug, Clone, Copy, PartialEq, Eq, Structural)]
pub enum EncryptionKeyChoice {
    Big,
    Small,
}

/// Ciphertext modulus of a release with a 64-bit scalar: the native modulus
/// 2^64, or a custom one strictly between 0 and 2^64.
#[derive(Debug, Clone, Copy, PartialEq, Eq, Structural)]
pub enum CiphertextModulus {
    Native,
    Custom { modulus: u64 },
}

/// A release's noise distribution.
#[derive(Debug, Clone, Copy, PartialEq, Eq, Structural)]
pub enum DynamicDistribution {
    Gaussian { std_dev_bits: u64 },
    TUniform { bound_log2: u32 },
}

/// A release's modulus-switch noise-reduction record.
#[derive(Debug, Clone, Copy, PartialEq, Eq, Structural)]
pub struct ModulusSwitchNoiseReductionParams {
    pub modulus_switch_zeros_count: usize,
    pub ms_bound_bits: u64,
    pub ms_r_sigma_factor_bits: u64,
    pub ms_input_variance_bits: u64,
}

/// The concrete parameter record that a release consumes.
#[derive(Debug, Clone, Copy, PartialEq, Eq, Structural)]
pub struct ClassicPbsParameters {
    pub lwe_dimension: usize,
    pub glwe_dimension: usize,
    pub polynomial_size: usize,
    pub lwe_noise_distribution: DynamicDistribution,
    pub glwe_noise_distribution: DynamicDistribution,
    pub pbs_base_log: usize,
    pub pbs_level: usize,
    pub ks_base_log: usize,
    pub ks_level: usize,
    pub message_modulus: usize,
    pub carry_modulus: usize,
    pub max_noise_level: usize,
    pub log2_p_fail_bits: u64,
    pub ciphertext_modulus: CiphertextModulus,
    pub encryption_key_choice: EncryptionKeyChoice,
    pub modulus_switch_noise_reduction_params: Option<ModulusSwitchNoiseReductionParams>,
}

pub open spec fn distribution_spec(d: TestDistribution) -> DynamicDistribution {
    match d {
        TestDistribution::Gaussian { stddev_bits } => DynamicDistribution::Gaussian {
            std_dev_bits: stddev_bits,
        },
        TestDistribution::TUniform { bound_log2 } => DynamicDistribution::TUniform { bound_log2 },
    }
}

/// The key-side literal is checked against an allow-list; anything else fails closed.
pub open spec fn key_choice_spec(s: Seq<char>) -> Result<EncryptionKeyChoice, GenError> {
    if s == "big"@ {
        Ok(EncryptionKeyChoice::Big)
    } else if s == "small"@ {
        Ok(EncryptionKeyChoice::Small)
    } else {
        Err(GenError::UnsupportedParameterChoice)
    }
}

pub open spec fn native_modulus() -> int {
    0x1_0000_0000_0000_0000
}

/// 0 and 2^64 both name the native modulus; above 2^64 nothing fits a 64-bit scalar.
pub open spec fn ciphertext_modulus_spec(m: u128) -> Result<CiphertextModulus, GenError> {
    if m > native_modulus() {
        Err(GenError::CiphertextModulusTooBig)
    } else if m == 0 || m == native_modulus() {
        Ok(CiphertextModulus::Native)
    } else {
        Ok(CiphertextModulus::Custom { modulus: m as u64 })
    }
}

pub open spec fn ms_noise_reduction_spec(
    p: TestModulusSwitchNoiseReductionParams,
) -> ModulusSwitchNoiseReductionParams {
    ModulusSwitchNoiseReductionParams {
        modulus_switch_zeros_count: p.modulus_switch_zeros_count,
        ms_bound_bits: p.ms_bound_bits,
        ms_r_sigma_factor_bits: p.ms_r_sigma_factor_bits,
        ms_input_variance_bits: p.ms_input_variance_bits,
    }
}

/// The optional sub-record is kept only where the release has a slot for it.
pub open spec fn ms_option_spec(
    o: Option<TestModulusSwitchNoiseReductionParams>,
    r: Release,
) -> Option<ModulusSwitchNoiseReductionParams> {
    match o {
        Some(p) => if supports_ms_noise_reduction(r) {
            Some(ms_noise_reduction_spec(p))
        } else {
            None
        },
        None => None,
    }
}

/// The record `p` becomes in release `r`, or the first field that has no mapping.
pub open spec fn translate_spec(p: TestParameterSet, r: Release) -> Result<ClassicPbsParameters, GenError> {
    match ciphertext_modulus_spec(p.ciphertext_modulus) {
        Err(e) => Err(e),
        Ok(ciphertext_modulus) => match key_choice_spec(p.encryption_key_choice@) {
            Err(e) => Err(e),
            Ok(encryption_key_choice) => Ok(
                ClassicPbsParameters {
                    lwe_dimension: p.lwe_dimension,
                    glwe_dimension: p.glwe_dimension,
                    polynomial_size: p.polynomial_size,
                    lwe_noise_distribution: distribution_spec(p.lwe_noise_distribution),
                    glwe_noise_distribution: distribution_spec(p.glwe_noise_distribution),
                    pbs_base_log: p.pbs_base_log,
                    pbs_level: p.pbs_level,
                    ks_base_log: p.ks_base_log,
                    ks_level: p.ks_level,
                    message_modulus: p.message_modulus,
                    carry_modulus: p.carry_modulus,
                    max_noise_level: p.max_noise_level,
                    log2_p_fail_bits: p.log2_p_fail_bits,
                    ciphertext_modulus,
                    encryption_key_choice,
                    modulus_switch_noise_reduction_params: ms_option_spec(
                        p.modulus_switch_noise_reduction_params,
                        r,
                    ),
                },
            ),
        },
    }
}

/// Translates a noise distribution; every variant has a counterpart.
pub fn translate_distribution(d: TestDistribution) -> (r: DynamicDistribution)
    ensures
        r == distribution_spec(d),
{
    match d {
        TestDistribution::Gaussian { stddev_bits } => DynamicDistribution::Gaussian {
            std_dev_bits: stddev_bits,
        },
        TestDistribution::TUniform { bound_log2 } => DynamicDistribution::TUniform { bound_log2 },
    }
}

/// Maps the key-side literal onto the release's key choice.
pub fn translate_key_choice(s: &String) -> (r: Result<EncryptionKeyChoice, GenError>)
    ensures
        r == key_choice_spec(s@),
{
    let big = String::from_str("big");
    let small = String::from_str("small");
    if *s == big {
        Ok(EncryptionKeyChoice::Big)
    } else if *s == small {
        Ok(EncryptionKeyChoice::Small)
    } else {
        Err(GenError::UnsupportedParameterChoice)
    }
}

/// Builds the ciphertext modulus of a release with a 64-bit scalar.
pub fn translate_ciphertext_modulus(m: u128) -> (r: Result<CiphertextModulus, GenError>)
    ensures
        r == ciphertext_modulus_spec(m),
{
    if m > 0x1_0000_0000_0000_0000u128 {
        Err(GenError::CiphertextModulusTooBig)
    } else if m == 0 || m == 0x1_0000_0000_0000_0000u128 {
        Ok(CiphertextModulus::Native)
    } else {
        Ok(CiphertextModulus::Custom { modulus: m as u64 })
    }
}

/// Translates an abstract parameter record into the concrete record of `release`.
///
/// Every field carries over, with two exceptions. The ciphertext modulus must fit
/// the 64-bit scalar that every supported release uses: above 2^64 the release
/// cannot build it and translation fails with `CiphertextModulusTooBig`. The
/// key-side literal must be "big" or "small": anything else fails with
/// `UnsupportedParameterChoice`. The modulus is checked first.
pub fn translate_params(p: &TestParameterSet, release: Release) -> (r: Result<ClassicPbsParameters, GenError>)
    ensures
        r == translate_spec(*p, release),
{
    let ciphertext_modulus = match translate_ciphertext_modulus(p.ciphertext_modulus) {
        Ok(m) => m,
        Err(e) => {
            return Err(e);
        },
    };
    let encryption_key_choice = match translate_key_choice(&p.encryption_key_choice) {
        Ok(k) => k,
        Err(e) => {
            return Err(e);
        },
    };
    let modulus_switch_noise_reduction_params = match p.modulus_switch_noise_reduction_params {
        Some(ms) => if release == Release::V1_0 {
            Some(
                ModulusSwitchNoiseReductionParams {
                    modulus_switch_zeros_count: ms.modulus_switch_zeros_count,
                    ms_bound_bits: ms.ms_bound_bits,
                    ms_r_sigma_factor_bits: ms.ms_r_sigma_factor_bits,
                    ms_input_variance_bits: ms.ms_input_variance_bits,
                },
            )
        } else {
            None
        },
        None => None,
    };
    Ok(
        ClassicPbsParameters {
            lwe_dimension: p.lwe_dimension,
            glwe_dimension: p.glwe_dimension,
            polynomial_size: p.polynomial_size,
            lwe_noise_distribution: translate_distribution(p.lwe_noise_distribution),
            glwe_noise_distribution: translate_distribution(p.glwe_noise_distribution),
            pbs_base_log: p.pbs_base_log,
            pbs_level: p.pbs_level,
            ks_base_log: p.ks_base_log,
            ks_level: p.ks_level,
            message_modulus: p.message_modulus,
            carry_modulus: p.carry_modulus,
            max_noise_level: p.max_noise_level,
            log2_p_fail_bits: p.log2_p_fail_bits,
            ciphertext_modulus,
            encryption_key_choice,
            modulus_switch_noise_reduction_params,
        },
    )
}

/// What `valid_test_params` builds.
pub open spec fn valid_test_params_view() -> TestParameterSetView {
    TestParameterSetView {
        lwe_dimension: 761,
        glwe_dimension: 1,
        polynomial_size: 2048,
        lwe_noise_distribution: TestDistribution::Gaussian { stddev_bits: 0x3edab5f84673faa8 },
        glwe_noise_distribution: TestDistribution::Gaussian { stddev_bits: 0x3cb6b8222723f06b },
        pbs_base_log: 23,
        pbs_level: 1,
        ks_base_log: 3,
        ks_level: 5,
        message_modulus: 4,
        carry_modulus: 4,
        max_noise_level: 5,
        log2_p_fail_bits: 0xc044066666666666,
        ciphertext_modulus: 0x1_0000_0000_0000_0000,
        encryption_key_choice: "big"@,
        modulus_switch_noise_reduction_params: None,
    }
}

/// Valid parameter set that can be used in the library's operations.
pub fn valid_test_params() -> (r: TestParameterSet)
    ensures
        r@ == valid_test_params_view(),
{
    TestParameterSet {
        lwe_dimension: 761,
        glwe_dimension: 1,
        polynomial_size: 2048,
        lwe_noise_distribution: TestDistribution::Gaussian { stddev_bits: 0x3edab5f84673faa8 },
        glwe_noise_distribution: TestDistribution::Gaussian { stddev_bits: 0x3cb6b8222723f06b },
        pbs_base_log: 23,
        pbs_level: 1,
        ks_base_log: 3,
        ks_level: 5,
        message_modulus: 4,
        carry_modulus: 4,
        max_noise_level: 5,
        log2_p_fail_bits: 0xc044066666666666,
        ciphertext_modulus: 0x1_0000_0000_0000_0000,
        encryption_key_choice: String::from_str("big"),
        modulus_switch_noise_reduction_params: None,
    }
}

/// What `valid_test_params_tuniform` builds.
pub open spec fn valid_test_params_tuniform_view() -> TestParameterSetView {
    TestParameterSetView {
        lwe_dimension: 887,
        glwe_dimension: 1,
        polynomial_size: 2048,
        lwe_noise_distribution: TestDistribution::TUniform { bound_log2: 46 },
        glwe_noise_distribution: TestDistribution::TUniform { bound_log2: 17 },
        pbs_base_log: 22,
        pbs_level: 1,
        ks_base_log: 3,
        ks_level: 5,
        message_modulus: 4,
        carry_modulus: 4,
        max_noise_level: 5,
        log2_p_fail_bits: 0xc05008d4fdf3b646,
        ciphertext_modulus: 0x1_0000_0000_0000_0000,
        encryption_key_choice: "big"@,
        modulus_switch_noise_reduction_params: None,
    }
}

/// Valid parameter set with t-uniform noise.
pub fn valid_test_params_tuniform() -> (r: TestParameterSet)
    ensures
        r@ == valid_test_params_tuniform_view(),
{
    TestParameterSet {
        lwe_dimension: 887,
        glwe_dimension: 1,
        polynomial_size: 2048,
        lwe_noise_distribution: TestDistribution::TUniform { bound_log2: 46 },
        glwe_noise_distribution: TestDistribution::TUniform { bound_log2: 17 },
        pbs_base_log: 22,
        pbs_level: 1,
        ks_base_log: 3,
        ks_level: 5,
        message_modulus: 4,
        carry_modulus: 4,
        max_noise_level: 5,
        log2_p_fail_bits: 0xc05008d4fdf3b646,
        ciphertext_modulus: 0x1_0000_0000_0000_0000,
        encryption_key_choice: String::from_str("big"),
        modulus_switch_noise_reduction_params: None,
    }
}

/// What `insecure_small_pk_test_params` builds.
pub open spec fn insecure_small_pk_test_params_view() -> TestParameterSetView {
    TestParameterSetView {
        lwe_dimension: 10,
        glwe_dimension: 4,
        polynomial_size: 512,
        lwe_noise_distribution: TestDistribution::Gaussian { stddev_bits: 0x3eb92a06249b52fe },
        glwe_noise_distribution: TestDistribution::Gaussian { stddev_bits: 0x3ce9a0bd78f99e7a },
        pbs_base_log: 23,
        pbs_level: 1,
        ks_base_log: 5,
        ks_level: 3,
        message_modulus: 2,
        carry_modulus: 2,
        max_noise_level: 3,
        log2_p_fail_bits: 0xc050033333333333,
        ciphertext_modulus: 0x1_0000_0000_0000_0000,
        encryption_key_choice: "small"@,
        modulus_switch_noise_reduction_params: None,
    }
}

/// Insecure parameters, used to generate small legacy public keys.
pub fn insecure_small_pk_test_params() -> (r: TestParameterSet)
    ensures
        r@ == insecure_small_pk_test_params_view(),
{
    TestParameterSet {
        lwe_dimension: 10,
        glwe_dimension: 4,
        polynomial_size: 512,
        lwe_noise_distribution: TestDistribution::Gaussian { stddev_bits: 0x3eb92a06249b52fe },
        glwe_noise_distribution: TestDistribution::Gaussian { stddev_bits: 0x3ce9a0bd78f99e7a },
        pbs_base_log: 23,
        pbs_level: 1,
        ks_base_log: 5,
        ks_level: 3,
        message_modulus: 2,
        carry_modulus: 2,
        max_noise_level: 3,
        log2_p_fail_bits: 0xc050033333333333,
        ciphertext_modulus: 0x1_0000_0000_0000_0000,
        encryption_key_choice: String::from_str("small"),
        modulus_switch_noise_reduction_params: None,
    }
}

/// What `insecure_small_test_params_ms_noise_reduction` builds.
pub open spec fn insecure_small_test_params_ms_noise_reduction_view() -> TestParameterSetView {
    TestParameterSetView {
        lwe_dimension: 2,
        glwe_dimension: 1,
        polynomial_size: 2048,
        lwe_noise_distribution: TestDistribution::TUniform { bound_log2: 45 },
        glwe_noise_distribution: TestDistribution::TUniform { bound_log2: 17 },
        pbs_base_log: 23,
        pbs_level: 1,
        ks_base_log: 4,
        ks_level: 4,
        message_modulus: 4,
        carry_modulus: 4,
        max_noise_level: 5,
        log2_p_fail_bits: 0xc06024e6f4ffa188,
        ciphertext_modulus: 0x1_0000_0000_0000_0000,
        encryption_key_choice: "small"@,
        modulus_switch_noise_reduction_params: Some(
            TestModulusSwitchNoiseReductionParams {
                modulus_switch_zeros_count: 2,
                ms_bound_bits: 0x4390000000000000,
                ms_r_sigma_factor_bits: 0x402d0b11b673d793,
                ms_input_variance_bits: 0x3e91a6fa90de36cf,
            },
        ),
    }
}

/// Insecure parameters with modulus-switch noise reduction. The input variance
/// of the noise reduction, about 2.63e-7 (bit pattern `0x3e91a6fa90de36cf`), is
/// the value that the host library's own noise-reduction parameter sets carry;
/// the bound (2^58) and the sigma factor (about 14.52) are this record's own.
pub fn insecure_small_test_params_ms_noise_reduction() -> (r: TestParameterSet)
    ensures
        r@ == insecure_small_test_params_ms_noise_reduction_view(),
{
    TestParameterSet {
        lwe_dimension: 2,
        glwe_dimension: 1,
        polynomial_size: 2048,
        lwe_noise_distribution: TestDistribution::TUniform { bound_log2: 45 },
        glwe_noise_distribution: TestDistribution::TUniform { bound_log2: 17 },
        pbs_base_log: 23,
        pbs_level: 1,
        ks_base_log: 4,
        ks_level: 4,
        message_modulus: 4,
        carry_modulus: 4,
        max_noise_level: 5,
        log2_p_fail_bits: 0xc06024e6f4ffa188,
        ciphertext_modulus: 0x1_0000_0000_0000_0000,
        encryption_key_choice: String::from_str("small"),
        modulus_switch_noise_reduction_params: Some(
                TestModulusSwitchNoiseReductionParams {
                    modulus_switch_zeros_count: 2,
                    ms_bound_bits: 0x4390000000000000,
                    ms_r_sigma_factor_bits: 0x402d0b11b673d793,
                    ms_input_variance_bits: 0x3e91a6fa90de36cf,
                },
            ),
    }
}

/// What `invalid_test_params` builds.
pub open spec fn invalid_test_params_view() -> TestParameterSetView {
    TestParameterSetView {
        lwe_dimension: usize::MAX,
        glwe_dimension: usize::MAX,
        polynomial_size: usize::MAX,
        lwe_noise_distribution: TestDistribution::Gaussian { stddev_bits: 0x7fef_ffff_ffff_ffff },
        glwe_noise_distribution: TestDistribution::Gaussian { stddev_bits: 0x7fef_ffff_ffff_ffff },
        pbs_base_log: usize::MAX,
        pbs_level: usize::MAX,
        ks_base_log: usize::MAX,
        ks_level: usize::MAX,
        message_modulus: usize::MAX,
        carry_modulus: usize::MAX,
        max_noise_level: usize::MAX,
        log2_p_fail_bits: 0x7fef_ffff_ffff_ffff,
        ciphertext_modulus: u128::MAX,
        encryption_key_choice: "big"@,
        modulus_switch_noise_reduction_params: None,
    }
}

/// Parameters at the limits of every field; no release can hold them.
pub fn invalid_test_params() -> (r: TestParameterSet)
    ensures
        r@ == invalid_test_params_view(),
{
    TestParameterSet {
        lwe_dimension: usize::MAX,
        glwe_dimension: usize::MAX,
        polynomial_size: usize::MAX,
        lwe_noise_distribution: TestDistribution::Gaussian { stddev_bits: 0x7fef_ffff_ffff_ffff },
        glwe_noise_distribution: TestDistribution::Gaussian { stddev_bits: 0x7fef_ffff_ffff_ffff },
        pbs_base_log: usize::MAX,
        pbs_level: usize::MAX,
        ks_base_log: usize::MAX,
        ks_level: usize::MAX,
        message_modulus: usize::MAX,
        carry_modulus: usize::MAX,
        max_noise_level: usize::MAX,
        log2_p_fail_bits: 0x7fef_ffff_ffff_ffff,
        ciphertext_modulus: u128::MAX,
        encryption_key_choice: String::from_str("big"),
        modulus_switch_noise_reduction_params: None,
    }
}

/// Compression parameters for the 2-bit message, 2-bit carry t-uniform set.
pub fn valid_test_params_tuniform_compression() -> (r: TestCompressionParameterSet)
    ensures
        r == (TestCompressionParameterSet {
            br_level: 1,
            br_base_log: 23,
            packing_ks_level: 4,
            packing_ks_base_log: 4,
            packing_ks_polynomial_size: 256,
            packing_ks_glwe_dimension: 4,
            lwe_per_glwe: 256,
            storage_log_modulus: 12,
            packing_ks_key_noise_distribution: TestDistribution::TUniform { bound_log2: 42 },
        }),
{
    TestCompressionParameterSet {
        br_level: 1,
        br_base_log: 23,
        packing_ks_level: 4,
        packing_ks_base_log: 4,
        packing_ks_polynomial_size: 256,
        packing_ks_glwe_dimension: 4,
        lwe_per_glwe: 256,
        storage_log_modulus: 12,
        packing_ks_key_noise_distribution: TestDistribution::TUniform { bound_log2: 42 },
    }
}

/// A record built by one of the named constructors that the release tables use.
pub open spec fn is_table_params(p: TestParameterSetView) -> bool {
    ||| p == valid_test_params_view()
    ||| p == valid_test_params_tuniform_view()
    ||| p == insecure_small_pk_test_params_view()
    ||| p == insecure_small_test_params_ms_noise_reduction_view()
}

/// Every parameter record that the release tables use translates into every
/// release without an unsupported choice.
pub proof fn lemma_table_params_translate(p: TestParameterSet, r: Release)
    requires
        is_table_params(p@),
    ensures
        translate_spec(p, r) is Ok,
{
}

} // verus!
