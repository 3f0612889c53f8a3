//! Descriptors of generated artifacts, and the testcases that tie each one to a
//! release and a module.
use vstd::prelude::*;
use vstd::string::*;
use crate::params::{TestParameterSet, TestParameterSetView};

verus! {

/// The logical API surface an artifact belongs to.
#[derive(Debug, Clone, Copy, PartialEq, Eq, Structural)]
pub enum Module {
    Shortint,
    HighLevelApi,
}

pub open spec fn module_name_spec(m: Module) -> Seq<char> {
    match m {
        Module::Shortint => "shortint"@,
        Module::HighLevelApi => "high_level_api"@,
    }
}

impl Module {
    /// The label of the module, used as a directory name and in manifests.
    pub fn name(&self) -> (r: String)
        ensures
            r@ == module_name_spec(*self),
    {
        match self {
            Module::Shortint => String::from_str("shortint"),
            Module::HighLevelApi => String::from_str("high_level_api"),
        }
    }

    /// The module with label `s`, if any.
    pub fn from_name(s: &String) -> (r: Option<Module>)
        ensures
            r matches Some(m) ==> module_name_spec(m) == s@,
            r is None ==> s@ != module_name_spec(Module::Shortint) && s@ != module_name_spec(
                Module::HighLevelApi,
            ),
    {
        if *s == Module::Shortint.name() {
            Some(Module::Shortint)
        } else if *s == Module::HighLevelApi.name() {
            Some(Module::HighLevelApi)
        } else {
            None
        }
    }
}

/// Kind of a clear value inside a heterogeneous list.
#[derive(Debug, Clone, Copy, PartialEq, Eq, Structural)]
pub enum DataKind {
    Bool,
    Signed,
    Unsigned,
}

/// Files and metadata needed to check a proven list.
#[derive(Debug, Clone)]
pub struct PkeZkProofAuxiliaryInfo {
    pub public_key_filename: String,
    pub params_filename: String,
    pub metadata: String,
}

#[derive(Debug, Clone)]
pub struct ShortintClientKeyTest {
    pub test_filename: String,
    pub parameters: TestParameterSet,
}

#[derive(Debug, Clone)]
pub struct ShortintCiphertextTest {
    pub test_filename: String,
    pub key_filename: String,
    pub clear_value: u64,
}

#[derive(Debug, Clone)]
pub struct HlClientKeyTest {
    pub test_filename: String,
    pub parameters: TestParameterSet,
}

#[derive(Debug, Clone)]
pub struct HlServerKeyTest {
    pub test_filename: String,
    pub client_key_filename: String,
    pub compressed: bool,
}

#[derive(Debug, Clone)]
pub struct HlPublicKeyTest {
    pub test_filename: String,
    pub client_key_filename: String,
    pub compressed: bool,
    pub compact: bool,
}

#[derive(Debug, Clone)]
pub struct HlCiphertextTest {
    pub test_filename: String,
    pub key_filename: String,
    pub compressed: bool,
    pub compact: bool,
    pub clear_value: u64,
}

#[derive(Debug, Clone)]
pub struct HlSignedCiphertextTest {
    pub test_filename: String,
    pub key_filename: String,
    pub compressed: bool,
    pub compact: bool,
    pub clear_value: i64,
}

#[derive(Debug, Clone)]
pub struct HlBoolCiphertextTest {
    pub test_filename: String,
    pub key_filename: String,
    pub compressed: bool,
    pub compact: bool,
    pub clear_value: bool,
}

#[derive(Debug, Clone)]
pub struct HlCiphertextListTest {
    pub test_filename: String,
    pub key_filename: String,
    pub clear_values: Vec<u64>,
}

#[derive(Debug, Clone)]
pub struct HlSignedCiphertextListTest {
    pub test_filename: String,
    pub key_filename: String,
    pub clear_values: Vec<i64>,
}

#[derive(Debug, Clone)]
pub struct HlBoolCiphertextListTest {
    pub test_filename: String,
    pub key_filename: String,
    pub clear_values: Vec<bool>,
}

#[derive(Debug, Clone)]
pub struct HlHeterogeneousCiphertextListTest {
    pub test_filename: String,
    pub key_filename: String,
    pub clear_values: Vec<u64>,
    pub data_kinds: Vec<DataKind>,
    pub compressed: bool,
    pub proof_info: Option<PkeZkProofAuxiliaryInfo>,
}

#[derive(Debug, Clone)]
pub struct ZkPkePublicParamsTest {
    pub test_filename: String,
    pub lwe_dimension: usize,
    pub max_num_cleartext: usize,
    pub noise_bound: usize,
    pub ciphertext_modulus: u128,
    pub plaintext_modulus: usize,
    pub padding_bit_count: usize,
}

/// One generated artifact: its filename stem, the files it depends on and what
/// it holds.
#[derive(Debug, Clone)]
pub enum TestMetadata {
    ShortintClientKey(ShortintClientKeyTest),
    ShortintCiphertext(ShortintCiphertextTest),
    HlClientKey(HlClientKeyTest),
    HlServerKey(HlServerKeyTest),
    HlPublicKey(HlPublicKeyTest),
    HlCiphertext(HlCiphertextTest),
    HlSignedCiphertext(HlSignedCiphertextTest),
    HlCiphertextList(HlCiphertextListTest),
    HlSignedCiphertextList(HlSignedCiphertextListTest),
    HlBoolCiphertext(HlBoolCiphertextTest),
    HlBoolCiphertextList(HlBoolCiphertextListTest),
    HlHeterogeneousCiphertextList(HlHeterogeneousCiphertextListTest),
    ZkPkePublicParams(ZkPkePublicParamsTest),
}

/// Kind of an artifact descriptor, without its payload.
#[derive(Debug, Clone, Copy, PartialEq, Eq, Structural)]
pub enum ArtifactKind {
    ShortintClientKey,
    ShortintCiphertext,
    HlClientKey,
    HlServerKey,
    HlPublicKey,
    HlCiphertext,
    HlSignedCiphertext,
    HlCiphertextList,
    HlSignedCiphertextList,
    HlBoolCiphertext,
    HlBoolCiphertextList,
    HlHeterogeneousCiphertextList,
    ZkPkePublicParams,
}

/// The proof information of a proven list, with its strings as character sequences.
pub struct PkeZkProofAuxiliaryInfoView {
    pub public_key_filename: Seq<char>,
    pub params_filename: Seq<char>,
    pub metadata: Seq<char>,
}

impl View for PkeZkProofAuxiliaryInfo {
    type V = PkeZkProofAuxiliaryInfoView;

    open spec fn view(&self) -> PkeZkProofAuxiliaryInfoView {
        PkeZkProofAuxiliaryInfoView {
            public_key_filename: self.public_key_filename@,
            params_filename: self.params_filename@,
            metadata: self.metadata@,
        }
    }
}

/// Everything a descriptor holds, with strings and lists as sequences.
pub enum TestMetadataView {
    ShortintClientKey { test_filename: Seq<char>, parameters: TestParameterSetView },
    ShortintCiphertext { test_filename: Seq<char>, key_filename: Seq<char>, clear_value: u64 },
    HlClientKey { test_filename: Seq<char>, parameters: TestParameterSetView },
    HlServerKey { test_filename: Seq<char>, client_key_filename: Seq<char>, compressed: bool },
    HlPublicKey { test_filename: Seq<char>, client_key_filename: Seq<char>, compressed: bool, compact: bool },
    HlCiphertext { test_filename: Seq<char>, key_filename: Seq<char>, compressed: bool, compact: bool, clear_value: u64 },
    HlSignedCiphertext { test_filename: Seq<char>, key_filename: Seq<char>, compressed: bool, compact: bool, clear_value: i64 },
    HlCiphertextList { test_filename: Seq<char>, key_filename: Seq<char>, clear_values: Seq<u64> },
    HlSignedCiphertextList { test_filename: Seq<char>, key_filename: Seq<char>, clear_values: Seq<i64> },
    HlBoolCiphertext { test_filename: Seq<char>, key_filename: Seq<char>, compressed: bool, compact: bool, clear_value: bool },
    HlBoolCiphertextList { test_filename: Seq<char>, key_filename: Seq<char>, clear_values: Seq<bool> },
    HlHeterogeneousCiphertextList { test_filename: Seq<char>, key_filename: Seq<char>, clear_values: Seq<u64>, data_kinds: Seq<DataKind>, compressed: bool, proof_info: Option<PkeZkProofAuxiliaryInfoView> },
    ZkPkePublicParams { test_filename: Seq<char>, lwe_dimension: usize, max_num_cleartext: usize, noise_bound: usize, ciphertext_modulus: u128, plaintext_modulus: usize, padding_bit_count: usize },
}

impl View for TestMetadata {
    type V = TestMetadataView;

    open spec fn view(&self) -> TestMetadataView {
        match self {
            TestMetadata::ShortintClientKey(t) => TestMetadataView::ShortintClientKey {
                test_filename: t.test_filename@,
                parameters: t.parameters@,
            },
            TestMetadata::ShortintCiphertext(t) => TestMetadataView::ShortintCiphertext {
                test_filename: t.test_filename@,
                key_filename: t.key_filename@,
                clear_value: t.clear_value,
            },
            TestMetadata::HlClientKey(t) => TestMetadataView::HlClientKey {
                test_filename: t.test_filename@,
                parameters: t.parameters@,
            },
            TestMetadata::HlServerKey(t) => TestMetadataView::HlServerKey {
                test_filename: t.test_filename@,
                client_key_filename: t.client_key_filename@,
                compressed: t.compressed,
            },
            TestMetadata::HlPublicKey(t) => TestMetadataView::HlPublicKey {
                test_filename: t.test_filename@,
                client_key_filename: t.client_key_filename@,
                compressed: t.compressed,
                compact: t.compact,
            },
            TestMetadata::HlCiphertext(t) => TestMetadataView::HlCiphertext {
                test_filename: t.test_filename@,
                key_filename: t.key_filename@,
                compressed: t.compressed,
                compact: t.compact,
                clear_value: t.clear_value,
            },
            TestMetadata::HlSignedCiphertext(t) => TestMetadataView::HlSignedCiphertext {
                test_filename: t.test_filename@,
                key_filename: t.key_filename@,
                compressed: t.compressed,
                compact: t.compact,
                clear_value: t.clear_value,
            },
            TestMetadata::HlCiphertextList(t) => TestMetadataView::HlCiphertextList {
                test_filename: t.test_filename@,
                key_filename: t.key_filename@,
                clear_values: t.clear_values@,
            },
            TestMetadata::HlSignedCiphertextList(t) => TestMetadataView::HlSignedCiphertextList {
                test_filename: t.test_filename@,
                key_filename: t.key_filename@,
                clear_values: t.clear_values@,
            },
            TestMetadata::HlBoolCiphertext(t) => TestMetadataView::HlBoolCiphertext {
                test_filename: t.test_filename@,
                key_filename: t.key_filename@,
                compressed: t.compressed,
                compact: t.compact,
                clear_value: t.clear_value,
            },
            TestMetadata::HlBoolCiphertextList(t) => TestMetadataView::HlBoolCiphertextList {
                test_filename: t.test_filename@,
                key_filename: t.key_filename@,
                clear_values: t.clear_values@,
            },
            TestMetadata::HlHeterogeneousCiphertextList(t) => TestMetadataView::HlHeterogeneousCiphertextList {
                test_filename: t.test_filename@,
                key_filename: t.key_filename@,
                clear_values: t.clear_values@,
                data_kinds: t.data_kinds@,
                compressed: t.compressed,
                proof_info: match t.proof_info {
                    Some(i) => Some(i@),
                    None => None,
                },
            },
            TestMetadata::ZkPkePublicParams(t) => TestMetadataView::ZkPkePublicParams {
                test_filename: t.test_filename@,
                lwe_dimension: t.lwe_dimension,
                max_num_cleartext: t.max_num_cleartext,
                noise_bound: t.noise_bound,
                ciphertext_modulus: t.ciphertext_modulus,
                plaintext_modulus: t.plaintext_modulus,
                padding_bit_count: t.padding_bit_count,
            },
        }
    }
}

/// The filename stem of an artifact.
pub open spec fn view_stem(v: TestMetadataView) -> Seq<char> {
    match v {
        TestMetadataView::ShortintClientKey { test_filename, .. } => test_filename,
        TestMetadataView::ShortintCiphertext { test_filename, .. } => test_filename,
        TestMetadataView::HlClientKey { test_filename, .. } => test_filename,
        TestMetadataView::HlServerKey { test_filename, .. } => test_filename,
        TestMetadataView::HlPublicKey { test_filename, .. } => test_filename,
        TestMetadataView::HlCiphertext { test_filename, .. } => test_filename,
        TestMetadataView::HlSignedCiphertext { test_filename, .. } => test_filename,
        TestMetadataView::HlCiphertextList { test_filename, .. } => test_filename,
        TestMetadataView::HlSignedCiphertextList { test_filename, .. } => test_filename,
        TestMetadataView::HlBoolCiphertext { test_filename, .. } => test_filename,
        TestMetadataView::HlBoolCiphertextList { test_filename, .. } => test_filename,
        TestMetadataView::HlHeterogeneousCiphertextList { test_filename, .. } => test_filename,
        TestMetadataView::ZkPkePublicParams { test_filename, .. } => test_filename,
    }
}

pub open spec fn stem(m: TestMetadata) -> Seq<char> {
    view_stem(m@)
}

pub open spec fn view_kind(v: TestMetadataView) -> ArtifactKind {
    match v {
        TestMetadataView::ShortintClientKey { .. } => ArtifactKind::ShortintClientKey,
        TestMetadataView::ShortintCiphertext { .. } => ArtifactKind::ShortintCiphertext,
        TestMetadataView::HlClientKey { .. } => ArtifactKind::HlClientKey,
        TestMetadataView::HlServerKey { .. } => ArtifactKind::HlServerKey,
        TestMetadataView::HlPublicKey { .. } => ArtifactKind::HlPublicKey,
        TestMetadataView::HlCiphertext { .. } => ArtifactKind::HlCiphertext,
        TestMetadataView::HlSignedCiphertext { .. } => ArtifactKind::HlSignedCiphertext,
        TestMetadataView::HlCiphertextList { .. } => ArtifactKind::HlCiphertextList,
        TestMetadataView::HlSignedCiphertextList { .. } => ArtifactKind::HlSignedCiphertextList,
        TestMetadataView::HlBoolCiphertext { .. } => ArtifactKind::HlBoolCiphertext,
        TestMetadataView::HlBoolCiphertextList { .. } => ArtifactKind::HlBoolCiphertextList,
        TestMetadataView::HlHeterogeneousCiphertextList { .. } => ArtifactKind::HlHeterogeneousCiphertextList,
        TestMetadataView::ZkPkePublicParams { .. } => ArtifactKind::ZkPkePublicParams,
    }
}

pub open spec fn kind(m: TestMetadata) -> ArtifactKind {
    view_kind(m@)
}

/// The file an artifact depends on (the key that decrypts it, or the client key
/// it was derived from), where it has one.
pub open spec fn view_prerequisite(v: TestMetadataView) -> Option<Seq<char>> {
    match v {
        TestMetadataView::ShortintCiphertext { key_filename, .. } => Some(key_filename),
        TestMetadataView::HlServerKey { client_key_filename, .. } => Some(client_key_filename),
        TestMetadataView::HlPublicKey { client_key_filename, .. } => Some(client_key_filename),
        TestMetadataView::HlCiphertext { key_filename, .. } => Some(key_filename),
        TestMetadataView::HlSignedCiphertext { key_filename, .. } => Some(key_filename),
        TestMetadataView::HlCiphertextList { key_filename, .. } => Some(key_filename),
        TestMetadataView::HlSignedCiphertextList { key_filename, .. } => Some(key_filename),
        TestMetadataView::HlBoolCiphertext { key_filename, .. } => Some(key_filename),
        TestMetadataView::HlBoolCiphertextList { key_filename, .. } => Some(key_filename),
        TestMetadataView::HlHeterogeneousCiphertextList { key_filename, .. } => Some(key_filename),
        _ => None,
    }
}

pub open spec fn prerequisite(m: TestMetadata) -> Option<Seq<char>> {
    view_prerequisite(m@)
}

/// The parameter record an artifact is built from, where it names one.
pub open spec fn view_parameters(v: TestMetadataView) -> Option<TestParameterSetView> {
    match v {
        TestMetadataView::ShortintClientKey { parameters, .. } => Some(parameters),
        TestMetadataView::HlClientKey { parameters, .. } => Some(parameters),
        _ => None,
    }
}

/// The parameter record an artifact is built from, where it names one.
pub open spec fn parameters_of(m: TestMetadata) -> Option<TestParameterSet> {
    match m {
        TestMetadata::ShortintClientKey(t) => Some(t.parameters),
        TestMetadata::HlClientKey(t) => Some(t.parameters),
        _ => None,
    }
}

impl TestMetadata {
    /// The filename stem under which the artifact is stored.
    pub fn test_filename(&self) -> (r: &String)
        ensures
            r@ == stem(*self),
    {
        match self {
            TestMetadata::ShortintClientKey(t) => &t.test_filename,
            TestMetadata::ShortintCiphertext(t) => &t.test_filename,
            TestMetadata::HlClientKey(t) => &t.test_filename,
            TestMetadata::HlServerKey(t) => &t.test_filename,
            TestMetadata::HlPublicKey(t) => &t.test_filename,
            TestMetadata::HlCiphertext(t) => &t.test_filename,
            TestMetadata::HlSignedCiphertext(t) => &t.test_filename,
            TestMetadata::HlCiphertextList(t) => &t.test_filename,
            TestMetadata::HlSignedCiphertextList(t) => &t.test_filename,
            TestMetadata::HlBoolCiphertext(t) => &t.test_filename,
            TestMetadata::HlBoolCiphertextList(t) => &t.test_filename,
            TestMetadata::HlHeterogeneousCiphertextList(t) => &t.test_filename,
            TestMetadata::ZkPkePublicParams(t) => &t.test_filename,
        }
    }

    /// The kind of the artifact.
    pub fn kind(&self) -> (r: ArtifactKind)
        ensures
            r == kind(*self),
    {
        match self {
            TestMetadata::ShortintClientKey(_) => ArtifactKind::ShortintClientKey,
            TestMetadata::ShortintCiphertext(_) => ArtifactKind::ShortintCiphertext,
            TestMetadata::HlClientKey(_) => ArtifactKind::HlClientKey,
            TestMetadata::HlServerKey(_) => ArtifactKind::HlServerKey,
            TestMetadata::HlPublicKey(_) => ArtifactKind::HlPublicKey,
            TestMetadata::HlCiphertext(_) => ArtifactKind::HlCiphertext,
            TestMetadata::HlSignedCiphertext(_) => ArtifactKind::HlSignedCiphertext,
            TestMetadata::HlCiphertextList(_) => ArtifactKind::HlCiphertextList,
            TestMetadata::HlSignedCiphertextList(_) => ArtifactKind::HlSignedCiphertextList,
            TestMetadata::HlBoolCiphertext(_) => ArtifactKind::HlBoolCiphertext,
            TestMetadata::HlBoolCiphertextList(_) => ArtifactKind::HlBoolCiphertextList,
            TestMetadata::HlHeterogeneousCiphertextList(_) => ArtifactKind::HlHeterogeneousCiphertextList,
            TestMetadata::ZkPkePublicParams(_) => ArtifactKind::ZkPkePublicParams,
        }
    }

    /// The parameter record the artifact is built from, if it names one.
    pub fn parameters(&self) -> (r: Option<&TestParameterSet>)
        ensures
            match parameters_of(*self) {
                Some(p) => r == Some(&p),
                None => r.is_none(),
            },
    {
        match self {
            TestMetadata::ShortintClientKey(t) => Some(&t.parameters),
            TestMetadata::HlClientKey(t) => Some(&t.parameters),
            _ => None,
        }
    }
}

/// A descriptor tagged with the release that produced it and its module.
#[derive(Debug, Clone)]
pub struct Testcase {
    pub tfhe_version_min: String,
    pub tfhe_module: Module,
    pub metadata: TestMetadata,
}

} // verus!
