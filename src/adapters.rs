//! The release adapters: for each supported release, its version string and the
//! ordered descriptors of every artifact it produces in each module.
use vstd::prelude::*;
use vstd::string::*;
use crate::metadata::{
    view_kind, view_parameters, view_stem, ArtifactKind, DataKind, HlBoolCiphertextListTest,
    HlBoolCiphertextTest, HlCiphertextListTest, HlCiphertextTest, HlClientKeyTest,
    HlHeterogeneousCiphertextListTest, HlPublicKeyTest, HlServerKeyTest, HlSignedCiphertextListTest,
    HlSignedCiphertextTest, PkeZkProofAuxiliaryInfo, PkeZkProofAuxiliaryInfoView, ShortintCiphertextTest,
    ShortintClientKeyTest, TestMetadata, TestMetadataView, ZkPkePublicParamsTest,
};
use crate::params::{
    insecure_small_test_params_ms_noise_reduction, insecure_small_test_params_ms_noise_reduction_view,
    is_table_params, native_modulus, valid_test_params, valid_test_params_tuniform, valid_test_params_view,
    Release, TestDistribution, TestParameterSet, TestParameterSetView,
};

verus! {

/// Seed that every release is seeded with before it generates anything.
pub const PRNG_SEED: u128 = 0xdeadbeef;

pub open spec fn version_spec(r: Release) -> Seq<char> {
    match r {
        Release::V0_6 => "0.6"@,
        Release::V0_7 => "0.7"@,
        Release::V0_8 => "0.8"@,
        Release::V0_11 => "0.11"@,
        Release::V1_0 => "1.0"@,
    }
}

/// The version string of a release.
pub fn version_number_of(r: Release) -> (s: String)
    ensures
        s@ == version_spec(r),
{
    match r {
        Release::V0_6 => String::from_str("0.6"),
        Release::V0_7 => String::from_str("0.7"),
        Release::V0_8 => String::from_str("0.8"),
        Release::V0_11 => String::from_str("0.11"),
        Release::V1_0 => String::from_str("1.0"),
    }
}

pub open spec fn shortint_client_key_view(name: Seq<char>, parameters: TestParameterSetView) -> TestMetadataView {
    TestMetadataView::ShortintClientKey { test_filename: name, parameters }
}

fn shortint_client_key(name: &str, parameters: TestParameterSet) -> (r: TestMetadata)
    ensures
        r@ == shortint_client_key_view(name@, parameters@),
{
    TestMetadata::ShortintClientKey(ShortintClientKeyTest { test_filename: String::from_str(name), parameters })
}

pub open spec fn shortint_ciphertext_view(name: Seq<char>, key: Seq<char>, clear_value: u64) -> TestMetadataView {
    TestMetadataView::ShortintCiphertext { test_filename: name, key_filename: key, clear_value }
}

fn shortint_ciphertext(name: &str, key: &str, clear_value: u64) -> (r: TestMetadata)
    ensures
        r@ == shortint_ciphertext_view(name@, key@, clear_value),
{
    TestMetadata::ShortintCiphertext(
        ShortintCiphertextTest { test_filename: String::from_str(name), key_filename: String::from_str(key), clear_value },
    )
}

pub open spec fn hl_client_key_view(name: Seq<char>, parameters: TestParameterSetView) -> TestMetadataView {
    TestMetadataView::HlClientKey { test_filename: name, parameters }
}

fn hl_client_key(name: &str, parameters: TestParameterSet) -> (r: TestMetadata)
    ensures
        r@ == hl_client_key_view(name@, parameters@),
{
    TestMetadata::HlClientKey(HlClientKeyTest { test_filename: String::from_str(name), parameters })
}

pub open spec fn hl_server_key_view(name: Seq<char>, client_key: Seq<char>, compressed: bool) -> TestMetadataView {
    TestMetadataView::HlServerKey { test_filename: name, client_key_filename: client_key, compressed }
}

fn hl_server_key(name: &str, client_key: &str, compressed: bool) -> (r: TestMetadata)
    ensures
        r@ == hl_server_key_view(name@, client_key@, compressed),
{
    TestMetadata::HlServerKey(
        HlServerKeyTest {
            test_filename: String::from_str(name),
            client_key_filename: String::from_str(client_key),
            compressed,
        },
    )
}

pub open spec fn hl_public_key_view(name: Seq<char>, client_key: Seq<char>, compressed: bool, compact: bool) -> TestMetadataView {
    TestMetadataView::HlPublicKey { test_filename: name, client_key_filename: client_key, compressed, compact }
}

fn hl_public_key(name: &str, client_key: &str, compressed: bool, compact: bool) -> (r: TestMetadata)
    ensures
        r@ == hl_public_key_view(name@, client_key@, compressed, compact),
{
    TestMetadata::HlPublicKey(
        HlPublicKeyTest {
            test_filename: String::from_str(name),
            client_key_filename: String::from_str(client_key),
            compressed,
            compact,
        },
    )
}

pub open spec fn hl_ciphertext_view(
    name: Seq<char>,
    key: Seq<char>,
    compressed: bool,
    compact: bool,
    clear_value: u64,
) -> TestMetadataView {
    TestMetadataView::HlCiphertext { test_filename: name, key_filename: key, compressed, compact, clear_value }
}

fn hl_ciphertext(name: &str, key: &str, compressed: bool, compact: bool, clear_value: u64) -> (r: TestMetadata)
    ensures
        r@ == hl_ciphertext_view(name@, key@, compressed, compact, clear_value),
{
    TestMetadata::HlCiphertext(
        HlCiphertextTest {
            test_filename: String::from_str(name),
            key_filename: String::from_str(key),
            compressed,
            compact,
            clear_value,
        },
    )
}

pub open spec fn hl_signed_ciphertext_view(
    name: Seq<char>,
    key: Seq<char>,
    compressed: bool,
    compact: bool,
    clear_value: i64,
) -> TestMetadataView {
    TestMetadataView::HlSignedCiphertext { test_filename: name, key_filename: key, compressed, compact, clear_value }
}

fn hl_signed_ciphertext(name: &str, key: &str, compressed: bool, compact: bool, clear_value: i64) -> (r: TestMetadata)
    ensures
        r@ == hl_signed_ciphertext_view(name@, key@, compressed, compact, clear_value),
{
    TestMetadata::HlSignedCiphertext(
        HlSignedCiphertextTest {
            test_filename: String::from_str(name),
            key_filename: String::from_str(key),
            compressed,
            compact,
            clear_value,
        },
    )
}

pub open spec fn hl_bool_ciphertext_view(
    name: Seq<char>,
    key: Seq<char>,
    compressed: bool,
    compact: bool,
    clear_value: bool,
) -> TestMetadataView {
    TestMetadataView::HlBoolCiphertext { test_filename: name, key_filename: key, compressed, compact, clear_value }
}

fn hl_bool_ciphertext(name: &str, key: &str, compressed: bool, compact: bool, clear_value: bool) -> (r: TestMetadata)
    ensures
        r@ == hl_bool_ciphertext_view(name@, key@, compressed, compact, clear_value),
{
    TestMetadata::HlBoolCiphertext(
        HlBoolCiphertextTest {
            test_filename: String::from_str(name),
            key_filename: String::from_str(key),
            compressed,
            compact,
            clear_value,
        },
    )
}

pub open spec fn hl_ciphertext_list_view(name: Seq<char>, key: Seq<char>, clear_values: Seq<u64>) -> TestMetadataView {
    TestMetadataView::HlCiphertextList { test_filename: name, key_filename: key, clear_values }
}

fn hl_ciphertext_list(name: &str, key: &str, clear_values: Vec<u64>) -> (r: TestMetadata)
    ensures
        r@ == hl_ciphertext_list_view(name@, key@, clear_values@),
{
    TestMetadata::HlCiphertextList(
        HlCiphertextListTest { test_filename: String::from_str(name), key_filename: String::from_str(key), clear_values },
    )
}

pub open spec fn hl_signed_ciphertext_list_view(
    name: Seq<char>,
    key: Seq<char>,
    clear_values: Seq<i64>,
) -> TestMetadataView {
    TestMetadataView::HlSignedCiphertextList { test_filename: name, key_filename: key, clear_values }
}

fn hl_signed_ciphertext_list(name: &str, key: &str, clear_values: Vec<i64>) -> (r: TestMetadata)
    ensures
        r@ == hl_signed_ciphertext_list_view(name@, key@, clear_values@),
{
    TestMetadata::HlSignedCiphertextList(
        HlSignedCiphertextListTest {
            test_filename: String::from_str(name),
            key_filename: String::from_str(key),
            clear_values,
        },
    )
}

pub open spec fn hl_bool_ciphertext_list_view(
    name: Seq<char>,
    key: Seq<char>,
    clear_values: Seq<bool>,
) -> TestMetadataView {
    TestMetadataView::HlBoolCiphertextList { test_filename: name, key_filename: key, clear_values }
}

fn hl_bool_ciphertext_list(name: &str, key: &str, clear_values: Vec<bool>) -> (r: TestMetadata)
    ensures
        r@ == hl_bool_ciphertext_list_view(name@, key@, clear_values@),
{
    TestMetadata::HlBoolCiphertextList(
        HlBoolCiphertextListTest {
            test_filename: String::from_str(name),
            key_filename: String::from_str(key),
            clear_values,
        },
    )
}

/// The clear values of the heterogeneous lists: an unsigned 17, a signed -12
/// (stored as its two's-complement `u64`), then false and true.
pub open spec fn heterogeneous_values() -> Seq<u64> {
    seq![17u64, 0xffff_ffff_ffff_fff4u64, 0u64, 1u64]
}

pub open spec fn heterogeneous_kinds() -> Seq<DataKind> {
    seq![DataKind::Unsigned, DataKind::Signed, DataKind::Bool, DataKind::Bool]
}

pub open spec fn hl_heterogeneous_list_view(
    name: Seq<char>,
    key: Seq<char>,
    compressed: bool,
    proof_info: Option<PkeZkProofAuxiliaryInfoView>,
) -> TestMetadataView {
    TestMetadataView::HlHeterogeneousCiphertextList {
        test_filename: name,
        key_filename: key,
        clear_values: heterogeneous_values(),
        data_kinds: heterogeneous_kinds(),
        compressed,
        proof_info,
    }
}

fn hl_heterogeneous_list(
    name: &str,
    key: &str,
    compressed: bool,
    proof_info: Option<PkeZkProofAuxiliaryInfo>,
) -> (r: TestMetadata)
    ensures
        r@ == hl_heterogeneous_list_view(
            name@,
            key@,
            compressed,
            match proof_info {
                Some(i) => Some(i@),
                None => None,
            },
        ),
{
    let clear_values = vec![17u64, 0xffff_ffff_ffff_fff4u64, 0u64, 1u64];
    let data_kinds = vec![DataKind::Unsigned, DataKind::Signed, DataKind::Bool, DataKind::Bool];
    assert(clear_values@ =~= heterogeneous_values());
    assert(data_kinds@ =~= heterogeneous_kinds());
    TestMetadata::HlHeterogeneousCiphertextList(
        HlHeterogeneousCiphertextListTest {
            test_filename: String::from_str(name),
            key_filename: String::from_str(key),
            clear_values,
            data_kinds,
            compressed,
            proof_info,
        },
    )
}

/// What a proven list needs to be checked: the compact public key it was
/// encrypted under, the public parameters of the proof, and the metadata bound
/// into the proof.
pub open spec fn proven_list_proof_info_view() -> PkeZkProofAuxiliaryInfoView {
    PkeZkProofAuxiliaryInfoView {
        public_key_filename: "public_key.cbor"@,
        params_filename: "zk_pke_public_params.cbor"@,
        metadata: "drawkcab"@,
    }
}

fn proven_list_proof_info() -> (r: PkeZkProofAuxiliaryInfo)
    ensures
        r@ == proven_list_proof_info_view(),
{
    PkeZkProofAuxiliaryInfo {
        public_key_filename: String::from_str("public_key.cbor"),
        params_filename: String::from_str("zk_pke_public_params.cbor"),
        metadata: String::from_str("drawkcab"),
    }
}

/// Public parameters of the zero-knowledge encryption proofs, sized for the
/// t-uniform parameter record: the big key's dimension is the GLWE dimension
/// times the polynomial size (2048), the noise bound is the LWE t-uniform bound
/// (46), and the plaintext modulus counts message, carry and one padding bit (32).
pub open spec fn zk_pke_public_params_view(name: Seq<char>) -> TestMetadataView {
    TestMetadataView::ZkPkePublicParams {
        test_filename: name,
        lwe_dimension: 2048,
        max_num_cleartext: 16,
        noise_bound: 46,
        ciphertext_modulus: 0x1_0000_0000_0000_0000,
        plaintext_modulus: 32,
        padding_bit_count: 1,
    }
}

fn zk_pke_public_params(name: &str) -> (r: TestMetadata)
    ensures
        r@ == zk_pke_public_params_view(name@),
{
    let p = valid_test_params_tuniform();
    assert(p.polynomial_size == 2048 && p.glwe_dimension == 1 && p.message_modulus == 4 && p.carry_modulus == 4);
    assert(p.lwe_noise_distribution == TestDistribution::TUniform { bound_log2: 46 });
    let noise_bound: usize = match p.lwe_noise_distribution {
        TestDistribution::TUniform { bound_log2 } => bound_log2 as usize,
        TestDistribution::Gaussian { .. } => 0,
    };
    TestMetadata::ZkPkePublicParams(
        ZkPkePublicParamsTest {
            test_filename: String::from_str(name),
            lwe_dimension: p.polynomial_size * p.glwe_dimension,
            max_num_cleartext: 16,
            noise_bound,
            ciphertext_modulus: p.ciphertext_modulus,
            plaintext_modulus: p.message_modulus * p.carry_modulus * 2,
            padding_bit_count: 1,
        },
    )
}


/// Every basic-module descriptor of a release, in generation order.
pub open spec fn shortint_table(r: Release) -> Seq<TestMetadataView> {
    match r {
        Release::V0_6 => seq![
            shortint_client_key_view("client_key"@, valid_test_params_view()),
            shortint_ciphertext_view("ct1"@, "client_key.cbor"@, 0),
            shortint_ciphertext_view("ct2"@, "client_key.cbor"@, 3),
        ],
        Release::V0_7 => Seq::empty(),
        Release::V0_8 => Seq::empty(),
        Release::V0_11 => Seq::empty(),
        Release::V1_0 => Seq::empty(),
    }
}

/// Every high-level-module descriptor of a release, in generation order.
pub open spec fn hl_table(r: Release) -> Seq<TestMetadataView> {
    match r {
        Release::V0_6 => seq![
            hl_client_key_view("client_key"@, valid_test_params_view()),
            hl_server_key_view("server_key"@, "client_key.cbor"@, false),
            hl_server_key_view("compressed_server_key"@, "client_key.cbor"@, true),
            hl_public_key_view("public_key"@, "client_key_for_pubkey.cbor"@, false, false),
            hl_public_key_view("compressed_public_key"@, "client_key.cbor"@, true, false),
            hl_public_key_view("compact_public_key"@, "client_key.cbor"@, false, true),
            hl_public_key_view("compressed_compact_public_key"@, "client_key.cbor"@, true, true),
            hl_ciphertext_view("ct1"@, "client_key.cbor"@, false, false, 0),
            hl_ciphertext_view("ct2"@, "client_key.cbor"@, false, false, 255),
            hl_ciphertext_view("ct_compressed_seeded"@, "client_key.cbor"@, true, false, 255),
            hl_ciphertext_view("ct_compressed_modswitched"@, "client_key.cbor"@, true, false, 255),
            hl_ciphertext_view("ct_compact"@, "client_key.cbor"@, false, true, 255),
            hl_ciphertext_list_view("ct_list"@, "client_key.cbor"@, seq![0u64, 255u64]),
            hl_signed_ciphertext_view("ct1_signed"@, "client_key.cbor"@, false, false, 0i64),
            hl_signed_ciphertext_view("ct2_signed"@, "client_key.cbor"@, false, false, -127i64),
            hl_signed_ciphertext_view("ct_compressed_seeded_signed"@, "client_key.cbor"@, true, false, 255i64),
            hl_signed_ciphertext_view("ct_compressed_modswitched_signed"@, "client_key.cbor"@, true, false, 255i64),
            hl_signed_ciphertext_view("ct_compact_signed"@, "client_key.cbor"@, false, true, 255i64),
            hl_signed_ciphertext_list_view("ct_list_signed"@, "client_key.cbor"@, seq![-127i64, 0i64, 127i64]),
            hl_bool_ciphertext_view("bool1"@, "client_key.cbor"@, false, false, true),
            hl_bool_ciphertext_view("bool2"@, "client_key.cbor"@, false, false, false),
            hl_bool_ciphertext_view("compressed_seeded_bool"@, "client_key.cbor"@, true, false, true),
            hl_bool_ciphertext_view("compressed_modswitched_bool"@, "client_key.cbor"@, true, false, true),
            hl_bool_ciphertext_view("compact_bool"@, "client_key.cbor"@, false, true, true),
            hl_bool_ciphertext_list_view("bool_list"@, "client_key.cbor"@, seq![true, false, true]),
        ],
        Release::V0_7 => seq![
            hl_heterogeneous_list_view("hl_packed_heterogeneous_list"@, "client_key.cbor"@, false, None),
            hl_heterogeneous_list_view("hl_heterogeneous_list"@, "client_key.cbor"@, false, None),
            hl_heterogeneous_list_view("hl_compressed_heterogeneous_list"@, "client_key.cbor"@, true, None),
            hl_client_key_view("client_key_with_compression"@, valid_test_params_view()),
            hl_server_key_view("server_key_with_compression"@, "client_key_with_compression.cbor"@, false),
        ],
        Release::V0_8 => seq![
            zk_pke_public_params_view("zk_pke_public_params"@),
            hl_heterogeneous_list_view("hl_proven_heterogeneous_list"@, "client_key.cbor"@, false, Some(proven_list_proof_info_view())),
        ],
        Release::V0_11 => seq![
            zk_pke_public_params_view("zk_pke_crs"@),
        ],
        Release::V1_0 => seq![
            hl_client_key_view("client_key_ms_noise_reduction"@, insecure_small_test_params_ms_noise_reduction_view()),
            hl_server_key_view("server_key_ms_noise_reduction"@, "client_key_ms_noise_reduction.cbor"@, false),
        ],
    }
}

/// Stems of a release's basic-module artifacts, in generation order.
pub open spec fn shortint_stems(r: Release) -> Seq<Seq<char>> {
    shortint_table(r).map_values(|v: TestMetadataView| view_stem(v))
}

/// Stems of a release's high-level-module artifacts, in generation order.
pub open spec fn hl_stems(r: Release) -> Seq<Seq<char>> {
    hl_table(r).map_values(|v: TestMetadataView| view_stem(v))
}

/// `s` holds exactly the descriptors of `table`, in this order.
pub open spec fn describes(s: Seq<TestMetadata>, table: Seq<TestMetadataView>) -> bool {
    s.map_values(|m: TestMetadata| m@) == table
}

/// Every parameter record named in `table` is one of the named table records.
pub open spec fn uses_table_params(table: Seq<TestMetadataView>) -> bool {
    forall|i: int| 0 <= i < table.len() ==> match view_parameters(#[trigger] table[i]) {
        Some(p) => is_table_params(p),
        None => true,
    }
}

/// Every release's tables use only the named parameter records.
pub proof fn lemma_tables_use_table_params(r: Release)
    ensures
        uses_table_params(shortint_table(r)),
        uses_table_params(hl_table(r)),
{
}


/// No two entries of a sequence are equal.
pub open spec fn pairwise_distinct(s: Seq<Seq<char>>) -> bool {
    forall|i: int, j: int| 0 <= i < j < s.len() ==> s[i] != s[j]
}

// The lemmas below show each table's stems apart pair by pair: two stems differ
// in length, or else at the first position where their characters differ.

proof fn lemma_shortint_v0_6_distinct()
    ensures
        pairwise_distinct(shortint_stems(Release::V0_6)),
{
    reveal_strlit("client_key");
    reveal_strlit("ct1");
    reveal_strlit("ct2");
    assert("client_key"@.len() != "ct1"@.len());
    assert("client_key"@.len() != "ct2"@.len());
    assert("ct1"@[2] != "ct2"@[2]);
    let s = shortint_stems(Release::V0_6);
    assert(s[0] == "client_key"@);
    assert(s[1] == "ct1"@);
    assert(s[2] == "ct2"@);
    assert forall|i: int, j: int| 0 <= i < j < s.len() implies s[i] != s[j] by {
        assert(i == 0 || i == 1 || i == 2);
        assert(j == 0 || j == 1 || j == 2);
    }
}

proof fn lemma_hl_v0_6_distinct()
    ensures
        pairwise_distinct(hl_stems(Release::V0_6)),
{
    reveal_strlit("bool1");
    reveal_strlit("bool2");
    reveal_strlit("bool_list");
    reveal_strlit("client_key");
    reveal_strlit("compact_bool");
    reveal_strlit("compact_public_key");
    reveal_strlit("compressed_compact_public_key");
    reveal_strlit("compressed_modswitched_bool");
    reveal_strlit("compressed_public_key");
    reveal_strlit("compressed_seeded_bool");
    reveal_strlit("compressed_server_key");
    reveal_strlit("ct1");
    reveal_strlit("ct1_signed");
    reveal_strlit("ct2");
    reveal_strlit("ct2_signed");
    reveal_strlit("ct_compact");
    reveal_strlit("ct_compact_signed");
    reveal_strlit("ct_compressed_modswitched");
    reveal_strlit("ct_compressed_modswitched_signed");
    reveal_strlit("ct_compressed_seeded");
    reveal_strlit("ct_compressed_seeded_signed");
    reveal_strlit("ct_list");
    reveal_strlit("ct_list_signed");
    reveal_strlit("public_key");
    reveal_strlit("server_key");
    assert("client_key"@[0] != "server_key"@[0]);
    assert("client_key"@.len() != "compressed_server_key"@.len());
    assert("client_key"@[0] != "public_key"@[0]);
    assert("client_key"@.len() != "compressed_public_key"@.len());
    assert("client_key"@.len() != "compact_public_key"@.len());
    assert("client_key"@.len() != "compressed_compact_public_key"@.len());
    assert("client_key"@.len() != "ct1"@.len());
    assert("client_key"@.len() != "ct2"@.len());
    assert("client_key"@.len() != "ct_compressed_seeded"@.len());
    assert("client_key"@.len() != "ct_compressed_modswitched"@.len());
    assert("client_key"@[1] != "ct_compact"@[1]);
    assert("client_key"@.len() != "ct_list"@.len());
    assert("client_key"@[1] != "ct1_signed"@[1]);
    assert("client_key"@[1] != "ct2_signed"@[1]);
    assert("client_key"@.len() != "ct_compressed_seeded_signed"@.len());
    assert("client_key"@.len() != "ct_compressed_modswitched_signed"@.len());
    assert("client_key"@.len() != "ct_compact_signed"@.len());
    assert("client_key"@.len() != "ct_list_signed"@.len());
    assert("client_key"@.len() != "bool1"@.len());
    assert("client_key"@.len() != "bool2"@.len());
    assert("client_key"@.len() != "compressed_seeded_bool"@.len());
    assert("client_key"@.len() != "compressed_modswitched_bool"@.len());
    assert("client_key"@.len() != "compact_bool"@.len());
    assert("client_key"@.len() != "bool_list"@.len());
    assert("server_key"@.len() != "compressed_server_key"@.len());
    assert("server_key"@[0] != "public_key"@[0]);
    assert("server_key"@.len() != "compressed_public_key"@.len());
    assert("server_key"@.len() != "compact_public_key"@.len());
    assert("server_key"@.len() != "compressed_compact_public_key"@.len());
    assert("server_key"@.len() != "ct1"@.len());
    assert("server_key"@.len() != "ct2"@.len());
    assert("server_key"@.len() != "ct_compressed_seeded"@.len());
    assert("server_key"@.len() != "ct_compressed_modswitched"@.len());
    assert("server_key"@[0] != "ct_compact"@[0]);
    assert("server_key"@.len() != "ct_list"@.len());
    assert("server_key"@[0] != "ct1_signed"@[0]);
    assert("server_key"@[0] != "ct2_signed"@[0]);
    assert("server_key"@.len() != "ct_compressed_seeded_signed"@.len());
    assert("server_key"@.len() != "ct_compressed_modswitched_signed"@.len());
    assert("server_key"@.len() != "ct_compact_signed"@.len());
    assert("server_key"@.len() != "ct_list_signed"@.len());
    assert("server_key"@.len() != "bool1"@.len());
    assert("server_key"@.len() != "bool2"@.len());
    assert("server_key"@.len() != "compressed_seeded_bool"@.len());
    assert("server_key"@.len() != "compressed_modswitched_bool"@.len());
    assert("server_key"@.len() != "compact_bool"@.len());
    assert("server_key"@.len() != "bool_list"@.len());
    assert("compressed_server_key"@.len() != "public_key"@.len());
    assert("compressed_server_key"@[11] != "compressed_public_key"@[11]);
    assert("compressed_server_key"@.len() != "compact_public_key"@.len());
    assert("compressed_server_key"@.len() != "compressed_compact_public_key"@.len());
    assert("compressed_server_key"@.len() != "ct1"@.len());
    assert("compressed_server_key"@.len() != "ct2"@.len());
    assert("compressed_server_key"@.len() != "ct_compressed_seeded"@.len());
    assert("compressed_server_key"@.len() != "ct_compressed_modswitched"@.len());
    assert("compressed_server_key"@.len() != "ct_compact"@.len());
    assert("compressed_server_key"@.len() != "ct_list"@.len());
    assert("compressed_server_key"@.len() != "ct1_signed"@.len());
    assert("compressed_server_key"@.len() != "ct2_signed"@.len());
    assert("compressed_server_key"@.len() != "ct_compressed_seeded_signed"@.len());
    assert("compressed_server_key"@.len() != "ct_compressed_modswitched_signed"@.len());
    assert("compressed_server_key"@.len() != "ct_compact_signed"@.len());
    assert("compressed_server_key"@.len() != "ct_list_signed"@.len());
    assert("compressed_server_key"@.len() != "bool1"@.len());
    assert("compressed_server_key"@.len() != "bool2"@.len());
    assert("compressed_server_key"@.len() != "compressed_seeded_bool"@.len());
    assert("compressed_server_key"@.len() != "compressed_modswitched_bool"@.len());
    assert("compressed_server_key"@.len() != "compact_bool"@.len());
    assert("compressed_server_key"@.len() != "bool_list"@.len());
    assert("public_key"@.len() != "compressed_public_key"@.len());
    assert("public_key"@.len() != "compact_public_key"@.len());
    assert("public_key"@.len() != "compressed_compact_public_key"@.len());
    assert("public_key"@.len() != "ct1"@.len());
    assert("public_key"@.len() != "ct2"@.len());
    assert("public_key"@.len() != "ct_compressed_seeded"@.len());
    assert("public_key"@.len() != "ct_compressed_modswitched"@.len());
    assert("public_key"@[0] != "ct_compact"@[0]);
    assert("public_key"@.len() != "ct_list"@.len());
    assert("public_key"@[0] != "ct1_signed"@[0]);
    assert("public_key"@[0] != "ct2_signed"@[0]);
    assert("public_key"@.len() != "ct_compressed_seeded_signed"@.len());
    assert("public_key"@.len() != "ct_compressed_modswitched_signed"@.len());
    assert("public_key"@.len() != "ct_compact_signed"@.len());
    assert("public_key"@.len() != "ct_list_signed"@.len());
    assert("public_key"@.len() != "bool1"@.len());
    assert("public_key"@.len() != "bool2"@.len());
    assert("public_key"@.len() != "compressed_seeded_bool"@.len());
    assert("public_key"@.len() != "compressed_modswitched_bool"@.len());
    assert("public_key"@.len() != "compact_bool"@.len());
    assert("public_key"@.len() != "bool_list"@.len());
    assert("compressed_public_key"@.len() != "compact_public_key"@.len());
    assert("compressed_public_key"@.len() != "compressed_compact_public_key"@.len());
    assert("compressed_public_key"@.len() != "ct1"@.len());
    assert("compressed_public_key"@.len() != "ct2"@.len());
    assert("compressed_public_key"@.len() != "ct_compressed_seeded"@.len());
    assert("compressed_public_key"@.len() != "ct_compressed_modswitched"@.len());
    assert("compressed_public_key"@.len() != "ct_compact"@.len());
    assert("compressed_public_key"@.len() != "ct_list"@.len());
    assert("compressed_public_key"@.len() != "ct1_signed"@.len());
    assert("compressed_public_key"@.len() != "ct2_signed"@.len());
    assert("compressed_public_key"@.len() != "ct_compressed_seeded_signed"@.len());
    assert("compressed_public_key"@.len() != "ct_compressed_modswitched_signed"@.len());
    assert("compressed_public_key"@.len() != "ct_compact_signed"@.len());
    assert("compressed_public_key"@.len() != "ct_list_signed"@.len());
    assert("compressed_public_key"@.len() != "bool1"@.len());
    assert("compressed_public_key"@.len() != "bool2"@.len());
    assert("compressed_public_key"@.len() != "compressed_seeded_bool"@.len());
    assert("compressed_public_key"@.len() != "compressed_modswitched_bool"@.len());
    assert("compressed_public_key"@.len() != "compact_bool"@.len());
    assert("compressed_public_key"@.len() != "bool_list"@.len());
    assert("compact_public_key"@.len() != "compressed_compact_public_key"@.len());
    assert("compact_public_key"@.len() != "ct1"@.len());
    assert("compact_public_key"@.len() != "ct2"@.len());
    assert("compact_public_key"@.len() != "ct_compressed_seeded"@.len());
    assert("compact_public_key"@.len() != "ct_compressed_modswitched"@.len());
    assert("compact_public_key"@.len() != "ct_compact"@.len());
    assert("compact_public_key"@.len() != "ct_list"@.len());
    assert("compact_public_key"@.len() != "ct1_signed"@.len());
    assert("compact_public_key"@.len() != "ct2_signed"@.len());
    assert("compact_public_key"@.len() != "ct_compressed_seeded_signed"@.len());
    assert("compact_public_key"@.len() != "ct_compressed_modswitched_signed"@.len());
    assert("compact_public_key"@.len() != "ct_compact_signed"@.len());
    assert("compact_public_key"@.len() != "ct_list_signed"@.len());
    assert("compact_public_key"@.len() != "bool1"@.len());
    assert("compact_public_key"@.len() != "bool2"@.len());
    assert("compact_public_key"@.len() != "compressed_seeded_bool"@.len());
    assert("compact_public_key"@.len() != "compressed_modswitched_bool"@.len());
    assert("compact_public_key"@.len() != "compact_bool"@.len());
    assert("compact_public_key"@.len() != "bool_list"@.len());
    assert("compressed_compact_public_key"@.len() != "ct1"@.len());
    assert("compressed_compact_public_key"@.len() != "ct2"@.len());
    assert("compressed_compact_public_key"@.len() != "ct_compressed_seeded"@.len());
    assert("compressed_compact_public_key"@.len() != "ct_compressed_modswitched"@.len());
    assert("compressed_compact_public_key"@.len() != "ct_compact"@.len());
    assert("compressed_compact_public_key"@.len() != "ct_list"@.len());
    assert("compressed_compact_public_key"@.len() != "ct1_signed"@.len());
    assert("compressed_compact_public_key"@.len() != "ct2_signed"@.len());
    assert("compressed_compact_public_key"@.len() != "ct_compressed_seeded_signed"@.len());
    assert("compressed_compact_public_key"@.len() != "ct_compressed_modswitched_signed"@.len());
    assert("compressed_compact_public_key"@.len() != "ct_compact_signed"@.len());
    assert("compressed_compact_public_key"@.len() != "ct_list_signed"@.len());
    assert("compressed_compact_public_key"@.len() != "bool1"@.len());
    assert("compressed_compact_public_key"@.len() != "bool2"@.len());
    assert("compressed_compact_public_key"@.len() != "compressed_seeded_bool"@.len());
    assert("compressed_compact_public_key"@.len() != "compressed_modswitched_bool"@.len());
    assert("compressed_compact_public_key"@.len() != "compact_bool"@.len());
    assert("compressed_compact_public_key"@.len() != "bool_list"@.len());
    assert("ct1"@[2] != "ct2"@[2]);
    assert("ct1"@.len() != "ct_compressed_seeded"@.len());
    assert("ct1"@.len() != "ct_compressed_modswitched"@.len());
    assert("ct1"@.len() != "ct_compact"@.len());
    assert("ct1"@.len() != "ct_list"@.len());
    assert("ct1"@.len() != "ct1_signed"@.len());
    assert("ct1"@.len() != "ct2_signed"@.len());
    assert("ct1"@.len() != "ct_compressed_seeded_signed"@.len());
    assert("ct1"@.len() != "ct_compressed_modswitched_signed"@.len());
    assert("ct1"@.len() != "ct_compact_signed"@.len());
    assert("ct1"@.len() != "ct_list_signed"@.len());
    assert("ct1"@.len() != "bool1"@.len());
    assert("ct1"@.len() != "bool2"@.len());
    assert("ct1"@.len() != "compressed_seeded_bool"@.len());
    assert("ct1"@.len() != "compressed_modswitched_bool"@.len());
    assert("ct1"@.len() != "compact_bool"@.len());
    assert("ct1"@.len() != "bool_list"@.len());
    assert("ct2"@.len() != "ct_compressed_seeded"@.len());
    assert("ct2"@.len() != "ct_compressed_modswitched"@.len());
    assert("ct2"@.len() != "ct_compact"@.len());
    assert("ct2"@.len() != "ct_list"@.len());
    assert("ct2"@.len() != "ct1_signed"@.len());
    assert("ct2"@.len() != "ct2_signed"@.len());
    assert("ct2"@.len() != "ct_compressed_seeded_signed"@.len());
    assert("ct2"@.len() != "ct_compressed_modswitched_signed"@.len());
    assert("ct2"@.len() != "ct_compact_signed"@.len());
    assert("ct2"@.len() != "ct_list_signed"@.len());
    assert("ct2"@.len() != "bool1"@.len());
    assert("ct2"@.len() != "bool2"@.len());
    assert("ct2"@.len() != "compressed_seeded_bool"@.len());
    assert("ct2"@.len() != "compressed_modswitched_bool"@.len());
    assert("ct2"@.len() != "compact_bool"@.len());
    assert("ct2"@.len() != "bool_list"@.len());
    assert("ct_compressed_seeded"@.len() != "ct_compressed_modswitched"@.len());
    assert("ct_compressed_seeded"@.len() != "ct_compact"@.len());
    assert("ct_compressed_seeded"@.len() != "ct_list"@.len());
    assert("ct_compressed_seeded"@.len() != "ct1_signed"@.len());
    assert("ct_compressed_seeded"@.len() != "ct2_signed"@.len());
    assert("ct_compressed_seeded"@.len() != "ct_compressed_seeded_signed"@.len());
    assert("ct_compressed_seeded"@.len() != "ct_compressed_modswitched_signed"@.len());
    assert("ct_compressed_seeded"@.len() != "ct_compact_signed"@.len());
    assert("ct_compressed_seeded"@.len() != "ct_list_signed"@.len());
    assert("ct_compressed_seeded"@.len() != "bool1"@.len());
    assert("ct_compressed_seeded"@.len() != "bool2"@.len());
    assert("ct_compressed_seeded"@.len() != "compressed_seeded_bool"@.len());
    assert("ct_compressed_seeded"@.len() != "compressed_modswitched_bool"@.len());
    assert("ct_compressed_seeded"@.len() != "compact_bool"@.len());
    assert("ct_compressed_seeded"@.len() != "bool_list"@.len());
    assert("ct_compressed_modswitched"@.len() != "ct_compact"@.len());
    assert("ct_compressed_modswitched"@.len() != "ct_list"@.len());
    assert("ct_compressed_modswitched"@.len() != "ct1_signed"@.len());
    assert("ct_compressed_modswitched"@.len() != "ct2_signed"@.len());
    assert("ct_compressed_modswitched"@.len() != "ct_compressed_seeded_signed"@.len());
    assert("ct_compressed_modswitched"@.len() != "ct_compressed_modswitched_signed"@.len());
    assert("ct_compressed_modswitched"@.len() != "ct_compact_signed"@.len());
    assert("ct_compressed_modswitched"@.len() != "ct_list_signed"@.len());
    assert("ct_compressed_modswitched"@.len() != "bool1"@.len());
    assert("ct_compressed_modswitched"@.len() != "bool2"@.len());
    assert("ct_compressed_modswitched"@.len() != "compressed_seeded_bool"@.len());
    assert("ct_compressed_modswitched"@.len() != "compressed_modswitched_bool"@.len());
    assert("ct_compressed_modswitched"@.len() != "compact_bool"@.len());
    assert("ct_compressed_modswitched"@.len() != "bool_list"@.len());
    assert("ct_compact"@.len() != "ct_list"@.len());
    assert("ct_compact"@[2] != "ct1_signed"@[2]);
    assert("ct_compact"@[2] != "ct2_signed"@[2]);
    assert("ct_compact"@.len() != "ct_compressed_seeded_signed"@.len());
    assert("ct_compact"@.len() != "ct_compressed_modswitched_signed"@.len());
    assert("ct_compact"@.len() != "ct_compact_signed"@.len());
    assert("ct_compact"@.len() != "ct_list_signed"@.len());
    assert("ct_compact"@.len() != "bool1"@.len());
    assert("ct_compact"@.len() != "bool2"@.len());
    assert("ct_compact"@.len() != "compressed_seeded_bool"@.len());
    assert("ct_compact"@.len() != "compressed_modswitched_bool"@.len());
    assert("ct_compact"@.len() != "compact_bool"@.len());
    assert("ct_compact"@.len() != "bool_list"@.len());
    assert("ct_list"@.len() != "ct1_signed"@.len());
    assert("ct_list"@.len() != "ct2_signed"@.len());
    assert("ct_list"@.len() != "ct_compressed_seeded_signed"@.len());
    assert("ct_list"@.len() != "ct_compressed_modswitched_signed"@.len());
    assert("ct_list"@.len() != "ct_compact_signed"@.len());
    assert("ct_list"@.len() != "ct_list_signed"@.len());
    assert("ct_list"@.len() != "bool1"@.len());
    assert("ct_list"@.len() != "bool2"@.len());
    assert("ct_list"@.len() != "compressed_seeded_bool"@.len());
    assert("ct_list"@.len() != "compressed_modswitched_bool"@.len());
    assert("ct_list"@.len() != "compact_bool"@.len());
    assert("ct_list"@.len() != "bool_list"@.len());
    assert("ct1_signed"@[2] != "ct2_signed"@[2]);
    assert("ct1_signed"@.len() != "ct_compressed_seeded_signed"@.len());
    assert("ct1_signed"@.len() != "ct_compressed_modswitched_signed"@.len());
    assert("ct1_signed"@.len() != "ct_compact_signed"@.len());
    assert("ct1_signed"@.len() != "ct_list_signed"@.len());
    assert("ct1_signed"@.len() != "bool1"@.len());
    assert("ct1_signed"@.len() != "bool2"@.len());
    assert("ct1_signed"@.len() != "compressed_seeded_bool"@.len());
    assert("ct1_signed"@.len() != "compressed_modswitched_bool"@.len());
    assert("ct1_signed"@.len() != "compact_bool"@.len());
    assert("ct1_signed"@.len() != "bool_list"@.len());
    assert("ct2_signed"@.len() != "ct_compressed_seeded_signed"@.len());
    assert("ct2_signed"@.len() != "ct_compressed_modswitched_signed"@.len());
    assert("ct2_signed"@.len() != "ct_compact_signed"@.len());
    assert("ct2_signed"@.len() != "ct_list_signed"@.len());
    assert("ct2_signed"@.len() != "bool1"@.len());
    assert("ct2_signed"@.len() != "bool2"@.len());
    assert("ct2_signed"@.len() != "compressed_seeded_bool"@.len());
    assert("ct2_signed"@.len() != "compressed_modswitched_bool"@.len());
    assert("ct2_signed"@.len() != "compact_bool"@.len());
    assert("ct2_signed"@.len() != "bool_list"@.len());
    assert("ct_compressed_seeded_signed"@.len() != "ct_compressed_modswitched_signed"@.len());
    assert("ct_compressed_seeded_signed"@.len() != "ct_compact_signed"@.len());
    assert("ct_compressed_seeded_signed"@.len() != "ct_list_signed"@.len());
    assert("ct_compressed_seeded_signed"@.len() != "bool1"@.len());
    assert("ct_compressed_seeded_signed"@.len() != "bool2"@.len());
    assert("ct_compressed_seeded_signed"@.len() != "compressed_seeded_bool"@.len());
    assert("ct_compressed_seeded_signed"@[1] != "compressed_modswitched_bool"@[1]);
    assert("ct_compressed_seeded_signed"@.len() != "compact_bool"@.len());
    assert("ct_compressed_seeded_signed"@.len() != "bool_list"@.len());
    assert("ct_compressed_modswitched_signed"@.len() != "ct_compact_signed"@.len());
    assert("ct_compressed_modswitched_signed"@.len() != "ct_list_signed"@.len());
    assert("ct_compressed_modswitched_signed"@.len() != "bool1"@.len());
    assert("ct_compressed_modswitched_signed"@.len() != "bool2"@.len());
    assert("ct_compressed_modswitched_signed"@.len() != "compressed_seeded_bool"@.len());
    assert("ct_compressed_modswitched_signed"@.len() != "compressed_modswitched_bool"@.len());
    assert("ct_compressed_modswitched_signed"@.len() != "compact_bool"@.len());
    assert("ct_compressed_modswitched_signed"@.len() != "bool_list"@.len());
    assert("ct_compact_signed"@.len() != "ct_list_signed"@.len());
    assert("ct_compact_signed"@.len() != "bool1"@.len());
    assert("ct_compact_signed"@.len() != "bool2"@.len());
    assert("ct_compact_signed"@.len() != "compressed_seeded_bool"@.len());
    assert("ct_compact_signed"@.len() != "compressed_modswitched_bool"@.len());
    assert("ct_compact_signed"@.len() != "compact_bool"@.len());
    assert("ct_compact_signed"@.len() != "bool_list"@.len());
    assert("ct_list_signed"@.len() != "bool1"@.len());
    assert("ct_list_signed"@.len() != "bool2"@.len());
    assert("ct_list_signed"@.len() != "compressed_seeded_bool"@.len());
    assert("ct_list_signed"@.len() != "compressed_modswitched_bool"@.len());
    assert("ct_list_signed"@.len() != "compact_bool"@.len());
    assert("ct_list_signed"@.len() != "bool_list"@.len());
    assert("bool1"@[4] != "bool2"@[4]);
    assert("bool1"@.len() != "compressed_seeded_bool"@.len());
    assert("bool1"@.len() != "compressed_modswitched_bool"@.len());
    assert("bool1"@.len() != "compact_bool"@.len());
    assert("bool1"@.len() != "bool_list"@.len());
    assert("bool2"@.len() != "compressed_seeded_bool"@.len());
    assert("bool2"@.len() != "compressed_modswitched_bool"@.len());
    assert("bool2"@.len() != "compact_bool"@.len());
    assert("bool2"@.len() != "bool_list"@.len());
    assert("compressed_seeded_bool"@.len() != "compressed_modswitched_bool"@.len());
    assert("compressed_seeded_bool"@.len() != "compact_bool"@.len());
    assert("compressed_seeded_bool"@.len() != "bool_list"@.len());
    assert("compressed_modswitched_bool"@.len() != "compact_bool"@.len());
    assert("compressed_modswitched_bool"@.len() != "bool_list"@.len());
    assert("compact_bool"@.len() != "bool_list"@.len());
    let s = hl_stems(Release::V0_6);
    assert(s[0] == "client_key"@);
    assert(s[1] == "server_key"@);
    assert(s[2] == "compressed_server_key"@);
    assert(s[3] == "public_key"@);
    assert(s[4] == "compressed_public_key"@);
    assert(s[5] == "compact_public_key"@);
    assert(s[6] == "compressed_compact_public_key"@);
    assert(s[7] == "ct1"@);
    assert(s[8] == "ct2"@);
    assert(s[9] == "ct_compressed_seeded"@);
    assert(s[10] == "ct_compressed_modswitched"@);
    assert(s[11] == "ct_compact"@);
    assert(s[12] == "ct_list"@);
    assert(s[13] == "ct1_signed"@);
    assert(s[14] == "ct2_signed"@);
    assert(s[15] == "ct_compressed_seeded_signed"@);
    assert(s[16] == "ct_compressed_modswitched_signed"@);
    assert(s[17] == "ct_compact_signed"@);
    assert(s[18] == "ct_list_signed"@);
    assert(s[19] == "bool1"@);
    assert(s[20] == "bool2"@);
    assert(s[21] == "compressed_seeded_bool"@);
    assert(s[22] == "compressed_modswitched_bool"@);
    assert(s[23] == "compact_bool"@);
    assert(s[24] == "bool_list"@);
    assert forall|i: int, j: int| 0 <= i < j < s.len() implies s[i] != s[j] by {
        assert(i == 0 || i == 1 || i == 2 || i == 3 || i == 4 || i == 5 || i == 6 || i == 7 || i == 8 || i == 9 || i == 10 || i == 11 || i == 12 || i == 13 || i == 14 || i == 15 || i == 16 || i == 17 || i == 18 || i == 19 || i == 20 || i == 21 || i == 22 || i == 23 || i == 24);
        assert(j == 0 || j == 1 || j == 2 || j == 3 || j == 4 || j == 5 || j == 6 || j == 7 || j == 8 || j == 9 || j == 10 || j == 11 || j == 12 || j == 13 || j == 14 || j == 15 || j == 16 || j == 17 || j == 18 || j == 19 || j == 20 || j == 21 || j == 22 || j == 23 || j == 24);
    }
}

proof fn lemma_hl_v0_7_distinct()
    ensures
        pairwise_distinct(hl_stems(Release::V0_7)),
{
    reveal_strlit("client_key_with_compression");
    reveal_strlit("hl_compressed_heterogeneous_list");
    reveal_strlit("hl_heterogeneous_list");
    reveal_strlit("hl_packed_heterogeneous_list");
    reveal_strlit("server_key_with_compression");
    assert("hl_packed_heterogeneous_list"@.len() != "hl_heterogeneous_list"@.len());
    assert("hl_packed_heterogeneous_list"@.len() != "hl_compressed_heterogeneous_list"@.len());
    assert("hl_packed_heterogeneous_list"@.len() != "client_key_with_compression"@.len());
    assert("hl_packed_heterogeneous_list"@.len() != "server_key_with_compression"@.len());
    assert("hl_heterogeneous_list"@.len() != "hl_compressed_heterogeneous_list"@.len());
    assert("hl_heterogeneous_list"@.len() != "client_key_with_compression"@.len());
    assert("hl_heterogeneous_list"@.len() != "server_key_with_compression"@.len());
    assert("hl_compressed_heterogeneous_list"@.len() != "client_key_with_compression"@.len());
    assert("hl_compressed_heterogeneous_list"@.len() != "server_key_with_compression"@.len());
    assert("client_key_with_compression"@[0] != "server_key_with_compression"@[0]);
    let s = hl_stems(Release::V0_7);
    assert(s[0] == "hl_packed_heterogeneous_list"@);
    assert(s[1] == "hl_heterogeneous_list"@);
    assert(s[2] == "hl_compressed_heterogeneous_list"@);
    assert(s[3] == "client_key_with_compression"@);
    assert(s[4] == "server_key_with_compression"@);
    assert forall|i: int, j: int| 0 <= i < j < s.len() implies s[i] != s[j] by {
        assert(i == 0 || i == 1 || i == 2 || i == 3 || i == 4);
        assert(j == 0 || j == 1 || j == 2 || j == 3 || j == 4);
    }
}

proof fn lemma_hl_v0_8_distinct()
    ensures
        pairwise_distinct(hl_stems(Release::V0_8)),
{
    reveal_strlit("hl_proven_heterogeneous_list");
    reveal_strlit("zk_pke_public_params");
    assert("zk_pke_public_params"@.len() != "hl_proven_heterogeneous_list"@.len());
    let s = hl_stems(Release::V0_8);
    assert(s[0] == "zk_pke_public_params"@);
    assert(s[1] == "hl_proven_heterogeneous_list"@);
    assert forall|i: int, j: int| 0 <= i < j < s.len() implies s[i] != s[j] by {
        assert(i == 0 || i == 1);
        assert(j == 0 || j == 1);
    }
}

proof fn lemma_hl_v1_0_distinct()
    ensures
        pairwise_distinct(hl_stems(Release::V1_0)),
{
    reveal_strlit("client_key_ms_noise_reduction");
    reveal_strlit("server_key_ms_noise_reduction");
    assert("client_key_ms_noise_reduction"@[0] != "server_key_ms_noise_reduction"@[0]);
    let s = hl_stems(Release::V1_0);
    assert(s[0] == "client_key_ms_noise_reduction"@);
    assert(s[1] == "server_key_ms_noise_reduction"@);
    assert forall|i: int, j: int| 0 <= i < j < s.len() implies s[i] != s[j] by {
        assert(i == 0 || i == 1);
        assert(j == 0 || j == 1);
    }
}

proof fn lemma_versions_distinct(r: Release, q: Release)
    requires
        r != q,
    ensures
        version_spec(r) != version_spec(q),
{
    reveal_strlit("0.6");
    reveal_strlit("0.7");
    reveal_strlit("0.8");
    reveal_strlit("0.11");
    reveal_strlit("1.0");
    assert("0.6"@[2] != "0.7"@[2]);
    assert("0.6"@[2] != "0.8"@[2]);
    assert("0.6"@.len() != "0.11"@.len());
    assert("0.6"@[0] != "1.0"@[0]);
    assert("0.7"@[2] != "0.8"@[2]);
    assert("0.7"@.len() != "0.11"@.len());
    assert("0.7"@[0] != "1.0"@[0]);
    assert("0.8"@.len() != "0.11"@.len());
    assert("0.8"@[0] != "1.0"@[0]);
    assert("0.11"@.len() != "1.0"@.len());
}

/// Within one release and one module, no two artifacts share a filename stem;
/// and no two releases share a version string, so each release has directories
/// of its own.
pub proof fn lemma_stems_distinct(r: Release)
    ensures
        forall|q: Release| q != r ==> version_spec(q) != version_spec(r),
        pairwise_distinct(shortint_stems(r)),
        pairwise_distinct(hl_stems(r)),
{
    assert forall|q: Release| q != r implies version_spec(q) != version_spec(r) by {
        lemma_versions_distinct(q, r);
    }
    match r {
        Release::V0_6 => {
            lemma_shortint_v0_6_distinct();
            lemma_hl_v0_6_distinct();
        },
        Release::V0_7 => {
            lemma_hl_v0_7_distinct();
        },
        Release::V0_8 => {
            lemma_hl_v0_8_distinct();
        },
        Release::V0_11 => {},
        Release::V1_0 => {
            lemma_hl_v1_0_distinct();
        },
    }
}

/// A supported release of the host library, as the generation pipeline sees it.
pub trait TfhersVersion {
    spec fn spec_release() -> Release;

    /// The release this adapter stands for.
    fn release() -> (r: Release)
        ensures
            r == Self::spec_release(),
    ;

    /// The release's version string, recorded into every testcase it produces.
    fn version_number() -> (r: String)
        ensures
            r@ == version_spec(Self::spec_release()),
    ;

    /// Descriptors of the basic-module artifacts, in generation order.
    fn gen_shortint_data() -> (r: Vec<TestMetadata>)
        ensures
            describes(r@, shortint_table(Self::spec_release())),
    ;

    /// Descriptors of the high-level-module artifacts, in generation order.
    fn gen_hl_data() -> (r: Vec<TestMetadata>)
        ensures
            describes(r@, hl_table(Self::spec_release())),
    ;
}


pub struct V0_6;

impl TfhersVersion for V0_6 {
    open spec fn spec_release() -> Release {
        Release::V0_6
    }

    fn release() -> (r: Release) {
        Release::V0_6
    }

    fn version_number() -> (r: String) {
        version_number_of(Release::V0_6)
    }

    fn gen_shortint_data() -> (r: Vec<TestMetadata>) {
        let mut v: Vec<TestMetadata> = Vec::new();
        v.push(shortint_client_key("client_key", valid_test_params()));
        v.push(shortint_ciphertext("ct1", "client_key.cbor", 0));
        v.push(shortint_ciphertext("ct2", "client_key.cbor", 3));
        proof {
            assert(v@.map_values(|m: TestMetadata| m@) =~= shortint_table(Release::V0_6));
        }
        v
    }

    fn gen_hl_data() -> (r: Vec<TestMetadata>) {
        let mut v: Vec<TestMetadata> = Vec::new();
        v.push(hl_client_key("client_key", valid_test_params()));
        v.push(hl_server_key("server_key", "client_key.cbor", false));
        v.push(hl_server_key("compressed_server_key", "client_key.cbor", true));
        v.push(hl_public_key("public_key", "client_key_for_pubkey.cbor", false, false));
        v.push(hl_public_key("compressed_public_key", "client_key.cbor", true, false));
        v.push(hl_public_key("compact_public_key", "client_key.cbor", false, true));
        v.push(hl_public_key("compressed_compact_public_key", "client_key.cbor", true, true));
        v.push(hl_ciphertext("ct1", "client_key.cbor", false, false, 0));
        v.push(hl_ciphertext("ct2", "client_key.cbor", false, false, 255));
        v.push(hl_ciphertext("ct_compressed_seeded", "client_key.cbor", true, false, 255));
        v.push(hl_ciphertext("ct_compressed_modswitched", "client_key.cbor", true, false, 255));
        v.push(hl_ciphertext("ct_compact", "client_key.cbor", false, true, 255));
        v.push(hl_ciphertext_list("ct_list", "client_key.cbor", vec![0u64, 255u64]));
        v.push(hl_signed_ciphertext("ct1_signed", "client_key.cbor", false, false, 0i64));
        v.push(hl_signed_ciphertext("ct2_signed", "client_key.cbor", false, false, -127i64));
        v.push(hl_signed_ciphertext("ct_compressed_seeded_signed", "client_key.cbor", true, false, 255i64));
        v.push(hl_signed_ciphertext("ct_compressed_modswitched_signed", "client_key.cbor", true, false, 255i64));
        v.push(hl_signed_ciphertext("ct_compact_signed", "client_key.cbor", false, true, 255i64));
        v.push(hl_signed_ciphertext_list("ct_list_signed", "client_key.cbor", vec![-127i64, 0i64, 127i64]));
        v.push(hl_bool_ciphertext("bool1", "client_key.cbor", false, false, true));
        v.push(hl_bool_ciphertext("bool2", "client_key.cbor", false, false, false));
        v.push(hl_bool_ciphertext("compressed_seeded_bool", "client_key.cbor", true, false, true));
        v.push(hl_bool_ciphertext("compressed_modswitched_bool", "client_key.cbor", true, false, true));
        v.push(hl_bool_ciphertext("compact_bool", "client_key.cbor", false, true, true));
        v.push(hl_bool_ciphertext_list("bool_list", "client_key.cbor", vec![true, false, true]));
        proof {
            assert(v@.map_values(|m: TestMetadata| m@) =~= hl_table(Release::V0_6));
        }
        v
    }
}

pub struct V0_7;

impl TfhersVersion for V0_7 {
    open spec fn spec_release() -> Release {
        Release::V0_7
    }

    fn release() -> (r: Release) {
        Release::V0_7
    }

    fn version_number() -> (r: String) {
        version_number_of(Release::V0_7)
    }

    fn gen_shortint_data() -> (r: Vec<TestMetadata>) {
        let v: Vec<TestMetadata> = Vec::new();
        proof {
            assert(v@.map_values(|m: TestMetadata| m@) =~= shortint_table(Release::V0_7));
        }
        v
    }

    fn gen_hl_data() -> (r: Vec<TestMetadata>) {
        let mut v: Vec<TestMetadata> = Vec::new();
        v.push(hl_heterogeneous_list("hl_packed_heterogeneous_list", "client_key.cbor", false, None));
        v.push(hl_heterogeneous_list("hl_heterogeneous_list", "client_key.cbor", false, None));
        v.push(hl_heterogeneous_list("hl_compressed_heterogeneous_list", "client_key.cbor", true, None));
        v.push(hl_client_key("client_key_with_compression", valid_test_params()));
        v.push(hl_server_key("server_key_with_compression", "client_key_with_compression.cbor", false));
        proof {
            assert(v@.map_values(|m: TestMetadata| m@) =~= hl_table(Release::V0_7));
        }
        v
    }
}

pub struct V0_8;

impl TfhersVersion for V0_8 {
    open spec fn spec_release() -> Release {
        Release::V0_8
    }

    fn release() -> (r: Release) {
        Release::V0_8
    }

    fn version_number() -> (r: String) {
        version_number_of(Release::V0_8)
    }

    fn gen_shortint_data() -> (r: Vec<TestMetadata>) {
        let v: Vec<TestMetadata> = Vec::new();
        proof {
            assert(v@.map_values(|m: TestMetadata| m@) =~= shortint_table(Release::V0_8));
        }
        v
    }

    fn gen_hl_data() -> (r: Vec<TestMetadata>) {
        let mut v: Vec<TestMetadata> = Vec::new();
        v.push(zk_pke_public_params("zk_pke_public_params"));
        v.push(hl_heterogeneous_list("hl_proven_heterogeneous_list", "client_key.cbor", false, Some(proven_list_proof_info())));
        proof {
            assert(v@.map_values(|m: TestMetadata| m@) =~= hl_table(Release::V0_8));
        }
        v
    }
}

pub struct V0_11;

impl TfhersVersion for V0_11 {
    open spec fn spec_release() -> Release {
        Release::V0_11
    }

    fn release() -> (r: Release) {
        Release::V0_11
    }

    fn version_number() -> (r: String) {
        version_number_of(Release::V0_11)
    }

    fn gen_shortint_data() -> (r: Vec<TestMetadata>) {
        let v: Vec<TestMetadata> = Vec::new();
        proof {
            assert(v@.map_values(|m: TestMetadata| m@) =~= shortint_table(Release::V0_11));
        }
        v
    }

    fn gen_hl_data() -> (r: Vec<TestMetadata>) {
        let mut v: Vec<TestMetadata> = Vec::new();
        v.push(zk_pke_public_params("zk_pke_crs"));
        proof {
            assert(v@.map_values(|m: TestMetadata| m@) =~= hl_table(Release::V0_11));
        }
        v
    }
}

pub struct V1_0;

impl TfhersVersion for V1_0 {
    open spec fn spec_release() -> Release {
        Release::V1_0
    }

    fn release() -> (r: Release) {
        Release::V1_0
    }

    fn version_number() -> (r: String) {
        version_number_of(Release::V1_0)
    }

    fn gen_shortint_data() -> (r: Vec<TestMetadata>) {
        let v: Vec<TestMetadata> = Vec::new();
        proof {
            assert(v@.map_values(|m: TestMetadata| m@) =~= shortint_table(Release::V1_0));
        }
        v
    }

    fn gen_hl_data() -> (r: Vec<TestMetadata>) {
        let mut v: Vec<TestMetadata> = Vec::new();
        v.push(hl_client_key("client_key_ms_noise_reduction", insecure_small_test_params_ms_noise_reduction()));
        v.push(hl_server_key("server_key_ms_noise_reduction", "client_key_ms_noise_reduction.cbor", false));
        proof {
            assert(v@.map_values(|m: TestMetadata| m@) =~= hl_table(Release::V1_0));
        }
        v
    }
}

} // verus!
