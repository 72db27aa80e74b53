use vstd::prelude::*;

use crate::jsonval::{JVal, JsonVal};
use crate::strutil::str_eq;
use crate::{AcvpError, AcvpResult, EINVAL};

verus! {

/// The hash-family algorithm names the protocol recognizes.
pub open spec fn is_hash_name(s: Seq<char>) -> bool {
    ||| s == "SHA-1"@
    ||| s == "SHA-224"@
    ||| s == "SHA-256"@
    ||| s == "SHA-384"@
    ||| s == "SHA-512"@
    ||| s == "SHA3-224"@
    ||| s == "SHA3-256"@
    ||| s == "SHA3-384"@
    ||| s == "SHA3-512"@
    ||| s == "SHAKE-128"@
    ||| s == "SHAKE-256"@
}

/// The MAC/AEAD algorithm names the protocol recognizes.
pub open spec fn is_mac_name(s: Seq<char>) -> bool {
    ||| s == "HMAC-SHA-1"@
    ||| s == "HMAC-SHA2-224"@
    ||| s == "HMAC-SHA2-256"@
    ||| s == "HMAC-SHA2-384"@
    ||| s == "HMAC-SHA2-512"@
    ||| s == "HMAC-SHA3-224"@
    ||| s == "HMAC-SHA3-256"@
    ||| s == "HMAC-SHA3-384"@
    ||| s == "HMAC-SHA3-512"@
    ||| s == "CMAC-AES"@
    ||| s == "CMAC-TDES"@
    ||| s == "ACVP-AES-GCM"@
    ||| s == "ACVP-AES-GMAC"@
}

/// The block-cipher algorithm names the protocol recognizes.
pub open spec fn is_blkcipher_name(s: Seq<char>) -> bool {
    ||| s == "ACVP-AES-CBC"@
    ||| s == "ACVP-AES-CTR"@
    ||| s == "ACVP-AES-ECB"@
    ||| s == "ACVP-AES-GCM"@
    ||| s == "ACVP-TDES-ECB"@
    ||| s == "ACVP-TDES-CBC"@
}

/// The random-bit-generator mode names the protocol recognizes.
pub open spec fn is_rng_name(s: Seq<char>) -> bool {
    ||| s == "hashDRBG"@
    ||| s == "ctrDRBG"@
    ||| s == "hmacDRBG"@
}

/// The algorithm family a vector set belongs to.
#[derive(Debug, Clone, Copy, PartialEq, Eq, Structural)]
pub enum AcvpAlgorithm {
    Hash,
    MsgAuth,
    BlockCipher,
    Rng,
    Nil,
}

/// The family `name` classifies into; hash names take precedence, then
/// MAC/AEAD, then block ciphers, then DRBG modes.
pub open spec fn classify_name(name: Seq<char>) -> Option<AcvpAlgorithm> {
    if is_hash_name(name) {
        Some(AcvpAlgorithm::Hash)
    } else if is_mac_name(name) {
        Some(AcvpAlgorithm::MsgAuth)
    } else if is_blkcipher_name(name) {
        Some(AcvpAlgorithm::BlockCipher)
    } else if is_rng_name(name) {
        Some(AcvpAlgorithm::Rng)
    } else {
        None
    }
}

fn is_hash_alg(s: &str) -> (r: bool)
    ensures
        r == is_hash_name(s@),
{
    str_eq(s, "SHA-1") || str_eq(s, "SHA-224") || str_eq(s, "SHA-256") || str_eq(s, "SHA-384")
        || str_eq(s, "SHA-512") || str_eq(s, "SHA3-224") || str_eq(s, "SHA3-256") || str_eq(
        s,
        "SHA3-384",
    ) || str_eq(s, "SHA3-512") || str_eq(s, "SHAKE-128") || str_eq(s, "SHAKE-256")
}

fn is_mac_alg(s: &str) -> (r: bool)
    ensures
        r == is_mac_name(s@),
{
    str_eq(s, "HMAC-SHA-1") || str_eq(s, "HMAC-SHA2-224") || str_eq(s, "HMAC-SHA2-256") || str_eq(
        s,
        "HMAC-SHA2-384",
    ) || str_eq(s, "HMAC-SHA2-512") || str_eq(s, "HMAC-SHA3-224") || str_eq(s, "HMAC-SHA3-256")
        || str_eq(s, "HMAC-SHA3-384") || str_eq(s, "HMAC-SHA3-512") || str_eq(s, "CMAC-AES")
        || str_eq(s, "CMAC-TDES") || str_eq(s, "ACVP-AES-GCM") || str_eq(s, "ACVP-AES-GMAC")
}

fn is_blkcipher_alg(s: &str) -> (r: bool)
    ensures
        r == is_blkcipher_name(s@),
{
    str_eq(s, "ACVP-AES-CBC") || str_eq(s, "ACVP-AES-CTR") || str_eq(s, "ACVP-AES-ECB") || str_eq(
        s,
        "ACVP-AES-GCM",
    ) || str_eq(s, "ACVP-TDES-ECB") || str_eq(s, "ACVP-TDES-CBC")
}

fn is_rng_alg(s: &str) -> (r: bool)
    ensures
        r == is_rng_name(s@),
{
    str_eq(s, "hashDRBG") || str_eq(s, "ctrDRBG") || str_eq(s, "hmacDRBG")
}

impl AcvpAlgorithm {
    /// Classifies an algorithm name into its family; a name in none of the
    /// four tables is a hard error, never a guessed family.
    pub fn alg_type(alg: &str) -> (r: AcvpResult<Self>)
        ensures
            match classify_name(alg@) {
                Some(a) => r matches Ok(got) && got == a,
                None => r matches Err(e) && e.code == -EINVAL,
            },
    {
        if is_hash_alg(alg) {
            return Ok(Self::Hash);
        }
        if is_mac_alg(alg) {
            return Ok(Self::MsgAuth);
        }
        if is_blkcipher_alg(alg) {
            return Ok(Self::BlockCipher);
        }
        if is_rng_alg(alg) {
            return Ok(Self::Rng);
        }
        let mut m = String::from_str("Uknown type for algorithm '");
        m.append(alg);
        m.append("'");
        Err(AcvpError { code: -EINVAL, message: m })
    }
}

/// The class of a test: single-shot, counter, multi-iteration, large-data.
#[derive(Debug, Clone, Copy, PartialEq, Eq, Structural)]
pub enum TestType {
    AFT,
    CTR,
    MCT,
    LDT,
    Nil,
}

/// The test type a `testType` field denotes, if any.
pub open spec fn test_type_of(s: Seq<char>) -> Option<TestType> {
    if s == "AFT"@ {
        Some(TestType::AFT)
    } else if s == "CTR"@ {
        Some(TestType::CTR)
    } else if s == "MCT"@ {
        Some(TestType::MCT)
    } else if s == "LDT"@ {
        Some(TestType::LDT)
    } else {
        None
    }
}

impl TestType {
    /// Maps a `testType` literal to the enum; anything else is an error.
    pub fn from_string(ttype: &str) -> (r: AcvpResult<Self>)
        ensures
            match test_type_of(ttype@) {
                Some(t) => r matches Ok(got) && got == t,
                None => r matches Err(e) && e.code == -EINVAL,
            },
    {
        if str_eq(ttype, "AFT") {
            Ok(TestType::AFT)
        } else if str_eq(ttype, "CTR") {
            Ok(TestType::CTR)
        } else if str_eq(ttype, "MCT") {
            Ok(TestType::MCT)
        } else if str_eq(ttype, "LDT") {
            Ok(TestType::LDT)
        } else {
            let mut m = String::from_str("Invalid test type '");
            m.append(ttype);
            m.append("'");
            Err(AcvpError { code: -EINVAL, message: m })
        }
    }
}

/// The direction of a cipher or MAC operation.
#[derive(Debug, Clone, Copy, PartialEq, Eq, Structural)]
pub enum Direction {
    Encrypt,
    Decrypt,
    Generate,
    Verify,
    Nil,
}

/// The direction a `direction` field denotes, if any.
pub open spec fn direction_of(s: Seq<char>) -> Option<Direction> {
    if s == "encrypt"@ {
        Some(Direction::Encrypt)
    } else if s == "decrypt"@ {
        Some(Direction::Decrypt)
    } else if s == "gen"@ {
        Some(Direction::Generate)
    } else if s == "ver"@ {
        Some(Direction::Verify)
    } else {
        None
    }
}

impl Direction {
    /// Maps a `direction` literal to the enum; anything else is an error.
    pub fn from_string(direction: &str) -> (r: AcvpResult<Self>)
        ensures
            match direction_of(direction@) {
                Some(d) => r matches Ok(got) && got == d,
                None => r matches Err(e) && e.code == -EINVAL,
            },
    {
        if str_eq(direction, "encrypt") {
            Ok(Direction::Encrypt)
        } else if str_eq(direction, "decrypt") {
            Ok(Direction::Decrypt)
        } else if str_eq(direction, "gen") {
            Ok(Direction::Generate)
        } else if str_eq(direction, "ver") {
            Ok(Direction::Verify)
        } else {
            let mut m = String::from_str("Invalid direction '");
            m.append(direction);
            m.append("'");
            Err(AcvpError { code: -EINVAL, message: m })
        }
    }
}

/// How a test's IV comes to be: generated inside the implementation under
/// test, or supplied externally.
#[derive(Debug, Clone, Copy, PartialEq, Eq, Structural)]
pub enum IVMode {
    Internal,
    External,
    Nil,
}

/// The IV mode an `ivGen` field denotes, if any.
pub open spec fn iv_mode_of(s: Seq<char>) -> Option<IVMode> {
    if s == "internal"@ {
        Some(IVMode::Internal)
    } else if s == "external"@ {
        Some(IVMode::External)
    } else {
        None
    }
}

impl IVMode {
    /// Maps an `ivGen` literal to the enum; anything else is an error.
    pub fn from_string(mode: &str) -> (r: AcvpResult<Self>)
        ensures
            match iv_mode_of(mode@) {
                Some(m) => r matches Ok(got) && got == m,
                None => r matches Err(e) && e.code == -EINVAL,
            },
    {
        if str_eq(mode, "internal") {
            Ok(IVMode::Internal)
        } else if str_eq(mode, "external") {
            Ok(IVMode::External)
        } else {
            let mut m = String::from_str("Invalid IVGenMode '");
            m.append(mode);
            m.append("'");
            Err(AcvpError { code: -EINVAL, message: m })
        }
    }
}

/// Membership of `key` in a table of names.
pub fn str_lookup(key: &str, arr: &[&str]) -> (r: bool)
    ensures
        r == exists|i: int| 0 <= i < arr@.len() && (#[trigger] arr@[i])@ == key@,
{
    let mut i: usize = 0;
    while i < arr.len()
        invariant
            i <= arr@.len(),
            forall|j: int| 0 <= j < i ==> (#[trigger] arr@[j])@ != key@,
        decreases arr@.len() - i,
    {
        if str_eq(arr[i], key) {
            return true;
        }
        i = i + 1;
    }
    false
}

/// The string value under `key` in a JSON object, or the crate's
/// missing-or-mistyped error.
pub fn get_acvp_str(key: &str, json: &JsonVal) -> (r: AcvpResult<String>)
    ensures
        match json@.get_key(key@) {
            Some(JVal::Str(s)) => r matches Ok(v) && v@ == s,
            _ => r matches Err(e) && e.code == -EINVAL,
        },
{
    match json.obj_get(key) {
        Some(v) => match v {
            JsonVal::Str(s) => Ok(s.clone()),
            _ => Err(missing_field_err("str", key)),
        },
        None => Err(missing_field_err("str", key)),
    }
}

/// The unsigned integer under `key` in a JSON object, or the crate's
/// missing-or-mistyped error.
pub fn get_acvp_u32(key: &str, json: &JsonVal) -> (r: AcvpResult<u32>)
    ensures
        match json@.get_key(key@) {
            Some(JVal::Num(n)) => r matches Ok(v) && v == n,
            _ => r matches Err(e) && e.code == -EINVAL,
        },
{
    match json.obj_get(key) {
        Some(v) => match v {
            JsonVal::Num(n) => Ok(*n),
            _ => Err(missing_field_err("u32", key)),
        },
        None => Err(missing_field_err("u32", key)),
    }
}

/// The boolean under `key` in a JSON object, or the crate's
/// missing-or-mistyped error.
pub fn get_acvp_bool(key: &str, json: &JsonVal) -> (r: AcvpResult<bool>)
    ensures
        match json@.get_key(key@) {
            Some(JVal::Bool(b)) => r matches Ok(v) && v == b,
            _ => r matches Err(e) && e.code == -EINVAL,
        },
{
    match json.obj_get(key) {
        Some(v) => match v {
            JsonVal::Bool(b) => Ok(*b),
            _ => Err(missing_field_err("boolean", key)),
        },
        None => Err(missing_field_err("boolean", key)),
    }
}

/// The missing-or-mistyped field error for `key`.
fn missing_field_err(kind: &str, key: &str) -> (r: AcvpError)
    ensures
        r.code == -EINVAL,
{
    let mut m = String::from_str("Failed to obtain ");
    m.append(kind);
    m.append(" value associated with key '");
    m.append(key);
    m.append("'");
    AcvpError { code: -EINVAL, message: m }
}

/// Outcome of scanning a request document's members for their algorithm,
/// from position `i` on, with `acc` the classification seen so far: the last
/// member carrying an `algorithm` key wins; a mistyped value or an unknown
/// name is an error.
pub open spec fn doc_alg_scan(members: Seq<JVal>, i: int, acc: AcvpAlgorithm) -> Result<
    AcvpAlgorithm,
    (),
>
    decreases members.len() - i,
{
    if i < 0 || i >= members.len() {
        Ok(acc)
    } else {
        match members[i].get_key("algorithm"@) {
            Some(JVal::Str(s)) => match classify_name(s) {
                Some(a) => doc_alg_scan(members, i + 1, a),
                None => Err(()),
            },
            Some(_) => Err(()),
            None => doc_alg_scan(members, i + 1, acc),
        }
    }
}

/// Reads the whole request text only to classify its algorithm: the family
/// named by the last member carrying an `algorithm` key. A text that does
/// not parse, a non-array document, a mistyped or unknown algorithm, or a
/// document naming none at all, each is a hard error.
pub fn get_algorithm_type(vector: &str) -> (r: AcvpResult<AcvpAlgorithm>)
    ensures
        match crate::jsontext::parsed_doc(vector@) {
            None => r matches Err(e) && e.code == -EINVAL,
            Some(doc) => match doc {
                JVal::Arr(members) => match doc_alg_scan(members, 0, AcvpAlgorithm::Nil) {
                    Ok(a) => if a == AcvpAlgorithm::Nil {
                        r matches Err(e) && e.code == -EINVAL
                    } else {
                        r matches Ok(got) && got == a
                    },
                    Err(_) => r matches Err(e) && e.code == -EINVAL,
                },
                _ => r matches Err(e) && e.code == -EINVAL,
            },
        },
{
    let doc = match crate::jsontext::parse_doc(vector) {
        Some(d) => d,
        None => {
            return Err(
                AcvpError {
                    code: -EINVAL,
                    message: String::from_str(
                        "Invalid input vector, failed to get algorithm type",
                    ),
                },
            );
        },
    };
    match &doc {
        JsonVal::Arr(members) => {
            let ghost gm = crate::jsonval::jv_view_list(members@);
            proof {
                crate::jsonval::lemma_jv_view_list(members@);
                assert(doc == JsonVal::Arr(*members));
                assert(doc@ == JVal::Arr(gm));
            }
            let mut alg = AcvpAlgorithm::Nil;
            let mut i: usize = 0;
            while i < members.len()
        invariant
                    i <= members@.len(),
                    gm == crate::jsonval::jv_view_list(members@),
                    gm.len() == members@.len(),
                    crate::jsontext::parsed_doc(vector@) == Some(doc@),
                    doc@ == JVal::Arr(gm),
                    forall|j: int|
                        0 <= j < members@.len() ==> gm[j] == crate::jsonval::jv_view(
                            #[trigger] members@[j],
                        ),
                    doc_alg_scan(gm, 0, AcvpAlgorithm::Nil) == doc_alg_scan(gm, i as int, alg),
        decreases members@.len() - i,
            {
                let m = &members[i];
                proof {
                    assert(m@ == gm[i as int]);
                }
                if m.has_key("algorithm") {
                    let algname = match get_acvp_str("algorithm", m) {
                        Ok(s) => s,
                        Err(e) => {
                            proof {
                                assert(doc_alg_scan(gm, i as int, alg) == Err::<
                                    AcvpAlgorithm,
                                    (),
                                >(()));
                            }
                            return Err(e);
                        },
                    };
                    let a = match AcvpAlgorithm::alg_type(algname.as_str()) {
                        Ok(a) => a,
                        Err(e) => {
                            proof {
                                assert(doc_alg_scan(gm, i as int, alg) == Err::<
                                    AcvpAlgorithm,
                                    (),
                                >(()));
                            }
                            return Err(e);
                        },
                    };
                    proof {
                        assert(doc_alg_scan(gm, i as int, alg) == doc_alg_scan(gm, i + 1, a));
                    }
                    alg = a;
                } else {
                    proof {
                        assert(doc_alg_scan(gm, i as int, alg) == doc_alg_scan(gm, i + 1, alg));
                    }
                }
                i = i + 1;
            }
            if matches!(alg, AcvpAlgorithm::Nil) {
                Err(
                    AcvpError {
                        code: -EINVAL,
                        message: String::from_str("No 'algorithm' key present in input vector"),
                    },
                )
            } else {
                Ok(alg)
            }
        },
        _ => Err(
            AcvpError {
                code: -EINVAL,
                message: String::from_str("No 'algorithm' key present in input vector"),
            },
        ),
    }
}

/// Decodes an ACVP hex string into bytes; odd length or a non-hex character
/// is rejected. Shares its statement with `crate::hexcodec::hex2bin`.
pub fn hex2bin(hex: &str) -> (r: AcvpResult<Vec<u8>>)
    ensures
        crate::hexcodec::valid_hex(hex@) ==> (r matches Ok(b) && b@ == crate::hexcodec::hex_bytes(
            hex@,
        )),
        !crate::hexcodec::valid_hex(hex@) ==> (r matches Err(e) && e.code == -EINVAL),
{
    crate::hexcodec::hex2bin(hex)
}

} // verus!
