use vstd::prelude::*;

use crate::blkcipher::{opt_hex_field, req_hex_field};
use crate::hexcodec::{hex2bin, hex_encode_upper, hex_upper};
use crate::jsonval::{jv_view_entries, JVal, JsonVal};
use crate::parser::{TestCase, TestGroupData, TestResult};
use crate::strutil::{contains_seq, str_contains};
use crate::util::{get_acvp_str, get_acvp_u32, Direction, IVMode, TestType};
use crate::{AcvpError, AcvpResult, EINVAL};

verus! {

/// One MAC/AEAD test case: key material, IV, message, associated data, tag
/// and the declared tag length.
#[derive(Debug)]
pub struct MsgAuth {
    pub algorithm: String,
    pub tcid: u32,
    pub test_type: TestType,
    pub direction: Direction,
    pub res_json: Option<JsonVal>,
    pub key: Vec<u8>,
    pub key1: Vec<u8>,
    pub key2: Vec<u8>,
    pub key3: Vec<u8>,
    pub iv: Vec<u8>,
    pub ivmode: IVMode,
    pub msg: Vec<u8>,
    pub aad: Vec<u8>,
    pub tag: Vec<u8>,
    pub taglen: usize,
}

/// The message bytes a MAC/AEAD test case declares: the first field present
/// among `msg`, `message`, `plainText`, `cipherText`, `pt`, `ct`, in that
/// priority order; empty when none is present.
pub open spec fn ma_msg_spec(test: JVal) -> Result<Seq<u8>, ()> {
    if test.has_key("msg"@) {
        req_hex_field(test, "msg"@)
    } else if test.has_key("message"@) {
        req_hex_field(test, "message"@)
    } else if test.has_key("plainText"@) {
        req_hex_field(test, "plainText"@)
    } else if test.has_key("cipherText"@) {
        req_hex_field(test, "cipherText"@)
    } else if test.has_key("pt"@) {
        req_hex_field(test, "pt"@)
    } else if test.has_key("ct"@) {
        req_hex_field(test, "ct"@)
    } else {
        Ok(Seq::empty())
    }
}

/// An optional hex field, empty when absent.
pub open spec fn ma_opt_spec(test: JVal, key: Seq<char>) -> Result<Seq<u8>, ()> {
    match opt_hex_field(test, key) {
        Ok(Some(b)) => Ok(b),
        Ok(None) => Ok(Seq::empty()),
        Err(()) => Err(()),
    }
}

/// The three-part key material, decoded separately and never concatenated;
/// all empty unless all three fields are present.
pub open spec fn ma_keys3_spec(test: JVal) -> Result<(Seq<u8>, Seq<u8>, Seq<u8>), ()> {
    if test.has_key("key1"@) && test.has_key("key2"@) && test.has_key("key3"@) {
        match (req_hex_field(test, "key1"@), req_hex_field(test, "key2"@), req_hex_field(
            test,
            "key3"@,
        )) {
            (Ok(k1), Ok(k2), Ok(k3)) => Ok((k1, k2, k3)),
            _ => Err(()),
        }
    } else {
        Ok((Seq::empty(), Seq::empty(), Seq::empty()))
    }
}

/// The declared tag: the `tag` field when present, else `mac`, else empty.
pub open spec fn ma_tag_spec(test: JVal) -> Result<Seq<u8>, ()> {
    if test.has_key("tag"@) {
        req_hex_field(test, "tag"@)
    } else if test.has_key("mac"@) {
        req_hex_field(test, "mac"@)
    } else {
        Ok(Seq::empty())
    }
}

/// Tag splitting applies: no tag field was found and the group decrypts, so
/// the declared payload length divides the message buffer into message and
/// tag.
pub open spec fn ma_splits(tag0: Seq<u8>, tg: TestGroupData) -> bool {
    tag0.len() == 0 && tg.direction == Direction::Decrypt
}

/// The test-case document decodes into `c` under context `tg`. The IV is
/// pinned except when the group generates it internally, where only its
/// length is promised.
pub open spec fn ma_decode_ok(test: JVal, tg: TestGroupData, c: MsgAuth) -> bool {
    &&& test.get_key("tcId"@) matches Some(JVal::Num(n)) && c.tcid == n
    &&& ma_opt_spec(test, "aad"@) matches Ok(aad) && c.aad@ == aad
    &&& ma_opt_spec(test, "key"@) matches Ok(k) && c.key@ == k
    &&& ma_keys3_spec(test) matches Ok(ks) && c.key1@ == ks.0 && c.key2@ == ks.1 && c.key3@ == ks.2
    &&& {
        if test.has_key("iv"@) {
            req_hex_field(test, "iv"@) matches Ok(iv) && c.iv@ == iv
        } else if tg.ivmode == IVMode::Internal {
            c.iv@.len() == tg.ivlen
        } else {
            c.iv@ == Seq::<u8>::empty()
        }
    }
    &&& ma_msg_spec(test) matches Ok(msg0) && ma_tag_spec(test) matches Ok(tag0) && {
        if ma_splits(tag0, tg) {
            if tg.payload_len == 0 {
                c.tag@ == msg0 && c.msg@ == Seq::<u8>::empty()
            } else {
                &&& tg.payload_len <= msg0.len()
                &&& c.msg@ == msg0.take(tg.payload_len as int)
                &&& c.tag@ == msg0.skip(tg.payload_len as int)
            }
        } else {
            c.msg@ == msg0 && c.tag@ == tag0
        }
    }
    &&& c.algorithm@ == tg.algorithm@
    &&& c.test_type == tg.test_type
    &&& c.direction == tg.direction
    &&& c.ivmode == tg.ivmode
    &&& c.taglen == tg.taglen
    &&& c.res_json is None
}

/// The test-case document cannot decode under context `tg`: a mistyped or
/// invalid field, or a declared payload length past the end of the message.
pub open spec fn ma_decode_err(test: JVal, tg: TestGroupData) -> bool {
    ||| !(test.get_key("tcId"@) matches Some(JVal::Num(_)))
    ||| ma_msg_spec(test) is Err
    ||| ma_opt_spec(test, "aad"@) is Err
    ||| ma_opt_spec(test, "key"@) is Err
    ||| ma_keys3_spec(test) is Err
    ||| (test.has_key("iv"@) && req_hex_field(test, "iv"@) is Err)
    ||| ma_tag_spec(test) is Err
    ||| (ma_msg_spec(test) matches Ok(msg0) && ma_tag_spec(test) matches Ok(tag0) && ma_splits(
        tag0,
        tg,
    ) && tg.payload_len != 0 && tg.payload_len > msg0.len())
}

/// Relies on rand: `thread_rng().gen_range(0..255)` draws one byte below
/// 255; nothing else is promised of a random value.
#[verifier::external_body]
fn random_byte() -> (b: u8)
    ensures
        b < 255,
{
    rand::Rng::gen_range(&mut rand::thread_rng(), 0..255)
}

/// An internally generated IV: `len` random bytes.
fn gen_internal_iv(len: usize) -> (r: Vec<u8>)
    ensures
        r@.len() == len,
        forall|i: int| 0 <= i < len ==> r@[i] < 255,
{
    let mut r: Vec<u8> = Vec::new();
    let mut i: usize = 0;
    while i < len
        invariant
            i <= len,
            r@.len() == i,
            forall|j: int| 0 <= j < i ==> r@[j] < 255,
        decreases len - i,
    {
        r.push(random_byte());
        i = i + 1;
    }
    r
}

/// Reads the optional hex field `key`, empty when absent.
fn read_opt_hex(doc: &JsonVal, key: &str) -> (r: AcvpResult<Vec<u8>>)
    ensures
        match r {
            Ok(b) => ma_opt_spec(doc@, key@) == Ok::<Seq<u8>, ()>(b@),
            Err(e) => e.code == -EINVAL && ma_opt_spec(doc@, key@) is Err,
        },
{
    if doc.has_key(key) {
        let hex = match get_acvp_str(key, doc) {
            Ok(s) => s,
            Err(e) => {
                return Err(e);
            },
        };
        match hex2bin(hex.as_str()) {
            Ok(b) => Ok(b),
            Err(e) => Err(e),
        }
    } else {
        Ok(Vec::new())
    }
}

impl TestCase for MsgAuth {
    open spec fn decodes(test: JVal, tgdata: TestGroupData, r: AcvpResult<Self>) -> bool {
        match r {
            Ok(c) => ma_decode_ok(test, tgdata, c),
            Err(e) => e.code == -EINVAL && ma_decode_err(test, tgdata),
        }
    }

    open spec fn result_view(&self) -> Option<JVal> {
        match self.res_json {
            Some(v) => Some(v@),
            None => None,
        }
    }

    proof fn decodes_err_code(test: JVal, tgdata: TestGroupData, e: AcvpError) {
    }

    fn new(test: &str, tgdata: &TestGroupData) -> (r: AcvpResult<Self>) {
        let doc = match crate::jsontext::parse_doc(test) {
            Some(d) => d,
            None => {
                return Err(
                    AcvpError {
                        code: -EINVAL,
                        message: String::from_str("Failed to parse testcase JSON for SHash"),
                    },
                );
            },
        };
        Self::decode(&doc, tgdata)
    }

    fn decode(test: &JsonVal, tgdata: &TestGroupData) -> (r: AcvpResult<Self>) {
        let tcid = match get_acvp_u32("tcId", test) {
            Ok(n) => n,
            Err(e) => {
                return Err(e);
            },
        };
        let mut msg: Vec<u8> = Vec::new();
        if test.has_key("msg") {
            msg = match read_req_hex(test, "msg") {
                Ok(b) => b,
                Err(e) => {
                    return Err(e);
                },
            };
        } else if test.has_key("message") {
            msg = match read_req_hex(test, "message") {
                Ok(b) => b,
                Err(e) => {
                    return Err(e);
                },
            };
        } else if test.has_key("plainText") {
            msg = match read_req_hex(test, "plainText") {
                Ok(b) => b,
                Err(e) => {
                    return Err(e);
                },
            };
        } else if test.has_key("cipherText") {
            msg = match read_req_hex(test, "cipherText") {
                Ok(b) => b,
                Err(e) => {
                    return Err(e);
                },
            };
        } else if test.has_key("pt") {
            msg = match read_req_hex(test, "pt") {
                Ok(b) => b,
                Err(e) => {
                    return Err(e);
                },
            };
        } else if test.has_key("ct") {
            msg = match read_req_hex(test, "ct") {
                Ok(b) => b,
                Err(e) => {
                    return Err(e);
                },
            };
        }
        let aad = match read_opt_hex(test, "aad") {
            Ok(b) => b,
            Err(e) => {
                return Err(e);
            },
        };
        let key = match read_opt_hex(test, "key") {
            Ok(b) => b,
            Err(e) => {
                return Err(e);
            },
        };
        let mut key1: Vec<u8> = Vec::new();
        let mut key2: Vec<u8> = Vec::new();
        let mut key3: Vec<u8> = Vec::new();
        if test.has_key("key1") && test.has_key("key2") && test.has_key("key3") {
            key1 = match read_req_hex(test, "key1") {
                Ok(b) => b,
                Err(e) => {
                    return Err(e);
                },
            };
            key2 = match read_req_hex(test, "key2") {
                Ok(b) => b,
                Err(e) => {
                    return Err(e);
                },
            };
            key3 = match read_req_hex(test, "key3") {
                Ok(b) => b,
                Err(e) => {
                    return Err(e);
                },
            };
        }
        let mut iv: Vec<u8> = Vec::new();
        if test.has_key("iv") {
            iv = match read_req_hex(test, "iv") {
                Ok(b) => b,
                Err(e) => {
                    return Err(e);
                },
            };
        } else if matches!(tgdata.ivmode, IVMode::Internal) {
            iv = gen_internal_iv(tgdata.ivlen);
        }
        let mut tag: Vec<u8> = Vec::new();
        if test.has_key("tag") {
            tag = match read_req_hex(test, "tag") {
                Ok(b) => b,
                Err(e) => {
                    return Err(e);
                },
            };
        } else if test.has_key("mac") {
            tag = match read_req_hex(test, "mac") {
                Ok(b) => b,
                Err(e) => {
                    return Err(e);
                },
            };
        }
        // The protocol quirk of CCM decrypt vectors: ciphertext and tag come
        // concatenated under one field, so the declared payload length
        // splits the decoded buffer.
        if tag.len() == 0 && matches!(tgdata.direction, Direction::Decrypt) {
            if tgdata.payload_len == 0 {
                tag = msg;
                msg = Vec::new();
            } else {
                if tgdata.payload_len > msg.len() {
                    return Err(
                        AcvpError {
                            code: -EINVAL,
                            message: String::from_str(
                                "Declared payload length exceeds the message",
                            ),
                        },
                    );
                }
                let mut head = msg;
                let tail = head.split_off(tgdata.payload_len);
                msg = head;
                tag = tail;
            }
        }
        Ok(
            MsgAuth {
                algorithm: tgdata.algorithm.clone(),
                tcid,
                test_type: tgdata.test_type,
                direction: tgdata.direction,
                res_json: None,
                key,
                key1,
                key2,
                key3,
                iv,
                ivmode: tgdata.ivmode,
                msg,
                aad,
                tag,
                taglen: tgdata.taglen,
            },
        )
    }

    fn get_result(&self) -> (r: AcvpResult<JsonVal>) {
        match &self.res_json {
            Some(v) => Ok(v.deep_clone()),
            None => Err(crate::hash::unset_result_err()),
        }
    }

    fn dump_result(&self) -> (r: AcvpResult<String>) {
        match &self.res_json {
            Some(v) => Ok(v.dump()),
            None => Err(crate::hash::unset_result_err()),
        }
    }

    fn pretty_result(&self) -> (r: AcvpResult<String>) {
        match &self.res_json {
            Some(v) => Ok(v.pretty()),
            None => Err(crate::hash::unset_result_err()),
        }
    }
}

/// Reads the required hex field `key`.
fn read_req_hex(doc: &JsonVal, key: &str) -> (r: AcvpResult<Vec<u8>>)
    ensures
        match r {
            Ok(b) => req_hex_field(doc@, key@) == Ok::<Seq<u8>, ()>(b@),
            Err(e) => e.code == -EINVAL && req_hex_field(doc@, key@) is Err,
        },
{
    let hex = match get_acvp_str(key, doc) {
        Ok(s) => s,
        Err(e) => {
            return Err(e);
        },
    };
    match hex2bin(hex.as_str()) {
        Ok(b) => Ok(b),
        Err(e) => Err(e),
    }
}

/// A structured AEAD result: the output bytes and the computed tag.
#[derive(Debug, PartialEq, Eq)]
pub struct MsgAuthOutput {
    pub out: Vec<u8>,
    pub tag: Vec<u8>,
}

impl MsgAuthOutput {
    /// Packs the crypto engine's output bytes and tag.
    pub fn new(out: Vec<u8>, tag: Vec<u8>) -> (r: Self)
        ensures
            r.out == out,
            r.tag == tag,
    {
        MsgAuthOutput { out, tag }
    }
}

impl Clone for MsgAuth {
    fn clone(&self) -> (r: Self)
        ensures
            r.algorithm == self.algorithm,
            r.tcid == self.tcid,
            r.test_type == self.test_type,
            r.direction == self.direction,
            r.result_view() == self.result_view(),
            r.key@ == self.key@,
            r.key1@ == self.key1@,
            r.key2@ == self.key2@,
            r.key3@ == self.key3@,
            r.iv@ == self.iv@,
            r.ivmode == self.ivmode,
            r.msg@ == self.msg@,
            r.aad@ == self.aad@,
            r.tag@ == self.tag@,
            r.taglen == self.taglen,
    {
        MsgAuth {
            algorithm: self.algorithm.clone(),
            tcid: self.tcid,
            test_type: self.test_type,
            direction: self.direction,
            res_json: match &self.res_json {
                Some(v) => Some(v.deep_clone()),
                None => None,
            },
            key: crate::strutil::clone_bytes(&self.key),
            key1: crate::strutil::clone_bytes(&self.key1),
            key2: crate::strutil::clone_bytes(&self.key2),
            key3: crate::strutil::clone_bytes(&self.key3),
            iv: crate::strutil::clone_bytes(&self.iv),
            ivmode: self.ivmode,
            msg: crate::strutil::clone_bytes(&self.msg),
            aad: crate::strutil::clone_bytes(&self.aad),
            tag: crate::strutil::clone_bytes(&self.tag),
            taglen: self.taglen,
        }
    }
}

impl Clone for MsgAuthOutput {
    fn clone(&self) -> (r: Self)
        ensures
            r.out@ == self.out@,
            r.tag@ == self.tag@,
    {
        MsgAuthOutput {
            out: crate::strutil::clone_bytes(&self.out),
            tag: crate::strutil::clone_bytes(&self.tag),
        }
    }
}

/// The response field a raw-byte MAC/AEAD result lands under: `mac` for
/// algorithm names holding "HMAC", "TDES" or "CMAC"; `tag` for "GMAC"; `pt`
/// for "GCM" regardless of direction; otherwise `pt` on decrypt/verify and
/// `ct` on encrypt/generate, and no field at all without a direction.
pub open spec fn ma_raw_field(alg: Seq<char>, dir: Direction) -> Option<Seq<char>> {
    if contains_seq(alg, "HMAC"@) || contains_seq(alg, "TDES"@) || contains_seq(alg, "CMAC"@) {
        Some("mac"@)
    } else if contains_seq(alg, "GMAC"@) {
        Some("tag"@)
    } else if contains_seq(alg, "GCM"@) {
        Some("pt"@)
    } else {
        match dir {
            Direction::Decrypt | Direction::Verify => Some("pt"@),
            Direction::Encrypt | Direction::Generate => Some("ct"@),
            _ => None,
        }
    }
}

/// The response of a raw-byte MAC/AEAD result, defined where `ma_raw_field`
/// names a field.
pub open spec fn ma_raw_result(tcid: u32, field: Seq<char>, res: Seq<u8>) -> JVal {
    JVal::Obj(seq![("tcId"@, JVal::Num(tcid)), (field, JVal::Str(hex_upper(res)))])
}

/// The response of a structured bytes-and-tag result: the IV first when it
/// was generated internally; output and tag concatenated under `ct` for
/// names holding "CCM", separate `ct` and `tag` fields otherwise.
pub open spec fn ma_structured_result(
    tcid: u32,
    alg: Seq<char>,
    ivmode: IVMode,
    iv: Seq<u8>,
    out: Seq<u8>,
    tag: Seq<u8>,
) -> JVal {
    JVal::Obj(
        seq![("tcId"@, JVal::Num(tcid))] + (
        if ivmode == IVMode::Internal {
            seq![("iv"@, JVal::Str(hex_upper(iv)))]
        } else {
            Seq::empty()
        }) + (
        if contains_seq(alg, "CCM"@) {
            seq![("ct"@, JVal::Str(hex_upper(out + tag)))]
        } else {
            seq![("ct"@, JVal::Str(hex_upper(out))), ("tag"@, JVal::Str(hex_upper(tag)))]
        }),
    )
}

/// The response of a verification result: the test id and the boolean.
pub open spec fn ma_bool_result(tcid: u32, passed: bool) -> JVal {
    JVal::Obj(seq![("tcId"@, JVal::Num(tcid)), ("testPassed"@, JVal::Bool(passed))])
}

/// The fields of `post` other than the result slot are those of `pre`.
pub open spec fn ma_fields_kept(pre: MsgAuth, post: MsgAuth) -> bool {
    &&& post.algorithm == pre.algorithm
    &&& post.tcid == pre.tcid
    &&& post.test_type == pre.test_type
    &&& post.direction == pre.direction
    &&& post.key == pre.key
    &&& post.key1 == pre.key1
    &&& post.key2 == pre.key2
    &&& post.key3 == pre.key3
    &&& post.iv == pre.iv
    &&& post.ivmode == pre.ivmode
    &&& post.msg == pre.msg
    &&& post.aad == pre.aad
    &&& post.tag == pre.tag
    &&& post.taglen == pre.taglen
}

/// Law: for the algorithm name "ACVP-AES-GCM" a raw-byte result always
/// lands under `pt`, whatever the direction: the name holds "GCM" and none
/// of "HMAC", "TDES", "CMAC", "GMAC".
pub proof fn lemma_gcm_raw_field(dir: Direction)
    ensures
        ma_raw_field("ACVP-AES-GCM"@, dir) == Some("pt"@),
{
    reveal_strlit("ACVP-AES-GCM");
    reveal_strlit("HMAC");
    reveal_strlit("TDES");
    reveal_strlit("CMAC");
    reveal_strlit("GMAC");
    reveal_strlit("GCM");
    let s = "ACVP-AES-GCM"@;
    assert(s.len() == 12);
    assert forall|k: int| 0 <= k && k + "HMAC"@.len() <= s.len() implies #[trigger] s.subrange(
        k,
        k + "HMAC"@.len() as int,
    ) != "HMAC"@ by {
        crate::strutil::lemma_window_ne(s, "HMAC"@, k, 0);
    }
    assert forall|k: int| 0 <= k && k + "TDES"@.len() <= s.len() implies #[trigger] s.subrange(
        k,
        k + "TDES"@.len() as int,
    ) != "TDES"@ by {
        crate::strutil::lemma_window_ne(s, "TDES"@, k, 0);
    }
    assert forall|k: int| 0 <= k && k + "CMAC"@.len() <= s.len() implies #[trigger] s.subrange(
        k,
        k + "CMAC"@.len() as int,
    ) != "CMAC"@ by {
        if k == 1 {
            crate::strutil::lemma_window_ne(s, "CMAC"@, k, 1);
        } else {
            crate::strutil::lemma_window_ne(s, "CMAC"@, k, 0);
        }
    }
    assert forall|k: int| 0 <= k && k + "GMAC"@.len() <= s.len() implies #[trigger] s.subrange(
        k,
        k + "GMAC"@.len() as int,
    ) != "GMAC"@ by {
        crate::strutil::lemma_window_ne(s, "GMAC"@, k, 0);
    }
    assert(s.subrange(9, 9 + "GCM"@.len() as int) =~= "GCM"@);
    assert(contains_seq(s, "GCM"@));
}

/// Law: for the algorithm name "ACVP-AES-CBC" a raw-byte result lands under
/// `pt` on decrypt and under `ct` on encrypt: the name holds none of the
/// special markers, so the direction decides.
pub proof fn lemma_cbc_raw_field()
    ensures
        ma_raw_field("ACVP-AES-CBC"@, Direction::Decrypt) == Some("pt"@),
        ma_raw_field("ACVP-AES-CBC"@, Direction::Encrypt) == Some("ct"@),
{
    reveal_strlit("ACVP-AES-CBC");
    reveal_strlit("HMAC");
    reveal_strlit("TDES");
    reveal_strlit("CMAC");
    reveal_strlit("GMAC");
    reveal_strlit("GCM");
    let s = "ACVP-AES-CBC"@;
    assert(s.len() == 12);
    assert forall|k: int| 0 <= k && k + "HMAC"@.len() <= s.len() implies #[trigger] s.subrange(
        k,
        k + "HMAC"@.len() as int,
    ) != "HMAC"@ by {
        crate::strutil::lemma_window_ne(s, "HMAC"@, k, 0);
    }
    assert forall|k: int| 0 <= k && k + "TDES"@.len() <= s.len() implies #[trigger] s.subrange(
        k,
        k + "TDES"@.len() as int,
    ) != "TDES"@ by {
        crate::strutil::lemma_window_ne(s, "TDES"@, k, 0);
    }
    assert forall|k: int| 0 <= k && k + "CMAC"@.len() <= s.len() implies #[trigger] s.subrange(
        k,
        k + "CMAC"@.len() as int,
    ) != "CMAC"@ by {
        if k == 1 {
            crate::strutil::lemma_window_ne(s, "CMAC"@, k, 1);
        } else {
            crate::strutil::lemma_window_ne(s, "CMAC"@, k, 0);
        }
    }
    assert forall|k: int| 0 <= k && k + "GMAC"@.len() <= s.len() implies #[trigger] s.subrange(
        k,
        k + "GMAC"@.len() as int,
    ) != "GMAC"@ by {
        crate::strutil::lemma_window_ne(s, "GMAC"@, k, 0);
    }
    assert forall|k: int| 0 <= k && k + "GCM"@.len() <= s.len() implies #[trigger] s.subrange(
        k,
        k + "GCM"@.len() as int,
    ) != "GCM"@ by {
        crate::strutil::lemma_window_ne(s, "GCM"@, k, 0);
    }
}

impl TestResult<Vec<u8>> for MsgAuth {
    open spec fn sets_result(pre: Self, res: Vec<u8>, post: Self, r: AcvpResult<()>) -> bool {
        &&& ma_fields_kept(pre, post)
        &&& match ma_raw_field(pre.algorithm@, pre.direction) {
            Some(field) => r matches Ok(()) && post.result_view() == Some(
                ma_raw_result(pre.tcid, field, res@),
            ),
            None => r matches Err(e) && e.code == -EINVAL && post.res_json == pre.res_json,
        }
    }

    fn set_result(&mut self, result: Vec<u8>) -> (r: AcvpResult<()>) {
        let ghost galg = self.algorithm@;
        let ghost gdir = self.direction;
        let mut fields: Vec<(String, JsonVal)> = Vec::new();
        fields.push((String::from_str("tcId"), JsonVal::Num(self.tcid)));
        if str_contains(self.algorithm.as_str(), "HMAC") || str_contains(
            self.algorithm.as_str(),
            "TDES",
        ) || str_contains(self.algorithm.as_str(), "CMAC") {
            fields.push((String::from_str("mac"), JsonVal::Str(hex_encode_upper(&result))));
        } else if str_contains(self.algorithm.as_str(), "GMAC") {
            fields.push((String::from_str("tag"), JsonVal::Str(hex_encode_upper(&result))));
        } else if str_contains(self.algorithm.as_str(), "GCM") {
            fields.push((String::from_str("pt"), JsonVal::Str(hex_encode_upper(&result))));
        } else {
            match self.direction {
                Direction::Decrypt | Direction::Verify => {
                    fields.push(
                        (String::from_str("pt"), JsonVal::Str(hex_encode_upper(&result))),
                    );
                },
                Direction::Encrypt | Direction::Generate => {
                    fields.push(
                        (String::from_str("ct"), JsonVal::Str(hex_encode_upper(&result))),
                    );
                },
                Direction::Nil => {
                    return Err(
                        AcvpError {
                            code: -EINVAL,
                            message: String::from_str("Invalid direction for MsgAuth algorithm"),
                        },
                    );
                },
            }
        }
        proof {
            let ghost field = ma_raw_field(galg, gdir)->Some_0;
            let ghost expect = ma_raw_result(self.tcid, field, result@)->Obj_0;
            assert(expect.len() == fields@.len());
            crate::jsonval::lemma_jv_view_entries_pointwise(fields@, expect);
        }
        self.res_json = Some(JsonVal::Obj(fields));
        Ok(())
    }
}

impl TestResult<MsgAuthOutput> for MsgAuth {
    open spec fn sets_result(pre: Self, res: MsgAuthOutput, post: Self, r: AcvpResult<()>) -> bool {
        &&& ma_fields_kept(pre, post)
        &&& r matches Ok(())
        &&& post.result_view() == Some(
            ma_structured_result(
                pre.tcid,
                pre.algorithm@,
                pre.ivmode,
                pre.iv@,
                res.out@,
                res.tag@,
            ),
        )
    }

    fn set_result(&mut self, result: MsgAuthOutput) -> (r: AcvpResult<()>) {
        let ghost galg = self.algorithm@;
        let ghost seg_id = seq![("tcId"@, JVal::Num(self.tcid))];
        let ghost seg_iv: Seq<(Seq<char>, JVal)> = if self.ivmode == IVMode::Internal {
            seq![("iv"@, JVal::Str(hex_upper(self.iv@)))]
        } else {
            Seq::empty()
        };
        let ghost seg_data: Seq<(Seq<char>, JVal)> = if contains_seq(galg, "CCM"@) {
            seq![("ct"@, JVal::Str(hex_upper(result.out@ + result.tag@)))]
        } else {
            seq![
                ("ct"@, JVal::Str(hex_upper(result.out@))),
                ("tag"@, JVal::Str(hex_upper(result.tag@))),
            ]
        };
        let mut fields: Vec<(String, JsonVal)> = Vec::new();
        fields.push((String::from_str("tcId"), JsonVal::Num(self.tcid)));
        if matches!(self.ivmode, IVMode::Internal) {
            fields.push((String::from_str("iv"), JsonVal::Str(hex_encode_upper(&self.iv))));
        }
        if str_contains(self.algorithm.as_str(), "CCM") {
            let mut ct = result.out;
            let mut tail = result.tag;
            ct.append(&mut tail);
            fields.push((String::from_str("ct"), JsonVal::Str(hex_encode_upper(&ct))));
        } else {
            fields.push((String::from_str("ct"), JsonVal::Str(hex_encode_upper(&result.out))));
            fields.push((String::from_str("tag"), JsonVal::Str(hex_encode_upper(&result.tag))));
        }
        proof {
            let ghost expect = seg_id + seg_iv + seg_data;
            assert(expect.len() == fields@.len());
            crate::jsonval::lemma_jv_view_entries_pointwise(fields@, expect);
            assert(ma_structured_result(
                self.tcid,
                galg,
                self.ivmode,
                self.iv@,
                result.out@,
                result.tag@,
            )->Obj_0 =~= expect);
        }
        self.res_json = Some(JsonVal::Obj(fields));
        Ok(())
    }
}

impl TestResult<bool> for MsgAuth {
    open spec fn sets_result(pre: Self, res: bool, post: Self, r: AcvpResult<()>) -> bool {
        &&& ma_fields_kept(pre, post)
        &&& r matches Ok(())
        &&& post.result_view() == Some(ma_bool_result(pre.tcid, res))
    }

    fn set_result(&mut self, result: bool) -> (r: AcvpResult<()>) {
        let res = JsonVal::Obj(
            vec![
                (String::from_str("tcId"), JsonVal::Num(self.tcid)),
                (String::from_str("testPassed"), JsonVal::Bool(result)),
            ],
        );
        proof {
            crate::jsonval::lemma_jv_view_entries(res->Obj_0@);
            assert(jv_view_entries(res->Obj_0@) =~= ma_bool_result(self.tcid, result)->Obj_0);
        }
        self.res_json = Some(res);
        Ok(())
    }
}

} // verus!
