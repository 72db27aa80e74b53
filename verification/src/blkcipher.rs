use vstd::prelude::*;

use crate::hexcodec::{hex2bin, hex_bytes, hex_encode_upper, hex_upper, valid_hex};
use crate::jsonval::{jv_view, jv_view_entries, jv_view_list, JVal, JsonVal};
use crate::parser::{TestCase, TestGroupData, TestResult};
use crate::strutil::{contains_seq, str_contains};
use crate::util::{get_acvp_str, get_acvp_u32, Direction, TestType};
use crate::{AcvpError, AcvpResult, EINVAL};

verus! {

/// A hex-string field of a test-case object: the bytes when present and
/// well-formed, `None` when absent, an error when mistyped or invalid hex.
pub open spec fn opt_hex_field(test: JVal, key: Seq<char>) -> Result<Option<Seq<u8>>, ()> {
    match test.get_key(key) {
        Some(JVal::Str(s)) => if valid_hex(s) {
            Ok(Some(hex_bytes(s)))
        } else {
            Err(())
        },
        Some(_) => Err(()),
        None => Ok(None),
    }
}

/// A required hex-string field: an error when absent as well.
pub open spec fn req_hex_field(test: JVal, key: Seq<char>) -> Result<Seq<u8>, ()> {
    match opt_hex_field(test, key) {
        Ok(Some(b)) => Ok(b),
        Ok(None) => Err(()),
        Err(()) => Err(()),
    }
}

/// One block-cipher test case: IV or tweak, key material, and the input
/// text selected by the group's direction.
#[derive(Debug)]
pub struct BlockCipher {
    pub algorithm: String,
    pub test_type: TestType,
    pub direction: Direction,
    pub tcid: u32,
    pub res_json: Option<JsonVal>,
    pub iv: Vec<u8>,
    pub input: Vec<u8>,
    pub key: Vec<u8>,
    pub key1: Vec<u8>,
    pub key2: Vec<u8>,
    pub key3: Vec<u8>,
}

/// The IV (or tweak) a block-cipher test case declares: the `iv` field
/// when present, else the `tweakValue` field, else empty.
pub open spec fn blk_iv_spec(test: JVal) -> Result<Seq<u8>, ()> {
    match opt_hex_field(test, "iv"@) {
        Ok(Some(b)) => Ok(b),
        Err(()) => Err(()),
        Ok(None) => match opt_hex_field(test, "tweakValue"@) {
            Ok(Some(b)) => Ok(b),
            Err(()) => Err(()),
            Ok(None) => Ok(Seq::empty()),
        },
    }
}

/// The key material a block-cipher test case declares, as (key, key1, key2,
/// key3): three-part keys are concatenated in order into `key` while the
/// parts stay retrievable; a single `key` field stands alone; no key at all
/// leaves everything empty.
pub open spec fn blk_keys_spec(test: JVal) -> Result<(Seq<u8>, Seq<u8>, Seq<u8>, Seq<u8>), ()> {
    if test.has_key("key1"@) && test.has_key("key2"@) && test.has_key("key3"@) {
        match (req_hex_field(test, "key1"@), req_hex_field(test, "key2"@), req_hex_field(
            test,
            "key3"@,
        )) {
            (Ok(k1), Ok(k2), Ok(k3)) => Ok((k1 + k2 + k3, k1, k2, k3)),
            _ => Err(()),
        }
    } else {
        match opt_hex_field(test, "key"@) {
            Ok(Some(k)) => Ok((k, Seq::empty(), Seq::empty(), Seq::empty())),
            Ok(None) => Ok((Seq::empty(), Seq::empty(), Seq::empty(), Seq::empty())),
            Err(()) => Err(()),
        }
    }
}

/// The input text a block-cipher test case declares: `pt` on encrypt, `ct`
/// on decrypt, an error for any other direction.
pub open spec fn blk_input_spec(test: JVal, dir: Direction) -> Result<Seq<u8>, ()> {
    match dir {
        Direction::Encrypt => req_hex_field(test, "pt"@),
        Direction::Decrypt => req_hex_field(test, "ct"@),
        _ => Err(()),
    }
}

/// The test-case document decodes into `c` under context `tg`.
pub open spec fn blk_decode_ok(test: JVal, tg: TestGroupData, c: BlockCipher) -> bool {
    &&& test.get_key("tcId"@) matches Some(JVal::Num(n)) && c.tcid == n
    &&& blk_iv_spec(test) matches Ok(iv) && c.iv@ == iv
    &&& blk_keys_spec(test) matches Ok(ks) && c.key@ == ks.0 && c.key1@ == ks.1 && c.key2@ == ks.2
        && c.key3@ == ks.3
    &&& blk_input_spec(test, tg.direction) matches Ok(inp) && c.input@ == inp
    &&& c.algorithm@ == tg.algorithm@
    &&& c.test_type == tg.test_type
    &&& c.direction == tg.direction
    &&& c.res_json is None
}

/// The test-case document cannot decode under context `tg`.
pub open spec fn blk_decode_err(test: JVal, tg: TestGroupData) -> bool {
    ||| !(test.get_key("tcId"@) matches Some(JVal::Num(_)))
    ||| blk_iv_spec(test) is Err
    ||| blk_keys_spec(test) is Err
    ||| blk_input_spec(test, tg.direction) is Err
}

impl TestCase for BlockCipher {
    open spec fn decodes(test: JVal, tgdata: TestGroupData, r: AcvpResult<Self>) -> bool {
        match r {
            Ok(c) => blk_decode_ok(test, tgdata, c),
            Err(e) => e.code == -EINVAL && blk_decode_err(test, tgdata),
        }
    }

    open spec fn result_view(&self) -> Option<JVal> {
        match self.res_json {
            Some(v) => Some(v@),
            None => None,
        }
    }

    proof fn decodes_err_code(test: JVal, tgdata: TestGroupData, e: AcvpError) {
    }

    fn new(test: &str, tgdata: &TestGroupData) -> (r: AcvpResult<Self>) {
        let doc = match crate::jsontext::parse_doc(test) {
            Some(d) => d,
            None => {
                return Err(
                    AcvpError {
                        code: -EINVAL,
                        message: String::from_str("Failed to parse testcase JSON for SKCipher"),
                    },
                );
            },
        };
        Self::decode(&doc, tgdata)
    }

    fn decode(test: &JsonVal, tgdata: &TestGroupData) -> (r: AcvpResult<Self>) {
        let tcid = match get_acvp_u32("tcId", test) {
            Ok(n) => n,
            Err(e) => {
                return Err(e);
            },
        };
        let mut iv: Vec<u8> = Vec::new();
        if test.has_key("iv") {
            let ivhex = match get_acvp_str("iv", test) {
                Ok(s) => s,
                Err(e) => {
                    return Err(e);
                },
            };
            iv = match hex2bin(ivhex.as_str()) {
                Ok(b) => b,
                Err(e) => {
                    return Err(e);
                },
            };
        } else if test.has_key("tweakValue") {
            let ivhex = match get_acvp_str("tweakValue", test) {
                Ok(s) => s,
                Err(e) => {
                    return Err(e);
                },
            };
            iv = match hex2bin(ivhex.as_str()) {
                Ok(b) => b,
                Err(e) => {
                    return Err(e);
                },
            };
        }
        let mut key: Vec<u8> = Vec::new();
        let mut key1: Vec<u8> = Vec::new();
        let mut key2: Vec<u8> = Vec::new();
        let mut key3: Vec<u8> = Vec::new();
        if test.has_key("key1") && test.has_key("key2") && test.has_key("key3") {
            let key1hex = match get_acvp_str("key1", test) {
                Ok(s) => s,
                Err(e) => {
                    return Err(e);
                },
            };
            key1 = match hex2bin(key1hex.as_str()) {
                Ok(b) => b,
                Err(e) => {
                    return Err(e);
                },
            };
            let key2hex = match get_acvp_str("key2", test) {
                Ok(s) => s,
                Err(e) => {
                    return Err(e);
                },
            };
            key2 = match hex2bin(key2hex.as_str()) {
                Ok(b) => b,
                Err(e) => {
                    return Err(e);
                },
            };
            let key3hex = match get_acvp_str("key3", test) {
                Ok(s) => s,
                Err(e) => {
                    return Err(e);
                },
            };
            key3 = match hex2bin(key3hex.as_str()) {
                Ok(b) => b,
                Err(e) => {
                    return Err(e);
                },
            };
            key.extend_from_slice(key1.as_slice());
            key.extend_from_slice(key2.as_slice());
            key.extend_from_slice(key3.as_slice());
            proof {
                assert(key@ =~= key1@ + key2@ + key3@);
            }
        } else if test.has_key("key") {
            let keyhex = match get_acvp_str("key", test) {
                Ok(s) => s,
                Err(e) => {
                    return Err(e);
                },
            };
            key = match hex2bin(keyhex.as_str()) {
                Ok(b) => b,
                Err(e) => {
                    return Err(e);
                },
            };
        }
        let inphex = match self_input_field(test, tgdata.direction) {
            Ok(s) => s,
            Err(e) => {
                return Err(e);
            },
        };
        let input = match hex2bin(inphex.as_str()) {
            Ok(b) => b,
            Err(e) => {
                return Err(e);
            },
        };
        Ok(
            BlockCipher {
                algorithm: tgdata.algorithm.clone(),
                test_type: tgdata.test_type,
                direction: tgdata.direction,
                tcid,
                res_json: None,
                iv,
                input,
                key,
                key1,
                key2,
                key3,
            },
        )
    }

    fn get_result(&self) -> (r: AcvpResult<JsonVal>) {
        match &self.res_json {
            Some(v) => Ok(v.deep_clone()),
            None => Err(crate::hash::unset_result_err()),
        }
    }

    fn dump_result(&self) -> (r: AcvpResult<String>) {
        match &self.res_json {
            Some(v) => Ok(v.dump()),
            None => Err(crate::hash::unset_result_err()),
        }
    }

    fn pretty_result(&self) -> (r: AcvpResult<String>) {
        match &self.res_json {
            Some(v) => Ok(v.pretty()),
            None => Err(crate::hash::unset_result_err()),
        }
    }
}

/// Reads the hex text of the input field selected by `dir`: `pt` on
/// encrypt, `ct` on decrypt, an error otherwise.
fn self_input_field(doc: &JsonVal, dir: Direction) -> (r: AcvpResult<String>)
    ensures
        match r {
            Ok(s) => {
                &&& (dir == Direction::Encrypt || dir == Direction::Decrypt)
                &&& doc@.get_key(if dir == Direction::Encrypt {
                    "pt"@
                } else {
                    "ct"@
                }) == Some(JVal::Str(s@))
            },
            Err(e) => {
                &&& e.code == -EINVAL
                &&& (dir == Direction::Encrypt || dir == Direction::Decrypt) ==> !(doc@.get_key(
                    if dir == Direction::Encrypt {
                        "pt"@
                    } else {
                        "ct"@
                    },
                ) matches Some(JVal::Str(_)))
            },
        },
{
    match dir {
        Direction::Encrypt => get_acvp_str("pt", doc),
        Direction::Decrypt => get_acvp_str("ct", doc),
        _ => Err(
            AcvpError {
                code: -EINVAL,
                message: String::from_str("Invalid direction for block cipher operaion"),
            },
        ),
    }
}

/// One iteration's record of a multi-iteration block-cipher run: the key
/// material used, the IV, the input and the output of that iteration.
#[derive(Debug)]
pub struct BlkCipherMCTOutput {
    pub key: Vec<u8>,
    pub key1: Vec<u8>,
    pub key2: Vec<u8>,
    pub key3: Vec<u8>,
    pub iv: Vec<u8>,
    pub inp: Vec<u8>,
    pub out: Vec<u8>,
}

impl Clone for BlkCipherMCTOutput {
    fn clone(&self) -> (r: Self)
        ensures
            r.key@ == self.key@,
            r.key1@ == self.key1@,
            r.key2@ == self.key2@,
            r.key3@ == self.key3@,
            r.iv@ == self.iv@,
            r.inp@ == self.inp@,
            r.out@ == self.out@,
    {
        BlkCipherMCTOutput {
            key: crate::strutil::clone_bytes(&self.key),
            key1: crate::strutil::clone_bytes(&self.key1),
            key2: crate::strutil::clone_bytes(&self.key2),
            key3: crate::strutil::clone_bytes(&self.key3),
            iv: crate::strutil::clone_bytes(&self.iv),
            inp: crate::strutil::clone_bytes(&self.inp),
            out: crate::strutil::clone_bytes(&self.out),
        }
    }
}

impl BlkCipherMCTOutput {
    /// An AES iteration record: one key, the three-part fields empty.
    pub fn new_aes(key: Vec<u8>, iv: Vec<u8>, inp: Vec<u8>, out: Vec<u8>) -> (r: Self)
        ensures
            r.key == key,
            r.key1@ == Seq::<u8>::empty(),
            r.key2@ == Seq::<u8>::empty(),
            r.key3@ == Seq::<u8>::empty(),
            r.iv == iv,
            r.inp == inp,
            r.out == out,
    {
        BlkCipherMCTOutput {
            key,
            key1: Vec::new(),
            key2: Vec::new(),
            key3: Vec::new(),
            iv,
            inp,
            out,
        }
    }

    /// A TDES iteration record: three key parts, the single-key field empty.
    pub fn new_tdes(
        key1: Vec<u8>,
        key2: Vec<u8>,
        key3: Vec<u8>,
        iv: Vec<u8>,
        inp: Vec<u8>,
        out: Vec<u8>,
    ) -> (r: Self)
        ensures
            r.key@ == Seq::<u8>::empty(),
            r.key1 == key1,
            r.key2 == key2,
            r.key3 == key3,
            r.iv == iv,
            r.inp == inp,
            r.out == out,
    {
        BlkCipherMCTOutput { key: Vec::new(), key1, key2, key3, iv, inp, out }
    }
}

/// The response of a single-shot block-cipher test: the test id plus the
/// uppercase-hex result under `pt` on decrypt or `ct` on encrypt; any other
/// direction yields the id alone.
pub open spec fn blk_aft_result(tcid: u32, dir: Direction, out: Seq<u8>) -> JVal {
    JVal::Obj(
        seq![("tcId"@, JVal::Num(tcid))] + (
        match dir {
            Direction::Decrypt => seq![("pt"@, JVal::Str(hex_upper(out)))],
            Direction::Encrypt => seq![("ct"@, JVal::Str(hex_upper(out)))],
            _ => Seq::empty(),
        }),
    )
}

/// One iteration's entry of a multi-iteration block-cipher response: `key`
/// only for algorithm names holding "AES"; `iv` only when non-empty;
/// `pt`/`ct` from the iteration's input and output by direction; the three
/// key parts only for names holding "TDES".
pub open spec fn blk_mct_entry(alg: Seq<char>, dir: Direction, o: BlkCipherMCTOutput) -> JVal {
    JVal::Obj(
        (if contains_seq(alg, "AES"@) {
            seq![("key"@, JVal::Str(hex_upper(o.key@)))]
        } else {
            Seq::empty()
        }) + (
        if o.iv@.len() > 0 {
            seq![("iv"@, JVal::Str(hex_upper(o.iv@)))]
        } else {
            Seq::empty()
        }) + (
        match dir {
            Direction::Decrypt => seq![
                ("pt"@, JVal::Str(hex_upper(o.out@))),
                ("ct"@, JVal::Str(hex_upper(o.inp@))),
            ],
            Direction::Encrypt => seq![
                ("pt"@, JVal::Str(hex_upper(o.inp@))),
                ("ct"@, JVal::Str(hex_upper(o.out@))),
            ],
            _ => Seq::empty(),
        }) + (
        if contains_seq(alg, "TDES"@) {
            seq![
                ("key1"@, JVal::Str(hex_upper(o.key1@))),
                ("key2"@, JVal::Str(hex_upper(o.key2@))),
                ("key3"@, JVal::Str(hex_upper(o.key3@))),
            ]
        } else {
            Seq::empty()
        }),
    )
}

/// The per-iteration entries of a multi-iteration response, input order
/// kept.
pub open spec fn blk_mct_entries(alg: Seq<char>, dir: Direction, outs: Seq<BlkCipherMCTOutput>)
    -> Seq<JVal> {
    Seq::new(outs.len(), |i: int| blk_mct_entry(alg, dir, outs[i]))
}

/// The response of a multi-iteration block-cipher test.
pub open spec fn blk_mct_result(
    tcid: u32,
    alg: Seq<char>,
    dir: Direction,
    outs: Seq<BlkCipherMCTOutput>,
) -> JVal {
    JVal::Obj(
        seq![
            ("tcId"@, JVal::Num(tcid)),
            ("resultsArray"@, JVal::Arr(blk_mct_entries(alg, dir, outs))),
        ],
    )
}

impl Clone for BlockCipher {
    fn clone(&self) -> (r: Self)
        ensures
            r.algorithm == self.algorithm,
            r.test_type == self.test_type,
            r.direction == self.direction,
            r.tcid == self.tcid,
            r.result_view() == self.result_view(),
            r.iv@ == self.iv@,
            r.input@ == self.input@,
            r.key@ == self.key@,
            r.key1@ == self.key1@,
            r.key2@ == self.key2@,
            r.key3@ == self.key3@,
    {
        BlockCipher {
            algorithm: self.algorithm.clone(),
            test_type: self.test_type,
            direction: self.direction,
            tcid: self.tcid,
            res_json: match &self.res_json {
                Some(v) => Some(v.deep_clone()),
                None => None,
            },
            iv: crate::strutil::clone_bytes(&self.iv),
            input: crate::strutil::clone_bytes(&self.input),
            key: crate::strutil::clone_bytes(&self.key),
            key1: crate::strutil::clone_bytes(&self.key1),
            key2: crate::strutil::clone_bytes(&self.key2),
            key3: crate::strutil::clone_bytes(&self.key3),
        }
    }
}

impl BlockCipher {
    /// Stores the single-shot response: `pt` on decrypt, `ct` on encrypt.
    pub fn set_aft_result(&mut self, out: Vec<u8>)
        ensures
            final(self).result_view() == Some(
                blk_aft_result(old(self).tcid, old(self).direction, out@),
            ),
            final(self).algorithm == old(self).algorithm,
            final(self).tcid == old(self).tcid,
            final(self).test_type == old(self).test_type,
            final(self).direction == old(self).direction,
            final(self).iv == old(self).iv,
            final(self).input == old(self).input,
            final(self).key == old(self).key,
            final(self).key1 == old(self).key1,
            final(self).key2 == old(self).key2,
            final(self).key3 == old(self).key3,
    {
        let ghost seg_id = seq![("tcId"@, JVal::Num(self.tcid))];
        let ghost seg_data: Seq<(Seq<char>, JVal)> = match self.direction {
            Direction::Decrypt => seq![("pt"@, JVal::Str(hex_upper(out@)))],
            Direction::Encrypt => seq![("ct"@, JVal::Str(hex_upper(out@)))],
            _ => Seq::empty(),
        };
        let mut fields: Vec<(String, JsonVal)> = Vec::new();
        fields.push((String::from_str("tcId"), JsonVal::Num(self.tcid)));
        match self.direction {
            Direction::Decrypt => {
                let outhex = hex_encode_upper(&out);
                fields.push((String::from_str("pt"), JsonVal::Str(outhex)));
            },
            Direction::Encrypt => {
                let outhex = hex_encode_upper(&out);
                fields.push((String::from_str("ct"), JsonVal::Str(outhex)));
            },
            _ => {},
        }
        proof {
            assert((seg_id + seg_data).len() == fields@.len());
            crate::jsonval::lemma_jv_view_entries_pointwise(fields@, seg_id + seg_data);
            assert(blk_aft_result(self.tcid, self.direction, out@)->Obj_0 =~= seg_id + seg_data);
        }
        let res = JsonVal::Obj(fields);
        self.res_json = Some(res);
    }

    /// Stores the multi-iteration response: the test id plus one entry per
    /// iteration record, input order kept.
    #[verifier::rlimit(60)]
    pub fn set_mct_result(&mut self, outvec: Vec<BlkCipherMCTOutput>) -> (r: AcvpResult<()>)
        ensures
            r matches Ok(()),
            final(self).result_view() == Some(
                blk_mct_result(
                    old(self).tcid,
                    old(self).algorithm@,
                    old(self).direction,
                    outvec@,
                ),
            ),
            final(self).algorithm == old(self).algorithm,
            final(self).tcid == old(self).tcid,
            final(self).test_type == old(self).test_type,
            final(self).direction == old(self).direction,
            final(self).iv == old(self).iv,
            final(self).input == old(self).input,
            final(self).key == old(self).key,
            final(self).key1 == old(self).key1,
            final(self).key2 == old(self).key2,
            final(self).key3 == old(self).key3,
    {
        let ghost galg = self.algorithm@;
        let ghost gdir = self.direction;
        let mut results: Vec<JsonVal> = Vec::new();
        let mut i: usize = 0;
        while i < outvec.len()
            invariant
                i <= outvec@.len(),
                galg == self.algorithm@,
                gdir == self.direction,
                results@.len() == i,
                forall|j: int|
                    0 <= j < i ==> (#[trigger] results@[j])@ == blk_mct_entry(
                        galg,
                        gdir,
                        outvec@[j],
                    ),
        decreases outvec@.len() - i,
        {
            let o = &outvec[i];
            let ghost go = outvec@[i as int];
            let ghost seg_key: Seq<(Seq<char>, JVal)> = if contains_seq(galg, "AES"@) {
                seq![("key"@, JVal::Str(hex_upper(go.key@)))]
            } else {
                Seq::empty()
            };
            let ghost seg_iv: Seq<(Seq<char>, JVal)> = if go.iv@.len() > 0 {
                seq![("iv"@, JVal::Str(hex_upper(go.iv@)))]
            } else {
                Seq::empty()
            };
            let ghost seg_data: Seq<(Seq<char>, JVal)> = match gdir {
                Direction::Decrypt => seq![
                    ("pt"@, JVal::Str(hex_upper(go.out@))),
                    ("ct"@, JVal::Str(hex_upper(go.inp@))),
                ],
                Direction::Encrypt => seq![
                    ("pt"@, JVal::Str(hex_upper(go.inp@))),
                    ("ct"@, JVal::Str(hex_upper(go.out@))),
                ],
                _ => Seq::empty(),
            };
            let ghost seg_tdes: Seq<(Seq<char>, JVal)> = if contains_seq(galg, "TDES"@) {
                seq![
                    ("key1"@, JVal::Str(hex_upper(go.key1@))),
                    ("key2"@, JVal::Str(hex_upper(go.key2@))),
                    ("key3"@, JVal::Str(hex_upper(go.key3@))),
                ]
            } else {
                Seq::empty()
            };
            let mut fields: Vec<(String, JsonVal)> = Vec::new();
            if str_contains(self.algorithm.as_str(), "AES") {
                fields.push((String::from_str("key"), JsonVal::Str(hex_encode_upper(&o.key))));
            }
            if o.iv.len() > 0 {
                fields.push((String::from_str("iv"), JsonVal::Str(hex_encode_upper(&o.iv))));
            }
            match self.direction {
                Direction::Decrypt => {
                    fields.push((String::from_str("pt"), JsonVal::Str(hex_encode_upper(&o.out))));
                    fields.push((String::from_str("ct"), JsonVal::Str(hex_encode_upper(&o.inp))));
                },
                Direction::Encrypt => {
                    fields.push((String::from_str("pt"), JsonVal::Str(hex_encode_upper(&o.inp))));
                    fields.push((String::from_str("ct"), JsonVal::Str(hex_encode_upper(&o.out))));
                },
                _ => {},
            }
            if str_contains(self.algorithm.as_str(), "TDES") {
                fields.push((String::from_str("key1"), JsonVal::Str(hex_encode_upper(&o.key1))));
                fields.push((String::from_str("key2"), JsonVal::Str(hex_encode_upper(&o.key2))));
                fields.push((String::from_str("key3"), JsonVal::Str(hex_encode_upper(&o.key3))));
            }
            proof {
                let ghost expect = seg_key + seg_iv + seg_data + seg_tdes;
                assert(expect.len() == fields@.len());
                crate::jsonval::lemma_jv_view_entries_pointwise(fields@, expect);
                assert(blk_mct_entry(galg, gdir, go)->Obj_0 =~= expect);
            }
            let entry = JsonVal::Obj(fields);
            results.push(entry);
            i = i + 1;
        }
        proof {
            crate::jsonval::lemma_jv_view_list(results@);
            assert forall|j: int| 0 <= j < results@.len() implies jv_view_list(results@)[j]
                == blk_mct_entries(galg, gdir, outvec@)[j] by {
                assert(jv_view_list(results@)[j] == jv_view(results@[j]));
                assert(results@[j]@ == blk_mct_entry(galg, gdir, outvec@[j]));
            }
            assert(jv_view_list(results@) =~= blk_mct_entries(galg, gdir, outvec@));
        }
        let res = JsonVal::Obj(
            vec![
                (String::from_str("tcId"), JsonVal::Num(self.tcid)),
                (String::from_str("resultsArray"), JsonVal::Arr(results)),
            ],
        );
        proof {
            crate::jsonval::lemma_jv_view_entries(res->Obj_0@);
            assert(jv_view_entries(res->Obj_0@) =~= blk_mct_result(
                self.tcid,
                galg,
                gdir,
                outvec@,
            )->Obj_0);
        }
        self.res_json = Some(res);
        Ok(())
    }
}

/// The keys one multi-iteration entry carries, tied to the algorithm name.
#[verifier::rlimit(100)]
proof fn lemma_mct_entry_keys(alg: Seq<char>, dir: Direction, o: BlkCipherMCTOutput)
    ensures
        blk_mct_entry(alg, dir, o).has_key("key"@) <==> contains_seq(alg, "AES"@),
        (blk_mct_entry(alg, dir, o).has_key("key1"@) && blk_mct_entry(alg, dir, o).has_key("key2"@)
            && blk_mct_entry(alg, dir, o).has_key("key3"@)) <==> contains_seq(alg, "TDES"@),
{
    reveal_strlit("key");
    reveal_strlit("iv");
    reveal_strlit("pt");
    reveal_strlit("ct");
    reveal_strlit("key1");
    reveal_strlit("key2");
    reveal_strlit("key3");
    assert("key"@.len() == 3);
    assert("iv"@.len() == 2);
    assert("pt"@.len() == 2);
    assert("ct"@.len() == 2);
    assert("key1"@.len() == 4);
    assert("key2"@.len() == 4);
    assert("key3"@.len() == 4);
    assert("key1"@[3] == '1');
    assert("key2"@[3] == '2');
    assert("key3"@[3] == '3');
    assert("pt"@[0] == 'p');
    assert("ct"@[0] == 'c');
    assert("iv"@[0] == 'i');
    let entries = blk_mct_entry(alg, dir, o)->Obj_0;
    crate::jsonval::lemma_jv_lookup_exists(entries, "key"@);
    crate::jsonval::lemma_jv_lookup_exists(entries, "key1"@);
    crate::jsonval::lemma_jv_lookup_exists(entries, "key2"@);
    crate::jsonval::lemma_jv_lookup_exists(entries, "key3"@);
    if contains_seq(alg, "AES"@) {
        assert(entries[0].0 == "key"@);
    }
    if contains_seq(alg, "TDES"@) {
        let n = entries.len();
        assert(entries[n - 3].0 == "key1"@);
        assert(entries[n - 2].0 == "key2"@);
        assert(entries[n - 1].0 == "key3"@);
    } else {
        let segk: Seq<(Seq<char>, JVal)> = if contains_seq(alg, "AES"@) {
            seq![("key"@, JVal::Str(hex_upper(o.key@)))]
        } else {
            Seq::empty()
        };
        let segi: Seq<(Seq<char>, JVal)> = if o.iv@.len() > 0 {
            seq![("iv"@, JVal::Str(hex_upper(o.iv@)))]
        } else {
            Seq::empty()
        };
        let segd: Seq<(Seq<char>, JVal)> = match dir {
            Direction::Decrypt => seq![
                ("pt"@, JVal::Str(hex_upper(o.out@))),
                ("ct"@, JVal::Str(hex_upper(o.inp@))),
            ],
            Direction::Encrypt => seq![
                ("pt"@, JVal::Str(hex_upper(o.inp@))),
                ("ct"@, JVal::Str(hex_upper(o.out@))),
            ],
            _ => Seq::empty(),
        };
        assert(entries =~= segk + segi + segd);
        assert forall|i: int| 0 <= i < entries.len() implies (#[trigger] entries[i]).0 != "key1"@
            && entries[i].0 != "key2"@ && entries[i].0 != "key3"@ by {
            assert(entries[i] == (segk + segi + segd)[i]);
            if i < segk.len() {
                assert((segk + segi + segd)[i] == segk[i]);
            } else if i < segk.len() + segi.len() {
                assert((segk + segi + segd)[i] == segi[i - segk.len()]);
            } else {
                assert((segk + segi + segd)[i] == segd[i - segk.len() - segi.len()]);
            }
        }
    }
}

/// Law: a multi-iteration block-cipher response holds exactly one entry per
/// iteration record, in input order; an entry carries `key` exactly for
/// algorithm names holding "AES", and carries `key1`, `key2`, `key3`
/// exactly for names holding "TDES".
pub proof fn lemma_mct_result_shape(
    tcid: u32,
    alg: Seq<char>,
    dir: Direction,
    outs: Seq<BlkCipherMCTOutput>,
)
    ensures
        blk_mct_result(tcid, alg, dir, outs)->Obj_0[1].1->Arr_0.len() == outs.len(),
        forall|i: int|
            0 <= i < outs.len() ==> blk_mct_result(tcid, alg, dir, outs)->Obj_0[1].1->Arr_0[i]
                == blk_mct_entry(alg, dir, outs[i]),
        forall|i: int|
            0 <= i < outs.len() ==> ((#[trigger] blk_mct_entry(alg, dir, outs[i])).has_key("key"@)
                <==> contains_seq(alg, "AES"@)),
        forall|i: int|
            0 <= i < outs.len() ==> ((blk_mct_entry(alg, dir, outs[i]).has_key("key1"@)
                && blk_mct_entry(alg, dir, outs[i]).has_key("key2"@) && (#[trigger] blk_mct_entry(
                alg,
                dir,
                outs[i],
            )).has_key("key3"@)) <==> contains_seq(alg, "TDES"@)),
{
    assert forall|i: int| 0 <= i < outs.len() implies ((#[trigger] blk_mct_entry(
        alg,
        dir,
        outs[i],
    )).has_key("key"@) <==> contains_seq(alg, "AES"@)) && ((blk_mct_entry(alg, dir, outs[i]).has_key(
        "key1"@,
    ) && blk_mct_entry(alg, dir, outs[i]).has_key("key2"@) && blk_mct_entry(
        alg,
        dir,
        outs[i],
    ).has_key("key3"@)) <==> contains_seq(alg, "TDES"@)) by {
        lemma_mct_entry_keys(alg, dir, outs[i]);
    }
}

impl TestResult<Vec<u8>> for BlockCipher {
    open spec fn sets_result(pre: Self, res: Vec<u8>, post: Self, r: AcvpResult<()>) -> bool {
        &&& r matches Ok(())
        &&& post.result_view() == Some(blk_aft_result(pre.tcid, pre.direction, res@))
        &&& post.algorithm == pre.algorithm
        &&& post.tcid == pre.tcid
        &&& post.test_type == pre.test_type
        &&& post.direction == pre.direction
        &&& post.iv == pre.iv
        &&& post.input == pre.input
        &&& post.key == pre.key
        &&& post.key1 == pre.key1
        &&& post.key2 == pre.key2
        &&& post.key3 == pre.key3
    }

    fn set_result(&mut self, res: Vec<u8>) -> (r: AcvpResult<()>) {
        self.set_aft_result(res);
        Ok(())
    }
}

impl TestResult<Vec<BlkCipherMCTOutput>> for BlockCipher {
    open spec fn sets_result(
        pre: Self,
        res: Vec<BlkCipherMCTOutput>,
        post: Self,
        r: AcvpResult<()>,
    ) -> bool {
        &&& r matches Ok(())
        &&& post.result_view() == Some(blk_mct_result(pre.tcid, pre.algorithm@, pre.direction, res@))
        &&& post.algorithm == pre.algorithm
        &&& post.tcid == pre.tcid
        &&& post.test_type == pre.test_type
        &&& post.direction == pre.direction
        &&& post.iv == pre.iv
        &&& post.input == pre.input
        &&& post.key == pre.key
        &&& post.key1 == pre.key1
        &&& post.key2 == pre.key2
        &&& post.key3 == pre.key3
    }

    fn set_result(&mut self, res: Vec<BlkCipherMCTOutput>) -> (r: AcvpResult<()>) {
        self.set_mct_result(res)
    }
}

} // verus!
