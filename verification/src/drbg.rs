use vstd::prelude::*;

use crate::blkcipher::req_hex_field;
use crate::hexcodec::hex_upper;
use crate::jsonval::{jv_view, jv_view_entries, jv_view_list, JVal, JsonVal};
use crate::parser::{TestCase, TestGroupData, TestResult};
use crate::strutil::str_eq;
use crate::util::{get_acvp_str, get_acvp_u32, TestType};
use crate::{AcvpError, AcvpResult, EINVAL};

verus! {

/// The mode of a deterministic random-bit generator under test.
#[derive(Debug, Clone, Copy, PartialEq, Eq, Structural)]
pub enum DrbgMode {
    SHA1,
    SHA256,
    SHA384,
    SHA512,
    AES128,
    AES192,
    AES256,
    Nil,
}

/// The DRBG mode a `mode` field denotes, if any.
pub open spec fn drbg_mode_of(s: Seq<char>) -> Option<DrbgMode> {
    if s == "SHA-1"@ {
        Some(DrbgMode::SHA1)
    } else if s == "SHA2-256"@ {
        Some(DrbgMode::SHA256)
    } else if s == "SHA2-384"@ {
        Some(DrbgMode::SHA384)
    } else if s == "SHA2-512"@ {
        Some(DrbgMode::SHA512)
    } else if s == "AES-128"@ {
        Some(DrbgMode::AES128)
    } else if s == "AES-192"@ {
        Some(DrbgMode::AES192)
    } else if s == "AES-256"@ {
        Some(DrbgMode::AES256)
    } else {
        None
    }
}

impl DrbgMode {
    /// Maps a `mode` literal to the enum; anything else is an error.
    pub fn from_str(s: &str) -> (r: AcvpResult<Self>)
        ensures
            match drbg_mode_of(s@) {
                Some(m) => r matches Ok(got) && got == m,
                None => r matches Err(e) && e.code == -EINVAL,
            },
    {
        if str_eq(s, "SHA-1") {
            Ok(Self::SHA1)
        } else if str_eq(s, "SHA2-256") {
            Ok(Self::SHA256)
        } else if str_eq(s, "SHA2-384") {
            Ok(Self::SHA384)
        } else if str_eq(s, "SHA2-512") {
            Ok(Self::SHA512)
        } else if str_eq(s, "AES-128") {
            Ok(Self::AES128)
        } else if str_eq(s, "AES-192") {
            Ok(Self::AES192)
        } else if str_eq(s, "AES-256") {
            Ok(Self::AES256)
        } else {
            let mut m = String::from_str("Mode '");
            m.append(s);
            m.append("' is not valid");
            Err(AcvpError { code: -EINVAL, message: m })
        }
    }
}

/// One record of a DRBG test's ordered `otherInput` sequence.
#[derive(Debug, PartialEq, Eq)]
pub struct DrbgOtherInput {
    pub iuse: String,
    pub addtl_input: Vec<u8>,
    pub entropy_input: Vec<u8>,
}

/// The other-input object decodes into `o`.
pub open spec fn oi_matches(m: JVal, o: DrbgOtherInput) -> bool {
    &&& m.get_key("intendedUse"@) matches Some(JVal::Str(s)) && o.iuse@ == s
    &&& req_hex_field(m, "additionalInput"@) matches Ok(b) && o.addtl_input@ == b
    &&& req_hex_field(m, "entropyInput"@) matches Ok(b) && o.entropy_input@ == b
}

/// The other-input object cannot decode.
pub open spec fn oi_err(m: JVal) -> bool {
    ||| !(m.get_key("intendedUse"@) matches Some(JVal::Str(_)))
    ||| req_hex_field(m, "additionalInput"@) is Err
    ||| req_hex_field(m, "entropyInput"@) is Err
}

impl DrbgOtherInput {
    /// Decodes one member of the `otherInput` array: its intended-use tag,
    /// additional input, and entropy input.
    pub fn new(testjson: &JsonVal) -> (r: AcvpResult<Self>)
        ensures
            match r {
                Ok(o) => oi_matches(testjson@, o),
                Err(e) => e.code == -EINVAL && oi_err(testjson@),
            },
    {
        let iuse = match get_acvp_str("intendedUse", testjson) {
            Ok(s) => s,
            Err(e) => {
                return Err(e);
            },
        };
        let addtlhex = match get_acvp_str("additionalInput", testjson) {
            Ok(s) => s,
            Err(e) => {
                return Err(e);
            },
        };
        let addtl_input = match crate::hexcodec::hex2bin(addtlhex.as_str()) {
            Ok(b) => b,
            Err(e) => {
                return Err(e);
            },
        };
        let eihex = match get_acvp_str("entropyInput", testjson) {
            Ok(s) => s,
            Err(e) => {
                return Err(e);
            },
        };
        let entropy_input = match crate::hexcodec::hex2bin(eihex.as_str()) {
            Ok(b) => b,
            Err(e) => {
                return Err(e);
            },
        };
        Ok(DrbgOtherInput { iuse, addtl_input, entropy_input })
    }
}

impl Clone for DrbgOtherInput {
    fn clone(&self) -> (r: Self)
        ensures
            r.iuse@ == self.iuse@,
            r.addtl_input@ == self.addtl_input@,
            r.entropy_input@ == self.entropy_input@,
    {
        DrbgOtherInput {
            iuse: self.iuse.clone(),
            addtl_input: crate::strutil::clone_bytes(&self.addtl_input),
            entropy_input: crate::strutil::clone_bytes(&self.entropy_input),
        }
    }
}

/// The other-input records `a` and `b` carry the same data.
pub open spec fn oi_same(a: DrbgOtherInput, b: DrbgOtherInput) -> bool {
    a.iuse@ == b.iuse@ && a.addtl_input@ == b.addtl_input@ && a.entropy_input@ == b.entropy_input@
}

/// One DRBG test case: entropy input, nonce, personalization string, and
/// the ordered other-input records.
#[derive(Debug)]
pub struct Drbg {
    pub algorithm: String,
    pub tcid: u32,
    pub test_type: TestType,
    pub res_json: Option<JsonVal>,
    pub entropy_input: Vec<u8>,
    pub nonce: Vec<u8>,
    pub perso_string: Vec<u8>,
    pub other_input: Vec<DrbgOtherInput>,
}

/// The test-case document decodes into `c` under context `tg`.
pub open spec fn drbg_decode_ok(test: JVal, tg: TestGroupData, c: Drbg) -> bool {
    &&& test.get_key("tcId"@) matches Some(JVal::Num(n)) && c.tcid == n
    &&& req_hex_field(test, "entropyInput"@) matches Ok(b) && c.entropy_input@ == b
    &&& req_hex_field(test, "nonce"@) matches Ok(b) && c.nonce@ == b
    &&& req_hex_field(test, "persoString"@) matches Ok(b) && c.perso_string@ == b
    &&& test.get_key("otherInput"@) matches Some(JVal::Arr(ms)) && {
        &&& c.other_input@.len() == ms.len()
        &&& forall|i: int| 0 <= i < ms.len() ==> oi_matches(ms[i], #[trigger] c.other_input@[i])
    }
    &&& c.algorithm@ == tg.algorithm@
    &&& c.test_type == tg.test_type
    &&& c.res_json is None
}

/// The test-case document cannot decode: a scalar field is missing or
/// invalid, the other-input is no array, or one of its members is bad.
pub open spec fn drbg_decode_err(test: JVal) -> bool {
    ||| !(test.get_key("tcId"@) matches Some(JVal::Num(_)))
    ||| req_hex_field(test, "entropyInput"@) is Err
    ||| req_hex_field(test, "nonce"@) is Err
    ||| req_hex_field(test, "persoString"@) is Err
    ||| !(test.get_key("otherInput"@) matches Some(JVal::Arr(_)))
    ||| (test.get_key("otherInput"@) matches Some(JVal::Arr(ms)) && exists|i: int|
        0 <= i < ms.len() && oi_err(#[trigger] ms[i]))
}

/// The response of a DRBG test: the test id plus `returnedBits`.
pub open spec fn drbg_result(tcid: u32, bits: Seq<u8>) -> JVal {
    JVal::Obj(seq![("tcId"@, JVal::Num(tcid)), ("returnedBits"@, JVal::Str(hex_upper(bits)))])
}

impl TestCase for Drbg {
    open spec fn decodes(test: JVal, tgdata: TestGroupData, r: AcvpResult<Self>) -> bool {
        match r {
            Ok(c) => drbg_decode_ok(test, tgdata, c),
            Err(e) => e.code == -EINVAL && drbg_decode_err(test),
        }
    }

    open spec fn result_view(&self) -> Option<JVal> {
        match self.res_json {
            Some(v) => Some(v@),
            None => None,
        }
    }

    proof fn decodes_err_code(test: JVal, tgdata: TestGroupData, e: AcvpError) {
    }

    fn new(test: &str, tgdata: &TestGroupData) -> (r: AcvpResult<Self>) {
        let doc = match crate::jsontext::parse_doc(test) {
            Some(d) => d,
            None => {
                return Err(
                    AcvpError {
                        code: -EINVAL,
                        message: String::from_str("Failed to parse JSON data for DRBG"),
                    },
                );
            },
        };
        Self::decode(&doc, tgdata)
    }

    fn decode(test: &JsonVal, tgdata: &TestGroupData) -> (r: AcvpResult<Self>) {
        let tcid = match get_acvp_u32("tcId", test) {
            Ok(n) => n,
            Err(e) => {
                return Err(e);
            },
        };
        let entropy_input = match read_req_hex_field(test, "entropyInput") {
            Ok(b) => b,
            Err(e) => {
                return Err(e);
            },
        };
        let nonce = match read_req_hex_field(test, "nonce") {
            Ok(b) => b,
            Err(e) => {
                return Err(e);
            },
        };
        let perso_string = match read_req_hex_field(test, "persoString") {
            Ok(b) => b,
            Err(e) => {
                return Err(e);
            },
        };
        let oi = match test.obj_get("otherInput") {
            Some(v) => v,
            None => {
                return Err(not_an_array_err());
            },
        };
        match oi {
            JsonVal::Arr(members) => {
                let ghost gms = jv_view_list(members@);
                proof {
                    crate::jsonval::lemma_jv_view_list(members@);
                    assert(test@.get_key("otherInput"@) == Some(JVal::Arr(gms)));
                }
                let mut other_input: Vec<DrbgOtherInput> = Vec::new();
                let mut i: usize = 0;
                while i < members.len()
                    invariant
                        i <= members@.len(),
                        gms == jv_view_list(members@),
                        gms.len() == members@.len(),
                        test@.get_key("otherInput"@) == Some(JVal::Arr(gms)),
                        forall|j: int|
                            0 <= j < members@.len() ==> gms[j] == jv_view(#[trigger] members@[j]),
                        other_input@.len() == i,
                        forall|j: int|
                            0 <= j < i ==> oi_matches(gms[j], #[trigger] other_input@[j]),
                    decreases members@.len() - i,
                {
                    let rec = match DrbgOtherInput::new(&members[i]) {
                        Ok(o) => o,
                        Err(e) => {
                            proof {
                                assert(oi_err(gms[i as int]));
                                assert(test@.get_key("otherInput"@)->Some_0->Arr_0 == gms);
                                assert(test@.get_key("otherInput"@) matches Some(JVal::Arr(ms))
                                    && exists|k: int| 0 <= k < ms.len() && oi_err(
                                    #[trigger] ms[k],
                                ));
                            }
                            return Err(e);
                        },
                    };
                    other_input.push(rec);
                    i = i + 1;
                }
                Ok(
                    Drbg {
                        algorithm: tgdata.algorithm.clone(),
                        tcid,
                        test_type: tgdata.test_type,
                        res_json: None,
                        entropy_input,
                        nonce,
                        perso_string,
                        other_input,
                    },
                )
            },
            _ => Err(not_an_array_err()),
        }
    }

    fn get_result(&self) -> (r: AcvpResult<JsonVal>) {
        match &self.res_json {
            Some(v) => Ok(v.deep_clone()),
            None => Err(crate::hash::unset_result_err()),
        }
    }

    fn dump_result(&self) -> (r: AcvpResult<String>) {
        match &self.res_json {
            Some(v) => Ok(v.dump()),
            None => Err(crate::hash::unset_result_err()),
        }
    }

    fn pretty_result(&self) -> (r: AcvpResult<String>) {
        match &self.res_json {
            Some(v) => Ok(v.pretty()),
            None => Err(crate::hash::unset_result_err()),
        }
    }
}

/// The error for an `otherInput` that is not an array.
fn not_an_array_err() -> (r: AcvpError)
    ensures
        r.code == -EINVAL,
{
    AcvpError {
        code: -EINVAL,
        message: String::from_str("other input for DRBG vector is not an array"),
    }
}

/// Reads the required hex field `key`.
fn read_req_hex_field(doc: &JsonVal, key: &str) -> (r: AcvpResult<Vec<u8>>)
    ensures
        match r {
            Ok(b) => req_hex_field(doc@, key@) == Ok::<Seq<u8>, ()>(b@),
            Err(e) => e.code == -EINVAL && req_hex_field(doc@, key@) is Err,
        },
{
    let hex = match get_acvp_str(key, doc) {
        Ok(s) => s,
        Err(e) => {
            return Err(e);
        },
    };
    match crate::hexcodec::hex2bin(hex.as_str()) {
        Ok(b) => Ok(b),
        Err(e) => Err(e),
    }
}

impl Clone for Drbg {
    fn clone(&self) -> (r: Self)
        ensures
            r.algorithm == self.algorithm,
            r.tcid == self.tcid,
            r.test_type == self.test_type,
            r.result_view() == self.result_view(),
            r.entropy_input@ == self.entropy_input@,
            r.nonce@ == self.nonce@,
            r.perso_string@ == self.perso_string@,
            r.other_input@.len() == self.other_input@.len(),
            forall|i: int|
                0 <= i < self.other_input@.len() ==> oi_same(
                    #[trigger] r.other_input@[i],
                    self.other_input@[i],
                ),
    {
        let mut oi: Vec<DrbgOtherInput> = Vec::new();
        let mut i: usize = 0;
        while i < self.other_input.len()
            invariant
                i <= self.other_input@.len(),
                oi@.len() == i,
                forall|j: int|
                    0 <= j < i ==> oi_same(#[trigger] oi@[j], self.other_input@[j]),
            decreases self.other_input@.len() - i,
        {
            oi.push(self.other_input[i].clone());
            i = i + 1;
        }
        Drbg {
            algorithm: self.algorithm.clone(),
            tcid: self.tcid,
            test_type: self.test_type,
            res_json: match &self.res_json {
                Some(v) => Some(v.deep_clone()),
                None => None,
            },
            entropy_input: crate::strutil::clone_bytes(&self.entropy_input),
            nonce: crate::strutil::clone_bytes(&self.nonce),
            perso_string: crate::strutil::clone_bytes(&self.perso_string),
            other_input: oi,
        }
    }
}

impl TestResult<Vec<u8>> for Drbg {
    open spec fn sets_result(pre: Self, res: Vec<u8>, post: Self, r: AcvpResult<()>) -> bool {
        &&& r matches Ok(())
        &&& post.result_view() == Some(drbg_result(pre.tcid, res@))
        &&& post.algorithm == pre.algorithm
        &&& post.tcid == pre.tcid
        &&& post.test_type == pre.test_type
        &&& post.entropy_input == pre.entropy_input
        &&& post.nonce == pre.nonce
        &&& post.perso_string == pre.perso_string
        &&& post.other_input == pre.other_input
    }

    fn set_result(&mut self, res: Vec<u8>) -> (r: AcvpResult<()>) {
        let rethex = crate::hexcodec::hex_encode_upper(&res);
        let obj = JsonVal::Obj(
            vec![
                (String::from_str("tcId"), JsonVal::Num(self.tcid)),
                (String::from_str("returnedBits"), JsonVal::Str(rethex)),
            ],
        );
        proof {
            crate::jsonval::lemma_jv_view_entries(obj->Obj_0@);
            assert(jv_view_entries(obj->Obj_0@) =~= drbg_result(self.tcid, res@)->Obj_0);
        }
        self.res_json = Some(obj);
        Ok(())
    }
}

} // verus!
