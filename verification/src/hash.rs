use vstd::prelude::*;

use crate::hexcodec::{hex2bin, hex_bytes, hex_encode_upper, hex_upper, valid_hex};
use crate::jsonval::{jv_view, jv_view_entries, jv_view_list, JVal, JsonVal};
use crate::parser::{TestCase, TestGroupData, TestResult};
use crate::util::{get_acvp_str, get_acvp_u32, TestType};
use crate::{AcvpError, AcvpResult, EINVAL};

verus! {

/// One secure-hash test case: the message to digest, plus its identifiers
/// and the result slot.
#[derive(Debug)]
pub struct SecureHash {
    pub algorithm: String,
    pub tcid: u32,
    pub test_type: TestType,
    pub res_json: Option<JsonVal>,
    pub msg: Vec<u8>,
}

/// The test-case document decodes into `c` under context `tg`.
pub open spec fn hash_decode_ok(test: JVal, tg: TestGroupData, c: SecureHash) -> bool {
    &&& test.get_key("tcId"@) matches Some(JVal::Num(n)) && c.tcid == n
    &&& test.get_key("msg"@) matches Some(JVal::Str(s)) && valid_hex(s) && c.msg@ == hex_bytes(s)
    &&& c.algorithm@ == tg.algorithm@
    &&& c.test_type == tg.test_type
    &&& c.res_json is None
}

/// The test-case document cannot decode: a required field is missing,
/// mistyped, or holds invalid hex.
pub open spec fn hash_decode_err(test: JVal) -> bool {
    ||| !(test.get_key("tcId"@) matches Some(JVal::Num(_)))
    ||| !(test.get_key("msg"@) matches Some(JVal::Str(s)) && valid_hex(s))
}

/// The response of a single-shot hash test: test id plus uppercase digest.
pub open spec fn hash_aft_result(tcid: u32, md: Seq<u8>) -> JVal {
    JVal::Obj(seq![("tcId"@, JVal::Num(tcid)), ("md"@, JVal::Str(hex_upper(md)))])
}

/// The per-iteration entries of a multi-iteration hash response.
pub open spec fn hash_mct_entries(mds: Seq<Seq<u8>>) -> Seq<JVal> {
    Seq::new(mds.len(), |i: int| JVal::Obj(seq![("md"@, JVal::Str(hex_upper(mds[i])))]))
}

/// The response of a multi-iteration hash test: test id plus one entry per
/// iteration, input order kept.
pub open spec fn hash_mct_result(tcid: u32, mds: Seq<Seq<u8>>) -> JVal {
    JVal::Obj(seq![("tcId"@, JVal::Num(tcid)), ("resultsArray"@, JVal::Arr(hash_mct_entries(mds)))])
}

/// The unset-result error.
pub(crate) fn unset_result_err() -> (r: AcvpError)
    ensures
        r.code == -EINVAL,
{
    AcvpError {
        code: -EINVAL,
        message: String::from_str("The result is not yet set, call set_*_result APIs"),
    }
}

impl TestCase for SecureHash {
    open spec fn decodes(test: JVal, tgdata: TestGroupData, r: AcvpResult<Self>) -> bool {
        match r {
            Ok(c) => hash_decode_ok(test, tgdata, c),
            Err(e) => e.code == -EINVAL && hash_decode_err(test),
        }
    }

    open spec fn result_view(&self) -> Option<JVal> {
        match self.res_json {
            Some(v) => Some(v@),
            None => None,
        }
    }

    proof fn decodes_err_code(test: JVal, tgdata: TestGroupData, e: AcvpError) {
    }

    fn new(test: &str, tgdata: &TestGroupData) -> (r: AcvpResult<Self>) {
        let doc = match crate::jsontext::parse_doc(test) {
            Some(d) => d,
            None => {
                return Err(
                    AcvpError {
                        code: -EINVAL,
                        message: String::from_str("Failed to parse testcase JSON for SHash"),
                    },
                );
            },
        };
        Self::decode(&doc, tgdata)
    }

    fn decode(test: &JsonVal, tgdata: &TestGroupData) -> (r: AcvpResult<Self>) {
        let tcid = match get_acvp_u32("tcId", test) {
            Ok(n) => n,
            Err(e) => {
                return Err(e);
            },
        };
        let msghex = match get_acvp_str("msg", test) {
            Ok(s) => s,
            Err(e) => {
                return Err(e);
            },
        };
        let msg = match hex2bin(msghex.as_str()) {
            Ok(b) => b,
            Err(e) => {
                return Err(e);
            },
        };
        Ok(
            SecureHash {
                algorithm: tgdata.algorithm.clone(),
                tcid,
                test_type: tgdata.test_type,
                res_json: None,
                msg,
            },
        )
    }

    fn get_result(&self) -> (r: AcvpResult<JsonVal>) {
        match &self.res_json {
            Some(v) => Ok(v.deep_clone()),
            None => Err(unset_result_err()),
        }
    }

    fn dump_result(&self) -> (r: AcvpResult<String>) {
        match &self.res_json {
            Some(v) => Ok(v.dump()),
            None => Err(unset_result_err()),
        }
    }

    fn pretty_result(&self) -> (r: AcvpResult<String>) {
        match &self.res_json {
            Some(v) => Ok(v.pretty()),
            None => Err(unset_result_err()),
        }
    }
}

impl Clone for SecureHash {
    fn clone(&self) -> (r: Self)
        ensures
            r.algorithm == self.algorithm,
            r.tcid == self.tcid,
            r.test_type == self.test_type,
            r.result_view() == self.result_view(),
            r.msg@ == self.msg@,
    {
        SecureHash {
            algorithm: self.algorithm.clone(),
            tcid: self.tcid,
            test_type: self.test_type,
            res_json: match &self.res_json {
                Some(v) => Some(v.deep_clone()),
                None => None,
            },
            msg: crate::strutil::clone_bytes(&self.msg),
        }
    }
}

impl SecureHash {
    /// Stores the single-shot response: test id plus `md`, the digest in
    /// uppercase hex.
    pub fn set_aft_result(&mut self, md: Vec<u8>)
        ensures
            final(self).result_view() == Some(hash_aft_result(old(self).tcid, md@)),
            final(self).algorithm == old(self).algorithm,
            final(self).tcid == old(self).tcid,
            final(self).test_type == old(self).test_type,
            final(self).msg == old(self).msg,
    {
        let mdhex = hex_encode_upper(&md);
        let res = JsonVal::Obj(
            vec![
                (String::from_str("tcId"), JsonVal::Num(self.tcid)),
                (String::from_str("md"), JsonVal::Str(mdhex)),
            ],
        );
        proof {
            crate::jsonval::lemma_jv_view_entries(res->Obj_0@);
            assert(jv_view_entries(res->Obj_0@) =~= hash_aft_result(self.tcid, md@)->Obj_0);
        }
        self.res_json = Some(res);
    }

    /// Stores the multi-iteration response: test id plus `resultsArray`,
    /// one `md` entry per iteration, in input order.
    pub fn set_mct_result(&mut self, mdvec: Vec<Vec<u8>>) -> (r: AcvpResult<()>)
        ensures
            r matches Ok(()),
            final(self).result_view() == Some(
                hash_mct_result(old(self).tcid, mdvec.deep_view()),
            ),
            final(self).algorithm == old(self).algorithm,
            final(self).tcid == old(self).tcid,
            final(self).test_type == old(self).test_type,
            final(self).msg == old(self).msg,
    {
        let ghost gmds = mdvec.deep_view();
        let mut results: Vec<JsonVal> = Vec::new();
        let mut i: usize = 0;
        while i < mdvec.len()
            invariant
                i <= mdvec@.len(),
                gmds == mdvec.deep_view(),
                gmds.len() == mdvec@.len(),
                forall|j: int| 0 <= j < mdvec@.len() ==> gmds[j] == (#[trigger] mdvec@[j])@,
                results@.len() == i,
                forall|j: int|
                    0 <= j < i ==> (#[trigger] results@[j])@ == hash_mct_entries(gmds)[j],
            decreases mdvec@.len() - i,
        {
            let mdhex = hex_encode_upper(&mdvec[i]);
            let entry = JsonVal::Obj(vec![(String::from_str("md"), JsonVal::Str(mdhex))]);
            proof {
                crate::jsonval::lemma_jv_view_entries(entry->Obj_0@);
                assert(jv_view_entries(entry->Obj_0@) =~= seq![
                    ("md"@, JVal::Str(hex_upper(gmds[i as int]))),
                ]);
            }
            results.push(entry);
            i = i + 1;
        }
        proof {
            crate::jsonval::lemma_jv_view_list(results@);
            assert forall|j: int| 0 <= j < results@.len() implies jv_view_list(results@)[j]
                == hash_mct_entries(gmds)[j] by {
                assert(jv_view_list(results@)[j] == jv_view(results@[j]));
                assert(results@[j]@ == hash_mct_entries(gmds)[j]);
            }
            assert(jv_view_list(results@) =~= hash_mct_entries(gmds));
        }
        let res = JsonVal::Obj(
            vec![
                (String::from_str("tcId"), JsonVal::Num(self.tcid)),
                (
                    String::from_str("resultsArray"),
                    JsonVal::Arr(results),
                ),
            ],
        );
        proof {
            crate::jsonval::lemma_jv_view_entries(res->Obj_0@);
            assert(jv_view_entries(res->Obj_0@) =~= hash_mct_result(self.tcid, gmds)->Obj_0);
        }
        self.res_json = Some(res);
        Ok(())
    }
}

impl TestResult<Vec<u8>> for SecureHash {
    open spec fn sets_result(pre: Self, res: Vec<u8>, post: Self, r: AcvpResult<()>) -> bool {
        &&& r matches Ok(())
        &&& post.result_view() == Some(hash_aft_result(pre.tcid, res@))
        &&& post.algorithm == pre.algorithm
        &&& post.tcid == pre.tcid
        &&& post.test_type == pre.test_type
        &&& post.msg == pre.msg
    }

    fn set_result(&mut self, res: Vec<u8>) -> (r: AcvpResult<()>) {
        self.set_aft_result(res);
        Ok(())
    }
}

impl TestResult<Vec<Vec<u8>>> for SecureHash {
    open spec fn sets_result(pre: Self, res: Vec<Vec<u8>>, post: Self, r: AcvpResult<()>) -> bool {
        &&& r matches Ok(())
        &&& post.result_view() == Some(hash_mct_result(pre.tcid, res.deep_view()))
        &&& post.algorithm == pre.algorithm
        &&& post.tcid == pre.tcid
        &&& post.test_type == pre.test_type
        &&& post.msg == pre.msg
    }

    fn set_result(&mut self, res: Vec<Vec<u8>>) -> (r: AcvpResult<()>) {
        self.set_mct_result(res)
    }
}

} // verus!
