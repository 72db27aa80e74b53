use vstd::prelude::*;

use crate::drbg::{drbg_mode_of, DrbgMode};
use crate::jsonval::{dump_spec, jv_view, jv_view_list, pretty_spec, JVal, JsonVal};
use crate::util::{
    classify_name, direction_of, get_acvp_bool, get_acvp_str, get_acvp_u32, iv_mode_of,
    test_type_of, AcvpAlgorithm, Direction, IVMode, TestType,
};
use crate::AcvpError;
use crate::AcvpResult;
use crate::EINVAL;

verus! {

/// Everything a test case's decode step may need from its group: built once
/// per test group and never mutated afterwards.
#[derive(Debug, PartialEq, Eq)]
pub struct TestGroupData {
    pub algorithm: String,
    pub test_type: TestType,
    /// Declared tag length in bytes (AEAD).
    pub taglen: usize,
    /// Declared payload length in bytes, governing tag splitting on decrypt.
    pub payload_len: usize,
    pub ivmode: IVMode,
    /// Declared IV length in bytes.
    pub ivlen: usize,
    pub direction: Direction,
    pub drbgmode: DrbgMode,
    pub prediction_resistance: bool,
    pub reseed: bool,
    pub der_func: bool,
    /// Declared returned-bits length in bytes (DRBG).
    pub returned_bits_len: usize,
}

impl Clone for TestGroupData {
    fn clone(&self) -> (r: Self)
        ensures
            r == *self,
    {
        TestGroupData {
            algorithm: self.algorithm.clone(),
            test_type: self.test_type,
            taglen: self.taglen,
            payload_len: self.payload_len,
            ivmode: self.ivmode,
            ivlen: self.ivlen,
            direction: self.direction,
            drbgmode: self.drbgmode,
            prediction_resistance: self.prediction_resistance,
            reseed: self.reseed,
            der_func: self.der_func,
            returned_bits_len: self.returned_bits_len,
        }
    }
}

/// What a read of the result slot returns: the held value exactly when one
/// was set, the unset-result error otherwise.
pub open spec fn read_result_post(slot: Option<JVal>, r: AcvpResult<JsonVal>) -> bool {
    match slot {
        Some(v) => r matches Ok(j) && j@ == v,
        None => r matches Err(e) && e.code == -EINVAL,
    }
}

/// Law: while the result slot is unset, every read fails with the
/// unset-result error; it never yields a default value.
pub proof fn lemma_unset_read_fails(slot: Option<JVal>, r: AcvpResult<JsonVal>)
    requires
        slot is None,
        read_result_post(slot, r),
    ensures
        r matches Err(e) && e.code == -EINVAL,
{
}

/// Law: once the result slot is set, every read returns the same logical
/// value.
pub proof fn lemma_read_idempotent(slot: Option<JVal>, r1: AcvpResult<JsonVal>, r2: AcvpResult<
    JsonVal,
>)
    requires
        slot is Some,
        read_result_post(slot, r1),
        read_result_post(slot, r2),
    ensures
        r1 matches Ok(a) && r2 matches Ok(b) && a@ == b@,
{
}

/// A family codec: decodes one test-case document against its group context
/// and exposes the per-test result slot.
pub trait TestCase: Sized {
    /// Family-specific relation between a parsed test-case document, the
    /// group context, and the decode outcome.
    spec fn decodes(test: JVal, tgdata: TestGroupData, r: AcvpResult<Self>) -> bool;

    /// The result slot: the encoded response value once one was set.
    spec fn result_view(&self) -> Option<JVal>;

    /// Decodes a test-case JSON text against the group context.
    fn new(test: &str, tgdata: &TestGroupData) -> (r: AcvpResult<Self>)
        ensures
            match crate::jsontext::parsed_doc(test@) {
                Some(doc) => Self::decodes(doc, *tgdata, r),
                None => r matches Err(e) && e.code == -EINVAL,
            },
    ;

    /// Decodes an already parsed test-case document against the group
    /// context.
    fn decode(test: &JsonVal, tgdata: &TestGroupData) -> (r: AcvpResult<Self>)
        ensures
            Self::decodes(test@, *tgdata, r),
    ;

    /// A failed decode always carries the crate's invalid-input code.
    proof fn decodes_err_code(test: JVal, tgdata: TestGroupData, e: AcvpError)
        requires
            Self::decodes(test, tgdata, Err(e)),
        ensures
            e.code == -EINVAL,
    ;

    /// The encoded response value; an error while the slot is unset.
    fn get_result(&self) -> (r: AcvpResult<JsonVal>)
        ensures
            read_result_post(self.result_view(), r),
    ;

    /// The encoded response as one-line JSON text; an error while unset.
    fn dump_result(&self) -> (r: AcvpResult<String>)
        ensures
            match self.result_view() {
                Some(v) => r matches Ok(s) && s@ == dump_spec(v),
                None => r matches Err(e) && e.code == -EINVAL,
            },
    ;

    /// The encoded response as indented JSON text; an error while unset.
    fn pretty_result(&self) -> (r: AcvpResult<String>)
        ensures
            match self.result_view() {
                Some(v) => r matches Ok(s) && s@ == pretty_spec(v),
                None => r matches Err(e) && e.code == -EINVAL,
            },
    ;
}

/// Accepting a computed result of shape `T` into the result slot.
pub trait TestResult<T>: Sized {
    /// Family-specific relation between the state before, the supplied
    /// result, the state after, and the outcome.
    spec fn sets_result(pre: Self, res: T, post: Self, r: AcvpResult<()>) -> bool;

    /// Stores the encoded form of `res` in the result slot.
    fn set_result(&mut self, res: T) -> (r: AcvpResult<()>)
        ensures
            Self::sets_result(*old(self), res, *final(self), r),
    ;
}

/// A whole test group, decoded from its JSON text.
pub trait TestGroup: Sized {
    /// Relation between the algorithm, the parsed group document, and the
    /// decode outcome.
    spec fn group_decodes(algorithm: Seq<char>, tg: JVal, r: AcvpResult<Self>) -> bool;

    /// The raw parsed group document, kept for pass-through echo.
    spec fn raw_view(&self) -> JVal;

    /// Decodes a test-group JSON text.
    fn new(algorithm: &str, tgjson: &str) -> (r: AcvpResult<Self>)
        ensures
            match crate::jsontext::parsed_doc(tgjson@) {
                Some(doc) => Self::group_decodes(algorithm@, doc, r),
                None => r matches Err(e) && e.code == -EINVAL,
            },
    ;

    /// Decodes an already parsed test-group document.
    fn decode(algorithm: &str, tg: &JsonVal) -> (r: AcvpResult<Self>)
        ensures
            Self::group_decodes(algorithm@, tg@, r),
    ;

    /// The group document as one-line JSON text.
    fn dump(&self) -> (r: String)
        ensures
            r@ == dump_spec(self.raw_view()),
    ;

    /// The group document as indented JSON text.
    fn pretty(&self) -> (r: String)
        ensures
            r@ == pretty_spec(self.raw_view()),
    ;
}

/// One test of a group: the family codec instance, its identifier, the
/// group context it was decoded under, and the raw test-case document.
#[derive(Debug)]
pub struct AcvpTest<T> {
    pub tcid: u32,
    pub tgdata: TestGroupData,
    pub test: T,
    pub test_json: JsonVal,
}

/// The test-case document decodes into the wrapper `t` under context `gd`.
pub open spec fn acvp_test_ok<T: TestCase>(test: JVal, gd: TestGroupData, t: AcvpTest<T>) -> bool {
    &&& test.get_key("tcId"@) matches Some(JVal::Num(n)) && t.tcid == n
    &&& t.tgdata == gd
    &&& t.test_json@ == test
    &&& T::decodes(test, gd, Ok(t.test))
}

/// The test-case document cannot decode under context `gd`: the identifier
/// is missing or mistyped, or the family codec refuses it.
pub open spec fn acvp_test_fails<T: TestCase>(test: JVal, gd: TestGroupData) -> bool {
    ||| !(test.get_key("tcId"@) matches Some(JVal::Num(_)))
    ||| exists|e: AcvpError| T::decodes(test, gd, Err(e))
}

impl<T: TestCase> TestCase for AcvpTest<T> {
    open spec fn decodes(test: JVal, tgdata: TestGroupData, r: AcvpResult<Self>) -> bool {
        match r {
            Ok(t) => acvp_test_ok(test, tgdata, t),
            Err(e) => e.code == -EINVAL && acvp_test_fails::<T>(test, tgdata),
        }
    }

    open spec fn result_view(&self) -> Option<JVal> {
        self.test.result_view()
    }

    fn new(test: &str, tgdata: &TestGroupData) -> (r: AcvpResult<Self>) {
        let doc = match crate::jsontext::parse_doc(test) {
            Some(d) => d,
            None => {
                return Err(
                    AcvpError {
                        code: -EINVAL,
                        message: String::from_str("Failed to parse testcase JSON"),
                    },
                );
            },
        };
        Self::decode(&doc, tgdata)
    }

    fn decode(test: &JsonVal, tgdata: &TestGroupData) -> (r: AcvpResult<Self>) {
        if !test.has_key("tcId") {
            return Err(
                AcvpError {
                    code: -EINVAL,
                    message: String::from_str("Required field tcID missing from testcase JSON"),
                },
            );
        }
        let tcid = match get_acvp_u32("tcId", test) {
            Ok(n) => n,
            Err(e) => {
                return Err(e);
            },
        };
        let inner = match T::decode(test, tgdata) {
            Ok(t) => t,
            Err(e) => {
                proof {
                    T::decodes_err_code(test@, *tgdata, e);
                }
                return Err(e);
            },
        };
        Ok(AcvpTest { tcid, tgdata: tgdata.clone(), test: inner, test_json: test.deep_clone() })
    }

    proof fn decodes_err_code(test: JVal, tgdata: TestGroupData, e: AcvpError) {
    }

    fn get_result(&self) -> (r: AcvpResult<JsonVal>) {
        self.test.get_result()
    }

    fn dump_result(&self) -> (r: AcvpResult<String>) {
        self.test.dump_result()
    }

    fn pretty_result(&self) -> (r: AcvpResult<String>) {
        self.test.pretty_result()
    }
}

impl<R, T: TestResult<R>> TestResult<R> for AcvpTest<T> {
    open spec fn sets_result(pre: Self, res: R, post: Self, r: AcvpResult<()>) -> bool {
        &&& T::sets_result(pre.test, res, post.test, r)
        &&& post.tcid == pre.tcid
        &&& post.tgdata == pre.tgdata
        &&& post.test_json == pre.test_json
    }

    fn set_result(&mut self, res: R) -> (r: AcvpResult<()>) {
        self.test.set_result(res)
    }
}

impl<T: Clone + TestCase> AcvpTest<T> {
    /// A copy of the decoded family test case.
    pub fn get_test_data(&self) -> T {
        self.test.clone()
    }

    /// The raw test-case document as one-line JSON text.
    pub fn dump(&self) -> (r: String)
        ensures
            r@ == dump_spec(self.test_json@),
    {
        self.test_json.dump()
    }

    /// The raw test-case document as indented JSON text.
    pub fn pretty(&self) -> (r: String)
        ensures
            r@ == pretty_spec(self.test_json@),
    {
        self.test_json.pretty()
    }
}

/// The members of the group's test array; no array means no tests.
pub open spec fn tests_members(tg: JVal) -> Seq<JVal> {
    match tg.get_key("tests"@) {
        Some(JVal::Arr(ms)) => ms,
        _ => Seq::empty(),
    }
}

/// The direction a group declares, `Nil` when absent.
pub open spec fn gd_direction(tg: JVal) -> Result<Direction, ()> {
    match tg.get_key("direction"@) {
        Some(JVal::Str(s)) => match direction_of(s) {
            Some(d) => Ok(d),
            None => Err(()),
        },
        Some(_) => Err(()),
        None => Ok(Direction::Nil),
    }
}

/// The tag length in bytes a group declares: `tagLen`, else `macLen`, else
/// zero.
pub open spec fn gd_taglen(tg: JVal) -> Result<int, ()> {
    match tg.get_key("tagLen"@) {
        Some(JVal::Num(n)) => Ok(n as int),
        Some(_) => Err(()),
        None => match tg.get_key("macLen"@) {
            Some(JVal::Num(n)) => Ok(n as int),
            Some(_) => Err(()),
            None => Ok(0),
        },
    }
}

/// The IV mode a group declares, `Nil` when absent.
pub open spec fn gd_ivmode(tg: JVal) -> Result<IVMode, ()> {
    match tg.get_key("ivGen"@) {
        Some(JVal::Str(s)) => match iv_mode_of(s) {
            Some(m) => Ok(m),
            None => Err(()),
        },
        Some(_) => Err(()),
        None => Ok(IVMode::Nil),
    }
}

/// A bit-length field of a group, stored in bytes; zero when absent.
pub open spec fn gd_bitlen(tg: JVal, key: Seq<char>) -> Result<int, ()> {
    match tg.get_key(key) {
        Some(JVal::Num(n)) => Ok(n as int / 8),
        Some(_) => Err(()),
        None => Ok(0),
    }
}

/// The DRBG mode a group declares, `Nil` when absent.
pub open spec fn gd_drbgmode(tg: JVal) -> Result<DrbgMode, ()> {
    match tg.get_key("mode"@) {
        Some(JVal::Str(s)) => match drbg_mode_of(s) {
            Some(m) => Ok(m),
            None => Err(()),
        },
        Some(_) => Err(()),
        None => Ok(DrbgMode::Nil),
    }
}

/// A boolean field of a group, false when absent.
pub open spec fn gd_flag(tg: JVal, key: Seq<char>) -> Result<bool, ()> {
    match tg.get_key(key) {
        Some(JVal::Bool(b)) => Ok(b),
        Some(_) => Err(()),
        None => Ok(false),
    }
}

/// The group context `gd` is the one the group document and algorithm
/// declare.
pub open spec fn group_data_matches(algorithm: Seq<char>, tg: JVal, gd: TestGroupData) -> bool {
    &&& gd.algorithm@ == algorithm
    &&& tg.get_key("testType"@) matches Some(JVal::Str(s)) && test_type_of(s) matches Some(t)
        && gd.test_type == t
    &&& gd_direction(tg) matches Ok(d) && gd.direction == d
    &&& gd_taglen(tg) matches Ok(n) && gd.taglen == n
    &&& gd.payload_len == 0
    &&& gd_ivmode(tg) matches Ok(m) && gd.ivmode == m
    &&& gd_bitlen(tg, "ivLen"@) matches Ok(n) && gd.ivlen == n
    &&& gd_drbgmode(tg) matches Ok(m) && gd.drbgmode == m
    &&& gd_flag(tg, "predResistance"@) matches Ok(b) && gd.prediction_resistance == b
    &&& gd_flag(tg, "derFunc"@) matches Ok(b) && gd.der_func == b
    &&& gd_flag(tg, "reSeed"@) matches Ok(b) && gd.reseed == b
    &&& gd_bitlen(tg, "returnedBitsLen"@) matches Ok(n) && gd.returned_bits_len == n
}

/// The group document's own fields cannot build a context.
pub open spec fn group_err(tg: JVal) -> bool {
    ||| !tg.has_key("tgId"@)
    ||| !(tg.get_key("tgId"@) matches Some(JVal::Num(_)))
    ||| !(tg.get_key("testType"@) matches Some(JVal::Str(s)) && test_type_of(s) is Some)
    ||| gd_direction(tg) is Err
    ||| gd_taglen(tg) is Err
    ||| gd_ivmode(tg) is Err
    ||| gd_bitlen(tg, "ivLen"@) is Err
    ||| gd_drbgmode(tg) is Err
    ||| gd_flag(tg, "predResistance"@) is Err
    ||| gd_flag(tg, "derFunc"@) is Err
    ||| gd_flag(tg, "reSeed"@) is Err
    ||| gd_bitlen(tg, "returnedBitsLen"@) is Err
}

/// A test group: its ordered tests, identifiers, and the raw group
/// document.
#[derive(Debug)]
pub struct AcvpTestGroup<T> {
    pub test_type: TestType,
    pub tgid: u32,
    pub tests: Vec<AcvpTest<T>>,
    pub testgroup_json: JsonVal,
}

/// The group document decodes into `g` for `algorithm`.
pub open spec fn acvp_group_ok<T: TestCase>(
    algorithm: Seq<char>,
    tg: JVal,
    g: AcvpTestGroup<T>,
) -> bool {
    &&& tg.get_key("tgId"@) matches Some(JVal::Num(n)) && g.tgid == n
    &&& tg.get_key("testType"@) matches Some(JVal::Str(s)) && test_type_of(s) matches Some(t)
        && g.test_type == t
    &&& g.testgroup_json@ == tg
    &&& g.tests@.len() == tests_members(tg).len()
    &&& forall|i: int|
        0 <= i < g.tests@.len() ==> {
            &&& group_data_matches(algorithm, tg, (#[trigger] g.tests@[i]).tgdata)
            &&& acvp_test_ok(tests_members(tg)[i], g.tests@[i].tgdata, g.tests@[i])
        }
}

/// The group document cannot decode for `algorithm`: its own fields are
/// bad, or one of its tests refuses to decode under the context it
/// declares.
pub open spec fn acvp_group_fails<T: TestCase>(algorithm: Seq<char>, tg: JVal) -> bool {
    ||| group_err(tg)
    ||| exists|i: int, gd: TestGroupData|
        0 <= i < tests_members(tg).len() && group_data_matches(algorithm, tg, gd)
            && #[trigger] acvp_test_fails::<T>(#[trigger] tests_members(tg)[i], gd)
}

impl<T: TestCase> TestGroup for AcvpTestGroup<T> {
    open spec fn group_decodes(algorithm: Seq<char>, tg: JVal, r: AcvpResult<Self>) -> bool {
        match r {
            Ok(g) => acvp_group_ok(algorithm, tg, g),
            Err(e) => e.code == -EINVAL && acvp_group_fails::<T>(algorithm, tg),
        }
    }

    open spec fn raw_view(&self) -> JVal {
        self.testgroup_json@
    }

    fn new(algorithm: &str, tgjson: &str) -> (r: AcvpResult<Self>) {
        let doc = match crate::jsontext::parse_doc(tgjson) {
            Some(d) => d,
            None => {
                return Err(
                    AcvpError {
                        code: -EINVAL,
                        message: String::from_str("Failed to parse testgroup JSON"),
                    },
                );
            },
        };
        Self::decode(algorithm, &doc)
    }

    fn decode(algorithm: &str, tg: &JsonVal) -> (r: AcvpResult<Self>) {
        if !tg.has_key("tgId") || !tg.has_key("testType") {
            return Err(
                AcvpError {
                    code: -EINVAL,
                    message: String::from_str(
                        "Provided testgroup JSON does not have required fields",
                    ),
                },
            );
        }
        let tgid = match get_acvp_u32("tgId", tg) {
            Ok(n) => n,
            Err(e) => {
                return Err(e);
            },
        };
        let ttstr = match get_acvp_str("testType", tg) {
            Ok(s) => s,
            Err(e) => {
                return Err(e);
            },
        };
        let test_type = match TestType::from_string(ttstr.as_str()) {
            Ok(t) => t,
            Err(e) => {
                return Err(e);
            },
        };
        let mut direction = Direction::Nil;
        if tg.has_key("direction") {
            let s = match get_acvp_str("direction", tg) {
                Ok(s) => s,
                Err(e) => {
                    return Err(e);
                },
            };
            direction = match Direction::from_string(s.as_str()) {
                Ok(d) => d,
                Err(e) => {
                    return Err(e);
                },
            };
        }
        let mut taglen: usize = 0;
        if tg.has_key("tagLen") {
            taglen = match get_acvp_u32("tagLen", tg) {
                Ok(n) => n as usize,
                Err(e) => {
                    return Err(e);
                },
            };
        } else if tg.has_key("macLen") {
            taglen = match get_acvp_u32("macLen", tg) {
                Ok(n) => n as usize,
                Err(e) => {
                    return Err(e);
                },
            };
        }
        let mut ivmode = IVMode::Nil;
        if tg.has_key("ivGen") {
            let s = match get_acvp_str("ivGen", tg) {
                Ok(s) => s,
                Err(e) => {
                    return Err(e);
                },
            };
            ivmode = match IVMode::from_string(s.as_str()) {
                Ok(m) => m,
                Err(e) => {
                    return Err(e);
                },
            };
        }
        let mut ivlen: usize = 0;
        if tg.has_key("ivLen") {
            let bits = match get_acvp_u32("ivLen", tg) {
                Ok(n) => n,
                Err(e) => {
                    return Err(e);
                },
            };
            ivlen = (bits / 8) as usize;
        }
        let mut drbgmode = DrbgMode::Nil;
        if tg.has_key("mode") {
            let s = match get_acvp_str("mode", tg) {
                Ok(s) => s,
                Err(e) => {
                    return Err(e);
                },
            };
            drbgmode = match DrbgMode::from_str(s.as_str()) {
                Ok(m) => m,
                Err(e) => {
                    return Err(e);
                },
            };
        }
        let mut prediction_resistance = false;
        if tg.has_key("predResistance") {
            prediction_resistance = match get_acvp_bool("predResistance", tg) {
                Ok(b) => b,
                Err(e) => {
                    return Err(e);
                },
            };
        }
        let mut der_func = false;
        if tg.has_key("derFunc") {
            der_func = match get_acvp_bool("derFunc", tg) {
                Ok(b) => b,
                Err(e) => {
                    return Err(e);
                },
            };
        }
        let mut reseed = false;
        if tg.has_key("reSeed") {
            reseed = match get_acvp_bool("reSeed", tg) {
                Ok(b) => b,
                Err(e) => {
                    return Err(e);
                },
            };
        }
        let mut returned_bits_len: usize = 0;
        if tg.has_key("returnedBitsLen") {
            let bits = match get_acvp_u32("returnedBitsLen", tg) {
                Ok(n) => n,
                Err(e) => {
                    return Err(e);
                },
            };
            returned_bits_len = (bits / 8) as usize;
        }
        let tgdata = TestGroupData {
            algorithm: String::from_str(algorithm),
            test_type,
            taglen,
            payload_len: 0,
            ivmode,
            ivlen,
            direction,
            drbgmode,
            prediction_resistance,
            reseed,
            der_func,
            returned_bits_len,
        };
        proof {
            assert(group_data_matches(algorithm@, tg@, tgdata));
        }
        let mut tests: Vec<AcvpTest<T>> = Vec::new();
        match tg.obj_get("tests") {
            Some(v) => match v {
                JsonVal::Arr(members) => {
                    let ghost gms = jv_view_list(members@);
                    proof {
                        crate::jsonval::lemma_jv_view_list(members@);
                        assert(tests_members(tg@) == gms);
                    }
                    let mut i: usize = 0;
                    while i < members.len()
                        invariant
                            i <= members@.len(),
                            gms == jv_view_list(members@),
                            gms.len() == members@.len(),
                            tests_members(tg@) == gms,
                            group_data_matches(algorithm@, tg@, tgdata),
                            forall|j: int|
                                0 <= j < members@.len() ==> gms[j] == jv_view(
                                    #[trigger] members@[j],
                                ),
                            tests@.len() == i,
                            forall|j: int|
                                0 <= j < i ==> {
                                    &&& group_data_matches(
                                        algorithm@,
                                        tg@,
                                        (#[trigger] tests@[j]).tgdata,
                                    )
                                    &&& acvp_test_ok(gms[j], tests@[j].tgdata, tests@[j])
                                },
                        decreases members@.len() - i,
                    {
                        let t = match AcvpTest::<T>::decode(&members[i], &tgdata) {
                            Ok(t) => t,
                            Err(e) => {
                                proof {
                                    assert(acvp_test_fails::<T>(tests_members(tg@)[i as int], tgdata));
                                }
                                return Err(e);
                            },
                        };
                        tests.push(t);
                        i = i + 1;
                    }
                    Ok(
                        AcvpTestGroup {
                            test_type,
                            tgid,
                            tests,
                            testgroup_json: tg.deep_clone(),
                        },
                    )
                },
                _ => Ok(
                    AcvpTestGroup { test_type, tgid, tests, testgroup_json: tg.deep_clone() },
                ),
            },
            None => Ok(AcvpTestGroup { test_type, tgid, tests, testgroup_json: tg.deep_clone() }),
        }
    }

    fn dump(&self) -> (r: String) {
        self.testgroup_json.dump()
    }

    fn pretty(&self) -> (r: String) {
        self.testgroup_json.pretty()
    }
}

/// Every test of the group has its result set.
pub open spec fn group_results_ready<T: TestCase>(g: AcvpTestGroup<T>) -> bool {
    forall|i: int| 0 <= i < g.tests@.len() ==> (#[trigger] g.tests@[i]).result_view() is Some
}

/// The group's aggregated response: its identifier plus each test's
/// response, in test order.
pub open spec fn group_result_val<T: TestCase>(g: AcvpTestGroup<T>) -> JVal {
    JVal::Obj(
        seq![
            ("tgId"@, JVal::Num(g.tgid)),
            (
                "tests"@,
                JVal::Arr(Seq::new(g.tests@.len(), |i: int| g.tests@[i].result_view()->Some_0)),
            ),
        ],
    )
}

impl<T: TestCase> AcvpTestGroup<T> {
    /// Collects each test's response into the group's response, in test
    /// order; a single unset result fails the whole aggregation.
    pub fn get_result(&self) -> (r: AcvpResult<JsonVal>)
        ensures
            match r {
                Ok(j) => group_results_ready(*self) && j@ == group_result_val(*self),
                Err(e) => e.code == -EINVAL && !group_results_ready(*self),
            },
    {
        let mut results: Vec<JsonVal> = Vec::new();
        let mut i: usize = 0;
        while i < self.tests.len()
            invariant
                i <= self.tests@.len(),
                results@.len() == i,
                forall|j: int|
                    0 <= j < i ==> (#[trigger] results@[j])@ == self.tests@[j].result_view()
                        ->Some_0 && self.tests@[j].result_view() is Some,
            decreases self.tests@.len() - i,
        {
            let res = match self.tests[i].get_result() {
                Ok(j) => j,
                Err(e) => {
                    proof {
                        assert(self.tests@[i as int].result_view() is None);
                    }
                    return Err(e);
                },
            };
            results.push(res);
            i = i + 1;
        }
        proof {
            assert forall|j: int| 0 <= j < self.tests@.len() implies (#[trigger] self.tests@[j]).result_view()
                is Some by {
                assert(results@[j]@ == self.tests@[j].result_view()->Some_0);
            }
            crate::jsonval::lemma_jv_view_list(results@);
            assert forall|j: int| 0 <= j < results@.len() implies jv_view_list(results@)[j]
                == Seq::new(
                self.tests@.len(),
                |k: int| self.tests@[k].result_view()->Some_0,
            )[j] by {
                assert(jv_view_list(results@)[j] == jv_view(results@[j]));
            }
            assert(jv_view_list(results@) =~= Seq::new(
                self.tests@.len(),
                |k: int| self.tests@[k].result_view()->Some_0,
            ));
        }
        let res = JsonVal::Obj(
            vec![
                (String::from_str("tgId"), JsonVal::Num(self.tgid)),
                (String::from_str("tests"), JsonVal::Arr(results)),
            ],
        );
        proof {
            crate::jsonval::lemma_jv_view_entries(res->Obj_0@);
            assert(crate::jsonval::jv_view_entries(res->Obj_0@) =~= group_result_val(
                *self,
            )->Obj_0);
        }
        Ok(res)
    }

    /// The group's response as one-line JSON text.
    pub fn dump_result(&self) -> (r: AcvpResult<String>)
        ensures
            match r {
                Ok(s) => group_results_ready(*self) && s@ == dump_spec(group_result_val(*self)),
                Err(e) => e.code == -EINVAL && !group_results_ready(*self),
            },
    {
        let res = match self.get_result() {
            Ok(j) => j,
            Err(e) => {
                return Err(e);
            },
        };
        Ok(res.dump())
    }

    /// The group's response as indented JSON text.
    pub fn pretty_result(&self) -> (r: AcvpResult<String>)
        ensures
            match r {
                Ok(s) => group_results_ready(*self) && s@ == pretty_spec(group_result_val(*self)),
                Err(e) => e.code == -EINVAL && !group_results_ready(*self),
            },
    {
        let res = match self.get_result() {
            Ok(j) => j,
            Err(e) => {
                return Err(e);
            },
        };
        Ok(res.pretty())
    }
}

/// Running state of the scan over a request document's members: the
/// metadata seen so far (last writer wins) and the group documents
/// collected, each paired with the algorithm in force when it appeared.
pub struct ReqScan {
    pub version: Seq<char>,
    pub algorithm: Seq<char>,
    pub alg_type: AcvpAlgorithm,
    pub revision: Seq<char>,
    pub vsid: u32,
    pub is_sample: bool,
    pub groups: Seq<(Seq<char>, JVal)>,
}

/// The scan's starting state.
pub open spec fn req_scan_init() -> ReqScan {
    ReqScan {
        version: Seq::empty(),
        algorithm: Seq::empty(),
        alg_type: AcvpAlgorithm::Nil,
        revision: Seq::empty(),
        vsid: 0,
        is_sample: false,
        groups: Seq::empty(),
    }
}

/// The members of a request member's test-group array; no array means no
/// groups.
pub open spec fn tg_members(m: JVal) -> Seq<JVal> {
    match m.get_key("testGroups"@) {
        Some(JVal::Arr(gs)) => gs,
        _ => Seq::empty(),
    }
}

/// One member's contribution to the scan: a version marker updates the
/// version; any other member must carry algorithm, revision, vector-set id
/// and sample flag, and appends its groups.
pub open spec fn member_scan(m: JVal, acc: ReqScan) -> Result<ReqScan, ()> {
    if m.has_key("acvVersion"@) {
        match m.get_key("acvVersion"@) {
            Some(JVal::Str(s)) => Ok(ReqScan { version: s, ..acc }),
            _ => Err(()),
        }
    } else {
        match m.get_key("algorithm"@) {
            Some(JVal::Str(alg)) => match classify_name(alg) {
                Some(at) => match m.get_key("revision"@) {
                    Some(JVal::Str(rev)) => match m.get_key("vsId"@) {
                        Some(JVal::Num(vsid)) => match m.get_key("isSample"@) {
                            Some(JVal::Bool(smp)) => Ok(
                                ReqScan {
                                    algorithm: alg,
                                    alg_type: at,
                                    revision: rev,
                                    vsid,
                                    is_sample: smp,
                                    groups: acc.groups + Seq::new(
                                        tg_members(m).len(),
                                        |j: int| (alg, tg_members(m)[j]),
                                    ),
                                    version: acc.version,
                                },
                            ),
                            _ => Err(()),
                        },
                        _ => Err(()),
                    },
                    _ => Err(()),
                },
                None => Err(()),
            },
            _ => Err(()),
        }
    }
}

/// The scan over the request's members from position `i` on.
pub open spec fn req_scan(members: Seq<JVal>, i: int, acc: ReqScan) -> Result<ReqScan, ()>
    decreases members.len() - i,
{
    if i < 0 || i >= members.len() {
        Ok(acc)
    } else {
        match member_scan(members[i], acc) {
            Ok(acc2) => req_scan(members, i + 1, acc2),
            Err(()) => Err(()),
        }
    }
}

/// The scan only ever appends to the collected group list.
pub proof fn lemma_req_scan_groups_prefix(members: Seq<JVal>, i: int, acc: ReqScan)
    ensures
        req_scan(members, i, acc) matches Ok(sc) ==> acc.groups.len() <= sc.groups.len()
            && forall|j: int| 0 <= j < acc.groups.len() ==> sc.groups[j] == acc.groups[j],
    decreases members.len() - i,
{
    if 0 <= i < members.len() {
        match member_scan(members[i], acc) {
            Ok(acc2) => {
                lemma_req_scan_groups_prefix(members, i + 1, acc2);
            },
            Err(()) => {},
        }
    }
}

/// A whole request: its metadata, its ordered decoded groups, and the raw
/// request document.
#[derive(Debug)]
pub struct AcvpRequest<T> {
    pub version: String,
    pub revision: String,
    pub vsid: u32,
    pub algorithm: String,
    pub alg_type: AcvpAlgorithm,
    pub is_sample: bool,
    pub testgroups: Vec<AcvpTestGroup<T>>,
    pub request_json: JsonVal,
}

/// The request document decodes into `req`.
pub open spec fn acvp_request_ok<T: TestCase>(doc: JVal, req: AcvpRequest<T>) -> bool {
    &&& doc matches JVal::Arr(ms)
    &&& req_scan(doc->Arr_0, 0, req_scan_init()) matches Ok(sc) && {
        &&& req.version@ == sc.version
        &&& req.algorithm@ == sc.algorithm
        &&& req.alg_type == sc.alg_type
        &&& req.revision@ == sc.revision
        &&& req.vsid == sc.vsid
        &&& req.is_sample == sc.is_sample
        &&& req.request_json@ == doc
        &&& req.testgroups@.len() == sc.groups.len()
        &&& forall|i: int|
            0 <= i < sc.groups.len() ==> acvp_group_ok(
                (#[trigger] sc.groups[i]).0,
                sc.groups[i].1,
                req.testgroups@[i],
            )
    }
}

/// The request document cannot decode: it is no array, a member is
/// malformed, or one of the collected groups refuses to decode.
pub open spec fn acvp_request_fails<T: TestCase>(doc: JVal) -> bool {
    ||| !(doc matches JVal::Arr(_))
    ||| req_scan(doc->Arr_0, 0, req_scan_init()) is Err
    ||| (req_scan(doc->Arr_0, 0, req_scan_init()) matches Ok(sc) && exists|i: int|
        0 <= i < sc.groups.len() && acvp_group_fails::<T>(
            (#[trigger] sc.groups[i]).0,
            sc.groups[i].1,
        ))
}

impl<T: TestCase> AcvpRequest<T> {
    /// Decodes a whole request document: the version marker is captured,
    /// every other member must carry the vector-set metadata (last writer
    /// wins), and every group of every member is decoded in order.
    pub fn new(vector: &str) -> (r: AcvpResult<Self>)
        ensures
            match crate::jsontext::parsed_doc(vector@) {
                Some(doc) => match r {
                    Ok(req) => acvp_request_ok(doc, req),
                    Err(e) => e.code == -EINVAL && acvp_request_fails::<T>(doc),
                },
                None => r matches Err(e) && e.code == -EINVAL,
            },
    {
        let doc = match crate::jsontext::parse_doc(vector) {
            Some(d) => d,
            None => {
                return Err(
                    AcvpError {
                        code: -EINVAL,
                        message: String::from_str("Invalid ACVP Request JSON"),
                    },
                );
            },
        };
        match &doc {
            JsonVal::Arr(members) => {
                let ghost gms = jv_view_list(members@);
                proof {
                    crate::jsonval::lemma_jv_view_list(members@);
                    assert(doc@ == JVal::Arr(gms));
                }
                let mut version = String::new();
                let mut algorithm = String::new();
                let mut alg_type = AcvpAlgorithm::Nil;
                let mut revision = String::new();
                let mut vsid: u32 = 0;
                let mut is_sample = false;
                let mut testgroups: Vec<AcvpTestGroup<T>> = Vec::new();
                let ghost mut gpairs: Seq<(Seq<char>, JVal)> = Seq::empty();
                let mut i: usize = 0;
                while i < members.len()
                    invariant
                        i <= members@.len(),
                        gms == jv_view_list(members@),
                        gms.len() == members@.len(),
                        crate::jsontext::parsed_doc(vector@) == Some(doc@),
                        doc@ == JVal::Arr(gms),
                        forall|j: int|
                            0 <= j < members@.len() ==> gms[j] == jv_view(#[trigger] members@[j]),
                        req_scan(gms, 0, req_scan_init()) == req_scan(
                            gms,
                            i as int,
                            ReqScan {
                                version: version@,
                                algorithm: algorithm@,
                                alg_type: alg_type,
                                revision: revision@,
                                vsid: vsid,
                                is_sample: is_sample,
                                groups: gpairs,
                            },
                        ),
                        testgroups@.len() == gpairs.len(),
                        forall|j: int|
                            0 <= j < gpairs.len() ==> acvp_group_ok(
                                (#[trigger] gpairs[j]).0,
                                gpairs[j].1,
                                testgroups@[j],
                            ),
                    decreases members@.len() - i,
                {
                    let ghost acc = ReqScan {
                        version: version@,
                        algorithm: algorithm@,
                        alg_type: alg_type,
                        revision: revision@,
                        vsid: vsid,
                        is_sample: is_sample,
                        groups: gpairs,
                    };
                    let m = &members[i];
                    proof {
                        assert(m@ == gms[i as int]);
                    }
                    if m.has_key("acvVersion") {
                        version = match get_acvp_str("acvVersion", m) {
                            Ok(s) => s,
                            Err(e) => {
                                proof {
                                    assert(member_scan(gms[i as int], acc) is Err);
                                }
                                return Err(e);
                            },
                        };
                    } else {
                        algorithm = match get_acvp_str("algorithm", m) {
                            Ok(s) => s,
                            Err(e) => {
                                proof {
                                    assert(member_scan(gms[i as int], acc) is Err);
                                }
                                return Err(e);
                            },
                        };
                        alg_type = match AcvpAlgorithm::alg_type(algorithm.as_str()) {
                            Ok(a) => a,
                            Err(e) => {
                                proof {
                                    assert(member_scan(gms[i as int], acc) is Err);
                                }
                                return Err(e);
                            },
                        };
                        revision = match get_acvp_str("revision", m) {
                            Ok(s) => s,
                            Err(e) => {
                                proof {
                                    assert(member_scan(gms[i as int], acc) is Err);
                                }
                                return Err(e);
                            },
                        };
                        vsid = match get_acvp_u32("vsId", m) {
                            Ok(n) => n,
                            Err(e) => {
                                proof {
                                    assert(member_scan(gms[i as int], acc) is Err);
                                }
                                return Err(e);
                            },
                        };
                        is_sample = match get_acvp_bool("isSample", m) {
                            Ok(b) => b,
                            Err(e) => {
                                proof {
                                    assert(member_scan(gms[i as int], acc) is Err);
                                }
                                return Err(e);
                            },
                        };
                        let ghost next = member_scan(gms[i as int], acc)->Ok_0;
                        proof {
                            assert(member_scan(gms[i as int], acc) is Ok);
                            assert(next.groups == acc.groups + Seq::new(
                                tg_members(gms[i as int]).len(),
                                |j: int| (algorithm@, tg_members(gms[i as int])[j]),
                            ));
                        }
                        match m.obj_get("testGroups") {
                            Some(v) => match v {
                                JsonVal::Arr(gs) => {
                                    let ghost ggs = jv_view_list(gs@);
                                    proof {
                                        crate::jsonval::lemma_jv_view_list(gs@);
                                        assert(tg_members(gms[i as int]) == ggs);
                                    }
                                    let mut j: usize = 0;
                                    while j < gs.len()
                                        invariant
                                            j <= gs@.len(),
                                            ggs == jv_view_list(gs@),
                                            ggs.len() == gs@.len(),
                                            crate::jsontext::parsed_doc(vector@) == Some(doc@),
                                            doc@ == JVal::Arr(gms),
                                            req_scan(gms, 0, req_scan_init()) == req_scan(
                                                gms,
                                                i as int,
                                                acc,
                                            ),
                                            member_scan(gms[i as int], acc) == Ok::<ReqScan, ()>(
                                                next,
                                            ),
                                            0 <= i < gms.len(),
                                            tg_members(gms[i as int]) == ggs,
                                            next.groups == acc.groups + Seq::new(
                                                ggs.len(),
                                                |k: int| (algorithm@, ggs[k]),
                                            ),
                                            forall|k: int|
                                                0 <= k < gs@.len() ==> ggs[k] == jv_view(
                                                    #[trigger] gs@[k],
                                                ),
                                            gpairs == acc.groups + Seq::new(
                                                j as nat,
                                                |k: int| (algorithm@, ggs[k]),
                                            ),
                                            testgroups@.len() == gpairs.len(),
                                            forall|k: int|
                                                0 <= k < gpairs.len() ==> acvp_group_ok(
                                                    (#[trigger] gpairs[k]).0,
                                                    gpairs[k].1,
                                                    testgroups@[k],
                                                ),
                                        decreases gs@.len() - j,
                                    {
                                        let g = match AcvpTestGroup::<T>::decode(
                                            algorithm.as_str(),
                                            &gs[j],
                                        ) {
                                            Ok(g) => g,
                                            Err(e) => {
                                                proof {
                                                    assert(acvp_group_fails::<T>(
                                                        algorithm@,
                                                        ggs[j as int],
                                                    ));
                                                    assert(req_scan(gms, 0, req_scan_init())
                                                        == req_scan(gms, i + 1, next));
                                                    let idx = acc.groups.len() + j;
                                                    assert(next.groups[idx as int] == (
                                                        algorithm@,
                                                        ggs[j as int],
                                                    ));
                                                    match req_scan(gms, i + 1, next) {
                                                        Ok(sc) => {
                                                            lemma_req_scan_groups_prefix(
                                                                gms,
                                                                i + 1,
                                                                next,
                                                            );
                                                            assert(sc.groups[idx as int] == (
                                                                algorithm@,
                                                                ggs[j as int],
                                                            ));
                                                            assert(acvp_request_fails::<T>(doc@));
                                                        },
                                                        Err(()) => {
                                                            assert(acvp_request_fails::<T>(doc@));
                                                        },
                                                    }
                                                }
                                                return Err(e);
                                            },
                                        };
                                        testgroups.push(g);
                                        proof {
                                            gpairs = gpairs.push((algorithm@, ggs[j as int]));
                                            assert(gpairs =~= acc.groups + Seq::new(
                                                (j + 1) as nat,
                                                |k: int| (algorithm@, ggs[k]),
                                            ));
                                        }
                                        j = j + 1;
                                    }
                                    proof {
                                        assert(gpairs =~= next.groups);
                                    }
                                },
                                _ => {
                                    proof {
                                        assert(tg_members(gms[i as int]) =~= Seq::<JVal>::empty());
                                        assert(gpairs =~= next.groups);
                                    }
                                },
                            },
                            None => {
                                proof {
                                    assert(tg_members(gms[i as int]) =~= Seq::<JVal>::empty());
                                    assert(gpairs =~= next.groups);
                                }
                            },
                        }
                    }
                    i = i + 1;
                }
                let req = AcvpRequest {
                    version,
                    revision,
                    vsid,
                    algorithm,
                    alg_type,
                    is_sample,
                    testgroups,
                    request_json: doc.deep_clone(),
                };
                Ok(req)
            },
            _ => Err(
                AcvpError {
                    code: -EINVAL,
                    message: String::from_str("ACVP Request vector must be a JSON Array"),
                },
            ),
        }
    }
}

/// Every test of every group of the request has its result set.
pub open spec fn request_results_ready<T: TestCase>(req: AcvpRequest<T>) -> bool {
    forall|i: int|
        0 <= i < req.testgroups@.len() ==> group_results_ready(#[trigger] req.testgroups@[i])
}

/// The final response: a version marker followed by the vector-set record
/// holding each group's response, in group order.
pub open spec fn request_result_val<T: TestCase>(req: AcvpRequest<T>) -> JVal {
    JVal::Arr(
        seq![
            JVal::Obj(seq![("acvVersion"@, JVal::Str(req.version@))]),
            JVal::Obj(
                seq![
                    ("vsId"@, JVal::Num(req.vsid)),
                    ("algorithm"@, JVal::Str(req.algorithm@)),
                    ("revision"@, JVal::Str(req.revision@)),
                    ("isSample"@, JVal::Bool(req.is_sample)),
                    (
                        "testGroups"@,
                        JVal::Arr(
                            Seq::new(
                                req.testgroups@.len(),
                                |i: int| group_result_val(req.testgroups@[i]),
                            ),
                        ),
                    ),
                ],
            ),
        ],
    )
}

impl<T: TestCase> AcvpRequest<T> {
    /// Aggregates every group's response into the final two-element
    /// response; a single unset result fails the whole aggregation.
    pub fn get_result(&self) -> (r: AcvpResult<JsonVal>)
        ensures
            match r {
                Ok(j) => request_results_ready(*self) && j@ == request_result_val(*self),
                Err(e) => e.code == -EINVAL && !request_results_ready(*self),
            },
    {
        let mut results: Vec<JsonVal> = Vec::new();
        let mut i: usize = 0;
        while i < self.testgroups.len()
            invariant
                i <= self.testgroups@.len(),
                results@.len() == i,
                forall|j: int|
                    0 <= j < i ==> (#[trigger] results@[j])@ == group_result_val(
                        self.testgroups@[j],
                    ) && group_results_ready(self.testgroups@[j]),
            decreases self.testgroups@.len() - i,
        {
            let res = match self.testgroups[i].get_result() {
                Ok(j) => j,
                Err(e) => {
                    proof {
                        assert(!group_results_ready(self.testgroups@[i as int]));
                    }
                    return Err(e);
                },
            };
            results.push(res);
            i = i + 1;
        }
        proof {
            assert forall|j: int|
                0 <= j < self.testgroups@.len() implies group_results_ready(
                #[trigger] self.testgroups@[j],
            ) by {
                assert(results@[j]@ == group_result_val(self.testgroups@[j]));
            }
            crate::jsonval::lemma_jv_view_list(results@);
            assert forall|j: int| 0 <= j < results@.len() implies jv_view_list(results@)[j]
                == Seq::new(
                self.testgroups@.len(),
                |k: int| group_result_val(self.testgroups@[k]),
            )[j] by {
                assert(jv_view_list(results@)[j] == jv_view(results@[j]));
            }
            assert(jv_view_list(results@) =~= Seq::new(
                self.testgroups@.len(),
                |k: int| group_result_val(self.testgroups@[k]),
            ));
        }
        let vers = JsonVal::Obj(
            vec![(String::from_str("acvVersion"), JsonVal::Str(self.version.clone()))],
        );
        proof {
            crate::jsonval::lemma_jv_view_entries(vers->Obj_0@);
            assert(crate::jsonval::jv_view_entries(vers->Obj_0@) =~= seq![
                ("acvVersion"@, JVal::Str(self.version@)),
            ]);
        }
        let resp = JsonVal::Obj(
            vec![
                (String::from_str("vsId"), JsonVal::Num(self.vsid)),
                (String::from_str("algorithm"), JsonVal::Str(self.algorithm.clone())),
                (String::from_str("revision"), JsonVal::Str(self.revision.clone())),
                (String::from_str("isSample"), JsonVal::Bool(self.is_sample)),
                (String::from_str("testGroups"), JsonVal::Arr(results)),
            ],
        );
        proof {
            crate::jsonval::lemma_jv_view_entries(resp->Obj_0@);
            assert(crate::jsonval::jv_view_entries(resp->Obj_0@) =~= request_result_val(
                *self,
            )->Arr_0[1]->Obj_0);
        }
        let out = JsonVal::Arr(vec![vers, resp]);
        proof {
            crate::jsonval::lemma_jv_view_list(out->Arr_0@);
            assert(jv_view_list(out->Arr_0@) =~= request_result_val(*self)->Arr_0);
        }
        Ok(out)
    }

    /// The final response as one-line JSON text.
    pub fn dump_result(&self) -> (r: AcvpResult<String>)
        ensures
            match r {
                Ok(s) => request_results_ready(*self) && s@ == dump_spec(
                    request_result_val(*self),
                ),
                Err(e) => e.code == -EINVAL && !request_results_ready(*self),
            },
    {
        let res = match self.get_result() {
            Ok(j) => j,
            Err(e) => {
                return Err(e);
            },
        };
        Ok(res.dump())
    }

    /// The final response as indented JSON text.
    pub fn pretty_result(&self) -> (r: AcvpResult<String>)
        ensures
            match r {
                Ok(s) => request_results_ready(*self) && s@ == pretty_spec(
                    request_result_val(*self),
                ),
                Err(e) => e.code == -EINVAL && !request_results_ready(*self),
            },
    {
        let res = match self.get_result() {
            Ok(j) => j,
            Err(e) => {
                return Err(e);
            },
        };
        Ok(res.pretty())
    }

    /// The raw request document as one-line JSON text.
    pub fn dump(&self) -> (r: String)
        ensures
            r@ == dump_spec(self.request_json@),
    {
        self.request_json.dump()
    }

    /// The raw request document as indented JSON text.
    pub fn pretty(&self) -> (r: String)
        ensures
            r@ == pretty_spec(self.request_json@),
    {
        self.request_json.pretty()
    }
}

} // verus!
