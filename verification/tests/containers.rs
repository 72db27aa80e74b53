use acvp_parser::blkcipher::BlockCipher;
use acvp_parser::drbg::DrbgMode;
use acvp_parser::hash::SecureHash;
use acvp_parser::parser::{
    AcvpRequest, AcvpTest, AcvpTestGroup, TestCase, TestGroup, TestGroupData, TestResult,
};
use acvp_parser::util::{Direction, IVMode, TestType};
use acvp_parser::EINVAL;

fn group_data(algorithm: &str) -> TestGroupData {
    TestGroupData {
        algorithm: algorithm.to_string(),
        test_type: TestType::AFT,
        taglen: 0,
        payload_len: 0,
        ivmode: IVMode::Nil,
        ivlen: 0,
        direction: Direction::Nil,
        drbgmode: DrbgMode::Nil,
        prediction_resistance: false,
        reseed: false,
        der_func: false,
        returned_bits_len: 0,
    }
}

#[test]
fn test_init() {
    let tgdata = TestGroupData {
        algorithm: "sha1".to_string(),
        test_type: TestType::AFT,
        taglen: 0,
        payload_len: 0,
        ivmode: IVMode::Nil,
        ivlen: 0,
        direction: Direction::Nil,
        drbgmode: DrbgMode::Nil,
        prediction_resistance: false,
        der_func: false,
        reseed: false,
        returned_bits_len: 0,
    };

    let mut t =
        AcvpTest::<SecureHash>::new(r#"{ "tcId": 10, "msg": "abcdef" }"#, &tgdata).expect("Failed");
    t.set_result(vec![0xa, 0xb, 0xc, 0xd, 0xe, 0xf])
        .expect("Failed to set result");
    println!("{}", t.pretty_result().expect("Failed dump"));
}

#[test]
fn test_wrapper_requires_tcid() {
    let tg = group_data("SHA-1");
    let e = AcvpTest::<SecureHash>::new(r#"{"msg":"00"}"#, &tg).unwrap_err();
    assert_eq!(e.code, -EINVAL);
    let e = AcvpTest::<SecureHash>::new("not json", &tg).unwrap_err();
    assert_eq!(e.code, -EINVAL);
}

#[test]
fn test_wrapper_echoes_raw_json() {
    let tg = group_data("SHA-1");
    let t = AcvpTest::<SecureHash>::new(r#"{"tcId":1,"msg":"00"}"#, &tg).unwrap();
    assert_eq!(t.dump(), "{\"tcId\":1,\"msg\":\"00\"}");
    let inner = t.get_test_data();
    assert_eq!(inner.msg, vec![0x00]);
}

#[test]
fn group_decode_and_aggregate() {
    let tgjson = r#"{"tgId":5,"testType":"AFT","tests":[{"tcId":1,"msg":"aa"},{"tcId":2,"msg":"bb"}]}"#;
    let mut g = AcvpTestGroup::<SecureHash>::new("SHA-1", tgjson).unwrap();
    assert_eq!(g.tgid, 5);
    assert_eq!(g.tests.len(), 2);
    assert_eq!(g.tests[0].tcid, 1);
    assert_eq!(g.tests[1].tcid, 2);
    // One unset test fails the whole aggregation.
    assert_eq!(g.get_result().unwrap_err().code, -EINVAL);
    g.tests[0].set_result(vec![0x01]).unwrap();
    assert_eq!(g.get_result().unwrap_err().code, -EINVAL);
    g.tests[1].set_result(vec![0x02]).unwrap();
    // Input order is preserved in the output array.
    assert_eq!(
        g.dump_result().unwrap(),
        "{\"tgId\":5,\"tests\":[{\"tcId\":1,\"md\":\"01\"},{\"tcId\":2,\"md\":\"02\"}]}"
    );
}

#[test]
fn group_decode_builds_context() {
    let tgjson = r#"{"tgId":1,"testType":"AFT","direction":"decrypt","tagLen":16,"ivGen":"internal","ivLen":96,"tests":[{"tcId":1,"key":"00","ct":"11"}]}"#;
    let g = AcvpTestGroup::<BlockCipher>::new("ACVP-AES-CBC", tgjson).unwrap();
    let gd = &g.tests[0].tgdata;
    assert_eq!(gd.direction, Direction::Decrypt);
    assert_eq!(gd.taglen, 16);
    assert_eq!(gd.ivmode, IVMode::Internal);
    assert_eq!(gd.ivlen, 12);
    assert_eq!(gd.algorithm, "ACVP-AES-CBC");
}

#[test]
fn group_decode_failures() {
    let e = AcvpTestGroup::<SecureHash>::new("SHA-1", r#"{"testType":"AFT"}"#).unwrap_err();
    assert_eq!(e.code, -EINVAL);
    let e = AcvpTestGroup::<SecureHash>::new("SHA-1", r#"{"tgId":1,"testType":"WHAT"}"#)
        .unwrap_err();
    assert_eq!(e.code, -EINVAL);
    // A single bad test case aborts the whole group decode.
    let e = AcvpTestGroup::<SecureHash>::new(
        "SHA-1",
        r#"{"tgId":1,"testType":"AFT","tests":[{"tcId":1,"msg":"aa"},{"tcId":2,"msg":"zz"}]}"#,
    )
    .unwrap_err();
    assert_eq!(e.code, -EINVAL);
}

#[test]
fn request_round_trip() {
    let doc = r#"[{"acvVersion":"1.0"},{"algorithm":"SHA-1","revision":"1.0","vsId":1,"isSample":false,"testGroups":[{"tgId":1,"testType":"AFT","tests":[{"tcId":10,"msg":"abcdef"}]}]}]"#;
    let mut req = AcvpRequest::<SecureHash>::new(doc).unwrap();
    assert_eq!(req.version, "1.0");
    assert_eq!(req.algorithm, "SHA-1");
    assert_eq!(req.vsid, 1);
    assert!(!req.is_sample);
    assert_eq!(req.testgroups.len(), 1);
    assert_eq!(req.get_result().unwrap_err().code, -EINVAL);
    req.testgroups[0].tests[0]
        .set_result(vec![0x0a, 0x0b, 0x0c, 0x0d, 0x0e, 0x0f])
        .unwrap();
    assert_eq!(
        req.dump_result().unwrap(),
        "[{\"acvVersion\":\"1.0\"},{\"vsId\":1,\"algorithm\":\"SHA-1\",\"revision\":\"1.0\",\"isSample\":false,\"testGroups\":[{\"tgId\":1,\"tests\":[{\"tcId\":10,\"md\":\"0A0B0C0D0E0F\"}]}]}]"
    );
}

#[test]
fn request_rejects_bad_documents() {
    let e = AcvpRequest::<SecureHash>::new("not json at all").unwrap_err();
    assert_eq!(e.code, -EINVAL);
    let e = AcvpRequest::<SecureHash>::new(r#"{"algorithm":"SHA-1"}"#).unwrap_err();
    assert_eq!(e.code, -EINVAL);
    let e = AcvpRequest::<SecureHash>::new(r#"[{"algorithm":"NOPE","revision":"1.0","vsId":1,"isSample":false}]"#)
        .unwrap_err();
    assert_eq!(e.code, -EINVAL);
    let e = AcvpRequest::<SecureHash>::new(r#"[{"algorithm":"SHA-1","revision":"1.0","vsId":1}]"#)
        .unwrap_err();
    assert_eq!(e.code, -EINVAL);
}

#[test]
fn request_echoes_raw_document() {
    let doc = r#"[{"acvVersion":"1.0"}]"#;
    let req = AcvpRequest::<SecureHash>::new(doc).unwrap();
    assert_eq!(req.dump(), "[{\"acvVersion\":\"1.0\"}]");
    assert_eq!(req.version, "1.0");
}

#[test]
fn request_last_writer_wins() {
    // A second non-version entry overwrites the metadata while the test
    // groups of all entries accumulate in order.
    let doc = r#"[{"algorithm":"SHA-1","revision":"1.0","vsId":1,"isSample":false,"testGroups":[{"tgId":1,"testType":"AFT","tests":[{"tcId":1,"msg":"aa"}]}]},{"algorithm":"SHA-256","revision":"2.0","vsId":2,"isSample":true,"testGroups":[{"tgId":9,"testType":"AFT","tests":[]}]}]"#;
    let req = AcvpRequest::<SecureHash>::new(doc).unwrap();
    assert_eq!(req.algorithm, "SHA-256");
    assert_eq!(req.revision, "2.0");
    assert_eq!(req.vsid, 2);
    assert!(req.is_sample);
    assert_eq!(req.testgroups.len(), 2);
    assert_eq!(req.testgroups[0].tgid, 1);
    assert_eq!(req.testgroups[1].tgid, 9);
    assert_eq!(req.testgroups[0].tests[0].tgdata.algorithm, "SHA-1");
}

#[test]
fn group_without_tests_array_is_empty() {
    let g = AcvpTestGroup::<SecureHash>::new("SHA-1", r#"{"tgId":3,"testType":"MCT"}"#).unwrap();
    assert_eq!(g.tgid, 3);
    assert!(g.tests.is_empty());
    assert_eq!(g.dump_result().unwrap(), "{\"tgId\":3,\"tests\":[]}");
}

#[test]
fn group_dump_and_pretty_echo() {
    let tgjson = r#"{"tgId":1,"testType":"AFT","tests":[]}"#;
    let g = AcvpTestGroup::<SecureHash>::new("SHA-1", tgjson).unwrap();
    assert_eq!(g.dump(), "{\"tgId\":1,\"testType\":\"AFT\",\"tests\":[]}");
    let pretty = g.pretty();
    assert!(pretty.contains("\"tgId\": 1"));
    assert!(pretty.contains('\n'));
}
