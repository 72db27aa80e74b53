use acvp_parser::hexcodec::{hex2bin, hex_encode_upper};
use acvp_parser::jsonval::JsonVal;
use acvp_parser::util::{
    get_acvp_bool, get_acvp_str, get_acvp_u32, get_algorithm_type, str_lookup, AcvpAlgorithm,
    Direction, IVMode, TestType,
};
use acvp_parser::drbg::DrbgMode;
use acvp_parser::EINVAL;

#[test]
fn hex_decode_exact() {
    let b = hex2bin("AABBCC").expect("valid hex");
    assert_eq!(b, vec![0xAA, 0xBB, 0xCC]);
    let b = hex2bin("aabbcc").expect("case-insensitive");
    assert_eq!(b, vec![0xAA, 0xBB, 0xCC]);
    let empty = hex2bin("").expect("empty is valid");
    assert_eq!(empty, Vec::<u8>::new());
}

#[test]
fn hex_decode_rejects_odd_length() {
    let e = hex2bin("ABC").unwrap_err();
    assert_eq!(e.code, -EINVAL);
}

#[test]
fn hex_decode_rejects_non_hex() {
    let e = hex2bin("zz").unwrap_err();
    assert_eq!(e.code, -EINVAL);
}

#[test]
fn hex_encode_uppercase() {
    assert_eq!(hex_encode_upper(&vec![0xab, 0x01, 0xff]), "AB01FF");
    assert_eq!(hex_encode_upper(&vec![]), "");
}

#[test]
fn hex_round_trip_case_normalized() {
    // Decoding, re-encoding in uppercase, and decoding again yields the
    // same bytes as the first decode.
    let h = "deadBEEF00";
    let first = hex2bin(h).unwrap();
    let encoded = hex_encode_upper(&first);
    assert_eq!(encoded, "DEADBEEF00");
    let second = hex2bin(&encoded).unwrap();
    assert_eq!(first, second);
}

#[test]
fn classify_known_algorithms() {
    assert_eq!(AcvpAlgorithm::alg_type("SHA-256").unwrap(), AcvpAlgorithm::Hash);
    assert_eq!(AcvpAlgorithm::alg_type("HMAC-SHA2-256").unwrap(), AcvpAlgorithm::MsgAuth);
    // The MAC table wins over the block-cipher table for GCM.
    assert_eq!(AcvpAlgorithm::alg_type("ACVP-AES-GCM").unwrap(), AcvpAlgorithm::MsgAuth);
    assert_eq!(AcvpAlgorithm::alg_type("ACVP-AES-CBC").unwrap(), AcvpAlgorithm::BlockCipher);
    assert_eq!(AcvpAlgorithm::alg_type("ctrDRBG").unwrap(), AcvpAlgorithm::Rng);
}

#[test]
fn classify_unknown_algorithm_is_error() {
    let e = AcvpAlgorithm::alg_type("RSA-PSS").unwrap_err();
    assert_eq!(e.code, -EINVAL);
    let e = AcvpAlgorithm::alg_type("").unwrap_err();
    assert_eq!(e.code, -EINVAL);
}

#[test]
fn str_lookup_finds_members() {
    let names = ["alpha", "beta", "gamma"];
    assert!(str_lookup("beta", &names));
    assert!(!str_lookup("delta", &names));
    assert!(!str_lookup("beta", &[]));
}

#[test]
fn enum_literals_parse() {
    assert_eq!(TestType::from_string("AFT").unwrap(), TestType::AFT);
    assert_eq!(TestType::from_string("CTR").unwrap(), TestType::CTR);
    assert_eq!(TestType::from_string("MCT").unwrap(), TestType::MCT);
    assert_eq!(TestType::from_string("LDT").unwrap(), TestType::LDT);
    assert_eq!(TestType::from_string("XYZ").unwrap_err().code, -EINVAL);
    assert_eq!(Direction::from_string("encrypt").unwrap(), Direction::Encrypt);
    assert_eq!(Direction::from_string("decrypt").unwrap(), Direction::Decrypt);
    assert_eq!(Direction::from_string("gen").unwrap(), Direction::Generate);
    assert_eq!(Direction::from_string("ver").unwrap(), Direction::Verify);
    assert_eq!(Direction::from_string("noop").unwrap_err().code, -EINVAL);
    assert_eq!(IVMode::from_string("internal").unwrap(), IVMode::Internal);
    assert_eq!(IVMode::from_string("external").unwrap(), IVMode::External);
    assert_eq!(IVMode::from_string("none").unwrap_err().code, -EINVAL);
    assert_eq!(DrbgMode::from_str("SHA2-256").unwrap(), DrbgMode::SHA256);
    assert_eq!(DrbgMode::from_str("AES-256").unwrap(), DrbgMode::AES256);
    assert_eq!(DrbgMode::from_str("MD5").unwrap_err().code, -EINVAL);
}

#[test]
fn typed_field_getters() {
    let obj = JsonVal::Obj(vec![
        ("name".to_string(), JsonVal::Str("SHA-1".to_string())),
        ("count".to_string(), JsonVal::Num(7)),
        ("flag".to_string(), JsonVal::Bool(true)),
    ]);
    assert_eq!(get_acvp_str("name", &obj).unwrap(), "SHA-1");
    assert_eq!(get_acvp_u32("count", &obj).unwrap(), 7);
    assert!(get_acvp_bool("flag", &obj).unwrap());
    assert_eq!(get_acvp_str("missing", &obj).unwrap_err().code, -EINVAL);
    assert_eq!(get_acvp_u32("name", &obj).unwrap_err().code, -EINVAL);
    assert_eq!(get_acvp_bool("count", &obj).unwrap_err().code, -EINVAL);
}

#[test]
fn algorithm_type_of_document() {
    let doc = r#"[{"acvVersion":"1.0"},{"algorithm":"SHA-256","revision":"1.0","vsId":5,"isSample":true,"testGroups":[]}]"#;
    assert_eq!(get_algorithm_type(doc).unwrap(), AcvpAlgorithm::Hash);
    let bad = get_algorithm_type("this is not json").unwrap_err();
    assert_eq!(bad.code, -EINVAL);
    let none = get_algorithm_type(r#"[{"acvVersion":"1.0"}]"#).unwrap_err();
    assert_eq!(none.code, -EINVAL);
    let unknown = get_algorithm_type(r#"[{"algorithm":"RSA-PSS"}]"#).unwrap_err();
    assert_eq!(unknown.code, -EINVAL);
}

#[test]
fn json_dump_is_compact() {
    let obj = JsonVal::Obj(vec![
        ("a".to_string(), JsonVal::Num(1)),
        ("b".to_string(), JsonVal::Arr(vec![JsonVal::Bool(false), JsonVal::Null])),
        ("c".to_string(), JsonVal::Str("x\"y".to_string())),
    ]);
    assert_eq!(obj.dump(), "{\"a\":1,\"b\":[false,null],\"c\":\"x\\\"y\"}");
}

#[test]
fn error_describe_shows_code() {
    let e = acvp_parser::AcvpError { code: -EINVAL, message: "bad input".to_string() };
    assert_eq!(e.describe(), "bad input (-22)");
}
