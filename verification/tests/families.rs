use acvp_parser::blkcipher::{BlkCipherMCTOutput, BlockCipher};
use acvp_parser::drbg::{Drbg, DrbgMode};
use acvp_parser::hash::SecureHash;
use acvp_parser::jsonval::JsonVal;
use acvp_parser::msgauth::{MsgAuth, MsgAuthOutput};
use acvp_parser::parser::{TestCase, TestGroupData, TestResult};
use acvp_parser::util::{Direction, IVMode, TestType};
use acvp_parser::EINVAL;

fn group_data(algorithm: &str, direction: Direction) -> TestGroupData {
    TestGroupData {
        algorithm: algorithm.to_string(),
        test_type: TestType::AFT,
        taglen: 0,
        payload_len: 0,
        ivmode: IVMode::Nil,
        ivlen: 0,
        direction,
        drbgmode: DrbgMode::Nil,
        prediction_resistance: false,
        reseed: false,
        der_func: false,
        returned_bits_len: 0,
    }
}

fn str_field<'a>(v: &'a JsonVal, key: &str) -> &'a str {
    match v.obj_get(key) {
        Some(JsonVal::Str(s)) => s.as_str(),
        other => panic!("field {} is not a string: {:?}", key, other),
    }
}

#[test]
fn hash_decode_and_result() {
    let tg = group_data("SHA-1", Direction::Nil);
    let mut tc = SecureHash::new(r#"{"tcId":3,"msg":"00ff"}"#, &tg).unwrap();
    assert_eq!(tc.tcid, 3);
    assert_eq!(tc.msg, vec![0x00, 0xff]);
    // Reading before a result was set always fails with the unset error.
    assert_eq!(tc.get_result().unwrap_err().code, -EINVAL);
    assert_eq!(tc.dump_result().unwrap_err().code, -EINVAL);
    tc.set_result(vec![0x0a, 0x0b]).unwrap();
    // After setting, every read yields the same logical value.
    let r1 = tc.get_result().unwrap();
    let r2 = tc.get_result().unwrap();
    assert_eq!(r1.dump(), r2.dump());
    assert_eq!(tc.dump_result().unwrap(), "{\"tcId\":3,\"md\":\"0A0B\"}");
}

#[test]
fn hash_mct_result_order() {
    let tg = group_data("SHA-256", Direction::Nil);
    let mut tc = SecureHash::new(r#"{"tcId":1,"msg":"ab"}"#, &tg).unwrap();
    tc.set_result(vec![vec![0x01], vec![0x02], vec![0x03]]).unwrap();
    assert_eq!(
        tc.dump_result().unwrap(),
        "{\"tcId\":1,\"resultsArray\":[{\"md\":\"01\"},{\"md\":\"02\"},{\"md\":\"03\"}]}"
    );
}

#[test]
fn hash_decode_rejects_missing_msg() {
    let tg = group_data("SHA-1", Direction::Nil);
    let e = SecureHash::new(r#"{"tcId":3}"#, &tg).unwrap_err();
    assert_eq!(e.code, -EINVAL);
    let e = SecureHash::new(r#"{"msg":"00"}"#, &tg).unwrap_err();
    assert_eq!(e.code, -EINVAL);
    let e = SecureHash::new("not json", &tg).unwrap_err();
    assert_eq!(e.code, -EINVAL);
}

#[test]
fn block_cipher_triple_key_concatenation() {
    let tg = group_data("ACVP-TDES-CBC", Direction::Encrypt);
    let tc = BlockCipher::new(
        r#"{"tcId":1,"key1":"01","key2":"02","key3":"03","pt":"00"}"#,
        &tg,
    )
    .unwrap();
    assert_eq!(tc.key, vec![0x01, 0x02, 0x03]);
    assert_eq!(tc.key1, vec![0x01]);
    assert_eq!(tc.key2, vec![0x02]);
    assert_eq!(tc.key3, vec![0x03]);
    assert_eq!(tc.input, vec![0x00]);
}

#[test]
fn block_cipher_single_key_and_iv() {
    let tg = group_data("ACVP-AES-CBC", Direction::Decrypt);
    let tc = BlockCipher::new(r#"{"tcId":2,"key":"0102","iv":"aa","ct":"bb"}"#, &tg).unwrap();
    assert_eq!(tc.key, vec![0x01, 0x02]);
    assert!(tc.key1.is_empty());
    assert_eq!(tc.iv, vec![0xaa]);
    assert_eq!(tc.input, vec![0xbb]);
}

#[test]
fn block_cipher_rejects_bad_direction() {
    let tg = group_data("ACVP-AES-CBC", Direction::Nil);
    let e = BlockCipher::new(r#"{"tcId":1,"key":"01","pt":"00"}"#, &tg).unwrap_err();
    assert_eq!(e.code, -EINVAL);
}

#[test]
fn block_cipher_aft_result_field_by_direction() {
    let tg = group_data("ACVP-AES-CBC", Direction::Decrypt);
    let mut tc = BlockCipher::new(r#"{"tcId":1,"key":"01","ct":"bb"}"#, &tg).unwrap();
    tc.set_result(vec![0xcd]).unwrap();
    assert_eq!(tc.dump_result().unwrap(), "{\"tcId\":1,\"pt\":\"CD\"}");
    let tg = group_data("ACVP-AES-CBC", Direction::Encrypt);
    let mut tc = BlockCipher::new(r#"{"tcId":1,"key":"01","pt":"bb"}"#, &tg).unwrap();
    tc.set_result(vec![0xcd]).unwrap();
    assert_eq!(tc.dump_result().unwrap(), "{\"tcId\":1,\"ct\":\"CD\"}");
}

#[test]
fn block_cipher_mct_aes_entries() {
    let tg = group_data("ACVP-AES-CBC", Direction::Encrypt);
    let mut tc = BlockCipher::new(r#"{"tcId":7,"key":"01","pt":"bb"}"#, &tg).unwrap();
    let outs = vec![
        BlkCipherMCTOutput::new_aes(vec![0x01], vec![0x10], vec![0x20], vec![0x30]),
        BlkCipherMCTOutput::new_aes(vec![0x02], vec![], vec![0x21], vec![0x31]),
        BlkCipherMCTOutput::new_aes(vec![0x03], vec![0x12], vec![0x22], vec![0x32]),
    ];
    tc.set_mct_result(outs).unwrap();
    let res = tc.get_result().unwrap();
    let arr = match res.obj_get("resultsArray") {
        Some(JsonVal::Arr(a)) => a,
        other => panic!("resultsArray missing: {:?}", other),
    };
    // Exactly one entry per iteration, in input order.
    assert_eq!(arr.len(), 3);
    assert_eq!(str_field(&arr[0], "key"), "01");
    assert_eq!(str_field(&arr[1], "key"), "02");
    assert_eq!(str_field(&arr[2], "key"), "03");
    // AES names carry `key`, never the three-part fields.
    for entry in arr {
        assert!(entry.has_key("key"));
        assert!(!entry.has_key("key1"));
        assert!(!entry.has_key("key2"));
        assert!(!entry.has_key("key3"));
    }
    // Encrypt: `pt` echoes the iteration input, `ct` its output.
    assert_eq!(str_field(&arr[0], "pt"), "20");
    assert_eq!(str_field(&arr[0], "ct"), "30");
    // The IV appears only when non-empty.
    assert!(arr[0].has_key("iv"));
    assert!(!arr[1].has_key("iv"));
}

#[test]
fn block_cipher_mct_tdes_entries() {
    let tg = group_data("ACVP-TDES-CBC", Direction::Decrypt);
    let mut tc = BlockCipher::new(
        r#"{"tcId":8,"key1":"01","key2":"02","key3":"03","ct":"bb"}"#,
        &tg,
    )
    .unwrap();
    let outs = vec![
        BlkCipherMCTOutput::new_tdes(
            vec![0x01],
            vec![0x02],
            vec![0x03],
            vec![],
            vec![0x20],
            vec![0x30],
        ),
        BlkCipherMCTOutput::new_tdes(
            vec![0x04],
            vec![0x05],
            vec![0x06],
            vec![],
            vec![0x21],
            vec![0x31],
        ),
    ];
    tc.set_mct_result(outs).unwrap();
    let res = tc.get_result().unwrap();
    let arr = match res.obj_get("resultsArray") {
        Some(JsonVal::Arr(a)) => a,
        other => panic!("resultsArray missing: {:?}", other),
    };
    assert_eq!(arr.len(), 2);
    for entry in arr {
        // TDES names carry the three key parts, never `key`.
        assert!(!entry.has_key("key"));
        assert!(entry.has_key("key1"));
        assert!(entry.has_key("key2"));
        assert!(entry.has_key("key3"));
    }
    // Decrypt: `pt` is the iteration output, `ct` its input.
    assert_eq!(str_field(&arr[0], "pt"), "30");
    assert_eq!(str_field(&arr[0], "ct"), "20");
    assert_eq!(str_field(&arr[1], "key1"), "04");
    assert_eq!(str_field(&arr[1], "key2"), "05");
    assert_eq!(str_field(&arr[1], "key3"), "06");
}

#[test]
fn msgauth_tag_split_whole_message() {
    // No tag field, decrypt, declared payload length zero: the entire
    // message buffer becomes the tag and the message becomes empty.
    let mut tg = group_data("ACVP-AES-CCM", Direction::Decrypt);
    tg.payload_len = 0;
    let tc = MsgAuth::new(r#"{"tcId":1,"msg":"AABBCC"}"#, &tg).unwrap();
    assert_eq!(tc.tag, vec![0xAA, 0xBB, 0xCC]);
    assert_eq!(tc.msg, Vec::<u8>::new());
}

#[test]
fn msgauth_tag_split_at_payload_len() {
    // No tag field, decrypt, declared payload length two: the message is
    // split at that length into message prefix and tag suffix.
    let mut tg = group_data("ACVP-AES-CCM", Direction::Decrypt);
    tg.payload_len = 2;
    let tc = MsgAuth::new(r#"{"tcId":1,"msg":"AABBCC"}"#, &tg).unwrap();
    assert_eq!(tc.msg, vec![0xAA, 0xBB]);
    assert_eq!(tc.tag, vec![0xCC]);
}

#[test]
fn msgauth_split_rejects_overlong_payload() {
    // A declared payload length past the end of the decoded message cannot
    // be honored and is rejected.
    let mut tg = group_data("ACVP-AES-CCM", Direction::Decrypt);
    tg.payload_len = 9;
    let e = MsgAuth::new(r#"{"tcId":1,"msg":"AABBCC"}"#, &tg).unwrap_err();
    assert_eq!(e.code, -EINVAL);
}

#[test]
fn block_cipher_without_keys_is_empty() {
    let tg = group_data("ACVP-AES-CBC", Direction::Encrypt);
    let tc = BlockCipher::new(r#"{"tcId":1,"pt":"00"}"#, &tg).unwrap();
    assert!(tc.key.is_empty());
    assert!(tc.key1.is_empty());
    assert!(tc.iv.is_empty());
}

#[test]
fn msgauth_no_split_with_tag_or_encrypt() {
    let mut tg = group_data("ACVP-AES-CCM", Direction::Decrypt);
    tg.payload_len = 0;
    let tc = MsgAuth::new(r#"{"tcId":1,"msg":"AABBCC","tag":"dd"}"#, &tg).unwrap();
    assert_eq!(tc.msg, vec![0xAA, 0xBB, 0xCC]);
    assert_eq!(tc.tag, vec![0xDD]);
    let tg = group_data("ACVP-AES-CCM", Direction::Encrypt);
    let tc = MsgAuth::new(r#"{"tcId":1,"msg":"AABBCC"}"#, &tg).unwrap();
    assert_eq!(tc.msg, vec![0xAA, 0xBB, 0xCC]);
    assert!(tc.tag.is_empty());
}

#[test]
fn msgauth_message_key_priority() {
    let tg = group_data("HMAC-SHA2-256", Direction::Generate);
    let tc = MsgAuth::new(r#"{"tcId":1,"message":"01","ct":"02"}"#, &tg).unwrap();
    assert_eq!(tc.msg, vec![0x01]);
    let tc = MsgAuth::new(r#"{"tcId":1,"pt":"03"}"#, &tg).unwrap();
    assert_eq!(tc.msg, vec![0x03]);
}

#[test]
fn msgauth_internal_iv_has_declared_length() {
    let mut tg = group_data("ACVP-AES-GCM", Direction::Encrypt);
    tg.ivmode = IVMode::Internal;
    tg.ivlen = 12;
    let tc = MsgAuth::new(r#"{"tcId":1,"pt":"00"}"#, &tg).unwrap();
    assert_eq!(tc.iv.len(), 12);
    assert_eq!(tc.ivmode, IVMode::Internal);
}

#[test]
fn msgauth_raw_result_gcm_always_pt() {
    // GCM emits `pt` whatever the direction.
    for dir in [Direction::Encrypt, Direction::Decrypt] {
        let tg = group_data("ACVP-AES-GCM", dir);
        let mut tc = MsgAuth::new(r#"{"tcId":1,"pt":"00","key":"01"}"#, &tg).unwrap();
        tc.set_result(vec![0xab]).unwrap();
        let res = tc.get_result().unwrap();
        assert_eq!(str_field(&res, "pt"), "AB");
        assert!(!res.has_key("ct"));
    }
    // CBC-style names fall back to the direction.
    let tg = group_data("ACVP-AES-CBC", Direction::Decrypt);
    let mut tc = MsgAuth::new(r#"{"tcId":1,"ct":"00"}"#, &tg).unwrap();
    tc.set_result(vec![0xab]).unwrap();
    assert_eq!(str_field(&tc.get_result().unwrap(), "pt"), "AB");
    let tg = group_data("ACVP-AES-CBC", Direction::Encrypt);
    let mut tc = MsgAuth::new(r#"{"tcId":1,"pt":"00"}"#, &tg).unwrap();
    tc.set_result(vec![0xab]).unwrap();
    assert_eq!(str_field(&tc.get_result().unwrap(), "ct"), "AB");
}

#[test]
fn msgauth_raw_result_field_selection() {
    let tg = group_data("HMAC-SHA2-256", Direction::Generate);
    let mut tc = MsgAuth::new(r#"{"tcId":1,"msg":"00"}"#, &tg).unwrap();
    tc.set_result(vec![0x01]).unwrap();
    assert_eq!(str_field(&tc.get_result().unwrap(), "mac"), "01");
    let tg = group_data("ACVP-AES-GMAC", Direction::Generate);
    let mut tc = MsgAuth::new(r#"{"tcId":1,"msg":"00"}"#, &tg).unwrap();
    tc.set_result(vec![0x02]).unwrap();
    assert_eq!(str_field(&tc.get_result().unwrap(), "tag"), "02");
}

#[test]
fn msgauth_raw_result_nil_direction_is_error() {
    let tg = group_data("ACVP-AES-XTS", Direction::Nil);
    let mut tc = MsgAuth::new(r#"{"tcId":1,"msg":"00"}"#, &tg).unwrap();
    let e = tc.set_result(vec![0x01]).unwrap_err();
    assert_eq!(e.code, -EINVAL);
    // The slot stays unset after the failed write.
    assert_eq!(tc.get_result().unwrap_err().code, -EINVAL);
}

#[test]
fn msgauth_structured_result_ccm_concatenates() {
    let tg = group_data("ACVP-AES-CCM", Direction::Encrypt);
    let mut tc = MsgAuth::new(r#"{"tcId":1,"pt":"00"}"#, &tg).unwrap();
    tc.set_result(MsgAuthOutput::new(vec![0x01, 0x02], vec![0x03])).unwrap();
    let res = tc.get_result().unwrap();
    assert_eq!(str_field(&res, "ct"), "010203");
    assert!(!res.has_key("tag"));
}

#[test]
fn msgauth_structured_result_separate_tag() {
    let tg = group_data("ACVP-AES-GCM", Direction::Encrypt);
    let mut tc = MsgAuth::new(r#"{"tcId":1,"pt":"00"}"#, &tg).unwrap();
    tc.set_result(MsgAuthOutput::new(vec![0x01, 0x02], vec![0x03])).unwrap();
    let res = tc.get_result().unwrap();
    assert_eq!(str_field(&res, "ct"), "0102");
    assert_eq!(str_field(&res, "tag"), "03");
}

#[test]
fn msgauth_bool_result() {
    let tg = group_data("ACVP-AES-GCM", Direction::Verify);
    let mut tc = MsgAuth::new(r#"{"tcId":9,"msg":"00"}"#, &tg).unwrap();
    tc.set_result(false).unwrap();
    assert_eq!(tc.dump_result().unwrap(), "{\"tcId\":9,\"testPassed\":false}");
}

#[test]
fn drbg_decode_and_result() {
    let tg = group_data("ctrDRBG", Direction::Nil);
    let mut tc = Drbg::new(
        r#"{"tcId":4,"entropyInput":"01","nonce":"02","persoString":"","otherInput":[{"intendedUse":"generate","additionalInput":"03","entropyInput":"04"}]}"#,
        &tg,
    )
    .unwrap();
    assert_eq!(tc.entropy_input, vec![0x01]);
    assert_eq!(tc.nonce, vec![0x02]);
    assert!(tc.perso_string.is_empty());
    assert_eq!(tc.other_input.len(), 1);
    assert_eq!(tc.other_input[0].iuse, "generate");
    assert_eq!(tc.other_input[0].addtl_input, vec![0x03]);
    assert_eq!(tc.other_input[0].entropy_input, vec![0x04]);
    tc.set_result(vec![0xaa, 0xbb]).unwrap();
    assert_eq!(tc.dump_result().unwrap(), "{\"tcId\":4,\"returnedBits\":\"AABB\"}");
}

#[test]
fn drbg_rejects_non_array_other_input() {
    let tg = group_data("ctrDRBG", Direction::Nil);
    let e = Drbg::new(
        r#"{"tcId":4,"entropyInput":"01","nonce":"02","persoString":"","otherInput":{}}"#,
        &tg,
    )
    .unwrap_err();
    assert_eq!(e.code, -EINVAL);
    let e = Drbg::new(r#"{"tcId":4,"entropyInput":"01","nonce":"02","persoString":""}"#, &tg)
        .unwrap_err();
    assert_eq!(e.code, -EINVAL);
}
