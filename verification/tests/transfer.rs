use nat_lab::transfer::{
    check_reply, echo, judge_reply, payload, timeout_message, ReplyError, RequestError,
    PAYLOAD_LEN,
};

#[test]
fn the_payload_is_one_mebibyte_of_a5() {
    let bytes = payload();
    assert_eq!(bytes.len(), 1024 * 1024);
    assert!(bytes.iter().all(|byte| *byte == 0xa5));
}

#[test]
fn an_echoed_payload_is_accepted() {
    let sent = payload();
    let reply = echo(sent.clone()).unwrap();
    assert_eq!(check_reply(&sent, &reply).unwrap().len(), 128);
    assert_eq!(
        check_reply(&sent, &reply),
        Ok("417d3961500ceb59335a6e7d9be849f4ca7c6bf36a7b4d38d76353c42873c4f63e1e9920bb4840f476d6ea9e3bd26d12500e36b8267f6d45dc39dafd77175b90".to_string())
    );
}

#[test]
fn a_reply_of_another_length_is_truncated() {
    let sent = payload();
    assert_eq!(check_reply(&sent, &vec![]), Err(ReplyError::Truncated));
    assert_eq!(check_reply(&sent, &vec![0xa5; PAYLOAD_LEN - 1]), Err(ReplyError::Truncated));
    assert_eq!(check_reply(&sent, &vec![0xa5; PAYLOAD_LEN + 1]), Err(ReplyError::Truncated));
}

#[test]
fn a_changed_reply_has_another_hash() {
    let sent = payload();
    let mut reply = payload();
    reply[PAYLOAD_LEN - 1] = 0xa4;
    assert_eq!(check_reply(&sent, &reply), Err(ReplyError::HashMismatch));
}

#[test]
fn the_length_is_judged_before_the_digest() {
    let zero = [0u8; 64];
    let mut mixed = [0u8; 64];
    mixed[0] = 0x0f;
    mixed[63] = 0xa0;
    assert_eq!(judge_reply(0, &mixed, &zero), Err(ReplyError::Truncated));
    assert_eq!(judge_reply(PAYLOAD_LEN, &mixed, &zero), Err(ReplyError::HashMismatch));
    let mut text = String::from("0f");
    for _ in 0..62 {
        text.push_str("00");
    }
    text.push_str("a0");
    assert_eq!(judge_reply(PAYLOAD_LEN, &mixed, &mixed), Ok(text));
}

#[test]
fn only_whole_payloads_are_echoed() {
    assert_eq!(echo(vec![]), Err(RequestError::Truncated));
    assert_eq!(echo(vec![0; PAYLOAD_LEN - 1]), Err(RequestError::Truncated));
    assert_eq!(echo(vec![7; PAYLOAD_LEN]), Ok(vec![7; PAYLOAD_LEN]));
}

#[test]
fn transfer_failures_are_named() {
    assert_eq!(ReplyError::Truncated.message(), "truncated payload");
    assert_eq!(ReplyError::HashMismatch.message(), "payload hash mismatch");
    assert_eq!(RequestError::Truncated.message(), "truncated request");
    assert_eq!(timeout_message(), "payload exchange timed out");
}
