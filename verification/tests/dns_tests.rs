use vrcbadge_core::dns::{build_response, MIN_DNS_QUERY_LEN};

/// A minimal query: id 0x1234, recursion desired, one question for the name
/// "a", type A, class IN.
fn one_question_query() -> Vec<u8> {
    let mut q = vec![
        0x12, 0x34, // transaction id
        0x01, 0x00, // flags: RD
        0x00, 0x01, // QDCOUNT = 1
        0x00, 0x00, // ANCOUNT
        0x00, 0x00, // NSCOUNT
        0x00, 0x00, // ARCOUNT
    ];
    q.extend_from_slice(&[1, b'a', 0]); // name: "a"
    q.extend_from_slice(&[0x00, 0x01]); // QTYPE = A
    q.extend_from_slice(&[0x00, 0x01]); // QCLASS = IN
    q
}

#[test]
fn answers_every_question_with_the_portal_address() {
    let query = one_question_query();
    assert!(query.len() >= MIN_DNS_QUERY_LEN);
    let resp = build_response(&query).expect("well-formed query");

    let mut expected = vec![
        0x12, 0x34, // id copied
        0x85, 0x00, // QR + AA + RD echoed, no error
        0x00, 0x01, // QDCOUNT
        0x00, 0x01, // ANCOUNT = QDCOUNT
        0x00, 0x00, // NSCOUNT
        0x00, 0x00, // ARCOUNT
    ];
    expected.extend_from_slice(&query[12..]); // question, verbatim
    expected.extend_from_slice(&[
        0xC0, 0x0C, // pointer to the first question name
        0x00, 0x01, // type A
        0x00, 0x01, // class IN
        0x00, 0x00, 0x00, 0x3C, // TTL 60s
        0x00, 0x04, // RDLENGTH
        192, 168, 4, 1, // the portal address
    ]);
    assert_eq!(resp, expected);
}

#[test]
fn recursion_desired_bit_is_echoed() {
    let mut query = one_question_query();
    query[2] = 0x00; // no RD
    let resp = build_response(&query).expect("well-formed query");
    assert_eq!(resp[2], 0x84);
}

#[test]
fn two_questions_get_two_answers() {
    let mut query = one_question_query();
    query[5] = 2; // QDCOUNT = 2
    query.extend_from_slice(&[1, b'b', 0, 0x00, 0x01, 0x00, 0x01]);
    let resp = build_response(&query).expect("well-formed query");
    assert_eq!(resp[7], 2); // ANCOUNT
    assert_eq!(resp.len(), 12 + (query.len() - 12) + 2 * 16);
    assert_eq!(&resp[resp.len() - 4..], &[192, 168, 4, 1]);
}

#[test]
fn compressed_name_is_skipped_in_two_bytes() {
    let mut query = one_question_query();
    query.truncate(12);
    query.extend_from_slice(&[0xC0, 0x0C]); // compression pointer as the name
    query.extend_from_slice(&[0x00, 0x01, 0x00, 0x01]);
    let resp = build_response(&query).expect("pointer name is well-formed");
    assert_eq!(resp[7], 1);
}

#[test]
fn short_query_is_rejected() {
    assert!(build_response(&[0x12, 0x34, 0x01, 0x00]).is_none());
    assert!(build_response(&[]).is_none());
}

#[test]
fn query_without_questions_is_rejected() {
    let mut query = one_question_query();
    query[5] = 0; // QDCOUNT = 0
    assert!(build_response(&query).is_none());
}

#[test]
fn truncated_question_is_rejected() {
    let mut query = one_question_query();
    query.truncate(12);
    query.extend_from_slice(&[5, b'a']); // label promises 5 bytes, has 1
    assert!(build_response(&query).is_none());
}

#[test]
fn question_running_past_the_end_is_rejected() {
    let mut query = one_question_query();
    query.truncate(query.len() - 2); // cut QCLASS
    assert!(build_response(&query).is_none());
}
