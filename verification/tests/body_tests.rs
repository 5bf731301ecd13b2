use http_tokio_router::BodyOwned;

#[test]
fn text_decodes_valid_utf8() {
    let body = BodyOwned::new("héllo".as_bytes().to_vec());
    assert_eq!(body.text().unwrap(), "héllo");
}

#[test]
fn text_rejects_invalid_utf8_with_status_400() {
    let body = BodyOwned::new(vec![0xff, 0xfe]);
    let err = body.text().unwrap_err();
    assert_eq!(err.status, 400);
}

#[test]
fn from_payload_refuses_an_empty_body() {
    let err = BodyOwned::from_payload(Vec::new()).unwrap_err();
    assert_eq!(err.status, 500);
    assert_eq!(err.message, "found empty body");
}

#[test]
fn from_payload_owns_a_non_empty_body() {
    let body = BodyOwned::from_payload(vec![b'h', b'i']).unwrap();
    assert_eq!(body.text().unwrap(), "hi");
}

#[test]
fn bytes_hands_out_the_same_content() {
    let body = BodyOwned::new(vec![1, 2, 3]);
    let buf = body.bytes();
    assert_eq!(buf.as_ref(), &[1u8, 2, 3]);
    assert_eq!(buf, bytes::Bytes::from(vec![1u8, 2, 3]));
}
