use hr_osc_bridge::osc::encode_connected;

fn expected(tag: u8) -> Vec<u8> {
    let mut bytes = b"/avatar/parameters/hr_connected".to_vec();
    bytes.push(0);
    bytes.extend_from_slice(&[b',', tag, 0, 0]);
    bytes
}

#[test]
fn connected_true_is_encoded() {
    assert_eq!(encode_connected(true), Ok(expected(b'T')));
}

#[test]
fn connected_false_is_encoded() {
    assert_eq!(encode_connected(false), Ok(expected(b'F')));
}
