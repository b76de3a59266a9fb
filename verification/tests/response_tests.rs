use scd40_monitor::reading::Reading;
use scd40_monitor::response::data_json;
use scd40_monitor::response::not_found_response;
use scd40_monitor::response::ok_response;
use scd40_monitor::response::push_centi;
use scd40_monitor::response::push_digits;

#[test]
fn digits_render_exactly() {
    let mut v: Vec<u8> = Vec::new();
    push_digits(&mut v, 0);
    assert_eq!(v, b"0".to_vec());
    v.clear();
    push_digits(&mut v, 815);
    assert_eq!(v, b"815".to_vec());
    v.clear();
    push_digits(&mut v, u64::MAX);
    assert_eq!(v, b"18446744073709551615".to_vec());
}

#[test]
fn centi_values_render_with_two_decimals() {
    let cases: Vec<(i32, &[u8])> = vec![
        (0, b"0.00"),
        (5, b"0.05"),
        (50, b"0.50"),
        (2140, b"21.40"),
        (4600, b"46.00"),
        (-450, b"-4.50"),
        (-5, b"-0.05"),
        (i32::MAX, b"21474836.47"),
        (i32::MIN, b"-21474836.48"),
    ];
    for (c, expected) in cases {
        let mut v: Vec<u8> = Vec::new();
        push_centi(&mut v, c);
        assert_eq!(v, expected.to_vec(), "rendering {}", c);
    }
}

#[test]
fn data_payload_serializes_all_three_fields() {
    let payload = data_json(Reading::new(815, 2140, 4600));
    assert_eq!(
        payload,
        br#"[["co2ppm",815],["temperature",21.40],["humidity",46.00]]"#.to_vec()
    );
}

#[test]
fn data_payload_for_sentinel_is_all_zero() {
    let payload = data_json(Reading::sentinel());
    assert_eq!(
        payload,
        br#"[["co2ppm",0],["temperature",0.00],["humidity",0.00]]"#.to_vec()
    );
}

#[test]
fn ok_response_frames_status_type_and_length() {
    let resp = ok_response("text/plain", b"hi");
    let expected = b"HTTP/1.1 200 OK\r\nContent-Type: text/plain\r\nContent-Length: 2\r\n\r\nhi";
    assert_eq!(resp, expected.to_vec());
}

#[test]
fn not_found_response_is_empty_404() {
    assert_eq!(
        not_found_response(),
        b"HTTP/1.1 404 Not Found\r\nContent-Length: 0\r\n\r\n".to_vec()
    );
}
