use telemetry_chart::telegram::{message_url, request_outcome, url_encode, SendError};

#[test]
fn unreserved_text_passes_through() {
    assert_eq!(url_encode("AZaz09-_.~"), "AZaz09-_.~");
    assert_eq!(url_encode(""), "");
}

#[test]
fn spaces_become_plus() {
    assert_eq!(url_encode("Hello from ESP32 using Embedded Rust!"),
        "Hello+from+ESP32+using+Embedded+Rust%21");
}

#[test]
fn reserved_bytes_are_percent_escaped() {
    assert_eq!(url_encode("100%"), "100%25");
    assert_eq!(url_encode("a/b?c=d"), "a%2Fb%3Fc%3Dd");
    // a character above ASCII keeps only its low byte, as the encoder
    // casts the character to one byte
    assert_eq!(url_encode("é"), "%E9");
    assert_eq!(url_encode("€"), "%AC");
}

#[test]
fn url_carries_token_chat_and_encoded_text() {
    let url = message_url("123:ABC", "42", "hi there");
    assert_eq!(url,
        "https://api.telegram.org/bot123:ABC/sendMessage?chat_id=42&text=hi+there");
}

#[test]
fn success_needs_transport_ok_and_2xx() {
    assert_eq!(request_outcome(0, 200), Ok(()));
    assert_eq!(request_outcome(0, 299), Ok(()));
    assert_eq!(request_outcome(0, 199), Err(SendError::HttpStatus(199)));
    assert_eq!(request_outcome(0, 300), Err(SendError::HttpStatus(300)));
    assert_eq!(request_outcome(0, 404), Err(SendError::HttpStatus(404)));
    assert_eq!(request_outcome(-1, 200), Err(SendError::RequestFailed(-1)));
    assert_eq!(request_outcome(257, 0), Err(SendError::RequestFailed(257)));
}
