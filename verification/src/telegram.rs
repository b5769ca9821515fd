//! The one-shot notification sender's pure half: percent-encoding the
//! message, building the request URL, and classifying the performed
//! request.  The HTTP transport itself stays outside the library.

use vstd::prelude::*;
use vstd::string::StrSliceExecFns;
use vstd::string::StringExecFns;
use crate::text::push_char;

verus! {

/// The transport's success code for a performed request.
pub const TRANSPORT_OK: i32 = 0;

/// The characters that pass through percent-encoding unchanged: ASCII
/// letters, digits, and `- _ . ~`.
pub open spec fn is_unreserved(c: char) -> bool {
    let v = c as u32;
    (65 <= v && v <= 90) || (97 <= v && v <= 122) || (48 <= v && v <= 57) || v == 45 || v == 95
        || v == 46 || v == 126
}

/// Uppercase hex digit character for a value below 16.
pub open spec fn hex_digit_char(d: nat) -> char {
    if d < 10 {
        crate::text::digit_char(d)
    } else if d == 10 {
        'A'
    } else if d == 11 {
        'B'
    } else if d == 12 {
        'C'
    } else if d == 13 {
        'D'
    } else if d == 14 {
        'E'
    } else {
        'F'
    }
}

/// The encoding of one character: unreserved characters pass through,
/// a space becomes '+', and anything else becomes '%' and the two
/// uppercase hex digits of the character's low byte.
pub open spec fn encode_char(c: char) -> Seq<char> {
    if is_unreserved(c) {
        seq![c]
    } else if c == ' ' {
        seq!['+']
    } else {
        let b = (c as u32) as u8;
        seq!['%', hex_digit_char((b / 16) as nat), hex_digit_char((b % 16) as nat)]
    }
}

/// The whole encoded text, character by character.
pub open spec fn url_encode_text(s: Seq<char>) -> Seq<char>
    decreases s.len(),
{
    if s.len() == 0 {
        Seq::<char>::empty()
    } else {
        url_encode_text(s.drop_last()) + encode_char(s.last())
    }
}

fn unreserved(c: char) -> (b: bool)
    ensures
        b == is_unreserved(c),
{
    let v = c as u32;
    (65 <= v && v <= 90) || (97 <= v && v <= 122) || (48 <= v && v <= 57) || v == 45 || v == 95
        || v == 46 || v == 126
}

fn hex_digit(d: u8) -> (c: char)
    requires
        d < 16,
    ensures
        c == hex_digit_char(d as nat),
{
    match d {
        0 => '0',
        1 => '1',
        2 => '2',
        3 => '3',
        4 => '4',
        5 => '5',
        6 => '6',
        7 => '7',
        8 => '8',
        9 => '9',
        10 => 'A',
        11 => 'B',
        12 => 'C',
        13 => 'D',
        14 => 'E',
        _ => 'F',
    }
}

/// Percent-encodes a message for use as a URL query value.
pub fn url_encode(s: &str) -> (r: String)
    ensures
        r@ == url_encode_text(s@),
{
    let n = s.unicode_len();
    let mut r = String::new();
    let mut i: usize = 0;
    while i < n
        invariant
            i <= n,
            n == s@.len(),
            r@ == url_encode_text(s@.take(i as int)),
        decreases n - i,
    {
        let c = s.get_char(i);
        if unreserved(c) {
            push_char(&mut r, c);
        } else if c == ' ' {
            push_char(&mut r, '+');
        } else {
            let b = #[verifier::truncate] ((c as u32) as u8);
            push_char(&mut r, '%');
            push_char(&mut r, hex_digit(b / 16));
            push_char(&mut r, hex_digit(b % 16));
        }
        proof {
            assert(s@.take(i + 1).drop_last() =~= s@.take(i as int));
            assert(s@.take(i + 1).last() == s@[i as int]);
            assert(r@ =~= url_encode_text(s@.take(i + 1)));
        }
        i += 1;
    }
    proof {
        assert(s@.take(n as int) =~= s@);
    }
    r
}

/// Builds the request URL for one notification: the API base, the bot
/// token, the send command, the chat id, and the encoded message text.
pub fn message_url(bot_token: &str, chat_id: &str, message: &str) -> (r: String)
    ensures
        r@ == "https://api.telegram.org/bot"@ + bot_token@ + "/sendMessage?chat_id="@ + chat_id@
            + "&text="@ + url_encode_text(message@),
{
    let mut r = "https://api.telegram.org/bot".to_owned();
    r.append(bot_token);
    r.append("/sendMessage?chat_id=");
    r.append(chat_id);
    r.append("&text=");
    let encoded = url_encode(message);
    r.append(encoded.as_str());
    r
}

/// Why a performed notification request counts as failed.
#[derive(Clone, Copy, PartialEq, Eq, Structural, Debug)]
pub enum SendError {
    /// The transport reported a non-success error code.
    RequestFailed(i32),
    /// The request went through but the HTTP status was not 2xx.
    HttpStatus(i32),
}

/// Classifies a performed request: success means the transport
/// reported its success code and the HTTP status was in the 2xx range.
pub fn request_outcome(err_code: i32, status: i32) -> (r: Result<(), SendError>)
    ensures
        r is Ok <==> err_code == TRANSPORT_OK && 200 <= status && status < 300,
        err_code != TRANSPORT_OK ==> r == Result::<(), SendError>::Err(
            SendError::RequestFailed(err_code),
        ),
        err_code == TRANSPORT_OK && !(200 <= status && status < 300) ==> r == Result::<
            (),
            SendError,
        >::Err(SendError::HttpStatus(status)),
{
    if err_code != TRANSPORT_OK {
        Err(SendError::RequestFailed(err_code))
    } else if 200 <= status && status < 300 {
        Ok(())
    } else {
        Err(SendError::HttpStatus(status))
    }
}

} // verus!
