use crate::error::TransferError;
use vstd::prelude::*;
use vstd::string::StrSliceExecFns;
use vstd::string::StringExecFns;
use vstd::utf8::{decode_utf8, encode_utf8, is_ascii_chars, valid_utf8};
use vstd::utf8::{encode_utf8_decode_utf8, encode_utf8_valid_utf8, is_ascii_chars_encode_utf8};

verus! {

/// Whether `c` may stand in an announced name: a letter or digit of ASCII,
/// a dot, an underscore or a hyphen.
pub open spec fn is_name_char(c: char) -> bool {
    ||| 'a' <= c <= 'z'
    ||| 'A' <= c <= 'Z'
    ||| '0' <= c <= '9'
    ||| c == '.'
    ||| c == '_'
    ||| c == '-'
}

/// Whether `name` may be trusted in a path: it is not empty and every
/// character of it is a name character.
pub open spec fn is_valid_name(name: Seq<char>) -> bool {
    &&& name.len() > 0
    &&& forall|i: int| 0 <= i < name.len() ==> is_name_char(#[trigger] name[i])
}

/// The text `filename:` that opens an announcement.
pub open spec fn announce_prefix() -> Seq<char> {
    seq!['f', 'i', 'l', 'e', 'n', 'a', 'm', 'e', ':']
}

/// The text `:filename` that closes an announcement.
pub open spec fn announce_suffix() -> Seq<char> {
    seq![':', 'f', 'i', 'l', 'e', 'n', 'a', 'm', 'e']
}

/// The announcement of `name`: `filename:<name>:filename`.
pub open spec fn announcement(name: Seq<char>) -> Seq<char> {
    announce_prefix() + name + announce_suffix()
}

/// What stands between the first nine and the last nine characters.
pub open spec fn announced_name(message: Seq<char>) -> Seq<char> {
    message.subrange(9, message.len() - 9)
}

/// Whether `message` is, from its first character to its last, the
/// announcement of a valid name.
pub open spec fn is_announcement(message: Seq<char>) -> bool {
    &&& message.len() >= 19
    &&& message.subrange(0, 9) == announce_prefix()
    &&& message.subrange(message.len() - 9, message.len() as int) == announce_suffix()
    &&& is_valid_name(announced_name(message))
}

/// The acknowledgment `OK` with which the receiver accepts an announcement.
pub open spec fn acknowledgment() -> Seq<char> {
    seq!['O', 'K']
}

/// The acknowledgment as it travels: the two bytes of `OK`.
pub open spec fn acknowledgment_bytes() -> Seq<u8> {
    seq![79u8, 75u8]
}

/// The answer with which the receiver turns an announcement down.
pub open spec fn rejection() -> Seq<char> {
    seq!['I', 'n', 'v', 'a', 'l', 'i', 'd', ' ', 'm', 'e', 's', 's', 'a', 'g', 'e']
}

/// Whether the byte `b` writes a name character.
pub fn is_name_byte(b: u8) -> (allowed: bool)
    ensures
        allowed == is_name_char(b as char),
{
    (97 <= b && b <= 122) || (65 <= b && b <= 90) || (48 <= b && b <= 57) || b == 46 || b == 95
        || b == 45
}

/// Checks an announced name against the pattern of allowed names.
pub fn check_name(name: &str) -> (valid: bool)
    ensures
        valid == is_valid_name(name@),
{
    if !name.is_ascii() {
        proof {
            if is_valid_name(name@) {
                assert forall|i: int| 0 <= i < name@.len() implies '\0' <= #[trigger] name@[i]
                    <= '\u{7f}' by {
                    assert(is_name_char(name@[i]));
                }
            }
        }
        return false;
    }
    let length: usize = name.unicode_len();
    if length == 0 {
        return false;
    }
    let mut at: usize = 0;
    while at < length
        invariant
            at <= length,
            length == name@.len(),
            name.is_ascii(),
            forall|i: int| 0 <= i < at ==> is_name_char(#[trigger] name@[i]),
        decreases length - at,
    {
        let b: u8 = name.get_ascii(at);
        assert(name@[at as int] == b as char);
        if !is_name_byte(b) {
            return false;
        }
        at = at + 1;
    }
    true
}

/// Composes the announcement of `name`, which the sender writes and flushes
/// as one message before anything else.
pub fn compose_announcement(name: &str) -> (message: String)
    ensures
        message@ == announcement(name@),
{
    proof {
        reveal_strlit("filename:");
        reveal_strlit(":filename");
    }
    let mut message = String::from_str("filename:");
    message.append(name);
    message.append(":filename");
    assert(message@ =~= announcement(name@));
    message
}

/// Reads an announcement: the name that it announces, or a validation error
/// where the message is anything but `filename:<name>:filename` with a valid
/// name. The whole message has to match, so a separator, a NUL or any other
/// character outside the pattern, anywhere in it, is turned down.
pub fn parse_announcement(message: &str) -> (result: Result<String, TransferError>)
    ensures
        match result {
            Ok(name) => is_announcement(message@) && name@ == announced_name(message@),
            Err(error) => !is_announcement(message@) && error == TransferError::Validation,
        },
{
    if !message.is_ascii() {
        proof {
            if is_announcement(message@) {
                lemma_announcement_is_ascii(message@);
            }
        }
        return Err(TransferError::Validation);
    }
    let length: usize = message.unicode_len();
    if length < 19 {
        return Err(TransferError::Validation);
    }
    proof {
        reveal_strlit("filename:");
        reveal_strlit(":filename");
    }
    let head = String::from_str(message.substring_ascii(0, 9));
    let tail = String::from_str(message.substring_ascii(length - 9, length));
    let opening = String::from_str("filename:");
    let closing = String::from_str(":filename");
    assert(opening@ =~= announce_prefix());
    assert(closing@ =~= announce_suffix());
    if head != opening || tail != closing {
        return Err(TransferError::Validation);
    }
    let middle: &str = message.substring_ascii(9, length - 9);
    if !check_name(middle) {
        return Err(TransferError::Validation);
    }
    Ok(String::from_str(middle))
}

/// The name that the bytes of one message announce: the bytes have to be
/// UTF-8 and the text that they encode an announcement.
pub open spec fn announced_on_wire(bytes: Seq<u8>) -> Option<Seq<char>> {
    if valid_utf8(bytes) && is_announcement(decode_utf8(bytes)) {
        Some(announced_name(decode_utf8(bytes)))
    } else {
        None
    }
}

/// Decodes bytes with `String::from_utf8` of the standard library.
///
/// Trusted, not proved: that it gives the text which the bytes encode where
/// they are valid UTF-8, and nothing where they are not.
#[verifier::external_body]
fn text_of_bytes(bytes: Vec<u8>) -> (text: Option<String>)
    ensures
        text is Some <==> valid_utf8(bytes@),
        text matches Some(t) ==> t@ == decode_utf8(bytes@),
{
    String::from_utf8(bytes).ok()
}

/// Turns the bytes of one message into text; bytes that are not UTF-8 are
/// a validation error.
pub fn decode_message(bytes: Vec<u8>) -> (result: Result<String, TransferError>)
    ensures
        match result {
            Ok(text) => valid_utf8(bytes@) && text@ == decode_utf8(bytes@),
            Err(error) => !valid_utf8(bytes@) && error == TransferError::Validation,
        },
{
    match text_of_bytes(bytes) {
        Some(text) => Ok(text),
        None => Err(TransferError::Validation),
    }
}

/// Reads the announcement out of the bytes of one message.
pub fn read_announcement(bytes: Vec<u8>) -> (result: Result<String, TransferError>)
    ensures
        match result {
            Ok(name) => announced_on_wire(bytes@) == Some(name@),
            Err(error) => announced_on_wire(bytes@) is None && error == TransferError::Validation,
        },
{
    match decode_message(bytes) {
        Ok(text) => parse_announcement(text.as_str()),
        Err(error) => Err(error),
    }
}

/// Whether a response is exactly the acknowledgment.
pub fn is_acknowledgment(response: &[u8]) -> (accepted: bool)
    ensures
        accepted == (response@ == acknowledgment_bytes()),
{
    let accepted = response.len() == 2 && response[0] == 79 && response[1] == 75;
    assert(accepted == (response@ =~= acknowledgment_bytes()));
    accepted
}

/// The acknowledgment as a message to send.
pub fn acknowledgment_message() -> (message: String)
    ensures
        message@ == acknowledgment(),
{
    proof {
        reveal_strlit("OK");
    }
    let message = String::from_str("OK");
    assert(message@ =~= acknowledgment());
    message
}

/// The rejection as a message to send.
pub fn rejection_message() -> (message: String)
    ensures
        message@ == rejection(),
{
    proof {
        reveal_strlit("Invalid message");
    }
    let message = String::from_str("Invalid message");
    assert(message@ =~= rejection());
    message
}

/// On the wire the acknowledgment is the two bytes of `OK`, and the
/// rejection is something else.
pub proof fn lemma_answers_on_wire()
    ensures
        encode_utf8(acknowledgment()) == acknowledgment_bytes(),
        encode_utf8(rejection()) != acknowledgment_bytes(),
{
    assert(is_ascii_chars(acknowledgment()));
    assert(is_ascii_chars(rejection()));
    is_ascii_chars_encode_utf8(acknowledgment());
    is_ascii_chars_encode_utf8(rejection());
    assert(encode_utf8(acknowledgment()) =~= acknowledgment_bytes());
}

/// What the sender writes for a name is read by the receiver as that name
/// when the name is valid, and is turned down when it is not.
pub proof fn lemma_announcement_on_wire(name: Seq<char>)
    ensures
        announced_on_wire(encode_utf8(announcement(name))) == if is_valid_name(name) {
            Some(name)
        } else {
            None
        },
{
    encode_utf8_valid_utf8(announcement(name));
    encode_utf8_decode_utf8(announcement(name));
    lemma_announcement_round_trip(name);
}

/// An announcement holds ASCII only.
pub proof fn lemma_announcement_is_ascii(message: Seq<char>)
    requires
        is_announcement(message),
    ensures
        is_ascii_chars(message),
{
    let n = message.len() as int;
    assert forall|i: int| 0 <= i < n implies '\0' <= #[trigger] message[i] <= '\u{7f}' by {
        if i < 9 {
            assert(message[i] == message.subrange(0, 9)[i]);
        } else if i < n - 9 {
            assert(message[i] == announced_name(message)[i - 9]);
            assert(is_name_char(announced_name(message)[i - 9]));
        } else {
            assert(message[i] == message.subrange(n - 9, n)[i - (n - 9)]);
        }
    }
}

/// Composing and reading are inverse: the announcement of a name is read
/// back as that name, and it is an announcement exactly when the name is
/// valid.
pub proof fn lemma_announcement_round_trip(name: Seq<char>)
    ensures
        announced_name(announcement(name)) == name,
        is_announcement(announcement(name)) <==> is_valid_name(name),
{
    let m = announcement(name);
    assert(announced_name(m) =~= name);
    assert(m.subrange(0, 9) =~= announce_prefix());
    assert(m.subrange(m.len() - 9, m.len() as int) =~= announce_suffix());
}

/// Every announcement is the announcement of the name read from it, so no
/// two names share one and nothing else is accepted.
pub proof fn lemma_announcement_is_composed(message: Seq<char>)
    requires
        is_announcement(message),
    ensures
        message == announcement(announced_name(message)),
{
    let n = message.len() as int;
    assert(message =~= message.subrange(0, 9) + message.subrange(9, n - 9) + message.subrange(
        n - 9,
        n,
    ));
}

/// A name with any character outside the pattern, and the empty name, are
/// never accepted: not as a name, not in an announcement, not on the wire.
pub proof fn lemma_unsafe_name_is_rejected(name: Seq<char>)
    requires
        name.len() == 0 || exists|i: int| 0 <= i < name.len() && !is_name_char(#[trigger] name[i]),
    ensures
        !is_valid_name(name),
        !is_announcement(announcement(name)),
        announced_on_wire(encode_utf8(announcement(name))) is None,
{
    lemma_announcement_round_trip(name);
    lemma_announcement_on_wire(name);
}

/// A name that holds a slash, a backslash or a NUL byte is turned down before
/// any path is built from it.
pub proof fn lemma_traversal_is_rejected(name: Seq<char>)
    requires
        name.contains('/') || name.contains('\0') || name.contains('\\'),
    ensures
        !is_valid_name(name),
        !is_announcement(announcement(name)),
        announced_on_wire(encode_utf8(announcement(name))) is None,
{
    let bad = if name.contains('/') {
        '/'
    } else if name.contains('\0') {
        '\0'
    } else {
        '\\'
    };
    let at = choose|i: int| 0 <= i < name.len() && name[i] == bad;
    assert(!is_name_char(name[at]));
    lemma_unsafe_name_is_rejected(name);
}

/// A name that is accepted holds no path separator and no NUL byte.
pub proof fn lemma_accepted_name_is_plain(message: Seq<char>)
    requires
        is_announcement(message),
    ensures
        !announced_name(message).contains('/'),
        !announced_name(message).contains('\0'),
        !announced_name(message).contains('\\'),
        !announced_name(message).contains(':'),
{
    let name = announced_name(message);
    assert forall|c: char| name.contains(c) implies is_name_char(c) by {
        let i = choose|i: int| 0 <= i < name.len() && name[i] == c;
        assert(is_name_char(name[i]));
    }
}

} // verus!
