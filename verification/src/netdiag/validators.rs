//! Validators for caller-supplied argument tokens.
//!
//! Every argument that a caller controls (interface, unit, target, MAC)
//! reaches a command only after it has passed one of these. A token cannot
//! hold shell metacharacters, and it cannot begin with `-`, which the command
//! would read as one of its options.

use vstd::prelude::*;
use vstd::string::*;
use vstd::utf8::*;

use crate::errors::{NetdiagError, NetdiagErrorView};
use crate::text::{clip_bytes, split, to_chars};

verus! {

/// The longest token, in bytes of UTF-8. Every token that is accepted is ASCII,
/// and so has as many characters as bytes.
pub const MAX_TOKEN_BYTES: usize = 128;

/// ASCII letters and digits.
pub open spec fn is_ascii_alphanumeric(c: char) -> bool {
    ||| '0' <= c <= '9'
    ||| 'A' <= c <= 'Z'
    ||| 'a' <= c <= 'z'
}

/// The characters that every token may hold.
pub open spec fn is_token_char(c: char) -> bool {
    is_ascii_alphanumeric(c) || c == '.' || c == ':' || c == '-' || c == '_' || c == '/'
}

/// ASCII hexadecimal digits, in either case.
pub open spec fn is_hex_digit(c: char) -> bool {
    ||| '0' <= c <= '9'
    ||| 'A' <= c <= 'F'
    ||| 'a' <= c <= 'f'
}

/// What is wrong with `value` as a token whose characters may also be those
/// in `extra`; `None` if it is accepted.
pub open spec fn token_flaw(value: Seq<char>, extra: Seq<char>) -> Option<Seq<char>> {
    if value.len() == 0 || encode_utf8(value).len() > MAX_TOKEN_BYTES {
        Some("must be non-empty and <= 128 chars"@)
    } else if value[0] == '-' {
        Some("must not begin with '-'"@)
    } else if exists|i: int|
        0 <= i < value.len() && !is_token_char(#[trigger] value[i]) && !extra.contains(value[i]) {
        Some("contains unsupported characters"@)
    } else {
        None
    }
}

/// The error for `value` as the token parameter `name`; `None` if it is
/// accepted.
pub open spec fn token_error(name: Seq<char>, value: Seq<char>, extra: Seq<char>) -> Option<
    NetdiagErrorView,
> {
    match token_flaw(value, extra) {
        Some(reason) => Some(NetdiagErrorView::InvalidParam { name, reason }),
        None => None,
    }
}

/// The error for `value` as an interface name.
pub open spec fn interface_error(value: Seq<char>) -> Option<NetdiagErrorView> {
    token_error("interface"@, value, Seq::empty())
}

/// The error for `value` as a systemd unit name.
pub open spec fn unit_error(value: Seq<char>) -> Option<NetdiagErrorView> {
    token_error("unit"@, value, seq!['@'])
}

/// The error for `value` as an IP address or host name.
pub open spec fn target_error(value: Seq<char>) -> Option<NetdiagErrorView> {
    token_error("target"@, value, Seq::empty())
}

/// Two hexadecimal digits.
pub open spec fn is_octet(s: Seq<char>) -> bool {
    s.len() == 2 && is_hex_digit(s[0]) && is_hex_digit(s[1])
}

/// The form `aa:bb:cc:dd:ee:ff`, in either case.
pub open spec fn is_mac(value: Seq<char>) -> bool {
    let octets = crate::text::fields(value, ':');
    octets.len() == 6 && forall|i: int| 0 <= i < 6 ==> is_octet(#[trigger] octets[i])
}

/// The error for `value` as a MAC address.
pub open spec fn mac_error(value: Seq<char>) -> Option<NetdiagErrorView> {
    if is_mac(value) {
        None
    } else {
        Some(
            NetdiagErrorView::InvalidParam {
                name: "mac"@,
                reason: "must be in aa:bb:cc:dd:ee:ff form"@,
            },
        )
    }
}

fn invalid(name: &str, reason: &str) -> (e: NetdiagError)
    ensures
        e@ == (NetdiagErrorView::InvalidParam { name: name@, reason: reason@ }),
{
    NetdiagError::InvalidParam { name: name.to_owned(), reason: reason.to_owned() }
}

/// Validates an interface name.
pub fn validate_interface(value: &str) -> (r: Result<(), NetdiagError>)
    ensures
        crate::errors::failure(r) == interface_error(value@),
{
    validate_token("interface", value)
}

/// Validates a systemd unit name.
pub fn validate_unit(value: &str) -> (r: Result<(), NetdiagError>)
    ensures
        crate::errors::failure(r) == unit_error(value@),
{
    let extra: [char; 1] = ['@'];
    assert(extra@ =~= seq!['@']);
    validate_token_with_extra("unit", value, &extra)
}

/// Validates an IP address or host name.
pub fn validate_ip_or_host(value: &str) -> (r: Result<(), NetdiagError>)
    ensures
        crate::errors::failure(r) == target_error(value@),
{
    validate_token("target", value)
}

/// Validates a MAC address.
pub fn validate_mac(value: &str) -> (r: Result<(), NetdiagError>)
    ensures
        crate::errors::failure(r) == mac_error(value@),
{
    let parts: Vec<String> = split(value, ':');
    let ghost octets = crate::text::fields(value@, ':');
    assert(parts.deep_view().len() == parts@.len());
    let mut well_formed: bool = parts.len() == 6;
    let mut i: usize = 0;
    while well_formed && i < parts.len()
        invariant
            i <= parts@.len(),
            parts@.len() == octets.len(),
            parts.deep_view() == octets,
            octets == crate::text::fields(value@, ':'),
            well_formed ==> parts@.len() == 6,
            well_formed ==> forall|k: int| 0 <= k < i ==> is_octet(#[trigger] octets[k]),
            !well_formed ==> !is_mac(value@),
        decreases parts@.len() - i,
    {
        assert(octets[i as int] == parts@[i as int]@);
        let part: Vec<char> = to_chars(parts[i].as_str());
        if part.len() != 2 || !char_is_hex_digit(part[0]) || !char_is_hex_digit(part[1]) {
            assert(!is_octet(octets[i as int]));
            well_formed = false;
        }
        i = i + 1;
    }
    if !well_formed {
        return Err(invalid("mac", "must be in aa:bb:cc:dd:ee:ff form"));
    }
    Ok(())
}

fn char_is_hex_digit(c: char) -> (b: bool)
    ensures
        b == is_hex_digit(c),
{
    ('0' <= c && c <= '9') || ('A' <= c && c <= 'F') || ('a' <= c && c <= 'f')
}

/// Tests a character for [`is_token_char`].
pub fn char_is_token_char(c: char) -> (b: bool)
    ensures
        b == is_token_char(c),
{
    ('0' <= c && c <= '9') || ('A' <= c && c <= 'Z') || ('a' <= c && c <= 'z') || c == '.' || c
        == ':' || c == '-' || c == '_' || c == '/'
}

/// Validates the token parameter `name`.
pub fn validate_token(name: &str, value: &str) -> (r: Result<(), NetdiagError>)
    ensures
        crate::errors::failure(r) == token_error(name@, value@, Seq::empty()),
{
    let extra: [char; 0] = [];
    assert(extra@ =~= Seq::<char>::empty());
    validate_token_with_extra(name, value, &extra)
}

/// Validates the token parameter `name`, whose characters may also be those
/// in `extra_allowed`: non-empty, at most [`MAX_TOKEN_BYTES`] long, no leading
/// `-`, and only the characters of the class.
pub fn validate_token_with_extra(name: &str, value: &str, extra_allowed: &[char]) -> (r: Result<
    (),
    NetdiagError,
>)
    ensures
        crate::errors::failure(r) == token_error(name@, value@, extra_allowed@),
{
    let chars: Vec<char> = to_chars(value);
    if chars.len() == 0 || !clip_bytes(value, MAX_TOKEN_BYTES).1 {
        return Err(invalid(name, "must be non-empty and <= 128 chars"));
    }
    if chars[0] == '-' {
        return Err(invalid(name, "must not begin with '-'"));
    }
    let mut i: usize = 0;
    while i < chars.len()
        invariant
            chars@ == value@,
            0 < chars@.len(),
            encode_utf8(value@).len() <= MAX_TOKEN_BYTES,
            value@[0] != '-',
            i <= chars@.len(),
            forall|k: int|
                0 <= k < i ==> is_token_char(#[trigger] value@[k]) || extra_allowed@.contains(
                    value@[k],
                ),
        decreases chars@.len() - i,
    {
        let c: char = chars[i];
        if !char_is_token_char(c) && !holds_char(extra_allowed, c) {
            assert(!is_token_char(value@[i as int]) && !extra_allowed@.contains(value@[i as int]));
            return Err(invalid(name, "contains unsupported characters"));
        }
        i = i + 1;
    }
    Ok(())
}

fn holds_char(list: &[char], c: char) -> (b: bool)
    ensures
        b == list@.contains(c),
{
    let mut i: usize = 0;
    while i < list.len()
        invariant
            i <= list@.len(),
            forall|k: int| 0 <= k < i ==> list@[k] != c,
        decreases list@.len() - i,
    {
        if list[i] == c {
            assert(list@[i as int] == c);
            return true;
        }
        i = i + 1;
    }
    false
}

// ---- what the validators guarantee ----------------------------------------

/// A token that no command reads as an option and no shell as anything but a
/// word: it is not empty, does not begin with `-`, and holds only ASCII
/// letters, digits and `.`, `:`, `-`, `_`, `/`, `@`.
pub open spec fn is_clean(token: Seq<char>) -> bool {
    &&& token.len() > 0
    &&& token[0] != '-'
    &&& forall|i: int|
        0 <= i < token.len() ==> is_token_char(#[trigger] token[i]) || token[i] == '@'
}

/// Every character of `s` is the separator or stands in one of the fields.
proof fn lemma_field_chars(s: Seq<char>, sep: char, i: int)
    requires
        0 <= i < s.len(),
    ensures
        s[i] == sep || exists|k: int, j: int|
            0 <= k < crate::text::fields(s, sep).len() && 0 <= j < (
            #[trigger] crate::text::fields(s, sep)[k]).len() && s[i]
                == #[trigger] crate::text::fields(s, sep)[k][j],
    decreases s.len(),
{
    let less = s.drop_last();
    let before = crate::text::fields(less, sep);
    let all = crate::text::fields(s, sep);
    crate::text::lemma_fields_nonempty(less, sep);
    if s[i] != sep {
        if i == s.len() - 1 {
            let k = all.len() - 1;
            let j = all[k].len() - 1;
            assert(all[k][j] == s[i]);
        } else {
            lemma_field_chars(less, sep, i);
            let (k, j) = choose|k: int, j: int|
                0 <= k < before.len() && 0 <= j < (#[trigger] before[k]).len() && less[i]
                    == #[trigger] before[k][j];
            assert(all[k][j] == s[i]);
        }
    }
}

/// What a validator accepts is a clean token. An interface, unit or target
/// also has at most [`MAX_TOKEN_BYTES`] characters, and only a unit may hold
/// an `@`.
pub proof fn law_accepted_tokens_clean(value: Seq<char>)
    ensures
        interface_error(value) is None ==> is_clean(value) && value.len() <= MAX_TOKEN_BYTES
            && !value.contains('@'),
        target_error(value) is None ==> is_clean(value) && value.len() <= MAX_TOKEN_BYTES
            && !value.contains('@'),
        unit_error(value) is None ==> is_clean(value) && value.len() <= MAX_TOKEN_BYTES,
        mac_error(value) is None ==> is_clean(value) && !value.contains('@'),
{
    crate::text::lemma_encode_grows(value);
    if unit_error(value) is None {
        assert forall|i: int| 0 <= i < value.len() implies is_token_char(#[trigger] value[i])
            || value[i] == '@' by {
            assert(is_token_char(value[i]) || seq!['@'].contains(value[i]));
        }
    }
    if is_mac(value) {
        let octets = crate::text::fields(value, ':');
        assert forall|i: int| 0 <= i < value.len() implies is_hex_digit(#[trigger] value[i])
            || value[i] == ':' by {
            lemma_field_chars(value, ':', i);
            if value[i] != ':' {
                let (k, j) = choose|k: int, j: int|
                    0 <= k < octets.len() && 0 <= j < (#[trigger] octets[k]).len() && value[i]
                        == #[trigger] octets[k][j];
                assert(is_octet(octets[k]));
            }
        }
        assert(value.len() > 0);
        assert(is_hex_digit(value[0]) || value[0] == ':');
    }
}

} // verus!
