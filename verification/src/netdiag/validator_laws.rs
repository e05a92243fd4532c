//! What the validators accept and what they refuse, on every input.

use vstd::prelude::*;
use vstd::utf8::*;

use crate::commands as compact;
use crate::errors::NetdiagError;
use crate::netdiag::commands;
use crate::netdiag::validators;
use crate::text;

verus! {

/// ASCII letters and digits, and `.`, `:`, `-`, `_`, `/`.
pub open spec fn is_plain(c: char) -> bool {
    ||| 'a' <= c <= 'z'
    ||| 'A' <= c <= 'Z'
    ||| '0' <= c <= '9'
    ||| c == '.'
    ||| c == ':'
    ||| c == '-'
    ||| c == '_'
    ||| c == '/'
}

/// One to 128 characters, each of them plain or one of `also`.
pub open spec fn is_word(value: Seq<char>, also: Seq<char>) -> bool {
    &&& 1 <= value.len() <= 128
    &&& forall|i: int|
        0 <= i < value.len() ==> is_plain(#[trigger] value[i]) || also.contains(value[i])
}

/// A word that does not begin with `-`.
pub open spec fn is_safe_word(value: Seq<char>, also: Seq<char>) -> bool {
    is_word(value, also) && value[0] != '-'
}

/// Whether every character is an ASCII one.
pub open spec fn is_narrow(s: Seq<char>) -> bool {
    forall|i: int| 0 <= i < s.len() ==> '\0' <= #[trigger] s[i] <= '\u{7f}'
}

proof fn lemma_narrow_len(s: Seq<char>)
    requires
        is_narrow(s),
    ensures
        encode_utf8(s).len() == s.len(),
{
    assert(is_ascii_chars(s));
    is_ascii_chars_encode_utf8(s);
}

proof fn lemma_token(name: Seq<char>, value: Seq<char>, also: Seq<char>)
    requires
        is_narrow(also),
    ensures
        validators::token_error(name, value, also) is None <==> is_safe_word(value, also),
{
    text::lemma_encode_grows(value);
    if is_safe_word(value, also) {
        assert forall|i: int| 0 <= i < value.len() implies '\0'
            <= #[trigger] value[i] <= '\u{7f}' by {
            if also.contains(value[i]) {
                let k = choose|k: int| 0 <= k < also.len() && also[k] == value[i];
                assert('\0' <= also[k] <= '\u{7f}');
            }
        }
        lemma_narrow_len(value);
    }
}

/// A target is accepted if and only if it is a safe word; so are IPv4 and IPv6
/// addresses, host names and prefixes.
pub proof fn law_targets_accepted(value: &str, r: Result<(), NetdiagError>)
    requires
        call_ensures(validators::validate_ip_or_host, (value,), r) || call_ensures(
            commands::validate_ip_or_host,
            (value,),
            r,
        ),
    ensures
        r is Ok <==> is_safe_word(value@, Seq::empty()),
        r is Err ==> r->Err_0 is InvalidParam && r->Err_0->name@ == "target"@,
{
    lemma_token("target"@, value@, Seq::empty());
}

/// An interface name is accepted if and only if it is a safe word.
pub proof fn law_interfaces_accepted(value: &str, r: Result<(), NetdiagError>)
    requires
        call_ensures(validators::validate_interface, (value,), r) || call_ensures(
            commands::validate_interface,
            (value,),
            r,
        ),
    ensures
        r is Ok <==> is_safe_word(value@, Seq::empty()),
        r is Err ==> r->Err_0 is InvalidParam && r->Err_0->name@ == "interface"@,
{
    lemma_token("interface"@, value@, Seq::empty());
}

/// A unit name is accepted if and only if it is a safe word, in which `@` may
/// stand too.
pub proof fn law_units_accepted(value: &str, r: Result<(), NetdiagError>)
    requires
        call_ensures(validators::validate_unit, (value,), r) || call_ensures(
            commands::validate_unit,
            (value,),
            r,
        ),
    ensures
        r is Ok <==> is_safe_word(value@, seq!['@']),
        r is Err ==> r->Err_0 is InvalidParam && r->Err_0->name@ == "unit"@,
{
    lemma_token("unit"@, value@, seq!['@']);
}

/// A token is accepted if and only if it is a safe word, in which the extra
/// characters may stand too; a refusal names the parameter.
pub proof fn law_tokens_accepted(
    name: &str,
    value: &str,
    also: &[char],
    r: Result<(), NetdiagError>,
)
    requires
        is_narrow(also@),
        call_ensures(validators::validate_token_with_extra, (name, value, also), r) || (
        also@.len() == 0 && call_ensures(validators::validate_token, (name, value), r)),
    ensures
        r is Ok <==> is_safe_word(value@, also@),
        r is Err ==> r->Err_0 is InvalidParam && r->Err_0->name@ == name@,
{
    lemma_token(name@, value@, also@);
    if also@.len() == 0 {
        assert(also@ =~= Seq::<char>::empty());
    }
}

/// The reason of a refusal: the length first, a leading `-` second, the
/// characters last.
pub proof fn law_token_reasons(
    name: &str,
    value: &str,
    also: &[char],
    r: Result<(), NetdiagError>,
)
    requires
        call_ensures(validators::validate_token_with_extra, (name, value, also), r),
        r is Err,
    ensures
        r->Err_0 is InvalidParam,
        r->Err_0->name@ == name@,
        value@.len() == 0 || encode_utf8(value@).len() > 128 ==> r->Err_0->reason@
            == "must be non-empty and <= 128 chars"@,
        value@.len() > 0 && encode_utf8(value@).len() <= 128 && value@[0] == '-'
            ==> r->Err_0->reason@ == "must not begin with '-'"@,
        value@.len() > 0 && encode_utf8(value@).len() <= 128 && value@[0] != '-'
            ==> r->Err_0->reason@ == "contains unsupported characters"@,
{
}

/// The tokens of the compact service are accepted if and only if they are
/// words; they may begin with `-`.
pub proof fn law_compact_tokens_accepted(value: &str, r: Result<(), NetdiagError>)
    ensures
        call_ensures(compact::validate_ip_or_host, (value,), r) ==> {
            &&& r is Ok <==> is_word(value@, Seq::empty())
            &&& r is Err ==> r->Err_0 is InvalidParam && r->Err_0->name@ == "target"@
        },
        call_ensures(compact::validate_interface, (value,), r) ==> {
            &&& r is Ok <==> is_word(value@, Seq::empty())
            &&& r is Err ==> r->Err_0 is InvalidParam && r->Err_0->name@ == "interface"@
        },
{
    lemma_compact_token("target"@, value@);
    lemma_compact_token("interface"@, value@);
}

/// What the compact service says of a token.
pub proof fn lemma_compact_token(name: Seq<char>, value: Seq<char>)
    ensures
        compact::token_error(name, value) is None <==> is_word(value, Seq::empty()),
        compact::token_error(name, value) is Some ==> compact::token_error(name, value)->0.code()
            == -32010,
{
    text::lemma_encode_grows(value);
    if is_word(value, Seq::empty()) {
        assert forall|i: int| 0 <= i < value.len() implies '\0'
            <= #[trigger] value[i] <= '\u{7f}' by {
            assert(is_plain(value[i]) || Seq::<char>::empty().contains(value[i]));
        }
        lemma_narrow_len(value);
    }
    if compact::token_error(name, value) is None {
        assert forall|i: int| 0 <= i < value.len() implies is_plain(#[trigger] value[i])
            || Seq::<char>::empty().contains(value[i]) by {
            assert(validators::is_token_char(value[i]));
        }
    }
}

/// What the validators say of a target, an interface and a unit.
pub proof fn lemma_words(value: Seq<char>)
    ensures
        validators::target_error(value) is None <==> is_safe_word(value, Seq::empty()),
        validators::interface_error(value) is None <==> is_safe_word(value, Seq::empty()),
        validators::unit_error(value) is None <==> is_safe_word(value, seq!['@']),
{
    lemma_token("target"@, value, Seq::empty());
    lemma_token("interface"@, value, Seq::empty());
    lemma_token("unit"@, value, seq!['@']);
}

// ---- MAC addresses --------------------------------------------------------

/// A hexadecimal digit, in either case.
pub open spec fn is_hex(c: char) -> bool {
    ||| '0' <= c <= '9'
    ||| 'a' <= c <= 'f'
    ||| 'A' <= c <= 'F'
}

/// Whether a colon stands at every third place of `s` and a hexadecimal digit
/// at every other.
pub open spec fn is_colon_grid(s: Seq<char>) -> bool {
    forall|i: int|
        0 <= i < s.len() ==> if i % 3 == 2 {
            #[trigger] s[i] == ':'
        } else {
            is_hex(s[i])
        }
}

// Octets, and behind them the beginning of one.
spec fn are_octets(parts: Seq<Seq<char>>) -> bool {
    &&& parts.len() > 0
    &&& parts.last().len() <= 2
    &&& forall|k: int| 0 <= k < parts.len() - 1 ==> (#[trigger] parts[k]).len() == 2
    &&& forall|k: int, j: int|
        0 <= k < parts.len() && 0 <= j < (#[trigger] parts[k]).len() ==> is_hex(
            #[trigger] parts[k][j],
        )
}

proof fn lemma_grid_parts(s: Seq<char>)
    requires
        is_colon_grid(s),
    ensures
        are_octets(text::fields(s, ':')),
        text::fields(s, ':').len() == s.len() / 3 + 1,
        text::fields(s, ':').last().len() == s.len() % 3,
    decreases s.len(),
{
    if s.len() > 0 {
        let less = s.drop_last();
        assert forall|i: int| 0 <= i < less.len() implies if i % 3 == 2 {
            #[trigger] less[i] == ':'
        } else {
            is_hex(less[i])
        } by {
            assert(less[i] == s[i]);
        }
        lemma_grid_parts(less);
        let n = s.len() - 1;
        assert(if n % 3 == 2 {
            s[n] == ':'
        } else {
            is_hex(s[n])
        });
    }
}

proof fn lemma_parts_grid(s: Seq<char>)
    requires
        are_octets(text::fields(s, ':')),
    ensures
        is_colon_grid(s),
        s.len() == 3 * (text::fields(s, ':').len() - 1) + text::fields(s, ':').last().len(),
    decreases s.len(),
{
    if s.len() > 0 {
        let less = s.drop_last();
        let before = text::fields(less, ':');
        let all = text::fields(s, ':');
        text::lemma_fields_nonempty(less, ':');
        if s.last() == ':' {
            assert(all.drop_last() =~= before);
            assert(before.last() == all[all.len() - 2]);
            assert forall|k: int, j: int|
                0 <= k < before.len() && 0 <= j < (#[trigger] before[k]).len() implies is_hex(
                #[trigger] before[k][j],
            ) by {
                assert(before[k] == all[k]);
                assert(is_hex(all[k][j]));
            }
            assert forall|k: int| 0 <= k < before.len() - 1 implies (#[trigger] before[k]).len()
                == 2 by {
                assert(before[k] == all[k]);
            }
        } else {
            let k = all.len() - 1;
            assert(all[k] == before.last().push(s.last()));
            assert forall|m: int, j: int|
                0 <= m < before.len() && 0 <= j < (#[trigger] before[m]).len() implies is_hex(
                #[trigger] before[m][j],
            ) by {
                assert(before[m][j] == all[m][j]);
            }
            assert forall|m: int| 0 <= m < before.len() - 1 implies (#[trigger] before[m]).len()
                == 2 by {
                assert(before[m] == all[m]);
            }
            assert(is_hex(all[k][all[k].len() - 1]));
        }
        lemma_parts_grid(less);
        assert forall|i: int| 0 <= i < s.len() implies if i % 3 == 2 {
            #[trigger] s[i] == ':'
        } else {
            is_hex(s[i])
        } by {
            if i < less.len() {
                assert(less[i] == s[i]);
            }
        }
    }
}

/// What the validators say of a MAC address.
pub proof fn lemma_mac(value: Seq<char>)
    ensures
        validators::mac_error(value) is None <==> value.len() == 17 && is_colon_grid(value),
{
    let parts = text::fields(value, ':');
    if validators::is_mac(value) {
        assert forall|k: int, j: int|
            0 <= k < parts.len() && 0 <= j < (#[trigger] parts[k]).len() implies is_hex(
            #[trigger] parts[k][j],
        ) by {
            assert(validators::is_octet(parts[k]));
        }
        assert(validators::is_octet(parts[5]));
        lemma_parts_grid(value);
    }
    if value.len() == 17 && is_colon_grid(value) {
        lemma_grid_parts(value);
        assert forall|i: int| 0 <= i < 6 implies validators::is_octet(#[trigger] parts[i]) by {
            assert(parts[i].len() == 2);
            assert(is_hex(parts[i][0]) && is_hex(parts[i][1]));
        }
    }
}

/// A MAC address is accepted if and only if it is six pairs of hexadecimal
/// digits, in either case, with colons between them.
pub proof fn law_macs_accepted(value: &str, r: Result<(), NetdiagError>)
    requires
        call_ensures(validators::validate_mac, (value,), r) || call_ensures(
            commands::validate_mac,
            (value,),
            r,
        ) || call_ensures(compact::validate_mac, (value,), r),
    ensures
        r is Ok <==> value@.len() == 17 && is_colon_grid(value@),
        r is Err ==> r->Err_0 is InvalidParam && r->Err_0->name@ == "mac"@ && r->Err_0->reason@
            == "must be in aa:bb:cc:dd:ee:ff form"@,
{
    lemma_mac(value@);
}

/// A character of a token is a plain one.
pub proof fn law_token_chars(c: char, b: bool)
    requires
        call_ensures(validators::char_is_token_char, (c,), b),
    ensures
        b <==> is_plain(c),
{
}

/// A token of the compact service, whatever its name: a word is accepted, and
/// anything else refused under that name.
pub proof fn law_compact_token(name: &str, value: &str, r: Result<(), NetdiagError>)
    requires
        call_ensures(compact::validate_token, (name, value), r),
    ensures
        r is Ok <==> is_word(value@, Seq::empty()),
        r is Err ==> r->Err_0 is InvalidParam && r->Err_0->name@ == name@,
        r is Err && (value@.len() == 0 || encode_utf8(value@).len() > 128) ==> r->Err_0->reason@
            == "must be non-empty and <= 128 chars"@,
        r is Err && value@.len() > 0 && encode_utf8(value@).len() <= 128 ==> r->Err_0->reason@
            == "contains unsupported characters"@,
{
    lemma_compact_token(name@, value@);
}

} // verus!
