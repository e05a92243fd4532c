//! Compile-time bounds and the meaning of the environment variables.
//!
//! Hard limits are constants. Three things are tunable by the operator, each
//! through an environment variable whose raw value is handed to a function
//! here:
//!
//! - [`JOURNAL_ENV`]: path of the audit journal ([`journal_path`])
//! - [`ALLOWLIST_ENV`]: narrowing filter over the built-in commands
//!   ([`enabled_commands`])
//! - [`PRIVILEGED_ENABLE_ENV`]: opt-in for the privileged tools
//!   ([`privileged_enabled`])

use std::time::Duration;

use vstd::prelude::*;
use vstd::string::*;

use crate::clock::duration_from_secs;
use crate::key_set::KeySet;
use crate::text::{fields, same_text, split, trim, trimmed};

verus! {

/// Wall-clock cap on any single diagnostic command, in seconds.
pub const DEFAULT_TIMEOUT_SECS: u64 = 5;

/// Maximum bytes retained from a command's standard output.
pub const MAX_STDOUT_BYTES: usize = 64 * 1024;

/// Maximum bytes retained from a command's standard error.
pub const MAX_STDERR_BYTES: usize = 8 * 1024;

/// Maximum lines retained from a command's captured output.
pub const MAX_OUTPUT_LINES: usize = 512;

/// Maximum length of the output quoted in the `evidence` of a diagnostic
/// envelope.
pub const EVIDENCE_MAX_CHARS: usize = 500;

/// Maximum characters of the evidence quoted in a journal row.
pub const JOURNAL_HEAD_CHARS: usize = 128;

/// Environment variable with the path of the audit journal.
pub const JOURNAL_ENV: &'static str = "NETDIAG_JOURNAL";

/// Journal path when [`JOURNAL_ENV`] is unset.
pub const DEFAULT_JOURNAL_PATH: &'static str = "/tmp/mcp-netdiag-journal.jsonl";

/// Environment variable that narrows the set of runnable command keys.
///
/// It is a comma-separated list of keys. Only the listed keys stay runnable.
/// It can only disable built-in commands, never add programs or arguments;
/// a name that is no built-in key enables nothing.
pub const ALLOWLIST_ENV: &'static str = "NETDIAG_ALLOWLIST";

/// Environment variable that opts in to the privileged tools.
///
/// Unset, empty, blank or `none`: every privileged tool is refused. `all`
/// opts in to every privileged tool. Otherwise it is a comma-separated list
/// of keys, in which names that are no privileged key have no effect. Letter
/// case matters.
pub const PRIVILEGED_ENABLE_ENV: &'static str = "NETDIAG_ENABLE_PRIVILEGED";

/// The entry of the opt-in set that stands for every privileged tool.
pub const PRIVILEGED_ALL_SENTINEL: &'static str = "all";

/// [`DEFAULT_TIMEOUT_SECS`] as a [`Duration`].
pub fn default_timeout() -> (d: Duration)
    ensures
        d == duration_from_secs(DEFAULT_TIMEOUT_SECS),
{
    Duration::from_secs(DEFAULT_TIMEOUT_SECS)
}

/// The journal path, given the value of [`JOURNAL_ENV`] if it is set.
pub fn journal_path(value: Option<&str>) -> (path: String)
    ensures
        path@ == (match value {
            Some(v) => v@,
            None => DEFAULT_JOURNAL_PATH@,
        }),
{
    match value {
        Some(v) => v.to_owned(),
        None => DEFAULT_JOURNAL_PATH.to_owned(),
    }
}

/// Whether `key` is one of the first `n` entries of the comma-separated list
/// `raw`, with the whitespace around the entry ignored and blank entries
/// dropped.
pub open spec fn lists_key_among(raw: Seq<char>, n: int, key: Seq<char>) -> bool {
    key.len() > 0 && exists|i: int| 0 <= i < n && trimmed(#[trigger] fields(raw, ',')[i]) == key
}

/// The keys listed in the comma-separated list `raw`: its entries without the
/// whitespace around them, blank entries dropped.
pub open spec fn listed_keys(raw: Seq<char>) -> Set<Seq<char>> {
    Set::new(|key: Seq<char>| lists_key_among(raw, fields(raw, ',').len() as int, key))
}

/// The opt-in set that a value of [`PRIVILEGED_ENABLE_ENV`] stands for.
pub open spec fn opted_in_keys(raw: Seq<char>) -> Set<Seq<char>> {
    if trimmed(raw).len() == 0 || trimmed(raw) == "none"@ {
        Set::empty()
    } else {
        listed_keys(trimmed(raw))
    }
}

fn parse_key_list(raw: &str) -> (keys: KeySet)
    ensures
        keys@ == listed_keys(raw@),
{
    let entries: Vec<String> = split(raw, ',');
    let ghost model = fields(raw@, ',');
    assert(entries.deep_view().len() == entries@.len());
    let mut keys: KeySet = KeySet::new();
    let mut i: usize = 0;
    while i < entries.len()
        invariant
            i <= entries@.len(),
            entries@.len() == model.len(),
            entries.deep_view() == model,
            model == fields(raw@, ','),
            forall|key: Seq<char>|
                #[trigger] keys@.contains(key) <==> lists_key_among(raw@, i as int, key),
        decreases entries@.len() - i,
    {
        assert(model[i as int] == entries@[i as int]@);
        let entry: &str = trim(entries[i].as_str());
        let ghost before = keys@;
        if !entry.is_empty() {
            keys.insert(entry);
        }
        assert forall|key: Seq<char>|
            #[trigger] keys@.contains(key) <==> lists_key_among(raw@, i + 1, key) by {
            if keys@.contains(key) {
                if before.contains(key) {
                    assert(lists_key_among(raw@, i as int, key));
                } else {
                    assert(trimmed(fields(raw@, ',')[i as int]) == key);
                }
            }
            if lists_key_among(raw@, i + 1, key) {
                let k = choose|k: int|
                    0 <= k < i + 1 && trimmed(#[trigger] fields(raw@, ',')[k]) == key;
                if k < i {
                    assert(lists_key_among(raw@, i as int, key));
                }
            }
        }
        i = i + 1;
    }
    assert(keys@ =~= listed_keys(raw@));
    keys
}

/// Reads a value of [`ALLOWLIST_ENV`].
pub fn parse_allowlist(raw: &str) -> (keys: KeySet)
    ensures
        keys@ == listed_keys(raw@),
{
    parse_key_list(raw)
}

/// Reads a value of [`PRIVILEGED_ENABLE_ENV`].
pub fn parse_privileged(raw: &str) -> (keys: KeySet)
    ensures
        keys@ == opted_in_keys(raw@),
{
    let entries: &str = trim(raw);
    if entries.is_empty() || same_text(entries, "none") {
        return KeySet::new();
    }
    parse_key_list(entries)
}

/// The enabled command keys, given the value of [`ALLOWLIST_ENV`] if it is
/// set; `None` means that every built-in command is enabled. A value without
/// any key disables every command.
pub fn enabled_commands(value: Option<&str>) -> (keys: Option<KeySet>)
    ensures
        match value {
            Some(v) => keys is Some && keys->0@ == listed_keys(v@),
            None => keys is None,
        },
{
    match value {
        Some(raw) => Some(parse_allowlist(raw)),
        None => None,
    }
}

/// The privileged opt-in set, given the value of [`PRIVILEGED_ENABLE_ENV`] if
/// it is set.
pub fn privileged_enabled(value: Option<&str>) -> (keys: KeySet)
    ensures
        keys@ == (match value {
            Some(v) => opted_in_keys(v@),
            None => Set::empty(),
        }),
{
    match value {
        Some(raw) => parse_privileged(raw),
        None => KeySet::new(),
    }
}

// ---- what a list of keys means --------------------------------------------

proof fn lemma_single_field(s: Seq<char>, sep: char)
    requires
        !s.contains(sep),
    ensures
        fields(s, sep) == seq![s],
{
    crate::text_laws::law_one_field(s, sep);
}

proof fn lemma_fields_around(a: Seq<char>, sep: char, b: Seq<char>)
    ensures
        fields(a + seq![sep] + b, sep) == fields(a, sep) + fields(b, sep),
{
    crate::text_laws::law_separator_parts_fields(a, sep, b);
}

/// A value without a comma lists one key: itself, without the whitespace
/// around it; a blank one lists none.
pub proof fn law_one_entry(raw: Seq<char>)
    requires
        !raw.contains(','),
    ensures
        listed_keys(raw) == (if trimmed(raw).len() > 0 {
            Set::empty().insert(trimmed(raw))
        } else {
            Set::empty()
        }),
{
    lemma_single_field(raw, ',');
    assert forall|key: Seq<char>| #[trigger] listed_keys(raw).contains(key) <==> key.len() > 0
        && key == trimmed(raw) by {
        assert(trimmed(fields(raw, ',')[0]) == trimmed(raw));
    }
    assert(listed_keys(raw) =~= (if trimmed(raw).len() > 0 {
        Set::empty().insert(trimmed(raw))
    } else {
        Set::empty()
    }));
}

/// A comma separates entries: two lists with a comma between them list the
/// keys of both.
pub proof fn law_comma_separates(a: Seq<char>, b: Seq<char>)
    ensures
        listed_keys(a + seq![','] + b) == listed_keys(a).union(listed_keys(b)),
{
    lemma_fields_around(a, ',', b);
    let all = fields(a + seq![','] + b, ',');
    let left = fields(a, ',');
    let right = fields(b, ',');
    assert forall|key: Seq<char>| #[trigger]
        listed_keys(a + seq![','] + b).contains(key) <==> listed_keys(a).union(
            listed_keys(b),
        ).contains(key) by {
        if listed_keys(a + seq![','] + b).contains(key) {
            let i = choose|i: int| 0 <= i < all.len() && trimmed(#[trigger] all[i]) == key;
            if i < left.len() {
                assert(trimmed(left[i]) == key);
            } else {
                assert(trimmed(right[i - left.len()]) == key);
            }
        }
        if listed_keys(a).contains(key) {
            let i = choose|i: int| 0 <= i < left.len() && trimmed(#[trigger] left[i]) == key;
            assert(trimmed(all[i]) == key);
        }
        if listed_keys(b).contains(key) {
            let i = choose|i: int| 0 <= i < right.len() && trimmed(#[trigger] right[i]) == key;
            assert(trimmed(all[left.len() + i]) == key);
        }
    }
    assert(listed_keys(a + seq![','] + b) =~= listed_keys(a).union(listed_keys(b)));
}

/// Whether `key` is one whole entry between the commas of `raw`, apart from
/// blanks around it.
pub open spec fn has_entry(raw: Seq<char>, key: Seq<char>) -> bool {
    exists|i: int| 0 <= i < fields(raw, ',').len() && trimmed(#[trigger] fields(raw, ',')[i]) == key
}

proof fn lemma_trim_in_blanks(a: Seq<char>, s: Seq<char>, b: Seq<char>)
    requires
        crate::text_laws::is_blank(a),
        crate::text_laws::is_blank(b),
    ensures
        trimmed(a + s + b) == trimmed(s),
{
    crate::text_laws::law_trimmed(s);
    let (x, y) = choose|x: Seq<char>, y: Seq<char>|
        crate::text_laws::is_blank(x) && crate::text_laws::is_blank(y) && s == #[trigger] (x
            + trimmed(s) + y);
    assert forall|i: int| 0 <= i < (a + x).len() implies crate::text::is_whitespace(
        #[trigger] (a + x)[i],
    ) by {
        if i < a.len() {
            assert((a + x)[i] == a[i]);
        } else {
            assert((a + x)[i] == x[i - a.len()]);
        }
    }
    assert forall|i: int| 0 <= i < (y + b).len() implies crate::text::is_whitespace(
        #[trigger] (y + b)[i],
    ) by {
        if i < y.len() {
            assert((y + b)[i] == y[i]);
        } else {
            assert((y + b)[i] == b[i - y.len()]);
        }
    }
    crate::text_laws::law_trimming_drops_blanks(a + x, trimmed(s), y + b);
    assert(a + s + b =~= (a + x) + trimmed(s) + (y + b));
}

proof fn lemma_listed_in_blanks(a: Seq<char>, s: Seq<char>, b: Seq<char>)
    requires
        crate::text_laws::is_blank(a),
        crate::text_laws::is_blank(b),
    ensures
        listed_keys(a + s + b) == listed_keys(s),
    decreases s.len(),
{
    let empty = Seq::<char>::empty();
    if s.contains(',') {
        let i = choose|i: int| 0 <= i < s.len() && s[i] == ',';
        let u = s.take(i);
        let v = s.skip(i + 1);
        assert(s =~= u + seq![','] + v);
        assert(a + s + b =~= (a + u + empty) + seq![','] + (empty + v + b));
        law_comma_separates(u, v);
        law_comma_separates(a + u + empty, empty + v + b);
        lemma_listed_in_blanks(a, u, empty);
        lemma_listed_in_blanks(empty, v, b);
    } else {
        let whole = a + s + b;
        assert forall|i: int| 0 <= i < whole.len() implies whole[i] != ',' by {
            if i < a.len() {
                assert(whole[i] == a[i]);
                assert(crate::text::is_whitespace(a[i]));
            } else if i < a.len() + s.len() {
                assert(whole[i] == s[i - a.len()]);
                assert(s.contains(s[i - a.len()]));
            } else {
                assert(whole[i] == b[i - a.len() - s.len()]);
                assert(crate::text::is_whitespace(b[i - a.len() - s.len()]));
            }
        }
        lemma_trim_in_blanks(a, s, b);
        law_one_entry(whole);
        law_one_entry(s);
    }
}

/// Blanks around a list change nothing of the keys that it lists.
pub proof fn law_blanks_around_a_list(raw: Seq<char>)
    ensures
        listed_keys(trimmed(raw)) == listed_keys(raw),
{
    crate::text_laws::law_trimmed(raw);
    let (a, b) = choose|a: Seq<char>, b: Seq<char>|
        crate::text_laws::is_blank(a) && crate::text_laws::is_blank(b) && raw == #[trigger] (a
            + trimmed(raw) + b);
    lemma_listed_in_blanks(a, trimmed(raw), b);
}

/// The allowlist holds exactly the entries of its value, each as a whole.
pub proof fn law_allowlist_is_its_entries(raw: &str, keys: KeySet, key: Seq<char>)
    requires
        call_ensures(parse_allowlist, (raw,), keys),
    ensures
        keys@.contains(key) <==> key.len() > 0 && has_entry(raw@, key),
{
}

/// The opt-in set is empty for a blank value and for `none`, and holds exactly
/// the entries of any other value, each as a whole.
pub proof fn law_opt_in_is_its_entries(raw: &str, keys: KeySet, key: Seq<char>)
    requires
        call_ensures(parse_privileged, (raw,), keys),
    ensures
        trimmed(raw@) == "none"@ ==> keys@ == Set::<Seq<char>>::empty(),
        crate::text_laws::is_blank(raw@) ==> keys@ == Set::<Seq<char>>::empty(),
        trimmed(raw@) != "none"@ ==> (keys@.contains(key) <==> key.len() > 0 && has_entry(
            raw@,
            key,
        )),
{
    law_blanks_around_a_list(raw@);
    let empty = Seq::<char>::empty();
    if crate::text_laws::is_blank(raw@) {
        crate::text_laws::law_trimming_drops_blanks(raw@, empty, empty);
        assert(raw@ + empty + empty =~= raw@);
    }
    if trimmed(raw@).len() == 0 {
        law_one_entry(trimmed(raw@));
        assert(trimmed(raw@) =~= empty);
        assert(trimmed(empty) =~= empty);
        assert(listed_keys(raw@) == Set::<Seq<char>>::empty());
        assert(listed_keys(raw@).contains(key) <==> key.len() > 0 && has_entry(raw@, key));
    } else {
        assert(listed_keys(raw@).contains(key) <==> key.len() > 0 && has_entry(raw@, key));
    }
}

/// The value of the variable decides: the set that it stands for, or, where it
/// is not set, no filter and no opt-in; and the journal goes where it says.
pub proof fn law_values_decide(
    value: Option<&str>,
    enabled: Option<KeySet>,
    opted_in: KeySet,
    path: String,
    key: Seq<char>,
)
    requires
        call_ensures(enabled_commands, (value,), enabled),
        call_ensures(privileged_enabled, (value,), opted_in),
        call_ensures(journal_path, (value,), path),
    ensures
        value is None ==> enabled is None && opted_in@ == Set::<Seq<char>>::empty() && path@
            == "/tmp/mcp-netdiag-journal.jsonl"@,
        value is Some ==> {
            &&& enabled is Some
            &&& enabled->0@.contains(key) <==> key.len() > 0 && has_entry(value->0@, key)
            &&& trimmed(value->0@) != "none"@ ==> (opted_in@.contains(key) <==> key.len() > 0
                && has_entry(value->0@, key))
            &&& trimmed(value->0@) == "none"@ ==> opted_in@ == Set::<Seq<char>>::empty()
            &&& path@ == value->0@
        },
{
    if value is Some {
        let raw = value->0@;
        law_blanks_around_a_list(raw);
        assert(listed_keys(raw).contains(key) <==> key.len() > 0 && has_entry(raw, key));
        if trimmed(raw).len() == 0 {
            let empty = Seq::<char>::empty();
            law_one_entry(trimmed(raw));
            assert(trimmed(raw) =~= empty);
            assert(trimmed(empty) =~= empty);
        }
    }
}

/// What is documented of the settings: the time limit in seconds, the limits of
/// what is kept and quoted, and the variables that the operator sets.
pub proof fn law_documented_settings()
    ensures
        DEFAULT_TIMEOUT_SECS == 5,
        MAX_STDOUT_BYTES == 65_536,
        MAX_STDERR_BYTES == 8_192,
        MAX_OUTPUT_LINES == 512,
        EVIDENCE_MAX_CHARS == 500,
        JOURNAL_HEAD_CHARS == 128,
        JOURNAL_ENV@ == "NETDIAG_JOURNAL"@,
        DEFAULT_JOURNAL_PATH@ == "/tmp/mcp-netdiag-journal.jsonl"@,
        ALLOWLIST_ENV@ == "NETDIAG_ALLOWLIST"@,
        PRIVILEGED_ENABLE_ENV@ == "NETDIAG_ENABLE_PRIVILEGED"@,
        PRIVILEGED_ALL_SENTINEL@ == "all"@,
{
}

} // verus!
