//! Rules for reading the user's display settings: what the settings file
//! says under a key, which layer the prompt goes on, where the logo is found,
//! and how a number is read.

use crate::json::{json_document, json_view, json_views, member_of, parse_json, JsonView};
use crate::text::{same_text, strip_leading, without_leading};
use vstd::prelude::*;
use vstd::string::is_ascii_spec_bytes;

verus! {

/// The shell layer that the prompt and the dimmers are put on.
#[derive(Clone, Copy, Debug, PartialEq, Eq, Structural)]
pub enum Layer {
    Top,
    Overlay,
}

/// The layer that the setting asks for: the top layer for `top`, the overlay
/// for anything else.
pub fn layer_for(setting: &str) -> (r: Layer)
    ensures
        r == if setting@ == "top"@ {
            Layer::Top
        } else {
            Layer::Overlay
        },
{
    if same_text(setting, "top") {
        Layer::Top
    } else {
        Layer::Overlay
    }
}

/// Copies `out` without its leading slashes.
pub fn remove_slash_start(out: &str) -> (r: String)
    ensures
        r@ == without_leading(out@, '/'),
{
    strip_leading(out, '/')
}

/// Copies `out` without its leading tildes.
pub fn remove_tilde_start(out: &str) -> (r: String)
    ensures
        r@ == without_leading(out@, '~'),
{
    strip_leading(out, '~')
}

/// Where the logo is looked for.
#[derive(Clone, Debug, PartialEq, Eq)]
pub enum LogoLocation {
    /// At this path below the user's home directory.
    UnderHome(String),
    /// At this path as it stands.
    Literal(String),
}

/// A logo location as a mathematical value.
pub ghost enum LogoLocationView {
    UnderHome(Seq<char>),
    Literal(Seq<char>),
}

impl View for LogoLocation {
    type V = LogoLocationView;

    open spec fn view(&self) -> LogoLocationView {
        match self {
            LogoLocation::UnderHome(path) => LogoLocationView::UnderHome(path@),
            LogoLocation::Literal(path) => LogoLocationView::Literal(path@),
        }
    }
}

/// Where the setting puts the logo: a setting that begins with a tilde
/// names a path below the home directory, which is the setting without its
/// leading tildes and without the slashes that follow them; any other
/// setting is the path itself.
pub open spec fn logo_location_of(setting: Seq<char>) -> LogoLocationView {
    if setting.len() > 0 && setting[0] == '~' {
        LogoLocationView::UnderHome(without_leading(without_leading(setting, '~'), '/'))
    } else {
        LogoLocationView::Literal(setting)
    }
}

/// Where the setting puts the logo.
pub fn logo_location(setting: &str) -> (r: LogoLocation)
    ensures
        r@ == logo_location_of(setting@),
{
    if setting.unicode_len() > 0 && setting.get_char(0) == '~' {
        let below = remove_tilde_start(setting);
        LogoLocation::UnderHome(remove_slash_start(below.as_str()))
    } else {
        LogoLocation::Literal(String::from_str(setting))
    }
}

/// Whether `c` is one of the ten decimal digits.
pub open spec fn is_digit(c: char) -> bool {
    '0' <= c <= '9'
}

/// The number that a digit stands for.
pub open spec fn digit_value(c: char) -> nat {
    if is_digit(c) {
        (c as u32 - '0' as u32) as nat
    } else {
        0
    }
}

/// Whether `s` is made of decimal digits alone.
pub open spec fn all_digits(s: Seq<char>) -> bool {
    forall|i: int| 0 <= i < s.len() ==> is_digit(#[trigger] s[i])
}

/// The number that a string of digits stands for in base ten.
pub open spec fn decimal_value(s: Seq<char>) -> nat
    decreases s.len(),
{
    if s.len() == 0 {
        0
    } else {
        10 * decimal_value(s.drop_last()) + digit_value(s.last())
    }
}

/// `s` without one leading plus sign.
pub open spec fn unsigned_part(s: Seq<char>) -> Seq<char> {
    if s.len() > 0 && s[0] == '+' {
        s.drop_first()
    } else {
        s
    }
}

/// The number that `s` spells: an optional plus sign, then one or more
/// decimal digits and nothing else, with a value that fits in 32 bits.
pub open spec fn decimal_u32(s: Seq<char>) -> Option<u32> {
    let digits = unsigned_part(s);
    if digits.len() > 0 && all_digits(digits) && decimal_value(digits) <= u32::MAX {
        Some(decimal_value(digits) as u32)
    } else {
        None
    }
}

/// The value of a string of digits is at least that of each of its prefixes.
pub proof fn lemma_decimal_value_grows(s: Seq<char>, k: int)
    requires
        0 <= k <= s.len(),
    ensures
        decimal_value(s.take(k)) <= decimal_value(s),
    decreases s.len() - k,
{
    if k < s.len() {
        lemma_decimal_value_grows(s, k + 1);
        assert(s.take(k + 1).drop_last() =~= s.take(k));
    } else {
        assert(s.take(k) =~= s);
    }
}

/// Reads a number as `u32` does from a string, and gives 0 for a string
/// that spells none.
pub fn string_to_u32(input: String) -> (r: u32)
    ensures
        r == match decimal_u32(input@) {
            Some(n) => n,
            None => 0,
        },
{
    let s = input.as_str();
    let ghost digits = unsigned_part(s@);
    if !s.is_ascii() {
        proof {
            let i: int = choose|i: int|
                0 <= i < s@.len() && !('\0' <= #[trigger] s@[i] <= '\u{7f}');
            if s@[0] == '+' {
                assert(digits[i - 1] == s@[i]);
            }
            assert(!all_digits(digits));
        }
        return 0;
    }
    let bytes = s.as_bytes();
    proof {
        is_ascii_spec_bytes(s);
    }
    let n: usize = bytes.len();
    let start: usize = if n > 0 && bytes[0] == 43 {
        1
    } else {
        0
    };
    assert(digits =~= s@.skip(start as int));
    if start == n {
        return 0;
    }
    let mut acc: u64 = 0;
    let mut i: usize = start;
    while i < n
        invariant
            start <= i <= n,
            n == s@.len(),
            n == bytes@.len(),
            s@ == input@,
            digits == unsigned_part(s@),
            digits == s@.skip(start as int),
            forall|j: int| 0 <= j < n ==> bytes@[j] == (#[trigger] s@[j]) as u8,
            forall|j: int| 0 <= j < n ==> '\0' <= #[trigger] s@[j] <= '\u{7f}',
            forall|j: int| 0 <= j < i - start ==> is_digit(#[trigger] digits[j]),
            acc == decimal_value(digits.take(i - start)),
            acc <= u32::MAX,
        decreases n - i,
    {
        let b: u8 = bytes[i];
        assert(digits[i - start] == s@[i as int]);
        if b < 48 || b > 57 {
            assert(!is_digit(digits[i - start]));
            return 0;
        }
        assert(is_digit(digits[i - start]));
        assert(digits.take(i - start + 1).drop_last() =~= digits.take(i - start));
        acc = acc * 10 + (b - 48) as u64;
        if acc > u32::MAX as u64 {
            proof {
                lemma_decimal_value_grows(digits, i - start + 1);
            }
            return 0;
        }
        i += 1;
    }
    assert(digits.take(n - start) =~= digits);
    acc as u32
}

/// The text that an entry of the settings holds under a key, if it holds a
/// text there.
pub open spec fn entry_text(entry: JsonView, key: Seq<char>) -> Option<Seq<char>> {
    match entry.member(key) {
        Some(member) => member.text(),
        None => None,
    }
}

/// The text under a key in the last of the entries that hold one; the empty
/// text where none does.
pub open spec fn last_text(entries: Seq<JsonView>, key: Seq<char>) -> Seq<char>
    decreases entries.len(),
{
    if entries.len() == 0 {
        Seq::empty()
    } else {
        match entry_text(entries.last(), key) {
            Some(text) => text,
            None => last_text(entries.drop_last(), key),
        }
    }
}

/// What the settings say under a key: the settings are a list of entries,
/// and a later entry overrules an earlier one. A document that is no list
/// says nothing.
pub open spec fn conf_data(document: JsonView, key: Seq<char>) -> Seq<char> {
    match document.elements() {
        Some(entries) => last_text(entries, key),
        None => Seq::empty(),
    }
}

/// The texts among `items`, in order.
pub open spec fn texts_among(items: Seq<JsonView>) -> Seq<Seq<char>>
    decreases items.len(),
{
    if items.len() == 0 {
        Seq::empty()
    } else {
        match items.last().text() {
            Some(text) => texts_among(items.drop_last()).push(text),
            None => texts_among(items.drop_last()),
        }
    }
}

/// The border colour components that one entry lists: the texts in the list
/// under `logo_border_color`, none where the entry has no list there.
pub open spec fn entry_colors(entry: JsonView) -> Seq<Seq<char>> {
    match entry.member("logo_border_color"@) {
        Some(member) => match member.elements() {
            Some(items) => texts_among(items),
            None => Seq::empty(),
        },
        None => Seq::empty(),
    }
}

/// The border colour components of all `entries`, one entry after the other.
pub open spec fn colors_among(entries: Seq<JsonView>) -> Seq<Seq<char>>
    decreases entries.len(),
{
    if entries.len() == 0 {
        Seq::empty()
    } else {
        colors_among(entries.drop_last()) + entry_colors(entries.last())
    }
}

/// The border colour components that the settings list.
pub open spec fn border_color(document: JsonView) -> Seq<Seq<char>> {
    match document.elements() {
        Some(entries) => colors_among(entries),
        None => Seq::empty(),
    }
}

/// What a parsed settings document says under the key `which`.
pub fn conf_data_in(document: &serde_json::Value, which: &str) -> (r: String)
    ensures
        r@ == conf_data(json_view(*document), which@),
{
    let mut out = String::new();
    if let Some(entries) = document.as_array() {
        let ghost views = json_views(entries@);
        let mut i: usize = 0;
        while i < entries.len()
            invariant
                i <= entries.len(),
                views == json_views(entries@),
                out@ == last_text(views.take(i as int), which@),
            decreases entries.len() - i,
        {
            proof {
                assert(views.take(i + 1).drop_last() =~= views.take(i as int));
            }
            if let Some(member) = member_of(&entries[i], which) {
                if let Some(text) = member.as_str() {
                    out = String::from_str(text);
                }
            }
            i += 1;
        }
        proof {
            assert(views.take(entries.len() as int) =~= views);
        }
    }
    out
}

/// The border colour components that a parsed settings document lists.
pub fn border_color_in(document: &serde_json::Value) -> (r: Vec<String>)
    ensures
        r.deep_view() == border_color(json_view(*document)),
{
    let mut color: Vec<String> = Vec::new();
    if let Some(entries) = document.as_array() {
        let ghost views = json_views(entries@);
        let mut i: usize = 0;
        while i < entries.len()
            invariant
                i <= entries.len(),
                views == json_views(entries@),
                color.deep_view() == colors_among(views.take(i as int)),
            decreases entries.len() - i,
        {
            proof {
                assert(views.take(i + 1).drop_last() =~= views.take(i as int));
            }
            if let Some(member) = member_of(&entries[i], "logo_border_color") {
                if let Some(items) = member.as_array() {
                    let ghost before = color.deep_view();
                    let ghost item_views = json_views(items@);
                    let mut j: usize = 0;
                    while j < items.len()
                        invariant
                            j <= items.len(),
                            item_views == json_views(items@),
                            color.deep_view() == before + texts_among(item_views.take(j as int)),
                        decreases items.len() - j,
                    {
                        proof {
                            assert(item_views.take(j + 1).drop_last() =~= item_views.take(
                                j as int,
                            ));
                        }
                        if let Some(text) = items[j].as_str() {
                            let ghost earlier = color.deep_view();
                            color.push(String::from_str(text));
                            assert(color.deep_view() =~= earlier.push(text@));
                        }
                        j += 1;
                    }
                    proof {
                        assert(item_views.take(items.len() as int) =~= item_views);
                    }
                }
            }
            i += 1;
        }
        proof {
            assert(views.take(entries.len() as int) =~= views);
        }
    }
    color
}

/// What the settings in `conf` say under the key `which`. The text must be
/// JSON; `find_conf_data` is there for a text that may not be.
pub fn get_conf_data(conf: String, which: &str) -> (r: String)
    requires
        json_document(conf@) is Some,
    ensures
        r@ == conf_data(json_document(conf@)->0, which@),
{
    let document = parse_json(conf.as_str()).unwrap();
    conf_data_in(&document, which)
}

/// What the settings in `conf` say under the key `which`, or `None` where
/// the text is no JSON.
pub fn find_conf_data(conf: String, which: &str) -> (r: Option<String>)
    ensures
        match json_document(conf@) {
            Some(document) => r matches Some(text) && text@ == conf_data(document, which@),
            None => r is None,
        },
{
    match parse_json(conf.as_str()) {
        Ok(_) => Some(get_conf_data(conf, which)),
        Err(_) => None,
    }
}

/// The border colour components that the settings in `conf` list. The text
/// must be JSON; `find_border_color` is there for a text that may not be.
pub fn get_border_color(conf: String) -> (r: Vec<String>)
    requires
        json_document(conf@) is Some,
    ensures
        r.deep_view() == border_color(json_document(conf@)->0),
{
    let document = parse_json(conf.as_str()).unwrap();
    border_color_in(&document)
}

/// The border colour components that the settings in `conf` list, or `None`
/// where the text is no JSON.
pub fn find_border_color(conf: String) -> (r: Option<Vec<String>>)
    ensures
        match json_document(conf@) {
            Some(document) => r matches Some(color) && color.deep_view() == border_color(
                document,
            ),
            None => r is None,
        },
{
    match parse_json(conf.as_str()) {
        Ok(_) => Some(get_border_color(conf)),
        Err(_) => None,
    }
}

} // verus!
