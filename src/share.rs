//! Shareable links: the configuration's JSON bytes travel in the `config`
//! query parameter as URL-safe base64 without padding, and the initial
//! configuration is picked from the link, the stored copy or the default.

use vstd::prelude::*;

use base64::Engine;

use crate::config::{is_default_config, Config};
use crate::text::string_of;

verus! {

/// Symbol of a six-bit value in the URL-safe base64 alphabet
/// `A-Z a-z 0-9 - _`.
pub open spec fn b64_symbol(v: int) -> char {
    if v < 26 {
        (65 + v) as char
    } else if v < 52 {
        (97 + v - 26) as char
    } else if v < 62 {
        (48 + v - 52) as char
    } else if v == 62 {
        '-'
    } else {
        '_'
    }
}

/// URL-safe base64 of `b`, without padding: each group of three bytes gives
/// four symbols; a last group of one or two bytes gives two or three.
pub open spec fn b64url(b: Seq<u8>) -> Seq<char>
    decreases b.len(),
{
    if b.len() == 0 {
        seq![]
    } else if b.len() == 1 {
        seq![b64_symbol(b[0] as int / 4), b64_symbol((b[0] as int % 4) * 16)]
    } else if b.len() == 2 {
        seq![
            b64_symbol(b[0] as int / 4),
            b64_symbol((b[0] as int % 4) * 16 + b[1] as int / 16),
            b64_symbol((b[1] as int % 16) * 4),
        ]
    } else {
        seq![
            b64_symbol(b[0] as int / 4),
            b64_symbol((b[0] as int % 4) * 16 + b[1] as int / 16),
            b64_symbol((b[1] as int % 16) * 4 + b[2] as int / 64),
            b64_symbol(b[2] as int % 64),
        ] + b64url(b.subrange(3, b.len() as int))
    }
}

/// What a decoder that accepts exactly the encodings may return for `s`:
/// bytes whose encoding is `s`, and some bytes whenever `s` is an encoding.
pub open spec fn decodes_to(s: Seq<char>, r: Option<Seq<u8>>) -> bool {
    &&& (r matches Some(v) ==> b64url(v) == s)
    &&& ((exists|v: Seq<u8>| #[trigger] b64url(v) == s) ==> r is Some)
}

/// The bytes held by an optional vector.
pub open spec fn bytes_of(r: Option<Vec<u8>>) -> Option<Seq<u8>> {
    match r {
        Some(v) => Some(v@),
        None => None,
    }
}

/// Relies on base64's `URL_SAFE_NO_PAD.encode`: alphabet `A-Z a-z 0-9 - _`,
/// no padding.
#[verifier::external_body]
fn base64_url_encode(data: &[u8]) -> (r: String)
    ensures
        r@ == b64url(data@),
{
    base64::engine::general_purpose::URL_SAFE_NO_PAD.encode(data)
}

/// Relies on base64's `URL_SAFE_NO_PAD.decode`, which requires no padding and
/// rejects symbols outside the alphabet, impossible lengths and non-zero
/// trailing bits, so that it accepts exactly the texts that `encode` produces.
#[verifier::external_body]
fn base64_url_decode(s: &str) -> (r: Option<Vec<u8>>)
    ensures
        decodes_to(s@, bytes_of(r)),
{
    base64::engine::general_purpose::URL_SAFE_NO_PAD.decode(s).ok()
}

/// The configuration's JSON bytes as the text of a `config` query parameter.
pub fn encode_config_to_url(config_json: &[u8]) -> (r: String)
    ensures
        r@ == b64url(config_json@),
{
    base64_url_encode(config_json)
}

/// The JSON bytes carried by a `config` query parameter; `None` when the
/// text is not URL-safe base64 without padding.
pub fn decode_config_from_url(encoded: &str) -> (r: Option<Vec<u8>>)
    ensures
        decodes_to(encoded@, bytes_of(r)),
{
    base64_url_decode(encoded)
}

// ---------------------------------------------------------------------------
// The encoding is injective
// ---------------------------------------------------------------------------

proof fn lemma_symbol_injective(a: int, b: int)
    requires
        0 <= a < 64,
        0 <= b < 64,
        b64_symbol(a) == b64_symbol(b),
    ensures
        a == b,
{
}

/// Length of the encoding of `n` bytes.
pub open spec fn b64_len(n: int) -> int {
    let tail: int = if n % 3 == 0 {
        0
    } else if n % 3 == 1 {
        2
    } else {
        3
    };
    4 * (n / 3) + tail
}

proof fn lemma_b64url_len(b: Seq<u8>)
    ensures
        b64url(b).len() == b64_len(b.len() as int),
    decreases b.len(),
{
    if b.len() >= 3 {
        lemma_b64url_len(b.subrange(3, b.len() as int));
    }
}

proof fn lemma_bytes_of_group(x0: u8, x1: u8, x2: u8, y0: u8, y1: u8, y2: u8)
    requires
        x0 / 4 == y0 / 4,
        (x0 % 4) * 16 + x1 / 16 == (y0 % 4) * 16 + y1 / 16,
        (x1 % 16) * 4 + x2 / 64 == (y1 % 16) * 4 + y2 / 64,
        x2 % 64 == y2 % 64,
    ensures
        x0 == y0,
        x1 == y1,
        x2 == y2,
{
    assert(x0 == y0 && x1 == y1 && x2 == y2) by (bit_vector)
        requires
            x0 / 4 == y0 / 4,
            (x0 % 4) * 16 + x1 / 16 == (y0 % 4) * 16 + y1 / 16,
            (x1 % 16) * 4 + x2 / 64 == (y1 % 16) * 4 + y2 / 64,
            x2 % 64 == y2 % 64,
    ;
}

proof fn lemma_bytes_of_pair(x0: u8, x1: u8, y0: u8, y1: u8)
    requires
        x0 / 4 == y0 / 4,
        (x0 % 4) * 16 + x1 / 16 == (y0 % 4) * 16 + y1 / 16,
        (x1 % 16) * 4 == (y1 % 16) * 4,
    ensures
        x0 == y0,
        x1 == y1,
{
    assert(x0 == y0 && x1 == y1) by (bit_vector)
        requires
            x0 / 4 == y0 / 4,
            (x0 % 4) * 16 + x1 / 16 == (y0 % 4) * 16 + y1 / 16,
            (x1 % 16) * 4 == (y1 % 16) * 4,
    ;
}

proof fn lemma_bytes_of_single(x0: u8, y0: u8)
    requires
        x0 / 4 == y0 / 4,
        (x0 % 4) * 16 == (y0 % 4) * 16,
    ensures
        x0 == y0,
{
    assert(x0 == y0) by (bit_vector)
        requires
            x0 / 4 == y0 / 4,
            (x0 % 4) * 16 == (y0 % 4) * 16,
    ;
}

/// Distinct byte strings have distinct encodings.
pub proof fn lemma_b64url_injective(a: Seq<u8>, b: Seq<u8>)
    requires
        b64url(a) == b64url(b),
    ensures
        a == b,
    decreases a.len(),
{
    lemma_b64url_len(a);
    lemma_b64url_len(b);
    let ea = b64url(a);
    if a.len() >= 3 && b.len() >= 3 {
        let ta = a.subrange(3, a.len() as int);
        let tb = b.subrange(3, b.len() as int);
        let ga = seq![
            b64_symbol(a[0] as int / 4),
            b64_symbol((a[0] as int % 4) * 16 + a[1] as int / 16),
            b64_symbol((a[1] as int % 16) * 4 + a[2] as int / 64),
            b64_symbol(a[2] as int % 64),
        ];
        let gb = seq![
            b64_symbol(b[0] as int / 4),
            b64_symbol((b[0] as int % 4) * 16 + b[1] as int / 16),
            b64_symbol((b[1] as int % 16) * 4 + b[2] as int / 64),
            b64_symbol(b[2] as int % 64),
        ];
        assert(ea == ga + b64url(ta));
        assert(b64url(b) == gb + b64url(tb));
        assert(ga[0] == ea[0] && ga[1] == ea[1] && ga[2] == ea[2] && ga[3] == ea[3]);
        assert(gb[0] == ea[0] && gb[1] == ea[1] && gb[2] == ea[2] && gb[3] == ea[3]);
        lemma_symbol_injective(a[0] as int / 4, b[0] as int / 4);
        lemma_symbol_injective(
            (a[0] as int % 4) * 16 + a[1] as int / 16,
            (b[0] as int % 4) * 16 + b[1] as int / 16,
        );
        lemma_symbol_injective(
            (a[1] as int % 16) * 4 + a[2] as int / 64,
            (b[1] as int % 16) * 4 + b[2] as int / 64,
        );
        lemma_symbol_injective(a[2] as int % 64, b[2] as int % 64);
        lemma_bytes_of_group(a[0], a[1], a[2], b[0], b[1], b[2]);
        assert(b64url(ta) =~= ea.subrange(4, ea.len() as int));
        assert(b64url(tb) =~= ea.subrange(4, ea.len() as int));
        lemma_b64url_injective(ta, tb);
        assert(a =~= seq![a[0], a[1], a[2]] + ta);
        assert(b =~= seq![b[0], b[1], b[2]] + tb);
    } else {
        assert(a.len() == b.len());
        if a.len() == 1 {
            assert(ea[0] == b64url(b)[0] && ea[1] == b64url(b)[1]);
            lemma_symbol_injective(a[0] as int / 4, b[0] as int / 4);
            lemma_symbol_injective((a[0] as int % 4) * 16, (b[0] as int % 4) * 16);
            lemma_bytes_of_single(a[0], b[0]);
            assert(a =~= b);
        } else if a.len() == 2 {
            assert(ea[0] == b64url(b)[0] && ea[1] == b64url(b)[1] && ea[2] == b64url(b)[2]);
            lemma_symbol_injective(a[0] as int / 4, b[0] as int / 4);
            lemma_symbol_injective(
                (a[0] as int % 4) * 16 + a[1] as int / 16,
                (b[0] as int % 4) * 16 + b[1] as int / 16,
            );
            lemma_symbol_injective((a[1] as int % 16) * 4, (b[1] as int % 16) * 4);
            lemma_bytes_of_pair(a[0], a[1], b[0], b[1]);
            assert(a =~= b);
        } else {
            assert(a =~= b);
        }
    }
}

/// Decoding a shared link gives back exactly the bytes that were encoded:
/// whatever a decoder with the contract of `decode_config_from_url` returns
/// for the text that `encode_config_to_url` made of `config_json` is
/// `config_json` itself.
pub proof fn lemma_share_round_trip(config_json: Seq<u8>, decoded: Option<Seq<u8>>)
    requires
        decodes_to(b64url(config_json), decoded),
    ensures
        decoded == Some(config_json),
{
    assert(b64url(config_json) == b64url(config_json));
    let v = decoded->0;
    lemma_b64url_injective(v, config_json);
}

// ---------------------------------------------------------------------------
// Links and the initial configuration
// ---------------------------------------------------------------------------

/// Relies on std's `str::chars`, collected in order.
#[verifier::external_body]
fn chars_of(s: &str) -> (r: Vec<char>)
    ensures
        r@ == s@,
{
    s.chars().collect()
}

/// Position of the first `c` in `s`, or the length of `s` when there is none.
pub open spec fn index_of(s: Seq<char>, c: char) -> int
    decreases s.len(),
{
    if s.len() == 0 {
        0
    } else if s[0] == c {
        0
    } else {
        1 + index_of(s.drop_first(), c)
    }
}

proof fn lemma_index_of(s: Seq<char>, c: char, i: int)
    requires
        0 <= i <= s.len(),
        forall|k: int| 0 <= k < i ==> s[k] != c,
        i == s.len() || s[i] == c,
    ensures
        index_of(s, c) == i,
    decreases i,
{
    if i > 0 {
        lemma_index_of(s.drop_first(), c, i - 1);
    }
}

/// A page address without its query: everything before the first `?`.
pub open spec fn base_url(page_url: Seq<char>) -> Seq<char> {
    page_url.subrange(0, index_of(page_url, '?'))
}

/// Index of the first `c` in `s[from..to]`, or `to` when there is none.
fn find_char(s: &Vec<char>, c: char, from: usize, to: usize) -> (r: usize)
    requires
        from <= to <= s@.len(),
    ensures
        from <= r <= to,
        index_of(s@.subrange(from as int, to as int), c) == r - from,
        forall|k: int| from <= k < r ==> s@[k] != c,
{
    let mut i = from;
    while i < to && s[i] != c
        invariant
            from <= i <= to <= s@.len(),
            forall|k: int| from <= k < i ==> s@[k] != c,
        decreases to - i,
    {
        i = i + 1;
    }
    proof {
        lemma_index_of(s@.subrange(from as int, to as int), c, i - from);
    }
    i
}

/// The page address without its query.
pub fn get_base_url(page_url: &str) -> (r: String)
    ensures
        r@ == base_url(page_url@),
{
    let chars = chars_of(page_url);
    let end = find_char(&chars, '?', 0, chars.len());
    assert(chars@.subrange(0, chars@.len() as int) =~= chars@);
    let head = vstd::slice::slice_subrange(chars.as_slice(), 0, end);
    assert(head@ =~= base_url(page_url@));
    string_of(head)
}

/// The link that shares a configuration: the page address without its query,
/// then `?config=` and the configuration's JSON bytes in URL-safe base64.
pub fn generate_share_url(page_url: &str, config_json: &[u8]) -> (r: String)
    ensures
        r@ == base_url(page_url@) + "?config="@ + b64url(config_json@),
{
    let encoded = encode_config_to_url(config_json);
    let mut url = get_base_url(page_url);
    url.append("?config=");
    url.append(encoded.as_str());
    url
}

/// The configuration to start with: the one carried by the link if there is
/// one, else the stored one, else the built-in default.
pub fn load_initial_config(from_link: Option<Config>, stored: Option<Config>) -> (r: Config)
    ensures
        from_link matches Some(c) ==> r == c,
        from_link is None ==> (stored matches Some(c) ==> r == c),
        from_link is None && stored is None ==> is_default_config(r),
{
    match from_link {
        Some(c) => c,
        None => match stored {
            Some(c) => c,
            None => Config::default(),
        },
    }
}

/// `s` without its leading `?` marks.
pub open spec fn strip_marks(s: Seq<char>) -> Seq<char>
    decreases s.len(),
{
    if s.len() > 0 && s[0] == '?' {
        strip_marks(s.drop_first())
    } else {
        s
    }
}

/// Value of the first pair named `key` in `s`: pairs are separated by `&`,
/// name and value by the first `=`, and a pair without `=` is skipped.
pub open spec fn param_in(s: Seq<char>, key: Seq<char>) -> Option<Seq<char>>
    decreases s.len(),
{
    let end = index_of(s, '&');
    let pair = s.subrange(0, end);
    let eq = index_of(pair, '=');
    if eq < pair.len() && pair.subrange(0, eq) == key {
        Some(pair.subrange(eq + 1, pair.len() as int))
    } else if 0 <= end < s.len() {
        param_in(s.subrange(end + 1, s.len() as int), key)
    } else {
        None
    }
}

/// Value of the parameter `key` in the query part of a page address (with
/// or without its leading `?`).
pub open spec fn query_param(search: Seq<char>, key: Seq<char>) -> Option<Seq<char>> {
    param_in(strip_marks(search), key)
}

fn run_equals(s: &Vec<char>, from: usize, to: usize, key: &Vec<char>) -> (r: bool)
    requires
        from <= to <= s@.len(),
    ensures
        r == (s@.subrange(from as int, to as int) == key@),
{
    if to - from != key.len() {
        return false;
    }
    let mut j: usize = 0;
    while j < key.len()
        invariant
            from <= to <= s@.len(),
            to - from == key@.len(),
            0 <= j <= key@.len(),
            forall|t: int| 0 <= t < j ==> s@[from + t] == key@[t],
        decreases key@.len() - j,
    {
        if s[from + j] != key[j] {
            assert(s@.subrange(from as int, to as int)[j as int] != key@[j as int]);
            return false;
        }
        j = j + 1;
    }
    assert(s@.subrange(from as int, to as int) =~= key@);
    true
}

/// Value of the parameter `key` in the query part `search` of a page
/// address; `None` when no pair carries that name.
pub fn get_query_param(search: &str, key: &str) -> (r: Option<String>)
    ensures
        match query_param(search@, key@) {
            Some(v) => r matches Some(t) && t@ == v,
            None => r is None,
        },
{
    let s = chars_of(search);
    let k = chars_of(key);
    let n = s.len();
    let mut pos: usize = 0;
    assert(s@.subrange(0, n as int) =~= s@);
    while pos < n && s[pos] == '?'
        invariant
            0 <= pos <= n,
            n == s@.len(),
            s@ == search@,
            strip_marks(search@) == strip_marks(s@.subrange(pos as int, n as int)),
        decreases n - pos,
    {
        assert(s@.subrange(pos as int, n as int).drop_first() =~= s@.subrange(pos + 1, n as int));
        pos = pos + 1;
    }
    assert(strip_marks(s@.subrange(pos as int, n as int)) == s@.subrange(pos as int, n as int));
    loop
        invariant
            0 <= pos <= n,
            n == s@.len(),
            k@ == key@,
            query_param(search@, key@) == param_in(s@.subrange(pos as int, n as int), key@),
        decreases n - pos,
    {
        let ghost rest = s@.subrange(pos as int, n as int);
        let end = find_char(&s, '&', pos, n);
        let eq = find_char(&s, '=', pos, end);
        let ghost pair = rest.subrange(0, end - pos);
        assert(pair =~= s@.subrange(pos as int, end as int));
        assert(pair.subrange(0, eq - pos) =~= s@.subrange(pos as int, eq as int));
        if eq < end && run_equals(&s, pos, eq, &k) {
            let value = vstd::slice::slice_subrange(s.as_slice(), eq + 1, end);
            assert(value@ =~= pair.subrange(eq - pos + 1, pair.len() as int));
            return Some(string_of(value));
        }
        if end < n {
            assert(rest.subrange(end - pos + 1, rest.len() as int) =~= s@.subrange(end + 1, n as int));
            pos = end + 1;
        } else {
            return None;
        }
    }
}

} // verus!
