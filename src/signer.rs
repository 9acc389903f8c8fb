//! Canonical query strings and their keyed signatures.
use vstd::prelude::*;
use vstd::utf8::encode_utf8;
use hmac::Mac;
use crate::params::{key_lt, lemma_entries_map_at, lemma_key_lt_asymmetric, lemma_key_lt_irreflexive, lemma_sorted_keys_distinct, sorted_entries, entries_map, Entry, ParameterSet};
use crate::text::{decimal_of, u64_to_decimal};

verus! {

/// A byte that form encoding writes as itself.
pub open spec fn form_unchanged(b: u8) -> bool {
    b == 42 || b == 45 || b == 46 || (48 <= b <= 57) || (65 <= b <= 90) || b == 95 || (97 <= b <= 122)
}

/// An upper-case hexadecimal digit.
pub open spec fn upper_hex_char(d: nat) -> char {
    if d < 10 { ((d + 48) as u8) as char } else { ((d + 55) as u8) as char }
}

/// The form encoding of one byte: kept, `+` for a space, else `%XX`.
pub open spec fn form_byte(b: u8) -> Seq<char> {
    if form_unchanged(b) {
        seq![b as char]
    } else if b == 32 {
        seq!['+']
    } else {
        seq!['%', upper_hex_char((b / 16) as nat), upper_hex_char((b % 16) as nat)]
    }
}

/// `application/x-www-form-urlencoded` text of a byte string.
pub open spec fn form_encoded(b: Seq<u8>) -> Seq<char>
    decreases b.len(),
{
    if b.len() == 0 {
        seq![]
    } else {
        form_encoded(b.drop_last()) + form_byte(b.last())
    }
}

/// Relies on url::form_urlencoded::byte_serialize: each byte of the UTF-8
/// text is kept, written `+` (a space) or written `%XX`, as `form_byte` says.
#[verifier::external_body]
fn form_encode(s: &str) -> (r: String)
    ensures
        r@ == form_encoded(encode_utf8(s@)),
{
    url::form_urlencoded::byte_serialize(s.as_bytes()).collect()
}

/// The keyed SHA-256 message authentication code of `msg` under `key`.
pub uninterp spec fn hmac_sha256_of(key: Seq<u8>, msg: Seq<u8>) -> Seq<u8>;

/// Relies on hmac's `Hmac<Sha256>` (with sha2): `new_from_slice` accepts a
/// key of any length, and the tag is the 32 bytes of HMAC-SHA256.
#[verifier::external_body]
fn hmac_sha256(key: &[u8], msg: &[u8]) -> (r: Vec<u8>)
    ensures
        r@ == hmac_sha256_of(key@, msg@),
        r@.len() == 32,
{
    match hmac::Hmac::<sha2::Sha256>::new_from_slice(key) {
        Ok(mut mac) => {
            mac.update(msg);
            mac.finalize().into_bytes().to_vec()
        },
        Err(_) => Vec::new(),
    }
}

/// A lower-case hexadecimal digit.
pub open spec fn lower_hex_char(d: nat) -> char {
    if d == 0 { '0' }
    else if d == 1 { '1' }
    else if d == 2 { '2' }
    else if d == 3 { '3' }
    else if d == 4 { '4' }
    else if d == 5 { '5' }
    else if d == 6 { '6' }
    else if d == 7 { '7' }
    else if d == 8 { '8' }
    else if d == 9 { '9' }
    else if d == 10 { 'a' }
    else if d == 11 { 'b' }
    else if d == 12 { 'c' }
    else if d == 13 { 'd' }
    else if d == 14 { 'e' } else { 'f' }
}

/// Lower-case hexadecimal text of a byte string, two digits a byte.
pub open spec fn hex_of(b: Seq<u8>) -> Seq<char>
    decreases b.len(),
{
    if b.len() == 0 {
        seq![]
    } else {
        hex_of(b.drop_last()) + seq![lower_hex_char((b.last() / 16) as nat), lower_hex_char((b.last() % 16) as nat)]
    }
}

fn hex_digit(d: u8) -> (r: &'static str)
    requires
        d < 16,
    ensures
        r@ == seq![lower_hex_char(d as nat)],
{
    proof {
        reveal_strlit("0");
        reveal_strlit("1");
        reveal_strlit("2");
        reveal_strlit("3");
        reveal_strlit("4");
        reveal_strlit("5");
        reveal_strlit("6");
        reveal_strlit("7");
        reveal_strlit("8");
        reveal_strlit("9");
        reveal_strlit("a");
        reveal_strlit("b");
        reveal_strlit("c");
        reveal_strlit("d");
        reveal_strlit("e");
        reveal_strlit("f");
    }
    let r = match d {
        0 => "0",
        1 => "1",
        2 => "2",
        3 => "3",
        4 => "4",
        5 => "5",
        6 => "6",
        7 => "7",
        8 => "8",
        9 => "9",
        10 => "a",
        11 => "b",
        12 => "c",
        13 => "d",
        14 => "e",
        _ => "f",
    };
    assert(r@ =~= seq![lower_hex_char(d as nat)]);
    r
}

/// Lower-case hexadecimal text of a byte string.
pub fn hex_encode(b: &[u8]) -> (r: String)
    ensures
        r@ == hex_of(b@),
{
    let mut out = String::new();
    let mut i: usize = 0;
    while i < b.len()
        invariant
            i <= b@.len(),
            out@ == hex_of(b@.subrange(0, i as int)),
        decreases b@.len() - i,
    {
        let x = b[i];
        out.append(hex_digit(x / 16));
        out.append(hex_digit(x % 16));
        assert(b@.subrange(0, i + 1).drop_last() =~= b@.subrange(0, i as int));
        assert(out@ =~= hex_of(b@.subrange(0, i + 1)));
        i = i + 1;
    }
    assert(b@.subrange(0, b@.len() as int) =~= b@);
    out
}

/// One field of a query string: `name=encoded value`.
pub open spec fn pair_text(e: Entry) -> Seq<char> {
    e.0 + "="@ + form_encoded(encode_utf8(e.1))
}

/// The fields joined by `&`, in the order given.
pub open spec fn query_of(s: Seq<Entry>) -> Seq<char>
    decreases s.len(),
{
    if s.len() == 0 {
        seq![]
    } else if s.len() == 1 {
        pair_text(s[0])
    } else {
        query_of(s.drop_last()) + "&"@ + pair_text(s.last())
    }
}

/// Serialises parameters to a query string in their canonical order.
pub fn build_request(params: &ParameterSet) -> (r: String)
    ensures
        r@ == query_of(params@),
{
    let mut out = String::new();
    let n = params.len();
    let mut i: usize = 0;
    while i < n
        invariant
            n == params@.len(),
            i <= n,
            out@ == query_of(params@.subrange(0, i as int)),
        decreases n - i,
    {
        let (k, v) = params.entry(i);
        let ghost before = out@;
        if i > 0 {
            out.append("&");
        }
        out.append(k);
        out.append("=");
        let enc = form_encode(v);
        out.append(enc.as_str());
        proof {
            let p = params@.subrange(0, i + 1);
            assert(p.drop_last() =~= params@.subrange(0, i as int));
            assert(p.last() == params@[i as int]);
            if i == 0 {
                assert(out@ =~= pair_text(p[0]));
            } else {
                assert(out@ =~= before + "&"@ + pair_text(p.last()));
            }
        }
        i = i + 1;
    }
    assert(params@.subrange(0, n as int) =~= params@);
    out
}

/// The signature of a query: the hexadecimal HMAC-SHA256 tag of its bytes.
pub open spec fn signature_of(query: Seq<char>, key: Seq<u8>) -> Seq<char> {
    hex_of(hmac_sha256_of(key, encode_utf8(query)))
}

/// A query with its signature appended as the last field.
pub open spec fn signed_query(query: Seq<char>, key: Seq<u8>) -> Seq<char> {
    query + "&signature="@ + signature_of(query, key)
}

/// Appends `signature=<hex>` to a query, signed with `secret_key`.
pub fn sign_query(query: &str, secret_key: &str) -> (r: String)
    ensures
        r@ == signed_query(query@, encode_utf8(secret_key@)),
{
    let tag = hmac_sha256(secret_key.as_bytes(), query.as_bytes());
    let hex = hex_encode(tag.as_slice());
    let mut out = String::from_str(query);
    out.append("&signature=");
    out.append(hex.as_str());
    out
}

/// The fields a signed request carries: the given ones, `recvWindow` when the
/// window is not zero, and `timestamp`.
pub open spec fn signing_map(m: Map<Seq<char>, Seq<char>>, recv_window: u64, timestamp: u64) -> Map<
    Seq<char>,
    Seq<char>,
> {
    let w = if recv_window > 0 {
        m.insert("recvWindow"@, decimal_of(recv_window as nat))
    } else {
        m
    };
    w.insert("timestamp"@, decimal_of(timestamp as nat))
}

/// The one sorted sequence of entries that stands for a finite mapping.
pub open spec fn canonical_entries(m: Map<Seq<char>, Seq<char>>) -> Seq<Entry> {
    choose|s: Seq<Entry>| sorted_entries(s) && entries_map(s) == m
}

/// The signed query string of a mapping of fields.
pub open spec fn signed_request_of(
    m: Map<Seq<char>, Seq<char>>,
    recv_window: u64,
    timestamp: u64,
    key: Seq<u8>,
) -> Seq<char> {
    signed_query(query_of(canonical_entries(signing_map(m, recv_window, timestamp))), key)
}

proof fn lemma_entries_map_drop_first(s: Seq<Entry>)
    requires
        sorted_entries(s),
        s.len() > 0,
    ensures
        sorted_entries(s.drop_first()),
        entries_map(s.drop_first()) == entries_map(s).remove(s[0].0),
{
    let t = s.drop_first();
    assert(sorted_entries(t)) by {
        assert forall|i: int, j: int| 0 <= i < j < t.len() implies key_lt(#[trigger] t[i].0, #[trigger] t[j].0) by {
            assert(key_lt(s[i + 1].0, s[j + 1].0));
        }
    }
    let m = entries_map(t);
    let m0 = entries_map(s).remove(s[0].0);
    assert forall|k: Seq<char>| m.contains_key(k) <==> m0.contains_key(k) by {
        if m.contains_key(k) {
            let j = choose|j: int| 0 <= j < t.len() && #[trigger] t[j].0 == k;
            lemma_entries_map_at(s, j + 1);
            lemma_sorted_keys_distinct(s, 0, j + 1);
        }
        if m0.contains_key(k) {
            let j = choose|j: int| 0 <= j < s.len() && #[trigger] s[j].0 == k;
            assert(j != 0);
            assert(t[j - 1].0 == k);
        }
    }
    assert forall|k: Seq<char>| m.contains_key(k) implies m[k] == m0[k] by {
        let j = choose|j: int| 0 <= j < t.len() && #[trigger] t[j].0 == k;
        lemma_entries_map_at(t, j);
        lemma_entries_map_at(s, j + 1);
    }
    assert(m =~= m0);
}

/// Two sorted sequences of entries that stand for the same mapping are equal:
/// the canonical order leaves no choice.
pub proof fn lemma_sorted_entries_unique(s: Seq<Entry>, t: Seq<Entry>)
    requires
        sorted_entries(s),
        sorted_entries(t),
        entries_map(s) == entries_map(t),
    ensures
        s == t,
    decreases s.len(),
{
    if s.len() == 0 {
        if t.len() > 0 {
            lemma_entries_map_at(t, 0);
        }
        assert(s =~= t);
    } else {
        lemma_entries_map_at(s, 0);
        if t.len() == 0 {
            assert(entries_map(t).contains_key(s[0].0));
        }
        lemma_entries_map_at(t, 0);
        let k = s[0].0;
        let j = choose|j: int| 0 <= j < t.len() && #[trigger] t[j].0 == k;
        if j != 0 {
            assert(key_lt(t[0].0, t[j].0));
            let i = choose|i: int| 0 <= i < s.len() && #[trigger] s[i].0 == t[0].0;
            if i == 0 {
                lemma_key_lt_irreflexive(k);
            } else {
                assert(key_lt(s[0].0, s[i].0));
                lemma_key_lt_asymmetric(k, t[0].0);
            }
        }
        assert(t[0].0 == k);
        assert(s[0] == t[0]);
        lemma_entries_map_drop_first(s);
        lemma_entries_map_drop_first(t);
        lemma_sorted_entries_unique(s.drop_first(), t.drop_first());
        assert(s =~= seq![s[0]] + s.drop_first());
        assert(t =~= seq![t[0]] + t.drop_first());
    }
}

/// The sorted sequence of a well-formed parameter set is the canonical one.
pub proof fn lemma_canonical_entries(params: ParameterSet)
    requires
        params.wf(),
    ensures
        canonical_entries(params.as_map()) == params@,
{
    let m = params.as_map();
    assert(sorted_entries(params@) && entries_map(params@) == m);
    let c = canonical_entries(m);
    lemma_sorted_entries_unique(c, params@);
}

/// Adds `recvWindow` (when the window is not zero) and `timestamp` to the
/// parameters, serialises them in canonical order and signs the result.
pub fn build_signed_request_custom(
    params: ParameterSet,
    recv_window: u64,
    timestamp: u64,
    secret_key: &str,
) -> (r: String)
    ensures
        r@ == signed_request_of(params.as_map(), recv_window, timestamp, encode_utf8(secret_key@)),
{
    let mut params = params;
    if recv_window > 0 {
        params.insert(String::from_str("recvWindow"), u64_to_decimal(recv_window));
    }
    params.insert(String::from_str("timestamp"), u64_to_decimal(timestamp));
    proof {
        use_type_invariant(&params);
        lemma_canonical_entries(params);
    }
    let query = build_request(&params);
    sign_query(query.as_str(), secret_key)
}

/// Signing is deterministic: the same fields, window, timestamp and key give
/// the same bytes, whatever order the fields were inserted in.
pub proof fn lemma_signing_deterministic(
    a: ParameterSet,
    b: ParameterSet,
    recv_window: u64,
    timestamp: u64,
    key: Seq<u8>,
)
    requires
        a.wf(),
        b.wf(),
        a.as_map() == b.as_map(),
    ensures
        a@ == b@,
        signed_request_of(a.as_map(), recv_window, timestamp, key) == signed_request_of(
            b.as_map(),
            recv_window,
            timestamp,
            key,
        ),
{
    lemma_sorted_entries_unique(a@, b@);
}

} // verus!
