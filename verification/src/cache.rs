//! A bounded response cache with time-to-live expiry and least-recently-used
//! eviction, and the fingerprint under which the conversation engine stores
//! responses.
//!
//! Time is a count of nanoseconds on a monotonic clock of the caller's choice;
//! every operation that depends on the time takes it as `now`.

use vstd::prelude::*;
use vstd::utf8::encode_utf8;
use crate::text::{from_chars, same_str, views};

verus! {

/// The SHA-256 digest of a byte sequence.
pub uninterp spec fn spec_sha256(data: Seq<u8>) -> Seq<u8>;

/// The SHA-256 digest of `data`.
///
/// Trusted: `sha2::Sha256::digest` hashes exactly the bytes handed to it, and
/// its result depends on nothing else.
#[verifier::external_body]
fn sha256(data: &[u8]) -> (out: Vec<u8>)
    ensures
        out@ == spec_sha256(data@),
{
    <sha2::Sha256 as sha2::Digest>::digest(data).to_vec()
}

/// The byte that separates the parts of a fingerprint's preimage (`|`).
pub const SEPARATOR: u8 = 0x7c;

/// Nanoseconds in one second.
pub const NANOS_PER_SECOND: u64 = 1_000_000_000;

/// The bytes that are hashed for a user message and the tool results of the
/// turn so far: the message, then for each result the separator and the result.
pub open spec fn key_material(message: Seq<char>, results: Seq<Seq<char>>) -> Seq<u8>
    decreases results.len(),
{
    if results.len() == 0 {
        encode_utf8(message)
    } else {
        key_material(message, results.drop_last()) + seq![SEPARATOR] + encode_utf8(results.last())
    }
}

/// The lower-case hexadecimal digit of a value below 16.
pub open spec fn hex_digit(n: int) -> char {
    if n == 0 {
        '0'
    } else if n == 1 {
        '1'
    } else if n == 2 {
        '2'
    } else if n == 3 {
        '3'
    } else if n == 4 {
        '4'
    } else if n == 5 {
        '5'
    } else if n == 6 {
        '6'
    } else if n == 7 {
        '7'
    } else if n == 8 {
        '8'
    } else if n == 9 {
        '9'
    } else if n == 10 {
        'a'
    } else if n == 11 {
        'b'
    } else if n == 12 {
        'c'
    } else if n == 13 {
        'd'
    } else if n == 14 {
        'e'
    } else {
        'f'
    }
}

/// The lower-case hexadecimal text of a byte sequence, two digits per byte.
pub open spec fn hex_lower(bytes: Seq<u8>) -> Seq<char>
    decreases bytes.len(),
{
    if bytes.len() == 0 {
        seq![]
    } else {
        hex_lower(bytes.drop_last()).push(hex_digit(bytes.last() as int / 16)).push(
            hex_digit(bytes.last() as int % 16),
        )
    }
}

/// The fingerprint of a user message and the tool results produced so far.
pub open spec fn spec_key(message: Seq<char>, results: Seq<Seq<char>>) -> Seq<char> {
    hex_lower(spec_sha256(key_material(message, results)))
}

fn hex_char(n: u8) -> (c: char)
    requires
        n < 16,
    ensures
        c == hex_digit(n as int),
{
    if n == 0 {
        '0'
    } else if n == 1 {
        '1'
    } else if n == 2 {
        '2'
    } else if n == 3 {
        '3'
    } else if n == 4 {
        '4'
    } else if n == 5 {
        '5'
    } else if n == 6 {
        '6'
    } else if n == 7 {
        '7'
    } else if n == 8 {
        '8'
    } else if n == 9 {
        '9'
    } else if n == 10 {
        'a'
    } else if n == 11 {
        'b'
    } else if n == 12 {
        'c'
    } else if n == 13 {
        'd'
    } else if n == 14 {
        'e'
    } else {
        'f'
    }
}

/// The lower-case hexadecimal text of `bytes`.
pub fn to_hex(bytes: &[u8]) -> (out: String)
    ensures
        out@ == hex_lower(bytes@),
{
    let mut chars: Vec<char> = Vec::new();
    let mut i: usize = 0;
    assert(bytes@.take(0) =~= Seq::<u8>::empty());
    while i < bytes.len()
        invariant
            i <= bytes.len(),
            chars@ == hex_lower(bytes@.take(i as int)),
        decreases bytes.len() - i,
    {
        let b = bytes[i];
        proof {
            let next = bytes@.take(i + 1);
            assert(next.drop_last() =~= bytes@.take(i as int));
            assert(next.last() == b);
        }
        chars.push(hex_char(b / 16));
        chars.push(hex_char(b % 16));
        i += 1;
    }
    assert(bytes@.take(bytes.len() as int) =~= bytes@);
    from_chars(chars.as_slice())
}

fn extend_bytes(out: &mut Vec<u8>, tail: &[u8])
    ensures
        final(out)@ == old(out)@ + tail@,
{
    let mut i: usize = 0;
    while i < tail.len()
        invariant
            i <= tail.len(),
            out@ == old(out)@ + tail@.take(i as int),
        decreases tail.len() - i,
    {
        out.push(tail[i]);
        i += 1;
    }
}

/// One stored response as contracts see it.
pub struct EntryView {
    pub key: Seq<char>,
    pub response: Seq<char>,
    pub created_at: nat,
    pub access_count: nat,
}

/// The time that has passed since `created`, never negative.
pub open spec fn age(created: nat, now: nat) -> nat {
    if now >= created {
        (now - created) as nat
    } else {
        0
    }
}

/// An entry is expired once its age exceeds the time to live.
pub open spec fn is_expired(e: EntryView, ttl_seconds: nat, now: nat) -> bool {
    age(e.created_at, now) > ttl_seconds * NANOS_PER_SECOND
}

/// The first position whose entry has the key, or the length if none has.
pub open spec fn index_of(entries: Seq<EntryView>, key: Seq<char>) -> int
    decreases entries.len(),
{
    if entries.len() == 0 {
        0
    } else if entries[0].key == key {
        0
    } else {
        1 + index_of(entries.drop_first(), key)
    }
}

/// Some entry has the key.
pub open spec fn has_key(entries: Seq<EntryView>, key: Seq<char>) -> bool {
    index_of(entries, key) < entries.len()
}

/// No two entries share a key.
pub open spec fn distinct_keys(entries: Seq<EntryView>) -> bool {
    forall|i: int, j: int|
        0 <= i < j < entries.len() ==> (#[trigger] entries[i]).key != (#[trigger] entries[j]).key
}

/// The entry after a read: one more access, and its age starts again.
pub open spec fn refreshed(e: EntryView, now: nat) -> EntryView {
    EntryView {
        key: e.key,
        response: e.response,
        created_at: now,
        access_count: if e.access_count < u32::MAX {
            e.access_count + 1
        } else {
            e.access_count
        },
    }
}

/// What a read of `key` at time `now` returns.
pub open spec fn get_result(entries: Seq<EntryView>, ttl_seconds: nat, key: Seq<char>, now: nat)
    -> Option<Seq<char>> {
    let i = index_of(entries, key);
    if i < entries.len() && !is_expired(entries[i], ttl_seconds, now) {
        Some(entries[i].response)
    } else {
        None
    }
}

/// The entries after a read of `key` at time `now`.
pub open spec fn after_get(entries: Seq<EntryView>, ttl_seconds: nat, key: Seq<char>, now: nat)
    -> Seq<EntryView> {
    let i = index_of(entries, key);
    if i >= entries.len() {
        entries
    } else if is_expired(entries[i], ttl_seconds, now) {
        entries.remove(i)
    } else {
        entries.update(i, refreshed(entries[i], now))
    }
}

/// `a` is evicted before `b`: fewer accesses, or as many and older.
pub open spec fn lru_before(a: EntryView, b: EntryView) -> bool {
    a.access_count < b.access_count || (a.access_count == b.access_count && a.created_at
        < b.created_at)
}

/// Position `i` holds the eviction victim: no entry comes before it, and it
/// comes before every entry stored ahead of it.
pub open spec fn is_lru(entries: Seq<EntryView>, i: int) -> bool {
    &&& 0 <= i < entries.len()
    &&& forall|j: int| 0 <= j < entries.len() ==> !lru_before(#[trigger] entries[j], entries[i])
    &&& forall|j: int| 0 <= j < i ==> lru_before(entries[i], #[trigger] entries[j])
}

/// The position of the eviction victim (0 for an empty sequence).
pub open spec fn lru_index(entries: Seq<EntryView>) -> int
    decreases entries.len(),
{
    if entries.len() <= 1 {
        0
    } else {
        let p = lru_index(entries.drop_last());
        if lru_before(entries.last(), entries[p]) {
            entries.len() - 1
        } else {
            p
        }
    }
}

/// The entries after storing `response` under `key` at time `now`.
pub open spec fn after_put(
    entries: Seq<EntryView>,
    capacity: nat,
    key: Seq<char>,
    response: Seq<char>,
    now: nat,
) -> Seq<EntryView> {
    let fresh = EntryView { key, response, created_at: now, access_count: 1 };
    if has_key(entries, key) {
        entries.update(index_of(entries, key), fresh)
    } else if entries.len() >= capacity && entries.len() > 0 {
        entries.remove(lru_index(entries)).push(fresh)
    } else {
        entries.push(fresh)
    }
}

/// The number of entries that are expired at time `now`.
pub open spec fn expired_count(entries: Seq<EntryView>, ttl_seconds: nat, now: nat) -> nat
    decreases entries.len(),
{
    if entries.len() == 0 {
        0
    } else {
        expired_count(entries.drop_last(), ttl_seconds, now) + if is_expired(
            entries.last(),
            ttl_seconds,
            now,
        ) {
            1nat
        } else {
            0nat
        }
    }
}

/// `index_of` finds the first entry with the key.
pub proof fn lemma_index_of(entries: Seq<EntryView>, key: Seq<char>)
    ensures
        0 <= index_of(entries, key) <= entries.len(),
        has_key(entries, key) ==> entries[index_of(entries, key)].key == key,
        forall|j: int| 0 <= j < index_of(entries, key) ==> (#[trigger] entries[j]).key != key,
    decreases entries.len(),
{
    if entries.len() > 0 && entries[0].key != key {
        let rest = entries.drop_first();
        lemma_index_of(rest, key);
        assert forall|j: int| 0 <= j < index_of(entries, key) implies (#[trigger] entries[j]).key
            != key by {
            if j > 0 {
                assert(entries[j] == rest[j - 1]);
            }
        }
        if has_key(entries, key) {
            assert(entries[index_of(entries, key)] == rest[index_of(rest, key)]);
        }
    }
}

/// An entry that holds the key at position `i`, with none before it, is the
/// one that `index_of` finds.
pub proof fn lemma_index_of_is(entries: Seq<EntryView>, key: Seq<char>, i: int)
    requires
        0 <= i <= entries.len(),
        i < entries.len() ==> entries[i].key == key,
        forall|j: int| 0 <= j < i ==> (#[trigger] entries[j]).key != key,
    ensures
        index_of(entries, key) == i,
{
    lemma_index_of(entries, key);
    let k = index_of(entries, key);
    if k < i {
        assert(entries[k].key != key);
    }
}

/// In a non-empty sequence `lru_index` is the position of the victim.
pub proof fn lemma_lru_index(entries: Seq<EntryView>)
    requires
        entries.len() > 0,
    ensures
        is_lru(entries, lru_index(entries)),
    decreases entries.len(),
{
    if entries.len() > 1 {
        let front = entries.drop_last();
        lemma_lru_index(front);
        let p = lru_index(front);
        let r = lru_index(entries);
        assert(front[p] == entries[p]);
        assert forall|j: int| 0 <= j < entries.len() implies !lru_before(
            #[trigger] entries[j],
            entries[r],
        ) by {
            if j < entries.len() - 1 {
                assert(front[j] == entries[j]);
            }
        }
        assert forall|j: int| 0 <= j < r implies lru_before(entries[r], #[trigger] entries[j]) by {
            assert(front[j] == entries[j]);
        }
    }
}

/// The victim is unique.
pub proof fn lemma_lru_unique(entries: Seq<EntryView>, i: int, j: int)
    requires
        is_lru(entries, i),
        is_lru(entries, j),
    ensures
        i == j,
{
    if i < j {
        assert(lru_before(entries[j], entries[i]));
    } else if j < i {
        assert(lru_before(entries[i], entries[j]));
    }
}

/// The hexadecimal text has two characters for each byte.
pub proof fn lemma_hex_len(bytes: Seq<u8>)
    ensures
        hex_lower(bytes).len() == 2 * bytes.len(),
    decreases bytes.len(),
{
    if bytes.len() > 0 {
        lemma_hex_len(bytes.drop_last());
    }
}

/// Different byte sequences have different hexadecimal texts.
pub proof fn lemma_hex_injective(a: Seq<u8>, b: Seq<u8>)
    requires
        hex_lower(a) == hex_lower(b),
    ensures
        a == b,
    decreases a.len(),
{
    lemma_hex_len(a);
    lemma_hex_len(b);
    if a.len() > 0 {
        let ha = hex_lower(a.drop_last());
        let hb = hex_lower(b.drop_last());
        let x = a.last() as int;
        let y = b.last() as int;
        let ta = ha.push(hex_digit(x / 16)).push(hex_digit(x % 16));
        let tb = hb.push(hex_digit(y / 16)).push(hex_digit(y % 16));
        assert(ta == tb);
        lemma_hex_len(a.drop_last());
        lemma_hex_len(b.drop_last());
        assert(ta[ta.len() - 1] == hex_digit(x % 16));
        assert(tb[tb.len() - 1] == hex_digit(y % 16));
        assert(ta[ta.len() - 2] == hex_digit(x / 16));
        assert(tb[tb.len() - 2] == hex_digit(y / 16));
        assert(x == y);
        assert(ha =~= ta.take(ta.len() - 2));
        assert(hb =~= tb.take(tb.len() - 2));
        lemma_hex_injective(a.drop_last(), b.drop_last());
        assert(a =~= a.drop_last().push(a.last()));
        assert(b =~= b.drop_last().push(b.last()));
    } else {
        assert(a =~= b);
    }
}

/// The cache fingerprint is a function of the message and the ordered tool
/// results alone: equal inputs give equal keys.
pub proof fn law_key_is_deterministic(
    m1: Seq<char>,
    r1: Seq<Seq<char>>,
    m2: Seq<char>,
    r2: Seq<Seq<char>>,
)
    requires
        m1 == m2,
        r1 == r2,
    ensures
        spec_key(m1, r1) == spec_key(m2, r2),
{
}

/// Two fingerprints are equal exactly when the digests of their preimages are
/// equal: the hexadecimal rendering loses nothing.
pub proof fn lemma_key_equal_iff_digest_equal(
    m1: Seq<char>,
    r1: Seq<Seq<char>>,
    m2: Seq<char>,
    r2: Seq<Seq<char>>,
)
    ensures
        (spec_key(m1, r1) == spec_key(m2, r2)) == (spec_sha256(key_material(m1, r1))
            == spec_sha256(key_material(m2, r2))),
{
    if spec_key(m1, r1) == spec_key(m2, r2) {
        lemma_hex_injective(
            spec_sha256(key_material(m1, r1)),
            spec_sha256(key_material(m2, r2)),
        );
    }
}

/// The number of separator bytes in a byte sequence.
pub open spec fn separators(bytes: Seq<u8>) -> nat
    decreases bytes.len(),
{
    if bytes.len() == 0 {
        0
    } else {
        separators(bytes.drop_last()) + if bytes.last() == SEPARATOR {
            1nat
        } else {
            0nat
        }
    }
}

/// No text of the sequence holds the separator.
pub open spec fn separator_free(parts: Seq<Seq<char>>) -> bool {
    forall|i: int| 0 <= i < parts.len() ==> !encode_utf8(#[trigger] parts[i]).contains(SEPARATOR)
}

proof fn lemma_separators_concat(a: Seq<u8>, b: Seq<u8>)
    ensures
        separators(a + b) == separators(a) + separators(b),
    decreases b.len(),
{
    if b.len() == 0 {
        assert(a + b =~= a);
    } else {
        assert((a + b).drop_last() =~= a + b.drop_last());
        lemma_separators_concat(a, b.drop_last());
    }
}

proof fn lemma_separators_none(a: Seq<u8>)
    ensures
        (separators(a) == 0) == !a.contains(SEPARATOR),
    decreases a.len(),
{
    if a.len() > 0 {
        lemma_separators_none(a.drop_last());
        if a.contains(SEPARATOR) {
            let i = choose|i: int| 0 <= i < a.len() && a[i] == SEPARATOR;
            if i < a.len() - 1 {
                assert(a.drop_last()[i] == SEPARATOR);
            }
        } else {
            assert forall|i: int| 0 <= i < a.drop_last().len() implies a.drop_last()[i]
                != SEPARATOR by {
                assert(a.drop_last()[i] == a[i]);
            }
        }
    }
}

proof fn lemma_material_separators(message: Seq<char>, results: Seq<Seq<char>>)
    requires
        !encode_utf8(message).contains(SEPARATOR),
        separator_free(results),
    ensures
        separators(key_material(message, results)) == results.len(),
    decreases results.len(),
{
    if results.len() == 0 {
        lemma_separators_none(encode_utf8(message));
    } else {
        let front = results.drop_last();
        assert forall|i: int| 0 <= i < front.len() implies !encode_utf8(
            #[trigger] front[i],
        ).contains(SEPARATOR) by {
            assert(front[i] == results[i]);
        }
        lemma_material_separators(message, front);
        let head = key_material(message, front);
        lemma_separators_concat(head, seq![SEPARATOR]);
        lemma_separators_concat(head + seq![SEPARATOR], encode_utf8(results.last()));
        lemma_separators_none(encode_utf8(results.last()));
        assert(separators(seq![SEPARATOR]) == 1) by {
            let one = seq![SEPARATOR];
            assert(one.len() == 1);
            assert(one.last() == SEPARATOR);
            assert(one.drop_last().len() == 0);
            assert(separators(one.drop_last()) == 0);
        }
    }
}

proof fn lemma_peel(p1: Seq<u8>, l1: Seq<u8>, p2: Seq<u8>, l2: Seq<u8>)
    requires
        p1 + seq![SEPARATOR] + l1 == p2 + seq![SEPARATOR] + l2,
        !l1.contains(SEPARATOR),
        !l2.contains(SEPARATOR),
    ensures
        p1 == p2,
        l1 == l2,
{
    let a = p1 + seq![SEPARATOR] + l1;
    let b = p2 + seq![SEPARATOR] + l2;
    assert(a.len() == p1.len() + 1 + l1.len());
    assert(b.len() == p2.len() + 1 + l2.len());
    if l1.len() < l2.len() {
        assert(a[p1.len() as int] == SEPARATOR);
        assert(b[p1.len() as int] == l2[p1.len() - p2.len() - 1]);
        assert(false);
    }
    if l2.len() < l1.len() {
        assert(b[p2.len() as int] == SEPARATOR);
        assert(a[p2.len() as int] == l1[p2.len() - p1.len() - 1]);
        assert(false);
    }
    assert(p1 =~= a.subrange(0, p1.len() as int));
    assert(p2 =~= b.subrange(0, p2.len() as int));
    assert(l1 =~= a.subrange(p1.len() as int + 1, a.len() as int));
    assert(l2 =~= b.subrange(p2.len() as int + 1, b.len() as int));
}

/// Different texts have different encodings.
pub proof fn lemma_encoding_injective(a: Seq<char>, b: Seq<char>)
    requires
        encode_utf8(a) == encode_utf8(b),
    ensures
        a == b,
{
    vstd::utf8::encode_utf8_decode_utf8(a);
    vstd::utf8::encode_utf8_decode_utf8(b);
}

/// Where neither the messages nor the results hold the separator, the bytes
/// that are hashed tell the message and the ordered results apart: equal
/// bytes come from equal inputs.
pub proof fn law_key_material_injective(
    m1: Seq<char>,
    r1: Seq<Seq<char>>,
    m2: Seq<char>,
    r2: Seq<Seq<char>>,
)
    requires
        !encode_utf8(m1).contains(SEPARATOR),
        !encode_utf8(m2).contains(SEPARATOR),
        separator_free(r1),
        separator_free(r2),
        key_material(m1, r1) == key_material(m2, r2),
    ensures
        m1 == m2,
        r1 == r2,
    decreases r1.len(),
{
    lemma_material_separators(m1, r1);
    lemma_material_separators(m2, r2);
    if r1.len() == 0 {
        lemma_encoding_injective(m1, m2);
        assert(r1 =~= r2);
    } else {
        let f1 = r1.drop_last();
        let f2 = r2.drop_last();
        assert forall|i: int| 0 <= i < f1.len() implies !encode_utf8(#[trigger] f1[i]).contains(
            SEPARATOR,
        ) by {
            assert(f1[i] == r1[i]);
        }
        assert forall|i: int| 0 <= i < f2.len() implies !encode_utf8(#[trigger] f2[i]).contains(
            SEPARATOR,
        ) by {
            assert(f2[i] == r2[i]);
        }
        lemma_peel(
            key_material(m1, f1),
            encode_utf8(r1.last()),
            key_material(m2, f2),
            encode_utf8(r2.last()),
        );
        lemma_encoding_injective(r1.last(), r2.last());
        law_key_material_injective(m1, f1, m2, f2);
        assert(r1 =~= f1.push(r1.last()));
        assert(r2 =~= f2.push(r2.last()));
    }
}

/// Cache keys tell inputs apart as far as the digest does: where neither the
/// messages nor the results hold the separator, two inputs with the same key
/// are the same input, or their different preimages have the same SHA-256
/// digest.
pub proof fn law_equal_keys(
    m1: Seq<char>,
    r1: Seq<Seq<char>>,
    m2: Seq<char>,
    r2: Seq<Seq<char>>,
)
    requires
        !encode_utf8(m1).contains(SEPARATOR),
        !encode_utf8(m2).contains(SEPARATOR),
        separator_free(r1),
        separator_free(r2),
        spec_key(m1, r1) == spec_key(m2, r2),
    ensures
        (m1 == m2 && r1 == r2) || (key_material(m1, r1) != key_material(m2, r2) && spec_sha256(
            key_material(m1, r1),
        ) == spec_sha256(key_material(m2, r2))),
{
    lemma_key_equal_iff_digest_equal(m1, r1, m2, r2);
    if key_material(m1, r1) == key_material(m2, r2) {
        law_key_material_injective(m1, r1, m2, r2);
    }
}

/// A key is stored exactly when some entry holds it.
pub proof fn lemma_has_key(entries: Seq<EntryView>, key: Seq<char>)
    ensures
        has_key(entries, key) <==> exists|i: int|
            0 <= i < entries.len() && (#[trigger] entries[i]).key == key,
{
    lemma_index_of(entries, key);
    if has_key(entries, key) {
        assert(entries[index_of(entries, key)].key == key);
    }
    if exists|i: int| 0 <= i < entries.len() && (#[trigger] entries[i]).key == key {
        let i = choose|i: int| 0 <= i < entries.len() && (#[trigger] entries[i]).key == key;
        if index_of(entries, key) > i {
            assert(entries[i].key != key);
        }
    }
}

/// Storing keeps the cache well formed and leaves the stored entry, with one
/// access and the time of storing, under its key.
pub proof fn lemma_after_put(
    entries: Seq<EntryView>,
    capacity: nat,
    key: Seq<char>,
    response: Seq<char>,
    now: nat,
)
    requires
        distinct_keys(entries),
    ensures
        distinct_keys(after_put(entries, capacity, key, response, now)),
        has_key(after_put(entries, capacity, key, response, now), key),
        ({
            let stored = after_put(entries, capacity, key, response, now);
            stored[index_of(stored, key)] == EntryView {
                key,
                response,
                created_at: now,
                access_count: 1,
            }
        }),
{
    let fresh = EntryView { key, response, created_at: now, access_count: 1 };
    let stored = after_put(entries, capacity, key, response, now);
    lemma_index_of(entries, key);
    lemma_has_key(entries, key);
    if has_key(entries, key) {
        let i = index_of(entries, key);
        assert(stored[i] == fresh);
        lemma_index_of_is(stored, key, i);
    } else {
        let base = if entries.len() >= capacity && entries.len() > 0 {
            entries.remove(lru_index(entries))
        } else {
            entries
        };
        if entries.len() >= capacity && entries.len() > 0 {
            lemma_lru_index(entries);
        }
        assert forall|j: int| 0 <= j < base.len() implies (#[trigger] base[j]).key != key by {
            if entries.len() >= capacity && entries.len() > 0 {
                let v = lru_index(entries);
                if j < v {
                    assert(base[j] == entries[j]);
                } else {
                    assert(base[j] == entries[j + 1]);
                }
            }
        }
        assert(stored == base.push(fresh));
        assert(stored[base.len() as int] == fresh);
        lemma_index_of_is(stored, key, base.len() as int);
        assert forall|a: int, b: int| 0 <= a < b < stored.len() implies (#[trigger] stored[a]).key
            != (#[trigger] stored[b]).key by {
            if entries.len() >= capacity && entries.len() > 0 {
                let v = lru_index(entries);
                let sa = if a < v { a } else { a + 1 };
                let sb = if b < v { b } else { b + 1 };
                if b < base.len() {
                    assert(stored[a] == entries[sa]);
                    assert(stored[b] == entries[sb]);
                } else {
                    assert(stored[a] == base[a]);
                }
            } else {
                if b < base.len() {
                    assert(stored[a] == entries[a]);
                    assert(stored[b] == entries[b]);
                } else {
                    assert(stored[a] == base[a]);
                }
            }
        }
    }
}

/// Time to live: a response stored at time `stored_at` is read back at every
/// time `now` up to `stored_at` plus the time to live, and at no later time;
/// the late read also removes the entry.
pub proof fn law_time_to_live(
    entries: Seq<EntryView>,
    capacity: nat,
    ttl_seconds: nat,
    key: Seq<char>,
    response: Seq<char>,
    stored_at: nat,
    now: nat,
)
    requires
        distinct_keys(entries),
    ensures
        ({
            let stored = after_put(entries, capacity, key, response, stored_at);
            &&& now <= stored_at + ttl_seconds * NANOS_PER_SECOND ==> get_result(
                stored,
                ttl_seconds,
                key,
                now,
            ) == Some(response)
            &&& now > stored_at + ttl_seconds * NANOS_PER_SECOND ==> {
                &&& get_result(stored, ttl_seconds, key, now) is None
                &&& !has_key(after_get(stored, ttl_seconds, key, now), key)
            }
        }),
{
    let stored = after_put(entries, capacity, key, response, stored_at);
    lemma_after_put(entries, capacity, key, response, stored_at);
    lemma_index_of(stored, key);
    if now > stored_at + ttl_seconds * NANOS_PER_SECOND {
        let i = index_of(stored, key);
        let left = stored.remove(i);
        assert(left == after_get(stored, ttl_seconds, key, now));
        lemma_has_key(left, key);
        if has_key(left, key) {
            let j = choose|j: int| 0 <= j < left.len() && (#[trigger] left[j]).key == key;
            if j < i {
                assert(left[j] == stored[j]);
            } else {
                assert(left[j] == stored[j + 1]);
            }
        }
    }
}

/// Eviction: storing a new key in a cache that is at its capacity removes
/// exactly the entry with the fewest accesses, the oldest among those, and
/// keeps every other entry.
pub proof fn law_lru_eviction(
    entries: Seq<EntryView>,
    capacity: nat,
    key: Seq<char>,
    response: Seq<char>,
    now: nat,
)
    requires
        distinct_keys(entries),
        !has_key(entries, key),
        entries.len() >= capacity,
        entries.len() > 0,
    ensures
        is_lru(entries, lru_index(entries)),
        !has_key(
            after_put(entries, capacity, key, response, now),
            entries[lru_index(entries)].key,
        ),
        forall|j: int|
            0 <= j < entries.len() && j != lru_index(entries) ==> has_key(
                after_put(entries, capacity, key, response, now),
                (#[trigger] entries[j]).key,
            ),
        after_put(entries, capacity, key, response, now).len() == entries.len(),
{
    let v = lru_index(entries);
    let stored = after_put(entries, capacity, key, response, now);
    lemma_lru_index(entries);
    lemma_has_key(entries, key);
    let victim = entries[v].key;
    lemma_has_key(stored, victim);
    if has_key(stored, victim) {
        let j = choose|j: int| 0 <= j < stored.len() && (#[trigger] stored[j]).key == victim;
        if j < v {
            assert(stored[j] == entries[j]);
        } else if j < stored.len() - 1 {
            assert(stored[j] == entries[j + 1]);
        } else {
            assert(stored[j].key == key);
            assert(entries[v].key == key);
        }
    }
    assert forall|j: int| 0 <= j < entries.len() && j != v implies has_key(
        stored,
        (#[trigger] entries[j]).key,
    ) by {
        let at = if j < v { j } else { j - 1 };
        assert(stored[at] == entries[j]);
        lemma_has_key(stored, entries[j].key);
    }
}

/// Access protects: after a read that hits `key`, an entry that was not read
/// and has no more accesses than `key` had leaves the cache before `key`
/// does. Storing a new key in the full cache then keeps `key`.
pub proof fn law_access_protects(
    entries: Seq<EntryView>,
    capacity: nat,
    ttl_seconds: nat,
    key: Seq<char>,
    read_at: nat,
    peer: int,
    new_key: Seq<char>,
    response: Seq<char>,
    stored_at: nat,
)
    requires
        distinct_keys(entries),
        has_key(entries, key),
        !is_expired(entries[index_of(entries, key)], ttl_seconds, read_at),
        entries[index_of(entries, key)].access_count < u32::MAX,
        0 <= peer < entries.len(),
        peer != index_of(entries, key),
        entries[peer].access_count <= entries[index_of(entries, key)].access_count,
        new_key != key,
    ensures
        ({
            let read = after_get(entries, ttl_seconds, key, read_at);
            &&& lru_index(read) != index_of(entries, key)
            &&& has_key(after_put(read, capacity, new_key, response, stored_at), key)
        }),
{
    let i = index_of(entries, key);
    let read = after_get(entries, ttl_seconds, key, read_at);
    lemma_index_of(entries, key);
    assert(read[peer] == entries[peer]);
    assert(read[i] == refreshed(entries[i], read_at));
    assert(lru_before(read[peer], read[i]));
    lemma_lru_index(read);
    let v = lru_index(read);
    assert(v != i);
    let stored = after_put(read, capacity, new_key, response, stored_at);
    lemma_has_key(stored, key);
    lemma_index_of(read, new_key);
    if has_key(read, new_key) {
        let n = index_of(read, new_key);
        assert(read[n].key == new_key);
        assert(n != i);
        assert(stored[i] == read[i]);
    } else if read.len() >= capacity && read.len() > 0 {
        let at = if i < v { i } else { i - 1 };
        assert(stored[at] == read[i]);
    } else {
        assert(stored[i] == read[i]);
    }
}

/// The cache stays bounded: storing into a cache that holds no more entries
/// than its capacity (or one entry, where the capacity is zero) leaves it so.
pub proof fn law_cache_stays_bounded(
    entries: Seq<EntryView>,
    capacity: nat,
    key: Seq<char>,
    response: Seq<char>,
    now: nat,
)
    requires
        entries.len() <= capacity || entries.len() <= 1,
    ensures
        after_put(entries, capacity, key, response, now).len() <= capacity || after_put(
            entries,
            capacity,
            key,
            response,
            now,
        ).len() <= 1,
{
    lemma_index_of(entries, key);
    if !has_key(entries, key) && entries.len() >= capacity && entries.len() > 0 {
        lemma_lru_index(entries);
    }
}

/// A bounded store of serialized responses.
pub struct ResponseCache {
    entries: Vec<CacheEntry>,
    max_size: usize,
    ttl_seconds: u64,
}

/// One stored response.
pub struct CacheEntry {
    key: String,
    response: String,
    created_at: u64,
    access_count: u32,
}

/// Counts of the entries in a cache at one moment.
#[derive(Debug)]
pub struct CacheStats {
    pub total_entries: usize,
    pub expired_entries: usize,
    pub active_entries: usize,
}

impl CacheEntry {
    /// The entry as contracts see it.
    pub closed spec fn view(&self) -> EntryView {
        EntryView {
            key: self.key@,
            response: self.response@,
            created_at: self.created_at as nat,
            access_count: self.access_count as nat,
        }
    }
}

impl ResponseCache {
    /// The stored entries, in storage order.
    pub closed spec fn view(&self) -> Seq<EntryView> {
        self.entries@.map_values(|e: CacheEntry| e@)
    }

    /// The number of entries at which an insertion of a new key evicts one.
    pub closed spec fn capacity(&self) -> nat {
        self.max_size as nat
    }

    /// The time to live of an entry, in seconds.
    pub closed spec fn ttl(&self) -> nat {
        self.ttl_seconds as nat
    }

    /// The cache is well formed: no two entries share a key.
    pub open spec fn wf(&self) -> bool {
        distinct_keys(self@)
    }

    /// An empty cache that holds up to `max_size` entries, each for
    /// `ttl_seconds` after its last access.
    pub fn new(max_size: usize, ttl_seconds: u64) -> (cache: Self)
        ensures
            cache@ == Seq::<EntryView>::empty(),
            cache.capacity() == max_size,
            cache.ttl() == ttl_seconds,
            cache.wf(),
    {
        let cache = ResponseCache { entries: Vec::new(), max_size, ttl_seconds };
        assert(cache@ =~= Seq::<EntryView>::empty());
        cache
    }

    /// The fingerprint of a user message and the tool results produced so far
    /// in the turn: the SHA-256 digest, in lower-case hexadecimal, of the
    /// message followed by each result behind a `|`.
    pub fn generate_key(user_message: &str, tool_results: &[String]) -> (key: String)
        ensures
            key@ == spec_key(user_message@, views(tool_results@)),
    {
        let mut material: Vec<u8> = Vec::new();
        extend_bytes(&mut material, user_message.as_bytes());
        let ghost results = views(tool_results@);
        let mut i: usize = 0;
        assert(results.take(0) =~= Seq::<Seq<char>>::empty());
        while i < tool_results.len()
            invariant
                i <= tool_results.len(),
                results == views(tool_results@),
                material@ == key_material(user_message@, results.take(i as int)),
            decreases tool_results.len() - i,
        {
            proof {
                let next = results.take(i + 1);
                assert(next.drop_last() =~= results.take(i as int));
                assert(next.last() == tool_results@[i as int]@);
            }
            material.push(SEPARATOR);
            extend_bytes(&mut material, tool_results[i].as_str().as_bytes());
            i += 1;
        }
        assert(results.take(tool_results.len() as int) =~= results);
        let digest = sha256(material.as_slice());
        to_hex(digest.as_slice())
    }

    fn position(&self, key: &str) -> (i: usize)
        ensures
            i == index_of(self@, key@),
            i <= self.entries@.len(),
    {
        let mut i: usize = 0;
        while i < self.entries.len()
            invariant
                i <= self.entries@.len(),
                forall|j: int| 0 <= j < i ==> (#[trigger] self@[j]).key != key@,
            decreases self.entries@.len() - i,
        {
            if same_str(self.entries[i].key.as_str(), key) {
                proof {
                    lemma_index_of_is(self@, key@, i as int);
                }
                return i;
            }
            i += 1;
        }
        proof {
            lemma_index_of_is(self@, key@, i as int);
        }
        i
    }

    /// Reads the response stored under `key` at time `now`.
    ///
    /// An entry whose age exceeds the time to live is removed and nothing is
    /// returned. Otherwise the entry counts one more access (the count stays
    /// at `u32::MAX` once it is reached), its age starts again at `now`, and
    /// its response is returned.
    pub fn get(&mut self, key: &str, now: u64) -> (result: Option<String>)
        requires
            old(self).wf(),
        ensures
            final(self)@ == after_get(old(self)@, old(self).ttl(), key@, now as nat),
            final(self).capacity() == old(self).capacity(),
            final(self).ttl() == old(self).ttl(),
            match result {
                Some(text) => get_result(old(self)@, old(self).ttl(), key@, now as nat) == Some(
                    text@,
                ),
                None => get_result(old(self)@, old(self).ttl(), key@, now as nat) is None,
            },
            final(self).wf(),
    {
        let i = self.position(key);
        if i >= self.entries.len() {
            return None;
        }
        let ghost before = self@;
        let entry = self.entries.remove(i);
        assert(self@ =~= before.remove(i as int));
        assert(entry@ == before[i as int]);
        let elapsed: u64 = if now >= entry.created_at {
            now - entry.created_at
        } else {
            0
        };
        if (elapsed as u128) > (self.ttl_seconds as u128) * (NANOS_PER_SECOND as u128) {
            return None;
        }
        let count: u32 = if entry.access_count < u32::MAX {
            entry.access_count + 1
        } else {
            entry.access_count
        };
        let response = entry.response.clone();
        let renewed = CacheEntry {
            key: entry.key,
            response: entry.response,
            created_at: now,
            access_count: count,
        };
        assert(renewed@ == refreshed(before[i as int], now as nat));
        self.entries.insert(i, renewed);
        assert(self@ =~= before.update(i as int, refreshed(before[i as int], now as nat)));
        Some(response)
    }

    fn lru_position(&self) -> (i: usize)
        requires
            self.entries@.len() > 0,
        ensures
            i == lru_index(self@),
            i < self.entries@.len(),
    {
        let mut best: usize = 0;
        let mut i: usize = 1;
        assert(self@.take(1).len() == 1);
        while i < self.entries.len()
            invariant
                1 <= i <= self.entries@.len(),
                best < i,
                best == lru_index(self@.take(i as int)),
            decreases self.entries@.len() - i,
        {
            proof {
                let next = self@.take(i + 1);
                assert(next.drop_last() =~= self@.take(i as int));
                assert(next.last() == self@[i as int]);
                assert(next[best as int] == self@[best as int]);
            }
            let e = &self.entries[i];
            let b = &self.entries[best];
            if e.access_count < b.access_count || (e.access_count == b.access_count
                && e.created_at < b.created_at) {
                best = i;
            }
            i += 1;
        }
        assert(self@.take(self.entries@.len() as int) =~= self@);
        best
    }

    /// The key of the entry that the next eviction removes: the one with the
    /// fewest accesses, the oldest among those, and the earliest stored among
    /// equals. `None` for an empty cache.
    pub fn find_lru_key(&self) -> (key: Option<String>)
        ensures
            match key {
                Some(k) => self@.len() > 0 && k@ == self@[lru_index(self@)].key,
                None => self@.len() == 0,
            },
    {
        if self.entries.len() == 0 {
            return None;
        }
        let i = self.lru_position();
        Some(self.entries[i].key.clone())
    }

    /// Stores `response` under `key` at time `now`, as an entry with one
    /// access.
    ///
    /// A new key that finds the cache at its capacity first evicts the entry
    /// with the fewest accesses, the oldest among those. A key that is already
    /// stored has its entry replaced, and nothing is evicted.
    pub fn put(&mut self, key: String, response: String, now: u64)
        requires
            old(self).wf(),
        ensures
            final(self)@ == after_put(
                old(self)@,
                old(self).capacity(),
                key@,
                response@,
                now as nat,
            ),
            final(self).capacity() == old(self).capacity(),
            final(self).ttl() == old(self).ttl(),
            final(self).wf(),
    {
        proof {
            lemma_index_of(self@, key@);
        }
        let ghost before = self@;
        let i = self.position(key.as_str());
        let fresh = CacheEntry { key, response, created_at: now, access_count: 1 };
        if i < self.entries.len() {
            let _replaced = self.entries.remove(i);
            assert(self@ =~= before.remove(i as int));
            self.entries.insert(i, fresh);
            assert(self@ =~= before.update(i as int, fresh@));
            return ;
        }
        if self.entries.len() >= self.max_size && self.entries.len() > 0 {
            let victim = self.lru_position();
            let _evicted = self.entries.remove(victim);
            assert(self@ =~= before.remove(victim as int));
        }
        let ghost middle = self@;
        self.entries.push(fresh);
        assert(self@ =~= middle.push(fresh@));
    }

    /// Removes every entry.
    pub fn clear(&mut self)
        ensures
            final(self)@ == Seq::<EntryView>::empty(),
            final(self).capacity() == old(self).capacity(),
            final(self).ttl() == old(self).ttl(),
            final(self).wf(),
    {
        self.entries.clear();
        assert(self@ =~= Seq::<EntryView>::empty());
    }

    /// Counts the entries at time `now`: all of them, those whose age exceeds
    /// the time to live, and the rest.
    pub fn stats(&self, now: u64) -> (stats: CacheStats)
        ensures
            stats.total_entries == self@.len(),
            stats.expired_entries == expired_count(self@, self.ttl(), now as nat),
            stats.active_entries == stats.total_entries - stats.expired_entries,
    {
        let mut expired: usize = 0;
        let mut i: usize = 0;
        assert(self@.take(0) =~= Seq::<EntryView>::empty());
        while i < self.entries.len()
            invariant
                i <= self.entries@.len(),
                expired <= i,
                expired == expired_count(self@.take(i as int), self.ttl(), now as nat),
            decreases self.entries@.len() - i,
        {
            proof {
                let next = self@.take(i + 1);
                assert(next.drop_last() =~= self@.take(i as int));
                assert(next.last() == self@[i as int]);
            }
            let e = &self.entries[i];
            let elapsed: u64 = if now >= e.created_at {
                now - e.created_at
            } else {
                0
            };
            if (elapsed as u128) > (self.ttl_seconds as u128) * (NANOS_PER_SECOND as u128) {
                expired += 1;
            }
            i += 1;
        }
        assert(self@.take(self.entries@.len() as int) =~= self@);
        let total = self.entries.len();
        CacheStats { total_entries: total, expired_entries: expired, active_entries: total - expired }
    }
}

} // verus!
