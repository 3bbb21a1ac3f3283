use crate::principal::{principal_text, Principal};
use sha2::Digest;
use vstd::bytes::{lemma_auto_spec_u64_to_from_le_bytes, spec_u64_to_le_bytes, u64_to_le_bytes};
use vstd::prelude::*;
use vstd::string::StringExecFns;
use vstd::utf8::{encode_utf8, encode_utf8_decode_utf8};

verus! {

/// The SHA-256 digest of a byte string, as `Sha256::digest` of the sha2
/// crate computes it.
pub uninterp spec fn sha256_digest(data: Seq<u8>) -> Seq<u8>;

/// Hashes `data` with SHA-256.
///
/// Calls `sha2::Sha256::digest`; the digest is a function of the input bytes
/// alone.
#[verifier::external_body]
fn sha256(data: &[u8]) -> (digest: Vec<u8>)
    ensures
        digest@ == sha256_digest(data@),
{
    sha2::Sha256::digest(data).to_vec()
}

/// The lower-case hexadecimal digit for a value below 16.
pub open spec fn hex_digit(n: int) -> char {
    if n == 0 {
        '0'
    } else if n == 1 {
        '1'
    } else if n == 2 {
        '2'
    } else if n == 3 {
        '3'
    } else if n == 4 {
        '4'
    } else if n == 5 {
        '5'
    } else if n == 6 {
        '6'
    } else if n == 7 {
        '7'
    } else if n == 8 {
        '8'
    } else if n == 9 {
        '9'
    } else if n == 10 {
        'a'
    } else if n == 11 {
        'b'
    } else if n == 12 {
        'c'
    } else if n == 13 {
        'd'
    } else if n == 14 {
        'e'
    } else {
        'f'
    }
}

/// The two hexadecimal digits of a byte, high nibble first.
pub open spec fn byte_hex(b: u8) -> Seq<char> {
    seq![hex_digit(b as int / 16), hex_digit(b as int % 16)]
}

/// The hexadecimal rendering of a byte string: two digits per byte.
pub open spec fn hex_text(bytes: Seq<u8>) -> Seq<char>
    decreases bytes.len(),
{
    if bytes.len() == 0 {
        Seq::empty()
    } else {
        hex_text(bytes.drop_last()) + byte_hex(bytes.last())
    }
}

/// The digest of a byte string as the ledger stores it: SHA-256 in hexadecimal.
pub open spec fn digest_hex(content: Seq<u8>) -> Seq<char> {
    hex_text(sha256_digest(content))
}

/// A number as eight bytes, least significant first.
pub open spec fn u64_bytes(v: u64) -> Seq<u8> {
    spec_u64_to_le_bytes(v)
}

/// A field preceded by its length, so that no choice of field contents can
/// move the boundary between two fields.
pub open spec fn frame(field: Seq<u8>) -> Seq<u8> {
    u64_bytes(field.len() as u64) + field
}

/// The frame of a text field: its UTF-8 bytes, length first.
pub open spec fn text_frame(text: Seq<char>) -> Seq<u8> {
    frame(encode_utf8(text))
}

/// The bytes over which the data hash of an entry is computed.
pub open spec fn entry_content(
    id: u64,
    actor: Seq<char>,
    action: Seq<char>,
    resource_type: Seq<char>,
    resource_id: Seq<char>,
    details: Seq<char>,
) -> Seq<u8> {
    u64_bytes(id) + (text_frame(actor) + (text_frame(action) + (text_frame(resource_type) + (
        text_frame(resource_id) + text_frame(details)))))
}

/// The bytes over which the signature of an entry is computed.
pub open spec fn signature_content(
    id: u64,
    actor: Seq<char>,
    action: Seq<char>,
    resource_type: Seq<char>,
    resource_id: Seq<char>,
    timestamp: u64,
    previous_hash: Seq<char>,
) -> Seq<u8> {
    u64_bytes(id) + (text_frame(actor) + (text_frame(action) + (text_frame(resource_type) + (
        text_frame(resource_id) + (u64_bytes(timestamp) + text_frame(previous_hash))))))
}

/// The hexadecimal digit of a value below 16, as a text of one character.
fn hex_digit_str(n: u8) -> (s: &'static str)
    requires
        n < 16,
    ensures
        s@ == seq![hex_digit(n as int)],
{
    proof {
        reveal_strlit("0");
        reveal_strlit("1");
        reveal_strlit("2");
        reveal_strlit("3");
        reveal_strlit("4");
        reveal_strlit("5");
        reveal_strlit("6");
        reveal_strlit("7");
        reveal_strlit("8");
        reveal_strlit("9");
        reveal_strlit("a");
        reveal_strlit("b");
        reveal_strlit("c");
        reveal_strlit("d");
        reveal_strlit("e");
        reveal_strlit("f");
    }
    let s = if n == 0 {
        "0"
    } else if n == 1 {
        "1"
    } else if n == 2 {
        "2"
    } else if n == 3 {
        "3"
    } else if n == 4 {
        "4"
    } else if n == 5 {
        "5"
    } else if n == 6 {
        "6"
    } else if n == 7 {
        "7"
    } else if n == 8 {
        "8"
    } else if n == 9 {
        "9"
    } else if n == 10 {
        "a"
    } else if n == 11 {
        "b"
    } else if n == 12 {
        "c"
    } else if n == 13 {
        "d"
    } else if n == 14 {
        "e"
    } else {
        "f"
    };
    assert(s@ =~= seq![hex_digit(n as int)]);
    s
}

/// Renders bytes in lower-case hexadecimal.
pub fn hex_encode(bytes: &[u8]) -> (text: String)
    ensures
        text@ == hex_text(bytes@),
{
    let mut text = String::new();
    let mut i: usize = 0;
    while i < bytes.len()
        invariant
            i <= bytes@.len(),
            text@ == hex_text(bytes@.take(i as int)),
        decreases bytes@.len() - i,
    {
        let b = bytes[i];
        text.append(hex_digit_str(b / 16));
        text.append(hex_digit_str(b % 16));
        proof {
            let next = bytes@.take(i + 1);
            assert(next.drop_last() =~= bytes@.take(i as int));
            assert(next.last() == b);
            assert(text@ =~= hex_text(next.drop_last()) + byte_hex(b));
        }
        i += 1;
    }
    assert(bytes@.take(i as int) =~= bytes@);
    text
}

/// Hashes raw bytes and renders the digest in hexadecimal.
pub fn hash_bytes(data: &[u8]) -> (digest: String)
    ensures
        digest@ == digest_hex(data@),
{
    let raw = sha256(data);
    hex_encode(raw.as_slice())
}

/// Hashes a text: the hexadecimal SHA-256 digest of its UTF-8 bytes.
///
/// The digest depends on the characters of `data` and on nothing else, so
/// hashing the same text again gives the same digest.
pub fn generate_hash(data: &str) -> (digest: String)
    ensures
        digest@ == digest_hex(encode_utf8(data@)),
{
    hash_bytes(data.as_bytes())
}

/// Appends a number as eight bytes.
pub(crate) fn push_u64(buf: &mut Vec<u8>, v: u64)
    ensures
        final(buf)@ == old(buf)@ + u64_bytes(v),
{
    let mut bytes = u64_to_le_bytes(v);
    buf.append(&mut bytes);
}

/// Appends the frame of a text.
pub(crate) fn push_text(buf: &mut Vec<u8>, text: &str)
    ensures
        final(buf)@ == old(buf)@ + text_frame(text@),
{
    let bytes = text.as_bytes();
    push_u64(buf, bytes.len() as u64);
    let ghost framed = buf@;
    buf.extend_from_slice(bytes);
    assert(buf@ =~= framed + bytes@);
    assert(buf@ =~= old(buf)@ + text_frame(text@));
}

/// The data hash of an entry: the digest of its identifying fields and details.
pub fn generate_data_hash(
    entry_id: u64,
    principal: &Principal,
    action: &str,
    resource_type: &str,
    resource_id: &str,
    details: &str,
) -> (digest: String)
    ensures
        digest@ == digest_hex(
            entry_content(
                entry_id,
                principal_text(principal@),
                action@,
                resource_type@,
                resource_id@,
                details@,
            ),
        ),
{
    let actor = principal.to_text();
    let mut buf: Vec<u8> = Vec::new();
    push_u64(&mut buf, entry_id);
    push_text(&mut buf, actor.as_str());
    push_text(&mut buf, action);
    push_text(&mut buf, resource_type);
    push_text(&mut buf, resource_id);
    push_text(&mut buf, details);
    assert(buf@ =~= entry_content(
        entry_id,
        principal_text(principal@),
        action@,
        resource_type@,
        resource_id@,
        details@,
    ));
    hash_bytes(buf.as_slice())
}

/// The signature of an entry: the digest of its identifying fields, its time
/// and the link to its predecessor. The next entry of the chain refers to it.
pub fn generate_signature(
    entry_id: u64,
    principal: &Principal,
    action: &str,
    resource_type: &str,
    resource_id: &str,
    timestamp: u64,
    previous_hash: &str,
) -> (signature: String)
    ensures
        signature@ == digest_hex(
            signature_content(
                entry_id,
                principal_text(principal@),
                action@,
                resource_type@,
                resource_id@,
                timestamp,
                previous_hash@,
            ),
        ),
{
    let actor = principal.to_text();
    let mut buf: Vec<u8> = Vec::new();
    push_u64(&mut buf, entry_id);
    push_text(&mut buf, actor.as_str());
    push_text(&mut buf, action);
    push_text(&mut buf, resource_type);
    push_text(&mut buf, resource_id);
    push_u64(&mut buf, timestamp);
    push_text(&mut buf, previous_hash);
    assert(buf@ =~= signature_content(
        entry_id,
        principal_text(principal@),
        action@,
        resource_type@,
        resource_id@,
        timestamp,
        previous_hash@,
    ));
    hash_bytes(buf.as_slice())
}

/// Whether two texts are the same, character for character.
pub fn same_text(a: &str, b: &str) -> (same: bool)
    ensures
        same == (a@ == b@),
{
    let x = a.as_bytes();
    let y = b.as_bytes();
    proof {
        encode_utf8_decode_utf8(a@);
        encode_utf8_decode_utf8(b@);
    }
    if x.len() != y.len() {
        return false;
    }
    let mut i: usize = 0;
    while i < x.len()
        invariant
            i <= x@.len(),
            x@.len() == y@.len(),
            x@ == encode_utf8(a@),
            y@ == encode_utf8(b@),
            forall|k: int| 0 <= k < i ==> x@[k] == y@[k],
        decreases x@.len() - i,
    {
        if x[i] != y[i] {
            return false;
        }
        i += 1;
    }
    assert(x@ =~= y@);
    true
}

/// Whether the UTF-8 form of a text is short enough for its length to be
/// written in a frame. Every text held in memory is.
pub open spec fn frameable(text: Seq<char>) -> bool {
    encode_utf8(text).len() <= u64::MAX
}

/// A number at the head of a byte string determines both the number and
/// what follows it.
pub proof fn lemma_u64_prefix_unique(v: u64, rest_v: Seq<u8>, w: u64, rest_w: Seq<u8>)
    requires
        u64_bytes(v) + rest_v == u64_bytes(w) + rest_w,
    ensures
        v == w,
        rest_v == rest_w,
{
    lemma_auto_spec_u64_to_from_le_bytes();
    let x = u64_bytes(v) + rest_v;
    let y = u64_bytes(w) + rest_w;
    assert(x.subrange(0, 8) =~= u64_bytes(v));
    assert(y.subrange(0, 8) =~= u64_bytes(w));
    assert(rest_v =~= x.subrange(8, x.len() as int));
    assert(rest_w =~= y.subrange(8, y.len() as int));
}

/// A frame at the head of a byte string determines both the framed field and
/// what follows it.
pub proof fn lemma_frame_unique(a: Seq<u8>, rest_a: Seq<u8>, b: Seq<u8>, rest_b: Seq<u8>)
    requires
        a.len() <= u64::MAX,
        b.len() <= u64::MAX,
        frame(a) + rest_a == frame(b) + rest_b,
    ensures
        a == b,
        rest_a == rest_b,
{
    assert(frame(a) + rest_a =~= u64_bytes(a.len() as u64) + (a + rest_a));
    assert(frame(b) + rest_b =~= u64_bytes(b.len() as u64) + (b + rest_b));
    lemma_u64_prefix_unique(a.len() as u64, a + rest_a, b.len() as u64, b + rest_b);
    let x = a + rest_a;
    let y = b + rest_b;
    assert(a =~= x.subrange(0, a.len() as int));
    assert(b =~= y.subrange(0, b.len() as int));
    assert(rest_a =~= x.subrange(a.len() as int, x.len() as int));
    assert(rest_b =~= y.subrange(b.len() as int, y.len() as int));
}

/// A text frame at the head of a byte string determines both the text and
/// what follows it.
pub proof fn lemma_text_frame_unique(
    a: Seq<char>,
    rest_a: Seq<u8>,
    b: Seq<char>,
    rest_b: Seq<u8>,
)
    requires
        frameable(a),
        frameable(b),
        text_frame(a) + rest_a == text_frame(b) + rest_b,
    ensures
        a == b,
        rest_a == rest_b,
{
    lemma_frame_unique(encode_utf8(a), rest_a, encode_utf8(b), rest_b);
    encode_utf8_decode_utf8(a);
    encode_utf8_decode_utf8(b);
}

/// The content of an entry is unambiguous: two contents are the same bytes
/// only if every field is the same.
pub proof fn lemma_entry_content_injective(
    id1: u64,
    actor1: Seq<char>,
    action1: Seq<char>,
    resource_type1: Seq<char>,
    resource_id1: Seq<char>,
    details1: Seq<char>,
    id2: u64,
    actor2: Seq<char>,
    action2: Seq<char>,
    resource_type2: Seq<char>,
    resource_id2: Seq<char>,
    details2: Seq<char>,
)
    requires
        frameable(actor1),
        frameable(action1),
        frameable(resource_type1),
        frameable(resource_id1),
        frameable(details1),
        frameable(actor2),
        frameable(action2),
        frameable(resource_type2),
        frameable(resource_id2),
        frameable(details2),
        entry_content(id1, actor1, action1, resource_type1, resource_id1, details1)
            == entry_content(id2, actor2, action2, resource_type2, resource_id2, details2),
    ensures
        id1 == id2,
        actor1 == actor2,
        action1 == action2,
        resource_type1 == resource_type2,
        resource_id1 == resource_id2,
        details1 == details2,
{
    let e = Seq::<u8>::empty();
    let t5a = text_frame(details1);
    let t5b = text_frame(details2);
    let t4a = text_frame(resource_id1) + t5a;
    let t4b = text_frame(resource_id2) + t5b;
    let t3a = text_frame(resource_type1) + t4a;
    let t3b = text_frame(resource_type2) + t4b;
    let t2a = text_frame(action1) + t3a;
    let t2b = text_frame(action2) + t3b;
    let t1a = text_frame(actor1) + t2a;
    let t1b = text_frame(actor2) + t2b;
    lemma_u64_prefix_unique(id1, t1a, id2, t1b);
    lemma_text_frame_unique(actor1, t2a, actor2, t2b);
    lemma_text_frame_unique(action1, t3a, action2, t3b);
    lemma_text_frame_unique(resource_type1, t4a, resource_type2, t4b);
    lemma_text_frame_unique(resource_id1, t5a, resource_id2, t5b);
    assert(t5a + e =~= t5a);
    assert(t5b + e =~= t5b);
    lemma_text_frame_unique(details1, e, details2, e);
}

/// The signed content of an entry is unambiguous: two contents are the same
/// bytes only if every field is the same.
pub proof fn lemma_signature_content_injective(
    id1: u64,
    actor1: Seq<char>,
    action1: Seq<char>,
    resource_type1: Seq<char>,
    resource_id1: Seq<char>,
    timestamp1: u64,
    previous_hash1: Seq<char>,
    id2: u64,
    actor2: Seq<char>,
    action2: Seq<char>,
    resource_type2: Seq<char>,
    resource_id2: Seq<char>,
    timestamp2: u64,
    previous_hash2: Seq<char>,
)
    requires
        frameable(actor1),
        frameable(action1),
        frameable(resource_type1),
        frameable(resource_id1),
        frameable(previous_hash1),
        frameable(actor2),
        frameable(action2),
        frameable(resource_type2),
        frameable(resource_id2),
        frameable(previous_hash2),
        signature_content(
            id1,
            actor1,
            action1,
            resource_type1,
            resource_id1,
            timestamp1,
            previous_hash1,
        ) == signature_content(
            id2,
            actor2,
            action2,
            resource_type2,
            resource_id2,
            timestamp2,
            previous_hash2,
        ),
    ensures
        id1 == id2,
        actor1 == actor2,
        action1 == action2,
        resource_type1 == resource_type2,
        resource_id1 == resource_id2,
        timestamp1 == timestamp2,
        previous_hash1 == previous_hash2,
{
    let e = Seq::<u8>::empty();
    let t6a = text_frame(previous_hash1);
    let t6b = text_frame(previous_hash2);
    let t5a = u64_bytes(timestamp1) + t6a;
    let t5b = u64_bytes(timestamp2) + t6b;
    let t4a = text_frame(resource_id1) + t5a;
    let t4b = text_frame(resource_id2) + t5b;
    let t3a = text_frame(resource_type1) + t4a;
    let t3b = text_frame(resource_type2) + t4b;
    let t2a = text_frame(action1) + t3a;
    let t2b = text_frame(action2) + t3b;
    let t1a = text_frame(actor1) + t2a;
    let t1b = text_frame(actor2) + t2b;
    lemma_u64_prefix_unique(id1, t1a, id2, t1b);
    lemma_text_frame_unique(actor1, t2a, actor2, t2b);
    lemma_text_frame_unique(action1, t3a, action2, t3b);
    lemma_text_frame_unique(resource_type1, t4a, resource_type2, t4b);
    lemma_text_frame_unique(resource_id1, t5a, resource_id2, t5b);
    lemma_u64_prefix_unique(timestamp1, t6a, timestamp2, t6b);
    assert(t6a + e =~= t6a);
    assert(t6b + e =~= t6b);
    lemma_text_frame_unique(previous_hash1, e, previous_hash2, e);
}

} // verus!
