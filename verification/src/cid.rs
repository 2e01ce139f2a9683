//! Content ids (32-byte content hashes) and their 64-digit hexadecimal text form.

use vstd::prelude::*;
use vstd::string::*;
use vstd::utf8::*;

use crate::text::{
    all_white, byte_hex, hex_char, hex_digit, hex_pair, hex_text, hex_text_upper,
    hex_upper_char, is_white_space, lemma_hex_char_value, lemma_hex_upper_char_value,
    lemma_trim_surrounded, push_char, read_pair, read_pair_of, trim, trim_spec,
};

verus! {

/// The 32-byte content identity of a datum.
#[derive(Clone, Copy)]
pub struct ContentId {
    pub bytes: [u8; 32],
}

impl View for ContentId {
    type V = Seq<u8>;

    open spec fn view(&self) -> Seq<u8> {
        self.bytes@
    }
}

impl ContentId {
    pub fn from_bytes(bytes: [u8; 32]) -> (r: ContentId)
        ensures
            r@ == bytes@,
    {
        ContentId { bytes }
    }

    /// Byte-wise equality.
    pub fn same(&self, other: &ContentId) -> (r: bool)
        ensures
            r == (self@ == other@),
    {
        let mut i: usize = 0;
        while i < 32
            invariant
                i <= 32,
                forall|j: int| 0 <= j < i ==> self.bytes@[j] == other.bytes@[j],
            decreases 32 - i,
        {
            if self.bytes[i] != other.bytes[i] {
                return false;
            }
            i = i + 1;
        }
        assert(self.bytes@ =~= other.bytes@);
        true
    }
}

/// Whether `id` occurs in `ids`.
pub open spec fn seq_has_id(ids: Seq<ContentId>, id: Seq<u8>) -> bool {
    exists|k: int| 0 <= k < ids.len() && #[trigger] ids[k]@ == id
}

/// Linear membership test on content ids.
pub fn contains_id(ids: &Vec<ContentId>, id: &ContentId) -> (r: bool)
    ensures
        r == seq_has_id(ids@, id@),
{
    let mut k: usize = 0;
    while k < ids.len()
        invariant
            k <= ids.len(),
            forall|j: int| 0 <= j < k ==> ids@[j]@ != id@,
        decreases ids.len() - k,
    {
        if ids[k].same(id) {
            return true;
        }
        k = k + 1;
    }
    false
}

/// Why a text is not a content id.
#[derive(Clone, Copy, PartialEq, Eq, Structural, Debug)]
pub enum CidError {
    /// The trimmed text is not exactly 64 bytes long.
    WrongLength,
    /// Some two-byte group is not two hexadecimal digits.
    InvalidDigit,
}

impl CidError {
    pub fn message(&self) -> (r: &'static str)
        ensures
            *self == CidError::WrongLength ==> r@
                == "content id must be exactly 64 hex chars (§5.2)"@,
            *self == CidError::InvalidDigit ==> r@ == "invalid digit found in string"@,
    {
        match self {
            CidError::WrongLength => "content id must be exactly 64 hex chars (§5.2)",
            CidError::InvalidDigit => "invalid digit found in string",
        }
    }
}

/// The bytes a textual content id is read from: the UTF-8 encoding of the text
/// with its surrounding white space removed.
pub open spec fn cid_source(s: Seq<char>) -> Seq<u8> {
    encode_utf8(trim_spec(s))
}

/// Byte group `i` (bytes `2i` and `2i+1`) spells a byte: two hexadecimal
/// digits, or, when `plus` allows a sign, `+` and one digit.
pub open spec fn pair_ok(b: Seq<u8>, i: int, plus: bool) -> bool {
    read_pair(plus, b[2 * i], b[2 * i + 1]) is Some
}

/// The first `n` byte groups all spell bytes.
pub open spec fn pairs_ok(b: Seq<u8>, n: int, plus: bool) -> bool {
    forall|i: int| 0 <= i < n ==> #[trigger] pair_ok(b, i, plus)
}

/// The `n` bytes spelled by `n` valid groups.
pub open spec fn pairs_value(b: Seq<u8>, n: int, plus: bool) -> Seq<u8> {
    Seq::new(n as nat, |i: int| read_pair(plus, b[2 * i], b[2 * i + 1]).unwrap())
}

/// Reads `n` byte groups of `b` as the bytes they spell; `None` at the first
/// group that spells none.
pub fn read_pairs(b: &[u8], n: usize, plus: bool) -> (r: Option<Vec<u8>>)
    requires
        2 * n <= b@.len(),
    ensures
        r is Some <==> pairs_ok(b@, n as int, plus),
        r matches Some(v) ==> v@ == pairs_value(b@, n as int, plus),
{
    let mut out: Vec<u8> = Vec::new();
    let mut i: usize = 0;
    while i < n
        invariant
            i <= n,
            2 * n <= b@.len(),
            out@.len() == i,
            forall|j: int| 0 <= j < i ==> #[trigger] pair_ok(b@, j, plus),
            forall|j: int|
                0 <= j < i ==> out@[j] == #[trigger] read_pair(plus, b@[2 * j], b@[2 * j + 1]).unwrap(),
        decreases n - i,
    {
        let len = b.len();
        assert(2 * i + 1 < len);
        match read_pair_of(plus, b[2 * i], b[2 * i + 1]) {
            None => {
                assert(!pair_ok(b@, i as int, plus));
                return None;
            },
            Some(v) => {
                out.push(v);
            },
        }
        i = i + 1;
    }
    assert(out@ =~= pairs_value(b@, n as int, plus));
    Some(out)
}

/// What reading `s` as a content id gives.
pub open spec fn parse_cid_spec(s: Seq<char>) -> Result<Seq<u8>, CidError> {
    let b = cid_source(s);
    if b.len() != 64 {
        Err(CidError::WrongLength)
    } else if !pairs_ok(b, 32, false) {
        Err(CidError::InvalidDigit)
    } else {
        Ok(pairs_value(b, 32, false))
    }
}

/// Reads a content id from its hex text: surrounding white space is ignored and
/// the rest must be exactly 64 hexadecimal digits (either case), two per byte;
/// anything else is an error.
pub fn parse_cid(s: &str) -> (r: Result<ContentId, CidError>)
    ensures
        match r {
            Ok(id) => parse_cid_spec(s@) == Ok::<Seq<u8>, CidError>(id@),
            Err(e) => parse_cid_spec(s@) == Err::<Seq<u8>, CidError>(e),
        },
{
    let t = trim(s);
    let b = t.as_bytes();
    if b.len() != 64 {
        return Err(CidError::WrongLength);
    }
    match read_pairs(b, 32, false) {
        None => Err(CidError::InvalidDigit),
        Some(v) => {
            let mut out = [0u8; 32];
            let mut i: usize = 0;
            while i < 32
                invariant
                    i <= 32,
                    v@.len() == 32,
                    forall|j: int| 0 <= j < i ==> out@[j] == v@[j],
                decreases 32 - i,
            {
                out[i] = v[i];
                i = i + 1;
            }
            let id = ContentId { bytes: out };
            assert(id@ =~= v@);
            Ok(id)
        },
    }
}

/// The hex text of a content id: 64 lowercase digits.
pub fn cid_hex(id: &ContentId) -> (r: String)
    ensures
        r@ == hex_text(id@),
{
    let mut s = String::new();
    let mut i: usize = 0;
    assert(id@.subrange(0, 0) =~= Seq::<u8>::empty());
    while i < 32
        invariant
            i <= 32,
            s@ == hex_text(id@.subrange(0, i as int)),
        decreases 32 - i,
    {
        let b = id.bytes[i];
        push_char(&mut s, hex_digit(b / 16));
        push_char(&mut s, hex_digit(b % 16));
        assert(id@.subrange(0, i as int + 1).drop_last() =~= id@.subrange(0, i as int));
        assert(s@ =~= hex_text(id@.subrange(0, i as int + 1)));
        i = i + 1;
    }
    assert(id@.subrange(0, 32) =~= id@);
    s
}

/// Shape of the hex text: two digits per byte, high nibble first.
pub proof fn lemma_hex_text_shape(bytes: Seq<u8>)
    ensures
        hex_text(bytes).len() == 2 * bytes.len(),
        forall|k: int|
            0 <= k < bytes.len() ==> hex_text(bytes)[2 * k] == hex_char((bytes[k] / 16) as nat)
                && hex_text(bytes)[2 * k + 1] == hex_char((bytes[k] % 16) as nat),
    decreases bytes.len(),
{
    if bytes.len() > 0 {
        let p = bytes.drop_last();
        lemma_hex_text_shape(p);
        let h = hex_text(bytes);
        assert(h == hex_text(p) + byte_hex(bytes.last()));
        assert forall|k: int| 0 <= k < bytes.len() implies h[2 * k] == hex_char(
            (bytes[k] / 16) as nat,
        ) && h[2 * k + 1] == hex_char((bytes[k] % 16) as nat) by {
            if k < bytes.len() - 1 {
                assert(p[k] == bytes[k]);
            }
        }
    }
}

/// `h` spells `bytes` in hexadecimal, two digits per byte (high digit first),
/// each digit in either case.
pub open spec fn spells_hex(h: Seq<char>, bytes: Seq<u8>) -> bool {
    &&& h.len() == 2 * bytes.len()
    &&& forall|k: int|
        0 <= k < bytes.len() ==> {
            let hi = (#[trigger] bytes[k] / 16) as nat;
            let lo = (bytes[k] % 16) as nat;
            &&& (h[2 * k] == hex_char(hi) || h[2 * k] == hex_upper_char(hi))
            &&& (h[2 * k + 1] == hex_char(lo) || h[2 * k + 1] == hex_upper_char(lo))
        }
}

/// Shape of the uppercase hex text: two digits per byte, high digit first.
pub proof fn lemma_hex_text_upper_shape(bytes: Seq<u8>)
    ensures
        hex_text_upper(bytes).len() == 2 * bytes.len(),
        forall|k: int|
            0 <= k < bytes.len() ==> hex_text_upper(bytes)[2 * k] == hex_upper_char(
                (bytes[k] / 16) as nat,
            ) && hex_text_upper(bytes)[2 * k + 1] == hex_upper_char((bytes[k] % 16) as nat),
    decreases bytes.len(),
{
    if bytes.len() > 0 {
        let p = bytes.drop_last();
        lemma_hex_text_upper_shape(p);
        let h = hex_text_upper(bytes);
        assert forall|k: int| 0 <= k < bytes.len() implies h[2 * k] == hex_upper_char(
            (bytes[k] / 16) as nat,
        ) && h[2 * k + 1] == hex_upper_char((bytes[k] % 16) as nat) by {
            if k < bytes.len() - 1 {
                assert(p[k] == bytes[k]);
            }
        }
    }
}

/// A text that spells a content id in hex digits of either case reads back as
/// that id, whatever white space surrounds it.
pub proof fn law_cid_hex_reads_back(id: ContentId, pre: Seq<char>, h: Seq<char>, post: Seq<char>)
    requires
        spells_hex(h, id@),
        all_white(pre),
        all_white(post),
    ensures
        parse_cid_spec(pre + h + post) == Ok::<Seq<u8>, CidError>(id@),
{
    broadcast use vstd::utf8::group_utf8_lib;

    assert forall|k: int| 0 <= k < 64 implies !is_white_space(#[trigger] h[k]) && h[k]
        <= '\u{7f}' && '\0' <= h[k] by {
        let q = k / 2;
        let x = id@[q];
        lemma_hex_char_value((x / 16) as nat);
        lemma_hex_char_value((x % 16) as nat);
        lemma_hex_upper_char_value((x / 16) as nat);
        lemma_hex_upper_char_value((x % 16) as nat);
        if k % 2 == 0 {
            assert(k == 2 * q);
        } else {
            assert(k == 2 * q + 1);
        }
    }
    lemma_trim_surrounded(pre, h, post);
    assert(is_ascii_chars(h));
    let b = cid_source(pre + h + post);
    assert(b == encode_utf8(h));
    assert(b.len() == 64);
    assert forall|i: int| 0 <= i < 32 implies #[trigger] pair_ok(b, i, false) && hex_pair(
        b[2 * i],
        b[2 * i + 1],
    ) == Some(id@[i]) by {
        let x = id@[i];
        lemma_hex_char_value((x / 16) as nat);
        lemma_hex_char_value((x % 16) as nat);
        lemma_hex_upper_char_value((x / 16) as nat);
        lemma_hex_upper_char_value((x % 16) as nat);
        assert(b[2 * i] == h[2 * i] as u8);
        assert(b[2 * i + 1] == h[2 * i + 1] as u8);
        assert((x / 16) * 16 + x % 16 == x);
    }
    assert(pairs_value(b, 32, false) =~= id@);
}

/// A content id's hex text reads back as that same content id, as does its
/// uppercase hex text with white space around it.
pub proof fn law_cid_hex_round_trip(id: ContentId, pre: Seq<char>, post: Seq<char>)
    requires
        all_white(pre),
        all_white(post),
    ensures
        parse_cid_spec(hex_text(id@)) == Ok::<Seq<u8>, CidError>(id@),
        parse_cid_spec(pre + hex_text_upper(id@) + post) == Ok::<Seq<u8>, CidError>(id@),
{
    let none = Seq::<char>::empty();
    lemma_hex_text_shape(id@);
    lemma_hex_text_upper_shape(id@);
    law_cid_hex_reads_back(id, none, hex_text(id@), none);
    assert(none + hex_text(id@) + none =~= hex_text(id@));
    law_cid_hex_reads_back(id, pre, hex_text_upper(id@), post);
}

} // verus!
