//! The identifier codec: parses and renders the engine's opaque track
//! identifiers to and from their external string forms. An identifier
//! is a 128-bit value plus an item-type tag; the external forms are a
//! compact base-62 encoding of exactly 22 digits, and a URI form
//! `spotify:<type>:<22 digits>`. Parsing always forces the tag to
//! `Track`, because this bridge only ever operates on tracks.
use vstd::prelude::*;

use crate::errors::BridgeError;
use crate::errors::ErrorKind;
use crate::errors::malformed_reference_msg;
use crate::errors::unrenderable_msg;

verus! {

/// The item categories an identifier can be tagged with.
#[derive(Clone, Copy, PartialEq, Eq, Structural, Debug)]
pub enum ItemType {
    Track,
    Album,
    Artist,
    Episode,
    Playlist,
    Show,
    /// A tag the external form cannot express; rendering it fails.
    Unknown,
}

/// An engine track identifier: a 128-bit value plus an item-type tag.
#[derive(Clone, Copy, PartialEq, Eq, Structural, Debug)]
pub struct TrackId {
    pub id: u128,
    pub item_type: ItemType,
}

/// The two external textual encodings an identifier can take.
#[derive(Clone, Copy, PartialEq, Eq, Structural, Debug)]
pub enum IdFormat {
    /// `spotify:<type>:<22 base-62 digits>`.
    Uri,
    /// Exactly 22 base-62 digits.
    Base62,
}

/// Number of digits in the external base-62 form of a 128-bit value.
pub const ID_DIGITS: usize = 22;

/// The base-62 value of a digit character, or 62 for a non-digit.
/// Digits are `0`-`9`, then `a`-`z`, then `A`-`Z`.
pub open spec fn digit_value(c: char) -> int {
    let u = c as int;
    if 48 <= u && u <= 57 {
        u - 48
    } else if 97 <= u && u <= 122 {
        u - 87
    } else if 65 <= u && u <= 90 {
        u - 29
    } else {
        62
    }
}

/// Whether a character is a base-62 digit.
pub open spec fn is_digit62(c: char) -> bool {
    digit_value(c) < 62
}

/// The digit character for a value below 62.
pub open spec fn digit_char(d: int) -> char {
    if d < 10 {
        ((48 + d) as u8) as char
    } else if d < 36 {
        ((87 + d) as u8) as char
    } else {
        ((29 + d) as u8) as char
    }
}

/// Whether every character of a sequence is a base-62 digit.
pub open spec fn all_digits62(s: Seq<char>) -> bool {
    forall|i: int| 0 <= i < s.len() ==> is_digit62(s[i])
}

/// 62 raised to the `k`-th power.
pub open spec fn pow62(k: nat) -> int
    decreases k,
{
    if k == 0 {
        1
    } else {
        62 * pow62((k - 1) as nat)
    }
}

/// The numeric value of a big-endian base-62 digit string.
pub open spec fn b62_value(s: Seq<char>) -> int
    decreases s.len(),
{
    if s.len() == 0 {
        0
    } else {
        b62_value(s.drop_last()) * 62 + digit_value(s.last())
    }
}

/// The big-endian, zero-padded, `k`-digit base-62 rendering of a value.
pub open spec fn b62_encode(v: int, k: nat) -> Seq<char>
    decreases k,
{
    if k == 0 {
        Seq::empty()
    } else {
        b62_encode(v / 62, (k - 1) as nat).push(digit_char(v % 62))
    }
}

/// The largest value a 128-bit identifier can take.
pub open spec fn id_value_max() -> int {
    0xffff_ffff_ffff_ffff_ffff_ffff_ffff_ffff
}

/// A digit character decodes back to the value it encodes.
pub proof fn lemma_digit_char_value(d: int)
    requires
        0 <= d < 62,
    ensures
        digit_value(digit_char(d)) == d,
        is_digit62(digit_char(d)),
{
}

/// A digit character is recovered from its value.
pub proof fn lemma_digit_value_char(c: char)
    requires
        is_digit62(c),
    ensures
        digit_char(digit_value(c)) == c,
{
}

/// `pow62` is positive.
pub proof fn lemma_pow62_pos(k: nat)
    ensures
        0 < pow62(k),
    decreases k,
{
    if k > 0 {
        lemma_pow62_pos((k - 1) as nat);
    }
}

/// `pow62` grows with its argument.
pub proof fn lemma_pow62_increases(j: nat, k: nat)
    requires
        j <= k,
    ensures
        0 < pow62(j) <= pow62(k),
    decreases k,
{
    lemma_pow62_pos(j);
    if k > 0 && j < k {
        lemma_pow62_increases(j, (k - 1) as nat);
        lemma_pow62_pos((k - 1) as nat);
    }
}

/// A digit string's value is nonnegative and below 62 to its length.
pub proof fn lemma_b62_value_bound(s: Seq<char>)
    requires
        all_digits62(s),
    ensures
        0 <= b62_value(s) < pow62(s.len()),
    decreases s.len(),
{
    if s.len() > 0 {
        assert(all_digits62(s.drop_last()));
        lemma_b62_value_bound(s.drop_last());
        assert(0 <= digit_value(s.last()) < 62);
        assert(b62_value(s.drop_last()) * 62 + digit_value(s.last()) < pow62(s.len())) by (nonlinear_arith)
            requires
                0 <= b62_value(s.drop_last()) < pow62((s.len() - 1) as nat),
                0 <= digit_value(s.last()) < 62,
                pow62(s.len()) == 62 * pow62((s.len() - 1) as nat),
        {}
    }
}

/// Encoding the value of a digit string gives the string back.
pub proof fn lemma_b62_encode_of_value(s: Seq<char>)
    requires
        all_digits62(s),
    ensures
        b62_encode(b62_value(s), s.len()) == s,
    decreases s.len(),
{
    if s.len() > 0 {
        let front = s.drop_last();
        let d = digit_value(s.last());
        assert(all_digits62(front));
        lemma_b62_value_bound(front);
        let v = b62_value(s);
        assert(v == b62_value(front) * 62 + d);
        assert(v / 62 == b62_value(front) && v % 62 == d) by (nonlinear_arith)
            requires
                v == b62_value(front) * 62 + d,
                0 <= d < 62,
                0 <= b62_value(front),
        {}
        lemma_b62_encode_of_value(front);
        lemma_digit_value_char(s.last());
        assert(b62_encode(v, s.len()) =~= s);
    }
}

/// Decoding an encoding gives the value back, and the encoding is made
/// of digits of the right count.
pub proof fn lemma_b62_value_of_encode(v: int, k: nat)
    requires
        0 <= v < pow62(k),
    ensures
        b62_encode(v, k).len() == k,
        all_digits62(b62_encode(v, k)),
        b62_value(b62_encode(v, k)) == v,
    decreases k,
{
    if k > 0 {
        let q = v / 62;
        let r = v % 62;
        assert(0 <= r < 62 && v == q * 62 + r && 0 <= q < pow62((k - 1) as nat)) by (nonlinear_arith)
            requires
                0 <= v < pow62(k),
                pow62(k) == 62 * pow62((k - 1) as nat),
                q == v / 62,
                r == v % 62,
        {}
        lemma_b62_value_of_encode(q, (k - 1) as nat);
        lemma_digit_char_value(r);
        let e = b62_encode(v, k);
        assert(e == b62_encode(q, (k - 1) as nat).push(digit_char(r)));
        assert(e.drop_last() =~= b62_encode(q, (k - 1) as nat));
        assert(e.last() == digit_char(r));
        assert(all_digits62(e)) by {
            assert(forall|i: int| 0 <= i < e.len() - 1 ==> e[i] == b62_encode(q, (k - 1) as nat)[i]);
        }
    }
}

/// For nonnegative `a` and `b`, `a > b / 62` exactly when `a * 62 > b`.
proof fn lemma_div_guard(a: int, b: int)
    requires
        0 <= a,
        0 <= b,
    ensures
        (a > b / 62) <==> (a * 62 > b),
{
    let q = b / 62;
    let r = b % 62;
    vstd::arithmetic::div_mod::lemma_fundamental_div_mod(b, 62);
    vstd::arithmetic::div_mod::lemma_mod_bound(b, 62);
    assert((a > q) <==> (a * 62 > b)) by (nonlinear_arith)
        requires
            b == 62 * q + r,
            0 <= r < 62,
            0 <= a,
    {}
}

/// A 22-digit prefix bound: any value of fewer than 22 digits fits in
/// 128 bits.
pub proof fn lemma_pow62_21_fits()
    ensures
        pow62(21) <= id_value_max(),
        id_value_max() < pow62(22),
{
    reveal_with_fuel(pow62, 23);
    assert(pow62(21) <= id_value_max() && id_value_max() < pow62(22));
}

/// The base-62 value of a digit character, executable form.
pub fn digit_value_exec(c: char) -> (d: u8)
    ensures
        d as int == digit_value(c),
{
    let u = c as u32;
    if 48 <= u && u <= 57 {
        (u - 48) as u8
    } else if 97 <= u && u <= 122 {
        (u - 87) as u8
    } else if 65 <= u && u <= 90 {
        (u - 29) as u8
    } else {
        62
    }
}

/// The digit character of a value below 62, executable form.
pub fn digit_char_exec(d: u8) -> (c: char)
    requires
        d < 62,
    ensures
        c == digit_char(d as int),
{
    if d < 10 {
        (48 + d) as char
    } else if d < 36 {
        (87 + d) as char
    } else {
        (29 + d) as char
    }
}

/// Decodes the 22 digit characters of `s` that start at `start`.
/// Returns the value they encode, or nothing if one of them is not a
/// digit or the value does not fit in 128 bits.
fn decode_digits(s: &str, start: usize) -> (r: Option<u128>)
    requires
        start + ID_DIGITS <= s@.len() <= usize::MAX,
    ensures
        ({
            let seg = s@.subrange(start as int, start + ID_DIGITS);
            &&& (r is Some) == (all_digits62(seg) && b62_value(seg) <= id_value_max())
            &&& (r matches Some(v) ==> v as int == b62_value(seg))
        }),
{
    let ghost seg = s@.subrange(start as int, start + ID_DIGITS);
    let mut acc: u128 = 0;
    let mut i: usize = 0;
    while i < ID_DIGITS - 1
        invariant
            start + ID_DIGITS <= s@.len() <= usize::MAX,
            i <= ID_DIGITS - 1,
            seg == s@.subrange(start as int, start + ID_DIGITS),
            all_digits62(seg.take(i as int)),
            acc as int == b62_value(seg.take(i as int)),
        decreases ID_DIGITS - i,
    {
        let c = s.get_char(start + i);
        let d = digit_value_exec(c);
        proof {
            assert(seg[i as int] == s@[start + i]);
        }
        if d >= 62 {
            proof {
                assert(!is_digit62(seg[i as int]));
            }
            return None;
        }
        proof {
            let prefix = seg.take(i as int);
            let next = seg.take(i as int + 1);
            assert(next.drop_last() =~= prefix);
            assert(next.last() == seg[i as int]);
            assert(all_digits62(next)) by {
                assert(forall|j: int| 0 <= j < next.len() ==> next[j] == seg.take(i as int + 1)[j]);
            }
            lemma_b62_value_bound(next);
            lemma_pow62_increases((i + 1) as nat, 21);
            lemma_pow62_21_fits();
            assert(b62_value(next) == acc as int * 62 + d as int);
            assert(b62_value(next) <= id_value_max());
        }
        acc = acc * 62 + (d as u128);
        i = i + 1;
    }
    let c = s.get_char(start + (ID_DIGITS - 1));
    let d = digit_value_exec(c);
    proof {
        assert(seg[ID_DIGITS - 1] == s@[start + (ID_DIGITS - 1)]);
    }
    if d >= 62 {
        proof {
            assert(!is_digit62(seg[ID_DIGITS - 1]));
        }
        return None;
    }
    proof {
        assert(seg.take(ID_DIGITS as int) =~= seg);
        assert(seg.take(ID_DIGITS as int).drop_last() =~= seg.take(ID_DIGITS - 1));
        assert(b62_value(seg) == acc as int * 62 + d as int);
        assert(all_digits62(seg)) by {
            assert(forall|j: int| 0 <= j < ID_DIGITS - 1 ==> seg[j] == seg.take(ID_DIGITS - 1)[j]);
        }
        lemma_div_guard(acc as int, id_value_max() - d as int);
    }
    let limit: u128 = (0xffff_ffff_ffff_ffff_ffff_ffff_ffff_ffff - (d as u128)) / 62;
    if acc > limit {
        proof {
            assert(b62_value(seg) > id_value_max());
        }
        return None;
    }
    acc = acc * 62 + (d as u128);
    Some(acc)
}

/// Relies on `String::push` of std: appends the given character to the
/// end of the string.
#[verifier::external_body]
fn push_char(s: &mut String, c: char)
    ensures
        final(s)@ == old(s)@.push(c),
{
    s.push(c);
}

/// Builds a string out of a character vector, in order.
fn chars_to_string(v: &Vec<char>) -> (s: String)
    ensures
        s@ == v@,
{
    let mut s = String::new();
    let mut i: usize = 0;
    while i < v.len()
        invariant
            i <= v.len(),
            s@ == v@.take(i as int),
        decreases v.len() - i,
    {
        push_char(&mut s, v[i]);
        proof {
            assert(v@.take(i as int).push(v@[i as int]) =~= v@.take(i as int + 1));
        }
        i = i + 1;
    }
    proof {
        assert(v@.take(v@.len() as int) =~= v@);
    }
    s
}

/// The `k`-digit base-62 rendering of a value, as characters.
fn b62_encode_chars(v: u128, k: usize) -> (r: Vec<char>)
    ensures
        r@ == b62_encode(v as int, k as nat),
    decreases k,
{
    if k == 0 {
        Vec::new()
    } else {
        let mut r = b62_encode_chars(v / 62, k - 1);
        let d = (v % 62) as u8;
        let c = digit_char_exec(d);
        r.push(c);
        r
    }
}

/// The scheme prefix of the URI form.
pub open spec fn uri_prefix() -> Seq<char> {
    "spotify:"@
}

/// The name each item type takes inside a URI.
pub open spec fn item_type_label(t: ItemType) -> Seq<char> {
    match t {
        ItemType::Track => "track"@,
        ItemType::Album => "album"@,
        ItemType::Artist => "artist"@,
        ItemType::Episode => "episode"@,
        ItemType::Playlist => "playlist"@,
        ItemType::Show => "show"@,
        ItemType::Unknown => "unknown"@,
    }
}

/// The item-type segment of a URI: what stands between the scheme
/// prefix and the final `:`.
pub open spec fn uri_type_seg(s: Seq<char>) -> Seq<char> {
    s.subrange(8, s.len() - 23)
}

/// The identifier segment of a URI: its last 22 characters.
pub open spec fn uri_id_seg(s: Seq<char>) -> Seq<char> {
    s.subrange(s.len() - 22, s.len() as int)
}

/// Well-formedness of the URI form: the scheme prefix, a type segment
/// free of `:`, one `:`, and 22 base-62 digits.
pub open spec fn uri_wf(s: Seq<char>) -> bool {
    &&& s.len() >= 31
    &&& s.subrange(0, 8) == uri_prefix()
    &&& s[s.len() - 23] == ':'
    &&& all_digits62(uri_id_seg(s))
    &&& forall|i: int| 8 <= i < s.len() - 23 ==> s[i] != ':'
}

/// The URI rendering of an identifier.
pub open spec fn uri_of(t: ItemType, v: int) -> Seq<char> {
    uri_prefix() + item_type_label(t) + ":"@ + b62_encode(v, ID_DIGITS as nat)
}

/// Which strings a parse of the given format accepts.
pub open spec fn parse_accepts(fmt: IdFormat, s: Seq<char>) -> bool {
    match fmt {
        IdFormat::Uri => uri_wf(s) && b62_value(uri_id_seg(s)) <= id_value_max(),
        IdFormat::Base62 => s.len() == ID_DIGITS && all_digits62(s) && b62_value(s)
            <= id_value_max(),
    }
}

/// The identifier a successful parse yields: the encoded value, tagged
/// as a track whatever the text said.
pub open spec fn parsed_id(fmt: IdFormat, s: Seq<char>) -> TrackId {
    match fmt {
        IdFormat::Uri => TrackId { id: b62_value(uri_id_seg(s)) as u128, item_type: ItemType::Track },
        IdFormat::Base62 => TrackId { id: b62_value(s) as u128, item_type: ItemType::Track },
    }
}

/// Whether an identifier has a rendering in the given format.
pub open spec fn renderable(fmt: IdFormat, id: TrackId) -> bool {
    match fmt {
        IdFormat::Uri => id.item_type != ItemType::Unknown,
        IdFormat::Base62 => true,
    }
}

/// The rendering of an identifier in the given format.
pub open spec fn rendered(fmt: IdFormat, id: TrackId) -> Seq<char> {
    match fmt {
        IdFormat::Uri => uri_of(id.item_type, id.id as int),
        IdFormat::Base62 => b62_encode(id.id as int, ID_DIGITS as nat),
    }
}

/// Parses the URI form.
fn parse_uri(s: &str) -> (r: Result<TrackId, BridgeError>)
    ensures
        (r is Ok) == parse_accepts(IdFormat::Uri, s@),
        r matches Ok(id) ==> id == parsed_id(IdFormat::Uri, s@),
        r matches Err(e) ==> e.kind == ErrorKind::Identifier && e.message@
            == malformed_reference_msg(),
{
    proof {
        reveal_strlit("spotify:");
    }
    let n = s.unicode_len();
    if n < 31 {
        return Err(BridgeError::identifier_error());
    }
    if s.get_char(0) != 's' || s.get_char(1) != 'p' || s.get_char(2) != 'o' || s.get_char(3) != 't'
        || s.get_char(4) != 'i' || s.get_char(5) != 'f' || s.get_char(6) != 'y' || s.get_char(7)
        != ':' {
        proof {
            if s@.subrange(0, 8) == uri_prefix() {
                assert(forall|j: int| 0 <= j < 8 ==> s@[j] == uri_prefix()[j]) by {
                    assert(forall|j: int|
                        0 <= j < 8 ==> s@.subrange(0, 8)[j] == uri_prefix()[j]);
                }
            }
        }
        return Err(BridgeError::identifier_error());
    }
    if s.get_char(n - 23) != ':' {
        return Err(BridgeError::identifier_error());
    }
    let mut i: usize = 8;
    while i < n - 23
        invariant
            n == s@.len(),
            31 <= n <= usize::MAX,
            8 <= i <= n - 23,
            forall|j: int| 8 <= j < i ==> s@[j] != ':',
        decreases n - 23 - i,
    {
        if s.get_char(i) == ':' {
            return Err(BridgeError::identifier_error());
        }
        i = i + 1;
    }
    match decode_digits(s, n - 22) {
        None => {
            proof {
                assert(s@.subrange(n - 22, n - 22 + ID_DIGITS) =~= uri_id_seg(s@));
            }
            Err(BridgeError::identifier_error())
        },
        Some(v) => {
            proof {
                assert(s@.subrange(n - 22, n - 22 + ID_DIGITS) =~= uri_id_seg(s@));
                assert(s@.subrange(0, 8) =~= uri_prefix());
            }
            Ok(TrackId { id: v, item_type: ItemType::Track })
        },
    }
}

/// Parses the compact form.
fn parse_base62(s: &str) -> (r: Result<TrackId, BridgeError>)
    ensures
        (r is Ok) == parse_accepts(IdFormat::Base62, s@),
        r matches Ok(id) ==> id == parsed_id(IdFormat::Base62, s@),
        r matches Err(e) ==> e.kind == ErrorKind::Identifier && e.message@
            == malformed_reference_msg(),
{
    let n = s.unicode_len();
    if n != ID_DIGITS {
        return Err(BridgeError::identifier_error());
    }
    match decode_digits(s, 0) {
        None => {
            proof {
                assert(s@.subrange(0, ID_DIGITS as int) =~= s@);
            }
            Err(BridgeError::identifier_error())
        },
        Some(v) => {
            proof {
                assert(s@.subrange(0, ID_DIGITS as int) =~= s@);
            }
            Ok(TrackId { id: v, item_type: ItemType::Track })
        },
    }
}

/// The identifier codec, configured for one of the two external forms.
pub struct IdentifierCodec {
    pub format: IdFormat,
}

impl IdentifierCodec {
    /// A codec for the given external form.
    pub fn new(format: IdFormat) -> (c: IdentifierCodec)
        ensures
            c.format == format,
    {
        IdentifierCodec { format }
    }

    /// Parses an external track reference. The result is always tagged
    /// as a track, whatever item type the text encoded.
    pub fn parse(&self, s: &str) -> (r: Result<TrackId, BridgeError>)
        ensures
            (r is Ok) == parse_accepts(self.format, s@),
            r matches Ok(id) ==> id == parsed_id(self.format, s@),
            r matches Ok(id) ==> id.item_type == ItemType::Track,
            r matches Err(e) ==> e.kind == ErrorKind::Identifier && e.message@
                == malformed_reference_msg(),
    {
        match self.format {
            IdFormat::Uri => parse_uri(s),
            IdFormat::Base62 => parse_base62(s),
        }
    }

    /// Renders an identifier to the external form; fails exactly when
    /// the identifier's tag has no rendering there.
    pub fn render(&self, id: &TrackId) -> (r: Result<String, BridgeError>)
        ensures
            (r is Ok) == renderable(self.format, *id),
            r matches Ok(s) ==> s@ == rendered(self.format, *id),
            r matches Err(e) ==> e.kind == ErrorKind::Identifier && e.message@
                == unrenderable_msg(),
    {
        match self.format {
            IdFormat::Uri => {
                let mut out = String::from_str("spotify:");
                match id.item_type {
                    ItemType::Track => out.append("track"),
                    ItemType::Album => out.append("album"),
                    ItemType::Artist => out.append("artist"),
                    ItemType::Episode => out.append("episode"),
                    ItemType::Playlist => out.append("playlist"),
                    ItemType::Show => out.append("show"),
                    ItemType::Unknown => {
                        return Err(BridgeError::render_error());
                    },
                }
                out.append(":");
                let digits = b62_encode_chars(id.id, ID_DIGITS);
                let tail = chars_to_string(&digits);
                out.append(tail.as_str());
                proof {
                    assert(out@ =~= rendered(self.format, *id));
                }
                Ok(out)
            },
            IdFormat::Base62 => {
                let digits = b62_encode_chars(id.id, ID_DIGITS);
                Ok(chars_to_string(&digits))
            },
        }
    }
}

/// No item-type name contains the `:` separator.
proof fn lemma_label_has_no_colon(t: ItemType)
    ensures
        forall|i: int| 0 <= i < item_type_label(t).len() ==> item_type_label(t)[i] != ':',
{
    reveal_strlit("track");
    reveal_strlit("album");
    reveal_strlit("artist");
    reveal_strlit("episode");
    reveal_strlit("playlist");
    reveal_strlit("show");
    reveal_strlit("unknown");
}

/// Law: rendering any identifier the external form can express and
/// parsing the result succeeds, and recovers the same 128-bit value —
/// tagged as a track, whatever the identifier's own tag was.
pub proof fn lemma_render_parse_roundtrip(fmt: IdFormat, id: TrackId)
    requires
        renderable(fmt, id),
    ensures
        parse_accepts(fmt, rendered(fmt, id)),
        parsed_id(fmt, rendered(fmt, id)).id == id.id,
        parsed_id(fmt, rendered(fmt, id)).item_type == ItemType::Track,
{
    lemma_pow62_21_fits();
    lemma_b62_value_of_encode(id.id as int, ID_DIGITS as nat);
    let enc = b62_encode(id.id as int, ID_DIGITS as nat);
    match fmt {
        IdFormat::Base62 => {
        },
        IdFormat::Uri => {
            reveal_strlit("spotify:");
            reveal_strlit(":");
            let s = rendered(fmt, id);
            let label = item_type_label(id.item_type);
            let n = label.len() as int;
            assert(s.len() == 31 + n);
            assert(s.subrange(0, 8) =~= uri_prefix()) by {
                assert(forall|k: int| 0 <= k < 8 ==> #[trigger] s[k] == uri_prefix()[k]);
            }
            assert(s[s.len() - 23] == ':') by {
                assert(s[8 + n] == ":"@[0]);
            }
            assert(uri_id_seg(s) =~= enc) by {
                assert(forall|k: int| 0 <= k < 22 ==> #[trigger] s[9 + n + k] == enc[k]);
            }
            lemma_label_has_no_colon(id.item_type);
            assert(forall|i: int| 8 <= i < s.len() - 23 ==> #[trigger] s[i] == label[i - 8]);
        },
    }
}

/// Law: parsing a well-formed external track reference and rendering
/// the result gives back the original string, and the parsed identifier
/// is tagged as a track regardless of the tag the text encoded.
/// (A reference with another tag, such as a URI naming an album, parses
/// but re-renders under the `track` tag instead.)
pub proof fn lemma_parse_render_roundtrip(fmt: IdFormat, s: Seq<char>)
    requires
        parse_accepts(fmt, s),
        fmt is Uri ==> uri_type_seg(s) == "track"@,
    ensures
        parsed_id(fmt, s).item_type == ItemType::Track,
        renderable(fmt, parsed_id(fmt, s)),
        rendered(fmt, parsed_id(fmt, s)) == s,
{
    match fmt {
        IdFormat::Base62 => {
            lemma_b62_value_bound(s);
            lemma_b62_encode_of_value(s);
        },
        IdFormat::Uri => {
            reveal_strlit("spotify:");
            reveal_strlit("track");
            reveal_strlit(":");
            let idseg = uri_id_seg(s);
            lemma_b62_value_bound(idseg);
            lemma_b62_encode_of_value(idseg);
            assert("track"@.len() == 5);
            assert(uri_type_seg(s).len() == s.len() - 31);
            assert(s.len() == 36);
            let out = rendered(fmt, parsed_id(fmt, s));
            assert(out =~= s) by {
                assert(forall|k: int| 0 <= k < 8 ==> #[trigger] s.subrange(0, 8)[k] == uri_prefix()[k]);
                assert(forall|k: int| 0 <= k < 5 ==> #[trigger] uri_type_seg(s)[k] == "track"@[k]);
                assert(s[13] == ':');
                assert(forall|k: int| 0 <= k < 22 ==> #[trigger] uri_id_seg(s)[k] == s[14 + k]);
            }
        },
    }
}

} // verus!
