//! Stable, versioned text material and its SHA-256 digest.

use vstd::prelude::*;
use vstd::utf8::encode_utf8;
use xccute_runtime::StableDigest;

verus! {

/// The lowercase hexadecimal SHA-256 digest that `StableDigest::sha256`
/// renders for the UTF-8 bytes of a text.
pub uninterp spec fn sha256_hex(material: Seq<char>) -> Seq<char>;

/// Calls `xccute_runtime::StableDigest::sha256` on the text and keeps its
/// rendered form (`as_str`). Claimed: the result is `sha256_hex` of the text.
#[verifier::external_body]
pub(crate) fn sha256_digest(material: &str) -> (digest: String)
    ensures
        digest@ == sha256_hex(material@),
{
    StableDigest::sha256(material).as_str().to_owned()
}

/// Number of bytes in the UTF-8 encoding of a text, as `str::len` returns it
/// (a `usize`: a text held in memory never has more bytes than that).
pub open spec fn utf8_len(text: Seq<char>) -> nat {
    (encode_utf8(text).len() as usize) as nat
}

pub open spec fn digit_char(d: nat) -> char {
    if d == 0 { '0' }
    else if d == 1 { '1' }
    else if d == 2 { '2' }
    else if d == 3 { '3' }
    else if d == 4 { '4' }
    else if d == 5 { '5' }
    else if d == 6 { '6' }
    else if d == 7 { '7' }
    else if d == 8 { '8' }
    else { '9' }
}

/// Decimal rendering of a natural number, most significant digit first,
/// with no leading zeros.
pub open spec fn decimal(n: nat) -> Seq<char>
    decreases n,
{
    if n < 10 {
        seq![digit_char(n)]
    } else {
        decimal(n / 10).push(digit_char(n % 10))
    }
}

/// The text of one decimal digit.
fn digit_str(d: usize) -> (text: &'static str)
    requires
        d < 10,
    ensures
        text@ == seq![digit_char(d as nat)],
{
    if d == 0 {
        proof {
            reveal_strlit("0");
        }
        "0"
    } else if d == 1 {
        proof {
            reveal_strlit("1");
        }
        "1"
    } else if d == 2 {
        proof {
            reveal_strlit("2");
        }
        "2"
    } else if d == 3 {
        proof {
            reveal_strlit("3");
        }
        "3"
    } else if d == 4 {
        proof {
            reveal_strlit("4");
        }
        "4"
    } else if d == 5 {
        proof {
            reveal_strlit("5");
        }
        "5"
    } else if d == 6 {
        proof {
            reveal_strlit("6");
        }
        "6"
    } else if d == 7 {
        proof {
            reveal_strlit("7");
        }
        "7"
    } else if d == 8 {
        proof {
            reveal_strlit("8");
        }
        "8"
    } else {
        proof {
            reveal_strlit("9");
        }
        "9"
    }
}

/// Decimal rendering of a `usize`, as integer `Display` writes it.
pub(crate) fn usize_text(n: usize) -> (text: String)
    ensures
        text@ == decimal(n as nat),
    decreases n,
{
    if n < 10 {
        text_of(digit_str(n))
    } else {
        let mut text = usize_text(n / 10);
        text.append(digit_str(n % 10));
        text
    }
}

/// One length-prefixed `key=value` field of a stable material:
/// `key.len=<bytes>\nkey=value\n`.
pub open spec fn stable_field(key: Seq<char>, value: Seq<char>) -> Seq<char> {
    key + ".len="@ + decimal(utf8_len(value)) + "\n"@ + key + "="@ + value + "\n"@
}

/// Appends one length-prefixed field to a material.
pub fn push_stable_field(out: &mut String, key: &str, value: &str)
    ensures
        final(out)@ == old(out)@ + stable_field(key@, value@),
{
    let len_text = usize_text(value.len());
    out.append(key);
    out.append(".len=");
    out.append(len_text.as_str());
    out.append("\n");
    out.append(key);
    out.append("=");
    out.append(value);
    out.append("\n");
    assert(out@ =~= old(out)@ + stable_field(key@, value@));
}

/// The text of an optional field as a stable material writes it: the value,
/// or nothing when it is absent.
pub open spec fn opt_text(value: Option<String>) -> Seq<char> {
    match value {
        Some(text) => text@,
        None => ""@,
    }
}

/// The text of an optional field, or the empty text when it is absent.
pub fn opt_str(value: &Option<String>) -> (text: &str)
    ensures
        text@ == opt_text(*value),
{
    match value {
        Some(text) => text.as_str(),
        None => "",
    }
}

/// The views of an optional text.
pub open spec fn opt_view(value: Option<String>) -> Option<Seq<char>> {
    match value {
        Some(text) => Some(text@),
        None => None,
    }
}

/// Whether two texts hold the same characters.
pub fn same_text(left: &str, right: &str) -> (same: bool)
    ensures
        same == (left@ == right@),
{
    left.to_owned() == right.to_owned()
}

/// A copy of an optional text.
pub fn copy_opt_string(value: &Option<String>) -> (copy: Option<String>)
    ensures
        copy == *value,
{
    match value {
        Some(text) => Some(text.clone()),
        None => None,
    }
}

/// Text for a boolean, as `bool`'s `Display` writes it.
pub open spec fn bool_text(value: bool) -> Seq<char> {
    if value { "true"@ } else { "false"@ }
}

/// Text for a boolean, as `bool`'s `Display` writes it.
pub fn bool_str(value: bool) -> (text: &'static str)
    ensures
        text@ == bool_text(value),
{
    if value { "true" } else { "false" }
}

/// A new text holding a literal.
pub fn text_of(literal: &str) -> (text: String)
    ensures
        text@ == literal@,
{
    literal.to_owned()
}

proof fn lemma_digit_chars(d: nat, e: nat)
    requires
        d < 10,
        e < 10,
    ensures
        digit_char(d) != '\n',
        digit_char(d) == digit_char(e) ==> d == e,
{
}

proof fn lemma_decimal_digits(n: nat)
    ensures
        decimal(n).len() >= 1,
        n >= 10 ==> decimal(n).len() >= 2,
        forall|i: int| 0 <= i < decimal(n).len() ==> #[trigger] decimal(n)[i] != '\n',
    decreases n,
{
    if n < 10 {
        lemma_digit_chars(n, n);
    } else {
        lemma_decimal_digits(n / 10);
        lemma_digit_chars(n % 10, n % 10);
    }
}

/// Different numbers have different decimal renderings.
proof fn lemma_decimal_injective(x: nat, y: nat)
    requires
        decimal(x) == decimal(y),
    ensures
        x == y,
    decreases x,
{
    lemma_decimal_digits(x);
    lemma_decimal_digits(y);
    if x < 10 && y < 10 {
        assert(decimal(x) == seq![digit_char(x)]);
        assert(decimal(y) == seq![digit_char(y)]);
        assert(decimal(x)[0] == digit_char(x));
        assert(decimal(y)[0] == digit_char(y));
        lemma_digit_chars(x, y);
    } else if x >= 10 && y >= 10 {
        assert(decimal(x) == decimal(x / 10).push(digit_char(x % 10)));
        assert(decimal(y) == decimal(y / 10).push(digit_char(y % 10)));
        assert(decimal(x).last() == digit_char(x % 10));
        assert(decimal(y).last() == digit_char(y % 10));
        assert(decimal(x).drop_last() =~= decimal(x / 10));
        assert(decimal(y).drop_last() =~= decimal(y / 10));
        lemma_decimal_injective(x / 10, y / 10);
        lemma_digit_chars(x % 10, y % 10);
        assert(x == (x / 10) * 10 + x % 10);
        assert(y == (y / 10) * 10 + y % 10);
    } else if x < 10 {
        assert(decimal(x).len() == 1);
    } else {
        assert(decimal(y).len() == 1);
    }
}

/// The UTF-8 encoding of a concatenation is the concatenation of the
/// encodings, and every character takes at least one byte.
proof fn lemma_encode_utf8_concat(a: Seq<char>, b: Seq<char>)
    ensures
        encode_utf8(a + b) == encode_utf8(a) + encode_utf8(b),
        encode_utf8(a).len() >= a.len(),
    decreases a.len(),
{
    if a.len() > 0 {
        assert((a + b).drop_first() =~= a.drop_first() + b);
        lemma_encode_utf8_concat(a.drop_first(), b);
        assert((a + b)[0] == a[0]);
    } else {
        assert(a + b =~= b);
    }
}

/// Two texts that are followed by the same separator and then anything, and
/// that have the same UTF-8 byte length, are the same text.
proof fn lemma_same_bytes_same_prefix(a: Seq<char>, ra: Seq<char>, b: Seq<char>, rb: Seq<char>)
    requires
        a + ra == b + rb,
        encode_utf8(a).len() == encode_utf8(b).len(),
    ensures
        a == b,
        ra == rb,
{
    if a.len() < b.len() {
        assert(b =~= a + b.skip(a.len() as int)) by {
            assert forall|i: int| 0 <= i < a.len() implies b[i] == a[i] by {
                assert((a + ra)[i] == a[i]);
                assert((b + rb)[i] == b[i]);
            }
        }
        lemma_encode_utf8_concat(a, b.skip(a.len() as int));
        lemma_encode_utf8_concat(b.skip(a.len() as int), Seq::empty());
    } else if b.len() < a.len() {
        assert(a =~= b + a.skip(b.len() as int)) by {
            assert forall|i: int| 0 <= i < b.len() implies a[i] == b[i] by {
                assert((a + ra)[i] == a[i]);
                assert((b + rb)[i] == b[i]);
            }
        }
        lemma_encode_utf8_concat(b, a.skip(b.len() as int));
        lemma_encode_utf8_concat(a.skip(b.len() as int), Seq::empty());
    } else {
        assert forall|i: int| 0 <= i < a.len() implies a[i] == b[i] by {
            assert((a + ra)[i] == a[i]);
            assert((b + rb)[i] == b[i]);
        }
        assert(a =~= b);
        lemma_cancel_prefix(a, ra, rb);
    }
}

/// Whether a text's UTF-8 encoding fits a `usize`, as that of every text
/// held in memory does.
pub open spec fn text_fits(text: Seq<char>) -> bool {
    encode_utf8(text).len() <= usize::MAX
}

/// Equal texts with equal beginnings have equal rests.
pub proof fn lemma_cancel_prefix(p: Seq<char>, x: Seq<char>, y: Seq<char>)
    requires
        p + x == p + y,
    ensures
        x == y,
{
    assert((p + x).len() == (p + y).len());
    assert forall|i: int| 0 <= i < x.len() implies x[i] == y[i] by {
        let k = p.len() + i;
        assert(0 <= k < (p + x).len());
        assert((p + x)[k] == x[i]);
        assert((p + y)[k] == y[i]);
    }
    assert(x =~= y);
}

/// A length-prefixed field can be read back: when two texts both begin with
/// a field under the same key, and the values' UTF-8 byte lengths fit a
/// `usize` (as every text held in memory does), the values are the same and
/// so is the rest of the texts.
pub proof fn lemma_stable_field_split(
    key: Seq<char>,
    a: Seq<char>,
    ra: Seq<char>,
    b: Seq<char>,
    rb: Seq<char>,
)
    requires
        stable_field(key, a) + ra == stable_field(key, b) + rb,
        text_fits(a),
        text_fits(b),
    ensures
        a == b,
        ra == rb,
{
    let p = key + ".len="@;
    let da = decimal(utf8_len(a));
    let db = decimal(utf8_len(b));
    let ta = "\n"@ + key + "="@ + a + "\n"@ + ra;
    let tb = "\n"@ + key + "="@ + b + "\n"@ + rb;
    assert(stable_field(key, a) + ra =~= p + (da + ta));
    assert(stable_field(key, b) + rb =~= p + (db + tb));
    lemma_cancel_prefix(p, da + ta, db + tb);
    lemma_decimal_digits(utf8_len(a));
    lemma_decimal_digits(utf8_len(b));
    reveal_strlit("\n");
    assert(ta[0] == '\n');
    assert(tb[0] == '\n');
    if da.len() < db.len() {
        assert((da + ta)[da.len() as int] == (db + tb)[da.len() as int]);
        assert(db[da.len() as int] != '\n');
    } else if db.len() < da.len() {
        assert((da + ta)[db.len() as int] == (db + tb)[db.len() as int]);
        assert(da[db.len() as int] != '\n');
    }
    assert(da.len() == db.len());
    assert forall|i: int| 0 <= i < da.len() implies da[i] == db[i] by {
        assert((da + ta)[i] == (db + tb)[i]);
    }
    assert(da =~= db);
    lemma_decimal_injective(utf8_len(a), utf8_len(b));
    lemma_cancel_prefix(da, ta, tb);
    let q = "\n"@ + key + "="@;
    assert(ta =~= q + (a + ("\n"@ + ra)));
    assert(tb =~= q + (b + ("\n"@ + rb)));
    lemma_cancel_prefix(q, a + ("\n"@ + ra), b + ("\n"@ + rb));
    lemma_same_bytes_same_prefix(a, "\n"@ + ra, b, "\n"@ + rb);
    lemma_cancel_prefix("\n"@, ra, rb);
}

/// A run of length-prefixed fields, the keys and values paired in order.
pub open spec fn stable_fields(keys: Seq<Seq<char>>, values: Seq<Seq<char>>) -> Seq<char>
    decreases keys.len(),
{
    if keys.len() == 0 || values.len() == 0 {
        Seq::empty()
    } else {
        stable_field(keys[0], values[0]) + stable_fields(keys.drop_first(), values.drop_first())
    }
}

/// A run of length-prefixed fields under the same keys can be read back:
/// equal runs hold equal values, for values whose UTF-8 byte lengths fit a
/// `usize`.
pub proof fn lemma_stable_fields_injective(
    keys: Seq<Seq<char>>,
    a: Seq<Seq<char>>,
    b: Seq<Seq<char>>,
)
    requires
        a.len() == keys.len(),
        b.len() == keys.len(),
        forall|i: int| 0 <= i < keys.len() ==> text_fits(#[trigger] a[i]) && text_fits(b[i]),
        stable_fields(keys, a) == stable_fields(keys, b),
    ensures
        a == b,
    decreases keys.len(),
{
    if keys.len() > 0 {
        assert(text_fits(a[0]) && text_fits(b[0]));
        lemma_stable_field_split(
            keys[0],
            a[0],
            stable_fields(keys.drop_first(), a.drop_first()),
            b[0],
            stable_fields(keys.drop_first(), b.drop_first()),
        );
        assert forall|i: int| 0 <= i < keys.len() - 1 implies text_fits(
            #[trigger] a.drop_first()[i],
        ) && text_fits(b.drop_first()[i]) by {
            assert(text_fits(a[i + 1]) && text_fits(b[i + 1]));
        }
        lemma_stable_fields_injective(keys.drop_first(), a.drop_first(), b.drop_first());
        assert(a =~= seq![a[0]] + a.drop_first());
        assert(b =~= seq![b[0]] + b.drop_first());
    } else {
        assert(a =~= b);
    }
}

} // verus!
