use vstd::prelude::*;

verus! {

/// The `n` low-order bytes of `v`, most significant first.
pub open spec fn be_bytes(v: nat, n: nat) -> Seq<u8>
    decreases n,
{
    if n == 0 {
        Seq::empty()
    } else {
        be_bytes(v / 256, (n - 1) as nat).push((v % 256) as u8)
    }
}

/// The lowercase hexadecimal digit for a value below 16.
pub open spec fn hex_digit(d: int) -> char {
    seq!['0', '1', '2', '3', '4', '5', '6', '7', '8', '9', 'a', 'b', 'c', 'd', 'e', 'f'][d]
}

/// Two lowercase hexadecimal digits for each byte, in order.
pub open spec fn hex_of(bytes: Seq<u8>) -> Seq<char>
    decreases bytes.len(),
{
    if bytes.len() == 0 {
        Seq::empty()
    } else {
        let b = bytes[0] as int;
        seq![hex_digit(b / 16), hex_digit(b % 16)] + hex_of(bytes.drop_first())
    }
}

/// The hyphenated form of a 128-bit identifier: groups of 8, 4, 4, 4 and 12
/// lowercase hexadecimal digits joined by `-`.
pub open spec fn uuid_text_of(id: u128) -> Seq<char> {
    let b = be_bytes(id as nat, 16);
    hex_of(b.subrange(0, 4)) + seq!['-'] + hex_of(b.subrange(4, 6)) + seq!['-'] + hex_of(
        b.subrange(6, 8),
    ) + seq!['-'] + hex_of(b.subrange(8, 10)) + seq!['-'] + hex_of(b.subrange(10, 16))
}

/// Whether a character is an ASCII decimal digit.
pub open spec fn is_decimal_digit(c: char) -> bool {
    '0' as u32 <= c as u32 <= '9' as u32
}

/// The value of a string of decimal digits.
pub open spec fn decimal_value(digits: Seq<char>) -> nat
    decreases digits.len(),
{
    if digits.len() == 0 {
        0
    } else {
        decimal_value(digits.drop_last()) * 10 + (digits.last() as u32 - '0' as u32) as nat
    }
}

/// What `str::parse::<u64>` accepts: an optional `+`, then one or more ASCII
/// digits whose value fits in 64 bits.
pub open spec fn parse_u64_of(text: Seq<char>) -> Option<u64> {
    let digits = if text.len() > 0 && text[0] == '+' {
        text.drop_first()
    } else {
        text
    };
    if digits.len() > 0 && (forall|i: int| 0 <= i < digits.len() ==> is_decimal_digit(digits[i]))
        && decimal_value(digits) <= u64::MAX {
        Some(decimal_value(digits) as u64)
    } else {
        None
    }
}

/// Relies on `<u64 as FromStr>::from_str`, which accepts exactly an optional
/// `+` followed by decimal digits whose value fits in a `u64`.
#[verifier::external_body]
pub(crate) fn parse_u64(text: &String) -> (r: Option<u64>)
    ensures
        r == parse_u64_of(text@),
{
    text.parse::<u64>().ok()
}

/// Relies on uuid's `Uuid::from_u128` and `Uuid::as_bytes`: the identifier's
/// sixteen bytes, most significant first.
#[verifier::external_body]
pub(crate) fn uuid_bytes(id: u128) -> (r: Vec<u8>)
    ensures
        r@ == be_bytes(id as nat, 16),
{
    uuid::Uuid::from_u128(id).as_bytes().to_vec()
}

/// Relies on uuid's `Display for Uuid`, which writes the hyphenated lowercase
/// form.
#[verifier::external_body]
pub(crate) fn uuid_text(id: u128) -> (r: String)
    ensures
        r@ == uuid_text_of(id),
{
    uuid::Uuid::from_u128(id).to_string()
}

/// The eight bytes of `v`, most significant first.
pub fn u64_be_bytes(v: u64) -> (r: Vec<u8>)
    ensures
        r@ == be_bytes(v as nat, 8),
{
    let mut out: Vec<u8> = Vec::new();
    let mut rest: u64 = v;
    let mut i: usize = 0;
    while i < 8
        invariant
            i <= 8,
            be_bytes(v as nat, 8) == be_bytes(rest as nat, (8 - i) as nat) + out@,
        decreases 8 - i,
    {
        let ghost before = out@;
        out.insert(0, (rest % 256) as u8);
        proof {
            let m = (8 - i) as nat;
            assert(be_bytes(rest as nat, m) == be_bytes(rest as nat / 256, (m - 1) as nat).push(
                (rest as nat % 256) as u8,
            ));
            assert(be_bytes(rest as nat, m) + before =~= be_bytes(rest as nat / 256, (m - 1) as nat)
                + out@);
        }
        rest = rest / 256;
        i = i + 1;
    }
    assert(be_bytes(rest as nat, 0) =~= Seq::<u8>::empty());
    assert(out@ =~= Seq::<u8>::empty() + out@);
    out
}

} // verus!
