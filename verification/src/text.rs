//! Text: the few functions of the standard library that the hooks rely on, numbers in decimal,
//! and the order of text.
use vstd::prelude::*;
use vstd::string::StringExecFns;
use vstd::utf8::*;

verus! {

/// Whether `c` has the Unicode property White_Space.
pub open spec fn is_white_space(c: char) -> bool {
    let code = c as u32;
    ||| 0x09 <= code <= 0x0d
    ||| code == 0x20
    ||| code == 0x85
    ||| code == 0xa0
    ||| code == 0x1680
    ||| 0x2000 <= code <= 0x200a
    ||| code == 0x2028
    ||| code == 0x2029
    ||| code == 0x202f
    ||| code == 0x205f
    ||| code == 0x3000
}

/// `s` without the white space that it begins with.
pub open spec fn trimmed_start(s: Seq<char>) -> Seq<char>
    decreases s.len(),
{
    if s.len() > 0 && is_white_space(s.first()) {
        trimmed_start(s.drop_first())
    } else {
        s
    }
}

/// `s` without the white space that it ends in.
pub open spec fn trimmed_end(s: Seq<char>) -> Seq<char>
    decreases s.len(),
{
    if s.len() > 0 && is_white_space(s.last()) {
        trimmed_end(s.drop_last())
    } else {
        s
    }
}

/// `s` without the white space at either end.
pub open spec fn trimmed(s: Seq<char>) -> Seq<char> {
    trimmed_end(trimmed_start(s))
}

/// The decimal digit of `n`, for `n` below ten.
pub open spec fn digit(n: nat) -> char {
    (48 + n) as char
}

/// `n` in decimal, without leading zeros.
pub open spec fn decimal(n: nat) -> Seq<char>
    decreases n,
{
    if n < 10 {
        seq![digit(n)]
    } else {
        decimal(n / 10).push(digit(n % 10))
    }
}

/// What [`String::from_utf8_lossy`] makes of `bytes`.
pub uninterp spec fn utf8_lossy(bytes: Seq<u8>) -> Seq<char>;

/// The text of `bytes`: what they encode where they are UTF-8, else what
/// [`String::from_utf8_lossy`] makes of them.
pub open spec fn decoded(bytes: Seq<u8>) -> Seq<char> {
    if valid_utf8(bytes) {
        decode_utf8(bytes)
    } else {
        utf8_lossy(bytes)
    }
}

/// Calls [`String::from_utf8_lossy`]. Trusted: the text depends on the bytes alone, and bytes
/// that are UTF-8 are decoded as they are. Which replacement characters stand for bytes that are
/// not UTF-8 is left to the name.
#[verifier::external_body]
pub(crate) fn lossy_text(bytes: &Vec<u8>) -> (text: String)
    ensures
        text@ == utf8_lossy(bytes@),
        valid_utf8(bytes@) ==> text@ == decode_utf8(bytes@),
{
    String::from_utf8_lossy(bytes).into_owned()
}

/// Calls [`std::str::from_utf8`]. Trusted: it succeeds on UTF-8 alone, and gives the characters
/// that the bytes encode.
#[verifier::external_body]
pub(crate) fn utf8_text(bytes: &Vec<u8>) -> (text: Option<String>)
    ensures
        text is Some <==> valid_utf8(bytes@),
        text matches Some(decoded) ==> decoded@ == decode_utf8(bytes@),
{
    std::str::from_utf8(bytes).ok().map(String::from)
}

/// Calls [`str::trim`]. Trusted: it drops the white space at both ends and nothing else.
#[verifier::external_body]
pub(crate) fn trim_text(text: &String) -> (rest: String)
    ensures
        rest@ == trimmed(text@),
{
    text.trim().to_string()
}

/// The decimal digit of `number`, as text.
fn digit_text(number: u64) -> (text: &'static str)
    requires
        number < 10,
    ensures
        text@ == seq![digit(number as nat)],
{
    proof {
        reveal_strlit("0");
        reveal_strlit("1");
        reveal_strlit("2");
        reveal_strlit("3");
        reveal_strlit("4");
        reveal_strlit("5");
        reveal_strlit("6");
        reveal_strlit("7");
        reveal_strlit("8");
        reveal_strlit("9");
    }
    match number {
        0 => "0",
        1 => "1",
        2 => "2",
        3 => "3",
        4 => "4",
        5 => "5",
        6 => "6",
        7 => "7",
        8 => "8",
        _ => "9",
    }
}

/// `number` in decimal.
pub(crate) fn decimal_text(number: u64) -> (digits: String)
    ensures
        digits@ == decimal(number as nat),
    decreases number,
{
    if number < 10 {
        return digit_text(number).to_string();
    }
    let mut digits = decimal_text(number / 10);
    digits.append(digit_text(number % 10));
    assert(digits@ =~= decimal(number as nat));
    digits
}

/// Whether `one` stands before `other` in the order of text, or is the same: where they first
/// differ it has the smaller character, unless it is where `other` goes on.
pub open spec fn not_after(one: Seq<char>, other: Seq<char>) -> bool {
    ||| one.is_prefix_of(other)
    ||| exists|at: int|
        {
            &&& 0 <= at < one.len()
            &&& at < other.len()
            &&& one.take(at) == other.take(at)
            &&& #[trigger] one[at] < other[at]
        }
}

/// The number that decimal digits read as.
pub open spec fn read_decimal(digits: Seq<char>) -> int
    decreases digits.len(),
{
    if digits.len() == 0 {
        0
    } else {
        10 * read_decimal(digits.drop_last()) + (digits.last() as int - '0' as int)
    }
}

/// A number in decimal reads as that number again, is made of digits alone, and begins with a zero
/// only if it is zero.
pub proof fn law_decimal_reads_back(n: nat)
    ensures
        read_decimal(decimal(n)) == n,
        decimal(n).len() > 0,
        forall|i: int| 0 <= i < decimal(n).len() ==> '0' <= #[trigger] decimal(n)[i] <= '9',
        decimal(n)[0] == '0' ==> n == 0 && decimal(n).len() == 1,
    decreases n,
{
    if n < 10 {
        assert(decimal(n).drop_last() =~= Seq::<char>::empty());
        assert(read_decimal(Seq::<char>::empty()) == 0);
    } else {
        law_decimal_reads_back(n / 10);
        assert(decimal(n).drop_last() =~= decimal(n / 10));
        assert(decimal(n)[0] == decimal(n / 10)[0]);
    }
}

/// Whether `s` is white space alone.
pub open spec fn is_blank(s: Seq<char>) -> bool {
    forall|i: int| 0 <= i < s.len() ==> is_white_space(#[trigger] s[i])
}

/// Trimming takes the white space off both ends, and nothing else: what neither begins nor ends in
/// white space is kept, whatever white space stands round it.
pub proof fn law_trimming_keeps_what_is_said(lead: Seq<char>, said: Seq<char>, trail: Seq<char>)
    requires
        is_blank(lead),
        is_blank(trail),
        said.len() > 0 ==> !is_white_space(said.first()) && !is_white_space(said.last()),
    ensures
        trimmed(lead + said + trail) == said,
{
    lemma_trimmed_start(lead, said + trail);
    assert(lead + (said + trail) =~= lead + said + trail);
    if said.len() > 0 {
        assert((said + trail).first() == said.first());
        lemma_trimmed_end(said, trail);
    } else {
        assert(trail + Seq::<char>::empty() =~= trail);
        lemma_trimmed_start(trail, Seq::empty());
        assert(said + trail =~= trail);
        assert(said =~= Seq::<char>::empty());
    }
}

/// White space at the beginning does not matter to what is left.
proof fn lemma_trimmed_start(lead: Seq<char>, rest: Seq<char>)
    requires
        is_blank(lead),
    ensures
        trimmed_start(lead + rest) == trimmed_start(rest),
    decreases lead.len(),
{
    if lead.len() == 0 {
        assert(lead + rest =~= rest);
    } else {
        assert((lead + rest).first() == lead[0]);
        assert((lead + rest).drop_first() =~= lead.drop_first() + rest);
        lemma_trimmed_start(lead.drop_first(), rest);
    }
}

/// White space at the end does not matter to what is left.
proof fn lemma_trimmed_end(rest: Seq<char>, trail: Seq<char>)
    requires
        is_blank(trail),
    ensures
        trimmed_end(rest + trail) == trimmed_end(rest),
    decreases trail.len(),
{
    if trail.len() == 0 {
        assert(rest + trail =~= rest);
    } else {
        assert((rest + trail).last() == trail.last());
        assert((rest + trail).drop_last() =~= rest + trail.drop_last());
        lemma_trimmed_end(rest, trail.drop_last());
    }
}

/// Bytes that encode a text are heard as that text.
pub proof fn law_encoded_text_is_heard(said: Seq<char>)
    ensures
        decoded(encode_utf8(said)) == said,
{
    encode_utf8_valid_utf8(said);
    encode_utf8_decode_utf8(said);
}

} // verus!
