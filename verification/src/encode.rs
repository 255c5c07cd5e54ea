//! Percent-encoding of parameter names and values in the provider's canonical
//! alphabet.

use vstd::prelude::*;
use vstd::string::*;
use vstd::utf8::*;

verus! {

/// The upper-case hexadecimal digit of a value below sixteen.
pub open spec fn hex_digit(n: int) -> char {
    seq!['0', '1', '2', '3', '4', '5', '6', '7', '8', '9', 'A', 'B', 'C', 'D', 'E', 'F'][n]
}

/// `%` followed by the two upper-case hexadecimal digits of the byte.
pub open spec fn percent_triple(b: u8) -> Seq<char> {
    seq!['%', hex_digit(b as int / 16), hex_digit(b as int % 16)]
}

pub open spec fn is_alphanumeric(b: u8) -> bool {
    (0x30 <= b <= 0x39) || (0x41 <= b <= 0x5A) || (0x61 <= b <= 0x7A)
}

/// The bytes that the form encoder copies unchanged: letters, digits and
/// `*`, `-`, `.`, `_`.
pub open spec fn form_keeps(b: u8) -> bool {
    is_alphanumeric(b) || b == 0x2A || b == 0x2D || b == 0x2E || b == 0x5F
}

/// What the form encoder writes for one byte: the byte itself where it keeps
/// it, `+` for a space, and a percent triple for anything else.
pub open spec fn form_encoded_byte(b: u8) -> Seq<char> {
    if form_keeps(b) {
        seq![b as char]
    } else if b == 0x20 {
        seq!['+']
    } else {
        percent_triple(b)
    }
}

/// The `application/x-www-form-urlencoded` serialisation of a byte string.
pub open spec fn form_encoded(bytes: Seq<u8>) -> Seq<char>
    decreases bytes.len(),
{
    if bytes.len() == 0 {
        Seq::empty()
    } else {
        form_encoded_byte(bytes[0]) + form_encoded(bytes.skip(1))
    }
}

/// True when the text begins with `%7E`.
pub open spec fn starts_with_tilde_escape(f: Seq<char>) -> bool {
    f.len() >= 3 && f[0] == '%' && f[1] == '7' && f[2] == 'E'
}

/// `%20`, which stands for a space.
pub open spec fn space_escape() -> Seq<char> {
    seq!['%', '2', '0']
}

/// `%2A`, which stands for `*`.
pub open spec fn star_escape() -> Seq<char> {
    seq!['%', '2', 'A']
}

/// The text with every occurrence of one character replaced.
pub open spec fn replaced_char(s: Seq<char>, from: char, to: Seq<char>) -> Seq<char>
    decreases s.len(),
{
    if s.len() == 0 {
        Seq::empty()
    } else if s[0] == from {
        to + replaced_char(s.skip(1), from, to)
    } else {
        seq![s[0]] + replaced_char(s.skip(1), from, to)
    }
}

/// The text with every `%7E`, read from the left, replaced by `~`.
pub open spec fn restored_tilde(s: Seq<char>) -> Seq<char>
    decreases s.len(),
{
    if s.len() == 0 {
        Seq::empty()
    } else if starts_with_tilde_escape(s) {
        seq!['~'] + restored_tilde(s.skip(3))
    } else {
        seq![s[0]] + restored_tilde(s.skip(1))
    }
}

/// The first two corrections: every `+` becomes `%20`, then every `*`
/// becomes `%2A`.
pub open spec fn without_plus_and_star(f: Seq<char>) -> Seq<char> {
    replaced_char(replaced_char(f, '+', space_escape()), '*', star_escape())
}

/// The provider's three corrections applied to form-encoded text, one after
/// the other: every `+` becomes `%20`, then every `*` becomes `%2A`, then
/// every `%7E` becomes `~`.
pub open spec fn corrected(f: Seq<char>) -> Seq<char> {
    restored_tilde(without_plus_and_star(f))
}

/// The three corrections made in a single reading from left to right.
pub open spec fn corrected_in_one_pass(f: Seq<char>) -> Seq<char>
    decreases f.len(),
{
    if f.len() == 0 {
        Seq::empty()
    } else if f[0] == '+' {
        space_escape() + corrected_in_one_pass(f.skip(1))
    } else if f[0] == '*' {
        star_escape() + corrected_in_one_pass(f.skip(1))
    } else if starts_with_tilde_escape(f) {
        seq!['~'] + corrected_in_one_pass(f.skip(3))
    } else {
        seq![f[0]] + corrected_in_one_pass(f.skip(1))
    }
}

/// The bytes that the canonical encoding leaves as they are: letters, digits
/// and `-`, `.`, `_`, `~`.
pub open spec fn unreserved(b: u8) -> bool {
    is_alphanumeric(b) || b == 0x2D || b == 0x2E || b == 0x5F || b == 0x7E
}

/// The canonical encoding of one byte.
pub open spec fn percent_encoded_byte(b: u8) -> Seq<char> {
    if unreserved(b) {
        seq![b as char]
    } else {
        percent_triple(b)
    }
}

/// The canonical encoding of a byte string: unreserved bytes stand for
/// themselves, every other byte is a percent triple.
pub open spec fn percent_encoded(bytes: Seq<u8>) -> Seq<char>
    decreases bytes.len(),
{
    if bytes.len() == 0 {
        Seq::empty()
    } else {
        percent_encoded_byte(bytes[0]) + percent_encoded(bytes.skip(1))
    }
}

/// The canonical encoding of a text, taken over its UTF-8 bytes.
pub open spec fn url_encoded(text: Seq<char>) -> Seq<char> {
    percent_encoded(encode_utf8(text))
}

proof fn lemma_replaced_char_first(c: char, rest: Seq<char>, from: char, to: Seq<char>)
    ensures
        replaced_char(seq![c] + rest, from, to) == (if c == from {
            to
        } else {
            seq![c]
        }) + replaced_char(rest, from, to),
{
    assert((seq![c] + rest).skip(1) =~= rest);
}

proof fn lemma_without_plus_and_star_first(f: Seq<char>)
    ensures
        f.len() == 0 ==> without_plus_and_star(f) == Seq::<char>::empty(),
        f.len() > 0 && f[0] == '+' ==> without_plus_and_star(f) == space_escape()
            + without_plus_and_star(f.skip(1)),
        f.len() > 0 && f[0] == '*' ==> without_plus_and_star(f) == star_escape()
            + without_plus_and_star(f.skip(1)),
        f.len() > 0 && f[0] != '+' && f[0] != '*' ==> without_plus_and_star(f) == seq![f[0]]
            + without_plus_and_star(f.skip(1)),
{
    if f.len() > 0 {
        let inner = replaced_char(f.skip(1), '+', space_escape());
        let outer = replaced_char(inner, '*', star_escape());
        if f[0] == '+' {
            lemma_replaced_char_first('0', inner, '*', star_escape());
            lemma_replaced_char_first('2', seq!['0'] + inner, '*', star_escape());
            lemma_replaced_char_first('%', seq!['2'] + (seq!['0'] + inner), '*', star_escape());
            assert(space_escape() + inner =~= seq!['%'] + (seq!['2'] + (seq!['0'] + inner)));
            assert(space_escape() + outer =~= seq!['%'] + (seq!['2'] + (seq!['0'] + outer)));
        } else {
            lemma_replaced_char_first(f[0], inner, '*', star_escape());
        }
    }
}

proof fn lemma_restored_tilde_first(c: char, rest: Seq<char>)
    requires
        !(c == '%' && rest.len() >= 2 && rest[0] == '7' && rest[1] == 'E'),
    ensures
        restored_tilde(seq![c] + rest) == seq![c] + restored_tilde(rest),
{
    let s = seq![c] + rest;
    assert(s.skip(1) =~= rest);
    if s.len() >= 3 {
        assert(s[1] == rest[0] && s[2] == rest[1]);
    }
}

proof fn lemma_restored_tilde_after_escape(a: char, rest: Seq<char>)
    requires
        a == '0' || a == 'A',
    ensures
        restored_tilde(seq!['%', '2', a] + rest) == seq!['%', '2', a] + restored_tilde(rest),
{
    lemma_restored_tilde_first(a, rest);
    lemma_restored_tilde_first('2', seq![a] + rest);
    lemma_restored_tilde_first('%', seq!['2'] + (seq![a] + rest));
    assert(seq!['%', '2', a] + rest =~= seq!['%'] + (seq!['2'] + (seq![a] + rest)));
    assert(seq!['%', '2', a] + restored_tilde(rest) =~= seq!['%'] + (seq!['2'] + (seq![a]
        + restored_tilde(rest))));
}

proof fn lemma_without_plus_and_star_head(f: Seq<char>)
    requires
        without_plus_and_star(f).len() >= 2,
        without_plus_and_star(f)[0] == '7',
        without_plus_and_star(f)[1] == 'E',
    ensures
        f.len() >= 2,
        f[0] == '7',
        f[1] == 'E',
{
    lemma_without_plus_and_star_first(f);
    lemma_without_plus_and_star_first(f.skip(1));
    if f.len() > 0 && f[0] != '+' && f[0] != '*' {
        let tail = without_plus_and_star(f.skip(1));
        assert(without_plus_and_star(f)[1] == tail[0]);
        assert(f.skip(1)[0] == f[1]);
    }
}

/// Making the three corrections one after the other gives the same text as
/// making them in a single reading: neither `%20` nor `%2A` can complete a
/// `%7E`.
pub proof fn lemma_one_pass_is_corrected(f: Seq<char>)
    ensures
        corrected_in_one_pass(f) == corrected(f),
    decreases f.len(),
{
    lemma_without_plus_and_star_first(f);
    if f.len() == 0 {
    } else if f[0] == '+' {
        lemma_one_pass_is_corrected(f.skip(1));
        lemma_restored_tilde_after_escape('0', without_plus_and_star(f.skip(1)));
    } else if f[0] == '*' {
        lemma_one_pass_is_corrected(f.skip(1));
        lemma_restored_tilde_after_escape('A', without_plus_and_star(f.skip(1)));
    } else if starts_with_tilde_escape(f) {
        lemma_one_pass_is_corrected(f.skip(3));
        lemma_without_plus_and_star_first(f.skip(1));
        lemma_without_plus_and_star_first(f.skip(2));
        assert(f.skip(1)[0] == '7' && f.skip(2)[0] == 'E');
        assert(f.skip(1).skip(1) =~= f.skip(2));
        assert(f.skip(2).skip(1) =~= f.skip(3));
        let w = without_plus_and_star(f);
        let rest = without_plus_and_star(f.skip(3));
        assert(w =~= seq!['%', '7', 'E'] + rest);
        assert(w.skip(3) =~= rest);
    } else {
        lemma_one_pass_is_corrected(f.skip(1));
        let rest = without_plus_and_star(f.skip(1));
        if f[0] == '%' && rest.len() >= 2 && rest[0] == '7' && rest[1] == 'E' {
            lemma_without_plus_and_star_head(f.skip(1));
            assert(f[1] == f.skip(1)[0] && f[2] == f.skip(1)[1]);
        }
        lemma_restored_tilde_first(f[0], rest);
    }
}

proof fn lemma_one_pass_after_byte(b: u8, rest: Seq<char>)
    ensures
        corrected_in_one_pass(form_encoded_byte(b) + rest) == percent_encoded_byte(b)
            + corrected_in_one_pass(rest),
{
    let s = form_encoded_byte(b) + rest;
    let h = hex_digit(b as int / 16);
    let l = hex_digit(b as int % 16);
    if form_keeps(b) || b == 0x20 {
        assert(s.skip(1) =~= rest);
        assert(s[0] == form_encoded_byte(b)[0]);
    } else if b == 0x7E {
        assert(s.skip(3) =~= rest);
        assert(s[0] == '%' && s[1] == '7' && s[2] == 'E');
    } else {
        assert(s[0] == '%' && s[1] == h && s[2] == l);
        assert(!(h == '7' && l == 'E'));
        let s1 = s.skip(1);
        let s2 = s1.skip(1);
        assert(s1[0] == h);
        assert(s2[0] == l);
        assert(s2.skip(1) =~= rest);
        assert(corrected_in_one_pass(s) == seq!['%'] + corrected_in_one_pass(s1));
        assert(corrected_in_one_pass(s1) == seq![h] + corrected_in_one_pass(s2));
        assert(corrected_in_one_pass(s2) == seq![l] + corrected_in_one_pass(rest));
        assert(seq!['%'] + (seq![h] + (seq![l] + corrected_in_one_pass(rest))) =~= percent_triple(
            b,
        ) + corrected_in_one_pass(rest));
    }
}

proof fn lemma_one_pass_form_encoding(bytes: Seq<u8>)
    ensures
        corrected_in_one_pass(form_encoded(bytes)) == percent_encoded(bytes),
    decreases bytes.len(),
{
    if bytes.len() > 0 {
        lemma_one_pass_form_encoding(bytes.skip(1));
        lemma_one_pass_after_byte(bytes[0], form_encoded(bytes.skip(1)));
    }
}

/// Correcting the form encoding of a byte string gives its canonical
/// encoding.
pub proof fn lemma_corrected_form_encoding(bytes: Seq<u8>)
    ensures
        corrected(form_encoded(bytes)) == percent_encoded(bytes),
{
    lemma_one_pass_form_encoding(bytes);
    lemma_one_pass_is_corrected(form_encoded(bytes));
}

/// A space is written `%20`, `*` is written `%2A`, and `~` stands for itself.
pub proof fn lemma_space_star_tilde()
    ensures
        percent_encoded_byte(0x20) == space_escape(),
        percent_encoded_byte(0x2A) == star_escape(),
        percent_encoded_byte(0x7E) == seq!['~'],
{
    assert(percent_encoded_byte(0x20) =~= space_escape());
    assert(percent_encoded_byte(0x2A) =~= star_escape());
    assert(percent_encoded_byte(0x7E) =~= seq!['~']);
}

/// Form-encoded text holds ASCII characters only.
pub proof fn lemma_form_encoded_is_ascii(bytes: Seq<u8>)
    ensures
        is_ascii_chars(form_encoded(bytes)),
    decreases bytes.len(),
{
    if bytes.len() > 0 {
        lemma_form_encoded_is_ascii(bytes.skip(1));
        let head = form_encoded_byte(bytes[0]);
        let tail = form_encoded(bytes.skip(1));
        assert(is_ascii_chars(head));
        assert forall|i: int| 0 <= i < (head + tail).len() implies '\0' <= #[trigger] (head
            + tail)[i] <= '\u{7f}' by {
            if i < head.len() {
                assert((head + tail)[i] == head[i]);
            } else {
                assert((head + tail)[i] == tail[i - head.len()]);
            }
        }
    }
}

/// Canonically encoded text holds ASCII characters only.
pub proof fn lemma_percent_encoded_is_ascii(bytes: Seq<u8>)
    ensures
        is_ascii_chars(percent_encoded(bytes)),
    decreases bytes.len(),
{
    if bytes.len() > 0 {
        lemma_percent_encoded_is_ascii(bytes.skip(1));
        let head = percent_encoded_byte(bytes[0]);
        let tail = percent_encoded(bytes.skip(1));
        assert(is_ascii_chars(head));
        assert forall|i: int| 0 <= i < (head + tail).len() implies '\0' <= #[trigger] (head
            + tail)[i] <= '\u{7f}' by {
            if i < head.len() {
                assert((head + tail)[i] == head[i]);
            } else {
                assert((head + tail)[i] == tail[i - head.len()]);
            }
        }
    }
}

/// Calls `url::form_urlencoded::byte_serialize` on the text's bytes and
/// collects the pieces. The crate copies letters, digits, `*`, `-`, `.` and
/// `_`, writes `+` for a space and `%` with two upper-case hexadecimal digits
/// for every other byte.
#[verifier::external_body]
fn form_urlencode(s: &str) -> (r: String)
    ensures
        r@ == form_encoded(s.spec_bytes()),
{
    url::form_urlencoded::byte_serialize(s.as_bytes()).collect()
}

/// Applies the three corrections to ASCII text.
fn apply_corrections(f: &str) -> (r: String)
    requires
        is_ascii(f),
    ensures
        r@ == corrected(f@),
{
    broadcast use is_ascii_spec_bytes;

    let fb = f.as_bytes();
    let n: usize = fb.len();
    let mut out = String::new();
    let mut i: usize = 0;
    assert(f@.skip(0) =~= f@);
    while i < n
        invariant
            i <= n,
            n == f@.len(),
            is_ascii(f),
            fb@ == f.spec_bytes(),
            out@ + corrected_in_one_pass(f@.skip(i as int)) =~= corrected_in_one_pass(f@),
        decreases n - i,
    {
        let c = fb[i];
        let ghost tail = f@.skip(i as int);
        assert(tail[0] == f@[i as int]);
        assert(c == f@[i as int] as u8);
        assert(tail.skip(1) =~= f@.skip(i + 1));
        if c == 0x2B {
            proof {
                reveal_strlit("%20");
                assert("%20"@ =~= space_escape());
            }
            out.append("%20");
            i += 1;
        } else if c == 0x2A {
            proof {
                reveal_strlit("%2A");
                assert("%2A"@ =~= star_escape());
            }
            out.append("%2A");
            i += 1;
        } else if c == 0x25 && n - i >= 3 && fb[i + 1] == 0x37 && fb[i + 2] == 0x45 {
            proof {
                reveal_strlit("~");
                assert("~"@ =~= seq!['~']);
                assert(tail[1] == f@[i + 1]);
                assert(tail[2] == f@[i + 2]);
                assert(starts_with_tilde_escape(tail));
                assert(tail.skip(3) =~= f@.skip(i + 3));
            }
            out.append("~");
            i += 3;
        } else {
            proof {
                if tail.len() >= 3 {
                    assert(tail[1] == f@[i + 1]);
                    assert(tail[2] == f@[i + 2]);
                }
                assert(!starts_with_tilde_escape(tail));
                assert(f@.subrange(i as int, i + 1) =~= seq![f@[i as int]]);
            }
            out.append(f.substring_ascii(i, i + 1));
            i += 1;
        }
    }
    proof {
        assert(f@.skip(n as int) =~= Seq::<char>::empty());
        lemma_one_pass_is_corrected(f@);
    }
    out
}

/// Encodes a text in the provider's canonical alphabet: the form encoding of
/// its bytes, with a space written as `%20`, `*` as `%2A` and `~` left as it
/// is.
pub fn url_encode(s: &str) -> (r: String)
    ensures
        r@ == url_encoded(s@),
        is_ascii_chars(r@),
{
    let f = form_urlencode(s);
    proof {
        lemma_form_encoded_is_ascii(s.spec_bytes());
        lemma_corrected_form_encoding(s.spec_bytes());
        lemma_percent_encoded_is_ascii(s.spec_bytes());
    }
    apply_corrections(f.as_str())
}

} // verus!
