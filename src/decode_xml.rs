//! Decoding of XML character and entity references in text.
use vstd::prelude::*;
use crate::text::{char_from_u32, chars_of, is_scalar, push_char};

verus! {

pub open spec fn is_dec_digit(c: char) -> bool {
    '0' <= c <= '9'
}

pub open spec fn is_hex_digit(c: char) -> bool {
    ('0' <= c <= '9') || ('a' <= c <= 'f') || ('A' <= c <= 'F')
}

pub open spec fn hex_digit_value(c: char) -> int {
    if '0' <= c <= '9' {
        c as int - '0' as int
    } else if 'a' <= c <= 'f' {
        c as int - 'a' as int + 10
    } else {
        c as int - 'A' as int + 10
    }
}

/// Length of the run of digits (hexadecimal when `hex`) starting at `i`.
pub open spec fn digit_run(s: Seq<char>, i: int, hex: bool) -> nat
    decreases s.len() - i,
{
    if i < 0 || i >= s.len() {
        0
    } else if (if hex { is_hex_digit(s[i]) } else { is_dec_digit(s[i]) }) {
        1 + digit_run(s, i + 1, hex)
    } else {
        0
    }
}

/// The number written by the digits `d` in base 16 or 10.
pub open spec fn digits_value(d: Seq<char>, hex: bool) -> int
    decreases d.len(),
{
    if d.len() == 0 {
        0
    } else {
        digits_value(d.drop_last(), hex) * (if hex { 16int } else { 10int }) + hex_digit_value(
            d.last(),
        )
    }
}

/// A numeric reference `&#NNN;` or `&#xHHH;` at `i`: the character and the token's length.
pub open spec fn numeric_ref_at(s: Seq<char>, i: int) -> Option<(char, nat)> {
    if 0 <= i && i + 2 < s.len() && s[i] == '&' && s[i + 1] == '#' {
        let hex = s[i + 2] == 'x' || s[i + 2] == 'X';
        let start = if hex { i + 3 } else { i + 2 };
        let k = digit_run(s, start, hex);
        let v = digits_value(s.subrange(start, start + k), hex);
        if k > 0 && start + k < s.len() && s[start + k] == ';' && is_scalar(v) {
            Some((v as char, (start + k + 1 - i) as nat))
        } else {
            None
        }
    } else {
        None
    }
}

/// Whether `&name;` is spelled at `i`.
pub open spec fn name_follows(s: Seq<char>, i: int, name: Seq<char>) -> bool {
    0 <= i && i + name.len() + 1 < s.len() && s[i] == '&' && s.subrange(i + 1, i + 1 + name.len())
        == name && s[i + name.len() + 1] == ';'
}

/// A named reference at `i`, one of the five entities of XML: the character and the token's length.
pub open spec fn named_ref_at(s: Seq<char>, i: int) -> Option<(char, nat)> {
    if name_follows(s, i, seq!['a', 'm', 'p']) {
        Some(('&', 5))
    } else if name_follows(s, i, seq!['l', 't']) {
        Some(('<', 4))
    } else if name_follows(s, i, seq!['g', 't']) {
        Some(('>', 4))
    } else if name_follows(s, i, seq!['q', 'u', 'o', 't']) {
        Some(('"', 6))
    } else if name_follows(s, i, seq!['a', 'p', 'o', 's']) {
        Some(('\'', 6))
    } else {
        None
    }
}

/// The reference token recognised at `i`, if any.
pub open spec fn ref_at(s: Seq<char>, i: int) -> Option<(char, nat)> {
    if numeric_ref_at(s, i).is_some() {
        numeric_ref_at(s, i)
    } else {
        named_ref_at(s, i)
    }
}

/// The text from position `i` on with every recognised reference replaced once.
pub open spec fn decoded_from(s: Seq<char>, i: int) -> Seq<char>
    decreases s.len() - i,
{
    if i < 0 || i >= s.len() {
        Seq::empty()
    } else if ref_at(s, i) is Some && ref_at(s, i).unwrap().1 > 0 {
        seq![ref_at(s, i).unwrap().0] + decoded_from(s, i + ref_at(s, i).unwrap().1)
    } else {
        seq![s[i]] + decoded_from(s, i + 1)
    }
}

pub open spec fn decoded(s: Seq<char>) -> Seq<char> {
    decoded_from(s, 0)
}

proof fn lemma_value_step(d: Seq<char>, c: char, hex: bool)
    ensures
        digits_value(d.push(c), hex) == digits_value(d, hex) * (if hex { 16int } else { 10int })
            + hex_digit_value(c),
{
    assert(d.push(c).drop_last() =~= d);
}

proof fn lemma_value_nonneg(d: Seq<char>, hex: bool)
    requires
        forall|j: int| 0 <= j < d.len() ==> is_hex_digit(#[trigger] d[j]),
    ensures
        digits_value(d, hex) >= 0,
    decreases d.len(),
{
    if d.len() > 0 {
        assert forall|j: int| 0 <= j < d.drop_last().len() implies is_hex_digit(
            #[trigger] d.drop_last()[j],
        ) by {
            assert(d.drop_last()[j] == d[j]);
        }
        lemma_value_nonneg(d.drop_last(), hex);
        assert(is_hex_digit(d[d.len() - 1]));
    }
}

proof fn lemma_run_bounds(s: Seq<char>, i: int, hex: bool)
    requires
        0 <= i,
    ensures
        i + digit_run(s, i, hex) <= s.len() || digit_run(s, i, hex) == 0,
        forall|j: int|
            i <= j < i + digit_run(s, i, hex) ==> (if hex {
                is_hex_digit(#[trigger] s[j])
            } else {
                is_dec_digit(s[j])
            }),
        i + digit_run(s, i, hex) < s.len() ==> !(if hex {
            is_hex_digit(s[i + digit_run(s, i, hex)])
        } else {
            is_dec_digit(s[i + digit_run(s, i, hex)])
        }),
    decreases s.len() - i,
{
    if i < s.len() && (if hex { is_hex_digit(s[i]) } else { is_dec_digit(s[i]) }) {
        lemma_run_bounds(s, i + 1, hex);
    }
}

/// Scans a numeric reference at `i`.
fn scan_numeric(s: &Vec<char>, i: usize) -> (r: Option<(char, usize)>)
    requires
        i < s@.len(),
    ensures
        r matches Some(p) ==> numeric_ref_at(s@, i as int) == Some((p.0, p.1 as nat)),
        r is None ==> numeric_ref_at(s@, i as int) is None,
{
    let n = s.len();
    if !(n - i > 2 && s[i] == '&' && s[i + 1] == '#') {
        return None;
    }
    let hex = s[i + 2] == 'x' || s[i + 2] == 'X';
    let start: usize = if hex { i + 3 } else { i + 2 };
    let ghost base: int = if hex { 16 } else { 10 };
    let mut j: usize = start;
    let mut v: u32 = 0;
    let mut big = false;
    proof {
        lemma_run_bounds(s@, start as int, hex);
    }
    let ghost k = digit_run(s@, start as int, hex);
    while j < n && is_digit_char(s[j], hex)
        invariant
            n == s@.len(),
            start <= j <= n,
            start + k <= n || k == 0,
            j <= start + k,
            base == (if hex { 16int } else { 10int }),
            forall|m: int|
                start <= m < start + k ==> (if hex {
                    is_hex_digit(#[trigger] s@[m])
                } else {
                    is_dec_digit(s@[m])
                }),
            start + k < n ==> !(if hex {
                is_hex_digit(s@[start + k])
            } else {
                is_dec_digit(s@[start + k])
            }),
            big ==> digits_value(s@.subrange(start as int, j as int), hex) > 0x10FFFF,
            !big ==> v as int == digits_value(s@.subrange(start as int, j as int), hex),
            v <= 0x10FFFF,
        decreases n - j,
    {
        proof {
            if j >= start + k {
                // the loop condition holds, so the run is longer than k
                assert(false);
            }
        }
        let c = s[j];
        let d: u32 = if '0' <= c && c <= '9' {
            (c as u32) - ('0' as u32)
        } else if 'a' <= c && c <= 'f' {
            (c as u32) - ('a' as u32) + 10
        } else {
            (c as u32) - ('A' as u32) + 10
        };
        proof {
            let old_sub = s@.subrange(start as int, j as int);
            assert(s@.subrange(start as int, j + 1) =~= old_sub.push(c));
            lemma_value_step(old_sub, c, hex);
            assert(forall|m: int| 0 <= m < old_sub.len() ==> is_hex_digit(#[trigger] old_sub[m])
                ) by {
                assert forall|m: int| 0 <= m < old_sub.len() implies is_hex_digit(
                    #[trigger] old_sub[m],
                ) by {
                    assert(old_sub[m] == s@[start + m]);
                }
            }
            lemma_value_nonneg(old_sub, hex);
        }
        if !big {
            let nv: u64 = (v as u64) * (if hex { 16u64 } else { 10u64 }) + (d as u64);
            if nv > 0x10FFFF {
                big = true;
            } else {
                v = nv as u32;
            }
        }
        j += 1;
    }
    proof {
        if j < start + k {
            assert(if hex { is_hex_digit(s@[j as int]) } else { is_dec_digit(s@[j as int]) });
        }
        assert(j == start + k);
    }
    if j > start && j < n && s[j] == ';' && !big {
        match char_from_u32(v) {
            Some(c) => {
                assert(s@.subrange(start as int, j as int) == s@.subrange(start as int, start + k));
                assert(c == (v as int) as char);
                Some((c, j + 1 - i))
            },
            None => None,
        }
    } else {
        None
    }
}

fn is_digit_char(c: char, hex: bool) -> (r: bool)
    ensures
        r == (if hex { is_hex_digit(c) } else { is_dec_digit(c) }),
{
    if hex {
        ('0' <= c && c <= '9') || ('a' <= c && c <= 'f') || ('A' <= c && c <= 'F')
    } else {
        '0' <= c && c <= '9'
    }
}

/// Whether `&name;` is spelled at `i`.
fn name_at(s: &Vec<char>, i: usize, name: &[char]) -> (r: bool)
    requires
        i < s@.len(),
    ensures
        r == name_follows(s@, i as int, name@),
{
    let n = s.len();
    if s[i] != '&' || !(name.len() < n - i - 1) {
        return false;
    }
    let mut j: usize = 0;
    while j < name.len()
        invariant
            i + name@.len() + 1 < n,
            n == s@.len(),
            j <= name@.len(),
            forall|m: int| 0 <= m < j ==> s@[i + 1 + m] == name@[m],
        decreases name@.len() - j,
    {
        if s[i + 1 + j] != name[j] {
            assert(s@.subrange(i + 1, i + 1 + name@.len())[j as int] != name@[j as int]);
            return false;
        }
        j += 1;
    }
    assert(s@.subrange(i + 1, i + 1 + name@.len()) =~= name@);
    s[i + name.len() + 1] == ';'
}

/// Scans a named reference at `i`.
fn scan_named(s: &Vec<char>, i: usize) -> (r: Option<(char, usize)>)
    requires
        i < s@.len(),
    ensures
        r matches Some(p) ==> named_ref_at(s@, i as int) == Some((p.0, p.1 as nat)),
        r is None ==> named_ref_at(s@, i as int) is None,
{
    let amp = ['a', 'm', 'p'];
    let lt = ['l', 't'];
    let gt = ['g', 't'];
    let quot = ['q', 'u', 'o', 't'];
    let apos = ['a', 'p', 'o', 's'];
    assert(amp@ == seq!['a', 'm', 'p']);
    assert(lt@ == seq!['l', 't']);
    assert(gt@ == seq!['g', 't']);
    assert(quot@ == seq!['q', 'u', 'o', 't']);
    assert(apos@ == seq!['a', 'p', 'o', 's']);
    if name_at(s, i, &amp) {
        Some(('&', 5))
    } else if name_at(s, i, &lt) {
        Some(('<', 4))
    } else if name_at(s, i, &gt) {
        Some(('>', 4))
    } else if name_at(s, i, &quot) {
        Some(('"', 6))
    } else if name_at(s, i, &apos) {
        Some(('\'', 6))
    } else {
        None
    }
}

/// Replaces each character or entity reference of `s` by the character it stands for,
/// once: the replacement is not scanned again.
pub fn decode_xml(s: &str) -> (r: String)
    ensures
        r@ == decoded(s@),
{
    let v = chars_of(s);
    let n = v.len();
    let mut out = String::new();
    let mut i: usize = 0;
    while i < n
        invariant
            n == v@.len(),
            v@ == s@,
            i <= n,
            out@ + decoded_from(v@, i as int) == decoded(v@),
        decreases n - i,
    {
        let tok = match scan_numeric(&v, i) {
            Some(p) => Some(p),
            None => scan_named(&v, i),
        };
        match tok {
            Some((c, len)) => {
                assert(out@.push(c) + decoded_from(v@, i + len) =~= out@ + decoded_from(v@, i as int));
                push_char(&mut out, c);
                i = i + len;
            },
            None => {
                let c = v[i];
                assert(out@.push(c) + decoded_from(v@, i + 1) =~= out@ + decoded_from(v@, i as int));
                push_char(&mut out, c);
                i = i + 1;
            },
        }
    }
    assert(out@ =~= decoded(v@));
    out
}

} // verus!
