//! Parsing the pattern edit field: a comma-separated list of decimal
//! interval values. Each comma-separated part is trimmed of surrounding
//! whitespace and read as an unsigned decimal number (one leading `+` is
//! allowed); parts that do not parse — empty, malformed, or too large —
//! are skipped rather than rejected.

use vstd::prelude::*;

verus! {

/// Whether the character counts as whitespace for trimming: the Unicode
/// `White_Space` set.
pub open spec fn is_space(c: char) -> bool {
    let u = c as u32;
    ||| (0x9 <= u && u <= 0xD)
    ||| u == 0x20
    ||| u == 0x85
    ||| u == 0xA0
    ||| u == 0x1680
    ||| (0x2000 <= u && u <= 0x200A)
    ||| u == 0x2028
    ||| u == 0x2029
    ||| u == 0x202F
    ||| u == 0x205F
    ||| u == 0x3000
}

/// Whether the character is a decimal digit.
pub open spec fn is_digit(c: char) -> bool {
    0x30 <= c as u32 && c as u32 <= 0x39
}

/// The value of a decimal digit character.
pub open spec fn digit_val(c: char) -> int {
    c as u32 - 0x30
}

/// Every character of the sequence is a decimal digit.
pub open spec fn all_digits(s: Seq<char>) -> bool {
    forall|i: int| 0 <= i < s.len() ==> is_digit(s[i])
}

/// The number a digit sequence denotes, most significant digit first.
pub open spec fn digits_val(s: Seq<char>) -> int
    decreases s.len(),
{
    if s.len() == 0 {
        0
    } else {
        digits_val(s.drop_last()) * 10 + digit_val(s.last())
    }
}

/// The sequence with leading whitespace removed.
pub open spec fn trim_start_spec(s: Seq<char>) -> Seq<char>
    decreases s.len(),
{
    if s.len() > 0 && is_space(s[0]) {
        trim_start_spec(s.drop_first())
    } else {
        s
    }
}

/// The sequence with trailing whitespace removed.
pub open spec fn trim_end_spec(s: Seq<char>) -> Seq<char>
    decreases s.len(),
{
    if s.len() > 0 && is_space(s.last()) {
        trim_end_spec(s.drop_last())
    } else {
        s
    }
}

/// The sequence with surrounding whitespace removed.
pub open spec fn trim_spec(s: Seq<char>) -> Seq<char> {
    trim_end_spec(trim_start_spec(s))
}

/// The part with one leading `+`, if any, removed.
pub open spec fn strip_plus(s: Seq<char>) -> Seq<char> {
    if s.len() > 0 && s[0] == '+' {
        s.drop_first()
    } else {
        s
    }
}

/// How a bare digit body reads: at least one decimal digit, and a value
/// that fits in a `u64`; anything else is no value.
pub open spec fn parse_digits(body: Seq<char>) -> Option<u64> {
    if body.len() > 0 && all_digits(body) && digits_val(body) <= u64::MAX {
        Some(digits_val(body) as u64)
    } else {
        None
    }
}

/// How one already-trimmed part reads as a number: one optional leading
/// `+`, then at least one decimal digit, and a value that fits in a `u64`;
/// anything else is no value.
pub open spec fn parse_u64_spec(s: Seq<char>) -> Option<u64> {
    parse_digits(strip_plus(s))
}

/// A parsed value contributes one element; a failed part contributes none.
pub open spec fn opt_to_seq(o: Option<u64>) -> Seq<u64> {
    match o {
        Some(v) => seq![v],
        None => Seq::empty(),
    }
}

/// Splits on commas, accumulating the current part, trimming and parsing
/// each completed part, and keeping the values that parse.
pub open spec fn parse_pattern_rec(rest: Seq<char>, part: Seq<char>) -> Seq<u64>
    decreases rest.len(),
{
    if rest.len() == 0 {
        opt_to_seq(parse_u64_spec(trim_spec(part)))
    } else if rest[0] == ',' {
        opt_to_seq(parse_u64_spec(trim_spec(part))) + parse_pattern_rec(
            rest.drop_first(),
            Seq::empty(),
        )
    } else {
        parse_pattern_rec(rest.drop_first(), part.push(rest[0]))
    }
}

/// What the pattern edit field parses to: the values of the parseable
/// comma-separated parts, in order.
pub open spec fn parse_pattern_spec(s: Seq<char>) -> Seq<u64> {
    parse_pattern_rec(s, Seq::empty())
}

/// A digit sequence denotes a non-negative number.
proof fn lemma_digits_val_nonneg(s: Seq<char>)
    requires
        all_digits(s),
    ensures
        digits_val(s) >= 0,
    decreases s.len(),
{
    if s.len() > 0 {
        assert(all_digits(s.drop_last()));
        lemma_digits_val_nonneg(s.drop_last());
    }
}

/// Extending a digit sequence never shrinks its value.
proof fn lemma_digits_val_prefix(s: Seq<char>, i: int)
    requires
        all_digits(s),
        0 <= i <= s.len(),
    ensures
        digits_val(s.take(i)) <= digits_val(s),
    decreases s.len(),
{
    if i == s.len() {
        assert(s.take(i) =~= s);
    } else {
        let shorter = s.drop_last();
        assert(all_digits(shorter));
        assert(shorter.take(i) =~= s.take(i));
        lemma_digits_val_prefix(shorter, i);
        lemma_digits_val_nonneg(shorter);
    }
}

/// Dropping exactly the leading whitespace is what `trim_start_spec` does.
proof fn lemma_trim_start_skip(s: Seq<char>, k: int)
    requires
        0 <= k <= s.len(),
        forall|i: int| 0 <= i < k ==> is_space(s[i]),
        k < s.len() ==> !is_space(s[k]),
    ensures
        trim_start_spec(s) == s.skip(k),
    decreases k,
{
    if k == 0 {
        assert(s.skip(0) =~= s);
    } else {
        assert(is_space(s[0]));
        let rest = s.drop_first();
        assert(forall|i: int| 0 <= i < k - 1 ==> is_space(rest[i]));
        lemma_trim_start_skip(rest, k - 1);
        assert(rest.skip(k - 1) =~= s.skip(k));
    }
}

/// Dropping exactly the trailing whitespace is what `trim_end_spec` does.
proof fn lemma_trim_end_take(s: Seq<char>, k: int)
    requires
        0 <= k <= s.len(),
        forall|i: int| k <= i < s.len() ==> is_space(s[i]),
        k > 0 ==> !is_space(s[k - 1]),
    ensures
        trim_end_spec(s) == s.take(k),
    decreases s.len(),
{
    if k == s.len() {
        assert(s.take(k) =~= s);
    } else {
        assert(is_space(s.last()));
        let shorter = s.drop_last();
        lemma_trim_end_take(shorter, k);
        assert(shorter.take(k) =~= s.take(k));
    }
}

/// Whether the character counts as whitespace for trimming.
fn is_space_char(c: char) -> (b: bool)
    ensures
        b == is_space(c),
{
    let u = c as u32;
    (0x9 <= u && u <= 0xD) || u == 0x20 || u == 0x85 || u == 0xA0 || u == 0x1680 || (0x2000 <= u
        && u <= 0x200A) || u == 0x2028 || u == 0x2029 || u == 0x202F || u == 0x205F || u == 0x3000
}

/// Trims one comma-separated part and reads it as a decimal number, if it
/// is one whose value fits in a `u64`.
fn parse_part(part: &Vec<char>) -> (r: Option<u64>)
    ensures
        r == parse_u64_spec(trim_spec(part@)),
{
    let n = part.len();
    let mut lo: usize = 0;
    while lo < n && is_space_char(part[lo])
        invariant
            lo <= n,
            n == part@.len(),
            forall|k: int| 0 <= k < lo ==> is_space(part@[k]),
        decreases n - lo,
    {
        lo += 1;
    }
    let mut hi: usize = n;
    while hi > lo && is_space_char(part[hi - 1])
        invariant
            lo <= hi <= n,
            n == part@.len(),
            forall|k: int| hi <= k < n ==> is_space(part@[k]),
        decreases hi,
    {
        hi -= 1;
    }
    proof {
        lemma_trim_start_skip(part@, lo as int);
        let skipped = part@.skip(lo as int);
        lemma_trim_end_take(skipped, hi - lo);
        assert(skipped.take(hi - lo) =~= part@.subrange(lo as int, hi as int));
    }
    let trimmed_len: usize = hi - lo;
    let ghost trimmed = part@.subrange(lo as int, hi as int);
    assert(trim_spec(part@) == trimmed);

    let mut start = lo;
    if trimmed_len > 0 && part[lo] == '+' {
        start = lo + 1;
    }
    let ghost body = part@.subrange(start as int, hi as int);
    proof {
        if trimmed.len() > 0 && trimmed[0] == '+' {
            assert(trimmed.drop_first() =~= body);
        } else {
            assert(trimmed =~= body);
        }
        assert(strip_plus(trimmed) == body);
    }

    if start == hi {
        return None;
    }
    let mut acc: u64 = 0;
    let mut j = start;
    while j < hi
        invariant
            start <= j <= hi <= n,
            start < hi,
            n == part@.len(),
            body == part@.subrange(start as int, hi as int),
            parse_u64_spec(trim_spec(part@)) == parse_digits(body),
            forall|k: int| start <= k < j ==> is_digit(part@[k]),
            acc == digits_val(body.take(j - start)),
        decreases hi - j,
    {
        let c = part[j];
        let u = c as u32;
        if u < 0x30 || u > 0x39 {
            assert(!is_digit(body[j - start]));
            assert(parse_digits(body) is None);
            return None;
        }
        let d = (u - 0x30) as u64;
        proof {
            let upto = body.take(j + 1 - start);
            assert(upto.drop_last() =~= body.take(j - start));
            assert(upto.last() == part@[j as int]);
            assert(digits_val(upto) == acc * 10 + d);
        }
        if acc > (u64::MAX - d) / 10 {
            proof {
                vstd::arithmetic::div_mod::lemma_fundamental_div_mod((u64::MAX - d) as int, 10);
                vstd::arithmetic::div_mod::lemma_mod_bound((u64::MAX - d) as int, 10);
                assert(acc * 10 + d > u64::MAX);
                if all_digits(body) {
                    lemma_digits_val_prefix(body, j + 1 - start);
                }
                assert(parse_digits(body) is None);
            }
            return None;
        }
        proof {
            vstd::arithmetic::div_mod::lemma_fundamental_div_mod((u64::MAX - d) as int, 10);
            vstd::arithmetic::div_mod::lemma_mod_bound((u64::MAX - d) as int, 10);
            assert(acc * 10 + d <= u64::MAX);
        }
        acc = acc * 10 + d;
        j += 1;
    }
    proof {
        assert(body.take(hi - start) =~= body);
        assert(forall|t: int| 0 <= t < body.len() ==> body[t] == part@[t + start]);
        assert(all_digits(body));
    }
    Some(acc)
}

/// Parses the pattern edit field: splits on commas, trims each part, and
/// keeps the values that read as decimal numbers.
pub fn parse_pattern(s: &str) -> (r: Vec<u64>)
    ensures
        r@ == parse_pattern_spec(s@),
{
    let n = s.unicode_len();
    let mut r: Vec<u64> = Vec::new();
    let mut part: Vec<char> = Vec::new();
    let mut i: usize = 0;
    proof {
        assert(s@.skip(0) =~= s@);
    }
    while i < n
        invariant
            i <= n,
            n == s@.len(),
            parse_pattern_spec(s@) == r@ + parse_pattern_rec(s@.skip(i as int), part@),
        decreases n - i,
    {
        let c = s.get_char(i);
        proof {
            assert(s@.skip(i as int).drop_first() =~= s@.skip(i + 1));
            assert(s@.skip(i as int)[0] == c);
        }
        if c == ',' {
            let ghost r_old = r@;
            match parse_part(&part) {
                Some(v) => {
                    r.push(v);
                    proof {
                        assert(r@ =~= r_old + opt_to_seq(parse_u64_spec(trim_spec(part@))));
                    }
                },
                None => {
                    proof {
                        assert(r@ =~= r_old + opt_to_seq(parse_u64_spec(trim_spec(part@))));
                    }
                },
            }
            part.clear();
        } else {
            part.push(c);
        }
        i += 1;
    }
    proof {
        assert(s@.skip(n as int).len() == 0);
    }
    let ghost r_old = r@;
    match parse_part(&part) {
        Some(v) => {
            r.push(v);
            proof {
                assert(r@ =~= r_old + opt_to_seq(parse_u64_spec(trim_spec(part@))));
            }
        },
        None => {
            proof {
                assert(r@ =~= r_old + opt_to_seq(parse_u64_spec(trim_spec(part@))));
            }
        },
    }
    r
}

/// The edit rule for the pattern field: the parsed values replace the
/// previous sequence only when at least one value was parsed.
pub fn merge_pattern_edit(previous: Vec<u64>, input: &str) -> (r: Vec<u64>)
    ensures
        parse_pattern_spec(input@).len() > 0 ==> r@ == parse_pattern_spec(input@),
        parse_pattern_spec(input@).len() == 0 ==> r@ == previous@,
{
    let parsed = parse_pattern(input);
    if parsed.len() > 0 {
        parsed
    } else {
        previous
    }
}

} // verus!
