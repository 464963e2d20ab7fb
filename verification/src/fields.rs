//! Typed text and numbers: what a number field accepts, reads and shows.

use vstd::prelude::*;

use crate::keys::chars_of;
use crate::pure::{apply, apply2, pure, pure2, reads, reads_texts, result, result2, spoken};

verus! {

/// `String::push` puts the character behind the others.
pub assume_specification[ String::push ](s: &mut String, c: char)
    ensures
        final(s)@ == old(s)@.push(c),
;

/// `String::pop` takes the last character off, if there is one.
pub assume_specification[ String::pop ](s: &mut String) -> (c: Option<char>)
    ensures
        old(s)@.len() == 0 ==> c is None && final(s)@ == old(s)@,
        old(s)@.len() > 0 ==> c == Some(old(s)@.last()) && final(s)@ == old(s)@.drop_last(),
;

/// Allowed range of a line thickness, in px.
pub const THICK_RANGE: (i64, i64) = (1, 200);

/// Allowed range of a text or marker size, in px.
pub const SIZE_RANGE: (i64, i64) = (4, 400);

/// Allowed range of a mosaic's block length, in px.
pub const BLOCK_RANGE: (i64, i64) = (4, 200);

/// Allowed range of the next marker's number.
pub const NUMBER_RANGE: (i64, i64) = (1, 9999);

/// The number kept within the range.
pub open spec fn kept_within(v: int, range: (i64, i64)) -> int {
    if v < range.0 {
        range.0 as int
    } else if v > range.1 {
        range.1 as int
    } else {
        v
    }
}

/// Whether the character is a decimal digit.
pub open spec fn is_digit(c: char) -> bool {
    '0' <= c && c <= '9'
}

/// Whether every character is a decimal digit.
pub open spec fn all_digits(s: Seq<char>) -> bool {
    forall|i: int| 0 <= i < s.len() ==> is_digit(#[trigger] s[i])
}

/// The number that digits spell.
pub open spec fn digits_value(s: Seq<char>) -> int
    decreases s.len(),
{
    if s.len() == 0 {
        0
    } else {
        digits_value(s.drop_last()) * 10 + (s.last() as int - '0' as int)
    }
}

/// Whether the character is white space, which is trimmed off.
pub open spec fn is_blank(c: char) -> bool {
    let u = c as int;
    ||| 0x9 <= u <= 0xD
    ||| u == 0x20
    ||| u == 0x85
    ||| u == 0xA0
    ||| u == 0x1680
    ||| 0x2000 <= u <= 0x200A
    ||| u == 0x2028
    ||| u == 0x2029
    ||| u == 0x202F
    ||| u == 0x205F
    ||| u == 0x3000
}

/// Whether the character is white space.
fn blank(c: char) -> (r: bool)
    ensures
        r == is_blank(c),
{
    let u: u32 = c as u32;
    (0x9 <= u && u <= 0xD) || u == 0x20 || u == 0x85 || u == 0xA0 || u == 0x1680 || (0x2000 <= u
        && u <= 0x200A) || u == 0x2028 || u == 0x2029 || u == 0x202F || u == 0x205F || u == 0x3000
}

/// The text without blanks at its ends.
pub open spec fn trimmed(s: Seq<char>) -> Seq<char>
    decreases s.len(),
{
    if s.len() > 0 && is_blank(s[0]) {
        trimmed(s.drop_first())
    } else if s.len() > 0 && is_blank(s.last()) {
        trimmed(s.drop_last())
    } else {
        s
    }
}

/// Whether a number field can hold a text: it starts as a whole number and
/// takes digits only, so there is no sign but at the front, no fraction and
/// no exponent.
pub open spec fn field_text(s: Seq<char>) -> bool {
    forall|i: int| 0 <= i < s.len() ==> is_digit(#[trigger] s[i]) || (i == 0 && s[i] == '-')
}

/// The whole number that a text spells: an optional sign and at least one
/// digit.
pub open spec fn spelled_number(s: Seq<char>) -> Option<int> {
    let signed = s.len() > 0 && (s[0] == '-' || s[0] == '+');
    let digits = if signed {
        s.drop_first()
    } else {
        s
    };
    if digits.len() == 0 || !all_digits(digits) {
        None
    } else if signed && s[0] == '-' {
        Some(-digits_value(digits))
    } else {
        Some(digits_value(digits))
    }
}

/// Whether every character is a decimal digit.
pub fn only_digits(s: &str) -> (r: bool)
    ensures
        r == all_digits(s@),
{
    let cs = chars_of(s);
    let mut i: usize = 0;
    while i < cs.len()
        invariant
            cs@ == s@,
            i <= cs@.len(),
            forall|k: int| 0 <= k < i ==> is_digit(#[trigger] cs@[k]),
        decreases cs.len() - i,
    {
        if cs[i] < '0' || cs[i] > '9' {
            assert(!is_digit(cs@[i as int]));
            return false;
        }
        i += 1;
    }
    true
}

/// Digits spell no negative number.
proof fn lemma_digits_positive(s: Seq<char>)
    requires
        all_digits(s),
    ensures
        0 <= digits_value(s),
    decreases s.len(),
{
    if s.len() > 0 {
        let t = s.drop_last();
        assert forall|i: int| 0 <= i < t.len() implies is_digit(#[trigger] t[i]) by {
            assert(is_digit(s[i]));
        }
        lemma_digits_positive(t);
        assert(is_digit(s[s.len() - 1]));
    }
}

/// Where reading stops: larger numbers are all beyond every range.
const PLENTY: i128 = 0x1_0000_0000_0000_0000;

/// The number that digits spell, or [`PLENTY`] for anything larger.
fn read_digits(cs: &Vec<char>, from: usize) -> (v: Option<i128>)
    requires
        from <= cs@.len(),
    ensures
        v is Some == all_digits(cs@.skip(from as int)),
        v matches Some(n) ==> 0 <= n && (if digits_value(cs@.skip(from as int)) <= PLENTY {
            n == digits_value(cs@.skip(from as int))
        } else {
            n == PLENTY
        }),
{
    let ghost all = cs@.skip(from as int);
    let mut n: i128 = 0;
    let mut i: usize = from;
    while i < cs.len()
        invariant
            from <= i <= cs@.len(),
            all == cs@.skip(from as int),
            forall|k: int| 0 <= k < i - from ==> is_digit(#[trigger] all[k]),
            0 <= n <= PLENTY,
            digits_value(all.take(i - from)) <= PLENTY ==> n == digits_value(all.take(i - from)),
            digits_value(all.take(i - from)) > PLENTY ==> n == PLENTY,
        decreases cs.len() - i,
    {
        let c = cs[i];
        assert(c == all[i - from]);
        if c < '0' || c > '9' {
            assert(!is_digit(all[i - from]));
            return None;
        }
        let d: i128 = c as i128 - 48;
        proof {
            let upto = all.take(i - from);
            let next = all.take(i - from + 1);
            assert(next.drop_last() =~= upto);
            assert(all_digits(upto)) by {
                assert forall|k: int| 0 <= k < upto.len() implies is_digit(#[trigger] upto[k]) by {
                    assert(is_digit(all[k]));
                }
            }
            lemma_digits_positive(upto);
            assert(digits_value(next) == digits_value(upto) * 10 + d);
        }
        let m: i128 = n * 10 + d;
        n = if m > PLENTY {
            PLENTY
        } else {
            m
        };
        i += 1;
    }
    assert(all.take(all.len() as int) =~= all);
    Some(n)
}

/// The text without blanks at its ends, as the range it spans.
fn trim_range(cs: &Vec<char>) -> (r: (usize, usize))
    ensures
        r.0 <= r.1 <= cs@.len(),
        cs@.subrange(r.0 as int, r.1 as int) == trimmed(cs@),
{
    let mut lo: usize = 0;
    let mut hi: usize = cs.len();
    assert(cs@.subrange(0, cs@.len() as int) =~= cs@);
    loop
        invariant
            lo <= hi <= cs@.len(),
            trimmed(cs@.subrange(lo as int, hi as int)) == trimmed(cs@),
        decreases hi - lo,
    {
        let ghost cur = cs@.subrange(lo as int, hi as int);
        if lo < hi && blank(cs[lo]) {
            assert(cur.drop_first() =~= cs@.subrange(lo + 1, hi as int));
            lo += 1;
        } else if lo < hi && blank(cs[hi - 1]) {
            assert(cur.drop_last() =~= cs@.subrange(lo as int, hi - 1));
            hi -= 1;
        } else {
            return (lo, hi);
        }
    }
}

/// The whole number a text spells, kept within the range. `None` if it spells
/// none.
pub fn typed_number(buf: &str, range: (i64, i64)) -> (v: Option<i64>)
    requires
        range.0 <= range.1,
    ensures
        v == match spelled_number(trimmed(buf@)) {
            Some(n) => Some(kept_within(n, range) as i64),
            None => None,
        },
{
    let cs = chars_of(buf);
    let (lo, hi) = trim_range(&cs);
    let mut body: Vec<char> = Vec::new();
    let mut i: usize = lo;
    while i < hi
        invariant
            lo <= i <= hi <= cs@.len(),
            body@ =~= cs@.subrange(lo as int, i as int),
        decreases hi - i,
    {
        body.push(cs[i]);
        i += 1;
    }
    assert(body@ == trimmed(buf@));
    let signed: bool = body.len() > 0 && (body[0] == '-' || body[0] == '+');
    let from: usize = if signed {
        1
    } else {
        0
    };
    if from == body.len() {
        assert(body@.drop_first().len() == 0 || !signed);
        return None;
    }
    proof {
        assert(body@.skip(0) =~= body@);
        assert(body@.skip(1) =~= body@.drop_first());
    }
    let n: i128 = match read_digits(&body, from) {
        Some(n) => n,
        None => {
            return None;
        },
    };
    let v: i128 = if signed && body[0] == '-' {
        -n
    } else {
        n
    };
    if v < range.0 as i128 {
        Some(range.0)
    } else if v > range.1 as i128 {
        Some(range.1)
    } else {
        Some(v as i64)
    }
}

/// The text without blanks at its ends.
fn trim_text(text: &str) -> (s: String)
    ensures
        s@ == trimmed(text@),
{
    let cs = chars_of(text);
    let (lo, hi) = trim_range(&cs);
    let mut s = String::new();
    let mut i: usize = lo;
    assert(s@ =~= cs@.subrange(lo as int, lo as int));
    while i < hi
        invariant
            lo <= i <= hi <= cs@.len(),
            s@ == cs@.subrange(lo as int, i as int),
        decreases hi - i,
    {
        s.push(cs[i]);
        assert(s@ =~= cs@.subrange(lo as int, i + 1));
        i += 1;
    }
    s
}

/// The operations on numbers that need not be whole: one made of a whole
/// number, one read from a text, and whether one is less than another.
pub struct Numbers<L, R, C> {
    pub lift: L,
    pub read: R,
    pub less: C,
}

/// Whether every operation is a function.
pub open spec fn computes_numbers<N, L, R, C>(nums: Numbers<L, R, C>) -> bool where
    L: Fn(i64) -> N,
    R: Fn(&str) -> Option<N>,
    C: Fn(N, N) -> bool,
 {
    &&& pure(nums.lift)
    &&& reads_texts(nums.read)
    &&& pure2(nums.less)
}

/// A number kept within the range. What is neither less nor more stays as it
/// is.
pub open spec fn held_within<N, L, R, C>(v: N, range: (i64, i64), nums: Numbers<L, R, C>) -> N where
    L: Fn(i64) -> N,
    R: Fn(&str) -> Option<N>,
    C: Fn(N, N) -> bool,
 {
    let least = result(nums.lift, range.0);
    let most = result(nums.lift, range.1);
    if result2(nums.less, v, least) {
        least
    } else if result2(nums.less, most, v) {
        most
    } else {
        v
    }
}

/// The number that a text spells, kept within the range: a whole number, or
/// whatever else can be read.
pub open spec fn dim_of<N, L, R, C>(
    text: Seq<char>,
    range: (i64, i64),
    nums: Numbers<L, R, C>,
) -> Option<N> where L: Fn(i64) -> N, R: Fn(&str) -> Option<N>, C: Fn(N, N) -> bool {
    match spelled_number(trimmed(text)) {
        Some(n) => Some(result(nums.lift, kept_within(n, range) as i64)),
        None => match spoken(nums.read, trimmed(text)) {
            Some(v) => Some(held_within(v, range, nums)),
            None => None,
        },
    }
}

/// The number that a text spells, kept within the range. `None` if it spells
/// none.
pub fn typed_dim<N: Copy, L, R, C>(buf: &str, range: (i64, i64), nums: &Numbers<L, R, C>) -> (v:
    Option<N>) where L: Fn(i64) -> N, R: Fn(&str) -> Option<N>, C: Fn(N, N) -> bool
    requires
        range.0 <= range.1,
        computes_numbers(*nums),
    ensures
        v == dim_of(buf@, range, *nums),
{
    if let Some(n) = typed_number(buf, range) {
        return Some(apply(&nums.lift, n));
    }
    let text = trim_text(buf);
    let read = (nums.read)(text.as_str());
    proof {
        assert(reads(nums.read, trimmed(buf@), read));
    }
    match read {
        None => None,
        Some(v) => {
            let least = apply(&nums.lift, range.0);
            let most = apply(&nums.lift, range.1);
            if apply2(&nums.less, v, least) {
                Some(least)
            } else if apply2(&nums.less, most, v) {
                Some(most)
            } else {
                Some(v)
            }
        },
    }
}

/// The number typed into a field, kept within the range, or `current` if the
/// text spells none.
pub fn parse_dim<N: Copy, L, R, C>(
    buf: &str,
    current: N,
    range: (i64, i64),
    nums: &Numbers<L, R, C>,
) -> (v: N) where L: Fn(i64) -> N, R: Fn(&str) -> Option<N>, C: Fn(N, N) -> bool
    requires
        range.0 <= range.1,
        computes_numbers(*nums),
    ensures
        v == match dim_of(buf@, range, *nums) {
            Some(n) => n,
            None => current,
        },
{
    match typed_dim(buf, range, nums) {
        Some(v) => v,
        None => current,
    }
}

/// What a number field needs of sizes: a size from a whole number, and what a
/// text spells that is no whole number, kept within a range, rounded and as a
/// size.
pub struct Typing<Z, O> {
    pub to_size: Z,
    pub other: O,
}

/// Whether a text can be read as `v`, kept within the range.
pub open spec fn reads_other<S, O: Fn(&str, (i64, i64)) -> Option<(i64, S)>>(
    other: O,
    text: Seq<char>,
    range: (i64, i64),
    v: Option<(i64, S)>,
) -> bool {
    exists|s: &str| s@ == text && #[trigger] call_ensures(other, (s, range), v)
}

/// What a text that is no whole number spells, kept within the range.
pub open spec fn other_number<S, O: Fn(&str, (i64, i64)) -> Option<(i64, S)>>(
    other: O,
    text: Seq<char>,
    range: (i64, i64),
) -> Option<(i64, S)> {
    choose|v: Option<(i64, S)>| reads_other(other, text, range, v)
}

/// Whether every operation is a function.
pub open spec fn computes_typing<S, Z, O>(t: Typing<Z, O>) -> bool where
    Z: Fn(i64) -> S,
    O: Fn(&str, (i64, i64)) -> Option<(i64, S)>,
 {
    &&& pure(t.to_size)
    &&& forall|s: &str, range: (i64, i64)| call_requires(t.other, (s, range))
    &&& forall|text: Seq<char>, range: (i64, i64), a: Option<(i64, S)>, b: Option<(i64, S)>|
        reads_other(t.other, text, range, a) && reads_other(t.other, text, range, b) ==> a == b
}

/// The number that a field's text spells, kept within the range: rounded, and
/// as a size.
pub open spec fn number_of<S, Z, O>(text: Seq<char>, range: (i64, i64), t: Typing<Z, O>) -> Option<
    (i64, S),
> where Z: Fn(i64) -> S, O: Fn(&str, (i64, i64)) -> Option<(i64, S)> {
    match spelled_number(trimmed(text)) {
        Some(n) => {
            let v = kept_within(n, range) as i64;
            Some((v, result(t.to_size, v)))
        },
        None => other_number(t.other, trimmed(text), range),
    }
}

/// The number that a field's text spells, kept within the range: rounded, and
/// as a size. `None` if it spells none.
pub fn typed_size<S, Z, O>(buf: &str, range: (i64, i64), t: &Typing<Z, O>) -> (v: Option<
    (i64, S),
>) where Z: Fn(i64) -> S, O: Fn(&str, (i64, i64)) -> Option<(i64, S)>
    requires
        range.0 <= range.1,
        computes_typing(*t),
    ensures
        v == number_of(buf@, range, *t),
{
    match typed_number(buf, range) {
        Some(n) => Some((n, apply(&t.to_size, n))),
        None => {
            let text = trim_text(buf);
            let read = (t.other)(text.as_str(), range);
            proof {
                assert(reads_other(t.other, trimmed(buf@), range, read));
            }
            read
        },
    }
}

/// The decimal digits of a number, most significant first.
pub open spec fn digits_of(n: int) -> Seq<char>
    decreases n,
    when n >= 0
{
    if n < 10 {
        seq![(n + '0' as int) as char]
    } else {
        digits_of(n / 10).push((n % 10 + '0' as int) as char)
    }
}

/// The decimal text of a number.
pub open spec fn decimal_text(n: int) -> Seq<char> {
    if n < 0 {
        seq!['-'] + digits_of(-n)
    } else {
        digits_of(n)
    }
}

/// The digit's character.
fn digit_char(d: u64) -> (c: char)
    requires
        d < 10,
    ensures
        c as int == d + '0' as int,
{
    match d {
        0 => '0',
        1 => '1',
        2 => '2',
        3 => '3',
        4 => '4',
        5 => '5',
        6 => '6',
        7 => '7',
        8 => '8',
        _ => '9',
    }
}

fn push_digits(s: &mut String, n: u64)
    ensures
        final(s)@ == old(s)@ + digits_of(n as int),
    decreases n,
{
    if n < 10 {
        s.push(digit_char(n));
    } else {
        push_digits(s, n / 10);
        s.push(digit_char(n % 10));
    }
    assert(s@ =~= old(s)@ + digits_of(n as int));
}

/// The decimal text of a number.
pub fn decimal(n: i64) -> (s: String)
    ensures
        s@ == decimal_text(n as int),
{
    let mut s = String::new();
    if n < 0 {
        s.push('-');
        let m: u64 = if n == i64::MIN {
            0x8000_0000_0000_0000
        } else {
            (-n) as u64
        };
        assert(s@ =~= seq!['-']);
        push_digits(&mut s, m);
    } else {
        push_digits(&mut s, n as u64);
        assert(s@ =~= digits_of(n as int));
    }
    s
}

/// The digits of a number are digits and spell it.
proof fn lemma_digits_spell(n: int)
    requires
        n >= 0,
    ensures
        digits_of(n).len() > 0,
        all_digits(digits_of(n)),
        digits_value(digits_of(n)) == n,
    decreases n,
{
    if n < 10 {
        let d = digits_of(n);
        assert(d.drop_last() =~= Seq::<char>::empty());
        assert(digits_value(d.drop_last()) == 0);
        assert(is_digit(d[0]));
    } else {
        lemma_digits_spell(n / 10);
        let d = digits_of(n);
        assert(d.drop_last() =~= digits_of(n / 10));
        assert forall|i: int| 0 <= i < d.len() implies is_digit(#[trigger] d[i]) by {
            if i < d.len() - 1 {
                assert(is_digit(digits_of(n / 10)[i]));
            }
        }
    }
}

/// What a field shows of a number, read back, is that number.
pub proof fn law_shown_number_reads_back(n: int)
    ensures
        spelled_number(trimmed(decimal_text(n))) == Some(n),
{
    let t = decimal_text(n);
    let a = if n < 0 {
        -n
    } else {
        n
    };
    lemma_digits_spell(a);
    let d = digits_of(a);
    assert(is_digit(d[0]));
    assert(is_digit(d[d.len() - 1]));
    assert(t.last() == d.last());
    assert(trimmed(t) == t);
    if n < 0 {
        assert(t.drop_first() =~= d);
    }
}

/// Whatever is typed, the number taken from it lies in the range.
pub proof fn law_typed_number_in_range(v: int, range: (i64, i64))
    requires
        range.0 <= range.1,
    ensures
        range.0 <= kept_within(v, range) <= range.1,
        range.0 <= v <= range.1 ==> kept_within(v, range) == v,
{
}

/// The least distance between two points of a freehand stroke, in world px.
pub const FREEHAND_MIN_STEP: i64 = 2;

/// The squared distance of two points.
pub open spec fn distance_squared(p: (i64, i64), q: (i64, i64)) -> int {
    (p.0 - q.0) * (p.0 - q.0) + (p.1 - q.1) * (p.1 - q.1)
}

/// Whether `p` is far enough from `last` to become the stroke's next point.
pub fn should_sample_freehand_point(last: (i64, i64), p: (i64, i64)) -> (r: bool)
    ensures
        r == (distance_squared(p, last) >= FREEHAND_MIN_STEP * FREEHAND_MIN_STEP),
{
    let dx: i128 = p.0 as i128 - last.0 as i128;
    let dy: i128 = p.1 as i128 - last.1 as i128;
    proof {
        assert(0 <= dx * dx <= 0x1_0000_0000_0000_0000 * 0x1_0000_0000_0000_0000int)
            by (nonlinear_arith)
            requires
                -0x1_0000_0000_0000_0000 <= dx <= 0x1_0000_0000_0000_0000,
        ;
        assert(0 <= dy * dy <= 0x1_0000_0000_0000_0000 * 0x1_0000_0000_0000_0000int)
            by (nonlinear_arith)
            requires
                -0x1_0000_0000_0000_0000 <= dy <= 0x1_0000_0000_0000_0000,
        ;
    }
    if dx <= -2 || dx >= 2 || dy <= -2 || dy >= 2 {
        proof {
            assert(dx * dx >= 4 || dy * dy >= 4) by (nonlinear_arith)
                requires
                    dx <= -2 || dx >= 2 || dy <= -2 || dy >= 2,
            ;
        }
        true
    } else {
        proof {
            assert(dx * dx <= 1 && dy * dy <= 1) by (nonlinear_arith)
                requires
                    -1 <= dx <= 1,
                    -1 <= dy <= 1,
            ;
        }
        false
    }
}

/// Whatever is typed, and however it is read, the number taken from it is
/// neither less than the range's least nor more than its most, if one made of a
/// whole number is less than another only where the whole number is.
pub proof fn law_typed_dim_in_range<N, L, R, C>(
    text: Seq<char>,
    range: (i64, i64),
    nums: Numbers<L, R, C>,
) where L: Fn(i64) -> N, R: Fn(&str) -> Option<N>, C: Fn(N, N) -> bool
    requires
        range.0 <= range.1,
        forall|a: i64, b: i64|
            #[trigger] result2(nums.less, result(nums.lift, a), result(nums.lift, b)) ==> a < b,
    ensures
        dim_of(text, range, nums) matches Some(v) ==> !result2(
            nums.less,
            v,
            result(nums.lift, range.0),
        ) && !result2(nums.less, result(nums.lift, range.1), v),
{
}

/// What a field shows of a number is a text that it can hold.
pub proof fn law_shown_number_fits_field(n: int)
    ensures
        field_text(decimal_text(n)),
{
    let a = if n < 0 {
        -n
    } else {
        n
    };
    lemma_digits_spell(a);
    assert forall|i: int| 0 <= i < decimal_text(n).len() implies is_digit(
        #[trigger] decimal_text(n)[i],
    ) || (i == 0 && decimal_text(n)[i] == '-') by {
        if n < 0 && i > 0 {
            assert(decimal_text(n)[i] == digits_of(a)[i - 1]);
        }
    }
}

/// Whatever a field can hold spells a whole number, unless it is empty or a
/// sign alone.
pub proof fn law_field_text_spells_a_number(s: Seq<char>)
    requires
        field_text(s),
        s.len() > 0,
        s != seq!['-'],
    ensures
        trimmed(s) == s,
        spelled_number(s) is Some,
{
    assert(is_digit(s[0]) || s[0] == '-');
    assert(is_digit(s.last()) || s.last() == '-');
    if s[0] == '-' {
        if s.len() == 1 {
            assert(s =~= seq!['-']);
        }
        assert forall|i: int| 0 <= i < s.drop_first().len() implies is_digit(
            #[trigger] s.drop_first()[i],
        ) by {
            assert(s.drop_first()[i] == s[i + 1]);
        }
    }
}

} // verus!
