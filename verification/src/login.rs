//! Finding the Virtual Paradise citizen name of an Active Worlds citizen
//! number in the lines of the citizens file, each of the form
//! `number=name`.
use vstd::prelude::*;

verus! {

/// The character of a decimal digit.
pub open spec fn digit_char(d: nat) -> u8 {
    (48 + d) as u8
}

/// The decimal digits of `n`, most significant first, without leading zeros.
pub open spec fn spec_digits(n: nat) -> Seq<u8>
    decreases n,
{
    if n < 10 {
        seq![digit_char(n)]
    } else {
        spec_digits(n / 10).push(digit_char(n % 10))
    }
}

/// `n` written in decimal, with a leading `-` when negative.
pub open spec fn spec_decimal(n: int) -> Seq<u8> {
    if n < 0 {
        seq![45u8] + spec_digits((-n) as nat)
    } else {
        spec_digits(n as nat)
    }
}

/// Appends the decimal digits of `m` to `out`.
fn push_digits(m: u32, out: &mut Vec<u8>)
    ensures
        final(out)@ == old(out)@ + spec_digits(m as nat),
    decreases m,
{
    if m >= 10 {
        push_digits(m / 10, out);
    }
    let digit = (m % 10) as u8;
    out.push(48u8 + digit);
    proof {
        assert(old(out)@ + spec_digits(m as nat) =~= if m >= 10 {
            (old(out)@ + spec_digits((m / 10) as nat)).push(digit_char((m % 10) as nat))
        } else {
            old(out)@.push(digit_char(m as nat))
        });
    }
}

/// `n` written in decimal, as `format!("{}", n)` writes it.
pub fn decimal(n: i32) -> (text: Vec<u8>)
    ensures
        text@ == spec_decimal(n as int),
{
    let mut text: Vec<u8> = Vec::new();
    if n < 0 {
        text.push(45u8);
        let magnitude = (0i64 - n as i64) as u32;
        push_digits(magnitude, &mut text);
    } else {
        push_digits(n as u32, &mut text);
    }
    text
}

/// Whether `line` begins with `prefix`.
pub open spec fn spec_starts_with(line: Seq<u8>, prefix: Seq<u8>) -> bool {
    prefix.len() <= line.len() && line.take(prefix.len() as int) == prefix
}

/// Whether `line` begins with `prefix`.
pub fn starts_with(line: &Vec<u8>, prefix: &Vec<u8>) -> (starts: bool)
    ensures
        starts == spec_starts_with(line@, prefix@),
{
    if prefix.len() > line.len() {
        return false;
    }
    let mut i: usize = 0;
    while i < prefix.len()
        invariant
            prefix@.len() <= line@.len(),
            i <= prefix@.len(),
            forall|j: int| 0 <= j < i ==> line@[j] == prefix@[j],
        decreases prefix@.len() - i,
    {
        if line[i] != prefix[i] {
            assert(line@.take(prefix@.len() as int)[i as int] != prefix@[i as int]);
            return false;
        }
        i += 1;
    }
    assert(line@.take(prefix@.len() as int) =~= prefix@);
    true
}

/// Whether `field` is the second of the `=`-separated fields of `line`: the
/// text after the first `=`, up to the next `=` or the end of the line.
pub open spec fn spec_is_second_field(line: Seq<u8>, field: Seq<u8>) -> bool {
    exists|first: int|
        0 <= first < line.len() && line[first] == 61u8 && (forall|j: int|
            0 <= j < first ==> line[j] != 61u8) && spec_field_at(line, first + 1, field)
}

/// Whether `field` is the text of `line` from `start` up to the next `=` or
/// the end of the line.
pub open spec fn spec_field_at(line: Seq<u8>, start: int, field: Seq<u8>) -> bool {
    &&& start + field.len() <= line.len()
    &&& field == line.subrange(start, start + field.len())
    &&& forall|j: int| 0 <= j < field.len() ==> field[j] != 61u8
    &&& (start + field.len() == line.len() || line[start + field.len()] == 61u8)
}

/// The second of the `=`-separated fields of `line`, if it has one.
pub fn second_field(line: &Vec<u8>) -> (field: Option<Vec<u8>>)
    ensures
        field is None <==> (forall|j: int| 0 <= j < line@.len() ==> line@[j] != 61u8),
        field matches Some(f) ==> spec_is_second_field(line@, f@),
{
    let mut first: usize = 0;
    while first < line.len() && line[first] != 61u8
        invariant
            first <= line@.len(),
            forall|j: int| 0 <= j < first ==> line@[j] != 61u8,
        decreases line@.len() - first,
    {
        first += 1;
    }
    if first == line.len() {
        return None;
    }
    let mut field: Vec<u8> = Vec::new();
    let mut k: usize = first + 1;
    while k < line.len() && line[k] != 61u8
        invariant
            first < k <= line@.len(),
            field@ == line@.subrange(first + 1, k as int),
            forall|j: int| first < j < k ==> line@[j] != 61u8,
        decreases line@.len() - k,
    {
        field.push(line[k]);
        k += 1;
        assert(field@ =~= line@.subrange(first + 1, k as int));
    }
    assert(spec_field_at(line@, first + 1, field@));
    Some(field)
}

/// Whether line `i` is the first of `lines` to begin with `prefix`.
pub open spec fn spec_first_line_with(lines: Seq<Vec<u8>>, prefix: Seq<u8>, i: int) -> bool {
    &&& 0 <= i < lines.len()
    &&& spec_starts_with(lines[i]@, prefix)
    &&& forall|j: int| 0 <= j < i ==> !spec_starts_with(#[trigger] lines[j]@, prefix)
}

/// The prefix that marks the line of citizen `citnum`: its number and `=`.
pub open spec fn spec_citizen_prefix(citnum: i32) -> Seq<u8> {
    spec_decimal(citnum as int).push(61u8)
}

/// The citizen name that the first line beginning with `citnum` and `=`
/// gives: the second `=`-separated field of that line. Nothing when no line
/// begins so.
pub fn citizen_name_from_lines(lines: &Vec<Vec<u8>>, citnum: i32) -> (name: Option<Vec<u8>>)
    ensures
        name is None <==> (forall|i: int|
            0 <= i < lines@.len() ==> !spec_starts_with(
                #[trigger] lines@[i]@,
                spec_citizen_prefix(citnum),
            )),
        name matches Some(n) ==> exists|i: int|
            spec_first_line_with(lines@, spec_citizen_prefix(citnum), i) && spec_is_second_field(
                #[trigger] lines@[i]@,
                n@,
            ),
{
    let mut prefix = decimal(citnum);
    prefix.push(61u8);
    let mut i: usize = 0;
    while i < lines.len()
        invariant
            prefix@ == spec_citizen_prefix(citnum),
            i <= lines@.len(),
            forall|j: int| 0 <= j < i ==> !spec_starts_with(#[trigger] lines@[j]@, prefix@),
        decreases lines@.len() - i,
    {
        if starts_with(&lines[i], &prefix) {
            let line = &lines[i];
            assert(line@[prefix@.len() - 1] == 61u8) by {
                assert(line@.take(prefix@.len() as int)[prefix@.len() - 1] == 61u8);
            }
            let field = second_field(line);
            assert(field is Some);
            assert(spec_first_line_with(lines@, prefix@, i as int));
            return field;
        }
        i += 1;
    }
    None
}

/// The number a sequence of decimal digits stands for.
pub open spec fn spec_digits_value(digits: Seq<u8>) -> int
    decreases digits.len(),
{
    if digits.len() == 0 {
        0
    } else {
        spec_digits_value(digits.drop_last()) * 10 + (digits.last() - 48)
    }
}

/// The digits of `n` are decimal digits, at least one, and stand for `n`.
proof fn lemma_digits(n: nat)
    ensures
        spec_digits(n).len() >= 1,
        forall|i: int| 0 <= i < spec_digits(n).len() ==> 48 <= #[trigger] spec_digits(n)[i] <= 57,
        spec_digits_value(spec_digits(n)) == n,
    decreases n,
{
    if n >= 10 {
        lemma_digits(n / 10);
        let d = spec_digits(n / 10);
        assert(spec_digits(n).drop_last() =~= d);
        assert(spec_digits(n).last() == digit_char(n % 10));
        assert(digit_char(n % 10) - 48 == n % 10);
        assert(spec_digits_value(spec_digits(n)) == spec_digits_value(d) * 10 + (n % 10));
    } else {
        assert(spec_digits(n).drop_last() =~= Seq::<u8>::empty());
        assert(digit_char(n) - 48 == n);
        assert(spec_digits_value(spec_digits(n)) == spec_digits_value(Seq::<u8>::empty()) * 10 + n);
    }
}

/// The decimal text of a number holds no `=`, and tells the number: two
/// numbers with the same text are the same number.
proof fn lemma_decimal(a: int, b: int)
    ensures
        forall|i: int| 0 <= i < spec_decimal(a).len() ==> #[trigger] spec_decimal(a)[i] != 61u8,
        spec_decimal(a).len() >= 1,
        spec_decimal(a) == spec_decimal(b) ==> a == b,
{
    let da = if a < 0 { (-a) as nat } else { a as nat };
    let db = if b < 0 { (-b) as nat } else { b as nat };
    lemma_digits(da);
    lemma_digits(db);
    assert forall|i: int| 0 <= i < spec_decimal(a).len() implies #[trigger] spec_decimal(a)[i] != 61u8 by {
        if a < 0 && i > 0 {
            assert(spec_decimal(a)[i] == spec_digits(da)[i - 1]);
        }
    }
    if spec_decimal(a) == spec_decimal(b) {
        if a < 0 && b < 0 {
            assert(spec_decimal(a).drop_first() =~= spec_digits(da));
            assert(spec_decimal(b).drop_first() =~= spec_digits(db));
        } else if a < 0 {
            assert(spec_decimal(a)[0] == 45u8);
            assert(spec_decimal(b)[0] == spec_digits(db)[0]);
        } else if b < 0 {
            assert(spec_decimal(b)[0] == 45u8);
            assert(spec_decimal(a)[0] == spec_digits(da)[0]);
        }
    }
}

/// The line of one citizen is never taken for the line of another: a line
/// that begins with the prefix of citizen `a` and with that of citizen `b`
/// belongs to one citizen, `a == b`. So `70000=alice` is found for 70000
/// only, and `4464=bob` for 4464 only.
pub proof fn lemma_citizen_lines_distinct(a: i32, b: i32, line: Seq<u8>)
    requires
        spec_starts_with(line, spec_citizen_prefix(a)),
        spec_starts_with(line, spec_citizen_prefix(b)),
    ensures
        a == b,
{
    lemma_decimal(a as int, b as int);
    lemma_decimal(b as int, a as int);
    let pa = spec_citizen_prefix(a);
    let pb = spec_citizen_prefix(b);
    let la = pa.len() as int;
    let lb = pb.len() as int;
    assert(line.take(la) == pa);
    assert(line.take(lb) == pb);
    if la < lb {
        assert(line[la - 1] == 61u8) by {
            assert(line.take(la)[la - 1] == pa[la - 1]);
        }
        assert(pb[la - 1] == spec_decimal(b as int)[la - 1]);
        assert(line.take(lb)[la - 1] == line[la - 1]);
        assert(false);
    } else if lb < la {
        assert(line[lb - 1] == 61u8) by {
            assert(line.take(lb)[lb - 1] == pb[lb - 1]);
        }
        assert(pa[lb - 1] == spec_decimal(a as int)[lb - 1]);
        assert(line.take(la)[lb - 1] == line[lb - 1]);
        assert(false);
    } else {
        assert(pa == pb);
        assert(pa.drop_last() =~= spec_decimal(a as int));
        assert(pb.drop_last() =~= spec_decimal(b as int));
    }
}

} // verus!
