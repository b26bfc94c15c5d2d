//! Looking into addresses: where a character stands, what stands before and
//! behind it, and which part is a number.

use vstd::prelude::*;
use vstd::string::*;

verus! {

/// Whether a character is one of the ten ASCII digits.
pub open spec fn is_digit(c: char) -> bool {
    '0' as u32 <= c as u32 <= '9' as u32
}

/// Whether a text is made of ASCII digits alone.
pub open spec fn all_digits(s: Seq<char>) -> bool {
    forall|i: int| 0 <= i < s.len() ==> is_digit(#[trigger] s[i])
}

/// The number that a run of digits writes in base ten.
pub open spec fn decimal(s: Seq<char>) -> nat
    decreases s.len(),
{
    if s.len() == 0 {
        0
    } else {
        10 * decimal(s.drop_last()) + (s.last() as u32 - '0' as u32) as nat
    }
}

/// The first place at or after `from` where `c` stands, or the length of the
/// text if it stands nowhere there.
pub open spec fn first_place(s: Seq<char>, c: char, from: int) -> int
    decreases s.len() - from,
{
    if from >= s.len() {
        s.len() as int
    } else if s[from] == c {
        from
    } else {
        first_place(s, c, from + 1)
    }
}

/// The last place before `upto` where `c` stands, or -1 if it stands nowhere
/// there.
pub open spec fn last_place(s: Seq<char>, c: char, upto: int) -> int
    decreases upto,
{
    if upto <= 0 {
        -1
    } else if s[upto - 1] == c {
        upto - 1
    } else {
        last_place(s, c, upto - 1)
    }
}

/// What stands before the first `c`: the whole text if there is none.
pub open spec fn before_first(s: Seq<char>, c: char) -> Seq<char> {
    s.take(first_place(s, c, 0))
}

/// What stands behind the last `c`: the whole text if there is none.
pub open spec fn behind_last(s: Seq<char>, c: char) -> Seq<char> {
    s.skip(last_place(s, c, s.len() as int) + 1)
}

/// Whether `part` stands in the text at `at`.
pub open spec fn stands_at(s: Seq<char>, part: Seq<char>, at: int) -> bool {
    0 <= at && at + part.len() <= s.len() && s.subrange(at, at + part.len()) == part
}

/// The first place at or after `from` where `part` stands, if there is one.
pub open spec fn part_place(s: Seq<char>, part: Seq<char>, from: int) -> Option<int>
    decreases s.len() + 1 - from,
{
    if from > s.len() {
        None
    } else if stands_at(s, part, from) {
        Some(from)
    } else {
        part_place(s, part, from + 1)
    }
}

/// The text without the `c` at its end, however many there are.
pub open spec fn trimmed_end(s: Seq<char>, c: char) -> Seq<char>
    decreases s.len(),
{
    if s.len() > 0 && s.last() == c {
        trimmed_end(s.drop_last(), c)
    } else {
        s
    }
}

/// The characters of a text.
pub fn characters(s: &str) -> (chars: Vec<char>)
    ensures
        chars@ == s@,
{
    let mut chars: Vec<char> = Vec::new();
    let n: usize = s.unicode_len();
    let mut i: usize = 0;
    while i < n
        invariant
            i <= n,
            n == s@.len(),
            chars@ == s@.take(i as int),
        decreases n - i,
    {
        chars.push(s.get_char(i));
        i = i + 1;
        assert(s@.take(i as int) =~= s@.take(i - 1).push(s@[i - 1]));
    }
    assert(s@.take(n as int) =~= s@);
    chars
}

/// Whether two texts are the same.
pub fn same(a: &str, b: &str) -> (r: bool)
    ensures
        r == (a@ == b@),
{
    let a_owned: String = a.to_owned();
    let b_owned: String = b.to_owned();
    a_owned == b_owned
}

/// The first place at or after `from` where `c` stands, or the length.
pub fn find_first(s: &Vec<char>, c: char, from: usize) -> (place: usize)
    requires
        from <= s@.len(),
    ensures
        place == first_place(s@, c, from as int),
        from <= place <= s@.len(),
{
    let mut i: usize = from;
    while i < s.len()
        invariant
            from <= i <= s@.len(),
            first_place(s@, c, from as int) == first_place(s@, c, i as int),
        decreases s@.len() - i,
    {
        if s[i] == c {
            return i;
        }
        i = i + 1;
    }
    i
}

/// One past the last place where `c` stands, or zero if it stands nowhere.
pub fn find_behind_last(s: &Vec<char>, c: char) -> (place: usize)
    ensures
        place == last_place(s@, c, s@.len() as int) + 1,
        place <= s@.len(),
{
    let mut i: usize = s.len();
    while i > 0
        invariant
            i <= s@.len(),
            last_place(s@, c, s@.len() as int) == last_place(s@, c, i as int),
        decreases i,
    {
        if s[i - 1] == c {
            return i;
        }
        i = i - 1;
    }
    0
}

/// Whether `part` stands in the text at `at`.
pub fn is_at(s: &Vec<char>, part: &Vec<char>, at: usize) -> (r: bool)
    ensures
        r == stands_at(s@, part@, at as int),
{
    if at > s.len() || part.len() > s.len() - at {
        return false;
    }
    let n: usize = s.len();
    let mut i: usize = 0;
    while i < part.len()
        invariant
            i <= part@.len(),
            at + part@.len() <= s@.len(),
            n == s@.len(),
            forall|j: int| 0 <= j < i ==> s@[at + j] == #[trigger] part@[j],
        decreases part@.len() - i,
    {
        if s[at + i] != part[i] {
            assert(s@.subrange(at as int, at + part@.len())[i as int] != part@[i as int]);
            return false;
        }
        i = i + 1;
    }
    assert(s@.subrange(at as int, at + part@.len()) =~= part@);
    true
}

/// The first place where `part` stands, if there is one.
pub fn find_part(s: &Vec<char>, part: &Vec<char>) -> (place: Option<usize>)
    ensures
        place is Some <==> part_place(s@, part@, 0) is Some,
        place matches Some(i) ==> part_place(s@, part@, 0) == Some(i as int) && i + part@.len()
            <= s@.len(),
{
    let mut i: usize = 0;
    while i < s.len()
        invariant
            i <= s@.len(),
            part_place(s@, part@, 0) == part_place(s@, part@, i as int),
        decreases s@.len() - i,
    {
        if is_at(s, part, i) {
            return Some(i);
        }
        i = i + 1;
    }
    if is_at(s, part, i) {
        Some(i)
    } else {
        assert(part_place(s@, part@, i + 1) is None);
        None
    }
}

/// Whether the text begins with `part`.
pub fn begins_with(s: &str, part: &str) -> (r: bool)
    ensures
        r == stands_at(s@, part@, 0),
{
    is_at(&characters(s), &characters(part), 0)
}

/// Whether `part` stands anywhere in the text.
pub fn holds_part(s: &str, part: &str) -> (r: bool)
    ensures
        r == (part_place(s@, part@, 0) is Some),
{
    find_part(&characters(s), &characters(part)).is_some()
}

/// The length of the text without the `c` at its end.
pub fn trimmed_end_len(s: &Vec<char>, c: char) -> (n: usize)
    ensures
        n <= s@.len(),
        s@.take(n as int) == trimmed_end(s@, c),
{
    let mut n: usize = s.len();
    assert(s@.take(n as int) =~= s@);
    while n > 0 && s[n - 1] == c
        invariant
            n <= s@.len(),
            trimmed_end(s@.take(n as int), c) == trimmed_end(s@, c),
        decreases n,
    {
        assert(s@.take(n as int).drop_last() =~= s@.take(n - 1));
        n = n - 1;
    }
    n
}

/// Whether the characters from `from` up to `upto` are all digits.
pub fn digits_between(s: &Vec<char>, from: usize, upto: usize) -> (r: bool)
    requires
        from <= upto <= s@.len(),
    ensures
        r == all_digits(s@.subrange(from as int, upto as int)),
{
    let mut i: usize = from;
    while i < upto
        invariant
            from <= i <= upto <= s@.len(),
            forall|j: int| from <= j < i ==> is_digit(#[trigger] s@[j]),
        decreases upto - i,
    {
        let code: u32 = s[i] as u32;
        if code < '0' as u32 || code > '9' as u32 {
            assert(!is_digit(s@.subrange(from as int, upto as int)[i - from]));
            return false;
        }
        i = i + 1;
    }
    true
}

/// Whether a text writes a number that fits in a byte: an optional plus sign,
/// then at least one digit, and a value below 256.
pub open spec fn writes_byte(s: Seq<char>) -> bool {
    let digits = if s.len() > 0 && s[0] == '+' {
        s.skip(1)
    } else {
        s
    };
    digits.len() > 0 && all_digits(digits) && decimal(digits) < 256
}

/// The number that a text writes, with or without a plus sign.
pub open spec fn byte_value(s: Seq<char>) -> nat {
    decimal(
        if s.len() > 0 && s[0] == '+' {
            s.skip(1)
        } else {
            s
        },
    )
}

/// A longer run of digits does not write a smaller number.
proof fn lemma_decimal_grows(s: Seq<char>, n: int)
    requires
        0 <= n <= s.len(),
        all_digits(s),
    ensures
        decimal(s.take(n)) <= decimal(s),
    decreases s.len() - n,
{
    if n < s.len() {
        let shorter = s.drop_last();
        assert(shorter.take(n) =~= s.take(n));
        lemma_decimal_grows(shorter, n);
    } else {
        assert(s.take(n) =~= s);
    }
}

/// Reads the characters from `from` up to `upto` as a number that fits in a
/// byte.
pub fn parse_byte(s: &Vec<char>, from: usize, upto: usize) -> (r: Option<u8>)
    requires
        from <= upto <= s@.len(),
    ensures
        r is Some <==> writes_byte(s@.subrange(from as int, upto as int)),
        r matches Some(n) ==> n == byte_value(s@.subrange(from as int, upto as int)),
{
    let ghost whole = s@.subrange(from as int, upto as int);
    let start: usize = if from < upto && s[from] == '+' {
        from + 1
    } else {
        from
    };
    let ghost digits = s@.subrange(start as int, upto as int);
    proof {
        if from < upto && s@[from as int] == '+' {
            assert(digits =~= whole.skip(1));
        }
    }
    if start == upto || !digits_between(s, start, upto) {
        return None;
    }
    let mut value: u32 = 0;
    let mut i: usize = start;
    assert(digits.take(0) =~= Seq::empty());
    while i < upto
        invariant
            start <= i <= upto <= s@.len(),
            from <= start,
            whole == s@.subrange(from as int, upto as int),
            digits == s@.subrange(start as int, upto as int),
            digits == if whole.len() > 0 && whole[0] == '+' {
                whole.skip(1)
            } else {
                whole
            },
            all_digits(digits),
            value == decimal(digits.take(i - start)),
            value < 256,
        decreases upto - i,
    {
        assert(is_digit(digits[i - start]));
        assert(digits.take(i - start + 1).drop_last() =~= digits.take(i - start));
        let digit: u32 = s[i] as u32 - '0' as u32;
        value = 10 * value + digit;
        if value >= 256 {
            proof {
                lemma_decimal_grows(digits, i - start + 1);
            }
            return None;
        }
        i = i + 1;
    }
    assert(digits.take(upto - start) =~= digits);
    Some(value as u8)
}

/// A part that stands somewhere is found.
pub proof fn lemma_part_found(s: Seq<char>, part: Seq<char>, at: int)
    requires
        stands_at(s, part, at),
    ensures
        part_place(s, part, 0) is Some,
{
    lemma_part_found_from(s, part, at, 0);
}

/// A part that is found stands where it is found.
pub proof fn lemma_part_bounds(s: Seq<char>, part: Seq<char>, from: int)
    requires
        0 <= from,
    ensures
        part_place(s, part, from) matches Some(at) ==> from <= at && stands_at(s, part, at),
    decreases s.len() + 1 - from,
{
    if from <= s.len() && !stands_at(s, part, from) {
        lemma_part_bounds(s, part, from + 1);
    }
}

/// A part that stands at or after `from` is found from there.
proof fn lemma_part_found_from(s: Seq<char>, part: Seq<char>, at: int, from: int)
    requires
        stands_at(s, part, at),
        from <= at,
    ensures
        part_place(s, part, from) is Some,
    decreases at - from,
{
    if from < at && !stands_at(s, part, from) {
        lemma_part_found_from(s, part, at, from + 1);
    }
}

/// A character that is no digit, followed by digits alone, stands last before
/// their end.
pub proof fn lemma_last_place_before_digits(s: Seq<char>, c: char, at: int, upto: int)
    requires
        0 <= at < upto <= s.len(),
        s[at] == c,
        !is_digit(c),
        forall|i: int| at < i < upto ==> is_digit(#[trigger] s[i]),
    ensures
        last_place(s, c, upto) == at,
    decreases upto - at,
{
    if upto - 1 > at {
        assert(is_digit(s[upto - 1]));
        lemma_last_place_before_digits(s, c, at, upto - 1);
    }
}

/// What is left of a text after trimming its end is its beginning.
pub proof fn lemma_trimmed_end_prefix(s: Seq<char>, c: char)
    ensures
        trimmed_end(s, c).is_prefix_of(s),
        trimmed_end(s, c).len() > 0 ==> trimmed_end(s, c).last() != c,
    decreases s.len(),
{
    if s.len() > 0 && s.last() == c {
        lemma_trimmed_end_prefix(s.drop_last(), c);
    }
}

/// Text in front of what is trimmed stays, as long as the trimming stops
/// before it.
pub proof fn lemma_trimmed_end_behind(head: Seq<char>, s: Seq<char>, c: char)
    requires
        trimmed_end(s, c).len() > 0,
    ensures
        trimmed_end(head + s, c) == head + trimmed_end(s, c),
    decreases s.len(),
{
    if s.len() > 0 && s.last() == c {
        assert((head + s).drop_last() =~= head + s.drop_last());
        lemma_trimmed_end_behind(head, s.drop_last(), c);
    }
}

/// The last place of a character is a place before the end, or -1.
pub proof fn lemma_last_place_bounds(s: Seq<char>, c: char, upto: int)
    requires
        0 <= upto <= s.len(),
    ensures
        -1 <= last_place(s, c, upto) < upto || (upto == 0 && last_place(s, c, upto) == -1),
    decreases upto,
{
    if upto > 0 && s[upto - 1] != c {
        lemma_last_place_bounds(s, c, upto - 1);
    }
}

/// Text in front moves the last place of a character by its length, as long
/// as the character stands in what follows.
pub proof fn lemma_last_place_behind(head: Seq<char>, s: Seq<char>, c: char, upto: int)
    requires
        0 <= upto <= s.len(),
        last_place(s, c, upto) >= 0,
    ensures
        last_place(head + s, c, head.len() + upto) == head.len() + last_place(s, c, upto),
    decreases upto,
{
    if upto > 0 && s[upto - 1] != c {
        lemma_last_place_behind(head, s, c, upto - 1);
    }
}

/// The character of a digit.
pub open spec fn digit_char(d: nat) -> char {
    (d + '0' as u32) as char
}

/// A number in base ten, without leading zeros.
pub open spec fn digits_of(n: nat) -> Seq<char>
    decreases n,
{
    if n < 10 {
        seq![digit_char(n)]
    } else {
        digits_of(n / 10).push(digit_char(n % 10))
    }
}

/// A digit as a text.
fn digit_text(d: u8) -> (s: &'static str)
    requires
        d < 10,
    ensures
        s@ == seq![digit_char(d as nat)],
{
    proof {
        reveal_strlit("0");
        reveal_strlit("1");
        reveal_strlit("2");
        reveal_strlit("3");
        reveal_strlit("4");
        reveal_strlit("5");
        reveal_strlit("6");
        reveal_strlit("7");
        reveal_strlit("8");
        reveal_strlit("9");
    }
    if d == 0 {
        "0"
    } else if d == 1 {
        "1"
    } else if d == 2 {
        "2"
    } else if d == 3 {
        "3"
    } else if d == 4 {
        "4"
    } else if d == 5 {
        "5"
    } else if d == 6 {
        "6"
    } else if d == 7 {
        "7"
    } else if d == 8 {
        "8"
    } else {
        "9"
    }
}

/// A number below 256 in base ten.
pub fn byte_text(n: u8) -> (s: String)
    ensures
        s@ == digits_of(n as nat),
{
    proof {
        reveal_with_fuel(digits_of, 3);
    }
    if n < 10 {
        digit_text(n).to_owned()
    } else if n < 100 {
        let s: String = digit_text(n / 10).to_owned().concat(digit_text(n % 10));
        assert(s@ =~= digits_of(n as nat));
        s
    } else {
        let tens: u8 = n / 10;
        let s: String = digit_text(tens / 10).to_owned().concat(digit_text(tens % 10)).concat(
            digit_text(n % 10),
        );
        assert(s@ =~= digits_of(n as nat));
        s
    }
}

/// The first place of a character is where it stands while it stands nowhere
/// before.
pub proof fn lemma_first_place_is(s: Seq<char>, c: char, from: int, at: int)
    requires
        0 <= from <= at <= s.len(),
        forall|i: int| from <= i < at ==> #[trigger] s[i] != c,
        at < s.len() ==> s[at] == c,
    ensures
        first_place(s, c, from) == at,
    decreases at - from,
{
    if from < at {
        assert(s[from] != c);
        lemma_first_place_is(s, c, from + 1, at);
    }
}

/// The last place of a character is where it stands while it stands nowhere
/// behind; -1 where it stands nowhere.
pub proof fn lemma_last_place_is(s: Seq<char>, c: char, upto: int, at: int)
    requires
        -1 <= at < upto <= s.len() || (at == -1 && upto == 0),
        forall|i: int| at < i < upto ==> #[trigger] s[i] != c,
        at >= 0 ==> s[at] == c,
    ensures
        last_place(s, c, upto) == at,
    decreases upto - at,
{
    if upto - 1 > at {
        assert(s[upto - 1] != c);
        lemma_last_place_is(s, c, upto - 1, at);
    }
}

/// A part is found where it stands while it stands nowhere before.
pub proof fn lemma_part_place_is(s: Seq<char>, part: Seq<char>, from: int, at: int)
    requires
        0 <= from <= at,
        stands_at(s, part, at),
        forall|i: int| from <= i < at ==> !#[trigger] stands_at(s, part, i),
    ensures
        part_place(s, part, from) == Some(at),
    decreases at - from,
{
    if from < at {
        assert(!stands_at(s, part, from));
        lemma_part_place_is(s, part, from + 1, at);
    }
}

/// A part that stands nowhere is not found.
pub proof fn lemma_part_absent(s: Seq<char>, part: Seq<char>, from: int)
    requires
        forall|i: int| !#[trigger] stands_at(s, part, i),
    ensures
        part_place(s, part, from) is None,
    decreases s.len() + 1 - from,
{
    if from <= s.len() {
        assert(!stands_at(s, part, from));
        lemma_part_absent(s, part, from + 1);
    }
}

/// Trimming takes all of the trimmed character from the end, and nothing else.
pub proof fn lemma_trimmed_end_is(core: Seq<char>, tail: Seq<char>, c: char)
    requires
        core.len() > 0 ==> core.last() != c,
        forall|i: int| 0 <= i < tail.len() ==> #[trigger] tail[i] == c,
    ensures
        trimmed_end(core + tail, c) == core,
    decreases tail.len(),
{
    if tail.len() == 0 {
        assert(core + tail =~= core);
    } else {
        assert((core + tail).last() == tail[tail.len() - 1]);
        assert((core + tail).drop_last() =~= core + tail.drop_last());
        lemma_trimmed_end_is(core, tail.drop_last(), c);
    }
}

/// The digits of a number, read as a number, give it back.
pub proof fn lemma_digits_are_read_back(n: nat)
    ensures
        decimal(digits_of(n)) == n,
        all_digits(digits_of(n)),
        digits_of(n).len() > 0,
    decreases n,
{
    if n < 10 {
        assert(digits_of(n).drop_last() =~= Seq::empty());
        reveal_with_fuel(decimal, 2);
    } else {
        lemma_digits_are_read_back(n / 10);
        assert(digits_of(n).drop_last() =~= digits_of(n / 10));
    }
}

/// The first place of a character is between where the search began and the
/// end.
pub proof fn lemma_first_place_bounds(s: Seq<char>, c: char, from: int)
    requires
        0 <= from,
    ensures
        from <= s.len() ==> from <= first_place(s, c, from) <= s.len(),
        from > s.len() ==> first_place(s, c, from) == s.len(),
    decreases s.len() - from,
{
    if from < s.len() && s[from] != c {
        lemma_first_place_bounds(s, c, from + 1);
    }
}

} // verus!
