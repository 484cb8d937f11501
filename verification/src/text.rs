//! Text: comparison, joining and decimal numbers.
use vstd::prelude::*;

verus! {

/// Whether two texts hold the same characters.
pub fn same(a: &str, b: &str) -> (equal: bool)
    ensures
        equal == (a@ == b@),
{
    let left = a.as_bytes();
    let right = b.as_bytes();
    proof {
        vstd::utf8::encode_utf8_decode_utf8(a@);
        vstd::utf8::encode_utf8_decode_utf8(b@);
    }
    if left.len() != right.len() {
        return false;
    }
    let mut i: usize = 0;
    while i < left.len()
        invariant
            i <= left@.len(),
            left@.len() == right@.len(),
            left@ == vstd::utf8::encode_utf8(a@),
            right@ == vstd::utf8::encode_utf8(b@),
            forall|k: int| 0 <= k < i ==> left@[k] == right@[k],
        decreases left@.len() - i,
    {
        if left[i] != right[i] {
            return false;
        }
        i = i + 1;
    }
    assert(left@ =~= right@);
    true
}

/// Two texts, one after the other.
pub fn join(a: &str, b: &str) -> (joined: String)
    ensures
        joined@ == a@ + b@,
{
    let mut joined = a.to_owned();
    joined.append(b);
    joined
}

/// A text, a second text, and a third.
pub fn enclose(before: &str, inner: &str, after: &str) -> (joined: String)
    ensures
        joined@ == before@ + inner@ + after@,
{
    let mut joined = join(before, inner);
    joined.append(after);
    joined
}

/// The decimal digit for a number below ten.
pub open spec fn digit(value: nat) -> char {
    (('0' as int) + value) as char
}

/// A number in decimal, without leading zeros.
pub open spec fn decimal(value: nat) -> Seq<char>
    decreases value,
{
    if value < 10 {
        seq![digit(value)]
    } else {
        decimal(value / 10).push(digit(value % 10))
    }
}

/// A number in decimal, with a minus sign when it is negative.
pub open spec fn signed_decimal(value: int) -> Seq<char> {
    if value < 0 {
        seq!['-'] + decimal((-value) as nat)
    } else {
        decimal(value as nat)
    }
}

fn digit_text(value: u64) -> (text: &'static str)
    requires
        value < 10,
    ensures
        text@ == seq![digit(value as nat)],
{
    proof {
        reveal_strlit("0");
        reveal_strlit("1");
        reveal_strlit("2");
        reveal_strlit("3");
        reveal_strlit("4");
        reveal_strlit("5");
        reveal_strlit("6");
        reveal_strlit("7");
        reveal_strlit("8");
        reveal_strlit("9");
    }
    let text = match value {
        0 => "0",
        1 => "1",
        2 => "2",
        3 => "3",
        4 => "4",
        5 => "5",
        6 => "6",
        7 => "7",
        8 => "8",
        _ => "9",
    };
    assert(text@ =~= seq![digit(value as nat)]);
    text
}

/// Writes a number in decimal.
pub fn decimal_text(value: u64) -> (text: String)
    ensures
        text@ == decimal(value as nat),
    decreases value,
{
    if value < 10 {
        digit_text(value).to_owned()
    } else {
        let mut text = decimal_text(value / 10);
        text.append(digit_text(value % 10));
        assert(text@ =~= decimal(value as nat));
        text
    }
}

/// Writes a number in decimal, with its sign when it is negative.
pub fn signed_decimal_text(value: i64) -> (text: String)
    ensures
        text@ == signed_decimal(value as int),
{
    if value >= 0 {
        decimal_text(value as u64)
    } else {
        proof {
            reveal_strlit("-");
            assert("-"@ =~= seq!['-']);
        }
        // The magnitude of the smallest number does not fit in `i64`.
        let magnitude: u64 = (-(value + 1)) as u64 + 1;
        join("-", decimal_text(magnitude).as_str())
    }
}

/// The characters of a text.
pub fn characters(text: &str) -> (list: Vec<char>)
    ensures
        list@ == text@,
{
    let mut list: Vec<char> = Vec::new();
    for c in it: text.chars()
        invariant
            it.seq() == text@,
            list@ == text@.take(it.index() as int),
    {
        list.push(c);
        assert(text@.take(it.index() as int + 1) =~= text@.take(it.index() as int).push(c));
    }
    assert(text@.take(text@.len() as int) =~= text@);
    list
}

/// The two texts agree on their first `at` characters, and there the first
/// ends or has the smaller character.
pub open spec fn parts_at(a: Seq<char>, b: Seq<char>, at: int) -> bool {
    &&& 0 <= at <= a.len()
    &&& at < b.len()
    &&& forall|i: int| 0 <= i < at ==> #[trigger] a[i] == b[i]
    &&& at == a.len() || (a[at] as int) < (b[at] as int)
}

/// The order of texts: character by character, by code point, a prefix
/// first.
pub open spec fn precedes(a: Seq<char>, b: Seq<char>) -> bool {
    exists|at: int| parts_at(a, b, at)
}

/// No text precedes itself.
pub proof fn order_is_irreflexive(a: Seq<char>)
    ensures
        !precedes(a, a),
{
}

/// The order of texts is transitive.
pub proof fn order_is_transitive(a: Seq<char>, b: Seq<char>, c: Seq<char>)
    requires
        precedes(a, b),
        precedes(b, c),
    ensures
        precedes(a, c),
{
    let first = choose|at: int| parts_at(a, b, at);
    let second = choose|at: int| parts_at(b, c, at);
    if first <= second {
        assert(parts_at(a, c, first));
    } else {
        assert(parts_at(a, c, second));
    }
}

/// Of two different texts one precedes the other.
pub proof fn order_is_total(a: Seq<char>, b: Seq<char>)
    ensures
        a == b || precedes(a, b) || precedes(b, a),
    decreases a.len(),
{
    if a.len() == 0 || b.len() == 0 {
        if a.len() == 0 && b.len() == 0 {
            assert(a =~= b);
        } else if a.len() == 0 {
            assert(parts_at(a, b, 0));
        } else {
            assert(parts_at(b, a, 0));
        }
    } else if a[0] != b[0] {
        if (a[0] as int) < (b[0] as int) {
            assert(parts_at(a, b, 0));
        } else {
            assert(parts_at(b, a, 0));
        }
    } else {
        let x = a.drop_first();
        let y = b.drop_first();
        order_is_total(x, y);
        if x == y {
            assert(a =~= seq![a[0]] + x);
            assert(b =~= seq![b[0]] + y);
        } else if precedes(x, y) {
            let at = choose|at: int| parts_at(x, y, at);
            lemma_parts_behind_first(a, b, at);
        } else {
            let at = choose|at: int| parts_at(y, x, at);
            lemma_parts_behind_first(b, a, at);
        }
    }
}

proof fn lemma_parts_behind_first(a: Seq<char>, b: Seq<char>, at: int)
    requires
        a.len() > 0,
        b.len() > 0,
        a[0] == b[0],
        parts_at(a.drop_first(), b.drop_first(), at),
    ensures
        precedes(a, b),
{
    assert forall|i: int| 0 <= i < at + 1 implies #[trigger] a[i] == b[i] by {
        if i > 0 {
            assert(a.drop_first()[i - 1] == b.drop_first()[i - 1]);
        }
    }
    assert(parts_at(a, b, at + 1));
}

/// Whether the first text precedes the second.
pub fn comes_before(a: &str, b: &str) -> (before: bool)
    ensures
        before == precedes(a@, b@),
{
    let left = characters(a);
    let right = characters(b);
    let mut i: usize = 0;
    while i < left.len() && i < right.len() && left[i] == right[i]
        invariant
            i <= left@.len(),
            i <= right@.len(),
            left@ == a@,
            right@ == b@,
            forall|k: int| 0 <= k < i ==> left@[k] == right@[k],
        decreases left@.len() - i,
    {
        i = i + 1;
    }
    if i == right.len() {
        false
    } else if i == left.len() {
        assert(parts_at(a@, b@, i as int));
        true
    } else {
        let before = left[i] < right[i];
        proof {
            if before {
                assert(parts_at(a@, b@, i as int));
            }
        }
        before
    }
}

/// The lower-case letter for an upper-case ASCII letter; every other
/// character as it is.
pub open spec fn ascii_lower(c: char) -> char {
    if 'A' <= c <= 'Z' {
        ((c as u32) + 32) as char
    } else {
        c
    }
}

/// Both texts are the same when ASCII letters are taken without their case.
pub open spec fn same_without_case(a: Seq<char>, b: Seq<char>) -> bool {
    &&& a.len() == b.len()
    &&& forall|i: int| 0 <= i < a.len() ==> ascii_lower(#[trigger] a[i]) == ascii_lower(b[i])
}

fn lower(c: char) -> (folded: u32)
    ensures
        folded == ascii_lower(c) as u32,
{
    let code = c as u32;
    if 65 <= code && code <= 90 {
        code + 32
    } else {
        code
    }
}

/// Whether two texts are the same without the case of ASCII letters.
pub fn same_ignoring_case(a: &str, b: &str) -> (equal: bool)
    ensures
        equal == same_without_case(a@, b@),
{
    let left = characters(a);
    let right = characters(b);
    if left.len() != right.len() {
        return false;
    }
    let mut i: usize = 0;
    while i < left.len()
        invariant
            i <= left@.len(),
            left@ == a@,
            right@ == b@,
            a@.len() == b@.len(),
            forall|k: int| 0 <= k < i ==> ascii_lower(#[trigger] a@[k]) == ascii_lower(b@[k]),
        decreases left@.len() - i,
    {
        if lower(left[i]) != lower(right[i]) {
            assert(ascii_lower(a@[i as int]) != ascii_lower(b@[i as int]));
            return false;
        }
        i = i + 1;
    }
    true
}

/// What `str::to_uppercase` makes of a text.
pub uninterp spec fn uppercase(text: Seq<char>) -> Seq<char>;

/// Calls `str::to_uppercase`, which maps a text by the Unicode upper-case
/// property, whatever the locale. The contract names its result.
#[verifier::external_body]
pub(crate) fn uppercase_text(text: &str) -> (upper: String)
    ensures
        upper@ == uppercase(text@),
{
    text.to_uppercase()
}

/// The number that decimal digits give.
pub open spec fn read_decimal(digits: Seq<char>) -> int
    decreases digits.len(),
{
    if digits.len() == 0 {
        0
    } else {
        10 * read_decimal(digits.drop_last()) + (digits.last() as int - '0' as int)
    }
}

/// A number in decimal consists of digits, without a zero in front, and gives
/// the number back.
pub proof fn decimals_read_back(value: nat)
    ensures
        read_decimal(decimal(value)) == value,
        decimal(value).len() > 0,
        forall|i: int| 0 <= i < decimal(value).len() ==> '0' <= #[trigger] decimal(value)[i] <= '9',
        value > 0 ==> decimal(value)[0] != '0',
        value == 0 ==> decimal(value).len() == 1,
    decreases value,
{
    if value < 10 {
        let digits = decimal(value);
        assert(digits.drop_last() =~= Seq::empty());
        assert(read_decimal(digits.drop_last()) == 0);
    } else {
        decimals_read_back(value / 10);
        assert(decimal(value).drop_last() =~= decimal(value / 10));
    }
}

/// A negative number is its decimal behind a minus sign; any other number is
/// its decimal.
pub proof fn signs_stand_in_front(value: int)
    ensures
        value >= 0 ==> read_decimal(signed_decimal(value)) == value && signed_decimal(value)[0]
            != '-',
        value < 0 ==> signed_decimal(value)[0] == '-' && read_decimal(
            signed_decimal(value).drop_first(),
        ) == -value,
{
    if value < 0 {
        decimals_read_back((-value) as nat);
        assert(signed_decimal(value).drop_first() =~= decimal((-value) as nat));
    } else {
        decimals_read_back(value as nat);
    }
}

/// Texts are the same without case exactly when each two characters are the
/// same, or are one ASCII letter in two cases.
pub proof fn only_cases_may_differ(a: Seq<char>, b: Seq<char>)
    ensures
        same_without_case(a, b) <==> a.len() == b.len() && (forall|i: int|
            0 <= i < a.len() ==> {
                ||| #[trigger] a[i] == b[i]
                ||| 'A' <= a[i] <= 'Z' && b[i] as int == a[i] as int + 32
                ||| 'A' <= b[i] <= 'Z' && a[i] as int == b[i] as int + 32
            }),
{
    if a.len() == b.len() {
        assert forall|i: int| 0 <= i < a.len() implies (ascii_lower(#[trigger] a[i]) == ascii_lower(
            b[i],
        ) <==> {
            ||| a[i] == b[i]
            ||| 'A' <= a[i] <= 'Z' && b[i] as int == a[i] as int + 32
            ||| 'A' <= b[i] <= 'Z' && a[i] as int == b[i] as int + 32
        }) by {
            lemma_lower(a[i]);
            lemma_lower(b[i]);
        }
    }
}

proof fn lemma_lower(c: char)
    ensures
        'A' <= c <= 'Z' ==> ascii_lower(c) as int == c as int + 32,
        !('A' <= c <= 'Z') ==> ascii_lower(c) == c,
{
}

/// Texts are ordered by the first character in which they differ, by its code
/// point; a text comes before those that it begins.
pub proof fn code_points_order_texts(
    shared: Seq<char>,
    a: char,
    b: char,
    first: Seq<char>,
    second: Seq<char>,
)
    ensures
        a < b ==> precedes(shared.push(a) + first, shared.push(b) + second),
        a > b ==> !precedes(shared.push(a) + first, shared.push(b) + second),
        precedes(shared, shared.push(b) + second),
        !precedes(shared.push(b) + second, shared),
{
    let left = shared.push(a) + first;
    let right = shared.push(b) + second;
    let at = shared.len() as int;
    assert(left[at] == a && right[at] == b);
    assert forall|i: int| 0 <= i < at implies left[i] == shared[i] && #[trigger] right[i]
        == shared[i] by {}
    if a < b {
        assert(parts_at(left, right, at));
    }
    assert(parts_at(shared, right, at));
    order_is_irreflexive(shared);
    if precedes(right, shared) {
        order_is_transitive(shared, right, shared);
    }
    if a > b && precedes(left, right) {
        assert(parts_at(right, left, at));
        order_is_transitive(left, right, left);
        order_is_irreflexive(left);
    }
}

} // verus!
