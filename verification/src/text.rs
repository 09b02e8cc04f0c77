//! Text building blocks: decimal numbers, repeated characters, lines, and the order of strings.

use vstd::prelude::*;
use vstd::utf8;

verus! {

/// The character that writes the digit `d`.
pub open spec fn digit(d: nat) -> char {
    if d == 0 {
        '0'
    } else if d == 1 {
        '1'
    } else if d == 2 {
        '2'
    } else if d == 3 {
        '3'
    } else if d == 4 {
        '4'
    } else if d == 5 {
        '5'
    } else if d == 6 {
        '6'
    } else if d == 7 {
        '7'
    } else if d == 8 {
        '8'
    } else {
        '9'
    }
}

/// The decimal notation of `n`, without leading zeros.
pub open spec fn decimal(n: nat) -> Seq<char>
    decreases n,
{
    if n < 10 {
        seq![digit(n)]
    } else {
        decimal(n / 10).push(digit(n % 10))
    }
}

/// `piece` written `n` times in a row.
pub open spec fn repeat(piece: Seq<char>, n: nat) -> Seq<char>
    decreases n,
{
    if n == 0 {
        Seq::empty()
    } else {
        repeat(piece, (n - 1) as nat) + piece
    }
}

/// The characters of each line.
pub open spec fn texts(lines: Seq<String>) -> Seq<Seq<char>> {
    lines.map_values(|line: String| line@)
}

/// The words that stand for a yes-or-no answer.
pub open spec fn yes_no(b: bool) -> Seq<char> {
    if b {
        "yes"@
    } else {
        "no"@
    }
}

fn digit_text(d: u64) -> (r: &'static str)
    requires
        d < 10,
    ensures
        r@ == seq![digit(d as nat)],
{
    proof {
        reveal_strlit("0");
        reveal_strlit("1");
        reveal_strlit("2");
        reveal_strlit("3");
        reveal_strlit("4");
        reveal_strlit("5");
        reveal_strlit("6");
        reveal_strlit("7");
        reveal_strlit("8");
        reveal_strlit("9");
    }
    match d {
        0 => "0",
        1 => "1",
        2 => "2",
        3 => "3",
        4 => "4",
        5 => "5",
        6 => "6",
        7 => "7",
        8 => "8",
        _ => "9",
    }
}

/// Writes `n` in decimal.
pub fn decimal_text(n: u64) -> (r: String)
    ensures
        r@ == decimal(n as nat),
    decreases n,
{
    if n < 10 {
        digit_text(n).to_owned()
    } else {
        let mut text: String = decimal_text(n / 10);
        text.append(digit_text(n % 10));
        text
    }
}

/// Writes `piece` `n` times in a row.
pub fn repeat_text(piece: &str, n: usize) -> (r: String)
    ensures
        r@ == repeat(piece@, n as nat),
{
    let mut text: String = String::new();
    let mut i: usize = 0;
    while i < n
        invariant
            i <= n,
            text@ == repeat(piece@, i as nat),
        decreases n - i,
    {
        text.append(piece);
        i = i + 1;
    }
    text
}

/// The word for a yes-or-no answer.
pub fn yes_no_text(b: bool) -> (r: &'static str)
    ensures
        r@ == yes_no(b),
{
    if b {
        "yes"
    } else {
        "no"
    }
}

/// Appends a line with the given text.
pub fn push_text(lines: &mut Vec<String>, text: &str)
    ensures
        texts(final(lines)@) == texts(old(lines)@).push(text@),
{
    push_line(lines, text.to_owned());
}

/// Appends a line.
pub fn push_line(lines: &mut Vec<String>, line: String)
    ensures
        texts(final(lines)@) == texts(old(lines)@).push(line@),
{
    lines.push(line);
    proof {
        assert(texts(lines@) =~= texts(old(lines)@).push(line@));
    }
}

/// Appends a line that ends in a number: `label` followed by `n` in decimal.
pub fn push_count(lines: &mut Vec<String>, label: &str, n: usize)
    ensures
        texts(final(lines)@) == texts(old(lines)@).push(label@ + decimal(n as nat)),
{
    let mut line: String = label.to_owned();
    line.append(decimal_text(n as u64).as_str());
    push_line(lines, line);
}

/// Whether two byte strings are equal.
pub fn bytes_equal(a: &[u8], b: &[u8]) -> (r: bool)
    ensures
        r == (a@ == b@),
{
    if a.len() != b.len() {
        return false;
    }
    let mut i: usize = 0;
    while i < a.len()
        invariant
            a@.len() == b@.len(),
            i <= a@.len(),
            forall|j: int| 0 <= j < i ==> a@[j] == b@[j],
        decreases a@.len() - i,
    {
        if a[i] != b[i] {
            return false;
        }
        i = i + 1;
    }
    proof {
        assert(a@ =~= b@);
    }
    true
}

/// How one text stands to another in the order of strings.
#[derive(Clone, Copy, Debug, PartialEq, Eq, Structural)]
pub enum TextOrder {
    Before,
    Same,
    After,
}

/// Lexicographic order of byte strings: the first difference decides, and a proper prefix comes
/// before what it is a prefix of.
pub open spec fn bytes_before(a: Seq<u8>, b: Seq<u8>) -> bool {
    exists|k: int| #[trigger] differs_first_at(a, b, k)
}

/// `a` and `b` agree before index `k`, where `a` has ended or has the smaller byte.
pub open spec fn differs_first_at(a: Seq<u8>, b: Seq<u8>, k: int) -> bool {
    &&& 0 <= k <= a.len()
    &&& k < b.len()
    &&& forall|j: int| 0 <= j < k ==> a[j] == b[j]
    &&& k == a.len() || a[k] < b[k]
}

/// The order of strings: lexicographic by the bytes of their UTF-8 encoding.
pub open spec fn text_before(a: Seq<char>, b: Seq<char>) -> bool {
    bytes_before(utf8::encode_utf8(a), utf8::encode_utf8(b))
}

/// The order of strings is irreflexive.
pub proof fn text_before_irreflexive(a: Seq<char>)
    ensures
        !text_before(a, a),
{
}

/// The order of strings is transitive.
pub proof fn text_before_transitive(a: Seq<char>, b: Seq<char>, c: Seq<char>)
    requires
        text_before(a, b),
        text_before(b, c),
    ensures
        text_before(a, c),
{
    let x = utf8::encode_utf8(a);
    let y = utf8::encode_utf8(b);
    let z = utf8::encode_utf8(c);
    let i = choose|k: int| #[trigger] differs_first_at(x, y, k);
    let j = choose|k: int| #[trigger] differs_first_at(y, z, k);
    if i <= j {
        assert(differs_first_at(x, z, i));
    } else {
        assert(differs_first_at(x, z, j));
    }
}

/// Any two strings are the same or one comes before the other.
pub proof fn text_before_total(a: Seq<char>, b: Seq<char>)
    ensures
        a == b || text_before(a, b) || text_before(b, a),
{
    let x = utf8::encode_utf8(a);
    let y = utf8::encode_utf8(b);
    if !text_before(a, b) && !text_before(b, a) {
        bytes_agree(x, y, if x.len() <= y.len() { x.len() } else { y.len() });
        if x.len() < y.len() {
            assert(differs_first_at(x, y, x.len() as int));
        }
        if y.len() < x.len() {
            assert(differs_first_at(y, x, y.len() as int));
        }
        assert(x =~= y);
        same_encoding_same_text(a, b);
    }
}

proof fn bytes_agree(x: Seq<u8>, y: Seq<u8>, n: nat)
    requires
        !bytes_before(x, y),
        !bytes_before(y, x),
        n <= x.len(),
        n <= y.len(),
    ensures
        forall|j: int| 0 <= j < n ==> x[j] == y[j],
    decreases n,
{
    if n > 0 {
        bytes_agree(x, y, (n - 1) as nat);
        let k = n - 1;
        if x[k] < y[k] {
            assert(differs_first_at(x, y, k));
        }
        if y[k] < x[k] {
            assert(differs_first_at(y, x, k));
        }
    }
}

proof fn same_encoding_same_text(a: Seq<char>, b: Seq<char>)
    requires
        utf8::encode_utf8(a) == utf8::encode_utf8(b),
    ensures
        a == b,
{
    broadcast use utf8::encode_utf8_decode_utf8;

    assert(utf8::decode_utf8(utf8::encode_utf8(a)) == a);
    assert(utf8::decode_utf8(utf8::encode_utf8(b)) == b);
}

/// Compares two texts in the order of strings.
pub fn text_order(a: &str, b: &str) -> (r: TextOrder)
    ensures
        r == TextOrder::Same <==> a@ == b@,
        r == TextOrder::Before <==> text_before(a@, b@),
        r == TextOrder::After <==> text_before(b@, a@),
{
    let x = a.as_bytes();
    let y = b.as_bytes();
    let mut i: usize = 0;
    while i < x.len() && i < y.len() && x[i] == y[i]
        invariant
            i <= x@.len(),
            i <= y@.len(),
            forall|j: int| 0 <= j < i ==> x@[j] == y@[j],
        decreases x@.len() - i,
    {
        i = i + 1;
    }
    proof {
        text_before_irreflexive(a@);
        if text_before(a@, b@) && text_before(b@, a@) {
            text_before_transitive(a@, b@, a@);
        }
    }
    if i < x.len() && (i >= y.len() || y[i] < x[i]) {
        proof {
            assert(differs_first_at(y@, x@, i as int));
        }
        TextOrder::After
    } else if i < y.len() {
        proof {
            assert(differs_first_at(x@, y@, i as int));
        }
        TextOrder::Before
    } else {
        proof {
            assert(x@ =~= y@);
            same_encoding_same_text(a@, b@);
        }
        TextOrder::Same
    }
}

/// Whether two texts are the same.
pub fn same_text(a: &str, b: &str) -> (r: bool)
    ensures
        r == (a@ == b@),
{
    match text_order(a, b) {
        TextOrder::Same => true,
        _ => false,
    }
}

/// The number that a row of digits stands for.
pub open spec fn value_of(digits: Seq<char>) -> int
    decreases digits.len(),
{
    if digits.len() == 0 {
        0
    } else {
        10 * value_of(digits.drop_last()) + (digits.last() as int - '0' as int)
    }
}

proof fn decimal_stands_for_the_number(n: nat)
    ensures
        value_of(decimal(n)) == n,
        decimal(n).len() > 0,
        forall|i: int| 0 <= i < decimal(n).len() ==> '0' <= #[trigger] decimal(n)[i] <= '9',
        decimal(n).len() > 1 ==> decimal(n)[0] != '0',
    decreases n,
{
    reveal_with_fuel(value_of, 2);
    if n >= 10 {
        decimal_stands_for_the_number(n / 10);
        let front = decimal(n / 10);
        assert(decimal(n).drop_last() =~= front);
        assert(decimal(n)[0] == front[0]);
        if front.len() == 1 {
            assert(front.drop_last() =~= Seq::<char>::empty());
            assert(value_of(front) == front[0] as int - '0' as int);
        }
    } else {
        assert(decimal(n).drop_last() =~= Seq::<char>::empty());
    }
}

/// A number is written in digits that stand for it, without leading zeros.
pub proof fn numbers_read_back(n: u64, r: String)
    requires
        call_ensures(decimal_text, (n,), r),
    ensures
        value_of(r@) == n,
        r@.len() > 0,
        forall|i: int| 0 <= i < r@.len() ==> '0' <= #[trigger] r@[i] <= '9',
        r@.len() > 1 ==> r@[0] != '0',
{
    decimal_stands_for_the_number(n as nat);
}

proof fn repeat_is_the_piece(piece: Seq<char>, n: nat, i: int)
    requires
        piece.len() == 1,
    ensures
        repeat(piece, n).len() == n,
        0 <= i < n ==> repeat(piece, n)[i] == piece[0],
    decreases n,
{
    if n > 0 {
        repeat_is_the_piece(piece, (n - 1) as nat, i);
    }
}

/// A character that is written a number of times stands there as often, and nothing else does.
pub proof fn repetitions_are_counted(piece: &str, n: usize, r: String, i: int)
    requires
        call_ensures(repeat_text, (piece, n), r),
        piece@.len() == 1,
    ensures
        r@.len() == n,
        0 <= i < n ==> r@[i] == piece@[0],
{
    repeat_is_the_piece(piece@, n as nat, i);
}

/// Texts are in the order of their bytes: the first byte in which they differ decides, and a text
/// comes before those that it is the beginning of.
pub proof fn texts_are_ordered_by_their_bytes(a: &str, b: &str, r: TextOrder, i: int)
    requires
        call_ensures(text_order, (a, b), r),
        0 <= i <= utf8::encode_utf8(a@).len(),
        i <= utf8::encode_utf8(b@).len(),
        forall|j: int|
            0 <= j < i ==> #[trigger] utf8::encode_utf8(a@)[j] == utf8::encode_utf8(b@)[j],
    ensures
        i < utf8::encode_utf8(a@).len() && i < utf8::encode_utf8(b@).len() && utf8::encode_utf8(
            a@,
        )[i] < utf8::encode_utf8(b@)[i] ==> r is Before,
        i < utf8::encode_utf8(a@).len() && i < utf8::encode_utf8(b@).len() && utf8::encode_utf8(
            a@,
        )[i] > utf8::encode_utf8(b@)[i] ==> r is After,
        i == utf8::encode_utf8(a@).len() && i < utf8::encode_utf8(b@).len() ==> r is Before,
        i < utf8::encode_utf8(a@).len() && i == utf8::encode_utf8(b@).len() ==> r is After,
        i == utf8::encode_utf8(a@).len() && i == utf8::encode_utf8(b@).len() ==> r is Same,
{
    let x = utf8::encode_utf8(a@);
    let y = utf8::encode_utf8(b@);
    if i < y.len() && (i == x.len() || x[i] < y[i]) {
        assert(differs_first_at(x, y, i));
    } else if i < x.len() && (i == y.len() || y[i] < x[i]) {
        assert(differs_first_at(y, x, i));
    } else if i == x.len() && i == y.len() {
        assert(x =~= y);
        same_encoding_same_text(a@, b@);
    }
}

} // verus!
