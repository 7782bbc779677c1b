//! Text handling: splitting a list on a separator, trimming white space,
//! folding case, and writing a number in decimal.
use vstd::prelude::*;

verus! {

/// Whether Unicode counts `c` as white space: the characters with the
/// property `White_Space`.
pub open spec fn white_space(c: char) -> bool {
    let code = c as u32;
    ||| 0x09 <= code <= 0x0d
    ||| code == 0x20
    ||| code == 0x85
    ||| code == 0xa0
    ||| code == 0x1680
    ||| 0x2000 <= code <= 0x200a
    ||| code == 0x2028
    ||| code == 0x2029
    ||| code == 0x202f
    ||| code == 0x205f
    ||| code == 0x3000
}

/// The lowercase form that Unicode gives a text.
pub uninterp spec fn lowercase_text(text: Seq<char>) -> Seq<char>;

/// Whether Unicode counts `c` as white space.
pub fn is_whitespace(c: char) -> (r: bool)
    ensures
        r == white_space(c),
{
    let code = c as u32;
    (0x09 <= code && code <= 0x0d) || code == 0x20 || code == 0x85 || code == 0xa0 || code
        == 0x1680 || (0x2000 <= code && code <= 0x200a) || code == 0x2028 || code == 0x2029
        || code == 0x202f || code == 0x205f || code == 0x3000
}

/// `str::to_lowercase`: the result depends on the text alone and is its
/// Unicode lowercase form, here named `lowercase_text`.
#[verifier::external_body]
pub(crate) fn to_lowercase(text: &str) -> (r: String)
    ensures
        r@ == lowercase_text(text@),
{
    text.to_lowercase()
}

/// The characters of a text, in order.
pub fn chars_of(text: &str) -> (chars: Vec<char>)
    ensures
        chars@ == text@,
{
    let mut chars: Vec<char> = Vec::new();
    for c in it: text.chars()
        invariant
            chars@ == it.seq().take(it.index() as int),
            it.seq() == text@,
    {
        chars.push(c);
    }
    chars
}

/// The text without the white space at its start.
pub open spec fn trim_start(text: Seq<char>) -> Seq<char>
    decreases text.len(),
{
    if text.len() > 0 && white_space(text[0]) {
        trim_start(text.drop_first())
    } else {
        text
    }
}

/// The text without the white space at its end.
pub open spec fn trim_end(text: Seq<char>) -> Seq<char>
    decreases text.len(),
{
    if text.len() > 0 && white_space(text.last()) {
        trim_end(text.drop_last())
    } else {
        text
    }
}

/// The text without the white space at either end.
pub open spec fn trimmed(text: Seq<char>) -> Seq<char> {
    trim_end(trim_start(text))
}

/// The position of the first `separator` in `text`, or the length of `text`
/// where it holds none.
pub open spec fn first_index_of(text: Seq<char>, separator: char) -> int
    decreases text.len(),
{
    if text.len() == 0 || text[0] == separator {
        0
    } else {
        1 + first_index_of(text.drop_first(), separator)
    }
}

/// The pieces of `text` between its separators, in order. A text without a
/// separator is one piece, and so is the empty text.
pub open spec fn split_on(text: Seq<char>, separator: char) -> Seq<Seq<char>>
    decreases text.len(),
{
    let cut = first_index_of(text, separator);
    if 0 <= cut < text.len() {
        seq![text.take(cut)] + split_on(text.skip(cut + 1), separator)
    } else {
        seq![text]
    }
}

/// The pieces of `text` between its separators, each one trimmed.
pub open spec fn split_trimmed(text: Seq<char>, separator: char) -> Seq<Seq<char>> {
    split_on(text, separator).map_values(|piece: Seq<char>| trimmed(piece))
}

/// The first separator stands where a scan from the left first meets one.
pub proof fn lemma_first_index_of(text: Seq<char>, separator: char, cut: int)
    requires
        0 <= cut <= text.len(),
        forall|k: int| 0 <= k < cut ==> text[k] != separator,
        cut < text.len() ==> text[cut] == separator,
    ensures
        first_index_of(text, separator) == cut,
    decreases text.len(),
{
    if text.len() == 0 || text[0] == separator {
    } else {
        let rest = text.drop_first();
        assert forall|k: int| 0 <= k < cut - 1 implies rest[k] != separator by {
            assert(rest[k] == text[k + 1]);
        }
        lemma_first_index_of(rest, separator, cut - 1);
    }
}

/// Trimming the start of a range skips its leading white space one
/// character at a time.
proof fn lemma_trim_start_step(text: Seq<char>, from: int, to: int)
    requires
        0 <= from < to <= text.len(),
        white_space(text[from]),
    ensures
        trim_start(text.subrange(from, to)) == trim_start(text.subrange(from + 1, to)),
{
    assert(text.subrange(from, to).drop_first() =~= text.subrange(from + 1, to));
}

/// Trimming the end of a range drops its trailing white space one
/// character at a time.
proof fn lemma_trim_end_step(text: Seq<char>, from: int, to: int)
    requires
        0 <= from < to <= text.len(),
        white_space(text[to - 1]),
    ensures
        trim_end(text.subrange(from, to)) == trim_end(text.subrange(from, to - 1)),
{
    assert(text.subrange(from, to).drop_last() =~= text.subrange(from, to - 1));
}

/// The bounds of what trimming leaves of `chars[from..to]`.
pub fn trim_bounds(chars: &Vec<char>, from: usize, to: usize) -> (bounds: (usize, usize))
    requires
        from <= to <= chars.len(),
    ensures
        from <= bounds.0 <= bounds.1 <= to,
        chars@.subrange(bounds.0 as int, bounds.1 as int) == trimmed(
            chars@.subrange(from as int, to as int),
        ),
{
    let mut start: usize = from;
    while start < to && is_whitespace(chars[start])
        invariant
            from <= start <= to <= chars.len(),
            trim_start(chars@.subrange(from as int, to as int)) == trim_start(
                chars@.subrange(start as int, to as int),
            ),
        decreases to - start,
    {
        proof {
            lemma_trim_start_step(chars@, start as int, to as int);
        }
        start += 1;
    }
    let mut end: usize = to;
    while end > start && is_whitespace(chars[end - 1])
        invariant
            start <= end <= to <= chars.len(),
            trim_end(chars@.subrange(start as int, to as int)) == trim_end(
                chars@.subrange(start as int, end as int),
            ),
        decreases end - start,
    {
        proof {
            lemma_trim_end_step(chars@, start as int, end as int);
        }
        end -= 1;
    }
    (start, end)
}

/// What a list of strings holds, as texts.
pub open spec fn texts(strings: Seq<String>) -> Seq<Seq<char>> {
    strings.map_values(|s: String| s@)
}

/// A text with a separator at `cut`, and none before it, splits into what
/// stands before `cut` and the pieces of what follows it.
proof fn lemma_split_at_separator(text: Seq<char>, separator: char, start: int, cut: int)
    requires
        0 <= start <= cut < text.len(),
        forall|k: int| start <= k < cut ==> text[k] != separator,
        text[cut] == separator,
    ensures
        split_trimmed(text.skip(start), separator) == seq![
            trimmed(text.subrange(start, cut)),
        ] + split_trimmed(text.skip(cut + 1), separator),
{
    let tail = text.skip(start);
    lemma_first_index_of(tail, separator, cut - start);
    assert(tail.take(cut - start) =~= text.subrange(start, cut));
    assert(tail.skip(cut - start + 1) =~= text.skip(cut + 1));
    let trim = |piece: Seq<char>| trimmed(piece);
    let head = seq![text.subrange(start, cut)];
    let rest = split_on(text.skip(cut + 1), separator);
    assert(split_on(tail, separator) == head + rest);
    assert((head + rest).map_values(trim) =~= head.map_values(trim) + rest.map_values(trim));
    assert(head.map_values(trim) =~= seq![trimmed(text.subrange(start, cut))]);
}

/// A text without a separator is a single piece.
proof fn lemma_split_without_separator(text: Seq<char>, separator: char, start: int)
    requires
        0 <= start <= text.len(),
        forall|k: int| start <= k < text.len() ==> text[k] != separator,
    ensures
        split_trimmed(text.skip(start), separator) == seq![
            trimmed(text.subrange(start, text.len() as int)),
        ],
{
    let tail = text.skip(start);
    lemma_first_index_of(tail, separator, tail.len() as int);
    assert(tail =~= text.subrange(start, text.len() as int));
    let trim = |piece: Seq<char>| trimmed(piece);
    assert(seq![tail].map_values(trim) =~= seq![trimmed(tail)]);
}

/// Splits `text` on `separator` and trims each piece.
pub fn split_and_trim(text: &str, separator: char) -> (pieces: Vec<String>)
    ensures
        texts(pieces@) == split_trimmed(text@, separator),
{
    let chars = chars_of(text);
    let n = chars.len();
    let mut pieces: Vec<String> = Vec::new();
    let mut start: usize = 0;
    let mut i: usize = 0;
    assert(text@.skip(0) =~= text@);
    assert(texts(pieces@) =~= Seq::<Seq<char>>::empty());
    while i < n
        invariant
            start <= i <= n,
            n == chars.len(),
            chars@ == text@,
            forall|k: int| start <= k < i ==> chars@[k] != separator,
            split_trimmed(text@, separator) == texts(pieces@) + split_trimmed(
                text@.skip(start as int),
                separator,
            ),
        decreases n - i,
    {
        if chars[i] == separator {
            let bounds = trim_bounds(&chars, start, i);
            let piece = text.substring_char(bounds.0, bounds.1).to_owned();
            proof {
                lemma_split_at_separator(text@, separator, start as int, i as int);
                assert(texts(pieces@.push(piece)) =~= texts(pieces@) + seq![piece@]);
            }
            pieces.push(piece);
            start = i + 1;
        }
        i += 1;
    }
    let bounds = trim_bounds(&chars, start, n);
    let piece = text.substring_char(bounds.0, bounds.1).to_owned();
    proof {
        lemma_split_without_separator(text@, separator, start as int);
        assert(texts(pieces@.push(piece)) =~= texts(pieces@) + seq![piece@]);
    }
    pieces.push(piece);
    pieces
}

/// The lowercase form of each string, in the same order.
pub fn lowercase_all(strings: &Vec<String>) -> (lowered: Vec<String>)
    ensures
        texts(lowered@) == texts(strings@).map_values(|t: Seq<char>| lowercase_text(t)),
{
    let mut lowered: Vec<String> = Vec::new();
    let mut i: usize = 0;
    while i < strings.len()
        invariant
            i <= strings.len(),
            lowered.len() == i,
            forall|k: int| 0 <= k < i ==> lowered@[k]@ == lowercase_text(strings@[k]@),
        decreases strings.len() - i,
    {
        lowered.push(to_lowercase(strings[i].as_str()));
        i += 1;
    }
    assert(texts(lowered@) =~= texts(strings@).map_values(|t: Seq<char>| lowercase_text(t)));
    lowered
}

/// Whether some text of `wanted` is also one of `offered`.
pub open spec fn share_a_text(wanted: Seq<Seq<char>>, offered: Seq<Seq<char>>) -> bool {
    exists|i: int, j: int|
        0 <= i < wanted.len() && 0 <= j < offered.len() && wanted[i] == offered[j]
}

/// Whether some string of `wanted` equals one of `offered`.
pub fn any_shared(wanted: &Vec<String>, offered: &Vec<String>) -> (found: bool)
    ensures
        found == share_a_text(texts(wanted@), texts(offered@)),
{
    let mut i: usize = 0;
    while i < wanted.len()
        invariant
            i <= wanted.len(),
            forall|a: int, b: int|
                0 <= a < i && 0 <= b < offered.len() ==> wanted@[a]@ != offered@[b]@,
        decreases wanted.len() - i,
    {
        let mut j: usize = 0;
        while j < offered.len()
            invariant
                i < wanted.len(),
                j <= offered.len(),
                forall|a: int, b: int|
                    0 <= a < i && 0 <= b < offered.len() ==> wanted@[a]@ != offered@[b]@,
                forall|b: int| 0 <= b < j ==> wanted@[i as int]@ != offered@[b]@,
            decreases offered.len() - j,
        {
            if wanted[i] == offered[j] {
                assert(texts(wanted@)[i as int] == texts(offered@)[j as int]);
                return true;
            }
            j += 1;
        }
        i += 1;
    }
    assert forall|a: int, b: int|
        0 <= a < texts(wanted@).len() && 0 <= b < texts(offered@).len() implies texts(wanted@)[a]
        != texts(offered@)[b] by {
        assert(wanted@[a]@ != offered@[b]@);
    }
    false
}

/// The character of a decimal digit.
pub open spec fn digit_char(d: int) -> char {
    if d == 0 {
        '0'
    } else if d == 1 {
        '1'
    } else if d == 2 {
        '2'
    } else if d == 3 {
        '3'
    } else if d == 4 {
        '4'
    } else if d == 5 {
        '5'
    } else if d == 6 {
        '6'
    } else if d == 7 {
        '7'
    } else if d == 8 {
        '8'
    } else {
        '9'
    }
}

/// The decimal digits of a number, without leading zeros.
pub open spec fn decimal_digits(n: nat) -> Seq<char>
    decreases n,
{
    if n < 10 {
        seq![digit_char(n as int)]
    } else {
        decimal_digits(n / 10).push(digit_char((n % 10) as int))
    }
}

/// A number written in decimal: its digits, after a minus sign where it is
/// negative.
pub open spec fn decimal_text(i: int) -> Seq<char> {
    if i < 0 {
        seq!['-'] + decimal_digits((-i) as nat)
    } else {
        decimal_digits(i as nat)
    }
}

/// Different digits have different characters.
pub proof fn lemma_digit_char_is_injective(a: int, b: int)
    requires
        0 <= a < 10,
        0 <= b < 10,
        digit_char(a) == digit_char(b),
    ensures
        a == b,
{
}

/// The digits of a number are digits: none of them is a minus sign. Only
/// numbers below ten have a single digit.
pub proof fn lemma_decimal_digits_shape(n: nat)
    ensures
        decimal_digits(n).len() >= 1,
        decimal_digits(n).len() == 1 <==> n < 10,
        forall|k: int| 0 <= k < decimal_digits(n).len() ==> decimal_digits(n)[k] != '-',
    decreases n,
{
    if n >= 10 {
        lemma_decimal_digits_shape(n / 10);
    }
}

/// Different numbers have different digits.
pub proof fn lemma_decimal_digits_is_injective(a: nat, b: nat)
    requires
        decimal_digits(a) == decimal_digits(b),
    ensures
        a == b,
    decreases a,
{
    lemma_decimal_digits_shape(a);
    lemma_decimal_digits_shape(b);
    if a < 10 {
        assert(decimal_digits(a)[0] == digit_char(a as int));
        assert(decimal_digits(b)[0] == digit_char(b as int));
        lemma_digit_char_is_injective(a as int, b as int);
    } else {
        let front_a = decimal_digits(a / 10);
        let front_b = decimal_digits(b / 10);
        assert(decimal_digits(a).last() == digit_char((a % 10) as int));
        assert(decimal_digits(b).last() == digit_char((b % 10) as int));
        lemma_digit_char_is_injective((a % 10) as int, (b % 10) as int);
        assert(decimal_digits(a).drop_last() =~= front_a);
        assert(decimal_digits(b).drop_last() =~= front_b);
        lemma_decimal_digits_is_injective(a / 10, b / 10);
    }
}

/// Different numbers are written differently: a text is the decimal form of
/// one number at most.
pub proof fn lemma_decimal_text_is_injective(a: int, b: int)
    requires
        decimal_text(a) == decimal_text(b),
    ensures
        a == b,
{
    let digits_a = decimal_digits((if a < 0 { -a } else { a }) as nat);
    let digits_b = decimal_digits((if b < 0 { -b } else { b }) as nat);
    lemma_decimal_digits_shape((if a < 0 { -a } else { a }) as nat);
    lemma_decimal_digits_shape((if b < 0 { -b } else { b }) as nat);
    if a < 0 && b < 0 {
        assert((seq!['-'] + digits_a).skip(1) =~= digits_a);
        assert((seq!['-'] + digits_b).skip(1) =~= digits_b);
        lemma_decimal_digits_is_injective((-a) as nat, (-b) as nat);
    } else if a >= 0 && b >= 0 {
        lemma_decimal_digits_is_injective(a as nat, b as nat);
    } else if a < 0 {
        assert(decimal_text(a)[0] == '-');
        assert(decimal_text(b)[0] == digits_b[0]);
    } else {
        assert(decimal_text(b)[0] == '-');
        assert(decimal_text(a)[0] == digits_a[0]);
    }
}

/// The character of a decimal digit.
pub fn digit(d: u8) -> (c: char)
    requires
        d < 10,
    ensures
        c == digit_char(d as int),
{
    match d {
        0 => '0',
        1 => '1',
        2 => '2',
        3 => '3',
        4 => '4',
        5 => '5',
        6 => '6',
        7 => '7',
        8 => '8',
        _ => '9',
    }
}

/// A number written in decimal.
pub fn decimal_chars(number: i32) -> (chars: Vec<char>)
    ensures
        chars@ == decimal_text(number as int),
{
    let negative = number < 0;
    let size: u32 = if negative {
        (-(number as i64)) as u32
    } else {
        number as u32
    };
    let mut chars: Vec<char> = Vec::new();
    chars.push(digit((size % 10) as u8));
    let mut rest: u32 = size / 10;
    assert(decimal_digits(size as nat) == (if rest > 0 {
        decimal_digits(rest as nat)
    } else {
        Seq::<char>::empty()
    }) + chars@) by {
        if size >= 10 {
            assert(decimal_digits(rest as nat).push(digit_char((size % 10) as int))
                =~= decimal_digits(rest as nat) + chars@);
        } else {
            assert(Seq::<char>::empty() + chars@ =~= chars@);
        }
    }
    while rest > 0
        invariant
            decimal_digits(size as nat) == (if rest > 0 {
                decimal_digits(rest as nat)
            } else {
                Seq::<char>::empty()
            }) + chars@,
        decreases rest,
    {
        let ghost before = chars@;
        let ghost old_rest = rest;
        chars.insert(0, digit((rest % 10) as u8));
        rest = rest / 10;
        proof {
            let d = digit_char((old_rest % 10) as int);
            assert(chars@ =~= seq![d] + before);
            if old_rest >= 10 {
                assert(decimal_digits(old_rest as nat) + before =~= decimal_digits(rest as nat)
                    + chars@);
            } else {
                assert(decimal_digits(old_rest as nat) + before =~= Seq::<char>::empty()
                    + chars@);
            }
        }
    }
    assert(Seq::<char>::empty() + chars@ =~= chars@);
    if negative {
        chars.insert(0, '-');
        assert(chars@ =~= seq!['-'] + decimal_digits(size as nat));
    }
    chars
}

/// Whether two lists hold the same characters in the same order.
pub fn same_chars(a: &Vec<char>, b: &Vec<char>) -> (same: bool)
    ensures
        same == (a@ == b@),
{
    if a.len() != b.len() {
        return false;
    }
    let mut i: usize = 0;
    while i < a.len()
        invariant
            i <= a.len(),
            a.len() == b.len(),
            forall|k: int| 0 <= k < i ==> a@[k] == b@[k],
        decreases a.len() - i,
    {
        if a[i] != b[i] {
            return false;
        }
        i += 1;
    }
    assert(a@ =~= b@);
    true
}

} // verus!
