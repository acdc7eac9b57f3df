use vstd::prelude::*;
use vstd::string::StrSliceExecFns;
use vstd::string::StringExecFns;

verus! {

/// Relies on `String::push`: appends one character at the end.
#[verifier::external_body]
pub(crate) fn push_char(s: &mut String, c: char)
    ensures
        final(s)@ == old(s)@.push(c),
{
    s.push(c)
}

/// `n` spaces.
pub open spec fn blank(n: nat) -> Seq<char> {
    Seq::new(n, |_i: int| ' ')
}

pub open spec fn digit_chars() -> Seq<char> {
    seq!['0', '1', '2', '3', '4', '5', '6', '7', '8', '9']
}

/// The decimal numeral of `n`, without leading zeros.
pub open spec fn decimal(n: nat) -> Seq<char>
    decreases n,
{
    if n < 10 {
        seq![digit_chars()[n as int]]
    } else {
        decimal(n / 10).push(digit_chars()[(n % 10) as int])
    }
}

/// `n` right-aligned in a field of two characters.
pub open spec fn number_field(n: nat) -> Seq<char> {
    if n < 10 {
        seq![' '] + decimal(n)
    } else {
        decimal(n)
    }
}

/// `text` cut or filled with spaces on the right to exactly `width` characters.
pub open spec fn fit(text: Seq<char>, width: nat) -> Seq<char> {
    if text.len() >= width {
        text.take(width as int)
    } else {
        text + blank((width - text.len()) as nat)
    }
}

/// The label of a list cell: the 1-based item number right-aligned in two
/// characters, `". "`, and the item's text fitted to `width`.
pub open spec fn cell_label(number: nat, text: Seq<char>, width: nat) -> Seq<char> {
    number_field(number) + seq!['.', ' '] + fit(text, width)
}

/// The character of decimal digit `d`.
pub fn digit_char(d: usize) -> (c: char)
    requires
        d < 10,
    ensures
        c == digit_chars()[d as int],
{
    match d {
        0 => '0',
        1 => '1',
        2 => '2',
        3 => '3',
        4 => '4',
        5 => '5',
        6 => '6',
        7 => '7',
        8 => '8',
        _ => '9',
    }
}

/// Append `n` spaces to `s`.
pub fn push_blank(s: &mut String, n: usize)
    ensures
        final(s)@ == old(s)@ + blank(n as nat),
{
    let ghost start = s@;
    let mut i: usize = 0;
    while i < n
        invariant
            i <= n,
            s@ == start + blank(i as nat),
        decreases n - i,
    {
        push_char(s, ' ');
        i = i + 1;
        assert(s@ =~= start + blank(i as nat));
    }
}

/// `n` spaces.
pub fn blank_string(n: usize) -> (r: String)
    ensures
        r@ == blank(n as nat),
{
    let mut s = String::new();
    push_blank(&mut s, n);
    assert(s@ =~= blank(n as nat));
    s
}

/// Append the decimal numeral of `n` to `s`.
pub fn push_decimal(s: &mut String, n: u64)
    ensures
        final(s)@ == old(s)@ + decimal(n as nat),
    decreases n,
{
    if n >= 10 {
        push_decimal(s, n / 10);
        push_char(s, digit_char((n % 10) as usize));
        assert(s@ =~= old(s)@ + decimal(n as nat));
    } else {
        push_char(s, digit_char(n as usize));
        assert(s@ =~= old(s)@ + decimal(n as nat));
    }
}

/// Append `text` fitted to `width` characters to `s`.
pub fn push_fitted(s: &mut String, text: &str, width: usize)
    ensures
        final(s)@ == old(s)@ + fit(text@, width as nat),
{
    let len = text.unicode_len();
    if len >= width {
        s.append(text.substring_char(0, width));
        assert(s@ =~= old(s)@ + fit(text@, width as nat));
    } else {
        s.append(text);
        push_blank(s, width - len);
        assert(s@ =~= old(s)@ + fit(text@, width as nat));
    }
}

/// The label of a list cell.
pub fn make_cell_label(number: usize, text: &str, width: usize) -> (r: String)
    ensures
        r@ == cell_label(number as nat, text@, width as nat),
{
    let mut s = String::new();
    if number < 10 {
        push_char(&mut s, ' ');
    }
    push_decimal(&mut s, number as u64);
    push_char(&mut s, '.');
    push_char(&mut s, ' ');
    push_fitted(&mut s, text, width);
    assert(s@ =~= cell_label(number as nat, text@, width as nat));
    s
}

/// Whether `c` has the Unicode `White_Space` property.
pub open spec fn is_white_space(c: char) -> bool {
    let u = c as int;
    ||| 0x09 <= u <= 0x0D
    ||| u == 0x20
    ||| u == 0x85
    ||| u == 0xA0
    ||| u == 0x1680
    ||| 0x2000 <= u <= 0x200A
    ||| u == 0x2028
    ||| u == 0x2029
    ||| u == 0x202F
    ||| u == 0x205F
    ||| u == 0x3000
}

/// `s` without the whitespace at its start.
pub open spec fn trim_start_of(s: Seq<char>) -> Seq<char>
    decreases s.len(),
{
    if s.len() > 0 && is_white_space(s[0]) {
        trim_start_of(s.drop_first())
    } else {
        s
    }
}

/// `s` without the whitespace at its end.
pub open spec fn trim_end_of(s: Seq<char>) -> Seq<char>
    decreases s.len(),
{
    if s.len() > 0 && is_white_space(s.last()) {
        trim_end_of(s.drop_last())
    } else {
        s
    }
}

/// `s` without the whitespace at its start and at its end.
pub open spec fn trim_of(s: Seq<char>) -> Seq<char> {
    trim_end_of(trim_start_of(s))
}

/// Relies on `str::trim`: `s` without leading and trailing whitespace, where
/// whitespace is the Unicode `White_Space` property.
#[verifier::external_body]
pub(crate) fn trim(s: &str) -> (r: &str)
    ensures
        r@ == trim_of(s@),
{
    s.trim()
}

/// `s` in lower case.
pub uninterp spec fn lower_of(s: Seq<char>) -> Seq<char>;

/// Relies on `str::to_lowercase`: the lowercase equivalent of `s`, character
/// by character (so an empty string stays empty).
#[verifier::external_body]
pub(crate) fn lowercase(s: &str) -> (r: String)
    ensures
        r@ == lower_of(s@),
        s@.len() == 0 ==> r@.len() == 0,
{
    s.to_lowercase()
}

/// Whether `a` and `b` hold the same characters.
pub fn same_text(a: &str, b: &str) -> (r: bool)
    ensures
        r == (a@ == b@),
{
    let n = a.unicode_len();
    if n != b.unicode_len() {
        return false;
    }
    let mut i: usize = 0;
    while i < n
        invariant
            n == a@.len() == b@.len(),
            i <= n,
            a@.take(i as int) == b@.take(i as int),
        decreases n - i,
    {
        if a.get_char(i) != b.get_char(i) {
            return false;
        }
        i = i + 1;
        assert(a@.take(i as int) =~= a@.take((i - 1) as int).push(a@[i - 1]));
        assert(b@.take(i as int) =~= b@.take((i - 1) as int).push(b@[i - 1]));
    }
    assert(a@ =~= a@.take(n as int));
    assert(b@ =~= b@.take(n as int));
    true
}

} // verus!
