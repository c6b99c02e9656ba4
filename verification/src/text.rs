//! Character-level string helpers used by the formatters.

use vstd::prelude::*;
use vstd::utf8::*;
use crate::decimal::digits;

verus! {

/// Unicode `White_Space` property, the definition `str::trim` uses.
pub open spec fn is_white_space(c: char) -> bool {
    let u = c as u32;
    ||| 0x09 <= u <= 0x0D
    ||| u == 0x20
    ||| u == 0x85
    ||| u == 0xA0
    ||| u == 0x1680
    ||| 0x2000 <= u <= 0x200A
    ||| u == 0x2028
    ||| u == 0x2029
    ||| u == 0x202F
    ||| u == 0x205F
    ||| u == 0x3000
}

/// `s` without its leading white space.
pub open spec fn trim_start_spec(s: Seq<char>) -> Seq<char>
    decreases s.len(),
{
    if s.len() > 0 && is_white_space(s[0]) {
        trim_start_spec(s.drop_first())
    } else {
        s
    }
}

/// `s` without its trailing white space.
pub open spec fn trim_end_spec(s: Seq<char>) -> Seq<char>
    decreases s.len(),
{
    if s.len() > 0 && is_white_space(s.last()) {
        trim_end_spec(s.drop_last())
    } else {
        s
    }
}

/// `s` without leading and trailing white space.
pub open spec fn trim_spec(s: Seq<char>) -> Seq<char> {
    trim_end_spec(trim_start_spec(s))
}

/// Whether `c` is white space.
pub fn is_white_space_char(c: char) -> (r: bool)
    ensures
        r == is_white_space(c),
{
    let u = c as u32;
    (0x09 <= u && u <= 0x0D) || u == 0x20 || u == 0x85 || u == 0xA0 || u == 0x1680 || (0x2000
        <= u && u <= 0x200A) || u == 0x2028 || u == 0x2029 || u == 0x202F || u == 0x205F || u
        == 0x3000
}

/// Appends one character to a string (`String::push`).
#[verifier::external_body]
pub(crate) fn push_char(s: &mut String, c: char)
    ensures
        final(s)@ == old(s)@.push(c),
{
    s.push(c);
}

proof fn lemma_trim_start_skip(s: Seq<char>, i: int)
    requires
        0 <= i <= s.len(),
        forall|k: int| 0 <= k < i ==> is_white_space(#[trigger] s[k]),
    ensures
        trim_start_spec(s) == trim_start_spec(s.subrange(i, s.len() as int)),
    decreases i,
{
    if i > 0 {
        assert(s.drop_first() =~= s.subrange(1, s.len() as int));
        let t = s.drop_first();
        assert forall|k: int| 0 <= k < i - 1 implies is_white_space(#[trigger] t[k]) by {
            assert(t[k] == s[k + 1]);
        }
        lemma_trim_start_skip(t, i - 1);
        assert(t.subrange(i - 1, t.len() as int) =~= s.subrange(i, s.len() as int));
    } else {
        assert(s.subrange(0, s.len() as int) =~= s);
    }
}

proof fn lemma_trim_end_skip(s: Seq<char>, j: int)
    requires
        0 <= j <= s.len(),
        forall|k: int| j <= k < s.len() ==> is_white_space(#[trigger] s[k]),
    ensures
        trim_end_spec(s) == trim_end_spec(s.subrange(0, j)),
    decreases s.len() - j,
{
    if j < s.len() {
        let t = s.drop_last();
        assert forall|k: int| j <= k < t.len() implies is_white_space(#[trigger] t[k]) by {
            assert(t[k] == s[k]);
        }
        lemma_trim_end_skip(t, j);
        assert(t.subrange(0, j) =~= s.subrange(0, j));
    } else {
        assert(s.subrange(0, j) =~= s);
    }
}

/// Removes leading and trailing white space (`str::trim`).
pub fn trim(s: &str) -> (r: String)
    ensures
        r@ == trim_spec(s@),
{
    let n = s.unicode_len();
    let mut i: usize = 0;
    while i < n && is_white_space_char(s.get_char(i))
        invariant
            n == s@.len(),
            i <= n,
            forall|k: int| 0 <= k < i ==> is_white_space(#[trigger] s@[k]),
        decreases n - i,
    {
        i = i + 1;
    }
    proof {
        lemma_trim_start_skip(s@, i as int);
    }
    let ghost rest = s@.subrange(i as int, n as int);
    assert(i < n ==> !is_white_space(rest[0]));
    assert(trim_start_spec(rest) == rest);
    let mut j: usize = n;
    while j > i && is_white_space_char(s.get_char(j - 1))
        invariant
            n == s@.len(),
            i <= j <= n,
            forall|k: int| j <= k < n ==> is_white_space(#[trigger] s@[k]),
        decreases j,
    {
        j = j - 1;
    }
    proof {
        let r = s@.subrange(i as int, n as int);
        assert forall|k: int| j - i <= k < r.len() implies is_white_space(#[trigger] r[k]) by {
            assert(r[k] == s@[k + i]);
        }
        lemma_trim_end_skip(r, j - i);
        assert(r.subrange(0, j - i) =~= s@.subrange(i as int, j as int));
        let u = s@.subrange(i as int, j as int);
        assert(u.len() > 0 ==> u.last() == s@[j - 1]);
    }
    let sub = s.substring_char(i, j);
    String::from_str(sub)
}


/// Whether byte offset `index` of the UTF-8 encoding of `s` starts a character.
pub open spec fn is_char_boundary_at(s: Seq<char>, index: nat) -> bool {
    is_char_boundary(encode_utf8(s), index as int)
}

/// Number of bytes of the UTF-8 encoding of `s` (what `str::len` returns).
pub open spec fn byte_len(s: Seq<char>) -> nat {
    encode_utf8(s).len()
}

/// `n` spaces.
pub open spec fn spaces(n: nat) -> Seq<char> {
    Seq::new(n, |i: int| ' ')
}

/// `s` padded on the right with spaces to at least `width` characters.
pub open spec fn pad_right(s: Seq<char>, width: nat) -> Seq<char> {
    if s.len() < width {
        s + spaces((width - s.len()) as nat)
    } else {
        s
    }
}

/// `a - b`, or 0 when `b > a`.
pub open spec fn saturating_sub(a: nat, b: nat) -> nat {
    if a >= b {
        (a - b) as nat
    } else {
        0
    }
}

/// Where a string longer than `max_len` bytes is cut: three bytes before the
/// limit, leaving room for the ellipsis.
pub open spec fn truncate_cut(max_len: nat) -> nat {
    saturating_sub(max_len, 3)
}

/// A string that fits in `max_len` bytes padded to `max_len` characters;
/// a longer one cut at `max_len - 3` bytes and ended with `...`.
pub open spec fn truncate_spec(s: Seq<char>, max_len: nat) -> Seq<char> {
    if byte_len(s) <= max_len {
        pad_right(s, max_len)
    } else {
        decode_utf8(encode_utf8(s).subrange(0, truncate_cut(max_len) as int)) + seq!['.', '.', '.']
    }
}

/// Number of bytes `c` takes in UTF-8.
pub open spec fn char_byte_len(c: char) -> nat {
    encode_scalar(c as u32).len()
}

fn char_width(c: char) -> (r: usize)
    ensures
        r == char_byte_len(c),
{
    let v = c as u32;
    if v <= 0x7F {
        1
    } else if v <= 0x7FF {
        2
    } else if v <= 0xFFFF {
        proof {
            assert(is_scalar(c as u32));
        }
        3
    } else {
        4
    }
}

/// Whether the UTF-8 encoding of `s` takes more than `limit` bytes.
pub fn byte_len_exceeds(s: &str, limit: usize) -> (r: bool)
    ensures
        r == (byte_len(s@) > limit),
{
    let n = s.unicode_len();
    let mut acc: usize = 0;
    let mut i: usize = 0;
    assert(s@.subrange(0, n as int) =~= s@);
    while i < n
        invariant
            n == s@.len(),
            i <= n,
            acc <= limit,
            acc + byte_len(s@.subrange(i as int, n as int)) == byte_len(s@),
        decreases n - i,
    {
        let c = s.get_char(i);
        let w = char_width(c);
        proof {
            let rest = s@.subrange(i as int, n as int);
            assert(rest[0] == c);
            assert(rest.drop_first() =~= s@.subrange(i + 1, n as int));
        }
        if w > limit - acc {
            return true;
        }
        acc = acc + w;
        i = i + 1;
    }
    assert(s@.subrange(n as int, n as int) =~= Seq::<char>::empty());
    false
}

/// Each character takes at least one byte.
pub proof fn lemma_chars_le_bytes(s: Seq<char>)
    ensures
        s.len() <= byte_len(s),
    decreases s.len(),
{
    if s.len() > 0 {
        lemma_chars_le_bytes(s.drop_first());
    }
}

/// An ASCII text always fills a column exactly: whatever its length, the
/// padded or shortened text has `max_len` characters.
pub proof fn lemma_truncate_ascii_width(s: Seq<char>, max_len: nat)
    requires
        is_ascii_chars(s),
        max_len >= 3,
    ensures
        truncate_spec(s, max_len).len() == max_len,
{
    is_ascii_chars_encode_utf8(s);
    if byte_len(s) > max_len {
        let k = truncate_cut(max_len) as int;
        let head = s.subrange(0, k);
        assert(is_ascii_chars(head));
        is_ascii_chars_encode_utf8(head);
        assert(encode_utf8(s).subrange(0, k) =~= encode_utf8(head)) by {
            assert forall|i: int| 0 <= i < k implies #[trigger] encode_utf8(s).subrange(0, k)[i] == encode_utf8(head)[i] by {
                assert(head[i] == s[i]);
            }
        }
        encode_utf8_decode_utf8(head);
    }
}

/// Pads or shortens `s` to fit a table column of `max_len` bytes.
pub fn truncate(s: &str, max_len: usize) -> (r: String)
    requires
        byte_len(s@) <= usize::MAX,
        byte_len(s@) > max_len ==> is_char_boundary_at(s@, truncate_cut(max_len as nat)),
    ensures
        r@ == truncate_spec(s@, max_len as nat),
{
    if s.len() <= max_len {
        proof {
            lemma_chars_le_bytes(s@);
        }
        let n = s.unicode_len();
        let mut r = String::from_str(s);
        let mut k: usize = n;
        while k < max_len
            invariant
                n == s@.len(),
                n <= k <= max_len || (k == n && n >= max_len),
                r@ == s@ + spaces((k - n) as nat),
            decreases max_len - k,
        {
            push_char(&mut r, ' ');
            k = k + 1;
            assert(r@ =~= s@ + spaces((k - n) as nat));
        }
        assert(n >= max_len ==> r@ =~= s@);
        r
    } else {
        let cut: usize = if max_len >= 3 { max_len - 3 } else { 0 };
        let (head, _tail) = s.split_at(cut);
        proof {
            encode_utf8_decode_utf8(head@);
        }
        let r = String::from_str(head).concat("...");
        proof {
            reveal_strlit("...");
        }
        assert(r@ =~= decode_utf8(encode_utf8(s@).subrange(0, cut as int)) + seq!['.', '.', '.']);
        r
    }
}

/// ASCII upper-case of a character (`char::to_ascii_uppercase`).
pub open spec fn ascii_upper(c: char) -> char {
    if 'a' <= c <= 'z' {
        ((c as u32) - 32) as char
    } else {
        c
    }
}

/// `s` with its first character in ASCII upper case.
pub open spec fn uppercase_first_spec(s: Seq<char>) -> Seq<char> {
    if s.len() == 0 {
        s
    } else {
        seq![ascii_upper(s[0])] + s.drop_first()
    }
}

/// ASCII upper-case of `c`.
pub fn to_ascii_upper(c: char) -> (r: char)
    ensures
        r == ascii_upper(c),
{
    if 'a' <= c && c <= 'z' {
        let u = (c as u32) - 32;
        proof {
            assert(u <= 0x7f);
        }
        (u as u8) as char
    } else {
        c
    }
}


/// Upper-cases the first character of `data` (ASCII rules), keeping the rest.
pub fn uppercase_first(data: &str) -> (r: String)
    ensures
        r@ == uppercase_first_spec(data@),
{
    let n = data.unicode_len();
    let mut result = String::new();
    let mut i: usize = 0;
    while i < n
        invariant
            n == data@.len(),
            i <= n,
            i == 0 ==> result@ == Seq::<char>::empty(),
            i > 0 ==> result@ == uppercase_first_spec(data@.subrange(0, i as int)),
        decreases n - i,
    {
        let c = data.get_char(i);
        if i == 0 {
            push_char(&mut result, to_ascii_upper(c));
            assert(result@ =~= uppercase_first_spec(data@.subrange(0, 1)));
        } else {
            push_char(&mut result, c);
            assert(result@ =~= uppercase_first_spec(data@.subrange(0, i + 1)));
        }
        i = i + 1;
    }
    assert(data@.subrange(0, n as int) =~= data@);
    result
}


/// `s` padded on the right with spaces to at least `width` characters
/// (`format!("{:width$}", s)`).
pub fn pad_to_width(s: &str, width: usize) -> (r: String)
    ensures
        r@ == pad_right(s@, width as nat),
{
    let n = s.unicode_len();
    let mut r = String::from_str(s);
    let mut k: usize = n;
    while k < width
        invariant
            n == s@.len(),
            n <= k,
            k <= width || k == n,
            r@ == s@ + spaces((k - n) as nat),
        decreases width - k,
    {
        push_char(&mut r, ' ');
        k = k + 1;
        assert(r@ =~= s@ + spaces((k - n) as nat));
    }
    assert(n >= width ==> r@ =~= s@);
    r
}


/// ASCII lower-case of a character (`char::to_ascii_lowercase`).
pub open spec fn ascii_lower(c: char) -> char {
    if 'A' <= c <= 'Z' {
        ((c as u32) + 32) as char
    } else {
        c
    }
}

/// `s` in ASCII lower case (`str::to_ascii_lowercase`).
pub open spec fn ascii_lowercase_spec(s: Seq<char>) -> Seq<char> {
    Seq::new(s.len(), |i: int| ascii_lower(s[i]))
}

/// `s` in ASCII lower case.
pub fn to_ascii_lowercase(s: &str) -> (r: String)
    ensures
        r@ == ascii_lowercase_spec(s@),
{
    let n = s.unicode_len();
    let mut r = String::new();
    let mut i: usize = 0;
    while i < n
        invariant
            n == s@.len(),
            i <= n,
            r@ == ascii_lowercase_spec(s@.subrange(0, i as int)),
        decreases n - i,
    {
        let c = s.get_char(i);
        let l = if 'A' <= c && c <= 'Z' {
            let u = (c as u32) + 32;
            (u as u8) as char
        } else {
            c
        };
        push_char(&mut r, l);
        i = i + 1;
        assert(r@ =~= ascii_lowercase_spec(s@.subrange(0, i as int)));
    }
    assert(s@.subrange(0, n as int) =~= s@);
    r
}

/// The first character of a trimmed string is not white space.
proof fn lemma_trim_start_head(s: Seq<char>)
    ensures
        trim_start_spec(s).len() > 0 ==> !is_white_space(trim_start_spec(s)[0]),
        trim_start_spec(trim_start_spec(s)) == trim_start_spec(s),
    decreases s.len(),
{
    if s.len() > 0 && is_white_space(s[0]) {
        lemma_trim_start_head(s.drop_first());
    }
}

/// Trimming the end keeps a prefix and leaves no white space at the end.
proof fn lemma_trim_end_prefix(s: Seq<char>)
    ensures
        trim_end_spec(s).len() <= s.len(),
        trim_end_spec(s) =~= s.subrange(0, trim_end_spec(s).len() as int),
        trim_end_spec(s).len() > 0 ==> !is_white_space(trim_end_spec(s).last()),
        trim_end_spec(trim_end_spec(s)) == trim_end_spec(s),
    decreases s.len(),
{
    if s.len() > 0 && is_white_space(s.last()) {
        lemma_trim_end_prefix(s.drop_last());
        let t = trim_end_spec(s.drop_last());
        assert(s.drop_last().subrange(0, t.len() as int) =~= s.subrange(0, t.len() as int));
    }
}

/// Trimming twice is trimming once.
pub proof fn lemma_trim_idempotent(s: Seq<char>)
    ensures
        trim_spec(trim_spec(s)) == trim_spec(s),
{
    let t = trim_start_spec(s);
    let x = trim_end_spec(t);
    lemma_trim_start_head(s);
    lemma_trim_end_prefix(t);
    if x.len() > 0 {
        assert(x[0] == t[0]);
    }
    assert(trim_start_spec(x) == x);
}


/// Whether two strings have the same characters.
pub fn str_eq(a: &str, b: &str) -> (r: bool)
    ensures
        r == (a@ == b@),
{
    let n = a.unicode_len();
    if n != b.unicode_len() {
        return false;
    }
    let mut i: usize = 0;
    while i < n
        invariant
            n == a@.len(),
            n == b@.len(),
            i <= n,
            forall|k: int| 0 <= k < i ==> a@[k] == b@[k],
        decreases n - i,
    {
        if a.get_char(i) != b.get_char(i) {
            return false;
        }
        i = i + 1;
    }
    assert(a@ =~= b@);
    true
}


/// How an unsigned integer is printed.
pub open spec fn integer_text(n: nat) -> Seq<char> {
    if n == 0 {
        seq!['0']
    } else {
        digits(n)
    }
}

/// Appends the decimal digits of `n` (none for zero).
fn push_digits(s: &mut String, n: u64)
    ensures
        final(s)@ == old(s)@ + digits(n as nat),
    decreases n,
{
    if n == 0 {
        assert(digits(0) =~= Seq::<char>::empty());
        assert(final(s)@ =~= old(s)@ + digits(n as nat));
        return;
    }
    push_digits(s, n / 10);
    let d = (n % 10) as u8;
    push_char(s, (48u8 + d) as char);
    assert(s@ =~= old(s)@ + digits(n as nat));
}

/// The decimal text of `n`.
pub fn u64_to_text(n: u64) -> (r: String)
    ensures
        r@ == integer_text(n as nat),
{
    if n == 0 {
        let mut r = String::new();
        push_char(&mut r, '0');
        assert(r@ =~= seq!['0']);
        r
    } else {
        let mut r = String::new();
        push_digits(&mut r, n);
        assert(r@ =~= digits(n as nat));
        r
    }
}

} // verus!
