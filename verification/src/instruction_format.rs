use vstd::prelude::*;
use vstd::string::StrSliceExecFns;

verus! {

/// Whether `c` is ASCII whitespace: space, tab, line feed, form feed or carriage return.
pub open spec fn is_ascii_space(c: char) -> bool {
    c == ' ' || c == '\t' || c == '\n' || c == '\x0C' || c == '\r'
}

/// The first index at or after `i` where `s` holds `c`.
pub open spec fn find_from(s: Seq<char>, c: char, i: int) -> Option<int>
    decreases s.len() - i,
{
    if i < 0 || i >= s.len() {
        None
    } else if s[i] == c {
        Some(i)
    } else {
        find_from(s, c, i + 1)
    }
}

/// The first index at or after `i` where `s` holds no whitespace, or its length.
pub open spec fn skip_spaces(s: Seq<char>, i: int) -> int
    decreases s.len() - i,
{
    if i < 0 || i >= s.len() || !is_ascii_space(s[i]) {
        i
    } else {
        skip_spaces(s, i + 1)
    }
}

/// The first index at or after `i` where `s` holds whitespace, or its length.
pub open spec fn word_end(s: Seq<char>, i: int) -> int
    decreases s.len() - i,
{
    if i < 0 || i >= s.len() || is_ascii_space(s[i]) {
        i
    } else {
        word_end(s, i + 1)
    }
}

/// Where the mnemonic's search starts: after the first `=`, or at the start.
pub open spec fn mnemonic_search_start(s: Seq<char>) -> int {
    match find_from(s, '=', 0) {
        Some(e) => e + 1,
        None => 0,
    }
}

/// Where the mnemonic starts.
pub open spec fn mnemonic_start(s: Seq<char>) -> int {
    skip_spaces(s, mnemonic_search_start(s))
}

/// The mnemonic of format text `s`: the first whitespace-separated word after the first `=`, or
/// of the whole text when it has no `=`.
pub open spec fn spec_mnemonic(s: Seq<char>) -> Seq<char> {
    s.subrange(mnemonic_start(s), word_end(s, mnemonic_start(s)))
}

/// Whether format text `s` has a mnemonic.
pub open spec fn has_mnemonic(s: Seq<char>) -> bool {
    mnemonic_start(s) < s.len()
}

/// `s` with every `.` removed.
pub open spec fn without_dots(s: Seq<char>) -> Seq<char>
    decreases s.len(),
{
    if s.len() == 0 {
        s
    } else {
        let rest = without_dots(s.drop_last());
        if s.last() == '.' {
            rest
        } else {
            rest.push(s.last())
        }
    }
}

/// The upper case of an ASCII character; other characters are left as they are.
pub open spec fn ascii_upper(c: char) -> char {
    if 'a' <= c <= 'z' {
        ((c as u32) - 32) as char
    } else {
        c
    }
}

/// The name of the constructor for format text `s`: its mnemonic without dots, first character
/// in upper case.
pub open spec fn spec_constructor_name(s: Seq<char>) -> Seq<char> {
    let lower = without_dots(spec_mnemonic(s));
    uppercase(lower[0]) + lower.drop_first()
}

/// The upper case of `c` as `char::to_uppercase` gives it (one or more characters).
pub uninterp spec fn uppercase(c: char) -> Seq<char>;

/// The operand named by the brace at index `i` of `s`: the text up to the next `}`, cut at its
/// first `:`.
pub open spec fn operand_at(s: Seq<char>, i: int) -> Seq<char> {
    let braced = s.subrange(i + 1, find_from(s, '}', i).unwrap());
    match find_from(braced, ':', 0) {
        Some(colon) => braced.subrange(0, colon),
        None => braced,
    }
}

/// The operands named by the `{` among the first `n` characters of `s`, in order.
pub open spec fn operands_upto(s: Seq<char>, n: int) -> Seq<Seq<char>>
    decreases n,
{
    if n <= 0 {
        Seq::empty()
    } else if s[n - 1] == '{' {
        operands_upto(s, n - 1).push(operand_at(s, n - 1))
    } else {
        operands_upto(s, n - 1)
    }
}

/// Whether every `{` of `s` has a `}` after it.
pub open spec fn braces_closed(s: Seq<char>) -> bool {
    forall|i: int| 0 <= i < s.len() && s[i] == '{' ==> (#[trigger] find_from(s, '}', i)) is Some
}

/// A found index lies in the searched range and holds the character; nothing before it does.
proof fn lemma_find_from(s: Seq<char>, c: char, i: int)
    requires
        0 <= i,
    ensures
        find_from(s, c, i) matches Some(k) ==> i <= k < s.len() && s[k] == c,
        forall|j: int|
            i <= j < s.len() && (find_from(s, c, i) matches Some(k) ==> j < k) ==> s[j] != c,
    decreases s.len() - i,
{
    if i < s.len() && s[i] != c {
        lemma_find_from(s, c, i + 1);
    }
}

/// `skip_spaces` and `word_end` stay within the text.
proof fn lemma_scan_bounds(s: Seq<char>, i: int)
    requires
        0 <= i <= s.len(),
    ensures
        i <= skip_spaces(s, i) <= s.len(),
        i <= word_end(s, i) <= s.len(),
    decreases s.len() - i,
{
    if i < s.len() {
        lemma_scan_bounds(s, i + 1);
    }
}

/// The first index at or after `from` where `text` holds `c`.
fn find_char(text: &str, c: char, from: usize) -> (r: Option<usize>)
    requires
        from <= text@.len(),
    ensures
        r matches Some(k) ==> find_from(text@, c, from as int) == Some(k as int),
        r is None ==> find_from(text@, c, from as int) is None,
{
    let len = text.unicode_len();
    let mut i = from;
    while i < len
        invariant
            from <= i <= len,
            len == text@.len(),
            find_from(text@, c, from as int) == find_from(text@, c, i as int),
        decreases len - i,
    {
        if text.get_char(i) == c {
            return Some(i);
        }
        i = i + 1;
    }
    None
}

/// A piece of an instruction set description: the text of an instruction's format, such as
/// `"{rd} = add {rs}, {rt}"`, where braces name operands and an operand may carry a type after
/// a colon.
pub struct InstructionFormat<'a>(pub &'a str);

impl<'a> InstructionFormat<'a> {
    /// The mnemonic: the first word after the first `=`, or the first word when there is none.
    pub fn mnemonic(&self) -> (r: &'a str)
        requires
            has_mnemonic(self.0@),
        ensures
            r@ == spec_mnemonic(self.0@),
    {
        let text = self.0;
        let len = text.unicode_len();
        let mut start = match find_char(text, '=', 0) {
            Some(e) => e + 1,
            None => 0,
        };
        proof {
            lemma_find_from(text@, '=', 0);
        }
        while start < len && is_space(text.get_char(start))
            invariant
                mnemonic_search_start(text@) <= start <= len,
                len == text@.len(),
                skip_spaces(text@, start as int) == mnemonic_start(text@),
            decreases len - start,
        {
            start = start + 1;
        }
        let mut end = start;
        while end < len && !is_space(text.get_char(end))
            invariant
                start <= end <= len,
                len == text@.len(),
                word_end(text@, end as int) == word_end(text@, start as int),
            decreases len - end,
        {
            end = end + 1;
        }
        text.substring_char(start, end)
    }

    /// The constructor name: the mnemonic without dots, its first character in upper case.
    pub fn constructor_name(&self) -> (r: String)
        requires
            has_mnemonic(self.0@),
            without_dots(spec_mnemonic(self.0@)).len() > 0,
        ensures
            r@ == spec_constructor_name(self.0@),
            ({
                let lower = without_dots(spec_mnemonic(self.0@));
                (lower[0] as u32) < 128 ==> r@ == seq![ascii_upper(lower[0])] + lower.drop_first()
            }),
    {
        let mnemonic = self.mnemonic();
        let len = mnemonic.unicode_len();
        let mut lower: Vec<char> = Vec::new();
        let mut i: usize = 0;
        while i < len
            invariant
                i <= len,
                len == mnemonic@.len(),
                lower@ == without_dots(mnemonic@.subrange(0, i as int)),
            decreases len - i,
        {
            let c = mnemonic.get_char(i);
            proof {
                assert(mnemonic@.subrange(0, i + 1).drop_last() =~= mnemonic@.subrange(0, i as int));
            }
            if c != '.' {
                lower.push(c);
            }
            i = i + 1;
        }
        proof {
            assert(mnemonic@.subrange(0, len as int) =~= mnemonic@);
        }
        let upper = char_to_uppercase(lower[0]);
        let mut name = String::new();
        let mut j: usize = 0;
        while j < upper.len()
            invariant
                j <= upper@.len(),
                name@ == upper@.subrange(0, j as int),
            decreases upper@.len() - j,
        {
            push_char(&mut name, upper[j]);
            proof {
                assert(upper@.subrange(0, j + 1) =~= upper@.subrange(0, j as int).push(upper@[j as int]));
            }
            j = j + 1;
        }
        proof {
            assert(upper@.subrange(0, upper@.len() as int) =~= upper@);
        }
        let mut k: usize = 1;
        while k < lower.len()
            invariant
                1 <= k <= lower@.len(),
                name@ == uppercase(lower@[0]) + lower@.subrange(1, k as int),
            decreases lower@.len() - k,
        {
            push_char(&mut name, lower[k]);
            proof {
                assert(lower@.subrange(1, k + 1) =~= lower@.subrange(1, k as int).push(lower@[k as int]));
            }
            k = k + 1;
        }
        proof {
            assert(lower@.subrange(1, lower@.len() as int) =~= lower@.drop_first());
        }
        name
    }

    /// The operands, in order: for each `{`, the text up to the next `}`, cut at its first `:`.
    pub fn operands(&self) -> (r: Vec<&'a str>)
        requires
            braces_closed(self.0@),
        ensures
            r@.len() == operands_upto(self.0@, self.0@.len() as int).len(),
            forall|k: int|
                0 <= k < r@.len() ==> #[trigger] r@[k]@ == operands_upto(
                    self.0@,
                    self.0@.len() as int,
                )[k],
    {
        let text = self.0;
        let len = text.unicode_len();
        let mut operands: Vec<&'a str> = Vec::new();
        let mut i: usize = 0;
        while i < len
            invariant
                i <= len,
                len == text@.len(),
                braces_closed(text@),
                operands@.len() == operands_upto(text@, i as int).len(),
                forall|k: int|
                    0 <= k < operands@.len() ==> #[trigger] operands@[k]@ == operands_upto(
                        text@,
                        i as int,
                    )[k],
            decreases len - i,
        {
            if text.get_char(i) == '{' {
                let operand = Self::operand(text, i);
                operands.push(operand);
            }
            i = i + 1;
        }
        operands
    }

    /// The operand named by the brace at `i`.
    fn operand(text: &'a str, i: usize) -> (r: &'a str)
        requires
            i < text@.len(),
            text@[i as int] == '{',
            find_from(text@, '}', i as int) is Some,
        ensures
            r@ == operand_at(text@, i as int),
    {
        proof {
            lemma_find_from(text@, '}', i as int);
        }
        let end = match find_char(text, '}', i) {
            Some(e) => e,
            None => i,
        };
        let braced = text.substring_char(i + 1, end);
        proof {
            assert(braced@.len() <= text@.len());
        }
        match find_char(braced, ':', 0) {
            Some(colon) => {
                proof {
                    lemma_find_from(braced@, ':', 0);
                }
                braced.substring_char(0, colon)
            },
            None => braced,
        }
    }
}

/// Whether `c` is ASCII whitespace.
fn is_space(c: char) -> (r: bool)
    ensures
        r == is_ascii_space(c),
{
    c == ' ' || c == '\t' || c == '\n' || c == '\x0C' || c == '\r'
}

/// `char::to_uppercase`, collected: the characters of the upper case of `c`, which for an
/// ASCII character is its ASCII upper case alone.
#[verifier::external_body]
fn char_to_uppercase(c: char) -> (r: Vec<char>)
    ensures
        r@ == uppercase(c),
        (c as u32) < 128 ==> r@ == seq![ascii_upper(c)],
{
    c.to_uppercase().collect()
}

/// `String::push`: appends `c`.
#[verifier::external_body]
pub(crate) fn push_char(s: &mut String, c: char)
    ensures
        final(s)@ == old(s)@.push(c),
{
    s.push(c)
}

} // verus!
