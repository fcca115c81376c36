//! Paths into nested values, and how a path is read from text.

use vstd::prelude::*;
use vstd::string::StrSliceExecFns;

verus! {

/// One step of a path: a key into a mapping or an index into a list.
#[derive(Debug, Clone, PartialEq, Eq)]
pub enum Index {
    Key(String),
    Idx(usize),
}

pub enum IndexView {
    Key(Seq<char>),
    Idx(usize),
}

impl View for Index {
    type V = IndexView;

    open spec fn view(&self) -> IndexView {
        match self {
            Index::Key(key) => IndexView::Key(key@),
            Index::Idx(idx) => IndexView::Idx(*idx),
        }
    }
}

pub open spec fn index_views(path: Seq<Index>) -> Seq<IndexView> {
    Seq::new(path.len(), |i: int| path[i]@)
}

/// Use with [`Value::get`](super::Value::get) to extract from nested mappings
/// and lists.
///
/// A [`Pointer`] is a '/' separated path, containing
/// - strings to index into a mapping
/// - numbers to index into a list
///
/// Note that keys of a mapping can be numbers or empty strings as well.
///
/// # Examples
/// ```ignore
/// "tissues/3/density" // Extract from a nested path
/// "2/some_property" // Top level is an array
/// "" // returns the whole value unchanged
/// "empty//key" // Empty key in a mapping at second level
/// ```
#[derive(Debug, Clone, PartialEq, Eq)]
pub struct Pointer(pub Vec<Index>);

impl View for Pointer {
    type V = Seq<IndexView>;

    open spec fn view(&self) -> Seq<IndexView> {
        index_views(self.0@)
    }
}

/// The position of the last '/' in a text, or -1 where it has none.
pub open spec fn last_slash(text: Seq<char>) -> int
    decreases text.len(),
{
    if text.len() == 0 {
        -1
    } else if text.last() == '/' {
        text.len() - 1
    } else {
        last_slash(text.drop_last())
    }
}

/// The pieces of a text between its '/' characters. A text without '/' is
/// one piece, and so is the empty text.
pub open spec fn split_path(text: Seq<char>) -> Seq<Seq<char>>
    decreases text.len(),
{
    let at = last_slash(text);
    if 0 <= at < text.len() {
        split_path(text.subrange(0, at)).push(text.subrange(at + 1, text.len() as int))
    } else {
        seq![text]
    }
}

pub open spec fn is_digit(c: char) -> bool {
    '0' <= c && c <= '9'
}

pub open spec fn all_digits(text: Seq<char>) -> bool {
    forall|i: int| 0 <= i < text.len() ==> is_digit(#[trigger] text[i])
}

/// The number that a run of decimal digits writes.
pub open spec fn decimal_value(digits: Seq<char>) -> nat
    decreases digits.len(),
{
    if digits.len() == 0 {
        0
    } else {
        (10 * decimal_value(digits.drop_last()) + (digits.last() as int - '0' as int)) as nat
    }
}

/// The index that a piece of a path writes, if it writes one: decimal
/// digits, at least one, after an optional '+', with a value that fits.
pub open spec fn token_index(token: Seq<char>) -> Option<usize> {
    let digits = if token.len() > 0 && token[0] == '+' {
        token.drop_first()
    } else {
        token
    };
    if digits.len() > 0 && all_digits(digits) && decimal_value(digits) <= usize::MAX {
        Some(decimal_value(digits) as usize)
    } else {
        None
    }
}

pub open spec fn parse_token(token: Seq<char>) -> IndexView {
    match token_index(token) {
        Some(idx) => IndexView::Idx(idx),
        None => IndexView::Key(token),
    }
}

/// The path that a text writes. The empty text is the empty path; any other
/// text is split at each '/', and each piece is an index where it writes a
/// number and a key where it does not.
pub open spec fn parse_path(text: Seq<char>) -> Seq<IndexView> {
    if text.len() == 0 {
        Seq::empty()
    } else {
        split_path(text).map_values(|token: Seq<char>| parse_token(token))
    }
}

/// After a '/' that nothing but other characters follow, that one is the
/// last.
pub proof fn lemma_last_slash_at(text: Seq<char>, at: int)
    requires
        0 <= at < text.len(),
        text[at] == '/',
        forall|j: int| at < j < text.len() ==> text[j] != '/',
    ensures
        last_slash(text) == at,
    decreases text.len(),
{
    if at < text.len() - 1 {
        lemma_last_slash_at(text.drop_last(), at);
    }
}

pub proof fn lemma_last_slash_none(text: Seq<char>)
    requires
        forall|j: int| 0 <= j < text.len() ==> text[j] != '/',
    ensures
        last_slash(text) == -1,
    decreases text.len(),
{
    if text.len() > 0 {
        lemma_last_slash_none(text.drop_last());
    }
}

/// A number is no smaller than what any of its leading digits write.
pub proof fn lemma_decimal_value_grows(digits: Seq<char>, upto: int)
    requires
        all_digits(digits),
        0 <= upto <= digits.len(),
    ensures
        decimal_value(digits.subrange(0, upto)) <= decimal_value(digits),
    decreases digits.len() - upto,
{
    if upto == digits.len() {
        assert(digits.subrange(0, upto) =~= digits);
    } else {
        let longer = digits.subrange(0, upto + 1);
        assert(longer.drop_last() =~= digits.subrange(0, upto));
        assert(is_digit(digits[upto]));
        assert(longer.last() == digits[upto]);
        lemma_decimal_value_grows(digits, upto + 1);
    }
}

/// A text without '/' that is not empty is a path of one step.
pub proof fn lemma_parse_one_step(text: Seq<char>)
    requires
        text.len() > 0,
        forall|i: int| 0 <= i < text.len() ==> text[i] != '/',
    ensures
        parse_path(text) == seq![parse_token(text)],
{
    lemma_last_slash_none(text);
    assert(split_path(text) =~= seq![text]);
    assert(parse_path(text) =~= seq![parse_token(text)]);
}

/// A single decimal digit is the index that it writes.
pub proof fn lemma_digit_token(c: char)
    requires
        is_digit(c),
    ensures
        parse_token(seq![c]) == IndexView::Idx((c as int - '0' as int) as usize),
{
    let token = seq![c];
    assert(token.drop_last() =~= Seq::<char>::empty());
    reveal_with_fuel(decimal_value, 2);
    assert(decimal_value(token) == c as int - '0' as int);
}

/// A piece that begins with neither a digit nor '+' is a key, and so is the
/// empty piece.
pub proof fn lemma_word_token(token: Seq<char>)
    requires
        token.len() > 0 ==> !is_digit(token[0]) && token[0] != '+',
    ensures
        parse_token(token) == IndexView::Key(token),
{
}

/// The characters of a text, in order.
pub fn chars_of(text: &str) -> (out: Vec<char>)
    ensures
        out@ == text@,
{
    let mut out: Vec<char> = Vec::new();
    for c in it: text.chars()
        invariant
            it.seq() == text@,
            out@ == text@.subrange(0, it.index() as int),
    {
        out.push(c);
        assert(out@ =~= text@.subrange(0, it.index() + 1));
    }
    assert(out@ =~= text@);
    out
}

/// Reads the piece `chars[from..to]` as an index, where it writes one.
fn read_index(chars: &Vec<char>, from: usize, to: usize) -> (res: Option<usize>)
    requires
        from <= to <= chars.len(),
    ensures
        res == token_index(chars@.subrange(from as int, to as int)),
{
    let ghost token = chars@.subrange(from as int, to as int);
    let start: usize = if from < to && chars[from] == '+' {
        from + 1
    } else {
        from
    };
    let ghost digits = chars@.subrange(start as int, to as int);
    proof {
        if start == from {
            assert(digits =~= token);
        } else {
            assert(digits =~= token.drop_first());
        }
    }
    if start == to {
        return None;
    }
    let mut value: usize = 0;
    let mut i: usize = start;
    while i < to
        invariant
            from <= start <= i <= to <= chars.len(),
            token == chars@.subrange(from as int, to as int),
            digits == chars@.subrange(start as int, to as int),
            digits == if token.len() > 0 && token[0] == '+' {
                token.drop_first()
            } else {
                token
            },
            all_digits(digits.subrange(0, i - start)),
            value == decimal_value(digits.subrange(0, i - start)),
        decreases to - i,
    {
        let c = chars[i];
        let ghost seen = digits.subrange(0, i - start);
        let ghost next = digits.subrange(0, i - start + 1);
        proof {
            assert(next.drop_last() =~= seen);
            assert(next.last() == c);
        }
        if !('0' <= c && c <= '9') {
            proof {
                assert(digits[i - start] == c);
                assert(!is_digit(digits[i - start]));
            }
            return None;
        }
        let digit: usize = (c as u32 - '0' as u32) as usize;
        proof {
            assert forall|j: int| 0 <= j < next.len() implies is_digit(#[trigger] next[j]) by {
                if j < seen.len() {
                    assert(next[j] == seen[j]);
                }
            }
        }
        let grown = match value.checked_mul(10) {
            Some(tenfold) => tenfold.checked_add(digit),
            None => None,
        };
        match grown {
            Some(sum) => {
                value = sum;
            },
            None => {
                proof {
                    assert(decimal_value(next) > usize::MAX);
                    if all_digits(digits) {
                        lemma_decimal_value_grows(digits, i - start + 1);
                    }
                }
                return None;
            },
        }
        i += 1;
    }
    proof {
        assert(digits.subrange(0, to - start) =~= digits);
    }
    Some(value)
}

impl Pointer {
    /// Reads a path from text.
    pub fn parse(text: &str) -> (res: Pointer)
        ensures
            res@ == parse_path(text@),
    {
        let chars = chars_of(text);
        let mut steps: Vec<Index> = Vec::new();
        if chars.len() == 0 {
            assert(index_views(steps@) =~= parse_path(text@));
            return Pointer(steps);
        }
        let mut start: usize = 0;
        let mut i: usize = 0;
        while i < chars.len()
            invariant
                chars@ == text@,
                start <= i <= chars.len(),
                forall|j: int| start <= j < i ==> chars@[j] != '/',
                start == 0 ==> steps@.len() == 0,
                start > 0 ==> chars@[start - 1] == '/' && index_views(steps@) == split_path(
                    chars@.subrange(0, start - 1),
                ).map_values(|token: Seq<char>| parse_token(token)),
            decreases chars.len() - i,
        {
            if chars[i] == '/' {
                let ghost before = index_views(steps@);
                let step = Self::read_step(text, &chars, start, i);
                steps.push(step);
                proof {
                    let upto = chars@.subrange(0, i as int);
                    let token = chars@.subrange(start as int, i as int);
                    lemma_split_push(chars@, start as int, i as int);
                    assert(index_views(steps@) =~= before.push(parse_token(token)));
                    assert(split_path(upto).map_values(|token: Seq<char>| parse_token(token))
                        =~= split_path(upto).drop_last().map_values(
                        |token: Seq<char>| parse_token(token),
                    ).push(parse_token(token)));
                }
                start = i + 1;
            }
            i += 1;
        }
        let ghost before = index_views(steps@);
        let step = Self::read_step(text, &chars, start, chars.len());
        steps.push(step);
        proof {
            let token = chars@.subrange(start as int, chars@.len() as int);
            assert(chars@.subrange(0, chars@.len() as int) =~= chars@);
            lemma_split_push(chars@, start as int, chars@.len() as int);
            assert(index_views(steps@) =~= before.push(parse_token(token)));
            assert(split_path(chars@).map_values(|token: Seq<char>| parse_token(token))
                =~= split_path(chars@).drop_last().map_values(
                |token: Seq<char>| parse_token(token),
            ).push(parse_token(token)));
        }
        Pointer(steps)
    }

    /// Reads the piece `chars[from..to]` of a text as one step.
    fn read_step(text: &str, chars: &Vec<char>, from: usize, to: usize) -> (res: Index)
        requires
            chars@ == text@,
            from <= to <= chars.len(),
        ensures
            res@ == parse_token(text@.subrange(from as int, to as int)),
    {
        match read_index(chars, from, to) {
            Some(idx) => Index::Idx(idx),
            None => Index::Key(text.substring_char(from, to).to_owned()),
        }
    }
}

/// Splitting a text that ends in a piece without '/' gives the pieces before
/// that piece, then the piece.
pub proof fn lemma_split_push(text: Seq<char>, start: int, end: int)
    requires
        0 <= start <= end <= text.len(),
        start > 0 ==> text[start - 1] == '/',
        forall|j: int| start <= j < end ==> text[j] != '/',
    ensures
        split_path(text.subrange(0, end)).len() > 0,
        split_path(text.subrange(0, end)).last() == text.subrange(start, end),
        start == 0 ==> split_path(text.subrange(0, end)).drop_last().len() == 0,
        start > 0 ==> split_path(text.subrange(0, end)).drop_last() == split_path(
            text.subrange(0, start - 1),
        ),
{
    let upto = text.subrange(0, end);
    if start == 0 {
        lemma_last_slash_none(upto);
        assert(upto =~= text.subrange(start, end));
        assert(split_path(upto) =~= seq![upto]);
    } else {
        lemma_last_slash_at(upto, start - 1);
        assert(upto.subrange(0, start - 1) =~= text.subrange(0, start - 1));
        assert(upto.subrange(start, upto.len() as int) =~= text.subrange(start, end));
        assert(split_path(upto).drop_last() =~= split_path(text.subrange(0, start - 1)));
    }
}

impl From<usize> for Pointer {
    fn from(value: usize) -> (res: Self)
        ensures
            res@ == seq![IndexView::Idx(value)],
    {
        let mut steps: Vec<Index> = Vec::new();
        steps.push(Index::Idx(value));
        assert(index_views(steps@) =~= seq![IndexView::Idx(value)]);
        Pointer(steps)
    }
}

impl vstd::std_specs::convert::FromSpecImpl<usize> for Pointer {
    open spec fn obeys_from_spec() -> bool {
        false
    }

    open spec fn from_spec(value: usize) -> Self {
        arbitrary()
    }
}

impl From<&str> for Pointer {
    fn from(value: &str) -> (res: Self)
        ensures
            res@ == parse_path(value@),
    {
        Pointer::parse(value)
    }
}

impl vstd::std_specs::convert::FromSpecImpl<&str> for Pointer {
    open spec fn obeys_from_spec() -> bool {
        false
    }

    open spec fn from_spec(value: &str) -> Self {
        arbitrary()
    }
}

impl From<String> for Pointer {
    fn from(value: String) -> (res: Self)
        ensures
            res@ == parse_path(value@),
    {
        Pointer::parse(value.as_str())
    }
}

impl vstd::std_specs::convert::FromSpecImpl<String> for Pointer {
    open spec fn obeys_from_spec() -> bool {
        false
    }

    open spec fn from_spec(value: String) -> Self {
        arbitrary()
    }
}

} // verus!
