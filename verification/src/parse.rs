use vstd::prelude::*;
use vstd::string::StrSliceExecFns;

use crate::message::EncodingError;

verus! {

/// Whether the character is a decimal digit, '0' through '9'.
pub open spec fn is_digit(c: char) -> bool {
    48 <= c as int && c as int <= 57
}

/// The numeric value of a decimal digit.
pub open spec fn digit_val(c: char) -> int {
    c as int - 48
}

pub open spec fn all_digits(s: Seq<char>) -> bool {
    forall|i: int| 0 <= i < s.len() ==> is_digit(s[i])
}

/// The integer a sequence of decimal digits denotes (most significant
/// first); 0 for the empty sequence.
pub open spec fn digits_value(s: Seq<char>) -> int
    decreases s.len(),
{
    if s.len() == 0 {
        0
    } else {
        digits_value(s.drop_last()) * 10 + digit_val(s.last())
    }
}

proof fn lemma_digits_value_nonneg(s: Seq<char>)
    requires
        all_digits(s),
    ensures
        digits_value(s) >= 0,
    decreases s.len(),
{
    if s.len() > 0 {
        assert(forall|i: int| 0 <= i < s.drop_last().len() ==> is_digit(#[trigger] s.drop_last()[i]));
        lemma_digits_value_nonneg(s.drop_last());
    }
}

proof fn lemma_digits_value_prefix(s: Seq<char>, k: int)
    requires
        all_digits(s),
        0 <= k <= s.len(),
    ensures
        digits_value(s.subrange(0, k)) <= digits_value(s),
    decreases s.len(),
{
    lemma_digits_value_nonneg(s);
    if k == s.len() {
        assert(s.subrange(0, k) =~= s);
    } else {
        let t = s.drop_last();
        assert(forall|i: int| 0 <= i < t.len() ==> is_digit(#[trigger] t[i]));
        lemma_digits_value_prefix(t, k);
        assert(s.subrange(0, k) =~= t.subrange(0, k));
        lemma_digits_value_nonneg(t);
    }
}

/// A value that can be read out of text: `parse_spec` says exactly which
/// texts are accepted and what they denote, and `default_spec` is the
/// fallback for parses that may fall back to a default.
pub trait Parse: Sized {
    /// The value the text denotes, if the text is well-formed.
    spec fn parse_spec(s: Seq<char>) -> Option<Self>;

    /// The fallback value.
    spec fn default_spec() -> Self;

    fn parse(s: &str) -> (r: Option<Self>)
        ensures
            r == Self::parse_spec(s@),
    ;

    fn default_value() -> (r: Self)
        ensures
            r == Self::default_spec(),
    ;
}

/// The digits of a rendering: everything after one optional leading '+'.
pub open spec fn after_sign(s: Seq<char>) -> Seq<char> {
    if s.len() > 0 && s[0] == '+' {
        s.drop_first()
    } else {
        s
    }
}

impl Parse for u32 {
    /// An optional leading '+', then a non-empty all-digit decimal
    /// rendering whose value fits.
    open spec fn parse_spec(s: Seq<char>) -> Option<u32> {
        let digits = after_sign(s);
        if digits.len() > 0 && all_digits(digits) && digits_value(digits) <= u32::MAX {
            Some(digits_value(digits) as u32)
        } else {
            None
        }
    }

    open spec fn default_spec() -> u32 {
        0u32
    }

    fn parse(s: &str) -> (r: Option<u32>) {
        let n: usize = s.unicode_len();
        if n == 0 {
            return None;
        }
        let start: usize = if s.get_char(0) == '+' {
            1
        } else {
            0
        };
        let ghost digits = after_sign(s@);
        proof {
            assert(digits =~= s@.subrange(start as int, n as int));
        }
        if n == start {
            return None;
        }
        let mut acc: u32 = 0;
        let mut i: usize = start;
        while i < n
            invariant
                n == s@.len(),
                start <= i <= n,
                start < n,
                digits == after_sign(s@),
                digits == s@.subrange(start as int, n as int),
                all_digits(digits.subrange(0, i - start)),
                acc == digits_value(digits.subrange(0, i - start)),
            decreases n - i,
        {
            let c: char = s.get_char(i);
            let cv: u32 = c as u32;
            proof {
                assert(digits.subrange(0, i + 1 - start).drop_last() =~= digits.subrange(
                    0,
                    i - start,
                ));
                assert(digits.subrange(0, i + 1 - start).last() == s@[i as int]);
            }
            if cv < 48 || cv > 57 {
                proof {
                    assert(!is_digit(digits[i - start]));
                }
                return None;
            }
            let d: u32 = cv - 48;
            if acc > (u32::MAX - d) / 10 {
                proof {
                    let m: int = u32::MAX - d;
                    assert(acc * 10 + d > u32::MAX) by (nonlinear_arith)
                        requires
                            acc > m / 10,
                            m == u32::MAX - d,
                            0 <= d <= 9,
                    ;
                    assert(digits_value(digits.subrange(0, i + 1 - start)) > u32::MAX);
                    if all_digits(digits) {
                        lemma_digits_value_prefix(digits, i + 1 - start);
                    }
                }
                return None;
            }
            proof {
                assert(acc * 10 + d <= u32::MAX) by (nonlinear_arith)
                    requires
                        acc <= (u32::MAX - d) / 10,
                        0 <= d <= 9,
                        0 <= acc,
                ;
            }
            acc = acc * 10 + d;
            i = i + 1;
        }
        proof {
            assert(digits.subrange(0, n - start) =~= digits);
        }
        Some(acc)
    }

    fn default_value() -> (r: u32) {
        0
    }
}

/// Whether the character has the Unicode `White_Space` property — the set
/// that `str::trim` removes: the ASCII whitespace controls and space, next
/// line, no-break space, ogham space mark, the en-quad..hair-space range,
/// the two line/paragraph separators, narrow no-break space, medium
/// mathematical space, and ideographic space.
pub open spec fn is_space(c: char) -> bool {
    let u = c as u32;
    (0x09 <= u && u <= 0x0D) || u == 0x20 || u == 0x85 || u == 0xA0 || u == 0x1680 || (0x2000 <= u
        && u <= 0x200A) || u == 0x2028 || u == 0x2029 || u == 0x202F || u == 0x205F || u == 0x3000
}

/// Executable test for `is_space`.
fn is_space_char(c: char) -> (r: bool)
    ensures
        r == is_space(c),
{
    let u: u32 = c as u32;
    (0x09 <= u && u <= 0x0D) || u == 0x20 || u == 0x85 || u == 0xA0 || u == 0x1680 || (0x2000 <= u
        && u <= 0x200A) || u == 0x2028 || u == 0x2029 || u == 0x202F || u == 0x205F || u == 0x3000
}

/// The text with its leading whitespace removed.
pub open spec fn trim_front(s: Seq<char>) -> Seq<char>
    decreases s.len(),
{
    if s.len() > 0 && is_space(s[0]) {
        trim_front(s.drop_first())
    } else {
        s
    }
}

/// The text with its trailing whitespace removed.
pub open spec fn trim_back(s: Seq<char>) -> Seq<char>
    decreases s.len(),
{
    if s.len() > 0 && is_space(s.last()) {
        trim_back(s.drop_last())
    } else {
        s
    }
}

/// The text with whitespace removed from both ends.
pub open spec fn trimmed(s: Seq<char>) -> Seq<char> {
    trim_back(trim_front(s))
}

/// The pieces of the text between its commas, in order: one more piece
/// than there are commas, so an empty text has one empty piece, and a
/// trailing comma ends with an empty piece.
pub open spec fn split_commas(s: Seq<char>) -> Seq<Seq<char>>
    decreases s.len(),
{
    if s.len() == 0 {
        seq![Seq::<char>::empty()]
    } else if s.last() == ',' {
        split_commas(s.drop_last()).push(Seq::<char>::empty())
    } else {
        let p = split_commas(s.drop_last());
        p.update(p.len() - 1, p.last().push(s.last()))
    }
}

proof fn lemma_split_commas_len(s: Seq<char>)
    ensures
        split_commas(s).len() >= 1,
    decreases s.len(),
{
    if s.len() > 0 {
        lemma_split_commas_len(s.drop_last());
    }
}

/// Extending the text only grows or refines the last piece: every piece
/// before it is already final.
proof fn lemma_split_commas_prefix(s: Seq<char>, j: int)
    requires
        0 <= j <= s.len(),
    ensures
        split_commas(s).len() >= split_commas(s.subrange(0, j)).len(),
        forall|i: int|
            0 <= i < split_commas(s.subrange(0, j)).len() - 1 ==> split_commas(s)[i]
                == split_commas(s.subrange(0, j))[i],
    decreases s.len() - j,
{
    if j == s.len() {
        assert(s.subrange(0, j) =~= s);
    } else {
        let t = s.subrange(0, j);
        let t2 = s.subrange(0, j + 1);
        assert(t2.drop_last() =~= t);
        assert(t2.last() == s[j]);
        lemma_split_commas_len(t);
        lemma_split_commas_prefix(s, j + 1);
    }
}

proof fn lemma_trim_front_chars(s: Seq<char>, a: int)
    requires
        0 <= a <= s.len(),
        forall|k: int| 0 <= k < a ==> is_space(s[k]),
        a < s.len() ==> !is_space(s[a]),
    ensures
        trim_front(s) == s.subrange(a, s.len() as int),
    decreases a,
{
    if a == 0 {
        assert(s.subrange(0, s.len() as int) =~= s);
    } else {
        let t = s.drop_first();
        lemma_trim_front_chars(t, a - 1);
        assert(t.subrange(a - 1, t.len() as int) =~= s.subrange(a, s.len() as int));
    }
}

proof fn lemma_trim_back_chars(s: Seq<char>, b: int)
    requires
        0 <= b <= s.len(),
        forall|k: int| b <= k < s.len() ==> is_space(s[k]),
        b > 0 ==> !is_space(s[b - 1]),
    ensures
        trim_back(s) == s.subrange(0, b),
    decreases s.len() - b,
{
    if b == s.len() {
        assert(s.subrange(0, b) =~= s);
    } else {
        let t = s.drop_last();
        lemma_trim_back_chars(t, b);
        assert(t.subrange(0, b) =~= s.subrange(0, b));
    }
}

fn scan_front(piece: &str) -> (a: usize)
    ensures
        a <= piece@.len(),
        forall|k: int| 0 <= k < a ==> is_space(piece@[k]),
        a < piece@.len() ==> !is_space(piece@[a as int]),
{
    let n: usize = piece.unicode_len();
    let mut a: usize = 0;
    while a < n
        invariant
            n == piece@.len(),
            a <= n,
            forall|k: int| 0 <= k < a ==> is_space(piece@[k]),
        decreases n - a,
    {
        let c: char = piece.get_char(a);
        if !is_space_char(c) {
            return a;
        }
        a = a + 1;
    }
    a
}

fn scan_back(piece: &str, a: usize) -> (b: usize)
    requires
        a <= piece@.len(),
    ensures
        a <= b <= piece@.len(),
        forall|k: int| b <= k < piece@.len() ==> is_space(piece@[k]),
        b > a ==> !is_space(piece@[b - 1]),
{
    let n: usize = piece.unicode_len();
    let mut b: usize = n;
    while b > a
        invariant
            n == piece@.len(),
            a <= b <= n,
            forall|k: int| b <= k < n ==> is_space(piece@[k]),
        decreases b,
    {
        let c: char = piece.get_char(b - 1);
        if !is_space_char(c) {
            return b;
        }
        b = b - 1;
    }
    b
}

/// Trim whitespace off both ends of the piece, then parse it.
fn trim_parse<T: Parse>(piece: &str) -> (r: Option<T>)
    ensures
        r == T::parse_spec(trimmed(piece@)),
{
    let a: usize = scan_front(piece);
    let b: usize = scan_back(piece, a);
    proof {
        lemma_trim_front_chars(piece@, a as int);
        let t = piece@.subrange(a as int, piece@.len() as int);
        lemma_trim_back_chars(t, b - a);
        assert(t.subrange(0, b - a) =~= piece@.subrange(a as int, b as int));
    }
    let t: &str = piece.substring_char(a, b);
    T::parse(t)
}

/// Parse comma-separated values: the text is split on every comma, each
/// piece is trimmed of surrounding whitespace and parsed, and all pieces
/// must be well-formed — so an empty text, a leading, trailing or doubled
/// comma, or any malformed piece fails the whole parse.
pub fn parse_comma_separated_boxed_slice<T: Parse>(values: &str) -> (r: Result<
    Vec<T>,
    EncodingError,
>)
    ensures
        r matches Ok(v) ==> v@.len() == split_commas(values@).len() && forall|i: int|
            0 <= i < v@.len() ==> T::parse_spec(trimmed(split_commas(values@)[i])) == Some(v@[i]),
        r is Err ==> exists|i: int|
            0 <= i < split_commas(values@).len() && T::parse_spec(
                trimmed(#[trigger] split_commas(values@)[i]),
            ) is None,
{
    let n: usize = values.unicode_len();
    let mut out: Vec<T> = Vec::new();
    let ghost mut done: Seq<Seq<char>> = Seq::empty();
    let mut start: usize = 0;
    let mut j: usize = 0;
    proof {
        assert(values@.subrange(0, 0) =~= Seq::<char>::empty());
        assert(split_commas(values@.subrange(0, 0)) =~~= Seq::<Seq<char>>::empty().push(
            values@.subrange(0, 0),
        ));
    }
    while j < n
        invariant
            n == values@.len(),
            start <= j <= n,
            split_commas(values@.subrange(0, j as int)) == done.push(
                values@.subrange(start as int, j as int),
            ),
            out@.len() == done.len(),
            forall|i: int|
                0 <= i < done.len() ==> T::parse_spec(trimmed(#[trigger] done[i])) == Some(
                    out@[i],
                ),
        decreases n - j,
    {
        let ghost t = values@.subrange(0, j as int);
        let ghost t2 = values@.subrange(0, j + 1);
        proof {
            assert(t2.drop_last() =~= t);
            assert(t2.last() == values@[j as int]);
        }
        let c: char = values.get_char(j);
        if c == ',' {
            let piece: &str = values.substring_char(start, j);
            match trim_parse::<T>(piece) {
                Some(v) => {
                    out.push(v);
                },
                None => {
                    proof {
                        assert(split_commas(t2) =~~= done.push(piece@).push(
                            Seq::<char>::empty(),
                        ));
                        lemma_split_commas_prefix(values@, j + 1);
                        assert(split_commas(values@)[done.len() as int] == piece@);
                    }
                    return Err(
                        EncodingError {
                            message: "cannot be parsed into the requested type".to_owned(),
                        },
                    );
                },
            }
            proof {
                done = done.push(values@.subrange(start as int, j as int));
                assert(split_commas(t2) =~~= done.push(Seq::<char>::empty()));
            }
            start = j + 1;
            j = j + 1;
            proof {
                assert(values@.subrange(start as int, j as int) =~= Seq::<char>::empty());
            }
        } else {
            j = j + 1;
            proof {
                assert(values@.subrange(start as int, j as int) =~= values@.subrange(
                    start as int,
                    j - 1,
                ).push(values@[j - 1]));
                lemma_split_commas_len(t);
                assert(split_commas(t2) =~~= done.push(values@.subrange(start as int, j as int)));
            }
        }
    }
    proof {
        assert(values@.subrange(0, n as int) =~= values@);
    }
    let piece: &str = values.substring_char(start, n);
    match trim_parse::<T>(piece) {
        Some(v) => {
            out.push(v);
            Ok(out)
        },
        None => {
            proof {
                assert(split_commas(values@)[done.len() as int] == piece@);
            }
            Err(EncodingError { message: "cannot be parsed into the requested type".to_owned() })
        },
    }
}

/// Parse a value out of text. Succeeds with exactly the denoted value on
/// every well-formed text, and fails on every other.
pub fn from_str<T: Parse>(s: &str) -> (r: Result<T, EncodingError>)
    ensures
        T::parse_spec(s@) matches Some(v) ==> r == Ok::<T, EncodingError>(v),
        T::parse_spec(s@) is None ==> r is Err,
{
    match T::parse(s) {
        Some(v) => Ok(v),
        None => Err(EncodingError { message: "cannot be parsed into the requested type".to_owned() }),
    }
}

/// Parse a value out of text; on a malformed text, fall back to the
/// default value instead of failing.
pub fn from_str_or_default<T: Parse>(s: &str) -> (r: T)
    ensures
        r == (match T::parse_spec(s@) {
            Some(v) => v,
            None => T::default_spec(),
        }),
{
    match T::parse(s) {
        Some(v) => v,
        None => T::default_value(),
    }
}

/// Parse an optional value: an absent text denotes an absent value, a
/// present text must be well-formed.
pub fn from_str_opt<T: Parse>(s: Option<&str>) -> (r: Result<Option<T>, EncodingError>)
    ensures
        s is None ==> r == Ok::<Option<T>, EncodingError>(None::<T>),
        s matches Some(t) ==> (T::parse_spec(t@) matches Some(v) ==> r == Ok::<
            Option<T>,
            EncodingError,
        >(Some(v))) && (T::parse_spec(t@) is None ==> r is Err),
{
    match s {
        None => Ok(None),
        Some(t) => match from_str::<T>(t) {
            Ok(v) => Ok(Some(v)),
            Err(e) => Err(e),
        },
    }
}

} // verus!
