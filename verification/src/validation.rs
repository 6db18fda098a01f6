//! Checks on what the user typed: length bounds on the fields of a todo, the
//! shape of a date, and the escaping of a search text for a `LIKE` pattern.

use crate::error::{AppError, AppErrorView, AppResult};
use crate::text::chars_of;
use vstd::prelude::*;
use vstd::string::StringExecFns;

verus! {

/// The most characters a title may have.
pub const TITLE_MAX: u64 = 500;

/// The most characters a description may have.
pub const DESCRIPTION_MAX: u64 = 2000;

/// The most characters a broker name may have.
pub const BROKER_MAX: u64 = 100;

/// Whether a title of these characters is accepted.
pub open spec fn title_in_bounds(title: Seq<char>) -> bool {
    1 <= title.len() <= TITLE_MAX
}

/// Whether a broker name of these characters is accepted.
pub open spec fn broker_in_bounds(broker: Seq<char>) -> bool {
    1 <= broker.len() <= BROKER_MAX
}

/// Whether a description, if there is one, is accepted.
pub open spec fn description_in_bounds(description: Option<Seq<char>>) -> bool {
    description matches Some(text) ==> text.len() <= DESCRIPTION_MAX
}

/// What is said of a title out of bounds.
pub open spec fn title_complaint() -> Seq<char> {
    "标题长度必须在 1-500 字符之间"@
}

/// What is said of a description out of bounds.
pub open spec fn description_complaint() -> Seq<char> {
    "描述长度不能超过 2000 字符"@
}

/// What is said of a broker name out of bounds.
pub open spec fn broker_complaint() -> Seq<char> {
    "券商名称长度必须在 1-100 字符之间"@
}

/// `validator::ValidateLength::validate_length` on a string slice, with a
/// lower and an upper bound and no exact length asked for: it counts the
/// characters of `value` and answers whether the count lies within the two
/// bounds, both included.
#[verifier::external_body]
fn length_within(value: &str, min: u64, max: u64) -> (ok: bool)
    ensures
        ok == (min <= value@.len() <= max),
{
    validator::ValidateLength::validate_length(value, Some(min), Some(max), None)
}

/// Whether `title`, as it stands, is within the bounds of a title.
pub fn check_title(title: &str) -> (ok: bool)
    ensures
        ok == title_in_bounds(title@),
{
    length_within(title, 1, TITLE_MAX)
}

/// Whether `broker`, as it stands, is within the bounds of a broker name.
pub fn check_broker(broker: &str) -> (ok: bool)
    ensures
        ok == broker_in_bounds(broker@),
{
    length_within(broker, 1, BROKER_MAX)
}

/// The fields of a todo that are held to length bounds.
#[derive(Debug, PartialEq, Eq)]
pub struct TodoInput {
    pub title: String,
    pub description: Option<String>,
    pub broker: String,
}

/// A [`TodoInput`] as a plain value.
pub struct TodoInputView {
    pub title: Seq<char>,
    pub description: Option<Seq<char>>,
    pub broker: Seq<char>,
}

impl View for TodoInput {
    type V = TodoInputView;

    open spec fn view(&self) -> TodoInputView {
        TodoInputView {
            title: self.title@,
            description: match self.description {
                Some(text) => Some(text@),
                None => None,
            },
            broker: self.broker@,
        }
    }
}

/// `report` with one more line: the first line stands alone, each later one
/// follows a line break.
pub open spec fn with_line(report: Seq<char>, line: Seq<char>) -> Seq<char> {
    if report.len() == 0 {
        line
    } else {
        report + seq!['\n'] + line
    }
}

impl TodoInputView {
    /// Whether every field is within its bounds.
    pub open spec fn valid(self) -> bool {
        &&& title_in_bounds(self.title)
        &&& description_in_bounds(self.description)
        &&& broker_in_bounds(self.broker)
    }

    /// One line for each field out of bounds, title first, then description,
    /// then broker: the field's name, a colon and what is said of it.
    pub open spec fn complaints(self) -> Seq<char> {
        let none = Seq::<char>::empty();
        let after_title = if title_in_bounds(self.title) {
            none
        } else {
            with_line(none, "title: "@ + title_complaint())
        };
        let after_description = if description_in_bounds(self.description) {
            after_title
        } else {
            with_line(after_title, "description: "@ + description_complaint())
        };
        if broker_in_bounds(self.broker) {
            after_description
        } else {
            with_line(after_description, "broker: "@ + broker_complaint())
        }
    }

    /// The text of the error that an invalid input is rejected with.
    pub open spec fn rejection(self) -> Seq<char> {
        "输入验证失败: "@ + self.complaints()
    }
}

/// `report` with the line `field` + `complaint` added.
fn add_line(report: String, field: &str, complaint: &str) -> (longer: String)
    ensures
        longer@ == with_line(report@, field@ + complaint@),
{
    let line = String::from_str(field).concat(complaint);
    if report.as_str().is_empty() {
        line
    } else {
        proof {
            reveal_strlit("\n");
        }
        report.concat("\n").concat(line.as_str())
    }
}

impl TodoInput {
    /// Holds each field to its bounds: a title of 1 to 500 characters, a
    /// description of at most 2000 if there is one, a broker name of 1 to 100.
    /// The fields are judged as they stand; nothing is changed.
    pub fn validate_and_sanitize(&self) -> (result: AppResult<()>)
        ensures
            result is Ok <==> self@.valid(),
            result matches Err(e) ==> e@ == AppErrorView::Validation(self@.rejection()),
    {
        let mut report = String::new();
        if !check_title(self.title.as_str()) {
            report = add_line(report, "title: ", "标题长度必须在 1-500 字符之间");
        }
        let description_ok = match &self.description {
            Some(text) => length_within(text.as_str(), 0, DESCRIPTION_MAX),
            None => true,
        };
        if !description_ok {
            report = add_line(report, "description: ", "描述长度不能超过 2000 字符");
        }
        if !check_broker(self.broker.as_str()) {
            report = add_line(report, "broker: ", "券商名称长度必须在 1-100 字符之间");
        }
        proof {
            lemma_field_names_are_not_empty();
        }
        if report.as_str().is_empty() {
            Ok(())
        } else {
            Err(AppError::Validation(String::from_str("输入验证失败: ").concat(report.as_str())))
        }
    }
}

/// A line of the report starts with the field's name, so it is never empty.
proof fn lemma_field_names_are_not_empty()
    ensures
        ("title: "@ + title_complaint()).len() > 0,
        ("description: "@ + description_complaint()).len() > 0,
        ("broker: "@ + broker_complaint()).len() > 0,
{
    reveal_strlit("title: ");
    reveal_strlit("description: ");
    reveal_strlit("broker: ");
}

/// Whether `c` means something to `LIKE`: the wildcards `%` and `_`, and the
/// backslash that escapes them.
pub open spec fn is_like_special(c: char) -> bool {
    c == '\\' || c == '%' || c == '_'
}

/// `s` with a backslash put before each character that means something to
/// `LIKE`; every other character stays as it is.
pub open spec fn escaped(s: Seq<char>) -> Seq<char>
    decreases s.len(),
{
    if s.len() == 0 {
        Seq::empty()
    } else if is_like_special(s.last()) {
        escaped(s.drop_last()).push('\\').push(s.last())
    } else {
        escaped(s.drop_last()).push(s.last())
    }
}

/// Escapes `s` for use inside a `LIKE` pattern whose escape character is the
/// backslash: `\` becomes `\\`, `%` becomes `\%`, `_` becomes `\_`.
pub fn escape_like_pattern(s: &str) -> (pattern: String)
    ensures
        pattern@ == escaped(s@),
{
    let chars = chars_of(s);
    let mut pattern = String::new();
    let mut i: usize = 0;
    while i < chars.len()
        invariant
            i <= chars.len(),
            chars@ == s@,
            pattern@ == escaped(s@.take(i as int)),
        decreases chars.len() - i,
    {
        let c = chars[i];
        assert(s@.take(i + 1).drop_last() == s@.take(i as int));
        if c == '\\' || c == '%' || c == '_' {
            pattern.push('\\');
        }
        pattern.push(c);
        i += 1;
    }
    assert(s@.take(i as int) == s@);
    pattern
}

/// The pieces of `s` between the occurrences of `separator`: one more piece
/// than there are separators, empty pieces included.
pub open spec fn split_on(s: Seq<char>, separator: char) -> Seq<Seq<char>>
    decreases s.len(),
{
    if s.len() == 0 {
        seq![Seq::empty()]
    } else {
        let before = split_on(s.drop_last(), separator);
        if s.last() == separator {
            before.push(Seq::empty())
        } else {
            before.drop_last().push(before.last().push(s.last()))
        }
    }
}

/// Whether `c` is one of the ten decimal digits.
pub open spec fn is_digit(c: char) -> bool {
    '0' <= c <= '9'
}

/// The number that the decimal digits `digits` write.
pub open spec fn digits_value(digits: Seq<char>) -> nat
    decreases digits.len(),
{
    if digits.len() == 0 {
        0
    } else {
        digits_value(digits.drop_last()) * 10 + (digits.last() as nat - '0' as nat) as nat
    }
}

/// `s` without the `+` that may stand before a number.
pub open spec fn without_sign(s: Seq<char>) -> Seq<char> {
    if s.len() > 0 && s[0] == '+' {
        s.drop_first()
    } else {
        s
    }
}

/// Whether `s` holds decimal digits and nothing else.
pub open spec fn all_digits(s: Seq<char>) -> bool {
    forall|i: int| 0 <= i < s.len() ==> is_digit(#[trigger] s[i])
}

/// The number that `s` writes, if it is a number that fits in 32 bits: one
/// or more decimal digits, with at most a `+` before them and nothing else.
pub open spec fn parsed_number(s: Seq<char>) -> Option<u32> {
    let digits = without_sign(s);
    if digits.len() > 0 && all_digits(digits) && digits_value(digits) <= u32::MAX {
        Some(digits_value(digits) as u32)
    } else {
        None
    }
}

/// What is wrong with `s` as a date, if anything. A date is three numbers
/// with `-` between them: a year from 1900 to 2100, a month from 1 to 12, a
/// day from 1 to 31. The shape is judged first, then whether each piece is a
/// number, year first, then the ranges, year first.
pub open spec fn date_complaint(s: Seq<char>) -> Option<Seq<char>> {
    let parts = split_on(s, '-');
    if parts.len() != 3 {
        Some("日期格式必须为 YYYY-MM-DD"@)
    } else if parsed_number(parts[0]) is None {
        Some("年份必须是数字"@)
    } else if parsed_number(parts[1]) is None {
        Some("月份必须是数字"@)
    } else if parsed_number(parts[2]) is None {
        Some("日期必须是数字"@)
    } else if !(1900 <= parsed_number(parts[0])->0 <= 2100) {
        Some("年份必须在 1900-2100 之间"@)
    } else if !(1 <= parsed_number(parts[1])->0 <= 12) {
        Some("月份必须在 1-12 之间"@)
    } else if !(1 <= parsed_number(parts[2])->0 <= 31) {
        Some("日期必须在 1-31 之间"@)
    } else {
        None
    }
}

/// The views of the pieces in `parts`.
pub open spec fn piece_views(parts: Seq<Vec<char>>) -> Seq<Seq<char>> {
    parts.map_values(|piece: Vec<char>| piece@)
}

/// Cuts `chars` at each `-`.
fn split_at_dashes(chars: &Vec<char>) -> (parts: Vec<Vec<char>>)
    ensures
        piece_views(parts@) == split_on(chars@, '-'),
{
    let mut done: Vec<Vec<char>> = Vec::new();
    let mut current: Vec<char> = Vec::new();
    let mut i: usize = 0;
    while i < chars.len()
        invariant
            i <= chars.len(),
            piece_views(done@).push(current@) == split_on(chars@.take(i as int), '-'),
        decreases chars.len() - i,
    {
        let c = chars[i];
        assert(chars@.take(i + 1).drop_last() == chars@.take(i as int));
        if c == '-' {
            done.push(current);
            current = Vec::new();
        } else {
            current.push(c);
        }
        i += 1;
    }
    assert(chars@.take(i as int) == chars@);
    done.push(current);
    done
}

/// A number never shrinks when another digit is written after it.
proof fn lemma_digits_value_grows(digits: Seq<char>, n: int)
    requires
        0 <= n <= digits.len(),
        all_digits(digits),
    ensures
        digits_value(digits.take(n)) <= digits_value(digits),
    decreases digits.len() - n,
{
    if n == digits.len() {
        assert(digits.take(n) == digits);
    } else {
        assert(digits.take(n + 1).drop_last() == digits.take(n));
        lemma_digits_value_grows(digits, n + 1);
    }
}

/// Reads `piece` as a number of at most 32 bits.
fn parse_number(piece: &Vec<char>) -> (number: Option<u32>)
    ensures
        number == parsed_number(piece@),
{
    let n = piece.len();
    let first: usize = if n > 0 && piece[0] == '+' {
        1
    } else {
        0
    };
    let ghost digits = without_sign(piece@);
    if first == n {
        return None;
    }
    let mut value: u64 = 0;
    let mut i: usize = first;
    while i < n
        invariant
            first <= i <= n,
            n == piece.len(),
            digits == without_sign(piece@),
            digits == piece@.subrange(first as int, n as int),
            forall|j: int| 0 <= j < i - first ==> is_digit(#[trigger] digits[j]),
            value == digits_value(digits.take(i - first)),
            value <= u32::MAX,
        decreases n - i,
    {
        let c = piece[i];
        if c < '0' || c > '9' {
            assert(!is_digit(digits[i - first]));
            return None;
        }
        assert(digits.take(i - first + 1).drop_last() == digits.take(i - first));
        value = value * 10 + (c as u64 - '0' as u64);
        if value > 0xffff_ffff {
            proof {
                if all_digits(digits) {
                    lemma_digits_value_grows(digits, i - first + 1);
                }
            }
            return None;
        }
        i += 1;
    }
    assert(digits.take(n - first) == digits);
    Some(value as u32)
}

/// Holds `date_str` to the shape `YYYY-MM-DD`: three numbers with `-`
/// between them, a year from 1900 to 2100, a month from 1 to 12 and a day
/// from 1 to 31. The error names the first thing that is wrong.
pub fn validate_date_format(date_str: &str) -> (result: AppResult<()>)
    ensures
        result is Ok <==> date_complaint(date_str@) is None,
        result matches Err(e) ==> e@ == AppErrorView::Validation(
            date_complaint(date_str@).unwrap(),
        ),
{
    let chars = chars_of(date_str);
    let parts = split_at_dashes(&chars);
    if parts.len() != 3 {
        return Err(AppError::Validation(String::from_str("日期格式必须为 YYYY-MM-DD")));
    }
    let year = match parse_number(&parts[0]) {
        Some(number) => number,
        None => { return Err(AppError::Validation(String::from_str("年份必须是数字"))); },
    };
    let month = match parse_number(&parts[1]) {
        Some(number) => number,
        None => { return Err(AppError::Validation(String::from_str("月份必须是数字"))); },
    };
    let day = match parse_number(&parts[2]) {
        Some(number) => number,
        None => { return Err(AppError::Validation(String::from_str("日期必须是数字"))); },
    };
    if year < 1900 || year > 2100 {
        return Err(AppError::Validation(String::from_str("年份必须在 1900-2100 之间")));
    }
    if month < 1 || month > 12 {
        return Err(AppError::Validation(String::from_str("月份必须在 1-12 之间")));
    }
    if day < 1 || day > 31 {
        return Err(AppError::Validation(String::from_str("日期必须在 1-31 之间")));
    }
    Ok(())
}

} // verus!
