//! The tokenizer and parser of the drawing language.
//!
//! The source is a sequence of characters; the parser tracks a cursor of
//! row, column and absolute character offset.  A program is a sequence
//! of operations, each an identifier resolved against the registry
//! followed by its numeric parameters.  Tokens are separated by commas;
//! a comma may be omitted where whitespace, a comment, or the end of the
//! input already separates the tokens.  Comments are `//` to the end of
//! the line and `/*` to the matching `*/`; a block comment without its
//! terminator is a parse error.  The first failure aborts the parse.

use vstd::prelude::*;

use crate::fixed::spec_clip;
use crate::gen::{VecLineGen, VecOpsType};
use crate::interfaces::{Command, Cursor, ParseError};
use crate::any_data::AnyData;
use crate::ops::{kind_argc, spec_argc, spec_args};
use crate::syntax::{spec_match_command, CommonVecOpSyntax};
use crate::text::upper_of;
use crate::text::{
    char_is_alphanumeric, char_is_numeric, char_is_whitespace, chars_to_string,
    is_unicode_alphanumeric, is_unicode_numeric, is_unicode_whitespace, str_to_chars,
};
use vstd::string::StringExecFns;

verus! {

/// Number of line breaks before position `p`: the cursor row there.
pub open spec fn spec_row_at(s: Seq<char>, p: int) -> int
    decreases p,
{
    if p <= 0 {
        0
    } else {
        spec_row_at(s, p - 1) + if s[p - 1] == '\n' {
            1int
        } else {
            0int
        }
    }
}

/// Characters since the last line break before position `p`: the cursor
/// column there, reset to zero by each line break.
pub open spec fn spec_col_at(s: Seq<char>, p: int) -> int
    decreases p,
{
    if p <= 0 {
        0
    } else if s[p - 1] == '\n' {
        0
    } else {
        spec_col_at(s, p - 1) + 1
    }
}

/// The cursor `c` stands at position `p` of `s`.
pub open spec fn spec_cursor_at(c: Cursor, s: Seq<char>, p: int) -> bool {
    &&& c.pos == p
    &&& c.row == spec_row_at(s, p)
    &&& c.col == spec_col_at(s, p)
}

pub proof fn lemma_row_col_bounds(s: Seq<char>, p: int)
    requires
        p >= 0,
    ensures
        0 <= spec_row_at(s, p) <= p,
        0 <= spec_col_at(s, p) <= p,
    decreases p,
{
    if p > 0 {
        lemma_row_col_bounds(s, p - 1);
    }
}

/// First position at or after `p` whose character is not whitespace.
pub open spec fn spec_skip_ws(s: Seq<char>, p: int) -> int
    decreases s.len() - p,
{
    if 0 <= p < s.len() && is_unicode_whitespace(s[p]) {
        spec_skip_ws(s, p + 1)
    } else {
        p
    }
}

pub proof fn lemma_skip_ws_bounds(s: Seq<char>, p: int)
    requires
        0 <= p <= s.len(),
    ensures
        p <= spec_skip_ws(s, p) <= s.len(),
    decreases s.len() - p,
{
    if p < s.len() && is_unicode_whitespace(s[p]) {
        lemma_skip_ws_bounds(s, p + 1);
    }
}

/// The position whitespace skipping stops at is not on whitespace.
pub proof fn lemma_skip_ws_not_ws(s: Seq<char>, p: int)
    requires
        0 <= p <= s.len(),
    ensures
        !(spec_skip_ws(s, p) < s.len() && is_unicode_whitespace(s[spec_skip_ws(s, p)])),
    decreases s.len() - p,
{
    if p < s.len() && is_unicode_whitespace(s[p]) {
        lemma_skip_ws_not_ws(s, p + 1);
    }
}

/// A line comment `//` opens at `p`.
pub open spec fn spec_line_comment_at(s: Seq<char>, p: int) -> bool {
    0 <= p && p + 1 < s.len() && s[p] == '/' && s[p + 1] == '/'
}

/// A block comment `/*` opens at `p`.
pub open spec fn spec_block_comment_at(s: Seq<char>, p: int) -> bool {
    0 <= p && p + 1 < s.len() && s[p] == '/' && s[p + 1] == '*'
}

/// A block comment terminator `*/` stands at `p`.
pub open spec fn spec_block_end_at(s: Seq<char>, p: int) -> bool {
    0 <= p && p + 1 < s.len() && s[p] == '*' && s[p + 1] == '/'
}

/// Position just past the next line break at or after `p`, or the end
/// of the input.
pub open spec fn spec_find_nl(s: Seq<char>, p: int) -> int
    decreases s.len() - p,
{
    if p < 0 || p >= s.len() {
        s.len() as int
    } else if s[p] == '\n' {
        p + 1
    } else {
        spec_find_nl(s, p + 1)
    }
}

pub proof fn lemma_find_nl_bounds(s: Seq<char>, p: int)
    requires
        0 <= p <= s.len(),
    ensures
        p <= spec_find_nl(s, p) <= s.len(),
    decreases s.len() - p,
{
    if p < s.len() && s[p] != '\n' {
        lemma_find_nl_bounds(s, p + 1);
    }
}

/// Position just past the first `*/` at or after `p`, if there is one.
pub open spec fn spec_find_block_end(s: Seq<char>, p: int) -> Option<int>
    decreases s.len() - p,
{
    if p < 0 || p >= s.len() {
        None
    } else if spec_block_end_at(s, p) {
        Some(p + 2)
    } else {
        spec_find_block_end(s, p + 1)
    }
}

pub proof fn lemma_find_block_end_bounds(s: Seq<char>, p: int)
    requires
        0 <= p <= s.len(),
    ensures
        spec_find_block_end(s, p) is Some ==> p + 2 <= spec_find_block_end(s, p).unwrap()
            <= s.len(),
    decreases s.len() - p,
{
    if 0 <= p < s.len() && !spec_block_end_at(s, p) {
        lemma_find_block_end_bounds(s, p + 1);
    }
}

/// Skip whitespace and comments from `p` until neither applies.  An
/// unterminated block comment fails with the position it opened at.
pub open spec fn spec_skip_junk(s: Seq<char>, p: int) -> Result<int, int>
    decreases s.len() - p,
    when 0 <= p <= s.len()
    via spec_skip_junk_decreases
{
    if p < s.len() && is_unicode_whitespace(s[p]) {
        spec_skip_junk(s, p + 1)
    } else if spec_line_comment_at(s, p) {
        spec_skip_junk(s, spec_find_nl(s, p + 2))
    } else if spec_block_comment_at(s, p) {
        match spec_find_block_end(s, p + 2) {
            Some(q) => spec_skip_junk(s, q),
            None => Err(p),
        }
    } else {
        Ok(p)
    }
}

#[via_fn]
proof fn spec_skip_junk_decreases(s: Seq<char>, p: int) {
    if p < s.len() && is_unicode_whitespace(s[p]) {
    } else if spec_line_comment_at(s, p) {
        lemma_find_nl_bounds(s, p + 2);
    } else if spec_block_comment_at(s, p) {
        lemma_find_block_end_bounds(s, p + 2);
    }
}

/// End of the identifier starting at `p`: alphanumerics and
/// underscores.
pub open spec fn spec_ident_end(s: Seq<char>, p: int) -> int
    decreases s.len() - p,
{
    if 0 <= p < s.len() && (is_unicode_alphanumeric(s[p]) || s[p] == '_') {
        spec_ident_end(s, p + 1)
    } else {
        p
    }
}

/// End of the number literal starting at `p`: minus signs, numeric
/// characters and dots, collected blindly; validity is judged after.
pub open spec fn spec_number_end(s: Seq<char>, p: int) -> int
    decreases s.len() - p,
{
    if 0 <= p < s.len() && (s[p] == '-' || is_unicode_numeric(s[p]) || s[p] == '.') {
        spec_number_end(s, p + 1)
    } else {
        p
    }
}

/// An ASCII decimal digit.
pub open spec fn spec_is_digit(c: char) -> bool {
    48 <= c as int <= 57
}

pub open spec fn spec_digit_val(c: char) -> int {
    c as int - 48
}

/// The value of a digit string, most significant first.
pub open spec fn spec_digits_val(t: Seq<char>) -> int
    decreases t.len(),
{
    if t.len() == 0 {
        0
    } else {
        spec_digits_val(t.drop_last()) * 10 + spec_digit_val(t.last())
    }
}

pub open spec fn spec_all_digits(t: Seq<char>) -> bool {
    forall|i: int| 0 <= i < t.len() ==> spec_is_digit(t[i])
}

/// Index of the first dot at or after `p`, or the length.
pub open spec fn spec_find_dot(t: Seq<char>, p: int) -> int
    decreases t.len() - p,
{
    if p < 0 || p >= t.len() {
        t.len() as int
    } else if t[p] == '.' {
        p
    } else {
        spec_find_dot(t, p + 1)
    }
}

pub open spec fn spec_pow10(k: int) -> int
    decreases k,
{
    if k <= 0 {
        1
    } else {
        10 * spec_pow10(k - 1)
    }
}

/// The sign, integer digits and fraction digits of a number literal:
/// an optional leading minus, then digits split at the first dot.
pub open spec fn spec_num_parts(t: Seq<char>) -> (bool, Seq<char>, Seq<char>) {
    let neg = t.len() > 0 && t[0] == '-';
    let b = if neg {
        t.skip(1)
    } else {
        t
    };
    let d = spec_find_dot(b, 0);
    let ip = b.take(d);
    let fp = if d < b.len() {
        b.skip(d + 1)
    } else {
        Seq::empty()
    };
    (neg, ip, fp)
}

/// A literal is valid when both parts are ASCII digits (so at most one
/// dot, no inner minus) and there is at least one digit.
pub open spec fn spec_valid_number(t: Seq<char>) -> bool {
    let parts = spec_num_parts(t);
    spec_all_digits(parts.1) && spec_all_digits(parts.2) && parts.1.len() + parts.2.len() > 0
}

/// The first six fraction digits, scaled to millionths; further digits
/// are truncated.
pub open spec fn spec_frac_scaled(fp: Seq<char>) -> int {
    let f6 = if fp.len() > 6 {
        fp.take(6)
    } else {
        fp
    };
    spec_digits_val(f6) * spec_pow10(6 - f6.len())
}

/// The fixed-point value of a valid literal, saturated at the `i64`
/// range.
pub open spec fn spec_number_value(t: Seq<char>) -> i64 {
    let parts = spec_num_parts(t);
    let mag = spec_digits_val(parts.1) * 1_000_000 + spec_frac_scaled(parts.2);
    spec_clip(
        if parts.0 {
            -mag
        } else {
            mag
        },
    )
}

#[derive(Debug, Clone)]
enum CommentType {
    SingleLine,
    MultiLineStart,
    MultiLineEnd,
}

/// A lexed token: its value and its half-open source span.
#[allow(dead_code)]
#[derive(Debug, Clone)]
pub enum TokenValue {
    Ident(String),
    Number(i64),
    Comment(String),
    Comma,
}

impl TokenValue {
    /// The identifier text, or the default error on any other token.
    pub fn into_string(self) -> (r: Result<String, ParseError>)
        ensures
            match self {
                TokenValue::Ident(s) => r is Ok && r.unwrap()@ == s@,
                _ => r is Err,
            },
    {
        match self {
            TokenValue::Ident(s) => Result::Ok(s),
            _ => Result::Err(ParseError::default()),
        }
    }

    /// The numeric value, or the default error on any other token.
    pub fn into_number(self) -> (r: Result<i64, ParseError>)
        ensures
            match self {
                TokenValue::Number(n) => r is Ok && r.unwrap() == n,
                _ => r is Err,
            },
    {
        match self {
            TokenValue::Number(n) => Result::Ok(n),
            _ => Result::Err(ParseError::default()),
        }
    }
}

/// A token with its half-open span: the cursor at its first character
/// and the cursor just past its last.
#[derive(Debug)]
pub struct Token {
    pub value: TokenValue,
    pub cursor: (Cursor, Cursor),
}

/// The parser: the source text, the lexing cursor, and the program
/// being built.
#[derive(Debug, Clone)]
pub struct CodeParser {
    pub code: String,
    pub cursor: Cursor,
    /// The characters of `code`, cached for constant-time indexing.
    pub chars: Vec<char>,
    pub gen: VecLineGen,
}

impl CodeParser {
    /// The character cache matches the text, the cursor stands at a
    /// position of the text, and the program built so far is bound.
    pub open spec fn wf(&self) -> bool {
        &&& self.chars@ == self.code@
        &&& self.code@.len() <= usize::MAX
        &&& self.cursor.pos <= self.code@.len()
        &&& spec_cursor_at(self.cursor, self.code@, self.cursor.pos as int)
        &&& self.gen.wf()
    }

    /// The source characters.
    pub open spec fn src(&self) -> Seq<char> {
        self.code@
    }

    pub fn new(code: String, gen: VecLineGen) -> (r: Self)
        requires
            gen.wf(),
        ensures
            r.wf(),
            r.src() == code@,
            r.cursor.pos == 0,
            r.gen == gen,
    {
        let chars = str_to_chars(code.as_str());
        proof {
            vstd::std_specs::vec::axiom_spec_len(&chars);
        }
        CodeParser { code, cursor: Cursor { row: 0, col: 0, pos: 0 }, chars, gen }
    }

    /// Advance past the character `c`, which stands at the cursor.
    fn cursor_next(&mut self, c: char)
        requires
            old(self).wf(),
            old(self).cursor.pos < old(self).src().len(),
            c == old(self).src()[old(self).cursor.pos as int],
        ensures
            final(self).wf(),
            final(self).code == old(self).code,
            final(self).chars == old(self).chars,
            final(self).gen == old(self).gen,
            final(self).cursor.pos == old(self).cursor.pos + 1,
    {
        proof {
            lemma_row_col_bounds(self.code@, self.cursor.pos as int);
        }
        self.cursor.pos = self.cursor.pos + 1;
        self.cursor.col = self.cursor.col + 1;
        if c == '\n' {
            self.cursor.row = self.cursor.row + 1;
            self.cursor.col = 0;
        }
    }

    fn curr_cur(&self) -> (r: Cursor)
        ensures
            r == self.cursor,
    {
        self.cursor
    }

    fn curr_pos(&self) -> (r: usize)
        ensures
            r == self.cursor.pos,
    {
        self.cursor.pos
    }

    fn curr_ch(&self) -> (r: char)
        requires
            self.wf(),
            self.cursor.pos < self.src().len(),
        ensures
            r == self.src()[self.cursor.pos as int],
    {
        self.chars[self.cursor.pos]
    }

    fn not_eof(&self) -> (r: bool)
        requires
            self.wf(),
        ensures
            r == (self.cursor.pos < self.src().len()),
    {
        self.cursor.pos < self.chars.len()
    }

    /// Whether the cursor stands on whitespace.
    fn at_ws(&self) -> (r: bool)
        requires
            self.wf(),
        ensures
            r == (self.cursor.pos < self.src().len() && is_unicode_whitespace(
                self.src()[self.cursor.pos as int],
            )),
    {
        if !self.not_eof() {
            false
        } else {
            char_is_whitespace(self.curr_ch())
        }
    }

    fn eat_whitespace(&mut self)
        requires
            old(self).wf(),
        ensures
            final(self).wf(),
            final(self).code == old(self).code,
            final(self).chars == old(self).chars,
            final(self).gen == old(self).gen,
            final(self).cursor.pos == spec_skip_ws(old(self).src(), old(self).cursor.pos as int),
    {
        while self.at_ws()
            invariant
                self.wf(),
                self.code == old(self).code,
                self.chars == old(self).chars,
                self.gen == old(self).gen,
                spec_skip_ws(self.src(), self.cursor.pos as int) == spec_skip_ws(
                    old(self).src(),
                    old(self).cursor.pos as int,
                ),
            decreases self.src().len() - self.cursor.pos,
        {
            let c = self.curr_ch();
            self.cursor_next(c);
        }
    }

    /// The two-character lookahead of the comment scanner.
    fn check_comment(&self) -> (r: Option<CommentType>)
        requires
            self.wf(),
        ensures
            (r matches Option::Some(k) && k is SingleLine) <==> spec_line_comment_at(
                self.src(),
                self.cursor.pos as int,
            ),
            (r matches Option::Some(k) && k is MultiLineStart) <==> spec_block_comment_at(
                self.src(),
                self.cursor.pos as int,
            ),
            (r matches Option::Some(k) && k is MultiLineEnd) <==> spec_block_end_at(
                self.src(),
                self.cursor.pos as int,
            ),
    {
        let n = self.chars.len();
        let p = self.cursor.pos;
        if p < n && n - p >= 2 {
            let c0 = self.chars[p];
            let c1 = self.chars[p + 1];
            if c0 == '/' && c1 == '/' {
                Option::Some(CommentType::SingleLine)
            } else if c0 == '/' && c1 == '*' {
                Option::Some(CommentType::MultiLineStart)
            } else if c0 == '*' && c1 == '/' {
                Option::Some(CommentType::MultiLineEnd)
            } else {
                Option::None
            }
        } else {
            Option::None
        }
    }
}

/// Expecting a comma at `p`: skip junk; a comma is consumed (with its
/// trailing junk); where none follows, separation by junk or the end of
/// the input is accepted; adjacency is the error, at the pre-skip
/// position.
pub open spec fn spec_expect_comma(s: Seq<char>, p: int) -> Result<int, (Seq<char>, int)> {
    match spec_skip_junk(s, p) {
        Result::Err(e) => Result::Err(("Invalid comment"@, e)),
        Result::Ok(q) => if q < s.len() && s[q] == ',' {
            match spec_skip_junk(s, q + 1) {
                Result::Err(e2) => Result::Err(("Invalid comment"@, e2)),
                Result::Ok(q2) => Result::Ok(q2),
            }
        } else if q >= s.len() || q > p {
            Result::Ok(q)
        } else {
            Result::Err(("Expected comma"@, p))
        },
    }
}

/// Skipping junk is unaffected by first skipping the leading
/// whitespace.
pub proof fn lemma_skip_junk_ws(s: Seq<char>, p: int)
    requires
        0 <= p <= s.len(),
    ensures
        spec_skip_junk(s, p) == spec_skip_junk(s, spec_skip_ws(s, p)),
    decreases s.len() - p,
{
    if p < s.len() && is_unicode_whitespace(s[p]) {
        lemma_skip_junk_ws(s, p + 1);
    }
}

impl CodeParser {
    /// Whether the cursor stands on a character other than a line
    /// break.
    fn at_not_nl(&self) -> (r: bool)
        requires
            self.wf(),
        ensures
            r == (self.cursor.pos < self.src().len() && self.src()[self.cursor.pos as int]
                != '\n'),
    {
        if !self.not_eof() {
            false
        } else {
            self.curr_ch() != '\n'
        }
    }

    /// Whether the cursor stands short of a block comment terminator.
    fn at_not_block_end(&self) -> (r: bool)
        requires
            self.wf(),
        ensures
            r == (self.cursor.pos < self.src().len() && !spec_block_end_at(
                self.src(),
                self.cursor.pos as int,
            )),
    {
        if !self.not_eof() {
            false
        } else {
            match self.check_comment() {
                Option::Some(CommentType::MultiLineEnd) => false,
                _ => true,
            }
        }
    }

    /// Whether a comment opens at the cursor.
    fn at_comment(&self) -> (r: bool)
        requires
            self.wf(),
        ensures
            r == (spec_line_comment_at(self.src(), self.cursor.pos as int)
                || spec_block_comment_at(self.src(), self.cursor.pos as int)),
    {
        match self.check_comment() {
            Option::Some(CommentType::SingleLine) => true,
            Option::Some(CommentType::MultiLineStart) => true,
            _ => false,
        }
    }

    /// Whether a line comment opens at the cursor.
    fn at_line_comment(&self) -> (r: bool)
        requires
            self.wf(),
        ensures
            r == spec_line_comment_at(self.src(), self.cursor.pos as int),
    {
        match self.check_comment() {
            Option::Some(CommentType::SingleLine) => true,
            _ => false,
        }
    }

    /// Consume a line comment through its line break, or to the end of
    /// the input.
    fn skip_line_comment(&mut self)
        requires
            old(self).wf(),
            spec_line_comment_at(old(self).src(), old(self).cursor.pos as int),
        ensures
            final(self).wf(),
            final(self).code == old(self).code,
            final(self).chars == old(self).chars,
            final(self).gen == old(self).gen,
            final(self).cursor.pos == spec_find_nl(old(self).src(), old(self).cursor.pos + 2),
    {
        let c0 = self.curr_ch();
        self.cursor_next(c0);
        let c1 = self.curr_ch();
        self.cursor_next(c1);
        while self.at_not_nl()
            invariant
                self.wf(),
                self.code == old(self).code,
                self.chars == old(self).chars,
                self.gen == old(self).gen,
                spec_find_nl(self.src(), self.cursor.pos as int) == spec_find_nl(
                    old(self).src(),
                    old(self).cursor.pos + 2,
                ),
            decreases self.src().len() - self.cursor.pos,
        {
            let c = self.curr_ch();
            self.cursor_next(c);
        }
        if self.not_eof() {
            let c = self.curr_ch();
            self.cursor_next(c);
        }
    }

    /// Consume a block comment through its terminator; without one the
    /// comment is invalid, reported at its opening position.
    fn skip_block_comment(&mut self) -> (r: Result<(), ParseError>)
        requires
            old(self).wf(),
            spec_block_comment_at(old(self).src(), old(self).cursor.pos as int),
        ensures
            final(self).wf(),
            final(self).code == old(self).code,
            final(self).chars == old(self).chars,
            final(self).gen == old(self).gen,
            match spec_find_block_end(old(self).src(), old(self).cursor.pos + 2) {
                Option::Some(q) => r is Ok && final(self).cursor.pos == q,
                Option::None => r matches Result::Err(e) && e.msg@ == "Invalid comment"@
                    && e.cursor == old(self).cursor,
            },
    {
        let start = self.curr_cur();
        let c0 = self.curr_ch();
        self.cursor_next(c0);
        let c1 = self.curr_ch();
        self.cursor_next(c1);
        while self.at_not_block_end()
            invariant
                self.wf(),
                self.code == old(self).code,
                self.chars == old(self).chars,
                self.gen == old(self).gen,
                spec_find_block_end(self.src(), self.cursor.pos as int) == spec_find_block_end(
                    old(self).src(),
                    old(self).cursor.pos + 2,
                ),
            decreases self.src().len() - self.cursor.pos,
        {
            let c = self.curr_ch();
            self.cursor_next(c);
        }
        if self.not_eof() {
            let c2 = self.curr_ch();
            self.cursor_next(c2);
            let c3 = self.curr_ch();
            self.cursor_next(c3);
            Result::Ok(())
        } else {
            Result::Err(ParseError { msg: "Invalid comment".to_owned(), cursor: start })
        }
    }

    /// Skip whitespace and comments until neither applies.
    fn eat_comments(&mut self) -> (r: Result<(), ParseError>)
        requires
            old(self).wf(),
        ensures
            final(self).wf(),
            final(self).code == old(self).code,
            final(self).chars == old(self).chars,
            final(self).gen == old(self).gen,
            match spec_skip_junk(old(self).src(), old(self).cursor.pos as int) {
                Result::Ok(q) => r is Ok && final(self).cursor.pos == q,
                Result::Err(e) => r matches Result::Err(pe) && pe.msg@ == "Invalid comment"@
                    && spec_cursor_at(pe.cursor, old(self).src(), e),
            },
    {
        proof {
            lemma_skip_junk_ws(self.src(), self.cursor.pos as int);
            lemma_skip_ws_bounds(self.src(), self.cursor.pos as int);
            lemma_skip_ws_not_ws(self.src(), self.cursor.pos as int);
        }
        self.eat_whitespace();
        while self.at_comment()
            invariant
                self.wf(),
                self.code == old(self).code,
                self.chars == old(self).chars,
                self.gen == old(self).gen,
                self.cursor.pos >= self.src().len() || !is_unicode_whitespace(
                    self.src()[self.cursor.pos as int],
                ),
                spec_skip_junk(self.src(), self.cursor.pos as int) == spec_skip_junk(
                    old(self).src(),
                    old(self).cursor.pos as int,
                ),
            decreases self.src().len() - self.cursor.pos,
        {
            let ghost here = self.cursor.pos as int;
            if self.at_line_comment() {
                proof {
                    lemma_find_nl_bounds(self.src(), here + 2);
                }
                self.skip_line_comment();
            } else {
                proof {
                    lemma_find_block_end_bounds(self.src(), here + 2);
                }
                match self.skip_block_comment() {
                    Result::Ok(()) => {},
                    Result::Err(e) => {
                        return Result::Err(e);
                    },
                }
            }
            proof {
                assert(spec_skip_junk(self.src(), here) == spec_skip_junk(
                    self.src(),
                    self.cursor.pos as int,
                ));
                lemma_skip_junk_ws(self.src(), self.cursor.pos as int);
                lemma_skip_ws_bounds(self.src(), self.cursor.pos as int);
                lemma_skip_ws_not_ws(self.src(), self.cursor.pos as int);
            }
            self.eat_whitespace();
        }
        Result::Ok(())
    }

    /// Require a comma, unless whitespace, a comment, or the end of the
    /// input already separates the tokens; skip any junk around it.
    fn eat_comma(&mut self) -> (r: Result<Token, ParseError>)
        requires
            old(self).wf(),
        ensures
            final(self).wf(),
            final(self).code == old(self).code,
            final(self).chars == old(self).chars,
            final(self).gen == old(self).gen,
            match spec_expect_comma(old(self).src(), old(self).cursor.pos as int) {
                Result::Ok(q) => r is Ok && final(self).cursor.pos == q,
                Result::Err(e) => r matches Result::Err(pe) && pe.msg@ == e.0 && spec_cursor_at(
                    pe.cursor,
                    old(self).src(),
                    e.1,
                ),
            },
    {
        let cur = self.curr_cur();
        match self.eat_comments() {
            Result::Ok(()) => {},
            Result::Err(e) => {
                return Result::Err(e);
            },
        }
        if self.not_eof() {
            let c = self.curr_ch();
            if c == ',' {
                self.cursor_next(c);
                match self.eat_comments() {
                    Result::Ok(()) => {},
                    Result::Err(e) => {
                        return Result::Err(e);
                    },
                }
                return Result::Ok(
                    Token { value: TokenValue::Comma, cursor: (cur, self.curr_cur()) },
                );
            }
            if self.curr_pos() > cur.pos {
                return Result::Ok(
                    Token { value: TokenValue::Comma, cursor: (cur, self.curr_cur()) },
                );
            }
            return Result::Err(ParseError { msg: "Expected comma".to_owned(), cursor: cur });
        }
        Result::Ok(Token { value: TokenValue::Comma, cursor: (cur, self.curr_cur()) })
    }

    /// Whether the cursor stands on an identifier character.
    fn at_ident_char(&self) -> (r: bool)
        requires
            self.wf(),
        ensures
            r == (self.cursor.pos < self.src().len() && (is_unicode_alphanumeric(
                self.src()[self.cursor.pos as int],
            ) || self.src()[self.cursor.pos as int] == '_')),
    {
        if !self.not_eof() {
            false
        } else {
            let c = self.curr_ch();
            char_is_alphanumeric(c) || c == '_'
        }
    }

    /// Read an alphanumeric-or-underscore run; it may be empty.
    fn read_ident(&mut self) -> (r: Result<Token, ParseError>)
        requires
            old(self).wf(),
        ensures
            final(self).wf(),
            final(self).code == old(self).code,
            final(self).chars == old(self).chars,
            final(self).gen == old(self).gen,
            final(self).cursor.pos == spec_ident_end(old(self).src(), old(self).cursor.pos as int),
            r matches Result::Ok(t) && t.value matches TokenValue::Ident(id) && id@
                == old(self).src().subrange(
                old(self).cursor.pos as int,
                final(self).cursor.pos as int,
            ) && t.cursor == (old(self).cursor, final(self).cursor),
    {
        let cur = self.curr_cur();
        let mut buf: Vec<char> = Vec::new();
        proof {
            assert(buf@ =~= self.src().subrange(
                self.cursor.pos as int,
                self.cursor.pos as int,
            ));
        }
        while self.at_ident_char()
            invariant
                self.wf(),
                self.code == old(self).code,
                self.chars == old(self).chars,
                self.gen == old(self).gen,
                old(self).cursor.pos <= self.cursor.pos,
                buf@ == self.src().subrange(old(self).cursor.pos as int, self.cursor.pos as int),
                spec_ident_end(self.src(), self.cursor.pos as int) == spec_ident_end(
                    old(self).src(),
                    old(self).cursor.pos as int,
                ),
            decreases self.src().len() - self.cursor.pos,
        {
            let c = self.curr_ch();
            buf.push(c);
            self.cursor_next(c);
            proof {
                assert(buf@ =~= self.src().subrange(
                    old(self).cursor.pos as int,
                    self.cursor.pos as int,
                ));
            }
        }
        let text = chars_to_string(&buf);
        Result::Ok(Token { value: TokenValue::Ident(text), cursor: (cur, self.curr_cur()) })
    }
}

pub proof fn lemma_pow10_pos(k: int)
    ensures
        spec_pow10(k) >= 1,
    decreases k,
{
    if k > 0 {
        lemma_pow10_pos(k - 1);
    }
}

pub proof fn lemma_pow10_mono(a: int, b: int)
    requires
        a <= b,
    ensures
        spec_pow10(a) <= spec_pow10(b),
    decreases b,
{
    if b > 0 && a < b {
        lemma_pow10_mono(a, b - 1);
        lemma_pow10_pos(b - 1);
    }
}

/// A digit string's value is below ten to its length.
pub proof fn lemma_digits_val_bound(t: Seq<char>)
    requires
        spec_all_digits(t),
    ensures
        0 <= spec_digits_val(t) < spec_pow10(t.len() as int),
    decreases t.len(),
{
    if t.len() > 0 {
        lemma_digits_val_bound(t.drop_last());
    } else {
        lemma_pow10_pos(0);
    }
}

fn is_digit_char(c: char) -> (r: bool)
    ensures
        r == spec_is_digit(c),
{
    let u = c as u32;
    48 <= u && u <= 57
}

/// Parse the collected characters of a number literal into a
/// fixed-point value: an optional minus, digits, at most one dot, the
/// fraction truncated past six digits, the magnitude saturated at the
/// `i64` range.  Any other shape is rejected.
fn parse_decimal(v: &Vec<char>) -> (r: Option<i64>)
    ensures
        spec_valid_number(v@) ==> r == Some(spec_number_value(v@)),
        !spec_valid_number(v@) ==> r is None,
{
    let n = v.len();
    let neg = n > 0 && v[0] == '-';
    let start: usize = if neg {
        1
    } else {
        0
    };
    let ghost t = v@;
    let ghost b = if neg {
        t.skip(1)
    } else {
        t
    };
    proof {
        assert(b =~= t.skip(start as int));
    }
    // find the first dot
    let mut d: usize = start;
    while d < n && v[d] != '.'
        invariant
            start <= d <= n,
            n == t.len(),
            t == v@,
            b == t.skip(start as int),
            spec_find_dot(b, 0) == spec_find_dot(b, d - start),
        decreases n - d,
    {
        proof {
            assert(b[d - start] == t[d as int]);
        }
        d = d + 1;
    }
    proof {
        assert(spec_find_dot(b, 0) == d - start);
    }
    let ghost ip = b.take(d - start);
    let ghost fp = if d < n {
        b.skip(d - start + 1)
    } else {
        Seq::<char>::empty()
    };
    proof {
        assert(spec_num_parts(t) == (neg, ip, fp));
    }
    // integer part: digits, accumulated with a cap just above the range
    let mut acc: u128 = 0;
    let mut j: usize = start;
    while j < d
        invariant
            start <= j <= d <= n,
            n == t.len(),
            t == v@,
            b == t.skip(start as int),
            ip == b.take(d - start),
            spec_num_parts(t) == (neg, ip, fp),
            spec_all_digits(ip.take(j - start)),
            spec_digits_val(ip.take(j - start)) >= 0x8000_0000_0000_0000 ==> acc
                == 0x8000_0000_0000_0000,
            spec_digits_val(ip.take(j - start)) < 0x8000_0000_0000_0000 ==> acc
                == spec_digits_val(ip.take(j - start)),
        decreases d - j,
    {
        let c = v[j];
        proof {
            assert(ip[j - start] == b[j - start]);
            assert(b[j - start] == t[j as int]);
        }
        if !is_digit_char(c) {
            proof {
                assert(!spec_all_digits(ip));
            }
            return Option::None;
        }
        let dv: u128 = (c as u32 - 48) as u128;
        let a10: u128 = if acc >= 0x8000_0000_0000_0000 {
            0x8000_0000_0000_0000
        } else {
            let w = acc * 10 + dv;
            if w >= 0x8000_0000_0000_0000 {
                0x8000_0000_0000_0000
            } else {
                w
            }
        };
        proof {
            let pre = ip.take(j - start);
            let post = ip.take(j + 1 - start);
            assert(post.drop_last() =~= pre);
            assert(post.last() == ip[j - start]);
            assert(spec_digits_val(post) == spec_digits_val(pre) * 10 + spec_digit_val(c));
            lemma_digits_val_bound(pre);
        }
        acc = a10;
        j = j + 1;
    }
    proof {
        assert(ip.take(d - start) =~= ip);
    }
    // fraction part: digits, the first six kept
    let mut facc: u128 = 0;
    let mut flen: usize = 0;
    let ghost f6 = if fp.len() > 6 {
        fp.take(6)
    } else {
        fp
    };
    if d < n {
        let mut k: usize = d + 1;
        while k < n
            invariant
                d + 1 <= k <= n,
                n == t.len(),
                t == v@,
                b == t.skip(start as int),
                start <= d < n,
                fp == b.skip(d - start + 1),
                spec_num_parts(t) == (neg, ip, fp),
                f6 == (if fp.len() > 6 {
                    fp.take(6)
                } else {
                    fp
                }),
                spec_all_digits(fp.take(k - d - 1)),
                flen == (if k - d - 1 <= 6 {
                    k - d - 1
                } else {
                    6
                }),
                facc == spec_digits_val(f6.take(flen as int)),
                facc < 1_000_000,
            decreases n - k,
        {
            let c = v[k];
            proof {
                assert(fp[k - d - 1] == b[k - start]);
                assert(b[k - start] == t[k as int]);
            }
            if !is_digit_char(c) {
                proof {
                    assert(!spec_all_digits(fp));
                }
                return Option::None;
            }
            if flen < 6 {
                let dv: u128 = (c as u32 - 48) as u128;
                proof {
                    let pre = f6.take(flen as int);
                    let post = f6.take(flen + 1);
                    assert(f6[flen as int] == fp[flen as int]);
                    assert(fp[flen as int] == fp[k - d - 1]);
                    assert(post.drop_last() =~= pre);
                    assert(post.last() == f6[flen as int]);
                    assert(spec_digits_val(post) == spec_digits_val(pre) * 10 + spec_digit_val(c));
                }
                facc = facc * 10 + dv;
                flen = flen + 1;
            }
            proof {
                assert(fp.take(k + 1 - d - 1) =~= fp.take(k - d - 1).push(t[k as int]));
                assert(forall|x: int|
                    0 <= x < k + 1 - d - 1 ==> spec_is_digit(#[trigger] fp.take(k + 1 - d - 1)[x]));
                let fl = flen as int;
                lemma_digits_val_bound(f6.take(fl));
                lemma_pow10_mono(fl, 6);
                reveal_with_fuel(spec_pow10, 7);
                assert(spec_pow10(6) == 1_000_000);
            }
            k = k + 1;
        }
    }
    // at least one digit
    let frac_digits: usize = if d < n {
        n - d - 1
    } else {
        0
    };
    if d == start && frac_digits == 0 {
        proof {
            assert(ip.len() + fp.len() == 0);
        }
        return Option::None;
    }
    proof {
        assert(spec_all_digits(fp.take(fp.len() as int)));
        assert(fp.take(fp.len() as int) =~= fp);
        assert(spec_valid_number(t));
    }
    // scale the kept fraction digits to millionths
    let sc: u128 = if flen == 0 {
        facc * 1_000_000
    } else if flen == 1 {
        facc * 100_000
    } else if flen == 2 {
        facc * 10_000
    } else if flen == 3 {
        facc * 1_000
    } else if flen == 4 {
        facc * 100
    } else if flen == 5 {
        facc * 10
    } else {
        facc
    };
    proof {
        reveal_with_fuel(spec_pow10, 7);
        assert(f6.take(flen as int) =~= f6);
        assert(sc == spec_frac_scaled(fp));
    }
    // assemble the magnitude
    if acc >= 0x8000_0000_0000_0000 {
        proof {
            let mag = spec_digits_val(ip) * 1_000_000 + spec_frac_scaled(fp);
            assert(mag > i64::MAX);
            assert(-mag < i64::MIN);
        }
        if neg {
            Option::Some(i64::MIN)
        } else {
            Option::Some(i64::MAX)
        }
    } else {
        let m: i128 = acc as i128 * 1_000_000 + sc as i128;
        let val = if neg {
            crate::fixed::clip_i128(-m)
        } else {
            crate::fixed::clip_i128(m)
        };
        Option::Some(val)
    }
}

/// Read `n` parameters from `p`: before each, junk is skipped, a number
/// literal is read, and its separator is expected.
pub open spec fn spec_read_params(s: Seq<char>, p: int, n: int) -> Result<
    (Seq<i64>, int),
    (Seq<char>, int),
>
    decreases n,
{
    if n <= 0 {
        Result::Ok((Seq::empty(), p))
    } else {
        match spec_skip_junk(s, p) {
            Result::Err(e) => Result::Err(("Invalid comment"@, e)),
            Result::Ok(p1) => {
                let pe = spec_number_end(s, p1);
                let txt = s.subrange(p1, pe);
                if !spec_valid_number(txt) {
                    Result::Err(("Invalid number '"@ + txt + "'"@, p1))
                } else {
                    match spec_expect_comma(s, pe) {
                        Result::Err(e) => Result::Err(e),
                        Result::Ok(p2) => match spec_read_params(s, p2, n - 1) {
                            Result::Err(e) => Result::Err(e),
                            Result::Ok(rest) => Result::Ok(
                                (seq![spec_number_value(txt)] + rest.0, rest.1),
                            ),
                        },
                    }
                }
            },
        }
    }
}

pub proof fn lemma_read_params_len(s: Seq<char>, p: int, n: int)
    requires
        n >= 0,
    ensures
        spec_read_params(s, p, n) matches Ok(pr) ==> pr.0.len() == n,
    decreases n,
{
    if n > 0 {
        match spec_skip_junk(s, p) {
            Result::Err(_) => {},
            Result::Ok(p1) => {
                let pe = spec_number_end(s, p1);
                let txt = s.subrange(p1, pe);
                if spec_valid_number(txt) {
                    match spec_expect_comma(s, pe) {
                        Result::Err(_) => {},
                        Result::Ok(p2) => {
                            lemma_read_params_len(s, p2, n - 1);
                        },
                    }
                }
            },
        }
    }
}

/// One operation from `p`: leading whitespace, an identifier, its
/// separator, the registry lookup, then exactly the declared number of
/// parameters.  An unresolved identifier reports, at the identifier's
/// first character: an empty name, or the name with a close suggestion,
/// or the name alone.
pub open spec fn spec_parse_op(s: Seq<char>, p: int) -> Result<
    ((VecOpsType, Seq<i64>), int),
    (Seq<char>, int),
> {
    let p0 = spec_skip_ws(s, p);
    let ie = spec_ident_end(s, p0);
    let ident = s.subrange(p0, ie);
    match spec_expect_comma(s, ie) {
        Result::Err(e) => Result::Err(e),
        Result::Ok(p1) => match spec_match_command(upper_of(ident)) {
            Result::Ok(kind) => match spec_read_params(s, p1, spec_argc(kind)) {
                Result::Err(e) => Result::Err(e),
                Result::Ok(pr) => Result::Ok(((kind, pr.0), pr.1)),
            },
            Result::Err(sugg) => if ident.len() == 0 {
                Result::Err(("Empty op type"@, p0))
            } else if sugg.len() > 0 {
                Result::Err(
                    ("Invalid op type '"@ + ident + "', maybe it is '"@ + sugg + "'"@, p0),
                )
            } else {
                Result::Err(("Invalid op type '"@ + ident + "'"@, p0))
            },
        },
    }
}

/// All operations from `p` to the end of the input.  An operation that
/// consumed nothing cannot advance the parse and is reported as an
/// empty name; with a real registry a resolved name is never empty, so
/// the guard only keeps the recursion well-founded.
pub open spec fn spec_parse_ops(s: Seq<char>, p: int) -> Result<
    Seq<(VecOpsType, Seq<i64>)>,
    (Seq<char>, int),
>
    decreases s.len() - p,
    when 0 <= p <= s.len()
{
    if p >= s.len() {
        Result::Ok(Seq::empty())
    } else {
        match spec_parse_op(s, p) {
            Result::Err(e) => Result::Err(e),
            Result::Ok(cp) => if p < cp.1 <= s.len() {
                match spec_parse_ops(s, cp.1) {
                    Result::Err(e) => Result::Err(e),
                    Result::Ok(rest) => Result::Ok(seq![cp.0] + rest),
                }
            } else {
                Result::Err(("Empty op type"@, p))
            },
        }
    }
}

/// A whole program from position `p`: leading junk, then operations to
/// the end of the input.
pub open spec fn spec_parse_at(s: Seq<char>, p: int) -> Result<
    Seq<(VecOpsType, Seq<i64>)>,
    (Seq<char>, int),
> {
    match spec_skip_junk(s, p) {
        Result::Err(e) => Result::Err(("Invalid comment"@, e)),
        Result::Ok(q) => spec_parse_ops(s, q),
    }
}

/// A whole program.
pub open spec fn spec_parse(s: Seq<char>) -> Result<
    Seq<(VecOpsType, Seq<i64>)>,
    (Seq<char>, int),
> {
    spec_parse_at(s, 0)
}

/// The kinds and arguments of a command sequence.
pub open spec fn cmds_view(ops: Seq<Command>) -> Seq<(VecOpsType, Seq<i64>)> {
    ops.map_values(|c: Command| (c.dsc, c.args()))
}

/// Parameters already read, prepended to the rest of the read.
pub open spec fn spec_cat_params(
    done: Seq<i64>,
    rest: Result<(Seq<i64>, int), (Seq<char>, int)>,
) -> Result<(Seq<i64>, int), (Seq<char>, int)> {
    match rest {
        Result::Ok(pr) => Result::Ok((done + pr.0, pr.1)),
        Result::Err(e) => Result::Err(e),
    }
}

/// Operations already parsed, prepended to the rest of the parse.
pub open spec fn spec_cat_cmds(
    done: Seq<(VecOpsType, Seq<i64>)>,
    rest: Result<Seq<(VecOpsType, Seq<i64>)>, (Seq<char>, int)>,
) -> Result<Seq<(VecOpsType, Seq<i64>)>, (Seq<char>, int)> {
    match rest {
        Result::Ok(cs) => Result::Ok(done + cs),
        Result::Err(e) => Result::Err(e),
    }
}

impl CodeParser {
    /// Whether the cursor stands on a character collected into number
    /// literals.
    fn at_num_char(&self) -> (r: bool)
        requires
            self.wf(),
        ensures
            r == (self.cursor.pos < self.src().len() && (self.src()[self.cursor.pos as int] == '-'
                || is_unicode_numeric(self.src()[self.cursor.pos as int])
                || self.src()[self.cursor.pos as int] == '.')),
    {
        if !self.not_eof() {
            false
        } else {
            let c = self.curr_ch();
            c == '-' || char_is_numeric(c) || c == '.'
        }
    }

    /// Read a number literal: the collected run must be a valid decimal,
    /// else the error names it, at its first character.
    fn read_number(&mut self) -> (r: Result<Token, ParseError>)
        requires
            old(self).wf(),
        ensures
            final(self).wf(),
            final(self).code == old(self).code,
            final(self).chars == old(self).chars,
            final(self).gen == old(self).gen,
            final(self).cursor.pos == spec_number_end(
                old(self).src(),
                old(self).cursor.pos as int,
            ),
            ({
                let txt = old(self).src().subrange(
                    old(self).cursor.pos as int,
                    spec_number_end(old(self).src(), old(self).cursor.pos as int),
                );
                if spec_valid_number(txt) {
                    r matches Result::Ok(t) && t.value matches TokenValue::Number(x) && x
                        == spec_number_value(txt) && t.cursor == (
                    old(self).cursor,
                    final(self).cursor,
                    )
                } else {
                    r matches Result::Err(e) && e.msg@ == "Invalid number '"@ + txt + "'"@
                        && e.cursor == old(self).cursor
                }
            }),
    {
        let cur = self.curr_cur();
        let mut buf: Vec<char> = Vec::new();
        proof {
            assert(buf@ =~= self.src().subrange(
                self.cursor.pos as int,
                self.cursor.pos as int,
            ));
        }
        while self.at_num_char()
            invariant
                self.wf(),
                self.code == old(self).code,
                self.chars == old(self).chars,
                self.gen == old(self).gen,
                old(self).cursor.pos <= self.cursor.pos,
                buf@ == self.src().subrange(old(self).cursor.pos as int, self.cursor.pos as int),
                spec_number_end(self.src(), self.cursor.pos as int) == spec_number_end(
                    old(self).src(),
                    old(self).cursor.pos as int,
                ),
            decreases self.src().len() - self.cursor.pos,
        {
            let c = self.curr_ch();
            buf.push(c);
            self.cursor_next(c);
            proof {
                assert(buf@ =~= self.src().subrange(
                    old(self).cursor.pos as int,
                    self.cursor.pos as int,
                ));
            }
        }
        match parse_decimal(&buf) {
            Option::Some(x) => Result::Ok(
                Token { value: TokenValue::Number(x), cursor: (cur, self.curr_cur()) },
            ),
            Option::None => {
                let text = chars_to_string(&buf);
                let mut msg = "Invalid number '".to_owned();
                msg.append(text.as_str());
                msg.append("'");
                proof {
                    assert(msg@ =~= "Invalid number '"@ + buf@ + "'"@);
                }
                Result::Err(ParseError { msg, cursor: cur })
            },
        }
    }
}

impl CodeParser {
    /// Read `n` numeric parameters, each followed by its separator.
    fn read_n_params(&mut self, n: usize) -> (r: Result<Vec<i64>, ParseError>)
        requires
            old(self).wf(),
        ensures
            final(self).wf(),
            final(self).code == old(self).code,
            final(self).chars == old(self).chars,
            final(self).gen == old(self).gen,
            match spec_read_params(old(self).src(), old(self).cursor.pos as int, n as int) {
                Result::Ok(pr) => r matches Result::Ok(v) && v@ == pr.0 && final(self).cursor.pos
                    == pr.1,
                Result::Err(e) => r matches Result::Err(pe) && pe.msg@ == e.0 && spec_cursor_at(
                    pe.cursor,
                    old(self).src(),
                    e.1,
                ),
            },
    {
        let mut params: Vec<i64> = Vec::new();
        let mut k: usize = 0;
        proof {
            match spec_read_params(self.src(), self.cursor.pos as int, n as int) {
                Result::Ok(pr) => {
                    assert(Seq::<i64>::empty() + pr.0 =~= pr.0);
                },
                Result::Err(_) => {},
            }
        }
        while k < n
            invariant
                self.wf(),
                self.code == old(self).code,
                self.chars == old(self).chars,
                self.gen == old(self).gen,
                k <= n,
                params@.len() == k,
                spec_cat_params(
                    params@,
                    spec_read_params(self.src(), self.cursor.pos as int, n - k),
                ) == spec_read_params(old(self).src(), old(self).cursor.pos as int, n as int),
            decreases n - k,
        {
            let ghost pre = self.cursor.pos as int;
            let ghost done = params@;
            match self.eat_comments() {
                Result::Ok(()) => {},
                Result::Err(e) => {
                    return Result::Err(e);
                },
            }
            let tok = match self.read_number() {
                Result::Ok(t) => t,
                Result::Err(e) => {
                    return Result::Err(e);
                },
            };
            let x = match tok.value.into_number() {
                Result::Ok(x) => x,
                Result::Err(e) => {
                    proof {
                        assert(false);
                    }
                    return Result::Err(e);
                },
            };
            match self.eat_comma() {
                Result::Ok(_) => {},
                Result::Err(e) => {
                    return Result::Err(e);
                },
            }
            params.push(x);
            k = k + 1;
            proof {
                match spec_read_params(self.src(), self.cursor.pos as int, n - k) {
                    Result::Ok(pr) => {
                        assert(params@ + pr.0 =~= done + (seq![x] + pr.0));
                    },
                    Result::Err(_) => {},
                }
            }
        }
        proof {
            assert(params@ + Seq::<i64>::empty() =~= params@);
        }
        Result::Ok(params)
    }

    /// Parse one operation and append it to the program.
    fn parse_op(&mut self) -> (r: Result<(), ParseError>)
        requires
            old(self).wf(),
        ensures
            final(self).wf(),
            final(self).code == old(self).code,
            final(self).chars == old(self).chars,
            match spec_parse_op(old(self).src(), old(self).cursor.pos as int) {
                Result::Ok(cp) => r is Ok && final(self).cursor.pos == cp.1
                    && final(self).gen@.len() == old(self).gen@.len() + 1
                    && final(self).gen@.take(old(self).gen@.len() as int) == old(self).gen@
                    && final(self).gen@.last().wf() && final(self).gen@.last().dsc == cp.0.0
                    && final(self).gen@.last().args() == cp.0.1,
                Result::Err(e) => r matches Result::Err(pe) && pe.msg@ == e.0 && spec_cursor_at(
                    pe.cursor,
                    old(self).src(),
                    e.1,
                ) && final(self).gen == old(self).gen,
            },
    {
        self.eat_whitespace();
        let ident_tok = match self.read_ident() {
            Result::Ok(t) => t,
            Result::Err(e) => {
                proof {
                    assert(false);
                }
                return Result::Err(e);
            },
        };
        let ident_start = ident_tok.cursor.0;
        let ident_string = match ident_tok.value.into_string() {
            Result::Ok(s2) => s2,
            Result::Err(e) => {
                proof {
                    assert(false);
                }
                return Result::Err(e);
            },
        };
        match self.eat_comma() {
            Result::Ok(_) => {},
            Result::Err(e) => {
                return Result::Err(e);
            },
        }
        let cmd = CommonVecOpSyntax {}.match_command(ident_string.as_str());
        match cmd {
            Result::Ok(mut c) => {
                let argc = kind_argc(c.dsc);
                proof {
                    lemma_read_params_len(self.src(), self.cursor.pos as int, argc as int);
                }
                let params = match self.read_n_params(argc) {
                    Result::Ok(v) => v,
                    Result::Err(e) => {
                        return Result::Err(e);
                    },
                };
                c.pack(AnyData::convert_vec(params));
                self.gen.add(c);
                proof {
                    assert(self.gen@.take(old(self).gen@.len() as int) =~= old(self).gen@);
                    assert(self.gen@.last().args() =~= spec_args(self.gen@.last().argv@));
                }
                Result::Ok(())
            },
            Result::Err(maybe_cmd) => {
                if ident_string.as_str().is_empty() {
                    Result::Err(
                        ParseError { msg: "Empty op type".to_owned(), cursor: ident_start },
                    )
                } else if !maybe_cmd.as_str().is_empty() {
                    let mut msg = "Invalid op type '".to_owned();
                    msg.append(ident_string.as_str());
                    msg.append("', maybe it is '");
                    msg.append(maybe_cmd.as_str());
                    msg.append("'");
                    proof {
                        assert(msg@ =~= "Invalid op type '"@ + ident_string@ + "', maybe it is '"@
                            + maybe_cmd@ + "'"@);
                    }
                    Result::Err(ParseError { msg, cursor: ident_start })
                } else {
                    let mut msg = "Invalid op type '".to_owned();
                    msg.append(ident_string.as_str());
                    msg.append("'");
                    proof {
                        assert(msg@ =~= "Invalid op type '"@ + ident_string@ + "'"@);
                    }
                    Result::Err(ParseError { msg, cursor: ident_start })
                }
            },
        }
    }

    /// Parse the whole source, appending every operation to the
    /// program; the first failure aborts the parse and is returned.
    pub fn parse(&mut self) -> (r: Result<(), ParseError>)
        requires
            old(self).wf(),
        ensures
            final(self).wf(),
            final(self).code == old(self).code,
            final(self).chars == old(self).chars,
            match spec_parse_at(old(self).src(), old(self).cursor.pos as int) {
                Result::Ok(cmds) => r is Ok
                    && final(self).gen@.len() == old(self).gen@.len() + cmds.len()
                    && final(self).gen@.take(old(self).gen@.len() as int) == old(self).gen@
                    && cmds_view(final(self).gen@.skip(old(self).gen@.len() as int)) == cmds,
                Result::Err(e) => r matches Result::Err(pe) && pe.msg@ == e.0 && spec_cursor_at(
                    pe.cursor,
                    old(self).src(),
                    e.1,
                ),
            },
    {
        let ghost oldlen = old(self).gen@.len() as int;
        match self.eat_comments() {
            Result::Ok(()) => {},
            Result::Err(e) => {
                return Result::Err(e);
            },
        }
        let ghost p1 = self.cursor.pos as int;
        proof {
            assert(self.gen@.skip(oldlen) =~= Seq::<Command>::empty());
            assert(cmds_view(Seq::<Command>::empty()) =~= Seq::<(VecOpsType, Seq<i64>)>::empty());
            match spec_parse_ops(self.src(), p1) {
                Result::Ok(cs) => {
                    assert(Seq::<(VecOpsType, Seq<i64>)>::empty() + cs =~= cs);
                },
                Result::Err(_) => {},
            }
        }
        while self.not_eof()
            invariant
                self.wf(),
                self.code == old(self).code,
                self.chars == old(self).chars,
                oldlen == old(self).gen@.len(),
                self.gen@.len() >= oldlen,
                self.gen@.take(oldlen) == old(self).gen@,
                spec_skip_junk(old(self).src(), old(self).cursor.pos as int) == Result::<
                    int,
                    int,
                >::Ok(p1),
                spec_cat_cmds(
                    cmds_view(self.gen@.skip(oldlen)),
                    spec_parse_ops(self.src(), self.cursor.pos as int),
                ) == spec_parse_ops(old(self).src(), p1),
            decreases self.src().len() - self.cursor.pos,
        {
            let cur0 = self.curr_cur();
            let pre_pos = self.curr_pos();
            let ghost pre_gen = self.gen@;
            match self.parse_op() {
                Result::Ok(()) => {},
                Result::Err(e) => {
                    return Result::Err(e);
                },
            }
            if self.curr_pos() <= pre_pos {
                return Result::Err(
                    ParseError { msg: "Empty op type".to_owned(), cursor: cur0 },
                );
            }
            proof {
                let c = self.gen@.last();
                let pair = (c.dsc, c.args());
                assert(self.gen@.skip(oldlen) =~= pre_gen.skip(oldlen).push(c));
                assert(cmds_view(pre_gen.skip(oldlen).push(c)) =~= cmds_view(
                    pre_gen.skip(oldlen),
                ).push(pair));
                assert(self.gen@.take(oldlen) =~= pre_gen.take(oldlen));
                match spec_parse_ops(self.src(), self.cursor.pos as int) {
                    Result::Ok(cs) => {
                        assert(cmds_view(pre_gen.skip(oldlen)).push(pair) + cs =~= cmds_view(
                            pre_gen.skip(oldlen),
                        ) + (seq![pair] + cs));
                    },
                    Result::Err(_) => {},
                }
            }
        }
        proof {
            match spec_parse_ops(old(self).src(), p1) {
                Result::Ok(_) => {
                    assert(cmds_view(self.gen@.skip(oldlen)) + Seq::<(VecOpsType, Seq<i64>)>::empty()
                        =~= cmds_view(self.gen@.skip(oldlen)));
                },
                Result::Err(_) => {},
            }
        }
        Result::Ok(())
    }
}

} // verus!
