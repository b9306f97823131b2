//! From source text to tokens.
//!
//! `(`, `)`, `;` and `@` are tokens of their own; `[` and `]` at the start
//! of a word count for nothing. A quote opens a string that ends at the next
//! white space; two quotes open a string that ends at the next two quotes. A
//! digit opens a number. Any other character that is not a lowercase letter
//! opens an identifier, which ends at white space or at one of `(`, `)`, `;`.
//! What begins with a lowercase letter is passed over, letter by letter.

use vstd::prelude::*;
use crate::error::{SyntaxError, SyntaxErrorKind};
use crate::text::{
    alphabetic, chars_of, integer_of, parse_integer, string_of, uppercase, whitespace,
};
use crate::token::{Token, TokenData, TokenDataModel, TokenModel, tokens_view};

verus! {

/// Whether a character is a decimal digit.
pub open spec fn digit(c: char) -> bool {
    '0' <= c <= '9'
}

/// The runs of characters that make up a token.
#[derive(Clone, Copy, Debug, PartialEq, Eq, Structural)]
pub enum Run {
    /// Up to white space or one of `(`, `)`, `;`.
    Identifier,
    /// Up to white space.
    Word,
    /// Decimal digits.
    Digits,
}

/// Whether `c` ends a run.
pub open spec fn stops(run: Run, c: char) -> bool {
    match run {
        Run::Identifier => whitespace(c) || c == '(' || c == ')' || c == ';',
        Run::Word => whitespace(c),
        Run::Digits => !digit(c),
    }
}

/// Where the run that starts at `from` ends: the first place from there on
/// whose character ends the run, or the end of the text.
pub open spec fn run_end(src: Seq<char>, from: int, run: Run) -> int
    decreases src.len() - from,
{
    if from < 0 || from >= src.len() {
        from
    } else if stops(run, src[from]) {
        from
    } else {
        run_end(src, from + 1, run)
    }
}

/// Where the string that starts at `from` is closed: the first place from
/// there on that holds the first of two quotes, or the end of the text.
pub open spec fn closing(src: Seq<char>, from: int) -> int
    decreases src.len() - from,
{
    if from < 0 || from >= src.len() {
        from
    } else if src[from] == '"' && from + 1 < src.len() && src[from + 1] == '"' {
        from
    } else {
        closing(src, from + 1)
    }
}

/// The number of line ends in `src[from..to]`.
pub open spec fn newlines(src: Seq<char>, from: int, to: int) -> nat
    decreases to - from,
{
    if from < 0 || from >= to || to > src.len() {
        0
    } else {
        newlines(src, from, to - 1) + if src[to - 1] == '\n' {
            1nat
        } else {
            0nat
        }
    }
}

/// The line number `n` lines after `line`; it stops at the largest number.
pub open spec fn line_after(line: u64, n: nat) -> u64 {
    if line + n > u64::MAX {
        u64::MAX
    } else {
        (line + n) as u64
    }
}

/// What the scanner makes of the text at one place: the token, if there is
/// one, the place where it goes on, and the line it is on then.
pub struct Lexed {
    pub token: Option<TokenDataModel>,
    pub next: int,
    pub line: u64,
}

/// The step of the scanner that finds no fault.
pub open spec fn plain(token: Option<TokenDataModel>, next: int, line: u64) -> Result<
    Lexed,
    SyntaxError,
> {
    Ok(Lexed { token, next, line })
}

/// One step of the scanner, at a place `pos` inside the text.
pub open spec fn lex(src: Seq<char>, pos: int, line: u64) -> Result<Lexed, SyntaxError>
    recommends
        0 <= pos < src.len(),
{
    let c = src[pos];
    if c == '(' {
        plain(Some(TokenDataModel::LeftParen), pos + 1, line)
    } else if c == ')' {
        plain(Some(TokenDataModel::RightParen), pos + 1, line)
    } else if c == ';' {
        plain(Some(TokenDataModel::Semicolon), pos + 1, line)
    } else if c == '@' {
        plain(Some(TokenDataModel::Capture), pos + 1, line)
    } else if c == '[' || c == ']' {
        plain(None, pos + 1, line)
    } else if c == '"' {
        if pos + 1 < src.len() && src[pos + 1] == '"' {
            let close = closing(src, pos + 2);
            let end_line = line_after(line, newlines(src, pos + 2, close));
            if close >= src.len() {
                Err(SyntaxError { line: end_line, kind: SyntaxErrorKind::UnterminatedString })
            } else {
                plain(
                    Some(TokenDataModel::String(src.subrange(pos + 2, close))),
                    close + 2,
                    end_line,
                )
            }
        } else {
            let end = run_end(src, pos + 1, Run::Word);
            plain(Some(TokenDataModel::String(src.subrange(pos + 1, end))), end, line)
        }
    } else if c == '\n' {
        plain(None, pos + 1, line_after(line, 1))
    } else if whitespace(c) {
        plain(None, pos + 1, line)
    } else if digit(c) {
        let whole = run_end(src, pos + 1, Run::Digits);
        if whole + 1 < src.len() && src[whole] == '.' && digit(src[whole + 1]) {
            let end = run_end(src, whole + 1, Run::Digits);
            plain(Some(TokenDataModel::DecimalText(src.subrange(pos, end))), end, line)
        } else {
            match integer_of(src.subrange(pos, whole)) {
                Some(n) => plain(Some(TokenDataModel::Integer(n)), whole, line),
                None => Err(SyntaxError { line, kind: SyntaxErrorKind::NumberTooLarge }),
            }
        }
    } else if uppercase(c) || !alphabetic(c) {
        let end = run_end(src, pos + 1, Run::Identifier);
        plain(Some(TokenDataModel::Identifier(src.subrange(pos, end))), end, line)
    } else {
        plain(None, pos + 1, line)
    }
}

/// A run ends at or after the place where it starts, inside the text.
pub proof fn lemma_run_end(src: Seq<char>, from: int, run: Run)
    requires
        0 <= from <= src.len(),
    ensures
        from <= run_end(src, from, run) <= src.len(),
        run_end(src, from, run) < src.len() ==> stops(run, src[run_end(src, from, run)]),
        forall|i: int| from <= i < run_end(src, from, run) ==> !stops(run, #[trigger] src[i]),
    decreases src.len() - from,
{
    if from < src.len() && !stops(run, src[from]) {
        lemma_run_end(src, from + 1, run);
    }
}

/// The closing quotes stand at or after the place where the string starts,
/// inside the text.
pub proof fn lemma_closing(src: Seq<char>, from: int)
    requires
        0 <= from <= src.len(),
    ensures
        from <= closing(src, from) <= src.len(),
        closing(src, from) < src.len() ==> closing(src, from) + 1 < src.len(),
    decreases src.len() - from,
{
    if from < src.len() && !(src[from] == '"' && from + 1 < src.len() && src[from + 1] == '"') {
        lemma_closing(src, from + 1);
    }
}

/// Every step of the scanner moves on.
pub proof fn lemma_lex_moves_on(src: Seq<char>, pos: int, line: u64)
    requires
        0 <= pos < src.len(),
    ensures
        lex(src, pos, line) matches Ok(lexed) ==> pos < lexed.next <= src.len(),
{
    lemma_run_end(src, pos + 1, Run::Word);
    lemma_run_end(src, pos + 1, Run::Identifier);
    lemma_run_end(src, pos + 1, Run::Digits);
    let whole = run_end(src, pos + 1, Run::Digits);
    if whole + 1 < src.len() {
        lemma_run_end(src, whole + 1, Run::Digits);
    }
    if pos + 1 < src.len() {
        lemma_closing(src, pos + 2);
    }
}

/// The tokens that one step of the scanner adds.
pub open spec fn step_tokens(lexed: Lexed) -> Seq<TokenModel> {
    match lexed.token {
        Some(typ) => seq![TokenModel { typ, line: lexed.line }],
        None => Seq::empty(),
    }
}

/// `done` followed by what `rest` gives.
pub open spec fn followed(
    done: Seq<TokenModel>,
    rest: Result<Seq<TokenModel>, SyntaxError>,
) -> Result<
    Seq<TokenModel>,
    SyntaxError,
> {
    match rest {
        Ok(tokens) => Ok(done + tokens),
        Err(error) => Err(error),
    }
}

/// The tokens of the text from `pos` on, where `pos` is on line `line`, or
/// the first fault in it.
pub open spec fn scan(src: Seq<char>, pos: int, line: u64) -> Result<Seq<TokenModel>, SyntaxError>
    decreases src.len() - pos,
{
    if pos < 0 || pos >= src.len() {
        Ok(Seq::empty())
    } else {
        match lex(src, pos, line) {
            Err(error) => Err(error),
            Ok(lexed) => {
                proof {
                    lemma_lex_moves_on(src, pos, line);
                }
                followed(step_tokens(lexed), scan(src, lexed.next, lexed.line))
            },
        }
    }
}

fn is_digit(c: char) -> (res: bool)
    ensures
        res == digit(c),
{
    '0' <= c && c <= '9'
}

fn run_stops(run: Run, c: char) -> (res: bool)
    ensures
        res == stops(run, c),
{
    match run {
        Run::Identifier => c.is_whitespace() || c == '(' || c == ')' || c == ';',
        Run::Word => c.is_whitespace(),
        Run::Digits => !is_digit(c),
    }
}

/// A scanner at work on a text.
pub struct Scanner {
    source: Vec<char>,
    tokens: Vec<Token>,
    line: u64,
    start: usize,
    current: usize,
}

impl Scanner {
    /// The text.
    pub closed spec fn source(&self) -> Seq<char> {
        self.source@
    }

    /// The place up to which the text is scanned.
    pub closed spec fn position(&self) -> int {
        self.current as int
    }

    /// The line of that place.
    pub closed spec fn line(&self) -> u64 {
        self.line
    }

    /// The tokens found so far.
    pub closed spec fn found(&self) -> Seq<TokenModel> {
        tokens_view(self.tokens@)
    }

    /// A scanner at the start of `source`.
    pub fn new(source: &str) -> (res: Self)
        ensures
            res.source() == source@,
            res.position() == 0,
            res.line() == 1,
            res.found() == Seq::<TokenModel>::empty(),
    {
        let res = Scanner {
            source: chars_of(source),
            tokens: Vec::new(),
            line: 1,
            start: 0,
            current: 0,
        };
        assert(tokens_view(res.tokens@) =~= Seq::empty());
        res
    }

    /// Scans the rest of the text. The result is the tokens found before,
    /// followed by those of the rest, or the first fault in the rest.
    pub fn scan_tokens(self) -> (res: Result<Vec<Token>, SyntaxError>)
        ensures
            match res {
                Ok(tokens) => followed(
                    self.found(),
                    scan(self.source(), self.position(), self.line()),
                ) == Ok::<Seq<TokenModel>, SyntaxError>(tokens_view(tokens@)),
                Err(error) => followed(
                    self.found(),
                    scan(self.source(), self.position(), self.line()),
                ) == Err::<Seq<TokenModel>, SyntaxError>(error),
            },
    {
        let ghost goal = followed(self.found(), scan(self.source(), self.position(), self.line()));
        let mut scanner = self;
        while !scanner.is_at_end()
            invariant
                scanner.source@ == self.source@,
                goal == followed(
                    self.found(),
                    scan(self.source(), self.position(), self.line()),
                ),
                followed(
                    tokens_view(scanner.tokens@),
                    scan(scanner.source@, scanner.current as int, scanner.line),
                ) == goal,
            decreases scanner.source@.len() - scanner.current,
        {
            scanner.start = scanner.current;
            let ghost before = tokens_view(scanner.tokens@);
            let ghost pos = scanner.current as int;
            let ghost line = scanner.line;
            proof {
                lemma_lex_moves_on(scanner.source@, pos, line);
            }
            match scanner.scan_token() {
                Err(error) => {
                    assert(scan(scanner.source@, pos, line) == Err::<Seq<TokenModel>, SyntaxError>(
                        error,
                    ));
                    return Err(error);
                },
                Ok(_) => {
                    proof {
                        let lexed = lex(scanner.source@, pos, line)->Ok_0;
                        let rest = scan(scanner.source@, lexed.next, lexed.line);
                        assert(scan(scanner.source@, pos, line) == followed(
                            step_tokens(lexed),
                            rest,
                        ));
                        if rest is Ok {
                            let step = step_tokens(lexed);
                            assert((before + step) + rest->Ok_0 =~= before + (step + rest->Ok_0));
                        }
                    }
                },
            }
        }
        assert(tokens_view(scanner.tokens@) + Seq::<TokenModel>::empty() =~= tokens_view(
            scanner.tokens@,
        ));
        Ok(scanner.tokens)
    }

    fn is_at_end(&self) -> (res: bool)
        ensures
            res == (self.current >= self.source@.len()),
    {
        self.current >= self.source.len()
    }

    /// Makes one step at a place inside the text.
    fn scan_token(&mut self) -> (res: Result<(), SyntaxError>)
        requires
            old(self).current < old(self).source@.len(),
            old(self).start == old(self).current,
        ensures
            final(self).source@ == old(self).source@,
            match lex(old(self).source@, old(self).current as int, old(self).line) {
                Ok(lexed) => {
                    &&& res is Ok
                    &&& final(self).current == lexed.next
                    &&& final(self).line == lexed.line
                    &&& tokens_view(final(self).tokens@) == tokens_view(old(self).tokens@)
                        + step_tokens(lexed)
                },
                Err(error) => res == Err::<(), SyntaxError>(error),
            },
    {
        let ghost before = tokens_view(self.tokens@);
        let c = self.advance();
        if c == '(' {
            self.add_token(TokenData::LeftParen);
        } else if c == ')' {
            self.add_token(TokenData::RightParen);
        } else if c == ';' {
            self.add_token(TokenData::Semicolon);
        } else if c == '@' {
            self.add_token(TokenData::Capture);
        } else if c == '[' || c == ']' {
            assert(before + Seq::<TokenModel>::empty() =~= before);
        } else if c == '"' {
            if self.peek() == '"' {
                return self.string();
            } else {
                self.short_string();
            }
        } else if c == '\n' {
            if self.line < u64::MAX {
                self.line += 1;
            }
            assert(before + Seq::<TokenModel>::empty() =~= before);
        } else if c.is_whitespace() {
            assert(before + Seq::<TokenModel>::empty() =~= before);
        } else if is_digit(c) {
            return self.number();
        } else if c.is_uppercase() || !c.is_alphabetic() {
            self.identifier();
        } else {
            assert(before + Seq::<TokenModel>::empty() =~= before);
        }
        Ok(())
    }

    fn advance(&mut self) -> (c: char)
        requires
            old(self).current < old(self).source@.len(),
        ensures
            c == old(self).source@[old(self).current as int],
            final(self).current == old(self).current + 1,
            final(self).source == old(self).source,
            final(self).tokens == old(self).tokens,
            final(self).line == old(self).line,
            final(self).start == old(self).start,
    {
        let n = self.source.len();
        let c = self.source[self.current];
        self.current += 1;
        c
    }

    fn peek(&self) -> (c: char)
        ensures
            c == if self.current < self.source@.len() {
                self.source@[self.current as int]
            } else {
                '\0'
            },
    {
        if self.is_at_end() {
            return '\0';
        }
        self.source[self.current]
    }

    fn peek_next(&self) -> (c: char)
        ensures
            c == if self.current + 1 < self.source@.len() {
                self.source@[self.current + 1]
            } else {
                '\0'
            },
    {
        if self.current >= self.source.len() || self.current + 1 >= self.source.len() {
            return '\0';
        }
        self.source[self.current + 1]
    }

    fn add_token(&mut self, typ: TokenData)
        ensures
            tokens_view(final(self).tokens@) == tokens_view(old(self).tokens@) + seq![
                TokenModel { typ: typ@, line: old(self).line },
            ],
            final(self).source == old(self).source,
            final(self).line == old(self).line,
            final(self).start == old(self).start,
            final(self).current == old(self).current,
    {
        self.tokens.push(Token { typ, line: self.line });
        assert(tokens_view(self.tokens@) =~= tokens_view(old(self).tokens@) + seq![
            TokenModel { typ: typ@, line: old(self).line },
        ]);
    }

    /// Moves on to where the run that starts here ends.
    fn skip_run(&mut self, run: Run)
        requires
            old(self).current <= old(self).source@.len(),
        ensures
            final(self).current == run_end(old(self).source@, old(self).current as int, run),
            final(self).current <= final(self).source@.len(),
            final(self).source == old(self).source,
            final(self).tokens == old(self).tokens,
            final(self).line == old(self).line,
            final(self).start == old(self).start,
    {
        while self.current < self.source.len() && !run_stops(run, self.source[self.current])
            invariant
                self.current <= self.source@.len(),
                run_end(self.source@, self.current as int, run) == run_end(
                    old(self).source@,
                    old(self).current as int,
                    run,
                ),
                self.source == old(self).source,
                self.tokens == old(self).tokens,
                self.line == old(self).line,
                self.start == old(self).start,
            decreases self.source@.len() - self.current,
        {
            self.current += 1;
        }
    }

    /// Scans a string between two pairs of quotes; the first quote of the
    /// pair that opens it is behind the scanner.
    fn string(&mut self) -> (res: Result<(), SyntaxError>)
        requires
            old(self).start + 1 == old(self).current,
            old(self).current < old(self).source@.len(),
        ensures
            final(self).source@ == old(self).source@,
            ({
                let src = old(self).source@;
                let from = old(self).start + 2;
                let close = closing(src, from);
                let end_line = line_after(old(self).line, newlines(src, from, close));
                if close >= src.len() {
                    res == Err::<(), SyntaxError>(
                        SyntaxError { line: end_line, kind: SyntaxErrorKind::UnterminatedString },
                    )
                } else {
                    &&& res is Ok
                    &&& final(self).current == close + 2
                    &&& final(self).line == end_line
                    &&& tokens_view(final(self).tokens@) == tokens_view(old(self).tokens@) + seq![
                        TokenModel {
                            typ: TokenDataModel::String(src.subrange(from, close)),
                            line: end_line,
                        },
                    ]
                }
            }),
    {
        self.advance();
        let ghost src = self.source@;
        let ghost from = self.current as int;
        let ghost line = self.line;
        loop
            invariant
                0 <= from <= self.current <= src.len(),
                self.source@ == src,
                self.source == old(self).source,
                self.tokens == old(self).tokens,
                self.start == old(self).start,
                closing(src, self.current as int) == closing(src, from),
                self.line == line_after(line, newlines(src, from, self.current as int)),
            ensures
                self.current == closing(src, from),
            decreases src.len() - self.current,
        {
            if self.is_at_end() || (self.peek() == '"' && self.peek_next() == '"') {
                break ;
            }
            proof {
                let at = self.current as int;
                assert(newlines(src, from, at + 1) == newlines(src, from, at) + if src[at] == '\n' {
                    1nat
                } else {
                    0nat
                });
            }
            if self.peek() == '\n' {
                if self.line < u64::MAX {
                    self.line += 1;
                }
            }
            self.advance();
        }
        proof {
            lemma_closing(src, from);
        }
        if self.is_at_end() {
            return Err(
                SyntaxError { line: self.line, kind: SyntaxErrorKind::UnterminatedString },
            );
        }
        self.advance();
        self.advance();
        let text = string_of(&self.source, self.start + 2, self.current - 2);
        self.add_token(TokenData::String(text));
        Ok(())
    }

    /// Scans a number; its first digit is behind the scanner.
    fn number(&mut self) -> (res: Result<(), SyntaxError>)
        requires
            old(self).start + 1 == old(self).current,
            old(self).current <= old(self).source@.len(),
        ensures
            final(self).source@ == old(self).source@,
            ({
                let src = old(self).source@;
                let pos = old(self).start as int;
                let line = old(self).line;
                let whole = run_end(src, pos + 1, Run::Digits);
                if whole + 1 < src.len() && src[whole] == '.' && digit(src[whole + 1]) {
                    let end = run_end(src, whole + 1, Run::Digits);
                    &&& res is Ok
                    &&& final(self).current == end
                    &&& final(self).line == line
                    &&& tokens_view(final(self).tokens@) == tokens_view(old(self).tokens@) + seq![
                        TokenModel {
                            typ: TokenDataModel::DecimalText(src.subrange(pos, end)),
                            line,
                        },
                    ]
                } else {
                    match integer_of(src.subrange(pos, whole)) {
                        Some(n) => {
                            &&& res is Ok
                            &&& final(self).current == whole
                            &&& final(self).line == line
                            &&& tokens_view(final(self).tokens@) == tokens_view(
                                old(self).tokens@,
                            ) + seq![TokenModel { typ: TokenDataModel::Integer(n), line }]
                        },
                        None => res == Err::<(), SyntaxError>(
                            SyntaxError { line, kind: SyntaxErrorKind::NumberTooLarge },
                        ),
                    }
                }
            }),
    {
        proof {
            lemma_run_end(self.source@, self.current as int, Run::Digits);
        }
        self.skip_run(Run::Digits);
        if self.peek() == '.' && is_digit(self.peek_next()) {
            self.advance();
            proof {
                lemma_run_end(self.source@, self.current as int, Run::Digits);
            }
            self.skip_run(Run::Digits);
            let text = string_of(&self.source, self.start, self.current);
            self.add_token(TokenData::DecimalText(text));
        } else {
            let text = string_of(&self.source, self.start, self.current);
            match parse_integer(text.as_str()) {
                Some(n) => {
                    self.add_token(TokenData::Integer(n));
                },
                None => {
                    return Err(
                        SyntaxError { line: self.line, kind: SyntaxErrorKind::NumberTooLarge },
                    );
                },
            }
        }
        Ok(())
    }

    /// Scans an identifier; its first character is behind the scanner.
    fn identifier(&mut self)
        requires
            old(self).start + 1 == old(self).current,
            old(self).current <= old(self).source@.len(),
        ensures
            final(self).source@ == old(self).source@,
            final(self).line == old(self).line,
            final(self).current == run_end(
                old(self).source@,
                old(self).current as int,
                Run::Identifier,
            ),
            tokens_view(final(self).tokens@) == tokens_view(old(self).tokens@) + seq![
                TokenModel {
                    typ: TokenDataModel::Identifier(
                        old(self).source@.subrange(
                            old(self).start as int,
                            final(self).current as int,
                        ),
                    ),
                    line: old(self).line,
                },
            ],
    {
        proof {
            lemma_run_end(self.source@, self.current as int, Run::Identifier);
        }
        self.skip_run(Run::Identifier);
        let text = string_of(&self.source, self.start, self.current);
        self.add_token(TokenData::Identifier(text));
    }

    /// Scans a string that ends at white space; the quote that opens it is
    /// behind the scanner.
    fn short_string(&mut self)
        requires
            old(self).start + 1 == old(self).current,
            old(self).current <= old(self).source@.len(),
        ensures
            final(self).source@ == old(self).source@,
            final(self).line == old(self).line,
            final(self).current == run_end(old(self).source@, old(self).current as int, Run::Word),
            tokens_view(final(self).tokens@) == tokens_view(old(self).tokens@) + seq![
                TokenModel {
                    typ: TokenDataModel::String(
                        old(self).source@.subrange(
                            old(self).current as int,
                            final(self).current as int,
                        ),
                    ),
                    line: old(self).line,
                },
            ],
    {
        proof {
            lemma_run_end(self.source@, self.current as int, Run::Word);
        }
        self.skip_run(Run::Word);
        let text = string_of(&self.source, self.start + 1, self.current);
        self.add_token(TokenData::String(text));
    }
}

} // verus!
