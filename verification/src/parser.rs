//! From tokens to the syntax tree.

use vstd::prelude::*;
use crate::ast::{Block, Exp, ExpData, NodeModel, chain_view, node_view};
use crate::error::{SyntaxError, SyntaxErrorKind};
use crate::token::{Token, TokenData, TokenDataModel, TokenModel, tokens_view};

verus! {

/// The chain for a list of statements, in link order: the last statement
/// comes first, each statement as it was written.
pub open spec fn flat<T>(lines: Seq<Seq<T>>) -> Seq<T>
    decreases lines.len(),
{
    if lines.len() == 0 {
        Seq::empty()
    } else {
        lines.last() + flat(lines.drop_last())
    }
}

/// The expressions of a list of statements in the order in which they are to
/// run: statement after statement, each one backwards.
pub open spec fn in_order<T>(lines: Seq<Seq<T>>) -> Seq<T>
    decreases lines.len(),
{
    if lines.len() == 0 {
        Seq::empty()
    } else {
        in_order(lines.drop_last()) + lines.last().reverse()
    }
}

/// The content of a statement, node for node.
pub open spec fn line_view(line: Seq<ExpData>) -> Seq<NodeModel> {
    Seq::new(line.len(), |i: int| node_view(line[i]))
}

/// The content of a list of statements.
pub open spec fn lines_view(lines: Seq<Vec<ExpData>>) -> Seq<Seq<NodeModel>> {
    Seq::new(lines.len(), |i: int| line_view(lines[i]@))
}

/// Links the expressions of a list of statements into one chain.
pub fn flat_lines(lines: Vec<Vec<ExpData>>) -> (res: Option<Box<Exp>>)
    ensures
        chain_view(res) == flat(lines_view(lines@)),
{
    let ghost all = lines_view(lines@);
    let mut lines = lines;
    let mut reversed: Vec<Vec<ExpData>> = Vec::new();
    loop
        invariant
            lines@.len() + reversed@.len() == all.len(),
            forall|i: int| 0 <= i < lines@.len() ==> line_view((#[trigger] lines@[i])@) == all[i],
            forall|i: int|
                0 <= i < reversed@.len() ==> line_view((#[trigger] reversed@[i])@) == all[all.len()
                    - 1 - i],
        ensures
            lines@.len() == 0,
        decreases lines@.len(),
    {
        match lines.pop() {
            None => {
                break ;
            },
            Some(line) => {
                reversed.push(line);
            },
        }
    }
    let mut head: Option<Box<Exp>> = None;
    assert(all.take(0) =~= Seq::empty());
    loop
        invariant
            reversed@.len() <= all.len(),
            forall|i: int|
                0 <= i < reversed@.len() ==> line_view((#[trigger] reversed@[i])@) == all[all.len()
                    - 1 - i],
            chain_view(head) == flat(all.take(all.len() - reversed@.len())),
        ensures
            reversed@.len() == 0,
        decreases reversed@.len(),
    {
        let ghost done = all.len() - reversed@.len();
        match reversed.pop() {
            None => {
                break ;
            },
            Some(line) => {
                let mut line = line;
                let ghost items = line@;
                let ghost whole = line_view(line@);
                assert(whole == all[done]);
                assert(all.take(done + 1).drop_last() =~= all.take(done));
                assert(all.take(done + 1).last() == whole);
                assert(whole.skip(whole.len() as int) =~= Seq::empty());
                loop
                    invariant
                        line@.len() <= whole.len(),
                        line@ == items.take(line@.len() as int),
                        whole == line_view(items),
                        chain_view(head) == whole.skip(line@.len() as int) + flat(all.take(done)),
                    ensures
                        line@.len() == 0,
                    decreases line@.len(),
                {
                    let ghost n = line@.len();
                    match line.pop() {
                        None => {
                            break ;
                        },
                        Some(exp) => {
                            assert(exp == items[n - 1]);
                            assert(whole.skip(n - 1) =~= seq![node_view(exp)] + whole.skip(
                                n as int,
                            ));
                            assert(line@ =~= items.take(n - 1));
                            head = Some(Box::new(Exp { data: exp, next_exp: head }));
                        },
                    }
                }
                assert(whole.skip(0) =~= whole);
            },
        }
    }
    assert(all.take(all.len() as int) =~= all);
    head
}


/// `lines` with `node` at the end of the last statement.
pub open spec fn with_node(lines: Seq<Seq<NodeModel>>, node: NodeModel) -> Seq<Seq<NodeModel>> {
    lines.drop_last().push(lines.last().push(node))
}

/// A block as the parser found it: its chain, and the place behind it.
pub struct Parsed {
    pub chain: Seq<NodeModel>,
    pub next: int,
}

/// The line of the token in front of `pos`.
pub open spec fn line_before(tokens: Seq<TokenModel>, pos: int) -> u64 {
    if 0 < pos <= tokens.len() {
        tokens[pos - 1].line
    } else {
        0
    }
}

/// The fault of one kind on one line, as the result of parsing.
pub open spec fn fault(line: u64, kind: SyntaxErrorKind) -> Result<Parsed, SyntaxError> {
    Err(SyntaxError { line, kind })
}

/// The block whose statements so far are `lines` and which goes on at
/// `pos`. The whole text (`file`) ends with the tokens; any other block ends
/// at the `)` that closes it. `;` ends a statement, `(` opens a block that is
/// one expression of the statement it stands in, and a capture mark makes a
/// captured name of the identifier behind it.
pub open spec fn parse(
    tokens: Seq<TokenModel>,
    pos: int,
    file: bool,
    lines: Seq<Seq<NodeModel>>,
) -> Result<
    Parsed,
    SyntaxError,
>
    decreases tokens.len() - pos,
{
    if pos < 0 || pos >= tokens.len() {
        if file {
            Ok(Parsed { chain: flat(lines), next: pos })
        } else {
            fault(line_before(tokens, pos), SyntaxErrorKind::BlockNotEnded)
        }
    } else {
        let line = tokens[pos].line;
        match tokens[pos].typ {
            TokenDataModel::Identifier(name) => parse(
                tokens,
                pos + 1,
                file,
                with_node(lines, NodeModel::Var(name)),
            ),
            TokenDataModel::String(text) => parse(
                tokens,
                pos + 1,
                file,
                with_node(lines, NodeModel::String(text)),
            ),
            TokenDataModel::Integer(n) => parse(
                tokens,
                pos + 1,
                file,
                with_node(lines, NodeModel::Integer(n)),
            ),
            TokenDataModel::Decimal(bits) => parse(
                tokens,
                pos + 1,
                file,
                with_node(lines, NodeModel::Decimal(bits)),
            ),
            TokenDataModel::DecimalText(_) => fault(line, SyntaxErrorKind::DecimalNotRead),
            TokenDataModel::Semicolon => parse(tokens, pos + 1, file, lines.push(Seq::empty())),
            TokenDataModel::LeftParen => match parse(
                tokens,
                pos + 1,
                false,
                seq![Seq::empty()],
            ) {
                Err(error) => Err(error),
                Ok(inner) => if pos < inner.next <= tokens.len() {
                    parse(tokens, inner.next, file, with_node(lines, NodeModel::Block(inner.chain)))
                } else {
                    fault(line, SyntaxErrorKind::BlockNotEnded)
                },
            },
            TokenDataModel::RightParen => if file {
                fault(line, SyntaxErrorKind::TooManyClosers)
            } else {
                Ok(Parsed { chain: flat(lines), next: pos + 1 })
            },
            TokenDataModel::Capture => if pos + 1 < tokens.len() {
                match tokens[pos + 1].typ {
                    TokenDataModel::Identifier(name) => parse(
                        tokens,
                        pos + 2,
                        file,
                        with_node(lines, NodeModel::CapturedVar(name)),
                    ),
                    _ => fault(tokens[pos + 1].line, SyntaxErrorKind::ExpectIdentifierForCapture),
                }
            } else {
                fault(line, SyntaxErrorKind::ExpectIdentifierForCapture)
            },
        }
    }
}

/// A block that opens inside the tokens ends behind the place where it
/// opens, inside the tokens.
pub proof fn lemma_parse_moves_on(
    tokens: Seq<TokenModel>,
    pos: int,
    file: bool,
    lines: Seq<Seq<NodeModel>>,
)
    requires
        0 <= pos <= tokens.len(),
    ensures
        parse(tokens, pos, file, lines) matches Ok(parsed) ==> pos <= parsed.next <= tokens.len()
            && (!file ==> pos < parsed.next),
    decreases tokens.len() - pos, 
{
    if pos < tokens.len() {
        match tokens[pos].typ {
            TokenDataModel::Identifier(name) => lemma_parse_moves_on(
                tokens,
                pos + 1,
                file,
                with_node(lines, NodeModel::Var(name)),
            ),
            TokenDataModel::String(text) => lemma_parse_moves_on(
                tokens,
                pos + 1,
                file,
                with_node(lines, NodeModel::String(text)),
            ),
            TokenDataModel::Integer(n) => lemma_parse_moves_on(
                tokens,
                pos + 1,
                file,
                with_node(lines, NodeModel::Integer(n)),
            ),
            TokenDataModel::Decimal(bits) => lemma_parse_moves_on(
                tokens,
                pos + 1,
                file,
                with_node(lines, NodeModel::Decimal(bits)),
            ),
            TokenDataModel::DecimalText(_) => {},
            TokenDataModel::Semicolon => lemma_parse_moves_on(
                tokens,
                pos + 1,
                file,
                lines.push(Seq::empty()),
            ),
            TokenDataModel::LeftParen => {
                lemma_parse_moves_on(tokens, pos + 1, false, seq![Seq::empty()]);
                match parse(tokens, pos + 1, false, seq![Seq::empty()]) {
                    Err(_) => {},
                    Ok(inner) => lemma_parse_moves_on(
                        tokens,
                        inner.next,
                        file,
                        with_node(lines, NodeModel::Block(inner.chain)),
                    ),
                }
            },
            TokenDataModel::RightParen => {},
            TokenDataModel::Capture => if pos + 1 < tokens.len() {
                match tokens[pos + 1].typ {
                    TokenDataModel::Identifier(name) => lemma_parse_moves_on(
                        tokens,
                        pos + 2,
                        file,
                        with_node(lines, NodeModel::CapturedVar(name)),
                    ),
                    _ => {},
                }
            },
        }
    }
}

/// A parser at work on a list of tokens.
pub struct Parser {
    tokens: Vec<Token>,
    current: usize,
}

/// The statements that are complete, and behind them the one that is not.
pub open spec fn statements(lines: Seq<Vec<ExpData>>, line: Seq<ExpData>) -> Seq<Seq<NodeModel>> {
    lines_view(lines).push(line_view(line))
}

fn put(line: &mut Vec<ExpData>, data: ExpData, Ghost(lines): Ghost<Seq<Vec<ExpData>>>)
    ensures
        final(line)@ == old(line)@.push(data),
        statements(lines, final(line)@) == with_node(statements(lines, old(line)@), data@),
{
    line.push(data);
    assert(line_view(line@) =~= line_view(old(line)@).push(data@));
    assert(statements(lines, line@) =~= with_node(statements(lines, old(line)@), data@));
}

impl Parser {
    /// The tokens.
    pub closed spec fn tokens(&self) -> Seq<TokenModel> {
        tokens_view(self.tokens@)
    }

    /// The place up to which the tokens are parsed.
    pub closed spec fn position(&self) -> int {
        self.current as int
    }

    /// A parser at the start of `tokens`.
    pub fn new(tokens: Vec<Token>) -> (res: Self)
        ensures
            res.tokens() == tokens_view(tokens@),
            res.position() == 0,
    {
        Parser { tokens, current: 0 }
    }

    /// Parses the rest of the tokens as a whole text.
    pub fn build_tree(self) -> (res: Result<Block, SyntaxError>)
        ensures
            match parse(self.tokens(), self.position(), true, seq![Seq::empty()]) {
                Ok(parsed) => res matches Ok(block) && block@ == parsed.chain,
                Err(error) => res == Err::<Block, SyntaxError>(error),
            },
    {
        let mut parser = self;
        if parser.current > parser.tokens.len() {
            proof {
                let lines = seq![Seq::<NodeModel>::empty()];
                assert(lines.drop_last() =~= Seq::<Seq<NodeModel>>::empty());
                assert(flat(lines.drop_last()) =~= Seq::<NodeModel>::empty());
                assert(flat(lines) =~= Seq::<NodeModel>::empty());
            }
            return Ok(Block { exp: None });
        }
        parser.build_block(true)
    }

    fn build_block(&mut self, file: bool) -> (res: Result<Block, SyntaxError>)
        requires
            old(self).current <= old(self).tokens@.len(),
        ensures
            final(self).tokens == old(self).tokens,
            final(self).current <= final(self).tokens@.len(),
            match parse(
                tokens_view(old(self).tokens@),
                old(self).current as int,
                file,
                seq![Seq::empty()],
            ) {
                Ok(parsed) => {
                    &&& res matches Ok(block) && block@ == parsed.chain
                    &&& final(self).current == parsed.next
                },
                Err(error) => res == Err::<Block, SyntaxError>(error),
            },
        decreases old(self).tokens@.len() - old(self).current,
    {
        let ghost all = tokens_view(self.tokens@);
        let ghost goal = parse(all, self.current as int, file, seq![Seq::empty()]);
        let mut lines: Vec<Vec<ExpData>> = Vec::new();
        let mut line: Vec<ExpData> = Vec::new();
        assert(statements(lines@, line@) =~~= seq![Seq::empty()]);
        while !self.is_at_end()
            invariant
                self.tokens == old(self).tokens,
                all == tokens_view(self.tokens@),
                old(self).current <= self.current <= self.tokens@.len(),
                goal == parse(all, old(self).current as int, file, seq![Seq::empty()]),
                parse(all, self.current as int, file, statements(lines@, line@)) == goal,
            decreases self.tokens@.len() - self.current,
        {
            let ghost pos = self.current as int;
            let ghost before = statements(lines@, line@);
            assert(all[pos] == self.tokens@[pos]@);
            let at = self.current;
            let n = self.tokens.len();
            self.current += 1;
            match &self.tokens[at].typ {
                TokenData::Identifier(name) => {
                    put(&mut line, ExpData::Var(name.clone()), Ghost(lines@));
                },
                TokenData::String(text) => {
                    put(&mut line, ExpData::String(text.clone()), Ghost(lines@));
                },
                TokenData::Integer(n) => {
                    put(&mut line, ExpData::Integer(*n), Ghost(lines@));
                },
                TokenData::Decimal(bits) => {
                    put(&mut line, ExpData::Decimal(*bits), Ghost(lines@));
                },
                TokenData::DecimalText(_) => {
                    return self.error(SyntaxErrorKind::DecimalNotRead);
                },
                TokenData::Semicolon => {
                    let mut ended: Vec<ExpData> = Vec::new();
                    core::mem::swap(&mut line, &mut ended);
                    lines.push(ended);
                    assert(statements(lines@, line@) =~~= before.push(Seq::empty()));
                },
                TokenData::LeftParen => {
                    proof {
                        lemma_parse_moves_on(all, pos + 1, false, seq![Seq::empty()]);
                    }
                    let block = self.build_block(false)?;
                    put(&mut line, ExpData::Block(block), Ghost(lines@));
                },
                TokenData::RightParen => {
                    if file {
                        return self.error(SyntaxErrorKind::TooManyClosers);
                    } else {
                        lines.push(line);
                        assert(lines_view(lines@) =~= before);
                        let exp = flat_lines(lines);
                        return Ok(Block { exp });
                    }
                },
                TokenData::Capture => {
                    if self.is_at_end() {
                        return self.error(SyntaxErrorKind::ExpectIdentifierForCapture);
                    }
                    let next = self.current;
                    let n = self.tokens.len();
                    assert(all[pos + 1] == self.tokens@[pos + 1]@);
                    self.current += 1;
                    match &self.tokens[next].typ {
                        TokenData::Identifier(name) => {
                            put(&mut line, ExpData::CapturedVar(name.clone()), Ghost(lines@));
                        },
                        _ => {
                            return self.error(SyntaxErrorKind::ExpectIdentifierForCapture);
                        },
                    }
                },
            }
        }
        if file {
            let ghost before = statements(lines@, line@);
            lines.push(line);
            assert(lines_view(lines@) =~= before);
            let exp = flat_lines(lines);
            Ok(Block { exp })
        } else {
            self.error(SyntaxErrorKind::BlockNotEnded)
        }
    }

    fn is_at_end(&self) -> (res: bool)
        ensures
            res == (self.current >= self.tokens@.len()),
    {
        self.current >= self.tokens.len()
    }

    /// A fault on the line of the token that was read last.
    fn error(&self, kind: SyntaxErrorKind) -> (res: Result<Block, SyntaxError>)
        requires
            self.current <= self.tokens@.len(),
        ensures
            res == Err::<Block, SyntaxError>(
                SyntaxError {
                    line: line_before(tokens_view(self.tokens@), self.current as int),
                    kind,
                },
            ),
    {
        let line = if self.current > 0 {
            self.tokens[self.current - 1].line
        } else {
            0
        };
        Err(SyntaxError { line, kind })
    }
}

} // verus!
