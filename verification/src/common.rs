//! Identifiers and tables shared by the lexer, the AST and the parser.

use vstd::prelude::*;

verus! {

/// Index of a span in a [`SpanRegistry`].
#[derive(Clone, Copy, PartialEq, Eq, Structural, Debug)]
pub struct SpanId(pub u32);

impl SpanId {
    /// The id that names nothing.
    pub open spec fn spec_invalid() -> SpanId {
        SpanId(0xFFFF_FFFFu32)
    }

    /// The id that names nothing.
    pub fn invalid() -> (r: SpanId)
        ensures r == Self::spec_invalid(),
    {
        SpanId(0xFFFF_FFFFu32)
    }
}

/// Index of an interned name in a [`NameTable`].
#[derive(Clone, Copy, PartialEq, Eq, Structural, Debug)]
pub struct NameId(pub u32);

impl NameId {
    /// The id that names nothing.
    pub open spec fn spec_invalid() -> NameId {
        NameId(0xFFFF_FFFFu32)
    }

    /// The id that names nothing.
    pub fn invalid() -> (r: NameId)
        ensures r == Self::spec_invalid(),
    {
        NameId(0xFFFF_FFFFu32)
    }
}

/// Index of a literal in a [`LiteralTable`].
#[derive(Clone, Copy, PartialEq, Eq, Structural, Debug)]
pub struct LiteralId(pub u32);

impl LiteralId {
    /// The id that names nothing.
    pub open spec fn spec_invalid() -> LiteralId {
        LiteralId(0xFFFF_FFFFu32)
    }

    /// The id that names nothing.
    pub fn invalid() -> (r: LiteralId)
        ensures r == Self::spec_invalid(),
    {
        LiteralId(0xFFFF_FFFFu32)
    }
}

/// A range of characters in a source file.
#[derive(Clone, Copy, PartialEq, Eq, Structural, Debug)]
pub struct Span {
    pub file_id:    u32,
    pub char_start: u64,
    pub char_end:   u64,
}

/// All spans known to the compiler, indexed by [`SpanId`].
pub struct SpanRegistry {
    pub spans: Vec<Span>,
}

/// The span that covers `a` up to the end of `b`.
pub open spec fn combined_span(a: Span, b: Span) -> Span {
    Span { file_id: a.file_id, char_start: a.char_start, char_end: b.char_end }
}

impl SpanRegistry {
    pub fn new() -> (r: SpanRegistry)
        ensures r.spans@.len() == 0,
    {
        SpanRegistry { spans: Vec::new() }
    }

    /// Registers `span` and returns its id.
    pub fn add_span(&mut self, span: Span) -> (id: SpanId)
        requires old(self).spans@.len() < 0xFFFF_FFFF,
        ensures
            id.0 == old(self).spans@.len(),
            final(self).spans@ == old(self).spans@.push(span),
    {
        let id = SpanId(self.spans.len() as u32);
        self.spans.push(span);
        id
    }

    /// Registers the span running from the start of `begin` to the end of `end`.
    /// Where either id names no registered span, or the registry is full,
    /// nothing is registered and the invalid span id is returned.
    pub fn combine_spans(&mut self, begin: SpanId, end: SpanId) -> (id: SpanId)
        ensures
            ({
                let n = old(self).spans@.len();
                if begin.0 < n && end.0 < n && n < 0xFFFF_FFFF {
                    &&& id.0 == n
                    &&& final(self).spans@ == old(self).spans@.push(
                        combined_span(old(self).spans@[begin.0 as int], old(self).spans@[end.0 as int]))
                } else {
                    &&& id == SpanId::spec_invalid()
                    &&& final(self).spans@ == old(self).spans@
                }
            }),
    {
        let n = self.spans.len();
        if (begin.0 as usize) < n && (end.0 as usize) < n && n < 0xFFFF_FFFF {
            let a = self.spans[begin.0 as usize];
            let b = self.spans[end.0 as usize];
            self.add_span(Span { file_id: a.file_id, char_start: a.char_start, char_end: b.char_end })
        } else {
            SpanId::invalid()
        }
    }
}

/// Interned names, indexed by [`NameId`].
pub struct NameTable {
    pub names: Vec<String>,
}

impl NameTable {
    /// The text of the name `id`.
    pub fn get(&self, id: NameId) -> (s: &str)
        requires (id.0 as int) < self.names@.len(),
        ensures s@ == self.names@[id.0 as int]@,
    {
        self.names[id.0 as usize].as_str()
    }
}

/// Literals, indexed by [`LiteralId`], held as the text they print as.
pub struct LiteralTable {
    pub literals: Vec<String>,
}

/// The kind of an operator in an operator trait.
#[derive(Clone, Copy, PartialEq, Eq, Structural, Debug)]
pub enum OpType {
    Prefix,
    Postfix,
    Infix,
    Assign,
}

/// The text in front of a line at nesting `levels`: for each enclosing level,
/// `indent` where that level's last child has begun and `line` where more
/// children follow.
pub open spec fn indent_pad(levels: Seq<bool>, indent: Seq<char>, line: Seq<char>) -> Seq<char>
    decreases levels.len(),
{
    if levels.len() == 0 {
        Seq::empty()
    } else {
        indent_pad(levels.drop_last(), indent, line) + (if levels.last() { indent } else { line })
    }
}

/// The prefix of a line at nesting `levels`: the padding of the enclosing
/// levels and the branch marker of the innermost one; nothing at level zero.
pub open spec fn line_prefix(levels: Seq<bool>, indent: Seq<char>, line: Seq<char>, branch: Seq<char>) -> Seq<char> {
    if levels.len() == 0 {
        Seq::empty()
    } else {
        indent_pad(levels.drop_last(), indent, line) + branch
    }
}

/// A line one level deeper than `levels` is prefixed by the padding of
/// `levels` and the marker, whether or not the new level is finished.
pub proof fn lemma_nested_prefix(levels: Seq<bool>, last: bool, indent: Seq<char>, line: Seq<char>, branch: Seq<char>)
    ensures
        line_prefix(levels.push(last), indent, line, branch) == indent_pad(levels, indent, line) + branch,
{
    assert(levels.push(last).drop_last() =~= levels);
}

/// The padding of the enclosing levels begins the padding of any deeper nesting.
pub proof fn lemma_pad_prefix(levels: Seq<bool>, more: Seq<bool>, indent: Seq<char>, line: Seq<char>)
    ensures
        crate::parser::is_prefix(indent_pad(levels, indent, line), indent_pad(levels + more, indent, line)),
    decreases more.len(),
{
    if more.len() == 0 {
        assert(levels + more =~= levels);
    } else {
        let shorter = more.drop_last();
        lemma_pad_prefix(levels, shorter, indent, line);
        assert((levels + more).drop_last() =~= levels + shorter);
        let deeper = indent_pad(levels + more, indent, line);
        let mid = indent_pad(levels + shorter, indent, line);
        assert(deeper == mid + (if (levels + more).last() { indent } else { line }));
        assert forall|i: int| 0 <= i < indent_pad(levels, indent, line).len()
            implies #[trigger] indent_pad(levels, indent, line)[i] == deeper[i] by {
            assert(indent_pad(levels, indent, line)[i] == mid[i]);
        }
    }
}

/// Opening a level and closing it again leaves the nesting as it was.
pub proof fn lemma_push_pop(levels: Seq<bool>)
    ensures
        levels.push(false).drop_last() == levels,
{
    assert(levels.push(false).drop_last() =~= levels);
}

/// Writes text as a tree: lines are prefixed by the nesting they belong to.
/// The text is collected, not printed.
pub struct IndentLogger {
    indent: String,
    line:   String,
    branch: String,
    levels: Vec<bool>,
    output: String,
}

impl IndentLogger {
    /// Everything written so far.
    pub closed spec fn text(&self) -> Seq<char> {
        self.output@
    }

    /// For each open nesting level, whether its last child has begun.
    pub closed spec fn levels(&self) -> Seq<bool> {
        self.levels@
    }

    /// The padding under a finished level, the padding under an open one,
    /// and the marker of a prefixed line.
    pub closed spec fn pads(&self) -> (Seq<char>, Seq<char>, Seq<char>) {
        (self.indent@, self.line@, self.branch@)
    }

    /// The prefix of the next prefixed line.
    pub open spec fn prefix(&self) -> Seq<char> {
        line_prefix(self.levels(), self.pads().0, self.pads().1, self.pads().2)
    }

    /// A logger with no text and no nesting, padding with `indent` under a
    /// finished level and with `line` under an open one, and marking each
    /// prefixed line with `branch`.
    pub fn new(indent: &str, line: &str, branch: &str) -> (r: IndentLogger)
        ensures
            r.text() == Seq::<char>::empty(),
            r.levels() == Seq::<bool>::empty(),
            r.pads() == (indent@, line@, branch@),
    {
        IndentLogger {
            indent: String::from_str(indent),
            line: String::from_str(line),
            branch: String::from_str(branch),
            levels: Vec::new(),
            output: String::new(),
        }
    }

    /// The text of everything written so far.
    pub fn output(&self) -> (r: &String)
        ensures
            r@ == self.text(),
    {
        &self.output
    }

    /// Appends `s`.
    pub fn log(&mut self, s: &str)
        ensures
            final(self).pads() == old(self).pads(),
            final(self).text() == old(self).text() + s@,
            final(self).levels() == old(self).levels(),
            final(self).prefix() == old(self).prefix(),
    {
        self.output.append(s);
    }

    /// Appends `s` and a line break.
    pub fn logln(&mut self, s: &str)
        ensures
            final(self).pads() == old(self).pads(),
            final(self).text() == old(self).text() + s@ + "\n"@,
            final(self).levels() == old(self).levels(),
            final(self).prefix() == old(self).prefix(),
    {
        self.output.append(s);
        self.output.append("\n");
    }

    /// Appends the prefix of the current nesting, then `s`.
    pub fn prefixed_log(&mut self, s: &str)
        ensures
            final(self).pads() == old(self).pads(),
            final(self).text() == old(self).text() + old(self).prefix() + s@,
            final(self).levels() == old(self).levels(),
            final(self).prefix() == old(self).prefix(),
    {
        self.write_prefix();
        self.output.append(s);
    }

    /// Appends the prefix of the current nesting, `s` and a line break.
    pub fn prefixed_logln(&mut self, s: &str)
        ensures
            final(self).pads() == old(self).pads(),
            final(self).text() == old(self).text() + old(self).prefix() + s@ + "\n"@,
            final(self).levels() == old(self).levels(),
            final(self).prefix() == old(self).prefix(),
    {
        self.write_prefix();
        self.output.append(s);
        self.output.append("\n");
    }

    fn write_prefix(&mut self)
        ensures
            final(self).text() == old(self).text() + old(self).prefix(),
            final(self).levels@ == old(self).levels@,
            final(self).indent@ == old(self).indent@,
            final(self).line@ == old(self).line@,
            final(self).branch@ == old(self).branch@,
    {
        let n = self.levels.len();
        if n == 0 {
            assert(self.output@ == old(self).output@ + Seq::<char>::empty());
            return;
        }
        let mut i: usize = 0;
        while i + 1 < n
            invariant
                n == self.levels@.len(),
                n > 0,
                i + 1 <= n,
                self.levels@ == old(self).levels@,
                self.indent@ == old(self).indent@,
                self.line@ == old(self).line@,
                self.branch@ == old(self).branch@,
                self.output@ == old(self).output@ + indent_pad(self.levels@.subrange(0, i as int), self.indent@, self.line@),
            decreases n - i,
        {
            let ghost before = self.output@;
            if self.levels[i] {
                self.output.append(self.indent.as_str());
            } else {
                self.output.append(self.line.as_str());
            }
            proof {
                let sub = self.levels@.subrange(0, i as int + 1);
                assert(sub.drop_last() =~= self.levels@.subrange(0, i as int));
                assert(sub.last() == self.levels@[i as int]);
            }
            i = i + 1;
        }
        proof {
            assert(self.levels@.subrange(0, i as int) =~= self.levels@.drop_last());
        }
        self.output.append(self.branch.as_str());
    }

    /// Opens a nesting level whose last child has not begun.
    pub fn push_indent(&mut self)
        ensures
            final(self).pads() == old(self).pads(),
            final(self).text() == old(self).text(),
            final(self).levels() == old(self).levels().push(false),
    {
        self.levels.push(false);
    }

    /// Closes the innermost nesting level, where one is open.
    pub fn pop_indent(&mut self)
        ensures
            final(self).pads() == old(self).pads(),
            final(self).text() == old(self).text(),
            old(self).levels().len() > 0 ==> final(self).levels() == old(self).levels().drop_last(),
            old(self).levels().len() == 0 ==> final(self).levels() == old(self).levels(),
    {
        let _ = self.levels.pop();
    }

    /// Marks that the last child of the innermost level begins.
    pub fn set_last_at_indent(&mut self)
        ensures
            final(self).pads() == old(self).pads(),
            final(self).text() == old(self).text(),
            old(self).levels().len() > 0 ==> final(self).levels() == old(self).levels().update(old(self).levels().len() - 1, true),
            old(self).levels().len() == 0 ==> final(self).levels() == old(self).levels(),
    {
        let n = self.levels.len();
        if n > 0 {
            self.levels.set(n - 1, true);
        }
    }

    /// Marks that the last child of the innermost level begins, where `cond` holds.
    pub fn set_last_at_indent_if(&mut self, cond: bool)
        ensures
            final(self).pads() == old(self).pads(),
            final(self).text() == old(self).text(),
            cond && old(self).levels().len() > 0 ==> final(self).levels() == old(self).levels().update(old(self).levels().len() - 1, true),
            !(cond && old(self).levels().len() > 0) ==> final(self).levels() == old(self).levels(),
    {
        if cond {
            self.set_last_at_indent();
        }
    }
}

/// The decimal digits of `n`.
pub open spec fn decimal(n: nat) -> Seq<char>
    decreases n,
{
    if n < 10 {
        seq![digit_char(n)]
    } else {
        decimal(n / 10).push(digit_char(n % 10))
    }
}

/// The character of the digit `d`.
pub open spec fn digit_char(d: nat) -> char {
    if d == 0 { '0' } else if d == 1 { '1' } else if d == 2 { '2' } else if d == 3 { '3' }
    else if d == 4 { '4' } else if d == 5 { '5' } else if d == 6 { '6' } else if d == 7 { '7' }
    else if d == 8 { '8' } else { '9' }
}

/// The text of the digit `d`.
fn digit_str(d: u64) -> (r: &'static str)
    requires
        d < 10,
    ensures
        r@ == seq![digit_char(d as nat)],
{
    proof {
        reveal_strlit("0");
        reveal_strlit("1");
        reveal_strlit("2");
        reveal_strlit("3");
        reveal_strlit("4");
        reveal_strlit("5");
        reveal_strlit("6");
        reveal_strlit("7");
        reveal_strlit("8");
        reveal_strlit("9");
    }
    let r = if d == 0 { "0" } else if d == 1 { "1" } else if d == 2 { "2" } else if d == 3 { "3" }
    else if d == 4 { "4" } else if d == 5 { "5" } else if d == 6 { "6" } else if d == 7 { "7" }
    else if d == 8 { "8" } else { "9" };
    assert(r@ =~= seq![digit_char(d as nat)]);
    r
}

/// Appends the decimal digits of `n` to `s`.
pub fn push_decimal(s: &mut String, n: u64)
    ensures
        final(s)@ == old(s)@ + decimal(n as nat),
    decreases n,
{
    if n >= 10 {
        push_decimal(s, n / 10);
    }
    s.append(digit_str(n % 10));
    assert(decimal(n as nat) =~= if n < 10 { seq![digit_char(n as nat)] } else { decimal((n / 10) as nat).push(digit_char((n % 10) as nat)) });
}

} // verus!
