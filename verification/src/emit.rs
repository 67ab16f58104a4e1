//! Building one C program, and knowing what it prints.
//!
//! A generated case is a whole translation unit with a `main` that computes things and prints
//! them. The printed text is the oracle. The program records the values it will print as it is
//! built, one per printing statement, so a case ships with its answer and never needs a
//! reference compiler to acquire one.
//!
//! Nothing about the output may depend on the machine: every value goes out through
//! `long long` or `unsigned long long`, so the width of the type under test does not change
//! the text.

use vstd::prelude::*;
use vstd::string::*;
use crate::lang::Ty;
use crate::text::{decimal, push_char, push_decimal};

verus! {

/// Four spaces for each level of indentation.
pub open spec fn indent(levels: nat) -> Seq<char>
    decreases levels,
{
    if levels == 0 {
        Seq::empty()
    } else {
        indent((levels - 1) as nat) + "    "@
    }
}

/// Lines of text, each ended by a newline.
pub open spec fn lines_text(lines: Seq<Seq<char>>) -> Seq<char>
    decreases lines.len(),
{
    if lines.len() == 0 {
        Seq::empty()
    } else {
        lines_text(lines.drop_last()) + lines.last() + "\n"@
    }
}

/// What a program prints: each value on a line of its own, in order.
pub open spec fn expected_text(values: Seq<int>) -> Seq<char>
    decreases values.len(),
{
    if values.len() == 0 {
        Seq::empty()
    } else {
        expected_text(values.drop_last()) + decimal(values.last()) + "\n"@
    }
}

/// The statement that prints an expression of a type, at an indentation.
pub open spec fn print_line(levels: nat, ty: Ty, expr: Seq<char>) -> Seq<char> {
    indent(levels) + "printf(\""@ + ty.format_text() + "\\n\", "@ + ty.cast_text() + "("@ + expr
        + "));"@
}

/// The statement that keeps an expression alive through the volatile sink.
pub open spec fn sink_line(levels: nat, expr: Seq<char>) -> Seq<char> {
    indent(levels) + "corpus_sink = (long long)("@ + expr + ");"@
}

/// The line that asks for a system header.
pub open spec fn include_line(header: Seq<char>) -> Seq<char> {
    "#include <"@ + header + ">"@
}

/// The global an opaque input is read from.
pub open spec fn input_global(ty: Ty, name: Seq<char>, value: int) -> Seq<char> {
    "static volatile "@ + ty.c_text() + " "@ + name + "_in = "@ + ty.literal_text(value) + ";"@
}

/// The statement in `main` that reads an opaque input once.
pub open spec fn input_read(ty: Ty, name: Seq<char>) -> Seq<char> {
    "    "@ + ty.c_text() + " "@ + name + " = "@ + name + "_in;"@
}

/// The whole translation unit for the parts of a program.
///
/// The purpose comes first as a comment. A header block, the `printf` declaration and the
/// sink declaration each appear only when something asked for them, each followed by a blank
/// line. Then the top level items, a blank line if there were any, and `main`.
pub open spec fn source_text(
    purpose: Seq<char>,
    includes: Seq<Seq<char>>,
    top: Seq<Seq<char>>,
    body: Seq<Seq<char>>,
    prints: bool,
    sinks: bool,
) -> Seq<char> {
    "// "@ + purpose + "\n"@ + "// Generated by rucc-corpus. Edit the generator, not this file."@
        + "\n"@ + "\n"@ + (if includes.len() > 0 {
        lines_text(includes) + "\n"@
    } else {
        Seq::empty()
    }) + (if prints {
        "int printf(const char *, ...);"@ + "\n"@ + "\n"@
    } else {
        Seq::empty()
    }) + (if sinks {
        "static volatile long long corpus_sink;"@ + "\n"@ + "\n"@
    } else {
        Seq::empty()
    }) + lines_text(top) + (if top.len() > 0 {
        "\n"@
    } else {
        Seq::empty()
    }) + "int main(void) {"@ + "\n"@ + lines_text(body) + "    return 0;"@ + "\n"@ + "}"@ + "\n"@
}

/// The text of each string in a list.
pub open spec fn texts(v: Seq<String>) -> Seq<Seq<char>> {
    v.map_values(|s: String| s@)
}

/// The header lines after asking for one more header: the line is added at the end, unless it
/// is there already.
pub open spec fn with_header(lines: Seq<Seq<char>>, header: Seq<char>) -> Seq<Seq<char>> {
    if lines.contains(include_line(header)) {
        lines
    } else {
        lines.push(include_line(header))
    }
}

/// Each header is included once, in the order it was first asked for: a program starts with no
/// header lines, asking for a header keeps every line that was there, in place, and adds no
/// line twice, and asking for the same header again changes nothing. No other operation on a
/// program touches its header lines.
pub proof fn lemma_headers_once(lines: Seq<Seq<char>>, header: Seq<char>)
    requires
        lines.no_duplicates(),
    ensures
        Seq::<Seq<char>>::empty().no_duplicates(),
        with_header(lines, header).no_duplicates(),
        with_header(lines, header).contains(include_line(header)),
        lines.is_prefix_of(with_header(lines, header)),
        with_header(with_header(lines, header), header) == with_header(lines, header),
{
    let after = with_header(lines, header);
    assert(lines.is_prefix_of(after)) by {
        assert(after.subrange(0, lines.len() as int) =~= lines);
    }
    if !lines.contains(include_line(header)) {
        assert(after[lines.len() as int] == include_line(header));
        assert forall|i: int, j: int| 0 <= i < after.len() && 0 <= j < after.len() && i != j
            implies after[i] != after[j] by {
            if i < lines.len() && j < lines.len() {
            } else if i == lines.len() as int {
                assert(lines[j] == after[j]);
            } else {
                assert(lines[i] == after[i]);
            }
        }
    }
}

/// How many line ends a text holds.
pub open spec fn newlines(s: Seq<char>) -> nat
    decreases s.len(),
{
    if s.len() == 0 {
        0
    } else {
        newlines(s.drop_last()) + if s.last() == '\n' {
            1nat
        } else {
            0nat
        }
    }
}

proof fn lemma_newlines_add(a: Seq<char>, b: Seq<char>)
    ensures
        newlines(a + b) == newlines(a) + newlines(b),
    decreases b.len(),
{
    if b.len() > 0 {
        assert((a + b).drop_last() =~= a + b.drop_last());
        lemma_newlines_add(a, b.drop_last());
    }
}

proof fn lemma_digits_one_line(n: nat)
    ensures
        newlines(crate::text::digits(n)) == 0,
    decreases n,
{
    let d = crate::text::digits(n);
    if n >= 10 {
        lemma_digits_one_line(n / 10);
        assert(d.drop_last() =~= crate::text::digits(n / 10));
        assert(d.last() == crate::text::digit_char(n % 10));
    } else {
        assert(d.drop_last() =~= Seq::<char>::empty());
        assert(newlines(Seq::<char>::empty()) == 0);
        assert(d.last() == crate::text::digit_char(n));
    }
}

proof fn lemma_expected_lines(values: Seq<int>)
    ensures
        newlines(expected_text(values)) == values.len(),
        expected_text(values).len() == 0 || expected_text(values).last() == '\n',
    decreases values.len(),
{
    if values.len() > 0 {
        let v = values.last();
        lemma_expected_lines(values.drop_last());
        if v < 0 {
            lemma_digits_one_line((-v) as nat);
            lemma_newlines_add(seq!['-'], crate::text::digits((-v) as nat));
            assert(seq!['-'].drop_last() =~= Seq::<char>::empty());
            assert(newlines(Seq::<char>::empty()) == 0);
            assert(newlines(seq!['-']) == 0);
        } else {
            lemma_digits_one_line(v as nat);
        }
        lemma_newlines_add(expected_text(values.drop_last()), decimal(v));
        reveal_strlit("\n");
        assert("\n"@.drop_last() =~= Seq::<char>::empty());
        assert(newlines(Seq::<char>::empty()) == 0);
        assert(newlines("\n"@) == 1);
        lemma_newlines_add(expected_text(values.drop_last()) + decimal(v), "\n"@);
    }
}

/// A program prints one line for each value it checks, so what `checks` counts is how many
/// lines its output has: that many line ends, with the text ending at the last of them.
pub proof fn lemma_a_line_per_check(program: Program)
    ensures
        newlines(program.output()) == program.expected_values().len(),
        program.output().len() == 0 || program.output().last() == '\n',
{
    lemma_expected_lines(program.expected_values());
}

/// A C program under construction.
pub struct Program {
    /// A short comment at the top saying what the program is for.
    purpose: String,
    /// System headers, in the order they were asked for.
    includes: Vec<String>,
    /// Declarations and function definitions that come before `main`.
    top: Vec<String>,
    /// Statements inside `main`, already indented.
    body: Vec<String>,
    /// What the program prints, in order.
    expected: Vec<i128>,
    /// Whether anything asked for the volatile sink.
    wants_sink: bool,
}

impl Program {
    /// No header line is asked for twice.
    #[verifier::type_invariant]
    spec fn headers_once(self) -> bool {
        texts(self.includes@).no_duplicates()
    }

    /// The comment saying what the program is for.
    pub closed spec fn purpose_text(&self) -> Seq<char> {
        self.purpose@
    }

    /// The header lines, in the order they were asked for.
    pub closed spec fn include_lines(&self) -> Seq<Seq<char>> {
        texts(self.includes@)
    }

    /// The lines before `main`.
    pub closed spec fn top_lines(&self) -> Seq<Seq<char>> {
        texts(self.top@)
    }

    /// The lines inside `main`, with their indentation.
    pub closed spec fn body_lines(&self) -> Seq<Seq<char>> {
        texts(self.body@)
    }

    /// The values the program prints, in order.
    pub closed spec fn expected_values(&self) -> Seq<int> {
        self.expected@.map_values(|v: i128| v as int)
    }

    /// Whether anything asked for the volatile sink.
    pub closed spec fn sinks(&self) -> bool {
        self.wants_sink
    }

    /// The translation unit this program would be if it were finished now.
    pub open spec fn source(&self) -> Seq<char> {
        source_text(
            self.purpose_text(),
            self.include_lines(),
            self.top_lines(),
            self.body_lines(),
            self.expected_values().len() > 0,
            self.sinks(),
        )
    }

    /// What this program prints.
    pub open spec fn output(&self) -> Seq<char> {
        expected_text(self.expected_values())
    }

    /// A new program with a one line statement of what it is for.
    pub fn new(purpose: &str) -> (r: Program)
        ensures
            r.purpose_text() == purpose@,
            r.include_lines() == Seq::<Seq<char>>::empty(),
            r.top_lines() == Seq::<Seq<char>>::empty(),
            r.body_lines() == Seq::<Seq<char>>::empty(),
            r.expected_values() == Seq::<int>::empty(),
            !r.sinks(),
    {
        let r = Program {
            purpose: String::from_str(purpose),
            includes: Vec::new(),
            top: Vec::new(),
            body: Vec::new(),
            expected: Vec::new(),
            wants_sink: false,
        };
        assert(texts(r.includes@) =~= Seq::<Seq<char>>::empty());
        assert(texts(r.top@) =~= Seq::<Seq<char>>::empty());
        assert(texts(r.body@) =~= Seq::<Seq<char>>::empty());
        assert(r.expected@.map_values(|v: i128| v as int) =~= Seq::<int>::empty());
        r
    }

    /// Appends a line to `main`, already indented.
    fn push_body(&mut self, line: String)
        ensures
            final(self).body_lines() == old(self).body_lines().push(line@),
            final(self).purpose_text() == old(self).purpose_text(),
            final(self).include_lines() == old(self).include_lines(),
            final(self).top_lines() == old(self).top_lines(),
            final(self).expected_values() == old(self).expected_values(),
            final(self).sinks() == old(self).sinks(),
    {
        proof {
            use_type_invariant(&*self);
        }
        let ghost before = self.body@;
        let mut body: Vec<String> = Vec::new();
        std::mem::swap(&mut body, &mut self.body);
        body.push(line);
        self.body = body;
        assert(texts(self.body@) =~= texts(before).push(line@));
    }

    /// Appends a line before `main`.
    fn push_top(&mut self, line: String)
        ensures
            final(self).top_lines() == old(self).top_lines().push(line@),
            final(self).purpose_text() == old(self).purpose_text(),
            final(self).include_lines() == old(self).include_lines(),
            final(self).body_lines() == old(self).body_lines(),
            final(self).expected_values() == old(self).expected_values(),
            final(self).sinks() == old(self).sinks(),
    {
        proof {
            use_type_invariant(&*self);
        }
        let ghost before = self.top@;
        let mut top: Vec<String> = Vec::new();
        std::mem::swap(&mut top, &mut self.top);
        top.push(line);
        self.top = top;
        assert(texts(self.top@) =~= texts(before).push(line@));
    }

    /// Appends a value to what the program prints.
    fn push_expected(&mut self, value: i128)
        ensures
            final(self).expected_values() == old(self).expected_values().push(value as int),
            final(self).purpose_text() == old(self).purpose_text(),
            final(self).include_lines() == old(self).include_lines(),
            final(self).top_lines() == old(self).top_lines(),
            final(self).body_lines() == old(self).body_lines(),
            final(self).sinks() == old(self).sinks(),
    {
        proof {
            use_type_invariant(&*self);
        }
        let ghost before = self.expected@;
        let mut expected: Vec<i128> = Vec::new();
        std::mem::swap(&mut expected, &mut self.expected);
        expected.push(value);
        self.expected = expected;
        assert(self.expected@.map_values(|v: i128| v as int) =~= before.map_values(
            |v: i128| v as int,
        ).push(value as int));
    }

    /// Adds a line before `main`, such as a global or a whole function.
    pub fn top(&mut self, text: &str)
        ensures
            final(self).top_lines() == old(self).top_lines().push(text@),
            final(self).purpose_text() == old(self).purpose_text(),
            final(self).include_lines() == old(self).include_lines(),
            final(self).body_lines() == old(self).body_lines(),
            final(self).expected_values() == old(self).expected_values(),
            final(self).sinks() == old(self).sinks(),
    {
        proof {
            use_type_invariant(&*self);
        }
        self.push_top(String::from_str(text));
    }

    /// Asks for a system header, once however often it is asked for.
    pub fn include_header(&mut self, header: &str)
        ensures
            final(self).include_lines() == with_header(old(self).include_lines(), header@),
            old(self).include_lines().no_duplicates(),
            final(self).include_lines().no_duplicates(),
            final(self).purpose_text() == old(self).purpose_text(),
            final(self).top_lines() == old(self).top_lines(),
            final(self).body_lines() == old(self).body_lines(),
            final(self).expected_values() == old(self).expected_values(),
            final(self).sinks() == old(self).sinks(),
    {
        proof {
            use_type_invariant(&*self);
        }
        let mut line = String::from_str("#include <");
        line.append(header);
        line.append(">");
        let n = self.includes.len();
        let mut i: usize = 0;
        while i < n
            invariant
                n == self.includes@.len(),
                i <= n,
                line@ == include_line(header@),
                texts(self.includes@).no_duplicates(),
                forall|j: int| 0 <= j < i ==> texts(self.includes@)[j] != line@,
            decreases n - i,
        {
            if self.includes[i] == line {
                assert(texts(self.includes@)[i as int] == line@);
                return;
            }
            i += 1;
        }
        assert(!texts(self.includes@).contains(line@));
        let ghost before = self.includes@;
        proof {
            lemma_headers_once(texts(before), header@);
        }
        let mut includes: Vec<String> = Vec::new();
        std::mem::swap(&mut includes, &mut self.includes);
        includes.push(line);
        assert(texts(includes@) =~= texts(before).push(include_line(header@)));
        assert(texts(includes@) == with_header(texts(before), header@));
        self.includes = includes;
    }

    /// Adds a statement to `main`, at one level of indentation.
    pub fn line(&mut self, text: &str)
        ensures
            final(self).body_lines() == old(self).body_lines().push(indent(1) + text@),
            final(self).purpose_text() == old(self).purpose_text(),
            final(self).include_lines() == old(self).include_lines(),
            final(self).top_lines() == old(self).top_lines(),
            final(self).expected_values() == old(self).expected_values(),
            final(self).sinks() == old(self).sinks(),
    {
        proof {
            use_type_invariant(&*self);
        }
        let mut out = String::from_str("    ");
        out.append(text);
        assert(indent(0) =~= Seq::<char>::empty());
        assert(indent(1) =~= "    "@);
        self.push_body(out);
    }

    /// Adds a statement at a deeper indentation, for the inside of a loop or an `if`.
    pub fn line_at(&mut self, depth: usize, text: &str)
        requires
            depth < usize::MAX,
        ensures
            final(self).body_lines() == old(self).body_lines().push(
                indent((depth + 1) as nat) + text@,
            ),
            final(self).purpose_text() == old(self).purpose_text(),
            final(self).include_lines() == old(self).include_lines(),
            final(self).top_lines() == old(self).top_lines(),
            final(self).expected_values() == old(self).expected_values(),
            final(self).sinks() == old(self).sinks(),
    {
        proof {
            use_type_invariant(&*self);
        }
        let mut out = indented(depth + 1);
        out.append(text);
        self.push_body(out);
    }

    /// Adds a blank line, to keep the generated source readable by a person.
    pub fn blank(&mut self)
        ensures
            final(self).body_lines() == old(self).body_lines().push(Seq::<char>::empty()),
            final(self).purpose_text() == old(self).purpose_text(),
            final(self).include_lines() == old(self).include_lines(),
            final(self).top_lines() == old(self).top_lines(),
            final(self).expected_values() == old(self).expected_values(),
            final(self).sinks() == old(self).sinks(),
    {
        proof {
            use_type_invariant(&*self);
        }
        self.push_body(String::new());
    }

    /// Prints an expression of a given type and records what it will print.
    ///
    /// The caller has already worked out the value, so this is where the program and its
    /// expected output are tied together. They cannot drift, because there is no other way to
    /// add a statement that prints.
    pub fn check(&mut self, ty: Ty, expr: &str, value: i128)
        ensures
            final(self).body_lines() == old(self).body_lines().push(print_line(1, ty, expr@)),
            final(self).expected_values() == old(self).expected_values().push(value as int),
            final(self).purpose_text() == old(self).purpose_text(),
            final(self).include_lines() == old(self).include_lines(),
            final(self).top_lines() == old(self).top_lines(),
            final(self).sinks() == old(self).sinks(),
    {
        proof {
            use_type_invariant(&*self);
        }
        self.check_at(0, ty, expr, value);
    }

    /// The same, at a deeper indentation.
    pub fn check_at(&mut self, depth: usize, ty: Ty, expr: &str, value: i128)
        requires
            depth < usize::MAX,
        ensures
            final(self).body_lines() == old(self).body_lines().push(
                print_line((depth + 1) as nat, ty, expr@),
            ),
            final(self).expected_values() == old(self).expected_values().push(value as int),
            final(self).purpose_text() == old(self).purpose_text(),
            final(self).include_lines() == old(self).include_lines(),
            final(self).top_lines() == old(self).top_lines(),
            final(self).sinks() == old(self).sinks(),
    {
        proof {
            use_type_invariant(&*self);
        }
        let mut out = indented(depth + 1);
        out.append("printf(\"");
        out.append(ty.print_spec());
        out.append("\\n\", ");
        out.append(ty.print_cast());
        out.append("(");
        out.append(expr);
        out.append("));");
        self.push_body(out);
        self.push_expected(value);
    }

    /// Records that a line already added will print a value.
    ///
    /// For the few cases that write the `printf` themselves, such as one inside a loop body
    /// that runs a known number of times. The caller keeps the two in step.
    pub fn expects(&mut self, value: i128)
        ensures
            final(self).expected_values() == old(self).expected_values().push(value as int),
            final(self).purpose_text() == old(self).purpose_text(),
            final(self).include_lines() == old(self).include_lines(),
            final(self).top_lines() == old(self).top_lines(),
            final(self).body_lines() == old(self).body_lines(),
            final(self).sinks() == old(self).sinks(),
    {
        proof {
            use_type_invariant(&*self);
        }
        self.push_expected(value);
    }

    /// Whether nothing has been printed yet.
    pub fn is_empty(&self) -> (r: bool)
        ensures
            r == (self.expected_values().len() == 0),
    {
        self.expected.len() == 0
    }

    /// How many values the program prints.
    pub fn checks(&self) -> (r: usize)
        ensures
            r == self.expected_values().len(),
    {
        self.expected.len()
    }

    /// Declares a local whose value the compiler is not allowed to know.
    ///
    /// The value is read once out of a `volatile` global, which says exactly that in plain C
    /// every compiler has to honour, with no assembly.
    pub fn input(&mut self, ty: Ty, name: &str, value: i128)
        ensures
            final(self).top_lines() == old(self).top_lines().push(
                input_global(ty, name@, value as int),
            ),
            final(self).body_lines() == old(self).body_lines().push(input_read(ty, name@)),
            final(self).purpose_text() == old(self).purpose_text(),
            final(self).include_lines() == old(self).include_lines(),
            final(self).expected_values() == old(self).expected_values(),
            final(self).sinks() == old(self).sinks(),
    {
        proof {
            use_type_invariant(&*self);
        }
        let mut global = String::from_str("static volatile ");
        global.append(ty.c_name());
        global.append(" ");
        global.append(name);
        global.append("_in = ");
        let literal = ty.literal(value);
        global.append(literal.as_str());
        global.append(";");
        self.push_top(global);
        let mut read = String::from_str("    ");
        read.append(ty.c_name());
        read.append(" ");
        read.append(name);
        read.append(" = ");
        read.append(name);
        read.append("_in;");
        self.push_body(read);
    }

    /// Keeps a value alive without telling the compiler anything about it.
    pub fn sink(&mut self, expr: &str)
        ensures
            final(self).body_lines() == old(self).body_lines().push(sink_line(1, expr@)),
            final(self).sinks(),
            final(self).purpose_text() == old(self).purpose_text(),
            final(self).include_lines() == old(self).include_lines(),
            final(self).top_lines() == old(self).top_lines(),
            final(self).expected_values() == old(self).expected_values(),
    {
        proof {
            use_type_invariant(&*self);
        }
        self.sink_at(0, expr);
    }

    /// The same, at a deeper indentation.
    pub fn sink_at(&mut self, depth: usize, expr: &str)
        requires
            depth < usize::MAX,
        ensures
            final(self).body_lines() == old(self).body_lines().push(
                sink_line((depth + 1) as nat, expr@),
            ),
            final(self).sinks(),
            final(self).purpose_text() == old(self).purpose_text(),
            final(self).include_lines() == old(self).include_lines(),
            final(self).top_lines() == old(self).top_lines(),
            final(self).expected_values() == old(self).expected_values(),
    {
        proof {
            use_type_invariant(&*self);
        }
        self.wants_sink = true;
        let mut out = indented(depth + 1);
        out.append("corpus_sink = (long long)(");
        out.append(expr);
        out.append(");");
        self.push_body(out);
    }

    /// The finished source and the text it prints.
    pub fn finish(self) -> (r: (String, String))
        ensures
            r.0@ == self.source(),
            r.1@ == self.output(),
            self.include_lines().no_duplicates(),
    {
        proof {
            use_type_invariant(&self);
        }
        let ghost purpose = self.purpose_text();
        let ghost includes = self.include_lines();
        let ghost top = self.top_lines();
        let ghost body = self.body_lines();
        let ghost prints = self.expected_values().len() > 0;
        let ghost sinks = self.sinks();
        let mut out = String::from_str("// ");
        out.append(self.purpose.as_str());
        out.append("\n");
        out.append("// Generated by rucc-corpus. Edit the generator, not this file.");
        out.append("\n");
        out.append("\n");
        let ghost head = out@;
        assert(head =~= "// "@ + purpose + "\n"@
            + "// Generated by rucc-corpus. Edit the generator, not this file."@ + "\n"@
            + "\n"@);
        if self.includes.len() > 0 {
            append_lines(&mut out, &self.includes);
            out.append("\n");
        }
        let ghost part1 = out@;
        assert(part1 =~= head + (if includes.len() > 0 {
            lines_text(includes) + "\n"@
        } else {
            Seq::<char>::empty()
        }));
        if self.expected.len() > 0 {
            out.append("int printf(const char *, ...);");
            out.append("\n");
            out.append("\n");
        }
        let ghost part2 = out@;
        assert(part2 =~= part1 + (if prints {
            "int printf(const char *, ...);"@ + "\n"@ + "\n"@
        } else {
            Seq::<char>::empty()
        }));
        if self.wants_sink {
            out.append("static volatile long long corpus_sink;");
            out.append("\n");
            out.append("\n");
        }
        let ghost part3 = out@;
        assert(part3 =~= part2 + (if sinks {
            "static volatile long long corpus_sink;"@ + "\n"@ + "\n"@
        } else {
            Seq::<char>::empty()
        }));
        append_lines(&mut out, &self.top);
        if self.top.len() > 0 {
            out.append("\n");
        }
        let ghost part4 = out@;
        assert(part4 =~= part3 + lines_text(top) + (if top.len() > 0 {
            "\n"@
        } else {
            Seq::<char>::empty()
        }));
        out.append("int main(void) {");
        out.append("\n");
        append_lines(&mut out, &self.body);
        out.append("    return 0;");
        out.append("\n");
        out.append("}");
        out.append("\n");
        assert(out@ =~= part4 + "int main(void) {"@ + "\n"@ + lines_text(body) + "    return 0;"@
            + "\n"@ + "}"@ + "\n"@);
        assert(out@ =~= self.source());
        let mut printed = String::new();
        let n = self.expected.len();
        let mut i: usize = 0;
        let ghost values = self.expected_values();
        assert(values.take(0) =~= Seq::<int>::empty());
        while i < n
            invariant
                n == self.expected@.len(),
                values == self.expected_values(),
                values.len() == n,
                i <= n,
                printed@ == expected_text(values.take(i as int)),
            decreases n - i,
        {
            let v = self.expected[i];
            assert(values[i as int] == v as int);
            push_decimal(&mut printed, v);
            printed.append("\n");
            assert(values.take(i + 1).drop_last() =~= values.take(i as int));
            assert(values.take(i + 1).last() == v as int);
            i += 1;
        }
        assert(values.take(n as int) =~= values);
        (out, printed)
    }
}

/// Appends each line and a newline after it.
fn append_lines(out: &mut String, lines: &Vec<String>)
    ensures
        final(out)@ == old(out)@ + lines_text(texts(lines@)),
{
    let n = lines.len();
    let mut i: usize = 0;
    let ghost all = texts(lines@);
    assert(all.take(0) =~= Seq::<Seq<char>>::empty());
    assert(old(out)@ + lines_text(all.take(0)) =~= old(out)@);
    while i < n
        invariant
            n == lines@.len(),
            all == texts(lines@),
            i <= n,
            out@ == old(out)@ + lines_text(all.take(i as int)),
        decreases n - i,
    {
        out.append(lines[i].as_str());
        out.append("\n");
        assert(all.take(i + 1).drop_last() =~= all.take(i as int));
        assert(all.take(i + 1).last() == lines@[i as int]@);
        assert(out@ =~= old(out)@ + lines_text(all.take(i + 1)));
        i += 1;
    }
    assert(all.take(n as int) =~= all);
}

/// Four spaces per level.
fn indented(levels: usize) -> (r: String)
    ensures
        r@ == indent(levels as nat),
{
    let mut out = String::new();
    let mut i: usize = 0;
    while i < levels
        invariant
            i <= levels,
            out@ == indent(i as nat),
        decreases levels - i,
    {
        out.append("    ");
        i += 1;
    }
    out
}


/// Whether a character is an ASCII decimal digit.
pub open spec fn is_digit(c: char) -> bool {
    '0' <= c <= '9'
}

/// Whether a character may stand in a C identifier: an ASCII letter, digit or underscore.
pub open spec fn is_word_char(c: char) -> bool {
    ('a' <= c <= 'z') || ('A' <= c <= 'Z') || is_digit(c) || c == '_'
}

/// A part with every character a C identifier cannot hold turned into an underscore.
pub open spec fn cleaned(part: Seq<char>) -> Seq<char> {
    part.map_values(|c: char| if is_word_char(c) { c } else { '_' })
}

/// The cleaned parts joined by underscores, where an underscore only goes after something.
pub open spec fn joined(parts: Seq<Seq<char>>) -> Seq<char>
    decreases parts.len(),
{
    if parts.len() == 0 {
        Seq::empty()
    } else {
        let before = joined(parts.drop_last());
        (if before.len() > 0 {
            before.push('_')
        } else {
            before
        }) + cleaned(parts.last())
    }
}

/// The identifier built from parts: the cleaned parts joined by underscores, with a `v` in
/// front when that would start with a digit, and `v` alone when it would be empty.
pub open spec fn ident_text(parts: Seq<Seq<char>>) -> Seq<char> {
    let j = joined(parts);
    if j.len() == 0 {
        seq!['v']
    } else if is_digit(j[0]) {
        seq!['v'] + j
    } else {
        j
    }
}

/// Parts put one after another with an underscore between each two.
pub open spec fn underscore_join(parts: Seq<Seq<char>>) -> Seq<char>
    decreases parts.len(),
{
    if parts.len() == 0 {
        Seq::empty()
    } else if parts.len() == 1 {
        parts[0]
    } else {
        underscore_join(parts.drop_last()).push('_') + parts.last()
    }
}

/// The cleaned parts from `k` on.
pub open spec fn cleaned_from(parts: Seq<Seq<char>>, k: int) -> Seq<Seq<char>> {
    parts.subrange(k, parts.len() as int).map_values(|part: Seq<char>| cleaned(part))
}

proof fn lemma_underscore_join_len(parts: Seq<Seq<char>>)
    requires
        parts.len() >= 1,
    ensures
        underscore_join(parts).len() >= parts[0].len(),
    decreases parts.len(),
{
    if parts.len() > 1 {
        lemma_underscore_join_len(parts.drop_last());
    }
}

proof fn lemma_joined_empty(parts: Seq<Seq<char>>)
    requires
        forall|i: int| 0 <= i < parts.len() ==> (#[trigger] parts[i]).len() == 0,
    ensures
        joined(parts) == Seq::<char>::empty(),
    decreases parts.len(),
{
    if parts.len() > 0 {
        lemma_joined_empty(parts.drop_last());
        assert(cleaned(parts.last()) =~= Seq::<char>::empty());
    }
}

proof fn lemma_joined_from_first_word(parts: Seq<Seq<char>>, k: int)
    requires
        0 <= k < parts.len(),
        parts[k].len() > 0,
        forall|i: int| 0 <= i < k ==> (#[trigger] parts[i]).len() == 0,
    ensures
        joined(parts) == underscore_join(cleaned_from(parts, k)),
    decreases parts.len(),
{
    let q = parts.drop_last();
    let last = parts.last();
    if k == parts.len() - 1 {
        lemma_joined_empty(q);
        assert(cleaned_from(parts, k) =~= seq![cleaned(last)]);
    } else {
        lemma_joined_from_first_word(q, k);
        let mq = cleaned_from(q, k);
        assert(mq.len() >= 1);
        assert(mq[0] == cleaned(parts[k]));
        lemma_underscore_join_len(mq);
        assert(cleaned_from(parts, k).drop_last() =~= mq);
        assert(cleaned_from(parts, k).last() == cleaned(last));
    }
}

/// The identifier a name is built into: the parts from the first one that is not empty on,
/// each cleaned, with an underscore between each two, and a `v` in front if that starts with a
/// digit; and `v` alone when every part is empty.
pub proof fn lemma_ident_from_first_word(parts: Seq<Seq<char>>, k: int)
    requires
        0 <= k < parts.len(),
        parts[k].len() > 0,
        forall|i: int| 0 <= i < k ==> (#[trigger] parts[i]).len() == 0,
    ensures
        joined(parts) == underscore_join(cleaned_from(parts, k)),
        joined(parts).len() > 0,
        ident_text(parts) == (if is_digit(underscore_join(cleaned_from(parts, k))[0]) {
            seq!['v'] + underscore_join(cleaned_from(parts, k))
        } else {
            underscore_join(cleaned_from(parts, k))
        }),
{
    lemma_joined_from_first_word(parts, k);
    lemma_underscore_join_len(cleaned_from(parts, k));
}

/// A name built from parts that are all empty is `v`.
pub proof fn lemma_ident_of_nothing(parts: Seq<Seq<char>>)
    requires
        forall|i: int| 0 <= i < parts.len() ==> (#[trigger] parts[i]).len() == 0,
    ensures
        ident_text(parts) == seq!['v'],
{
    lemma_joined_empty(parts);
}

/// Whether a text is something C accepts as an identifier.
pub open spec fn is_c_identifier(s: Seq<char>) -> bool {
    &&& s.len() > 0
    &&& !is_digit(s[0])
    &&& forall|i: int| 0 <= i < s.len() ==> is_word_char(#[trigger] s[i])
}

/// The text of each part.
pub open spec fn part_texts(parts: Seq<&str>) -> Seq<Seq<char>> {
    parts.map_values(|p: &str| p@)
}

fn word_char(c: char) -> (r: bool)
    ensures
        r == is_word_char(c),
{
    ('a' <= c && c <= 'z') || ('A' <= c && c <= 'Z') || ('0' <= c && c <= '9') || c == '_'
}

proof fn lemma_joined_is_words(parts: Seq<Seq<char>>)
    ensures
        forall|i: int| 0 <= i < joined(parts).len() ==> is_word_char(#[trigger] joined(parts)[i]),
    decreases parts.len(),
{
    if parts.len() > 0 {
        lemma_joined_is_words(parts.drop_last());
        let before = joined(parts.drop_last());
        let mid = if before.len() > 0 {
            before.push('_')
        } else {
            before
        };
        let c = cleaned(parts.last());
        assert(joined(parts) == mid + c);
        assert forall|i: int| 0 <= i < joined(parts).len() implies is_word_char(
            #[trigger] joined(parts)[i],
        ) by {
            if i < mid.len() {
                if i < before.len() {
                    assert(mid[i] == before[i]);
                }
            } else {
                assert(joined(parts)[i] == c[i - mid.len()]);
            }
        }
    }
}

/// A name that is a valid C identifier, built from parts.
///
/// Case ids contain dots and dashes, so a name that comes from one has to be cleaned before
/// it can be a variable. Every character that is not a letter, a digit or an underscore
/// becomes an underscore, and a leading digit gets a prefix.
pub fn ident(parts: &[&str]) -> (r: String)
    ensures
        r@ == ident_text(part_texts(parts@)),
        is_c_identifier(r@),
{
    let mut out = String::new();
    let n = parts.len();
    let mut i: usize = 0;
    let ghost all = part_texts(parts@);
    assert(all.take(0) =~= Seq::<Seq<char>>::empty());
    while i < n
        invariant
            n == parts@.len(),
            all == part_texts(parts@),
            i <= n,
            out@ == joined(all.take(i as int)),
        decreases n - i,
    {
        let part: &str = parts[i];
        let ghost before = out@;
        if out.unicode_len() > 0 {
            push_char(&mut out, '_');
        }
        let ghost start = out@;
        let len = part.unicode_len();
        let mut k: usize = 0;
        while k < len
            invariant
                len == part@.len(),
                k <= len,
                out@ == start + cleaned(part@).take(k as int),
            decreases len - k,
        {
            let c = part.get_char(k);
            if word_char(c) {
                push_char(&mut out, c);
            } else {
                push_char(&mut out, '_');
            }
            assert(cleaned(part@).take(k + 1) =~= cleaned(part@).take(k as int).push(
                cleaned(part@)[k as int],
            ));
            k += 1;
        }
        assert(cleaned(part@).take(len as int) =~= cleaned(part@));
        assert(all.take(i + 1).drop_last() =~= all.take(i as int));
        assert(all.take(i + 1).last() == part@);
        i += 1;
    }
    assert(all.take(n as int) =~= all);
    proof {
        lemma_joined_is_words(all);
    }
    if out.unicode_len() == 0 {
        push_char(&mut out, 'v');
        assert(out@ =~= seq!['v']);
        out
    } else {
        let first = out.as_str().get_char(0);
        if '0' <= first && first <= '9' {
            let mut r = String::from_str("v");
            r.append(out.as_str());
            proof {
                reveal_strlit("v");
            }
            assert(r@ =~= seq!['v'] + out@);
            assert forall|i: int| 0 <= i < r@.len() implies is_word_char(#[trigger] r@[i]) by {
                if i > 0 {
                    assert(r@[i] == out@[i - 1]);
                }
            }
            r
        } else {
            out
        }
    }
}

} // verus!
