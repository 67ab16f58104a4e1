//! One module per phase of the plan, each building the cases for its own facets.
//!
//! A facet generator is a walk over an axis subspace that builds a program per point, and
//! what it is checked on is that every program carries the answer the generator worked out.

use vstd::prelude::*;
use vstd::string::*;
use crate::lang::Ty;
use crate::emit::Program;

pub mod backend;
pub mod calls;
pub mod conversion;
pub mod dispatch;
pub mod draws;
pub mod folding;
pub mod prune;
pub mod narrowing;
pub mod effects;
pub mod global;
pub mod interproc;
pub mod local;
pub mod loops;
pub mod loop_passes;
pub mod lowering;
pub mod machine;
pub mod memory;
pub mod peephole;
pub mod runtime;
pub mod division;
pub mod folds;
pub mod switches;

verus! {

/// One point of a facet's axis subspace, and the program built for it.
///
/// A generator builds every point it has; which of them a run keeps, and where the programs
/// are written, is decided by whoever asked for them.
pub struct Case {
    /// The axis names and values that name the point, in order.
    pub axes: Vec<(String, String)>,
    /// Tags that say what the program needs beyond C17, such as `gnu` for an extension.
    pub tags: Vec<String>,
    /// The program, with the output it must produce.
    pub program: Program,
}

impl Case {
    /// The axes, as text.
    pub open spec fn axes_text(&self) -> Seq<(Seq<char>, Seq<char>)> {
        self.axes@.map_values(|a: (String, String)| (a.0@, a.1@))
    }

    /// The tags, as text.
    pub open spec fn tags_text(&self) -> Seq<Seq<char>> {
        self.tags@.map_values(|t: String| t@)
    }
}

/// An axis name and value.
pub fn axis(name: &str, value: &str) -> (r: (String, String))
    ensures
        r.0@ == name@,
        r.1@ == value@,
{
    (String::from_str(name), String::from_str(value))
}

/// The tags of a case that writes a builtin: `gnu`, and none for the plain spelling.
pub open spec fn gnu_when(builtin: bool) -> Seq<Seq<char>> {
    if builtin { seq!["gnu"@] } else { Seq::empty() }
}

/// The tags for a case: `gnu` when it writes an extension.
pub fn tags_for(builtin: bool) -> (r: Vec<String>)
    ensures
        r@.map_values(|t: String| t@) == gnu_when(builtin),
{
    if builtin {
        let r = vec![String::from_str("gnu")];
        assert(r@.map_values(|t: String| t@) =~= seq!["gnu"@]);
        r
    } else {
        let r: Vec<String> = Vec::new();
        assert(r@.map_values(|t: String| t@) =~= Seq::<Seq<char>>::empty());
        r
    }
}

/// The seed every stream in the generated programs starts from.
pub const SEED: i128 = 7;

/// A literal of a type, with a cast in front so that the expression really has that type.
pub open spec fn lit_text(ty: Ty, value: int) -> Seq<char> {
    "("@ + ty.c_text() + ")"@ + ty.literal_text(value)
}

/// A literal of a type, cast so that the expression really has that type.
///
/// Without the cast, `255u` is an `unsigned int` no matter what type the case is about, and a
/// case that meant to test `unsigned char` arithmetic ends up testing `unsigned int`
/// arithmetic with a small operand. Casting first and letting the usual promotions happen
/// afterwards is what a real program does.
pub fn lit(ty: Ty, value: i128) -> (r: String)
    ensures
        r@ == lit_text(ty, value as int),
{
    let mut out = String::from_str("(");
    out.append(ty.c_name());
    out.append(")");
    let literal = ty.literal(value);
    out.append(literal.as_str());
    out
}

/// The value with every bit set, in a form the type can hold.
pub fn all_ones(ty: Ty) -> (r: i128)
    ensures
        r == (if ty.is_signed() { -1 } else { ty.highest() }),
        ty.contains(r as int),
        r == ty.wrap(-1),
{
    proof {
        crate::lang::lemma_wrap_keeps_contained(ty, if ty.is_signed() { -1 } else { ty.highest() });
        crate::lang::lemma_wrap_periodic(ty, -1, 1);
    }
    if ty.signed() { -1 } else { ty.max() }
}

/// A list with every element equal to the one before it left out.
pub open spec fn deduped(s: Seq<int>) -> Seq<int>
    decreases s.len(),
{
    if s.len() <= 1 {
        s
    } else {
        let before = deduped(s.drop_last());
        if s.last() == s[s.len() - 2] {
            before
        } else {
            before.push(s.last())
        }
    }
}

/// The `n` evenly spaced picks from a list of more than `n` values, `n` at least two.
pub open spec fn picks(s: Seq<int>, n: nat) -> Seq<int> {
    Seq::new(n, |at: int| s[at * (s.len() - 1) / (n - 1)])
}

/// At most `n` values from a list, keeping both ends and spacing the rest evenly.
pub open spec fn spread_of(s: Seq<int>, n: nat) -> Seq<int> {
    if s.len() <= n {
        s
    } else if n == 0 {
        Seq::empty()
    } else if n == 1 {
        seq![s[0]]
    } else {
        deduped(picks(s, n))
    }
}

/// The values of a slice, as integers.
pub open spec fn ints(v: Seq<i128>) -> Seq<int> {
    v.map_values(|x: i128| x as int)
}

/// Leaving out repeats keeps the first and the last value and never grows the list.
pub proof fn lemma_deduped_ends(s: Seq<int>)
    requires
        s.len() >= 1,
    ensures
        deduped(s).len() >= 1,
        deduped(s).len() <= s.len(),
        deduped(s)[0] == s[0],
        deduped(s).last() == s.last(),
    decreases s.len(),
{
    if s.len() > 1 {
        lemma_deduped_ends(s.drop_last());
    }
}

/// At most `n` values from a sorted list, keeping both ends and spacing the rest evenly.
///
/// Some axis points have more interesting operands than a single program should carry. This
/// thins them without ever dropping the boundary values, which are the ones that find bugs.
/// The choice is a function of the input alone, so it is the same on every run.
pub fn spread(values: &[i128], n: usize) -> (r: Vec<i128>)
    requires
        values@.len() <= n || n <= 1 || (n - 1) * (values@.len() - 1) <= usize::MAX,
    ensures
        ints(r@) == spread_of(ints(values@), n as nat),
{
    let len = values.len();
    if n == 0 && len > 0 {
        let out: Vec<i128> = Vec::new();
        assert(ints(out@) =~= Seq::<int>::empty());
        return out;
    }
    if len <= n || n == 0 {
        let mut out: Vec<i128> = Vec::new();
        let mut i: usize = 0;
        while i < len
            invariant
                len == values@.len(),
                i <= len,
                out@ == values@.take(i as int),
            decreases len - i,
        {
            out.push(values[i]);
            assert(values@.take(i + 1) =~= values@.take(i as int).push(values@[i as int]));
            i += 1;
        }
        assert(values@.take(len as int) =~= values@);
        return out;
    }
    if n == 1 {
        let out = vec![values[0]];
        assert(ints(out@) =~= seq![ints(values@)[0]]);
        return out;
    }
    let last = len - 1;
    let ghost s = ints(values@);
    let ghost all = picks(s, n as nat);
    let mut out: Vec<i128> = Vec::new();
    let mut at: usize = 0;
    assert(all.take(0) =~= Seq::<int>::empty());
    while at < n
        invariant
            len == values@.len(),
            last == len - 1,
            2 <= n < len,
            (n - 1) * last <= usize::MAX,
            s == ints(values@),
            all == picks(s, n as nat),
            at <= n,
            ints(out@) == deduped(all.take(at as int)),
            at > 0 ==> out@.len() > 0 && out@.last() as int == all[at - 1],
        decreases n - at,
    {
        assert(at * last <= (n - 1) * last) by (nonlinear_arith)
            requires
                at <= n - 1,
        ;
        let index = at * last / (n - 1);
        assert(index <= last) by (nonlinear_arith)
            requires
                at <= n - 1,
                n >= 2,
                index == at * last / (n - 1),
        ;
        let v = values[index];
        assert(all[at as int] == v as int);
        let ghost prefix = all.take(at as int);
        let ghost next = all.take(at + 1);
        assert(next.drop_last() =~= prefix);
        if at == 0 || out[out.len() - 1] != v {
            let ghost before = out@;
            out.push(v);
            assert(ints(out@) =~= ints(before).push(v as int));
            if at > 0 {
                assert(next[next.len() - 2] == all[at - 1]);
            } else {
                assert(next =~= seq![v as int]);
            }
        } else {
            assert(next[next.len() - 2] == all[at - 1]);
        }
        at += 1;
    }
    assert(all.take(n as int) =~= all);
    out
}

/// Spreading gives at most `n` values, leaves a list of at most `n` values alone, and, where it
/// keeps anything, keeps the first value, and with room for two the last one too.
pub proof fn lemma_spread_keeps_both_ends(s: Seq<int>, n: nat)
    ensures
        spread_of(s, n).len() <= n || spread_of(s, n) == s,
        s.len() <= n ==> spread_of(s, n) == s,
        spread_of(s, n).len() <= s.len(),
        s.len() >= 1 && n >= 1 ==> spread_of(s, n).len() >= 1 && spread_of(s, n)[0] == s[0],
        s.len() >= 1 && (n >= 2 || s.len() <= n) ==> spread_of(s, n).last() == s.last(),
{
    if s.len() > n && n >= 2 {
        let p = picks(s, n);
        lemma_deduped_ends(p);
        assert(p[0] == s[0]);
        assert(p.last() == s[(n - 1) * (s.len() - 1) / (n - 1)]);
        assert((n - 1) * (s.len() - 1) / (n - 1) == s.len() - 1) by (nonlinear_arith)
            requires
                n >= 2,
                s.len() >= 1,
        ;
    }
}

/// Adds a line before `main` made of three pieces.
pub fn top3(program: &mut Program, a: &str, b: &str, c: &str)
    ensures
        final(program).top_lines() == old(program).top_lines().push(a@ + b@ + c@),
        final(program).body_lines() == old(program).body_lines(),
        final(program).expected_values() == old(program).expected_values(),
        final(program).purpose_text() == old(program).purpose_text(),
        final(program).include_lines() == old(program).include_lines(),
        final(program).sinks() == old(program).sinks(),
{
    let mut line = String::from_str(a);
    line.append(b);
    line.append(c);
    program.top(line.as_str());
}

/// Adds a line before `main` made of five pieces.
pub fn top5(program: &mut Program, a: &str, b: &str, c: &str, d: &str, e: &str)
    ensures
        final(program).top_lines() == old(program).top_lines().push(a@ + b@ + c@ + d@ + e@),
        final(program).body_lines() == old(program).body_lines(),
        final(program).expected_values() == old(program).expected_values(),
        final(program).purpose_text() == old(program).purpose_text(),
        final(program).include_lines() == old(program).include_lines(),
        final(program).sinks() == old(program).sinks(),
{
    let mut line = String::from_str(a);
    line.append(b);
    line.append(c);
    line.append(d);
    line.append(e);
    program.top(line.as_str());
}

/// Adds a line before `main` made of seven pieces.
pub fn top7(program: &mut Program, a: &str, b: &str, c: &str, d: &str, e: &str, f: &str, g: &str)
    ensures
        final(program).top_lines() == old(program).top_lines().push(
            a@ + b@ + c@ + d@ + e@ + f@ + g@,
        ),
        final(program).body_lines() == old(program).body_lines(),
        final(program).expected_values() == old(program).expected_values(),
        final(program).purpose_text() == old(program).purpose_text(),
        final(program).include_lines() == old(program).include_lines(),
        final(program).sinks() == old(program).sinks(),
{
    let mut line = String::from_str(a);
    line.append(b);
    line.append(c);
    line.append(d);
    line.append(e);
    line.append(f);
    line.append(g);
    program.top(line.as_str());
}

/// Adds a statement to `main` made of three pieces.
pub fn line3(program: &mut Program, a: &str, b: &str, c: &str)
    ensures
        final(program).body_lines() == old(program).body_lines().push(
            crate::emit::indent(1) + a@ + b@ + c@,
        ),
        final(program).top_lines() == old(program).top_lines(),
        final(program).expected_values() == old(program).expected_values(),
        final(program).purpose_text() == old(program).purpose_text(),
        final(program).include_lines() == old(program).include_lines(),
        final(program).sinks() == old(program).sinks(),
{
    let mut line = String::from_str(a);
    line.append(b);
    line.append(c);
    assert(crate::emit::indent(1) + line@ =~= crate::emit::indent(1) + a@ + b@ + c@);
    program.line(line.as_str());
}

/// Adds a statement to `main` made of five pieces.
pub fn line5(program: &mut Program, a: &str, b: &str, c: &str, d: &str, e: &str)
    ensures
        final(program).body_lines() == old(program).body_lines().push(
            crate::emit::indent(1) + a@ + b@ + c@ + d@ + e@,
        ),
        final(program).top_lines() == old(program).top_lines(),
        final(program).expected_values() == old(program).expected_values(),
        final(program).purpose_text() == old(program).purpose_text(),
        final(program).include_lines() == old(program).include_lines(),
        final(program).sinks() == old(program).sinks(),
{
    let mut line = String::from_str(a);
    line.append(b);
    line.append(c);
    line.append(d);
    line.append(e);
    assert(crate::emit::indent(1) + line@ =~= crate::emit::indent(1) + a@ + b@ + c@ + d@ + e@);
    program.line(line.as_str());
}

/// A case whose program is linked with translation units of its own, already finished: the
/// units are written whole and compiled on their own.
pub struct LinkedCase {
    /// The axis names and values that name the point, in order.
    pub axes: Vec<(String, String)>,
    /// Tags that say what the program needs beyond C17.
    pub tags: Vec<String>,
    /// The main translation unit.
    pub source: String,
    /// The other units, each a name and its text.
    pub units: Vec<(String, String)>,
    /// What the linked program prints.
    pub output: String,
}

impl LinkedCase {
    /// The axes, as text.
    pub open spec fn axes_text(&self) -> Seq<(Seq<char>, Seq<char>)> {
        self.axes@.map_values(|a: (String, String)| (a.0@, a.1@))
    }

    /// The tags, as text.
    pub open spec fn tags_text(&self) -> Seq<Seq<char>> {
        self.tags@.map_values(|t: String| t@)
    }

    /// The other units, as text.
    pub open spec fn units_text(&self) -> Seq<(Seq<char>, Seq<char>)> {
        self.units@.map_values(|u: (String, String)| (u.0@, u.1@))
    }
}

/// The text of a translation unit with no `main` in it, written the way the generated ones are.
pub open spec fn unit_text(purpose: Seq<char>, body: Seq<char>) -> Seq<char> {
    "// "@ + purpose + "\n// Generated by rucc-corpus. Edit the generator, not this file.\n\n"@
        + body
}

/// One translation unit with no `main` in it: its name and its text.
pub fn unit(name: &str, purpose: &str, body: &str) -> (r: (String, String))
    ensures
        r.0@ == name@,
        r.1@ == unit_text(purpose@, body@),
{
    let mut text = String::from_str("// ");
    text.append(purpose);
    text.append("\n// Generated by rucc-corpus. Edit the generator, not this file.\n\n");
    text.append(body);
    (String::from_str(name), text)
}

/// Adds a statement made of three pieces at a deeper indentation.
pub fn line_at3(program: &mut Program, depth: usize, a: &str, b: &str, c: &str)
    requires
        depth < usize::MAX,
    ensures
        final(program).body_lines() == old(program).body_lines().push(
            crate::emit::indent((depth + 1) as nat) + a@ + b@ + c@,
        ),
        final(program).top_lines() == old(program).top_lines(),
        final(program).expected_values() == old(program).expected_values(),
        final(program).purpose_text() == old(program).purpose_text(),
        final(program).include_lines() == old(program).include_lines(),
        final(program).sinks() == old(program).sinks(),
{
    let mut line = String::from_str(a);
    line.append(b);
    line.append(c);
    assert(crate::emit::indent((depth + 1) as nat) + line@ =~= crate::emit::indent(
        (depth + 1) as nat,
    ) + a@ + b@ + c@);
    program.line_at(depth, line.as_str());
}

/// A purpose line made of three pieces.
pub fn text3(a: &str, b: &str, c: &str) -> (r: String)
    ensures
        r@ == a@ + b@ + c@,
{
    let mut r = String::from_str(a);
    r.append(b);
    r.append(c);
    r
}

/// The programs one facet built, in the order it built them: plain ones, or ones linked from
/// several translation units.
pub enum Batch {
    /// Programs that are one translation unit each.
    Single { cases: Vec<Case> },
    /// Programs whose callee is compiled in another translation unit.
    Linked { linked: Vec<LinkedCase> },
}

} // verus!
