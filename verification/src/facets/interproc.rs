//! Calls between functions: state machines whose states call each other in tail position.
//!
//! A lexer or an interpreter written as functions calling each other makes one call per byte,
//! and a call and a return per byte is most of what it does, so turning the call into a jump is
//! what these cases time. Every function is `noinline`, so the calls are still calls when the
//! back end sees them.

use vstd::prelude::*;
use vstd::string::*;
use vstd::wrapping::u64_specs;
use crate::emit::{
    Program, include_line, input_global, input_read, indent, print_line, source_text, expected_text,
};
use crate::lang::{Ty, wide, wide_types};
use crate::text::{decimal, push_decimal};
use crate::facets::{
    Case, LinkedCase, axis, gnu_when, tags_for, lit, lit_text, top3, top5, top7, line3, line5, unit,
    unit_text,
};
use crate::facets::division::{mmix_after, next_state};
use crate::text::decimal_string;

use crate::facets::calls::{callee_shapes_list, devirtualize, function_purity, indirect_shapes_list, inline_sizes, is_callee_case, is_indirect_case, is_inline_case, is_recursion_case, is_unreferenced_case, reachability, recursion_depths, recursion_shapes_list, tail_call, unreferenced_kinds};
use crate::facets::effects::{call_motion, calls_across_units, effect_shapes_list, is_effect_case, is_motion_case, is_unit_call_case, memory_effects, motion_shapes_list, unit_shapes_list};
use crate::facets::Batch;
verus! {

/// How many bytes a dispatch case walks, one call per byte.
pub const DISPATCH_TEXT: usize = 2048;

/// How many times a dispatch case walks its bytes: two million calls in all.
pub const DISPATCH_ROUNDS: u64 = 1024;

/// The seed the dispatch bytes are drawn from, read through a `volatile` so nothing folds.
pub const DISPATCH_SEED: u64 = 7;

/// The multiplier the many state machines mix with, the 64 bit FNV prime.
pub const DISPATCH_PRIME: u64 = 0x0100_0000_01b3;

/// How the states of a dispatch case pick the next one.
#[derive(Clone, Copy, Debug, PartialEq, Eq, Structural)]
pub enum TailShape {
    /// Two states that alternate.
    Alternate,
    /// States that pick the next one with a `switch`.
    Switch,
    /// One function of six arguments that calls itself with them rotated.
    Rotate,
    /// States that pick the next one out of a table of pointers, which a compiler has to jump
    /// through a register for.
    Table,
}

impl TailShape {
    /// The axis value.
    pub open spec fn name_text(self) -> Seq<char> {
        match self {
            TailShape::Alternate => "alternate"@,
            TailShape::Switch => "switch"@,
            TailShape::Rotate => "rotate"@,
            TailShape::Table => "table"@,
        }
    }

    /// The axis value.
    pub fn name(self) -> (r: &'static str)
        ensures
            r@ == self.name_text(),
    {
        match self {
            TailShape::Alternate => "alternate",
            TailShape::Switch => "switch",
            TailShape::Rotate => "rotate",
            TailShape::Table => "table",
        }
    }
}

/// The byte a dispatch case reads at a position, drawn the way the C draws it.
pub open spec fn text_byte(at: int) -> u8 {
    (mmix_after(DISPATCH_SEED, (at + 1) as nat) >> 33u64) as u8
}

/// The bytes a dispatch case walks, drawn the way the C draws them.
pub fn dispatch_text() -> (r: Vec<u8>)
    ensures
        r@.len() == DISPATCH_TEXT,
        forall|at: int| 0 <= at < DISPATCH_TEXT ==> #[trigger] r@[at] == text_byte(at),
{
    let mut drawn = DISPATCH_SEED;
    let mut out: Vec<u8> = Vec::new();
    let mut at: usize = 0;
    while at < DISPATCH_TEXT
        invariant
            at <= DISPATCH_TEXT,
            out@.len() == at,
            drawn == mmix_after(DISPATCH_SEED, at as nat),
            forall|k: int| 0 <= k < at ==> #[trigger] out@[k] == text_byte(k),
        decreases DISPATCH_TEXT - at,
    {
        drawn = next_state(drawn);
        out.push((drawn >> 33u64) as u8);
        at += 1;
    }
    out
}

/// One byte's work in a state, and the state it goes to.
pub open spec fn tail_step(shape: TailShape, states: nat, acc: u64, state: nat, byte: u8) -> (
    u64,
    nat,
) {
    let wide = byte as u64;
    let next_acc = match shape {
        TailShape::Alternate => if state == 0 {
            u64_specs::wrapping_add(u64_specs::wrapping_mul(acc, 31), wide)
        } else {
            acc ^ ((wide << 3u64) as u64)
        },
        TailShape::Switch => u64_specs::wrapping_add(
            u64_specs::wrapping_add(u64_specs::wrapping_mul(acc, DISPATCH_PRIME), wide),
            state as u64,
        ),
        _ => u64_specs::wrapping_add(
            u64_specs::wrapping_add(u64_specs::wrapping_mul(acc, 31), wide),
            state as u64,
        ),
    };
    let next_state = if shape == TailShape::Alternate {
        (((state + 1) as int) % (states as int)) as nat
    } else {
        ((byte as int + state as int) % (states as int)) as nat
    };
    (next_acc, next_state)
}

/// The accumulator and the state after the first `n` bytes of a walk started from `round`.
pub open spec fn tail_walk(shape: TailShape, states: nat, text: Seq<u8>, round: u64, n: nat) -> (
    u64,
    nat,
)
    decreases n,
{
    if n == 0 {
        (round, 0)
    } else {
        let (acc, state) = tail_walk(shape, states, text, round, (n - 1) as nat);
        tail_step(shape, states, acc, state, text[n - 1])
    }
}

/// The six arguments of the rotating function after the first `n` bytes.
pub open spec fn rotated(text: Seq<u8>, round: u64, n: nat) -> (u64, u64, u64, u64)
    decreases n,
{
    if n == 0 {
        (round, 1, 2, 3)
    } else {
        let (a, b, c, d) = rotated(text, round, (n - 1) as nat);
        (b, c, d, u64_specs::wrapping_add(a, text[n - 1] as u64))
    }
}

/// What one walk of a dispatch case gives back, started from `round`.
pub open spec fn dispatched_of(shape: TailShape, states: nat, text: Seq<u8>, round: u64) -> u64 {
    if shape == TailShape::Rotate {
        let (a, b, c, d) = rotated(text, round, text.len());
        u64_specs::wrapping_add(
            u64_specs::wrapping_add(
                u64_specs::wrapping_add(a, u64_specs::wrapping_mul(b, 3)),
                u64_specs::wrapping_mul(c, 5),
            ),
            u64_specs::wrapping_mul(d, 7),
        )
    } else {
        tail_walk(shape, states, text, round, text.len()).0
    }
}

/// What one walk of a dispatch case gives back, started from `round`, worked out the way the C
/// works it out.
pub fn dispatched(shape: TailShape, states: usize, text: &[u8], round: u64) -> (r: u64)
    requires
        states >= 1,
        states + 256 <= usize::MAX,
    ensures
        r == dispatched_of(shape, states as nat, text@, round),
{
    let n = text.len();
    if shape == TailShape::Rotate {
        let mut a = round;
        let mut b: u64 = 1;
        let mut c: u64 = 2;
        let mut d: u64 = 3;
        let mut i: usize = 0;
        while i < n
            invariant
                i <= n,
                n == text@.len(),
                (a, b, c, d) == rotated(text@, round, i as nat),
            decreases n - i,
        {
            let byte = text[i];
            let moved = a.wrapping_add(byte as u64);
            a = b;
            b = c;
            c = d;
            d = moved;
            i += 1;
        }
        return a.wrapping_add(b.wrapping_mul(3)).wrapping_add(c.wrapping_mul(5)).wrapping_add(
            d.wrapping_mul(7),
        );
    }
    let mut acc = round;
    let mut state: usize = 0;
    let mut i: usize = 0;
    while i < n
        invariant
            i <= n,
            n == text@.len(),
            shape != TailShape::Rotate,
            states >= 1,
            states + 256 <= usize::MAX,
            state < states,
            (acc, state as nat) == tail_walk(shape, states as nat, text@, round, i as nat),
        decreases n - i,
    {
        let byte = text[i];
        let wide = byte as u64;
        acc = match shape {
            TailShape::Alternate => if state == 0 {
                acc.wrapping_mul(31).wrapping_add(wide)
            } else {
                acc ^ (wide << 3u64)
            },
            TailShape::Switch => acc.wrapping_mul(DISPATCH_PRIME).wrapping_add(wide).wrapping_add(
                state as u64,
            ),
            _ => acc.wrapping_mul(31).wrapping_add(wide).wrapping_add(state as u64),
        };
        state = if shape == TailShape::Alternate {
            (state + 1) % states
        } else {
            (byte as usize + state) % states
        };
        i += 1;
    }
    acc
}

/// The start of every function a dispatch case declares.
pub open spec fn returns_text() -> Seq<char> {
    "static __attribute__((noinline)) unsigned long long"@
}

/// The parameters of every state.
pub open spec fn params_text() -> Seq<char> {
    "const unsigned char *p, const unsigned char *end, unsigned long long acc"@
}

/// The name of a state's function.
pub open spec fn state_name(state: int) -> Seq<char> {
    "s"@ + decimal(state)
}

/// The names of the first `n` states, separated by a comma and a space.
pub open spec fn state_names(n: nat) -> Seq<char>
    decreases n,
{
    if n == 0 {
        Seq::empty()
    } else if n == 1 {
        state_name(0)
    } else {
        state_names((n - 1) as nat) + ", "@ + state_name(n - 1)
    }
}

/// The label of the arm that goes to a state: the last one is the default.
pub open spec fn next_label(next: int, states: int) -> Seq<char> {
    if next + 1 == states {
        "default:"@
    } else {
        "case "@ + decimal(next) + ":"@
    }
}

/// The arms of a state's switch, a label and a call for each state it may go to.
pub open spec fn switch_arms(states: int) -> Seq<Seq<char>> {
    Seq::new(
        (2 * states) as nat,
        |i: int|
            if i % 2 == 0 {
                "    "@ + next_label(i / 2, states)
            } else {
                "        return "@ + state_name(i / 2) + "(p + 1, end, next);"@
            },
    )
}

/// What a state does with its byte before it calls the next one.
pub open spec fn state_work(shape: TailShape, states: int, state: int) -> Seq<Seq<char>> {
    match shape {
        TailShape::Alternate => seq![
            "    return "@ + state_name((state + 1) % states) + "(p + 1, end, "@ + (if state == 0 {
                "acc * 31 + *p"@
            } else {
                "acc ^ ((unsigned long long)*p << 3)"@
            }) + ");"@,
        ],
        TailShape::Switch => seq![
            "    unsigned long long next = acc * 1099511628211ull + *p + "@ + decimal(state)
                + ";"@,
            "    switch ((*p + "@ + decimal(state) + ") % "@ + decimal(states) + ") {"@,
        ] + switch_arms(states) + seq!["    }"@],
        _ => seq![
            "    return table[(*p + "@ + decimal(state) + ") % "@ + decimal(states)
                + "](p + 1, end, acc * 31 + *p +                      "@ + decimal(state) + ");"@,
        ],
    }
}

/// The whole function of one state.
pub open spec fn state_lines(shape: TailShape, states: int, state: int) -> Seq<Seq<char>> {
    seq![
        returns_text() + " "@ + state_name(state) + "("@ + params_text() + ") {"@,
        "    if (p == end) {"@,
        "        return acc;"@,
        "    }"@,
    ] + state_work(shape, states, state) + seq!["}"@]
}

/// The functions of the first `n` states.
pub open spec fn all_states(shape: TailShape, states: int, n: nat) -> Seq<Seq<char>>
    decreases n,
{
    if n == 0 {
        Seq::empty()
    } else {
        all_states(shape, states, (n - 1) as nat) + state_lines(shape, states, n - 1)
    }
}

/// The lines before `main` that hold a dispatch case's functions.
pub open spec fn dispatch_lines(shape: TailShape, states: int) -> Seq<Seq<char>> {
    if shape == TailShape::Rotate {
        seq![
            "static __attribute__((noinline)) unsigned long long rotate(const unsigned char *p, const unsigned char *end, unsigned long long              a, unsigned long long b, unsigned long long c, unsigned long long d) {"@,
            "    if (p == end) {"@,
            "        return a + 3 * b + 5 * c + 7 * d;"@,
            "    }"@,
            "    return rotate(p + 1, end, b, c, d, a + *p);"@,
            "}"@,
        ]
    } else {
        Seq::new(
            states as nat,
            |state: int| returns_text() + " "@ + state_name(state) + "("@ + params_text() + ");"@,
        ) + (if shape == TailShape::Table {
            seq![
                "static unsigned long long (*const table["@ + decimal(states) + "])(const unsigned char *, const              unsigned char *, unsigned long long) = {"@
                    + state_names(states as nat) + "};"@,
            ]
        } else {
            Seq::empty()
        }) + all_states(shape, states, states as nat)
    }
}

/// Writes the call to a state's function that ends a step.
fn push_state_call(line: &mut String, state: usize)
    ensures
        final(line)@ == old(line)@ + state_name(state as int),
{
    line.append("s");
    push_decimal(line, state as i128);
}

/// Writes the whole function of one state.
fn state_function(program: &mut Program, shape: TailShape, states: usize, state: usize)
    requires
        shape != TailShape::Rotate,
        state < states,
    ensures
        final(program).top_lines() == old(program).top_lines() + state_lines(
            shape,
            states as int,
            state as int,
        ),
        final(program).body_lines() == old(program).body_lines(),
        final(program).expected_values() == old(program).expected_values(),
        final(program).purpose_text() == old(program).purpose_text(),
        final(program).include_lines() == old(program).include_lines(),
        final(program).sinks() == old(program).sinks(),
{
    let ghost top0 = program.top_lines();
    let mut open = String::from_str("static __attribute__((noinline)) unsigned long long");
    open.append(" ");
    push_state_call(&mut open, state);
    open.append("(");
    open.append("const unsigned char *p, const unsigned char *end, unsigned long long acc");
    open.append(") {");
    program.top(open.as_str());
    program.top("    if (p == end) {");
    program.top("        return acc;");
    program.top("    }");
    let ghost head = program.top_lines();
    match shape {
        TailShape::Alternate => {
            let mut line = String::from_str("    return ");
            push_state_call(&mut line, (state + 1) % states);
            line.append("(p + 1, end, ");
            line.append(if state == 0 { "acc * 31 + *p" } else { "acc ^ ((unsigned long long)*p << 3)" });
            line.append(");");
            program.top(line.as_str());
        },
        TailShape::Switch => {
            let mut next = String::from_str("    unsigned long long next = acc * 1099511628211ull + *p + ");
            push_decimal(&mut next, state as i128);
            next.append(";");
            program.top(next.as_str());
            let mut head_line = String::from_str("    switch ((*p + ");
            push_decimal(&mut head_line, state as i128);
            head_line.append(") % ");
            push_decimal(&mut head_line, states as i128);
            head_line.append(") {");
            program.top(head_line.as_str());
            let ghost before = program.top_lines();
            let ghost arms = switch_arms(states as int);
            let mut to: usize = 0;
            assert(arms.take(0) =~= Seq::<Seq<char>>::empty());
            while to < states
                invariant
                    to <= states,
                    arms == switch_arms(states as int),
                    program.top_lines() =~= before + arms.take(2 * to),
                    program.body_lines() == old(program).body_lines(),
                    program.expected_values() == old(program).expected_values(),
                    program.purpose_text() == old(program).purpose_text(),
                    program.include_lines() == old(program).include_lines(),
                    program.sinks() == old(program).sinks(),
                decreases states - to,
            {
                let mut label = String::from_str("    ");
                if to + 1 == states {
                    label.append("default:");
                } else {
                    label.append("case ");
                    push_decimal(&mut label, to as i128);
                    label.append(":");
                }
                program.top(label.as_str());
                let mut call = String::from_str("        return ");
                push_state_call(&mut call, to);
                call.append("(p + 1, end, next);");
                program.top(call.as_str());
                assert(arms[2 * to as int] == label@);
                assert(arms[2 * to + 1] == call@);
                assert(arms.take(2 * to + 2) =~= arms.take(2 * to as int).push(label@).push(call@));
                to += 1;
            }
            assert(arms.take(2 * states as int) =~= arms);
            program.top("    }");
        },
        _ => {
            let mut line = String::from_str("    return table[(*p + ");
            push_decimal(&mut line, state as i128);
            line.append(") % ");
            push_decimal(&mut line, states as i128);
            line.append("](p + 1, end, acc * 31 + *p +                      ");
            push_decimal(&mut line, state as i128);
            line.append(");");
            program.top(line.as_str());
        },
    }
    assert(program.top_lines() =~= head + state_work(shape, states as int, state as int));
    program.top("}");
    assert(program.top_lines() =~~= top0 + state_lines(shape, states as int, state as int));
}

/// Writes the functions of a dispatch case, each of which does one byte's work and calls the
/// next in tail position.
pub fn dispatch_functions(program: &mut Program, shape: TailShape, states: usize)
    requires
        1 <= states,
    ensures
        final(program).top_lines() == old(program).top_lines() + dispatch_lines(
            shape,
            states as int,
        ),
        final(program).body_lines() == old(program).body_lines(),
        final(program).expected_values() == old(program).expected_values(),
        final(program).purpose_text() == old(program).purpose_text(),
        final(program).include_lines() == old(program).include_lines(),
        final(program).sinks() == old(program).sinks(),
{
    let ghost top0 = program.top_lines();
    if shape == TailShape::Rotate {
        program.top("static __attribute__((noinline)) unsigned long long rotate(const unsigned char *p, const unsigned char *end, unsigned long long              a, unsigned long long b, unsigned long long c, unsigned long long d) {");
        program.top("    if (p == end) {");
        program.top("        return a + 3 * b + 5 * c + 7 * d;");
        program.top("    }");
        program.top("    return rotate(p + 1, end, b, c, d, a + *p);");
        program.top("}");
        assert(program.top_lines() =~~= top0 + dispatch_lines(shape, states as int));
        return;
    }
    let ghost decls = Seq::new(
        states as nat,
        |state: int| returns_text() + " "@ + state_name(state) + "("@ + params_text() + ");"@,
    );
    let mut state: usize = 0;
    assert(decls.take(0) =~= Seq::<Seq<char>>::empty());
    while state < states
        invariant
            state <= states,
            decls == Seq::new(
                states as nat,
                |state: int| returns_text() + " "@ + state_name(state) + "("@ + params_text()
                    + ");"@,
            ),
            program.top_lines() =~= top0 + decls.take(state as int),
            program.body_lines() == old(program).body_lines(),
            program.expected_values() == old(program).expected_values(),
            program.purpose_text() == old(program).purpose_text(),
            program.include_lines() == old(program).include_lines(),
            program.sinks() == old(program).sinks(),
        decreases states - state,
    {
        let mut line = String::from_str("static __attribute__((noinline)) unsigned long long");
        line.append(" ");
        push_state_call(&mut line, state);
        line.append("(");
        line.append("const unsigned char *p, const unsigned char *end, unsigned long long acc");
        line.append(");");
        program.top(line.as_str());
        assert(decls.take(state + 1) =~= decls.take(state as int).push(line@));
        state += 1;
    }
    assert(decls.take(states as int) =~= decls);
    let ghost after_decls = program.top_lines();
    if shape == TailShape::Table {
        let mut names = String::new();
        let mut k: usize = 0;
        while k < states
            invariant
                k <= states,
                names@ == state_names(k as nat),
            decreases states - k,
        {
            if k > 0 {
                names.append(", ");
            }
            push_state_call(&mut names, k);
            k += 1;
        }
        let mut line = String::from_str("static unsigned long long (*const table[");
        push_decimal(&mut line, states as i128);
        line.append("])(const unsigned char *, const              unsigned char *, unsigned long long) = {");
        line.append(names.as_str());
        line.append("};");
        program.top(line.as_str());
    }
    let ghost before = program.top_lines();
    let mut at: usize = 0;
    while at < states
        invariant
            at <= states,
            shape != TailShape::Rotate,
            program.top_lines() =~= before + all_states(shape, states as int, at as nat),
            program.body_lines() == old(program).body_lines(),
            program.expected_values() == old(program).expected_values(),
            program.purpose_text() == old(program).purpose_text(),
            program.include_lines() == old(program).include_lines(),
            program.sinks() == old(program).sinks(),
        decreases states - at,
    {
        state_function(program, shape, states, at);
        at += 1;
    }
    assert(program.top_lines() =~~= top0 + dispatch_lines(shape, states as int));
}

/// The bytes every dispatch case walks.
pub open spec fn text_bytes() -> Seq<u8> {
    Seq::new(DISPATCH_TEXT as nat, |at: int| text_byte(at))
}

/// What the first `n` rounds of a dispatch case add up to, each starting from its own number.
pub open spec fn dispatch_sum(shape: TailShape, states: nat, n: nat) -> u64
    decreases n,
{
    if n == 0 {
        0
    } else {
        u64_specs::wrapping_add(
            dispatch_sum(shape, states, (n - 1) as nat),
            dispatched_of(shape, states, text_bytes(), (n - 1) as u64),
        )
    }
}

/// The `main` of a dispatch case.
pub open spec fn tail_body(shape: TailShape) -> Seq<Seq<char>> {
    seq![
        indent(1) + "unsigned long long total = 0;"@,
        input_read(Ty::U64, "seed"@),
        Seq::<char>::empty(),
        indent(1) + "static unsigned char text[2048];"@,
        indent(1) + "unsigned long long drawn = seed;"@,
        indent(1) + "for (int i = 0; i < 2048; i++) {"@,
        indent(2) + "drawn = drawn * 6364136223846793005ull + 1442695040888963407ull;"@,
        indent(2) + "text[i] = (unsigned char)(drawn >> 33);"@,
        indent(1) + "}"@,
        indent(1) + "for (int round = 0; round < 1024; round++) {"@,
        indent(2) + if shape == TailShape::Rotate {
            "total += rotate(text, text + 2048, (unsigned long long)round, 1, 2, 3);"@
        } else {
            "total += s0(text, text + 2048, (unsigned long long)round);"@
        },
        indent(1) + "}"@,
        Seq::<char>::empty(),
        print_line(1, Ty::U64, "total"@),
    ]
}

/// Whether a case is the dispatch between some states of a shape, whole.
pub open spec fn is_tail_case(c: Case, shape: TailShape, states: int) -> bool {
    &&& c.axes_text() == seq![("shape"@, shape.name_text()), ("states"@, decimal(states))]
    &&& c.tags_text() == gnu_when(true)
    &&& c.program.purpose_text() == shape.name_text() + " dispatch between "@ + decimal(states)
        + " functions in tail position, done many times"@
    &&& c.program.include_lines() == Seq::<Seq<char>>::empty()
    &&& c.program.top_lines() == dispatch_lines(shape, states) + seq![
        input_global(Ty::U64, "seed"@, DISPATCH_SEED as int),
    ]
    &&& c.program.body_lines() == tail_body(shape)
    &&& c.program.expected_values() == seq![
        dispatch_sum(shape, states as nat, DISPATCH_ROUNDS as nat) as int,
    ]
    &&& !c.program.sinks()
}

/// One dispatch case.
fn tail_case(shape: TailShape, states: usize, text: &Vec<u8>) -> (r: Case)
    requires
        1 <= states <= 1000,
        text@ == text_bytes(),
    ensures
        is_tail_case(r, shape, states as int),
{
    let shown = decimal_string(states as i128);
    let mut purpose = String::from_str(shape.name());
    purpose.append(" dispatch between ");
    purpose.append(shown.as_str());
    purpose.append(" functions in tail position, done many times");
    let mut program = Program::new(purpose.as_str());
    dispatch_functions(&mut program, shape, states);
    program.line("unsigned long long total = 0;");
    program.input(Ty::U64, "seed", DISPATCH_SEED as i128);
    program.blank();
    program.line("static unsigned char text[2048];");
    program.line("unsigned long long drawn = seed;");
    program.line("for (int i = 0; i < 2048; i++) {");
    program.line_at(1, "drawn = drawn * 6364136223846793005ull + 1442695040888963407ull;");
    program.line_at(1, "text[i] = (unsigned char)(drawn >> 33);");
    program.line("}");
    program.line("for (int round = 0; round < 1024; round++) {");
    if shape == TailShape::Rotate {
        program.line_at(1, "total += rotate(text, text + 2048, (unsigned long long)round, 1, 2, 3);");
    } else {
        program.line_at(1, "total += s0(text, text + 2048, (unsigned long long)round);");
    }
    program.line("}");
    program.blank();
    let mut total: u64 = 0;
    let mut round: u64 = 0;
    while round < DISPATCH_ROUNDS
        invariant
            round <= DISPATCH_ROUNDS,
            1 <= states <= 1000,
            text@ == text_bytes(),
            total == dispatch_sum(shape, states as nat, round as nat),
        decreases DISPATCH_ROUNDS - round,
    {
        total = total.wrapping_add(dispatched(shape, states, text.as_slice(), round));
        round += 1;
    }
    program.check(Ty::U64, "total", total as i128);
    assert(program.top_lines() =~~= dispatch_lines(shape, states as int) + seq![
        input_global(Ty::U64, "seed"@, DISPATCH_SEED as int),
    ]);
    assert(program.body_lines() =~~= tail_body(shape));
    let axes = vec![axis("shape", shape.name()), axis("states", shown.as_str())];
    let r = Case { axes, tags: tags_for(true), program };
    assert(r.axes_text() =~= seq![("shape"@, shape.name_text()), ("states"@, decimal(states as int))]);
    assert(r.program.expected_values() =~= seq![
        dispatch_sum(shape, states as nat, DISPATCH_ROUNDS as nat) as int,
    ]);
    r
}

/// State machines whose states call each other in tail position, walked over two thousand
/// bytes a thousand times.
///
/// Two states that alternate, four and sixteen that pick the next one with a `switch`, one
/// function of six arguments that calls itself with them rotated, and four states that pick
/// the next one out of a table of pointers. A walk is two thousand calls deep, which fits in
/// any stack without the calls becoming jumps.
pub fn tail_dispatch() -> (r: Vec<Case>)
    ensures
        r@.len() == 5,
        is_tail_case(r@[0], TailShape::Alternate, 2),
        is_tail_case(r@[1], TailShape::Switch, 4),
        is_tail_case(r@[2], TailShape::Switch, 16),
        is_tail_case(r@[3], TailShape::Rotate, 1),
        is_tail_case(r@[4], TailShape::Table, 4),
{
    let text = dispatch_text();
    assert(text@ =~= text_bytes());
    let mut out: Vec<Case> = Vec::new();
    out.push(tail_case(TailShape::Alternate, 2, &text));
    out.push(tail_case(TailShape::Switch, 4, &text));
    out.push(tail_case(TailShape::Switch, 16, &text));
    out.push(tail_case(TailShape::Rotate, 1, &text));
    out.push(tail_case(TailShape::Table, 4, &text));
    out
}

/// The multiplying helper, at a linkage.
pub open spec fn scale_lines(ty: Ty, linkage: Seq<char>) -> Seq<Seq<char>> {
    seq![
        linkage + ty.c_text() + " scale("@ + ty.c_text() + " value, "@ + ty.c_text()
            + " factor) {"@,
        "    return value * factor;"@,
        "}"@,
    ]
}

/// The multiplying helper every constant argument shape leans on, at the linkage the shape
/// wants.
pub fn scale(program: &mut Program, ty: Ty, linkage: &str)
    ensures
        final(program).top_lines() == old(program).top_lines() + scale_lines(ty, linkage@),
        final(program).body_lines() == old(program).body_lines(),
        final(program).expected_values() == old(program).expected_values(),
        final(program).purpose_text() == old(program).purpose_text(),
        final(program).include_lines() == old(program).include_lines(),
        final(program).sinks() == old(program).sinks(),
{
    let ghost top0 = program.top_lines();
    let name = ty.c_name();
    let mut open = String::from_str(linkage);
    open.append(name);
    open.append(" scale(");
    open.append(name);
    open.append(" value, ");
    open.append(name);
    open.append(" factor) {");
    program.top(open.as_str());
    program.top("    return value * factor;");
    program.top("}");
    assert(program.top_lines() =~~= top0 + scale_lines(ty, linkage@));
}

/// The statements that read the seed and start the total.
pub open spec fn running_lines(ty: Ty) -> Seq<Seq<char>> {
    seq![input_read(ty, "seed"@), Seq::<char>::empty(), indent(1) + ty.c_text() + " total = 0;"@]
}

/// The seed the helper is called with and the total the calls add up into.
///
/// The seed is read out of a volatile so the value the helper multiplies is not itself a
/// constant. What the shapes are about is the other argument.
pub fn running_total(program: &mut Program, ty: Ty)
    ensures
        final(program).top_lines() == old(program).top_lines().push(
            input_global(ty, "seed"@, 3),
        ),
        final(program).body_lines() == old(program).body_lines() + running_lines(ty),
        final(program).expected_values() == old(program).expected_values(),
        final(program).purpose_text() == old(program).purpose_text(),
        final(program).include_lines() == old(program).include_lines(),
        final(program).sinks() == old(program).sinks(),
{
    let ghost body0 = program.body_lines();
    program.input(ty, "seed", 3);
    program.blank();
    let mut line = String::from_str(ty.c_name());
    line.append(" total = 0;");
    program.line(line.as_str());
    assert(program.body_lines() =~~= body0 + running_lines(ty));
}

/// Literals of a type, separated by a comma and a space.
pub open spec fn lits(ty: Ty, values: Seq<int>) -> Seq<char>
    decreases values.len(),
{
    if values.len() == 0 {
        Seq::empty()
    } else if values.len() == 1 {
        lit_text(ty, values[0])
    } else {
        lits(ty, values.drop_last()) + ", "@ + lit_text(ty, values.last())
    }
}

/// A call that adds to the total, with the seed and some literals.
pub open spec fn call_line(callee: Seq<char>, ty: Ty, values: Seq<int>) -> Seq<char> {
    indent(1) + "total += "@ + callee + "(seed, "@ + lits(ty, values) + ");"@
}

/// Writes a call that adds to the total.
fn push_call(program: &mut Program, callee: &str, ty: Ty, values: &[i128])
    ensures
        final(program).body_lines() == old(program).body_lines().push(
            call_line(callee@, ty, values@.map_values(|v: i128| v as int)),
        ),
        final(program).top_lines() == old(program).top_lines(),
        final(program).expected_values() == old(program).expected_values(),
        final(program).purpose_text() == old(program).purpose_text(),
        final(program).include_lines() == old(program).include_lines(),
        final(program).sinks() == old(program).sinks(),
{
    let ghost all = values@.map_values(|v: i128| v as int);
    let mut line = String::from_str("total += ");
    line.append(callee);
    line.append("(seed, ");
    let mut k: usize = 0;
    let ghost start = line@;
    assert(all.take(0) =~= Seq::<int>::empty());
    while k < values.len()
        invariant
            k <= values@.len(),
            all == values@.map_values(|v: i128| v as int),
            line@ == start + lits(ty, all.take(k as int)),
        decreases values@.len() - k,
    {
        if k > 0 {
            line.append(", ");
        }
        let literal = lit(ty, values[k]);
        line.append(literal.as_str());
        assert(all.take(k + 1).drop_last() =~= all.take(k as int));
        assert(all.take(k + 1).last() == values@[k as int] as int);
        k += 1;
    }
    assert(all.take(values@.len() as int) =~= all);
    line.append(");");
    assert(line@ =~= "total += "@ + callee@ + "(seed, "@ + lits(ty, all) + ");"@);
    assert(indent(1) + line@ =~= call_line(callee@, ty, all));
    program.line(line.as_str());
}

/// The shapes of an argument that is constant at some call sites.
#[derive(Clone, Copy, Debug, PartialEq, Eq, Structural)]
pub enum ArgShape {
    OneSite,
    AllSitesAgree,
    SitesDisagree,
    HandedOn,
    OneMoreLevel,
    Recursive,
    AddressEscapes,
    OtherObjectsCallIt,
    ThroughVarargs,
}

impl ArgShape {
    /// The axis value.
    pub open spec fn name_text(self) -> Seq<char> {
        match self {
            ArgShape::OneSite => "one-site"@,
            ArgShape::AllSitesAgree => "all-sites-agree"@,
            ArgShape::SitesDisagree => "sites-disagree"@,
            ArgShape::HandedOn => "handed-on"@,
            ArgShape::OneMoreLevel => "one-more-level"@,
            ArgShape::Recursive => "recursive"@,
            ArgShape::AddressEscapes => "address-escapes"@,
            ArgShape::OtherObjectsCallIt => "other-objects-call-it"@,
            ArgShape::ThroughVarargs => "through-varargs"@,
        }
    }

    /// The axis value.
    pub fn name(self) -> (r: &'static str)
        ensures
            r@ == self.name_text(),
    {
        match self {
            ArgShape::OneSite => "one-site",
            ArgShape::AllSitesAgree => "all-sites-agree",
            ArgShape::SitesDisagree => "sites-disagree",
            ArgShape::HandedOn => "handed-on",
            ArgShape::OneMoreLevel => "one-more-level",
            ArgShape::Recursive => "recursive",
            ArgShape::AddressEscapes => "address-escapes",
            ArgShape::OtherObjectsCallIt => "other-objects-call-it",
            ArgShape::ThroughVarargs => "through-varargs",
        }
    }
}

/// The shapes in the order the facet walks them.
pub open spec fn arg_shapes() -> Seq<ArgShape> {
    seq![
        ArgShape::OneSite,
        ArgShape::AllSitesAgree,
        ArgShape::SitesDisagree,
        ArgShape::HandedOn,
        ArgShape::OneMoreLevel,
        ArgShape::Recursive,
        ArgShape::AddressEscapes,
        ArgShape::OtherObjectsCallIt,
        ArgShape::ThroughVarargs,
    ]
}

/// The helper a second function hands its argument on to.
pub open spec fn outer_lines(ty: Ty, call: Seq<char>) -> Seq<Seq<char>> {
    let c = ty.c_text();
    seq![
        "static "@ + c + " outer("@ + c + " value, "@ + c + " factor) {"@,
        "    return scale(value, "@ + call + ");"@,
        "}"@,
    ]
}

/// The functions of a constant argument shape, before the seed.
pub open spec fn arg_functions(shape: ArgShape, ty: Ty) -> Seq<Seq<char>> {
    let c = ty.c_text();
    match shape {
        ArgShape::HandedOn => scale_lines(ty, "static "@) + outer_lines(ty, "factor"@),
        ArgShape::OneMoreLevel => scale_lines(ty, "static "@) + outer_lines(
            ty,
            "("@ + c + ")(factor + 1)"@,
        ),
        ArgShape::Recursive => seq![
            "static "@ + c + " down("@ + c + " value, "@ + c + " factor, "@ + c + " depth) {"@,
            "    if (depth == "@ + lit_text(ty, 0) + ") {"@,
            "        return value * factor;"@,
            "    }"@,
            "    return down(value, factor, ("@ + c + ")(depth - 1));"@,
            "}"@,
        ],
        ArgShape::AddressEscapes => scale_lines(ty, "static "@) + seq![
            "static "@ + c + " (*chosen)("@ + c + ", "@ + c + ") = scale;"@,
        ],
        ArgShape::OtherObjectsCallIt => scale_lines(ty, Seq::empty()),
        ArgShape::ThroughVarargs => seq![
            "static "@ + c + " pick("@ + c + " value, ...) {"@,
            "    va_list rest;"@,
            "    "@ + c + " factor;"@,
            "    va_start(rest, value);"@,
            "    factor = va_arg(rest, "@ + c + ");"@,
            "    va_end(rest);"@,
            "    return value * factor;"@,
            "}"@,
        ],
        _ => scale_lines(ty, "static "@),
    }
}

/// The calls of a constant argument shape.
pub open spec fn arg_calls(shape: ArgShape, ty: Ty) -> Seq<Seq<char>> {
    let ten = call_line("scale"@, ty, seq![10]);
    match shape {
        ArgShape::OneSite => seq![ten],
        ArgShape::AllSitesAgree => seq![ten, ten, ten],
        ArgShape::SitesDisagree => seq![ten, ten, call_line("scale"@, ty, seq![4])],
        ArgShape::HandedOn => seq![
            call_line("outer"@, ty, seq![10]),
            call_line("outer"@, ty, seq![10]),
        ],
        ArgShape::OneMoreLevel => seq![
            call_line("outer"@, ty, seq![9]),
            call_line("outer"@, ty, seq![9]),
        ],
        ArgShape::Recursive => seq![
            call_line("down"@, ty, seq![10, 2]),
            call_line("down"@, ty, seq![10, 2]),
        ],
        ArgShape::AddressEscapes => seq![ten, call_line("chosen"@, ty, seq![4])],
        ArgShape::OtherObjectsCallIt => seq![ten, ten],
        ArgShape::ThroughVarargs => seq![
            call_line("pick"@, ty, seq![10]),
            call_line("pick"@, ty, seq![10]),
        ],
    }
}

/// What the calls of a constant argument shape add up to, with the seed at three.
pub open spec fn arg_total(shape: ArgShape) -> int {
    match shape {
        ArgShape::OneSite => 30,
        ArgShape::AllSitesAgree => 90,
        ArgShape::SitesDisagree => 72,
        ArgShape::AddressEscapes => 42,
        _ => 60,
    }
}

/// The lines of a list of calls, each naming its helper and the literals after the seed.
pub open spec fn call_lines(calls: Seq<(Seq<char>, Seq<int>)>, ty: Ty) -> Seq<Seq<char>> {
    calls.map_values(|c: (Seq<char>, Seq<int>)| call_line(c.0, ty, c.1))
}

/// How many times the seed a call adds, as the helpers' text defines them: `scale`, `pick` and
/// `down` return their value times the first literal, `chosen` points at `scale`, and `outer`
/// hands its factor on to `scale`, plus one in the shape whose `outer` adds one to it.
pub open spec fn call_factor(shape: ArgShape, callee: Seq<char>, args: Seq<int>) -> int {
    if callee == "outer"@ && shape == ArgShape::OneMoreLevel {
        args[0] + 1
    } else {
        args[0]
    }
}

/// What a list of calls adds to the total, each multiplying the seed by its factor.
pub open spec fn seeded_total(shape: ArgShape, seed: int, calls: Seq<(Seq<char>, Seq<int>)>) -> int
    decreases calls.len(),
{
    if calls.len() == 0 {
        0
    } else {
        seeded_total(shape, seed, calls.drop_last()) + seed * call_factor(
            shape,
            calls.last().0,
            calls.last().1,
        )
    }
}

/// Whether the total is what the calls a body makes add up to with the seed it reads.
pub open spec fn calls_add_up(shape: ArgShape, ty: Ty, seed: int, total: int) -> bool {
    exists|calls: Seq<(Seq<char>, Seq<int>)>|
        #[trigger] call_lines(calls, ty) == arg_calls(shape, ty) && total == seeded_total(
            shape,
            seed,
            calls,
        )
}

proof fn lemma_calls_witness(
    shape: ArgShape,
    ty: Ty,
    seed: int,
    total: int,
    calls: Seq<(Seq<char>, Seq<int>)>,
)
    requires
        call_lines(calls, ty) == arg_calls(shape, ty),
        total == seeded_total(shape, seed, calls),
    ensures
        calls_add_up(shape, ty, seed, total),
{
}

/// What a constant argument program prints is what its calls add up to: each call in the body,
/// read off its line, adds the seed the program declares (three) times the factor its helper
/// applies to the literal it is given, and the helper that adds one to its factor is the one
/// whose text says so.
pub proof fn lemma_arg_total_is_what_the_calls_add(shape: ArgShape, ty: Ty)
    ensures
        calls_add_up(shape, ty, 3, arg_total(shape)),
        shape == ArgShape::OneMoreLevel ==> arg_functions(shape, ty).contains(
            "    return scale(value, "@ + ("("@ + ty.c_text() + ")(factor + 1)"@) + ");"@,
        ),
        shape == ArgShape::HandedOn ==> arg_functions(shape, ty).contains(
            "    return scale(value, "@ + "factor"@ + ");"@,
        ),
        shape != ArgShape::Recursive ==> arg_functions(shape, ty).contains(
            "    return value * factor;"@,
        ),
        shape == ArgShape::Recursive ==> arg_functions(shape, ty).contains(
            "        return value * factor;"@,
        ),
{
    let ten = ("scale"@, seq![10int]);
    let calls: Seq<(Seq<char>, Seq<int>)> = match shape {
        ArgShape::OneSite => seq![ten],
        ArgShape::AllSitesAgree => seq![ten, ten, ten],
        ArgShape::SitesDisagree => seq![ten, ten, ("scale"@, seq![4int])],
        ArgShape::HandedOn => seq![("outer"@, seq![10int]), ("outer"@, seq![10int])],
        ArgShape::OneMoreLevel => seq![("outer"@, seq![9int]), ("outer"@, seq![9int])],
        ArgShape::Recursive => seq![("down"@, seq![10int, 2]), ("down"@, seq![10int, 2])],
        ArgShape::AddressEscapes => seq![ten, ("chosen"@, seq![4int])],
        ArgShape::OtherObjectsCallIt => seq![ten, ten],
        ArgShape::ThroughVarargs => seq![("pick"@, seq![10int]), ("pick"@, seq![10int])],
    };
    assert(call_lines(calls, ty) =~= arg_calls(shape, ty));
    reveal_with_fuel(seeded_total, 4);
    reveal_strlit("outer");
    reveal_strlit("scale");
    reveal_strlit("down");
    reveal_strlit("chosen");
    reveal_strlit("pick");
    assert(seeded_total(shape, 3, calls) == arg_total(shape));
    lemma_calls_witness(shape, ty, 3, arg_total(shape), calls);
    let f = arg_functions(shape, ty);
    if shape == ArgShape::OneMoreLevel || shape == ArgShape::HandedOn {
        assert(f[4] == outer_lines(ty, if shape == ArgShape::HandedOn {
            "factor"@
        } else {
            "("@ + ty.c_text() + ")(factor + 1)"@
        })[1]);
    }
    if shape == ArgShape::Recursive {
        assert(f[2] == "        return value * factor;"@);
    } else if shape == ArgShape::ThroughVarargs {
        assert(f[6] == "    return value * factor;"@);
    } else {
        assert(f[1] == "    return value * factor;"@);
    }
}

/// Whether a case is the constant argument shape at a type, whole.
pub open spec fn is_arg_case(c: Case, ty: Ty, shape: ArgShape) -> bool {
    &&& c.axes_text() == seq![("type"@, ty.name_text()), ("shape"@, shape.name_text())]
    &&& c.tags_text() == Seq::<Seq<char>>::empty()
    &&& c.program.purpose_text() == "a "@ + ty.c_text() + " argument that is constant, "@
        + shape.name_text()
    &&& c.program.include_lines() == (if shape == ArgShape::ThroughVarargs {
        seq![include_line("stdarg.h"@)]
    } else {
        Seq::empty()
    })
    &&& c.program.top_lines() == arg_functions(shape, ty).push(input_global(ty, "seed"@, 3))
    &&& c.program.body_lines() == running_lines(ty) + arg_calls(shape, ty) + seq![
        Seq::<char>::empty(),
        print_line(1, ty.promotion(), "total"@),
    ]
    &&& c.program.expected_values() == seq![arg_total(shape)]
    &&& !c.program.sinks()
}

/// Writes the second function that hands its argument on to the helper.
fn push_outer(program: &mut Program, ty: Ty, bumped: bool)
    ensures
        final(program).top_lines() == old(program).top_lines() + outer_lines(
            ty,
            if bumped {
                "("@ + ty.c_text() + ")(factor + 1)"@
            } else {
                "factor"@
            },
        ),
        final(program).body_lines() == old(program).body_lines(),
        final(program).expected_values() == old(program).expected_values(),
        final(program).purpose_text() == old(program).purpose_text(),
        final(program).include_lines() == old(program).include_lines(),
        final(program).sinks() == old(program).sinks(),
{
    let ghost top0 = program.top_lines();
    let name = ty.c_name();
    let mut open = String::from_str("static ");
    open.append(name);
    open.append(" outer(");
    open.append(name);
    open.append(" value, ");
    open.append(name);
    open.append(" factor) {");
    program.top(open.as_str());
    let mut ret = String::from_str("    return scale(value, ");
    if bumped {
        ret.append("(");
        ret.append(name);
        ret.append(")(factor + 1)");
    } else {
        ret.append("factor");
    }
    ret.append(");");
    program.top(ret.as_str());
    program.top("}");
    assert(program.top_lines() =~~= top0 + outer_lines(
        ty,
        if bumped {
            "("@ + ty.c_text() + ")(factor + 1)"@
        } else {
            "factor"@
        },
    ));
}

/// Writes the functions of a constant argument shape.
fn arg_functions_write(program: &mut Program, shape: ArgShape, ty: Ty)
    ensures
        final(program).top_lines() == old(program).top_lines() + arg_functions(shape, ty),
        final(program).body_lines() == old(program).body_lines(),
        final(program).expected_values() == old(program).expected_values(),
        final(program).purpose_text() == old(program).purpose_text(),
        final(program).include_lines() == old(program).include_lines(),
        final(program).sinks() == old(program).sinks(),
{
    let ghost top0 = program.top_lines();
    let name = ty.c_name();
    match shape {
        ArgShape::HandedOn => {
            scale(program, ty, "static ");
            push_outer(program, ty, false);
        },
        ArgShape::OneMoreLevel => {
            scale(program, ty, "static ");
            push_outer(program, ty, true);
        },
        ArgShape::Recursive => {
            let mut open = String::from_str("static ");
            open.append(name);
            open.append(" down(");
            open.append(name);
            open.append(" value, ");
            open.append(name);
            open.append(" factor, ");
            open.append(name);
            open.append(" depth) {");
            program.top(open.as_str());
            let mut test = String::from_str("    if (depth == ");
            let zero = lit(ty, 0);
            test.append(zero.as_str());
            test.append(") {");
            program.top(test.as_str());
            program.top("        return value * factor;");
            program.top("    }");
            let mut again = String::from_str("    return down(value, factor, (");
            again.append(name);
            again.append(")(depth - 1));");
            program.top(again.as_str());
            program.top("}");
        },
        ArgShape::AddressEscapes => {
            scale(program, ty, "static ");
            let mut chosen = String::from_str("static ");
            chosen.append(name);
            chosen.append(" (*chosen)(");
            chosen.append(name);
            chosen.append(", ");
            chosen.append(name);
            chosen.append(") = scale;");
            program.top(chosen.as_str());
        },
        ArgShape::OtherObjectsCallIt => {
            scale(program, ty, "");
            proof {
                reveal_strlit("");
            }
        },
        ArgShape::ThroughVarargs => {
            let mut open = String::from_str("static ");
            open.append(name);
            open.append(" pick(");
            open.append(name);
            open.append(" value, ...) {");
            program.top(open.as_str());
            program.top("    va_list rest;");
            let mut factor = String::from_str("    ");
            factor.append(name);
            factor.append(" factor;");
            program.top(factor.as_str());
            program.top("    va_start(rest, value);");
            let mut arg = String::from_str("    factor = va_arg(rest, ");
            arg.append(name);
            arg.append(");");
            program.top(arg.as_str());
            program.top("    va_end(rest);");
            program.top("    return value * factor;");
            program.top("}");
        },
        _ => {
            scale(program, ty, "static ");
        },
    }
    assert(program.top_lines() =~~= top0 + arg_functions(shape, ty));
}

/// Writes the calls of a constant argument shape.
fn arg_calls_write(program: &mut Program, shape: ArgShape, ty: Ty)
    ensures
        final(program).body_lines() == old(program).body_lines() + arg_calls(shape, ty),
        final(program).top_lines() == old(program).top_lines(),
        final(program).expected_values() == old(program).expected_values(),
        final(program).purpose_text() == old(program).purpose_text(),
        final(program).include_lines() == old(program).include_lines(),
        final(program).sinks() == old(program).sinks(),
{
    let ghost body0 = program.body_lines();
    let ten: [i128; 1] = [10];
    let four: [i128; 1] = [4];
    let nine: [i128; 1] = [9];
    let deep: [i128; 2] = [10, 2];
    assert(ten@.map_values(|v: i128| v as int) =~= seq![10int]);
    assert(four@.map_values(|v: i128| v as int) =~= seq![4int]);
    assert(nine@.map_values(|v: i128| v as int) =~= seq![9int]);
    assert(deep@.map_values(|v: i128| v as int) =~= seq![10int, 2]);
    match shape {
        ArgShape::OneSite => {
            push_call(program, "scale", ty, &ten);
        },
        ArgShape::AllSitesAgree => {
            push_call(program, "scale", ty, &ten);
            push_call(program, "scale", ty, &ten);
            push_call(program, "scale", ty, &ten);
        },
        ArgShape::SitesDisagree => {
            push_call(program, "scale", ty, &ten);
            push_call(program, "scale", ty, &ten);
            push_call(program, "scale", ty, &four);
        },
        ArgShape::HandedOn => {
            push_call(program, "outer", ty, &ten);
            push_call(program, "outer", ty, &ten);
        },
        ArgShape::OneMoreLevel => {
            push_call(program, "outer", ty, &nine);
            push_call(program, "outer", ty, &nine);
        },
        ArgShape::Recursive => {
            push_call(program, "down", ty, &deep);
            push_call(program, "down", ty, &deep);
        },
        ArgShape::AddressEscapes => {
            push_call(program, "scale", ty, &ten);
            push_call(program, "chosen", ty, &four);
        },
        ArgShape::OtherObjectsCallIt => {
            push_call(program, "scale", ty, &ten);
            push_call(program, "scale", ty, &ten);
        },
        ArgShape::ThroughVarargs => {
            push_call(program, "pick", ty, &ten);
            push_call(program, "pick", ty, &ten);
        },
    }
    assert(program.body_lines() =~~= body0 + arg_calls(shape, ty));
}

/// What the calls of a constant argument shape add up to.
fn arg_sum(shape: ArgShape) -> (r: i128)
    ensures
        r == arg_total(shape),
{
    match shape {
        ArgShape::OneSite => 30,
        ArgShape::AllSitesAgree => 90,
        ArgShape::SitesDisagree => 72,
        ArgShape::AddressEscapes => 42,
        _ => 60,
    }
}

/// One constant argument shape at one type.
fn arg_case(ty: Ty, shape: ArgShape) -> (r: Case)
    ensures
        is_arg_case(r, ty, shape),
{
    let mut purpose = String::from_str("a ");
    purpose.append(ty.c_name());
    purpose.append(" argument that is constant, ");
    purpose.append(shape.name());
    let mut program = Program::new(purpose.as_str());
    if shape == ArgShape::ThroughVarargs {
        program.include_header("stdarg.h");
        assert(program.include_lines() =~= seq![include_line("stdarg.h"@)]);
    }
    arg_functions_write(&mut program, shape, ty);
    running_total(&mut program, ty);
    arg_calls_write(&mut program, shape, ty);
    program.blank();
    program.check(ty.promoted(), "total", arg_sum(shape));
    assert(program.body_lines() =~~= running_lines(ty) + arg_calls(shape, ty) + seq![
        Seq::<char>::empty(),
        print_line(1, ty.promotion(), "total"@),
    ]);
    assert(program.top_lines() =~~= arg_functions(shape, ty).push(input_global(ty, "seed"@, 3)));
    let axes = vec![axis("type", ty.name()), axis("shape", shape.name())];
    let r = Case { axes, tags: tags_for(false), program };
    assert(r.axes_text() =~= seq![("type"@, ty.name_text()), ("shape"@, shape.name_text())]);
    assert(r.program.expected_values() =~= seq![arg_total(shape)]);
    r
}

/// An argument that is constant at every call site, and the shapes where it only looks it.
///
/// The propagation substitutes a constant for a parameter when every site passes the same
/// one. The refusals are `sites-disagree`, where one site passes something else,
/// `address-escapes`, where the helper is also reached through a pointer,
/// `other-objects-call-it`, where the helper is not static, and `through-varargs`, where the
/// position a call passes and the position the body reads are not the same list. A compiler
/// that substituted a constant in any of those would print a different total.
pub fn constant_args() -> (r: Vec<Case>)
    ensures
        r@.len() == 36,
        forall|k: int|
            0 <= k < 36 ==> is_arg_case(#[trigger] r@[k], wide_types()[k / 9], arg_shapes()[k % 9]),
{
    let types = wide();
    let shapes = [
        ArgShape::OneSite,
        ArgShape::AllSitesAgree,
        ArgShape::SitesDisagree,
        ArgShape::HandedOn,
        ArgShape::OneMoreLevel,
        ArgShape::Recursive,
        ArgShape::AddressEscapes,
        ArgShape::OtherObjectsCallIt,
        ArgShape::ThroughVarargs,
    ];
    assert(shapes@ =~= arg_shapes());
    let mut out: Vec<Case> = Vec::new();
    let mut k: usize = 0;
    while k < 36
        invariant
            k <= 36,
            types@ == wide_types(),
            shapes@ == arg_shapes(),
            out@.len() == k,
            forall|i: int|
                0 <= i < k ==> is_arg_case(#[trigger] out@[i], wide_types()[i / 9], arg_shapes()[i % 9]),
        decreases 36 - k,
    {
        out.push(arg_case(types[k / 9], shapes[k % 9]));
        k += 1;
    }
    out
}

/// The helper with two parameters and a body that only names one, at a linkage.
pub open spec fn keep_lines(ty: Ty, linkage: Seq<char>) -> Seq<Seq<char>> {
    let c = ty.c_text();
    seq![
        linkage + c + " keep("@ + c + " value, "@ + c + " ignored) {"@,
        "    return ("@ + c + ")(value + 1);"@,
        "}"@,
    ]
}

/// The helper most of the unread parameter shapes lean on: two parameters, and a body that only
/// names one.
pub fn ignores(program: &mut Program, ty: Ty, linkage: &str)
    ensures
        final(program).top_lines() == old(program).top_lines() + keep_lines(ty, linkage@),
        final(program).body_lines() == old(program).body_lines(),
        final(program).expected_values() == old(program).expected_values(),
        final(program).purpose_text() == old(program).purpose_text(),
        final(program).include_lines() == old(program).include_lines(),
        final(program).sinks() == old(program).sinks(),
{
    let ghost top0 = program.top_lines();
    let name = ty.c_name();
    let mut open = String::from_str(linkage);
    open.append(name);
    open.append(" keep(");
    open.append(name);
    open.append(" value, ");
    open.append(name);
    open.append(" ignored) {");
    program.top(open.as_str());
    top3(program, "    return (", name, ")(value + 1);");
    program.top("}");
    assert(program.top_lines() =~~= top0 + keep_lines(ty, linkage@));
}

/// The shapes of a parameter nothing reads.
#[derive(Clone, Copy, Debug, PartialEq, Eq, Structural)]
pub enum ParamShape {
    OneUnread,
    MiddleUnread,
    AllUnread,
    TransitiveSum,
    ConstantThenUnread,
    ArgumentHasASideEffect,
    ArgumentIsAnAddress,
    RecursiveOnly,
    AddressEscapes,
    OtherObjectsCallIt,
    Variadic,
}

impl ParamShape {
    /// The axis value.
    pub open spec fn name_text(self) -> Seq<char> {
        match self {
            ParamShape::OneUnread => "one-unread"@,
            ParamShape::MiddleUnread => "middle-unread"@,
            ParamShape::AllUnread => "all-unread"@,
            ParamShape::TransitiveSum => "transitive-sum"@,
            ParamShape::ConstantThenUnread => "constant-then-unread"@,
            ParamShape::ArgumentHasASideEffect => "argument-has-a-side-effect"@,
            ParamShape::ArgumentIsAnAddress => "argument-is-an-address"@,
            ParamShape::RecursiveOnly => "recursive-only"@,
            ParamShape::AddressEscapes => "address-escapes"@,
            ParamShape::OtherObjectsCallIt => "other-objects-call-it"@,
            ParamShape::Variadic => "variadic"@,
        }
    }

    /// The axis value.
    pub fn name(self) -> (r: &'static str)
        ensures
            r@ == self.name_text(),
    {
        match self {
            ParamShape::OneUnread => "one-unread",
            ParamShape::MiddleUnread => "middle-unread",
            ParamShape::AllUnread => "all-unread",
            ParamShape::TransitiveSum => "transitive-sum",
            ParamShape::ConstantThenUnread => "constant-then-unread",
            ParamShape::ArgumentHasASideEffect => "argument-has-a-side-effect",
            ParamShape::ArgumentIsAnAddress => "argument-is-an-address",
            ParamShape::RecursiveOnly => "recursive-only",
            ParamShape::AddressEscapes => "address-escapes",
            ParamShape::OtherObjectsCallIt => "other-objects-call-it",
            ParamShape::Variadic => "variadic",
        }
    }
}

/// The shapes in the order the facet walks them.
pub open spec fn param_shapes() -> Seq<ParamShape> {
    seq![
        ParamShape::OneUnread,
        ParamShape::MiddleUnread,
        ParamShape::AllUnread,
        ParamShape::TransitiveSum,
        ParamShape::ConstantThenUnread,
        ParamShape::ArgumentHasASideEffect,
        ParamShape::ArgumentIsAnAddress,
        ParamShape::RecursiveOnly,
        ParamShape::AddressEscapes,
        ParamShape::OtherObjectsCallIt,
        ParamShape::Variadic,
    ]
}

/// The functions of an unread parameter shape, before the seed.
pub open spec fn param_functions(shape: ParamShape, ty: Ty) -> Seq<Seq<char>> {
    let c = ty.c_text();
    match shape {
        ParamShape::OneUnread => keep_lines(ty, "static "@),
        ParamShape::MiddleUnread => seq![
            "static "@ + c + " pick("@ + c + " first, "@ + c + " ignored, "@ + c + " last) {"@,
            "    return ("@ + c + ")(first * 10 + last);"@,
            "}"@,
        ],
        ParamShape::AllUnread => seq![
            "static "@ + c + " fixed("@ + c + " one, "@ + c + " two) {"@,
            "    return "@ + lit_text(ty, 7) + ";"@,
            "}"@,
        ],
        ParamShape::TransitiveSum => keep_lines(ty, "static "@) + seq![
            "static "@ + c + " outer("@ + c + " value, "@ + c + " left, "@ + c + " right) {"@,
            "    return keep(value, ("@ + c + ")(left + right));"@,
            "}"@,
        ],
        ParamShape::ConstantThenUnread => seq![
            "static "@ + c + " scaled("@ + c + " value, "@ + c + " factor) {"@,
            "    return ("@ + c + ")(value * factor);"@,
            "}"@,
        ],
        ParamShape::ArgumentHasASideEffect => keep_lines(ty, "static "@) + seq![
            "static "@ + c + " counter = "@ + lit_text(ty, 0) + ";"@,
            "static "@ + c + " bump(void) {"@,
            "    counter = ("@ + c + ")(counter + 1);"@,
            "    return counter;"@,
            "}"@,
        ],
        ParamShape::ArgumentIsAnAddress => seq![
            "static "@ + c + " note("@ + c + " value, "@ + c + " *ignored) {"@,
            "    return ("@ + c + ")(value + 1);"@,
            "}"@,
        ],
        ParamShape::RecursiveOnly => seq![
            "static "@ + c + " walk("@ + c + " value, "@ + c + " carried, "@ + c + " depth) {"@,
            "    if (depth == "@ + lit_text(ty, 0) + ") {"@,
            "        return value;"@,
            "    }"@,
            "    return walk(("@ + c + ")(value + 1), carried, ("@ + c + ")(depth - 1));"@,
            "}"@,
        ],
        ParamShape::AddressEscapes => keep_lines(ty, "static "@) + seq![
            "static "@ + c + " (*chosen)("@ + c + ", "@ + c + ") = keep;"@,
        ],
        ParamShape::OtherObjectsCallIt => keep_lines(ty, Seq::empty()),
        ParamShape::Variadic => seq![
            "static "@ + c + " first("@ + c + " value, ...) {"@,
            "    return ("@ + c + ")(value + 1);"@,
            "}"@,
        ],
    }
}

/// The statements of an unread parameter shape after the total is started, before the total
/// is printed.
pub open spec fn param_calls(shape: ParamShape, ty: Ty) -> Seq<Seq<char>> {
    let c = ty.c_text();
    let i = indent(1);
    match shape {
        ParamShape::OneUnread => seq![
            i + "total += keep(seed, ("@ + c + ")(seed * 5));"@,
            i + "total += keep(seed, ("@ + c + ")(seed * 5));"@,
        ],
        ParamShape::MiddleUnread => seq![
            i + "total += pick(seed, ("@ + c + ")(seed + 7), ("@ + c + ")(seed + 1));"@,
            i + "total += pick(seed, seed, ("@ + c + ")(seed + 2));"@,
        ],
        ParamShape::AllUnread => seq![
            i + "total += fixed(seed, ("@ + c + ")(seed + 1));"@,
            i + "total += fixed(seed, ("@ + c + ")(seed + 1));"@,
        ],
        ParamShape::TransitiveSum => seq![
            i + "total += outer(seed, ("@ + c + ")(seed * 2), ("@ + c + ")(seed + 5));"@,
            i + "total += outer(seed, ("@ + c + ")(seed * 2), ("@ + c + ")(seed + 5));"@,
        ],
        ParamShape::ConstantThenUnread => seq![
            i + "total += scaled(seed, "@ + lit_text(ty, 10) + ");"@,
            i + "total += scaled(seed, "@ + lit_text(ty, 10) + ");"@,
        ],
        ParamShape::ArgumentHasASideEffect => seq![
            i + "total += keep(seed, bump());"@,
            i + "total += keep(seed, bump());"@,
            Seq::<char>::empty(),
            print_line(1, ty.promotion(), "counter"@),
        ],
        ParamShape::ArgumentIsAnAddress => seq![
            i + c + " spot = ("@ + c + ")(seed * 3);"@,
            i + "total += note(seed, &spot);"@,
            Seq::<char>::empty(),
            print_line(1, ty.promotion(), "spot"@),
        ],
        ParamShape::RecursiveOnly => seq![
            i + "total += walk(seed, ("@ + c + ")(seed * 4), "@ + lit_text(ty, 3) + ");"@,
        ],
        ParamShape::AddressEscapes => seq![
            i + "total += keep(seed, seed);"@,
            i + "total += chosen(seed, seed);"@,
        ],
        ParamShape::OtherObjectsCallIt => seq![
            i + "total += keep(seed, seed);"@,
            i + "total += keep(seed, seed);"@,
        ],
        ParamShape::Variadic => seq![
            i + "total += first(seed, seed);"@,
            i + "total += first(seed, seed);"@,
        ],
    }
}

/// What an unread parameter shape prints, with the seed at three: the total, after the
/// counter or the local the shape watches.
pub open spec fn param_expected(shape: ParamShape) -> Seq<int> {
    match shape {
        ParamShape::OneUnread => seq![8],
        ParamShape::MiddleUnread => seq![69],
        ParamShape::AllUnread => seq![14],
        ParamShape::TransitiveSum => seq![8],
        ParamShape::ConstantThenUnread => seq![60],
        ParamShape::ArgumentHasASideEffect => seq![2, 8],
        ParamShape::ArgumentIsAnAddress => seq![9, 4],
        ParamShape::RecursiveOnly => seq![6],
        _ => seq![8],
    }
}

/// Whether a case is the unread parameter shape at a type, whole.
pub open spec fn is_param_case(c: Case, ty: Ty, shape: ParamShape) -> bool {
    &&& c.axes_text() == seq![("type"@, ty.name_text()), ("shape"@, shape.name_text())]
    &&& c.tags_text() == Seq::<Seq<char>>::empty()
    &&& c.program.purpose_text() == "a "@ + ty.c_text() + " parameter nothing reads, "@
        + shape.name_text()
    &&& c.program.include_lines() == (if shape == ParamShape::Variadic {
        seq![include_line("stdarg.h"@)]
    } else {
        Seq::empty()
    })
    &&& c.program.top_lines() == param_functions(shape, ty).push(input_global(ty, "seed"@, 3))
    &&& c.program.body_lines() == running_lines(ty) + param_calls(shape, ty) + seq![
        Seq::<char>::empty(),
        print_line(1, ty.promotion(), "total"@),
    ]
    &&& c.program.expected_values() == param_expected(shape)
    &&& !c.program.sinks()
}

/// Writes the functions of an unread parameter shape.
fn param_functions_write(program: &mut Program, shape: ParamShape, ty: Ty)
    ensures
        final(program).top_lines() == old(program).top_lines() + param_functions(shape, ty),
        final(program).body_lines() == old(program).body_lines(),
        final(program).expected_values() == old(program).expected_values(),
        final(program).purpose_text() == old(program).purpose_text(),
        final(program).include_lines() == old(program).include_lines(),
        final(program).sinks() == old(program).sinks(),
{
    let ghost top0 = program.top_lines();
    let c = ty.c_name();
    match shape {
        ParamShape::OneUnread => {
            ignores(program, ty, "static ");
        },
        ParamShape::MiddleUnread => {
            let mut open = String::from_str("static ");
            open.append(c);
            open.append(" pick(");
            open.append(c);
            open.append(" first, ");
            open.append(c);
            open.append(" ignored, ");
            open.append(c);
            open.append(" last) {");
            program.top(open.as_str());
            top3(program, "    return (", c, ")(first * 10 + last);");
            program.top("}");
        },
        ParamShape::AllUnread => {
            let mut open = String::from_str("static ");
            open.append(c);
            open.append(" fixed(");
            open.append(c);
            open.append(" one, ");
            open.append(c);
            open.append(" two) {");
            program.top(open.as_str());
            let seven = lit(ty, 7);
            top3(program, "    return ", seven.as_str(), ";");
            program.top("}");
        },
        ParamShape::TransitiveSum => {
            ignores(program, ty, "static ");
            let mut open = String::from_str("static ");
            open.append(c);
            open.append(" outer(");
            open.append(c);
            open.append(" value, ");
            open.append(c);
            open.append(" left, ");
            open.append(c);
            open.append(" right) {");
            program.top(open.as_str());
            top3(program, "    return keep(value, (", c, ")(left + right));");
            program.top("}");
        },
        ParamShape::ConstantThenUnread => {
            top7(program, "static ", c, " scaled(", c, " value, ", c, " factor) {");
            top3(program, "    return (", c, ")(value * factor);");
            program.top("}");
        },
        ParamShape::ArgumentHasASideEffect => {
            ignores(program, ty, "static ");
            let zero = lit(ty, 0);
            top5(program, "static ", c, " counter = ", zero.as_str(), ";");
            top3(program, "static ", c, " bump(void) {");
            top3(program, "    counter = (", c, ")(counter + 1);");
            program.top("    return counter;");
            program.top("}");
        },
        ParamShape::ArgumentIsAnAddress => {
            top7(program, "static ", c, " note(", c, " value, ", c, " *ignored) {");
            top3(program, "    return (", c, ")(value + 1);");
            program.top("}");
        },
        ParamShape::RecursiveOnly => {
            let mut open = String::from_str("static ");
            open.append(c);
            open.append(" walk(");
            open.append(c);
            open.append(" value, ");
            open.append(c);
            open.append(" carried, ");
            open.append(c);
            open.append(" depth) {");
            program.top(open.as_str());
            let zero = lit(ty, 0);
            top3(program, "    if (depth == ", zero.as_str(), ") {");
            program.top("        return value;");
            program.top("    }");
            top5(program, "    return walk((", c, ")(value + 1), carried, (", c, ")(depth - 1));");
            program.top("}");
        },
        ParamShape::AddressEscapes => {
            ignores(program, ty, "static ");
            top7(program, "static ", c, " (*chosen)(", c, ", ", c, ") = keep;");
        },
        ParamShape::OtherObjectsCallIt => {
            ignores(program, ty, "");
            proof {
                reveal_strlit("");
            }
        },
        ParamShape::Variadic => {
            top5(program, "static ", c, " first(", c, " value, ...) {");
            top3(program, "    return (", c, ")(value + 1);");
            program.top("}");
        },
    }
    assert(program.top_lines() =~~= top0 + param_functions(shape, ty));
}

/// Writes the statements of an unread parameter shape after the total is started, and records
/// what the extra checks print.
fn param_calls_write(program: &mut Program, shape: ParamShape, ty: Ty)
    ensures
        final(program).body_lines() == old(program).body_lines() + param_calls(shape, ty),
        final(program).expected_values() == old(program).expected_values() + param_expected(
            shape,
        ).drop_last(),
        final(program).top_lines() == old(program).top_lines(),
        final(program).purpose_text() == old(program).purpose_text(),
        final(program).include_lines() == old(program).include_lines(),
        final(program).sinks() == old(program).sinks(),
{
    let ghost body0 = program.body_lines();
    let ghost expected0 = program.expected_values();
    let c = ty.c_name();
    match shape {
        ParamShape::OneUnread => {
            line3(program, "total += keep(seed, (", c, ")(seed * 5));");
            line3(program, "total += keep(seed, (", c, ")(seed * 5));");
        },
        ParamShape::MiddleUnread => {
            line5(program, "total += pick(seed, (", c, ")(seed + 7), (", c, ")(seed + 1));");
            line3(program, "total += pick(seed, seed, (", c, ")(seed + 2));");
        },
        ParamShape::AllUnread => {
            line3(program, "total += fixed(seed, (", c, ")(seed + 1));");
            line3(program, "total += fixed(seed, (", c, ")(seed + 1));");
        },
        ParamShape::TransitiveSum => {
            line5(program, "total += outer(seed, (", c, ")(seed * 2), (", c, ")(seed + 5));");
            line5(program, "total += outer(seed, (", c, ")(seed * 2), (", c, ")(seed + 5));");
        },
        ParamShape::ConstantThenUnread => {
            let ten = lit(ty, 10);
            line3(program, "total += scaled(seed, ", ten.as_str(), ");");
            line3(program, "total += scaled(seed, ", ten.as_str(), ");");
        },
        ParamShape::ArgumentHasASideEffect => {
            program.line("total += keep(seed, bump());");
            program.line("total += keep(seed, bump());");
            program.blank();
            program.check(ty.promoted(), "counter", 2);
        },
        ParamShape::ArgumentIsAnAddress => {
            line5(program, "", c, " spot = (", c, ")(seed * 3);");
            program.line("total += note(seed, &spot);");
            program.blank();
            program.check(ty.promoted(), "spot", 9);
            proof {
                reveal_strlit("");
            }
        },
        ParamShape::RecursiveOnly => {
            let three = lit(ty, 3);
            line5(program, "total += walk(seed, (", c, ")(seed * 4), ", three.as_str(), ");");
        },
        ParamShape::AddressEscapes => {
            program.line("total += keep(seed, seed);");
            program.line("total += chosen(seed, seed);");
        },
        ParamShape::OtherObjectsCallIt => {
            program.line("total += keep(seed, seed);");
            program.line("total += keep(seed, seed);");
        },
        ParamShape::Variadic => {
            program.line("total += first(seed, seed);");
            program.line("total += first(seed, seed);");
        },
    }
    assert(program.body_lines() =~~= body0 + param_calls(shape, ty));
    assert(program.expected_values() =~= expected0 + param_expected(shape).drop_last());
}

/// What an unread parameter shape adds up to.
fn param_total(shape: ParamShape) -> (r: i128)
    ensures
        r == param_expected(shape).last(),
{
    match shape {
        ParamShape::OneUnread => 8,
        ParamShape::MiddleUnread => 69,
        ParamShape::AllUnread => 14,
        ParamShape::TransitiveSum => 8,
        ParamShape::ConstantThenUnread => 60,
        ParamShape::ArgumentHasASideEffect => 8,
        ParamShape::ArgumentIsAnAddress => 4,
        ParamShape::RecursiveOnly => 6,
        _ => 8,
    }
}

/// One unread parameter shape at one type.
fn param_case(ty: Ty, shape: ParamShape) -> (r: Case)
    ensures
        is_param_case(r, ty, shape),
{
    let mut purpose = String::from_str("a ");
    purpose.append(ty.c_name());
    purpose.append(" parameter nothing reads, ");
    purpose.append(shape.name());
    let mut program = Program::new(purpose.as_str());
    if shape == ParamShape::Variadic {
        program.include_header("stdarg.h");
        assert(program.include_lines() =~= seq![include_line("stdarg.h"@)]);
    }
    param_functions_write(&mut program, shape, ty);
    running_total(&mut program, ty);
    param_calls_write(&mut program, shape, ty);
    program.blank();
    program.check(ty.promoted(), "total", param_total(shape));
    assert(program.body_lines() =~~= running_lines(ty) + param_calls(shape, ty) + seq![
        Seq::<char>::empty(),
        print_line(1, ty.promotion(), "total"@),
    ]);
    assert(program.top_lines() =~~= param_functions(shape, ty).push(input_global(ty, "seed"@, 3)));
    assert(program.expected_values() =~= param_expected(shape));
    let axes = vec![axis("type", ty.name()), axis("shape", shape.name())];
    let r = Case { axes, tags: tags_for(false), program };
    assert(r.axes_text() =~= seq![("type"@, ty.name_text()), ("shape"@, shape.name_text())]);
    r
}

/// Parameters the body never names, and the arguments the calls were passing to them.
///
/// One half of the shapes is the removal itself, where the parameter goes, the argument goes
/// with it, and the answer does not move. The other half is what has to be left alone: a
/// function whose address the unit hands out, one another object can call and a variadic one
/// keep every parameter they have, and so does a parameter only the recursive call hands on.
/// Two shapes watch what has to survive the argument going away: a call that bumps a counter,
/// and the address of a local that has to keep the value it was given.
pub fn unused_params() -> (r: Vec<Case>)
    ensures
        r@.len() == 44,
        forall|k: int|
            0 <= k < 44 ==> is_param_case(
                #[trigger] r@[k],
                wide_types()[k / 11],
                param_shapes()[k % 11],
            ),
{
    let types = wide();
    let shapes = [
        ParamShape::OneUnread,
        ParamShape::MiddleUnread,
        ParamShape::AllUnread,
        ParamShape::TransitiveSum,
        ParamShape::ConstantThenUnread,
        ParamShape::ArgumentHasASideEffect,
        ParamShape::ArgumentIsAnAddress,
        ParamShape::RecursiveOnly,
        ParamShape::AddressEscapes,
        ParamShape::OtherObjectsCallIt,
        ParamShape::Variadic,
    ];
    assert(shapes@ =~= param_shapes());
    let mut out: Vec<Case> = Vec::new();
    let mut k: usize = 0;
    while k < 44
        invariant
            k <= 44,
            types@ == wide_types(),
            shapes@ == param_shapes(),
            out@.len() == k,
            forall|i: int|
                0 <= i < k ==> is_param_case(
                    #[trigger] out@[i],
                    wide_types()[i / 11],
                    param_shapes()[i % 11],
                ),
        decreases 44 - k,
    {
        out.push(param_case(types[k / 11], shapes[k % 11]));
        k += 1;
    }
    out
}

/// The helper that marks a global and hands a value back, at a linkage.
pub open spec fn noting_lines(ty: Ty, linkage: Seq<char>) -> Seq<Seq<char>> {
    let c = ty.c_text();
    seq![
        "static "@ + c + " seen = "@ + lit_text(ty, 0) + ";"@,
        linkage + c + " note("@ + c + " value) {"@,
        "    seen = ("@ + c + ")(seen + value);"@,
        "    return ("@ + c + ")(value * value);"@,
        "}"@,
    ]
}

/// The helper most of the unread return shapes lean on: a mark on a global, and a value handed
/// back. The mark is what says the call happened, and taking the return value away must not
/// take it with it.
pub fn noting(program: &mut Program, ty: Ty, linkage: &str)
    ensures
        final(program).top_lines() == old(program).top_lines() + noting_lines(ty, linkage@),
        final(program).body_lines() == old(program).body_lines(),
        final(program).expected_values() == old(program).expected_values(),
        final(program).purpose_text() == old(program).purpose_text(),
        final(program).include_lines() == old(program).include_lines(),
        final(program).sinks() == old(program).sinks(),
{
    let ghost top0 = program.top_lines();
    let c = ty.c_name();
    let zero = lit(ty, 0);
    top5(program, "static ", c, " seen = ", zero.as_str(), ";");
    top5(program, linkage, c, " note(", c, " value) {");
    top3(program, "    seen = (", c, ")(seen + value);");
    top3(program, "    return (", c, ")(value * value);");
    program.top("}");
    assert(program.top_lines() =~~= top0 + noting_lines(ty, linkage@));
}

/// The shapes of a return value no call reads.
#[derive(Clone, Copy, Debug, PartialEq, Eq, Structural)]
pub enum ReturnShape {
    ResultIgnored,
    OneCallReads,
    ReadInACondition,
    ThroughAHelper,
    ReturnsAPointer,
    Recursive,
    AddressEscapes,
    OtherObjectsCallIt,
    OneHelperOfTwo,
}

impl ReturnShape {
    /// The axis value.
    pub open spec fn name_text(self) -> Seq<char> {
        match self {
            ReturnShape::ResultIgnored => "result-ignored"@,
            ReturnShape::OneCallReads => "one-call-reads"@,
            ReturnShape::ReadInACondition => "read-in-a-condition"@,
            ReturnShape::ThroughAHelper => "through-a-helper"@,
            ReturnShape::ReturnsAPointer => "returns-a-pointer"@,
            ReturnShape::Recursive => "recursive"@,
            ReturnShape::AddressEscapes => "address-escapes"@,
            ReturnShape::OtherObjectsCallIt => "other-objects-call-it"@,
            ReturnShape::OneHelperOfTwo => "one-helper-of-two"@,
        }
    }

    /// The axis value.
    pub fn name(self) -> (r: &'static str)
        ensures
            r@ == self.name_text(),
    {
        match self {
            ReturnShape::ResultIgnored => "result-ignored",
            ReturnShape::OneCallReads => "one-call-reads",
            ReturnShape::ReadInACondition => "read-in-a-condition",
            ReturnShape::ThroughAHelper => "through-a-helper",
            ReturnShape::ReturnsAPointer => "returns-a-pointer",
            ReturnShape::Recursive => "recursive",
            ReturnShape::AddressEscapes => "address-escapes",
            ReturnShape::OtherObjectsCallIt => "other-objects-call-it",
            ReturnShape::OneHelperOfTwo => "one-helper-of-two",
        }
    }
}

/// The shapes in the order the facet walks them.
pub open spec fn return_shapes() -> Seq<ReturnShape> {
    seq![
        ReturnShape::ResultIgnored,
        ReturnShape::OneCallReads,
        ReturnShape::ReadInACondition,
        ReturnShape::ThroughAHelper,
        ReturnShape::ReturnsAPointer,
        ReturnShape::Recursive,
        ReturnShape::AddressEscapes,
        ReturnShape::OtherObjectsCallIt,
        ReturnShape::OneHelperOfTwo,
    ]
}

/// The functions of an unread return shape, before the seed.
pub open spec fn return_functions(shape: ReturnShape, ty: Ty) -> Seq<Seq<char>> {
    let c = ty.c_text();
    let zero = lit_text(ty, 0);
    match shape {
        ReturnShape::ThroughAHelper => noting_lines(ty, "static "@) + seq![
            "static "@ + c + " outer("@ + c + " value) {"@,
            "    return note(value);"@,
            "}"@,
        ],
        ReturnShape::ReturnsAPointer => seq![
            "static "@ + c + " table[4] = { 0, 0, 0, 0 };"@,
            "static "@ + c + " *slot("@ + c + " at) {"@,
            "    table[at] = ("@ + c + ")(table[at] + 1);"@,
            "    return &table[at];"@,
            "}"@,
        ],
        ReturnShape::Recursive => seq![
            "static "@ + c + " seen = "@ + zero + ";"@,
            "static "@ + c + " walk("@ + c + " value) {"@,
            "    seen = ("@ + c + ")(seen + value);"@,
            "    if (value == "@ + zero + ") {"@,
            "        return "@ + zero + ";"@,
            "    }"@,
            "    return walk(("@ + c + ")(value - 1));"@,
            "}"@,
        ],
        ReturnShape::AddressEscapes => noting_lines(ty, "static "@) + seq![
            "static "@ + c + " (*chosen)("@ + c + ") = note;"@,
        ],
        ReturnShape::OtherObjectsCallIt => noting_lines(ty, Seq::empty()),
        ReturnShape::OneHelperOfTwo => noting_lines(ty, "static "@) + seq![
            "static "@ + c + " lift("@ + c + " value) {"@,
            "    seen = ("@ + c + ")(seen + value);"@,
            "    return ("@ + c + ")(value + 100);"@,
            "}"@,
        ],
        _ => noting_lines(ty, "static "@),
    }
}

/// The statements of an unread return shape after the total is started, up to the check on
/// what the calls marked.
pub open spec fn return_calls(shape: ReturnShape, ty: Ty) -> Seq<Seq<char>> {
    let c = ty.c_text();
    let i = indent(1);
    let again = i + "note(("@ + c + ")(seed + 1));"@;
    let seen = seq![Seq::<char>::empty(), print_line(1, ty.promotion(), "seen"@)];
    match shape {
        ReturnShape::ResultIgnored => seq![i + "note(seed);"@, again] + seen,
        ReturnShape::OneCallReads => seq![i + "total += note(seed);"@, again] + seen,
        ReturnShape::ReadInACondition => seq![
            i + "if (note(seed)) {"@,
            i + "    total += "@ + lit_text(ty, 5) + ";"@,
            i + "}"@,
            again,
        ] + seen,
        ReturnShape::ThroughAHelper => seq![
            i + "outer(seed);"@,
            i + "outer(("@ + c + ")(seed + 1));"@,
        ] + seen,
        ReturnShape::ReturnsAPointer => seq![
            i + "slot(("@ + c + ")(seed - 2));"@,
            i + "slot(("@ + c + ")(seed - 2));"@,
            Seq::<char>::empty(),
            print_line(1, ty.promotion(), "table[1]"@),
        ],
        ReturnShape::Recursive => seq![i + "walk(seed);"@] + seen,
        ReturnShape::AddressEscapes => seq![
            i + "note(seed);"@,
            i + "chosen(("@ + c + ")(seed + 1));"@,
        ] + seen,
        ReturnShape::OtherObjectsCallIt => seq![i + "note(seed);"@, again] + seen,
        ReturnShape::OneHelperOfTwo => seq![i + "total += lift(seed);"@, again] + seen,
    }
}

/// What an unread return shape prints, with the seed at three: what the calls marked, then the
/// total of the values that were read.
pub open spec fn return_expected(shape: ReturnShape) -> Seq<int> {
    match shape {
        ReturnShape::OneCallReads => seq![7, 9],
        ReturnShape::ReadInACondition => seq![7, 5],
        ReturnShape::ReturnsAPointer => seq![2, 0],
        ReturnShape::Recursive => seq![6, 0],
        ReturnShape::OneHelperOfTwo => seq![7, 103],
        _ => seq![7, 0],
    }
}

/// Whether a case is the unread return shape at a type, whole.
pub open spec fn is_return_case(c: Case, ty: Ty, shape: ReturnShape) -> bool {
    &&& c.axes_text() == seq![("type"@, ty.name_text()), ("shape"@, shape.name_text())]
    &&& c.tags_text() == Seq::<Seq<char>>::empty()
    &&& c.program.purpose_text() == "a "@ + ty.c_text() + " return value no call reads, "@
        + shape.name_text()
    &&& c.program.include_lines() == Seq::<Seq<char>>::empty()
    &&& c.program.top_lines() == return_functions(shape, ty).push(input_global(ty, "seed"@, 3))
    &&& c.program.body_lines() == running_lines(ty) + return_calls(shape, ty) + seq![
        Seq::<char>::empty(),
        print_line(1, ty.promotion(), "total"@),
    ]
    &&& c.program.expected_values() == return_expected(shape)
    &&& !c.program.sinks()
}

/// Writes the functions of an unread return shape.
fn return_functions_write(program: &mut Program, shape: ReturnShape, ty: Ty)
    ensures
        final(program).top_lines() == old(program).top_lines() + return_functions(shape, ty),
        final(program).body_lines() == old(program).body_lines(),
        final(program).expected_values() == old(program).expected_values(),
        final(program).purpose_text() == old(program).purpose_text(),
        final(program).include_lines() == old(program).include_lines(),
        final(program).sinks() == old(program).sinks(),
{
    let ghost top0 = program.top_lines();
    let c = ty.c_name();
    let zero = lit(ty, 0);
    match shape {
        ReturnShape::ThroughAHelper => {
            noting(program, ty, "static ");
            top5(program, "static ", c, " outer(", c, " value) {");
            program.top("    return note(value);");
            program.top("}");
        },
        ReturnShape::ReturnsAPointer => {
            top3(program, "static ", c, " table[4] = { 0, 0, 0, 0 };");
            top5(program, "static ", c, " *slot(", c, " at) {");
            top3(program, "    table[at] = (", c, ")(table[at] + 1);");
            program.top("    return &table[at];");
            program.top("}");
        },
        ReturnShape::Recursive => {
            top5(program, "static ", c, " seen = ", zero.as_str(), ";");
            top5(program, "static ", c, " walk(", c, " value) {");
            top3(program, "    seen = (", c, ")(seen + value);");
            top3(program, "    if (value == ", zero.as_str(), ") {");
            top3(program, "        return ", zero.as_str(), ";");
            program.top("    }");
            top3(program, "    return walk((", c, ")(value - 1));");
            program.top("}");
        },
        ReturnShape::AddressEscapes => {
            noting(program, ty, "static ");
            top5(program, "static ", c, " (*chosen)(", c, ") = note;");
        },
        ReturnShape::OtherObjectsCallIt => {
            noting(program, ty, "");
            proof {
                reveal_strlit("");
            }
        },
        ReturnShape::OneHelperOfTwo => {
            noting(program, ty, "static ");
            top5(program, "static ", c, " lift(", c, " value) {");
            top3(program, "    seen = (", c, ")(seen + value);");
            top3(program, "    return (", c, ")(value + 100);");
            program.top("}");
        },
        _ => {
            noting(program, ty, "static ");
        },
    }
    assert(program.top_lines() =~~= top0 + return_functions(shape, ty));
}

/// Writes the statements of an unread return shape and the check on what the calls marked.
fn return_calls_write(program: &mut Program, shape: ReturnShape, ty: Ty)
    ensures
        final(program).body_lines() == old(program).body_lines() + return_calls(shape, ty),
        final(program).expected_values() == old(program).expected_values().push(
            return_expected(shape)[0],
        ),
        final(program).top_lines() == old(program).top_lines(),
        final(program).purpose_text() == old(program).purpose_text(),
        final(program).include_lines() == old(program).include_lines(),
        final(program).sinks() == old(program).sinks(),
{
    let ghost body0 = program.body_lines();
    let c = ty.c_name();
    match shape {
        ReturnShape::ResultIgnored | ReturnShape::OtherObjectsCallIt => {
            program.line("note(seed);");
            line3(program, "note((", c, ")(seed + 1));");
        },
        ReturnShape::OneCallReads => {
            program.line("total += note(seed);");
            line3(program, "note((", c, ")(seed + 1));");
        },
        ReturnShape::ReadInACondition => {
            program.line("if (note(seed)) {");
            let five = lit(ty, 5);
            line3(program, "    total += ", five.as_str(), ";");
            program.line("}");
            line3(program, "note((", c, ")(seed + 1));");
        },
        ReturnShape::ThroughAHelper => {
            program.line("outer(seed);");
            line3(program, "outer((", c, ")(seed + 1));");
        },
        ReturnShape::ReturnsAPointer => {
            line3(program, "slot((", c, ")(seed - 2));");
            line3(program, "slot((", c, ")(seed - 2));");
        },
        ReturnShape::Recursive => {
            program.line("walk(seed);");
        },
        ReturnShape::AddressEscapes => {
            program.line("note(seed);");
            line3(program, "chosen((", c, ")(seed + 1));");
        },
        ReturnShape::OneHelperOfTwo => {
            program.line("total += lift(seed);");
            line3(program, "note((", c, ")(seed + 1));");
        },
    }
    program.blank();
    if shape == ReturnShape::ReturnsAPointer {
        program.check(ty.promoted(), "table[1]", 2);
    } else if shape == ReturnShape::Recursive {
        program.check(ty.promoted(), "seen", 6);
    } else {
        program.check(ty.promoted(), "seen", 7);
    }
    assert(program.body_lines() =~~= body0 + return_calls(shape, ty));
}

/// What an unread return shape adds up to.
fn return_total(shape: ReturnShape) -> (r: i128)
    ensures
        r == return_expected(shape)[1],
{
    match shape {
        ReturnShape::OneCallReads => 9,
        ReturnShape::ReadInACondition => 5,
        ReturnShape::OneHelperOfTwo => 103,
        _ => 0,
    }
}

/// One unread return shape at one type.
fn return_case(ty: Ty, shape: ReturnShape) -> (r: Case)
    ensures
        is_return_case(r, ty, shape),
{
    let mut purpose = String::from_str("a ");
    purpose.append(ty.c_name());
    purpose.append(" return value no call reads, ");
    purpose.append(shape.name());
    let mut program = Program::new(purpose.as_str());
    return_functions_write(&mut program, shape, ty);
    running_total(&mut program, ty);
    return_calls_write(&mut program, shape, ty);
    program.blank();
    program.check(ty.promoted(), "total", return_total(shape));
    assert(program.body_lines() =~~= running_lines(ty) + return_calls(shape, ty) + seq![
        Seq::<char>::empty(),
        print_line(1, ty.promotion(), "total"@),
    ]);
    assert(program.top_lines() =~~= return_functions(shape, ty).push(input_global(ty, "seed"@, 3)));
    assert(program.expected_values() =~= return_expected(shape));
    let axes = vec![axis("type", ty.name()), axis("shape", shape.name())];
    let r = Case { axes, tags: tags_for(false), program };
    assert(r.axes_text() =~= seq![("type"@, ty.name_text()), ("shape"@, shape.name_text())]);
    r
}

/// Return values no call reads, and the results the calls were producing.
///
/// A return value is dead because of what the callers do not do, so every shape is about the
/// call sites. The helper marks a global on its way past, and a compiler that takes the return
/// away and the mark with it is caught by the check on the global. Three shapes are the
/// removal, four keep the return value because a call reads it or a caller nobody sees might,
/// the recursive one reads its own result, and the last has two helpers side by side, one read
/// and one not.
pub fn unused_returns() -> (r: Vec<Case>)
    ensures
        r@.len() == 36,
        forall|k: int|
            0 <= k < 36 ==> is_return_case(
                #[trigger] r@[k],
                wide_types()[k / 9],
                return_shapes()[k % 9],
            ),
{
    let types = wide();
    let shapes = [
        ReturnShape::ResultIgnored,
        ReturnShape::OneCallReads,
        ReturnShape::ReadInACondition,
        ReturnShape::ThroughAHelper,
        ReturnShape::ReturnsAPointer,
        ReturnShape::Recursive,
        ReturnShape::AddressEscapes,
        ReturnShape::OtherObjectsCallIt,
        ReturnShape::OneHelperOfTwo,
    ];
    assert(shapes@ =~= return_shapes());
    let mut out: Vec<Case> = Vec::new();
    let mut k: usize = 0;
    while k < 36
        invariant
            k <= 36,
            types@ == wide_types(),
            shapes@ == return_shapes(),
            out@.len() == k,
            forall|i: int|
                0 <= i < k ==> is_return_case(
                    #[trigger] out@[i],
                    wide_types()[i / 9],
                    return_shapes()[i % 9],
                ),
        decreases 36 - k,
    {
        out.push(return_case(types[k / 9], shapes[k % 9]));
        k += 1;
    }
    out
}

/// The lines that fill the four values the reading shapes hand to the callee.
pub open spec fn table_lines(ty: Ty) -> Seq<Seq<char>> {
    let c = ty.c_text();
    seq![
        indent(1) + c + " table[4] = {"@,
        indent(2) + "seed, ("@ + c + ")(seed + 1), ("@ + c + ")(seed + 2), ("@ + c
            + ")(seed + 3)"@,
        indent(1) + "};"@,
    ]
}

/// The four values the reading shapes hand to the callee: a local rather than a global, and
/// filled from the seed rather than written as literals, so that a compiler cannot work the
/// answer out without believing something about the call.
pub fn table(program: &mut Program, ty: Ty)
    ensures
        final(program).body_lines() == old(program).body_lines() + table_lines(ty),
        final(program).top_lines() == old(program).top_lines(),
        final(program).expected_values() == old(program).expected_values(),
        final(program).purpose_text() == old(program).purpose_text(),
        final(program).include_lines() == old(program).include_lines(),
        final(program).sinks() == old(program).sinks(),
{
    let ghost body0 = program.body_lines();
    let c = ty.c_name();
    line3(program, "", c, " table[4] = {");
    let mut values = String::from_str("seed, (");
    values.append(c);
    values.append(")(seed + 1), (");
    values.append(c);
    values.append(")(seed + 2), (");
    values.append(c);
    values.append(")(seed + 3)");
    program.line_at(1, values.as_str());
    program.line("};");
    proof {
        reveal_strlit("");
    }
    assert(program.body_lines() =~~= body0 + table_lines(ty));
}

/// The shapes of a call into another file whose declaration may promise something.
#[derive(Clone, Copy, Debug, PartialEq, Eq, Structural)]
pub enum PurityShape {
    TheSameArgumentTwice,
    AResultNothingReads,
    AnArrayReadTwice,
    AWriteBetweenTwoReads,
}

impl PurityShape {
    /// The axis value.
    pub open spec fn name_text(self) -> Seq<char> {
        match self {
            PurityShape::TheSameArgumentTwice => "the-same-argument-twice"@,
            PurityShape::AResultNothingReads => "a-result-nothing-reads"@,
            PurityShape::AnArrayReadTwice => "an-array-read-twice"@,
            PurityShape::AWriteBetweenTwoReads => "a-write-between-two-reads"@,
        }
    }

    /// The axis value with its words apart, for the purpose line.
    pub open spec fn words_text(self) -> Seq<char> {
        match self {
            PurityShape::TheSameArgumentTwice => "the same argument twice"@,
            PurityShape::AResultNothingReads => "a result nothing reads"@,
            PurityShape::AnArrayReadTwice => "an array read twice"@,
            PurityShape::AWriteBetweenTwoReads => "a write between two reads"@,
        }
    }

    /// Whether the callee reads memory it is handed.
    pub open spec fn is_reading(self) -> bool {
        self == PurityShape::AnArrayReadTwice || self == PurityShape::AWriteBetweenTwoReads
    }

    /// The axis value.
    pub fn name(self) -> (r: &'static str)
        ensures
            r@ == self.name_text(),
    {
        match self {
            PurityShape::TheSameArgumentTwice => "the-same-argument-twice",
            PurityShape::AResultNothingReads => "a-result-nothing-reads",
            PurityShape::AnArrayReadTwice => "an-array-read-twice",
            PurityShape::AWriteBetweenTwoReads => "a-write-between-two-reads",
        }
    }

    /// The axis value with its words apart.
    pub fn words(self) -> (r: &'static str)
        ensures
            r@ == self.words_text(),
    {
        match self {
            PurityShape::TheSameArgumentTwice => "the same argument twice",
            PurityShape::AResultNothingReads => "a result nothing reads",
            PurityShape::AnArrayReadTwice => "an array read twice",
            PurityShape::AWriteBetweenTwoReads => "a write between two reads",
        }
    }

    /// Whether the callee reads memory it is handed.
    pub fn reading(self) -> (r: bool)
        ensures
            r == self.is_reading(),
    {
        self == PurityShape::AnArrayReadTwice || self == PurityShape::AWriteBetweenTwoReads
    }
}

/// The attribute on the declaration: none when the promise is not written, `const` for a
/// callee that reads nothing, `pure` for one that reads what it is handed.
pub open spec fn purity_attribute(written: bool, reads: bool) -> Seq<char> {
    if !written {
        Seq::empty()
    } else if reads {
        "__attribute__((pure)) "@
    } else {
        "__attribute__((const)) "@
    }
}

/// The declaration of the callee in the main unit.
pub open spec fn purity_declaration(ty: Ty, shape: PurityShape, written: bool) -> Seq<char> {
    let c = ty.c_text();
    if shape.is_reading() {
        purity_attribute(written, true) + c + " corpus_look(const "@ + c + " *at);"@
    } else {
        purity_attribute(written, false) + c + " corpus_weigh("@ + c + " of);"@
    }
}

/// The callee's own unit.
pub open spec fn purity_unit(ty: Ty, reads: bool) -> Seq<char> {
    let c = ty.c_text();
    if reads {
        unit_text(
            "A callee that reads the array it is handed and writes nothing."@,
            c + " corpus_look(const "@ + c + " *at)\n{\n    return ("@ + c
                + ")(at[0] + at[2]);\n}\n"@,
        )
    } else {
        unit_text(
            "A callee that works its answer out from its argument and touches nothing."@,
            c + " corpus_weigh("@ + c + " of)\n{\n    return ("@ + c + ")(of * 3 + 1);\n}\n"@,
        )
    }
}

/// The calls of a purity shape.
pub open spec fn purity_calls(ty: Ty, shape: PurityShape) -> Seq<Seq<char>> {
    let i = indent(1);
    match shape {
        PurityShape::TheSameArgumentTwice => seq![
            i + "total += corpus_weigh(seed);"@,
            i + "total += corpus_weigh(seed);"@,
        ],
        PurityShape::AResultNothingReads => seq![
            i + "corpus_weigh(seed);"@,
            i + "total += corpus_weigh(seed);"@,
        ],
        PurityShape::AnArrayReadTwice => table_lines(ty) + seq![
            i + "total += corpus_look(table);"@,
            i + "total += corpus_look(table);"@,
        ],
        PurityShape::AWriteBetweenTwoReads => table_lines(ty) + seq![
            i + "total += corpus_look(table);"@,
            i + "table[2] = ("@ + ty.c_text() + ")(seed + 10);"@,
            i + "total += corpus_look(table);"@,
        ],
    }
}

/// What a purity shape adds up to, with the seed at three.
pub open spec fn purity_total(shape: PurityShape) -> int {
    match shape {
        PurityShape::TheSameArgumentTwice => 20,
        PurityShape::AResultNothingReads => 10,
        PurityShape::AnArrayReadTwice => 16,
        PurityShape::AWriteBetweenTwoReads => 24,
    }
}

/// The purpose line of a purity case.
pub open spec fn purity_purpose(ty: Ty, shape: PurityShape, written: bool) -> Seq<char> {
    "a "@ + ty.c_text() + " callee in another file, "@ + shape.words_text() + ", promise "@ + (
    if written {
        "written"@
    } else {
        "silent"@
    })
}

/// Whether a linked case is the purity shape at a type, with the promise written or not,
/// whole.
pub open spec fn is_purity_case(c: LinkedCase, ty: Ty, shape: PurityShape, written: bool) -> bool {
    &&& c.axes_text() == seq![
        ("type"@, ty.name_text()),
        ("shape"@, shape.name_text()),
        ("promise"@, if written {
            "written"@
        } else {
            "silent"@
        }),
    ]
    &&& c.tags_text() == Seq::<Seq<char>>::empty()
    &&& c.units_text() == seq![("helper"@, purity_unit(ty, shape.is_reading()))]
    &&& c.source@ == source_text(
        purity_purpose(ty, shape, written),
        Seq::empty(),
        seq![purity_declaration(ty, shape, written), input_global(ty, "seed"@, 3)],
        running_lines(ty) + purity_calls(ty, shape) + seq![
            Seq::<char>::empty(),
            print_line(1, ty.promotion(), "total"@),
        ],
        true,
        false,
    )
    &&& c.output@ == expected_text(seq![purity_total(shape)])
}

/// One purity case.
fn purity_case(ty: Ty, shape: PurityShape, written: bool) -> (r: LinkedCase)
    ensures
        is_purity_case(r, ty, shape, written),
{
    let c = ty.c_name();
    let reads = shape.reading();
    let attribute = if !written {
        ""
    } else if reads {
        "__attribute__((pure)) "
    } else {
        "__attribute__((const)) "
    };
    proof {
        reveal_strlit("");
    }
    let helper = if reads {
        let mut body = String::from_str(c);
        body.append(" corpus_look(const ");
        body.append(c);
        body.append(" *at)\n{\n    return (");
        body.append(c);
        body.append(")(at[0] + at[2]);\n}\n");
        unit("helper", "A callee that reads the array it is handed and writes nothing.", body.as_str())
    } else {
        let mut body = String::from_str(c);
        body.append(" corpus_weigh(");
        body.append(c);
        body.append(" of)\n{\n    return (");
        body.append(c);
        body.append(")(of * 3 + 1);\n}\n");
        unit(
            "helper",
            "A callee that works its answer out from its argument and touches nothing.",
            body.as_str(),
        )
    };
    let point = if written { "written" } else { "silent" };
    let mut purpose = String::from_str("a ");
    purpose.append(c);
    purpose.append(" callee in another file, ");
    purpose.append(shape.words());
    purpose.append(", promise ");
    purpose.append(point);
    let mut program = Program::new(purpose.as_str());
    if reads {
        top5(&mut program, attribute, c, " corpus_look(const ", c, " *at);");
    } else {
        top5(&mut program, attribute, c, " corpus_weigh(", c, " of);");
    }
    running_total(&mut program, ty);
    let total: i128 = match shape {
        PurityShape::TheSameArgumentTwice => {
            program.line("total += corpus_weigh(seed);");
            program.line("total += corpus_weigh(seed);");
            20
        },
        PurityShape::AResultNothingReads => {
            program.line("corpus_weigh(seed);");
            program.line("total += corpus_weigh(seed);");
            10
        },
        PurityShape::AnArrayReadTwice => {
            table(&mut program, ty);
            program.line("total += corpus_look(table);");
            program.line("total += corpus_look(table);");
            16
        },
        PurityShape::AWriteBetweenTwoReads => {
            table(&mut program, ty);
            program.line("total += corpus_look(table);");
            line3(&mut program, "table[2] = (", c, ")(seed + 10);");
            program.line("total += corpus_look(table);");
            24
        },
    };
    program.blank();
    program.check(ty.promoted(), "total", total);
    assert(program.top_lines() =~~= seq![
        purity_declaration(ty, shape, written),
        input_global(ty, "seed"@, 3),
    ]);
    assert(program.body_lines() =~~= running_lines(ty) + purity_calls(ty, shape) + seq![
        Seq::<char>::empty(),
        print_line(1, ty.promotion(), "total"@),
    ]);
    assert(program.expected_values() =~= seq![purity_total(shape)]);
    let (source, output) = program.finish();
    let axes = vec![axis("type", ty.name()), axis("shape", shape.name()), axis("promise", point)];
    let units = vec![helper];
    let r = LinkedCase { axes, tags: tags_for(false), source, units, output };
    assert(r.axes_text() =~= seq![
        ("type"@, ty.name_text()),
        ("shape"@, shape.name_text()),
        ("promise"@, if written {
            "written"@
        } else {
            "silent"@
        }),
    ]);
    assert(r.units_text() =~= seq![("helper"@, purity_unit(ty, shape.is_reading()))]);
    r
}

/// The shapes in the order the facet walks them.
pub open spec fn purity_shapes() -> Seq<PurityShape> {
    seq![
        PurityShape::TheSameArgumentTwice,
        PurityShape::AResultNothingReads,
        PurityShape::AnArrayReadTwice,
        PurityShape::AWriteBetweenTwoReads,
    ]
}

/// A callee in another file, and what its declaration promised about memory.
///
/// The helper is compiled on its own and the main unit holds nothing but a declaration of it,
/// so the only thing that can say whether two calls are one call is `__attribute__((const))`
/// or `__attribute__((pure))` written on that declaration. Each shape is generated with the
/// attribute written and without it, a pair whose sizes and times can be subtracted. Both
/// promises are true of the helper. The last shape writes between the two reads, so a compiler
/// that merged them anyway prints the wrong number.
pub fn declared_purity() -> (r: Vec<LinkedCase>)
    ensures
        r@.len() == 32,
        forall|k: int|
            0 <= k < 32 ==> is_purity_case(
                #[trigger] r@[k],
                wide_types()[k / 8],
                purity_shapes()[(k / 2) % 4],
                k % 2 == 0,
            ),
{
    let types = wide();
    let shapes = [
        PurityShape::TheSameArgumentTwice,
        PurityShape::AResultNothingReads,
        PurityShape::AnArrayReadTwice,
        PurityShape::AWriteBetweenTwoReads,
    ];
    assert(shapes@ =~= purity_shapes());
    let mut out: Vec<LinkedCase> = Vec::new();
    let mut k: usize = 0;
    while k < 32
        invariant
            k <= 32,
            types@ == wide_types(),
            shapes@ == purity_shapes(),
            out@.len() == k,
            forall|i: int|
                0 <= i < k ==> is_purity_case(
                    #[trigger] out@[i],
                    wide_types()[i / 8],
                    purity_shapes()[(i / 2) % 4],
                    i % 2 == 0,
                ),
        decreases 32 - k,
    {
        out.push(purity_case(types[k / 8], shapes[(k / 2) % 4], k % 2 == 0));
        k += 1;
    }
    out
}

/// Every interprocedural facet, one batch per facet in the order the phase walks them; the
/// batches whose callee is in another translation unit are linked ones.
#[verifier::rlimit(100)]
pub fn generate() -> (r: Vec<Batch>)
    ensures
        r@.len() == 13,
        r@[0] is Single,
        r@[0]->cases@.len() == 36,
        forall|k: int|
            0 <= k < 36 ==> is_inline_case(
                #[trigger] r@[0]->cases@[k],
                wide_types()[k / 9],
                inline_sizes()[(k % 9) / 3],
                seq![1int, 4, 20][k % 3],
            ),
        r@[1] is Single,
        r@[1]->cases@.len() == 36,
        forall|k: int|
            0 <= k < 36 ==> is_recursion_case(
                #[trigger] r@[1]->cases@[k],
                wide_types()[k / 9],
                recursion_depths()[(k % 9) / 3],
                recursion_shapes_list()[k % 3],
            ),
        r@[2] is Single,
        r@[2]->cases@.len() == 5,
        is_tail_case(r@[2]->cases@[0], TailShape::Alternate, 2),
        is_tail_case(r@[2]->cases@[1], TailShape::Switch, 4),
        is_tail_case(r@[2]->cases@[2], TailShape::Switch, 16),
        is_tail_case(r@[2]->cases@[3], TailShape::Rotate, 1),
        is_tail_case(r@[2]->cases@[4], TailShape::Table, 4),
        r@[3] is Single,
        r@[3]->cases@.len() == 28,
        forall|k: int|
            0 <= k < 28 ==> is_callee_case(
                #[trigger] r@[3]->cases@[k],
                wide_types()[k / 7],
                callee_shapes_list()[k % 7],
            ),
        r@[4] is Single,
        r@[4]->cases@.len() == 36,
        forall|k: int|
            0 <= k < 36 ==> is_arg_case(#[trigger] r@[4]->cases@[k], wide_types()[k / 9], arg_shapes()[k % 9]),
        r@[5] is Single,
        r@[5]->cases@.len() == 44,
        forall|k: int|
            0 <= k < 44 ==> is_param_case(
                #[trigger] r@[5]->cases@[k],
                wide_types()[k / 11],
                param_shapes()[k % 11],
            ),
        r@[6] is Single,
        r@[6]->cases@.len() == 36,
        forall|k: int|
            0 <= k < 36 ==> is_return_case(
                #[trigger] r@[6]->cases@[k],
                wide_types()[k / 9],
                return_shapes()[k % 9],
            ),
        r@[7] is Linked,
        r@[7]->linked@.len() == 32,
        forall|k: int|
            0 <= k < 32 ==> is_purity_case(
                #[trigger] r@[7]->linked@[k],
                wide_types()[k / 8],
                purity_shapes()[(k / 2) % 4],
                k % 2 == 0,
            ),
        r@[8] is Single,
        r@[8]->cases@.len() == 9,
        forall|k: int|
            0 <= k < 9 ==> is_unreferenced_case(
                #[trigger] r@[8]->cases@[k],
                seq![1int, 5, 20][k / 3],
                unreferenced_kinds()[k % 3],
            ),
        r@[9] is Single,
        r@[9]->cases@.len() == 4,
        forall|k: int| 0 <= k < 4 ==> is_indirect_case(#[trigger] r@[9]->cases@[k], indirect_shapes_list()[k]),
        r@[10] is Single,
        r@[10]->cases@.len() == 24,
        forall|k: int|
            0 <= k < 24 ==> is_effect_case(
                #[trigger] r@[10]->cases@[k],
                wide_types()[k / 6],
                effect_shapes_list()[k % 6],
            ),
        r@[11] is Single,
        r@[11]->cases@.len() == 24,
        forall|k: int|
            0 <= k < 24 ==> is_motion_case(
                #[trigger] r@[11]->cases@[k],
                wide_types()[k / 6],
                motion_shapes_list()[k % 6],
            ),
        r@[12] is Linked,
        r@[12]->linked@.len() == 12,
        forall|k: int|
            0 <= k < 12 ==> is_unit_call_case(
                #[trigger] r@[12]->linked@[k],
                wide_types()[k / 3],
                unit_shapes_list()[k % 3],
            ),
{
    let mut out: Vec<Batch> = Vec::new();
    out.push(Batch::Single { cases: crate::facets::calls::inline() });
    out.push(Batch::Single { cases: tail_call() });
    out.push(Batch::Single { cases: tail_dispatch() });
    out.push(Batch::Single { cases: function_purity() });
    out.push(Batch::Single { cases: constant_args() });
    out.push(Batch::Single { cases: unused_params() });
    out.push(Batch::Single { cases: unused_returns() });
    out.push(Batch::Linked { linked: declared_purity() });
    out.push(Batch::Single { cases: reachability() });
    out.push(Batch::Single { cases: devirtualize() });
    out.push(Batch::Single { cases: memory_effects() });
    out.push(Batch::Single { cases: call_motion() });
    out.push(Batch::Linked { linked: calls_across_units() });
    out
}

} // verus!
