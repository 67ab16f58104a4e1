//! Arithmetic C widened to `int` and then threw the width away again.
//!
//! Two `unsigned char` operands are added as `int`; if the sum is stored back into an
//! `unsigned char`, the top bits were never going to be read, and a compiler may do the work
//! at the narrow width instead. The shapes are the cases such a pass has to tell apart, two of
//! them, `wide-use` and `divide`, the ones where narrowing is not allowed. The operands each
//! program tries are handed in.

use vstd::prelude::*;
use vstd::string::*;
use crate::emit::{Program, input_global, input_read, indent, print_line};
use crate::lang::{Ty, Op, c_value, eval, c_quotient, c_remainder, signed_twin, unsigned_twin};
use crate::text::{decimal, decimal_string};
use crate::facets::{lit, lit_text};
use crate::facets::folding::all_in;

verus! {

/// A shape of narrowed arithmetic.
#[derive(Clone, Copy, Debug, PartialEq, Eq, Structural)]
pub enum NarrowShape {
    StoredBack,
    WideUse,
    MixedSign,
    RoundTrip,
    Divide,
    Shift,
    BitField,
}

impl NarrowShape {
    /// The axis value.
    pub open spec fn name_text(self) -> Seq<char> {
        match self {
            NarrowShape::StoredBack => "stored-back"@,
            NarrowShape::WideUse => "wide-use"@,
            NarrowShape::MixedSign => "mixed-sign"@,
            NarrowShape::RoundTrip => "round-trip"@,
            NarrowShape::Divide => "divide"@,
            NarrowShape::Shift => "shift"@,
            NarrowShape::BitField => "bit-field"@,
        }
    }

    /// The axis value.
    pub fn name(self) -> (r: &'static str)
        ensures
            r@ == self.name_text(),
    {
        match self {
            NarrowShape::StoredBack => "stored-back",
            NarrowShape::WideUse => "wide-use",
            NarrowShape::MixedSign => "mixed-sign",
            NarrowShape::RoundTrip => "round-trip",
            NarrowShape::Divide => "divide",
            NarrowShape::Shift => "shift",
            NarrowShape::BitField => "bit-field",
        }
    }
}

/// Every shape, in the order the facet writes them.
pub open spec fn all_narrow_shapes() -> Seq<NarrowShape> {
    seq![
        NarrowShape::StoredBack,
        NarrowShape::WideUse,
        NarrowShape::MixedSign,
        NarrowShape::RoundTrip,
        NarrowShape::Divide,
        NarrowShape::Shift,
        NarrowShape::BitField,
    ]
}

/// Every shape, in the order the facet writes them.
pub fn narrow_shapes() -> (r: Vec<NarrowShape>)
    ensures
        r@ == all_narrow_shapes(),
{
    let r = vec![
        NarrowShape::StoredBack,
        NarrowShape::WideUse,
        NarrowShape::MixedSign,
        NarrowShape::RoundTrip,
        NarrowShape::Divide,
        NarrowShape::Shift,
        NarrowShape::BitField,
    ];
    assert(r@ =~= all_narrow_shapes());
    r
}

/// The types narrower than `int`, the only ones C widens.
pub open spec fn is_narrow(ty: Ty) -> bool {
    ty.width() < 32
}

/// The type of the other sign and the same width.
pub open spec fn twin_of(ty: Ty) -> Ty {
    match ty {
        Ty::I8 => Ty::U8,
        Ty::U8 => Ty::I8,
        Ty::I16 => Ty::U16,
        Ty::U16 => Ty::I16,
        _ => ty,
    }
}

/// A variable name with the position of its operand after it.
pub open spec fn slot(prefix: Seq<char>, at: int) -> Seq<char> {
    prefix + decimal(at)
}

/// The operators the stored-back shape stores back.
pub open spec fn stored_ops() -> Seq<Op> {
    seq![Op::Add, Op::Sub, Op::Mul, Op::And, Op::Or, Op::Xor]
}

/// The line and the check of one stored-back operator.
pub open spec fn stored_lines(ty: Ty, at: int, op: Op) -> Seq<Seq<char>> {
    let v = slot("v"@, at) + "_"@ + op.name_text();
    seq![
        indent(1) + ty.c_text() + " "@ + v + " = ("@ + ty.c_text() + ")("@ + slot("a"@, at) + " "@
            + op.spelling_text() + " "@ + lit_text(ty, 5) + ");"@,
        print_line(1, Ty::I32, v),
    ]
}

/// The lines of a shift by one count, when C defines it.
pub open spec fn shift_lines(ty: Ty, at: int, left: i128, count: int) -> Seq<Seq<char>> {
    let s = slot("s"@, at) + "_"@ + decimal(count);
    if c_value(Op::Shl, ty, left, count as i128) is Some {
        seq![
            indent(1) + ty.c_text() + " "@ + s + " = ("@ + ty.c_text() + ")("@ + slot("a"@, at)
                + " << "@ + decimal(count) + ");"@,
            print_line(1, Ty::I32, s),
        ]
    } else {
        Seq::empty()
    }
}

/// The value of a shift by one count, when C defines it.
pub open spec fn shift_values(ty: Ty, left: i128, count: int) -> Seq<int> {
    match c_value(Op::Shl, ty, left, count as i128) {
        Some(v) => seq![ty.wrap(v)],
        None => Seq::empty(),
    }
}

/// What one operand declares before `main`.
pub open spec fn block_top(ty: Ty, shape: NarrowShape, at: int, left: i128) -> Seq<Seq<char>> {
    match shape {
        NarrowShape::MixedSign => seq![
            input_global(ty, slot("a"@, at), left as int),
            input_global(twin_of(ty), slot("b"@, at), 3),
        ],
        NarrowShape::BitField => Seq::empty(),
        _ => seq![input_global(ty, slot("a"@, at), left as int)],
    }
}

/// The statements one operand puts in `main`.
pub open spec fn block_body(ty: Ty, shape: NarrowShape, at: int, left: i128) -> Seq<Seq<char>> {
    let name = ty.c_text();
    let a = slot("a"@, at);
    match shape {
        NarrowShape::MixedSign => seq![
            input_read(ty, a),
            input_read(twin_of(ty), slot("b"@, at)),
            indent(1) + name + " "@ + slot("sum"@, at) + " = ("@ + name + ")("@ + a + " + "@
                + slot("b"@, at) + ");"@,
            print_line(1, Ty::I32, slot("sum"@, at)),
        ],
        NarrowShape::Divide => seq![
            input_read(ty, a),
            indent(1) + name + " "@ + slot("q"@, at) + " = ("@ + name + ")("@ + a + " / "@
                + lit_text(ty, 3) + ");"@,
            indent(1) + name + " "@ + slot("r"@, at) + " = ("@ + name + ")("@ + a + " % "@
                + lit_text(ty, 3) + ");"@,
            print_line(1, Ty::I32, slot("q"@, at)),
            print_line(1, Ty::I32, slot("r"@, at)),
        ],
        NarrowShape::Shift => seq![input_read(ty, a)] + shift_lines(ty, at, left, 3)
            + shift_lines(ty, at, left, 9),
        NarrowShape::RoundTrip => seq![
            input_read(ty, a),
            indent(1) + name + " "@ + slot("n"@, at) + " = ("@ + name + ")("@ + a + " + 1);"@,
            indent(1) + "int "@ + slot("w"@, at) + " = (int)"@ + slot("n"@, at) + ";"@,
            print_line(1, Ty::I32, slot("w"@, at) + " == "@ + decimal(ty.wrap(left + 1))),
            print_line(1, Ty::I32, slot("n"@, at)),
        ],
        NarrowShape::WideUse => seq![
            input_read(ty, a),
            indent(1) + "int "@ + slot("w"@, at) + " = "@ + a + " + "@ + lit_text(
                ty,
                ty.highest(),
            ) + ";"@,
            print_line(1, Ty::I32, slot("w"@, at)),
        ],
        NarrowShape::StoredBack => seq![input_read(ty, a)] + stored_lines(ty, at, Op::Add)
            + stored_lines(ty, at, Op::Sub) + stored_lines(ty, at, Op::Mul) + stored_lines(
            ty,
            at,
            Op::And,
        ) + stored_lines(ty, at, Op::Or) + stored_lines(ty, at, Op::Xor) + seq![
            Seq::<char>::empty(),
        ],
        NarrowShape::BitField => Seq::empty(),
    }
}

/// What one operand prints.
pub open spec fn block_values(ty: Ty, shape: NarrowShape, left: i128) -> Seq<int> {
    match shape {
        NarrowShape::MixedSign => seq![ty.wrap(left + 3)],
        NarrowShape::Divide => seq![
            ty.wrap(c_quotient(left as int, 3)),
            ty.wrap(c_remainder(left as int, 3)),
        ],
        NarrowShape::Shift => shift_values(ty, left, 3) + shift_values(ty, left, 9),
        NarrowShape::RoundTrip => seq![1, ty.wrap(left + 1)],
        NarrowShape::WideUse => seq![left + ty.highest()],
        NarrowShape::StoredBack => seq![
            ty.wrap(c_value(Op::Add, ty, left, 5)->0),
            ty.wrap(c_value(Op::Sub, ty, left, 5)->0),
            ty.wrap(c_value(Op::Mul, ty, left, 5)->0),
            ty.wrap(c_value(Op::And, ty, left, 5)->0),
            ty.wrap(c_value(Op::Or, ty, left, 5)->0),
            ty.wrap(c_value(Op::Xor, ty, left, 5)->0),
        ],
        NarrowShape::BitField => Seq::empty(),
    }
}

/// What the operands declare before `main`, in order.
pub open spec fn narrow_top(ty: Ty, shape: NarrowShape, operands: Seq<i128>) -> Seq<Seq<char>>
    decreases operands.len(),
{
    if operands.len() == 0 {
        Seq::empty()
    } else {
        narrow_top(ty, shape, operands.drop_last()) + block_top(
            ty,
            shape,
            operands.len() - 1,
            operands.last(),
        )
    }
}

/// What the operands put in `main`, in order.
pub open spec fn narrow_body(ty: Ty, shape: NarrowShape, operands: Seq<i128>) -> Seq<Seq<char>>
    decreases operands.len(),
{
    if operands.len() == 0 {
        Seq::empty()
    } else {
        narrow_body(ty, shape, operands.drop_last()) + block_body(
            ty,
            shape,
            operands.len() - 1,
            operands.last(),
        )
    }
}

/// What the operands print, in order.
pub open spec fn narrow_values(ty: Ty, shape: NarrowShape, operands: Seq<i128>) -> Seq<int>
    decreases operands.len(),
{
    if operands.len() == 0 {
        Seq::empty()
    } else {
        narrow_values(ty, shape, operands.drop_last()) + block_values(ty, shape, operands.last())
    }
}

/// The declaration of the bit field.
pub open spec fn bit_field_top(ty: Ty) -> Seq<Seq<char>> {
    seq![
        "struct packed { unsigned three : 3; unsigned five : 5; unsigned thirteen : 13; };"@,
        input_global(ty, "seed"@, 7),
    ]
}

/// The `main` of the bit field shape.
pub open spec fn bit_field_body(ty: Ty) -> Seq<Seq<char>> {
    seq![
        input_read(ty, "seed"@),
        Seq::<char>::empty(),
        indent(1) + "struct packed p;"@,
        indent(1) + "p.three = (unsigned)seed & 7u;"@,
        indent(1) + "p.five = (unsigned)seed & 31u;"@,
        indent(1) + "p.thirteen = (unsigned)seed & 8191u;"@,
        Seq::<char>::empty(),
        print_line(1, Ty::U32, "p.three"@),
        print_line(1, Ty::U32, "p.five"@),
        print_line(1, Ty::U32, "p.thirteen"@),
        print_line(1, Ty::U32, "p.three + p.five + p.thirteen"@),
    ]
}

/// Whether a program is the narrowing program for a type, a shape and the operands handed in,
/// whole. The bit field shape reads one fixed seed and ignores the operands.
pub open spec fn is_narrowing_case(p: Program, ty: Ty, shape: NarrowShape, operands: Seq<i128>) -> bool {
    &&& p.purpose_text() == shape.name_text() + " arithmetic on "@ + ty.c_text()
    &&& p.include_lines() == Seq::<Seq<char>>::empty()
    &&& !p.sinks()
    &&& if shape == NarrowShape::BitField {
        &&& p.top_lines() == bit_field_top(ty)
        &&& p.body_lines() == bit_field_body(ty)
        &&& p.expected_values() == seq![7int, 7, 7, 21]
    } else {
        &&& p.top_lines() == narrow_top(ty, shape, operands)
        &&& p.body_lines() == narrow_body(ty, shape, operands)
        &&& p.expected_values() == narrow_values(ty, shape, operands)
    }
}

/// A name with a position after it.
fn slot_name(prefix: &str, at: usize) -> (r: String)
    ensures
        r@ == slot(prefix@, at as int),
{
    let mut r = String::from_str(prefix);
    let shown = decimal_string(at as i128);
    r.append(shown.as_str());
    r
}

/// The frame the block writers keep: nothing but the top, the body and the values changes.
pub open spec fn same_frame(a: Program, b: Program) -> bool {
    &&& a.purpose_text() == b.purpose_text()
    &&& a.include_lines() == b.include_lines()
    &&& a.sinks() == b.sinks()
}

proof fn lemma_narrow_facts(ty: Ty)
    requires
        is_narrow(ty),
    ensures
        ty.promotion() == Ty::I32,
        ty.contains(3) && ty.contains(5) && ty.contains(9) && ty.contains(1) && ty.contains(0),
        ty.lowest() >= -32768 && ty.highest() <= 65535,
        twin_of(ty).contains(3),
        twin_of(ty).width() == ty.width(),
{
}

/// Writes one operand of the mixed sign shape.
#[verifier::rlimit(100)]
fn mixed_block(program: &mut Program, ty: Ty, at: usize, left: i128)
    requires
        is_narrow(ty),
        ty.contains(left as int),
    ensures
        final(program).top_lines() == old(program).top_lines() + block_top(
            ty,
            NarrowShape::MixedSign,
            at as int,
            left,
        ),
        final(program).body_lines() == old(program).body_lines() + block_body(
            ty,
            NarrowShape::MixedSign,
            at as int,
            left,
        ),
        final(program).expected_values() == old(program).expected_values() + block_values(
            ty,
            NarrowShape::MixedSign,
            left,
        ),
        same_frame(*final(program), *old(program)),
{
    proof {
        lemma_narrow_facts(ty);
    }
    let name = ty.c_name();
    let other = if ty.signed() { unsigned_twin(ty) } else { signed_twin(ty) };
    assert(other == twin_of(ty));
    let a = slot_name("a", at);
    let b = slot_name("b", at);
    let sum_name = slot_name("sum", at);
    let ghost top0 = program.top_lines();
    let ghost body0 = program.body_lines();
    let ghost values0 = program.expected_values();
    program.input(ty, a.as_str(), left);
    program.input(other, b.as_str(), 3);
    let sum = eval(Op::Add, Ty::I32, left, 3);
    assert(sum is Some);
    let s = sum.unwrap();
    let mut line = String::from_str(name);
    line.append(" ");
    line.append(sum_name.as_str());
    line.append(" = (");
    line.append(name);
    line.append(")(");
    line.append(a.as_str());
    line.append(" + ");
    line.append(b.as_str());
    line.append(");");
    program.line(line.as_str());
    let v = ty.convert(s);
    program.check(ty.promoted(), sum_name.as_str(), v);
    let ghost want = block_body(ty, NarrowShape::MixedSign, at as int, left);
    assert(indent(1) + line@ =~= want[2]);
    assert(program.body_lines() =~= body0 + want);
    assert(program.top_lines() =~= top0 + block_top(ty, NarrowShape::MixedSign, at as int, left));
    assert(program.expected_values() =~= values0 + block_values(ty, NarrowShape::MixedSign, left));
}

/// Writes one operand of the divide shape.
#[verifier::rlimit(100)]
fn divide_block(program: &mut Program, ty: Ty, at: usize, left: i128)
    requires
        is_narrow(ty),
        ty.contains(left as int),
    ensures
        final(program).top_lines() == old(program).top_lines() + block_top(
            ty,
            NarrowShape::Divide,
            at as int,
            left,
        ),
        final(program).body_lines() == old(program).body_lines() + block_body(
            ty,
            NarrowShape::Divide,
            at as int,
            left,
        ),
        final(program).expected_values() == old(program).expected_values() + block_values(
            ty,
            NarrowShape::Divide,
            left,
        ),
        same_frame(*final(program), *old(program)),
{
    proof {
        lemma_narrow_facts(ty);
        crate::lang::lemma_division_stays_in_type(Ty::I32, left as int, 3);
    }
    let name = ty.c_name();
    let quotient = eval(Op::Div, ty, left, 3);
    let remainder = eval(Op::Rem, ty, left, 3);
    assert(quotient is Some && remainder is Some);
    let q = quotient.unwrap();
    let r = remainder.unwrap();
    let a = slot_name("a", at);
    let q_name = slot_name("q", at);
    let r_name = slot_name("r", at);
    let three = lit(ty, 3);
    let ghost top0 = program.top_lines();
    let ghost body0 = program.body_lines();
    let ghost values0 = program.expected_values();
    program.input(ty, a.as_str(), left);
    let mut line_q = String::from_str(name);
    line_q.append(" ");
    line_q.append(q_name.as_str());
    line_q.append(" = (");
    line_q.append(name);
    line_q.append(")(");
    line_q.append(a.as_str());
    line_q.append(" / ");
    line_q.append(three.as_str());
    line_q.append(");");
    program.line(line_q.as_str());
    let mut line_r = String::from_str(name);
    line_r.append(" ");
    line_r.append(r_name.as_str());
    line_r.append(" = (");
    line_r.append(name);
    line_r.append(")(");
    line_r.append(a.as_str());
    line_r.append(" % ");
    line_r.append(three.as_str());
    line_r.append(");");
    program.line(line_r.as_str());
    let vq = ty.convert(q);
    let vr = ty.convert(r);
    program.check(ty.promoted(), q_name.as_str(), vq);
    program.check(ty.promoted(), r_name.as_str(), vr);
    let ghost want = block_body(ty, NarrowShape::Divide, at as int, left);
    assert(indent(1) + line_q@ =~= want[1]);
    assert(indent(1) + line_r@ =~= want[2]);
    assert(program.body_lines() =~= body0 + want);
    assert(program.top_lines() =~= top0 + block_top(ty, NarrowShape::Divide, at as int, left));
    assert(program.expected_values() =~= values0 + block_values(ty, NarrowShape::Divide, left));
}

/// Writes one shift of the shift shape, when C defines it.
#[verifier::rlimit(100)]
fn shift_one(program: &mut Program, ty: Ty, at: usize, a: &str, left: i128, count: i128)
    requires
        is_narrow(ty),
        ty.contains(left as int),
        count == 3 || count == 9,
        a@ == slot("a"@, at as int),
    ensures
        final(program).top_lines() == old(program).top_lines(),
        final(program).body_lines() == old(program).body_lines() + shift_lines(
            ty,
            at as int,
            left,
            count as int,
        ),
        final(program).expected_values() == old(program).expected_values() + shift_values(
            ty,
            left,
            count as int,
        ),
        same_frame(*final(program), *old(program)),
{
    proof {
        lemma_narrow_facts(ty);
    }
    let name = ty.c_name();
    let shifted = eval(Op::Shl, ty, left, count);
    if let Some(v) = shifted {
        let shown = decimal_string(count);
        let mut s = slot_name("s", at);
        s.append("_");
        s.append(shown.as_str());
        let mut line = String::from_str(name);
        line.append(" ");
        line.append(s.as_str());
        line.append(" = (");
        line.append(name);
        line.append(")(");
        line.append(a);
        line.append(" << ");
        line.append(shown.as_str());
        line.append(");");
        let ghost body0 = program.body_lines();
        let ghost values0 = program.expected_values();
        program.line(line.as_str());
        let value = ty.convert(v);
        program.check(ty.promoted(), s.as_str(), value);
        let ghost want = shift_lines(ty, at as int, left, count as int);
        assert(indent(1) + line@ =~= want[0]);
        assert(s@ =~= slot("s"@, at as int) + "_"@ + decimal(count as int));
        assert(program.body_lines() =~= body0 + want);
        assert(program.expected_values() =~= values0 + shift_values(ty, left, count as int));
    } else {
        assert(program.body_lines() =~= program.body_lines() + shift_lines(
            ty,
            at as int,
            left,
            count as int,
        ));
        assert(program.expected_values() =~= program.expected_values() + shift_values(
            ty,
            left,
            count as int,
        ));
    }
}

/// Writes one operand of the shift shape.
#[verifier::rlimit(100)]
fn shift_block(program: &mut Program, ty: Ty, at: usize, left: i128)
    requires
        is_narrow(ty),
        ty.contains(left as int),
    ensures
        final(program).top_lines() == old(program).top_lines() + block_top(
            ty,
            NarrowShape::Shift,
            at as int,
            left,
        ),
        final(program).body_lines() == old(program).body_lines() + block_body(
            ty,
            NarrowShape::Shift,
            at as int,
            left,
        ),
        final(program).expected_values() == old(program).expected_values() + block_values(
            ty,
            NarrowShape::Shift,
            left,
        ),
        same_frame(*final(program), *old(program)),
{
    let a = slot_name("a", at);
    let ghost top0 = program.top_lines();
    let ghost body0 = program.body_lines();
    let ghost values0 = program.expected_values();
    program.input(ty, a.as_str(), left);
    shift_one(program, ty, at, a.as_str(), left, 3);
    shift_one(program, ty, at, a.as_str(), left, 9);
    assert(program.body_lines() =~= body0 + block_body(ty, NarrowShape::Shift, at as int, left));
    assert(program.top_lines() =~= top0 + block_top(ty, NarrowShape::Shift, at as int, left));
    assert(program.expected_values() =~= values0 + block_values(ty, NarrowShape::Shift, left));
}

/// Writes one operand of the round trip shape.
#[verifier::rlimit(100)]
fn round_trip_block(program: &mut Program, ty: Ty, at: usize, left: i128)
    requires
        is_narrow(ty),
        ty.contains(left as int),
    ensures
        final(program).top_lines() == old(program).top_lines() + block_top(
            ty,
            NarrowShape::RoundTrip,
            at as int,
            left,
        ),
        final(program).body_lines() == old(program).body_lines() + block_body(
            ty,
            NarrowShape::RoundTrip,
            at as int,
            left,
        ),
        final(program).expected_values() == old(program).expected_values() + block_values(
            ty,
            NarrowShape::RoundTrip,
            left,
        ),
        same_frame(*final(program), *old(program)),
{
    proof {
        lemma_narrow_facts(ty);
    }
    let name = ty.c_name();
    let a = slot_name("a", at);
    let n = slot_name("n", at);
    let w = slot_name("w", at);
    let ghost top0 = program.top_lines();
    let ghost body0 = program.body_lines();
    let ghost values0 = program.expected_values();
    program.input(ty, a.as_str(), left);
    let sum = eval(Op::Add, ty, left, 1);
    assert(sum is Some);
    let narrowed = ty.convert(sum.unwrap());
    let mut line_n = String::from_str(name);
    line_n.append(" ");
    line_n.append(n.as_str());
    line_n.append(" = (");
    line_n.append(name);
    line_n.append(")(");
    line_n.append(a.as_str());
    line_n.append(" + 1);");
    program.line(line_n.as_str());
    let mut line_w = String::from_str("int ");
    line_w.append(w.as_str());
    line_w.append(" = (int)");
    line_w.append(n.as_str());
    line_w.append(";");
    program.line(line_w.as_str());
    let mut test = String::from_str(w.as_str());
    test.append(" == ");
    let shown = decimal_string(narrowed);
    test.append(shown.as_str());
    program.check(Ty::I32, test.as_str(), 1);
    program.check(ty.promoted(), n.as_str(), narrowed);
    let ghost want = block_body(ty, NarrowShape::RoundTrip, at as int, left);
    assert(indent(1) + line_n@ =~= want[1]);
    assert(indent(1) + line_w@ =~= want[2]);
    assert(test@ =~= slot("w"@, at as int) + " == "@ + decimal(ty.wrap(left + 1)));
    assert(program.body_lines() =~= body0 + want);
    assert(program.top_lines() =~= top0 + block_top(ty, NarrowShape::RoundTrip, at as int, left));
    assert(program.expected_values() =~= values0 + block_values(ty, NarrowShape::RoundTrip, left));
}

/// Writes one operand of the wide use shape.
#[verifier::rlimit(100)]
fn wide_use_block(program: &mut Program, ty: Ty, at: usize, left: i128)
    requires
        is_narrow(ty),
        ty.contains(left as int),
    ensures
        final(program).top_lines() == old(program).top_lines() + block_top(
            ty,
            NarrowShape::WideUse,
            at as int,
            left,
        ),
        final(program).body_lines() == old(program).body_lines() + block_body(
            ty,
            NarrowShape::WideUse,
            at as int,
            left,
        ),
        final(program).expected_values() == old(program).expected_values() + block_values(
            ty,
            NarrowShape::WideUse,
            left,
        ),
        same_frame(*final(program), *old(program)),
{
    proof {
        lemma_narrow_facts(ty);
    }
    let a = slot_name("a", at);
    let w = slot_name("w", at);
    let ghost top0 = program.top_lines();
    let ghost body0 = program.body_lines();
    let ghost values0 = program.expected_values();
    program.input(ty, a.as_str(), left);
    let top = ty.max();
    let sum = eval(Op::Add, ty, left, top);
    assert(sum is Some);
    let mut line = String::from_str("int ");
    line.append(w.as_str());
    line.append(" = ");
    line.append(a.as_str());
    line.append(" + ");
    let literal = lit(ty, top);
    line.append(literal.as_str());
    line.append(";");
    program.line(line.as_str());
    program.check(Ty::I32, w.as_str(), sum.unwrap());
    let ghost want = block_body(ty, NarrowShape::WideUse, at as int, left);
    assert(indent(1) + line@ =~= want[1]);
    assert(program.body_lines() =~= body0 + want);
    assert(program.top_lines() =~= top0 + block_top(ty, NarrowShape::WideUse, at as int, left));
    assert(program.expected_values() =~= values0 + block_values(ty, NarrowShape::WideUse, left));
}

/// Writes one operator of the stored back shape.
#[verifier::rlimit(100)]
fn stored_one(program: &mut Program, ty: Ty, at: usize, a: &str, left: i128, op: Op)
    requires
        is_narrow(ty),
        ty.contains(left as int),
        a@ == slot("a"@, at as int),
        stored_ops().contains(op),
    ensures
        final(program).top_lines() == old(program).top_lines(),
        final(program).body_lines() == old(program).body_lines() + stored_lines(
            ty,
            at as int,
            op,
        ),
        final(program).expected_values() == old(program).expected_values().push(
            ty.wrap(c_value(op, ty, left, 5)->0),
        ),
        c_value(op, ty, left, 5) is Some,
        same_frame(*final(program), *old(program)),
{
    proof {
        lemma_narrow_facts(ty);
    }
    let name = ty.c_name();
    let value = eval(op, ty, left, 5);
    assert(value is Some) by {
        assert(-32768 * 5 <= left * 5 <= 65535 * 5) by (nonlinear_arith)
            requires
                -32768 <= left <= 65535,
        ;
    }
    let mut v = slot_name("v", at);
    v.append("_");
    v.append(op.name());
    let mut line = String::from_str(name);
    line.append(" ");
    line.append(v.as_str());
    line.append(" = (");
    line.append(name);
    line.append(")(");
    line.append(a);
    line.append(" ");
    line.append(op.spelling());
    line.append(" ");
    let five = lit(ty, 5);
    line.append(five.as_str());
    line.append(");");
    let ghost body0 = program.body_lines();
    program.line(line.as_str());
    program.check(ty.promoted(), v.as_str(), ty.convert(value.unwrap()));
    let ghost want = stored_lines(ty, at as int, op);
    assert(indent(1) + line@ =~= want[0]);
    assert(v@ =~= slot("v"@, at as int) + "_"@ + op.name_text());
    assert(program.body_lines() =~= body0 + want);
}

/// Writes one operand of the stored back shape.
#[verifier::rlimit(100)]
fn stored_block(program: &mut Program, ty: Ty, at: usize, left: i128)
    requires
        is_narrow(ty),
        ty.contains(left as int),
    ensures
        final(program).top_lines() == old(program).top_lines() + block_top(
            ty,
            NarrowShape::StoredBack,
            at as int,
            left,
        ),
        final(program).body_lines() == old(program).body_lines() + block_body(
            ty,
            NarrowShape::StoredBack,
            at as int,
            left,
        ),
        final(program).expected_values() == old(program).expected_values() + block_values(
            ty,
            NarrowShape::StoredBack,
            left,
        ),
        same_frame(*final(program), *old(program)),
{
    let a = slot_name("a", at);
    let ghost top0 = program.top_lines();
    let ghost body0 = program.body_lines();
    let ghost values0 = program.expected_values();
    program.input(ty, a.as_str(), left);
    assert(stored_ops().contains(Op::Add) && stored_ops().contains(Op::Sub) && stored_ops().contains(Op::Mul)) by {
        assert(stored_ops()[0] == Op::Add && stored_ops()[1] == Op::Sub && stored_ops()[2] == Op::Mul);
    }
    assert(stored_ops().contains(Op::And) && stored_ops().contains(Op::Or) && stored_ops().contains(Op::Xor)) by {
        assert(stored_ops()[3] == Op::And && stored_ops()[4] == Op::Or && stored_ops()[5] == Op::Xor);
    }
    stored_one(program, ty, at, a.as_str(), left, Op::Add);
    stored_one(program, ty, at, a.as_str(), left, Op::Sub);
    stored_one(program, ty, at, a.as_str(), left, Op::Mul);
    stored_one(program, ty, at, a.as_str(), left, Op::And);
    stored_one(program, ty, at, a.as_str(), left, Op::Or);
    stored_one(program, ty, at, a.as_str(), left, Op::Xor);
    program.blank();
    assert(program.body_lines() =~= body0 + block_body(ty, NarrowShape::StoredBack, at as int, left));
    assert(program.top_lines() =~= top0 + block_top(ty, NarrowShape::StoredBack, at as int, left));
    assert(program.expected_values() =~= values0 + block_values(ty, NarrowShape::StoredBack, left));
}

/// Writes one operand of a shape.
#[verifier::rlimit(100)]
fn narrow_block(program: &mut Program, ty: Ty, shape: NarrowShape, at: usize, left: i128)
    requires
        is_narrow(ty),
        ty.contains(left as int),
        shape != NarrowShape::BitField,
    ensures
        final(program).top_lines() == old(program).top_lines() + block_top(
            ty,
            shape,
            at as int,
            left,
        ),
        final(program).body_lines() == old(program).body_lines() + block_body(
            ty,
            shape,
            at as int,
            left,
        ),
        final(program).expected_values() == old(program).expected_values() + block_values(
            ty,
            shape,
            left,
        ),
        same_frame(*final(program), *old(program)),
{
    match shape {
        NarrowShape::MixedSign => mixed_block(program, ty, at, left),
        NarrowShape::Divide => divide_block(program, ty, at, left),
        NarrowShape::Shift => shift_block(program, ty, at, left),
        NarrowShape::RoundTrip => round_trip_block(program, ty, at, left),
        NarrowShape::WideUse => wide_use_block(program, ty, at, left),
        _ => stored_block(program, ty, at, left),
    }
}

/// Arithmetic on a type narrower than `int`, in one of the shapes a narrowing pass has to tell
/// apart, on each operand handed in.
#[verifier::rlimit(100)]
pub fn narrowing_case(ty: Ty, shape: NarrowShape, operands: &[i128]) -> (p: Program)
    requires
        is_narrow(ty),
        all_in(ty, operands@),
    ensures
        is_narrowing_case(p, ty, shape, operands@),
{
    let name = ty.c_name();
    let mut purpose = String::from_str(shape.name());
    purpose.append(" arithmetic on ");
    purpose.append(name);
    let mut program = Program::new(purpose.as_str());
    if shape == NarrowShape::BitField {
        program.top("struct packed { unsigned three : 3; unsigned five : 5; unsigned thirteen : 13; };");
        program.input(ty, "seed", 7);
        program.blank();
        program.line("struct packed p;");
        program.line("p.three = (unsigned)seed & 7u;");
        program.line("p.five = (unsigned)seed & 31u;");
        program.line("p.thirteen = (unsigned)seed & 8191u;");
        program.blank();
        program.check(Ty::U32, "p.three", 7);
        program.check(Ty::U32, "p.five", 7);
        program.check(Ty::U32, "p.thirteen", 7);
        program.check(Ty::U32, "p.three + p.five + p.thirteen", 21);
        assert(program.top_lines() =~= bit_field_top(ty));
        assert(program.body_lines() =~= bit_field_body(ty));
        assert(program.expected_values() =~= seq![7int, 7, 7, 21]);
        return program;
    }
    let mut at: usize = 0;
    assert(operands@.take(0) =~= Seq::<i128>::empty());
    while at < operands.len()
        invariant
            at <= operands@.len(),
            is_narrow(ty),
            all_in(ty, operands@),
            shape != NarrowShape::BitField,
            program.purpose_text() == shape.name_text() + " arithmetic on "@ + ty.c_text(),
            program.include_lines() == Seq::<Seq<char>>::empty(),
            !program.sinks(),
            program.top_lines() == narrow_top(ty, shape, operands@.take(at as int)),
            program.body_lines() == narrow_body(ty, shape, operands@.take(at as int)),
            program.expected_values() == narrow_values(ty, shape, operands@.take(at as int)),
        decreases operands@.len() - at,
    {
        let left = operands[at];
        assert(ty.contains(operands@[at as int] as int));
        narrow_block(&mut program, ty, shape, at, left);
        let ghost next = operands@.take(at + 1);
        assert(next.drop_last() =~= operands@.take(at as int));
        assert(next.last() == left);
        at += 1;
    }
    assert(operands@.take(operands@.len() as int) =~= operands@);
    program
}

} // verus!
