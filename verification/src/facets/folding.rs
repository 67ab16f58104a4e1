//! Folding, strength reduction and the algebraic identities: the rewrites of one expression
//! whose operands are literals, or an unknown and a literal.
//!
//! The operands each program is about are handed in: which values of a type are worth trying
//! is a table of the corpus, and these functions lay out whatever the table holds.

use vstd::prelude::*;
use vstd::string::*;
use crate::emit::{Program, input_global, input_read, print_line};
use crate::lang::{Ty, Op, c_value, eval, result_ty, result_type};
use crate::text::{decimal, decimal_string};
use crate::facets::{all_ones, lit, lit_text};

verus! {

/// The expression a folding check prints: the operator applied to literals of the type, and
/// a shift's count written as a plain number.
pub open spec fn fold_expr(ty: Ty, op: Op, l: i128, r: i128) -> Seq<char> {
    if op.unary() {
        op.spelling_text() + "("@ + lit_text(ty, l as int) + ")"@
    } else if op.shift() {
        "("@ + lit_text(ty, l as int) + ") "@ + op.spelling_text() + " "@ + decimal(r as int)
    } else {
        "("@ + lit_text(ty, l as int) + ") "@ + op.spelling_text() + " ("@ + lit_text(
            ty,
            r as int,
        ) + ")"@
    }
}

/// Whether a pair is folded: a unary operator is applied once per left operand, with the first
/// left operand standing in as the unused right one, and a pair whose answer C does not define
/// is left out.
pub open spec fn folds(ty: Ty, op: Op, l: i128, r: i128, first: i128) -> bool {
    !(op.unary() && r != first) && c_value(op, ty, l, r) is Some
}

/// The checks for one left operand against each right one: the printed line and its value.
pub open spec fn fold_row(ty: Ty, op: Op, l: i128, rights: Seq<i128>, first: i128) -> Seq<
    (Seq<char>, int),
>
    decreases rights.len(),
{
    if rights.len() == 0 {
        Seq::empty()
    } else {
        let before = fold_row(ty, op, l, rights.drop_last(), first);
        let r = rights.last();
        if folds(ty, op, l, r, first) {
            before.push(
                (
                    print_line(1, result_type(op, ty), fold_expr(ty, op, l, r)),
                    c_value(op, ty, l, r)->0,
                ),
            )
        } else {
            before
        }
    }
}

/// The checks for every left operand, in order.
pub open spec fn fold_grid(ty: Ty, op: Op, lefts: Seq<i128>, rights: Seq<i128>, first: i128) -> Seq<
    (Seq<char>, int),
>
    decreases lefts.len(),
{
    if lefts.len() == 0 {
        Seq::empty()
    } else {
        fold_grid(ty, op, lefts.drop_last(), rights, first) + fold_row(
            ty,
            op,
            lefts.last(),
            rights,
            first,
        )
    }
}

/// The lines of a list of checks.
pub open spec fn check_lines(checks: Seq<(Seq<char>, int)>) -> Seq<Seq<char>> {
    checks.map_values(|c: (Seq<char>, int)| c.0)
}

/// The values of a list of checks.
pub open spec fn check_values(checks: Seq<(Seq<char>, int)>) -> Seq<int> {
    checks.map_values(|c: (Seq<char>, int)| c.1)
}

proof fn lemma_checks_add(a: Seq<(Seq<char>, int)>, b: Seq<(Seq<char>, int)>)
    ensures
        check_lines(a + b) == check_lines(a) + check_lines(b),
        check_values(a + b) == check_values(a) + check_values(b),
{
    assert(check_lines(a + b) =~= check_lines(a) + check_lines(b));
    assert(check_values(a + b) =~= check_values(a) + check_values(b));
}

/// Whether every value is one of the type's.
pub open spec fn all_in(ty: Ty, values: Seq<i128>) -> bool {
    forall|i: int| 0 <= i < values.len() ==> ty.contains(#[trigger] values[i] as int)
}

/// Whether a program is the folding program for a type, an operator and the operands handed
/// in, whole: one check per defined pair, each printing the expression and expecting what C
/// gives for it.
pub open spec fn is_fold_case(p: Program, ty: Ty, op: Op, lefts: Seq<i128>, rights: Seq<i128>) -> bool {
    let grid = fold_grid(ty, op, lefts, rights, if lefts.len() > 0 { lefts[0] } else { 0 });
    &&& p.purpose_text() == "fold "@ + op.name_text() + " on "@ + ty.c_text() + " operands"@
    &&& p.include_lines() == Seq::<Seq<char>>::empty()
    &&& p.top_lines() == Seq::<Seq<char>>::empty()
    &&& p.body_lines() == check_lines(grid)
    &&& p.expected_values() == check_values(grid)
    &&& !p.sinks()
}

/// The expression a folding check prints.
fn fold_expression(ty: Ty, op: Op, l: i128, r: i128) -> (s: String)
    ensures
        s@ == fold_expr(ty, op, l, r),
{
    let left = lit(ty, l);
    if op.is_unary() {
        let mut s = String::from_str(op.spelling());
        s.append("(");
        s.append(left.as_str());
        s.append(")");
        s
    } else if op.is_shift() {
        let mut s = String::from_str("(");
        s.append(left.as_str());
        s.append(") ");
        s.append(op.spelling());
        s.append(" ");
        let count = decimal_string(r);
        s.append(count.as_str());
        s
    } else {
        let right = lit(ty, r);
        let mut s = String::from_str("(");
        s.append(left.as_str());
        s.append(") ");
        s.append(op.spelling());
        s.append(" (");
        s.append(right.as_str());
        s.append(")");
        s
    }
}

/// Every operation on every pair of literal operands, packed into one program per type and
/// operator: a wrong answer still names the operation and the operands, because they are in
/// the source next to the line.
pub fn constant_fold_case(ty: Ty, op: Op, lefts: &[i128], rights: &[i128]) -> (p: Program)
    requires
        all_in(ty, lefts@),
        all_in(ty, rights@),
    ensures
        is_fold_case(p, ty, op, lefts@, rights@),
{
    let mut purpose = String::from_str("fold ");
    purpose.append(op.name());
    purpose.append(" on ");
    purpose.append(ty.c_name());
    purpose.append(" operands");
    let mut program = Program::new(purpose.as_str());
    let out = result_ty(op, ty);
    let first: i128 = if lefts.len() > 0 { lefts[0] } else { 0 };
    let ghost all = fold_grid(ty, op, lefts@, rights@, first);
    let mut i: usize = 0;
    assert(lefts@.take(0) =~= Seq::<i128>::empty());
    assert(check_lines(Seq::<(Seq<char>, int)>::empty()) =~= Seq::<Seq<char>>::empty());
    assert(check_values(Seq::<(Seq<char>, int)>::empty()) =~= Seq::<int>::empty());
    while i < lefts.len()
        invariant
            i <= lefts@.len(),
            all_in(ty, lefts@),
            all_in(ty, rights@),
            out == result_type(op, ty),
            first == (if lefts@.len() > 0 { lefts@[0] } else { 0 }),
            program.purpose_text() == "fold "@ + op.name_text() + " on "@ + ty.c_text()
                + " operands"@,
            program.include_lines() == Seq::<Seq<char>>::empty(),
            program.top_lines() == Seq::<Seq<char>>::empty(),
            program.body_lines() == check_lines(
                fold_grid(ty, op, lefts@.take(i as int), rights@, first),
            ),
            program.expected_values() == check_values(
                fold_grid(ty, op, lefts@.take(i as int), rights@, first),
            ),
            !program.sinks(),
        decreases lefts@.len() - i,
    {
        let l = lefts[i];
        assert(ty.contains(lefts@[i as int] as int));
        let ghost done = fold_grid(ty, op, lefts@.take(i as int), rights@, first);
        let mut j: usize = 0;
        assert(rights@.take(0) =~= Seq::<i128>::empty());
        assert(done + Seq::<(Seq<char>, int)>::empty() =~= done);
        while j < rights.len()
            invariant
                j <= rights@.len(),
                all_in(ty, rights@),
                ty.contains(l as int),
                out == result_type(op, ty),
                program.purpose_text() == "fold "@ + op.name_text() + " on "@ + ty.c_text()
                    + " operands"@,
                program.include_lines() == Seq::<Seq<char>>::empty(),
                program.top_lines() == Seq::<Seq<char>>::empty(),
                program.body_lines() == check_lines(
                    done + fold_row(ty, op, l, rights@.take(j as int), first),
                ),
                program.expected_values() == check_values(
                    done + fold_row(ty, op, l, rights@.take(j as int), first),
                ),
                !program.sinks(),
            decreases rights@.len() - j,
        {
            let r = rights[j];
            assert(ty.contains(rights@[j as int] as int));
            let ghost before = done + fold_row(ty, op, l, rights@.take(j as int), first);
            assert(rights@.take(j + 1).drop_last() =~= rights@.take(j as int));
            let skip = op.is_unary() && r != first;
            if !skip {
                let v = eval(op, ty, l, r);
                if let Some(value) = v {
                    let expr = fold_expression(ty, op, l, r);
                    program.check(out, expr.as_str(), value);
                    let ghost entry = (
                        print_line(1, result_type(op, ty), fold_expr(ty, op, l, r)),
                        c_value(op, ty, l, r)->0,
                    );
                    assert(done + fold_row(ty, op, l, rights@.take(j + 1), first) =~= before.push(
                        entry,
                    ));
                    assert(check_lines(before.push(entry)) =~= check_lines(before).push(entry.0));
                    assert(check_values(before.push(entry)) =~= check_values(before).push(entry.1));
                } else {
                    assert(done + fold_row(ty, op, l, rights@.take(j + 1), first) =~= before);
                }
            } else {
                assert(done + fold_row(ty, op, l, rights@.take(j + 1), first) =~= before);
            }
            j += 1;
        }
        assert(rights@.take(rights@.len() as int) =~= rights@);
        assert(lefts@.take(i + 1).drop_last() =~= lefts@.take(i as int));
        assert(lefts@.take(i + 1).last() == l);
        i += 1;
    }
    assert(lefts@.take(lefts@.len() as int) =~= lefts@);
    program
}

/// The constants a compiler is expected to multiply or divide by more cheaply.
pub open spec fn strength_constants() -> Seq<i128> {
    seq![1i128, 2, 3, 4, 5, 7, 8, 10, 16, 64, 100, 255, 1000, 1024]
}

/// The name of the unknown at a position.
pub open spec fn unknown_name(at: int) -> Seq<char> {
    "x"@ + decimal(at)
}

/// The checks on one unknown: each constant the type holds and that gives a defined answer.
pub open spec fn strength_row(ty: Ty, op: Op, at: int, operand: i128, cs: Seq<i128>) -> Seq<
    (Seq<char>, int),
>
    decreases cs.len(),
{
    if cs.len() == 0 {
        Seq::empty()
    } else {
        let before = strength_row(ty, op, at, operand, cs.drop_last());
        let c = cs.last();
        if ty.contains(c as int) && c_value(op, ty, operand, c) is Some {
            before.push(
                (
                    print_line(
                        1,
                        result_type(op, ty),
                        unknown_name(at) + " "@ + op.spelling_text() + " ("@ + lit_text(
                            ty,
                            c as int,
                        ) + ")"@,
                    ),
                    c_value(op, ty, operand, c)->0,
                ),
            )
        } else {
            before
        }
    }
}

/// The checks on the unknown at a position.
pub open spec fn strength_checks(ty: Ty, op: Op, at: int, operand: i128) -> Seq<(Seq<char>, int)> {
    strength_row(ty, op, at, operand, strength_constants())
}

/// What the unknowns before position `n` declare before `main`: one opaque global each, for
/// those with at least one check.
pub open spec fn strength_top(ty: Ty, op: Op, operands: Seq<i128>) -> Seq<Seq<char>>
    decreases operands.len(),
{
    if operands.len() == 0 {
        Seq::empty()
    } else {
        let at = operands.len() - 1;
        strength_top(ty, op, operands.drop_last()) + if strength_checks(
            ty,
            op,
            at,
            operands.last(),
        ).len() > 0 {
            seq![input_global(ty, unknown_name(at), operands.last() as int)]
        } else {
            Seq::empty()
        }
    }
}

/// The statements in `main`: for each unknown with a check, its read, its checks and a blank
/// line.
pub open spec fn strength_body(ty: Ty, op: Op, operands: Seq<i128>) -> Seq<Seq<char>>
    decreases operands.len(),
{
    if operands.len() == 0 {
        Seq::empty()
    } else {
        let at = operands.len() - 1;
        let checks = strength_checks(ty, op, at, operands.last());
        strength_body(ty, op, operands.drop_last()) + if checks.len() > 0 {
            seq![input_read(ty, unknown_name(at))] + check_lines(checks) + seq![
                Seq::<char>::empty(),
            ]
        } else {
            Seq::empty()
        }
    }
}

/// What the program prints, in order.
pub open spec fn strength_values(ty: Ty, op: Op, operands: Seq<i128>) -> Seq<int>
    decreases operands.len(),
{
    if operands.len() == 0 {
        Seq::empty()
    } else {
        strength_values(ty, op, operands.drop_last()) + check_values(
            strength_checks(ty, op, operands.len() - 1, operands.last()),
        )
    }
}

/// Whether a program is the strength reduction program for a type, an operator and the
/// unknowns handed in, whole.
pub open spec fn is_strength_case(p: Program, ty: Ty, op: Op, operands: Seq<i128>) -> bool {
    &&& p.purpose_text() == op.name_text() + " of an unknown "@ + ty.c_text() + " by a constant"@
    &&& p.include_lines() == Seq::<Seq<char>>::empty()
    &&& p.top_lines() == strength_top(ty, op, operands)
    &&& p.body_lines() == strength_body(ty, op, operands)
    &&& p.expected_values() == strength_values(ty, op, operands)
    &&& !p.sinks()
}

/// An unknown operand multiplied or divided by each constant a compiler is expected to turn
/// into something cheaper. Nothing folds; what is checked is that the cheaper form gives the
/// same answer for every operand, the extremes included.
pub fn strength_case(ty: Ty, op: Op, operands: &[i128]) -> (p: Program)
    requires
        all_in(ty, operands@),
    ensures
        is_strength_case(p, ty, op, operands@),
{
    let constants: [i128; 14] = [1, 2, 3, 4, 5, 7, 8, 10, 16, 64, 100, 255, 1000, 1024];
    assert(constants@ =~= strength_constants());
    let mut purpose = String::from_str(op.name());
    purpose.append(" of an unknown ");
    purpose.append(ty.c_name());
    purpose.append(" by a constant");
    let mut program = Program::new(purpose.as_str());
    let out = result_ty(op, ty);
    let sp = op.spelling();
    let mut at: usize = 0;
    assert(operands@.take(0) =~= Seq::<i128>::empty());
    while at < operands.len()
        invariant
            at <= operands@.len(),
            all_in(ty, operands@),
            out == result_type(op, ty),
            sp@ == op.spelling_text(),
            constants@ == strength_constants(),
            program.purpose_text() == op.name_text() + " of an unknown "@ + ty.c_text()
                + " by a constant"@,
            program.include_lines() == Seq::<Seq<char>>::empty(),
            program.top_lines() == strength_top(ty, op, operands@.take(at as int)),
            program.body_lines() == strength_body(ty, op, operands@.take(at as int)),
            program.expected_values() == strength_values(ty, op, operands@.take(at as int)),
            !program.sinks(),
        decreases operands@.len() - at,
    {
        let operand = operands[at];
        assert(ty.contains(operands@[at as int] as int));
        let mut name = String::from_str("x");
        let shown = decimal_string(at as i128);
        name.append(shown.as_str());
        let ghost top0 = program.top_lines();
        let ghost body0 = program.body_lines();
        let ghost values0 = program.expected_values();
        let mut emitted = false;
        let mut k: usize = 0;
        assert(constants@.take(0) =~= Seq::<i128>::empty());
        while k < 14
            invariant
                k <= 14,
                ty.contains(operand as int),
                name@ == unknown_name(at as int),
                out == result_type(op, ty),
                sp@ == op.spelling_text(),
                constants@ == strength_constants(),
                emitted == (strength_row(ty, op, at as int, operand, constants@.take(k as int)).len()
                    > 0),
                program.purpose_text() == op.name_text() + " of an unknown "@ + ty.c_text()
                    + " by a constant"@,
                program.include_lines() == Seq::<Seq<char>>::empty(),
                !program.sinks(),
                program.top_lines() == top0 + if emitted {
                    seq![input_global(ty, unknown_name(at as int), operand as int)]
                } else {
                    Seq::<Seq<char>>::empty()
                },
                program.body_lines() == body0 + if emitted {
                    seq![input_read(ty, unknown_name(at as int))] + check_lines(
                        strength_row(ty, op, at as int, operand, constants@.take(k as int)),
                    )
                } else {
                    Seq::<Seq<char>>::empty()
                },
                program.expected_values() == values0 + check_values(
                    strength_row(ty, op, at as int, operand, constants@.take(k as int)),
                ),
            decreases 14 - k,
        {
            let c = constants[k];
            let ghost row = strength_row(ty, op, at as int, operand, constants@.take(k as int));
            assert(constants@.take(k + 1).drop_last() =~= constants@.take(k as int));
            if ty.holds(c) {
                let v = eval(op, ty, operand, c);
                if let Some(value) = v {
                    if !emitted {
                        program.input(ty, name.as_str(), operand);
                        emitted = true;
                        assert(check_lines(row) =~= Seq::<Seq<char>>::empty());
                    }
                    let mut expr = String::from_str(name.as_str());
                    expr.append(" ");
                    expr.append(sp);
                    expr.append(" (");
                    let literal = lit(ty, c);
                    expr.append(literal.as_str());
                    expr.append(")");
                    let ghost before_body = program.body_lines();
                    program.check(out, expr.as_str(), value);
                    let ghost entry = (
                        print_line(
                            1,
                            result_type(op, ty),
                            unknown_name(at as int) + " "@ + op.spelling_text() + " ("@
                                + lit_text(ty, c as int) + ")"@,
                        ),
                        c_value(op, ty, operand, c)->0,
                    );
                    assert(expr@ =~= unknown_name(at as int) + " "@ + op.spelling_text() + " ("@
                        + lit_text(ty, c as int) + ")"@);
                    assert(strength_row(ty, op, at as int, operand, constants@.take(k + 1))
                        =~= row.push(entry));
                    assert(check_lines(row.push(entry)) =~= check_lines(row).push(entry.0));
                    assert(check_values(row.push(entry)) =~= check_values(row).push(entry.1));
                    assert(program.body_lines() =~= body0 + (seq![
                        input_read(ty, unknown_name(at as int)),
                    ] + check_lines(row.push(entry))));
                    assert(program.expected_values() =~= values0 + check_values(row.push(entry)));
                } else {
                    assert(strength_row(ty, op, at as int, operand, constants@.take(k + 1))
                        =~= row);
                }
            } else {
                assert(strength_row(ty, op, at as int, operand, constants@.take(k + 1)) =~= row);
            }
            k += 1;
        }
        assert(constants@.take(14) =~= constants@);
        let ghost checks = strength_checks(ty, op, at as int, operand);
        if emitted {
            program.blank();
        }
        let ghost prefix = operands@.take(at as int);
        let ghost next = operands@.take(at + 1);
        assert(next.drop_last() =~= prefix);
        assert(next.last() == operand);
        assert(next.len() - 1 == at);
        if emitted {
            assert(program.body_lines() =~= body0 + (seq![input_read(ty, unknown_name(at as int))]
                + check_lines(checks) + seq![Seq::<char>::empty()]));
        } else {
            assert(program.body_lines() =~= body0 + Seq::<Seq<char>>::empty());
            assert(check_values(checks) =~= Seq::<int>::empty());
        }
        assert(program.top_lines() == strength_top(ty, op, next));
        assert(program.body_lines() == strength_body(ty, op, next));
        assert(program.expected_values() == strength_values(ty, op, next));
        at += 1;
    }
    assert(operands@.take(operands@.len() as int) =~= operands@);
    program
}


/// The value of `~~x`: the complement taken twice, each in the promoted type.
pub open spec fn double_not(ty: Ty, operand: i128) -> Option<int> {
    match c_value(Op::Not, ty, operand, 0) {
        Some(v) => c_value(Op::Not, ty.promotion(), v as i128, 0),
        None => None,
    }
}

/// A check that is written only when its value is defined.
pub open spec fn check_when(out: Ty, expr: Seq<char>, value: Option<int>) -> Seq<(Seq<char>, int)> {
    match value {
        Some(v) => seq![(print_line(1, out, expr), v)],
        None => Seq::empty(),
    }
}

/// A value in `i128` as an integer.
pub open spec fn widened(v: Option<i128>) -> Option<int> {
    match v {
        Some(x) => Some(x as int),
        None => None,
    }
}

/// The identities checked on one unknown, in order, those whose value C defines.
pub open spec fn identity_checks(ty: Ty, at: int, operand: i128) -> Seq<(Seq<char>, int)> {
    identity_part_1(ty, at, operand) + identity_part_2(ty, at, operand)
        + identity_part_3(ty, at, operand) + identity_part_4(ty, at, operand)
}

/// Identities 1 to 5 of one unknown.
pub open spec fn identity_part_1(ty: Ty, at: int, operand: i128) -> Seq<(Seq<char>, int)> {
    let x = unknown_name(at);
    let w = ty.promotion();
    let ones = all_ones_of(ty);
    check_when(w, x + " + "@ + lit_text(ty, 0), c_value(Op::Add, ty, operand, 0i128))
        + check_when(w, x + " - "@ + lit_text(ty, 0), c_value(Op::Sub, ty, operand, 0i128))
        + check_when(w, x + " * "@ + lit_text(ty, 1), c_value(Op::Mul, ty, operand, 1i128))
        + check_when(w, x + " * "@ + lit_text(ty, 0), c_value(Op::Mul, ty, operand, 0i128))
        + check_when(w, x + " / "@ + lit_text(ty, 1), c_value(Op::Div, ty, operand, 1i128))
}

/// Identities 6 to 10 of one unknown.
pub open spec fn identity_part_2(ty: Ty, at: int, operand: i128) -> Seq<(Seq<char>, int)> {
    let x = unknown_name(at);
    let w = ty.promotion();
    let ones = all_ones_of(ty);
    check_when(w, x + " % "@ + lit_text(ty, 1), c_value(Op::Rem, ty, operand, 1i128))
        + check_when(w, x + " & "@ + x, c_value(Op::And, ty, operand, operand))
        + check_when(w, x + " | "@ + x, c_value(Op::Or, ty, operand, operand))
        + check_when(w, x + " ^ "@ + x, c_value(Op::Xor, ty, operand, operand))
        + check_when(w, x + " - "@ + x, c_value(Op::Sub, ty, operand, operand))
}

/// Identities 11 to 15 of one unknown.
pub open spec fn identity_part_3(ty: Ty, at: int, operand: i128) -> Seq<(Seq<char>, int)> {
    let x = unknown_name(at);
    let w = ty.promotion();
    let ones = all_ones_of(ty);
    check_when(w, x + " & "@ + lit_text(ty, 0), c_value(Op::And, ty, operand, 0i128))
        + check_when(w, x + " | "@ + lit_text(ty, ones as int), c_value(Op::Or, ty, operand, ones))
        + check_when(w, x + " & "@ + lit_text(ty, ones as int), c_value(Op::And, ty, operand, ones))
        + check_when(w, x + " ^ "@ + lit_text(ty, 0), c_value(Op::Xor, ty, operand, 0i128))
        + check_when(w, x + " << 0"@, c_value(Op::Shl, ty, operand, 0i128))
}

/// Identities 16 to 19 of one unknown.
pub open spec fn identity_part_4(ty: Ty, at: int, operand: i128) -> Seq<(Seq<char>, int)> {
    let x = unknown_name(at);
    let w = ty.promotion();
    let ones = all_ones_of(ty);
    check_when(w, x + " >> 0"@, c_value(Op::Shr, ty, operand, 0i128))
        + check_when(w, "~~"@ + x, double_not(ty, operand))
        + check_when(Ty::I32, x + " == "@ + x, Some(1))
        + check_when(Ty::I32, x + " < "@ + x, Some(0))
}

/// The value with every bit set that the type holds.
pub open spec fn all_ones_of(ty: Ty) -> i128 {
    if ty.is_signed() {
        -1i128
    } else {
        ty.highest() as i128
    }
}

/// Writes a check when its value is defined.
fn check_defined(program: &mut Program, out: Ty, expr: &str, value: Option<i128>)
    ensures
        final(program).body_lines() == old(program).body_lines() + check_lines(
            check_when(out, expr@, widened(value)),
        ),
        final(program).expected_values() == old(program).expected_values() + check_values(
            check_when(out, expr@, widened(value)),
        ),
        final(program).purpose_text() == old(program).purpose_text(),
        final(program).include_lines() == old(program).include_lines(),
        final(program).top_lines() == old(program).top_lines(),
        final(program).sinks() == old(program).sinks(),
{
    match value {
        Some(v) => {
            program.check(out, expr, v);
            assert(check_lines(check_when(out, expr@, widened(value))) =~= seq![
                print_line(1, out, expr@),
            ]);
            assert(check_values(check_when(out, expr@, widened(value))) =~= seq![v as int]);
        },
        None => {
            assert(program.body_lines() =~= program.body_lines() + check_lines(
                check_when(out, expr@, widened(value)),
            ));
            assert(program.expected_values() =~= program.expected_values() + check_values(
                check_when(out, expr@, widened(value)),
            ));
        },
    }
}


/// Writes identities 1 to 5 of one unknown, read from the variable `x`.
#[verifier::rlimit(100)]
fn identities_1(program: &mut Program, ty: Ty, at: usize, x: &str, operand: i128)
    requires
        ty.contains(operand as int),
        x@ == unknown_name(at as int),
    ensures
        final(program).body_lines() == old(program).body_lines() + check_lines(
            identity_part_1(ty, at as int, operand),
        ),
        final(program).expected_values() == old(program).expected_values() + check_values(
            identity_part_1(ty, at as int, operand),
        ),
        final(program).purpose_text() == old(program).purpose_text(),
        final(program).include_lines() == old(program).include_lines(),
        final(program).top_lines() == old(program).top_lines(),
        final(program).sinks() == old(program).sinks(),
{
    let ghost body0 = program.body_lines();
    let ghost values0 = program.expected_values();
    let w = ty.promoted();
    let ones = all_ones(ty);
    assert(ones == all_ones_of(ty));
    assert(ty.contains(0) && ty.contains(1));
    let ghost mut acc = Seq::<(Seq<char>, int)>::empty();
    {
        let mut e = String::from_str(x);
        e.append(" + ");
        let literal = lit(ty, 0);
        e.append(literal.as_str());
        let v = eval(Op::Add, ty, operand, 0);
        assert(widened(v) == c_value(Op::Add, ty, operand, 0i128));
        let ghost added = check_when(w, e@, widened(v));
        check_defined(program, w, e.as_str(), v);
        proof {
            assert(check_lines(acc + added) =~= check_lines(acc) + check_lines(added));
            assert(check_values(acc + added) =~= check_values(acc) + check_values(added));
            acc = acc + added;
        }
    }
    {
        let mut e = String::from_str(x);
        e.append(" - ");
        let literal = lit(ty, 0);
        e.append(literal.as_str());
        let v = eval(Op::Sub, ty, operand, 0);
        assert(widened(v) == c_value(Op::Sub, ty, operand, 0i128));
        let ghost added = check_when(w, e@, widened(v));
        check_defined(program, w, e.as_str(), v);
        proof {
            assert(check_lines(acc + added) =~= check_lines(acc) + check_lines(added));
            assert(check_values(acc + added) =~= check_values(acc) + check_values(added));
            acc = acc + added;
        }
    }
    {
        let mut e = String::from_str(x);
        e.append(" * ");
        let literal = lit(ty, 1);
        e.append(literal.as_str());
        let v = eval(Op::Mul, ty, operand, 1);
        assert(widened(v) == c_value(Op::Mul, ty, operand, 1i128));
        let ghost added = check_when(w, e@, widened(v));
        check_defined(program, w, e.as_str(), v);
        proof {
            assert(check_lines(acc + added) =~= check_lines(acc) + check_lines(added));
            assert(check_values(acc + added) =~= check_values(acc) + check_values(added));
            acc = acc + added;
        }
    }
    {
        let mut e = String::from_str(x);
        e.append(" * ");
        let literal = lit(ty, 0);
        e.append(literal.as_str());
        let v = eval(Op::Mul, ty, operand, 0);
        assert(widened(v) == c_value(Op::Mul, ty, operand, 0i128));
        let ghost added = check_when(w, e@, widened(v));
        check_defined(program, w, e.as_str(), v);
        proof {
            assert(check_lines(acc + added) =~= check_lines(acc) + check_lines(added));
            assert(check_values(acc + added) =~= check_values(acc) + check_values(added));
            acc = acc + added;
        }
    }
    {
        let mut e = String::from_str(x);
        e.append(" / ");
        let literal = lit(ty, 1);
        e.append(literal.as_str());
        let v = eval(Op::Div, ty, operand, 1);
        assert(widened(v) == c_value(Op::Div, ty, operand, 1i128));
        let ghost added = check_when(w, e@, widened(v));
        check_defined(program, w, e.as_str(), v);
        proof {
            assert(check_lines(acc + added) =~= check_lines(acc) + check_lines(added));
            assert(check_values(acc + added) =~= check_values(acc) + check_values(added));
            acc = acc + added;
        }
    }
    assert(acc =~= identity_part_1(ty, at as int, operand));
    assert(program.body_lines() =~= body0 + check_lines(acc));
    assert(program.expected_values() =~= values0 + check_values(acc));
}

/// Writes identities 6 to 10 of one unknown, read from the variable `x`.
#[verifier::rlimit(100)]
fn identities_2(program: &mut Program, ty: Ty, at: usize, x: &str, operand: i128)
    requires
        ty.contains(operand as int),
        x@ == unknown_name(at as int),
    ensures
        final(program).body_lines() == old(program).body_lines() + check_lines(
            identity_part_2(ty, at as int, operand),
        ),
        final(program).expected_values() == old(program).expected_values() + check_values(
            identity_part_2(ty, at as int, operand),
        ),
        final(program).purpose_text() == old(program).purpose_text(),
        final(program).include_lines() == old(program).include_lines(),
        final(program).top_lines() == old(program).top_lines(),
        final(program).sinks() == old(program).sinks(),
{
    let ghost body0 = program.body_lines();
    let ghost values0 = program.expected_values();
    let w = ty.promoted();
    let ones = all_ones(ty);
    assert(ones == all_ones_of(ty));
    assert(ty.contains(0) && ty.contains(1));
    let ghost mut acc = Seq::<(Seq<char>, int)>::empty();
    {
        let mut e = String::from_str(x);
        e.append(" % ");
        let literal = lit(ty, 1);
        e.append(literal.as_str());
        let v = eval(Op::Rem, ty, operand, 1);
        assert(widened(v) == c_value(Op::Rem, ty, operand, 1i128));
        let ghost added = check_when(w, e@, widened(v));
        check_defined(program, w, e.as_str(), v);
        proof {
            assert(check_lines(acc + added) =~= check_lines(acc) + check_lines(added));
            assert(check_values(acc + added) =~= check_values(acc) + check_values(added));
            acc = acc + added;
        }
    }
    {
        let mut e = String::from_str(x);
        e.append(" & ");
        e.append(x);
        let v = eval(Op::And, ty, operand, operand);
        assert(widened(v) == c_value(Op::And, ty, operand, operand));
        let ghost added = check_when(w, e@, widened(v));
        check_defined(program, w, e.as_str(), v);
        proof {
            assert(check_lines(acc + added) =~= check_lines(acc) + check_lines(added));
            assert(check_values(acc + added) =~= check_values(acc) + check_values(added));
            acc = acc + added;
        }
    }
    {
        let mut e = String::from_str(x);
        e.append(" | ");
        e.append(x);
        let v = eval(Op::Or, ty, operand, operand);
        assert(widened(v) == c_value(Op::Or, ty, operand, operand));
        let ghost added = check_when(w, e@, widened(v));
        check_defined(program, w, e.as_str(), v);
        proof {
            assert(check_lines(acc + added) =~= check_lines(acc) + check_lines(added));
            assert(check_values(acc + added) =~= check_values(acc) + check_values(added));
            acc = acc + added;
        }
    }
    {
        let mut e = String::from_str(x);
        e.append(" ^ ");
        e.append(x);
        let v = eval(Op::Xor, ty, operand, operand);
        assert(widened(v) == c_value(Op::Xor, ty, operand, operand));
        let ghost added = check_when(w, e@, widened(v));
        check_defined(program, w, e.as_str(), v);
        proof {
            assert(check_lines(acc + added) =~= check_lines(acc) + check_lines(added));
            assert(check_values(acc + added) =~= check_values(acc) + check_values(added));
            acc = acc + added;
        }
    }
    {
        let mut e = String::from_str(x);
        e.append(" - ");
        e.append(x);
        let v = eval(Op::Sub, ty, operand, operand);
        assert(widened(v) == c_value(Op::Sub, ty, operand, operand));
        let ghost added = check_when(w, e@, widened(v));
        check_defined(program, w, e.as_str(), v);
        proof {
            assert(check_lines(acc + added) =~= check_lines(acc) + check_lines(added));
            assert(check_values(acc + added) =~= check_values(acc) + check_values(added));
            acc = acc + added;
        }
    }
    assert(acc =~= identity_part_2(ty, at as int, operand));
    assert(program.body_lines() =~= body0 + check_lines(acc));
    assert(program.expected_values() =~= values0 + check_values(acc));
}

/// Writes identities 11 to 15 of one unknown, read from the variable `x`.
#[verifier::rlimit(100)]
fn identities_3(program: &mut Program, ty: Ty, at: usize, x: &str, operand: i128)
    requires
        ty.contains(operand as int),
        x@ == unknown_name(at as int),
    ensures
        final(program).body_lines() == old(program).body_lines() + check_lines(
            identity_part_3(ty, at as int, operand),
        ),
        final(program).expected_values() == old(program).expected_values() + check_values(
            identity_part_3(ty, at as int, operand),
        ),
        final(program).purpose_text() == old(program).purpose_text(),
        final(program).include_lines() == old(program).include_lines(),
        final(program).top_lines() == old(program).top_lines(),
        final(program).sinks() == old(program).sinks(),
{
    let ghost body0 = program.body_lines();
    let ghost values0 = program.expected_values();
    let w = ty.promoted();
    let ones = all_ones(ty);
    assert(ones == all_ones_of(ty));
    assert(ty.contains(0) && ty.contains(1));
    let ghost mut acc = Seq::<(Seq<char>, int)>::empty();
    {
        let mut e = String::from_str(x);
        e.append(" & ");
        let literal = lit(ty, 0);
        e.append(literal.as_str());
        let v = eval(Op::And, ty, operand, 0);
        assert(widened(v) == c_value(Op::And, ty, operand, 0i128));
        let ghost added = check_when(w, e@, widened(v));
        check_defined(program, w, e.as_str(), v);
        proof {
            assert(check_lines(acc + added) =~= check_lines(acc) + check_lines(added));
            assert(check_values(acc + added) =~= check_values(acc) + check_values(added));
            acc = acc + added;
        }
    }
    {
        let mut e = String::from_str(x);
        e.append(" | ");
        let literal = lit(ty, ones);
        e.append(literal.as_str());
        let v = eval(Op::Or, ty, operand, ones);
        assert(widened(v) == c_value(Op::Or, ty, operand, ones));
        let ghost added = check_when(w, e@, widened(v));
        check_defined(program, w, e.as_str(), v);
        proof {
            assert(check_lines(acc + added) =~= check_lines(acc) + check_lines(added));
            assert(check_values(acc + added) =~= check_values(acc) + check_values(added));
            acc = acc + added;
        }
    }
    {
        let mut e = String::from_str(x);
        e.append(" & ");
        let literal = lit(ty, ones);
        e.append(literal.as_str());
        let v = eval(Op::And, ty, operand, ones);
        assert(widened(v) == c_value(Op::And, ty, operand, ones));
        let ghost added = check_when(w, e@, widened(v));
        check_defined(program, w, e.as_str(), v);
        proof {
            assert(check_lines(acc + added) =~= check_lines(acc) + check_lines(added));
            assert(check_values(acc + added) =~= check_values(acc) + check_values(added));
            acc = acc + added;
        }
    }
    {
        let mut e = String::from_str(x);
        e.append(" ^ ");
        let literal = lit(ty, 0);
        e.append(literal.as_str());
        let v = eval(Op::Xor, ty, operand, 0);
        assert(widened(v) == c_value(Op::Xor, ty, operand, 0i128));
        let ghost added = check_when(w, e@, widened(v));
        check_defined(program, w, e.as_str(), v);
        proof {
            assert(check_lines(acc + added) =~= check_lines(acc) + check_lines(added));
            assert(check_values(acc + added) =~= check_values(acc) + check_values(added));
            acc = acc + added;
        }
    }
    {
        let mut e = String::from_str(x);
        e.append(" << 0");
        let v = eval(Op::Shl, ty, operand, 0);
        assert(widened(v) == c_value(Op::Shl, ty, operand, 0i128));
        let ghost added = check_when(w, e@, widened(v));
        check_defined(program, w, e.as_str(), v);
        proof {
            assert(check_lines(acc + added) =~= check_lines(acc) + check_lines(added));
            assert(check_values(acc + added) =~= check_values(acc) + check_values(added));
            acc = acc + added;
        }
    }
    assert(acc =~= identity_part_3(ty, at as int, operand));
    assert(program.body_lines() =~= body0 + check_lines(acc));
    assert(program.expected_values() =~= values0 + check_values(acc));
}

/// Writes identities 16 to 19 of one unknown, read from the variable `x`.
#[verifier::rlimit(100)]
fn identities_4(program: &mut Program, ty: Ty, at: usize, x: &str, operand: i128)
    requires
        ty.contains(operand as int),
        x@ == unknown_name(at as int),
    ensures
        final(program).body_lines() == old(program).body_lines() + check_lines(
            identity_part_4(ty, at as int, operand),
        ),
        final(program).expected_values() == old(program).expected_values() + check_values(
            identity_part_4(ty, at as int, operand),
        ),
        final(program).purpose_text() == old(program).purpose_text(),
        final(program).include_lines() == old(program).include_lines(),
        final(program).top_lines() == old(program).top_lines(),
        final(program).sinks() == old(program).sinks(),
{
    let ghost body0 = program.body_lines();
    let ghost values0 = program.expected_values();
    let w = ty.promoted();
    let ones = all_ones(ty);
    assert(ones == all_ones_of(ty));
    assert(ty.contains(0) && ty.contains(1));
    let ghost mut acc = Seq::<(Seq<char>, int)>::empty();
    {
        let mut e = String::from_str(x);
        e.append(" >> 0");
        let v = eval(Op::Shr, ty, operand, 0);
        assert(widened(v) == c_value(Op::Shr, ty, operand, 0i128));
        let ghost added = check_when(w, e@, widened(v));
        check_defined(program, w, e.as_str(), v);
        proof {
            assert(check_lines(acc + added) =~= check_lines(acc) + check_lines(added));
            assert(check_values(acc + added) =~= check_values(acc) + check_values(added));
            acc = acc + added;
        }
    }
    {
        let mut e = String::from_str("~~");
        e.append(x);
        let once = eval(Op::Not, ty, operand, 0);
        let v = match once {
            Some(n) => {
                proof {
                    crate::lang::lemma_wrap_is_contained(ty.promotion(), -operand - 1);
                }
                assert(ty.promotion().contains(0));
                eval(Op::Not, result_ty(Op::Not, ty), n, 0)
            },
            None => None,
        };
        assert(ty.promotion().promotion() == ty.promotion());
        assert(widened(v) == double_not(ty, operand));
        let ghost added = check_when(w, e@, widened(v));
        check_defined(program, w, e.as_str(), v);
        proof {
            assert(check_lines(acc + added) =~= check_lines(acc) + check_lines(added));
            assert(check_values(acc + added) =~= check_values(acc) + check_values(added));
            acc = acc + added;
        }
    }
    {
        let mut e = String::from_str(x);
        e.append(" == ");
        e.append(x);
        let v: Option<i128> = Some(1);
        let ghost added = check_when(Ty::I32, e@, widened(v));
        check_defined(program, Ty::I32, e.as_str(), v);
        proof {
            assert(check_lines(acc + added) =~= check_lines(acc) + check_lines(added));
            assert(check_values(acc + added) =~= check_values(acc) + check_values(added));
            acc = acc + added;
        }
    }
    {
        let mut e = String::from_str(x);
        e.append(" < ");
        e.append(x);
        let v: Option<i128> = Some(0);
        let ghost added = check_when(Ty::I32, e@, widened(v));
        check_defined(program, Ty::I32, e.as_str(), v);
        proof {
            assert(check_lines(acc + added) =~= check_lines(acc) + check_lines(added));
            assert(check_values(acc + added) =~= check_values(acc) + check_values(added));
            acc = acc + added;
        }
    }
    assert(acc =~= identity_part_4(ty, at as int, operand));
    assert(program.body_lines() =~= body0 + check_lines(acc));
    assert(program.expected_values() =~= values0 + check_values(acc));
}

/// Writes the identities on one unknown, read from the variable `x`.
#[verifier::rlimit(100)]
#[verifier::spinoff_prover]
fn identities(program: &mut Program, ty: Ty, at: usize, x: &str, operand: i128)
    requires
        ty.contains(operand as int),
        x@ == unknown_name(at as int),
    ensures
        final(program).body_lines() == old(program).body_lines() + check_lines(
            identity_checks(ty, at as int, operand),
        ),
        final(program).expected_values() == old(program).expected_values() + check_values(
            identity_checks(ty, at as int, operand),
        ),
        final(program).purpose_text() == old(program).purpose_text(),
        final(program).include_lines() == old(program).include_lines(),
        final(program).top_lines() == old(program).top_lines(),
        final(program).sinks() == old(program).sinks(),
{
    let ghost body0 = program.body_lines();
    let ghost values0 = program.expected_values();
    identities_1(program, ty, at, x, operand);
    identities_2(program, ty, at, x, operand);
    identities_3(program, ty, at, x, operand);
    identities_4(program, ty, at, x, operand);
    let ghost p1 = identity_part_1(ty, at as int, operand);
    let ghost p2 = identity_part_2(ty, at as int, operand);
    let ghost p3 = identity_part_3(ty, at as int, operand);
    let ghost p4 = identity_part_4(ty, at as int, operand);
    proof {
        lemma_checks_add(p1, p2);
        lemma_checks_add(p1 + p2, p3);
        lemma_checks_add(p1 + p2 + p3, p4);
    }
    assert(program.body_lines() =~= body0 + check_lines(p1 + p2 + p3 + p4));
    assert(program.expected_values() =~= values0 + check_values(p1 + p2 + p3 + p4));
}


/// What the unknowns declare before `main`: one opaque global each.
pub open spec fn identity_top(ty: Ty, operands: Seq<i128>) -> Seq<Seq<char>>
    decreases operands.len(),
{
    if operands.len() == 0 {
        Seq::empty()
    } else {
        identity_top(ty, operands.drop_last()).push(
            input_global(ty, unknown_name(operands.len() - 1), operands.last() as int),
        )
    }
}

/// The statements in `main`: for each unknown its read, its identities and a blank line.
pub open spec fn identity_body(ty: Ty, operands: Seq<i128>) -> Seq<Seq<char>>
    decreases operands.len(),
{
    if operands.len() == 0 {
        Seq::empty()
    } else {
        let at = operands.len() - 1;
        identity_body(ty, operands.drop_last()) + seq![input_read(ty, unknown_name(at))]
            + check_lines(identity_checks(ty, at, operands.last())) + seq![Seq::<char>::empty()]
    }
}

/// What the program prints, in order.
pub open spec fn identity_values(ty: Ty, operands: Seq<i128>) -> Seq<int>
    decreases operands.len(),
{
    if operands.len() == 0 {
        Seq::empty()
    } else {
        identity_values(ty, operands.drop_last()) + check_values(
            identity_checks(ty, operands.len() - 1, operands.last()),
        )
    }
}

/// Whether a program is the algebraic identities program for a type and the unknowns handed
/// in, whole.
pub open spec fn is_simplify_case(p: Program, ty: Ty, operands: Seq<i128>) -> bool {
    &&& p.purpose_text() == "algebraic identities on "@ + ty.c_text()
    &&& p.include_lines() == Seq::<Seq<char>>::empty()
    &&& p.top_lines() == identity_top(ty, operands)
    &&& p.body_lines() == identity_body(ty, operands)
    &&& p.expected_values() == identity_values(ty, operands)
    &&& !p.sinks()
}

/// The algebraic identities on unknowns: each should collapse to the operand, a constant or a
/// single instruction, and none may change the answer, which is what is checked.
pub fn simplify_case(ty: Ty, operands: &[i128]) -> (p: Program)
    requires
        all_in(ty, operands@),
    ensures
        is_simplify_case(p, ty, operands@),
{
    let mut purpose = String::from_str("algebraic identities on ");
    purpose.append(ty.c_name());
    let mut program = Program::new(purpose.as_str());
    let mut at: usize = 0;
    assert(operands@.take(0) =~= Seq::<i128>::empty());
    while at < operands.len()
        invariant
            at <= operands@.len(),
            all_in(ty, operands@),
            program.purpose_text() == "algebraic identities on "@ + ty.c_text(),
            program.include_lines() == Seq::<Seq<char>>::empty(),
            program.top_lines() == identity_top(ty, operands@.take(at as int)),
            program.body_lines() == identity_body(ty, operands@.take(at as int)),
            program.expected_values() == identity_values(ty, operands@.take(at as int)),
            !program.sinks(),
        decreases operands@.len() - at,
    {
        let operand = operands[at];
        assert(ty.contains(operands@[at as int] as int));
        let mut name = String::from_str("x");
        let shown = decimal_string(at as i128);
        name.append(shown.as_str());
        let ghost body0 = program.body_lines();
        program.input(ty, name.as_str(), operand);
        identities(&mut program, ty, at, name.as_str(), operand);
        program.blank();
        let ghost next = operands@.take(at + 1);
        assert(next.drop_last() =~= operands@.take(at as int));
        assert(next.last() == operand);
        assert(program.body_lines() =~= body0 + seq![input_read(ty, unknown_name(at as int))]
            + check_lines(identity_checks(ty, at as int, operand)) + seq![Seq::<char>::empty()]);
        at += 1;
    }
    assert(operands@.take(operands@.len() as int) =~= operands@);
    program
}

} // verus!
