//! Branches a condition above them has already settled.
//!
//! Each program walks a set of samples and counts two things: how many samples reached the
//! guarded region, and how many of them ran the arm the guard settled. Both are printed, so a
//! compiler that pruned the wrong side prints the wrong number. The samples are the corpus's
//! own; the caller writes the array that holds them, between the start of a program and its
//! walk, and hands the same values in so the expected counts are theirs.

use vstd::prelude::*;
use vstd::string::*;
use crate::emit::{Program, indent, print_line};
use crate::lang::Ty;
use crate::text::{decimal, decimal_string};

verus! {

/// A shape of settled test.
#[derive(Clone, Copy, Debug, PartialEq, Eq, Structural)]
pub enum PruneShape {
    GreaterThenGreater,
    GreaterThenNotGreater,
    LessThenLess,
    LessThenNotLess,
    AtOrAboveThenGreater,
    AtOrBelowThenAtOrBelow,
    EqualThenUnequal,
    EqualThenNonzero,
    ThroughACall,
    TwoValues,
    MaskedBound,
    SwitchUnreachableCase,
    SwitchEveryCaseUnreachable,
    SwitchAfterARangeCheck,
    InsideALoop,
}

/// Every shape, in the order the facet writes them.
pub open spec fn all_prune_shapes() -> Seq<PruneShape> {
    seq![
        PruneShape::GreaterThenGreater,
        PruneShape::GreaterThenNotGreater,
        PruneShape::LessThenLess,
        PruneShape::LessThenNotLess,
        PruneShape::AtOrAboveThenGreater,
        PruneShape::AtOrBelowThenAtOrBelow,
        PruneShape::EqualThenUnequal,
        PruneShape::EqualThenNonzero,
        PruneShape::ThroughACall,
        PruneShape::TwoValues,
        PruneShape::MaskedBound,
        PruneShape::SwitchUnreachableCase,
        PruneShape::SwitchEveryCaseUnreachable,
        PruneShape::SwitchAfterARangeCheck,
        PruneShape::InsideALoop,
    ]
}

/// Every shape, in the order the facet writes them.
pub fn prune_shapes() -> (r: Vec<PruneShape>)
    ensures
        r@ == all_prune_shapes(),
{
    let r = vec![
        PruneShape::GreaterThenGreater,
        PruneShape::GreaterThenNotGreater,
        PruneShape::LessThenLess,
        PruneShape::LessThenNotLess,
        PruneShape::AtOrAboveThenGreater,
        PruneShape::AtOrBelowThenAtOrBelow,
        PruneShape::EqualThenUnequal,
        PruneShape::EqualThenNonzero,
        PruneShape::ThroughACall,
        PruneShape::TwoValues,
        PruneShape::MaskedBound,
        PruneShape::SwitchUnreachableCase,
        PruneShape::SwitchEveryCaseUnreachable,
        PruneShape::SwitchAfterARangeCheck,
        PruneShape::InsideALoop,
    ];
    assert(r@ =~= all_prune_shapes());
    r
}

impl PruneShape {
    /// The axis value.
    pub open spec fn name_text(self) -> Seq<char> {
        match self {
            PruneShape::GreaterThenGreater => "greater-then-greater"@,
            PruneShape::GreaterThenNotGreater => "greater-then-not-greater"@,
            PruneShape::LessThenLess => "less-then-less"@,
            PruneShape::LessThenNotLess => "less-then-not-less"@,
            PruneShape::AtOrAboveThenGreater => "at-or-above-then-greater"@,
            PruneShape::AtOrBelowThenAtOrBelow => "at-or-below-then-at-or-below"@,
            PruneShape::EqualThenUnequal => "equal-then-unequal"@,
            PruneShape::EqualThenNonzero => "equal-then-nonzero"@,
            PruneShape::ThroughACall => "through-a-call"@,
            PruneShape::TwoValues => "two-values"@,
            PruneShape::MaskedBound => "masked-bound"@,
            PruneShape::SwitchUnreachableCase => "switch-unreachable-case"@,
            PruneShape::SwitchEveryCaseUnreachable => "switch-every-case-unreachable"@,
            PruneShape::SwitchAfterARangeCheck => "switch-after-a-range-check"@,
            PruneShape::InsideALoop => "inside-a-loop"@,
        }
    }

    /// The axis value.
    pub fn name(self) -> (r: &'static str)
        ensures
            r@ == self.name_text(),
    {
        match self {
            PruneShape::GreaterThenGreater => "greater-then-greater",
            PruneShape::GreaterThenNotGreater => "greater-then-not-greater",
            PruneShape::LessThenLess => "less-then-less",
            PruneShape::LessThenNotLess => "less-then-not-less",
            PruneShape::AtOrAboveThenGreater => "at-or-above-then-greater",
            PruneShape::AtOrBelowThenAtOrBelow => "at-or-below-then-at-or-below",
            PruneShape::EqualThenUnequal => "equal-then-unequal",
            PruneShape::EqualThenNonzero => "equal-then-nonzero",
            PruneShape::ThroughACall => "through-a-call",
            PruneShape::TwoValues => "two-values",
            PruneShape::MaskedBound => "masked-bound",
            PruneShape::SwitchUnreachableCase => "switch-unreachable-case",
            PruneShape::SwitchEveryCaseUnreachable => "switch-every-case-unreachable",
            PruneShape::SwitchAfterARangeCheck => "switch-after-a-range-check",
            PruneShape::InsideALoop => "inside-a-loop",
        }
    }

    /// One line saying what the compiler has to work out.
    pub open spec fn purpose_text(self) -> Seq<char> {
        match self {
            PruneShape::GreaterThenGreater => "a lower bound that settles a weaker lower bound"@,
            PruneShape::GreaterThenNotGreater => "a lower bound that rules out an upper bound"@,
            PruneShape::LessThenLess => "an upper bound that settles a weaker upper bound"@,
            PruneShape::LessThenNotLess => "an upper bound that rules out a lower bound"@,
            PruneShape::AtOrAboveThenGreater => "a bound that keeps its endpoint settling one that does not"@,
            PruneShape::AtOrBelowThenAtOrBelow => "an upper bound at its endpoint settling a weaker one"@,
            PruneShape::EqualThenUnequal => "an equality that settles a later inequality"@,
            PruneShape::EqualThenNonzero => "an equality that settles a later test for zero"@,
            PruneShape::ThroughACall => "a settled test on the far side of a call that has to be inlined first"@,
            PruneShape::TwoValues => "a relation between two unknowns settling the same relation written backwards"@,
            PruneShape::MaskedBound => "a mask that settles a bound on the value it produced"@,
            PruneShape::SwitchUnreachableCase => "a switch with a case the mask on its value puts out of reach"@,
            PruneShape::SwitchEveryCaseUnreachable => "a switch the mask on its value reduces to its default"@,
            PruneShape::SwitchAfterARangeCheck => "a switch whose value a range check before it has bounded"@,
            PruneShape::InsideALoop => "a test inside a loop that the loop bound settles"@,
        }
    }

    /// One line saying what the compiler has to work out.
    pub fn purpose(self) -> (r: &'static str)
        ensures
            r@ == self.purpose_text(),
    {
        match self {
            PruneShape::GreaterThenGreater => "a lower bound that settles a weaker lower bound",
            PruneShape::GreaterThenNotGreater => "a lower bound that rules out an upper bound",
            PruneShape::LessThenLess => "an upper bound that settles a weaker upper bound",
            PruneShape::LessThenNotLess => "an upper bound that rules out a lower bound",
            PruneShape::AtOrAboveThenGreater => "a bound that keeps its endpoint settling one that does not",
            PruneShape::AtOrBelowThenAtOrBelow => "an upper bound at its endpoint settling a weaker one",
            PruneShape::EqualThenUnequal => "an equality that settles a later inequality",
            PruneShape::EqualThenNonzero => "an equality that settles a later test for zero",
            PruneShape::ThroughACall => "a settled test on the far side of a call that has to be inlined first",
            PruneShape::TwoValues => "a relation between two unknowns settling the same relation written backwards",
            PruneShape::MaskedBound => "a mask that settles a bound on the value it produced",
            PruneShape::SwitchUnreachableCase => "a switch with a case the mask on its value puts out of reach",
            PruneShape::SwitchEveryCaseUnreachable => "a switch the mask on its value reduces to its default",
            PruneShape::SwitchAfterARangeCheck => "a switch whose value a range check before it has bounded",
            PruneShape::InsideALoop => "a test inside a loop that the loop bound settles",
        }
    }

}

/// The declarations a shape puts before `main`.
pub open spec fn prune_top(shape: PruneShape) -> Seq<Seq<char>> {
    match shape {
        PruneShape::ThroughACall => seq!["static int above(int v) {"@, "    return v > 50;"@, "}"@],
        _ => Seq::empty(),
    }
}

/// The walk of a shape: each line with the depth it is written at.
pub open spec fn prune_walk(shape: PruneShape) -> Seq<(int, Seq<char>)> {
    match shape {
        PruneShape::GreaterThenGreater => seq![
            (1int, "if (x > 100) {"@),
            (2int, "outer++;"@),
            (2int, "if (x > 50) {"@),
            (3int, "inner++;"@),
            (2int, "}"@),
            (1int, "}"@),
        ],
        PruneShape::GreaterThenNotGreater => seq![
            (1int, "if (x > 100) {"@),
            (2int, "outer++;"@),
            (2int, "if (x <= 50) {"@),
            (3int, "inner++;"@),
            (2int, "}"@),
            (1int, "}"@),
        ],
        PruneShape::LessThenLess => seq![
            (1int, "if (x < 100) {"@),
            (2int, "outer++;"@),
            (2int, "if (x < 200) {"@),
            (3int, "inner++;"@),
            (2int, "}"@),
            (1int, "}"@),
        ],
        PruneShape::LessThenNotLess => seq![
            (1int, "if (x < 100) {"@),
            (2int, "outer++;"@),
            (2int, "if (x >= 200) {"@),
            (3int, "inner++;"@),
            (2int, "}"@),
            (1int, "}"@),
        ],
        PruneShape::AtOrAboveThenGreater => seq![
            (1int, "if (x >= 100) {"@),
            (2int, "outer++;"@),
            (2int, "if (x > 50) {"@),
            (3int, "inner++;"@),
            (2int, "}"@),
            (1int, "}"@),
        ],
        PruneShape::AtOrBelowThenAtOrBelow => seq![
            (1int, "if (x <= 100) {"@),
            (2int, "outer++;"@),
            (2int, "if (x <= 200) {"@),
            (3int, "inner++;"@),
            (2int, "}"@),
            (1int, "}"@),
        ],
        PruneShape::EqualThenUnequal => seq![
            (1int, "if (x == 50) {"@),
            (2int, "outer++;"@),
            (2int, "if (x != 49) {"@),
            (3int, "inner++;"@),
            (2int, "}"@),
            (1int, "}"@),
        ],
        PruneShape::EqualThenNonzero => seq![
            (1int, "if (x == 50) {"@),
            (2int, "outer++;"@),
            (2int, "if (x) {"@),
            (3int, "inner++;"@),
            (2int, "}"@),
            (1int, "}"@),
        ],
        PruneShape::ThroughACall => seq![
            (1int, "if (x > 100) {"@),
            (2int, "outer++;"@),
            (2int, "if (above(x)) {"@),
            (3int, "inner++;"@),
            (2int, "}"@),
            (1int, "}"@),
        ],
        PruneShape::TwoValues => seq![
            (1int, "int b = (x * 3 + 1) & 255;"@),
            (1int, "if (x < b) {"@),
            (2int, "outer++;"@),
            (2int, "if (b > x) {"@),
            (3int, "inner++;"@),
            (2int, "}"@),
            (1int, "}"@),
        ],
        PruneShape::MaskedBound => seq![
            (1int, "unsigned int u = (unsigned int)x & 63u;"@),
            (1int, "outer++;"@),
            (1int, "if (u < 64u) {"@),
            (2int, "inner++;"@),
            (1int, "}"@),
        ],
        PruneShape::SwitchUnreachableCase => seq![
            (1int, "switch (x & 3) {"@),
            (2int, "case 0: outer++; break;"@),
            (2int, "case 2: outer++; break;"@),
            (2int, "case 7: inner++; break;"@),
            (2int, "default: break;"@),
            (1int, "}"@),
        ],
        PruneShape::SwitchEveryCaseUnreachable => seq![
            (1int, "switch (x & 3) {"@),
            (2int, "case 4: inner++; break;"@),
            (2int, "case 5: inner++; break;"@),
            (2int, "case 9: inner++; break;"@),
            (2int, "default: outer++; break;"@),
            (1int, "}"@),
        ],
        PruneShape::SwitchAfterARangeCheck => seq![
            (1int, "int n = x & 15;"@),
            (1int, "if (n < 4) {"@),
            (2int, "outer++;"@),
            (2int, "switch (n) {"@),
            (3int, "case 0: case 1: case 2: case 3: inner++; break;"@),
            (3int, "case 9: inner += 100; break;"@),
            (3int, "default: break;"@),
            (2int, "}"@),
            (1int, "}"@),
        ],
        PruneShape::InsideALoop => seq![
            (1int, "int n = x & 15;"@),
            (1int, "for (int j = 0; j < n; j++) {"@),
            (2int, "outer++;"@),
            (2int, "if (j < 16) {"@),
            (3int, "inner++;"@),
            (2int, "}"@),
            (1int, "}"@),
        ],
    }
}

/// The lines a walk puts in `main`.
pub open spec fn walk_lines(walk: Seq<(int, Seq<char>)>) -> Seq<Seq<char>> {
    walk.map_values(|e: (int, Seq<char>)| indent((e.0 + 1) as nat) + e.1)
}

/// The declarations of a shape.
fn prune_top_lines(shape: PruneShape) -> (r: Vec<&'static str>)
    ensures
        r@.map_values(|s: &str| s@) == prune_top(shape),
{
    let r: Vec<&'static str> = match shape {
        PruneShape::ThroughACall => vec!["static int above(int v) {", "    return v > 50;", "}"],
        _ => Vec::new(),
    };
    assert(r@.map_values(|s: &str| s@) =~= prune_top(shape));
    r
}

/// The walk of a shape.
fn prune_walk_lines(shape: PruneShape) -> (r: Vec<(usize, &'static str)>)
    ensures
        r@.map_values(|e: (usize, &str)| (e.0 as int, e.1@)) == prune_walk(shape),
        forall|i: int| 0 <= i < r@.len() ==> #[trigger] r@[i].0 < 4,
{
    let r: Vec<(usize, &'static str)> = match shape {
        PruneShape::GreaterThenGreater => vec![(1, "if (x > 100) {"), (2, "outer++;"), (2, "if (x > 50) {"), (3, "inner++;"), (2, "}"), (1, "}")],
        PruneShape::GreaterThenNotGreater => vec![(1, "if (x > 100) {"), (2, "outer++;"), (2, "if (x <= 50) {"), (3, "inner++;"), (2, "}"), (1, "}")],
        PruneShape::LessThenLess => vec![(1, "if (x < 100) {"), (2, "outer++;"), (2, "if (x < 200) {"), (3, "inner++;"), (2, "}"), (1, "}")],
        PruneShape::LessThenNotLess => vec![(1, "if (x < 100) {"), (2, "outer++;"), (2, "if (x >= 200) {"), (3, "inner++;"), (2, "}"), (1, "}")],
        PruneShape::AtOrAboveThenGreater => vec![(1, "if (x >= 100) {"), (2, "outer++;"), (2, "if (x > 50) {"), (3, "inner++;"), (2, "}"), (1, "}")],
        PruneShape::AtOrBelowThenAtOrBelow => vec![(1, "if (x <= 100) {"), (2, "outer++;"), (2, "if (x <= 200) {"), (3, "inner++;"), (2, "}"), (1, "}")],
        PruneShape::EqualThenUnequal => vec![(1, "if (x == 50) {"), (2, "outer++;"), (2, "if (x != 49) {"), (3, "inner++;"), (2, "}"), (1, "}")],
        PruneShape::EqualThenNonzero => vec![(1, "if (x == 50) {"), (2, "outer++;"), (2, "if (x) {"), (3, "inner++;"), (2, "}"), (1, "}")],
        PruneShape::ThroughACall => vec![(1, "if (x > 100) {"), (2, "outer++;"), (2, "if (above(x)) {"), (3, "inner++;"), (2, "}"), (1, "}")],
        PruneShape::TwoValues => vec![(1, "int b = (x * 3 + 1) & 255;"), (1, "if (x < b) {"), (2, "outer++;"), (2, "if (b > x) {"), (3, "inner++;"), (2, "}"), (1, "}")],
        PruneShape::MaskedBound => vec![(1, "unsigned int u = (unsigned int)x & 63u;"), (1, "outer++;"), (1, "if (u < 64u) {"), (2, "inner++;"), (1, "}")],
        PruneShape::SwitchUnreachableCase => vec![(1, "switch (x & 3) {"), (2, "case 0: outer++; break;"), (2, "case 2: outer++; break;"), (2, "case 7: inner++; break;"), (2, "default: break;"), (1, "}")],
        PruneShape::SwitchEveryCaseUnreachable => vec![(1, "switch (x & 3) {"), (2, "case 4: inner++; break;"), (2, "case 5: inner++; break;"), (2, "case 9: inner++; break;"), (2, "default: outer++; break;"), (1, "}")],
        PruneShape::SwitchAfterARangeCheck => vec![(1, "int n = x & 15;"), (1, "if (n < 4) {"), (2, "outer++;"), (2, "switch (n) {"), (3, "case 0: case 1: case 2: case 3: inner++; break;"), (3, "case 9: inner += 100; break;"), (3, "default: break;"), (2, "}"), (1, "}")],
        PruneShape::InsideALoop => vec![(1, "int n = x & 15;"), (1, "for (int j = 0; j < n; j++) {"), (2, "outer++;"), (2, "if (j < 16) {"), (3, "inner++;"), (2, "}"), (1, "}")],
    };
    assert(r@.map_values(|e: (usize, &str)| (e.0 as int, e.1@)) =~= prune_walk(shape));
    r
}

/// What one sample adds to the outer count and to the inner count.
pub open spec fn prune_counts(shape: PruneShape, x: i128) -> (int, int) {
    let other = ((x * 3 + 1) as i128) & 255;
    match shape {
        PruneShape::GreaterThenGreater => if x > 100 { (1, if x > 50 { 1 } else { 0 }) } else { (0, 0) },
        PruneShape::GreaterThenNotGreater => if x > 100 { (1, if x <= 50 { 1 } else { 0 }) } else { (0, 0) },
        PruneShape::LessThenLess => if x < 100 { (1, if x < 200 { 1 } else { 0 }) } else { (0, 0) },
        PruneShape::LessThenNotLess => if x < 100 { (1, if x >= 200 { 1 } else { 0 }) } else { (0, 0) },
        PruneShape::AtOrAboveThenGreater => if x >= 100 { (1, if x > 50 { 1 } else { 0 }) } else { (0, 0) },
        PruneShape::AtOrBelowThenAtOrBelow => if x <= 100 { (1, if x <= 200 { 1 } else { 0 }) } else { (0, 0) },
        PruneShape::EqualThenUnequal => if x == 50 { (1, if x != 49 { 1 } else { 0 }) } else { (0, 0) },
        PruneShape::EqualThenNonzero => if x == 50 { (1, if x != 0 { 1 } else { 0 }) } else { (0, 0) },
        PruneShape::ThroughACall => if x > 100 { (1, if x > 50 { 1 } else { 0 }) } else { (0, 0) },
        PruneShape::TwoValues => if x < other { (1, if other > x { 1 } else { 0 }) } else { (0, 0) },
        PruneShape::MaskedBound => (1, if (x & 63) < 64 { 1 } else { 0 }),
        PruneShape::SwitchUnreachableCase => (if (x & 3) == 0 || (x & 3) == 2 { 1 } else { 0 }, if (x & 3) == 7 { 1 } else { 0 }),
        PruneShape::SwitchEveryCaseUnreachable => (1, if (x & 3) == 4 || (x & 3) == 5 || (x & 3) == 9 { 1 } else { 0 }),
        PruneShape::SwitchAfterARangeCheck => if (x & 15) >= 4 { (0, 0) } else { (1, if (x & 15) == 9 { 100 } else { 1 }) },
        PruneShape::InsideALoop => ((x & 15) as int, (x & 15) as int),
    }
}

/// What one sample adds to the outer count and to the inner count.
pub fn sample_counts(shape: PruneShape, x: i128) -> (r: (i128, i128))
    requires
        -0x1_0000_0000_0000_0000 <= x <= 0x1_0000_0000_0000_0000,
    ensures
        r.0 as int == prune_counts(shape, x).0,
        r.1 as int == prune_counts(shape, x).1,
        0 <= r.0 <= 100,
        0 <= r.1 <= 100,
{
    let other = (x * 3 + 1) & 255;
    let low2 = x & 3;
    let low4 = x & 15;
    let low6 = x & 63;
    assert(0 <= (x & 15) <= 15 && 0 <= (x & 3) <= 3 && 0 <= (x & 63) <= 63) by (bit_vector);
    match shape {
        PruneShape::GreaterThenGreater => if x > 100 { (1, if x > 50 { 1 } else { 0 }) } else { (0, 0) },
        PruneShape::GreaterThenNotGreater => if x > 100 { (1, if x <= 50 { 1 } else { 0 }) } else { (0, 0) },
        PruneShape::LessThenLess => if x < 100 { (1, if x < 200 { 1 } else { 0 }) } else { (0, 0) },
        PruneShape::LessThenNotLess => if x < 100 { (1, if x >= 200 { 1 } else { 0 }) } else { (0, 0) },
        PruneShape::AtOrAboveThenGreater => if x >= 100 { (1, if x > 50 { 1 } else { 0 }) } else { (0, 0) },
        PruneShape::AtOrBelowThenAtOrBelow => if x <= 100 { (1, if x <= 200 { 1 } else { 0 }) } else { (0, 0) },
        PruneShape::EqualThenUnequal => if x == 50 { (1, if x != 49 { 1 } else { 0 }) } else { (0, 0) },
        PruneShape::EqualThenNonzero => if x == 50 { (1, if x != 0 { 1 } else { 0 }) } else { (0, 0) },
        PruneShape::ThroughACall => if x > 100 { (1, if x > 50 { 1 } else { 0 }) } else { (0, 0) },
        PruneShape::TwoValues => if x < other { (1, if other > x { 1 } else { 0 }) } else { (0, 0) },
        PruneShape::MaskedBound => (1, if low6 < 64 { 1 } else { 0 }),
        PruneShape::SwitchUnreachableCase => (if low2 == 0 || low2 == 2 { 1 } else { 0 }, if low2 == 7 { 1 } else { 0 }),
        PruneShape::SwitchEveryCaseUnreachable => (1, if low2 == 4 || low2 == 5 || low2 == 9 { 1 } else { 0 }),
        PruneShape::SwitchAfterARangeCheck => if low4 >= 4 { (0, 0) } else { (1, if low4 == 9 { 100 } else { 1 }) },
        PruneShape::InsideALoop => (low4, low4),
    }
}

/// The counts of a list of samples, added up.
pub open spec fn tally_of(shape: PruneShape, samples: Seq<i128>) -> (int, int)
    decreases samples.len(),
{
    if samples.len() == 0 {
        (0, 0)
    } else {
        let before = tally_of(shape, samples.drop_last());
        let last = prune_counts(shape, samples.last());
        (before.0 + last.0, before.1 + last.1)
    }
}

/// Whether every sample is small enough to work with.
pub open spec fn samples_fit(samples: Seq<i128>) -> bool {
    forall|i: int|
        0 <= i < samples.len() ==> -0x1_0000_0000_0000_0000 <= #[trigger] samples[i]
            <= 0x1_0000_0000_0000_0000
}

/// Adds up what a shape counts over a full pass of the samples.
pub fn tally(shape: PruneShape, samples: &[i128]) -> (r: (i128, i128))
    requires
        samples_fit(samples@),
    ensures
        r.0 as int == tally_of(shape, samples@).0,
        r.1 as int == tally_of(shape, samples@).1,
{
    let mut outer: i128 = 0;
    let mut inner: i128 = 0;
    let mut i: usize = 0;
    assert(samples@.take(0) =~= Seq::<i128>::empty());
    while i < samples.len()
        invariant
            i <= samples@.len(),
            samples_fit(samples@),
            outer as int == tally_of(shape, samples@.take(i as int)).0,
            inner as int == tally_of(shape, samples@.take(i as int)).1,
            0 <= outer <= 100 * i,
            0 <= inner <= 100 * i,
        decreases samples@.len() - i,
    {
        let x = samples[i];
        let (a, b) = sample_counts(shape, x);
        assert(samples@.take(i + 1).drop_last() =~= samples@.take(i as int));
        outer = outer + a;
        inner = inner + b;
        i += 1;
    }
    assert(samples@.take(samples@.len() as int) =~= samples@);
    (outer, inner)
}

/// The lines `main` gets from the walk, after the sample array: the two counters, the loop
/// over the samples with the shape inside it, and the two checks.
pub open spec fn prune_body(shape: PruneShape, n: int) -> Seq<Seq<char>> {
    seq![
        Seq::<char>::empty(),
        indent(1) + "int outer = 0;"@,
        indent(1) + "int inner = 0;"@,
        indent(1) + "for (int i = 0; i < "@ + decimal(n) + "; i++) {"@,
        indent(2) + "int x = data[i];"@,
    ] + walk_lines(prune_walk(shape)) + seq![
        indent(1) + "}"@,
        Seq::<char>::empty(),
        print_line(1, Ty::I32, "outer"@),
        print_line(1, Ty::I32, "inner"@),
    ]
}

/// The start of a shape's program: what it is for, and its declarations. The sample array is
/// written next, by the caller.
pub fn prune_start(shape: PruneShape) -> (p: Program)
    ensures
        p.purpose_text() == shape.purpose_text(),
        p.include_lines() == Seq::<Seq<char>>::empty(),
        p.top_lines() == prune_top(shape),
        p.body_lines() == Seq::<Seq<char>>::empty(),
        p.expected_values() == Seq::<int>::empty(),
        !p.sinks(),
{
    let mut program = Program::new(shape.purpose());
    let top = prune_top_lines(shape);
    let mut i: usize = 0;
    while i < top.len()
        invariant
            i <= top@.len(),
            top@.map_values(|s: &str| s@) == prune_top(shape),
            program.purpose_text() == shape.purpose_text(),
            program.include_lines() == Seq::<Seq<char>>::empty(),
            program.top_lines() == prune_top(shape).take(i as int),
            program.body_lines() == Seq::<Seq<char>>::empty(),
            program.expected_values() == Seq::<int>::empty(),
            !program.sinks(),
        decreases top@.len() - i,
    {
        program.top(top[i]);
        assert(prune_top(shape).take(i + 1) =~= prune_top(shape).take(i as int).push(
            top@[i as int]@,
        ));
        i += 1;
    }
    assert(prune_top(shape).take(top@.len() as int) =~= prune_top(shape));
    program
}

/// The walk of a shape's program, after the sample array the caller wrote: the counters, the
/// loop over the samples, and the checks on the two counts, which are what the samples add up
/// to.
pub fn prune_finish(program: &mut Program, shape: PruneShape, samples: &[i128])
    requires
        samples_fit(samples@),
    ensures
        final(program).body_lines() == old(program).body_lines() + prune_body(
            shape,
            samples@.len() as int,
        ),
        final(program).expected_values() == old(program).expected_values() + seq![
            tally_of(shape, samples@).0,
            tally_of(shape, samples@).1,
        ],
        final(program).purpose_text() == old(program).purpose_text(),
        final(program).include_lines() == old(program).include_lines(),
        final(program).top_lines() == old(program).top_lines(),
        final(program).sinks() == old(program).sinks(),
{
    let ghost body0 = program.body_lines();
    program.blank();
    assert(program.body_lines() =~= body0 + seq![Seq::<char>::empty()]);
    program.line("int outer = 0;");
    assert(program.body_lines() =~= body0 + seq![Seq::<char>::empty(), indent(1) + "int outer = 0;"@]);
    program.line("int inner = 0;");
    assert(program.body_lines() =~= body0 + seq![
        Seq::<char>::empty(),
        indent(1) + "int outer = 0;"@,
        indent(1) + "int inner = 0;"@,
    ]);
    let mut head = String::from_str("for (int i = 0; i < ");
    let count = decimal_string(samples.len() as i128);
    head.append(count.as_str());
    head.append("; i++) {");
    assert(head@ =~= "for (int i = 0; i < "@ + decimal(samples@.len() as int) + "; i++) {"@);
    let ghost three = seq![
        Seq::<char>::empty(),
        indent(1) + "int outer = 0;"@,
        indent(1) + "int inner = 0;"@,
    ];
    program.line(head.as_str());
    assert(program.body_lines() == (body0 + three).push(indent(1) + head@));
    let ghost four = program.body_lines();
    program.line_at(1, "int x = data[i];");
    assert(program.body_lines() == four.push(indent(2) + "int x = data[i];"@));
    let ghost mid = program.body_lines();
    assert(mid == (body0 + three).push(indent(1) + head@).push(indent(2) + "int x = data[i];"@));
    assert(indent(1) + head@ =~= indent(1) + "for (int i = 0; i < "@ + decimal(samples@.len() as int)
        + "; i++) {"@);
    assert(mid =~= body0 + seq![
        Seq::<char>::empty(),
        indent(1) + "int outer = 0;"@,
        indent(1) + "int inner = 0;"@,
        indent(1) + "for (int i = 0; i < "@ + decimal(samples@.len() as int) + "; i++) {"@,
        indent(2) + "int x = data[i];"@,
    ]);
    let walk = prune_walk_lines(shape);
    let ghost spec_walk = prune_walk(shape);
    let mut k: usize = 0;
    while k < walk.len()
        invariant
            k <= walk@.len(),
            walk@.map_values(|e: (usize, &str)| (e.0 as int, e.1@)) == spec_walk,
            spec_walk == prune_walk(shape),
            forall|i: int| 0 <= i < walk@.len() ==> #[trigger] walk@[i].0 < 4,
            program.body_lines() == mid + walk_lines(spec_walk.take(k as int)),
            program.expected_values() == old(program).expected_values(),
            program.purpose_text() == old(program).purpose_text(),
            program.include_lines() == old(program).include_lines(),
            program.top_lines() == old(program).top_lines(),
            program.sinks() == old(program).sinks(),
        decreases walk@.len() - k,
    {
        let (depth, text) = walk[k];
        assert(walk@[k as int].0 < 4);
        program.line_at(depth, text);
        assert(spec_walk[k as int] == (depth as int, text@));
        assert(walk_lines(spec_walk.take(k + 1)) =~= walk_lines(spec_walk.take(k as int)).push(
            indent((depth + 1) as nat) + text@,
        ));
        k += 1;
    }
    assert(spec_walk.take(walk@.len() as int) =~= spec_walk);
    assert(spec_walk.len() == walk@.len());
    assert(program.body_lines() == mid + walk_lines(spec_walk));
    program.line("}");
    program.blank();
    let (outer, inner) = tally(shape, samples);
    program.check(Ty::I32, "outer", outer);
    program.check(Ty::I32, "inner", inner);
    assert(program.body_lines() =~= body0 + prune_body(shape, samples@.len() as int));
}

} // verus!

