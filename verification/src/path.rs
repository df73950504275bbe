//! Response paths and their dotted rendering.

use vstd::prelude::*;

verus! {

/// One step of a traversal from the response root: an object field or a list position.
#[derive(Debug, PartialEq, Eq)]
pub enum PathSegment {
    Field(String),
    Index(usize),
}

/// The mathematical value of a [`PathSegment`].
pub enum SegmentView {
    Field(Seq<char>),
    Index(nat),
}

impl DeepView for PathSegment {
    type V = SegmentView;

    open spec fn deep_view(&self) -> SegmentView {
        match self {
            PathSegment::Field(name) => SegmentView::Field(name@),
            PathSegment::Index(index) => SegmentView::Index(*index as nat),
        }
    }
}

/// The character that writes the digit `d`.
pub open spec fn digit_char(d: nat) -> char
    recommends
        d < 10,
{
    if d == 0 {
        '0'
    } else if d == 1 {
        '1'
    } else if d == 2 {
        '2'
    } else if d == 3 {
        '3'
    } else if d == 4 {
        '4'
    } else if d == 5 {
        '5'
    } else if d == 6 {
        '6'
    } else if d == 7 {
        '7'
    } else if d == 8 {
        '8'
    } else {
        '9'
    }
}

/// The decimal numeral of `n`: most significant digit first, no leading zero
/// except for zero itself.
pub open spec fn decimal_digits(n: nat) -> Seq<char>
    decreases n,
{
    if n < 10 {
        seq![digit_char(n)]
    } else {
        decimal_digits(n / 10).push(digit_char(n % 10))
    }
}

/// The text of one segment: the field's name, or the index in decimal.
pub open spec fn segment_text(segment: SegmentView) -> Seq<char> {
    match segment {
        SegmentView::Field(name) => name,
        SegmentView::Index(index) => decimal_digits(index),
    }
}

/// The segments' texts in path order, joined by single dots. The empty path
/// renders as the empty text.
pub open spec fn rendered_path(path: Seq<SegmentView>) -> Seq<char>
    decreases path.len(),
{
    if path.len() == 0 {
        Seq::empty()
    } else if path.len() == 1 {
        segment_text(path[0])
    } else {
        rendered_path(path.drop_last()) + seq!['.'] + segment_text(path.last())
    }
}

fn digit_str(d: usize) -> (text: &'static str)
    requires
        d < 10,
    ensures
        text@ == seq![digit_char(d as nat)],
{
    proof {
        reveal_strlit("0");
        reveal_strlit("1");
        reveal_strlit("2");
        reveal_strlit("3");
        reveal_strlit("4");
        reveal_strlit("5");
        reveal_strlit("6");
        reveal_strlit("7");
        reveal_strlit("8");
        reveal_strlit("9");
    }
    let text = if d == 0 {
        "0"
    } else if d == 1 {
        "1"
    } else if d == 2 {
        "2"
    } else if d == 3 {
        "3"
    } else if d == 4 {
        "4"
    } else if d == 5 {
        "5"
    } else if d == 6 {
        "6"
    } else if d == 7 {
        "7"
    } else if d == 8 {
        "8"
    } else {
        "9"
    };
    assert(text@ =~= seq![digit_char(d as nat)]);
    text
}

/// Appends the decimal numeral of `n` to `out`.
pub fn push_decimal(out: &mut String, n: usize)
    ensures
        final(out)@ == old(out)@ + decimal_digits(n as nat),
    decreases n,
{
    if n >= 10 {
        push_decimal(out, n / 10);
        out.append(digit_str(n % 10));
        assert(out@ =~= old(out)@ + decimal_digits(n as nat));
    } else {
        out.append(digit_str(n));
    }
}

/// The decimal numeral of `n` as a string.
pub fn decimal_string(n: usize) -> (text: String)
    ensures
        text@ == decimal_digits(n as nat),
{
    let mut text = String::new();
    push_decimal(&mut text, n);
    assert(text@ =~= decimal_digits(n as nat));
    text
}

/// Renders a path as dot-separated segments: `a.2.b` for the field `a`, the
/// index 2 and the field `b`, in that order.
pub fn render_path(path: &Vec<PathSegment>) -> (text: String)
    ensures
        text@ == rendered_path(path.deep_view()),
{
    let mut text = String::new();
    let mut i: usize = 0;
    while i < path.len()
        invariant
            i <= path.len(),
            text@ == rendered_path(path.deep_view().take(i as int)),
        decreases path.len() - i,
    {
        let ghost before = text@;
        let ghost prefix = path.deep_view().take(i as int);
        let ghost next = path.deep_view().take(i + 1);
        assert(next.drop_last() =~= prefix);
        assert(next.last() == path[i as int].deep_view());
        if i > 0 {
            proof {
                reveal_strlit(".");
            }
            text.append(".");
            assert(text@ =~= before + seq!['.']);
        }
        match &path[i] {
            PathSegment::Field(name) => {
                text.append(name.as_str());
            },
            PathSegment::Index(index) => {
                push_decimal(&mut text, *index);
            },
        }
        assert(text@ =~= rendered_path(next)) by {
            if i == 0 {
                assert(before =~= Seq::<char>::empty());
            }
        }
        i += 1;
    }
    assert(path.deep_view().take(i as int) =~= path.deep_view());
    text
}

} // verus!
