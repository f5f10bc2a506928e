//! Text rendering of numbers, names and value paths.
use vstd::prelude::*;
use vstd::string::StringExecFns;

use crate::family::{OperationKind, ResourceOwnership, ValuePath, ValuePathSegment};

verus! {

/// The text of one decimal digit.
pub open spec fn digit_text(digit: nat) -> Seq<char> {
    if digit == 0 {
        "0"@
    } else if digit == 1 {
        "1"@
    } else if digit == 2 {
        "2"@
    } else if digit == 3 {
        "3"@
    } else if digit == 4 {
        "4"@
    } else if digit == 5 {
        "5"@
    } else if digit == 6 {
        "6"@
    } else if digit == 7 {
        "7"@
    } else if digit == 8 {
        "8"@
    } else {
        "9"@
    }
}

/// The decimal text of a natural number, without leading zeros.
pub open spec fn decimal_text(value: nat) -> Seq<char>
    decreases value,
{
    if value < 10 {
        digit_text(value)
    } else {
        decimal_text(value / 10) + digit_text(value % 10)
    }
}

/// Appends one decimal digit.
pub fn push_digit(text: &mut String, digit: u64)
    requires
        digit < 10,
    ensures
        final(text)@ == old(text)@ + digit_text(digit as nat),
{
    if digit == 0 {
        text.append("0");
    } else if digit == 1 {
        text.append("1");
    } else if digit == 2 {
        text.append("2");
    } else if digit == 3 {
        text.append("3");
    } else if digit == 4 {
        text.append("4");
    } else if digit == 5 {
        text.append("5");
    } else if digit == 6 {
        text.append("6");
    } else if digit == 7 {
        text.append("7");
    } else if digit == 8 {
        text.append("8");
    } else {
        text.append("9");
    }
}

/// Appends the decimal text of a number.
pub fn push_decimal(text: &mut String, value: u64)
    ensures
        final(text)@ == old(text)@ + decimal_text(value as nat),
    decreases value,
{
    if value >= 10 {
        push_decimal(text, value / 10);
        push_digit(text, value % 10);
        assert(final(text)@ == old(text)@ + decimal_text(value as nat));
    } else {
        push_digit(text, value);
    }
}

/// The debug name of an operation kind.
pub open spec fn kind_text(kind: OperationKind) -> Seq<char> {
    match kind {
        OperationKind::Function => "Function"@,
        OperationKind::Constructor => "Constructor"@,
        OperationKind::Method => "Method"@,
        OperationKind::CallbackMethod => "CallbackMethod"@,
        OperationKind::InputStreamPull => "InputStreamPull"@,
        OperationKind::InputStreamCancel => "InputStreamCancel"@,
        OperationKind::OutputStreamStart => "OutputStreamStart"@,
        OperationKind::OutputStreamNext => "OutputStreamNext"@,
        OperationKind::OutputStreamCancel => "OutputStreamCancel"@,
    }
}

/// Appends the debug name of an operation kind.
pub fn push_kind(text: &mut String, kind: OperationKind)
    ensures
        final(text)@ == old(text)@ + kind_text(kind),
{
    match kind {
        OperationKind::Function => text.append("Function"),
        OperationKind::Constructor => text.append("Constructor"),
        OperationKind::Method => text.append("Method"),
        OperationKind::CallbackMethod => text.append("CallbackMethod"),
        OperationKind::InputStreamPull => text.append("InputStreamPull"),
        OperationKind::InputStreamCancel => text.append("InputStreamCancel"),
        OperationKind::OutputStreamStart => text.append("OutputStreamStart"),
        OperationKind::OutputStreamNext => text.append("OutputStreamNext"),
        OperationKind::OutputStreamCancel => text.append("OutputStreamCancel"),
    }
}

/// The debug name of a resource ownership.
pub open spec fn ownership_text(ownership: ResourceOwnership) -> Seq<char> {
    match ownership {
        ResourceOwnership::Owned => "Owned"@,
        ResourceOwnership::Borrowed => "Borrowed"@,
        ResourceOwnership::ByArc => "ByArc"@,
    }
}

/// Appends the debug name of a resource ownership.
pub fn push_ownership(text: &mut String, ownership: ResourceOwnership)
    ensures
        final(text)@ == old(text)@ + ownership_text(ownership),
{
    match ownership {
        ResourceOwnership::Owned => text.append("Owned"),
        ResourceOwnership::Borrowed => text.append("Borrowed"),
        ResourceOwnership::ByArc => text.append("ByArc"),
    }
}

/// The text of one path segment.
pub open spec fn segment_text(segment: ValuePathSegment) -> Seq<char> {
    match segment {
        ValuePathSegment::Argument(index) => "argument["@ + decimal_text(index as nat) + "]"@,
        ValuePathSegment::Return => "return"@,
        ValuePathSegment::StreamItem => "stream-item"@,
        ValuePathSegment::StreamError => "stream-error"@,
        ValuePathSegment::Field(name) => "field["@ + name@ + "]"@,
        ValuePathSegment::Variant(name) => "variant["@ + name@ + "]"@,
        ValuePathSegment::Optional => "optional"@,
        ValuePathSegment::SequenceElement => "sequence"@,
        ValuePathSegment::MapKey => "map-key"@,
        ValuePathSegment::MapValue => "map-value"@,
        ValuePathSegment::SetElement => "set"@,
    }
}

/// The text of a path: its segments joined by dots.
pub open spec fn path_text(segments: Seq<ValuePathSegment>) -> Seq<char>
    decreases segments.len(),
{
    if segments.len() == 0 {
        Seq::empty()
    } else if segments.len() == 1 {
        segment_text(segments[0])
    } else {
        path_text(segments.drop_last()) + "."@ + segment_text(segments.last())
    }
}

/// Appends the text of one path segment.
pub fn push_segment(text: &mut String, segment: &ValuePathSegment)
    ensures
        final(text)@ == old(text)@ + segment_text(*segment),
{
    match segment {
        ValuePathSegment::Argument(index) => {
            text.append("argument[");
            push_decimal(text, *index as u64);
            text.append("]");
            assert(final(text)@ =~= old(text)@ + segment_text(*segment));
        },
        ValuePathSegment::Return => text.append("return"),
        ValuePathSegment::StreamItem => text.append("stream-item"),
        ValuePathSegment::StreamError => text.append("stream-error"),
        ValuePathSegment::Field(name) => {
            text.append("field[");
            text.append(name.as_str());
            text.append("]");
            assert(final(text)@ =~= old(text)@ + segment_text(*segment));
        },
        ValuePathSegment::Variant(name) => {
            text.append("variant[");
            text.append(name.as_str());
            text.append("]");
            assert(final(text)@ =~= old(text)@ + segment_text(*segment));
        },
        ValuePathSegment::Optional => text.append("optional"),
        ValuePathSegment::SequenceElement => text.append("sequence"),
        ValuePathSegment::MapKey => text.append("map-key"),
        ValuePathSegment::MapValue => text.append("map-value"),
        ValuePathSegment::SetElement => text.append("set"),
    }
}

/// Appends the text of a whole path.
pub fn push_path(text: &mut String, path: &ValuePath)
    ensures
        final(text)@ == old(text)@ + path_text(path.segments@),
{
    let ghost start = text@;
    let segments = path.segments.as_slice();
    let count = segments.len();
    let mut index: usize = 0;
    while index < count
        invariant
            count == segments@.len(),
            segments@ == path.segments@,
            index <= count,
            text@ == start + path_text(segments@.take(index as int)),
        decreases count - index,
    {
        let ghost before = text@;
        if index != 0 {
            text.append(".");
        }
        push_segment(text, &segments[index]);
        proof {
            let next = segments@.take(index as int + 1);
            assert(next.drop_last() =~= segments@.take(index as int));
            assert(next.last() == segments@[index as int]);
            if index == 0 {
                assert(segments@.take(0) =~= Seq::<ValuePathSegment>::empty());
                assert(text@ =~= start + path_text(next));
            } else {
                assert(text@ =~= start + path_text(next));
            }
        }
        index += 1;
    }
    assert(segments@.take(count as int) =~= segments@);
}

impl ValuePath {
    /// Renders the path, segment by segment, joined by dots, such as
    /// `return.stream-item.field[object]`.
    pub fn to_string(&self) -> (text: String)
        ensures
            text@ == path_text(self.segments@),
    {
        let mut text = String::new();
        push_path(&mut text, self);
        assert(text@ =~= path_text(self.segments@));
        text
    }
}

} // verus!
