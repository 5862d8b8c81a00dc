//! Building strings out of values.

use vstd::prelude::*;
use vstd::string::*;
use crate::float::Float;

verus! {

/// The character of a decimal digit.
pub open spec fn digit(value: int) -> char
    recommends
        0 <= value < 10,
{
    (48 + value) as u8 as char
}

/// The decimal digits of a natural number, without leading zeros.
pub open spec fn decimal_digits(value: nat) -> Seq<char>
    decreases value,
{
    if value < 10 {
        seq![digit(value as int)]
    } else {
        decimal_digits(value / 10).push(digit((value % 10) as int))
    }
}

/// The decimal text of an integer: its digits, after a minus sign if it is
/// negative.
pub open spec fn decimal_text(value: int) -> Seq<char> {
    if value < 0 {
        seq!['-'] + decimal_digits((-value) as nat)
    } else {
        decimal_digits(value as nat)
    }
}

/// The decimal text of an integer, as `itoa::Buffer::format` writes it:
/// the digits without leading zeros, after a minus sign if the integer is
/// negative.
#[verifier::external_body]
pub(crate) fn format_integer(value: i64) -> (text: String)
    ensures
        text@ == decimal_text(value as int),
{
    let mut buffer = itoa::Buffer::new();
    buffer.format(value).to_owned()
}

/// One piece of a string that is being put together.
#[derive(Debug, PartialEq)]
pub enum ConcatPart {
    /// A piece of text.
    Text(String),
    /// A double-precision number, whose text the driver writes.
    Float(Float),
}

/// One piece of a string that is being put together, as contracts speak of
/// it.
pub enum PartView {
    /// A piece of text.
    Text(Seq<char>),
    /// A double-precision number.
    Float(Float),
}

impl View for ConcatPart {
    type V = PartView;

    open spec fn view(&self) -> PartView {
        match self {
            ConcatPart::Text(text) => PartView::Text(text@),
            ConcatPart::Float(float) => PartView::Float(*float),
        }
    }
}

/// The pieces of a sequence of parts, as contracts speak of them.
pub open spec fn part_views(parts: Seq<ConcatPart>) -> Seq<PartView> {
    Seq::new(parts.len(), |i: int| parts[i]@)
}

/// The number of double-precision numbers among the parts.
pub open spec fn floats_in(parts: Seq<PartView>) -> nat
    decreases parts.len(),
{
    if parts.len() == 0 {
        0
    } else {
        floats_in(parts.drop_last()) + if parts.last() is Float {
            1nat
        } else {
            0nat
        }
    }
}

/// The text of all parts in order, where the number that is the `k`-th
/// among the numbers stands as `texts[k]`. There is no such text where the
/// numbers are more than the texts.
pub open spec fn joined(parts: Seq<PartView>, texts: Seq<Seq<char>>) -> Option<Seq<char>>
    decreases parts.len(),
{
    if parts.len() == 0 {
        Some(Seq::empty())
    } else {
        match joined(parts.drop_last(), texts) {
            None => None,
            Some(front) => match parts.last() {
                PartView::Text(text) => Some(front + text),
                PartView::Float(_) => if floats_in(parts.drop_last()) < texts.len() {
                    Some(front + texts[floats_in(parts.drop_last()) as int])
                } else {
                    None
                },
            },
        }
    }
}

/// The double-precision numbers among the parts, in order.
pub open spec fn float_parts(parts: Seq<PartView>) -> Seq<Float>
    decreases parts.len(),
{
    if parts.len() == 0 {
        Seq::empty()
    } else {
        match parts.last() {
            PartView::Float(float) => float_parts(parts.drop_last()).push(float),
            PartView::Text(_) => float_parts(parts.drop_last()),
        }
    }
}

/// The double-precision numbers among the parts, in order: the numbers for
/// which [`join`] wants a text each.
pub fn floats_of(parts: &Vec<ConcatPart>) -> (floats: Vec<Float>)
    ensures
        floats@ == float_parts(part_views(parts@)),
        floats@.len() == floats_in(part_views(parts@)),
{
    let mut floats: Vec<Float> = Vec::new();
    let mut i: usize = 0;
    let ghost views = part_views(parts@);
    assert(views.take(0) =~= Seq::<PartView>::empty());
    while i < parts.len()
        invariant
            i <= parts@.len(),
            views == part_views(parts@),
            floats@ == float_parts(views.take(i as int)),
            floats@.len() == floats_in(views.take(i as int)),
        decreases parts@.len() - i,
    {
        proof {
            assert(views.take(i + 1).drop_last() =~= views.take(i as int));
            assert(views.take(i + 1).last() == parts@[i as int]@);
        }
        match &parts[i] {
            ConcatPart::Float(float) => {
                floats.push(*float);
            },
            ConcatPart::Text(_) => {},
        }
        i = i + 1;
    }
    assert(views.take(i as int) =~= views);
    floats
}

/// The texts of a sequence of strings.
pub open spec fn string_views(strings: Seq<String>) -> Seq<Seq<char>> {
    Seq::new(strings.len(), |i: int| strings[i]@)
}

/// Put the parts together, with `texts` for the double-precision numbers
/// among them. `None` where the numbers are more than the texts.
pub fn join(parts: &Vec<ConcatPart>, texts: &Vec<String>, size_hint: usize) -> (result: Option<String>)
    ensures
        match joined(part_views(parts@), string_views(texts@)) {
            Some(text) => result matches Some(string) && string@ == text,
            None => result is None,
        },
{
    let mut buffer = String::new();
    let mut used: usize = 0;
    let mut i: usize = 0;
    let ghost views = part_views(parts@);
    let ghost numbers = string_views(texts@);
    assert(views.take(0) =~= Seq::<PartView>::empty());
    while i < parts.len()
        invariant
            i <= parts@.len(),
            views == part_views(parts@),
            numbers == string_views(texts@),
            used == floats_in(views.take(i as int)),
            used <= texts@.len(),
            joined(views.take(i as int), numbers) == Some(buffer@),
        decreases parts@.len() - i,
    {
        proof {
            assert(views.take(i + 1).drop_last() =~= views.take(i as int));
            assert(views.take(i + 1).last() == parts@[i as int]@);
        }
        match &parts[i] {
            ConcatPart::Text(text) => {
                buffer.append(text.as_str());
            },
            ConcatPart::Float(_) => {
                if used >= texts.len() {
                    proof {
                        lemma_joined_none(views, numbers, i + 1);
                    }
                    return None;
                }
                buffer.append(texts[used].as_str());
                used = used + 1;
            },
        }
        i = i + 1;
    }
    assert(views.take(i as int) =~= views);
    Some(buffer)
}

/// Once a prefix of the parts has no text, no longer prefix has one.
pub proof fn lemma_joined_none(parts: Seq<PartView>, texts: Seq<Seq<char>>, len: int)
    requires
        0 <= len <= parts.len(),
        joined(parts.take(len), texts) is None,
    ensures
        joined(parts, texts) is None,
    decreases parts.len() - len,
{
    if len < parts.len() {
        assert(parts.take(len + 1).drop_last() =~= parts.take(len));
        lemma_joined_none(parts, texts, len + 1);
    } else {
        assert(parts.take(len) =~= parts);
    }
}

/// Where the texts are as many as the numbers among the parts, or more,
/// the parts have a text.
pub proof fn lemma_joined_some(parts: Seq<PartView>, texts: Seq<Seq<char>>)
    requires
        floats_in(parts) <= texts.len(),
    ensures
        joined(parts, texts) is Some,
    decreases parts.len(),
{
    if parts.len() > 0 {
        lemma_joined_some(parts.drop_last(), texts);
    }
}

} // verus!
