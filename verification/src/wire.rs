//! The envelope of the remote wire protocol.
//!
//! An outbound message travels as a JSON array with one element: an opening
//! bracket, the encoded message, a closing bracket, and not a character more.
//! Peers depend on exactly this form.
//!
//! An inbound frame is a JSON array of any number of units. A unit is taken
//! as it stands; all that is read of it is its correlation id, the member
//! named `id` of a unit that is a JSON object. Where a unit writes that
//! member more than once, the last one counts.

use crate::connector::{unit_views, InboundUnit, InboundUnitView};
use crate::json::{
    json_array_elements, json_object_members, member_views, parse_array, parse_object, text_views,
};
use vstd::prelude::*;
use vstd::string::{StrSliceExecFns, StringExecFns};

verus! {

/// The frame that carries `payload`: `[`, the payload, `]`.
pub open spec fn frame_spec(payload: Seq<char>) -> Seq<char> {
    seq!['['] + payload + seq![']']
}

/// Whether `text` has the outline of a frame: it opens with `[` and closes
/// with `]`.
pub open spec fn is_framed(text: Seq<char>) -> bool {
    text.len() >= 2 && text.first() == '[' && text.last() == ']'
}

/// What stands between the brackets of `text`, if it has the outline of a
/// frame.
pub open spec fn unframe_spec(text: Seq<char>) -> Option<Seq<char>> {
    if is_framed(text) {
        Some(text.subrange(1, text.len() - 1))
    } else {
        None
    }
}

/// Wraps an encoded message in the one-element array frame.
pub fn frame(payload: &str) -> (framed: String)
    ensures
        framed@ == frame_spec(payload@),
{
    proof {
        reveal_strlit("[");
        reveal_strlit("]");
        assert("["@ == seq!['[']);
        assert("]"@ == seq![']']);
    }
    String::from_str("[").concat(payload).concat("]")
}

/// Takes the frame off again, as the receiving end of [`frame`] does: the
/// text between the outermost brackets, or `None` where the text does not
/// open with `[` and close with `]`.
pub fn unframe(text: &str) -> (payload: Option<String>)
    ensures
        payload is Some == is_framed(text@),
        payload matches Some(inner) ==> unframe_spec(text@) == Some(inner@),
{
    let len = text.unicode_len();
    if len < 2 {
        return None;
    }
    if text.get_char(0) != '[' || text.get_char(len - 1) != ']' {
        return None;
    }
    Some(String::from_str(text.substring_char(1, len - 1)))
}

/// Framing loses nothing and adds nothing: taking the frame off a framed
/// payload gives the payload back, character for character.
pub proof fn lemma_unframe_inverts_frame(payload: Seq<char>)
    ensures
        is_framed(frame_spec(payload)),
        unframe_spec(frame_spec(payload)) == Some(payload),
{
    let framed = frame_spec(payload);
    assert(framed.len() == payload.len() + 2);
    assert(framed.first() == '[');
    assert(framed.last() == ']');
    assert(framed.subrange(1, framed.len() - 1) == payload);
}

/// Two payloads never share a frame.
pub proof fn lemma_frame_is_injective(first: Seq<char>, second: Seq<char>)
    requires
        frame_spec(first) == frame_spec(second),
    ensures
        first == second,
{
    lemma_unframe_inverts_frame(first);
    lemma_unframe_inverts_frame(second);
}

/// Whether `c` is one of the digits `0` to `9`.
pub open spec fn is_digit(c: char) -> bool {
    '0' <= c <= '9'
}

/// The number that the digit `c` stands for.
pub open spec fn digit_value(c: char) -> nat {
    if is_digit(c) {
        (c as nat - '0' as nat) as nat
    } else {
        0
    }
}

/// The number that a run of digits writes in base ten.
pub open spec fn decimal_value(digits: Seq<char>) -> nat
    decreases digits.len(),
{
    if digits.len() == 0 {
        0
    } else {
        10 * decimal_value(digits.drop_last()) + digit_value(digits.last())
    }
}

/// The number that `text` writes, where `text` is made of digits and nothing
/// else and the number fits in 32 bits.
pub open spec fn decimal_spec(text: Seq<char>) -> Option<u32> {
    if text.len() > 0 && (forall|i: int| 0 <= i < text.len() ==> is_digit(#[trigger] text[i]))
        && decimal_value(text) <= u32::MAX {
        Some(decimal_value(text) as u32)
    } else {
        None
    }
}

/// The correlation id among the members of a unit: the number that the
/// member named `id` holds, if there is such a member and it holds one. The
/// members of an object have names of their own, so there is at most one.
pub open spec fn id_of_members(members: Seq<(Seq<char>, Seq<char>)>) -> Option<u32>
    decreases members.len(),
{
    if members.len() == 0 {
        None
    } else if members.first().0 == "id"@ {
        decimal_spec(members.first().1)
    } else {
        id_of_members(members.drop_first())
    }
}

/// The unit that an element of an inbound frame is, given the element's text
/// and its members if it is a JSON object.
pub open spec fn unit_spec(
    element: Seq<char>,
    members: Option<Seq<(Seq<char>, Seq<char>)>>,
) -> InboundUnitView {
    InboundUnitView {
        id: match members {
            Some(members) => id_of_members(members),
            None => None,
        },
        body: element,
    }
}

/// The units of the inbound frame `text`, in the frame's order; `None` where
/// `text` is not a JSON array.
pub open spec fn decode_spec(text: Seq<char>) -> Option<Seq<InboundUnitView>> {
    match json_array_elements(text) {
        None => None,
        Some(elements) => Some(
            Seq::new(
                elements.len(),
                |i: int| unit_spec(elements[i], json_object_members(elements[i])),
            ),
        ),
    }
}

/// Reads a number written in plain decimal digits.
pub fn parse_decimal(text: &str) -> (number: Option<u32>)
    ensures
        number == decimal_spec(text@),
{
    let len = text.unicode_len();
    if len == 0 {
        return None;
    }
    let mut value: u64 = 0;
    let mut at: usize = 0;
    while at < len
        invariant
            at <= len,
            len == text@.len(),
            forall|i: int| 0 <= i < at ==> is_digit(#[trigger] text@[i]),
            value == decimal_value(text@.take(at as int)),
            value <= u32::MAX,
        decreases len - at,
    {
        let c = text.get_char(at);
        if c < '0' || c > '9' {
            return None;
        }
        let digit: u64 = (c as u32 - '0' as u32) as u64;
        let next: u64 = value * 10 + digit;
        proof {
            assert(text@.take(at as int + 1).drop_last() == text@.take(at as int));
            assert(next == decimal_value(text@.take(at as int + 1)));
        }
        if next > u32::MAX as u64 {
            proof {
                lemma_decimal_value_grows(text@, at as int + 1);
            }
            return None;
        }
        value = next;
        at += 1;
    }
    proof {
        assert(text@.take(at as int) == text@);
    }
    Some(value as u32)
}

/// Makes the unit of one element of an inbound frame from the element's text
/// and from what the JSON parser made of it as an object.
pub fn unit_of(element: String, parsed: Result<Vec<(String, String)>, serde_json::Error>) -> (unit:
    InboundUnit)
    ensures
        unit@ == unit_spec(
            element@,
            match parsed {
                Ok(members) => Some(member_views(members@)),
                Err(_) => None,
            },
        ),
{
    let members = match parsed {
        Ok(members) => members,
        Err(_) => {
            return InboundUnit { id: None, body: element };
        },
    };
    let id_name = String::from_str("id");
    let ghost views = member_views(members@);
    let mut at: usize = 0;
    proof {
        assert(views.skip(0) == views);
    }
    while at < members.len()
        invariant
            at <= members@.len(),
            views == member_views(members@),
            parsed matches Ok(all) && all == members,
            id_name@ == "id"@,
            id_of_members(views) == id_of_members(views.skip(at as int)),
        decreases members@.len() - at,
    {
        proof {
            let rest = views.skip(at as int);
            assert(rest.first() == views[at as int]);
            assert(rest.drop_first() == views.skip(at as int + 1));
        }
        if members[at].0 == id_name {
            let id = parse_decimal(members[at].1.as_str());
            assert(id == id_of_members(views.skip(at as int)));
            return InboundUnit { id, body: element };
        }
        at += 1;
    }
    proof {
        assert(views.skip(at as int).len() == 0);
    }
    InboundUnit { id: None, body: element }
}

/// Takes an inbound frame apart into its units.
pub fn decode_frame(text: &str) -> (decoded: Option<Vec<InboundUnit>>)
    ensures
        decoded matches Some(units) ==> decode_spec(text@) == Some(unit_views(units@)),
        decoded is None ==> decode_spec(text@) is None,
{
    let elements = match parse_array(text) {
        Ok(elements) => elements,
        Err(_) => {
            return None;
        },
    };
    let ghost texts = text_views(elements@);
    let mut units: Vec<InboundUnit> = Vec::new();
    let mut at: usize = 0;
    while at < elements.len()
        invariant
            at <= elements@.len(),
            texts == text_views(elements@),
            units@.len() == at,
            forall|i: int|
                0 <= i < at ==> (#[trigger] units@[i])@ == unit_spec(
                    texts[i],
                    json_object_members(texts[i]),
                ),
        decreases elements@.len() - at,
    {
        let element = elements[at].clone();
        let members = parse_object(element.as_str());
        let unit = unit_of(element, members);
        units.push(unit);
        at += 1;
    }
    proof {
        assert(decode_spec(text@)->0 =~= unit_views(units@));
    }
    Some(units)
}

proof fn lemma_decimal_value_grows(digits: Seq<char>, upto: int)
    requires
        0 <= upto <= digits.len(),
    ensures
        decimal_value(digits.take(upto)) <= decimal_value(digits),
    decreases digits.len() - upto,
{
    if upto == digits.len() {
        assert(digits.take(upto) == digits);
    } else {
        lemma_decimal_value_grows(digits.drop_last(), upto);
        assert(digits.drop_last().take(upto) == digits.take(upto));
    }
}

} // verus!
