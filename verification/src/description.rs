//! Session descriptions and their JSON form.
use vstd::prelude::*;
use webrtc::peer_connection::sdp::sdp_type::RTCSdpType;
use webrtc::peer_connection::sdp::session_description::RTCSessionDescription;

verus! {

/// `serde_json::Error`, which is carried around without being looked into.
#[verifier::external_type_specification]
#[verifier::external_body]
pub struct ExJsonError(serde_json::Error);

/// The part that a session description plays in a negotiation.
#[derive(Debug, Clone, Copy, PartialEq, Eq, Structural)]
pub enum SdpType {
    Unspecified,
    Offer,
    Pranswer,
    Answer,
    Rollback,
}

/// One side's description of a session.
#[derive(Debug, PartialEq, Eq)]
pub struct SessionDescription {
    pub sdp_type: SdpType,
    pub sdp: String,
}

/// A session description as a value.
#[verifier::ext_equal]
pub struct Description {
    pub sdp_type: SdpType,
    pub sdp: Seq<char>,
}

impl View for SessionDescription {
    type V = Description;

    open spec fn view(&self) -> Description {
        Description { sdp_type: self.sdp_type, sdp: self.sdp@ }
    }
}

/// The values of optional descriptions.
pub open spec fn description_view(description: Option<SessionDescription>) -> Option<Description> {
    match description {
        Some(d) => Some(d@),
        None => None,
    }
}

/// The name of a type in JSON.
pub open spec fn json_name(sdp_type: SdpType) -> Seq<char> {
    match sdp_type {
        SdpType::Unspecified => "Unspecified"@,
        SdpType::Offer => "offer"@,
        SdpType::Pranswer => "pranswer"@,
        SdpType::Answer => "answer"@,
        SdpType::Rollback => "rollback"@,
    }
}

/// The hexadecimal digit of a value.
pub open spec fn hex_digit(value: int) -> char {
    if value < 10 {
        ('0' as int + value) as char
    } else {
        ('a' as int + (value - 10)) as char
    }
}

/// A character inside a JSON string: as it is, unless it is a quote, a backslash or a control
/// character.
pub open spec fn escaped_char(c: char) -> Seq<char> {
    if c == '"' || c == '\\' {
        seq!['\\', c]
    } else if c == '\u{8}' {
        seq!['\\', 'b']
    } else if c == '\t' {
        seq!['\\', 't']
    } else if c == '\n' {
        seq!['\\', 'n']
    } else if c == '\u{c}' {
        seq!['\\', 'f']
    } else if c == '\r' {
        seq!['\\', 'r']
    } else if c <= '\u{1f}' {
        seq!['\\', 'u', '0', '0', hex_digit(c as int / 16), hex_digit(c as int % 16)]
    } else {
        seq![c]
    }
}

/// The text inside a JSON string.
pub open spec fn escaped(text: Seq<char>) -> Seq<char>
    decreases text.len(),
{
    if text.len() == 0 {
        Seq::empty()
    } else {
        escaped(text.drop_last()) + escaped_char(text.last())
    }
}

/// The JSON text of a description of this type with this SDP.
pub open spec fn description_json(sdp_type: SdpType, sdp: Seq<char>) -> Seq<char> {
    "{\"type\":\""@ + json_name(sdp_type) + "\",\"sdp\":\""@ + escaped(sdp) + "\"}"@
}

/// The type and the SDP of the description that `serde_json` reads from the text, or `None` where
/// it reports an error.
pub uninterp spec fn description_read(text: Seq<char>) -> Option<(SdpType, Seq<char>)>;

impl Description {
    /// The JSON text of the description.
    pub open spec fn json(self) -> Seq<char> {
        description_json(self.sdp_type, self.sdp)
    }

    /// The description that the JSON text holds, if it holds one.
    pub open spec fn read(text: Seq<char>) -> Option<Description> {
        match description_read(text) {
            Some((sdp_type, sdp)) => Some(Description { sdp_type, sdp }),
            None => None,
        }
    }
}

/// A description as a value has the type and the SDP of the description.
pub proof fn law_description_value(description: SessionDescription)
    ensures
        description@.sdp_type == description.sdp_type,
        description@.sdp == description.sdp@,
        description_view(Some(description)) == Some(description@),
        description_view(None) is None,
{
}

/// Inside a JSON string every character stands for itself, in its place, but for quotes, backslashes
/// and control characters, which are escaped.
pub proof fn law_escaped_by_character(text: Seq<char>, c: char)
    ensures
        escaped(Seq::empty()) == Seq::<char>::empty(),
        escaped(text.push(c)) == escaped(text) + if c == '"' {
            seq!['\\', '"']
        } else if c == '\\' {
            seq!['\\', '\\']
        } else if c as int == 8 {
            seq!['\\', 'b']
        } else if c as int == 9 {
            seq!['\\', 't']
        } else if c as int == 10 {
            seq!['\\', 'n']
        } else if c as int == 12 {
            seq!['\\', 'f']
        } else if c as int == 13 {
            seq!['\\', 'r']
        } else if c as int <= 31 {
            seq![
                '\\',
                'u',
                '0',
                '0',
                "0123456789abcdef"@[c as int / 16],
                "0123456789abcdef"@[c as int % 16],
            ]
        } else {
            seq![c]
        },
{
    reveal_strlit("0123456789abcdef");
    assert(text.push(c).drop_last() =~= text);
}

/// The JSON text of a description names its own type and holds its own SDP.
pub proof fn law_json_of_a_description(description: Description)
    ensures
        description.json() == "{\"type\":\""@ + (match description.sdp_type {
            SdpType::Unspecified => "Unspecified"@,
            SdpType::Offer => "offer"@,
            SdpType::Pranswer => "pranswer"@,
            SdpType::Answer => "answer"@,
            SdpType::Rollback => "rollback"@,
        }) + "\",\"sdp\":\""@ + escaped(description.sdp) + "\"}"@,
        description.json() == description_json(description.sdp_type, description.sdp),
{
}

/// A description that is read has the type and the SDP that stand in the text.
pub proof fn law_read_description(text: Seq<char>)
    ensures
        match description_read(text) {
            Some((sdp_type, sdp)) => {
                &&& Description::read(text) matches Some(d)
                &&& d.sdp_type == sdp_type
                &&& d.sdp == sdp
            },
            None => Description::read(text) is None,
        },
{
}

/// The parts of a description that could be read are its type and its SDP.
pub proof fn law_read_parts<E>(read: Result<SessionDescription, E>)
    ensures
        match read {
            Ok(d) => read_parts(read) == Some((d.sdp_type, d.sdp@)),
            Err(_) => read_parts(read) is None,
        },
{
}

/// The JSON text of a description is not empty.
pub proof fn lemma_json_not_empty(description: Description)
    ensures
        description.json().len() > 0,
{
    reveal_strlit("\"}");
}

/// The type and the SDP of a description that could be read.
pub open spec fn read_parts<E>(read: Result<SessionDescription, E>) -> Option<
    (SdpType, Seq<char>),
> {
    match read {
        Ok(d) => Some((d.sdp_type, d.sdp@)),
        Err(_) => None,
    }
}

/// `serde_json::to_string` on an `RTCSessionDescription` of the `webrtc` crate. Claimed of it: it
/// does not fail, the type being a string and an enum of bare names whose `Serialize` is derived;
/// the text is an object of the type's name and the SDP, in this order, without spaces, and with
/// quotes, backslashes and control characters of the SDP escaped; and reading the text gives the
/// description back.
#[verifier::external_body]
pub(crate) fn write_json(description: &SessionDescription) -> (text: Result<
    String,
    serde_json::Error,
>)
    ensures
        text is Ok,
        text->Ok_0@ == description_json(description.sdp_type, description.sdp@),
        description_read(text->Ok_0@) == Some((description.sdp_type, description.sdp@)),
{
    let mut outside = RTCSessionDescription::default();
    outside.sdp_type = match description.sdp_type {
        SdpType::Unspecified => RTCSdpType::Unspecified,
        SdpType::Offer => RTCSdpType::Offer,
        SdpType::Pranswer => RTCSdpType::Pranswer,
        SdpType::Answer => RTCSdpType::Answer,
        SdpType::Rollback => RTCSdpType::Rollback,
    };
    outside.sdp = description.sdp.clone();
    serde_json::to_string(&outside)
}

/// `serde_json::from_str` into an `RTCSessionDescription` of the `webrtc` crate. Claimed of it:
/// what is read, and whether anything is, is a function of the text. Which texts are read, and
/// which error comes for another, is not said.
#[verifier::external_body]
pub(crate) fn read_json(text: &str) -> (read: Result<SessionDescription, serde_json::Error>)
    ensures
        read_parts(read) == description_read(text@),
{
    let outside = serde_json::from_str::<RTCSessionDescription>(text)?;
    let sdp_type = match outside.sdp_type {
        RTCSdpType::Unspecified => SdpType::Unspecified,
        RTCSdpType::Offer => SdpType::Offer,
        RTCSdpType::Pranswer => SdpType::Pranswer,
        RTCSdpType::Answer => SdpType::Answer,
        RTCSdpType::Rollback => SdpType::Rollback,
    };
    Ok(SessionDescription { sdp_type, sdp: outside.sdp })
}

} // verus!
