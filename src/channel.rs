use vstd::prelude::*;

use crate::json::JsonValue;
use crate::message::{message_view, MessageView, OutboundMessage};
use crate::transform::{
    asay_message, handle_access_subscription, handle_asay_subscription,
    handle_meta_subscription, handle_round_subscription,
};

verus! {

/// Whether `c` is an ASCII decimal digit.
pub open spec fn is_digit(c: char) -> bool {
    '0' <= c && c <= '9'
}

/// Whether every character of `s` is a decimal digit.
pub open spec fn all_digits(s: Seq<char>) -> bool {
    forall|i: int| 0 <= i < s.len() ==> is_digit(#[trigger] s[i])
}

/// The value of one decimal digit.
pub open spec fn digit_value(c: char) -> int {
    c as u32 as int - 48
}

/// The value of a string of decimal digits, most significant first.
pub open spec fn digits_value(s: Seq<char>) -> int
    decreases s.len(),
{
    if s.len() == 0 {
        0
    } else {
        digits_value(s.drop_last()) * 10 + digit_value(s.last())
    }
}

/// The digits of a decimal numeral: what follows an optional leading `+`.
pub open spec fn numeral_digits(s: Seq<char>) -> Seq<char> {
    if s.len() > 0 && s[0] == '+' {
        s.drop_first()
    } else {
        s
    }
}

/// The unsigned decimal value that `s` writes: an optional `+`, then one or more
/// digits and nothing else, of a value that fits in a `u64`.
pub open spec fn decimal_u64(s: Seq<char>) -> Option<u64> {
    let d = numeral_digits(s);
    if d.len() > 0 && all_digits(d) && digits_value(d) <= u64::MAX {
        Some(digits_value(d) as u64)
    } else {
        None
    }
}

/// The destination identifier that `s` writes: a decimal value other than 0.
pub open spec fn destination_id(s: Seq<char>) -> Option<u64> {
    match decimal_u64(s) {
        Some(v) => if v != 0 {
            Some(v)
        } else {
            None
        },
        None => None,
    }
}

/// Reads a destination identifier: a non-zero decimal `u64`, with an optional
/// leading `+`.
pub fn parse_destination_id(text: &str) -> (r: Option<u64>)
    ensures
        r == destination_id(text@),
{
    let n = text.unicode_len();
    let mut start: usize = 0;
    if n > 0 && text.get_char(0) == '+' {
        start = 1;
    }
    let ghost d = numeral_digits(text@);
    assert(d =~= text@.subrange(start as int, n as int));
    if start >= n {
        return None;
    }
    let mut acc: u64 = 0;
    let mut overflow = false;
    let mut i: usize = start;
    assert(text@.subrange(start as int, start as int) =~= Seq::<char>::empty());
    while i < n
        invariant
            start <= i <= n,
            n == text@.len(),
            d == text@.subrange(start as int, n as int),
            d == numeral_digits(text@),
            forall|k: int| start <= k < i ==> is_digit(#[trigger] text@[k]),
            !overflow ==> acc == digits_value(text@.subrange(start as int, i as int)),
            overflow ==> digits_value(text@.subrange(start as int, i as int)) > u64::MAX,
        decreases n - i,
    {
        let c = text.get_char(i);
        if !('0' <= c && c <= '9') {
            assert(d[i - start] == c);
            assert(!is_digit(d[i - start]));
            return None;
        }
        let digit = (c as u32 - 48) as u64;
        let ghost before = digits_value(text@.subrange(start as int, i as int));
        assert(text@.subrange(start as int, i as int + 1).drop_last() =~= text@.subrange(
            start as int,
            i as int,
        ));
        assert(digits_value(text@.subrange(start as int, i as int + 1)) == before * 10
            + digit as int);
        if !overflow {
            if acc > (u64::MAX - digit) / 10 {
                assert(acc as int * 10 + digit as int > u64::MAX) by (nonlinear_arith)
                    requires
                        acc > (u64::MAX - digit) / 10,
                        digit <= 9,
                ;
                overflow = true;
            } else {
                assert(acc as int * 10 + digit as int <= u64::MAX) by (nonlinear_arith)
                    requires
                        acc <= (u64::MAX - digit) / 10,
                        digit <= 9,
                ;
                acc = acc * 10 + digit;
            }
        }
        i = i + 1;
    }
    assert(text@.subrange(start as int, n as int) == d);
    assert forall|k: int| 0 <= k < d.len() implies is_digit(#[trigger] d[k]) by {
        assert(d[k] == text@[start + k]);
    }
    if overflow || acc == 0 {
        None
    } else {
        Some(acc)
    }
}

/// The payload transform bound to a channel.
#[derive(Debug, Clone, Copy, PartialEq, Eq, Structural)]
pub enum TransformKind {
    /// Chat lines from the game server.
    Asay,
    /// Admin access events.
    Access,
    /// Round events.
    Round,
    /// Server metadata events.
    Meta,
}

/// What a transform yields for a payload.
pub open spec fn transform_result(kind: TransformKind, payload: Option<JsonValue>) -> Option<
    MessageView,
> {
    match kind {
        TransformKind::Asay => asay_message(payload),
        _ => None,
    }
}

impl TransformKind {
    /// Applies this transform to a payload.
    pub fn apply(&self, payload: &Option<JsonValue>) -> (r: Option<OutboundMessage>)
        ensures
            message_view(r) == transform_result(*self, *payload),
    {
        match self {
            TransformKind::Asay => handle_asay_subscription(payload),
            TransformKind::Access => handle_access_subscription(payload),
            TransformKind::Round => handle_round_subscription(payload),
            TransformKind::Meta => handle_meta_subscription(payload),
        }
    }
}

/// Why a channel's configuration cannot be resolved.
#[derive(Debug, Clone, Copy, PartialEq, Eq, Structural)]
pub enum ResolveError {
    /// No subscription topic is configured.
    MissingTopic,
    /// No output destination is configured.
    MissingDestination,
    /// The output destination is not a non-zero decimal identifier.
    MalformedDestination,
}

/// One relay channel: a topic, the destination its messages go to, and the
/// transform that turns its payloads into messages.
#[derive(Debug, Clone, PartialEq, Eq)]
pub struct ChannelDefinition {
    pub subscription_topic: String,
    pub output_destination: u64,
    pub transform: TransformKind,
}

impl ChannelDefinition {
    /// Builds a channel from its configured values, each `None` where it is not
    /// configured.
    pub fn resolve(
        topic: Option<String>,
        destination: Option<String>,
        transform: TransformKind,
    ) -> (r: Result<ChannelDefinition, ResolveError>)
        ensures
            topic is None ==> r == Err::<ChannelDefinition, ResolveError>(
                ResolveError::MissingTopic,
            ),
            topic is Some && destination is None ==> r == Err::<ChannelDefinition, ResolveError>(
                ResolveError::MissingDestination,
            ),
            topic is Some && destination is Some && destination_id(destination.unwrap()@) is None
                ==> r == Err::<ChannelDefinition, ResolveError>(
                ResolveError::MalformedDestination,
            ),
            r is Ok <==> topic is Some && destination is Some && destination_id(
                destination.unwrap()@,
            ) is Some,
            r is Ok ==> r.unwrap().subscription_topic == topic.unwrap()
                && Some(r.unwrap().output_destination) == destination_id(destination.unwrap()@)
                && r.unwrap().transform == transform,
    {
        let topic = match topic {
            Some(t) => t,
            None => return Err(ResolveError::MissingTopic),
        };
        let destination = match destination {
            Some(d) => d,
            None => return Err(ResolveError::MissingDestination),
        };
        match parse_destination_id(destination.as_str()) {
            Some(id) => Ok(
                ChannelDefinition { subscription_topic: topic, output_destination: id, transform },
            ),
            None => Err(ResolveError::MalformedDestination),
        }
    }
}

} // verus!
