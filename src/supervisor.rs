use vstd::prelude::*;

use crate::channel::{destination_id, ChannelDefinition, ResolveError, TransformKind};

verus! {

/// The configured values of one channel, each `None` where it is not set.
pub struct ChannelConfig {
    pub topic: Option<String>,
    pub destination: Option<String>,
    pub transform: TransformKind,
}

/// Why a channel's configuration does not resolve, if it does not.
pub open spec fn config_error(c: ChannelConfig) -> Option<ResolveError> {
    if c.topic is None {
        Some(ResolveError::MissingTopic)
    } else if c.destination is None {
        Some(ResolveError::MissingDestination)
    } else if destination_id(c.destination.unwrap()@) is None {
        Some(ResolveError::MalformedDestination)
    } else {
        None
    }
}

/// The channel that a configuration resolves to, if it does.
pub open spec fn config_channel(c: ChannelConfig) -> Option<ChannelDefinition> {
    if config_error(c) is None {
        Some(
            ChannelDefinition {
                subscription_topic: c.topic.unwrap(),
                output_destination: destination_id(c.destination.unwrap()@).unwrap(),
                transform: c.transform,
            },
        )
    } else {
        None
    }
}

/// The channels that resolve, in configuration order.
pub open spec fn resolved(configs: Seq<ChannelConfig>) -> Seq<ChannelDefinition>
    decreases configs.len(),
{
    if configs.len() == 0 {
        Seq::empty()
    } else {
        let rest = resolved(configs.drop_last());
        match config_channel(configs.last()) {
            Some(d) => rest.push(d),
            None => rest,
        }
    }
}

/// The position and error of each configuration that does not resolve, in order.
pub open spec fn unresolved(configs: Seq<ChannelConfig>) -> Seq<(usize, ResolveError)>
    decreases configs.len(),
{
    if configs.len() == 0 {
        Seq::empty()
    } else {
        let rest = unresolved(configs.drop_last());
        match config_error(configs.last()) {
            Some(e) => rest.push(((configs.len() - 1) as usize, e)),
            None => rest,
        }
    }
}

fn clone_text(v: &Option<String>) -> (r: Option<String>)
    ensures
        r == *v,
{
    match v {
        Some(s) => Some(s.clone()),
        None => None,
    }
}

/// Picks the channels to run: one per configuration that resolves, in order,
/// and the position and error of each one that is skipped.
pub fn resolve_channels(configs: &Vec<ChannelConfig>) -> (r: (
    Vec<ChannelDefinition>,
    Vec<(usize, ResolveError)>,
))
    ensures
        r.0@ == resolved(configs@),
        r.1@ == unresolved(configs@),
{
    let mut channels: Vec<ChannelDefinition> = Vec::new();
    let mut skipped: Vec<(usize, ResolveError)> = Vec::new();
    let mut i: usize = 0;
    assert(configs@.take(0) =~= Seq::<ChannelConfig>::empty());
    while i < configs.len()
        invariant
            i <= configs@.len(),
            channels@ == resolved(configs@.take(i as int)),
            skipped@ == unresolved(configs@.take(i as int)),
        decreases configs.len() - i,
    {
        let c = &configs[i];
        let ghost taken = configs@.take(i as int + 1);
        assert(taken.drop_last() =~= configs@.take(i as int));
        assert(taken.last() == configs@[i as int]);
        match ChannelDefinition::resolve(clone_text(&c.topic), clone_text(&c.destination), c.transform) {
            Ok(d) => channels.push(d),
            Err(e) => skipped.push((i, e)),
        }
        i = i + 1;
    }
    assert(configs@.take(configs@.len() as int) =~= configs@);
    (channels, skipped)
}

} // verus!
