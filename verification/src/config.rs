//! Keeping the configuration of a listener and of its clients up to date.

use vstd::prelude::*;

verus! {

/// Takes over a configuration and options that were read again from disk, and
/// keeps those in use if they could not be read.
pub fn reload_config_from_disk<C, O, E>(
    config_without_layout: &mut C,
    config_options_without_layout: &mut O,
    reloaded: Result<(C, O), E>,
)
    ensures
        reloaded matches Ok((config, options)) ==> *final(config_without_layout) == config
            && *final(config_options_without_layout) == options,
        reloaded is Err ==> *final(config_without_layout) == *old(config_without_layout)
            && *final(config_options_without_layout) == *old(config_options_without_layout),
{
    match reloaded {
        Ok((config, options)) => {
            *config_without_layout = config;
            *config_options_without_layout = options;
        },
        Err(_) => {},
    }
}

/// A configuration message on its way to the control channel of one client.
#[derive(Debug, PartialEq, Eq)]
pub struct ConfigDelivery {
    pub client_id: String,
    pub message: String,
}

/// Addresses a configuration message to every client, in the order given. There
/// is nothing to deliver when the message could not be put into words.
pub fn config_broadcast(client_ids: Vec<String>, message: Option<String>) -> (r: Vec<
    ConfigDelivery,
>)
    ensures
        message is None ==> r@.len() == 0,
        message matches Some(m) ==> r@.len() == client_ids@.len() && forall|i: int|
            0 <= i < r@.len() ==> (#[trigger] r@[i]).client_id@ == client_ids@[i]@
                && r@[i].message@ == m@,
{
    let mut deliveries: Vec<ConfigDelivery> = Vec::new();
    if let Some(message) = message {
        let mut i: usize = 0;
        while i < client_ids.len()
            invariant
                i <= client_ids@.len(),
                deliveries@.len() == i,
                forall|k: int|
                    0 <= k < i ==> (#[trigger] deliveries@[k]).client_id@ == client_ids@[k]@
                        && deliveries@[k].message@ == message@,
            decreases client_ids@.len() - i,
        {
            deliveries.push(
                ConfigDelivery { client_id: client_ids[i].clone(), message: message.clone() },
            );
            i += 1;
        }
    }
    deliveries
}

/// Every client gets the message, once, in the order given, and nobody else gets
/// anything. Without a message nobody does.
pub proof fn law_every_client_gets_the_configuration(
    client_ids: Vec<String>,
    message: Option<String>,
    deliveries: Vec<ConfigDelivery>,
    i: int,
)
    requires
        call_ensures(config_broadcast, (client_ids, message), deliveries),
        0 <= i < client_ids@.len(),
    ensures
        message is Some ==> deliveries@.len() == client_ids@.len() && deliveries@[i].client_id@
            == client_ids@[i]@ && deliveries@[i].message@ == message->0@,
        message is None ==> deliveries@.len() == 0,
{
}

/// What was read takes the place of what was in use, all of it or nothing.
pub proof fn law_configuration_is_taken_over_whole<C, O, E>(reloaded: Result<(C, O), E>)
    ensures
        forall|config: &mut C, options: &mut O| #[trigger]
            call_ensures(reload_config_from_disk::<C, O, E>, (config, options, reloaded), ())
                ==> match reloaded {
                Ok(read) => (*final(config), *final(options)) == read,
                Err(_) => *final(config) == *config && *final(options) == *options,
            },
{
}

} // verus!
