//! The command-registry introspection: turns the chat-command registry, handed
//! in as plain values, into the DTOs the presentation layer lists. A command's
//! display name is its first trigger, or `"?"` when it has none.

use vstd::prelude::*;

verus! {

/// One argument of a chat command, as the presentation layer lists it.
#[derive(Debug)]
pub struct CommandArgDto {
    pub name: String,
    pub required: bool,
}

/// One chat command, as the presentation layer lists it.
#[derive(Debug)]
pub struct CommandInfoDto {
    /// Display name: the command's first trigger, or `"?"` without one.
    pub name: String,
    pub triggers: Vec<String>,
    pub args: Vec<CommandArgDto>,
    pub description: String,
}

/// One entry of the command registry, as the protocol layer defines it.
#[derive(Debug)]
pub struct CommandEntry {
    pub triggers: Vec<String>,
    pub args: Vec<CommandArgDto>,
    pub description: String,
}

/// The display name an entry gets: its first trigger, or `"?"`.
pub open spec fn display_name(triggers: Seq<String>) -> Seq<char> {
    if triggers.len() > 0 {
        triggers[0]@
    } else {
        "?"@
    }
}

/// Whether `dto` lists `entry` faithfully.
pub open spec fn lists_entry(dto: CommandInfoDto, entry: CommandEntry) -> bool {
    &&& dto.name@ == display_name(entry.triggers@)
    &&& dto.triggers == entry.triggers
    &&& dto.args == entry.args
    &&& dto.description == entry.description
}

/// Builds the DTO for one registry entry.
pub fn command_info(entry: CommandEntry) -> (dto: CommandInfoDto)
    ensures
        lists_entry(dto, entry),
{
    let name = if entry.triggers.len() > 0 {
        entry.triggers[0].clone()
    } else {
        String::from_str("?")
    };
    CommandInfoDto { name, triggers: entry.triggers, args: entry.args, description: entry.description }
}

/// Lists the whole registry: the command prefix as handed in, and one DTO per
/// entry, in registry order.
pub fn get_commands(prefix: String, registry: Vec<CommandEntry>) -> (r: (String, Vec<
    CommandInfoDto,
>))
    ensures
        r.0 == prefix,
        r.1@.len() == registry@.len(),
        forall|i: int| 0 <= i < registry@.len() ==> lists_entry(#[trigger] r.1@[i], registry@[i]),
{
    let ghost all = registry@;
    let mut registry = registry;
    let mut dtos: Vec<CommandInfoDto> = Vec::new();
    while registry.len() > 0
        invariant
            dtos@.len() + registry@.len() == all.len(),
            registry@ =~= all.subrange(dtos@.len() as int, all.len() as int),
            forall|i: int| 0 <= i < dtos@.len() ==> lists_entry(#[trigger] dtos@[i], all[i]),
        decreases registry@.len(),
    {
        let ghost pre = registry@;
        let entry = registry.remove(0);
        proof {
            assert(registry@ =~= all.subrange(dtos@.len() as int + 1, all.len() as int));
            assert(entry == all[dtos@.len() as int]);
        }
        let dto = command_info(entry);
        dtos.push(dto);
    }
    (prefix, dtos)
}

} // verus!
