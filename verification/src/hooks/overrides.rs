//! Loading XML files and packfiles from the "overrides" folder in place of
//! the game's own.
use vstd::prelude::*;
use crate::common::config::Config;
use crate::hooks::{can_patch, hook_step, install_hook, steps, Hook, PatchAction, PatchStep};
use crate::utils::address::AddressSpace;
use vstd::utf8::encode_utf8;

verus! {

/// What became of reading an XML file from the overrides folder.
pub enum OverrideRead {
    /// The file was read; its text.
    Found(String),
    /// There is no such file.
    NotFound,
    /// The file exists but could not be read.
    Failed,
}

/// What the XML detour does with the outcome of the read.
pub enum XmlOverride {
    /// Let the game parse its own file.
    UseOriginal,
    /// Allocate `alloc_size` bytes from the game's pool, aligned to 4, copy
    /// `buffer` there and let the game parse it; where the game's parser
    /// gives nothing back, fall back to the game's own file.
    Parse { alloc_size: u32, buffer: Vec<u8> },
}

/// Whether an override text can be handed to the game: its length as a
/// 32-bit number must leave room for the terminating nul.
pub open spec fn fits_game_pool(text: Seq<char>) -> bool {
    (encode_utf8(text).len() as u32) < u32::MAX
}

/// Decides what the XML detour does with the outcome of reading the override
/// file. A missing or unreadable file leaves the game's own file in use. A
/// file that was read is copied, with a terminating nul, into a buffer of its
/// length plus one byte (the length taken as a 32-bit number).
pub fn xml_override(read: OverrideRead) -> (action: XmlOverride)
    requires
        read matches OverrideRead::Found(text) ==> fits_game_pool(text@),
    ensures
        match read {
            OverrideRead::Found(text) => action matches XmlOverride::Parse { alloc_size, buffer }
                && alloc_size == (encode_utf8(text@).len() as u32) + 1
                && buffer@ == encode_utf8(text@).push(0u8),
            _ => action is UseOriginal,
        },
{
    match read {
        OverrideRead::Found(text) => {
            let mut buffer = text.as_str().as_bytes_vec();
            let length = buffer.len() as u32;
            buffer.push(0u8);
            XmlOverride::Parse { alloc_size: length + 1, buffer }
        },
        OverrideRead::NotFound => XmlOverride::UseOriginal,
        OverrideRead::Failed => XmlOverride::UseOriginal,
    }
}

/// The override detours of a module loaded at `base`, where overrides are
/// on; none where they are off.
pub open spec fn overrides_plan(base: nat, use_overrides: bool) -> Seq<PatchStep> {
    if use_overrides {
        seq![hook_step(base, Hook::XmlParse), hook_step(base, Hook::KeenCfOpenFile)]
    } else {
        Seq::empty()
    }
}

/// Installs the override detours, if the settings ask for overrides.
pub fn apply(space: &AddressSpace, config: &Config) -> (plan: Vec<PatchAction>)
    requires
        can_patch(space),
    ensures
        steps(plan@) == overrides_plan(space@, config.use_overrides),
{
    let mut plan: Vec<PatchAction> = Vec::new();
    if !config.use_overrides {
        assert(steps(plan@) =~= overrides_plan(space@, config.use_overrides));
        return plan;
    }
    plan.push(install_hook(space, Hook::XmlParse));
    plan.push(install_hook(space, Hook::KeenCfOpenFile));
    assert(steps(plan@) =~= overrides_plan(space@, config.use_overrides));
    plan
}

} // verus!
