//! Detours of the game loop, the start-up stage, the frame cap and the
//! console, and saving while cheats are on.
use vstd::prelude::*;
use crate::hooks::{can_patch, hook_step, install_hook, steps, Hook, PatchAction, PatchStep};
use crate::utils::address::{addr, AddressSpace};
use crate::utils::traits::ToBytes;
use crate::utils::write_value;
use vstd::utf8::{decode_utf8, valid_utf8};

verus! {

/// The game states that the state-push detour tells apart.
#[derive(Clone, Copy, Debug, PartialEq, Eq, Structural)]
pub enum PushedState {
    /// The screen that searches for a matchmaking game.
    MultiplayerSearchMatchmaking,
    /// The screen that changes the matchmaking game.
    MultiplayerChangeMatchmaking,
    /// Any other state.
    Other,
}

/// Whether the state-push detour hands a new state on to the game: the two
/// matchmaking screens are dropped, every other state is pushed.
pub fn forwards_pushed_state(state: PushedState) -> (forwards: bool)
    ensures
        forwards == (state is Other),
{
    match state {
        PushedState::MultiplayerSearchMatchmaking => false,
        PushedState::MultiplayerChangeMatchmaking => false,
        PushedState::Other => true,
    }
}

/// `text` without its line feeds.
pub open spec fn without_newlines(text: Seq<char>) -> Seq<char>
    decreases text.len(),
{
    if text.len() == 0 {
        Seq::empty()
    } else if text.last() == '\n' {
        without_newlines(text.drop_last())
    } else {
        without_newlines(text.drop_last()).push(text.last())
    }
}

/// The console hook's line holds no line feed, keeps every other
/// character in order, and stripping it again changes nothing.
pub proof fn lemma_without_newlines(text: Seq<char>)
    ensures
        forall|i: int|
            0 <= i < without_newlines(text).len() ==> #[trigger] without_newlines(text)[i] != '\n',
        without_newlines(without_newlines(text)) == without_newlines(text),
        without_newlines(text).len() <= text.len(),
        (forall|i: int| 0 <= i < text.len() ==> #[trigger] text[i] != '\n') ==> without_newlines(
            text,
        ) == text,
    decreases text.len(),
{
    if text.len() > 0 {
        let init = text.drop_last();
        lemma_without_newlines(init);
        let s = without_newlines(init);
        if text.last() != '\n' {
            assert(s.push(text.last()).drop_last() =~= s);
        }
        if forall|i: int| 0 <= i < text.len() ==> #[trigger] text[i] != '\n' {
            assert forall|i: int| 0 <= i < init.len() implies #[trigger] init[i] != '\n' by {
                assert(init[i] == text[i]);
            }
            assert(init.push(text.last()) =~= text);
        }
    }
}

/// Stripping line feeds keeps exactly the characters that are not line
/// feeds, in order: it is vstd's `filter` with "is not a line feed".
pub proof fn lemma_without_newlines_is_filter(text: Seq<char>)
    ensures
        without_newlines(text) == text.filter(|c: char| c != '\n'),
    decreases text.len(),
{
    reveal(Seq::filter);
    if text.len() > 0 {
        lemma_without_newlines_is_filter(text.drop_last());
    }
}

/// The console hook logs exactly the decoded line without its line feeds:
/// for valid UTF-8 every character that is not a line feed is kept, in
/// order, and nothing else, whatever the length of the line; other bytes
/// give "Invalid text".
pub proof fn lemma_console_line_text(raw: Seq<u8>)
    ensures
        valid_utf8(raw) ==> console_line_text(raw) == decode_utf8(raw).filter(|c: char| c != '\n'),
        valid_utf8(raw) ==> console_line_text(raw).len() <= decode_utf8(raw).len(),
        valid_utf8(raw) ==> forall|i: int|
            0 <= i < console_line_text(raw).len() ==> #[trigger] console_line_text(raw)[i] != '\n',
        !valid_utf8(raw) ==> console_line_text(raw) == seq![
            'I',
            'n',
            'v',
            'a',
            'l',
            'i',
            'd',
            ' ',
            't',
            'e',
            'x',
            't',
        ],
{
    if valid_utf8(raw) {
        lemma_without_newlines_is_filter(decode_utf8(raw));
        lemma_without_newlines(decode_utf8(raw));
    }
}

/// What the console hook logs for a line of bytes from the game: the line
/// decoded as UTF-8, without line feeds; "Invalid text" where the bytes are
/// not UTF-8.
pub open spec fn console_line_text(raw: Seq<u8>) -> Seq<char> {
    if valid_utf8(raw) {
        without_newlines(decode_utf8(raw))
    } else {
        seq!['I', 'n', 'v', 'a', 'l', 'i', 'd', ' ', 't', 'e', 'x', 't']
    }
}

/// `std::str::from_utf8`: the bytes as a string where they are valid UTF-8
/// (its documentation: "Converts a slice of bytes to a string slice", and an
/// error where "the slice is not UTF-8"). The contract states validity and
/// the decoding by vstd's definitions of UTF-8.
#[verifier::external_body]
fn str_from_utf8(bytes: &[u8]) -> (text: Option<&str>)
    ensures
        text is Some <==> valid_utf8(bytes@),
        text matches Some(t) ==> t@ == decode_utf8(bytes@),
{
    std::str::from_utf8(bytes).ok()
}

/// `String::push`: appends one character (its documentation: "Appends the
/// given char to the end of this String").
#[verifier::external_body]
fn push_char(text: &mut String, c: char)
    ensures
        final(text)@ == old(text)@.push(c),
{
    text.push(c);
}

/// Removes the line feeds of `text`.
pub fn strip_newlines(text: &str) -> (stripped: String)
    ensures
        stripped@ == without_newlines(text@),
        stripped@ == text@.filter(|c: char| c != '\n'),
{
    proof {
        lemma_without_newlines_is_filter(text@);
    }
    let mut stripped = String::new();
    for c in it: text.chars()
        invariant
            it.seq() == text@,
            stripped@ == without_newlines(text@.take(it.index() as int)),
    {
        assert(text@.take(it.index() + 1).drop_last() =~= text@.take(it.index() as int));
        if c != '\n' {
            push_char(&mut stripped, c);
        }
    }
    assert(text@.take(text@.len() as int) =~= text@);
    stripped
}

/// The text that the console hook logs for a line of the game's console,
/// given its bytes without the terminating nul.
pub fn console_line(raw: &[u8]) -> (line: String)
    ensures
        line@ == console_line_text(raw@),
        valid_utf8(raw@) ==> line@ == decode_utf8(raw@).filter(|c: char| c != '\n'),
        !valid_utf8(raw@) ==> line@ == seq!['I', 'n', 'v', 'a', 'l', 'i', 'd', ' ', 't', 'e', 'x', 't'],
{
    match str_from_utf8(raw) {
        Some(text) => strip_newlines(text),
        None => {
            let line = String::from_str("Invalid text");
            proof {
                reveal_strlit("Invalid text");
            }
            assert(line@ =~= console_line_text(raw@));
            line
        },
    }
}

/// The steps of these changes in a module loaded at `base`: five detours,
/// then the write that lets the game save while cheats are active.
pub open spec fn misc_plan(base: nat) -> Seq<PatchStep> {
    seq![
        hook_step(base, Hook::GameseqPushState),
        hook_step(base, Hook::RfgInitStage1LoopUpdate),
        hook_step(base, Hook::RfgDoFrame),
        hook_step(base, Hook::FrametimeSetCap),
        hook_step(base, Hook::ConsoleUpdate),
        PatchStep::Write(base + 0x3EADEDnat, <i8 as ToBytes>::spec_le_bytes(0)),
    ]
}

/// Installs the detours of the game loop and enables saving with cheats on.
pub fn apply(space: &AddressSpace) -> (plan: Vec<PatchAction>)
    requires
        can_patch(space),
    ensures
        steps(plan@) == misc_plan(space@),
{
    let mut plan: Vec<PatchAction> = Vec::new();
    plan.push(install_hook(space, Hook::GameseqPushState));
    plan.push(install_hook(space, Hook::RfgInitStage1LoopUpdate));
    plan.push(install_hook(space, Hook::RfgDoFrame));
    plan.push(install_hook(space, Hook::FrametimeSetCap));
    plan.push(install_hook(space, Hook::ConsoleUpdate));
    // The cheat flag's argument of stats_set_cheat becomes 0.
    plan.push(PatchAction::Write(write_value::<i8>(addr(space, 0x3EADED), 0)));
    assert(steps(plan@) =~= misc_plan(space@));
    plan
}

/// The game loop changes detour, in order, the state push, the first
/// start-up stage, the frame, the frame cap and the console, and then write
/// a single zero byte at 0x3EADED, the cheat flag that blocks saving.
pub proof fn lemma_misc_steps(base: nat)
    ensures
        misc_plan(base) == seq![
            PatchStep::InstallHook(Hook::GameseqPushState, base + 0x3D87E0nat),
            PatchStep::InstallHook(Hook::RfgInitStage1LoopUpdate, base + 0x1D2360nat),
            PatchStep::InstallHook(Hook::RfgDoFrame, base + 0x1D2420nat),
            PatchStep::InstallHook(Hook::FrametimeSetCap, base + 0x18AD30nat),
            PatchStep::InstallHook(Hook::ConsoleUpdate, base + 0x1AF260nat),
            PatchStep::Write(base + 0x3EADEDnat, seq![0u8]),
        ],
{
    reveal_with_fuel(crate::utils::traits::le_bytes, 5);
    assert(<i8 as ToBytes>::spec_le_bytes(0) =~= seq![0u8]);
    assert(misc_plan(base) =~= seq![
        PatchStep::InstallHook(Hook::GameseqPushState, base + 0x3D87E0nat),
        PatchStep::InstallHook(Hook::RfgInitStage1LoopUpdate, base + 0x1D2360nat),
        PatchStep::InstallHook(Hook::RfgDoFrame, base + 0x1D2420nat),
        PatchStep::InstallHook(Hook::FrametimeSetCap, base + 0x18AD30nat),
        PatchStep::InstallHook(Hook::ConsoleUpdate, base + 0x1AF260nat),
        PatchStep::Write(base + 0x3EADEDnat, seq![0u8]),
    ]);
}

} // verus!
