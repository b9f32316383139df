//! Verdicts received from the judgment service, and the disposition an
//! enforcer derives from a verdict's command.

use vstd::prelude::*;

verus! {

/// A verdict's command: an action string and an optional redirect target.
/// The enforcer reads only the action; its redirect route is fixed, so the
/// target merely rides along.
pub struct Command {
    pub action: Vec<u8>,
    pub redirect_target: Option<Vec<u8>>,
}

/// The mathematical view of a `Command`.
pub struct CommandModel {
    pub action: Seq<u8>,
    pub redirect_target: Option<Seq<u8>>,
}

/// A verdict from the judgment service.
pub struct Verdict {
    pub artifact_type: Vec<u8>,
    pub threat_level: Vec<u8>,
    pub command: Command,
}

/// The mathematical view of a `Verdict`.
pub struct VerdictModel {
    pub artifact_type: Seq<u8>,
    pub threat_level: Seq<u8>,
    pub command: CommandModel,
}

impl View for Command {
    type V = CommandModel;

    open spec fn view(&self) -> CommandModel {
        CommandModel {
            action: self.action@,
            redirect_target: match self.redirect_target {
                Option::Some(t) => Option::Some(t@),
                Option::None => Option::None,
            },
        }
    }
}

impl View for Verdict {
    type V = VerdictModel;

    open spec fn view(&self) -> VerdictModel {
        VerdictModel {
            artifact_type: self.artifact_type@,
            threat_level: self.threat_level@,
            command: self.command@,
        }
    }
}

/// The action string `BLOCK`.
pub open spec fn action_block() -> Seq<u8> {
    seq![66u8, 76u8, 79u8, 67u8, 75u8]
}

/// The action string `DECEIVE`.
pub open spec fn action_deceive() -> Seq<u8> {
    seq![68u8, 69u8, 67u8, 69u8, 73u8, 86u8, 69u8]
}

/// The action string `ALLOW`.
pub open spec fn action_allow() -> Seq<u8> {
    seq![65u8, 76u8, 76u8, 79u8, 87u8]
}

/// The enforcement outcome derived from a verdict.
#[derive(Debug, Clone, Copy, PartialEq, Eq, Structural)]
pub enum Disposition {
    /// Relay the request to the upstream service.
    Forward,
    /// Answer with the fixed block response.
    Block,
    /// Answer with a temporary redirect into the decoy route.
    Deceive,
}

/// The enforcer's decision table: `BLOCK` blocks, `DECEIVE` deceives, and
/// every other action — `ALLOW` and anything unrecognized — forwards.
/// Only the command's action is consulted.
pub open spec fn disposition_of(v: VerdictModel) -> Disposition {
    if v.command.action == action_block() {
        Disposition::Block
    } else if v.command.action == action_deceive() {
        Disposition::Deceive
    } else {
        Disposition::Forward
    }
}

/// Maps a verdict's command to its disposition.
pub fn decide(v: &Verdict) -> (d: Disposition)
    ensures
        d == disposition_of(v@),
{
    let block_lit: Vec<u8> = vec![66u8, 76u8, 79u8, 67u8, 75u8];
    let deceive_lit: Vec<u8> = vec![68u8, 69u8, 67u8, 69u8, 73u8, 86u8, 69u8];
    assert(block_lit@ =~= action_block());
    assert(deceive_lit@ =~= action_deceive());
    if crate::bytes_eq(v.command.action.as_slice(), block_lit.as_slice()) {
        Disposition::Block
    } else if crate::bytes_eq(v.command.action.as_slice(), deceive_lit.as_slice()) {
        Disposition::Deceive
    } else {
        Disposition::Forward
    }
}

/// A verdict whose command's action is `BLOCK` is dispatched to `Block`,
/// whatever its threat level, artifact type or redirect target.
pub proof fn lemma_block_always_blocks(v: VerdictModel)
    requires
        v.command.action == action_block(),
    ensures
        disposition_of(v) == Disposition::Block,
{
}

/// A verdict whose command's action is `DECEIVE` is dispatched to `Deceive`,
/// whatever its threat level, artifact type or redirect target.
pub proof fn lemma_deceive_always_deceives(v: VerdictModel)
    requires
        v.command.action == action_deceive(),
    ensures
        disposition_of(v) == Disposition::Deceive,
{
}

/// A verdict whose command's action is anything but `BLOCK` or `DECEIVE` —
/// `ALLOW` included — is dispatched to `Forward`.
pub proof fn lemma_other_actions_forward(v: VerdictModel)
    requires
        v.command.action != action_block(),
        v.command.action != action_deceive(),
    ensures
        disposition_of(v) == Disposition::Forward,
{
}

} // verus!
