//! Applying a profile to the repository in the current directory.
//!
//! The version-control tool is a separate program, and launching it is the
//! caller's part. This module decides: which invocation comes next, and what
//! follows from how the last one went. The caller asks for the pending
//! invocation, runs it, reports the outcome, and repeats until nothing is
//! pending.
use vstd::prelude::*;
use crate::error::StoreError;
use crate::message::{render_switched, switched_line};
use crate::profile::{Profile, ProfileField};

verus! {

/// One call of the external tool, in plain form: the program and its
/// arguments.
pub type Call = (Seq<char>, Seq<Seq<char>>);

/// One call of the external tool.
#[derive(Debug, PartialEq, Eq)]
pub struct Invocation {
    pub program: String,
    pub args: Vec<String>,
}

impl View for Invocation {
    type V = Call;

    open spec fn view(&self) -> Call {
        (self.program@, self.args@.map_values(|s: String| s@))
    }
}

/// How an invocation went, as far as this library tells outcomes apart.
#[derive(Debug, PartialEq, Eq)]
pub enum LaunchOutcome {
    /// The tool ran and exited; the exit code, if any, is not looked at.
    Exited(Option<i32>),
    /// The tool could not be started; the text says why.
    LaunchFailed(String),
}

/// Where the applying of a profile stands.
#[derive(Clone, Copy, Debug, PartialEq, Eq, Structural)]
pub enum Stage {
    /// The invocation for this field is the next to make.
    Next(ProfileField),
    /// Both invocations were made.
    Applied,
    /// An invocation could not be launched; none follows.
    Aborted,
}

/// The configuration key that holds a field.
pub open spec fn key_of(field: ProfileField) -> Seq<char> {
    match field {
        ProfileField::Name => "user.name"@,
        ProfileField::Email => "user.email"@,
    }
}

/// The value of a field of a profile.
pub open spec fn value_of(profile: (Seq<char>, Seq<char>), field: ProfileField) -> Seq<char> {
    match field {
        ProfileField::Name => profile.0,
        ProfileField::Email => profile.1,
    }
}

/// The call that writes one field into the local configuration.
pub open spec fn config_call(profile: (Seq<char>, Seq<char>), field: ProfileField) -> Call {
    ("git"@, seq!["config"@, key_of(field), value_of(profile, field)])
}

/// The call that is due at a stage, if any.
pub open spec fn pending_call(profile: (Seq<char>, Seq<char>), stage: Stage) -> Option<Call> {
    match stage {
        Stage::Next(field) => Some(config_call(profile, field)),
        _ => None,
    }
}

/// The stage that follows when the invocation due at `stage` went as
/// `outcome` says. An exit code never matters; a failed launch ends it.
pub open spec fn stage_after(stage: Stage, outcome: LaunchOutcome) -> Stage {
    match (stage, outcome) {
        (Stage::Next(_), LaunchOutcome::LaunchFailed(_)) => Stage::Aborted,
        (Stage::Next(ProfileField::Name), LaunchOutcome::Exited(_)) => Stage::Next(
            ProfileField::Email,
        ),
        (Stage::Next(ProfileField::Email), LaunchOutcome::Exited(_)) => Stage::Applied,
        (s, _) => s,
    }
}

/// What is reported when the invocation due at `stage` went as `outcome`
/// says: an error for a failed launch, naming the field and the cause.
pub open spec fn report_after(stage: Stage, outcome: LaunchOutcome) -> Result<(), StoreError> {
    match (stage, outcome) {
        (Stage::Next(field), LaunchOutcome::LaunchFailed(cause)) => Err(
            StoreError::ExternalToolInvocationFailed(field, cause),
        ),
        _ => Ok(()),
    }
}

/// The calls made from `stage` on, when the outcomes come in the given
/// order: each pending call is made, its outcome is taken, and so on until
/// nothing is pending or no outcome is left.
pub open spec fn calls_made(
    profile: (Seq<char>, Seq<char>),
    stage: Stage,
    outcomes: Seq<LaunchOutcome>,
) -> Seq<Call>
    decreases outcomes.len(),
{
    match pending_call(profile, stage) {
        Some(call) if outcomes.len() > 0 => seq![call] + calls_made(
            profile,
            stage_after(stage, outcomes[0]),
            outcomes.drop_first(),
        ),
        _ => seq![],
    }
}

/// The stage reached from `stage` under the same run.
pub open spec fn stage_reached(stage: Stage, outcomes: Seq<LaunchOutcome>) -> Stage
    decreases outcomes.len(),
{
    match stage {
        Stage::Next(_) if outcomes.len() > 0 => stage_reached(
            stage_after(stage, outcomes[0]),
            outcomes.drop_first(),
        ),
        _ => stage,
    }
}

/// The configuration key that holds a field.
pub fn field_key(field: ProfileField) -> (key: &'static str)
    ensures
        key@ == key_of(field),
{
    match field {
        ProfileField::Name => "user.name",
        ProfileField::Email => "user.email",
    }
}

/// The call that writes one field of `profile` into the local configuration.
pub fn invocation_for(profile: &Profile, field: ProfileField) -> (inv: Invocation)
    ensures
        inv@ == config_call(profile@, field),
{
    let value = match field {
        ProfileField::Name => profile.name.clone(),
        ProfileField::Email => profile.email.clone(),
    };
    let mut args: Vec<String> = Vec::new();
    args.push(String::from_str("config"));
    args.push(String::from_str(field_key(field)));
    args.push(value);
    let inv = Invocation { program: String::from_str("git"), args };
    assert(inv@.1 =~= config_call(profile@, field).1);
    inv
}

/// The applying of one profile, from the first invocation to the last.
#[derive(Debug)]
pub struct Applier {
    profile: Profile,
    stage: Stage,
}

impl Applier {
    /// The profile that is being applied.
    pub closed spec fn profile(&self) -> (Seq<char>, Seq<char>) {
        self.profile@
    }

    /// Where the applying stands.
    pub closed spec fn stage(&self) -> Stage {
        self.stage
    }

    /// Starts with the name: nothing has been invoked yet.
    pub fn new(profile: Profile) -> (a: Applier)
        ensures
            a.profile() == profile@,
            a.stage() == Stage::Next(ProfileField::Name),
    {
        Applier { profile, stage: Stage::Next(ProfileField::Name) }
    }

    /// Where the applying stands.
    pub fn current_stage(&self) -> (s: Stage)
        ensures
            s == self.stage(),
    {
        self.stage
    }

    /// The invocation to make next, or `None` when none is due.
    pub fn pending(&self) -> (r: Option<Invocation>)
        ensures
            match pending_call(self.profile(), self.stage()) {
                Some(call) => r is Some && r->Some_0@ == call,
                None => r is None,
            },
    {
        match self.stage {
            Stage::Next(field) => Some(invocation_for(&self.profile, field)),
            _ => None,
        }
    }

    /// The line that confirms the switch, once both invocations were made.
    pub fn confirmation(&self) -> (r: Option<String>)
        ensures
            match r {
                Some(line) => self.stage() == Stage::Applied && line@ == switched_line(
                    self.profile().0,
                    self.profile().1,
                ),
                None => self.stage() != Stage::Applied,
            },
    {
        match self.stage {
            Stage::Applied => Some(
                render_switched(self.profile.name.as_str(), self.profile.email.as_str()),
            ),
            _ => None,
        }
    }

    /// Takes the outcome of the pending invocation and moves on. A failed
    /// launch is reported with its field and cause and ends the applying;
    /// an exit, with whatever code, lets it go on. With nothing pending the
    /// outcome is ignored.
    pub fn record(&mut self, outcome: LaunchOutcome) -> (r: Result<(), StoreError>)
        ensures
            final(self).profile() == old(self).profile(),
            final(self).stage() == stage_after(old(self).stage(), outcome),
            r == report_after(old(self).stage(), outcome),
    {
        match self.stage {
            Stage::Next(field) => match outcome {
                LaunchOutcome::LaunchFailed(cause) => {
                    self.stage = Stage::Aborted;
                    Err(StoreError::ExternalToolInvocationFailed(field, cause))
                },
                LaunchOutcome::Exited(_) => {
                    self.stage = match field {
                        ProfileField::Name => Stage::Next(ProfileField::Email),
                        ProfileField::Email => Stage::Applied,
                    };
                    Ok(())
                },
            },
            _ => Ok(()),
        }
    }
}

/// Whenever both launches succeed, whatever the exit codes and whatever is
/// reported afterwards, exactly two calls are made: first the one that sets
/// the name, then the one that sets the email, each with the profile's own
/// value, and the profile then counts as applied.
pub proof fn lemma_both_fields_set_once(
    profile: (Seq<char>, Seq<char>),
    outcomes: Seq<LaunchOutcome>,
)
    requires
        outcomes.len() >= 2,
        outcomes[0] is Exited,
        outcomes[1] is Exited,
    ensures
        calls_made(profile, Stage::Next(ProfileField::Name), outcomes) == seq![
            config_call(profile, ProfileField::Name),
            config_call(profile, ProfileField::Email),
        ],
        stage_reached(Stage::Next(ProfileField::Name), outcomes) == Stage::Applied,
{
    let first = Stage::Next(ProfileField::Name);
    let second = Stage::Next(ProfileField::Email);
    let rest = outcomes.drop_first();
    assert(stage_after(first, outcomes[0]) == second);
    assert(rest[0] == outcomes[1]);
    assert(stage_after(second, rest[0]) == Stage::Applied);
    assert(calls_made(profile, Stage::Applied, rest.drop_first()) == Seq::<Call>::empty());
    assert(calls_made(profile, second, rest) == seq![config_call(profile, ProfileField::Email)]
        + Seq::<Call>::empty());
    assert(calls_made(profile, first, outcomes) =~= seq![
        config_call(profile, ProfileField::Name),
        config_call(profile, ProfileField::Email),
    ]);
    assert(stage_reached(Stage::Applied, rest.drop_first()) == Stage::Applied);
    assert(stage_reached(second, rest) == Stage::Applied);
}

/// A launch that fails on the first call ends the applying there: one call
/// was made, and none follows whatever is reported afterwards.
pub proof fn lemma_failed_launch_aborts(
    profile: (Seq<char>, Seq<char>),
    field: ProfileField,
    outcomes: Seq<LaunchOutcome>,
)
    requires
        outcomes.len() >= 1,
        outcomes[0] is LaunchFailed,
    ensures
        calls_made(profile, Stage::Next(field), outcomes) == seq![config_call(profile, field)],
        stage_reached(Stage::Next(field), outcomes) == Stage::Aborted,
        report_after(Stage::Next(field), outcomes[0]) is Err,
{
    let rest = outcomes.drop_first();
    assert(stage_after(Stage::Next(field), outcomes[0]) == Stage::Aborted);
    assert(calls_made(profile, Stage::Aborted, rest) == Seq::<Call>::empty());
    assert(calls_made(profile, Stage::Next(field), outcomes) =~= seq![config_call(profile, field)]);
    assert(stage_reached(Stage::Aborted, rest) == Stage::Aborted);
}

} // verus!
