use crate::channel::ChannelInfo;
use crate::user::User;
use crate::user_map::{map_of_users, UserMap};
use crate::Context;
use vstd::prelude::*;
use vstd::string::StringExecFns;

verus! {

/// Per-channel success: the channel was created, or an existing channel of
/// the same name was reused under the reuse policy.
#[derive(Clone, Copy, PartialEq, Eq, Structural, Debug)]
pub enum MigrationOutcome {
    Created,
    Reused,
}

/// Why a migrator (or the whole run) failed.
#[derive(Debug)]
pub enum MigrationError {
    /// A channel of this name already exists in the guild and the policy
    /// forbids reusing it: an expected business-rule failure, not transport
    /// trouble.
    Conflict { channel_name: String },
    /// The remote API failed while listing or creating channels: transport
    /// or authentication trouble, opaque to the migration logic.
    Remote { message: String },
}

/// The message worn by a conflict failure.
pub open spec fn conflict_message(name: Seq<char>) -> Seq<char> {
    "Channel "@ + name + " already exists"@
}

impl MigrationError {
    /// The human-readable text of this error.
    pub open spec fn spec_message(&self) -> Seq<char> {
        match self {
            MigrationError::Conflict { channel_name } => conflict_message(channel_name@),
            MigrationError::Remote { message } => message@,
        }
    }

    /// Render the error: a single line naming the offending channel for
    /// conflicts, or repeating the underlying remote failure.
    pub fn message(&self) -> (r: String)
        ensures
            r@ == self.spec_message(),
    {
        match self {
            MigrationError::Conflict { channel_name } => {
                let mut r = String::from_str("Channel ");
                r.append(channel_name.as_str());
                r.append(" already exists");
                proof {
                    assert(r@ =~= conflict_message(channel_name@));
                }
                r
            },
            MigrationError::Remote { message } => message.clone(),
        }
    }
}

/// The remote channel type requested on creation: migration always creates
/// plain text channels.
#[derive(Clone, Copy, PartialEq, Eq, Structural, Debug)]
pub enum ChannelKind {
    Text,
}

/// The one remote mutation a migrator may perform: create a channel in the
/// guild with this name, type and topic. Privacy, purpose, creator, members
/// and timestamps are deliberately not propagated.
pub struct CreateChannelRequest {
    pub guild_id: u64,
    pub name: String,
    pub kind: ChannelKind,
    pub topic: String,
}

/// What the conflict-resolution decision table chose.
pub enum ChannelDecision {
    /// No channel of this name exists: create one.
    Create(CreateChannelRequest),
    /// A channel of this name exists and the policy allows reusing it.
    UseExisting,
    /// A channel of this name exists and the policy forbids reusing it.
    Conflict,
}

/// One step of a migrator's run: either the create request the driver must
/// issue (finished with `complete_create`), or the terminal result when no
/// remote mutation is needed.
pub enum MigratorStep {
    NeedsCreate(CreateChannelRequest),
    Settled(Result<MigrationOutcome, MigrationError>),
}

/// `names` holds `name` itself: exact, case-sensitive, character-for-
/// character equality, with no normalization and no fuzzy matching.
pub open spec fn has_name(names: Seq<Seq<char>>, name: Seq<char>) -> bool {
    exists|i: int| 0 <= i < names.len() && names[i] == name
}

/// Name matching is exact and case-sensitive: a listing whose names all
/// differ from the record's name — even by case alone — holds no match, so
/// the record is treated as not existing and the decision is to create.
pub proof fn lemma_matching_is_exact(loader: ChannelLoader, names: Seq<Seq<char>>)
    requires
        forall|i: int| 0 <= i < names.len() ==> names[i] != loader.channel_info.name@,
    ensures
        !has_name(names, loader.channel_info.name@),
{
}

/// Exact membership test behind `has_name`.
pub fn contains_name(names: &Vec<String>, name: &String) -> (b: bool)
    ensures
        b == has_name(names.deep_view(), name@),
{
    let mut j: usize = 0;
    while j < names.len()
        invariant
            0 <= j <= names@.len(),
            forall|k: int| 0 <= k < j ==> names@[k]@ != name@,
        decreases names@.len() - j,
    {
        if names[j] == *name {
            assert(names.deep_view()[j as int] == name@);
            return true;
        }
        j += 1;
    }
    assert(forall|k: int| 0 <= k < names.deep_view().len() ==> names.deep_view()[k] != name@);
    false
}

/// Per-channel unit of work: holds the channel's record and the shared run
/// policy, queries the guild's current channel list through its driver,
/// decides create/reuse/fail, and performs at most one remote mutation.
pub struct ChannelLoader {
    pub channel_info: ChannelInfo,
    pub guild_id: u64,
    pub use_existing_channel: bool,
}

impl ChannelLoader {
    /// The create request this migrator issues when no channel of the same
    /// name exists yet.
    pub open spec fn spec_create_request(&self) -> CreateChannelRequest {
        CreateChannelRequest {
            guild_id: self.guild_id,
            name: self.channel_info.name,
            kind: ChannelKind::Text,
            topic: self.channel_info.topic.value,
        }
    }

    /// The conflict error this migrator fails with.
    pub open spec fn spec_conflict_error(&self) -> MigrationError {
        MigrationError::Conflict { channel_name: self.channel_info.name }
    }

    /// One migrator for one channel record, bound to the shared target guild
    /// and conflict policy.
    pub fn new(channel_info: ChannelInfo, context: &Context) -> (l: ChannelLoader)
        ensures
            l.channel_info == channel_info,
            l.guild_id == context.guild_id,
            l.use_existing_channel == context.use_existing_channel,
    {
        ChannelLoader {
            channel_info,
            guild_id: context.guild_id,
            use_existing_channel: context.use_existing_channel,
        }
    }

    /// Conflict resolution against the guild's current channel list, by the
    /// decision table: name absent, any policy — create; name present,
    /// reuse allowed — use the existing channel; name present, reuse
    /// forbidden — conflict. Matching is exact and case-sensitive.
    pub fn decide(&self, existing_names: &Vec<String>) -> (d: ChannelDecision)
        ensures
            !has_name(existing_names.deep_view(), self.channel_info.name@) ==> d
                == ChannelDecision::Create(self.spec_create_request()),
            has_name(existing_names.deep_view(), self.channel_info.name@)
                && self.use_existing_channel ==> d == ChannelDecision::UseExisting,
            has_name(existing_names.deep_view(), self.channel_info.name@)
                && !self.use_existing_channel ==> d == ChannelDecision::Conflict,
    {
        let already_exists = contains_name(existing_names, &self.channel_info.name);
        if !already_exists {
            ChannelDecision::Create(
                CreateChannelRequest {
                    guild_id: self.guild_id,
                    name: self.channel_info.name.clone(),
                    kind: ChannelKind::Text,
                    topic: self.channel_info.topic.value.clone(),
                },
            )
        } else if self.use_existing_channel {
            ChannelDecision::UseExisting
        } else {
            ChannelDecision::Conflict
        }
    }

    /// A migrator's run, up to its single remote mutation: feed the result
    /// of listing the guild's channels; get back either the create request
    /// to issue, or the terminal result when nothing is to be created. A
    /// failed listing is terminal for this migrator alone.
    pub fn run(&self, listing: Result<Vec<String>, MigrationError>) -> (s: MigratorStep)
        ensures
            (match listing {
                Result::Err(e) => s == MigratorStep::Settled(
                    Result::<MigrationOutcome, MigrationError>::Err(e),
                ),
                Result::Ok(names) => {
                    &&& !has_name(names.deep_view(), self.channel_info.name@) ==> s
                        == MigratorStep::NeedsCreate(self.spec_create_request())
                    &&& has_name(names.deep_view(), self.channel_info.name@)
                        && self.use_existing_channel ==> s == MigratorStep::Settled(
                        Result::<MigrationOutcome, MigrationError>::Ok(MigrationOutcome::Reused),
                    )
                    &&& has_name(names.deep_view(), self.channel_info.name@)
                        && !self.use_existing_channel ==> s == MigratorStep::Settled(
                        Result::<MigrationOutcome, MigrationError>::Err(
                            self.spec_conflict_error(),
                        ),
                    )
                },
            }),
    {
        match listing {
            Err(e) => MigratorStep::Settled(Err(e)),
            Ok(names) => match self.decide(&names) {
                ChannelDecision::Create(request) => MigratorStep::NeedsCreate(request),
                ChannelDecision::UseExisting => MigratorStep::Settled(
                    Ok(MigrationOutcome::Reused),
                ),
                ChannelDecision::Conflict => MigratorStep::Settled(
                    Err(MigrationError::Conflict { channel_name: self.channel_info.name.clone() }),
                ),
            },
        }
    }

    /// Terminal result once the remote create call has returned: success is
    /// outcome Created, and a remote failure is this migrator's failure.
    /// There is no read-after-write confirmation and no retry.
    pub fn complete_create(&self, created: Result<(), MigrationError>) -> (r: Result<
        MigrationOutcome,
        MigrationError,
    >)
        ensures
            (match created {
                Result::Ok(u) => r == Result::<MigrationOutcome, MigrationError>::Ok(
                    MigrationOutcome::Created,
                ),
                Result::Err(e) => r == Result::<MigrationOutcome, MigrationError>::Err(e),
            }),
    {
        match created {
            Ok(()) => Ok(MigrationOutcome::Created),
            Err(e) => Err(e),
        }
    }
}

/// The first failure among the joined migrator results, in join order.
pub open spec fn first_error(results: Seq<Result<MigrationOutcome, MigrationError>>) -> Option<
    MigrationError,
>
    decreases results.len(),
{
    if results.len() == 0 {
        None
    } else {
        match results[0] {
            Result::Err(e) => Some(e),
            Result::Ok(_) => first_error(results.drop_first()),
        }
    }
}

/// The run succeeds exactly when every migrator succeeded; when it fails,
/// the surfaced error is the first failure in join order, and every earlier
/// migrator's result was a success. Later results are inspected but
/// discarded, never surfaced.
pub proof fn lemma_first_error_characterization(
    results: Seq<Result<MigrationOutcome, MigrationError>>,
)
    ensures
        (first_error(results) is None) <==> (forall|i: int|
            0 <= i < results.len() ==> results[i] is Ok),
        (match first_error(results) {
            Some(e) => exists|i: int|
                0 <= i < results.len() && results[i] == Result::<
                    MigrationOutcome,
                    MigrationError,
                >::Err(e) && (forall|k: int| 0 <= k < i ==> results[k] is Ok),
            None => true,
        }),
    decreases results.len(),
{
    if results.len() == 0 {
    } else {
        let rest = results.drop_first();
        lemma_first_error_characterization(rest);
        match results[0] {
            Result::Err(e) => {
                assert(results[0] == Result::<MigrationOutcome, MigrationError>::Err(e));
                assert(forall|k: int| 0 <= k < 0 ==> results[k] is Ok);
            },
            Result::Ok(_) => {
                assert(forall|i: int| 1 <= i < results.len() ==> results[i] == rest[i - 1]);
                match first_error(results) {
                    Some(e) => {
                        let i = choose|i: int|
                            0 <= i < rest.len() && rest[i] == Result::<
                                MigrationOutcome,
                                MigrationError,
                            >::Err(e) && (forall|k: int| 0 <= k < i ==> rest[k] is Ok);
                        assert(results[i + 1] == rest[i]);
                        assert(forall|k: int| 0 <= k < i + 1 ==> results[k] is Ok);
                    },
                    None => {},
                }
            },
        }
    }
}

/// The migration orchestrator: the immutable user map shared across the
/// run, and one migrator per channel record.
pub struct MasterLoader {
    pub user_map: UserMap,
    pub channel_loaders: Vec<ChannelLoader>,
}

impl MasterLoader {
    /// Build the user map from the export's user records: one entry per id,
    /// a duplicate id keeping the last-seen record.
    pub fn create_user_map(users: Vec<User>) -> (m: UserMap)
        ensures
            m.wf(),
            m@ == map_of_users(users@),
    {
        UserMap::from_users(users)
    }

    /// One migrator per channel record, in list order, each bound to the
    /// shared guild and conflict policy.
    pub fn create_channel_loaders(channels: Vec<ChannelInfo>, context: &Context) -> (ls: Vec<
        ChannelLoader,
    >)
        ensures
            ls@.len() == channels@.len(),
            forall|i: int| 0 <= i < channels@.len() ==> ls@[i] == (ChannelLoader {
                channel_info: channels@[i],
                guild_id: context.guild_id,
                use_existing_channel: context.use_existing_channel,
            }),
    {
        let ghost all = channels@;
        let mut rest = channels;
        let mut ls: Vec<ChannelLoader> = Vec::new();
        proof {
            assert(rest@ =~= all.skip(0));
        }
        while rest.len() > 0
            invariant
                rest@.len() <= all.len(),
                rest@ == all.skip(all.len() - rest@.len()),
                ls@.len() == all.len() - rest@.len(),
                forall|i: int| 0 <= i < ls@.len() ==> ls@[i] == (ChannelLoader {
                    channel_info: all[i],
                    guild_id: context.guild_id,
                    use_existing_channel: context.use_existing_channel,
                }),
            decreases rest.len(),
        {
            let ghost k = all.len() - rest@.len();
            let info = rest.remove(0);
            proof {
                assert(info == all[k]);
                assert(rest@ =~= all.skip(k + 1));
            }
            let loader = ChannelLoader::new(info, context);
            ls.push(loader);
        }
        ls
    }

    /// Load the orchestrator's state from the export's records: the shared
    /// user map and one migrator per channel.
    pub fn new(users: Vec<User>, channels: Vec<ChannelInfo>, context: &Context) -> (m:
        MasterLoader)
        ensures
            m.user_map.wf(),
            m.user_map@ == map_of_users(users@),
            m.channel_loaders@.len() == channels@.len(),
            forall|i: int| 0 <= i < channels@.len() ==> m.channel_loaders@[i] == (ChannelLoader {
                channel_info: channels@[i],
                guild_id: context.guild_id,
                use_existing_channel: context.use_existing_channel,
            }),
    {
        let user_map = Self::create_user_map(users);
        let channel_loaders = Self::create_channel_loaders(channels, context);
        MasterLoader { user_map, channel_loaders }
    }

    /// How many users were loaded.
    pub fn user_count(&self) -> (n: usize)
        requires
            self.user_map.wf(),
        ensures
            n == self.user_map@.len(),
    {
        self.user_map.len()
    }

    /// How many migrators were constructed.
    pub fn channel_count(&self) -> (n: usize)
        ensures
            n == self.channel_loaders@.len(),
    {
        self.channel_loaders.len()
    }

    /// Join the migrators' results: success only when every migrator
    /// succeeded, and otherwise the first error in join order; the remaining
    /// errors are deliberately discarded. Every result is consumed — there
    /// is no early return on first completion.
    pub fn join_results(results: Vec<Result<MigrationOutcome, MigrationError>>) -> (r: Result<
        (),
        MigrationError,
    >)
        ensures
            match first_error(results@) {
                None => r == Result::<(), MigrationError>::Ok(()),
                Some(e) => r == Result::<(), MigrationError>::Err(e),
            },
    {
        let ghost all = results@;
        let mut rest = results;
        proof {
            assert(rest@ =~= all.skip(0));
        }
        while rest.len() > 0
            invariant
                all == results@,
                rest@.len() <= all.len(),
                rest@ == all.skip(all.len() - rest@.len()),
                first_error(all) == first_error(rest@),
            decreases rest.len(),
        {
            let ghost k = all.len() - rest@.len();
            let head = rest.remove(0);
            proof {
                assert(head == all.skip(k)[0]);
                assert(rest@ =~= all.skip(k + 1));
                assert(rest@ =~= all.skip(k).drop_first());
            }
            match head {
                Err(e) => {
                    return Err(e);
                },
                Ok(_) => {},
            }
        }
        Ok(())
    }
}

} // verus!
