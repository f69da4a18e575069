//! Which credentials to acquire and which long-running tasks to construct,
//! decided from the configuration and from the acquisition results.
use vstd::prelude::*;

use crate::credential::Credential;

verus! {

/// The optional features that configuration can switch on.
#[derive(Clone, Copy, Debug, PartialEq, Eq, Structural)]
pub enum Feature {
    Song,
}

/// The feature toggles loaded once at startup.
pub struct FeatureSet {
    pub enabled: Vec<Feature>,
}

impl View for FeatureSet {
    type V = Seq<Feature>;

    open spec fn view(&self) -> Seq<Feature> {
        self.enabled@
    }
}

impl FeatureSet {
    /// Reports whether `feature` is switched on.
    pub fn test(&self, feature: Feature) -> (r: bool)
        ensures
            r == self@.contains(feature),
    {
        let mut i: usize = 0;
        while i < self.enabled.len()
            invariant
                i <= self.enabled@.len(),
                forall|j: int| 0 <= j < i ==> self.enabled@[j] != feature,
            decreases self.enabled@.len() - i,
        {
            if self.enabled[i] == feature {
                return true;
            }
            i = i + 1;
        }
        false
    }
}


/// A credential that one bootstrap run asks for: a provider and a role on it.
#[derive(Clone, Copy, Debug, PartialEq, Eq, Structural)]
pub enum Identity {
    /// The music source service.
    Spotify,
    /// The streaming service, as the streamer.
    TwitchStreamer,
    /// The streaming service, as the chat bot.
    TwitchBot,
}

/// The external authorization providers.
#[derive(Clone, Copy, Debug, PartialEq, Eq, Structural)]
pub enum Provider {
    Spotify,
    Twitch,
}

pub open spec fn provider_of(id: Identity) -> Provider {
    match id {
        Identity::Spotify => Provider::Spotify,
        Identity::TwitchStreamer | Identity::TwitchBot => Provider::Twitch,
    }
}

impl Identity {
    /// The provider that grants this credential.
    pub fn provider(&self) -> (r: Provider)
        ensures
            r == provider_of(*self),
    {
        match self {
            Identity::Spotify => Provider::Spotify,
            Identity::TwitchStreamer => Provider::Twitch,
            Identity::TwitchBot => Provider::Twitch,
        }
    }
}

/// What the bootstrap reads of the configuration.
pub struct BootConfig {
    pub database_url: Option<String>,
    /// A media-player section is present.
    pub has_player: bool,
    /// A chat-runtime section is present.
    pub has_chat: bool,
    pub features: FeatureSet,
}

/// The player is constructed only with its section present and the song
/// feature on.
pub open spec fn player_enabled(c: &BootConfig) -> bool {
    c.has_player && c.features@.contains(Feature::Song)
}

/// The credentials asked for, in the order they are asked for.
pub open spec fn requests_of(has_chat: bool) -> Seq<Identity> {
    if has_chat {
        seq![Identity::Spotify, Identity::TwitchStreamer, Identity::TwitchBot]
    } else {
        seq![Identity::Spotify, Identity::TwitchStreamer]
    }
}

/// Errors that end the bootstrap before the running phase.
#[derive(Clone, Debug, PartialEq, Eq)]
pub enum BootError {
    /// The configuration has no database URL.
    MissingDatabaseUrl,
    /// The number of acquisition results is not the number of requests.
    ResultCount { expected: usize, got: usize },
    /// The provider refused the credential asked for at `index`.
    Acquisition { index: usize, identity: Identity, message: String },
}

/// The configuration check made before any task or credential exists.
pub fn check_config(c: &BootConfig) -> (r: Result<(), BootError>)
    ensures
        r is Ok <==> c.database_url is Some,
        r is Err ==> r == Err::<(), BootError>(BootError::MissingDatabaseUrl),
{
    match c.database_url {
        Some(_) => Ok(()),
        None => Err(BootError::MissingDatabaseUrl),
    }
}

/// Whether the player subsystem is to be constructed.
pub fn player_gate(c: &BootConfig) -> (r: bool)
    ensures
        r == player_enabled(c),
{
    c.has_player && c.features.test(Feature::Song)
}

/// The credentials to acquire, all in one concurrent batch.
pub fn credential_requests(c: &BootConfig) -> (r: Vec<Identity>)
    ensures
        r@ == requests_of(c.has_chat),
{
    let mut r: Vec<Identity> = Vec::new();
    r.push(Identity::Spotify);
    r.push(Identity::TwitchStreamer);
    if c.has_chat {
        r.push(Identity::TwitchBot);
    }
    assert(r@ =~= requests_of(c.has_chat));
    r
}


/// A long-running task of the running phase.
#[derive(Clone, Copy, Debug, PartialEq, Eq, Structural)]
pub enum TaskKind {
    /// The callback web server, started before acquisition.
    Web,
    /// Keeps the credential of an identity valid.
    Renewal(Identity),
    /// The notification listener.
    Notifier,
    /// The media-player controller.
    Player,
    /// The chat runtime; `with_player` tells whether it was handed the player.
    Chat { with_player: bool },
}

/// Handle on the player subsystem, offered to the chat runtime when the
/// player exists.
#[derive(Clone, Copy, Debug, PartialEq, Eq, Structural)]
pub struct PlayerHandle {}

/// The credentials obtained, keyed by identity.
pub struct CredentialSet {
    pub spotify: Credential,
    pub streamer: Credential,
    pub bot: Option<Credential>,
}

/// Everything the running phase starts from.
pub struct Plan {
    /// The join set, in construction order.
    pub tasks: Vec<TaskKind>,
    /// The player capability: absent unless the player was constructed.
    pub player: Option<PlayerHandle>,
    pub credentials: CredentialSet,
}

/// The join set that `construct` builds for a configuration.
pub open spec fn tasks_of(c: &BootConfig) -> Seq<TaskKind> {
    let base = seq![
        TaskKind::Web,
        TaskKind::Renewal(Identity::Spotify),
        TaskKind::Renewal(Identity::TwitchStreamer),
        TaskKind::Notifier,
    ];
    let with_player = if player_enabled(c) {
        base.push(TaskKind::Player)
    } else {
        base
    };
    if c.has_chat {
        with_player.push(TaskKind::Renewal(Identity::TwitchBot)).push(
            TaskKind::Chat { with_player: player_enabled(c) },
        )
    } else {
        with_player
    }
}

pub open spec fn all_granted(s: Seq<Result<Credential, String>>) -> bool {
    forall|i: int| 0 <= i < s.len() ==> s[i] is Ok
}

pub open spec fn granted(r: Result<Credential, String>) -> Seq<char> {
    match r {
        Ok(c) => c@,
        Err(_) => Seq::empty(),
    }
}

pub open spec fn refusal(r: Result<Credential, String>) -> Seq<char> {
    match r {
        Ok(_) => Seq::empty(),
        Err(m) => m@,
    }
}

/// The error of the first refused request of a batch.
pub open spec fn is_first_refusal(
    c: &BootConfig,
    results: Seq<Result<Credential, String>>,
    e: BootError,
) -> bool {
    match e {
        BootError::Acquisition { index, identity, message } => {
            &&& index < results.len()
            &&& results[index as int] is Err
            &&& forall|j: int| 0 <= j < index ==> results[j] is Ok
            &&& identity == requests_of(c.has_chat)[index as int]
            &&& message@ == refusal(results[index as int])
        },
        _ => false,
    }
}

/// Turns the results of the acquisition batch, one for each request of
/// `credential_requests` and in its order, into the credentials and the join
/// set. No task is constructed unless every request was granted.
pub fn construct(c: &BootConfig, results: Vec<Result<Credential, String>>) -> (r: Result<
    Plan,
    BootError,
>)
    ensures
        r is Ok <==> results@.len() == requests_of(c.has_chat).len() && all_granted(results@),
        results@.len() != requests_of(c.has_chat).len() ==> r == Err::<Plan, BootError>(
            BootError::ResultCount {
                expected: requests_of(c.has_chat).len() as usize,
                got: results@.len() as usize,
            },
        ),
        results@.len() == requests_of(c.has_chat).len() && !all_granted(results@) ==> (
        match r {
            Err(e) => is_first_refusal(c, results@, e),
            Ok(_) => false,
        }),
        r matches Ok(plan) ==> {
            &&& plan.tasks@ == tasks_of(c)
            &&& (plan.player is Some <==> player_enabled(c))
            &&& plan.credentials.spotify@ == granted(results@[0])
            &&& plan.credentials.streamer@ == granted(results@[1])
            &&& (plan.credentials.bot is Some <==> c.has_chat)
            &&& (plan.credentials.bot matches Some(b) ==> b@ == granted(results@[2]))
        },
{
    let requests = credential_requests(c);
    if results.len() != requests.len() {
        return Err(BootError::ResultCount { expected: requests.len(), got: results.len() });
    }
    let mut i: usize = 0;
    while i < results.len()
        invariant
            i <= results@.len(),
            results@.len() == requests@.len(),
            requests@ == requests_of(c.has_chat),
            forall|j: int| 0 <= j < i ==> results@[j] is Ok,
        decreases results@.len() - i,
    {
        match &results[i] {
            Ok(_) => {},
            Err(m) => {
                return Err(
                    BootError::Acquisition { index: i, identity: requests[i], message: m.clone() },
                );
            },
        }
        i = i + 1;
    }
    // Every result is a grant and there are as many as requests, so the arms
    // that return an error below are never taken.
    let mut results = results;
    let bot = if c.has_chat {
        match results.pop() {
            Some(Ok(b)) => Some(b),
            _ => {
                return Err(BootError::ResultCount { expected: 0, got: 0 });
            },
        }
    } else {
        None
    };
    let streamer = match results.pop() {
        Some(Ok(s)) => s,
        _ => {
            return Err(BootError::ResultCount { expected: 0, got: 0 });
        },
    };
    let spotify = match results.pop() {
        Some(Ok(s)) => s,
        _ => {
            return Err(BootError::ResultCount { expected: 0, got: 0 });
        },
    };
    let player_on = player_gate(c);
    let mut tasks: Vec<TaskKind> = Vec::new();
    tasks.push(TaskKind::Web);
    tasks.push(TaskKind::Renewal(Identity::Spotify));
    tasks.push(TaskKind::Renewal(Identity::TwitchStreamer));
    tasks.push(TaskKind::Notifier);
    let player = if player_on {
        tasks.push(TaskKind::Player);
        Some(PlayerHandle {})
    } else {
        None
    };
    if c.has_chat {
        tasks.push(TaskKind::Renewal(Identity::TwitchBot));
        tasks.push(TaskKind::Chat { with_player: player_on });
    }
    assert(tasks@ =~= tasks_of(c));
    Ok(Plan { tasks, player, credentials: CredentialSet { spotify, streamer, bot } })
}


/// Without the player section or without the song feature, the join set holds
/// no player task and the chat runtime is not handed a player.
pub proof fn lemma_no_player_when_disabled(c: &BootConfig)
    requires
        !c.has_player || !c.features@.contains(Feature::Song),
    ensures
        !tasks_of(c).contains(TaskKind::Player),
        !tasks_of(c).contains(TaskKind::Chat { with_player: true }),
{
    let t = tasks_of(c);
    assert(forall|i: int| 0 <= i < t.len() ==> t[i] != TaskKind::Player);
    assert(forall|i: int| 0 <= i < t.len() ==> t[i] != TaskKind::Chat { with_player: true });
}

/// A chat-runtime section adds exactly one request, for the bot role, after
/// the two that are always made.
pub proof fn lemma_chat_adds_bot_request(c: &BootConfig)
    requires
        c.has_chat,
    ensures
        requests_of(c.has_chat).len() == requests_of(false).len() + 1,
        requests_of(c.has_chat) == requests_of(false).push(Identity::TwitchBot),
        requests_of(false) == seq![Identity::Spotify, Identity::TwitchStreamer],
{
    assert(requests_of(c.has_chat) =~= requests_of(false).push(Identity::TwitchBot));
}

/// Without a chat-runtime section the join set holds four tasks or, with the
/// player, five, and neither a chat runtime nor a bot credential's renewal.
pub proof fn lemma_join_set_without_chat(c: &BootConfig)
    requires
        !c.has_chat,
    ensures
        tasks_of(c).len() == if player_enabled(c) { 5int } else { 4int },
        !tasks_of(c).contains(TaskKind::Renewal(Identity::TwitchBot)),
        forall|i: int| 0 <= i < tasks_of(c).len() ==> !(tasks_of(c)[i] is Chat),
{
    let t = tasks_of(c);
    assert(forall|i: int| 0 <= i < t.len() ==> t[i] != TaskKind::Renewal(Identity::TwitchBot));
}

} // verus!
