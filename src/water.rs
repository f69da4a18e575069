//! The `!water` command: anyone may remind the streamer to drink and is
//! rewarded with one unit of currency per minute since the last reminder (or
//! since the stream started); a moderator may undo the last reward.
use vstd::prelude::*;

use crate::text::{decimal, decimal_of, str_eq};

verus! {

/// Lets a command through at most once per period.
#[derive(Clone, Copy, Debug, PartialEq, Eq, Structural)]
pub struct Cooldown {
    /// Length of the period, in seconds.
    pub period: u64,
    /// When a command last passed, in seconds of a monotonic clock.
    pub start: Option<u64>,
}

/// A command may pass unless one passed less than a period ago.
pub open spec fn cooldown_open(c: Cooldown, now: u64) -> bool {
    match c.start {
        Some(s) => !(s <= now && now - s < c.period),
        None => true,
    }
}

impl Cooldown {
    /// A cooldown with the given period through which no command has passed yet.
    pub fn from_secs(period: u64) -> (r: Cooldown)
        ensures
            r.period == period,
            r.start is None,
    {
        Cooldown { period, start: None }
    }

    /// Reports whether a command may pass at `now`; a pass is
    /// recorded and starts a new period.
    pub fn is_open(&mut self, now: u64) -> (r: bool)
        ensures
            r == cooldown_open(*old(self), now),
            r ==> *final(self) == (Cooldown { period: old(self).period, start: Some(now) }),
            !r ==> *final(self) == *old(self),
    {
        match self.start {
            Some(s) => {
                if s <= now && now - s < self.period {
                    return false;
                }
            },
            None => {},
        }
        self.start = Some(now);
        true
    }
}

/// A reward paid for a reminder.
#[derive(Clone, Debug)]
pub struct Reward {
    pub user: String,
    pub amount: i32,
}

/// Settings of the `!water` module.
pub struct Config {
    pub cooldown: Cooldown,
}

/// The cooldown used when the settings name none: one minute.
pub fn default_cooldown() -> (r: Cooldown)
    ensures
        r == (Cooldown { period: 60, start: None }),
{
    Cooldown::from_secs(60)
}

impl Config {
    /// Settings with the default cooldown.
    pub fn new() -> (r: Config)
        ensures
            r.cooldown == (Cooldown { period: 60, start: None }),
    {
        Config { cooldown: default_cooldown() }
    }
}

/// The loaded `!water` module.
pub struct Module {
    pub cooldown: Cooldown,
}

/// Why setting up the command handler failed.
#[derive(Clone, Copy, Debug, PartialEq, Eq, Structural)]
pub enum HookError {
    /// The module needs a currency and none is configured.
    MissingCurrency,
}

impl Module {
    /// Loads the module from its settings.
    pub fn load(module: &Config) -> (r: Module)
        ensures
            r.cooldown == module.cooldown,
    {
        Module { cooldown: module.cooldown }
    }

    /// Sets up the command handler, with no reminder recorded yet.
    pub fn hook(&self, currency: Option<String>) -> (r: Result<Handler, HookError>)
        ensures
            currency is None ==> r == Err::<Handler, HookError>(HookError::MissingCurrency),
            currency matches Some(c) ==> (r matches Ok(h) && h.wf() && h.cooldown()
                == self.cooldown && h.currency()@ == c@ && h.waters().len() == 0),
    {
        match currency {
            Some(currency) => Ok(Handler { currency, cooldown: self.cooldown, waters: Vec::new() }),
            None => Err(HookError::MissingCurrency),
        }
    }
}

/// A line the handler says in chat.
#[derive(Clone, Debug)]
pub enum Message {
    /// Addressed to the user who gave the command.
    Respond(String),
    /// Said to the whole channel.
    Privmsg(String),
}

/// A change of a user's balance. It runs detached from the command: its
/// failure is only logged and affects neither the reply nor the chat runtime.
#[derive(Clone, Debug)]
pub struct BalanceChange {
    pub user: String,
    pub amount: i32,
}

/// What the handler does for one command.
pub struct Reply {
    pub message: Message,
    pub effect: Option<BalanceChange>,
}

/// Why a command failed.
#[derive(Clone, Copy, Debug, PartialEq, Eq, Structural)]
pub enum WaterError {
    /// Undo was asked for by a user who is not a moderator.
    NotModerator,
    /// No reminder is recorded and the stream's start time is unknown.
    Unavailable,
}

impl WaterError {
    /// What the user is told, if anything.
    pub fn response(&self) -> (r: Option<&'static str>)
        ensures
            *self == WaterError::Unavailable ==> r == Some(UNAVAILABLE_TEXT),
            *self == WaterError::NotModerator ==> r is None,
    {
        match self {
            WaterError::NotModerator => None,
            WaterError::Unavailable => Some(UNAVAILABLE_TEXT),
        }
    }
}

/// Handles `!water` in one channel.
pub struct Handler {
    currency: String,
    cooldown: Cooldown,
    /// Each reminder: when it was given and the reward paid for it; the
    /// stream's start stands first, without a reward.
    waters: Vec<(i64, Option<Reward>)>,
}

pub const COOLDOWN_TEXT: &'static str = "A !water command was recently issued, please wait a bit longer!";

pub const UNAVAILABLE_TEXT: &'static str = "Sorry, the !water command is currently not available :(";

pub const NO_REWARD_TEXT: &'static str = "No one has been rewarded for !water yet cmonBruh";

pub const USAGE_TEXT: &'static str = "Expected: !water, or !water undo.";

/// The reward for a reminder given at `now` when the last one, or the
/// stream's start, was at `last`: whole minutes in between, none when `now`
/// is not later, and at most `i32::MAX`.
pub open spec fn reward_amount(last: i64, now: i64) -> i32 {
    let minutes = (now - last) / 60;
    if now - last <= 0 {
        0
    } else if minutes > i32::MAX {
        i32::MAX
    } else {
        minutes as i32
    }
}

pub open spec fn water_text(streamer: Seq<char>, user: Seq<char>, amount: i32, currency: Seq<char>) -> Seq<
    char,
> {
    streamer + ", DRINK SOME WATER! "@ + user + " has been rewarded "@ + decimal_of(amount as nat)
        + " "@ + currency + " for the reminder."@
}

pub open spec fn undo_text(user: Seq<char>) -> Seq<char> {
    user + " issued a bad !water that is now being undone FeelsBadMan"@
}

pub open spec fn message_text(m: Message) -> Seq<char> {
    match m {
        Message::Respond(s) => s@,
        Message::Privmsg(s) => s@,
    }
}

/// The reminders as seen by a command: those recorded, or else the stream's
/// start alone when it is known.
pub open spec fn effective_waters(w: Seq<(i64, Option<Reward>)>, stream_start: Option<i64>) -> Option<
    Seq<(i64, Option<Reward>)>,
> {
    if w.len() > 0 {
        Some(w)
    } else {
        match stream_start {
            Some(s) => Some(seq![(s, None::<Reward>)]),
            None => None,
        }
    }
}

fn reward_for(last: i64, now: i64) -> (r: i32)
    ensures
        r == reward_amount(last, now),
{
    let diff: i128 = now as i128 - last as i128;
    if diff <= 0 {
        return 0;
    }
    let minutes: i128 = diff / 60;
    if minutes > i32::MAX as i128 {
        i32::MAX
    } else {
        minutes as i32
    }
}

fn concat(a: String, b: &str) -> (r: String)
    ensures
        r@ == a@ + b@,
{
    a.concat(b)
}

impl Handler {
    /// Every reward paid is non-negative.
    pub closed spec fn wf(&self) -> bool {
        forall|i: int|
            0 <= i < self.waters@.len() ==> ((#[trigger] self.waters@[i]).1 matches Some(r)
                ==> r.amount >= 0)
    }

    pub closed spec fn waters(&self) -> Seq<(i64, Option<Reward>)> {
        self.waters@
    }

    pub closed spec fn cooldown(&self) -> Cooldown {
        self.cooldown
    }

    pub closed spec fn currency(&self) -> String {
        self.currency
    }

    /// Handles `!water` (no argument), `!water undo`, or anything else, given
    /// by `user` at `now` (seconds since the epoch; `instant` on a monotonic
    /// clock). `stream_start` is when the stream started, if known.
    pub fn handle(
        &mut self,
        arg: Option<&str>,
        user: &str,
        streamer: &str,
        is_moderator: bool,
        instant: u64,
        now: i64,
        stream_start: Option<i64>,
    ) -> (r: Result<Reply, WaterError>)
        requires
            old(self).wf(),
        ensures
            final(self).wf(),
            final(self).currency() == old(self).currency(),
            !cooldown_open(old(self).cooldown(), instant) ==> {
                &&& *final(self) == *old(self)
                &&& r matches Ok(reply)
                &&& reply.message is Respond
                &&& message_text(reply.message) == COOLDOWN_TEXT@
                &&& reply.effect is None
            },
            cooldown_open(old(self).cooldown(), instant) ==> {
                &&& final(self).cooldown() == (Cooldown {
                    period: old(self).cooldown().period,
                    start: Some(instant),
                })
                &&& match arg {
                    Some(a) if a@ == "undo"@ => {
                        if !is_moderator {
                            r == Err::<Reply, WaterError>(WaterError::NotModerator)
                                && final(self).waters() == old(self).waters()
                        } else {
                            match effective_waters(old(self).waters(), stream_start) {
                                None => r == Err::<Reply, WaterError>(WaterError::Unavailable)
                                    && final(self).waters() == old(self).waters(),
                                Some(w) => {
                                    &&& final(self).waters() == w.drop_last()
                                    &&& r matches Ok(reply)
                                    &&& match w.last().1 {
                                        None => {
                                            &&& reply.message is Respond
                                            &&& message_text(reply.message) == NO_REWARD_TEXT@
                                            &&& reply.effect is None
                                        },
                                        Some(rw) => {
                                            &&& reply.message is Privmsg
                                            &&& message_text(reply.message) == undo_text(rw.user@)
                                            &&& reply.effect matches Some(e) && e.user@ == rw.user@
                                                && e.amount == -rw.amount
                                        },
                                    }
                                },
                            }
                        }
                    },
                    None => match effective_waters(old(self).waters(), stream_start) {
                        None => r == Err::<Reply, WaterError>(WaterError::Unavailable)
                            && final(self).waters() == old(self).waters(),
                        Some(w) => {
                            let amount = reward_amount(w.last().0, now);
                            &&& final(self).waters().len() == w.len() + 1
                            &&& final(self).waters().drop_last() == w
                            &&& final(self).waters().last().0 == now
                            &&& final(self).waters().last().1 matches Some(rw) && rw.user@
                                == user@ && rw.amount == amount
                            &&& r matches Ok(reply)
                            &&& reply.message is Respond
                            &&& message_text(reply.message) == water_text(
                                streamer@,
                                user@,
                                amount,
                                old(self).currency()@,
                            )
                            &&& reply.effect matches Some(e) && e.user@ == user@ && e.amount
                                == amount
                        },
                    },
                    Some(_) => {
                        &&& final(self).waters() == old(self).waters()
                        &&& r matches Ok(reply)
                        &&& reply.message is Respond
                        &&& message_text(reply.message) == USAGE_TEXT@
                        &&& reply.effect is None
                    },
                }
            },
    {
        if !self.cooldown.is_open(instant) {
            return Ok(
                Reply { message: Message::Respond(String::from_str(COOLDOWN_TEXT)), effect: None },
            );
        }
        match arg {
            Some(a) => {
                if !str_eq(a, "undo") {
                    return Ok(
                        Reply {
                            message: Message::Respond(String::from_str(USAGE_TEXT)),
                            effect: None,
                        },
                    );
                }
                if !is_moderator {
                    return Err(WaterError::NotModerator);
                }
                if !self.check_waters(stream_start) {
                    return Err(WaterError::Unavailable);
                }
                let last = self.waters.pop();
                match last {
                    Some((_, Some(reward))) => {
                        let text = concat(
                            reward.user.clone(),
                            " issued a bad !water that is now being undone FeelsBadMan",
                        );
                        Ok(
                            Reply {
                                message: Message::Privmsg(text),
                                effect: Some(
                                    BalanceChange { user: reward.user, amount: -reward.amount },
                                ),
                            },
                        )
                    },
                    _ => Ok(
                        Reply {
                            message: Message::Respond(String::from_str(NO_REWARD_TEXT)),
                            effect: None,
                        },
                    ),
                }
            },
            None => {
                if !self.check_waters(stream_start) {
                    return Err(WaterError::Unavailable);
                }
                let n = self.waters.len();
                let last = self.waters[n - 1].0;
                let amount = reward_for(last, now);
                let mut text = String::from_str(streamer);
                text.append(", DRINK SOME WATER! ");
                text.append(user);
                text.append(" has been rewarded ");
                let digits = decimal(amount as u32);
                text.append(digits.as_str());
                text.append(" ");
                text.append(self.currency.as_str());
                text.append(" for the reminder.");
                self.waters.push((now, Some(Reward { user: String::from_str(user), amount })));
                Ok(
                    Reply {
                        message: Message::Respond(text),
                        effect: Some(BalanceChange { user: String::from_str(user), amount }),
                    },
                )
            },
        }
    }

    /// Makes sure a reminder is recorded, taking the stream's start as the
    /// first one; false when none is and the start is unknown.
    fn check_waters(&mut self, stream_start: Option<i64>) -> (r: bool)
        requires
            old(self).wf(),
        ensures
            final(self).wf(),
            final(self).currency == old(self).currency,
            final(self).cooldown == old(self).cooldown,
            r == effective_waters(old(self).waters@, stream_start) is Some,
            r ==> Some(final(self).waters@) == effective_waters(old(self).waters@, stream_start),
            !r ==> final(self).waters@ == old(self).waters@,
    {
        if self.waters.len() > 0 {
            return true;
        }
        match stream_start {
            Some(s) => {
                self.waters.push((s, None));
                assert(self.waters@ =~= seq![(s, None::<Reward>)]);
                true
            },
            None => false,
        }
    }
}

} // verus!
