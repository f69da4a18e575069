use setmod::water::{
    default_cooldown, Config, Cooldown, Handler, HookError, Message, Module, WaterError,
    COOLDOWN_TEXT, NO_REWARD_TEXT, UNAVAILABLE_TEXT, USAGE_TEXT,
};

fn handler(period: u64) -> Handler {
    let module = Module::load(&Config { cooldown: Cooldown::from_secs(period) });
    module.hook(Some("thirsty coins".to_string())).ok().unwrap()
}

fn text(m: &Message) -> &str {
    match m {
        Message::Respond(s) => s,
        Message::Privmsg(s) => s,
    }
}

#[test]
fn default_cooldown_is_a_minute() {
    let c = default_cooldown();
    assert_eq!(c.period, 60);
    assert_eq!(c.start, None);
    assert_eq!(Config::new().cooldown.period, 60);
}

#[test]
fn hook_needs_currency() {
    let module = Module::load(&Config::new());
    assert!(matches!(module.hook(None), Err(HookError::MissingCurrency)));
}

#[test]
fn cooldown_closes_for_a_period() {
    let mut c = Cooldown::from_secs(60);
    assert!(c.is_open(100));
    assert!(!c.is_open(159));
    assert!(c.is_open(160));
}

#[test]
fn reminder_pays_minutes_since_stream_start() {
    let mut h = handler(0);
    let reply = h.handle(None, "alice", "streamer", false, 10, 1_000 + 125, Some(1_000)).ok().unwrap();
    assert!(matches!(reply.message, Message::Respond(_)));
    assert_eq!(
        text(&reply.message),
        "streamer, DRINK SOME WATER! alice has been rewarded 2 thirsty coins for the reminder."
    );
    let effect = reply.effect.unwrap();
    assert_eq!(effect.user, "alice");
    assert_eq!(effect.amount, 2);
}

#[test]
fn second_reminder_counts_from_the_first() {
    let mut h = handler(0);
    h.handle(None, "alice", "s", false, 10, 600, Some(0)).ok().unwrap();
    let reply = h.handle(None, "bob", "s", false, 20, 600 + 59, None).ok().unwrap();
    assert_eq!(reply.effect.unwrap().amount, 0);
    let reply = h.handle(None, "carol", "s", false, 30, 600 + 59 + 3_600, None).ok().unwrap();
    assert_eq!(reply.effect.unwrap().amount, 60);
}

#[test]
fn reminder_before_last_pays_nothing() {
    let mut h = handler(0);
    let reply = h.handle(None, "alice", "s", false, 10, 50, Some(1_000)).ok().unwrap();
    assert_eq!(reply.effect.unwrap().amount, 0);
}

#[test]
fn unknown_start_is_unavailable() {
    let mut h = handler(0);
    let err = h.handle(None, "alice", "s", false, 10, 50, None).err().unwrap();
    assert_eq!(err, WaterError::Unavailable);
    assert_eq!(err.response(), Some(UNAVAILABLE_TEXT));
}

#[test]
fn cooldown_blocks_second_command() {
    let mut h = handler(60);
    h.handle(None, "alice", "s", false, 100, 600, Some(0)).ok().unwrap();
    let reply = h.handle(None, "bob", "s", false, 120, 700, None).ok().unwrap();
    assert_eq!(text(&reply.message), COOLDOWN_TEXT);
    assert!(reply.effect.is_none());
}

#[test]
fn undo_takes_the_reward_back() {
    let mut h = handler(0);
    h.handle(None, "alice", "s", false, 10, 300, Some(0)).ok().unwrap();
    let reply = h.handle(Some("undo"), "mod", "s", true, 20, 400, None).ok().unwrap();
    assert!(matches!(reply.message, Message::Privmsg(_)));
    assert_eq!(
        text(&reply.message),
        "alice issued a bad !water that is now being undone FeelsBadMan"
    );
    let effect = reply.effect.unwrap();
    assert_eq!(effect.user, "alice");
    assert_eq!(effect.amount, -5);
    let reply = h.handle(Some("undo"), "mod", "s", true, 30, 500, None).ok().unwrap();
    assert_eq!(text(&reply.message), NO_REWARD_TEXT);
    assert!(reply.effect.is_none());
}

#[test]
fn undo_needs_a_moderator() {
    let mut h = handler(0);
    h.handle(None, "alice", "s", false, 10, 300, Some(0)).ok().unwrap();
    let err = h.handle(Some("undo"), "bob", "s", false, 20, 400, None).err().unwrap();
    assert_eq!(err, WaterError::NotModerator);
    assert_eq!(err.response(), None);
}

#[test]
fn other_argument_gets_usage() {
    let mut h = handler(0);
    let reply = h.handle(Some("please"), "bob", "s", false, 20, 400, Some(0)).ok().unwrap();
    assert_eq!(text(&reply.message), USAGE_TEXT);
    assert!(reply.effect.is_none());
}
