//! Command aliases: a message that starts with an aliased command is rewritten
//! by the alias's template, which may quote the rest of the message.
use vstd::prelude::*;

use crate::text::str_eq;
use crate::words::{next_word, rest_from, Words};

verus! {

/// A piece of a replacement template.
#[derive(Clone, Debug)]
pub enum Part {
    /// Copied as it is.
    Text(String),
    /// The rest of the message, after the command.
    Rest,
}

/// A replacement template: its pieces, in order.
pub struct Template {
    pub parts: Vec<Part>,
}

/// What a template renders to when the rest of the message is `rest`.
pub open spec fn render_parts(parts: Seq<Part>, rest: Seq<char>) -> Seq<char>
    decreases parts.len(),
{
    if parts.len() == 0 {
        Seq::empty()
    } else {
        render_parts(parts.drop_last(), rest) + match parts.last() {
            Part::Text(t) => t@,
            Part::Rest => rest,
        }
    }
}

/// Thing to match against.
pub enum Match {
    /// A command, named without its leading `!`.
    Command(String),
}

/// Replacement.
pub enum Replace {
    Template(Template),
}

pub open spec fn replace_parts(r: &Replace) -> Seq<Part> {
    match r {
        Replace::Template(t) => t.parts@,
    }
}

pub open spec fn match_name(m: &Match) -> Seq<char> {
    match m {
        Match::Command(n) => n@,
    }
}

impl Match {
    /// Reads a match from its written form, `!name`.
    pub fn parse(s: &str) -> (r: Option<Match>)
        ensures
            (s@.len() > 0 && s@[0] == '!') <==> r is Some,
            r matches Some(m) ==> match_name(&m) == s@.drop_first(),
    {
        let n = s.unicode_len();
        if n == 0 || s.get_char(0) != '!' {
            return None;
        }
        let name = String::from_str(s.substring_char(1, n));
        assert(name@ =~= s@.drop_first());
        Some(Match::Command(name))
    }
}

impl Replace {
    /// Renders the replacement with the rest of the message.
    pub fn render(&self, it: Words) -> (r: Option<String>)
        requires
            it.wf(),
        ensures
            r matches Some(x) && x@ == render_parts(replace_parts(self), rest_from(it@.0, it@.1)),
    {
        match self {
            Replace::Template(template) => {
                let rest = it.rest();
                let mut out = String::new();
                let mut i: usize = 0;
                while i < template.parts.len()
                    invariant
                        i <= template.parts@.len(),
                        out@ == render_parts(template.parts@.take(i as int), rest@),
                    decreases template.parts@.len() - i,
                {
                    assert(template.parts@.take(i + 1).drop_last() =~= template.parts@.take(
                        i as int,
                    ));
                    match &template.parts[i] {
                        Part::Text(t) => out.append(t.as_str()),
                        Part::Rest => out.append(rest.as_str()),
                    }
                    i = i + 1;
                }
                assert(template.parts@.take(template.parts@.len() as int) =~= template.parts@);
                Some(out)
            },
        }
    }
}

/// An alias: what to match and what to put in its place.
pub struct MatchReplace {
    pub m: Match,
    pub replace: Replace,
}

/// What an alias makes of the words read from position `p` of `s`: the
/// rendering when the next word is its command, else nothing.
pub open spec fn alias_output(a: &MatchReplace, s: Seq<char>, p: int) -> Option<Seq<char>> {
    match next_word(s, p) {
        Some((w, q)) => if w.len() > 0 && w[0] == '!' && w.drop_first() == match_name(&a.m) {
            Some(render_parts(replace_parts(&a.replace), rest_from(s, q)))
        } else {
            None
        },
        None => None,
    }
}

impl MatchReplace {
    /// Tests if the given input matches and returns the corresponding
    /// replacement if it does.
    pub fn matches(&self, it: Words) -> (r: Option<String>)
        requires
            it.wf(),
        ensures
            match alias_output(self, it@.0, it@.1) {
                Some(x) => r matches Some(y) && y@ == x,
                None => r is None,
            },
    {
        let mut it = it;
        match &self.m {
            Match::Command(name) => match it.next() {
                Some(value) => {
                    let n = value.as_str().unicode_len();
                    if n > 0 && value.as_str().get_char(0) == '!' {
                        let tail = value.as_str().substring_char(1, n);
                        assert(tail@ =~= value@.drop_first());
                        if str_eq(name.as_str(), tail) {
                            return self.replace.render(it);
                        }
                    }
                },
                None => {},
            },
        }
        None
    }
}

/// The output of the first alias, from index `i` on, that matches.
pub open spec fn first_output(aliases: Seq<MatchReplace>, i: int, s: Seq<char>, p: int) -> Option<
    Seq<char>,
>
    decreases aliases.len() - i,
{
    if i < 0 || i >= aliases.len() {
        None
    } else {
        match alias_output(&aliases[i], s, p) {
            Some(x) => Some(x),
            None => first_output(aliases, i + 1, s, p),
        }
    }
}

/// Command aliases, tried in order.
pub struct Aliases {
    aliases: Vec<MatchReplace>,
}

impl View for Aliases {
    type V = Seq<MatchReplace>;

    closed spec fn view(&self) -> Seq<MatchReplace> {
        self.aliases@
    }
}

impl Aliases {
    /// The aliases, tried in the given order.
    pub fn new(aliases: Vec<MatchReplace>) -> (r: Aliases)
        ensures
            r@ == aliases@,
    {
        Aliases { aliases }
    }

    /// The replacement made by the first alias that matches the words.
    pub fn lookup(&self, it: Words) -> (r: Option<String>)
        requires
            it.wf(),
        ensures
            match first_output(self@, 0, it@.0, it@.1) {
                Some(x) => r matches Some(y) && y@ == x,
                None => r is None,
            },
    {
        let mut i: usize = 0;
        while i < self.aliases.len()
            invariant
                i <= self.aliases@.len(),
                it.wf(),
                first_output(self.aliases@, 0, it@.0, it@.1) == first_output(
                    self.aliases@,
                    i as int,
                    it@.0,
                    it@.1,
                ),
            decreases self.aliases@.len() - i,
        {
            if let Some(out) = self.aliases[i].matches(it.copy()) {
                return Some(out);
            }
            i = i + 1;
        }
        None
    }
}

} // verus!
