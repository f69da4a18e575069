//! Whitespace-separated words of a chat message, read one at a time.
use vstd::prelude::*;

verus! {

pub open spec fn is_ws(c: char) -> bool {
    c == ' ' || c == '\t' || c == '\n' || c == '\r'
}

/// The first position at or after `p` that holds no whitespace, or the end.
pub open spec fn skip_ws(s: Seq<char>, p: int) -> int
    decreases s.len() - p,
{
    if p < 0 || p >= s.len() {
        p
    } else if is_ws(s[p]) {
        skip_ws(s, p + 1)
    } else {
        p
    }
}

/// The first position at or after `p` that holds whitespace, or the end.
pub open spec fn word_end(s: Seq<char>, p: int) -> int
    decreases s.len() - p,
{
    if p < 0 || p >= s.len() {
        p
    } else if is_ws(s[p]) {
        p
    } else {
        word_end(s, p + 1)
    }
}

/// The next word after position `p`, with the position that follows it.
pub open spec fn next_word(s: Seq<char>, p: int) -> Option<(Seq<char>, int)> {
    let a = skip_ws(s, p);
    if a >= s.len() {
        None
    } else {
        Some((s.subrange(a, word_end(s, a)), word_end(s, a)))
    }
}

/// What follows position `p`, without leading whitespace.
pub open spec fn rest_from(s: Seq<char>, p: int) -> Seq<char> {
    s.subrange(skip_ws(s, p), s.len() as int)
}

proof fn lemma_skip_ws_bounds(s: Seq<char>, p: int)
    requires
        0 <= p <= s.len(),
    ensures
        p <= skip_ws(s, p) <= s.len(),
        skip_ws(s, p) < s.len() ==> !is_ws(s[skip_ws(s, p)]),
    decreases s.len() - p,
{
    if p < s.len() && is_ws(s[p]) {
        lemma_skip_ws_bounds(s, p + 1);
    }
}

proof fn lemma_word_end_bounds(s: Seq<char>, p: int)
    requires
        0 <= p <= s.len(),
    ensures
        p <= word_end(s, p) <= s.len(),
    decreases s.len() - p,
{
    if p < s.len() && !is_ws(s[p]) {
        lemma_word_end_bounds(s, p + 1);
    }
}

/// The words of a message, read from a position onward.
pub struct Words {
    text: String,
    pos: usize,
}

impl View for Words {
    type V = (Seq<char>, int);

    closed spec fn view(&self) -> (Seq<char>, int) {
        (self.text@, self.pos as int)
    }
}

fn is_ws_char(c: char) -> (r: bool)
    ensures
        r == is_ws(c),
{
    c == ' ' || c == '\t' || c == '\n' || c == '\r'
}

impl Words {
    pub closed spec fn wf(&self) -> bool {
        self.pos <= self.text@.len()
    }

    /// The words of `s`, from its start.
    pub fn split(s: &str) -> (r: Words)
        ensures
            r@ == (s@, 0int),
            r.wf(),
    {
        Words { text: String::from_str(s), pos: 0 }
    }

    /// A reader at the same place in the same text.
    pub fn copy(&self) -> (r: Words)
        ensures
            r@ == self@,
            self.wf() ==> r.wf(),
    {
        Words { text: self.text.clone(), pos: self.pos }
    }

    fn skip(&self, from: usize) -> (r: usize)
        requires
            from <= self.text@.len(),
        ensures
            r == skip_ws(self.text@, from as int),
    {
        let n = self.text.as_str().unicode_len();
        let mut i = from;
        while i < n && is_ws_char(self.text.as_str().get_char(i))
            invariant
                n == self.text@.len(),
                from <= i <= n,
                skip_ws(self.text@, i as int) == skip_ws(self.text@, from as int),
            decreases n - i,
        {
            i = i + 1;
        }
        i
    }

    fn end_of_word(&self, from: usize) -> (r: usize)
        requires
            from <= self.text@.len(),
        ensures
            r == word_end(self.text@, from as int),
    {
        let n = self.text.as_str().unicode_len();
        let mut i = from;
        while i < n && !is_ws_char(self.text.as_str().get_char(i))
            invariant
                n == self.text@.len(),
                from <= i <= n,
                word_end(self.text@, i as int) == word_end(self.text@, from as int),
            decreases n - i,
        {
            i = i + 1;
        }
        i
    }

    /// Reads the next word, if any is left.
    pub fn next(&mut self) -> (r: Option<String>)
        requires
            old(self).wf(),
        ensures
            final(self).wf(),
            final(self)@.0 == old(self)@.0,
            match next_word(old(self)@.0, old(self)@.1) {
                Some((w, p)) => r matches Some(x) && x@ == w && final(self)@.1 == p,
                None => r is None && final(self)@.1 == old(self)@.0.len(),
            },
    {
        let a = self.skip(self.pos);
        proof {
            lemma_skip_ws_bounds(self.text@, self.pos as int);
        }
        let n = self.text.as_str().unicode_len();
        if a >= n {
            self.pos = n;
            return None;
        }
        let b = self.end_of_word(a);
        proof {
            lemma_word_end_bounds(self.text@, a as int);
        }
        let w = String::from_str(self.text.as_str().substring_char(a, b));
        self.pos = b;
        Some(w)
    }

    /// What is left of the message, without leading whitespace.
    pub fn rest(&self) -> (r: String)
        requires
            self.wf(),
        ensures
            r@ == rest_from(self@.0, self@.1),
    {
        let a = self.skip(self.pos);
        proof {
            lemma_skip_ws_bounds(self.text@, self.pos as int);
        }
        let n = self.text.as_str().unicode_len();
        String::from_str(self.text.as_str().substring_char(a, n))
    }
}

} // verus!
