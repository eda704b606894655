//! Per-guild configuration snapshots: the command prefix, the set of disabled
//! commands, and the trigger phrases with their replies.

use vstd::prelude::*;

use crate::text::{char_is_whitespace, chars_of, is_space};

verus! {

/// `phrase` stands at position `i` of `content` as a whole word: the
/// characters match and each side is the text's edge or whitespace.
pub open spec fn phrase_at(content: Seq<char>, phrase: Seq<char>, i: int) -> bool {
    &&& 0 <= i
    &&& i + phrase.len() <= content.len()
    &&& content.subrange(i, i + phrase.len()) == phrase
    &&& (i == 0 || is_space(content[i - 1]))
    &&& (i + phrase.len() == content.len() || is_space(content[i + phrase.len()]))
}

/// `phrase` occurs somewhere in `content` as a whole word.
pub open spec fn phrase_occurs(content: Seq<char>, phrase: Seq<char>) -> bool {
    exists|i: int| phrase_at(content, phrase, i)
}

/// One trigger phrase and the reply sent when a message contains the phrase.
#[derive(Clone)]
pub struct Trigger {
    pub phrase: String,
    pub reply: String,
}

/// A guild's configuration as last loaded from the backing store.
#[derive(Clone)]
pub struct GuildCache {
    pub guild_id: i64,
    pub prefix: String,
    pub disabled_commands: Vec<String>,
    pub triggers: Vec<Trigger>,
}

impl GuildCache {
    /// The trigger phrases of this snapshot, as sequences of characters.
    pub open spec fn phrases(&self) -> Seq<Seq<char>> {
        self.triggers@.map_values(|t: Trigger| t.phrase@)
    }

    /// The names of the disabled commands, as sequences of characters.
    pub open spec fn disabled(&self) -> Seq<Seq<char>> {
        self.disabled_commands@.map_values(|c: String| c@)
    }

    /// A snapshot is well formed when its prefix is non-empty and no trigger
    /// phrase occurs twice.
    pub open spec fn wf(&self) -> bool {
        &&& self.prefix@.len() > 0
        &&& forall|i: int, j: int|
            0 <= i < j < self.triggers@.len() ==> self.phrases()[i] != self.phrases()[j]
    }

    /// Assembles a snapshot from the three per-guild reads of the backing
    /// store (prefix, disabled commands, triggers).
    pub fn new(
        guild_id: i64,
        prefix: String,
        disabled_commands: Vec<String>,
        triggers: Vec<Trigger>,
    ) -> (r: Self)
        ensures
            r.guild_id == guild_id,
            r.prefix == prefix,
            r.disabled_commands == disabled_commands,
            r.triggers == triggers,
    {
        GuildCache { guild_id, prefix, disabled_commands, triggers }
    }

    /// The fail-open snapshot used when the backing store is unavailable:
    /// the process-wide default prefix, no command disabled, no triggers.
    pub fn fail_open(guild_id: i64, default_prefix: &str) -> (r: Self)
        requires
            default_prefix@.len() > 0,
        ensures
            r.guild_id == guild_id,
            r.prefix@ == default_prefix@,
            r.disabled_commands@.len() == 0,
            r.triggers@.len() == 0,
            r.wf(),
    {
        GuildCache {
            guild_id,
            prefix: default_prefix.to_owned(),
            disabled_commands: Vec::new(),
            triggers: Vec::new(),
        }
    }
}

/// Relies on `str`'s `PartialEq` implementation: two string slices compare
/// equal exactly when they consist of the same characters.
#[verifier::external_body]
pub fn str_eq(a: &str, b: &str) -> (r: bool)
    ensures
        r == (a@ == b@),
{
    a == b
}

impl GuildCache {
    /// Whether the named command is disabled on this guild.
    pub fn is_command_disabled(&self, name: &str) -> (r: bool)
        ensures
            r == self.disabled().contains(name@),
    {
        let n = self.disabled_commands.len();
        for i in 0..n
            invariant
                n == self.disabled_commands@.len(),
                forall|j: int| 0 <= j < i ==> self.disabled()[j] != name@,
            decreases n - i,
        {
            if str_eq(self.disabled_commands[i].as_str(), name) {
                assert(self.disabled()[i as int] == name@);
                return true;
            }
        }
        assert(forall|j: int| 0 <= j < self.disabled().len() ==> #[trigger] self.disabled()[j] != name@);
        false
    }

    /// The reply of the trigger whose phrase is exactly `phrase`, if any.
    pub fn trigger_reply(&self, phrase: &str) -> (r: Option<&String>)
        ensures
            match r {
                Some(reply) => exists|i: int|
                    0 <= i < self.triggers@.len() && self.phrases()[i] == phrase@
                        && reply@ == self.triggers@[i].reply@,
                None => !self.phrases().contains(phrase@),
            },
    {
        let n = self.triggers.len();
        for i in 0..n
            invariant
                n == self.triggers@.len(),
                forall|j: int| 0 <= j < i ==> self.phrases()[j] != phrase@,
            decreases n - i,
        {
            if str_eq(self.triggers[i].phrase.as_str(), phrase) {
                assert(self.phrases()[i as int] == phrase@);
                return Some(&self.triggers[i].reply);
            }
        }
        assert(forall|j: int| 0 <= j < self.phrases().len() ==> self.phrases()[j] != phrase@);
        None
    }
}

fn chars_match(c: &Vec<char>, p: &Vec<char>, at: usize) -> (r: bool)
    requires
        at + p@.len() <= c@.len(),
    ensures
        r == (c@.subrange(at as int, at + p@.len()) == p@),
{
    let n = p.len();
    let clen = c.len();
    for k in 0..n
        invariant
            n == p@.len(),
            clen == c@.len(),
            at + n <= clen,
            forall|j: int| 0 <= j < k ==> c@[at + j] == p@[j],
        decreases n - k,
    {
        if c[at + k] != p[k] {
            proof {
                assert(c@.subrange(at as int, at + p@.len())[k as int] != p@[k as int]);
            }
            return false;
        }
    }
    proof {
        assert(c@.subrange(at as int, at + p@.len()) =~= p@);
    }
    true
}

/// Whether `phrase` occurs in `content` as a whole word, delimited on each
/// side by whitespace or by the text's edge.
pub fn phrase_occurs_in(content: &str, phrase: &str) -> (r: bool)
    ensures
        r == phrase_occurs(content@, phrase@),
{
    let c = chars_of(content);
    let p = chars_of(phrase);
    if p.len() > c.len() {
        proof {
            assert forall|i: int| !phrase_at(content@, phrase@, i) by {}
        }
        return false;
    }
    let clen = c.len();
    let plen = p.len();
    let last = clen - plen;
    let mut i: usize = 0;
    loop
        invariant_except_break
            c@ == content@,
            p@ == phrase@,
            clen == c@.len(),
            plen == p@.len(),
            plen <= clen,
            last == clen - plen,
            i <= last,
            forall|j: int| 0 <= j < i ==> !phrase_at(content@, phrase@, j),
        ensures
            forall|j: int| 0 <= j <= last ==> !phrase_at(content@, phrase@, j),
        decreases last - i,
    {
        let before_ok = i == 0 || char_is_whitespace(c[i - 1]);
        let after_ok = i + plen == clen || char_is_whitespace(c[i + plen]);
        if before_ok && after_ok && chars_match(&c, &p, i) {
            proof {
                assert(phrase_at(content@, phrase@, i as int));
            }
            return true;
        }
        proof {
            assert(!phrase_at(content@, phrase@, i as int));
        }
        if i == last {
            break ;
        }
        i = i + 1;
    }
    proof {
        assert forall|j: int| !phrase_at(content@, phrase@, j) by {
            if 0 <= j <= last {
                assert(!phrase_at(content@, phrase@, j));
            }
        }
    }
    false
}

impl GuildCache {
    /// The replies owed for a message by the first `i` triggers: one for
    /// each whose phrase occurs in `content` as a whole word, in order.
    pub open spec fn matching_upto(&self, content: Seq<char>, i: int) -> Seq<Seq<char>>
        decreases i,
    {
        if i <= 0 {
            Seq::empty()
        } else if phrase_occurs(content, self.triggers@[i - 1].phrase@) {
            self.matching_upto(content, i - 1).push(self.triggers@[i - 1].reply@)
        } else {
            self.matching_upto(content, i - 1)
        }
    }

    /// The replies owed for a message: one for each trigger whose phrase
    /// occurs in `content` as a whole word, in trigger order.
    pub open spec fn spec_matching_replies(&self, content: Seq<char>) -> Seq<Seq<char>> {
        self.matching_upto(content, self.triggers@.len() as int)
    }

    /// The replies of all triggers whose phrase occurs in `content` as a
    /// whole word, in trigger order.
    pub fn matching_replies(&self, content: &str) -> (r: Vec<String>)
        ensures
            r@.map_values(|s: String| s@) == self.spec_matching_replies(content@),
    {
        let mut out: Vec<String> = Vec::new();
        let n = self.triggers.len();
        proof {
            assert(out@.map_values(|s: String| s@) =~= self.matching_upto(content@, 0));
        }
        for i in 0..n
            invariant
                n == self.triggers@.len(),
                out@.map_values(|s: String| s@) == self.matching_upto(content@, i as int),
            decreases n - i,
        {
            let ghost before = out@;
            if phrase_occurs_in(content, self.triggers[i].phrase.as_str()) {
                out.push(self.triggers[i].reply.clone());
                proof {
                    assert(out@ =~= before.push(self.triggers[i as int].reply));
                    assert(out@.map_values(|s: String| s@) =~= before.map_values(
                        |s: String| s@,
                    ).push(self.triggers@[i as int].reply@));
                    assert(self.matching_upto(content@, i + 1) == self.matching_upto(
                        content@,
                        i as int,
                    ).push(self.triggers@[i as int].reply@));
                }
            } else {
                proof {
                    assert(self.matching_upto(content@, i + 1) == self.matching_upto(
                        content@,
                        i as int,
                    ));
                }
            }
        }
        out
    }
}

} // verus!
