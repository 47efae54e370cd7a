//! The record of issued sessions: which user each session token stands for.

use vstd::prelude::*;
use crate::digest::constant_time_eq;

verus! {

/// An issued session.
#[derive(Clone, Debug)]
pub struct Session {
    pub token: String,
    pub username: String,
}

/// The sessions issued so far, oldest first.
pub struct Sessions {
    entries: Vec<Session>,
}

/// The map from token to username that a sequence of sessions stands for.
pub open spec fn session_map(entries: Seq<Session>) -> Map<Seq<char>, Seq<char>>
    decreases entries.len(),
{
    if entries.len() == 0 {
        Map::empty()
    } else {
        session_map(entries.drop_last()).insert(entries.last().token@, entries.last().username@)
    }
}

/// A token is in the map exactly when some session carries it.
pub proof fn lemma_session_tokens(entries: Seq<Session>, token: Seq<char>)
    ensures
        session_map(entries).dom().contains(token) <==> exists|i: int|
            0 <= i < entries.len() && (#[trigger] entries[i]).token@ == token,
    decreases entries.len(),
{
    if entries.len() > 0 {
        let head = entries.drop_last();
        lemma_session_tokens(head, token);
        if session_map(entries).dom().contains(token) {
            if entries.last().token@ == token {
                assert(entries[entries.len() - 1].token@ == token);
            } else {
                let i = choose|i: int| 0 <= i < head.len() && (#[trigger] head[i]).token@ == token;
                assert(entries[i] == head[i]);
            }
        }
        if exists|i: int| 0 <= i < entries.len() && (#[trigger] entries[i]).token@ == token {
            let i = choose|i: int|
                0 <= i < entries.len() && (#[trigger] entries[i]).token@ == token;
            if i < head.len() {
                assert(head[i] == entries[i]);
            }
        }
    }
}

/// The map gives a token the username of the last session that carries it.
pub proof fn lemma_session_user(entries: Seq<Session>, token: Seq<char>, i: int)
    requires
        0 <= i < entries.len(),
        entries[i].token@ == token,
        forall|k: int| i < k < entries.len() ==> (#[trigger] entries[k]).token@ != token,
    ensures
        session_map(entries).dom().contains(token),
        session_map(entries)[token] == entries[i].username@,
    decreases entries.len(),
{
    let head = entries.drop_last();
    if i < entries.len() - 1 {
        assert(entries[entries.len() - 1].token@ != token);
        assert(head[i] == entries[i]);
        assert forall|k: int| i < k < head.len() implies (#[trigger] head[k]).token@ != token by {
            assert(head[k] == entries[k]);
        }
        lemma_session_user(head, token, i);
    }
}

impl View for Sessions {
    type V = Map<Seq<char>, Seq<char>>;

    closed spec fn view(&self) -> Map<Seq<char>, Seq<char>> {
        session_map(self.entries@)
    }
}

impl Sessions {
    /// No session has been issued.
    pub fn new() -> (sessions: Sessions)
        ensures
            sessions@ == Map::<Seq<char>, Seq<char>>::empty(),
    {
        Sessions { entries: Vec::new() }
    }

    fn find(&self, token: &str) -> (found: Option<usize>)
        ensures
            match found {
                Some(i) => i < self.entries@.len() && self@.dom().contains(token@) && self@[token@]
                    == self.entries@[i as int].username@,
                None => !self@.dom().contains(token@),
            },
    {
        let mut i: usize = self.entries.len();
        while i > 0
            invariant
                i <= self.entries.len(),
                forall|k: int|
                    i <= k < self.entries@.len() ==> (#[trigger] self.entries@[k]).token@ != token@,
            decreases i,
        {
            i -= 1;
            if constant_time_eq(self.entries[i].token.as_str(), token) {
                proof {
                    lemma_session_user(self.entries@, token@, i as int);
                }
                return Some(i);
            }
        }
        proof {
            lemma_session_tokens(self.entries@, token@);
        }
        None
    }

    /// Records that `token` stands for `username`, unless the token is in
    /// use: then nothing changes and the caller is to draw another token.
    pub fn issue(&mut self, token: String, username: String) -> (issued: bool)
        ensures
            issued == !old(self)@.dom().contains(token@),
            final(self)@ == if issued {
                old(self)@.insert(token@, username@)
            } else {
                old(self)@
            },
    {
        if self.find(token.as_str()).is_some() {
            return false;
        }
        let ghost before = self.entries@;
        self.entries.push(Session { token, username });
        proof {
            assert(self.entries@.drop_last() =~= before);
        }
        true
    }

    /// The user that `token` stands for, if it was issued.
    pub fn user_of(&self, token: &str) -> (user: Option<String>)
        ensures
            match user {
                Some(name) => self@.dom().contains(token@) && name@ == self@[token@],
                None => !self@.dom().contains(token@),
            },
    {
        match self.find(token) {
            Some(i) => Some(self.entries[i].username.clone()),
            None => None,
        }
    }
}

} // verus!
