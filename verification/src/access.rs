//! Access tokens, cached per account.
//!
//! The store answers from what it holds. Where it holds no token for an
//! account the caller fetches one through the request service and hands the
//! outcome back, so that the next request for that account is answered at
//! once.

use vstd::prelude::*;
use vstd::string::StringExecFns;

verus! {

/// One cached token.
#[derive(Debug)]
pub struct TokenEntry {
    pub account: String,
    pub token: String,
}

/// One thing that can happen to the store.
pub enum TokenEvent {
    /// A token was fetched for an account and is now cached.
    Fetched(Seq<char>, Seq<char>),
    /// The token of an account was rejected and is dropped.
    Invalidate(Seq<char>),
}

/// The tokens that a list of entries stands for. A later entry for an account
/// replaces an earlier one.
pub open spec fn entries_map(s: Seq<TokenEntry>) -> Map<Seq<char>, Seq<char>>
    decreases s.len(),
{
    if s.len() == 0 {
        Map::empty()
    } else {
        entries_map(s.drop_last()).insert(s.last().account@, s.last().token@)
    }
}

/// The entries of `s` that are for another account than `account`.
pub open spec fn others(s: Seq<TokenEntry>, account: Seq<char>) -> Seq<TokenEntry>
    decreases s.len(),
{
    if s.len() == 0 {
        s
    } else if s.last().account@ == account {
        others(s.drop_last(), account)
    } else {
        others(s.drop_last(), account).push(s.last())
    }
}

/// Whether no two entries of `s` are for the same account.
pub open spec fn distinct_accounts(s: Seq<TokenEntry>) -> bool {
    forall|i: int, j: int|
        0 <= i < s.len() && 0 <= j < s.len() && i != j ==> s[i].account@ != s[j].account@
}

/// The store after one event.
pub open spec fn apply_token_event(
    tokens: Map<Seq<char>, Seq<char>>,
    event: TokenEvent,
) -> Map<Seq<char>, Seq<char>> {
    match event {
        TokenEvent::Fetched(account, token) => tokens.insert(account, token),
        TokenEvent::Invalidate(account) => tokens.remove(account),
    }
}

/// The store after a run of events, the first of them applied first.
pub open spec fn run_token_events(
    tokens: Map<Seq<char>, Seq<char>>,
    events: Seq<TokenEvent>,
) -> Map<Seq<char>, Seq<char>>
    decreases events.len(),
{
    if events.len() == 0 {
        tokens
    } else {
        apply_token_event(run_token_events(tokens, events.drop_last()), events.last())
    }
}

/// Taking the entries of one account out of a list takes that account out of
/// the tokens it stands for, and leaves no entry of that account behind.
pub proof fn lemma_others(s: Seq<TokenEntry>, account: Seq<char>)
    ensures
        entries_map(others(s, account)) == entries_map(s).remove(account),
        forall|i: int|
            0 <= i < others(s, account).len() ==> (#[trigger] others(s, account)[i]).account@
                != account,
        distinct_accounts(s) ==> distinct_accounts(others(s, account)),
        forall|i: int|
            0 <= i < others(s, account).len() ==> exists|k: int|
                0 <= k < s.len() && s[k] == #[trigger] others(s, account)[i],
    decreases s.len(),
{
    let o = others(s, account);
    if s.len() == 0 {
        assert(entries_map(s).remove(account) =~= entries_map(s));
    } else {
        let head = s.drop_last();
        let oh = others(head, account);
        lemma_others(head, account);
        if s.last().account@ == account {
            assert(entries_map(s).remove(account) =~= entries_map(head).remove(account));
            assert forall|i: int| 0 <= i < o.len() implies exists|k: int|
                0 <= k < s.len() && s[k] == #[trigger] o[i] by {
                let k = choose|k: int| 0 <= k < head.len() && head[k] == oh[i];
                assert(s[k] == o[i]);
            }
            if distinct_accounts(s) {
                assert forall|i: int, j: int|
                    0 <= i < head.len() && 0 <= j < head.len() && i != j implies head[i].account@
                    != head[j].account@ by {
                    assert(s[i].account@ != s[j].account@);
                }
            }
        } else {
            assert(o.drop_last() =~= oh);
            assert(entries_map(o) =~= entries_map(s).remove(account));
            assert forall|i: int| 0 <= i < o.len() implies exists|k: int|
                0 <= k < s.len() && s[k] == #[trigger] o[i] by {
                if i < oh.len() {
                    let k = choose|k: int| 0 <= k < head.len() && head[k] == oh[i];
                    assert(s[k] == o[i]);
                } else {
                    assert(s[s.len() - 1] == o[i]);
                }
            }
            if distinct_accounts(s) {
                assert forall|i: int, j: int|
                    0 <= i < head.len() && 0 <= j < head.len() && i != j implies head[i].account@
                    != head[j].account@ by {
                    assert(s[i].account@ != s[j].account@);
                }
                assert forall|i: int, j: int|
                    0 <= i < o.len() && 0 <= j < o.len() && i != j implies o[i].account@
                    != o[j].account@ by {
                    if i < oh.len() && j == oh.len() {
                        let k = choose|k: int| 0 <= k < head.len() && head[k] == oh[i];
                        assert(s[k].account@ != s[s.len() - 1].account@);
                    }
                    if j < oh.len() && i == oh.len() {
                        let k = choose|k: int| 0 <= k < head.len() && head[k] == oh[j];
                        assert(s[k].account@ != s[s.len() - 1].account@);
                    }
                }
            }
        }
    }
}

/// Whether the event drops the token of `account`.
pub open spec fn invalidates(event: TokenEvent, account: Seq<char>) -> bool {
    event matches TokenEvent::Invalidate(a) && a == account
}

/// Whether the event caches a token for `account`.
pub open spec fn fetches(event: TokenEvent, account: Seq<char>) -> bool {
    event matches TokenEvent::Fetched(a, _) && a == account
}

/// A token that was fetched for an account stays cached for it, whatever
/// happens to the store, until the account is invalidated. While no other
/// token is fetched for the account either, it is that very token.
pub proof fn lemma_token_stays_cached(
    tokens: Map<Seq<char>, Seq<char>>,
    account: Seq<char>,
    token: Seq<char>,
    events: Seq<TokenEvent>,
)
    requires
        forall|i: int| 0 <= i < events.len() ==> !invalidates(#[trigger] events[i], account),
    ensures
        run_token_events(tokens.insert(account, token), events).contains_key(account),
        (forall|i: int| 0 <= i < events.len() ==> !fetches(#[trigger] events[i], account))
            ==> run_token_events(tokens.insert(account, token), events)[account] == token,
    decreases events.len(),
{
    if events.len() > 0 {
        let head = events.drop_last();
        assert forall|i: int| 0 <= i < head.len() implies !invalidates(
            #[trigger] head[i],
            account,
        ) by {
            assert(head[i] == events[i]);
        }
        lemma_token_stays_cached(tokens, account, token, head);
        let last = events[events.len() - 1];
        assert(!invalidates(last, account));
        if forall|i: int| 0 <= i < events.len() ==> !fetches(#[trigger] events[i], account) {
            assert forall|i: int| 0 <= i < head.len() implies !fetches(
                #[trigger] head[i],
                account,
            ) by {
                assert(head[i] == events[i]);
            }
            assert(!fetches(last, account));
        }
    }
}

/// The cache of access tokens, at most one per account.
#[derive(Debug)]
pub struct AccessTokenStore {
    entries: Vec<TokenEntry>,
}

impl View for AccessTokenStore {
    type V = Map<Seq<char>, Seq<char>>;

    closed spec fn view(&self) -> Map<Seq<char>, Seq<char>> {
        entries_map(self.entries@)
    }
}

impl AccessTokenStore {
    #[verifier::type_invariant]
    spec fn well_formed(self) -> bool {
        distinct_accounts(self.entries@)
    }

    /// A store that holds no token.
    pub fn new() -> (r: Self)
        ensures
            r@ == Map::<Seq<char>, Seq<char>>::empty(),
    {
        AccessTokenStore { entries: Vec::new() }
    }

    /// The number of accounts that a token is cached for.
    pub fn len(&self) -> (r: usize)
        ensures
            r == self@.len(),
            self@.dom().finite(),
    {
        proof {
            use_type_invariant(self);
            lemma_entries_len(self.entries@);
        }
        self.entries.len()
    }

    /// The token cached for `account`, if there is one. Where there is none
    /// the caller has to fetch one and hand it to [`AccessTokenStore::token_fetched`].
    pub fn get_token(&self, account: &str) -> (r: Option<String>)
        ensures
            match r {
                Some(token) => self@.contains_key(account@) && self@[account@] == token@,
                None => !self@.contains_key(account@),
            },
    {
        let wanted = String::from_str(account);
        let mut i: usize = self.entries.len();
        assert(self.entries@.take(i as int) =~= self.entries@);
        while i > 0
            invariant
                i <= self.entries.len(),
                wanted@ == account@,
                self@ == entries_map(self.entries@),
                entries_map(self.entries@.take(i as int)).contains_key(account@)
                    == self@.contains_key(account@),
                self@.contains_key(account@) ==> entries_map(self.entries@.take(i as int))[account@]
                    == self@[account@],
            decreases i,
        {
            proof {
                let cur = self.entries@.take(i as int);
                assert(cur.drop_last() =~= self.entries@.take(i - 1));
                assert(cur.last() == self.entries@[i - 1]);
            }
            i = i - 1;
            if self.entries[i].account == wanted {
                return Some(self.entries[i].token.clone());
            }
        }
        None
    }

    /// Caches `token` for `account`, in place of any token held for it.
    pub fn token_fetched(&mut self, account: String, token: String)
        ensures
            final(self)@ == old(self)@.insert(account@, token@),
    {
        proof {
            use_type_invariant(&*self);
        }
        let mut kept = Self::entries_of_others(&self.entries, account.as_str());
        proof {
            lemma_others(self.entries@, account@);
            let grown = kept@.push(TokenEntry { account, token });
            assert(grown.drop_last() =~= kept@);
            assert(entries_map(grown) =~= entries_map(self.entries@).insert(account@, token@));
            assert(distinct_accounts(grown));
        }
        kept.push(TokenEntry { account, token });
        self.entries = kept;
    }

    /// Takes in what fetching a token for `account` gave. A token is cached
    /// and handed on; an error is handed on and leaves the store as it was.
    pub fn fetch_completed<E>(&mut self, account: String, outcome: Result<String, E>) -> (r: Result<
        String,
        E,
    >)
        ensures
            match outcome {
                Ok(token) => final(self)@ == old(self)@.insert(account@, token@) && r == Ok::<
                    String,
                    E,
                >(token),
                Err(e) => final(self)@ == old(self)@ && r == Err::<String, E>(e),
            },
    {
        match outcome {
            Ok(token) => {
                self.token_fetched(account, token.clone());
                Ok(token)
            },
            Err(e) => Err(e),
        }
    }

    /// Drops the token of `account`, as a caller does whose request with that
    /// token was rejected. Never fails; an account without a token is left so.
    pub fn invalidate(&mut self, account: &str)
        ensures
            final(self)@ == old(self)@.remove(account@),
    {
        proof {
            use_type_invariant(&*self);
            lemma_others(self.entries@, account@);
        }
        let kept = Self::entries_of_others(&self.entries, account);
        self.entries = kept;
    }

    fn entries_of_others(entries: &Vec<TokenEntry>, account: &str) -> (r: Vec<TokenEntry>)
        ensures
            r@ == others(entries@, account@),
    {
        let unwanted = String::from_str(account);
        let mut kept: Vec<TokenEntry> = Vec::new();
        let mut i: usize = 0;
        while i < entries.len()
            invariant
                i <= entries.len(),
                unwanted@ == account@,
                kept@ == others(entries@.take(i as int), account@),
            decreases entries.len() - i,
        {
            proof {
                let next = entries@.take(i + 1);
                assert(next.drop_last() =~= entries@.take(i as int));
                assert(next.last() == entries@[i as int]);
            }
            if !(entries[i].account == unwanted) {
                kept.push(
                    TokenEntry {
                        account: entries[i].account.clone(),
                        token: entries[i].token.clone(),
                    },
                );
            }
            i = i + 1;
        }
        assert(entries@.take(i as int) =~= entries@);
        kept
    }
}

/// Entries for distinct accounts stand for as many tokens as there are entries.
proof fn lemma_entries_len(s: Seq<TokenEntry>)
    requires
        distinct_accounts(s),
    ensures
        entries_map(s).dom().finite(),
        entries_map(s).len() == s.len(),
        forall|a: Seq<char>|
            entries_map(s).contains_key(a) ==> exists|i: int|
                0 <= i < s.len() && (#[trigger] s[i]).account@ == a,
    decreases s.len(),
{
    if s.len() > 0 {
        let head = s.drop_last();
        assert forall|i: int, j: int|
            0 <= i < head.len() && 0 <= j < head.len() && i != j implies head[i].account@
            != head[j].account@ by {
            assert(s[i].account@ != s[j].account@);
        }
        lemma_entries_len(head);
        let a = s.last().account@;
        if entries_map(head).contains_key(a) {
            let i = choose|i: int| 0 <= i < head.len() && (#[trigger] head[i]).account@ == a;
            assert(s[i].account@ == s[s.len() - 1].account@);
        }
        assert forall|b: Seq<char>| entries_map(s).contains_key(b) implies exists|i: int|
            0 <= i < s.len() && (#[trigger] s[i]).account@ == b by {
            if b == a {
                assert(s[s.len() - 1].account@ == b);
            } else {
                let i = choose|i: int| 0 <= i < head.len() && (#[trigger] head[i]).account@ == b;
                assert(s[i].account@ == b);
            }
        }
    }
}

} // verus!
