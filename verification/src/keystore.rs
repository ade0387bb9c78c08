use vstd::prelude::*;
use vstd::string::StringExecFns;
use crate::b64::spec_b64_standard_decode;
use crate::chats::{ChatID, ChatType};
use crate::errors::Errors;
use crate::state::EncryptionState;

verus! {

/// Copies a byte vector; the copy is proved byte-identical.
pub fn clone_bytes(v: &Vec<u8>) -> (r: Vec<u8>)
    ensures
        r@ == v@,
{
    let mut out: Vec<u8> = Vec::new();
    let mut i: usize = 0;
    while i < v.len()
        invariant
            i <= v@.len(),
            out@ =~= v@.take(i as int),
        decreases v@.len() - i,
    {
        out.push(v[i]);
        proof {
            assert(v@.take(i + 1) =~= v@.take(i as int).push(v@[i as int]));
        }
        i = i + 1;
    }
    proof {
        assert(v@.take(i as int) =~= v@);
    }
    out
}

/// The session's cache of unwrapped per-chat symmetric keys. A chat's key
/// is RSA-OAEP-unwrapped at most once, on first use, and never evicted for
/// the session's lifetime; every cached key is exactly 32 bytes.
pub struct ChatKeyStore {
    entries: Vec<(ChatID, Vec<u8>)>,
}

/// The map an entry list denotes, later entries winning (well-formed
/// stores never hold a key twice).
pub open spec fn spec_entries_map(s: Seq<(ChatID, Vec<u8>)>) -> Map<(ChatType, Seq<char>), Seq<u8>>
    decreases s.len(),
{
    if s.len() == 0 {
        Map::empty()
    } else {
        spec_entries_map(s.drop_last()).insert(s.last().0@, s.last().1@)
    }
}

proof fn lemma_entries_map_contains(s: Seq<(ChatID, Vec<u8>)>, k: (ChatType, Seq<char>))
    ensures
        spec_entries_map(s).contains_key(k) <==> exists|i: int| 0 <= i < s.len() && s[i].0@ == k,
    decreases s.len(),
{
    if s.len() > 0 {
        lemma_entries_map_contains(s.drop_last(), k);
        if s.last().0@ == k {
            assert(s[s.len() - 1].0@ == k);
        } else if spec_entries_map(s).contains_key(k) {
            let i = choose|i: int| 0 <= i < s.drop_last().len() && s.drop_last()[i].0@ == k;
            assert(s[i].0@ == k);
        } else {
            assert forall|i: int| 0 <= i < s.len() implies s[i].0@ != k by {
                if i < s.len() - 1 {
                    assert(s.drop_last()[i] == s[i]);
                }
            }
        }
    }
}

proof fn lemma_entries_map_get(s: Seq<(ChatID, Vec<u8>)>, i: int)
    requires
        0 <= i < s.len(),
        forall|a: int, b: int|
            0 <= a < b < s.len() ==> s[a].0@ != s[b].0@,
    ensures
        spec_entries_map(s).contains_key(s[i].0@),
        spec_entries_map(s)[s[i].0@] == s[i].1@,
    decreases s.len(),
{
    if i == s.len() - 1 {
        lemma_entries_map_contains(s, s[i].0@);
    } else {
        assert(s.drop_last()[i] == s[i]);
        lemma_entries_map_get(s.drop_last(), i);
        assert(s[i].0@ != s[s.len() - 1].0@);
    }
}

impl View for ChatKeyStore {
    type V = Map<(ChatType, Seq<char>), Seq<u8>>;

    closed spec fn view(&self) -> Map<(ChatType, Seq<char>), Seq<u8>> {
        spec_entries_map(self.entries@)
    }
}

impl ChatKeyStore {
    /// No chat entered twice, and every cached key is 32 bytes.
    pub closed spec fn wf(&self) -> bool {
        (forall|a: int, b: int|
            0 <= a < b < self.entries@.len() ==> self.entries@[a].0@ != self.entries@[b].0@)
            && (forall|i: int|
            0 <= i < self.entries@.len() ==> (#[trigger] self.entries@[i].1@).len() == 32)
    }

    /// An empty cache.
    pub fn new() -> (r: ChatKeyStore)
        ensures
            r@ == Map::<(ChatType, Seq<char>), Seq<u8>>::empty(),
            r.wf(),
    {
        ChatKeyStore { entries: Vec::new() }
    }

    /// How many chats have a resident key.
    pub fn len(&self) -> (r: usize)
        requires
            self.wf(),
        ensures
            r == self@.dom().len(),
    {
        proof {
            self.lemma_len(self.entries@);
        }
        self.entries.len()
    }

    proof fn lemma_len(&self, s: Seq<(ChatID, Vec<u8>)>)
        requires
            forall|a: int, b: int| 0 <= a < b < s.len() ==> s[a].0@ != s[b].0@,
        ensures
            spec_entries_map(s).dom().len() == s.len(),
            spec_entries_map(s).dom().finite(),
        decreases s.len(),
    {
        if s.len() > 0 {
            assert forall|a: int, b: int|
                0 <= a < b < s.drop_last().len() implies s.drop_last()[a].0@
                != s.drop_last()[b].0@ by {
                assert(s.drop_last()[a] == s[a] && s.drop_last()[b] == s[b]);
            }
            self.lemma_len(s.drop_last());
            lemma_entries_map_contains(s.drop_last(), s.last().0@);
            assert forall|i: int|
                0 <= i < s.drop_last().len() implies s.drop_last()[i].0@ != s.last().0@ by {
                assert(s.drop_last()[i] == s[i] && s.last() == s[s.len() - 1]);
            }
            assert(!spec_entries_map(s.drop_last()).contains_key(s.last().0@));
            vstd::set::axiom_set_insert_len(spec_entries_map(s.drop_last()).dom(), s.last().0@);
            assert(spec_entries_map(s).dom() =~= spec_entries_map(s.drop_last()).dom().insert(
                s.last().0@,
            ));
        } else {
            assert(spec_entries_map(s).dom() =~= Set::<(ChatType, Seq<char>)>::empty());
        }
    }

    fn find(&self, chat: &ChatID) -> (r: Option<usize>)
        ensures
            match r {
                Some(i) => i < self.entries@.len() && self.entries@[i as int].0@ == chat@,
                None => !self@.contains_key(chat@),
            },
    {
        proof {
            lemma_entries_map_contains(self.entries@, chat@);
        }
        let mut i: usize = 0;
        while i < self.entries.len()
            invariant
                i <= self.entries@.len(),
                forall|j: int| 0 <= j < i ==> self.entries@[j].0@ != chat@,
            decreases self.entries@.len() - i,
        {
            if self.entries[i].0 == *chat {
                return Some(i);
            }
            i = i + 1;
        }
        None
    }

    /// Whether the chat's key is resident.
    pub fn contains(&self, chat: &ChatID) -> (r: bool)
        requires
            self.wf(),
        ensures
            r == self@.contains_key(chat@),
    {
        proof {
            lemma_entries_map_contains(self.entries@, chat@);
        }
        match self.find(chat) {
            Some(i) => {
                proof {
                    lemma_entries_map_get(self.entries@, i as int);
                }
                true
            },
            None => false,
        }
    }

    /// The resident key of a chat, where one is cached.
    pub fn get(&self, chat: &ChatID) -> (r: Option<&Vec<u8>>)
        requires
            self.wf(),
        ensures
            match r {
                Some(v) => self@.contains_key(chat@) && v@ == self@[chat@],
                None => !self@.contains_key(chat@),
            },
    {
        match self.find(chat) {
            Some(i) => {
                proof {
                    lemma_entries_map_get(self.entries@, i as int);
                }
                Some(&self.entries[i].1)
            },
            None => None,
        }
    }

    fn insert(&mut self, chat: ChatID, key: Vec<u8>)
        requires
            old(self).wf(),
            !old(self)@.contains_key(chat@),
            key@.len() == 32,
        ensures
            final(self).wf(),
            final(self)@ == old(self)@.insert(chat@, key@),
    {
        proof {
            lemma_entries_map_contains(self.entries@, chat@);
        }
        let ghost olds = self.entries@;
        self.entries.push((chat, key));
        proof {
            assert(self.entries@.drop_last() =~= olds);
            assert forall|a: int, b: int|
                0 <= a < b < self.entries@.len() implies self.entries@[a].0@
                != self.entries@[b].0@ by {
                if b < self.entries@.len() - 1 {
                    assert(olds[a] == self.entries@[a] && olds[b] == self.entries@[b]);
                } else {
                    assert(self.entries@[a] == olds[a]);
                }
            }
        }
    }

    /// The single transition from "key unknown" to "key resident".
    ///
    /// A chat that is not encrypted needs no key: `None` comes back and the
    /// cache is untouched, whatever it holds. A cached chat's key comes back
    /// unchanged, and the cache is untouched: no second unwrap ever runs for
    /// it. Otherwise the wrapped key is required (`ValueError` where the
    /// server sent none), base64-decoded and RSA-OAEP-unwrapped with the
    /// session's private encryption key; the 32-byte result is cached under
    /// the chat and returned. On any failure the cache is exactly as before:
    /// one chat's bad key material never poisons another's.
    pub fn get_or_unwrap(
        &mut self,
        chat: &ChatID,
        wrapped_key: Option<&String>,
        is_encrypted: bool,
        encryption_state: &EncryptionState,
    ) -> (r: Result<Option<Vec<u8>>, Errors>)
        requires
            old(self).wf(),
        ensures
            final(self).wf(),
            (!is_encrypted ==> (r matches Ok(k) && k is None && final(self)@ == old(self)@)),
            (is_encrypted && old(self)@.contains_key(chat@) ==> (r matches Ok(k) && (k matches Some(
                v,
            ) && v@ == old(self)@[chat@]) && final(self)@ == old(self)@)),
            (is_encrypted && !old(self)@.contains_key(chat@) && wrapped_key is None ==> (
            r matches Err(e) && e is ValueError)),
            (is_encrypted && !old(self)@.contains_key(chat@) && (wrapped_key matches Some(w)
                && spec_b64_standard_decode(w@) is None) ==> (r matches Err(e)
                && e is Base64Error)),
            (r matches Ok(k) ==> (k matches Some(v) ==> v@.len() == 32)),
            ((is_encrypted && !old(self)@.contains_key(chat@) && r is Ok) ==> (r->Ok_0 matches Some(
                v,
            ) && final(self)@ == old(self)@.insert(chat@, v@))),
            (r matches Err(e) ==> final(self)@ == old(self)@ && (e is ValueError || e is Base64Error
                || e is EncryptionError)),
    {
        if !is_encrypted {
            return Ok(None);
        }
        if let Some(cached) = self.get(chat) {
            let key = clone_bytes(cached);
            proof {
                assert(key@.len() == 32) by {
                    lemma_entries_map_contains(self.entries@, chat@);
                    let i = choose|i: int|
                        0 <= i < self.entries@.len() && self.entries@[i].0@ == chat@;
                    lemma_entries_map_get(self.entries@, i);
                }
            }
            return Ok(Some(key));
        }
        let wrapped = match wrapped_key {
            Some(w) => w,
            None => {
                return Err(
                    Errors::ValueError(String::from_str("Key is none for an encrypted chat")),
                );
            },
        };
        let key = encryption_state.decrypt(wrapped.as_str())?;
        if key.len() != 32 {
            return Err(
                Errors::EncryptionError(
                    String::from_str("unwrapped chat key is not 256 bits long"),
                ),
            );
        }
        let cached = clone_bytes(&key);
        self.insert(chat.duplicate(), cached);
        Ok(Some(key))
    }
}

} // verus!
