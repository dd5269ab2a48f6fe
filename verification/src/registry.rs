//! The per-connection channel registry: a table from the connection-local
//! channel id to that channel's negotiated capability tokens.  Channels are
//! registered on open with an empty token list, the token list is replaced
//! wholesale by each protocol-version request, and a lookup of an id that
//! is not registered is the `ChannelNotFound` error.

use vstd::prelude::*;

use vstd::hash_map::HashMapWithView;

use crate::error::SshHandlerErr;
use crate::util::append_bytes;

verus! {

/// The mathematical view of a token list: each token as its byte sequence.
pub open spec fn tokens_view(ts: Seq<Vec<u8>>) -> Seq<Seq<u8>> {
    ts.map_values(|t: Vec<u8>| t@)
}

/// The name of the out-of-band variable that carries protocol capability
/// tokens.
pub open spec fn git_protocol_name() -> Seq<u8> {
    seq![
        'G' as u8, 'I' as u8, 'T' as u8, '_' as u8, 'P' as u8, 'R' as u8, 'O' as u8, 'T' as u8,
        'O' as u8, 'C' as u8, 'O' as u8, 'L' as u8,
    ]
}

/// The byte form of the protocol-version variable name.
pub fn git_protocol_name_bytes() -> (r: Vec<u8>)
    ensures
        r@ == git_protocol_name(),
{
    let mut r: Vec<u8> = Vec::new();
    r.push('G' as u8);
    r.push('I' as u8);
    r.push('T' as u8);
    r.push('_' as u8);
    r.push('P' as u8);
    r.push('R' as u8);
    r.push('O' as u8);
    r.push('T' as u8);
    r.push('O' as u8);
    r.push('C' as u8);
    r.push('O' as u8);
    r.push('L' as u8);
    assert(r@ =~= git_protocol_name());
    r
}

/// Splitting a value on `:`: the empty value gives one empty token, a
/// leading separator contributes an empty token, and any other leading
/// byte extends the first token of the split of the rest.
pub open spec fn spec_split_colon(s: Seq<u8>) -> Seq<Seq<u8>>
    decreases s.len(),
{
    if s.len() == 0 {
        seq![Seq::<u8>::empty()]
    } else if s[0] == 58u8 {
        seq![Seq::<u8>::empty()] + spec_split_colon(s.drop_first())
    } else {
        let rest = spec_split_colon(s.drop_first());
        seq![seq![s[0]] + rest[0]] + rest.drop_first()
    }
}

/// A split is never empty: it has one token more than the separators.
pub proof fn lemma_split_colon_nonempty(s: Seq<u8>)
    ensures
        spec_split_colon(s).len() >= 1,
    decreases s.len(),
{
    if s.len() > 0 {
        lemma_split_colon_nonempty(s.drop_first());
    }
}

/// Split a capability value on `:` into its tokens.
pub fn split_colon(value: &Vec<u8>) -> (r: Vec<Vec<u8>>)
    ensures
        tokens_view(r@) == spec_split_colon(value@),
{
    let ghost len = value@.len() as int;
    let mut r: Vec<Vec<u8>> = Vec::new();
    r.push(Vec::new());
    assert(value@.subrange(len, len) =~= Seq::<u8>::empty());
    assert(tokens_view(r@) =~= spec_split_colon(value@.subrange(len, len)));
    let mut i: usize = value.len();
    while i > 0
        invariant
            i <= value@.len(),
            len == value@.len() as int,
            r@.len() >= 1,
            tokens_view(r@) == spec_split_colon(value@.subrange(i as int, len)),
        decreases i,
    {
        let ghost pre = value@.subrange(i - 1, len);
        proof {
            assert(pre.drop_first() =~= value@.subrange(i as int, len));
            lemma_split_colon_nonempty(pre.drop_first());
        }
        let c = value[i - 1];
        if c == 58 {
            r.insert(0, Vec::new());
            assert(tokens_view(r@) =~= spec_split_colon(pre));
        } else {
            let mut tok: Vec<u8> = Vec::new();
            tok.push(c);
            let front = r.remove(0);
            append_bytes(&mut tok, &front);
            r.insert(0, tok);
            assert(tokens_view(r@) =~= spec_split_colon(pre));
        }
        i = i - 1;
    }
    assert(value@.subrange(0, len) =~= value@);
    r
}

/// The registry of open channels of one connection.
pub struct ChannelRegistry {
    table: HashMapWithView<u64, Vec<Vec<u8>>>,
}

impl View for ChannelRegistry {
    type V = Map<u64, Seq<Seq<u8>>>;

    closed spec fn view(&self) -> Map<u64, Seq<Seq<u8>>> {
        self.table@.map_values(|ts: Vec<Vec<u8>>| tokens_view(ts@))
    }
}

impl ChannelRegistry {
    /// An empty registry: no channel is open.
    pub fn new() -> (r: ChannelRegistry)
        ensures
            r@ == Map::<u64, Seq<Seq<u8>>>::empty(),
    {
        let r = ChannelRegistry { table: HashMapWithView::new() };
        proof {
            assert(r@ =~= Map::<u64, Seq<Seq<u8>>>::empty());
        }
        r
    }

    /// Whether the channel id is registered.
    pub fn contains_channel(&self, id: u64) -> (r: bool)
        ensures
            r == self@.contains_key(id),
    {
        self.table.contains_key(&id)
    }

    /// Register a newly opened channel with an empty capability set.  The
    /// id must be fresh: the transport assigns ids, so a duplicate is an
    /// invariant violation the caller must treat as fatal.
    pub fn open_channel(&mut self, id: u64)
        requires
            !old(self)@.contains_key(id),
        ensures
            final(self)@ == old(self)@.insert(id, Seq::<Seq<u8>>::empty()),
    {
        self.table.insert(id, Vec::new());
        proof {
            assert(tokens_view(Seq::<Vec<u8>>::empty()) =~= Seq::<Seq<u8>>::empty());
            assert(self@ =~= old(self)@.insert(id, Seq::<Seq<u8>>::empty()));
        }
    }

    /// Remove a channel; `ChannelNotFound` when the id is not registered,
    /// in which case nothing changes.
    pub fn close_channel(&mut self, id: u64) -> (r: Result<(), SshHandlerErr>)
        ensures
            old(self)@.contains_key(id) ==> r is Ok && final(self)@ == old(self)@.remove(id),
            !old(self)@.contains_key(id) ==> (r matches Err(SshHandlerErr::ChannelNotFound))
                && final(self)@ == old(self)@,
    {
        match self.table.remove(&id) {
            Some(_) => {
                proof {
                    assert(self@ =~= old(self)@.remove(id));
                }
                Ok(())
            },
            None => {
                proof {
                    assert(self@ =~= old(self)@);
                }
                Err(SshHandlerErr::ChannelNotFound)
            },
        }
    }

    /// Replace the channel's capability tokens; `ChannelNotFound` when the
    /// id is not registered, in which case nothing changes.
    pub fn set_capabilities(&mut self, id: u64, tokens: Vec<Vec<u8>>) -> (r: Result<
        (),
        SshHandlerErr,
    >)
        ensures
            old(self)@.contains_key(id) ==> r is Ok && final(self)@ == old(self)@.insert(
                id,
                tokens_view(tokens@),
            ),
            !old(self)@.contains_key(id) ==> (r matches Err(SshHandlerErr::ChannelNotFound))
                && final(self)@ == old(self)@,
    {
        if self.table.contains_key(&id) {
            self.table.insert(id, tokens);
            proof {
                assert(self@ =~= old(self)@.insert(id, tokens_view(tokens@)));
            }
            Ok(())
        } else {
            Err(SshHandlerErr::ChannelNotFound)
        }
    }

    /// Record an out-of-band parameter request.  The protocol-version
    /// variable replaces the channel's tokens with the value split on `:`;
    /// any other variable is accepted and ignored.  `ChannelNotFound` when
    /// the id is not registered.
    pub fn env_request(&mut self, id: u64, name: &Vec<u8>, value: &Vec<u8>) -> (r: Result<
        (),
        SshHandlerErr,
    >)
        ensures
            !old(self)@.contains_key(id) ==> (r matches Err(SshHandlerErr::ChannelNotFound))
                && final(self)@ == old(self)@,
            old(self)@.contains_key(id) && name@ == git_protocol_name() ==> r is Ok
                && final(self)@ == old(self)@.insert(id, spec_split_colon(value@)),
            old(self)@.contains_key(id) && name@ != git_protocol_name() ==> r is Ok
                && final(self)@ == old(self)@,
    {
        if !self.contains_channel(id) {
            return Err(SshHandlerErr::ChannelNotFound);
        }
        let protocol_var = git_protocol_name_bytes();
        if crate::util::bytes_eq(name, &protocol_var) {
            let tokens = split_colon(value);
            self.set_capabilities(id, tokens)
        } else {
            Ok(())
        }
    }

    /// The channel's current capability tokens, as a copy;
    /// `ChannelNotFound` when the id is not registered.
    pub fn capabilities(&self, id: u64) -> (r: Result<Vec<Vec<u8>>, SshHandlerErr>)
        ensures
            self@.contains_key(id) ==> (r matches Ok(ts) && tokens_view(ts@) == self@[id]),
            !self@.contains_key(id) ==> r matches Err(SshHandlerErr::ChannelNotFound),
    {
        match self.table.get(&id) {
            Some(ts) => {
                let mut out: Vec<Vec<u8>> = Vec::new();
                let mut i: usize = 0;
                while i < ts.len()
                    invariant
                        i <= ts@.len(),
                        out@.len() == i,
                        forall|k: int| 0 <= k < i ==> out@[k]@ == ts@[k]@,
                    decreases ts@.len() - i,
                {
                    let mut tok: Vec<u8> = Vec::new();
                    append_bytes(&mut tok, &ts[i]);
                    assert(tok@ =~= ts@[i as int]@);
                    out.push(tok);
                    i = i + 1;
                }
                assert(tokens_view(out@) =~= tokens_view(ts@));
                assert(tokens_view(ts@) == self@[id]);
                Ok(out)
            },
            None => Err(SshHandlerErr::ChannelNotFound),
        }
    }
}

} // verus!
