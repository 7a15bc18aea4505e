//! The raw line model: one line of the tag-based chat protocol, split into
//! an optional prefix, a command name, an ordered parameter list and a tag
//! map.

use vstd::prelude::*;

verus! {

/// The sender prefix of a raw line: either a bare host, or a full
/// nick!user@host triple.
#[derive(Debug, PartialEq, Eq)]
pub enum IrcPrefix {
    HostOnly { host: String },
    Full { nick: String, user: String, host: String },
}

/// The mathematical shape of a prefix: each part as its character sequence.
#[verifier::ext_equal]
pub enum PrefixView {
    HostOnly { host: Seq<char> },
    Full { nick: Seq<char>, user: Seq<char>, host: Seq<char> },
}

impl View for IrcPrefix {
    type V = PrefixView;

    open spec fn view(&self) -> PrefixView {
        match self {
            IrcPrefix::HostOnly { host } => PrefixView::HostOnly { host: host@ },
            IrcPrefix::Full { nick, user, host } => PrefixView::Full {
                nick: nick@,
                user: user@,
                host: host@,
            },
        }
    }
}

/// The tag set of a raw line, as the ordered list of key/value pairs in
/// which they were read. The map it denotes is `tags_map`: when a key
/// occurs twice, the later pair wins.
#[derive(Debug, PartialEq, Eq)]
pub struct IrcTags(pub Vec<(String, String)>);

/// The map denoted by a list of tag pairs; a later pair overrides an
/// earlier one with the same key.
pub open spec fn tags_map(pairs: Seq<(Seq<char>, Seq<char>)>) -> Map<Seq<char>, Seq<char>>
    decreases pairs.len(),
{
    if pairs.len() == 0 {
        Map::empty()
    } else {
        tags_map(pairs.drop_last()).insert(pairs.last().0, pairs.last().1)
    }
}

impl View for IrcTags {
    type V = Map<Seq<char>, Seq<char>>;

    open spec fn view(&self) -> Map<Seq<char>, Seq<char>> {
        tags_map(self.0.deep_view())
    }
}

/// If no pair at index `i` or later has key `k`, the denoted map looks up
/// `k` in the first `i` pairs alone.
proof fn lemma_tags_map_prefix(pairs: Seq<(Seq<char>, Seq<char>)>, i: int, k: Seq<char>)
    requires
        0 <= i <= pairs.len(),
        forall|j: int| i <= j < pairs.len() ==> (#[trigger] pairs[j]).0 != k,
    ensures
        tags_map(pairs).contains_key(k) == tags_map(pairs.take(i)).contains_key(k),
        tags_map(pairs).contains_key(k) ==> tags_map(pairs)[k] == tags_map(pairs.take(i))[k],
    decreases pairs.len() - i,
{
    if i < pairs.len() {
        lemma_tags_map_prefix(pairs, i + 1, k);
        assert(pairs.take(i + 1).drop_last() =~= pairs.take(i));
        assert(pairs.take(i + 1).last() == pairs[i]);
        assert(tags_map(pairs.take(i + 1)) == tags_map(pairs.take(i)).insert(
            pairs[i].0,
            pairs[i].1,
        ));
    } else {
        assert(pairs.take(i) =~= pairs);
    }
}

impl IrcTags {
    /// Looks a key up in the tag set; of two pairs with the same key the
    /// later one is returned.
    pub fn get(&self, key: &str) -> (r: Option<&String>)
        ensures
            match r {
                Some(v) => self@.contains_key(key@) && v@ == self@[key@],
                None => !self@.contains_key(key@),
            },
    {
        let k = key.to_owned();
        let n = self.0.len();
        let mut i = n;
        while i > 0
            invariant
                0 <= i <= n,
                n == self.0.len(),
                k@ == key@,
                forall|j: int| i <= j < n ==> (#[trigger] self.0.deep_view()[j]).0 != key@,
            decreases i,
        {
            i = i - 1;
            let pair = &self.0[i];
            if pair.0 == k {
                proof {
                    lemma_tags_map_prefix(self.0.deep_view(), i + 1, key@);
                    assert(self.0.deep_view().take(i + 1).drop_last() =~= self.0.deep_view().take(
                        i as int,
                    ));
                    assert(self.0.deep_view().take(i + 1).last() == self.0.deep_view()[i as int]);
                }
                return Some(&pair.1);
            }
        }
        proof {
            lemma_tags_map_prefix(self.0.deep_view(), 0, key@);
            assert(self.0.deep_view().take(0) =~= Seq::<(Seq<char>, Seq<char>)>::empty());
        }
        None
    }
}

/// One line of the protocol, parsed into its structural parts. Immutable
/// once constructed; every typed event retains the line it was parsed from.
#[derive(Debug, PartialEq, Eq)]
pub struct IrcMessage {
    pub tags: IrcTags,
    pub prefix: Option<IrcPrefix>,
    pub command: String,
    pub params: Vec<String>,
}

/// The mathematical shape of a raw line: the tag map, the prefix, the
/// command name and the parameter list, all over character sequences.
#[verifier::ext_equal]
pub struct LineView {
    pub tags: Map<Seq<char>, Seq<char>>,
    pub prefix: Option<PrefixView>,
    pub command: Seq<char>,
    pub params: Seq<Seq<char>>,
}

impl View for IrcMessage {
    type V = LineView;

    open spec fn view(&self) -> LineView {
        LineView {
            tags: self.tags@,
            prefix: match self.prefix {
                Some(p) => Some(p@),
                None => None,
            },
            command: self.command@,
            params: self.params.deep_view(),
        }
    }
}

impl Clone for IrcPrefix {
    fn clone(&self) -> (r: Self)
        ensures
            r == *self,
    {
        match self {
            IrcPrefix::HostOnly { host } => IrcPrefix::HostOnly { host: host.clone() },
            IrcPrefix::Full { nick, user, host } => IrcPrefix::Full {
                nick: nick.clone(),
                user: user.clone(),
                host: host.clone(),
            },
        }
    }
}

impl Clone for IrcTags {
    fn clone(&self) -> (r: Self)
        ensures
            r.0@ == self.0@,
            r@ == self@,
    {
        let mut pairs: Vec<(String, String)> = Vec::new();
        let mut i: usize = 0;
        while i < self.0.len()
            invariant
                0 <= i <= self.0.len(),
                pairs@ =~= self.0@.take(i as int),
            decreases self.0.len() - i,
        {
            let pair = &self.0[i];
            pairs.push((pair.0.clone(), pair.1.clone()));
            proof {
                assert(pairs@ =~= self.0@.take(i + 1));
            }
            i = i + 1;
        }
        proof {
            assert(self.0@.take(self.0@.len() as int) =~= self.0@);
            assert(pairs@ == self.0@);
        }
        IrcTags(pairs)
    }
}

impl Clone for IrcMessage {
    fn clone(&self) -> (r: Self)
        ensures
            r@ == self@,
            r.command@ == self.command@,
            r.params@ == self.params@,
    {
        let prefix = match &self.prefix {
            Some(p) => Some(p.clone()),
            None => None,
        };
        let mut params: Vec<String> = Vec::new();
        let mut i: usize = 0;
        while i < self.params.len()
            invariant
                0 <= i <= self.params.len(),
                params@ =~= self.params@.take(i as int),
            decreases self.params.len() - i,
        {
            params.push(self.params[i].clone());
            proof {
                assert(params@ =~= self.params@.take(i + 1));
            }
            i = i + 1;
        }
        proof {
            assert(self.params@.take(self.params@.len() as int) =~= self.params@);
            assert(params@ == self.params@);
        }
        let r = IrcMessage {
            tags: self.tags.clone(),
            prefix,
            command: self.command.clone(),
            params,
        };
        proof {
            assert(r.params.deep_view() =~= self.params.deep_view());
        }
        r
    }
}

} // verus!
