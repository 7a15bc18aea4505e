//! The raw line tokenizer: one line of text in, an `IrcMessage` out, or a
//! failure when the line has no command. Shape of a line:
//! `[@tags ][:prefix ]COMMAND[ params...][ :trailing]`.

use vstd::prelude::*;

use crate::line::{IrcMessage, IrcPrefix, IrcTags, PrefixView, tags_map};
use crate::split::{
    find_char, find_char_from, lemma_find_char, lemma_find_char_is, lemma_find_char_none,
    lemma_split_on_len, lemma_split_on_step, split_on,
};

verus! {

/// Why a line could not be tokenized.
#[derive(Debug, PartialEq, Eq)]
pub enum LineParseError {
    /// The line holds no command name.
    MissingCommand,
}

/// A tag value with the wire escapes undone: `\:` is `;`, `\s` a space,
/// `\r` and `\n` the line controls, `\\` a backslash; an unknown escape
/// keeps its character, and a trailing lone backslash is dropped.
pub open spec fn unescaped(v: Seq<char>) -> Seq<char>
    decreases v.len(),
{
    if v.len() == 0 {
        Seq::empty()
    } else if v[0] == '\\' {
        if v.len() == 1 {
            Seq::empty()
        } else {
            let c = v[1];
            let d = if c == ':' {
                ';'
            } else if c == 's' {
                ' '
            } else if c == 'r' {
                '\r'
            } else if c == 'n' {
                '\n'
            } else {
                c
            };
            seq![d] + unescaped(v.skip(2))
        }
    } else {
        seq![v[0]] + unescaped(v.skip(1))
    }
}

/// The key/value pair one tag segment denotes: the part before the first
/// `=` and the unescaped part after it; without `=` the value is empty.
pub open spec fn tag_pair_of(p: Seq<char>) -> (Seq<char>, Seq<char>) {
    let i = find_char(p, '=');
    if i < 0 {
        (p, Seq::<char>::empty())
    } else {
        (p.take(i), unescaped(p.skip(i + 1)))
    }
}

/// The pairs a list of tag segments denotes, in order.
pub open spec fn tag_pairs_of_segs(segs: Seq<Seq<char>>) -> Seq<(Seq<char>, Seq<char>)>
    decreases segs.len(),
{
    if segs.len() == 0 {
        Seq::empty()
    } else {
        tag_pairs_of_segs(segs.drop_last()).push(tag_pair_of(segs.last()))
    }
}

/// The pairs a tags section denotes: `;`-separated `key[=value]` segments.
pub open spec fn tag_pairs_of(ts: Seq<char>) -> Seq<(Seq<char>, Seq<char>)> {
    if ts.len() == 0 {
        Seq::empty()
    } else {
        tag_pairs_of_segs(split_on(ts, ';'))
    }
}

/// The line opens with a tags section.
pub open spec fn has_tags_mark(s: Seq<char>) -> bool {
    s.len() > 0 && s[0] == '@'
}

/// The tags section: what stands between `@` and the first space.
pub open spec fn tags_str_of(s: Seq<char>) -> Seq<char> {
    if !has_tags_mark(s) {
        Seq::empty()
    } else {
        let i = find_char(s, ' ');
        if i < 0 {
            s.skip(1)
        } else {
            s.subrange(1, i)
        }
    }
}

/// The line after the tags section, if any.
pub open spec fn after_tags(s: Seq<char>) -> Seq<char> {
    if !has_tags_mark(s) {
        s
    } else {
        let i = find_char(s, ' ');
        if i < 0 {
            Seq::empty()
        } else {
            s.skip(i + 1)
        }
    }
}

/// What remains of the line opens with a prefix.
pub open spec fn has_prefix_mark(s: Seq<char>) -> bool {
    s.len() > 0 && s[0] == ':'
}

/// The prefix text: what stands between `:` and the next space.
pub open spec fn prefix_str_of(s: Seq<char>) -> Seq<char> {
    if !has_prefix_mark(s) {
        Seq::empty()
    } else {
        let i = find_char(s, ' ');
        if i < 0 {
            s.skip(1)
        } else {
            s.subrange(1, i)
        }
    }
}

/// The line after the prefix, if any.
pub open spec fn after_prefix(s: Seq<char>) -> Seq<char> {
    if !has_prefix_mark(s) {
        s
    } else {
        let i = find_char(s, ' ');
        if i < 0 {
            Seq::empty()
        } else {
            s.skip(i + 1)
        }
    }
}

/// The prefix a prefix text denotes: `nick!user@host` in full form, and
/// a bare host otherwise.
pub open spec fn prefix_of(ps: Seq<char>) -> PrefixView {
    let i = find_char(ps, '!');
    if i >= 0 && find_char(ps.skip(i + 1), '@') >= 0 {
        let rest = ps.skip(i + 1);
        let j = find_char(rest, '@');
        PrefixView::Full { nick: ps.take(i), user: rest.take(j), host: rest.skip(j + 1) }
    } else {
        PrefixView::HostOnly { host: ps }
    }
}

/// The command name: up to the next space.
pub open spec fn command_of(s: Seq<char>) -> Seq<char> {
    let i = find_char(s, ' ');
    if i < 0 {
        s
    } else {
        s.take(i)
    }
}

/// What follows the command, the separating space included.
pub open spec fn after_command(s: Seq<char>) -> Seq<char> {
    let i = find_char(s, ' ');
    if i < 0 {
        Seq::empty()
    } else {
        s.skip(i)
    }
}

/// The parameters that the text after the command denotes: each space
/// starts one more, and a `:` right after a space makes the whole rest
/// one trailing parameter.
pub open spec fn params_of(s: Seq<char>) -> Seq<Seq<char>>
    decreases s.len(),
    via params_of_dec
{
    if s.len() == 0 {
        Seq::empty()
    } else {
        let t = s.skip(1);
        if t.len() > 0 && t[0] == ':' {
            seq![t.skip(1)]
        } else {
            let i = find_char(t, ' ');
            if i < 0 {
                seq![t]
            } else {
                seq![t.take(i)] + params_of(t.skip(i))
            }
        }
    }
}

#[via_fn]
proof fn params_of_dec(s: Seq<char>) {
    if s.len() > 0 {
        let t = s.skip(1);
        if !(t.len() > 0 && t[0] == ':') {
            lemma_find_char(t, ' ');
        }
    }
}

/// The line holds a command.
pub open spec fn line_ok(s: Seq<char>) -> bool {
    command_of(after_prefix(after_tags(s))).len() > 0
}

/// Undoes the wire escapes in `s[from..to]`.
fn unescape_value(s: &str, from: usize, to: usize) -> (r: String)
    requires
        from <= to <= s@.len(),
    ensures
        r@ == unescaped(s@.subrange(from as int, to as int)),
{
    let ghost v = s@.subrange(from as int, to as int);
    let mut out = String::new();
    let mut i = from;
    proof {
        assert(v.skip(0) =~= v);
    }
    while i < to
        invariant
            from <= i <= to,
            unescaped(v) =~= out@ + unescaped(v.skip(i - from)),
        decreases to - i,
    {
        let c = s.get_char(i);
        proof {
            assert(v.skip(i - from)[0] == s@[i as int]);
        }
        if c == '\\' {
            if i + 1 < to {
                let e = s.get_char(i + 1);
                proof {
                    assert(v.skip(i - from)[1] == s@[i + 1]);
                    assert(v.skip(i - from).skip(2) =~= v.skip(i + 2 - from));
                }
                if e == ':' {
                    out.append(";");
                    proof {
                        reveal_strlit(";");
                        assert(";"@ =~= seq![';']);
                    }
                } else if e == 's' {
                    out.append(" ");
                    proof {
                        reveal_strlit(" ");
                        assert(" "@ =~= seq![' ']);
                    }
                } else if e == 'r' {
                    out.append("\r");
                    proof {
                        reveal_strlit("\r");
                        assert("\r"@ =~= seq!['\r']);
                    }
                } else if e == 'n' {
                    out.append("\n");
                    proof {
                        reveal_strlit("\n");
                        assert("\n"@ =~= seq!['\n']);
                    }
                } else {
                    out.append(s.substring_char(i + 1, i + 2));
                    proof {
                        assert(s@.subrange(i + 1, i + 2) =~= seq![s@[i + 1]]);
                    }
                }
                i = i + 2;
            } else {
                // a dangling backslash at the end is dropped
                proof {
                    assert(v.skip(i - from).len() == 1);
                    assert(unescaped(v.skip(i - from)) =~= Seq::<char>::empty());
                }
                i = i + 1;
            }
        } else {
            out.append(s.substring_char(i, i + 1));
            proof {
                assert(s@.subrange(i as int, i + 1) =~= seq![s@[i as int]]);
                assert(v.skip(i - from).skip(1) =~= v.skip(i + 1 - from));
            }
            i = i + 1;
        }
    }
    proof {
        assert(v.skip(to - from) =~= Seq::<char>::empty());
        assert(out@ =~= unescaped(v));
    }
    out
}

/// Reads the `;`-separated `key[=value]` pairs of the tags section
/// `s[from..to]`, in order.
fn parse_tag_pairs(s: &str, from: usize, to: usize) -> (r: Vec<(String, String)>)
    requires
        from <= to <= s@.len(),
    ensures
        r.deep_view() == tag_pairs_of(s@.subrange(from as int, to as int)),
{
    let ghost ts = s@.subrange(from as int, to as int);
    let mut out: Vec<(String, String)> = Vec::new();
    if from == to {
        proof {
            assert(out.deep_view() =~= tag_pairs_of(ts));
        }
        return out;
    }
    let ghost segs = split_on(ts, ';');
    let ghost mut done: int = 0;
    let mut pos = from;
    let mut more = true;
    proof {
        assert(ts.skip(0) =~= ts);
        assert(segs.take(0) + split_on(ts, ';') =~~= segs);
        assert(segs.take(0) =~= Seq::<Seq<char>>::empty());
        assert(out.deep_view() =~~= tag_pairs_of_segs(segs.take(0)));
    }
    while more
        invariant
            from <= pos <= to,
            to <= s@.len(),
            ts == s@.subrange(from as int, to as int),
            ts.len() > 0,
            segs == split_on(ts, ';'),
            0 <= done <= segs.len(),
            more ==> segs =~~= segs.take(done) + split_on(ts.skip(pos - from), ';'),
            !more ==> done == segs.len(),
            out.deep_view() =~~= tag_pairs_of_segs(segs.take(done)),
        decreases if more {
            to + 1 - pos
        } else {
            0
        },
    {
        let segend = match find_char_from(s, ';', pos) {
            Some(i) if i < to => i,
            _ => to,
        };
        let ghost seg = s@.subrange(pos as int, segend as int);
        proof {
            let rest = ts.skip(pos - from);
            assert(forall|k: int| 0 <= k < rest.len() ==> rest[k] == s@[pos + k]);
            lemma_find_char(s@.skip(pos as int), ';');
            assert(forall|k: int| 0 <= k < rest.len() ==> rest[k] == s@.skip(pos as int)[k]);
            if segend < to {
                assert(rest[segend - pos] == ';');
                lemma_find_char_is(rest, ';', segend - pos);
            } else {
                lemma_find_char_none(rest, ';');
            }
            lemma_split_on_step(rest, ';');
            if segend < to {
                assert(rest.take(segend - pos) =~= seg);
                assert(rest.skip(segend - pos + 1) =~= ts.skip(segend + 1 - from));
            } else {
                assert(rest =~= seg);
            }
            lemma_split_on_len(rest, ';');
            assert(segs[done] == seg);
        }
        // split the segment at its first `=`, if any
        let eq = match find_char_from(s, '=', pos) {
            Some(j) if j < segend => Some(j),
            _ => None,
        };
        proof {
            lemma_find_char(s@.skip(pos as int), '=');
            assert(forall|k: int| 0 <= k < seg.len() ==> seg[k] == s@.skip(pos as int)[k]);
        }
        let pair = match eq {
            Some(j) => {
                proof {
                    assert(seg[j - pos] == '=');
                    lemma_find_char_is(seg, '=', j - pos);
                    assert(seg.take(j - pos) =~= s@.subrange(pos as int, j as int));
                    assert(seg.skip(j - pos + 1) =~= s@.subrange(j + 1, segend as int));
                }
                (s.substring_char(pos, j).to_owned(), unescape_value(s, j + 1, segend))
            },
            None => {
                proof {
                    lemma_find_char_none(seg, '=');
                }
                (s.substring_char(pos, segend).to_owned(), String::new())
            },
        };
        let ghost prev = out.deep_view();
        out.push(pair);
        proof {
            done = done + 1;
            assert(out.deep_view() =~~= prev.push(tag_pair_of(seg)));
            assert(segs.take(done).drop_last() =~= segs.take(done - 1));
            assert(segs.take(done).last() == segs[done - 1]);
            assert(out.deep_view() =~~= tag_pairs_of_segs(segs.take(done)));
        }
        if segend == to {
            proof {
                assert(segs.take(done) =~= segs);
            }
            more = false;
        } else {
            pos = segend + 1;
        }
    }
    proof {
        assert(segs.take(segs.len() as int) =~= segs);
        assert(out.deep_view() =~~= tag_pairs_of(ts));
    }
    out
}

/// Reads the prefix text `s[from..to]`: `nick!user@host` gives the full
/// form, anything else a bare host.
fn parse_prefix(s: &str, from: usize, to: usize) -> (r: IrcPrefix)
    requires
        from <= to <= s@.len(),
    ensures
        r@ == prefix_of(s@.subrange(from as int, to as int)),
{
    let ghost ps = s@.subrange(from as int, to as int);
    let bang = match find_char_from(s, '!', from) {
        Some(i) if i < to => Some(i),
        _ => None,
    };
    proof {
        lemma_find_char(s@.skip(from as int), '!');
        assert(forall|k: int| 0 <= k < ps.len() ==> ps[k] == s@.skip(from as int)[k]);
        match bang {
            Some(i) => {
                assert(ps[i - from] == '!');
                lemma_find_char_is(ps, '!', i - from);
            },
            None => {
                lemma_find_char_none(ps, '!');
            },
        }
    }
    let i = match bang {
        Some(i) => i,
        None => {
            return IrcPrefix::HostOnly { host: s.substring_char(from, to).to_owned() };
        },
    };
    let ghost rest = ps.skip(i + 1 - from);
    proof {
        assert(rest =~= s@.subrange(i + 1, to as int));
    }
    let at = match find_char_from(s, '@', i + 1) {
        Some(j) if j < to => Some(j),
        _ => None,
    };
    proof {
        lemma_find_char(s@.skip(i + 1), '@');
        assert(forall|k: int| 0 <= k < rest.len() ==> rest[k] == s@.skip(i + 1)[k]);
        match at {
            Some(j) => {
                assert(rest[j - (i + 1)] == '@');
                lemma_find_char_is(rest, '@', j - (i + 1));
            },
            None => {
                lemma_find_char_none(rest, '@');
            },
        }
    }
    match at {
        Some(j) => {
            proof {
                assert(rest.take(j - (i + 1)) =~= s@.subrange(i + 1, j as int));
                assert(rest.skip(j - (i + 1) + 1) =~= s@.subrange(j + 1, to as int));
                assert(ps.take(i - from) =~= s@.subrange(from as int, i as int));
            }
            IrcPrefix::Full {
                nick: s.substring_char(from, i).to_owned(),
                user: s.substring_char(i + 1, j).to_owned(),
                host: s.substring_char(j + 1, to).to_owned(),
            }
        },
        None => IrcPrefix::HostOnly { host: s.substring_char(from, to).to_owned() },
    }
}

impl IrcMessage {
    /// Tokenizes one line of the protocol: the optional tags section, the
    /// optional prefix, the command name and the parameters. The one
    /// structural failure is a line without a command.
    #[verifier::rlimit(100)]
    pub fn parse(line: &str) -> (r: Result<IrcMessage, LineParseError>)
        ensures
            (r is Ok) <==> line_ok(line@),
            r matches Ok(m) ==> {
                &&& m@.tags == tags_map(tag_pairs_of(tags_str_of(line@)))
                &&& match m@.prefix {
                    Some(p) => has_prefix_mark(after_tags(line@)) && p == prefix_of(
                        prefix_str_of(after_tags(line@)),
                    ),
                    None => !has_prefix_mark(after_tags(line@)),
                }
                &&& m@.command == command_of(after_prefix(after_tags(line@)))
                &&& m@.params == params_of(after_command(after_prefix(after_tags(line@))))
            },
            r matches Err(e) ==> e == LineParseError::MissingCommand,
    {
        let n = line.unicode_len();
        // the tags section
        let mut pos: usize = 0;
        let mut tag_pairs: Vec<(String, String)> = Vec::new();
        if n > 0 && line.get_char(0) == '@' {
            proof {
                assert(line@.skip(0) =~= line@);
            }
            match find_char_from(line, ' ', 0) {
                Some(i) => {
                    proof {
                        assert(find_char(line@, ' ') == i);
                    }
                    tag_pairs = parse_tag_pairs(line, 1, i);
                    proof {
                        assert(line@.subrange(1, i as int) =~= tags_str_of(line@));
                        assert(line@.skip(i + 1) =~= after_tags(line@));
                    }
                    pos = i + 1;
                },
                None => {
                    proof {
                        assert(find_char(line@, ' ') < 0);
                        assert(after_tags(line@) =~= Seq::<char>::empty());
                    }
                    return Err(LineParseError::MissingCommand);
                },
            }
        } else {
            proof {
                assert(after_tags(line@) =~= line@);
                assert(tags_str_of(line@) =~= Seq::<char>::empty());
            }
        }
        let ghost s2 = after_tags(line@);
        proof {
            assert(s2 =~= line@.skip(pos as int));
        }
        // the prefix
        let mut prefix: Option<IrcPrefix> = None;
        if pos < n && line.get_char(pos) == ':' {
            proof {
                assert(s2[0] == ':');
            }
            match find_char_from(line, ' ', pos) {
                Some(i) => {
                    proof {
                        lemma_find_char(line@.skip(pos as int), ' ');
                        assert(forall|k: int| 0 <= k < s2.len() ==> s2[k] == line@.skip(
                            pos as int,
                        )[k]);
                        assert(s2[i - pos] == ' ');
                        lemma_find_char_is(s2, ' ', i - pos);
                        assert(s2.subrange(1, i - pos) =~= line@.subrange(pos + 1, i as int));
                        assert(s2.skip(i - pos + 1) =~= line@.skip(i + 1));
                    }
                    prefix = Some(parse_prefix(line, pos + 1, i));
                    pos = i + 1;
                },
                None => {
                    proof {
                        lemma_find_char(line@.skip(pos as int), ' ');
                        assert(forall|k: int| 0 <= k < s2.len() ==> s2[k] == line@.skip(
                            pos as int,
                        )[k]);
                        lemma_find_char_none(s2, ' ');
                        assert(after_prefix(s2) =~= Seq::<char>::empty());
                    }
                    return Err(LineParseError::MissingCommand);
                },
            }
        } else {
            proof {
                assert(after_prefix(s2) =~= s2);
            }
        }
        let ghost s3 = after_prefix(s2);
        proof {
            assert(s3 =~= line@.skip(pos as int));
        }
        // the command
        let cmd_end = match find_char_from(line, ' ', pos) {
            Some(i) => i,
            None => n,
        };
        proof {
            lemma_find_char(line@.skip(pos as int), ' ');
            assert(forall|k: int| 0 <= k < s3.len() ==> s3[k] == line@.skip(pos as int)[k]);
            if cmd_end < n {
                assert(s3[cmd_end - pos] == ' ');
                lemma_find_char_is(s3, ' ', cmd_end - pos);
                assert(s3.take(cmd_end - pos) =~= line@.subrange(pos as int, cmd_end as int));
                assert(s3.skip(cmd_end - pos) =~= line@.skip(cmd_end as int));
            } else {
                lemma_find_char_none(s3, ' ');
                assert(s3 =~= line@.subrange(pos as int, cmd_end as int));
                assert(after_command(s3) =~= Seq::<char>::empty());
            }
        }
        if cmd_end == pos {
            return Err(LineParseError::MissingCommand);
        }
        let command = line.substring_char(pos, cmd_end).to_owned();
        // the parameters
        let mut params: Vec<String> = Vec::new();
        let ghost s4 = after_command(s3);
        let mut pos = cmd_end;
        let mut more = pos < n;
        proof {
            if cmd_end < n {
                assert(s4 =~= line@.skip(cmd_end as int));
            }
            assert(params.deep_view() + params_of(s4) =~~= params_of(s4));
        }
        while more
            invariant
                cmd_end <= pos <= n,
                n == line@.len(),
                s4 == after_command(s3),
                more ==> pos < n && line@[pos as int] == ' ' && params_of(s4) =~~=
                    params.deep_view() + params_of(line@.skip(pos as int)),
                !more ==> params.deep_view() =~~= params_of(s4),
            decreases if more {
                n + 1 - pos
            } else {
                0
            },
        {
            let ghost cur = line@.skip(pos as int);
            let ghost t = cur.skip(1);
            proof {
                assert(t =~= line@.skip(pos + 1));
            }
            if pos + 1 < n && line.get_char(pos + 1) == ':' {
                params.push(line.substring_char(pos + 2, n).to_owned());
                proof {
                    assert(t[0] == ':');
                    assert(t.skip(1) =~= line@.subrange(pos + 2, n as int));
                    assert(params_of(cur) =~~= seq![t.skip(1)]);
                }
                more = false;
            } else {
                proof {
                    if pos + 1 < n {
                        assert(t[0] == line@[pos + 1]);
                    } else {
                        assert(t.len() == 0);
                    }
                }
                let next = match find_char_from(line, ' ', pos + 1) {
                    Some(i) => i,
                    None => n,
                };
                proof {
                    lemma_find_char(line@.skip(pos + 1), ' ');
                    assert(forall|k: int| 0 <= k < t.len() ==> t[k] == line@.skip(pos + 1)[k]);
                    if next < n {
                        assert(t[next - (pos + 1)] == ' ');
                        lemma_find_char_is(t, ' ', next - (pos + 1));
                        assert(t.take(next - (pos + 1)) =~= line@.subrange(pos + 1, next as int));
                        assert(t.skip(next - (pos + 1)) =~= line@.skip(next as int));
                    } else {
                        lemma_find_char_none(t, ' ');
                        assert(t =~= line@.subrange(pos + 1, n as int));
                    }
                }
                params.push(line.substring_char(pos + 1, next).to_owned());
                if next == n {
                    proof {
                        assert(params_of(cur) =~~= seq![t]);
                    }
                    more = false;
                } else {
                    proof {
                        assert(params_of(cur) =~~= seq![t.take(next - (pos + 1))] + params_of(
                            line@.skip(next as int),
                        ));
                    }
                    pos = next;
                }
            }
        }
        let msg = IrcMessage { tags: IrcTags(tag_pairs), prefix, command, params };
        proof {
            assert(msg@.tags == tags_map(tag_pairs_of(tags_str_of(line@))));
            assert(msg@.params =~~= params_of(s4));
        }
        Ok(msg)
    }
}

} // verus!
