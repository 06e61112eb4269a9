//! Token-path text handling: splitting a `<network>:<kind>[:<contract>]`
//! path into its segments, joining segments back, deriving the registry
//! key for a path and an operation kind, and extracting the contract
//! identifier of a token-contract path.

use vstd::prelude::*;
use crate::types::TransactionType;
use crate::util::string_push;

verus! {

/// The segments of `s` between occurrences of `sep`. Splitting never
/// yields an empty list: text without the separator is one segment.
pub open spec fn spec_split(s: Seq<char>, sep: char) -> Seq<Seq<char>>
    decreases s.len(),
{
    if s.len() == 0 {
        seq![Seq::<char>::empty()]
    } else if s[0] == sep {
        seq![Seq::<char>::empty()] + spec_split(s.drop_first(), sep)
    } else {
        let rest = spec_split(s.drop_first(), sep);
        seq![seq![s[0]] + rest[0]] + rest.skip(1)
    }
}

/// Splitting always yields at least one segment.
pub proof fn lemma_split_nonempty(s: Seq<char>, sep: char)
    ensures
        spec_split(s, sep).len() >= 1,
    decreases s.len(),
{
    if s.len() > 0 {
        lemma_split_nonempty(s.drop_first(), sep);
    }
}

/// How one more character extends a split: a separator opens a new,
/// empty segment; any other character extends the last segment.
proof fn lemma_split_push(s: Seq<char>, sep: char, c: char)
    ensures
        c == sep ==> spec_split(s.push(c), sep) == spec_split(s, sep).push(Seq::<char>::empty()),
        c != sep ==> spec_split(s.push(c), sep) == spec_split(s, sep).update(
            spec_split(s, sep).len() - 1,
            spec_split(s, sep).last().push(c),
        ),
    decreases s.len(),
{
    lemma_split_nonempty(s, sep);
    if s.len() == 0 {
        let t = s.push(c);
        assert(t[0] == c);
        assert(t.drop_first() =~= Seq::<char>::empty());
        assert(spec_split(Seq::<char>::empty(), sep) =~~= seq![Seq::<char>::empty()]);
        if c == sep {
            assert(spec_split(t, sep) =~~= spec_split(s, sep).push(Seq::<char>::empty()));
        } else {
            assert(spec_split(t, sep) =~~= spec_split(s, sep).update(
                spec_split(s, sep).len() - 1,
                spec_split(s, sep).last().push(c),
            ));
        }
    } else {
        let t = s.push(c);
        assert(t[0] == s[0]);
        assert(t.drop_first() =~= s.drop_first().push(c));
        lemma_split_push(s.drop_first(), sep, c);
        lemma_split_nonempty(s.drop_first(), sep);
        let rest = spec_split(s.drop_first(), sep);
        let rest2 = spec_split(s.drop_first().push(c), sep);
        if c == sep {
            if s[0] == sep {
                assert(spec_split(t, sep) =~~= spec_split(s, sep).push(Seq::<char>::empty()));
            } else {
                assert(rest2 == rest.push(Seq::<char>::empty()));
                assert(rest2[0] == rest[0]);
                assert(rest2.skip(1) =~~= rest.skip(1).push(Seq::<char>::empty()));
                assert(spec_split(t, sep) =~~= spec_split(s, sep).push(Seq::<char>::empty()));
            }
        } else {
            if s[0] == sep {
                assert(spec_split(t, sep) =~~= spec_split(s, sep).update(
                    spec_split(s, sep).len() - 1,
                    spec_split(s, sep).last().push(c),
                ));
            } else {
                assert(rest2 == rest.update(rest.len() - 1, rest.last().push(c)));
                if rest.len() == 1 {
                    assert(rest2[0] == rest[0].push(c));
                    assert(spec_split(t, sep) =~~= spec_split(s, sep).update(
                        spec_split(s, sep).len() - 1,
                        spec_split(s, sep).last().push(c),
                    ));
                } else {
                    assert(rest2[0] == rest[0]);
                    assert(rest2.skip(1) =~~= rest.skip(1).update(
                        rest.len() - 2,
                        rest.last().push(c),
                    ));
                    assert(spec_split(t, sep) =~~= spec_split(s, sep).update(
                        spec_split(s, sep).len() - 1,
                        spec_split(s, sep).last().push(c),
                    ));
                }
            }
        }
    }
}

/// Splits text into its segments between occurrences of `sep`.
pub fn split_path(s: &str, sep: char) -> (parts: Vec<String>)
    ensures
        parts.deep_view() == spec_split(s@, sep),
        parts@.len() >= 1,
{
    let len = s.unicode_len();
    let mut done: Vec<String> = Vec::new();
    let mut cur: String = String::new();
    let mut i: usize = 0;
    proof {
        assert(s@.take(0) =~= Seq::<char>::empty());
        assert(spec_split(s@.take(0), sep) =~~= done.deep_view().push(cur@));
    }
    while i < len
        invariant
            i <= len,
            len == s@.len(),
            spec_split(s@.take(i as int), sep) == done.deep_view().push(cur@),
        decreases len - i,
    {
        let c = s.get_char(i);
        proof {
            assert(s@.take(i + 1) =~= s@.take(i as int).push(s@[i as int]));
            lemma_split_push(s@.take(i as int), sep, c);
            lemma_split_nonempty(s@.take(i as int), sep);
        }
        if c == sep {
            done.push(cur);
            cur = String::new();
            proof {
                assert(spec_split(s@.take(i + 1), sep) =~~= done.deep_view().push(cur@));
            }
        } else {
            string_push(&mut cur, c);
            proof {
                assert(spec_split(s@.take(i + 1), sep) =~~= done.deep_view().push(cur@));
            }
        }
        i = i + 1;
    }
    proof {
        assert(s@.take(len as int) =~= s@);
    }
    done.push(cur);
    proof {
        lemma_split_nonempty(s@, sep);
    }
    done
}

/// The segments joined back with `sep` between neighbours.
pub open spec fn spec_join(parts: Seq<Seq<char>>, sep: char) -> Seq<char>
    decreases parts.len(),
{
    if parts.len() == 0 {
        Seq::<char>::empty()
    } else if parts.len() == 1 {
        parts[0]
    } else {
        parts[0] + seq![sep] + spec_join(parts.drop_first(), sep)
    }
}

/// How one more segment extends a join.
proof fn lemma_join_push(parts: Seq<Seq<char>>, sep: char, p: Seq<char>)
    ensures
        parts.len() == 0 ==> spec_join(parts.push(p), sep) == p,
        parts.len() > 0 ==> spec_join(parts.push(p), sep) == spec_join(parts, sep) + seq![sep] + p,
    decreases parts.len(),
{
    if parts.len() == 0 {
        assert(spec_join(parts.push(p), sep) == parts.push(p)[0]);
        assert(parts.push(p)[0] == p);
    } else if parts.len() == 1 {
        let t = parts.push(p);
        assert(t.drop_first() =~~= seq![p]);
        assert(spec_join(t, sep) == t[0] + seq![sep] + spec_join(t.drop_first(), sep));
        assert(spec_join(t.drop_first(), sep) == p);
        assert(t[0] == parts[0]);
    } else {
        let t = parts.push(p);
        assert(t.drop_first() =~~= parts.drop_first().push(p));
        lemma_join_push(parts.drop_first(), sep, p);
        assert(t[0] == parts[0]);
        assert(parts[0] + seq![sep] + (spec_join(parts.drop_first(), sep) + seq![sep] + p) =~= (
        parts[0] + seq![sep] + spec_join(parts.drop_first(), sep)) + seq![sep] + p);
    }
}

/// Joins the first `count` segments with `sep` between neighbours.
pub fn join_parts(parts: &Vec<String>, sep: char, count: usize) -> (r: String)
    requires
        count <= parts@.len(),
    ensures
        r@ == spec_join(parts.deep_view().take(count as int), sep),
{
    let mut r = String::new();
    let mut k: usize = 0;
    proof {
        assert(parts.deep_view().take(0) =~~= Seq::<Seq<char>>::empty());
    }
    while k < count
        invariant
            k <= count,
            count <= parts@.len(),
            parts@.len() == parts.deep_view().len(),
            r@ == spec_join(parts.deep_view().take(k as int), sep),
        decreases count - k,
    {
        proof {
            assert(parts.deep_view().take(k + 1) =~~= parts.deep_view().take(k as int).push(
                parts.deep_view()[k as int],
            ));
            lemma_join_push(parts.deep_view().take(k as int), sep, parts.deep_view()[k as int]);
        }
        if k > 0 {
            string_push(&mut r, sep);
        }
        let part = &parts[k];
        r.append(part.as_str());
        proof {
            assert(parts.deep_view()[k as int] == parts@[k as int]@);
            assert(r@ =~= spec_join(parts.deep_view().take(k + 1), sep));
        }
        k = k + 1;
    }
    r
}

/// The label of an operation kind as it appears in registry keys.
pub open spec fn spec_type_label(t: TransactionType) -> Seq<char> {
    match t {
        TransactionType::Transfer => "transfer"@,
        TransactionType::Swap => "swap"@,
    }
}

/// The registry-key label of an operation kind.
pub fn type_label(t: TransactionType) -> (r: String)
    ensures
        r@ == spec_type_label(t),
{
    match t {
        TransactionType::Transfer => String::from_str("transfer"),
        TransactionType::Swap => String::from_str("swap"),
    }
}

/// The registry key for a token path and an operation kind. For a path
/// of three or more segments whose second segment is `icrc1`, the
/// trailing contract identifier is dropped — all contracts of that
/// standard share one adapter; otherwise the path is used whole. The
/// kind label is appended as the final segment.
pub open spec fn spec_adapter_key(token: Seq<char>, t: TransactionType) -> Seq<char> {
    let parts = spec_split(token, ':');
    if parts.len() > 2 && parts[1] == "icrc1"@ {
        spec_join(parts.take(parts.len() - 1), ':') + seq![':'] + spec_type_label(t)
    } else {
        token + seq![':'] + spec_type_label(t)
    }
}

/// Derives the registry key for a token path and an operation kind.
pub fn derive_adapter_key(token: &str, t: TransactionType) -> (r: String)
    ensures
        r@ == spec_adapter_key(token@, t),
{
    let parts = split_path(token, ':');
    let label = type_label(t);
    let mut is_contract = false;
    if parts.len() > 2 {
        let icrc1 = String::from_str("icrc1");
        if parts[1] == icrc1 {
            is_contract = true;
        }
        proof {
            assert(parts.deep_view()[1] == parts@[1]@);
        }
    }
    if is_contract {
        let mut key = join_parts(&parts, ':', parts.len() - 1);
        string_push(&mut key, ':');
        key.append(label.as_str());
        proof {
            assert(key@ =~= spec_adapter_key(token@, t));
        }
        key
    } else {
        let mut key = String::new();
        key.append(token);
        string_push(&mut key, ':');
        key.append(label.as_str());
        proof {
            assert(key@ =~= spec_adapter_key(token@, t));
        }
        key
    }
}

/// The contract identifier of a token path, defined exactly for paths
/// of three segments: the third segment.
pub open spec fn spec_token_identifier(token: Seq<char>) -> Option<Seq<char>> {
    let parts = spec_split(token, ':');
    if parts.len() == 3 {
        Some(parts[2])
    } else {
        None
    }
}

/// Extracts the contract identifier from a three-segment token path;
/// any other shape is rejected as malformed.
pub fn extract_token_identifier(token: &str) -> (r: Result<String, String>)
    ensures
        match r {
            Ok(id) => spec_token_identifier(token@) == Some(id@),
            Err(e) => spec_token_identifier(token@) is None && e@ == "Invalid token format"@,
        },
{
    let parts = split_path(token, ':');
    if parts.len() == 3 {
        let id = parts[2].clone();
        Ok(id)
    } else {
        Err(String::from_str("Invalid token format"))
    }
}

} // verus!
