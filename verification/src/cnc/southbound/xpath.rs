//! Reading the paths of data nodes: node names, and the keys that a list entry carries in
//! its predicates, as in `interface[name='eth0']`.

use crate::cnc::search::{first_index, lemma_first_index, lemma_first_index_is};
use vstd::prelude::*;
use vstd::string::*;

verus! {

/// Whether a character is `c`.
pub open spec fn is_char(c: char) -> spec_fn(char) -> bool {
    |x: char| x == c
}

/// Whether a character is not `c`.
pub open spec fn is_not_char(c: char) -> spec_fn(char) -> bool {
    |x: char| x != c
}

/// Where `c` stands first in `s`, or the length of `s` if it does not stand in it.
pub open spec fn position_of(s: Seq<char>, c: char) -> int {
    first_index(s, is_char(c))
}

/// Whether `c` stands in `s`.
pub open spec fn holds_char(s: Seq<char>, c: char) -> bool {
    0 <= position_of(s, c) < s.len()
}

/// The text before the first `c` of `s`: all of `s` if `c` does not stand in it.
pub open spec fn before_char(s: Seq<char>, c: char) -> Seq<char> {
    s.take(position_of(s, c))
}

/// The text after the first `c` of `s`: nothing if `c` does not stand in it.
pub open spec fn after_char(s: Seq<char>, c: char) -> Seq<char> {
    if holds_char(s, c) {
        s.skip(position_of(s, c) + 1)
    } else {
        Seq::empty()
    }
}

/// The text `s` without any `c`.
pub open spec fn without_char(s: Seq<char>, c: char) -> Seq<char> {
    s.filter(is_not_char(c))
}

/// Where `c` stands last in `s`, or -1 if it does not stand in it.
pub open spec fn last_position_of(s: Seq<char>, c: char) -> int
    decreases s.len(),
{
    if s.len() == 0 {
        -1
    } else if s.last() == c {
        s.len() - 1
    } else {
        last_position_of(s.drop_last(), c)
    }
}

/// The name of the last node of a path, with its predicates: the text after the last slash.
pub open spec fn last_node_name(xpath: Seq<char>) -> Seq<char> {
    xpath.skip(last_position_of(xpath, '/') + 1)
}

/// Finds where `c` stands first in `s`.
pub fn find_char(s: &str, c: char) -> (r: usize)
    ensures
        r == position_of(s@, c),
        r <= s@.len(),
{
    let n = s.unicode_len();
    let mut i: usize = 0;
    while i < n
        invariant
            i <= n,
            n == s@.len(),
            forall|j: int| 0 <= j < i ==> s@[j] != c,
        decreases n - i,
    {
        if s.get_char(i) == c {
            proof {
                lemma_first_index_is(s@, is_char(c), i as int);
            }
            return i;
        }
        i += 1;
    }
    proof {
        lemma_first_index_is(s@, is_char(c), i as int);
    }
    i
}

/// The text before the first `c` of `s`.
pub fn text_before<'a>(s: &'a str, c: char) -> (r: &'a str)
    ensures
        r@ == before_char(s@, c),
{
    let at = find_char(s, c);
    let r = s.substring_char(0, at);
    proof {
        assert(s@.subrange(0, at as int) =~= s@.take(at as int));
    }
    r
}

/// The text after the first `c` of `s`.
pub fn text_after<'a>(s: &'a str, c: char) -> (r: &'a str)
    ensures
        r@ == after_char(s@, c),
{
    let n = s.unicode_len();
    let at = find_char(s, c);
    if at < n {
        let r = s.substring_char(at + 1, n);
        proof {
            assert(s@.subrange(at + 1, n as int) =~= s@.skip(at + 1));
        }
        r
    } else {
        let r = s.substring_char(n, n);
        proof {
            assert(s@.subrange(n as int, n as int) =~= Seq::<char>::empty());
        }
        r
    }
}

/// The text `s` without any `c`.
pub fn text_without(s: &str, c: char) -> (r: String)
    ensures
        r@ == without_char(s@, c),
{
    let n = s.unicode_len();
    let ghost keep = is_not_char(c);
    let mut r = String::new();
    let mut i: usize = 0;
    proof {
        reveal(Seq::filter);
        assert(s@.take(0).filter(keep) =~= Seq::<char>::empty());
    }
    while i < n
        invariant
            i <= n,
            n == s@.len(),
            keep == is_not_char(c),
            r@ == s@.take(i as int).filter(keep),
        decreases n - i,
    {
        let ghost before = r@;
        if s.get_char(i) != c {
            r.append(s.substring_char(i, i + 1));
            proof {
                assert(s@.subrange(i as int, i + 1) =~= seq![s@[i as int]]);
                assert(r@ =~= before.push(s@[i as int]));
            }
        }
        proof {
            assert(s@.take(i + 1) =~= s@.take(i as int).push(s@[i as int]));
            s@.take(i as int).lemma_filter_push(s@[i as int], keep);
        }
        i += 1;
    }
    proof {
        assert(s@.take(i as int) =~= s@);
    }
    r
}

/// The name of the last node of `xpath`, with its predicates.
///
/// `/ieee802-dot1ab-lldp:lldp/port/remote-systems-data` gives `remote-systems-data`.
pub fn extract_last_node_name_from_xpath(xpath: &String) -> (r: &str)
    ensures
        r@ == last_node_name(xpath@),
{
    let s = xpath.as_str();
    let n = s.unicode_len();
    let mut i: usize = n;
    proof {
        assert(s@.take(n as int) =~= s@);
    }
    while i > 0
        invariant
            i <= n,
            n == s@.len(),
            s@ == xpath@,
            last_position_of(s@, '/') == last_position_of(s@.take(i as int), '/'),
        decreases i,
    {
        i -= 1;
        proof {
            assert(s@.take(i + 1).drop_last() =~= s@.take(i as int));
            assert(s@.take(i + 1).last() == s@[i as int]);
        }
        if s.get_char(i) == '/' {
            let r = s.substring_char(i + 1, n);
            proof {
                assert(last_position_of(s@.take(i + 1), '/') == i);
                assert(s@.subrange(i + 1, n as int) =~= s@.skip(i + 1));
            }
            return r;
        }
    }
    let r = s.substring_char(0, n);
    proof {
        assert(s@.subrange(0, n as int) =~= s@.skip(0));
    }
    r
}

/// The key and the value of one predicate, of which `piece` holds everything up to the closing
/// bracket: the text between the opening bracket and the first equals sign, and the text
/// after that sign, both without quotes. Nothing where `piece` has no opening bracket or no
/// equals sign after it.
pub open spec fn predicate_of(piece: Seq<char>) -> Option<(Seq<char>, Seq<char>)> {
    let body = without_char(after_char(piece, '['), '\'');
    if holds_char(piece, '[') && holds_char(body, '=') {
        Some((before_char(body, '='), after_char(body, '=')))
    } else {
        None
    }
}

/// The keys and values of the predicates of a node name, in their order:
/// `management-address[address-type='ipv4'][address='10.0.0.1']` gives
/// `address-type` with `ipv4`, then `address` with `10.0.0.1`.
pub open spec fn predicates(s: Seq<char>) -> Seq<(Seq<char>, Seq<char>)>
    decreases s.len(),
{
    if holds_char(s, ']') {
        let first = match predicate_of(before_char(s, ']')) {
            Some(p) => seq![p],
            None => Seq::empty(),
        };
        first + predicates(after_char(s, ']'))
    } else {
        Seq::empty()
    }
}

/// Reads the key and the value of one predicate.
pub fn parse_predicate(piece: &str) -> (r: Option<(String, String)>)
    ensures
        r.deep_view() == predicate_of(piece@),
{
    let n = piece.unicode_len();
    if find_char(piece, '[') >= n {
        return None;
    }
    let body = text_without(text_after(piece, '['), '\'');
    let m = body.as_str().unicode_len();
    if find_char(body.as_str(), '=') >= m {
        return None;
    }
    let key = String::from_str(text_before(body.as_str(), '='));
    let value = String::from_str(text_after(body.as_str(), '='));
    Some((key, value))
}

/// Reads the keys and values of the predicates of a node name.
pub fn parse_predicates(name: &str) -> (r: Vec<(String, String)>)
    ensures
        r.deep_view() == predicates(name@),
{
    let mut out: Vec<(String, String)> = Vec::new();
    let mut rest: &str = name;
    proof {
        assert(out.deep_view() =~= Seq::<(Seq<char>, Seq<char>)>::empty());
        assert(out.deep_view() + predicates(rest@) =~= predicates(name@));
    }
    loop
        invariant
            predicates(name@) == out.deep_view() + predicates(rest@),
        ensures
            out.deep_view() == predicates(name@),
        decreases rest@.len(),
    {
        let n = rest.unicode_len();
        let at = find_char(rest, ']');
        if at >= n {
            proof {
                assert(out.deep_view() + Seq::<(Seq<char>, Seq<char>)>::empty()
                    =~= out.deep_view());
            }
            break ;
        }
        let ghost before = out.deep_view();
        let ghost whole = rest@;
        match parse_predicate(text_before(rest, ']')) {
            Some(p) => {
                out.push(p);
                proof {
                    assert(out.deep_view()
                        =~= before.push(predicate_of(before_char(whole, ']'))->0));
                }
            },
            None => {},
        }
        rest = text_after(rest, ']');
        proof {
            lemma_first_index(whole, is_char(']'));
            assert(out.deep_view() + predicates(rest@) =~= before + predicates(whole));
        }
    }
    out
}

/// The positions at which a text can start in a text of the length `len`: 0 up to `len`.
pub open spec fn positions(len: nat) -> Seq<int> {
    Seq::new(len + 1, |p: int| p)
}

/// Whether the text `marker` stands in `s` at the position `p`.
pub open spec fn stands_at(s: Seq<char>, marker: Seq<char>, p: int) -> bool {
    0 <= p && p + marker.len() <= s.len() && s.subrange(p, p + marker.len()) == marker
}

/// `stands_at` as a predicate on positions.
pub open spec fn marker_at(s: Seq<char>, marker: Seq<char>) -> spec_fn(int) -> bool {
    |p: int| stands_at(s, marker, p)
}

/// Where `marker` stands first in `s`, if it stands in it.
pub open spec fn first_match(s: Seq<char>, marker: Seq<char>) -> Option<int> {
    let p = first_index(positions(s.len()), marker_at(s, marker));
    if 0 <= p <= s.len() {
        Some(p)
    } else {
        None
    }
}

/// The text before the first `marker` of `s`: all of `s` if `marker` does not stand in it.
pub open spec fn before_marker(s: Seq<char>, marker: Seq<char>) -> Seq<char> {
    match first_match(s, marker) {
        Some(p) => s.take(p),
        None => s,
    }
}

/// The text after the last `marker` of `s`, where the markers are looked for from the left and
/// do not overlap: all of `s` if `marker` does not stand in it.
pub open spec fn after_last_marker(s: Seq<char>, marker: Seq<char>) -> Seq<char>
    decreases s.len(),
{
    match first_match(s, marker) {
        Some(p) => if marker.len() > 0 && 0 <= p && p + marker.len() <= s.len() {
            after_last_marker(s.skip(p + marker.len()), marker)
        } else {
            s
        },
        None => s,
    }
}

/// The name of the interface that a path leads through: the text after the last
/// `interface[name='` up to the next `']`.
pub open spec fn interface_name(xpath: Seq<char>) -> Seq<char> {
    before_marker(after_last_marker(xpath, "interface[name='"@), "']"@)
}

/// Says whether `marker` stands in `s` at the position `p`.
fn is_marker_at(s: &str, marker: &str, p: usize) -> (r: bool)
    requires
        p <= s@.len(),
    ensures
        r == stands_at(s@, marker@, p as int),
{
    let n = s.unicode_len();
    let m = marker.unicode_len();
    if m > n - p {
        return false;
    }
    let mut j: usize = 0;
    while j < m
        invariant
            j <= m,
            m == marker@.len(),
            n == s@.len(),
            p + m <= n,
            forall|k: int| 0 <= k < j ==> s@[p + k] == marker@[k],
        decreases m - j,
    {
        if s.get_char(p + j) != marker.get_char(j) {
            proof {
                assert(s@.subrange(p as int, p + m)[j as int] == s@[p + j]);
            }
            return false;
        }
        j += 1;
    }
    proof {
        assert(s@.subrange(p as int, p + m) =~= marker@);
    }
    true
}

/// Finds where `marker` stands first in `s`.
pub fn find_marker(s: &str, marker: &str) -> (r: Option<usize>)
    ensures
        match r {
            Some(p) => first_match(s@, marker@) == Some(p as int) && stands_at(
                s@,
                marker@,
                p as int,
            ),
            None => first_match(s@, marker@) is None,
        },
{
    let n = s.unicode_len();
    let ghost all = positions(s@.len());
    let ghost at = marker_at(s@, marker@);
    let mut p: usize = 0;
    while p <= n
        invariant
            p <= n + 1,
            n == s@.len(),
            all == positions(s@.len()),
            at == marker_at(s@, marker@),
            forall|q: int| 0 <= q < p ==> !at(#[trigger] all[q]),
        decreases n + 1 - p,
    {
        if is_marker_at(s, marker, p) {
            proof {
                assert(all[p as int] == p);
                lemma_first_index_is(all, at, p as int);
            }
            return Some(p);
        }
        proof {
            assert(all[p as int] == p);
        }
        if p == n {
            proof {
                lemma_first_index_is(all, at, n + 1);
            }
            return None;
        }
        p += 1;
    }
    proof {
        lemma_first_index_is(all, at, n + 1);
    }
    None
}

/// The name of the interface that `xpath` leads through.
///
/// `/ietf-interfaces:interfaces/interface[name='eth0']/ieee802-dot1q-sched:gate-parameters`
/// gives `eth0`.
pub fn extract_interface_name_from_xpath(xpath: &str) -> (r: String)
    ensures
        r@ == interface_name(xpath@),
{
    let opening = "interface[name='";
    let closing = "']";
    let width = opening.unicode_len();
    let mut rest: &str = xpath;
    loop
        invariant
            width == opening@.len(),
            opening@ == "interface[name='"@,
            after_last_marker(xpath@, opening@) == after_last_marker(rest@, opening@),
        ensures
            after_last_marker(xpath@, opening@) == rest@,
        decreases rest@.len(),
    {
        let n = rest.unicode_len();
        match find_marker(rest, opening) {
            Some(p) => {
                if width == 0 {
                    break ;
                }
                let next = rest.substring_char(p + width, n);
                proof {
                    assert(rest@.subrange(p + width, n as int) =~= rest@.skip(p + width));
                }
                rest = next;
            },
            None => {
                break ;
            },
        }
    }
    let name = match find_marker(rest, closing) {
        Some(p) => {
            let r = rest.substring_char(0, p);
            proof {
                assert(rest@.subrange(0, p as int) =~= rest@.take(p as int));
            }
            r
        },
        None => rest,
    };
    String::from_str(name)
}

} // verus!
