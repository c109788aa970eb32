//! The text of a Stream id, and the ids that the controller hands out itself.
//!
//! A Stream id is a MAC address and a 16-bit unique id in upper-case hex: six groups of two
//! digits separated by dashes, a colon, and two more groups separated by a dash. The controller
//! hands out ids with the MAC address zero.

use crate::cnc::storage::tree::stream_id_in_use;
use crate::cnc::types::uni_types::{Cuc, CucModel, Domain, DomainModel, Stream, StreamModel};
use vstd::prelude::*;
use vstd::string::*;

verus! {

/// The number of characters of a Stream id.
pub const STREAM_ID_LENGTH: usize = 23;

/// The number of ids with the MAC address zero.
pub const FREE_ID_COUNT: u32 = 65536;

/// Whether `c` is a digit of upper-case hex.
pub open spec fn is_upper_hex(c: char) -> bool {
    ('0' <= c && c <= '9') || ('A' <= c && c <= 'F')
}

/// The separator that a Stream id has at position `i`, if it has one there.
pub open spec fn separator_at(i: int) -> Option<char> {
    if i == 17 {
        Some(':')
    } else if i == 2 || i == 5 || i == 8 || i == 11 || i == 14 || i == 20 {
        Some('-')
    } else {
        None
    }
}

/// Whether `s` is the text of a Stream id.
pub open spec fn is_stream_id(s: Seq<char>) -> bool {
    &&& s.len() == STREAM_ID_LENGTH
    &&& forall|i: int|
        0 <= i < s.len() ==> match separator_at(i) {
            Some(c) => #[trigger] s[i] == c,
            None => is_upper_hex(s[i]),
        }
}

/// Says whether `s` is the text of a Stream id.
pub fn is_valid_stream_id(s: &str) -> (r: bool)
    ensures
        r == is_stream_id(s@),
{
    if s.unicode_len() != STREAM_ID_LENGTH {
        return false;
    }
    let mut i: usize = 0;
    while i < STREAM_ID_LENGTH
        invariant
            i <= STREAM_ID_LENGTH,
            s@.len() == STREAM_ID_LENGTH,
            forall|j: int|
                0 <= j < i ==> match separator_at(j) {
                    Some(c) => #[trigger] s@[j] == c,
                    None => is_upper_hex(s@[j]),
                },
        decreases STREAM_ID_LENGTH - i,
    {
        let c = s.get_char(i);
        let ok = if i == 17 {
            c == ':'
        } else if i == 2 || i == 5 || i == 8 || i == 11 || i == 14 || i == 20 {
            c == '-'
        } else {
            ('0' <= c && c <= '9') || ('A' <= c && c <= 'F')
        };
        if !ok {
            return false;
        }
        i += 1;
    }
    true
}

/// The upper-case hex digit of a number below 16.
pub open spec fn hex_digit(n: int) -> char {
    if n == 0 {
        '0'
    } else if n == 1 {
        '1'
    } else if n == 2 {
        '2'
    } else if n == 3 {
        '3'
    } else if n == 4 {
        '4'
    } else if n == 5 {
        '5'
    } else if n == 6 {
        '6'
    } else if n == 7 {
        '7'
    } else if n == 8 {
        '8'
    } else if n == 9 {
        '9'
    } else if n == 10 {
        'A'
    } else if n == 11 {
        'B'
    } else if n == 12 {
        'C'
    } else if n == 13 {
        'D'
    } else if n == 14 {
        'E'
    } else {
        'F'
    }
}

/// The two upper-case hex digits of an octet.
pub open spec fn hex_octet(n: u8) -> Seq<char> {
    seq![hex_digit(n as int / 16), hex_digit(n as int % 16)]
}

/// The Stream id with the MAC address zero and the unique id made of the octets `a` and `b`.
pub open spec fn free_id_text(a: u8, b: u8) -> Seq<char> {
    "00-00-00-00-00-00:"@ + hex_octet(a) + seq!['-'] + hex_octet(b)
}

/// Every id that the controller hands out is the text of a Stream id.
pub proof fn lemma_free_id_is_stream_id(a: u8, b: u8)
    ensures
        is_stream_id(free_id_text(a, b)),
{
    reveal_strlit("00-00-00-00-00-00:");
    let s = free_id_text(a, b);
    assert(s.len() == 23);
    assert forall|i: int| 0 <= i < s.len() implies match separator_at(i) {
        Some(c) => #[trigger] s[i] == c,
        None => is_upper_hex(s[i]),
    } by {
        if i < 18 {
            assert(s[i] == "00-00-00-00-00-00:"@[i]);
        }
    }
}

/// One upper-case hex digit as text.
fn hex_digit_text(n: u8) -> (r: &'static str)
    requires
        n < 16,
    ensures
        r@ == seq![hex_digit(n as int)],
{
    proof {
        reveal_strlit("0");
        reveal_strlit("1");
        reveal_strlit("2");
        reveal_strlit("3");
        reveal_strlit("4");
        reveal_strlit("5");
        reveal_strlit("6");
        reveal_strlit("7");
        reveal_strlit("8");
        reveal_strlit("9");
        reveal_strlit("A");
        reveal_strlit("B");
        reveal_strlit("C");
        reveal_strlit("D");
        reveal_strlit("E");
        reveal_strlit("F");
    }
    let r = match n {
        0 => "0",
        1 => "1",
        2 => "2",
        3 => "3",
        4 => "4",
        5 => "5",
        6 => "6",
        7 => "7",
        8 => "8",
        9 => "9",
        10 => "A",
        11 => "B",
        12 => "C",
        13 => "D",
        14 => "E",
        _ => "F",
    };
    assert(r@ =~= seq![hex_digit(n as int)]);
    r
}

/// Writes the Stream id with the MAC address zero and the unique id `a`, `b`.
pub fn format_free_id(a: u8, b: u8) -> (r: String)
    ensures
        r@ == free_id_text(a, b),
{
    let mut r = String::from_str("00-00-00-00-00-00:");
    r.append(hex_digit_text(a / 16));
    r.append(hex_digit_text(a % 16));
    proof {
        reveal_strlit("-");
    }
    r.append("-");
    r.append(hex_digit_text(b / 16));
    r.append(hex_digit_text(b % 16));
    assert(r@ =~= free_id_text(a, b));
    r
}

/// The `n`-th id to try when the search starts at the unique id `a`, `b`: the ids are tried in
/// rising order of their unique id, and after the last comes the first.
pub open spec fn candidate(a: u8, b: u8, n: int) -> Seq<char> {
    unique_text((a as int * 256 + b as int + n) % 65536)
}

/// The outcome of a search for a free id from the unique id `a`, `b`: the first candidate that
/// no Stream of the tree has, or nothing where every id with the MAC address zero is taken.
pub open spec fn is_first_free_id(
    tree: Seq<DomainModel>,
    a: u8,
    b: u8,
    r: Option<Seq<char>>,
) -> bool {
    match r {
        Some(id) => exists|n: int|
            0 <= n < 65536 && id == #[trigger] candidate(a, b, n) && !stream_id_in_use(tree, id)
                && forall|m: int| 0 <= m < n ==> stream_id_in_use(tree, #[trigger] candidate(a, b, m)),
        None => {
            forall|m: int| 0 <= m < 65536 ==> stream_id_in_use(tree, #[trigger] candidate(a, b, m))
        },
    }
}

/// Whether every Stream id with the MAC address zero is the id of a Stream of the tree.
pub open spec fn all_free_ids_in_use(tree: Seq<DomainModel>) -> bool {
    forall|a: u8, b: u8| stream_id_in_use(tree, #[trigger] free_id_text(a, b))
}

/// A search that tried every candidate and found each taken shows that every id with the MAC
/// address zero is taken: the candidates run through all of them, wherever the search starts.
pub proof fn lemma_candidates_cover(tree: Seq<DomainModel>, a: u8, b: u8)
    requires
        forall|m: int| 0 <= m < 65536 ==> stream_id_in_use(tree, #[trigger] candidate(a, b, m)),
    ensures
        all_free_ids_in_use(tree),
{
    assert forall|x: u8, y: u8| stream_id_in_use(tree, #[trigger] free_id_text(x, y)) by {
        let start = a as int * 256 + b as int;
        let unique = x as int * 256 + y as int;
        let m = (unique - start + 65536) % 65536;
        assert((start + m) % 65536 == unique);
        assert(unique / 256 == x as int && unique % 256 == y as int);
        assert(candidate(a, b, m) == free_id_text(x, y));
    }
}

/// The Stream id with the MAC address zero and the unique id `unique`, a number below 65536.
pub open spec fn unique_text(unique: int) -> Seq<char> {
    free_id_text((unique / 256) as u8, (unique % 256) as u8)
}

/// Reads an upper-case hex digit.
fn hex_value(c: char) -> (r: Option<u8>)
    ensures
        match r {
            Some(v) => v < 16 && hex_digit(v as int) == c,
            None => forall|n: int| 0 <= n < 16 ==> hex_digit(n) != c,
        },
{
    if c == '0' {
        Some(0)
    } else if c == '1' {
        Some(1)
    } else if c == '2' {
        Some(2)
    } else if c == '3' {
        Some(3)
    } else if c == '4' {
        Some(4)
    } else if c == '5' {
        Some(5)
    } else if c == '6' {
        Some(6)
    } else if c == '7' {
        Some(7)
    } else if c == '8' {
        Some(8)
    } else if c == '9' {
        Some(9)
    } else if c == 'A' {
        Some(10)
    } else if c == 'B' {
        Some(11)
    } else if c == 'C' {
        Some(12)
    } else if c == 'D' {
        Some(13)
    } else if c == 'E' {
        Some(14)
    } else if c == 'F' {
        Some(15)
    } else {
        None
    }
}

/// The characters of an id with the MAC address zero, one by one.
pub proof fn lemma_unique_text_chars(unique: int)
    requires
        0 <= unique < 65536,
    ensures
        unique_text(unique).len() == 23,
        forall|i: int| 0 <= i < 18 ==> unique_text(unique)[i] == "00-00-00-00-00-00:"@[i],
        unique_text(unique)[18] == hex_digit(unique / 256 / 16),
        unique_text(unique)[19] == hex_digit(unique / 256 % 16),
        unique_text(unique)[20] == '-',
        unique_text(unique)[21] == hex_digit(unique % 256 / 16),
        unique_text(unique)[22] == hex_digit(unique % 256 % 16),
{
    reveal_strlit("00-00-00-00-00-00:");
}

/// Two unique ids with the same text are the same.
pub proof fn lemma_unique_text_injective(u: int, w: int)
    requires
        0 <= u < 65536,
        0 <= w < 65536,
        unique_text(u) == unique_text(w),
    ensures
        u == w,
{
    lemma_unique_text_chars(u);
    lemma_unique_text_chars(w);
    assert(u / 256 / 16 == w / 256 / 16);
    assert(u / 256 % 16 == w / 256 % 16);
    assert(u % 256 / 16 == w % 256 / 16);
    assert(u % 256 % 16 == w % 256 % 16);
}

/// Reads the unique id of a Stream id with the MAC address zero. Nothing comes back for any
/// other text.
pub fn unique_id_of(id: &str) -> (r: Option<u32>)
    ensures
        match r {
            Some(unique) => unique < 65536 && id@ == unique_text(unique as int),
            None => forall|unique: int| 0 <= unique < 65536 ==> id@ != unique_text(unique),
        },
{
    let prefix = "00-00-00-00-00-00:";
    proof {
        reveal_strlit("00-00-00-00-00-00:");
        assert forall|unique: int| 0 <= unique < 65536 implies unique_text(unique).len() == 23 by {
            lemma_unique_text_chars(unique);
        }
    }
    if id.unicode_len() != STREAM_ID_LENGTH {
        return None;
    }
    let mut i: usize = 0;
    while i < 18
        invariant
            i <= 18,
            id@.len() == 23,
            prefix@ == "00-00-00-00-00-00:"@,
            prefix@.len() == 18,
            forall|j: int| 0 <= j < i ==> id@[j] == prefix@[j],
        decreases 18 - i,
    {
        if id.get_char(i) != prefix.get_char(i) {
            proof {
                assert forall|unique: int| 0 <= unique < 65536 implies id@ != unique_text(
                    unique,
                ) by {
                    lemma_unique_text_chars(unique);
                    assert(unique_text(unique)[i as int] == prefix@[i as int]);
                }
            }
            return None;
        }
        i += 1;
    }
    let first = hex_value(id.get_char(18));
    let second = hex_value(id.get_char(19));
    let dash = id.get_char(20);
    let third = hex_value(id.get_char(21));
    let fourth = hex_value(id.get_char(22));
    match (first, second, third, fourth) {
        (Some(v1), Some(v2), Some(v3), Some(v4)) => {
            if dash != '-' {
                proof {
                    assert forall|unique: int| 0 <= unique < 65536 implies id@ != unique_text(
                        unique,
                    ) by {
                        lemma_unique_text_chars(unique);
                    }
                }
                return None;
            }
            let unique: u32 = (v1 as u32 * 16 + v2 as u32) * 256 + (v3 as u32 * 16 + v4 as u32);
            proof {
                lemma_unique_text_chars(unique as int);
                assert(unique as int / 256 == v1 * 16 + v2);
                assert(unique as int % 256 == v3 * 16 + v4);
                assert(id@ =~= unique_text(unique as int));
            }
            Some(unique)
        },
        _ => {
            proof {
                assert forall|unique: int| 0 <= unique < 65536 implies id@ != unique_text(
                    unique,
                ) by {
                    lemma_unique_text_chars(unique);
                    assert(0 <= unique / 256 / 16 < 16);
                    assert(0 <= unique / 256 % 16 < 16);
                    assert(0 <= unique % 256 / 16 < 16);
                    assert(0 <= unique % 256 % 16 < 16);
                }
            }
            None
        },
    }
}

/// Whether one of `streams` has the id `id`.
pub open spec fn holds_id(streams: Seq<StreamModel>, id: Seq<char>) -> bool {
    exists|k: int| 0 <= k < streams.len() && #[trigger] streams[k].stream_id == id
}

/// Whether a Stream of one of `cucs` has the id `id`.
pub open spec fn cucs_hold_id(cucs: Seq<CucModel>, id: Seq<char>) -> bool {
    exists|j: int| 0 <= j < cucs.len() && holds_id(#[trigger] cucs[j].stream, id)
}

/// Whether a Stream of one of `domains` has the id `id`.
pub open spec fn domains_hold_id(domains: Seq<DomainModel>, id: Seq<char>) -> bool {
    exists|i: int| 0 <= i < domains.len() && cucs_hold_id(#[trigger] domains[i].cuc, id)
}

/// A Stream id is in use exactly if a Stream of one of the domains has it.
pub proof fn lemma_in_use_by_domains(tree: Seq<DomainModel>, id: Seq<char>)
    ensures
        stream_id_in_use(tree, id) <==> domains_hold_id(tree, id),
{
    if stream_id_in_use(tree, id) {
        let (i, j, k) = choose|i: int, j: int, k: int|
            0 <= i < tree.len() && 0 <= j < tree[i].cuc.len() && 0 <= k
                < tree[i].cuc[j].stream.len() && #[trigger] tree[i].cuc[j].stream[k].stream_id
                == id;
        assert(holds_id(tree[i].cuc[j].stream, id));
        assert(cucs_hold_id(tree[i].cuc, id));
    }
    if domains_hold_id(tree, id) {
        let i = choose|i: int| 0 <= i < tree.len() && cucs_hold_id(#[trigger] tree[i].cuc, id);
        let j = choose|j: int|
            0 <= j < tree[i].cuc.len() && holds_id(#[trigger] tree[i].cuc[j].stream, id);
        let k = choose|k: int|
            0 <= k < tree[i].cuc[j].stream.len() && #[trigger] tree[i].cuc[j].stream[k].stream_id
                == id;
        assert(tree[i].cuc[j].stream[k].stream_id == id);
    }
}

/// Marks in `taken` the unique ids of the Streams of `streams` that have the MAC address zero.
fn mark_streams(taken: &mut Vec<bool>, streams: &Vec<Stream>)
    requires
        old(taken).len() == 65536,
    ensures
        final(taken).len() == 65536,
        forall|u: int|
            0 <= u < 65536 ==> #[trigger] final(taken)@[u] == (old(taken)@[u] || holds_id(
                streams.deep_view(),
                unique_text(u),
            )),
{
    let ghost all = streams.deep_view();
    let mut k: usize = 0;
    proof {
        assert(all.take(0) =~= Seq::<StreamModel>::empty());
    }
    while k < streams.len()
        invariant
            k <= streams.len(),
            all == streams.deep_view(),
            taken.len() == 65536,
            forall|u: int|
                0 <= u < 65536 ==> #[trigger] taken@[u] == (old(taken)@[u] || holds_id(
                    all.take(k as int),
                    unique_text(u),
                )),
        decreases streams.len() - k,
    {
        let ghost before = taken@;
        let found = unique_id_of(streams[k].stream_id.as_str());
        match found {
            Some(unique) => {
                taken[unique as usize] = true;
            },
            None => {},
        }
        proof {
            let id = all[k as int].stream_id;
            assert(all.take(k + 1).drop_last() =~= all.take(k as int));
            assert forall|u: int| 0 <= u < 65536 implies #[trigger] taken@[u] == (old(taken)@[u]
                || holds_id(all.take(k + 1), unique_text(u))) by {
                let longer = all.take(k + 1);
                let shorter = all.take(k as int);
                if holds_id(shorter, unique_text(u)) {
                    let n = choose|n: int|
                        0 <= n < shorter.len() && #[trigger] shorter[n].stream_id == unique_text(u);
                    assert(longer[n].stream_id == unique_text(u));
                }
                if id == unique_text(u) {
                    assert(longer[k as int].stream_id == unique_text(u));
                    if found is Some {
                        lemma_unique_text_injective(u, found->0 as int);
                    }
                }
                if holds_id(longer, unique_text(u)) {
                    let n = choose|n: int|
                        0 <= n < longer.len() && #[trigger] longer[n].stream_id == unique_text(u);
                    if n < k {
                        assert(shorter[n].stream_id == unique_text(u));
                    }
                }
                if found is Some && found->0 != u {
                    assert(taken@[u] == before[u]);
                    if id == unique_text(u) {
                        lemma_unique_text_injective(u, found->0 as int);
                    }
                }
            }
        }
        k += 1;
    }
    proof {
        assert(all.take(k as int) =~= all);
    }
}

/// Marks in `taken` the unique ids of the Streams of `cucs` that have the MAC address zero.
fn mark_cucs(taken: &mut Vec<bool>, cucs: &Vec<Cuc>)
    requires
        old(taken).len() == 65536,
    ensures
        final(taken).len() == 65536,
        forall|u: int|
            0 <= u < 65536 ==> #[trigger] final(taken)@[u] == (old(taken)@[u] || cucs_hold_id(
                cucs.deep_view(),
                unique_text(u),
            )),
{
    let ghost all = cucs.deep_view();
    let mut j: usize = 0;
    while j < cucs.len()
        invariant
            j <= cucs.len(),
            all == cucs.deep_view(),
            taken.len() == 65536,
            forall|u: int|
                0 <= u < 65536 ==> #[trigger] taken@[u] == (old(taken)@[u] || cucs_hold_id(
                    all.take(j as int),
                    unique_text(u),
                )),
        decreases cucs.len() - j,
    {
        let ghost before = taken@;
        mark_streams(taken, &cucs[j].stream);
        proof {
            assert forall|u: int| 0 <= u < 65536 implies #[trigger] taken@[u] == (old(taken)@[u]
                || cucs_hold_id(all.take(j + 1), unique_text(u))) by {
                let longer = all.take(j + 1);
                let shorter = all.take(j as int);
                let id = unique_text(u);
                assert(taken@[u] == (before[u] || holds_id(all[j as int].stream, id)));
                if cucs_hold_id(shorter, id) {
                    let n = choose|n: int|
                        0 <= n < shorter.len() && holds_id(#[trigger] shorter[n].stream, id);
                    assert(holds_id(longer[n].stream, id));
                }
                if holds_id(all[j as int].stream, id) {
                    assert(holds_id(longer[j as int].stream, id));
                }
                if cucs_hold_id(longer, id) {
                    let n = choose|n: int|
                        0 <= n < longer.len() && holds_id(#[trigger] longer[n].stream, id);
                    if n < j {
                        assert(holds_id(shorter[n].stream, id));
                    }
                }
            }
        }
        j += 1;
    }
    proof {
        assert(all.take(j as int) =~= all);
    }
}

/// Says for each unique id whether a Stream of the tree has the id with the MAC address zero
/// and that unique id.
fn taken_unique_ids(tree: &Vec<Domain>) -> (taken: Vec<bool>)
    ensures
        taken.len() == 65536,
        forall|u: int|
            0 <= u < 65536 ==> #[trigger] taken@[u] == stream_id_in_use(
                tree.deep_view(),
                unique_text(u),
            ),
{
    let ghost all = tree.deep_view();
    let mut taken: Vec<bool> = Vec::new();
    let mut n: u32 = 0;
    while n < FREE_ID_COUNT
        invariant
            n <= FREE_ID_COUNT,
            taken.len() == n,
            forall|u: int| 0 <= u < n ==> !taken@[u],
        decreases FREE_ID_COUNT - n,
    {
        taken.push(false);
        n += 1;
    }
    let mut i: usize = 0;
    while i < tree.len()
        invariant
            i <= tree.len(),
            all == tree.deep_view(),
            taken.len() == 65536,
            forall|u: int|
                0 <= u < 65536 ==> #[trigger] taken@[u] == domains_hold_id(
                    all.take(i as int),
                    unique_text(u),
                ),
        decreases tree.len() - i,
    {
        let ghost before = taken@;
        mark_cucs(&mut taken, &tree[i].cuc);
        proof {
            assert forall|u: int| 0 <= u < 65536 implies #[trigger] taken@[u] == domains_hold_id(
                all.take(i + 1),
                unique_text(u),
            ) by {
                let longer = all.take(i + 1);
                let shorter = all.take(i as int);
                let id = unique_text(u);
                assert(taken@[u] == (before[u] || cucs_hold_id(all[i as int].cuc, id)));
                if domains_hold_id(shorter, id) {
                    let n = choose|n: int|
                        0 <= n < shorter.len() && cucs_hold_id(#[trigger] shorter[n].cuc, id);
                    assert(cucs_hold_id(longer[n].cuc, id));
                }
                if cucs_hold_id(all[i as int].cuc, id) {
                    assert(cucs_hold_id(longer[i as int].cuc, id));
                }
                if domains_hold_id(longer, id) {
                    let n = choose|n: int|
                        0 <= n < longer.len() && cucs_hold_id(#[trigger] longer[n].cuc, id);
                    if n < i {
                        assert(cucs_hold_id(shorter[n].cuc, id));
                    }
                }
            }
        }
        i += 1;
    }
    proof {
        assert(all.take(i as int) =~= all);
        assert forall|u: int| 0 <= u < 65536 implies #[trigger] taken@[u] == stream_id_in_use(
            all,
            unique_text(u),
        ) by {
            lemma_in_use_by_domains(all, unique_text(u));
        }
    }
    taken
}

/// Searches for a Stream id with the MAC address zero that no Stream of the tree has, starting
/// at the unique id `a`, `b`.
pub fn free_stream_id_from(tree: &Vec<Domain>, a: u8, b: u8) -> (r: Option<String>)
    ensures
        is_first_free_id(tree.deep_view(), a, b, r.deep_view()),
        r matches Some(id) ==> !stream_id_in_use(tree.deep_view(), id@) && is_stream_id(id@),
        r is None <==> all_free_ids_in_use(tree.deep_view()),
{
    let taken = taken_unique_ids(tree);
    let start: u32 = a as u32 * 256 + b as u32;
    let mut n: u32 = 0;
    while n < FREE_ID_COUNT
        invariant
            n <= FREE_ID_COUNT,
            start == a as int * 256 + b as int,
            taken.len() == 65536,
            forall|u: int|
                0 <= u < 65536 ==> #[trigger] taken@[u] == stream_id_in_use(
                    tree.deep_view(),
                    unique_text(u),
                ),
            forall|m: int|
                0 <= m < n ==> stream_id_in_use(tree.deep_view(), #[trigger] candidate(a, b, m)),
        decreases FREE_ID_COUNT - n,
    {
        let unique: u32 = (start + n) % FREE_ID_COUNT;
        proof {
            assert(candidate(a, b, n as int) == unique_text(unique as int));
        }
        if !taken[unique as usize] {
            let id = format_free_id((unique / 256) as u8, (unique % 256) as u8);
            proof {
                lemma_free_id_is_stream_id((unique / 256) as u8, (unique % 256) as u8);
                assert(id@ == candidate(a, b, n as int));
                assert(id@ == free_id_text((unique / 256) as u8, (unique % 256) as u8));
            }
            return Some(id);
        }
        n += 1;
    }
    proof {
        lemma_candidates_cover(tree.deep_view(), a, b);
    }
    None
}

} // verus!
