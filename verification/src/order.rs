//! The order in which records are listed: ascending by the bytes of their keys.

use vstd::prelude::*;
use vstd::utf8::encode_utf8;

verus! {

/// `a` comes strictly before `b` in lexicographic order.
pub open spec fn bytes_before(a: Seq<u8>, b: Seq<u8>) -> bool
    decreases a.len(),
{
    if b.len() == 0 {
        false
    } else if a.len() == 0 {
        true
    } else if a[0] != b[0] {
        a[0] < b[0]
    } else {
        bytes_before(a.drop_first(), b.drop_first())
    }
}

/// The key `a` comes strictly before the key `b`: keys are ordered by their
/// UTF-8 encodings.
pub open spec fn key_before(a: Seq<char>, b: Seq<char>) -> bool {
    bytes_before(encode_utf8(a), encode_utf8(b))
}

/// `rows` holds every entry of `entries` once, in ascending order of key.
pub open spec fn lists<V>(rows: Seq<(Seq<char>, V)>, entries: Map<Seq<char>, V>) -> bool {
    &&& forall|i: int, j: int|
        0 <= i < j < rows.len() ==> key_before(#[trigger] rows[i].0, #[trigger] rows[j].0)
    &&& forall|i: int|
        0 <= i < rows.len() ==> entries.contains_pair((#[trigger] rows[i]).0, rows[i].1)
    &&& forall|key: Seq<char>| #[trigger]
        entries.contains_key(key) ==> exists|i: int|
            0 <= i < rows.len() && (#[trigger] rows[i]).0 == key
}

/// The entries of `pairs` whose first key is `first`, by their second key.
pub open spec fn under<V>(pairs: Map<(Seq<char>, Seq<char>), V>, first: Seq<char>) -> Map<
    Seq<char>,
    V,
> {
    Map::new(
        |second: Seq<char>| pairs.contains_key((first, second)),
        |second: Seq<char>| pairs[(first, second)],
    )
}

/// No byte string comes before itself.
pub proof fn bytes_before_irreflexive(a: Seq<u8>)
    ensures
        !bytes_before(a, a),
    decreases a.len(),
{
    if a.len() > 0 {
        bytes_before_irreflexive(a.drop_first());
    }
}

/// What comes before something that comes before `c` comes before `c`.
pub proof fn bytes_before_transitive(a: Seq<u8>, b: Seq<u8>, c: Seq<u8>)
    requires
        bytes_before(a, b),
        bytes_before(b, c),
    ensures
        bytes_before(a, c),
    decreases a.len(),
{
    if a.len() > 0 && a[0] == b[0] && b[0] == c[0] {
        bytes_before_transitive(a.drop_first(), b.drop_first(), c.drop_first());
    }
}

/// A map has at most one listing: two sequences that both list it are equal.
pub proof fn listing_is_unique<V>(
    first: Seq<(Seq<char>, V)>,
    second: Seq<(Seq<char>, V)>,
    entries: Map<Seq<char>, V>,
)
    requires
        lists(first, entries),
        lists(second, entries),
    ensures
        first == second,
{
    if first.len() < second.len() {
        same_at(second, first, entries, first.len() as int);
    }
    if second.len() < first.len() {
        same_at(first, second, entries, second.len() as int);
    }
    assert forall|i: int| 0 <= i < first.len() implies i < second.len() && #[trigger] first[i]
        == second[i] by {
        same_at(first, second, entries, i);
    }
    assert(first =~= second);
}

/// A listing holds as many rows as the map has entries: the map is finite.
pub proof fn listing_counts_all<V>(rows: Seq<(Seq<char>, V)>, entries: Map<Seq<char>, V>)
    requires
        lists(rows, entries),
    ensures
        entries.dom().finite(),
        entries.dom().len() == rows.len(),
    decreases rows.len(),
{
    if rows.len() == 0 {
        assert(entries.dom() =~= Set::<Seq<char>>::empty()) by {
            assert forall|key: Seq<char>| !entries.contains_key(key) by {
                if entries.contains_key(key) {
                    let i = position_of(rows, key);
                }
            }
        }
    } else {
        let last = rows.last();
        let fewer = rows.drop_last();
        let rest = entries.remove(last.0);
        assert(entries.contains_key(last.0));
        assert(lists(fewer, rest)) by {
            assert forall|i: int| 0 <= i < fewer.len() implies rest.contains_pair(
                (#[trigger] fewer[i]).0,
                fewer[i].1,
            ) by {
                assert(fewer[i] == rows[i]);
                if rows[i].0 == last.0 {
                    position_is_unique(rows, entries, i, rows.len() - 1);
                }
            }
            assert forall|key: Seq<char>| #[trigger] rest.contains_key(key) implies exists|
                i: int,
            | 0 <= i < fewer.len() && (#[trigger] fewer[i]).0 == key by {
                assert(entries.contains_key(key));
                let i = position_of(rows, key);
                assert(0 <= i < rows.len() && rows[i].0 == key);
                assert(i < fewer.len());
                assert(fewer[i] == rows[i]);
            }
            assert forall|i: int, j: int| 0 <= i < j < fewer.len() implies key_before(
                #[trigger] fewer[i].0,
                #[trigger] fewer[j].0,
            ) by {
                assert(fewer[i] == rows[i] && fewer[j] == rows[j]);
            }
        }
        listing_counts_all(fewer, rest);
        assert(rest.dom() =~= entries.dom().remove(last.0));
        assert(entries.dom() =~= rest.dom().insert(last.0));
    }
}

/// The position at which `rows`, a listing of `entries`, holds `key`.
spec fn position_of<V>(rows: Seq<(Seq<char>, V)>, key: Seq<char>) -> int {
    choose|i: int| 0 <= i < rows.len() && (#[trigger] rows[i]).0 == key
}

/// In a listing each key stands at one position only.
proof fn position_is_unique<V>(
    rows: Seq<(Seq<char>, V)>,
    entries: Map<Seq<char>, V>,
    i: int,
    j: int,
)
    requires
        lists(rows, entries),
        0 <= i < rows.len(),
        0 <= j < rows.len(),
        rows[i].0 == rows[j].0,
    ensures
        i == j,
{
    bytes_before_irreflexive(encode_utf8(rows[i].0));
}

/// Two listings of one map agree at every position of the first.
proof fn same_at<V>(
    first: Seq<(Seq<char>, V)>,
    second: Seq<(Seq<char>, V)>,
    entries: Map<Seq<char>, V>,
    i: int,
)
    requires
        lists(first, entries),
        lists(second, entries),
        0 <= i < first.len(),
    ensures
        i < second.len(),
        first[i] == second[i],
    decreases i,
{
    // Where the key of first[i] stands in `second`.
    assert(entries.contains_key(first[i].0));
    let j = position_of(second, first[i].0);
    assert(0 <= j < second.len() && second[j].0 == first[i].0);
    if j < i {
        // Positions below i agree, so first[j] carries the same key as first[i].
        same_at(first, second, entries, j);
        position_is_unique(first, entries, i, j);
    } else if j > i {
        // second[i] carries a key that stands somewhere in `first`, and not below i.
        assert(entries.contains_key(second[i].0));
        let k = position_of(first, second[i].0);
        assert(0 <= k < first.len() && first[k].0 == second[i].0);
        if k < i {
            same_at(first, second, entries, k);
            position_is_unique(second, entries, i, k);
        } else if k == i {
            position_is_unique(second, entries, i, j);
        } else {
            // first[i] < first[k] = second[i] < second[j] = first[i]
            bytes_before_transitive(
                encode_utf8(first[i].0),
                encode_utf8(first[k].0),
                encode_utf8(second[j].0),
            );
            bytes_before_irreflexive(encode_utf8(first[i].0));
        }
    }
}

} // verus!
