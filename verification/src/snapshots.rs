use vstd::prelude::*;
use vstd::string::StrSliceExecFns;

verus! {

// Header snapshots are stored one per height, under a name that carries
// the height as decimal digits.  The functions here pin down that naming
// exactly, so that listing and ordering stored snapshots rests on a
// verified reading of the height.

/// The characters every snapshot name starts with.
pub open spec fn snapshot_prefix() -> Seq<char> {
    seq!['b', 'l', 'o', 'c', 'k', '_']
}

/// The characters every snapshot name ends with.
pub open spec fn snapshot_suffix() -> Seq<char> {
    seq!['.', 'j', 's', 'o', 'n']
}

/// Whether `c` is a decimal digit.
pub open spec fn is_digit_char(c: char) -> bool {
    '0' <= c && c <= '9'
}

/// The value of a decimal digit.
pub open spec fn digit_val(c: char) -> int {
    c as int - '0' as int
}

/// Whether every character of `s` is a decimal digit.
pub open spec fn all_digits(s: Seq<char>) -> bool {
    forall|i: int| 0 <= i < s.len() ==> is_digit_char(#[trigger] s[i])
}

/// The number the decimal digits of `s` spell, most significant first.
pub open spec fn digits_value(s: Seq<char>) -> int
    decreases s.len(),
{
    if s.len() == 0 {
        0
    } else {
        10 * digits_value(s.take(s.len() - 1)) + digit_val(s.last())
    }
}

/// The digit characters of a snapshot name: what stands between the fixed
/// prefix and suffix.  Meaningful when the name is long enough to hold
/// both and at least one digit.
pub open spec fn snapshot_digits(name: Seq<char>) -> Seq<char> {
    name.subrange(snapshot_prefix().len() as int, name.len() - snapshot_suffix().len())
}

/// Whether `name` names a stored snapshot: the fixed prefix, at least one
/// decimal digit, then the fixed suffix.
pub open spec fn is_snapshot_name(name: Seq<char>) -> bool {
    &&& name.len() >= snapshot_prefix().len() + 1 + snapshot_suffix().len()
    &&& name.subrange(0, snapshot_prefix().len() as int) == snapshot_prefix()
    &&& name.subrange(name.len() - snapshot_suffix().len(), name.len() as int)
        == snapshot_suffix()
    &&& all_digits(snapshot_digits(name))
}

/// The height a snapshot name spells.
pub open spec fn snapshot_height_of(name: Seq<char>) -> int {
    digits_value(snapshot_digits(name))
}

/// The digits of `s` spell a number at least zero.
proof fn lemma_digits_value_nonneg(s: Seq<char>)
    requires
        all_digits(s),
    ensures
        digits_value(s) >= 0,
    decreases s.len(),
{
    if s.len() > 0 {
        let s1 = s.take(s.len() - 1);
        assert forall|i: int| 0 <= i < s1.len() implies is_digit_char(#[trigger] s1[i]) by {
            assert(s1[i] == s[i]);
        }
        lemma_digits_value_nonneg(s1);
        assert(is_digit_char(s.last()));
    }
}

/// Reading more digits never lowers the value: the whole spells at least
/// what any prefix of it spells.
proof fn lemma_digits_value_prefix(s: Seq<char>, j: int)
    requires
        all_digits(s),
        0 <= j <= s.len(),
    ensures
        digits_value(s) >= digits_value(s.take(j)),
    decreases s.len() - j,
{
    if j < s.len() {
        let s1 = s.take(s.len() - 1);
        assert forall|i: int| 0 <= i < s1.len() implies is_digit_char(#[trigger] s1[i]) by {
            assert(s1[i] == s[i]);
        }
        lemma_digits_value_nonneg(s1);
        assert(is_digit_char(s.last()));
        assert(digits_value(s) >= digits_value(s1));
        lemma_digits_value_prefix(s1, j);
        assert(s1.take(j) =~= s.take(j));
    } else {
        assert(s.take(j) =~= s);
    }
}

/// The height a stored snapshot's name spells: `Some` exactly when the
/// name has the snapshot shape and its digits spell a value that fits in
/// a `u64`.
pub fn snapshot_height(name: &str) -> (r: Option<u64>)
    ensures
        (match r {
            Some(h) => is_snapshot_name(name@) && h == snapshot_height_of(name@),
            None => !is_snapshot_name(name@) || snapshot_height_of(name@) > u64::MAX,
        }),
{
    let n = name.unicode_len();
    if n < 12 {
        return None;
    }
    if !(name.get_char(0) == 'b' && name.get_char(1) == 'l' && name.get_char(2) == 'o'
        && name.get_char(3) == 'c' && name.get_char(4) == 'k' && name.get_char(5) == '_') {
        proof {
            if is_snapshot_name(name@) {
                let p = name@.subrange(0, 6);
                assert(p[0] == name@[0] && p[1] == name@[1] && p[2] == name@[2] && p[3] == name@[3]
                    && p[4] == name@[4] && p[5] == name@[5]);
            }
        }
        return None;
    }
    if !(name.get_char(n - 5) == '.' && name.get_char(n - 4) == 'j' && name.get_char(n - 3) == 's'
        && name.get_char(n - 2) == 'o' && name.get_char(n - 1) == 'n') {
        proof {
            if is_snapshot_name(name@) {
                let q = name@.subrange(name@.len() - 5, name@.len() as int);
                assert(q[0] == name@[name@.len() - 5] && q[1] == name@[name@.len() - 4] && q[2]
                    == name@[name@.len() - 3] && q[3] == name@[name@.len() - 2] && q[4]
                    == name@[name@.len() - 1]);
            }
        }
        return None;
    }
    let stop = n - 5;
    let mut h: u64 = 0;
    let mut i: usize = 6;
    while i < stop
        invariant
            6 <= i <= stop,
            stop == n - 5,
            12 <= n == name@.len(),
            all_digits(name@.subrange(6, i as int)),
            h as int == digits_value(name@.subrange(6, i as int)),
        decreases stop - i,
    {
        let c = name.get_char(i);
        if !(c >= '0' && c <= '9') {
            proof {
                assert(snapshot_digits(name@)[i - 6] == name@[i as int]);
            }
            return None;
        }
        let d = (c as u32) - ('0' as u32);
        let ghost pre = name@.subrange(6, i as int);
        let next = match h.checked_mul(10) {
            Some(t) => t.checked_add(d as u64),
            None => None,
        };
        proof {
            assert(name@.subrange(6, i + 1 as int).take(name@.subrange(6, i + 1 as int).len() - 1)
                =~= pre);
            assert(name@.subrange(6, i + 1 as int).last() == name@[i as int]);
            assert(digit_val(name@[i as int]) == d as int);
            assert forall|k: int| 0 <= k < i + 1 - 6 implies is_digit_char(
                #[trigger] name@.subrange(6, i + 1 as int)[k],
            ) by {
                if k < i - 6 {
                    assert(name@.subrange(6, i + 1 as int)[k] == pre[k]);
                } else {
                    assert(name@.subrange(6, i + 1 as int)[k] == name@[i as int]);
                }
            }
        }
        match next {
            Some(v) => {
                h = v;
            },
            None => {
                proof {
                    let ds = snapshot_digits(name@);
                    if is_snapshot_name(name@) {
                        assert(digits_value(name@.subrange(6, i + 1 as int)) > u64::MAX);
                        lemma_digits_value_prefix(ds, i + 1 - 6);
                        assert(ds.take(i + 1 - 6) =~= name@.subrange(6, i + 1 as int));
                    }
                }
                return None;
            },
        }
        i += 1;
    }
    proof {
        assert(name@.subrange(6, stop as int) =~= snapshot_digits(name@));
        assert(name@.subrange(0, 6) =~= snapshot_prefix());
        assert(name@.subrange(name@.len() - 5, name@.len() as int) =~= snapshot_suffix());
    }
    Some(h)
}

} // verus!
