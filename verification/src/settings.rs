//! The settings window: the skins offered and the keybind rows, ordered by
//! key mode.
use vstd::prelude::*;
use vstd::string::*;

use crate::text::{
    decimal, join, join_spec, pad_left, pad_left_str, parse_usize, parse_usize_spec, push_decimal,
    str_eq,
};

verus! {

/// The skins the selector offers: "default" first, then each skin folder
/// found other than "default", in the order found.
pub open spec fn skin_choices_spec(found: Seq<String>) -> Seq<Seq<char>>
    decreases found.len(),
{
    if found.len() == 0 {
        seq!["default"@]
    } else {
        let rest = skin_choices_spec(found.drop_last());
        if found.last()@ == "default"@ {
            rest
        } else {
            rest.push(found.last()@)
        }
    }
}

/// The skins the selector offers, from the names of the skin folders found.
pub fn skin_choices(found: &Vec<String>) -> (r: Vec<String>)
    ensures
        r@.map_values(|s: String| s@) == skin_choices_spec(found@),
{
    let mut r: Vec<String> = vec![String::from_str("default")];
    let mut i: usize = 0;
    assert(found@.take(0) =~= Seq::<String>::empty());
    assert(r@.map_values(|s: String| s@) =~= skin_choices_spec(found@.take(0)));
    while i < found.len()
        invariant
            i <= found@.len(),
            r@.map_values(|s: String| s@) == skin_choices_spec(found@.take(i as int)),
        decreases found.len() - i,
    {
        let ghost t = found@.take((i + 1) as int);
        assert(t.drop_last() =~= found@.take(i as int));
        let ghost before = r@;
        if !str_eq(found[i].as_str(), "default") {
            r.push(found[i].clone());
            assert(r@.map_values(|s: String| s@) =~= before.map_values(|s: String| s@).push(found@[i as int]@));
        }
        i = i + 1;
    }
    assert(found@.take(found@.len() as int) =~= found@);
    r
}

/// The selector offers "default" first and nowhere else, and offers every
/// other skin folder found.
pub proof fn lemma_skin_choices_default_first(found: Seq<String>)
    ensures
        skin_choices_spec(found).len() >= 1,
        skin_choices_spec(found)[0] == "default"@,
        forall|i: int|
            1 <= i < skin_choices_spec(found).len() ==> #[trigger] skin_choices_spec(found)[i] != "default"@,
        forall|k: int|
            0 <= k < found.len() && #[trigger] found[k]@ != "default"@ ==> skin_choices_spec(found).contains(
                found[k]@,
            ),
    decreases found.len(),
{
    if found.len() > 0 {
        let t = found.drop_last();
        lemma_skin_choices_default_first(t);
        let rest = skin_choices_spec(t);
        let all = skin_choices_spec(found);
        if found.last()@ != "default"@ {
            assert(all == rest.push(found.last()@));
            assert forall|i: int| 1 <= i < all.len() implies #[trigger] all[i] != "default"@ by {
                if i < rest.len() {
                    assert(all[i] == rest[i]);
                }
            }
            assert forall|k: int| 0 <= k < found.len() && #[trigger] found[k]@ != "default"@ implies all.contains(
                found[k]@,
            ) by {
                if k < t.len() {
                    assert(t[k] == found[k]);
                    let j = choose|j: int| 0 <= j < rest.len() && rest[j] == found[k]@;
                    assert(all[j] == rest[j]);
                } else {
                    assert(all[rest.len() as int] == found.last()@);
                }
            }
        } else {
            assert(all == rest);
            assert forall|k: int| 0 <= k < found.len() && #[trigger] found[k]@ != "default"@ implies all.contains(
                found[k]@,
            ) by {
                assert(k < t.len());
                assert(t[k] == found[k]);
            }
        }
    }
}

/// The key by which keybind rows are ordered: the key mode's number, or 0
/// where the name is not a number.
pub open spec fn mode_key(name: Seq<char>) -> int {
    match parse_usize_spec(name) {
        Some(n) => n as int,
        None => 0,
    }
}

/// `x` inserted into `sorted` after every element whose key is not greater.
pub open spec fn insert_by_key(sorted: Seq<String>, x: String) -> Seq<String>
    decreases sorted.len(),
{
    if sorted.len() == 0 {
        seq![x]
    } else if mode_key(sorted.last()@) <= mode_key(x@) {
        sorted.push(x)
    } else {
        insert_by_key(sorted.drop_last(), x).push(sorted.last())
    }
}

/// `names` ordered by key, keeping the order of names with equal keys: what
/// the stable `sort_by_key(|k| k.parse::<usize>().unwrap_or(0))` gives.
pub open spec fn sort_by_mode_spec(names: Seq<String>) -> Seq<String>
    decreases names.len(),
{
    if names.len() == 0 {
        Seq::empty()
    } else {
        insert_by_key(sort_by_mode_spec(names.drop_last()), names.last())
    }
}

/// The keys along `s` never decrease.
pub open spec fn sorted_by_mode(s: Seq<String>) -> bool {
    forall|i: int, j: int| 0 <= i <= j < s.len() ==> mode_key(#[trigger] s[i]@) <= mode_key(#[trigger] s[j]@)
}

proof fn lemma_insert_sorted(sorted: Seq<String>, x: String)
    requires
        sorted_by_mode(sorted),
    ensures
        sorted_by_mode(insert_by_key(sorted, x)),
        insert_by_key(sorted, x).to_multiset() == sorted.to_multiset().insert(x),
        insert_by_key(sorted, x).len() == sorted.len() + 1,
    decreases sorted.len(),
{
    broadcast use vstd::seq_lib::group_to_multiset_ensures;
    if sorted.len() == 0 {
        assert(seq![x] =~= Seq::<String>::empty().push(x));
    } else if mode_key(sorted.last()@) <= mode_key(x@) {
    } else {
        let t = sorted.drop_last();
        assert(sorted_by_mode(t)) by {
            assert forall|i: int, j: int| 0 <= i <= j < t.len() implies mode_key(#[trigger] t[i]@)
                <= mode_key(#[trigger] t[j]@) by {
                assert(t[i] == sorted[i] && t[j] == sorted[j]);
            }
        }
        lemma_insert_sorted(t, x);
        lemma_insert_bounded(t, x, mode_key(sorted.last()@));
        assert(sorted =~= t.push(sorted.last()));
    }
}

proof fn lemma_insert_bounded(sorted: Seq<String>, x: String, bound: int)
    requires
        forall|i: int| 0 <= i < sorted.len() ==> mode_key(#[trigger] sorted[i]@) <= bound,
        mode_key(x@) <= bound,
    ensures
        forall|i: int|
            0 <= i < insert_by_key(sorted, x).len() ==> mode_key(#[trigger] insert_by_key(sorted, x)[i]@)
                <= bound,
    decreases sorted.len(),
{
    let r = insert_by_key(sorted, x);
    if sorted.len() == 0 {
        assert(r == seq![x]);
    } else if mode_key(sorted.last()@) <= mode_key(x@) {
        assert(r == sorted.push(x));
        assert forall|i: int| 0 <= i < r.len() implies mode_key(#[trigger] r[i]@) <= bound by {
            if i < sorted.len() {
                assert(r[i] == sorted[i]);
            }
        }
    } else {
        let t = sorted.drop_last();
        assert forall|i: int| 0 <= i < t.len() implies mode_key(#[trigger] t[i]@) <= bound by {
            assert(t[i] == sorted[i]);
        }
        lemma_insert_bounded(t, x, bound);
        let u = insert_by_key(t, x);
        assert(r == u.push(sorted.last()));
        assert forall|i: int| 0 <= i < r.len() implies mode_key(#[trigger] r[i]@) <= bound by {
            if i < u.len() {
                assert(r[i] == u[i]);
            } else {
                assert(r[i] == sorted[sorted.len() - 1]);
            }
        }
    }
}

/// The ordered rows are ordered by key and hold exactly the names given.
pub proof fn lemma_sort_by_mode(names: Seq<String>)
    ensures
        sorted_by_mode(sort_by_mode_spec(names)),
        sort_by_mode_spec(names).to_multiset() == names.to_multiset(),
    decreases names.len(),
{
    broadcast use vstd::seq_lib::group_to_multiset_ensures;
    if names.len() > 0 {
        lemma_sort_by_mode(names.drop_last());
        lemma_insert_sorted(sort_by_mode_spec(names.drop_last()), names.last());
        assert(names =~= names.drop_last().push(names.last()));
    }
}

/// The key of a key mode name.
fn mode_key_of(name: &String) -> (r: usize)
    ensures
        r == mode_key(name@),
{
    match parse_usize(name.as_str()) {
        Some(n) => n,
        None => 0,
    }
}

/// Inserts `x` into `sorted` after every element whose key is not greater.
fn insert_by_mode(sorted: &mut Vec<String>, x: String)
    ensures
        final(sorted)@ == insert_by_key(old(sorted)@, x),
    decreases old(sorted)@.len(),
{
    let n = sorted.len();
    if n == 0 {
        sorted.push(x);
        return;
    }
    let kx = mode_key_of(&x);
    let kl = mode_key_of(&sorted[n - 1]);
    if kl <= kx {
        sorted.push(x);
    } else {
        let last = sorted.pop().unwrap();
        insert_by_mode(sorted, x);
        sorted.push(last);
    }
}

/// The key mode names ordered by key, stably.
pub fn sort_by_mode(names: Vec<String>) -> (r: Vec<String>)
    ensures
        r@ == sort_by_mode_spec(names@),
{
    let mut r: Vec<String> = Vec::new();
    let mut i: usize = 0;
    assert(names@.take(0) =~= Seq::<String>::empty());
    while i < names.len()
        invariant
            i <= names@.len(),
            r@ == sort_by_mode_spec(names@.take(i as int)),
        decreases names.len() - i,
    {
        assert(names@.take((i + 1) as int).drop_last() =~= names@.take(i as int));
        insert_by_mode(&mut r, names[i].clone());
        i = i + 1;
    }
    assert(names@.take(names@.len() as int) =~= names@);
    r
}

/// One row of the keybind list.
pub struct KeybindRow {
    /// The number of keys of the mode.
    pub key_count: usize,
    /// The mode's label, "4K", padded to two places before the K.
    pub label: String,
    /// The keys bound, joined by ", ", or "(no keys set)".
    pub keys_text: String,
    /// While this mode is being rebound: "Listening... pressed/needed".
    pub listening: Option<String>,
}

/// The label of a key mode: its number right-aligned in two places, then K.
pub open spec fn mode_label(n: usize) -> Seq<char> {
    pad_left(decimal(n as nat), 2, ' ') + "K"@
}

/// The keys text of a row.
pub open spec fn keys_text_spec(keys: Seq<String>) -> Seq<char> {
    let joined = join_spec(keys.map_values(|k: String| k@), ", "@);
    if joined.len() == 0 {
        "(no keys set)"@
    } else {
        joined
    }
}

/// The row of one key mode; `None` where its name is not a number (the
/// window skips it). `remapping` is the mode being rebound, if any, and
/// `pressed` how many keys have been pressed for it so far.
pub fn keybind_row(name: &String, keys: &Vec<String>, remapping: Option<usize>, pressed: usize) -> (r:
    Option<KeybindRow>)
    ensures
        r is None <==> parse_usize_spec(name@) is None,
        r matches Some(row) ==> {
            let n = parse_usize_spec(name@)->0;
            &&& row.key_count == n
            &&& row.label@ == mode_label(n)
            &&& row.keys_text@ == keys_text_spec(keys@)
            &&& (row.listening is Some <==> remapping == Some(n))
            &&& row.listening matches Some(t) ==> t@ == "Listening... "@ + decimal(pressed as nat) + "/"@
                + decimal(n as nat)
        },
{
    let n = match parse_usize(name.as_str()) {
        Some(n) => n,
        None => {
            return None;
        },
    };
    proof {
        reveal_strlit(" ");
    }
    let digits = crate::text::format_u64(n as u64);
    let mut label = pad_left_str(digits.as_str(), 2, " ");
    label.append("K");
    let joined = join(keys, ", ");
    let keys_text = if joined.unicode_len() == 0 {
        String::from_str("(no keys set)")
    } else {
        joined
    };
    let listening = match remapping {
        Some(m) if m == n => {
            let mut t = String::from_str("Listening... ");
            push_decimal(&mut t, pressed as u64);
            t.append("/");
            push_decimal(&mut t, n as u64);
            Some(t)
        },
        _ => None,
    };
    Some(KeybindRow { key_count: n, label, keys_text, listening })
}

} // verus!
