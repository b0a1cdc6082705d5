//! Names of TAP devices. The egress rules of a sandbox go by the name of its
//! device, so no two live devices share one.

use vstd::prelude::*;
use vstd::set_lib::{lemma_int_range, lemma_len_subset, lemma_map_size, set_int_range};
use vstd::utf8::{encode_scalar, encode_utf8, is_ascii_chars, is_ascii_chars_encode_utf8};

use crate::numeric::{dec, dec_text, is_digit, law_dec_injective, lemma_dec_digits};
use crate::text::{cat2, chars_of, same_text, strs, text_of, Text};

verus! {

broadcast use vstd::string::group_string_axioms;

/// How many bytes an interface name can have.
pub const NAME_BYTES: usize = 15;

/// Whether a text can be an interface name, by its length.
pub open spec fn fits(name: Text) -> bool {
    encode_utf8(name).len() <= NAME_BYTES
}

/// As much of the beginning of a text as fits.
pub open spec fn cut(text: Text) -> Text
    decreases text.len(),
{
    if text.len() == 0 || fits(text) {
        text
    } else {
        cut(text.drop_last())
    }
}

/// The start of a name, then as much of the end of an identifier as fits.
pub open spec fn with_end(start: Text, id: Text) -> Text
    decreases id.len(),
{
    if id.len() == 0 || fits(start + id) {
        start + id
    } else {
        with_end(start, id.drop_first())
    }
}

/// The name with the first number from `n` on that is not taken, as long as the
/// number fits.
pub open spec fn numbered(taken: Set<Text>, start: Text, n: nat) -> Option<Text>
    decreases u64::MAX + 1 - n,
{
    if n > u64::MAX || !fits(start + dec(n)) {
        None
    } else if !taken.contains(start + dec(n)) {
        Some(start + dec(n))
    } else {
        numbered(taken, start, n + 1)
    }
}

/// The name that the device of a VM gets, where these names are taken: the prefix
/// and the identifier, cut to what fits. Where another device has that name, the
/// end of the identifier takes the place of its beginning, and where another has
/// that too, a number takes the place of the identifier.
pub open spec fn chosen(taken: Set<Text>, prefix: Text, vm_id: Text) -> Option<Text> {
    let first = cut(prefix + vm_id);
    let second = with_end(cut(prefix), vm_id);
    if !taken.contains(first) {
        Some(first)
    } else if !taken.contains(second) {
        Some(second)
    } else {
        numbered(taken, cut(prefix), 1)
    }
}

/// The names of the devices of the other VMs.
pub open spec fn other_names(taps: Map<Text, Text>, vm_id: Text) -> Set<Text> {
    taps.remove(vm_id).values()
}

/// Whether a text can be an interface name, by its length.
fn fits_name(name: &str) -> (r: bool)
    ensures
        r == fits(name@),
{
    name.as_bytes().len() <= NAME_BYTES
}

/// As much of the beginning of a text as fits.
fn cut_text(text: &str) -> (r: String)
    ensures
        r@ == cut(text@),
{
    let cs = chars_of(text);
    let mut n: usize = cs.len();
    assert(cs@.take(n as int) =~= text@);
    loop
        invariant
            n <= cs@.len(),
            cs@ == text@,
            cut(text@) == cut(cs@.take(n as int)),
        decreases n,
    {
        let s = text_of(&cs, 0, n);
        assert(s@ =~= cs@.take(n as int));
        if n == 0 || fits_name(s.as_str()) {
            return s;
        }
        assert(cs@.take(n as int).drop_last() =~= cs@.take(n - 1));
        n = n - 1;
    }
}

/// The start of a name, then as much of the end of an identifier as fits.
fn end_text(start: &str, id: &str) -> (r: String)
    ensures
        r@ == with_end(start@, id@),
{
    let cs = chars_of(id);
    let mut from: usize = 0;
    assert(cs@.skip(0) =~= id@);
    loop
        invariant
            from <= cs@.len(),
            cs@ == id@,
            with_end(start@, id@) == with_end(start@, cs@.skip(from as int)),
        decreases cs@.len() - from,
    {
        let end = text_of(&cs, from, cs.len());
        assert(end@ =~= cs@.skip(from as int));
        let name = cat2(start, end.as_str());
        if from == cs.len() || fits_name(name.as_str()) {
            return name;
        }
        assert(cs@.skip(from as int).drop_first() =~= cs@.skip(from + 1));
        from = from + 1;
    }
}

/// Whether a text is in a list.
fn listed(names: &Vec<String>, name: &str) -> (r: bool)
    ensures
        r == strs(names@).contains(name@),
{
    let mut i: usize = 0;
    while i < names.len()
        invariant
            i <= names@.len(),
            forall|j: int| 0 <= j < i ==> strs(names@)[j] != name@,
        decreases names@.len() - i,
    {
        if same_text(names[i].as_str(), name) {
            assert(strs(names@)[i as int] == name@);
            return true;
        }
        i = i + 1;
    }
    false
}

/// The name that the device of a VM gets, where these names are taken.
pub fn choose_name(taken: &Vec<String>, prefix: &str, vm_id: &str) -> (r: Option<String>)
    ensures
        match r {
            Some(name) => chosen(strs(taken@).to_set(), prefix@, vm_id@) == Some(name@),
            None => chosen(strs(taken@).to_set(), prefix@, vm_id@) is None,
        },
{
    let ghost set = strs(taken@).to_set();
    let first = cut_text(cat2(prefix, vm_id).as_str());
    if !listed(taken, first.as_str()) {
        return Some(first);
    }
    let start = cut_text(prefix);
    let second = end_text(start.as_str(), vm_id);
    if !listed(taken, second.as_str()) {
        return Some(second);
    }
    let mut n: u64 = 1;
    loop
        invariant
            n >= 1,
            start@ == cut(prefix@),
            set == strs(taken@).to_set(),
            chosen(set, prefix@, vm_id@) == numbered(set, start@, n as nat),
        decreases u64::MAX - n,
    {
        let name = cat2(start.as_str(), dec_text(n).as_str());
        if !fits_name(name.as_str()) {
            return None;
        }
        if !listed(taken, name.as_str()) {
            return Some(name);
        }
        if n == u64::MAX {
            assert(numbered(set, start@, n as nat + 1) is None);
            return None;
        }
        n = n + 1;
    }
}

// ---------------------------------------------------------------------
// Laws
// ---------------------------------------------------------------------

proof fn lemma_cut(text: Text)
    ensures
        fits(cut(text)),
        cut(text).is_prefix_of(text),
        fits(text) ==> cut(text) == text,
    decreases text.len(),
{
    if text.len() == 0 || fits(text) {
        assert(text.take(text.len() as int) =~= text);
    } else {
        lemma_cut(text.drop_last());
    }
}

/// A text that is cut keeps every beginning of it that fits.
proof fn lemma_cut_keeps(start: Text, rest: Text)
    ensures
        cut(start).is_prefix_of(cut(start + rest)),
    decreases rest.len(),
{
    lemma_cut(start);
    let whole = start + rest;
    if rest.len() == 0 {
        assert(whole =~= start);
        assert(cut(start).take(cut(start).len() as int) =~= cut(start));
    } else if fits(whole) {
        assert(whole.take(cut(start).len() as int) =~= start.take(cut(start).len() as int));
    } else {
        assert(whole.drop_last() =~= start + rest.drop_last());
        lemma_cut_keeps(start, rest.drop_last());
    }
}

proof fn lemma_numbered(taken: Set<Text>, start: Text, n: nat)
    requires
        n <= u64::MAX,
    ensures
        numbered(taken, start, n) matches Some(name) ==> {
            &&& fits(name)
            &&& !taken.contains(name)
            &&& start.is_prefix_of(name)
        },
    decreases u64::MAX + 1 - n,
{
    if fits(start + dec(n)) {
        assert((start + dec(n)).take(start.len() as int) =~= start);
        if taken.contains(start + dec(n)) && n < u64::MAX {
            lemma_numbered(taken, start, n + 1);
        }
    }
}

proof fn lemma_all_numbers_taken(taken: Set<Text>, start: Text, n: nat, last: nat)
    requires
        1 <= n <= last <= u64::MAX,
        numbered(taken, start, n) is None,
        forall|m: nat| n <= m <= last ==> fits(start + #[trigger] dec(m)),
    ensures
        forall|m: nat| n <= m <= last ==> taken.contains(start + #[trigger] dec(m)),
    decreases last - n,
{
    assert(fits(start + dec(n)));
    if n < last {
        lemma_all_numbers_taken(taken, start, n + 1, last);
    }
    assert forall|m: nat| n <= m <= last implies taken.contains(start + #[trigger] dec(m)) by {
        if m > n {
            assert(n + 1 <= m);
        }
    }
}

/// Where the beginning of an identifier gives way to its end, that is the longest
/// that fits: the whole identifier, or one that would not fit with one character
/// more.
pub proof fn law_name_keeps_the_end(start: Text, id: Text)
    requires
        fits(start),
    ensures
        fits(with_end(start, id)),
        exists|k: int|
            0 <= k <= id.len() && with_end(start, id) == start + #[trigger] id.skip(k) && (k == 0
                || !fits(start + id.skip(k - 1))),
    decreases id.len(),
{
    if id.len() == 0 || fits(start + id) {
        assert(id.skip(0) =~= id);
        if id.len() == 0 {
            assert(start + id =~= start);
        }
    } else {
        let rest = id.drop_first();
        law_name_keeps_the_end(start, rest);
        let k = choose|k: int|
            0 <= k <= rest.len() && with_end(start, rest) == start + #[trigger] rest.skip(k) && (k
                == 0 || !fits(start + rest.skip(k - 1)));
        assert(rest.skip(k) =~= id.skip(k + 1));
        if k == 0 {
            assert(id.skip(0) =~= id);
        } else {
            assert(rest.skip(k - 1) =~= id.skip(k));
        }
    }
}

/// A name that is given fits an interface, is not taken, and begins with the
/// prefix, wherever the prefix itself fits.
pub proof fn law_chosen_name(taken: Set<Text>, prefix: Text, vm_id: Text)
    ensures
        chosen(taken, prefix, vm_id) matches Some(name) ==> {
            &&& fits(name)
            &&& !taken.contains(name)
            &&& cut(prefix).is_prefix_of(name)
            &&& fits(prefix) ==> prefix.is_prefix_of(name)
        },
{
    let start = cut(prefix);
    lemma_cut(prefix);
    lemma_cut(prefix + vm_id);
    lemma_cut_keeps(prefix, vm_id);
    law_name_keeps_the_end(start, vm_id);
    let second = with_end(start, vm_id);
    let k = choose|k: int|
        0 <= k <= vm_id.len() && second == start + #[trigger] vm_id.skip(k) && (k == 0 || !fits(
            start + vm_id.skip(k - 1),
        ));
    assert(second.take(start.len() as int) =~= start);
    lemma_numbered(taken, start, 1);
}

/// A name that no other device has is the prefix and the identifier, cut to what
/// fits; where both fit it is exactly that.
pub proof fn law_free_name_is_given(taken: Set<Text>, prefix: Text, vm_id: Text)
    requires
        !taken.contains(cut(prefix + vm_id)),
    ensures
        chosen(taken, prefix, vm_id) == Some(cut(prefix + vm_id)),
        fits(prefix + vm_id) ==> chosen(taken, prefix, vm_id) == Some(prefix + vm_id),
{
    lemma_cut(prefix + vm_id);
}

/// No two VMs have devices of one name.
pub open spec fn names_distinct(taps: Map<Text, Text>) -> bool {
    forall|a: Text, b: Text|
        #![trigger taps[a], taps[b]]
        taps.dom().contains(a) && taps.dom().contains(b) && a != b ==> taps[a] != taps[b]
}

/// Live devices keep different names: at the start, where a device gets the name
/// that was chosen for it, and where one is removed.
pub proof fn law_live_names_stay_distinct(taps: Map<Text, Text>, prefix: Text, vm_id: Text)
    requires
        names_distinct(taps),
    ensures
        names_distinct(Map::empty()),
        chosen(other_names(taps, vm_id), prefix, vm_id) matches Some(name) ==> names_distinct(
            taps.insert(vm_id, name),
        ),
        names_distinct(taps.remove(vm_id)),
{
    let taken = other_names(taps, vm_id);
    law_chosen_name(taken, prefix, vm_id);
    if let Some(name) = chosen(taken, prefix, vm_id) {
        assert forall|a: Text| taps.dom().contains(a) && a != vm_id implies #[trigger] taps[a]
            != name by {
            let others = taps.remove(vm_id);
            assert(others.dom().contains(a));
            assert(others.values().contains(others[a]));
        }
    }
}

/// A VM that asks again, while the devices of the others stay as they are, gets
/// the name that it has.
pub proof fn law_name_is_given_again(taps: Map<Text, Text>, prefix: Text, vm_id: Text, name: Text)
    requires
        chosen(other_names(taps, vm_id), prefix, vm_id) == Some(name),
    ensures
        chosen(other_names(taps.insert(vm_id, name), vm_id), prefix, vm_id) == Some(name),
{
    assert(taps.insert(vm_id, name).remove(vm_id) =~= taps.remove(vm_id));
}

proof fn lemma_encode_concat(a: Text, b: Text)
    ensures
        encode_utf8(a + b) == encode_utf8(a) + encode_utf8(b),
    decreases a.len(),
{
    if a.len() == 0 {
        assert(a + b =~= b);
    } else {
        lemma_encode_concat(a.drop_first(), b);
        assert((a + b).drop_first() =~= a.drop_first() + b);
        assert(encode_utf8(a + b) =~= encode_scalar(a[0] as u32) + (encode_utf8(a.drop_first())
            + encode_utf8(b)));
    }
}

proof fn lemma_numeral_bytes(n: nat)
    ensures
        encode_utf8(dec(n)).len() == dec(n).len(),
{
    lemma_dec_digits(n);
    assert(is_ascii_chars(dec(n))) by {
        assert forall|i: int| 0 <= i < dec(n).len() implies '\0' <= #[trigger] dec(n)[i]
            <= '\u{7f}' by {
            assert(is_digit(dec(n)[i], 10));
        }
    }
    is_ascii_chars_encode_utf8(dec(n));
}

proof fn lemma_numeral_grows(m: nat, n: nat)
    requires
        m <= n,
    ensures
        dec(m).len() <= dec(n).len(),
    decreases n,
{
    lemma_dec_digits(n);
    if m >= 10 {
        lemma_numeral_grows(m / 10, n / 10);
    }
}

/// A name is owed as long as there is room behind the prefix for a number that is
/// larger than the number of the other devices.
pub proof fn law_name_is_owed(taps: Map<Text, Text>, prefix: Text, vm_id: Text)
    requires
        taps.dom().finite(),
        taps.remove(vm_id).dom().len() < u64::MAX,
        fits(prefix + dec(taps.remove(vm_id).dom().len() + 1)),
    ensures
        chosen(other_names(taps, vm_id), prefix, vm_id) is Some,
{
    let others = taps.remove(vm_id);
    let taken = other_names(taps, vm_id);
    let last = others.dom().len() + 1;
    lemma_encode_concat(prefix, dec(last));
    lemma_cut(prefix);
    if chosen(taken, prefix, vm_id) is None {
        assert forall|m: nat| 1 <= m <= last implies fits(prefix + #[trigger] dec(m)) by {
            lemma_numeral_grows(m, last);
            lemma_numeral_bytes(m);
            lemma_numeral_bytes(last);
            lemma_encode_concat(prefix, dec(m));
        }
        lemma_all_numbers_taken(taken, prefix, 1, last);
        let numbers = set_int_range(1, last as int + 1);
        let f = |n: int| prefix + dec(n as nat);
        let names = numbers.map(f);
        lemma_int_range(1, last as int + 1);
        assert forall|x: int, y: int|
            numbers.contains(x) && numbers.contains(y) && #[trigger] f(x) == #[trigger] f(
                y,
            ) implies x == y by {
            let n = prefix.len() as int;
            assert(f(x).skip(n) =~= dec(x as nat));
            assert(f(y).skip(n) =~= dec(y as nat));
            law_dec_injective(x as nat, y as nat);
        }
        lemma_map_size(numbers, names, f);
        assert forall|name: Text| names.contains(name) implies taken.contains(name) by {
            let x = choose|x: int| numbers.contains(x) && #[trigger] f(x) == name;
            assert(taken.contains(prefix + dec(x as nat)));
        }
        others.lemma_values_len();
        lemma_len_subset(names, taken);
    }
}

proof fn lemma_cut_is_longest(text: Text)
    ensures
        exists|k: int|
            0 <= k <= text.len() && cut(text) == #[trigger] text.take(k) && (k == text.len()
                || !fits(text.take(k + 1))),
    decreases text.len(),
{
    if text.len() == 0 || fits(text) {
        assert(text.take(text.len() as int) =~= text);
    } else {
        let head = text.drop_last();
        lemma_cut_is_longest(head);
        let k = choose|k: int|
            0 <= k <= head.len() && cut(head) == #[trigger] head.take(k) && (k == head.len()
                || !fits(head.take(k + 1)));
        assert(head.take(k) =~= text.take(k));
        if k == head.len() {
            assert(text.take(k + 1) =~= text);
        } else {
            assert(head.take(k + 1) =~= text.take(k + 1));
        }
    }
}

/// A VM whose name no other device bears gets a device that is named by the prefix
/// and the identifier: all of it where an interface name can hold it, else as much
/// of its beginning as one can hold.
pub proof fn law_device_bears_the_name(
    taken: &Vec<String>,
    prefix: &str,
    vm_id: &str,
    r: Option<String>,
)
    requires
        call_ensures(choose_name, (taken, prefix, vm_id), r),
        forall|k: int|
            0 <= k <= (prefix@ + vm_id@).len() ==> !strs(taken@).contains(
                #[trigger] (prefix@ + vm_id@).take(k),
            ),
    ensures
        r is Some,
        encode_utf8(r->Some_0@).len() <= 15,
        encode_utf8(prefix@ + vm_id@).len() <= 15 ==> r->Some_0@ == prefix@ + vm_id@,
        exists|k: int|
            0 <= k <= (prefix@ + vm_id@).len() && r->Some_0@ == #[trigger] (prefix@ + vm_id@).take(k)
                && (k == (prefix@ + vm_id@).len() || encode_utf8((prefix@ + vm_id@).take(k + 1)).len()
                > 15),
{
    let whole = prefix@ + vm_id@;
    lemma_cut(whole);
    lemma_cut_is_longest(whole);
    let k = choose|k: int|
        0 <= k <= whole.len() && cut(whole) == #[trigger] whole.take(k) && (k == whole.len()
            || !fits(whole.take(k + 1)));
    assert(!strs(taken@).contains(whole.take(k)));
    assert(!strs(taken@).to_set().contains(cut(whole)));
    assert(r->Some_0@ == whole.take(k));
}

} // verus!
