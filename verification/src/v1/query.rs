//! Query pairs of list requests: optional values are left out, numbers
//! are written in decimal, flags appear only when set, and a list of
//! values gives one pair per value.

use vstd::prelude::*;
use vstd::string::*;

use crate::text::{decimal, u64_decimal};
use crate::v1::json::{fields_view, lemma_values_upto_drop_last, opt_field, values_of, values_upto};

verus! {

/// `true`, as a query value.
pub open spec fn true_text() -> Seq<char> {
    seq!['t', 'r', 'u', 'e']
}

/// The pair for an optional value: none for `None`.
pub open spec fn opt_pair(key: Seq<char>, value: Option<Seq<char>>) -> Seq<(Seq<char>, Seq<char>)> {
    match value {
        Some(v) => seq![(key, v)],
        None => Seq::empty(),
    }
}

/// The pair for an optional number: none for `None`.
pub open spec fn opt_number_pair(key: Seq<char>, value: Option<u32>) -> Seq<
    (Seq<char>, Seq<char>),
> {
    match value {
        Some(n) => seq![(key, decimal(n as nat))],
        None => Seq::empty(),
    }
}

/// The pair for a flag: `key=true` when set, none otherwise.
pub open spec fn flag_pair(key: Seq<char>, set: bool) -> Seq<(Seq<char>, Seq<char>)> {
    if set {
        seq![(key, true_text())]
    } else {
        Seq::empty()
    }
}

/// One pair per value, all with the same key.
pub open spec fn repeated_pairs(key: Seq<char>, values: Seq<Seq<char>>) -> Seq<
    (Seq<char>, Seq<char>),
> {
    values.map_values(|v: Seq<char>| (key, v))
}

/// Whether a flag is unset; such flags are left out of the query.
pub fn is_false(b: &bool) -> (r: bool)
    ensures
        r == !*b,
{
    !*b
}

/// Appends one pair.
pub fn push_pair(pairs: &mut Vec<(String, String)>, key: &str, value: &str)
    ensures
        fields_view(final(pairs)@) == fields_view(old(pairs)@).push((key@, value@)),
{
    pairs.push((String::from_str(key), String::from_str(value)));
    assert(fields_view(pairs@) =~= fields_view(old(pairs)@).push((key@, value@)));
}

/// Appends the pair of an optional value.
pub fn push_opt_pair(pairs: &mut Vec<(String, String)>, key: &str, value: Option<&str>)
    ensures
        fields_view(final(pairs)@) == fields_view(old(pairs)@) + opt_pair(
            key@,
            match value {
                Some(v) => Some(v@),
                None => None,
            },
        ),
{
    match value {
        Some(v) => {
            push_pair(pairs, key, v);
            assert(fields_view(old(pairs)@).push((key@, v@)) =~= fields_view(old(pairs)@)
                + seq![(key@, v@)]);
        },
        None => {
            assert(fields_view(old(pairs)@) =~= fields_view(old(pairs)@) + Seq::<
                (Seq<char>, Seq<char>),
            >::empty());
        },
    }
}

/// Appends the pair of an optional number.
pub fn push_opt_number_pair(pairs: &mut Vec<(String, String)>, key: &str, value: Option<u32>)
    ensures
        fields_view(final(pairs)@) == fields_view(old(pairs)@) + opt_number_pair(key@, value),
{
    match value {
        Some(n) => {
            let text = u64_decimal(n as u64);
            push_pair(pairs, key, text.as_str());
            assert(fields_view(old(pairs)@).push((key@, text@)) =~= fields_view(old(pairs)@)
                + seq![(key@, decimal(n as nat))]);
        },
        None => {
            assert(fields_view(old(pairs)@) =~= fields_view(old(pairs)@) + Seq::<
                (Seq<char>, Seq<char>),
            >::empty());
        },
    }
}

/// Appends `key=true` when the flag is set.
pub fn push_flag_pair(pairs: &mut Vec<(String, String)>, key: &str, set: bool)
    ensures
        fields_view(final(pairs)@) == fields_view(old(pairs)@) + flag_pair(key@, set),
{
    if !is_false(&set) {
        push_pair(pairs, key, "true");
        proof {
            reveal_strlit("true");
            assert("true"@ =~= true_text());
        }
        assert(fields_view(old(pairs)@).push((key@, "true"@)) =~= fields_view(old(pairs)@)
            + seq![(key@, true_text())]);
    } else {
        assert(fields_view(old(pairs)@) =~= fields_view(old(pairs)@) + Seq::<
            (Seq<char>, Seq<char>),
        >::empty());
    }
}

/// Appends one pair per value, all with the same key.
pub fn push_repeated_pairs(pairs: &mut Vec<(String, String)>, key: &str, values: &[String])
    ensures
        fields_view(final(pairs)@) == fields_view(old(pairs)@) + repeated_pairs(
            key@,
            values@.map_values(|s: String| s@),
        ),
{
    let ghost start = fields_view(pairs@);
    let ghost vs = values@.map_values(|s: String| s@);
    let mut i: usize = 0;
    while i < values.len()
        invariant
            vs == values@.map_values(|s: String| s@),
            i <= values.len(),
            fields_view(pairs@) == start + repeated_pairs(key@, vs.take(i as int)),
        decreases values.len() - i,
    {
        push_pair(pairs, key, values[i].as_str());
        assert(repeated_pairs(key@, vs.take(i + 1)) =~= repeated_pairs(key@, vs.take(i as int)).push(
            (key@, values@[i as int]@),
        ));
        i += 1;
    }
    assert(vs.take(values.len() as int) == vs);
}

/// The values of an optional value: one for `Some`, none for `None`.
pub open spec fn opt_values(value: Option<Seq<char>>) -> Seq<Seq<char>> {
    match value {
        Some(v) => seq![v],
        None => Seq::empty(),
    }
}

/// What `opt_pair` gives under each key.
pub proof fn lemma_opt_pair_values(key: Seq<char>, value: Option<Seq<char>>, k: Seq<char>)
    ensures
        values_of(opt_pair(key, value), k) == if key == k {
            opt_values(value)
        } else {
            Seq::<Seq<char>>::empty()
        },
{
    reveal_with_fuel(values_upto, 2);
    assert(values_of(opt_pair(key, value), k) =~= if key == k {
        opt_values(value)
    } else {
        Seq::<Seq<char>>::empty()
    });
}

/// What a single pair gives under each key.
pub proof fn lemma_pair_values(key: Seq<char>, value: Seq<char>, k: Seq<char>)
    ensures
        values_of(seq![(key, value)], k) == if key == k {
            seq![value]
        } else {
            Seq::<Seq<char>>::empty()
        },
{
    reveal_with_fuel(values_upto, 2);
    assert(values_of(seq![(key, value)], k) =~= if key == k {
        seq![value]
    } else {
        Seq::<Seq<char>>::empty()
    });
}

/// No pairs give nothing under any key.
pub proof fn lemma_no_pair_values(k: Seq<char>)
    ensures
        values_of(Seq::<(Seq<char>, Seq<char>)>::empty(), k) == Seq::<Seq<char>>::empty(),
{
}

/// What an optional object member gives under each key.
pub proof fn lemma_opt_field_values(key: Seq<char>, value: Option<Seq<char>>, k: Seq<char>)
    ensures
        values_of(opt_field(key, value), k) == if key == k {
            opt_values(value)
        } else {
            Seq::<Seq<char>>::empty()
        },
{
    reveal_with_fuel(values_upto, 2);
    assert(values_of(opt_field(key, value), k) =~= if key == k {
        opt_values(value)
    } else {
        Seq::<Seq<char>>::empty()
    });
}

/// What `opt_number_pair` gives under each key.
pub proof fn lemma_opt_number_pair_values(key: Seq<char>, value: Option<u32>, k: Seq<char>)
    ensures
        values_of(opt_number_pair(key, value), k) == if key == k {
            match value {
                Some(n) => seq![decimal(n as nat)],
                None => Seq::<Seq<char>>::empty(),
            }
        } else {
            Seq::<Seq<char>>::empty()
        },
{
    reveal_with_fuel(values_upto, 2);
    assert(values_of(opt_number_pair(key, value), k) =~= if key == k {
        match value {
            Some(n) => seq![decimal(n as nat)],
            None => Seq::<Seq<char>>::empty(),
        }
    } else {
        Seq::<Seq<char>>::empty()
    });
}

/// What `flag_pair` gives under each key.
pub proof fn lemma_flag_pair_values(key: Seq<char>, set: bool, k: Seq<char>)
    ensures
        values_of(flag_pair(key, set), k) == if key == k && set {
            seq![true_text()]
        } else {
            Seq::<Seq<char>>::empty()
        },
{
    reveal_with_fuel(values_upto, 2);
    assert(values_of(flag_pair(key, set), k) =~= if key == k && set {
        seq![true_text()]
    } else {
        Seq::<Seq<char>>::empty()
    });
}

/// What `repeated_pairs` gives under each key.
pub proof fn lemma_repeated_pairs_values(key: Seq<char>, values: Seq<Seq<char>>, k: Seq<char>)
    ensures
        values_of(repeated_pairs(key, values), k) == if key == k {
            values
        } else {
            Seq::<Seq<char>>::empty()
        },
    decreases values.len(),
{
    let r = repeated_pairs(key, values);
    if values.len() > 0 {
        lemma_repeated_pairs_values(key, values.drop_last(), k);
        assert(repeated_pairs(key, values.drop_last()) =~= r.drop_last());
        assert(values_of(r, k) == values_upto(r, k, (r.len() - 1) as nat) + if r[r.len() - 1].0 == k {
            seq![r[r.len() - 1].1]
        } else {
            Seq::<Seq<char>>::empty()
        });
        lemma_values_upto_drop_last(r, k);
        if key == k {
            assert(values_of(r, k) =~= values);
        } else {
            assert(values_of(r, k) =~= Seq::<Seq<char>>::empty());
        }
    } else {
        assert(values_of(r, k) =~= Seq::<Seq<char>>::empty());
    }
}

/// The view of an optional string slice.
pub open spec fn opt_str_view(o: Option<&str>) -> Option<Seq<char>> {
    match o {
        Some(s) => Some(s@),
        None => None,
    }
}

} // verus!
